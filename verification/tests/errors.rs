use nebu_cache::backend::LocationStat;
use nebu_cache::credentials::transfer_failure;
use nebu_cache::credentials::wants_stored_secret;
use nebu_cache::credentials::CredentialTypes;
use nebu_cache::credentials::DEFAULT;
use nebu_cache::credentials::SSH_KEY;
use nebu_cache::credentials::USER_PASS_PLAINTEXT;
use nebu_cache::error::BackendError;
use nebu_cache::error::BackendErrorKind;
use nebu_cache::Error;

#[test]
fn only_the_backends_not_found_counts_as_not_found() {
    let missing = BackendError { kind: BackendErrorKind::NotFound, message: "gone".to_string() };
    assert!(missing.is_not_found());
    assert!(Error::GitError(missing).is_not_found());
    assert!(!BackendError::other("broken").is_not_found());
    assert!(!Error::backend("broken").is_not_found());
    assert!(!Error::IoError("not found".to_string()).is_not_found());
    assert!(!Error::Other("not found".to_string()).is_not_found());
    assert!(!Error::NoCredentials.is_not_found());
}

#[test]
fn a_backend_failure_carries_its_message() {
    let e = BackendError::other("bad object");
    assert_eq!(e.kind, BackendErrorKind::Other);
    assert_eq!(e.message, "bad object");
    match Error::backend("bad object") {
        Error::GitError(e) => {
            assert_eq!(e.kind, BackendErrorKind::Other);
            assert_eq!(e.message, "bad object");
        }
        other => panic!("unexpected: {:?}", other),
    }
}

#[test]
fn a_copy_of_a_failure_is_the_same_failure() {
    let missing = BackendError { kind: BackendErrorKind::NotFound, message: "gone".to_string() };
    let copy = missing.duplicate();
    assert_eq!((copy.kind, copy.message.as_str()), (BackendErrorKind::NotFound, "gone"));

    assert!(matches!(Error::GitError(missing).duplicate(), Error::GitError(e)
        if e.kind == BackendErrorKind::NotFound && e.message == "gone"));
    assert!(matches!(Error::IoError("disk".to_string()).duplicate(), Error::IoError(m) if m == "disk"));
    assert!(matches!(Error::Other("odd".to_string()).duplicate(), Error::Other(m) if m == "odd"));
    assert!(matches!(Error::NoCredentials.duplicate(), Error::NoCredentials));
}

#[test]
fn a_location_is_present_only_as_an_existing_directory() {
    assert!(LocationStat { exists: true, is_dir: true }.is_present());
    assert!(!LocationStat { exists: true, is_dir: false }.is_present());
    assert!(!LocationStat { exists: false, is_dir: false }.is_present());
    assert!(!LocationStat { exists: false, is_dir: true }.is_present());
}

#[test]
fn a_negotiation_that_gave_up_is_the_cause_of_the_failed_transfer() {
    assert!(matches!(transfer_failure(true, Error::backend("callback failed")), Error::NoCredentials));
    assert!(matches!(
        transfer_failure(false, Error::backend("connection reset")),
        Error::GitError(e) if e.message == "connection reset"
    ));
}

#[test]
fn the_stored_secret_is_wanted_only_for_a_plain_text_answer() {
    assert!(wants_stored_secret(CredentialTypes { bits: USER_PASS_PLAINTEXT }));
    assert!(wants_stored_secret(CredentialTypes { bits: USER_PASS_PLAINTEXT | DEFAULT }));
    assert!(!wants_stored_secret(CredentialTypes { bits: USER_PASS_PLAINTEXT | SSH_KEY }));
    assert!(!wants_stored_secret(CredentialTypes { bits: SSH_KEY }));
    assert!(!wants_stored_secret(CredentialTypes { bits: DEFAULT }));
    assert!(!wants_stored_secret(CredentialTypes { bits: 0 }));
}
