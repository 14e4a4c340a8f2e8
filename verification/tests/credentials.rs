use nebu_cache::credentials::negotiate;
use nebu_cache::credentials::Credential;
use nebu_cache::credentials::CredentialTypes;
use nebu_cache::credentials::Helper;
use nebu_cache::credentials::StoredSecret;
use nebu_cache::credentials::DEFAULT;
use nebu_cache::credentials::SSH_KEY;
use nebu_cache::credentials::USER_PASS_PLAINTEXT;
use nebu_cache::Error;

fn no_helper() -> Helper {
    Helper { username: None, stored: None }
}

fn agent_user(allowed: u32, hint: Option<&str>, helper: &Helper) -> String {
    match negotiate(CredentialTypes { bits: allowed }, &hint.map(|s| s.to_string()), helper) {
        Ok(Credential::SshAgent { username }) => username,
        other => panic!("not an agent attempt: {:?}", other),
    }
}

#[test]
fn the_bits_are_those_of_the_transport() {
    assert_eq!(USER_PASS_PLAINTEXT, git2::CredentialType::USER_PASS_PLAINTEXT.bits());
    assert_eq!(SSH_KEY, git2::CredentialType::SSH_KEY.bits());
    assert_eq!(DEFAULT, git2::CredentialType::DEFAULT.bits());
}

#[test]
fn contains_agrees_with_the_transport() {
    let all = git2::CredentialType::all().bits();
    for bits in 0..=all {
        let theirs = git2::CredentialType::from_bits_truncate(bits);
        let ours = CredentialTypes { bits: theirs.bits() };
        assert_eq!(ours.contains(SSH_KEY), theirs.contains(git2::CredentialType::SSH_KEY));
        assert_eq!(
            ours.contains(USER_PASS_PLAINTEXT),
            theirs.contains(git2::CredentialType::USER_PASS_PLAINTEXT)
        );
        assert_eq!(ours.contains(DEFAULT), theirs.contains(git2::CredentialType::DEFAULT));
    }
}

#[test]
fn ssh_comes_before_plaintext() {
    let helper = Helper {
        username: None,
        stored: Some(StoredSecret { username: "me".to_string(), password: "pw".to_string() }),
    };
    assert_eq!(agent_user(SSH_KEY | USER_PASS_PLAINTEXT, None, &helper), "git");
    assert_eq!(agent_user(SSH_KEY | USER_PASS_PLAINTEXT | DEFAULT, None, &helper), "git");
}

#[test]
fn the_agent_username_is_the_transports_first() {
    let helper = Helper { username: Some("from-config".to_string()), stored: None };
    assert_eq!(agent_user(SSH_KEY, Some("from-url"), &helper), "from-url");
}

#[test]
fn the_agent_username_is_the_helpers_second() {
    let helper = Helper { username: Some("from-config".to_string()), stored: None };
    assert_eq!(agent_user(SSH_KEY, None, &helper), "from-config");
}

#[test]
fn the_agent_username_falls_back_to_git() {
    assert_eq!(agent_user(SSH_KEY, None, &no_helper()), "git");
}

#[test]
fn plaintext_uses_the_stored_pair() {
    let helper = Helper {
        username: Some("ignored".to_string()),
        stored: Some(StoredSecret { username: "me".to_string(), password: "pw".to_string() }),
    };
    match negotiate(CredentialTypes { bits: USER_PASS_PLAINTEXT }, &Some("hint".to_string()), &helper) {
        Ok(Credential::UserPass { username, password }) => {
            assert_eq!(username, "me");
            assert_eq!(password, "pw");
        }
        other => panic!("unexpected: {:?}", other),
    }
}

#[test]
fn plaintext_falls_back_to_git_and_a_blank_password() {
    match negotiate(CredentialTypes { bits: USER_PASS_PLAINTEXT | DEFAULT }, &None, &no_helper()) {
        Ok(Credential::UserPass { username, password }) => {
            assert_eq!(username, "git");
            assert_eq!(password, "");
        }
        other => panic!("unexpected: {:?}", other),
    }
}

#[test]
fn the_default_credential_comes_last() {
    assert!(matches!(
        negotiate(CredentialTypes { bits: DEFAULT }, &None, &no_helper()),
        Ok(Credential::Default)
    ));
}

#[test]
fn nothing_suitable_is_a_failure() {
    assert!(matches!(
        negotiate(CredentialTypes { bits: 0 }, &None, &no_helper()),
        Err(Error::NoCredentials)
    ));
    let unserved = git2::CredentialType::SSH_CUSTOM
        | git2::CredentialType::SSH_INTERACTIVE
        | git2::CredentialType::USERNAME
        | git2::CredentialType::SSH_MEMORY;
    assert!(matches!(
        negotiate(CredentialTypes { bits: unserved.bits() }, &Some("me".to_string()), &no_helper()),
        Err(Error::NoCredentials)
    ));
}
