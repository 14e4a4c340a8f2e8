use nebu_cache::backend::CommitId;
use nebu_cache::backend::Divergence;
use nebu_cache::backend::LocationStat;
use nebu_cache::backend::Reply;
use nebu_cache::error::BackendError;
use nebu_cache::error::BackendErrorKind;
use nebu_cache::probe::ProbeAction;
use nebu_cache::probe::ProbeLog;
use nebu_cache::Error;
use nebu_cache::RepoCache;

fn repo() -> RepoCache {
    RepoCache::new("https://example/tpl.git", "main", "origin")
}

fn dir() -> LocationStat {
    LocationStat { exists: true, is_dir: true }
}

fn id(n: u8) -> CommitId {
    CommitId { bytes: vec![n; 20] }
}

fn not_found() -> Error {
    Error::GitError(BackendError { kind: BackendErrorKind::NotFound, message: "no repo".to_string() })
}

fn fault(message: &str) -> Error {
    Error::GitError(BackendError { kind: BackendErrorKind::Other, message: message.to_string() })
}

fn compared(ahead: usize, behind: usize) -> ProbeLog {
    ProbeLog {
        stat: Some(dir()),
        opened: Some(Reply::Value(())),
        local_tip: Some(Reply::Value(Some(id(1)))),
        upstream_tip: Some(Reply::Value(Some(id(2)))),
        divergence: Some(Reply::Value(Divergence { ahead, behind })),
    }
}

fn verdict(log: &ProbeLog) -> Result<bool, Error> {
    match repo().probe_next(log) {
        ProbeAction::Finish(v) => v,
        other => panic!("the probe is not over: {:?}", other),
    }
}

fn backend_message(e: Error) -> (BackendErrorKind, String) {
    match e {
        Error::GitError(b) => (b.kind, b.message),
        other => panic!("not a backend failure: {:?}", other),
    }
}

#[test]
fn a_probe_starts_by_looking_at_the_location() {
    assert!(matches!(repo().probe_next(&ProbeLog::new()), ProbeAction::Stat));
}

#[test]
fn a_missing_location_is_not_fresh_and_no_failure() {
    let mut log = ProbeLog::new();
    log.stat = Some(LocationStat { exists: false, is_dir: false });
    assert_eq!(verdict(&log).unwrap(), false);
}

#[test]
fn a_file_in_place_of_the_directory_is_not_fresh() {
    let mut log = ProbeLog::new();
    log.stat = Some(LocationStat { exists: true, is_dir: false });
    assert_eq!(verdict(&log).unwrap(), false);
}

#[test]
fn a_directory_is_opened_next() {
    let mut log = ProbeLog::new();
    log.stat = Some(dir());
    assert!(matches!(repo().probe_next(&log), ProbeAction::Open));
}

#[test]
fn a_directory_without_a_repository_is_not_fresh() {
    let mut log = ProbeLog::new();
    log.stat = Some(dir());
    log.opened = Some(Reply::Failed(not_found()));
    assert_eq!(verdict(&log).unwrap(), false);
}

#[test]
fn another_failure_to_open_is_passed_on() {
    let mut log = ProbeLog::new();
    log.stat = Some(dir());
    log.opened = Some(Reply::Failed(fault("corrupt index")));
    let (kind, message) = backend_message(verdict(&log).unwrap_err());
    assert_eq!(kind, BackendErrorKind::Other);
    assert_eq!(message, "corrupt index");
}

#[test]
fn a_filesystem_failure_on_open_is_passed_on() {
    let mut log = ProbeLog::new();
    log.stat = Some(dir());
    log.opened = Some(Reply::Failed(Error::IoError("permission denied".to_string())));
    match verdict(&log) {
        Err(Error::IoError(m)) => assert_eq!(m, "permission denied"),
        other => panic!("unexpected answer {:?}", other),
    }
}

#[test]
fn the_local_branch_of_the_identity_is_resolved() {
    let mut log = ProbeLog::new();
    log.stat = Some(dir());
    log.opened = Some(Reply::Value(()));
    match RepoCache::new("u", "release", "origin").probe_next(&log) {
        ProbeAction::ResolveLocalTip { branch } => assert_eq!(branch, "release"),
        other => panic!("unexpected action: {:?}", other),
    }
}

#[test]
fn a_missing_local_branch_is_a_failure_not_a_stale_entry() {
    let mut log = ProbeLog::new();
    log.stat = Some(dir());
    log.opened = Some(Reply::Value(()));
    log.local_tip = Some(Reply::Failed(not_found()));
    let (kind, message) = backend_message(verdict(&log).unwrap_err());
    assert_eq!(kind, BackendErrorKind::NotFound);
    assert_eq!(message, "no repo");
}

#[test]
fn a_local_branch_without_a_tip_is_a_failure() {
    let mut log = ProbeLog::new();
    log.stat = Some(dir());
    log.opened = Some(Reply::Value(()));
    log.local_tip = Some(Reply::Value(None));
    let (kind, message) = backend_message(verdict(&log).unwrap_err());
    assert_eq!(kind, BackendErrorKind::Other);
    assert_eq!(message, "No local OID found");
}

#[test]
fn the_upstream_of_the_same_branch_is_resolved() {
    let mut log = ProbeLog::new();
    log.stat = Some(dir());
    log.opened = Some(Reply::Value(()));
    log.local_tip = Some(Reply::Value(Some(id(1))));
    match RepoCache::new("u", "release", "origin").probe_next(&log) {
        ProbeAction::ResolveUpstreamTip { branch } => assert_eq!(branch, "release"),
        other => panic!("unexpected action: {:?}", other),
    }
}

#[test]
fn an_upstream_without_a_tip_is_a_failure() {
    let mut log = ProbeLog::new();
    log.stat = Some(dir());
    log.opened = Some(Reply::Value(()));
    log.local_tip = Some(Reply::Value(Some(id(1))));
    log.upstream_tip = Some(Reply::Value(None));
    let (kind, message) = backend_message(verdict(&log).unwrap_err());
    assert_eq!(kind, BackendErrorKind::Other);
    assert_eq!(message, "No remote OID found");
}

#[test]
fn a_failed_upstream_lookup_is_passed_on() {
    let mut log = ProbeLog::new();
    log.stat = Some(dir());
    log.opened = Some(Reply::Value(()));
    log.local_tip = Some(Reply::Value(Some(id(1))));
    log.upstream_tip = Some(Reply::Failed(fault("no upstream configured")));
    let (_, message) = backend_message(verdict(&log).unwrap_err());
    assert_eq!(message, "no upstream configured");
}

#[test]
fn the_two_resolved_tips_are_compared() {
    let mut log = ProbeLog::new();
    log.stat = Some(dir());
    log.opened = Some(Reply::Value(()));
    log.local_tip = Some(Reply::Value(Some(id(7))));
    log.upstream_tip = Some(Reply::Value(Some(id(9))));
    match repo().probe_next(&log) {
        ProbeAction::Compare { local, upstream } => {
            assert_eq!(local.bytes, vec![7; 20]);
            assert_eq!(upstream.bytes, vec![9; 20]);
        }
        other => panic!("unexpected action: {:?}", other),
    }
}

#[test]
fn a_failed_comparison_is_passed_on() {
    let mut log = compared(0, 0);
    log.divergence = Some(Reply::Failed(fault("object missing")));
    let (_, message) = backend_message(verdict(&log).unwrap_err());
    assert_eq!(message, "object missing");
}

#[test]
fn fresh_exactly_when_neither_ahead_nor_behind() {
    assert_eq!(verdict(&compared(0, 0)).unwrap(), true);
    assert_eq!(verdict(&compared(1, 0)).unwrap(), false);
    assert_eq!(verdict(&compared(0, 1)).unwrap(), false);
    assert_eq!(verdict(&compared(3, 2)).unwrap(), false);
    assert_eq!(verdict(&compared(usize::MAX, 0)).unwrap(), false);
    assert_eq!(verdict(&compared(0, usize::MAX)).unwrap(), false);
}

#[test]
fn divergence_is_fresh_only_at_zero_zero() {
    for ahead in 0..4usize {
        for behind in 0..4usize {
            let d = Divergence { ahead, behind };
            assert_eq!(d.is_fresh(), ahead == 0 && behind == 0);
        }
    }
}

#[test]
fn a_probe_asks_five_things_in_order() {
    let cache = repo();
    let mut log = ProbeLog::new();
    let mut asked = Vec::new();
    let verdict = loop {
        match cache.probe_next(&log) {
            ProbeAction::Stat => {
                asked.push("stat");
                log.stat = Some(dir());
            }
            ProbeAction::Open => {
                asked.push("open");
                log.opened = Some(Reply::Value(()));
            }
            ProbeAction::ResolveLocalTip { .. } => {
                asked.push("local");
                log.local_tip = Some(Reply::Value(Some(id(1))));
            }
            ProbeAction::ResolveUpstreamTip { .. } => {
                asked.push("upstream");
                log.upstream_tip = Some(Reply::Value(Some(id(1))));
            }
            ProbeAction::Compare { .. } => {
                asked.push("compare");
                log.divergence = Some(Reply::Value(Divergence { ahead: 0, behind: 0 }));
            }
            ProbeAction::Finish(v) => break v,
        }
        assert!(asked.len() <= 5);
    };
    assert_eq!(asked, vec!["stat", "open", "local", "upstream", "compare"]);
    assert_eq!(verdict.unwrap(), true);
}
