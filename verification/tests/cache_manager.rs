use std::hash::Hash;
use std::hash::Hasher;
use std::path::PathBuf;

use nebu_cache::cache::decide;
use nebu_cache::cache::Decision;
use nebu_cache::error::BackendError;
use nebu_cache::error::BackendErrorKind;
use nebu_cache::key::Keyed;
use nebu_cache::CacheManager;
use nebu_cache::Error;
use nebu_cache::Refresh;
use nebu_cache::RepoCache;

/// A resource whose answers are scripted, and which counts what it is asked.
struct Scripted {
    fresh: Result<bool, String>,
    refresh: Result<bool, String>,
    probes: std::cell::Cell<u32>,
    refreshes: u32,
    locations: std::cell::RefCell<Vec<String>>,
}

impl Scripted {
    fn new(fresh: Result<bool, String>, refresh: Result<bool, String>) -> Scripted {
        Scripted {
            fresh,
            refresh,
            probes: std::cell::Cell::new(0),
            refreshes: 0,
            locations: std::cell::RefCell::new(Vec::new()),
        }
    }
}

impl Keyed for Scripted {
    fn identity_bytes(&self) -> Vec<u8> {
        vec![b'a']
    }
}

impl Refresh for Scripted {
    fn is_fresh(&self, location: &str) -> Result<bool, Error> {
        self.probes.set(self.probes.get() + 1);
        self.locations.borrow_mut().push(location.to_string());
        match &self.fresh {
            Ok(b) => Ok(*b),
            Err(m) => Err(Error::Other(m.clone())),
        }
    }

    fn refresh(&mut self, location: &str) -> Result<bool, Error> {
        self.refreshes += 1;
        self.locations.borrow_mut().push(location.to_string());
        match &self.refresh {
            Ok(b) => {
                self.fresh = Ok(true);
                Ok(*b)
            }
            Err(m) => Err(Error::IoError(m.clone())),
        }
    }
}

/// A resource that hands back the manager's own view of it.
struct Spy<'a> {
    inner: Scripted,
    probes: &'a std::cell::Cell<u32>,
    refreshes: &'a std::cell::Cell<u32>,
}

impl<'a> Keyed for Spy<'a> {
    fn identity_bytes(&self) -> Vec<u8> {
        self.inner.identity_bytes()
    }
}

impl<'a> Refresh for Spy<'a> {
    fn is_fresh(&self, location: &str) -> Result<bool, Error> {
        self.probes.set(self.probes.get() + 1);
        self.inner.is_fresh(location)
    }

    fn refresh(&mut self, location: &str) -> Result<bool, Error> {
        self.refreshes.set(self.refreshes.get() + 1);
        self.inner.refresh(location)
    }
}

#[test]
fn try_refresh_refreshes_a_stale_entry_once_then_skips() {
    let probes = std::cell::Cell::new(0);
    let refreshes = std::cell::Cell::new(0);
    let spy = Spy { inner: Scripted::new(Ok(false), Ok(true)), probes: &probes, refreshes: &refreshes };
    let mut manager = CacheManager::new("root".to_string(), spy);

    assert_eq!(manager.try_refresh().unwrap(), true);
    assert_eq!((probes.get(), refreshes.get()), (1, 1));

    assert_eq!(manager.is_fresh().unwrap(), true);
    assert_eq!(manager.try_refresh().unwrap(), false);
    assert_eq!((probes.get(), refreshes.get()), (3, 1));
}

#[test]
fn try_refresh_leaves_a_fresh_entry_alone() {
    let probes = std::cell::Cell::new(0);
    let refreshes = std::cell::Cell::new(0);
    let spy = Spy { inner: Scripted::new(Ok(true), Ok(true)), probes: &probes, refreshes: &refreshes };
    let mut manager = CacheManager::new("root".to_string(), spy);
    assert_eq!(manager.try_refresh().unwrap(), false);
    assert_eq!((probes.get(), refreshes.get()), (1, 0));
}

#[test]
fn try_refresh_passes_a_failed_probe_on_without_refreshing() {
    let probes = std::cell::Cell::new(0);
    let refreshes = std::cell::Cell::new(0);
    let spy = Spy {
        inner: Scripted::new(Err("corrupt".to_string()), Ok(true)),
        probes: &probes,
        refreshes: &refreshes,
    };
    let mut manager = CacheManager::new("root".to_string(), spy);
    match manager.try_refresh() {
        Err(Error::Other(m)) => assert_eq!(m, "corrupt"),
        other => panic!("unexpected outcome: {:?}", other),
    }
    assert_eq!((probes.get(), refreshes.get()), (1, 0));
}

#[test]
fn try_refresh_passes_a_failed_refresh_on() {
    let probes = std::cell::Cell::new(0);
    let refreshes = std::cell::Cell::new(0);
    let spy = Spy {
        inner: Scripted::new(Ok(false), Err("disk full".to_string())),
        probes: &probes,
        refreshes: &refreshes,
    };
    let mut manager = CacheManager::new("root".to_string(), spy);
    match manager.try_refresh() {
        Err(Error::IoError(m)) => assert_eq!(m, "disk full"),
        other => panic!("unexpected outcome: {:?}", other),
    }
    assert_eq!((probes.get(), refreshes.get()), (1, 1));
}

#[test]
fn refresh_does_not_probe() {
    let probes = std::cell::Cell::new(0);
    let refreshes = std::cell::Cell::new(0);
    let spy = Spy { inner: Scripted::new(Ok(true), Ok(false)), probes: &probes, refreshes: &refreshes };
    let mut manager = CacheManager::new("root".to_string(), spy);
    assert_eq!(manager.refresh().unwrap(), false);
    assert_eq!((probes.get(), refreshes.get()), (0, 1));
}

#[test]
fn decide_maps_each_probe_answer() {
    assert!(matches!(decide(Ok(true)), Decision::Skip));
    assert!(matches!(decide(Ok(false)), Decision::Refresh));
    let failure = Error::GitError(BackendError {
        kind: BackendErrorKind::Other,
        message: "bad object".to_string(),
    });
    match decide(Err(failure)) {
        Decision::Fail(Error::GitError(e)) => {
            assert_eq!(e.kind, BackendErrorKind::Other);
            assert_eq!(e.message, "bad object");
        }
        other => panic!("unexpected decision: {:?}", other),
    }
}

#[test]
fn the_resource_is_handed_the_derived_location() {
    let mut manager = CacheManager::new("root".to_string(), Scripted::new(Ok(false), Ok(true)));
    let location = manager.location().to_string();
    // XXH64 of the single byte "a" under seed 0.
    assert_eq!(location, format!("root/{}", 0xd24ec4f1a98c6e5b_u64));
    manager.try_refresh().unwrap();
    manager.is_fresh().unwrap();
    manager.refresh().unwrap();
    assert_eq!(manager.location(), location);
}

#[test]
fn constructing_a_manager_touches_nothing() {
    let manager = CacheManager::new("root".to_string(), Scripted::new(Ok(false), Ok(true)));
    assert!(manager.location().starts_with("root/"));
}

#[test]
fn equal_identities_share_a_location() {
    let a = CacheManager::new(
        "/var/cache".to_string(),
        RepoHandle(RepoCache::new("https://example/tpl.git", "main", "origin")),
    );
    let b = CacheManager::new(
        "/var/cache".to_string(),
        RepoHandle(RepoCache::new("https://example/tpl.git", "main", "origin")),
    );
    assert_eq!(a.location(), b.location());
}

#[test]
fn different_identities_are_kept_apart() {
    let locate = |repo: &str, branch: &str, remote: &str| {
        CacheManager::new("r".to_string(), RepoHandle(RepoCache::new(repo, branch, remote)))
            .location()
            .to_string()
    };
    let base = locate("https://example/tpl.git", "main", "origin");
    assert_ne!(base, locate("https://example/tpl.git", "dev", "origin"));
    assert_ne!(base, locate("https://example/tpl.git", "main", "upstream"));
    assert_ne!(base, locate("https://example/other.git", "main", "origin"));
    // The fields are kept apart: moving a character across a boundary changes the key.
    assert_ne!(locate("ab", "c", "d"), locate("a", "bc", "d"));
    assert_ne!(locate("a", "b", ""), locate("a", "", "b"));
}

/// A repository identity that serves as a resource without a backend.
struct RepoHandle(RepoCache);

impl Keyed for RepoHandle {
    fn identity_bytes(&self) -> Vec<u8> {
        self.0.identity_bytes()
    }
}

impl Refresh for RepoHandle {
    fn is_fresh(&self, _location: &str) -> Result<bool, Error> {
        Ok(false)
    }

    fn refresh(&mut self, _location: &str) -> Result<bool, Error> {
        Ok(false)
    }
}

#[test]
fn the_location_is_the_root_joined_with_the_digest_of_the_identity() {
    let repo = RepoCache::new("https://example/tpl.git", "main", "origin");

    // The key as a streaming hasher computes it from the identity's fields.
    let mut hasher = twox_hash::XxHash64::with_seed(0);
    repo.hash(&mut hasher);
    let expected = PathBuf::from("/home/u/.nebu").join(hasher.finish().to_string());

    let manager = CacheManager::new("/home/u/.nebu".to_string(), RepoHandle(repo));
    assert_eq!(manager.location(), expected.to_str().unwrap());
}
