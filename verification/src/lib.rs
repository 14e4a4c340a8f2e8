//! A freshness-checked cache for externally versioned content.
//!
//! A cacheable resource is named by its identity; the cache manager derives a
//! stable storage location from that identity and refreshes the entry only
//! when a probe says it is stale.
//!
//! The library decides and never touches the disk or the network itself. A
//! probe or a refresh of a repository is a plan: it is handed the answers
//! gathered so far and says what to ask the backend next, or how it ended.

pub mod backend;
pub mod cache;
pub mod cli;
pub mod config;
pub mod credentials;
pub mod error;
pub mod key;
pub mod paths;
pub mod probe;
pub mod repo;
pub mod sync;
pub mod template;
pub mod version;

pub use cache::CacheManager;
pub use cache::Refresh;
pub use error::Error;
pub use repo::RepoCache;
