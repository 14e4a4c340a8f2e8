use nebu_cache::key::compute_cache_key;
use nebu_cache::key::join_location;
use nebu_cache::key::key_name;
use nebu_cache::key::Keyed;
use nebu_cache::key::FIELD_END;
use nebu_cache::key::KEY_SEED;
use nebu_cache::RepoCache;

#[test]
fn the_key_is_the_xxh64_digest_under_seed_zero() {
    assert_eq!(KEY_SEED, 0);
    assert_eq!(compute_cache_key(b""), 0xef46db3751d8e999);
    assert_eq!(compute_cache_key(b"a"), 0xd24ec4f1a98c6e5b);
    assert_eq!(compute_cache_key(b"abc"), twox_hash::XxHash64::oneshot(0, b"abc"));
}

#[test]
fn the_key_depends_on_every_byte() {
    assert_ne!(compute_cache_key(b"main"), compute_cache_key(b"mair"));
    assert_ne!(compute_cache_key(b"main"), compute_cache_key(b"main\0"));
}

#[test]
fn identity_bytes_are_the_fields_in_order_each_terminated() {
    let repo = RepoCache::new("u", "b", "r");
    assert_eq!(FIELD_END, 0xff);
    assert_eq!(repo.identity_bytes(), vec![b'u', 0xff, b'b', 0xff, b'r', 0xff]);
    let empty = RepoCache::new("", "", "");
    assert_eq!(empty.identity_bytes(), vec![0xff, 0xff, 0xff]);
    let wide = RepoCache::new("é", "", "");
    assert_eq!(wide.identity_bytes(), vec![0xc3, 0xa9, 0xff, 0xff, 0xff]);
}

#[test]
fn new_keeps_the_three_fields() {
    let repo = RepoCache::new("https://example/tpl.git", "main", "origin");
    assert_eq!(repo.repo, "https://example/tpl.git");
    assert_eq!(repo.branch, "main");
    assert_eq!(repo.remote, "origin");
}

#[test]
fn key_names_are_decimal() {
    assert_eq!(key_name(0), "0");
    assert_eq!(key_name(7), "7");
    assert_eq!(key_name(10), "10");
    assert_eq!(key_name(1234567890), "1234567890");
    assert_eq!(key_name(u64::MAX), "18446744073709551615");
    for n in [9u64, 99, 100, 101, 4096, 0xef46db3751d8e999] {
        assert_eq!(key_name(n), n.to_string());
    }
}

#[test]
fn join_puts_one_separator_between_root_and_name() {
    assert_eq!(join_location("/var/cache", "42"), "/var/cache/42");
    assert_eq!(join_location("/var/cache/", "42"), "/var/cache/42");
    assert_eq!(join_location("", "42"), "42");
    assert_eq!(join_location("/", "42"), "/42");
    assert_eq!(join_location("rel", "42"), "rel/42");
    assert_eq!(join_location("/data/cachés", "1"), "/data/cachés/1");
}
