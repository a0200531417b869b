use block_import::duplicate_cache::DuplicateCache;
use block_import::primitives::Hash256;

fn root(n: u8) -> Hash256 {
    Hash256::new([n; 32])
}

#[test]
fn new_cache_holds_no_root() {
    let cache = DuplicateCache::new();
    assert!(!cache.contains(&root(1)));
}

#[test]
fn second_claim_of_same_root_fails() {
    let mut cache = DuplicateCache::new();
    let first = cache.check_and_insert(root(1));
    let second = cache.check_and_insert(root(1));
    assert!(first.is_some());
    assert!(second.is_none());
    assert!(cache.contains(&root(1)));
}

#[test]
fn claim_succeeds_again_after_release() {
    let mut cache = DuplicateCache::new();
    let handle = cache.check_and_insert(root(1)).unwrap();
    assert_eq!(handle.root(), root(1));
    assert!(cache.check_and_insert(root(1)).is_none());
    cache.release(handle);
    assert!(!cache.contains(&root(1)));
    assert!(cache.check_and_insert(root(1)).is_some());
}

#[test]
fn claims_of_different_roots_do_not_interfere() {
    let mut cache = DuplicateCache::new();
    let a = cache.check_and_insert(root(1)).unwrap();
    let b = cache.check_and_insert(root(2)).unwrap();
    let c = cache.check_and_insert(root(3)).unwrap();
    cache.release(b);
    assert!(cache.contains(&root(1)));
    assert!(!cache.contains(&root(2)));
    assert!(cache.contains(&root(3)));
    cache.release(a);
    cache.release(c);
    assert!(!cache.contains(&root(1)));
    assert!(!cache.contains(&root(3)));
}

#[test]
fn roots_that_differ_in_one_byte_are_different() {
    let mut bytes = [7u8; 32];
    let a = Hash256::new(bytes);
    bytes[31] = 8;
    let b = Hash256::new(bytes);
    assert!(!a.same_as(&b));
    assert!(a.same_as(&a));
    let mut cache = DuplicateCache::new();
    assert!(cache.check_and_insert(a).is_some());
    assert!(cache.check_and_insert(b).is_some());
}
