use rers::PatternStore;

fn patterns(store: &PatternStore) -> Vec<String> {
    store.cached_patterns()
}

#[test]
fn new_store_is_empty() {
    let store = PatternStore::new(1000);
    assert!(patterns(&store).is_empty());
}

#[test]
fn lookup_compiles_and_caches() {
    let mut store = PatternStore::new(10);
    let matcher = store.get_regex("fo+").unwrap();
    assert_eq!(matcher.pattern(), "fo+");
    assert_eq!(patterns(&store), vec!["fo+".to_string()]);
}

#[test]
fn lru_eviction_with_capacity_two() {
    let mut store = PatternStore::new(2);
    assert!(store.get_regex("a").is_ok());
    assert!(store.get_regex("b").is_ok());
    assert_eq!(patterns(&store), vec!["b".to_string(), "a".to_string()]);
    assert!(store.get_regex("c").is_ok());
    // "a" was the least recently used and left
    assert_eq!(patterns(&store), vec!["c".to_string(), "b".to_string()]);
    // looking "a" up again compiles it anew and pushes "b" out
    assert!(store.get_regex("a").is_ok());
    assert_eq!(patterns(&store), vec!["a".to_string(), "c".to_string()]);
}

#[test]
fn a_hit_makes_the_pattern_most_recent() {
    let mut store = PatternStore::new(2);
    store.get_regex("a").unwrap();
    store.get_regex("b").unwrap();
    store.get_regex("a").unwrap();
    assert_eq!(patterns(&store), vec!["a".to_string(), "b".to_string()]);
    store.get_regex("c").unwrap();
    assert_eq!(patterns(&store), vec!["c".to_string(), "a".to_string()]);
}

#[test]
fn a_hit_does_not_grow_the_store() {
    let mut store = PatternStore::new(3);
    store.get_regex("a").unwrap();
    store.get_regex("a").unwrap();
    store.get_regex("a").unwrap();
    assert_eq!(patterns(&store), vec!["a".to_string()]);
}

#[test]
fn failures_are_cached_like_matchers() {
    let mut store = PatternStore::new(2);
    let first = store.get_regex("(").unwrap_err();
    assert!(!first.is_empty());
    assert_eq!(patterns(&store), vec!["(".to_string()]);
    store.get_regex("b").unwrap();
    assert_eq!(patterns(&store), vec!["b".to_string(), "(".to_string()]);
    // the cached failure is found, promoted, and returned with its message
    let again = store.get_regex("(").unwrap_err();
    assert_eq!(again, first);
    assert_eq!(patterns(&store), vec!["(".to_string(), "b".to_string()]);
    // and it takes part in eviction like any other entry
    store.get_regex("c").unwrap();
    assert_eq!(patterns(&store), vec!["c".to_string(), "(".to_string()]);
    store.get_regex("d").unwrap();
    assert_eq!(patterns(&store), vec!["d".to_string(), "c".to_string()]);
}

#[test]
fn nonpositive_capacity_counts_as_one() {
    for size in [0, -1, i64::MIN] {
        let mut store = PatternStore::new(size);
        store.get_regex("a").unwrap();
        store.get_regex("b").unwrap();
        assert_eq!(patterns(&store), vec!["b".to_string()]);
    }
}

#[test]
fn capacity_one_keeps_the_last_pattern() {
    let mut store = PatternStore::new(1);
    store.get_regex("a").unwrap();
    assert_eq!(patterns(&store), vec!["a".to_string()]);
    store.get_regex("(").unwrap_err();
    assert_eq!(patterns(&store), vec!["(".to_string()]);
}

#[test]
fn largest_capacity_is_accepted() {
    let mut store = PatternStore::new(i64::MAX);
    store.get_regex("a").unwrap();
    store.get_regex("b").unwrap();
    assert_eq!(patterns(&store), vec!["b".to_string(), "a".to_string()]);
}

#[test]
fn distinct_patterns_get_distinct_matchers() {
    let mut store = PatternStore::new(4);
    let digits = store.get_regex(r"\d+").unwrap();
    let letters = store.get_regex("[a-z]+").unwrap();
    assert_eq!(digits.pattern(), r"\d+");
    assert_eq!(letters.pattern(), "[a-z]+");
}
