use rers::init;

#[test]
fn is_match_finds_a_match_anywhere() {
    let vmod = init::new(1000);
    assert!(vmod.is_match("hello world", "wor"));
    assert!(vmod.is_match("hello world", r"^hello\s"));
    assert!(vmod.is_match("", ""));
}

#[test]
fn is_match_is_false_without_a_match() {
    let vmod = init::new(1000);
    assert!(!vmod.is_match("hello world", "^world"));
    assert!(!vmod.is_match("", "a"));
}

#[test]
fn is_match_is_false_for_an_invalid_pattern() {
    let vmod = init::new(1000);
    assert!(!vmod.is_match("(", "("));
    assert!(!vmod.is_match("anything", "[a-"));
    assert!(!vmod.is_match("", "(?P<x"));
    // asked again, the cached failure answers
    assert!(!vmod.is_match("(", "("));
}

#[test]
fn is_match_survives_eviction() {
    let vmod = init::new(1);
    assert!(vmod.is_match("abc", "a"));
    assert!(vmod.is_match("abc", "b"));
    assert!(vmod.is_match("abc", "a"));
    assert!(!vmod.is_match("abc", "d"));
}

#[test]
fn replace_with_limit_zero_replaces_every_match() {
    let vmod = init::new(1000);
    assert_eq!(vmod.replace(b"foofoofoo", "foo", "bar", 0), b"barbarbar");
    assert_eq!(vmod.replace(b"a-b-c", "-", "", 0), b"abc");
}

#[test]
fn replace_with_a_positive_limit_replaces_the_first_matches() {
    let vmod = init::new(1000);
    assert_eq!(vmod.replace(b"foofoofoo", "foo", "bar", 1), b"barfoofoo");
    assert_eq!(vmod.replace(b"foofoofoo", "foo", "bar", 2), b"barbarfoo");
    assert_eq!(vmod.replace(b"foofoofoo", "foo", "bar", 3), b"barbarbar");
    assert_eq!(vmod.replace(b"foofoofoo", "foo", "bar", 100), b"barbarbar");
}

#[test]
fn replace_with_a_negative_limit_replaces_every_match() {
    let vmod = init::new(1000);
    assert_eq!(vmod.replace(b"foofoofoo", "foo", "bar", -1), b"barbarbar");
    assert_eq!(vmod.replace(b"foofoofoo", "foo", "bar", i64::MIN), b"barbarbar");
}

#[test]
fn replace_with_the_largest_limit_replaces_every_match() {
    let vmod = init::new(1000);
    assert_eq!(vmod.replace(b"foofoofoo", "foo", "bar", i64::MAX), b"barbarbar");
}

#[test]
fn replace_leaves_text_without_a_match_unchanged() {
    let vmod = init::new(1000);
    assert_eq!(vmod.replace(b"hello", "x+", "y", 0), b"hello");
    assert_eq!(vmod.replace(b"", "x", "y", 0), b"");
}

#[test]
fn replace_is_a_noop_for_an_invalid_pattern() {
    let vmod = init::new(1000);
    for limit in [i64::MIN, -1, 0, 1, 2, i64::MAX] {
        assert_eq!(vmod.replace(b"foo(foo", "(", "bar", limit), b"foo(foo");
        assert_eq!(vmod.replace(b"", "[", "bar", limit), b"");
    }
}

#[test]
fn replace_expands_group_references() {
    let vmod = init::new(1000);
    assert_eq!(
        vmod.replace(b"Springsteen, Bruce", r"([^,\s]+),\s+(\S+)", "$2 $1", 0),
        b"Bruce Springsteen"
    );
    assert_eq!(
        vmod.replace(b"deep fried", r"(?P<first>\w+)\s+(?P<second>\w+)", "${first}_$second", 1),
        b"deep_fried"
    );
}

#[test]
fn replace_works_on_bytes_that_are_not_text() {
    let vmod = init::new(1000);
    let payload: &[u8] = &[0xff, b'a', 0x00, b'a', 0xfe];
    assert_eq!(vmod.replace(payload, "a", "bc", 0), [0xff, b'b', b'c', 0x00, b'b', b'c', 0xfe]);
    assert_eq!(vmod.replace(payload, "a", "", 1), [0xff, 0x00, b'a', 0xfe]);
    assert_eq!(vmod.replace(payload, r"(?-u)\xff", "", 0), [b'a', 0x00, b'a', 0xfe]);
}

#[test]
fn replace_may_grow_and_shrink_the_text() {
    let vmod = init::new(1000);
    assert_eq!(vmod.replace(b"aaa", "a", "", 0), b"");
    assert_eq!(vmod.replace(b"aaa", "a", "xyz", 0), b"xyzxyzxyz");
    assert_eq!(vmod.replace(b"abc", "", "-", 0), b"-a-b-c-");
}

#[test]
fn get_regex_reports_the_outcome() {
    let vmod = init::new(2);
    assert_eq!(vmod.get_regex("a+").unwrap().pattern(), "a+");
    let message = vmod.get_regex("a(").unwrap_err();
    assert!(!message.is_empty());
    assert_eq!(vmod.get_regex("a(").unwrap_err(), message);
}
