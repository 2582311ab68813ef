use rers::init;
use rers::CaptureError;
use rers::Captures;
use rers::PatternStore;

fn chunks<'a>(parts: &'a [&'a [u8]]) -> Option<&'a [&'a [u8]]> {
    Some(parts)
}

#[test]
fn capture_date_groups() {
    let vmod = init::new(1000);
    let mut vp = None;
    assert!(vmod.capture(&mut vp, "2024-01-02", r"(\d+)-(\d+)-(\d+)"));
    assert_eq!(vmod.group(&vp, 0), Some(&b"2024-01-02"[..]));
    assert_eq!(vmod.group(&vp, 1), Some(&b"2024"[..]));
    assert_eq!(vmod.group(&vp, 2), Some(&b"01"[..]));
    assert_eq!(vmod.group(&vp, 3), Some(&b"02"[..]));
    assert_eq!(vmod.group(&vp, 4), None);
    assert_eq!(vmod.group(&vp, 9), None);
}

#[test]
fn capture_takes_the_leftmost_match() {
    let vmod = init::new(1000);
    let mut vp = None;
    assert!(vmod.capture(&mut vp, "on 2024-01-02 and 2025-03-04", r"(\d+)-(\d+)-(\d+)"));
    assert_eq!(vmod.group(&vp, 0), Some(&b"2024-01-02"[..]));
    assert_eq!(vp.as_ref().unwrap().text(), b"on 2024-01-02 and 2025-03-04");
    assert_eq!(vp.as_ref().unwrap().len(), 4);
}

#[test]
fn group_index_out_of_range_is_absent() {
    let vmod = init::new(1000);
    let mut vp = None;
    assert!(vmod.capture(&mut vp, "abc", "b"));
    assert_eq!(vmod.group(&vp, 0), Some(&b"b"[..]));
    assert_eq!(vmod.group(&vp, 1), None);
    assert_eq!(vmod.group(&vp, -1), None);
    assert_eq!(vmod.group(&vp, i64::MIN), None);
    assert_eq!(vmod.group(&vp, i64::MAX), None);
}

#[test]
fn group_without_a_capture_is_absent() {
    let vmod = init::new(1000);
    let vp = None;
    assert_eq!(vmod.group(&vp, 0), None);
    assert_eq!(vmod.named_group(&vp, "year"), None);
}

#[test]
fn group_that_took_no_part_is_absent() {
    let vmod = init::new(1000);
    let mut vp = None;
    assert!(vmod.capture(&mut vp, "abc123", "[a-z]+(?:([0-9]+)|([A-Z]+))"));
    assert_eq!(vmod.group(&vp, 1), Some(&b"123"[..]));
    assert_eq!(vmod.group(&vp, 2), None);
}

#[test]
fn empty_group_is_present_and_empty() {
    let vmod = init::new(1000);
    let mut vp = None;
    assert!(vmod.capture(&mut vp, "ab", "a(x*)b"));
    assert_eq!(vmod.group(&vp, 1), Some(&b""[..]));
}

#[test]
fn named_groups_are_found_by_name() {
    let vmod = init::new(1000);
    let mut vp = None;
    assert!(vmod.capture(
        &mut vp,
        "Not my favorite movie: 'Citizen Kane' (1941).",
        r"'(?P<title>[^']+)'\s+\((?P<year>\d{4})\)"
    ));
    assert_eq!(vmod.named_group(&vp, "title"), Some(&b"Citizen Kane"[..]));
    assert_eq!(vmod.named_group(&vp, "year"), Some(&b"1941"[..]));
    assert_eq!(vmod.group(&vp, 1), Some(&b"Citizen Kane"[..]));
    assert_eq!(vmod.group(&vp, 2), Some(&b"1941"[..]));
    assert_eq!(vmod.named_group(&vp, "director"), None);
    assert_eq!(vmod.named_group(&vp, ""), None);
}

#[test]
fn named_group_that_took_no_part_is_absent() {
    let vmod = init::new(1000);
    let mut vp = None;
    assert!(vmod.capture(&mut vp, "abc123", "[a-z]+(?:(?P<numbers>[0-9]+)|(?P<letters>[A-Z]+))"));
    assert_eq!(vmod.named_group(&vp, "numbers"), Some(&b"123"[..]));
    assert_eq!(vmod.named_group(&vp, "letters"), None);
}

#[test]
fn capture_without_a_match_leaves_the_slot_empty() {
    let vmod = init::new(1000);
    let mut vp = None;
    assert!(vmod.capture(&mut vp, "abc", "b"));
    assert!(vp.is_some());
    assert!(!vmod.capture(&mut vp, "abc", "x"));
    assert!(vp.is_none());
    assert_eq!(vmod.group(&vp, 0), None);
}

#[test]
fn capture_with_an_invalid_pattern_leaves_the_slot_empty() {
    let vmod = init::new(1000);
    let mut vp = None;
    assert!(vmod.capture(&mut vp, "abc", "b"));
    assert!(!vmod.capture(&mut vp, "abc", "("));
    assert!(vp.is_none());
}

#[test]
fn capture_replaces_the_previous_capture() {
    let vmod = init::new(1000);
    let mut vp = None;
    assert!(vmod.capture(&mut vp, "first", "(f)(i)"));
    assert!(vmod.capture(&mut vp, "second", "s"));
    assert_eq!(vmod.group(&vp, 0), Some(&b"s"[..]));
    assert_eq!(vmod.group(&vp, 1), None);
}

#[test]
fn capture_agrees_with_is_match() {
    let vmod = init::new(1000);
    for (text, pattern) in [("abc", "b"), ("abc", "x"), ("", ""), ("abc", "("), ("a1", r"\d")] {
        let mut vp = None;
        assert_eq!(vmod.capture(&mut vp, text, pattern), vmod.is_match(text, pattern));
    }
}

#[test]
fn capture_req_body_joins_the_chunks() {
    let vmod = init::new(1000);
    let mut vp = None;
    let parts: [&[u8]; 3] = [b"user=al", b"ice&id", b"=42"];
    assert_eq!(vmod.capture_req_body(&mut vp, chunks(&parts), r"user=(\w+)&id=(\d+)"), Ok(true));
    assert_eq!(vmod.group(&vp, 0), Some(&b"user=alice&id=42"[..]));
    assert_eq!(vmod.group(&vp, 1), Some(&b"alice"[..]));
    assert_eq!(vmod.group(&vp, 2), Some(&b"42"[..]));
    assert_eq!(vp.as_ref().unwrap().text(), b"user=alice&id=42");
}

#[test]
fn capture_req_body_without_a_match_is_false() {
    let vmod = init::new(1000);
    let mut vp = None;
    let parts: [&[u8]; 2] = [b"abc", b"def"];
    assert_eq!(vmod.capture_req_body(&mut vp, chunks(&parts), "xyz"), Ok(false));
    assert!(vp.is_none());
}

#[test]
fn capture_req_body_of_an_empty_body() {
    let vmod = init::new(1000);
    let mut vp = None;
    let parts: [&[u8]; 0] = [];
    assert_eq!(vmod.capture_req_body(&mut vp, chunks(&parts), "^$"), Ok(true));
    assert_eq!(vmod.group(&vp, 0), Some(&b""[..]));
    assert_eq!(vmod.capture_req_body(&mut vp, chunks(&parts), "a"), Ok(false));
}

#[test]
fn capture_req_body_on_bytes_that_are_not_text() {
    let vmod = init::new(1000);
    let mut vp = None;
    let parts: [&[u8]; 2] = [&[0xff, 0xfe], b"key=7"];
    assert_eq!(vmod.capture_req_body(&mut vp, chunks(&parts), r"key=(\d)"), Ok(true));
    assert_eq!(vmod.group(&vp, 1), Some(&b"7"[..]));
}

#[test]
fn capture_req_body_needs_a_buffered_body() {
    let vmod = init::new(1000);
    let mut vp = None;
    assert!(vmod.capture(&mut vp, "abc", "b"));
    assert_eq!(
        vmod.capture_req_body(&mut vp, None, "b"),
        Err(CaptureError::MissingPrebufferedBody)
    );
    assert!(vp.is_none());
}

#[test]
fn capture_req_body_with_an_invalid_pattern_is_false() {
    let vmod = init::new(1000);
    let mut vp = None;
    let parts: [&[u8]; 1] = [b"abc"];
    assert_eq!(vmod.capture_req_body(&mut vp, chunks(&parts), "("), Ok(false));
    // the pattern is looked at first: without a body the answer is the same
    assert_eq!(vmod.capture_req_body(&mut vp, None, "("), Ok(false));
    assert!(vp.is_none());
}

#[test]
fn coalesce_joins_in_order() {
    let parts: [&[u8]; 4] = [b"ab", b"", b"c", b"def"];
    assert_eq!(rers::captures::coalesce(&parts), b"abcdef");
    let none: [&[u8]; 0] = [];
    assert_eq!(rers::captures::coalesce(&none), b"");
}

#[test]
fn from_parts_accepts_spans_inside_the_text() {
    let made = Captures::from_parts(
        b"hello".to_vec(),
        vec![Some((0, 5)), Some((1, 3)), None, Some((5, 5))],
        vec![None, Some("mid".to_string()), Some("gone".to_string()), None],
    )
    .unwrap();
    assert_eq!(made.len(), 4);
    assert_eq!(made.group(0), Some(&b"hello"[..]));
    assert_eq!(made.group(1), Some(&b"el"[..]));
    assert_eq!(made.group(2), None);
    assert_eq!(made.group(3), Some(&b""[..]));
    assert_eq!(made.group(4), None);
    assert_eq!(made.group(usize::MAX), None);
    assert_eq!(made.named_group("mid"), Some(&b"el"[..]));
    assert_eq!(made.named_group("gone"), None);
    assert_eq!(made.named_group("other"), None);
}

#[test]
fn from_parts_refuses_spans_outside_the_text() {
    assert!(Captures::from_parts(b"hello".to_vec(), vec![Some((0, 6))], vec![None]).is_none());
    assert!(Captures::from_parts(b"hello".to_vec(), vec![Some((3, 2))], vec![None]).is_none());
    assert!(Captures::from_parts(b"".to_vec(), vec![None, Some((0, 1))], vec![]).is_none());
    assert!(Captures::from_parts(b"".to_vec(), vec![Some((0, 0))], vec![]).is_some());
    assert!(Captures::from_parts(b"".to_vec(), vec![], vec![]).is_some());
}

#[test]
fn named_group_takes_the_first_group_of_that_name() {
    let made = Captures::from_parts(
        b"abcd".to_vec(),
        vec![Some((0, 4)), Some((0, 1)), Some((2, 3))],
        vec![None, Some("x".to_string()), Some("x".to_string())],
    )
    .unwrap();
    assert_eq!(made.named_group("x"), Some(&b"a"[..]));
}

#[test]
fn named_group_beyond_the_spans_is_absent() {
    let made = Captures::from_parts(
        b"abcd".to_vec(),
        vec![Some((0, 4))],
        vec![None, Some("late".to_string())],
    )
    .unwrap();
    assert_eq!(made.named_group("late"), None);
}

#[test]
fn captures_of_runs_the_matcher() {
    let mut store = PatternStore::new(10);
    let matcher = store.get_regex(r"(?P<key>\w+)=(\d+)?").unwrap();
    let made = Captures::of(&matcher, b"  size= ".to_vec()).unwrap();
    assert_eq!(made.group(0), Some(&b"size="[..]));
    assert_eq!(made.named_group("key"), Some(&b"size"[..]));
    assert_eq!(made.group(2), None);
    assert!(Captures::of(&matcher, b"no pair here".to_vec()).is_none());
}
