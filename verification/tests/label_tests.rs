//! Tests for the label annotation: representation size, inline/heap split
//! and null-terminated round trips at the threshold.

use dawn_rs::Label;

#[test]
fn label_enum_size() {
    assert_eq!(32, std::mem::size_of::<Label>());
}

#[test]
fn label_round_trip_short() {
    let l = Label::from_str("abc");
    assert!(matches!(l, Label::Inline { .. }));
    assert_eq!(l.to_c_bytes(), b"abc\0".to_vec());
}

#[test]
fn label_round_trip_one_under_threshold() {
    // 28 bytes: the longest name that still fits inline with its terminator.
    let s = "abcdefghijklmnopqrstuvwxyz01";
    assert_eq!(s.len(), 28);
    let l = Label::from_str(s);
    assert!(matches!(l, Label::Inline { .. }));
    let mut expected = s.as_bytes().to_vec();
    expected.push(0);
    assert_eq!(l.to_c_bytes(), expected);
}

#[test]
fn label_round_trip_at_threshold() {
    // 29 bytes: one more and the name moves to the heap, still terminated.
    let s = "abcdefghijklmnopqrstuvwxyz012";
    assert_eq!(s.len(), 29);
    let l = Label::from_str(s);
    assert!(matches!(l, Label::Heap(_)));
    let mut expected = s.as_bytes().to_vec();
    expected.push(0);
    assert_eq!(l.to_c_bytes(), expected);
}

#[test]
fn label_long_heap_round_trip() {
    let s = "a longer label that certainly does not fit in the inline buffer";
    let l = Label::from_str(s);
    assert!(matches!(l, Label::Heap(_)));
    let mut expected = s.as_bytes().to_vec();
    expected.push(0);
    assert_eq!(l.to_c_bytes(), expected);
}

#[test]
fn label_absent_is_null() {
    let l = Label::from(None);
    assert!(matches!(l, Label::Empty));
    assert_eq!(l.to_c_bytes(), Vec::<u8>::new());
}
