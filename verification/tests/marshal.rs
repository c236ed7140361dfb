//! The marshaled string handle: construction, round trip, and the strict
//! rejection of non-representable text.

use thincore::tbstr::TBStr;

#[test]
fn round_trip_abc() {
    let t = TBStr::from_text("abc");
    assert_eq!(t.to_string(), "abc");
}

#[test]
fn round_trip_representable_text() {
    let text = "MYFUNC($x, 42) 'comment! ~[]{}";
    let t = TBStr::from_text(text);
    assert_eq!(t.to_string(), text);
    assert_eq!(t.len(), text.len() as u32);
}

#[test]
fn round_trip_empty() {
    let t = TBStr::from_text("");
    assert_eq!(t.to_string(), "");
    assert_eq!(t.len(), 0);
}

#[test]
fn buffer_holds_one_byte_per_character() {
    let t = TBStr::from_text("abc");
    assert_eq!(t.len(), 3);
    assert_eq!(t.as_bytes(), b"abc");
}

#[test]
fn representable_text_is_accepted() {
    let t = TBStr::try_from_text("abc");
    assert!(t.is_some());
    assert_eq!(t.unwrap().to_string(), "abc");
}

#[test]
fn non_representable_text_is_rejected() {
    assert!(TBStr::try_from_text("caf\u{e9}").is_none());
    assert!(TBStr::try_from_text("\u{65e5}\u{672c}").is_none());
    assert!(TBStr::try_from_text("abc\u{80}").is_none());
}

#[test]
fn rejection_is_outright_not_lossy() {
    // A text with one non-representable character yields no handle at all:
    // nothing is dropped, substituted or escaped.
    assert!(TBStr::try_from_text("ab\u{e9}c").is_none());
}
