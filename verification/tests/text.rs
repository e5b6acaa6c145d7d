//! Text and JSON: the small operations that everything else goes through.

use custom_channel::json::{bool_member, i64_member, nonblank_member, text_member};
use custom_channel::text::{any_is, same, split_text, take_chars};
use serde_json::Value;

fn value(text: &str) -> Value {
    serde_json::from_str(text).unwrap()
}

#[test]
fn text_is_split_at_every_separator() {
    assert_eq!(split_text("", '&'), vec![""]);
    assert_eq!(split_text("a", '&'), vec!["a"]);
    assert_eq!(split_text("&a&&é&", '&'), vec!["", "a", "", "é", ""]);
    assert_eq!(split_text("aéb", 'é'), vec!["a", "b"]);
}

#[test]
fn pieces_are_found_whole() {
    let pieces = split_text("ab&c", '&');
    assert!(any_is(&pieces, "ab"));
    assert!(!any_is(&pieces, "a"));
    assert!(!any_is(&Vec::new(), ""));
    assert!(same("é", "é"));
    assert!(!same("e", "é"));
}

#[test]
fn text_is_cut_at_characters() {
    assert_eq!(take_chars("aéb", 2), "aé");
    assert_eq!(take_chars("aéb", 3), "aéb");
    assert_eq!(take_chars("aéb", 9), "aéb");
    assert_eq!(take_chars("aéb", 0), "");
}

#[test]
fn members_are_read_by_their_type() {
    let object = value(
        r#"{"t":" x ","b":true,"i":-5,"big":18446744073709551615,"r":1.0,"n":null,"blank":" "}"#,
    );
    assert_eq!(text_member(&object, "t"), Some(" x "));
    assert_eq!(text_member(&object, "b"), None);
    assert_eq!(nonblank_member(&object, "t"), Some("x"));
    assert_eq!(nonblank_member(&object, "blank"), None);
    assert_eq!(nonblank_member(&object, "absent"), None);
    assert_eq!(bool_member(&object, "b"), Some(true));
    assert_eq!(bool_member(&object, "i"), None);
    assert_eq!(i64_member(&object, "i"), Some(-5));
    assert_eq!(i64_member(&object, "big"), None);
    assert_eq!(i64_member(&object, "r"), None);
    assert_eq!(i64_member(&object, "n"), None);
    assert_eq!(text_member(&value("[]"), "t"), None);
}
