use twofactor::fresh::remove_hyphens;
use twofactor::json::{parse_strings, read_text_field};
use twofactor::text::ct_eq;

fn value(text: &str) -> serde_json::Value {
    serde_json::from_str(text).unwrap()
}

#[test]
fn equal_strings_compare_equal() {
    assert!(ct_eq("", ""));
    assert!(ct_eq("abc", "abc"));
    assert!(ct_eq("schlüssel", "schlüssel"));
}

#[test]
fn different_strings_compare_different() {
    assert!(!ct_eq("abc", "abd"));
    assert!(!ct_eq("xbc", "abc"));
    assert!(!ct_eq("abc", "abcd"));
    assert!(!ct_eq("abc", ""));
    assert!(!ct_eq("ü", "u"));
}

#[test]
fn hyphens_are_removed() {
    assert_eq!(remove_hyphens(""), "");
    assert_eq!(remove_hyphens("--"), "");
    assert_eq!(
        remove_hyphens("01234567-89ab-4cde-8f01-23456789abcd"),
        "0123456789ab4cde8f0123456789abcd"
    );
    assert_eq!(remove_hyphens("ä-ö"), "äö");
}

#[test]
fn lists_of_strings_are_parsed() {
    assert_eq!(parse_strings("[]"), Some(vec![]));
    assert_eq!(
        parse_strings("[\"cccccccccccb\",\"cccccccccccd\"]"),
        Some(vec!["cccccccccccb".to_string(), "cccccccccccd".to_string()])
    );
    assert_eq!(
        parse_strings(" [ \"a\\nb\" ] "),
        Some(vec!["a\nb".to_string()])
    );
}

#[test]
fn other_texts_are_no_lists_of_strings() {
    assert_eq!(parse_strings(""), None);
    assert_eq!(parse_strings("{}"), None);
    assert_eq!(parse_strings("[1]"), None);
    assert_eq!(parse_strings("[\"a\""), None);
}

#[test]
fn text_fields_are_read() {
    let row = value("{\"totp_recover\":\"CODE\",\"n\":1,\"z\":null}");
    assert_eq!(read_text_field(&row, "totp_recover"), Some("CODE".to_string()));
    assert_eq!(read_text_field(&row, "n"), None);
    assert_eq!(read_text_field(&row, "z"), None);
    assert_eq!(read_text_field(&row, "missing"), None);
    assert_eq!(read_text_field(&value("[\"totp_recover\"]"), "totp_recover"), None);
}
