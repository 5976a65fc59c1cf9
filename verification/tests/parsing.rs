//! The two form parsers and the decimal token parser, on concrete inputs.

use regbot::forms::{parse_manual_review, parse_registration};
use regbot::text::parse_u64;

#[test]
fn registration_well_formed() {
    let r = parse_registration("Name: Alice, Age: 30");
    assert_eq!(r, Some(("Alice".to_string(), "30".to_string())));
}

#[test]
fn registration_missing_age_segment() {
    assert_eq!(parse_registration("Name: Alice"), None);
}

#[test]
fn registration_extra_segment() {
    assert_eq!(parse_registration("Name: Alice, Age: 30, Extra: x"), None);
}

#[test]
fn registration_swapped_labels_maps_fields_by_position() {
    // Labels are positional, not matched: a swapped form still parses, with
    // the unexpected labels kept as field text.
    let r = parse_registration("Age: 5, Name: X");
    assert_eq!(r, Some(("Age: 5".to_string(), "Name: X".to_string())));
}

#[test]
fn registration_empty_fields() {
    let r = parse_registration("Name: , Age:");
    assert_eq!(r, Some(("".to_string(), "".to_string())));
}

#[test]
fn registration_whitespace_around_labels() {
    let r = parse_registration("  Name:  Bob  ,   Age:  41  ");
    assert_eq!(r, Some(("Bob".to_string(), "41".to_string())));
}

#[test]
fn registration_unicode_whitespace() {
    // Unicode whitespace (ideographic space, no-break space, em space) is
    // trimmed like ASCII whitespace.
    let r = parse_registration("Name:\u{3000}Alice\u{a0}, Age:\u{2003}30\u{2028}");
    assert_eq!(r, Some(("Alice".to_string(), "30".to_string())));
}

#[test]
fn manual_review_unicode_whitespace_remainder_is_empty() {
    assert_eq!(parse_manual_review("Manual:\u{a0}\u{3000}"), None);
}

#[test]
fn manual_review_well_formed() {
    assert_eq!(
        parse_manual_review("Manual: needs review"),
        Some("needs review".to_string())
    );
}

#[test]
fn manual_review_empty_remainder() {
    assert_eq!(parse_manual_review("Manual:"), None);
    assert_eq!(parse_manual_review("Manual:    "), None);
}

#[test]
fn manual_review_label_is_case_sensitive() {
    assert_eq!(parse_manual_review("manual: x"), None);
}

#[test]
fn manual_review_label_must_open_the_text() {
    assert_eq!(parse_manual_review(" Manual: x"), None);
}

#[test]
fn parse_u64_plain() {
    assert_eq!(parse_u64("0"), Some(0));
    assert_eq!(parse_u64("1234567890"), Some(1234567890));
}

#[test]
fn parse_u64_plus_sign() {
    assert_eq!(parse_u64("+17"), Some(17));
    assert_eq!(parse_u64("+"), None);
    assert_eq!(parse_u64("++1"), None);
}

#[test]
fn parse_u64_rejects_garbage() {
    assert_eq!(parse_u64(""), None);
    assert_eq!(parse_u64("12a"), None);
    assert_eq!(parse_u64("-1"), None);
    assert_eq!(parse_u64("1 2"), None);
}

#[test]
fn parse_u64_bounds() {
    assert_eq!(parse_u64("18446744073709551615"), Some(u64::MAX));
    assert_eq!(parse_u64("18446744073709551616"), None);
}
