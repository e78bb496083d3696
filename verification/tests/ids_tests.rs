use jplearnbot::ids::{component_id, new_menu_id, parse_custom_id, parse_session_id, u64_to_string};

#[test]
fn renders_zero() {
    assert_eq!(u64_to_string(0), "0");
}

#[test]
fn renders_decimal() {
    assert_eq!(u64_to_string(42), "42");
    assert_eq!(u64_to_string(1200), "1200");
    assert_eq!(u64_to_string(u64::MAX), "18446744073709551615");
}

#[test]
fn parses_leading_digits() {
    assert_eq!(parse_session_id("42,abc"), Some(42));
    assert_eq!(parse_session_id("7"), Some(7));
    assert_eq!(parse_session_id("007x"), Some(7));
}

#[test]
fn rejects_missing_digits() {
    assert_eq!(parse_session_id("abc"), None);
    assert_eq!(parse_session_id(""), None);
    assert_eq!(parse_session_id(",123"), None);
}

#[test]
fn rejects_overflowing_run() {
    assert_eq!(parse_session_id("99999999999999999999,tail"), None);
    assert_eq!(parse_session_id("18446744073709551615,ok"), Some(u64::MAX));
}

#[test]
fn menu_id_round_trips_to_its_key() {
    let id = new_menu_id(123456789);
    assert_eq!(parse_session_id(id.as_str()), Some(123456789));
}

#[test]
fn component_ids_parse_back() {
    let id = component_id("55,tag", 3);
    assert_eq!(id, "55,tag,3");
    let parsed = parse_custom_id(id.as_str());
    assert_eq!(parsed, Some(("55,tag", 3)));
}

#[test]
fn custom_id_rejects_bad_shapes() {
    assert_eq!(parse_custom_id("noseparator5"), None);
    assert_eq!(parse_custom_id("x,9"), None);
    assert_eq!(parse_custom_id("x,a"), None);
    assert_eq!(parse_custom_id(","), None);
    assert_eq!(parse_custom_id(""), None);
}

#[test]
fn custom_id_takes_last_comma() {
    assert_eq!(parse_custom_id("12,uuid-here,0"), Some(("12,uuid-here", 0)));
}

#[test]
fn menu_ids_carry_a_fresh_tag() {
    let a = new_menu_id(5);
    let b = new_menu_id(5);
    // "5", the comma, and a 36-character random tag.
    assert_eq!(a.chars().count(), 38);
    assert_ne!(a, b);
}
