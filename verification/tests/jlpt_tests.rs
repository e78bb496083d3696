use jplearnbot::dictionary::NLevel;
use jplearnbot::jlpt::{extract_entry, JlptEntry, JlptNLevel};

#[test]
fn skips_comment_lines() {
    assert_eq!(extract_entry("# JLPT level 4 vocabulary"), None);
}

#[test]
fn skips_empty_lines() {
    assert_eq!(extract_entry(""), None);
}

#[test]
fn skips_conjugation_lines() {
    assert_eq!(extract_entry("食べる~"), None);
}

#[test]
fn reads_bare_reading() {
    assert_eq!(extract_entry("これ"), Some(("これ".to_string(), None)));
}

#[test]
fn reads_kanji_then_reading() {
    assert_eq!(extract_entry("水 みず"), Some(("みず".to_string(), Some("水".to_string()))));
}

#[test]
fn cuts_parenthesized_note() {
    assert_eq!(
        extract_entry("水 みず（りゃく）"),
        Some(("みず".to_string(), Some("水".to_string())))
    );
}

#[test]
fn handles_wide_whitespace() {
    assert_eq!(extract_entry("氷　こおり"), Some(("こおり".to_string(), Some("氷".to_string()))));
}

#[test]
fn jlpt_level_conversions() {
    assert_eq!(NLevel::from(JlptNLevel::One), NLevel::N1);
    assert_eq!(NLevel::from(JlptNLevel::Four), NLevel::N4);
    assert_eq!(i32::from(JlptNLevel::Two), 2);
    assert_eq!(i32::from(JlptNLevel::Three), 3);
}

#[test]
fn jlpt_entry_holds_fields() {
    let e = JlptEntry { hiragana: "みず".to_string(), kanji: Some("水".to_string()), level: JlptNLevel::Four };
    assert_eq!(e.hiragana, "みず");
    assert_eq!(e.kanji.as_deref(), Some("水"));
    assert_eq!(e.level, JlptNLevel::Four);
}
