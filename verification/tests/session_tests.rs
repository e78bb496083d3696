use jplearnbot::dictionary::{DictEntry, Gloss, Kanji, NLevel, Pos, Reading, Sense};
use jplearnbot::lexicon::Dictionary;
use jplearnbot::manager::{GameMessage, InteractionEvent};
use jplearnbot::question::ModeChoice;
use jplearnbot::session::{
    classify_message, exit_message, next_question, taunt_message, InteractionExitReason,
    ROUND_TIMEOUT_SECS,
};

fn make_entry(id: u32, kanji: Option<&str>, reading: &str, gloss: Vec<&str>, pos: Vec<Pos>) -> DictEntry {
    DictEntry {
        id,
        kanjis: kanji
            .into_iter()
            .map(|k| Kanji { text: k.to_string(), levels: vec![NLevel::N4], tags: Vec::new() })
            .collect(),
        readings: vec![Reading {
            text: reading.to_string(),
            relevant_to: Vec::new(),
            levels: vec![NLevel::N4],
            tags: Vec::new(),
        }],
        senses: vec![Sense {
            relevant_kanji: Vec::new(),
            relevant_reading: Vec::new(),
            pos,
            gloss: gloss.into_iter().map(|g| Gloss { content: g.to_string() }).collect(),
        }],
    }
}

#[test]
fn timeout_classification() {
    assert_eq!(classify_message(None).unwrap_err(), InteractionExitReason::Timeout);
}

#[test]
fn close_classification() {
    assert_eq!(
        classify_message(Some(GameMessage::Close)).unwrap_err(),
        InteractionExitReason::CloseRequest
    );
}

#[test]
fn interaction_classification() {
    let msg = GameMessage::Interaction(InteractionEvent {
        custom_id: "1,t,0".to_string(),
        user_id: 2,
        user_name: "u".to_string(),
    });
    let e = classify_message(Some(msg)).unwrap();
    assert_eq!(e.custom_id, "1,t,0");
    assert_eq!(e.user_id, 2);
}

#[test]
fn exit_messages_per_reason() {
    assert_eq!(
        exit_message(InteractionExitReason::PoolExhausted).as_deref(),
        Some("There are no more words left in the pool")
    );
    assert_eq!(
        exit_message(InteractionExitReason::Timeout).as_deref(),
        Some("Stopping game due to inactivity...")
    );
    assert_eq!(
        exit_message(InteractionExitReason::NetworkError).as_deref(),
        Some("Stopping game due to network error...")
    );
    assert_eq!(exit_message(InteractionExitReason::CloseRequest), None);
}

#[test]
fn timeout_default_is_two_minutes() {
    assert_eq!(ROUND_TIMEOUT_SECS, 120);
}

#[test]
fn next_question_tries_tags_until_one_fits() {
    let dict = Dictionary::from_entries(vec![
        make_entry(1, None, "これ", vec!["this"], vec![Pos::Pn]),
        make_entry(2, None, "それ", vec!["that"], vec![Pos::Pn]),
    ]);
    // The first tags cannot build a question for the entry; the last can.
    let mut pos = vec![Pos::N, Pos::V1, Pos::Pn];
    let q = next_question(&dict, 0, ModeChoice::EngToHir, &mut pos).unwrap();
    assert_eq!(q.prompt, "this");
    assert_eq!(q.options[q.answer], "これ");
}

#[test]
fn next_question_fails_when_no_tag_fits() {
    let dict = Dictionary::from_entries(vec![make_entry(1, None, "これ", vec!["this"], vec![Pos::Pn])]);
    let mut pos = vec![Pos::N, Pos::V1];
    assert!(next_question(&dict, 0, ModeChoice::EngToHir, &mut pos).is_none());
    // The tag list is only reordered, never changed.
    pos.sort_by_key(|p| format!("{:?}", p));
    assert_eq!(pos, vec![Pos::N, Pos::V1]);
}

#[test]
fn taunt_mentions_user_and_choice() {
    for _ in 0..20 {
        let t = taunt_message(":wat:", ":laugh:", ":scrajj:", ":anw:", 42, "wrong answer");
        assert!(t.ends_with(" <@42> (wrong answer)"), "unexpected taunt {}", t);
        assert!(
            t.starts_with(":wat:") || t.starts_with(":laugh:") || t.starts_with(":scrajj:")
                || t.starts_with(":anw:"),
            "unexpected taunt {}",
            t
        );
    }
}
