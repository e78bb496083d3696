use jplearnbot::dictionary::{DictEntry, NLevel, Reading};
use jplearnbot::question::Question;
use jplearnbot::round::{Menu, SelectionOutcome};

fn sample_entry() -> DictEntry {
    DictEntry {
        id: 1,
        kanjis: Vec::new(),
        readings: vec![Reading {
            text: "みず".to_string(),
            relevant_to: Vec::new(),
            levels: vec![NLevel::N4],
            tags: Vec::new(),
        }],
        senses: Vec::new(),
    }
}

fn sample_menu() -> Menu {
    let question = Question {
        prompt: "water".to_string(),
        options: vec![
            "a".to_string(),
            "b".to_string(),
            "c".to_string(),
            "d".to_string(),
            "e".to_string(),
        ],
        answer: 2,
    };
    Menu::new("r1".to_string(), question, &sample_entry())
}

#[test]
fn components_carry_round_scoped_ids() {
    let menu = sample_menu();
    let ids: Vec<&str> = menu.questions.iter().map(|q| q.id.as_str()).collect();
    assert_eq!(ids, vec!["r1,0", "r1,1", "r1,2", "r1,3", "r1,4"]);
    assert!(menu.questions.iter().all(|q| !q.disabled));
    assert_eq!(menu.answer_id(), "r1,2");
    assert_eq!(menu.levels, vec![NLevel::N4]);
}

#[test]
fn wrong_then_right_selection() {
    let mut menu = sample_menu();

    let outcome = menu.handle_event("r1,1");
    assert_eq!(outcome, SelectionOutcome::Incorrect(1));
    assert!(!menu.questions[0].disabled);
    assert!(menu.questions[1].disabled);
    assert!(!menu.questions[2].disabled);
    assert!(!menu.questions[3].disabled);
    assert!(!menu.questions[4].disabled);

    let outcome = menu.handle_event("r1,2");
    assert_eq!(outcome, SelectionOutcome::Correct);
    assert!(menu.questions.iter().all(|q| q.disabled));
}

#[test]
fn stale_round_ids_are_ignored() {
    let mut menu = sample_menu();
    assert_eq!(menu.handle_event("r0,1"), SelectionOutcome::Stale);
    assert_eq!(menu.handle_event("r1,9"), SelectionOutcome::Stale);
    assert_eq!(menu.handle_event("garbage"), SelectionOutcome::Stale);
    assert_eq!(menu.handle_event(""), SelectionOutcome::Stale);
    assert!(menu.questions.iter().all(|q| !q.disabled));
}

#[test]
fn repeated_wrong_choices_accumulate() {
    let mut menu = sample_menu();
    assert_eq!(menu.handle_event("r1,0"), SelectionOutcome::Incorrect(0));
    assert_eq!(menu.handle_event("r1,4"), SelectionOutcome::Incorrect(4));
    assert!(menu.questions[0].disabled);
    assert!(!menu.questions[1].disabled);
    assert!(!menu.questions[2].disabled);
    assert!(!menu.questions[3].disabled);
    assert!(menu.questions[4].disabled);
}

#[test]
fn correctness_is_judged_by_id_not_text() {
    let question = Question {
        prompt: "p".to_string(),
        options: vec![
            "same".to_string(),
            "same".to_string(),
            "same".to_string(),
            "same".to_string(),
            "same".to_string(),
        ],
        answer: 3,
    };
    let mut menu = Menu::new("m".to_string(), question, &sample_entry());
    assert_eq!(menu.handle_event("m,0"), SelectionOutcome::Incorrect(0));
    assert_eq!(menu.handle_event("m,3"), SelectionOutcome::Correct);
}
