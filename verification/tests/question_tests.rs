use jplearnbot::dictionary::{DictEntry, Gloss, Kanji, NLevel, Pos, Reading, Sense};
use jplearnbot::lexicon::Dictionary;
use jplearnbot::question::{ModeChoice, Question};

fn entry(id: u32, kanji: Option<&str>, readings: Vec<&str>, gloss: Vec<&str>, pos: Vec<Pos>) -> DictEntry {
    DictEntry {
        id,
        kanjis: kanji
            .into_iter()
            .map(|k| Kanji { text: k.to_string(), levels: vec![NLevel::N4], tags: Vec::new() })
            .collect(),
        readings: readings
            .into_iter()
            .map(|r| Reading {
                text: r.to_string(),
                relevant_to: Vec::new(),
                levels: vec![NLevel::N4],
                tags: Vec::new(),
            })
            .collect(),
        senses: vec![Sense {
            relevant_kanji: Vec::new(),
            relevant_reading: Vec::new(),
            pos,
            gloss: gloss.into_iter().map(|g| Gloss { content: g.to_string() }).collect(),
        }],
    }
}

fn small_dictionary() -> Dictionary {
    Dictionary::from_entries(vec![
        entry(1, Some("水"), vec!["みず"], vec!["water"], vec![Pos::N]),
        entry(2, Some("火"), vec!["ひ"], vec!["fire"], vec![Pos::N]),
        entry(3, Some("木"), vec!["き"], vec!["tree"], vec![Pos::N]),
        entry(4, Some("金"), vec!["かね"], vec!["money"], vec![Pos::N]),
        entry(5, Some("土"), vec!["つち"], vec!["soil"], vec![Pos::N]),
        entry(6, Some("犬"), vec!["いぬ"], vec!["dog"], vec![Pos::N]),
    ])
}

fn check_question(q: &Question, prompt: &str, target: &str) {
    assert_eq!(q.prompt, prompt);
    assert_eq!(q.options.len(), 5);
    assert!(q.answer < 5);
    assert_eq!(q.options[q.answer], target);
    // The recorded answer is the first occurrence of the target text.
    let first = q.options.iter().position(|o| o == target).unwrap();
    assert_eq!(first, q.answer);
}

#[test]
fn eng_to_hir_question() {
    let dict = small_dictionary();
    let q = Question::new(&dict.entries[0], ModeChoice::EngToHir, Pos::N, &dict).unwrap();
    check_question(&q, "water", "みず");
}

#[test]
fn hir_to_eng_question() {
    let dict = small_dictionary();
    let q = Question::new(&dict.entries[0], ModeChoice::HirToEng, Pos::N, &dict).unwrap();
    check_question(&q, "みず", "water");
}

#[test]
fn hir_to_kan_question() {
    let dict = small_dictionary();
    let q = Question::new(&dict.entries[0], ModeChoice::HirToKan, Pos::N, &dict).unwrap();
    check_question(&q, "みず", "水");
}

#[test]
fn kan_to_hir_question() {
    let dict = small_dictionary();
    let q = Question::new(&dict.entries[0], ModeChoice::KanToHir, Pos::N, &dict).unwrap();
    check_question(&q, "水", "みず");
}

#[test]
fn kan_to_eng_question() {
    let dict = small_dictionary();
    let q = Question::new(&dict.entries[0], ModeChoice::KanToEng, Pos::N, &dict).unwrap();
    check_question(&q, "水", "water");
}

#[test]
fn eng_to_kan_question() {
    let dict = small_dictionary();
    let q = Question::new(&dict.entries[0], ModeChoice::EngToKan, Pos::N, &dict).unwrap();
    check_question(&q, "water", "水");
}

#[test]
fn distractors_come_from_other_entries() {
    let dict = small_dictionary();
    for _ in 0..20 {
        let q = Question::new(&dict.entries[0], ModeChoice::HirToEng, Pos::N, &dict).unwrap();
        let candidates = ["water", "fire", "tree", "money", "soil", "dog"];
        for o in &q.options {
            assert!(candidates.contains(&o.as_str()), "unexpected option {}", o);
        }
    }
}

#[test]
fn fails_without_matching_pos() {
    let dict = small_dictionary();
    assert!(Question::new(&dict.entries[0], ModeChoice::EngToHir, Pos::V1, &dict).is_none());
}

#[test]
fn fails_without_gloss() {
    let mut e = entry(9, Some("空"), vec!["そら"], vec![], vec![Pos::N]);
    e.senses[0].gloss.clear();
    let dict = small_dictionary();
    assert!(Question::new(&e, ModeChoice::EngToHir, Pos::N, &dict).is_none());
}

#[test]
fn kanji_modes_fail_without_kanji() {
    let e = entry(9, None, vec!["これ"], vec!["this"], vec![Pos::Pn]);
    let dict = small_dictionary();
    assert!(Question::new(&e, ModeChoice::HirToKan, Pos::Pn, &dict).is_none());
    assert!(Question::new(&e, ModeChoice::EngToKan, Pos::Pn, &dict).is_none());
    assert!(Question::new(&e, ModeChoice::EngToHir, Pos::Pn, &dict).is_some());
}

#[test]
fn respects_sense_reading_restriction() {
    let mut e = entry(9, None, vec!["はな", "ばな"], vec!["flower"], vec![Pos::N]);
    e.senses[0].relevant_reading = vec!["ばな".to_string()];
    let dict = small_dictionary();
    let q = Question::new(&e, ModeChoice::HirToEng, Pos::N, &dict).unwrap();
    assert_eq!(q.prompt, "ばな");
}

#[test]
fn kana_padding_scrambles_the_reading() {
    // A pool with no alternates forces padding; for a kana target the
    // padding comes from the scramble engine, so no option is empty.
    let dict = Dictionary::from_entries(vec![entry(
        1,
        Some("猫"),
        vec!["ねこ"],
        vec!["cat"],
        vec![Pos::N],
    )]);
    let q = Question::new(&dict.entries[0], ModeChoice::EngToHir, Pos::N, &dict).unwrap();
    assert_eq!(q.options.len(), 5);
    for o in &q.options {
        assert!(!o.is_empty());
        assert_eq!(o.chars().count(), 2);
    }
}

#[test]
fn non_kana_padding_leaves_empty_slots() {
    let dict = Dictionary::from_entries(vec![entry(
        1,
        Some("猫"),
        vec!["ねこ"],
        vec!["cat"],
        vec![Pos::N],
    )]);
    let q = Question::new(&dict.entries[0], ModeChoice::HirToEng, Pos::N, &dict).unwrap();
    assert_eq!(q.options.len(), 5);
    assert_eq!(q.options.iter().filter(|o| o.is_empty()).count(), 4);
    assert_eq!(q.options[q.answer], "cat");
}

#[test]
fn kana_padding_falls_back_to_sentinel_on_collision() {
    // The reading わ scrambles only to を, which is already among the
    // options, so every padded slot receives the placeholder and the
    // question is still built.
    let dict = Dictionary::from_entries(vec![
        entry(1, None, vec!["わ"], vec!["wa"], vec![Pos::Prt]),
        entry(2, None, vec!["を"], vec!["wo"], vec![Pos::Prt]),
    ]);
    let q = Question::new(&dict.entries[0], ModeChoice::EngToHir, Pos::Prt, &dict).unwrap();
    assert_eq!(q.options.len(), 5);
    assert_eq!(q.options[q.answer], "わ");
    assert_eq!(q.options.iter().filter(|o| o.as_str() == "を").count(), 1);
    assert_eq!(q.options.iter().filter(|o| o.as_str() == "？？？").count(), 3);
}
