use jplearnbot::dictionary::{nlevel_from_name, DictEntry, Gloss, Kanji, NLevel, Pos, Reading, Sense};

fn reading(text: &str, relevant_to: Vec<&str>, levels: Vec<NLevel>) -> Reading {
    Reading {
        text: text.to_string(),
        relevant_to: relevant_to.into_iter().map(|s| s.to_string()).collect(),
        levels,
        tags: Vec::new(),
    }
}

fn kanji(text: &str, levels: Vec<NLevel>) -> Kanji {
    Kanji { text: text.to_string(), levels, tags: Vec::new() }
}

fn sense(pos: Vec<Pos>, gloss: Vec<&str>) -> Sense {
    Sense {
        relevant_kanji: Vec::new(),
        relevant_reading: Vec::new(),
        pos,
        gloss: gloss.into_iter().map(|g| Gloss { content: g.to_string() }).collect(),
    }
}

fn entry(id: u32, kanjis: Vec<Kanji>, readings: Vec<Reading>, senses: Vec<Sense>) -> DictEntry {
    DictEntry { id, kanjis, readings, senses }
}

#[test]
fn annotated_when_reading_has_level() {
    let e = entry(
        1,
        vec![kanji("水", vec![])],
        vec![reading("みず", vec![], vec![NLevel::N4])],
        vec![sense(vec![Pos::N], vec!["water"])],
    );
    assert!(e.is_annotated());
}

#[test]
fn annotated_when_kanji_has_level() {
    let e = entry(
        1,
        vec![kanji("水", vec![NLevel::N4])],
        vec![reading("みず", vec![], vec![])],
        vec![sense(vec![Pos::N], vec!["water"])],
    );
    assert!(e.is_annotated());
}

#[test]
fn not_annotated_without_levels() {
    let e = entry(
        1,
        vec![kanji("水", vec![])],
        vec![reading("みず", vec![], vec![])],
        vec![sense(vec![Pos::N], vec!["water"])],
    );
    assert!(!e.is_annotated());
}

#[test]
fn levels_sorted_and_deduplicated() {
    let e = entry(
        1,
        vec![],
        vec![
            reading("あ", vec![], vec![NLevel::N3, NLevel::N1]),
            reading("い", vec![], vec![NLevel::N3, NLevel::N4]),
        ],
        vec![],
    );
    assert_eq!(e.levels(), vec![NLevel::N1, NLevel::N3, NLevel::N4]);
}

#[test]
fn levels_ignores_kanji_annotations() {
    let e = entry(1, vec![kanji("水", vec![NLevel::N1])], vec![reading("みず", vec![], vec![])], vec![]);
    assert_eq!(e.levels(), Vec::<NLevel>::new());
}

#[test]
fn add_level_annotates_reading_and_all_kanjis() {
    let mut e = entry(
        1,
        vec![kanji("水", vec![]), kanji("氷", vec![])],
        vec![reading("みず", vec![], vec![])],
        vec![],
    );
    e.add_level("みず", NLevel::N4);
    assert_eq!(e.readings[0].levels, vec![NLevel::N4]);
    assert_eq!(e.kanjis[0].levels, vec![NLevel::N4]);
    assert_eq!(e.kanjis[1].levels, vec![NLevel::N4]);
}

#[test]
fn add_level_respects_relevant_to() {
    let mut e = entry(
        1,
        vec![kanji("水", vec![]), kanji("氷", vec![])],
        vec![reading("みず", vec!["水"], vec![])],
        vec![],
    );
    e.add_level("みず", NLevel::N2);
    assert_eq!(e.kanjis[0].levels, vec![NLevel::N2]);
    assert!(e.kanjis[1].levels.is_empty());
}

#[test]
fn add_level_without_matching_reading_changes_nothing() {
    let mut e = entry(1, vec![kanji("水", vec![])], vec![reading("みず", vec![], vec![])], vec![]);
    e.add_level("こおり", NLevel::N1);
    assert!(e.readings[0].levels.is_empty());
    assert!(e.kanjis[0].levels.is_empty());
}

#[test]
fn add_level_twice_does_not_duplicate() {
    let mut e = entry(1, vec![], vec![reading("みず", vec![], vec![])], vec![]);
    e.add_level("みず", NLevel::N4);
    e.add_level("みず", NLevel::N4);
    assert_eq!(e.readings[0].levels, vec![NLevel::N4]);
}

#[test]
fn trim_drops_unannotated_elements() {
    let mut e = entry(
        7,
        vec![kanji("水", vec![NLevel::N4]), kanji("氷", vec![])],
        vec![reading("みず", vec![], vec![NLevel::N4]), reading("こおり", vec![], vec![])],
        vec![sense(vec![Pos::N], vec!["water"])],
    );
    e.trim();
    assert_eq!(e.id, 7);
    assert_eq!(e.kanjis.len(), 1);
    assert_eq!(e.kanjis[0].text, "水");
    assert_eq!(e.readings.len(), 1);
    assert_eq!(e.readings[0].text, "みず");
    assert_eq!(e.senses.len(), 1);
}

#[test]
fn nlevel_to_number() {
    assert_eq!(i32::from(NLevel::N1), 1);
    assert_eq!(i32::from(NLevel::N2), 2);
    assert_eq!(i32::from(NLevel::N3), 3);
    assert_eq!(i32::from(NLevel::N4), 4);
}

#[test]
fn level_names_round_trip() {
    for l in [NLevel::N1, NLevel::N2, NLevel::N3, NLevel::N4] {
        assert_eq!(nlevel_from_name(l.name().as_str()), Some(l));
    }
    assert_eq!(nlevel_from_name("N5"), None);
    assert_eq!(nlevel_from_name(""), None);
}
