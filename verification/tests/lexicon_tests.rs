use jplearnbot::dictionary::{DictEntry, Gloss, Kanji, NLevel, Pos, Reading, Sense};
use jplearnbot::lexicon::Dictionary;

fn entry(id: u32, level: NLevel, pos: Pos) -> DictEntry {
    DictEntry {
        id,
        kanjis: vec![Kanji { text: format!("k{}", id), levels: vec![level], tags: Vec::new() }],
        readings: vec![Reading {
            text: format!("r{}", id),
            relevant_to: Vec::new(),
            levels: vec![level],
            tags: Vec::new(),
        }],
        senses: vec![Sense {
            relevant_kanji: Vec::new(),
            relevant_reading: Vec::new(),
            pos: vec![pos],
            gloss: vec![Gloss { content: format!("g{}", id) }],
        }],
    }
}

#[test]
fn sample_keeps_only_matching_entries() {
    let dict = Dictionary::from_entries(vec![
        entry(0, NLevel::N4, Pos::N),
        entry(1, NLevel::N1, Pos::N),
        entry(2, NLevel::N4, Pos::V1),
        entry(3, NLevel::N4, Pos::N),
    ]);
    let mut pool = dict.sample(&vec![NLevel::N4], &vec![Pos::N]);
    pool.sort();
    assert_eq!(pool, vec![0, 3]);
}

#[test]
fn sample_requires_level_and_pos() {
    let dict = Dictionary::from_entries(vec![entry(0, NLevel::N2, Pos::Adv)]);
    assert!(dict.sample(&vec![NLevel::N2], &vec![Pos::N]).is_empty());
    assert!(dict.sample(&vec![NLevel::N1], &vec![Pos::Adv]).is_empty());
    assert_eq!(dict.sample(&vec![NLevel::N2], &vec![Pos::Adv]), vec![0]);
}

#[test]
fn sample_of_empty_dictionary_is_empty() {
    let dict = Dictionary::from_entries(Vec::new());
    assert_eq!(dict.len(), 0);
    assert!(dict.sample(&vec![NLevel::N4], &vec![Pos::N]).is_empty());
}

#[test]
fn sample_is_a_permutation() {
    let entries: Vec<DictEntry> = (0..30).map(|i| entry(i, NLevel::N3, Pos::N)).collect();
    let dict = Dictionary::from_entries(entries);
    let mut pool = dict.sample(&vec![NLevel::N3], &vec![Pos::N]);
    pool.sort();
    assert_eq!(pool, (0..30usize).collect::<Vec<usize>>());
}
