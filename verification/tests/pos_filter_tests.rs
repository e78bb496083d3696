use jplearnbot::dictionary::Pos;
use jplearnbot::pos_filter::{pos_filters_to_pos, PosFilter};

#[test]
fn category_sizes() {
    assert_eq!(PosFilter::Nouns.as_pos().len(), 7);
    assert_eq!(PosFilter::Verbs.as_pos().len(), 59);
    assert_eq!(PosFilter::Prenominals.as_pos().len(), 3);
    assert_eq!(PosFilter::Expressions.as_pos().len(), 2);
    assert_eq!(PosFilter::Conjunctions.as_pos().len(), 1);
    assert_eq!(PosFilter::Other.as_pos().len(), 20);
}

#[test]
fn noun_category_members() {
    let nouns = PosFilter::Nouns.as_pos();
    assert!(nouns.contains(&Pos::N));
    assert!(nouns.contains(&Pos::Pn));
    assert!(!nouns.contains(&Pos::V1));
    assert!(!nouns.contains(&Pos::AdjI));
}

#[test]
fn categories_partition_all_tags() {
    let all = [
        PosFilter::Nouns,
        PosFilter::Verbs,
        PosFilter::Prenominals,
        PosFilter::Expressions,
        PosFilter::Conjunctions,
        PosFilter::Other,
    ];
    let mut seen: Vec<Pos> = Vec::new();
    for f in all {
        for p in f.as_pos() {
            assert!(!seen.contains(&p), "{:?} in two categories", p);
            seen.push(p);
        }
    }
    assert_eq!(seen.len(), 92);
}

#[test]
fn filters_concatenate() {
    let pos = pos_filters_to_pos(&vec![PosFilter::Conjunctions, PosFilter::Expressions]);
    assert_eq!(pos, vec![Pos::Conj, Pos::Exp, Pos::Int]);
}

#[test]
fn empty_filter_list_gives_no_tags() {
    assert_eq!(pos_filters_to_pos(&Vec::new()), Vec::<Pos>::new());
}

#[test]
fn category_labels() {
    assert_eq!(PosFilter::Nouns.label(), "Nouns 名詞");
    assert_eq!(PosFilter::Verbs.label(), "Verbs 動詞");
    assert_eq!(PosFilter::Other.label(), "Other");
}

#[test]
fn repeated_filters_repeat_their_tags() {
    let pos = pos_filters_to_pos(&vec![PosFilter::Conjunctions, PosFilter::Conjunctions]);
    assert_eq!(pos, vec![Pos::Conj, Pos::Conj]);
}
