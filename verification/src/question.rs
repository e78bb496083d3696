//! Building multiple-choice questions from dictionary entries.

use vstd::prelude::*;
use crate::dictionary::{DictEntry, Kanji, Reading, Sense, Pos, contains_str, contains_text, str_eq};
use crate::lexicon::Dictionary;
use crate::rng::{choose_fill, shuffle};
use crate::scramble::{scramble_shape, scramble_unique};

verus! {

broadcast use vstd::seq_lib::group_to_multiset_ensures, vstd::multiset::group_multiset_axioms;

/// A sense that can ask for a translation: it carries the tag and has at
/// least one gloss.
pub open spec fn sense_with_gloss(s: Sense, p: Pos) -> bool {
    s.pos@.contains(p) && s.gloss@.len() > 0
}

/// A sense that carries the tag.
pub open spec fn sense_with_pos(s: Sense, p: Pos) -> bool {
    s.pos@.contains(p)
}

/// Whether a reading may stand for a sense: the sense restricts its
/// readings either not at all or to a list holding this one.
pub open spec fn reading_ok_for_sense(sn: Sense, rd: Reading) -> bool {
    sn.relevant_reading@.len() == 0 || contains_text(sn.relevant_reading@, rd.text@)
}

/// Whether a reading may stand for a kanji under a sense: the reading's
/// own restriction admits the kanji, and the sense's admits the reading.
pub open spec fn reading_ok_for_kanji(sn: Sense, kj: Kanji, rd: Reading) -> bool {
    &&& rd.relevant_to@.len() == 0 || contains_text(rd.relevant_to@, kj.text@)
    &&& reading_ok_for_sense(sn, rd)
}

/// `si` is the first sense carrying the tag with a gloss.
pub open spec fn first_sense_with_gloss(ss: Seq<Sense>, p: Pos, si: int) -> bool {
    &&& 0 <= si < ss.len()
    &&& sense_with_gloss(ss[si], p)
    &&& forall|j: int| 0 <= j < si ==> !sense_with_gloss(#[trigger] ss[j], p)
}

/// `si` is the first sense carrying the tag.
pub open spec fn first_sense_with_pos(ss: Seq<Sense>, p: Pos, si: int) -> bool {
    &&& 0 <= si < ss.len()
    &&& sense_with_pos(ss[si], p)
    &&& forall|j: int| 0 <= j < si ==> !sense_with_pos(#[trigger] ss[j], p)
}

/// The extraction a gloss-and-reading question rests on: the first
/// qualifying sense, and the first reading that may stand for it.
pub open spec fn first_gloss_pair(e: DictEntry, p: Pos, si: int, ri: int) -> bool {
    &&& first_sense_with_gloss(e.senses@, p, si)
    &&& 0 <= ri < e.readings@.len()
    &&& reading_ok_for_sense(e.senses@[si], e.readings@[ri])
    &&& forall|j: int| 0 <= j < ri ==> !reading_ok_for_sense(e.senses@[si], #[trigger] e.readings@[j])
}

/// Whether some gloss-and-reading extraction exists for `e` under `p`.
pub open spec fn gloss_pair_exists(e: DictEntry, p: Pos) -> bool {
    exists|si: int, ri: int| #[trigger] first_sense_with_gloss(e.senses@, p, si)
        && 0 <= ri < e.readings@.len()
        && reading_ok_for_sense(e.senses@[si], #[trigger] e.readings@[ri])
}

/// The extraction a kanji-and-reading question rests on: the first sense
/// carrying the tag, the first kanji spelling, and the first reading
/// admitted by both.
pub open spec fn first_kanji_reading(e: DictEntry, p: Pos, si: int, ri: int) -> bool {
    &&& first_sense_with_pos(e.senses@, p, si)
    &&& e.kanjis@.len() > 0
    &&& 0 <= ri < e.readings@.len()
    &&& reading_ok_for_kanji(e.senses@[si], e.kanjis@[0], e.readings@[ri])
    &&& forall|j: int| 0 <= j < ri
            ==> !reading_ok_for_kanji(e.senses@[si], e.kanjis@[0], #[trigger] e.readings@[j])
}

/// Whether `ri` is the extracted reading of some kanji-and-reading
/// extraction.
pub open spec fn kanji_reading_at(e: DictEntry, p: Pos, ri: int) -> bool {
    exists|si: int| #[trigger] first_kanji_reading(e, p, si, ri)
}

/// Whether some kanji-and-reading extraction exists for `e` under `p`.
pub open spec fn kanji_reading_exists(e: DictEntry, p: Pos) -> bool {
    exists|si: int, ri: int| #[trigger] first_sense_with_pos(e.senses@, p, si)
        && e.kanjis@.len() > 0
        && 0 <= ri < e.readings@.len()
        && reading_ok_for_kanji(e.senses@[si], e.kanjis@[0], #[trigger] e.readings@[ri])
}

/// The extraction a kanji-and-gloss question rests on: the first
/// qualifying sense and the first kanji spelling.
pub open spec fn first_kanji_sense(e: DictEntry, p: Pos, si: int) -> bool {
    &&& first_sense_with_gloss(e.senses@, p, si)
    &&& e.kanjis@.len() > 0
}

/// Whether some kanji-and-gloss extraction exists for `e` under `p`.
pub open spec fn kanji_sense_exists(e: DictEntry, p: Pos) -> bool {
    exists|si: int| #[trigger] first_sense_with_gloss(e.senses@, p, si) && e.kanjis@.len() > 0
}

/// Whether a sense qualifies for gloss questions.
fn sense_qualifies_gloss(s: &Sense, p: Pos) -> (r: bool)
    ensures
        r == sense_with_gloss(*s, p),
{
    crate::lexicon::contains_pos(&s.pos, p) && s.gloss.len() > 0
}

/// Finds the first sense carrying `p` with a gloss.
fn find_sense_with_gloss(entry: &DictEntry, p: Pos) -> (r: Option<usize>)
    ensures
        r matches Some(si) ==> first_sense_with_gloss(entry.senses@, p, si as int),
        r is None ==> forall|j: int| 0 <= j < entry.senses@.len()
            ==> !sense_with_gloss(#[trigger] entry.senses@[j], p),
{
    let mut i: usize = 0;
    while i < entry.senses.len()
        invariant
            i <= entry.senses@.len(),
            forall|j: int| 0 <= j < i ==> !sense_with_gloss(#[trigger] entry.senses@[j], p),
        decreases entry.senses@.len() - i,
    {
        if sense_qualifies_gloss(&entry.senses[i], p) {
            return Some(i);
        }
        i += 1;
    }
    None
}

/// Finds the first sense carrying `p`.
fn find_sense_with_pos(entry: &DictEntry, p: Pos) -> (r: Option<usize>)
    ensures
        r matches Some(si) ==> first_sense_with_pos(entry.senses@, p, si as int),
        r is None ==> forall|j: int| 0 <= j < entry.senses@.len()
            ==> !sense_with_pos(#[trigger] entry.senses@[j], p),
{
    let mut i: usize = 0;
    while i < entry.senses.len()
        invariant
            i <= entry.senses@.len(),
            forall|j: int| 0 <= j < i ==> !sense_with_pos(#[trigger] entry.senses@[j], p),
        decreases entry.senses@.len() - i,
    {
        if crate::lexicon::contains_pos(&entry.senses[i].pos, p) {
            return Some(i);
        }
        i += 1;
    }
    None
}

/// Extracts the first qualifying sense and the first reading that may
/// stand for it, as indices `(reading, sense)`.
pub fn reading_sense_pair(entry: &DictEntry, pos: Pos) -> (r: Option<(usize, usize)>)
    ensures
        r matches Some((ri, si)) ==> first_gloss_pair(*entry, pos, si as int, ri as int),
        r is None ==> !gloss_pair_exists(*entry, pos),
{
    let si = match find_sense_with_gloss(entry, pos) {
        Some(si) => si,
        None => {
            proof {
                assert forall|s2: int, r2: int| !(#[trigger] first_sense_with_gloss(
                    entry.senses@, pos, s2) && 0 <= r2 < entry.readings@.len()
                    && reading_ok_for_sense(entry.senses@[s2], #[trigger] entry.readings@[r2]))
                by {
                }
            }
            return None;
        },
    };
    let sense = &entry.senses[si];
    let mut ri: usize = 0;
    while ri < entry.readings.len()
        invariant
            ri <= entry.readings@.len(),
            si < entry.senses@.len(),
            *sense == entry.senses@[si as int],
            first_sense_with_gloss(entry.senses@, pos, si as int),
            forall|j: int| 0 <= j < ri
                ==> !reading_ok_for_sense(entry.senses@[si as int], #[trigger] entry.readings@[j]),
        decreases entry.readings@.len() - ri,
    {
        let ok = sense.relevant_reading.len() == 0
            || contains_str(&sense.relevant_reading, entry.readings[ri].text.as_str());
        if ok {
            return Some((ri, si));
        }
        ri += 1;
    }
    proof {
        assert forall|s2: int, r2: int| !(#[trigger] first_sense_with_gloss(entry.senses@, pos, s2)
            && 0 <= r2 < entry.readings@.len()
            && reading_ok_for_sense(entry.senses@[s2], #[trigger] entry.readings@[r2])) by {
            if first_sense_with_gloss(entry.senses@, pos, s2) {
                if s2 < si as int {
                    assert(sense_with_gloss(entry.senses@[s2], pos));
                } else if s2 > si as int {
                    assert(!sense_with_gloss(entry.senses@[si as int], pos));
                }
            }
        }
    }
    None
}

/// Extracts the first kanji spelling and the first reading admitted for
/// it under the first sense carrying `pos`, as indices
/// `(kanji, reading)`; the kanji index is always zero.
pub fn kanji_reading_pair(entry: &DictEntry, pos: Pos) -> (r: Option<(usize, usize)>)
    ensures
        r matches Some((ki, ri)) ==> ki == 0 && kanji_reading_at(*entry, pos, ri as int),
        r is None ==> !kanji_reading_exists(*entry, pos),
{
    let si = match find_sense_with_pos(entry, pos) {
        Some(si) => si,
        None => {
            proof {
                assert forall|s2: int, r2: int| !(#[trigger] first_sense_with_pos(
                    entry.senses@, pos, s2) && entry.kanjis@.len() > 0
                    && 0 <= r2 < entry.readings@.len()
                    && reading_ok_for_kanji(entry.senses@[s2], entry.kanjis@[0],
                        #[trigger] entry.readings@[r2])) by {
                }
            }
            return None;
        },
    };
    if entry.kanjis.len() == 0 {
        return None;
    }
    let sense = &entry.senses[si];
    let kanji = &entry.kanjis[0];
    let mut ri: usize = 0;
    while ri < entry.readings.len()
        invariant
            ri <= entry.readings@.len(),
            si < entry.senses@.len(),
            entry.kanjis@.len() > 0,
            *sense == entry.senses@[si as int],
            *kanji == entry.kanjis@[0],
            first_sense_with_pos(entry.senses@, pos, si as int),
            forall|j: int| 0 <= j < ri ==> !reading_ok_for_kanji(entry.senses@[si as int],
                entry.kanjis@[0], #[trigger] entry.readings@[j]),
        decreases entry.readings@.len() - ri,
    {
        let rd = &entry.readings[ri];
        let ok = (rd.relevant_to.len() == 0 || contains_str(&rd.relevant_to, kanji.text.as_str()))
            && (sense.relevant_reading.len() == 0
                || contains_str(&sense.relevant_reading, rd.text.as_str()));
        if ok {
            proof {
                assert(first_kanji_reading(*entry, pos, si as int, ri as int));
                assert(kanji_reading_at(*entry, pos, ri as int));
            }
            return Some((0, ri));
        }
        ri += 1;
    }
    proof {
        assert forall|s2: int, r2: int| !(#[trigger] first_sense_with_pos(entry.senses@, pos, s2)
            && entry.kanjis@.len() > 0 && 0 <= r2 < entry.readings@.len()
            && reading_ok_for_kanji(entry.senses@[s2], entry.kanjis@[0],
                #[trigger] entry.readings@[r2])) by {
            if first_sense_with_pos(entry.senses@, pos, s2) {
                if s2 < si as int {
                    assert(sense_with_pos(entry.senses@[s2], pos));
                } else if s2 > si as int {
                    assert(!sense_with_pos(entry.senses@[si as int], pos));
                }
            }
        }
    }
    None
}

/// Extracts the first kanji spelling and the first qualifying sense, as
/// indices `(kanji, sense)`; the kanji index is always zero.
pub fn kanji_sense_pair(entry: &DictEntry, pos: Pos) -> (r: Option<(usize, usize)>)
    ensures
        r matches Some((ki, si)) ==> ki == 0 && first_kanji_sense(*entry, pos, si as int),
        r is None ==> !kanji_sense_exists(*entry, pos),
{
    let si = match find_sense_with_gloss(entry, pos) {
        Some(si) => si,
        None => {
            return None;
        },
    };
    if entry.kanjis.len() == 0 {
        proof {
            assert forall|s2: int| !(#[trigger] first_sense_with_gloss(entry.senses@, pos, s2)
                && entry.kanjis@.len() > 0) by {
            }
        }
        return None;
    }
    Some((0, si))
}

/// A question: a prompt, five options, and the index of the correct one.
#[derive(Debug)]
pub struct Question {
    /// The word to translate.
    pub prompt: String,
    /// Possible translations of the prompt.
    pub options: Vec<String>,
    /// The index of the correct translation.
    pub answer: usize,
}

/// What every built question guarantees: five options, the recorded
/// answer index in range, the first option holding the correct target
/// text standing exactly at that index, and the prompt holding the
/// source text.
pub open spec fn question_shape(q: Question, prompt: Seq<char>, target: Seq<char>) -> bool {
    &&& q.options@.len() == 5
    &&& q.answer < 5
    &&& q.options@[q.answer as int]@ == target
    &&& forall|j: int| 0 <= j < q.answer ==> (#[trigger] q.options@[j]@) != target
    &&& q.prompt@ == prompt
}


/// The character sequences of a string list.
pub open spec fn views_of(v: Seq<String>) -> Seq<Seq<char>> {
    v.map_values(|s: String| s@)
}

/// Whether a direction pads missing options with the kana scramble
/// engine: those whose target is a kana reading.
pub open spec fn pads_with_scramble(mode: ModeChoice) -> bool {
    mode == ModeChoice::EngToHir || mode == ModeChoice::KanToHir
}

/// Whether `o` is the text this direction would extract as the correct
/// target for `e` under `p`.
pub open spec fn entry_target(e: DictEntry, mode: ModeChoice, p: Pos, o: Seq<char>) -> bool {
    match mode {
        ModeChoice::EngToHir => exists|si: int, ri: int| #[trigger] first_gloss_pair(e, p, si, ri)
            && o == e.readings@[ri].text@,
        ModeChoice::HirToEng => exists|si: int, ri: int| #[trigger] first_gloss_pair(e, p, si, ri)
            && o == e.senses@[si].gloss@[0].content@,
        ModeChoice::HirToKan => exists|si: int, ri: int| #[trigger] first_kanji_reading(e, p, si,
            ri) && o == e.kanjis@[0].text@,
        ModeChoice::KanToHir => exists|si: int, ri: int| #[trigger] first_kanji_reading(e, p, si,
            ri) && o == e.readings@[ri].text@,
        ModeChoice::KanToEng => exists|si: int| #[trigger] first_kanji_sense(e, p, si)
            && o == e.senses@[si].gloss@[0].content@,
        ModeChoice::EngToKan => exists|si: int| #[trigger] first_kanji_sense(e, p, si)
            && o == e.kanjis@[0].text@,
    }
}

/// Whether `o` is the target text of an entry other than `id` that
/// admits this direction's extraction under `p`.
pub open spec fn alternate_target(dict: Dictionary, id: u32, mode: ModeChoice, p: Pos, o: Seq<char>) -> bool {
    exists|k: int| 0 <= k < dict.entries@.len() && dict.entries@[k].id != id
        && #[trigger] entry_target(dict.entries@[k], mode, p, o)
}

/// Where every non-answer option of a built question comes from: it is
/// the target of another entry admitting the same extraction, or the
/// direction's padding — a scramble of the correct text (or the
/// collision sentinel) for kana targets, an empty string otherwise.
pub open spec fn question_distractors(dict: Dictionary, id: u32, mode: ModeChoice, p: Pos, q: Question) -> bool {
    forall|j: int| 0 <= j < q.options@.len() && j != q.answer ==> ({
        ||| alternate_target(dict, id, mode, p, #[trigger] q.options@[j]@)
        ||| (if pads_with_scramble(mode) {
                scramble_shape(q.options@[q.answer as int]@, q.options@[j]@)
                    || q.options@[j]@ == "？？？"@
            } else {
                q.options@[j]@.len() == 0
            })
    })
}

/// What a non-answer option of `build_options` may be: one of the
/// candidate texts, or the padding for the given kind of target.
spec fn distractor_ok(o: Seq<char>, target: Seq<char>, cands: Seq<Seq<char>>, pad_kana: bool) -> bool {
    ||| cands.contains(o)
    ||| (if pad_kana {
            scramble_shape(target, o) || o == "？？？"@
        } else {
            o.len() == 0
        })
}

/// A permutation of a string list is a permutation of its texts.
proof fn lemma_views_permutation(a: Seq<String>, b: Seq<String>)
    requires
        a.to_multiset() == b.to_multiset(),
    ensures
        views_of(a).to_multiset() == views_of(b).to_multiset(),
    decreases a.len(),
{
    if a.len() == 0 {
        assert(a.len() == a.to_multiset().len());
        assert(b.len() == b.to_multiset().len());
        assert(views_of(a) =~= Seq::<Seq<char>>::empty());
        assert(views_of(b) =~= Seq::<Seq<char>>::empty());
    } else {
        let x = a.last();
        let a1 = a.drop_last();
        assert(a1.push(x) =~= a);
        assert(a1.push(x).to_multiset() =~= a1.to_multiset().insert(x));
        assert(a.to_multiset().count(x) > 0);
        assert(b.to_multiset().count(x) > 0);
        assert(b.contains(x));
        let i = choose|i: int| 0 <= i < b.len() && b[i] == x;
        let b1 = b.remove(i);
        assert(b1.to_multiset() =~= b.to_multiset().remove(x));
        assert(a1.to_multiset() =~= a.to_multiset().remove(x));
        assert(a1.to_multiset() == b1.to_multiset());
        lemma_views_permutation(a1, b1);
        assert(views_of(a) =~= views_of(a1).push(x@));
        assert(views_of(a1).push(x@).to_multiset() =~= views_of(a1).to_multiset().insert(x@));
        assert(views_of(b1) =~= views_of(b).remove(i));
        assert(views_of(b).remove(i).to_multiset() =~= views_of(b).to_multiset().remove(
            views_of(b)[i]));
        assert(views_of(b)[i] == x@);
        assert(views_of(b).contains(views_of(b)[i]));
        assert(views_of(b).to_multiset().count(x@) > 0);
        assert(views_of(b).to_multiset() =~= views_of(b).to_multiset().remove(x@).insert(x@));
        assert(views_of(b).to_multiset() == views_of(b1).to_multiset().insert(x@));
        assert(views_of(a).to_multiset() == views_of(a1).to_multiset().insert(x@));
    }
}

/// A value standing at two indices counts at least twice.
proof fn lemma_two_indices_count<A>(s: Seq<A>, i: int, j: int)
    requires
        0 <= i < s.len(),
        0 <= j < s.len(),
        i != j,
        s[i] == s[j],
    ensures
        s.to_multiset().count(s[i]) >= 2,
{
    let s1 = s.remove(j);
    assert(s1.to_multiset() =~= s.to_multiset().remove(s[j]));
    if i < j {
        assert(s1[i] == s[i]);
    } else {
        assert(s1[i - 1] == s[i]);
    }
    assert(s1.contains(s[i]));
    assert(s1.to_multiset().count(s[i]) > 0);
}

/// Exactly one position holds `v`, so it counts exactly once.
proof fn lemma_count_of_prefix_unique<A>(s: Seq<A>, v: A)
    requires
        s.len() >= 1,
        s[0] == v,
        forall|t: int| 1 <= t < s.len() ==> s[t] != v,
    ensures
        s.to_multiset().count(v) == 1,
    decreases s.len(),
{
    if s.len() == 1 {
        assert(s =~= Seq::<A>::empty().push(v));
        assert(Seq::<A>::empty().push(v).to_multiset()
            =~= Seq::<A>::empty().to_multiset().insert(v));
        assert(Seq::<A>::empty().to_multiset().count(v) == 0);
    } else {
        let s1 = s.drop_last();
        lemma_count_of_prefix_unique(s1, v);
        assert(s1.push(s.last()) =~= s);
        assert(s1.push(s.last()).to_multiset() =~= s1.to_multiset().insert(s.last()));
        assert(s.last() != v);
    }
}

/// Lays out the five options: the correct target first, then up to four
/// sampled alternates, padded to five (by scrambling the target when it
/// is a kana reading, with empty strings otherwise), then shuffled. The
/// answer is the first option equal to the target; every other option
/// is a candidate text or padding.
fn build_options(correct: String, cands: &Vec<String>, pad_kana: bool) -> (res: (Vec<String>, usize))
    ensures
        res.0@.len() == 5,
        res.1 < 5,
        res.0@[res.1 as int]@ == correct@,
        forall|j: int| 0 <= j < res.1 ==> #[trigger] res.0@[j]@ != correct@,
        forall|j: int| 0 <= j < 5 && j != res.1
            ==> distractor_ok(#[trigger] res.0@[j]@, correct@, views_of(cands@), pad_kana),
{
    let ghost cv = correct@;
    let ghost candsv = views_of(cands@);
    let correct_key = correct.clone();
    let mut options: Vec<String> = Vec::new();
    options.push(correct);
    let mut filled = choose_fill(cands, 4);
    let ghost fv = filled@;
    options.append(&mut filled);
    proof {
        assert(options@.len() <= 5);
        assert forall|t: int| 1 <= t < options@.len() implies candsv.contains(
            #[trigger] options@[t]@) by {
            assert(options@[t] == fv[t - 1]);
            assert(fv[t - 1]@ == options@[t]@);
            let j = choose|j: int| 0 <= j < cands@.len() && fv[t - 1]@ == cands@[j]@;
            assert(candsv[j] == cands@[j]@);
            assert(candsv.contains(options@[t]@));
        }
        assert forall|t: int| 0 <= t < options@.len() implies (#[trigger] options@[t]@ == cv
            || distractor_ok(options@[t]@, cv, candsv, pad_kana)) by {
            if t >= 1 {
                assert(candsv.contains(options@[t]@));
                assert(distractor_ok(options@[t]@, cv, candsv, pad_kana));
            }
        }
    }
    while options.len() < 5
        invariant
            0 < options@.len() <= 5,
            options@[0]@ == cv,
            cv == correct@,
            correct_key@ == cv,
            candsv == views_of(cands@),
            forall|t: int| 0 <= t < options@.len() ==> #[trigger] options@[t]@ == cv
                || distractor_ok(options@[t]@, cv, candsv, pad_kana),
            !distractor_ok(cv, cv, candsv, pad_kana)
                ==> forall|t: int| 1 <= t < options@.len() ==> #[trigger] options@[t]@ != cv,
        decreases 5 - options@.len(),
    {
        let pad = if pad_kana {
            scramble_unique(correct_key.as_str(), &options)
        } else {
            String::new()
        };
        proof {
            assert(distractor_ok(pad@, cv, candsv, pad_kana));
            if !distractor_ok(cv, cv, candsv, pad_kana) {
                // A scramble is distinct from every current option,
                // hence from the correct text at index zero; a sentinel
                // or empty padding equal to the correct text would make
                // the correct text itself padding-shaped.
                if pad@ == cv {
                    if pad_kana {
                        if !(pad@ == "？？？"@) {
                            assert(!contains_text(options@, pad@));
                            assert(options@[0]@ == pad@);
                        }
                    }
                    assert(false);
                }
            }
        }
        options.push(pad);
    }
    let ghost before = options@;
    proof {
        assert(before.len() == 5);
        if !distractor_ok(cv, cv, candsv, pad_kana) {
            assert(views_of(before)[0] == cv);
            assert(forall|t: int| 1 <= t < views_of(before).len()
                ==> #[trigger] views_of(before)[t] != cv);
            lemma_count_of_prefix_unique(views_of(before), cv);
        }
    }
    shuffle(&mut options);
    proof {
        lemma_views_permutation(before, options@);
        assert(options@.len() == options@.to_multiset().len());
        assert(before.len() == before.to_multiset().len());
        assert(options@.len() == 5);
        assert forall|x: Seq<char>| views_of(options@).contains(x) implies views_of(
            before).contains(x) by {
            assert(views_of(options@).to_multiset().count(x) > 0);
            assert(views_of(before).to_multiset().count(x) > 0);
        }
        assert(views_of(before)[0] == cv);
        assert(views_of(before).contains(cv));
        assert(views_of(before).to_multiset().count(cv) > 0);
        assert(views_of(options@).to_multiset().count(cv) > 0);
        assert(views_of(options@).contains(cv));
        let w = choose|w: int| 0 <= w < views_of(options@).len() && views_of(options@)[w] == cv;
        assert(options@[w]@ == cv);
        assert forall|t: int| 0 <= t < options@.len() implies (#[trigger] options@[t]@ == cv
            || distractor_ok(options@[t]@, cv, candsv, pad_kana)) by {
            let vm = views_of(options@);
            assert(vm[t] == options@[t]@);
            assert(vm.contains(vm[t]));
            assert(views_of(before).contains(vm[t]));
            let s = choose|s: int| 0 <= s < views_of(before).len()
                && views_of(before)[s] == vm[t];
            assert(before[s]@ == options@[t]@);
        }
        if !distractor_ok(cv, cv, candsv, pad_kana) {
            assert(views_of(options@).to_multiset().count(cv)
                == views_of(before).to_multiset().count(cv));
        }
    }
    let mut i: usize = 0;
    while i < options.len()
        invariant
            i <= options@.len(),
            options@.len() == 5,
            cv == correct@,
            correct_key@ == cv,
            candsv == views_of(cands@),
            exists|j: int| 0 <= j < options@.len() && #[trigger] options@[j]@ == cv,
            forall|j: int| 0 <= j < i ==> #[trigger] options@[j]@ != cv,
            forall|t: int| 0 <= t < options@.len() ==> #[trigger] options@[t]@ == cv
                || distractor_ok(options@[t]@, cv, candsv, pad_kana),
            !distractor_ok(cv, cv, candsv, pad_kana)
                ==> views_of(options@).to_multiset().count(cv) == 1,
        decreases options@.len() - i,
    {
        if str_eq(options[i].as_str(), correct_key.as_str()) {
            proof {
                assert forall|j: int| 0 <= j < 5 && j != i as int implies distractor_ok(
                    #[trigger] options@[j]@, cv, candsv, pad_kana) by {
                    if options@[j]@ == cv {
                        let vm = views_of(options@);
                        assert(vm[j] == cv && vm[i as int] == cv);
                        if (i as int) < j {
                            lemma_two_indices_count(vm, i as int, j);
                        } else {
                            lemma_two_indices_count(vm, j, i as int);
                        }
                        assert(vm.to_multiset().count(cv) >= 2);
                        assert(distractor_ok(cv, cv, candsv, pad_kana));
                    }
                }
            }
            return (options, i);
        }
        i += 1;
    }
    proof {
        assert(false);
    }
    (options, 0)
}

/// The six quiz directions.
#[derive(Debug, Clone, Copy, PartialEq, Eq, Structural)]
pub enum ModeChoice {
    EngToHir,
    HirToEng,
    HirToKan,
    KanToHir,
    KanToEng,
    EngToKan,
}


/// A question built over candidates that are all alternate targets has
/// its non-answer options accounted for.
proof fn lemma_distractors_from_candidates(
    dict: Dictionary,
    id: u32,
    mode: ModeChoice,
    p: Pos,
    q: Question,
    cands: Seq<String>,
    target: Seq<char>,
)
    requires
        q.options@.len() == 5,
        q.answer < 5,
        q.options@[q.answer as int]@ == target,
        forall|j: int| 0 <= j < 5 && j != q.answer ==> distractor_ok(#[trigger] q.options@[j]@,
            target, views_of(cands), pads_with_scramble(mode)),
        forall|t: int| 0 <= t < cands.len() ==> alternate_target(dict, id, mode, p,
            #[trigger] cands[t]@),
    ensures
        question_distractors(dict, id, mode, p, q),
{
    assert forall|j: int| 0 <= j < q.options@.len() && j != q.answer implies ({
        ||| alternate_target(dict, id, mode, p, #[trigger] q.options@[j]@)
        ||| (if pads_with_scramble(mode) {
                scramble_shape(q.options@[q.answer as int]@, q.options@[j]@)
                    || q.options@[j]@ == "？？？"@
            } else {
                q.options@[j]@.len() == 0
            })
    }) by {
        if views_of(cands).contains(q.options@[j]@) {
            let t = choose|t: int| 0 <= t < views_of(cands).len()
                && views_of(cands)[t] == q.options@[j]@;
            assert(cands[t]@ == q.options@[j]@);
            assert(alternate_target(dict, id, mode, p, cands[t]@));
        }
    }
}

/// What a gloss-and-reading question looks like, in either direction.
pub open spec fn gloss_question_shape(e: DictEntry, p: Pos, q: Question, answer_is_reading: bool) -> bool {
    exists|si: int, ri: int| #[trigger] first_gloss_pair(e, p, si, ri)
        && if answer_is_reading {
            question_shape(q, e.senses@[si].gloss@[0].content@, e.readings@[ri].text@)
        } else {
            question_shape(q, e.readings@[ri].text@, e.senses@[si].gloss@[0].content@)
        }
}

/// What a kanji-and-reading question looks like, in either direction.
pub open spec fn kanji_reading_question_shape(e: DictEntry, p: Pos, q: Question, answer_is_kanji: bool) -> bool {
    exists|si: int, ri: int| #[trigger] first_kanji_reading(e, p, si, ri)
        && if answer_is_kanji {
            question_shape(q, e.readings@[ri].text@, e.kanjis@[0].text@)
        } else {
            question_shape(q, e.kanjis@[0].text@, e.readings@[ri].text@)
        }
}

/// What a kanji-and-gloss question looks like, in either direction.
pub open spec fn kanji_gloss_question_shape(e: DictEntry, p: Pos, q: Question, answer_is_kanji: bool) -> bool {
    exists|si: int| #[trigger] first_kanji_sense(e, p, si)
        && if answer_is_kanji {
            question_shape(q, e.senses@[si].gloss@[0].content@, e.kanjis@[0].text@)
        } else {
            question_shape(q, e.kanjis@[0].text@, e.senses@[si].gloss@[0].content@)
        }
}

/// Whether an entry can yield a question in the given direction under
/// the given tag.
pub open spec fn question_buildable(e: DictEntry, mode: ModeChoice, p: Pos) -> bool {
    match mode {
        ModeChoice::EngToHir => gloss_pair_exists(e, p),
        ModeChoice::HirToEng => gloss_pair_exists(e, p),
        ModeChoice::HirToKan => kanji_reading_exists(e, p),
        ModeChoice::KanToHir => kanji_reading_exists(e, p),
        ModeChoice::KanToEng => kanji_sense_exists(e, p),
        ModeChoice::EngToKan => kanji_sense_exists(e, p),
    }
}

/// The full guarantee of `Question::new`, by direction.
pub open spec fn question_post(e: DictEntry, dict: Dictionary, mode: ModeChoice, p: Pos, r: Option<Question>) -> bool {
    &&& (r is Some <==> question_buildable(e, mode, p))
    &&& (r matches Some(q) ==> question_distractors(dict, e.id, mode, p, q))
    &&& (r matches Some(q) ==> match mode {
            ModeChoice::EngToHir => gloss_question_shape(e, p, q, true),
            ModeChoice::HirToEng => gloss_question_shape(e, p, q, false),
            ModeChoice::HirToKan => kanji_reading_question_shape(e, p, q, true),
            ModeChoice::KanToHir => kanji_reading_question_shape(e, p, q, false),
            ModeChoice::KanToEng => kanji_gloss_question_shape(e, p, q, false),
            ModeChoice::EngToKan => kanji_gloss_question_shape(e, p, q, true),
        })
}

impl Question {
    /// Builds a question for `entry` in the given direction, or nothing
    /// when the entry cannot support it under the tag.
    pub fn new(entry: &DictEntry, mode: ModeChoice, pos: Pos, dictionary: &Dictionary) -> (r: Option<Question>)
        ensures
            question_post(*entry, *dictionary, mode, pos, r),
    {
        match mode {
            ModeChoice::EngToHir => Self::new_eng_to_hir(entry, pos, dictionary),
            ModeChoice::HirToEng => Self::new_hir_to_eng(entry, pos, dictionary),
            ModeChoice::HirToKan => Self::new_hir_to_kan(entry, pos, dictionary),
            ModeChoice::KanToHir => Self::new_kan_to_hir(entry, pos, dictionary),
            ModeChoice::KanToEng => Self::new_kan_to_eng(entry, pos, dictionary),
            ModeChoice::EngToKan => Self::new_eng_to_kan(entry, pos, dictionary),
        }
    }

    /// A gloss prompt answered by the reading, with kana-scramble
    /// padding.
    pub fn new_eng_to_hir(entry: &DictEntry, pos: Pos, dictionary: &Dictionary) -> (r: Option<Question>)
        ensures
            r is Some <==> gloss_pair_exists(*entry, pos),
            r matches Some(q) ==> gloss_question_shape(*entry, pos, q, true),
            r matches Some(q) ==> question_distractors(*dictionary, entry.id,
                ModeChoice::EngToHir, pos, q),
    {
        let (ri, si) = match reading_sense_pair(entry, pos) {
            Some(p) => p,
            None => {
                return None;
            },
        };
        let mut cands: Vec<String> = Vec::new();
        let mut i: usize = 0;
        while i < dictionary.entries.len()
            invariant
                forall|t: int| 0 <= t < cands@.len() ==> alternate_target(*dictionary, entry.id,
                    ModeChoice::EngToHir, pos, #[trigger] cands@[t]@),
            decreases dictionary.entries@.len() - i,
        {
            let e = &dictionary.entries[i];
            if e.id != entry.id {
                if let Some((ri2, si2)) = reading_sense_pair(e, pos) {
                    cands.push(e.readings[ri2].text.clone());
                    proof {
                        let o = cands@[cands@.len() - 1];
                        assert(first_gloss_pair(dictionary.entries@[i as int], pos, si2 as int,
                            ri2 as int));
                        assert(entry_target(dictionary.entries@[i as int], ModeChoice::EngToHir,
                            pos, o@));
                        assert(alternate_target(*dictionary, entry.id, ModeChoice::EngToHir, pos,
                            o@));
                    }
                }
            }
            i += 1;
        }
        let correct = entry.readings[ri].text.clone();
        let ghost corrv = correct@;
        let (options, answer) = build_options(correct, &cands, true);
        let q = Question {
            prompt: entry.senses[si].gloss[0].content.clone(),
            options,
            answer,
        };
        proof {
            assert(question_shape(q, entry.senses@[si as int].gloss@[0].content@,
                entry.readings@[ri as int].text@));
            assert(gloss_question_shape(*entry, pos, q, true));
            lemma_distractors_from_candidates(*dictionary, entry.id, ModeChoice::EngToHir, pos, q,
                cands@, corrv);
        }
        Some(q)
    }

    /// A reading prompt answered by the gloss.
    pub fn new_hir_to_eng(entry: &DictEntry, pos: Pos, dictionary: &Dictionary) -> (r: Option<Question>)
        ensures
            r is Some <==> gloss_pair_exists(*entry, pos),
            r matches Some(q) ==> gloss_question_shape(*entry, pos, q, false),
            r matches Some(q) ==> question_distractors(*dictionary, entry.id,
                ModeChoice::HirToEng, pos, q),
    {
        let (ri, si) = match reading_sense_pair(entry, pos) {
            Some(p) => p,
            None => {
                return None;
            },
        };
        let mut cands: Vec<String> = Vec::new();
        let mut i: usize = 0;
        while i < dictionary.entries.len()
            invariant
                forall|t: int| 0 <= t < cands@.len() ==> alternate_target(*dictionary, entry.id,
                    ModeChoice::HirToEng, pos, #[trigger] cands@[t]@),
            decreases dictionary.entries@.len() - i,
        {
            let e = &dictionary.entries[i];
            if e.id != entry.id {
                if let Some((ri2, si2)) = reading_sense_pair(e, pos) {
                    cands.push(e.senses[si2].gloss[0].content.clone());
                    proof {
                        let o = cands@[cands@.len() - 1];
                        assert(first_gloss_pair(dictionary.entries@[i as int], pos, si2 as int,
                            ri2 as int));
                        assert(entry_target(dictionary.entries@[i as int], ModeChoice::HirToEng,
                            pos, o@));
                        assert(alternate_target(*dictionary, entry.id, ModeChoice::HirToEng, pos,
                            o@));
                    }
                }
            }
            i += 1;
        }
        let correct = entry.senses[si].gloss[0].content.clone();
        let ghost corrv = correct@;
        let (options, answer) = build_options(correct, &cands, false);
        let q = Question {
            prompt: entry.readings[ri].text.clone(),
            options,
            answer,
        };
        proof {
            assert(question_shape(q, entry.readings@[ri as int].text@,
                entry.senses@[si as int].gloss@[0].content@));
            assert(gloss_question_shape(*entry, pos, q, false));
            lemma_distractors_from_candidates(*dictionary, entry.id, ModeChoice::HirToEng, pos, q,
                cands@, corrv);
        }
        Some(q)
    }

    /// A reading prompt answered by the kanji spelling.
    pub fn new_hir_to_kan(entry: &DictEntry, pos: Pos, dictionary: &Dictionary) -> (r: Option<Question>)
        ensures
            r is Some <==> kanji_reading_exists(*entry, pos),
            r matches Some(q) ==> kanji_reading_question_shape(*entry, pos, q, true),
            r matches Some(q) ==> question_distractors(*dictionary, entry.id,
                ModeChoice::HirToKan, pos, q),
    {
        let (_ki, ri) = match kanji_reading_pair(entry, pos) {
            Some(p) => p,
            None => {
                return None;
            },
        };
        let mut cands: Vec<String> = Vec::new();
        let mut i: usize = 0;
        while i < dictionary.entries.len()
            invariant
                forall|t: int| 0 <= t < cands@.len() ==> alternate_target(*dictionary, entry.id,
                    ModeChoice::HirToKan, pos, #[trigger] cands@[t]@),
            decreases dictionary.entries@.len() - i,
        {
            let e = &dictionary.entries[i];
            if e.id != entry.id {
                if let Some((ki2, ri2)) = kanji_reading_pair(e, pos) {
                    cands.push(e.kanjis[ki2].text.clone());
                    proof {
                        let o = cands@[cands@.len() - 1];
                        let s2 = choose|s2: int| first_kanji_reading(
                            dictionary.entries@[i as int], pos, s2, ri2 as int);
                        assert(entry_target(dictionary.entries@[i as int], ModeChoice::HirToKan,
                            pos, o@));
                        assert(alternate_target(*dictionary, entry.id, ModeChoice::HirToKan, pos,
                            o@));
                    }
                }
            }
            i += 1;
        }
        let correct = entry.kanjis[0].text.clone();
        let ghost corrv = correct@;
        let (options, answer) = build_options(correct, &cands, false);
        let q = Question {
            prompt: entry.readings[ri].text.clone(),
            options,
            answer,
        };
        proof {
            let si = choose|si: int| first_kanji_reading(*entry, pos, si, ri as int);
            assert(question_shape(q, entry.readings@[ri as int].text@, entry.kanjis@[0].text@));
            assert(kanji_reading_question_shape(*entry, pos, q, true));
            lemma_distractors_from_candidates(*dictionary, entry.id, ModeChoice::HirToKan, pos, q,
                cands@, corrv);
        }
        Some(q)
    }

    /// A kanji prompt answered by the reading, with kana-scramble
    /// padding.
    pub fn new_kan_to_hir(entry: &DictEntry, pos: Pos, dictionary: &Dictionary) -> (r: Option<Question>)
        ensures
            r is Some <==> kanji_reading_exists(*entry, pos),
            r matches Some(q) ==> kanji_reading_question_shape(*entry, pos, q, false),
            r matches Some(q) ==> question_distractors(*dictionary, entry.id,
                ModeChoice::KanToHir, pos, q),
    {
        let (_ki, ri) = match kanji_reading_pair(entry, pos) {
            Some(p) => p,
            None => {
                return None;
            },
        };
        let mut cands: Vec<String> = Vec::new();
        let mut i: usize = 0;
        while i < dictionary.entries.len()
            invariant
                forall|t: int| 0 <= t < cands@.len() ==> alternate_target(*dictionary, entry.id,
                    ModeChoice::KanToHir, pos, #[trigger] cands@[t]@),
            decreases dictionary.entries@.len() - i,
        {
            let e = &dictionary.entries[i];
            if e.id != entry.id {
                if let Some((_ki2, ri2)) = kanji_reading_pair(e, pos) {
                    cands.push(e.readings[ri2].text.clone());
                    proof {
                        let o = cands@[cands@.len() - 1];
                        let s2 = choose|s2: int| first_kanji_reading(
                            dictionary.entries@[i as int], pos, s2, ri2 as int);
                        assert(entry_target(dictionary.entries@[i as int], ModeChoice::KanToHir,
                            pos, o@));
                        assert(alternate_target(*dictionary, entry.id, ModeChoice::KanToHir, pos,
                            o@));
                    }
                }
            }
            i += 1;
        }
        let correct = entry.readings[ri].text.clone();
        let ghost corrv = correct@;
        let (options, answer) = build_options(correct, &cands, true);
        let q = Question {
            prompt: entry.kanjis[0].text.clone(),
            options,
            answer,
        };
        proof {
            let si = choose|si: int| first_kanji_reading(*entry, pos, si, ri as int);
            assert(question_shape(q, entry.kanjis@[0].text@, entry.readings@[ri as int].text@));
            assert(kanji_reading_question_shape(*entry, pos, q, false));
            lemma_distractors_from_candidates(*dictionary, entry.id, ModeChoice::KanToHir, pos, q,
                cands@, corrv);
        }
        Some(q)
    }

    /// A kanji prompt answered by the gloss.
    pub fn new_kan_to_eng(entry: &DictEntry, pos: Pos, dictionary: &Dictionary) -> (r: Option<Question>)
        ensures
            r is Some <==> kanji_sense_exists(*entry, pos),
            r matches Some(q) ==> kanji_gloss_question_shape(*entry, pos, q, false),
            r matches Some(q) ==> question_distractors(*dictionary, entry.id,
                ModeChoice::KanToEng, pos, q),
    {
        let (_ki, si) = match kanji_sense_pair(entry, pos) {
            Some(p) => p,
            None => {
                return None;
            },
        };
        let mut cands: Vec<String> = Vec::new();
        let mut i: usize = 0;
        while i < dictionary.entries.len()
            invariant
                forall|t: int| 0 <= t < cands@.len() ==> alternate_target(*dictionary, entry.id,
                    ModeChoice::KanToEng, pos, #[trigger] cands@[t]@),
            decreases dictionary.entries@.len() - i,
        {
            let e = &dictionary.entries[i];
            if e.id != entry.id {
                if let Some((_ki2, si2)) = kanji_sense_pair(e, pos) {
                    cands.push(e.senses[si2].gloss[0].content.clone());
                    proof {
                        let o = cands@[cands@.len() - 1];
                        assert(first_kanji_sense(dictionary.entries@[i as int], pos, si2 as int));
                        assert(entry_target(dictionary.entries@[i as int], ModeChoice::KanToEng,
                            pos, o@));
                        assert(alternate_target(*dictionary, entry.id, ModeChoice::KanToEng, pos,
                            o@));
                    }
                }
            }
            i += 1;
        }
        let correct = entry.senses[si].gloss[0].content.clone();
        let ghost corrv = correct@;
        let (options, answer) = build_options(correct, &cands, false);
        let q = Question {
            prompt: entry.kanjis[0].text.clone(),
            options,
            answer,
        };
        proof {
            assert(question_shape(q, entry.kanjis@[0].text@,
                entry.senses@[si as int].gloss@[0].content@));
            assert(kanji_gloss_question_shape(*entry, pos, q, false));
            lemma_distractors_from_candidates(*dictionary, entry.id, ModeChoice::KanToEng, pos, q,
                cands@, corrv);
        }
        Some(q)
    }

    /// A gloss prompt answered by the kanji spelling.
    pub fn new_eng_to_kan(entry: &DictEntry, pos: Pos, dictionary: &Dictionary) -> (r: Option<Question>)
        ensures
            r is Some <==> kanji_sense_exists(*entry, pos),
            r matches Some(q) ==> kanji_gloss_question_shape(*entry, pos, q, true),
            r matches Some(q) ==> question_distractors(*dictionary, entry.id,
                ModeChoice::EngToKan, pos, q),
    {
        let (_ki, si) = match kanji_sense_pair(entry, pos) {
            Some(p) => p,
            None => {
                return None;
            },
        };
        let mut cands: Vec<String> = Vec::new();
        let mut i: usize = 0;
        while i < dictionary.entries.len()
            invariant
                forall|t: int| 0 <= t < cands@.len() ==> alternate_target(*dictionary, entry.id,
                    ModeChoice::EngToKan, pos, #[trigger] cands@[t]@),
            decreases dictionary.entries@.len() - i,
        {
            let e = &dictionary.entries[i];
            if e.id != entry.id {
                if let Some((ki2, si2)) = kanji_sense_pair(e, pos) {
                    cands.push(e.kanjis[ki2].text.clone());
                    proof {
                        let o = cands@[cands@.len() - 1];
                        assert(first_kanji_sense(dictionary.entries@[i as int], pos, si2 as int));
                        assert(entry_target(dictionary.entries@[i as int], ModeChoice::EngToKan,
                            pos, o@));
                        assert(alternate_target(*dictionary, entry.id, ModeChoice::EngToKan, pos,
                            o@));
                    }
                }
            }
            i += 1;
        }
        let correct = entry.kanjis[0].text.clone();
        let ghost corrv = correct@;
        let (options, answer) = build_options(correct, &cands, false);
        let q = Question {
            prompt: entry.senses[si].gloss[0].content.clone(),
            options,
            answer,
        };
        proof {
            assert(question_shape(q, entry.senses@[si as int].gloss@[0].content@,
                entry.kanjis@[0].text@));
            assert(kanji_gloss_question_shape(*entry, pos, q, true));
            lemma_distractors_from_candidates(*dictionary, entry.id, ModeChoice::EngToKan, pos, q,
                cands@, corrv);
        }
        Some(q)
    }
}

} // verus!
