//! The in-memory dictionary and filtered random sampling over it.

use vstd::prelude::*;
use crate::dictionary::{DictEntry, NLevel, Pos, contains_level, some_reading_has_level};
use crate::rng::shuffle;

verus! {

broadcast use vstd::seq_lib::group_to_multiset_ensures;

/// Whether some sense of `e` carries the tag `p`.
pub open spec fn entry_has_pos(e: DictEntry, p: Pos) -> bool {
    exists|i: int| 0 <= i < e.senses@.len() && #[trigger] e.senses@[i].pos@.contains(p)
}

/// Whether an entry belongs to the pool drawn with the given level and
/// part-of-speech filters: some reading carries one of the wanted
/// levels, and some sense carries one of the wanted tags.
pub open spec fn entry_matches(e: DictEntry, levels: Seq<NLevel>, pos: Seq<Pos>) -> bool {
    &&& exists|l: NLevel| #[trigger] levels.contains(l) && some_reading_has_level(e.readings@, l)
    &&& exists|p: Pos| #[trigger] pos.contains(p) && entry_has_pos(e, p)
}

/// The read-only collection of dictionary entries shared by every
/// session.
pub struct Dictionary {
    pub entries: Vec<DictEntry>,
}

impl Dictionary {
    /// Wraps a loaded entry list.
    pub fn from_entries(entries: Vec<DictEntry>) -> (r: Dictionary)
        ensures
            r.entries == entries,
    {
        Dictionary { entries }
    }

    /// How many entries the dictionary holds.
    pub fn len(&self) -> (r: usize)
        ensures
            r == self.entries@.len(),
    {
        self.entries.len()
    }

    /// Scans the whole dictionary once and returns the indices of the
    /// entries matching the filters, in a random order.
    pub fn sample(&self, levels: &Vec<NLevel>, pos: &Vec<Pos>) -> (r: Vec<usize>)
        ensures
            r@.no_duplicates(),
            forall|k: int| 0 <= k < r@.len()
                ==> #[trigger] r@[k] < self.entries@.len()
                    && entry_matches(self.entries@[r@[k] as int], levels@, pos@),
            forall|j: usize| j < self.entries@.len()
                && entry_matches(#[trigger] self.entries@[j as int], levels@, pos@)
                ==> r@.contains(j),
    {
        let mut picked: Vec<usize> = Vec::new();
        let mut i: usize = 0;
        while i < self.entries.len()
            invariant
                i <= self.entries@.len(),
                forall|a: int, b: int| 0 <= a < b < picked@.len()
                    ==> #[trigger] picked@[a] < #[trigger] picked@[b],
                forall|k: int| 0 <= k < picked@.len()
                    ==> #[trigger] picked@[k] < i
                        && entry_matches(self.entries@[picked@[k] as int], levels@, pos@),
                forall|j: usize| j < i
                    && entry_matches(#[trigger] self.entries@[j as int], levels@, pos@)
                    ==> picked@.contains(j),
            decreases self.entries@.len() - i,
        {
            if entry_matches_exec(&self.entries[i], levels, pos) {
                let ghost before = picked@;
                picked.push(i);
                proof {
                    assert forall|j: usize| j < i + 1
                        && entry_matches(#[trigger] self.entries@[j as int], levels@, pos@)
                        implies picked@.contains(j) by {
                        if j < i {
                            assert(before.contains(j));
                            let t = choose|t: int| 0 <= t < before.len() && before[t] == j;
                            assert(picked@[t] == j);
                        } else {
                            assert(picked@[picked@.len() - 1] == i);
                        }
                    }
                }
            }
            i += 1;
        }
        proof {
            assert forall|a: int, b: int| 0 <= a < picked@.len() && 0 <= b < picked@.len() && a != b
                implies picked@[a] != picked@[b] by {
                if a < b {
                    assert(picked@[a] < picked@[b]);
                } else {
                    assert(picked@[b] < picked@[a]);
                }
            }
            picked@.lemma_multiset_has_no_duplicates();
        }
        let ghost ordered = picked@;
        shuffle(&mut picked);
        proof {
            picked@.lemma_multiset_has_no_duplicates_conv();
            assert forall|k: int| 0 <= k < picked@.len()
                implies #[trigger] picked@[k] < self.entries@.len()
                    && entry_matches(self.entries@[picked@[k] as int], levels@, pos@) by {
                assert(picked@.to_multiset().contains(picked@[k]));
                assert(ordered.contains(picked@[k]));
            }
            assert forall|j: usize| j < self.entries@.len()
                && entry_matches(#[trigger] self.entries@[j as int], levels@, pos@)
                implies picked@.contains(j) by {
                assert(ordered.contains(j));
                assert(ordered.to_multiset().contains(j));
            }
        }
        picked
    }
}

/// Whether `e` matches the filters, as `entry_matches` states.
fn entry_matches_exec(e: &DictEntry, levels: &Vec<NLevel>, pos: &Vec<Pos>) -> (r: bool)
    ensures
        r == entry_matches(*e, levels@, pos@),
{
    let level_hit = has_level_of(e, levels);
    let pos_hit = has_pos_of(e, pos);
    level_hit && pos_hit
}

/// Whether some reading of `e` carries one of the listed levels.
fn has_level_of(e: &DictEntry, levels: &Vec<NLevel>) -> (r: bool)
    ensures
        r == exists|l: NLevel| #[trigger] levels@.contains(l)
            && some_reading_has_level(e.readings@, l),
{
    let mut i: usize = 0;
    while i < e.readings.len()
        invariant
            i <= e.readings@.len(),
            forall|j: int, k: int| 0 <= j < i && 0 <= k < e.readings@[j].levels@.len()
                ==> !levels@.contains(#[trigger] e.readings@[j].levels@[k]),
        decreases e.readings@.len() - i,
    {
        let rd = &e.readings[i];
        let mut k: usize = 0;
        while k < rd.levels.len()
            invariant
                k <= rd.levels@.len(),
                i < e.readings@.len(),
                *rd == e.readings@[i as int],
                forall|t: int| 0 <= t < k ==> !levels@.contains(#[trigger] rd.levels@[t]),
            decreases rd.levels@.len() - k,
        {
            if contains_level(levels, rd.levels[k]) {
                proof {
                    assert(e.readings@[i as int].levels@.contains(rd.levels@[k as int]));
                    assert(some_reading_has_level(e.readings@, rd.levels@[k as int]));
                }
                return true;
            }
            k += 1;
        }
        i += 1;
    }
    proof {
        assert forall|l: NLevel| #[trigger] levels@.contains(l)
            implies !some_reading_has_level(e.readings@, l) by {
            assert forall|j: int| 0 <= j < e.readings@.len()
                implies !(#[trigger] e.readings@[j].levels@.contains(l)) by {
                if e.readings@[j].levels@.contains(l) {
                    let k = choose|k: int| 0 <= k < e.readings@[j].levels@.len()
                        && e.readings@[j].levels@[k] == l;
                    assert(!levels@.contains(e.readings@[j].levels@[k]));
                }
            }
        }
    }
    false
}

/// Whether some sense of `e` carries one of the listed tags.
fn has_pos_of(e: &DictEntry, pos: &Vec<Pos>) -> (r: bool)
    ensures
        r == exists|p: Pos| #[trigger] pos@.contains(p) && entry_has_pos(*e, p),
{
    let mut i: usize = 0;
    while i < e.senses.len()
        invariant
            i <= e.senses@.len(),
            forall|j: int, k: int| 0 <= j < i && 0 <= k < e.senses@[j].pos@.len()
                ==> !pos@.contains(#[trigger] e.senses@[j].pos@[k]),
        decreases e.senses@.len() - i,
    {
        let sn = &e.senses[i];
        let mut k: usize = 0;
        while k < sn.pos.len()
            invariant
                k <= sn.pos@.len(),
                i < e.senses@.len(),
                *sn == e.senses@[i as int],
                forall|t: int| 0 <= t < k ==> !pos@.contains(#[trigger] sn.pos@[t]),
            decreases sn.pos@.len() - k,
        {
            if contains_pos(pos, sn.pos[k]) {
                proof {
                    assert(e.senses@[i as int].pos@.contains(sn.pos@[k as int]));
                    assert(entry_has_pos(*e, sn.pos@[k as int]));
                }
                return true;
            }
            k += 1;
        }
        i += 1;
    }
    proof {
        assert forall|p: Pos| #[trigger] pos@.contains(p) implies !entry_has_pos(*e, p) by {
            assert forall|j: int| 0 <= j < e.senses@.len()
                implies !(#[trigger] e.senses@[j].pos@.contains(p)) by {
                if e.senses@[j].pos@.contains(p) {
                    let k = choose|k: int| 0 <= k < e.senses@[j].pos@.len()
                        && e.senses@[j].pos@[k] == p;
                    assert(!pos@.contains(e.senses@[j].pos@[k]));
                }
            }
        }
    }
    false
}

/// Whether `pos` holds `p`.
pub fn contains_pos(pos: &Vec<Pos>, p: Pos) -> (r: bool)
    ensures
        r == pos@.contains(p),
{
    let mut i: usize = 0;
    while i < pos.len()
        invariant
            i <= pos@.len(),
            forall|j: int| 0 <= j < i ==> pos@[j] != p,
        decreases pos@.len() - i,
    {
        if pos[i] == p {
            return true;
        }
        i += 1;
    }
    false
}

} // verus!
