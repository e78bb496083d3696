//! Dictionary entries: spellings, readings, senses, and proficiency levels.

use vstd::prelude::*;

verus! {

/// JLPT proficiency tier of a word, from hardest (`N1`) to easiest (`N4`).
#[derive(Debug, Clone, Copy, PartialEq, Eq, Structural, Hash)]
pub enum NLevel {
    N1,
    N2,
    N3,
    N4,
}

/// Numeric rank of a level, used to order levels.
pub open spec fn level_rank(l: NLevel) -> int {
    match l {
        NLevel::N1 => 1,
        NLevel::N2 => 2,
        NLevel::N3 => 3,
        NLevel::N4 => 4,
    }
}

/// The display name of a level.
pub open spec fn nlevel_name(l: NLevel) -> Seq<char> {
    match l {
        NLevel::N1 => "N1"@,
        NLevel::N2 => "N2"@,
        NLevel::N3 => "N3"@,
        NLevel::N4 => "N4"@,
    }
}

impl NLevel {
    /// Renders the level's display name.
    pub fn name(&self) -> (r: String)
        ensures
            r@ == nlevel_name(*self),
    {
        match self {
            NLevel::N1 => "N1".to_owned(),
            NLevel::N2 => "N2".to_owned(),
            NLevel::N3 => "N3".to_owned(),
            NLevel::N4 => "N4".to_owned(),
        }
    }
}

/// Reads a level back from its display name.
pub fn nlevel_from_name(s: &str) -> (r: Option<NLevel>)
    ensures
        r matches Some(l) ==> s@ == nlevel_name(l),
        r is None ==> forall|l: NLevel| s@ != nlevel_name(l),
{
    if str_eq(s, "N1") {
        Some(NLevel::N1)
    } else if str_eq(s, "N2") {
        Some(NLevel::N2)
    } else if str_eq(s, "N3") {
        Some(NLevel::N3)
    } else if str_eq(s, "N4") {
        Some(NLevel::N4)
    } else {
        proof {
            assert forall|l: NLevel| s@ != nlevel_name(l) by {
                match l {
                    NLevel::N1 => {},
                    NLevel::N2 => {},
                    NLevel::N3 => {},
                    NLevel::N4 => {},
                }
            }
        }
        None
    }
}

impl From<NLevel> for i32 {
    fn from(value: NLevel) -> (r: i32) {
        match value {
            NLevel::N1 => 1,
            NLevel::N2 => 2,
            NLevel::N3 => 3,
            NLevel::N4 => 4,
        }
    }
}

impl vstd::std_specs::convert::FromSpecImpl<NLevel> for i32 {
    open spec fn obeys_from_spec() -> bool {
        true
    }

    open spec fn from_spec(value: NLevel) -> i32 {
        level_rank(value) as i32
    }
}

/// Part-of-speech tag of a sense, following the JMDict tag set.
#[derive(Debug, Clone, Copy, PartialEq, Eq, Structural, Hash)]
pub enum Pos {
    AdjF,
    AdjI,
    AdjIx,
    AdjKari,
    AdjKu,
    AdjNa,
    AdjNari,
    AdjNo,
    AdjPn,
    AdjShiku,
    AdjT,
    Adv,
    AdvTo,
    Aux,
    AuxAdj,
    AuxV,
    Conj,
    Cop,
    Ctr,
    Exp,
    Int,
    N,
    NAdv,
    NPr,
    NPref,
    NSuf,
    NT,
    Num,
    Pn,
    Pref,
    Prt,
    Suf,
    Unc,
    VUnspec,
    V1,
    V1S,
    V2aS,
    V2bK,
    V2bS,
    V2dK,
    V2dS,
    V2gk,
    V2gS,
    V2hK,
    V2hS,
    V2kK,
    V2kS,
    V2mK,
    V2mS,
    V2nS,
    V2rK,
    V2rS,
    V2sS,
    V2tK,
    V2tS,
    V2wS,
    V2yK,
    V2yS,
    V2zS,
    V4b,
    V4g,
    V4h,
    V4k,
    V4m,
    V4n,
    V4r,
    V4s,
    V4t,
    V5aru,
    V5b,
    V5g,
    V5k,
    V5kS,
    V5m,
    V5n,
    V5r,
    V5rI,
    V5s,
    V5t,
    V5u,
    V5uS,
    V5uru,
    Vi,
    Vk,
    Vn,
    Vr,
    Vs,
    VsC,
    VsI,
    VsS,
    Vt,
    Vz,
}

/// Spelling irregularity tag of a kanji element.
#[derive(Debug, Clone, Copy, PartialEq, Eq, Structural)]
pub enum KTag {
    Ateji,
    IrKana,
    IrKanji,
    IrOkurigana,
    Outdated,
    Rare,
    SearchOnly,
}

/// Irregularity tag of a reading element.
#[derive(Debug, Clone, Copy, PartialEq, Eq, Structural)]
pub enum RTag {
    Gikun,
    IrKana,
    Outdated,
    SearchOnly,
    Archaic,
}

/// One translated meaning of a sense.
#[derive(Debug)]
pub struct Gloss {
    pub content: String,
}

/// A kanji spelling of an entry, with the levels it is annotated with.
#[derive(Debug)]
pub struct Kanji {
    pub text: String,
    pub levels: Vec<NLevel>,
    pub tags: Vec<KTag>,
}

/// A kana reading of an entry. `relevant_to` restricts the reading to the
/// listed kanji spellings; an empty list means it applies to all of them.
#[derive(Debug)]
pub struct Reading {
    pub text: String,
    pub relevant_to: Vec<String>,
    pub levels: Vec<NLevel>,
    pub tags: Vec<RTag>,
}

/// One meaning of an entry, restricted to the listed kanji spellings and
/// readings (empty lists mean no restriction), with part-of-speech tags
/// and gloss strings.
#[derive(Debug)]
pub struct Sense {
    pub relevant_kanji: Vec<String>,
    pub relevant_reading: Vec<String>,
    pub pos: Vec<Pos>,
    pub gloss: Vec<Gloss>,
}

/// A dictionary entry: a stable identifier, kanji spellings, kana
/// readings, and senses.
#[derive(Debug)]
pub struct DictEntry {
    pub id: u32,
    pub kanjis: Vec<Kanji>,
    pub readings: Vec<Reading>,
    pub senses: Vec<Sense>,
}

/// Whether a list of strings holds one whose characters are `s`.
pub open spec fn contains_text(v: Seq<String>, s: Seq<char>) -> bool {
    exists|i: int| 0 <= i < v.len() && #[trigger] v[i]@ == s
}

/// Whether levels are listed in strictly ascending rank, hence without
/// duplicates.
pub open spec fn levels_ascending(s: Seq<NLevel>) -> bool {
    forall|i: int, j: int| 0 <= i < j < s.len() ==> level_rank(s[i]) < level_rank(s[j])
}

/// Whether some reading of `rs` is annotated with `l`.
pub open spec fn some_reading_has_level(rs: Seq<Reading>, l: NLevel) -> bool {
    exists|i: int| 0 <= i < rs.len() && #[trigger] rs[i].levels@.contains(l)
}

/// `fi` is the index of the first reading whose text is `h`.
pub open spec fn first_reading_with_text(rs: Seq<Reading>, h: Seq<char>, fi: int) -> bool {
    &&& 0 <= fi < rs.len()
    &&& rs[fi].text@ == h
    &&& forall|j: int| 0 <= j < fi ==> #[trigger] rs[j].text@ != h
}

/// Whether a kanji is annotated alongside the reading `rd`: it must not
/// already carry `level`, and `rd` must apply to it (no restriction list,
/// or this kanji listed).
pub open spec fn kanji_gains_level(k: Kanji, rd: Reading, level: NLevel) -> bool {
    &&& !k.levels@.contains(level)
    &&& (rd.relevant_to@.len() == 0 || contains_text(rd.relevant_to@, k.text@))
}

/// How one kanji changes when the matched reading gains `level`.
pub open spec fn kanji_annotate_post(pre: Kanji, post: Kanji, rd: Reading, level: NLevel) -> bool {
    &&& post.text@ == pre.text@
    &&& post.tags@ == pre.tags@
    &&& post.levels@ == if kanji_gains_level(pre, rd, level) {
            pre.levels@.push(level)
        } else {
            pre.levels@
        }
}

/// Whether annotating the reading at `fi` with `level` turns `pre` into
/// `post`: that reading gains `level`, and so does every kanji that does
/// not already carry it and that the reading is relevant to.
pub open spec fn annotate_post(pre: DictEntry, post: DictEntry, fi: int, level: NLevel) -> bool {
    &&& post.id == pre.id
    &&& post.senses@ == pre.senses@
    &&& post.readings@.len() == pre.readings@.len()
    &&& forall|j: int| 0 <= j < pre.readings@.len() && j != fi
            ==> post.readings@[j] == #[trigger] pre.readings@[j]
    &&& post.readings@[fi].text@ == pre.readings@[fi].text@
    &&& post.readings@[fi].relevant_to@ == pre.readings@[fi].relevant_to@
    &&& post.readings@[fi].tags@ == pre.readings@[fi].tags@
    &&& post.readings@[fi].levels@ == pre.readings@[fi].levels@.push(level)
    &&& post.kanjis@.len() == pre.kanjis@.len()
    &&& forall|j: int| 0 <= j < pre.kanjis@.len() ==> kanji_annotate_post(
            #[trigger] pre.kanjis@[j], post.kanjis@[j], pre.readings@[fi], level)
}

/// Whether two string slices have the same characters.
pub fn str_eq(a: &str, b: &str) -> (r: bool)
    ensures
        r == (a@ == b@),
{
    let sa = a.to_owned();
    let sb = b.to_owned();
    sa == sb
}

/// Whether `v` holds a string equal to `s`.
pub fn contains_str(v: &Vec<String>, s: &str) -> (r: bool)
    ensures
        r == contains_text(v@, s@),
{
    let mut i: usize = 0;
    while i < v.len()
        invariant
            i <= v@.len(),
            forall|j: int| 0 <= j < i ==> #[trigger] v@[j]@ != s@,
        decreases v@.len() - i,
    {
        if str_eq(v[i].as_str(), s) {
            return true;
        }
        i += 1;
    }
    false
}

/// Whether `levels` holds `l`.
pub fn contains_level(levels: &Vec<NLevel>, l: NLevel) -> (r: bool)
    ensures
        r == levels@.contains(l),
{
    let mut i: usize = 0;
    while i < levels.len()
        invariant
            i <= levels@.len(),
            forall|j: int| 0 <= j < i ==> levels@[j] != l,
        decreases levels@.len() - i,
    {
        if levels[i] == l {
            return true;
        }
        i += 1;
    }
    false
}

/// Inserts `l` into an ascending level list, keeping it ascending and
/// duplicate-free.
fn insert_level(v: &mut Vec<NLevel>, l: NLevel)
    requires
        levels_ascending(old(v)@),
    ensures
        levels_ascending(final(v)@),
        forall|x: NLevel| final(v)@.contains(x) <==> (old(v)@.contains(x) || x == l),
{
    let ghost pre = v@;
    if contains_level(v, l) {
        return;
    }
    let mut i: usize = 0;
    while i < v.len() && i32::from(v[i]) < i32::from(l)
        invariant
            i <= v@.len(),
            v@ == pre,
            forall|j: int| 0 <= j < i ==> level_rank(pre[j]) < level_rank(l),
        decreases v@.len() - i,
    {
        i += 1;
    }
    v.insert(i, l);
    proof {
        assert forall|p: int, q: int| 0 <= p < q < v@.len() implies
            level_rank(v@[p]) < level_rank(v@[q]) by {
            if q < i {
                assert(v@[p] == pre[p] && v@[q] == pre[q]);
            } else if p < i && q == i {
                assert(v@[p] == pre[p]);
            } else if p < i && q > i {
                assert(v@[p] == pre[p] && v@[q] == pre[q - 1]);
                assert(level_rank(pre[p]) < level_rank(l));
                assert(level_rank(l) < level_rank(pre[q - 1]) || level_rank(l) == level_rank(pre[q - 1])
                    || level_rank(l) > level_rank(pre[q - 1]));
                if i < pre.len() {
                    assert(level_rank(l) < level_rank(pre[i as int]));
                }
            } else if p == i {
                assert(v@[q] == pre[q - 1]);
                assert(i < pre.len());
                assert(level_rank(l) < level_rank(pre[i as int]));
            } else {
                assert(v@[p] == pre[p - 1] && v@[q] == pre[q - 1]);
            }
        }
        assert forall|x: NLevel| v@.contains(x) implies (pre.contains(x) || x == l) by {
            let j = choose|j: int| 0 <= j < v@.len() && v@[j] == x;
            if j < i {
                assert(pre[j] == x);
            } else if j > i {
                assert(pre[j - 1] == x);
            }
        }
        assert forall|x: NLevel| pre.contains(x) implies v@.contains(x) by {
            let j = choose|j: int| 0 <= j < pre.len() && pre[j] == x;
            if j < i {
                assert(v@[j] == x);
            } else {
                assert(v@[j + 1] == x);
            }
        }
        assert(v@[i as int] == l);
        assert(v@.contains(l));
    }
}

impl DictEntry {
    /// Whether any reading or kanji of this entry is annotated with at
    /// least one level.
    pub fn is_annotated(&self) -> (r: bool)
        ensures
            r == ((exists|i: int| 0 <= i < self.kanjis@.len()
                    && #[trigger] self.kanjis@[i].levels@.len() > 0)
                || (exists|i: int| 0 <= i < self.readings@.len()
                    && #[trigger] self.readings@[i].levels@.len() > 0)),
    {
        let mut i: usize = 0;
        while i < self.kanjis.len()
            invariant
                i <= self.kanjis@.len(),
                forall|j: int| 0 <= j < i ==> #[trigger] self.kanjis@[j].levels@.len() == 0,
            decreases self.kanjis@.len() - i,
        {
            if self.kanjis[i].levels.len() > 0 {
                return true;
            }
            i += 1;
        }
        let mut i: usize = 0;
        while i < self.readings.len()
            invariant
                i <= self.readings@.len(),
                forall|j: int| 0 <= j < i ==> #[trigger] self.readings@[j].levels@.len() == 0,
            decreases self.readings@.len() - i,
        {
            if self.readings[i].levels.len() > 0 {
                return true;
            }
            i += 1;
        }
        false
    }

    /// All levels any reading of this entry is tagged with, in ascending
    /// rank and without duplicates.
    pub fn levels(&self) -> (r: Vec<NLevel>)
        ensures
            levels_ascending(r@),
            forall|l: NLevel| r@.contains(l) <==> some_reading_has_level(self.readings@, l),
    {
        let mut r: Vec<NLevel> = Vec::new();
        let mut i: usize = 0;
        while i < self.readings.len()
            invariant
                i <= self.readings@.len(),
                levels_ascending(r@),
                forall|l: NLevel| r@.contains(l) <==> exists|j: int|
                    0 <= j < i && #[trigger] self.readings@[j].levels@.contains(l),
            decreases self.readings@.len() - i,
        {
            let rd = &self.readings[i];
            let mut k: usize = 0;
            while k < rd.levels.len()
                invariant
                    k <= rd.levels@.len(),
                    i < self.readings@.len(),
                    *rd == self.readings@[i as int],
                    levels_ascending(r@),
                    forall|l: NLevel| r@.contains(l) <==> ((exists|j: int|
                        0 <= j < i && #[trigger] self.readings@[j].levels@.contains(l))
                        || rd.levels@.subrange(0, k as int).contains(l)),
                decreases rd.levels@.len() - k,
            {
                insert_level(&mut r, rd.levels[k]);
                proof {
                    let sub1 = rd.levels@.subrange(0, k as int + 1);
                    let sub0 = rd.levels@.subrange(0, k as int);
                    assert forall|l: NLevel| sub1.contains(l) implies
                        sub0.contains(l) || l == rd.levels@[k as int] by {
                        let j = choose|j: int| 0 <= j < sub1.len() && sub1[j] == l;
                        if j < k {
                            assert(sub0[j] == l);
                        }
                    }
                    assert forall|l: NLevel| sub0.contains(l) implies sub1.contains(l) by {
                        let j = choose|j: int| 0 <= j < sub0.len() && sub0[j] == l;
                        assert(sub1[j] == l);
                    }
                    assert(sub1[k as int] == rd.levels@[k as int]);
                }
                k += 1;
            }
            proof {
                assert(rd.levels@.subrange(0, rd.levels@.len() as int) == rd.levels@);
                assert forall|l: NLevel| r@.contains(l) implies (exists|j: int|
                    0 <= j < i + 1 && #[trigger] self.readings@[j].levels@.contains(l)) by {
                    if rd.levels@.contains(l) {
                        assert(self.readings@[i as int].levels@.contains(l));
                    }
                }
                assert forall|l: NLevel| (exists|j: int|
                    0 <= j < i + 1 && #[trigger] self.readings@[j].levels@.contains(l))
                    implies r@.contains(l) by {
                    let j = choose|j: int|
                        0 <= j < i + 1 && #[trigger] self.readings@[j].levels@.contains(l);
                    if j == i {
                        assert(rd.levels@.contains(l));
                    }
                }
            }
            i += 1;
        }
        r
    }

    /// Annotates the first reading whose text is `hiragana` with `level`,
    /// and with it every kanji the reading applies to that does not carry
    /// the level yet. Does nothing when no reading matches or the reading
    /// already carries the level.
    pub fn add_level(&mut self, hiragana: &str, level: NLevel)
        ensures
            (forall|i: int| 0 <= i < old(self).readings@.len()
                ==> #[trigger] old(self).readings@[i].text@ != hiragana@)
                ==> *final(self) == *old(self),
            forall|fi: int| first_reading_with_text(old(self).readings@, hiragana@, fi)
                && old(self).readings@[fi].levels@.contains(level)
                ==> *final(self) == *old(self),
            forall|fi: int| first_reading_with_text(old(self).readings@, hiragana@, fi)
                && !old(self).readings@[fi].levels@.contains(level)
                ==> annotate_post(*old(self), *final(self), fi, level),
    {
        let ghost pre = *self;
        let mut fi: usize = 0;
        while fi < self.readings.len() && !str_eq(self.readings[fi].text.as_str(), hiragana)
            invariant
                fi <= self.readings@.len(),
                *self == pre,
                forall|j: int| 0 <= j < fi ==> #[trigger] self.readings@[j].text@ != hiragana@,
            decreases self.readings@.len() - fi,
        {
            fi += 1;
        }
        if fi >= self.readings.len() {
            return;
        }
        proof {
            assert(first_reading_with_text(pre.readings@, hiragana@, fi as int));
            assert forall|f2: int| first_reading_with_text(pre.readings@, hiragana@, f2)
                implies f2 == fi as int by {
                if f2 < fi as int {
                    assert(pre.readings@[f2].text@ != hiragana@);
                } else if f2 > fi as int {
                    assert(pre.readings@[fi as int].text@ != hiragana@);
                }
            }
        }
        if contains_level(&self.readings[fi].levels, level) {
            return;
        }

        let ghost rd_pre = pre.readings@[fi as int];
        let mut rd = self.readings.remove(fi);
        rd.levels.push(level);
        self.readings.insert(fi, rd);
        proof {
            assert(self.readings@ =~= pre.readings@.update(fi as int, self.readings@[fi as int]));
        }

        let mut j: usize = 0;
        while j < self.kanjis.len()
            invariant
                j <= self.kanjis@.len(),
                fi < pre.readings@.len(),
                rd_pre == pre.readings@[fi as int],
                self.id == pre.id,
                self.senses@ == pre.senses@,
                self.readings@.len() == pre.readings@.len(),
                forall|t: int| 0 <= t < pre.readings@.len() && t != fi
                    ==> self.readings@[t] == #[trigger] pre.readings@[t],
                self.readings@[fi as int].text@ == rd_pre.text@,
                self.readings@[fi as int].relevant_to@ == rd_pre.relevant_to@,
                self.readings@[fi as int].tags@ == rd_pre.tags@,
                self.readings@[fi as int].levels@ == rd_pre.levels@.push(level),
                self.kanjis@.len() == pre.kanjis@.len(),
                forall|t: int| 0 <= t < j ==> kanji_annotate_post(
                    #[trigger] pre.kanjis@[t], self.kanjis@[t], rd_pre, level),
                forall|t: int| j <= t < pre.kanjis@.len()
                    ==> self.kanjis@[t] == #[trigger] pre.kanjis@[t],
            decreases self.kanjis@.len() - j,
        {
            let ghost snap = self.kanjis@;
            let annotate = !contains_level(&self.kanjis[j].levels, level)
                && (self.readings[fi].relevant_to.len() == 0
                    || contains_str(&self.readings[fi].relevant_to, self.kanjis[j].text.as_str()));
            proof {
                assert(annotate == kanji_gains_level(pre.kanjis@[j as int], rd_pre, level));
            }
            if annotate {
                let mut kj = self.kanjis.remove(j);
                kj.levels.push(level);
                self.kanjis.insert(j, kj);
                proof {
                    assert(self.kanjis@ =~= snap.update(j as int, self.kanjis@[j as int]));
                    assert(kanji_annotate_post(pre.kanjis@[j as int], self.kanjis@[j as int],
                        rd_pre, level));
                }
            } else {
                proof {
                    assert(kanji_annotate_post(pre.kanjis@[j as int], self.kanjis@[j as int],
                        rd_pre, level));
                }
            }
            j += 1;
        }
        proof {
            assert(annotate_post(pre, *self, fi as int, level));
        }
    }

    /// Drops every reading and kanji that carries no level.
    pub fn trim(&mut self)
        ensures
            final(self).id == old(self).id,
            final(self).senses@ == old(self).senses@,
            final(self).readings@ == old(self).readings@.filter(|r: Reading| r.levels@.len() > 0),
            final(self).kanjis@ == old(self).kanjis@.filter(|k: Kanji| k.levels@.len() > 0),
    {
        let ghost pre = *self;
        let mut readings: Vec<Reading> = Vec::new();
        while self.readings.len() > 0
            invariant
                pre.id == self.id,
                pre.senses@ == self.senses@,
                pre.kanjis@ == self.kanjis@,
                pre.readings@.len() >= self.readings@.len(),
                self.readings@ == pre.readings@.subrange(
                    pre.readings@.len() - self.readings@.len(), pre.readings@.len() as int),
                readings@ == pre.readings@.subrange(
                    0, pre.readings@.len() - self.readings@.len())
                    .filter(|r: Reading| r.levels@.len() > 0),
            decreases self.readings@.len(),
        {
            let ghost done = pre.readings@.len() - self.readings@.len();
            let rd = self.readings.remove(0);
            proof {
                assert(pre.readings@.subrange(done, pre.readings@.len() as int)[0] == rd);
                assert(pre.readings@[done] == rd);
                assert(self.readings@ =~= pre.readings@.subrange(done + 1, pre.readings@.len() as int));
                assert(pre.readings@.subrange(0, done + 1).drop_last()
                    =~= pre.readings@.subrange(0, done));
                assert(pre.readings@.subrange(0, done + 1).last() == rd);
                reveal_with_fuel(Seq::filter, 2);
            }
            if rd.levels.len() > 0 {
                readings.push(rd);
            }
        }
        proof {
            assert(pre.readings@.subrange(0, pre.readings@.len() as int) == pre.readings@);
        }
        self.readings = readings;

        let mut kanjis: Vec<Kanji> = Vec::new();
        while self.kanjis.len() > 0
            invariant
                pre.id == self.id,
                pre.senses@ == self.senses@,
                self.readings@ == pre.readings@.filter(|r: Reading| r.levels@.len() > 0),
                pre.kanjis@.len() >= self.kanjis@.len(),
                self.kanjis@ == pre.kanjis@.subrange(
                    pre.kanjis@.len() - self.kanjis@.len(), pre.kanjis@.len() as int),
                kanjis@ == pre.kanjis@.subrange(
                    0, pre.kanjis@.len() - self.kanjis@.len())
                    .filter(|k: Kanji| k.levels@.len() > 0),
            decreases self.kanjis@.len(),
        {
            let ghost done = pre.kanjis@.len() - self.kanjis@.len();
            let kj = self.kanjis.remove(0);
            proof {
                assert(pre.kanjis@.subrange(done, pre.kanjis@.len() as int)[0] == kj);
                assert(pre.kanjis@[done] == kj);
                assert(self.kanjis@ =~= pre.kanjis@.subrange(done + 1, pre.kanjis@.len() as int));
                assert(pre.kanjis@.subrange(0, done + 1).drop_last()
                    =~= pre.kanjis@.subrange(0, done));
                assert(pre.kanjis@.subrange(0, done + 1).last() == kj);
                reveal_with_fuel(Seq::filter, 2);
            }
            if kj.levels.len() > 0 {
                kanjis.push(kj);
            }
        }
        proof {
            assert(pre.kanjis@.subrange(0, pre.kanjis@.len() as int) == pre.kanjis@);
        }
        self.kanjis = kanjis;
    }
}

} // verus!
