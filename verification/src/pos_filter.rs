//! Categories of part-of-speech tags, used to filter the question pool.

use vstd::prelude::*;
use crate::dictionary::Pos;

verus! {

/// A named category of part-of-speech tags. Each tag belongs to exactly
/// one category; `Other` collects the tags outside the named ones.
#[derive(Debug, Clone, Copy, PartialEq, Eq, Structural, Hash)]
pub enum PosFilter {
    Nouns,
    Verbs,
    Prenominals,
    Expressions,
    Conjunctions,
    Other,
}

/// The category that a part-of-speech tag belongs to; the six
/// categories partition the whole tag set.
pub open spec fn filter_of(p: Pos) -> PosFilter {
    match p {
        Pos::N => PosFilter::Nouns,
        Pos::NPr => PosFilter::Nouns,
        Pos::NAdv => PosFilter::Nouns,
        Pos::NPref => PosFilter::Nouns,
        Pos::NSuf => PosFilter::Nouns,
        Pos::NT => PosFilter::Nouns,
        Pos::Pn => PosFilter::Nouns,
        Pos::VUnspec => PosFilter::Verbs,
        Pos::V1 => PosFilter::Verbs,
        Pos::V1S => PosFilter::Verbs,
        Pos::V2aS => PosFilter::Verbs,
        Pos::V2bK => PosFilter::Verbs,
        Pos::V2bS => PosFilter::Verbs,
        Pos::V2dK => PosFilter::Verbs,
        Pos::V2dS => PosFilter::Verbs,
        Pos::V2gk => PosFilter::Verbs,
        Pos::V2gS => PosFilter::Verbs,
        Pos::V2hK => PosFilter::Verbs,
        Pos::V2hS => PosFilter::Verbs,
        Pos::V2kK => PosFilter::Verbs,
        Pos::V2kS => PosFilter::Verbs,
        Pos::V2mK => PosFilter::Verbs,
        Pos::V2mS => PosFilter::Verbs,
        Pos::V2nS => PosFilter::Verbs,
        Pos::V2rK => PosFilter::Verbs,
        Pos::V2rS => PosFilter::Verbs,
        Pos::V2sS => PosFilter::Verbs,
        Pos::V2tK => PosFilter::Verbs,
        Pos::V2tS => PosFilter::Verbs,
        Pos::V2wS => PosFilter::Verbs,
        Pos::V2yK => PosFilter::Verbs,
        Pos::V2yS => PosFilter::Verbs,
        Pos::V2zS => PosFilter::Verbs,
        Pos::V4b => PosFilter::Verbs,
        Pos::V4g => PosFilter::Verbs,
        Pos::V4h => PosFilter::Verbs,
        Pos::V4k => PosFilter::Verbs,
        Pos::V4m => PosFilter::Verbs,
        Pos::V4n => PosFilter::Verbs,
        Pos::V4r => PosFilter::Verbs,
        Pos::V4s => PosFilter::Verbs,
        Pos::V4t => PosFilter::Verbs,
        Pos::V5aru => PosFilter::Verbs,
        Pos::V5b => PosFilter::Verbs,
        Pos::V5g => PosFilter::Verbs,
        Pos::V5k => PosFilter::Verbs,
        Pos::V5kS => PosFilter::Verbs,
        Pos::V5m => PosFilter::Verbs,
        Pos::V5n => PosFilter::Verbs,
        Pos::V5r => PosFilter::Verbs,
        Pos::V5rI => PosFilter::Verbs,
        Pos::V5s => PosFilter::Verbs,
        Pos::V5t => PosFilter::Verbs,
        Pos::V5u => PosFilter::Verbs,
        Pos::V5uS => PosFilter::Verbs,
        Pos::V5uru => PosFilter::Verbs,
        Pos::Vi => PosFilter::Verbs,
        Pos::Vk => PosFilter::Verbs,
        Pos::Vn => PosFilter::Verbs,
        Pos::Vr => PosFilter::Verbs,
        Pos::Vs => PosFilter::Verbs,
        Pos::VsC => PosFilter::Verbs,
        Pos::VsI => PosFilter::Verbs,
        Pos::VsS => PosFilter::Verbs,
        Pos::Vt => PosFilter::Verbs,
        Pos::Vz => PosFilter::Verbs,
        Pos::AdjF => PosFilter::Prenominals,
        Pos::AdjPn => PosFilter::Prenominals,
        Pos::AdjNo => PosFilter::Prenominals,
        Pos::Exp => PosFilter::Expressions,
        Pos::Int => PosFilter::Expressions,
        Pos::Conj => PosFilter::Conjunctions,
        Pos::AdjI => PosFilter::Other,
        Pos::AdjIx => PosFilter::Other,
        Pos::AdjKari => PosFilter::Other,
        Pos::AdjKu => PosFilter::Other,
        Pos::AdjNa => PosFilter::Other,
        Pos::AdjNari => PosFilter::Other,
        Pos::AdjShiku => PosFilter::Other,
        Pos::AdjT => PosFilter::Other,
        Pos::Adv => PosFilter::Other,
        Pos::AdvTo => PosFilter::Other,
        Pos::Aux => PosFilter::Other,
        Pos::AuxAdj => PosFilter::Other,
        Pos::AuxV => PosFilter::Other,
        Pos::Cop => PosFilter::Other,
        Pos::Ctr => PosFilter::Other,
        Pos::Num => PosFilter::Other,
        Pos::Pref => PosFilter::Other,
        Pos::Prt => PosFilter::Other,
        Pos::Suf => PosFilter::Other,
        Pos::Unc => PosFilter::Other,
    }
}

fn nouns_tags() -> (r: Vec<Pos>)
    ensures
        r@.len() == 7,
        r@.no_duplicates(),
        forall|i: int| 0 <= i < r@.len() ==> filter_of(#[trigger] r@[i]) == PosFilter::Nouns,
        forall|p: Pos| filter_of(p) == PosFilter::Nouns ==> r@.contains(p),
        r@ == filter_tags(PosFilter::Nouns),
{
    let r: Vec<Pos> = vec![
        Pos::N,
        Pos::NPr,
        Pos::NAdv,
        Pos::NPref,
        Pos::NSuf,
        Pos::NT,
        Pos::Pn,
    ];
    proof {
        assert(r@ =~= filter_tags(PosFilter::Nouns));
        assert forall|p: Pos| filter_of(p) == PosFilter::Nouns implies r@.contains(p) by {
            match p {
                Pos::N => { assert(r@[0] == Pos::N); },
                Pos::NPr => { assert(r@[1] == Pos::NPr); },
                Pos::NAdv => { assert(r@[2] == Pos::NAdv); },
                Pos::NPref => { assert(r@[3] == Pos::NPref); },
                Pos::NSuf => { assert(r@[4] == Pos::NSuf); },
                Pos::NT => { assert(r@[5] == Pos::NT); },
                Pos::Pn => { assert(r@[6] == Pos::Pn); },
                _ => { }
            }
        }
    }
    r
}

fn verbs_tags() -> (r: Vec<Pos>)
    ensures
        r@.len() == 59,
        r@.no_duplicates(),
        forall|i: int| 0 <= i < r@.len() ==> filter_of(#[trigger] r@[i]) == PosFilter::Verbs,
        forall|p: Pos| filter_of(p) == PosFilter::Verbs ==> r@.contains(p),
        r@ == filter_tags(PosFilter::Verbs),
{
    let r: Vec<Pos> = vec![
        Pos::VUnspec,
        Pos::V1,
        Pos::V1S,
        Pos::V2aS,
        Pos::V2bK,
        Pos::V2bS,
        Pos::V2dK,
        Pos::V2dS,
        Pos::V2gk,
        Pos::V2gS,
        Pos::V2hK,
        Pos::V2hS,
        Pos::V2kK,
        Pos::V2kS,
        Pos::V2mK,
        Pos::V2mS,
        Pos::V2nS,
        Pos::V2rK,
        Pos::V2rS,
        Pos::V2sS,
        Pos::V2tK,
        Pos::V2tS,
        Pos::V2wS,
        Pos::V2yK,
        Pos::V2yS,
        Pos::V2zS,
        Pos::V4b,
        Pos::V4g,
        Pos::V4h,
        Pos::V4k,
        Pos::V4m,
        Pos::V4n,
        Pos::V4r,
        Pos::V4s,
        Pos::V4t,
        Pos::V5aru,
        Pos::V5b,
        Pos::V5g,
        Pos::V5k,
        Pos::V5kS,
        Pos::V5m,
        Pos::V5n,
        Pos::V5r,
        Pos::V5rI,
        Pos::V5s,
        Pos::V5t,
        Pos::V5u,
        Pos::V5uS,
        Pos::V5uru,
        Pos::Vi,
        Pos::Vk,
        Pos::Vn,
        Pos::Vr,
        Pos::Vs,
        Pos::VsC,
        Pos::VsI,
        Pos::VsS,
        Pos::Vt,
        Pos::Vz,
    ];
    proof {
        assert(r@ =~= filter_tags(PosFilter::Verbs));
        assert forall|p: Pos| filter_of(p) == PosFilter::Verbs implies r@.contains(p) by {
            match p {
                Pos::VUnspec => { assert(r@[0] == Pos::VUnspec); },
                Pos::V1 => { assert(r@[1] == Pos::V1); },
                Pos::V1S => { assert(r@[2] == Pos::V1S); },
                Pos::V2aS => { assert(r@[3] == Pos::V2aS); },
                Pos::V2bK => { assert(r@[4] == Pos::V2bK); },
                Pos::V2bS => { assert(r@[5] == Pos::V2bS); },
                Pos::V2dK => { assert(r@[6] == Pos::V2dK); },
                Pos::V2dS => { assert(r@[7] == Pos::V2dS); },
                Pos::V2gk => { assert(r@[8] == Pos::V2gk); },
                Pos::V2gS => { assert(r@[9] == Pos::V2gS); },
                Pos::V2hK => { assert(r@[10] == Pos::V2hK); },
                Pos::V2hS => { assert(r@[11] == Pos::V2hS); },
                Pos::V2kK => { assert(r@[12] == Pos::V2kK); },
                Pos::V2kS => { assert(r@[13] == Pos::V2kS); },
                Pos::V2mK => { assert(r@[14] == Pos::V2mK); },
                Pos::V2mS => { assert(r@[15] == Pos::V2mS); },
                Pos::V2nS => { assert(r@[16] == Pos::V2nS); },
                Pos::V2rK => { assert(r@[17] == Pos::V2rK); },
                Pos::V2rS => { assert(r@[18] == Pos::V2rS); },
                Pos::V2sS => { assert(r@[19] == Pos::V2sS); },
                Pos::V2tK => { assert(r@[20] == Pos::V2tK); },
                Pos::V2tS => { assert(r@[21] == Pos::V2tS); },
                Pos::V2wS => { assert(r@[22] == Pos::V2wS); },
                Pos::V2yK => { assert(r@[23] == Pos::V2yK); },
                Pos::V2yS => { assert(r@[24] == Pos::V2yS); },
                Pos::V2zS => { assert(r@[25] == Pos::V2zS); },
                Pos::V4b => { assert(r@[26] == Pos::V4b); },
                Pos::V4g => { assert(r@[27] == Pos::V4g); },
                Pos::V4h => { assert(r@[28] == Pos::V4h); },
                Pos::V4k => { assert(r@[29] == Pos::V4k); },
                Pos::V4m => { assert(r@[30] == Pos::V4m); },
                Pos::V4n => { assert(r@[31] == Pos::V4n); },
                Pos::V4r => { assert(r@[32] == Pos::V4r); },
                Pos::V4s => { assert(r@[33] == Pos::V4s); },
                Pos::V4t => { assert(r@[34] == Pos::V4t); },
                Pos::V5aru => { assert(r@[35] == Pos::V5aru); },
                Pos::V5b => { assert(r@[36] == Pos::V5b); },
                Pos::V5g => { assert(r@[37] == Pos::V5g); },
                Pos::V5k => { assert(r@[38] == Pos::V5k); },
                Pos::V5kS => { assert(r@[39] == Pos::V5kS); },
                Pos::V5m => { assert(r@[40] == Pos::V5m); },
                Pos::V5n => { assert(r@[41] == Pos::V5n); },
                Pos::V5r => { assert(r@[42] == Pos::V5r); },
                Pos::V5rI => { assert(r@[43] == Pos::V5rI); },
                Pos::V5s => { assert(r@[44] == Pos::V5s); },
                Pos::V5t => { assert(r@[45] == Pos::V5t); },
                Pos::V5u => { assert(r@[46] == Pos::V5u); },
                Pos::V5uS => { assert(r@[47] == Pos::V5uS); },
                Pos::V5uru => { assert(r@[48] == Pos::V5uru); },
                Pos::Vi => { assert(r@[49] == Pos::Vi); },
                Pos::Vk => { assert(r@[50] == Pos::Vk); },
                Pos::Vn => { assert(r@[51] == Pos::Vn); },
                Pos::Vr => { assert(r@[52] == Pos::Vr); },
                Pos::Vs => { assert(r@[53] == Pos::Vs); },
                Pos::VsC => { assert(r@[54] == Pos::VsC); },
                Pos::VsI => { assert(r@[55] == Pos::VsI); },
                Pos::VsS => { assert(r@[56] == Pos::VsS); },
                Pos::Vt => { assert(r@[57] == Pos::Vt); },
                Pos::Vz => { assert(r@[58] == Pos::Vz); },
                _ => { }
            }
        }
    }
    r
}

fn prenominals_tags() -> (r: Vec<Pos>)
    ensures
        r@.len() == 3,
        r@.no_duplicates(),
        forall|i: int| 0 <= i < r@.len() ==> filter_of(#[trigger] r@[i]) == PosFilter::Prenominals,
        forall|p: Pos| filter_of(p) == PosFilter::Prenominals ==> r@.contains(p),
        r@ == filter_tags(PosFilter::Prenominals),
{
    let r: Vec<Pos> = vec![
        Pos::AdjF,
        Pos::AdjPn,
        Pos::AdjNo,
    ];
    proof {
        assert(r@ =~= filter_tags(PosFilter::Prenominals));
        assert forall|p: Pos| filter_of(p) == PosFilter::Prenominals implies r@.contains(p) by {
            match p {
                Pos::AdjF => { assert(r@[0] == Pos::AdjF); },
                Pos::AdjPn => { assert(r@[1] == Pos::AdjPn); },
                Pos::AdjNo => { assert(r@[2] == Pos::AdjNo); },
                _ => { }
            }
        }
    }
    r
}

fn expressions_tags() -> (r: Vec<Pos>)
    ensures
        r@.len() == 2,
        r@.no_duplicates(),
        forall|i: int| 0 <= i < r@.len() ==> filter_of(#[trigger] r@[i]) == PosFilter::Expressions,
        forall|p: Pos| filter_of(p) == PosFilter::Expressions ==> r@.contains(p),
        r@ == filter_tags(PosFilter::Expressions),
{
    let r: Vec<Pos> = vec![
        Pos::Exp,
        Pos::Int,
    ];
    proof {
        assert(r@ =~= filter_tags(PosFilter::Expressions));
        assert forall|p: Pos| filter_of(p) == PosFilter::Expressions implies r@.contains(p) by {
            match p {
                Pos::Exp => { assert(r@[0] == Pos::Exp); },
                Pos::Int => { assert(r@[1] == Pos::Int); },
                _ => { }
            }
        }
    }
    r
}

fn conjunctions_tags() -> (r: Vec<Pos>)
    ensures
        r@.len() == 1,
        r@.no_duplicates(),
        forall|i: int| 0 <= i < r@.len() ==> filter_of(#[trigger] r@[i]) == PosFilter::Conjunctions,
        forall|p: Pos| filter_of(p) == PosFilter::Conjunctions ==> r@.contains(p),
        r@ == filter_tags(PosFilter::Conjunctions),
{
    let r: Vec<Pos> = vec![
        Pos::Conj,
    ];
    proof {
        assert(r@ =~= filter_tags(PosFilter::Conjunctions));
        assert forall|p: Pos| filter_of(p) == PosFilter::Conjunctions implies r@.contains(p) by {
            match p {
                Pos::Conj => { assert(r@[0] == Pos::Conj); },
                _ => { }
            }
        }
    }
    r
}

fn other_tags() -> (r: Vec<Pos>)
    ensures
        r@.len() == 20,
        r@.no_duplicates(),
        forall|i: int| 0 <= i < r@.len() ==> filter_of(#[trigger] r@[i]) == PosFilter::Other,
        forall|p: Pos| filter_of(p) == PosFilter::Other ==> r@.contains(p),
        r@ == filter_tags(PosFilter::Other),
{
    let r: Vec<Pos> = vec![
        Pos::AdjI,
        Pos::AdjIx,
        Pos::AdjKari,
        Pos::AdjKu,
        Pos::AdjNa,
        Pos::AdjNari,
        Pos::AdjShiku,
        Pos::AdjT,
        Pos::Adv,
        Pos::AdvTo,
        Pos::Aux,
        Pos::AuxAdj,
        Pos::AuxV,
        Pos::Cop,
        Pos::Ctr,
        Pos::Num,
        Pos::Pref,
        Pos::Prt,
        Pos::Suf,
        Pos::Unc,
    ];
    proof {
        assert(r@ =~= filter_tags(PosFilter::Other));
        assert forall|p: Pos| filter_of(p) == PosFilter::Other implies r@.contains(p) by {
            match p {
                Pos::AdjI => { assert(r@[0] == Pos::AdjI); },
                Pos::AdjIx => { assert(r@[1] == Pos::AdjIx); },
                Pos::AdjKari => { assert(r@[2] == Pos::AdjKari); },
                Pos::AdjKu => { assert(r@[3] == Pos::AdjKu); },
                Pos::AdjNa => { assert(r@[4] == Pos::AdjNa); },
                Pos::AdjNari => { assert(r@[5] == Pos::AdjNari); },
                Pos::AdjShiku => { assert(r@[6] == Pos::AdjShiku); },
                Pos::AdjT => { assert(r@[7] == Pos::AdjT); },
                Pos::Adv => { assert(r@[8] == Pos::Adv); },
                Pos::AdvTo => { assert(r@[9] == Pos::AdvTo); },
                Pos::Aux => { assert(r@[10] == Pos::Aux); },
                Pos::AuxAdj => { assert(r@[11] == Pos::AuxAdj); },
                Pos::AuxV => { assert(r@[12] == Pos::AuxV); },
                Pos::Cop => { assert(r@[13] == Pos::Cop); },
                Pos::Ctr => { assert(r@[14] == Pos::Ctr); },
                Pos::Num => { assert(r@[15] == Pos::Num); },
                Pos::Pref => { assert(r@[16] == Pos::Pref); },
                Pos::Prt => { assert(r@[17] == Pos::Prt); },
                Pos::Suf => { assert(r@[18] == Pos::Suf); },
                Pos::Unc => { assert(r@[19] == Pos::Unc); },
                _ => { }
            }
        }
    }
    r
}

/// The fixed tag list of each category, in table order.
pub open spec fn filter_tags(f: PosFilter) -> Seq<Pos> {
    match f {
        PosFilter::Nouns => seq![
            Pos::N, Pos::NPr, Pos::NAdv, Pos::NPref, Pos::NSuf, Pos::NT, Pos::Pn,
        ],
        PosFilter::Verbs => seq![
            Pos::VUnspec, Pos::V1, Pos::V1S, Pos::V2aS, Pos::V2bK, Pos::V2bS, Pos::V2dK,
            Pos::V2dS, Pos::V2gk, Pos::V2gS, Pos::V2hK, Pos::V2hS, Pos::V2kK, Pos::V2kS,
            Pos::V2mK, Pos::V2mS, Pos::V2nS, Pos::V2rK, Pos::V2rS, Pos::V2sS, Pos::V2tK,
            Pos::V2tS, Pos::V2wS, Pos::V2yK, Pos::V2yS, Pos::V2zS, Pos::V4b, Pos::V4g, Pos::V4h,
            Pos::V4k, Pos::V4m, Pos::V4n, Pos::V4r, Pos::V4s, Pos::V4t, Pos::V5aru, Pos::V5b,
            Pos::V5g, Pos::V5k, Pos::V5kS, Pos::V5m, Pos::V5n, Pos::V5r, Pos::V5rI, Pos::V5s,
            Pos::V5t, Pos::V5u, Pos::V5uS, Pos::V5uru, Pos::Vi, Pos::Vk, Pos::Vn, Pos::Vr,
            Pos::Vs, Pos::VsC, Pos::VsI, Pos::VsS, Pos::Vt, Pos::Vz,
        ],
        PosFilter::Prenominals => seq![
            Pos::AdjF, Pos::AdjPn, Pos::AdjNo,
        ],
        PosFilter::Expressions => seq![
            Pos::Exp, Pos::Int,
        ],
        PosFilter::Conjunctions => seq![
            Pos::Conj,
        ],
        PosFilter::Other => seq![
            Pos::AdjI, Pos::AdjIx, Pos::AdjKari, Pos::AdjKu, Pos::AdjNa, Pos::AdjNari,
            Pos::AdjShiku, Pos::AdjT, Pos::Adv, Pos::AdvTo, Pos::Aux, Pos::AuxAdj, Pos::AuxV,
            Pos::Cop, Pos::Ctr, Pos::Num, Pos::Pref, Pos::Prt, Pos::Suf, Pos::Unc,
        ],
    }
}

/// The display label of a category.
pub open spec fn filter_label(f: PosFilter) -> Seq<char> {
    match f {
        PosFilter::Nouns => "Nouns 名詞"@,
        PosFilter::Verbs => "Verbs 動詞"@,
        PosFilter::Prenominals => "Prenominals 敬称略"@,
        PosFilter::Expressions => "Expression 表現"@,
        PosFilter::Conjunctions => "Conjunctions 接続詞"@,
        PosFilter::Other => "Other"@,
    }
}

impl PosFilter {
    /// Renders the category's display label.
    pub fn label(&self) -> (r: String)
        ensures
            r@ == filter_label(*self),
    {
        match self {
            PosFilter::Nouns => "Nouns 名詞".to_owned(),
            PosFilter::Verbs => "Verbs 動詞".to_owned(),
            PosFilter::Prenominals => "Prenominals 敬称略".to_owned(),
            PosFilter::Expressions => "Expression 表現".to_owned(),
            PosFilter::Conjunctions => "Conjunctions 接続詞".to_owned(),
            PosFilter::Other => "Other".to_owned(),
        }
    }

    /// All tags of this category, without duplicates.
    pub fn as_pos(&self) -> (r: Vec<Pos>)
        ensures
            r@.no_duplicates(),
            forall|i: int| 0 <= i < r@.len() ==> filter_of(#[trigger] r@[i]) == *self,
            forall|p: Pos| filter_of(p) == *self ==> r@.contains(p),
            r@ == filter_tags(*self),
    {
        match self {
            PosFilter::Nouns => nouns_tags(),
            PosFilter::Verbs => verbs_tags(),
            PosFilter::Prenominals => prenominals_tags(),
            PosFilter::Expressions => expressions_tags(),
            PosFilter::Conjunctions => conjunctions_tags(),
            PosFilter::Other => other_tags(),
        }
    }
}

/// The concatenation of the categories' tag tables, in input order;
/// a repeated category repeats its tags.
pub open spec fn tags_of_filters(filters: Seq<PosFilter>) -> Seq<Pos>
    decreases filters.len(),
{
    if filters.len() == 0 {
        Seq::empty()
    } else {
        filter_tags(filters[0]) + tags_of_filters(filters.drop_first())
    }
}

proof fn lemma_tags_of_filters_push(filters: Seq<PosFilter>, f: PosFilter)
    ensures
        tags_of_filters(filters.push(f)) == tags_of_filters(filters) + filter_tags(f),
    decreases filters.len(),
{
    if filters.len() == 0 {
        assert(filters.push(f).drop_first() =~= Seq::<PosFilter>::empty());
        assert(filters.push(f)[0] == f);
        assert(tags_of_filters(filters.push(f))
            == filter_tags(f) + tags_of_filters(Seq::<PosFilter>::empty()));
        assert(filter_tags(f) + Seq::<Pos>::empty() =~= filter_tags(f));
        assert(tags_of_filters(filters) + filter_tags(f) =~= filter_tags(f));
    } else {
        lemma_tags_of_filters_push(filters.drop_first(), f);
        assert(filters.push(f).drop_first() =~= filters.drop_first().push(f));
        assert(filters.push(f)[0] == filters[0]);
        assert(tags_of_filters(filters.push(f))
            == filter_tags(filters[0]) + tags_of_filters(filters.drop_first().push(f)));
        assert(tags_of_filters(filters) + filter_tags(f)
            =~= filter_tags(filters[0]) + (tags_of_filters(filters.drop_first()) + filter_tags(f)));
    }
}

/// Concatenates the tags of every listed category, in order.
pub fn pos_filters_to_pos(filters: &Vec<PosFilter>) -> (r: Vec<Pos>)
    ensures
        r@ == tags_of_filters(filters@),
        forall|p: Pos| r@.contains(p) <==> exists|i: int|
            0 <= i < filters@.len() && filter_of(p) == #[trigger] filters@[i],
{
    let mut r: Vec<Pos> = Vec::new();
    let mut k: usize = 0;
    while k < filters.len()
        invariant
            k <= filters@.len(),
            r@ == tags_of_filters(filters@.subrange(0, k as int)),
            forall|p: Pos| r@.contains(p) <==> exists|i: int|
                0 <= i < k && filter_of(p) == #[trigger] filters@[i],
        decreases filters@.len() - k,
    {
        let mut tags = filters[k].as_pos();
        let ghost prev = r@;
        let ghost added = tags@;
        r.append(&mut tags);
        proof {
            assert(filters@.subrange(0, k as int).push(filters@[k as int])
                =~= filters@.subrange(0, k as int + 1));
            lemma_tags_of_filters_push(filters@.subrange(0, k as int), filters@[k as int]);
            assert(added == filter_tags(filters@[k as int]));
            assert forall|p: Pos| r@.contains(p) implies exists|i: int|
                0 <= i < k + 1 && filter_of(p) == #[trigger] filters@[i] by {
                let j = choose|j: int| 0 <= j < r@.len() && r@[j] == p;
                if j < prev.len() {
                    assert(prev[j] == p);
                    assert(prev.contains(p));
                } else {
                    assert(added[j - prev.len()] == p);
                    assert(filter_of(p) == filters@[k as int]);
                }
            }
            assert forall|p: Pos| (exists|i: int|
                0 <= i < k + 1 && filter_of(p) == #[trigger] filters@[i]) implies r@.contains(p) by {
                let i = choose|i: int| 0 <= i < k + 1 && filter_of(p) == filters@[i];
                if i < k {
                    assert(prev.contains(p));
                    let j = choose|j: int| 0 <= j < prev.len() && prev[j] == p;
                    assert(r@[j] == p);
                } else {
                    assert(added.contains(p));
                    let j = choose|j: int| 0 <= j < added.len() && added[j] == p;
                    assert(r@[prev.len() + j] == p);
                }
            }
        }
        k += 1;
    }
    proof {
        assert(filters@.subrange(0, filters@.len() as int) =~= filters@);
    }
    r
}

} // verus!
