//! Parsing of JLPT vocabulary list lines into (reading, optional kanji)
//! pairs.

use vstd::prelude::*;
use crate::dictionary::NLevel;

verus! {

/// JLPT level of a vocabulary list, hardest first.
#[derive(Debug, Clone, Copy, PartialEq, Eq, Structural)]
pub enum JlptNLevel {
    One,
    Two,
    Three,
    Four,
}

/// Numeric rank of a list level.
pub open spec fn jlpt_rank(l: JlptNLevel) -> int {
    match l {
        JlptNLevel::One => 1,
        JlptNLevel::Two => 2,
        JlptNLevel::Three => 3,
        JlptNLevel::Four => 4,
    }
}

impl From<JlptNLevel> for NLevel {
    fn from(value: JlptNLevel) -> (r: NLevel) {
        match value {
            JlptNLevel::One => NLevel::N1,
            JlptNLevel::Two => NLevel::N2,
            JlptNLevel::Three => NLevel::N3,
            JlptNLevel::Four => NLevel::N4,
        }
    }
}

impl vstd::std_specs::convert::FromSpecImpl<JlptNLevel> for NLevel {
    open spec fn obeys_from_spec() -> bool {
        true
    }

    open spec fn from_spec(value: JlptNLevel) -> NLevel {
        match value {
            JlptNLevel::One => NLevel::N1,
            JlptNLevel::Two => NLevel::N2,
            JlptNLevel::Three => NLevel::N3,
            JlptNLevel::Four => NLevel::N4,
        }
    }
}

impl From<JlptNLevel> for i32 {
    fn from(value: JlptNLevel) -> (r: i32) {
        match value {
            JlptNLevel::One => 1,
            JlptNLevel::Two => 2,
            JlptNLevel::Three => 3,
            JlptNLevel::Four => 4,
        }
    }
}

impl vstd::std_specs::convert::FromSpecImpl<JlptNLevel> for i32 {
    open spec fn obeys_from_spec() -> bool {
        true
    }

    open spec fn from_spec(value: JlptNLevel) -> i32 {
        jlpt_rank(value) as i32
    }
}

/// One vocabulary list item: a reading, an optional kanji spelling, and
/// the level of the list it came from.
#[derive(Debug)]
pub struct JlptEntry {
    pub hiragana: String,
    pub kanji: Option<String>,
    pub level: JlptNLevel,
}

/// The whitespace recognized between fields of a list line: the
/// Unicode white-space characters, as the standard library's
/// `split_whitespace` recognizes them.
pub open spec fn is_ws(c: char) -> bool {
    c == '\t' || c == '\n' || c == '\u{b}' || c == '\u{c}' || c == '\r' || c == ' '
        || c == '\u{85}' || c == '\u{a0}' || c == '\u{1680}' || c == '\u{2000}'
        || c == '\u{2001}' || c == '\u{2002}' || c == '\u{2003}' || c == '\u{2004}'
        || c == '\u{2005}' || c == '\u{2006}' || c == '\u{2007}' || c == '\u{2008}'
        || c == '\u{2009}' || c == '\u{200a}' || c == '\u{2028}' || c == '\u{2029}'
        || c == '\u{202f}' || c == '\u{205f}' || c == '\u{3000}'
}

/// Length of the leading run of non-whitespace characters.
pub open spec fn field_end(s: Seq<char>) -> nat
    decreases s.len(),
{
    if s.len() == 0 {
        0
    } else if is_ws(s[0]) {
        0
    } else {
        1 + field_end(s.drop_first())
    }
}

/// The whitespace-separated fields of `s`, in order.
pub open spec fn ws_fields(s: Seq<char>) -> Seq<Seq<char>>
    decreases s.len(),
    via ws_fields_decreases
{
    if s.len() == 0 {
        Seq::empty()
    } else if is_ws(s[0]) {
        ws_fields(s.drop_first())
    } else {
        seq![s.subrange(0, field_end(s) as int)]
            + ws_fields(s.subrange(field_end(s) as int, s.len() as int))
    }
}

#[via_fn]
proof fn ws_fields_decreases(s: Seq<char>) {
    if s.len() > 0 && !is_ws(s[0]) {
        assert(field_end(s) == 1 + field_end(s.drop_first()));
        lemma_field_end_le(s);
    }
}

/// Length of the prefix before the first full-width opening parenthesis,
/// which starts a note that is not part of the entry.
pub open spec fn until_paren(s: Seq<char>) -> nat
    decreases s.len(),
{
    if s.len() == 0 {
        0
    } else if s[0] == '（' {
        0
    } else {
        1 + until_paren(s.drop_first())
    }
}

/// Lines that carry no entry: empty lines, comment lines, and lines with
/// a tilde (conjugation patterns).
pub open spec fn skip_line(s: Seq<char>) -> bool {
    s.len() == 0 || s[0] == '#' || s.contains('~')
}

/// The fields of a line once its trailing note is cut off.
pub open spec fn line_fields(s: Seq<char>) -> Seq<Seq<char>> {
    ws_fields(s.subrange(0, until_paren(s) as int))
}

/// Inputs `extract_entry` accepts: lines it skips, and lines with one
/// field (a bare reading) or two (kanji then reading).
pub open spec fn extract_ok(s: Seq<char>) -> bool {
    skip_line(s) || line_fields(s).len() == 1 || line_fields(s).len() == 2
}

proof fn lemma_field_end_le(s: Seq<char>)
    ensures
        field_end(s) <= s.len(),
    decreases s.len(),
{
    if s.len() > 0 && !is_ws(s[0]) {
        lemma_field_end_le(s.drop_first());
    }
}

/// The leading non-whitespace run is delimited exactly by the first
/// whitespace character (or the end).
proof fn lemma_field_end_at(s: Seq<char>, k: int)
    requires
        0 <= k <= s.len(),
        forall|t: int| 0 <= t < k ==> !is_ws(#[trigger] s[t]),
        k == s.len() || is_ws(s[k]),
    ensures
        field_end(s) == k,
    decreases s.len(),
{
    if s.len() == 0 {
    } else if is_ws(s[0]) {
        assert(k == 0);
    } else {
        assert(k > 0);
        assert(forall|t: int| 0 <= t < k - 1 ==> !is_ws(#[trigger] s.drop_first()[t]));
        lemma_field_end_at(s.drop_first(), k - 1);
    }
}

/// Same, for the prefix before the first full-width parenthesis.
proof fn lemma_until_paren_at(s: Seq<char>, k: int)
    requires
        0 <= k <= s.len(),
        forall|t: int| 0 <= t < k ==> #[trigger] s[t] != '（',
        k == s.len() || s[k] == '（',
    ensures
        until_paren(s) == k,
    decreases s.len(),
{
    if s.len() == 0 {
    } else if s[0] == '（' {
        assert(k == 0);
    } else {
        assert(k > 0);
        assert(forall|t: int| 0 <= t < k - 1 ==> #[trigger] s.drop_first()[t] != '（');
        lemma_until_paren_at(s.drop_first(), k - 1);
    }
}

fn is_ws_char(c: char) -> (r: bool)
    ensures
        r == is_ws(c),
{
    c == '\t' || c == '\n' || c == '\u{b}' || c == '\u{c}' || c == '\r' || c == ' '
        || c == '\u{85}' || c == '\u{a0}' || c == '\u{1680}' || c == '\u{2000}'
        || c == '\u{2001}' || c == '\u{2002}' || c == '\u{2003}' || c == '\u{2004}'
        || c == '\u{2005}' || c == '\u{2006}' || c == '\u{2007}' || c == '\u{2008}'
        || c == '\u{2009}' || c == '\u{200a}' || c == '\u{2028}' || c == '\u{2029}'
        || c == '\u{202f}' || c == '\u{205f}' || c == '\u{3000}'
}

/// Splits `s` into its whitespace-separated fields.
fn split_ws(s: &str) -> (r: Vec<String>)
    ensures
        r@.map_values(|t: String| t@) == ws_fields(s@),
{
    let n = s.unicode_len();
    let mut fields: Vec<String> = Vec::new();
    let ghost all = ws_fields(s@);
    proof {
        assert(s@.subrange(0, n as int) == s@);
    }
    let mut i: usize = 0;
    while i < n
        invariant
            i <= n,
            n == s@.len(),
            all == ws_fields(s@),
            fields@.map_values(|t: String| t@) + ws_fields(s@.subrange(i as int, n as int)) == all,
        decreases n - i,
    {
        let ghost rest = s@.subrange(i as int, n as int);
        if is_ws_char(s.get_char(i)) {
            proof {
                assert(rest[0] == s@[i as int]);
                assert(rest.drop_first() =~= s@.subrange(i as int + 1, n as int));
            }
            i += 1;
        } else {
            let mut j: usize = i + 1;
            while j < n && !is_ws_char(s.get_char(j))
                invariant
                    i < j <= n,
                    n == s@.len(),
                    forall|t: int| i <= t < j ==> !is_ws(#[trigger] s@[t]),
                decreases n - j,
            {
                j += 1;
            }
            let field = s.substring_char(i, j).to_owned();
            proof {
                assert(rest[0] == s@[i as int]);
                assert forall|t: int| 0 <= t < j - i implies !is_ws(#[trigger] rest[t]) by {
                    assert(rest[t] == s@[i + t]);
                }
                if j < n {
                    assert(rest[j - i] == s@[j as int]);
                }
                lemma_field_end_at(rest, j - i as int);
                assert(rest.subrange(0, j - i as int) =~= s@.subrange(i as int, j as int));
                assert(rest.subrange(j - i as int, rest.len() as int)
                    =~= s@.subrange(j as int, n as int));
                assert(ws_fields(rest) == seq![s@.subrange(i as int, j as int)]
                    + ws_fields(s@.subrange(j as int, n as int)));
            }
            let ghost before = fields@;
            fields.push(field);
            proof {
                assert(fields@.map_values(|t: String| t@)
                    =~= before.map_values(|t: String| t@).push(s@.subrange(i as int, j as int)));
                assert(fields@.map_values(|t: String| t@)
                    + ws_fields(s@.subrange(j as int, n as int)) =~= all);
            }
            i = j;
        }
    }
    proof {
        assert(s@.subrange(i as int, n as int).len() == 0);
        assert(ws_fields(s@.subrange(i as int, n as int)) == Seq::<Seq<char>>::empty());
        assert(fields@.map_values(|t: String| t@)
            =~= fields@.map_values(|t: String| t@) + Seq::<Seq<char>>::empty());
    }
    fields
}

/// Reads one vocabulary list line. Comment lines, empty lines, and lines
/// with a tilde yield nothing. Otherwise the parenthesized note is cut
/// off and the fields are read: a lone field is the reading; two fields
/// are the kanji spelling followed by the reading.
pub fn extract_entry(line: &str) -> (r: Option<(String, Option<String>)>)
    requires
        extract_ok(line@),
    ensures
        skip_line(line@) ==> r is None,
        !skip_line(line@) && line_fields(line@).len() == 1 ==> (r matches Some((h, k))
            && h@ == line_fields(line@)[0] && k is None),
        !skip_line(line@) && line_fields(line@).len() == 2 ==> (r matches Some((h, k))
            && h@ == line_fields(line@)[1]
            && (k matches Some(kj) && kj@ == line_fields(line@)[0])),
{
    let n = line.unicode_len();
    if n == 0 {
        return None;
    }
    if line.get_char(0) == '#' {
        return None;
    }
    let mut i: usize = 0;
    while i < n
        invariant
            i <= n,
            n == line@.len(),
            forall|t: int| 0 <= t < i ==> #[trigger] line@[t] != '~',
        decreases n - i,
    {
        if line.get_char(i) == '~' {
            proof {
                assert(line@.contains('~'));
            }
            return None;
        }
        i += 1;
    }
    proof {
        assert forall|t: int| 0 <= t < line@.len() implies #[trigger] line@[t] != '~' by {}
        assert(!line@.contains('~'));
        assert(!skip_line(line@));
    }

    let mut p: usize = 0;
    while p < n && line.get_char(p) != '（'
        invariant
            p <= n,
            n == line@.len(),
            forall|t: int| 0 <= t < p ==> #[trigger] line@[t] != '（',
        decreases n - p,
    {
        p += 1;
    }
    proof {
        lemma_until_paren_at(line@, p as int);
    }
    let trimmed = line.substring_char(0, p);
    let mut fields = split_ws(trimmed);

    if fields.len() == 1 {
        let h = fields.remove(0);
        proof {
            assert(h@ == line_fields(line@)[0]);
        }
        Some((h, None))
    } else {
        proof {
            assert(fields@.map_values(|t: String| t@).len() == 2);
        }
        let kj = fields.remove(0);
        let h = fields.remove(0);
        proof {
            assert(kj@ == line_fields(line@)[0]);
            assert(h@ == line_fields(line@)[1]);
        }
        Some((h, Some(kj)))
    }
}

} // verus!
