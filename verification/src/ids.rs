//! Round identifiers. A round's identifier starts with the decimal
//! session key, a comma, and a random tag; each choice button appends a
//! comma and its digit. Parsing the leading digit run recovers the key.

use vstd::prelude::*;

verus! {

/// Decimal digit characters.
pub open spec fn is_digit(c: char) -> bool {
    c == '0' || c == '1' || c == '2' || c == '3' || c == '4' || c == '5' || c == '6' || c == '7'
        || c == '8' || c == '9'
}

/// Numeric value of a digit character (0 for any other character).
pub open spec fn digit_val(c: char) -> nat {
    if c == '1' {
        1
    } else if c == '2' {
        2
    } else if c == '3' {
        3
    } else if c == '4' {
        4
    } else if c == '5' {
        5
    } else if c == '6' {
        6
    } else if c == '7' {
        7
    } else if c == '8' {
        8
    } else if c == '9' {
        9
    } else {
        0
    }
}

/// Digit character of a value below ten.
pub open spec fn digit_char(d: int) -> char {
    if d == 0 {
        '0'
    } else if d == 1 {
        '1'
    } else if d == 2 {
        '2'
    } else if d == 3 {
        '3'
    } else if d == 4 {
        '4'
    } else if d == 5 {
        '5'
    } else if d == 6 {
        '6'
    } else if d == 7 {
        '7'
    } else if d == 8 {
        '8'
    } else {
        '9'
    }
}

/// The decimal digits of `n`, most significant first.
pub open spec fn dec_digits(n: nat) -> Seq<char>
    decreases n,
{
    if n < 10 {
        seq![digit_char(n as int)]
    } else {
        dec_digits(n / 10).push(digit_char((n % 10) as int))
    }
}

/// The number a digit string denotes.
pub open spec fn digits_val(s: Seq<char>) -> nat
    decreases s.len(),
{
    if s.len() == 0 {
        0
    } else {
        digits_val(s.drop_last()) * 10 + digit_val(s.last())
    }
}

/// Length of the leading run of digit characters.
pub open spec fn digit_run(s: Seq<char>) -> nat
    decreases s.len(),
{
    if s.len() == 0 {
        0
    } else if !is_digit(s[0]) {
        0
    } else {
        1 + digit_run(s.drop_first())
    }
}

/// The session key an identifier encodes: the value of its leading digit
/// run, when there is one and it fits a `u64`.
pub open spec fn session_key_of(s: Seq<char>) -> Option<u64> {
    if digit_run(s) == 0 {
        None
    } else if digits_val(s.subrange(0, digit_run(s) as int)) <= u64::MAX {
        Some(digits_val(s.subrange(0, digit_run(s) as int)) as u64)
    } else {
        None
    }
}

/// The leading digit run is delimited exactly by the first non-digit
/// (or the end).
proof fn lemma_digit_run_at(s: Seq<char>, k: int)
    requires
        0 <= k <= s.len(),
        forall|t: int| 0 <= t < k ==> is_digit(#[trigger] s[t]),
        k == s.len() || !is_digit(s[k]),
    ensures
        digit_run(s) == k,
    decreases s.len(),
{
    if s.len() == 0 {
    } else if !is_digit(s[0]) {
        assert(k == 0);
    } else {
        assert(forall|t: int| 0 <= t < k - 1 ==> is_digit(#[trigger] s.drop_first()[t]));
        lemma_digit_run_at(s.drop_first(), k - 1);
    }
}

/// A decimal rendering consists of digits and is never empty.
pub proof fn lemma_dec_digits_are_digits(n: nat)
    ensures
        dec_digits(n).len() >= 1,
        forall|i: int| 0 <= i < dec_digits(n).len() ==> is_digit(#[trigger] dec_digits(n)[i]),
    decreases n,
{
    if n >= 10 {
        lemma_dec_digits_are_digits(n / 10);
        assert forall|i: int| 0 <= i < dec_digits(n).len()
            implies is_digit(#[trigger] dec_digits(n)[i]) by {
            if i < dec_digits(n).len() - 1 {
                assert(dec_digits(n)[i] == dec_digits(n / 10)[i]);
            }
        }
    }
}

/// Reading a decimal rendering back gives the number itself.
pub proof fn lemma_dec_digits_val(n: nat)
    ensures
        digits_val(dec_digits(n)) == n,
    decreases n,
{
    if n < 10 {
        assert(digits_val(dec_digits(n)) == digits_val(seq![digit_char(n as int)]));
        assert(seq![digit_char(n as int)].drop_last() =~= Seq::<char>::empty());
        assert(digits_val(Seq::<char>::empty()) == 0);
    } else {
        lemma_dec_digits_val(n / 10);
        assert(dec_digits(n).drop_last() =~= dec_digits(n / 10));
        assert(dec_digits(n).last() == digit_char((n % 10) as int));
    }
}

/// A longer digit prefix never denotes a smaller number.
proof fn lemma_digits_val_mono(s: Seq<char>, a: int, b: int)
    requires
        0 <= a <= b <= s.len(),
    ensures
        digits_val(s.subrange(0, a)) <= digits_val(s.subrange(0, b)),
    decreases b - a,
{
    if a < b {
        lemma_digits_val_mono(s, a, b - 1);
        assert(s.subrange(0, b).drop_last() =~= s.subrange(0, b - 1));
    }
}

/// The routing guarantee for generated identifiers: whatever tag
/// follows, an identifier that starts with the decimal key and a comma
/// encodes exactly that key.
pub proof fn lemma_key_of_generated(key: u64, rest: Seq<char>)
    ensures
        session_key_of(dec_digits(key as nat) + seq![','] + rest) == Some(key),
{
    let d = dec_digits(key as nat);
    let id = d + seq![','] + rest;
    lemma_dec_digits_are_digits(key as nat);
    assert(forall|t: int| 0 <= t < d.len() ==> is_digit(#[trigger] id[t]));
    assert(id[d.len() as int] == ',');
    lemma_digit_run_at(id, d.len() as int);
    assert(id.subrange(0, d.len() as int) =~= d);
    lemma_dec_digits_val(key as nat);
}

/// Digit character of a value below ten.
pub fn digit_char_of(d: u64) -> (r: char)
    requires
        d < 10,
    ensures
        r == digit_char(d as int),
{
    match d {
        0 => '0',
        1 => '1',
        2 => '2',
        3 => '3',
        4 => '4',
        5 => '5',
        6 => '6',
        7 => '7',
        8 => '8',
        _ => '9',
    }
}

/// Relies on std's `String::push`: appends one character to the string.
#[verifier::external_body]
pub fn push_char(s: &mut String, c: char)
    ensures
        final(s)@ == old(s)@.push(c),
{
    s.push(c);
}

/// Relies on uuid's `Uuid::new_v4` and its `Display` form: a random
/// identifier rendered as 36 hyphenated hexadecimal characters.
#[verifier::external_body]
pub fn new_round_tag() -> (r: String)
    ensures
        r@.len() == 36,
{
    uuid::Uuid::new_v4().to_string()
}

/// Renders `n` in decimal.
pub fn u64_to_string(n: u64) -> (r: String)
    ensures
        r@ == dec_digits(n as nat),
{
    let mut digits: Vec<char> = Vec::new();
    let mut m: u64 = n;
    let d = m % 10;
    digits.insert(0, digit_char_of(d));
    proof {
        if n >= 10 {
            assert(dec_digits(n as nat) == dec_digits((n / 10) as nat).push(digit_char((n % 10) as int)));
            assert(dec_digits((n / 10) as nat).push(digit_char((n % 10) as int))
                =~= dec_digits((n / 10) as nat) + digits@);
        } else {
            assert(dec_digits(n as nat) =~= digits@);
        }
    }
    m = m / 10;
    while m > 0
        invariant
            m > 0 ==> dec_digits(n as nat) == dec_digits(m as nat) + digits@,
            m == 0 ==> dec_digits(n as nat) == digits@,
            digits@.len() >= 1,
        decreases m,
    {
        let ghost before = digits@;
        let d = m % 10;
        digits.insert(0, digit_char_of(d));
        proof {
            assert(digits@ =~= seq![digit_char((m % 10) as int)] + before);
            if m >= 10 {
                assert(dec_digits(m as nat)
                    == dec_digits((m / 10) as nat).push(digit_char((m % 10) as int)));
                assert(dec_digits((m / 10) as nat) + digits@
                    =~= (dec_digits((m / 10) as nat).push(digit_char((m % 10) as int))) + before);
            } else {
                assert(dec_digits(m as nat) =~= seq![digit_char((m % 10) as int)]);
                assert(dec_digits(m as nat) + before =~= digits@);
            }
        }
        m = m / 10;
    }
    let mut r = String::new();
    let mut i: usize = 0;
    while i < digits.len()
        invariant
            i <= digits@.len(),
            r@ == digits@.subrange(0, i as int),
            dec_digits(n as nat) == digits@,
        decreases digits@.len() - i,
    {
        push_char(&mut r, digits[i]);
        proof {
            assert(digits@.subrange(0, i as int).push(digits@[i as int])
                =~= digits@.subrange(0, i as int + 1));
        }
        i += 1;
    }
    proof {
        assert(digits@.subrange(0, digits@.len() as int) =~= digits@);
    }
    r
}

fn is_digit_char(c: char) -> (r: bool)
    ensures
        r == is_digit(c),
{
    c == '0' || c == '1' || c == '2' || c == '3' || c == '4' || c == '5' || c == '6' || c == '7'
        || c == '8' || c == '9'
}

fn digit_value_of(c: char) -> (r: u64)
    ensures
        r == digit_val(c),
        r <= 9,
{
    match c {
        '1' => 1,
        '2' => 2,
        '3' => 3,
        '4' => 4,
        '5' => 5,
        '6' => 6,
        '7' => 7,
        '8' => 8,
        '9' => 9,
        _ => 0,
    }
}

/// Reads the session key an identifier encodes: its leading digit run,
/// as a number. Yields nothing when the identifier does not start with a
/// digit or the number overflows a `u64`.
pub fn parse_session_id(interaction_id: &str) -> (r: Option<u64>)
    ensures
        r == session_key_of(interaction_id@),
{
    let n = interaction_id.unicode_len();
    let mut k: usize = 0;
    while k < n && is_digit_char(interaction_id.get_char(k))
        invariant
            k <= n,
            n == interaction_id@.len(),
            forall|t: int| 0 <= t < k ==> is_digit(#[trigger] interaction_id@[t]),
        decreases n - k,
    {
        k += 1;
    }
    proof {
        lemma_digit_run_at(interaction_id@, k as int);
    }
    if k == 0 {
        return None;
    }
    let mut acc: u64 = 0;
    let mut i: usize = 0;
    while i < k
        invariant
            0 < k <= n,
            i <= k,
            n == interaction_id@.len(),
            digit_run(interaction_id@) == k,
            acc == digits_val(interaction_id@.subrange(0, i as int)),
            digits_val(interaction_id@.subrange(0, i as int)) <= u64::MAX,
        decreases k - i,
    {
        let d = digit_value_of(interaction_id.get_char(i));
        let ghost prefix = interaction_id@.subrange(0, i as int);
        proof {
            assert(interaction_id@.subrange(0, i as int + 1).drop_last() =~= prefix);
            assert(interaction_id@.subrange(0, i as int + 1).last() == interaction_id@[i as int]);
        }
        let mut overflow = false;
        match acc.checked_mul(10) {
            Some(x) => {
                match x.checked_add(d) {
                    Some(v) => {
                        acc = v;
                    },
                    None => {
                        overflow = true;
                    },
                }
            },
            None => {
                overflow = true;
            },
        }
        if overflow {
            proof {
                assert(digits_val(interaction_id@.subrange(0, i as int + 1)) > u64::MAX);
                lemma_digits_val_mono(interaction_id@, i as int + 1, k as int);
            }
            return None;
        }
        i += 1;
    }
    Some(acc)
}

/// Whether an identifier names one of the five choices of a round: it
/// ends with a comma and a digit below five.
pub open spec fn custom_id_ok(s: Seq<char>) -> bool {
    &&& s.len() >= 2
    &&& s[s.len() - 2] == ','
    &&& is_digit(s[s.len() - 1])
    &&& digit_val(s[s.len() - 1]) <= 4
}

/// Splits a choice identifier into the round identifier it belongs to
/// and the index of the chosen option.
pub fn parse_custom_id<'a>(custom_id: &'a str) -> (r: Option<(&'a str, usize)>)
    ensures
        custom_id_ok(custom_id@) ==> (r matches Some((m, d))
            && m@ == custom_id@.subrange(0, custom_id@.len() - 2)
            && d == digit_val(custom_id@[custom_id@.len() - 1])),
        !custom_id_ok(custom_id@) ==> r is None,
{
    let n = custom_id.unicode_len();
    if n < 2 {
        return None;
    }
    let sep = custom_id.get_char(n - 2);
    let last = custom_id.get_char(n - 1);
    if sep != ',' {
        return None;
    }
    if !is_digit_char(last) {
        return None;
    }
    let d = digit_value_of(last);
    if d > 4 {
        return None;
    }
    let prefix = custom_id.substring_char(0, n - 2);
    Some((prefix, d as usize))
}

/// Builds the identifier of one choice button: the round identifier, a
/// comma, and the choice digit.
pub fn component_id(menu_id: &str, choice: usize) -> (r: String)
    requires
        choice <= 4,
    ensures
        r@ == menu_id@ + seq![','] + seq![digit_char(choice as int)],
{
    let mut s = menu_id.to_owned();
    push_char(&mut s, ',');
    push_char(&mut s, digit_char_of(choice as u64));
    proof {
        assert(s@ =~= menu_id@ + seq![','] + seq![digit_char(choice as int)]);
    }
    s
}

/// Builds a fresh round identifier: the decimal session key, a comma,
/// and a 36-character random tag. Whatever the tag, the identifier
/// encodes the key.
pub fn new_menu_id(session_key: u64) -> (r: String)
    ensures
        session_key_of(r@) == Some(session_key),
        exists|t: Seq<char>| t.len() == 36
            && r@ == dec_digits(session_key as nat) + seq![','] + t,
{
    let mut s = u64_to_string(session_key);
    push_char(&mut s, ',');
    let tag = new_round_tag();
    s.append(tag.as_str());
    proof {
        assert(s@ =~= dec_digits(session_key as nat) + seq![','] + tag@);
        lemma_key_of_generated(session_key, tag@);
        assert(tag@.len() == 36 && s@ == dec_digits(session_key as nat) + seq![','] + tag@);
    }
    s
}

} // verus!
