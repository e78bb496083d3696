//! The kana-scramble distractor engine: swaps characters of a reading
//! for phonetic neighbors to build plausible wrong answers.

use vstd::prelude::*;
use crate::dictionary::{contains_str, contains_text};
use crate::ids::push_char;
use crate::rng::{coin, pick_index};

verus! {

/// Swap pool of a hiragana character: its row and column mates in the
/// syllabary grid, or its mates in the wa or glide groups.
pub open spec fn hira_pool(c: char) -> Seq<char> {
    if c == 'あ' {
        seq!['か', 'さ', 'た', 'な', 'は', 'ま', 'ら', 'い', 'う', 'え', 'お']
    } else if c == 'か' {
        seq!['あ', 'さ', 'た', 'な', 'は', 'ま', 'ら', 'き', 'く', 'け', 'こ']
    } else if c == 'さ' {
        seq!['あ', 'か', 'た', 'な', 'は', 'ま', 'ら', 'し', 'す', 'せ', 'そ']
    } else if c == 'た' {
        seq!['あ', 'か', 'さ', 'な', 'は', 'ま', 'ら', 'ち', 'つ', 'て', 'と']
    } else if c == 'な' {
        seq!['あ', 'か', 'さ', 'た', 'は', 'ま', 'ら', 'に', 'ぬ', 'ね', 'の']
    } else if c == 'は' {
        seq!['あ', 'か', 'さ', 'た', 'な', 'ま', 'ら', 'ひ', 'ふ', 'へ', 'ほ']
    } else if c == 'ま' {
        seq!['あ', 'か', 'さ', 'た', 'な', 'は', 'ら', 'み', 'む', 'め', 'も']
    } else if c == 'ら' {
        seq!['あ', 'か', 'さ', 'た', 'な', 'は', 'ま', 'り', 'る', 'れ', 'ろ']
    } else if c == 'い' {
        seq!['き', 'し', 'ち', 'に', 'ひ', 'み', 'り', 'あ', 'う', 'え', 'お']
    } else if c == 'き' {
        seq!['い', 'し', 'ち', 'に', 'ひ', 'み', 'り', 'か', 'く', 'け', 'こ']
    } else if c == 'し' {
        seq!['い', 'き', 'ち', 'に', 'ひ', 'み', 'り', 'さ', 'す', 'せ', 'そ']
    } else if c == 'ち' {
        seq!['い', 'き', 'し', 'に', 'ひ', 'み', 'り', 'た', 'つ', 'て', 'と']
    } else if c == 'に' {
        seq!['い', 'き', 'し', 'ち', 'ひ', 'み', 'り', 'な', 'ぬ', 'ね', 'の']
    } else if c == 'ひ' {
        seq!['い', 'き', 'し', 'ち', 'に', 'み', 'り', 'は', 'ふ', 'へ', 'ほ']
    } else if c == 'み' {
        seq!['い', 'き', 'し', 'ち', 'に', 'ひ', 'り', 'ま', 'む', 'め', 'も']
    } else if c == 'り' {
        seq!['い', 'き', 'し', 'ち', 'に', 'ひ', 'み', 'ら', 'る', 'れ', 'ろ']
    } else if c == 'う' {
        seq!['く', 'す', 'つ', 'ぬ', 'ふ', 'む', 'る', 'あ', 'い', 'え', 'お']
    } else if c == 'く' {
        seq!['う', 'す', 'つ', 'ぬ', 'ふ', 'む', 'る', 'か', 'き', 'け', 'こ']
    } else if c == 'す' {
        seq!['う', 'く', 'つ', 'ぬ', 'ふ', 'む', 'る', 'さ', 'し', 'せ', 'そ']
    } else if c == 'つ' {
        seq!['う', 'く', 'す', 'ぬ', 'ふ', 'む', 'る', 'た', 'ち', 'て', 'と']
    } else if c == 'ぬ' {
        seq!['う', 'く', 'す', 'つ', 'ふ', 'む', 'る', 'な', 'に', 'ね', 'の']
    } else if c == 'ふ' {
        seq!['う', 'く', 'す', 'つ', 'ぬ', 'む', 'る', 'は', 'ひ', 'へ', 'ほ']
    } else if c == 'む' {
        seq!['う', 'く', 'す', 'つ', 'ぬ', 'ふ', 'る', 'ま', 'み', 'め', 'も']
    } else if c == 'る' {
        seq!['う', 'く', 'す', 'つ', 'ぬ', 'ふ', 'む', 'ら', 'り', 'れ', 'ろ']
    } else if c == 'え' {
        seq!['け', 'せ', 'て', 'ね', 'へ', 'め', 'れ', 'あ', 'い', 'う', 'お']
    } else if c == 'け' {
        seq!['え', 'せ', 'て', 'ね', 'へ', 'め', 'れ', 'か', 'き', 'く', 'こ']
    } else if c == 'せ' {
        seq!['え', 'け', 'て', 'ね', 'へ', 'め', 'れ', 'さ', 'し', 'す', 'そ']
    } else if c == 'て' {
        seq!['え', 'け', 'せ', 'ね', 'へ', 'め', 'れ', 'た', 'ち', 'つ', 'と']
    } else if c == 'ね' {
        seq!['え', 'け', 'せ', 'て', 'へ', 'め', 'れ', 'な', 'に', 'ぬ', 'の']
    } else if c == 'へ' {
        seq!['え', 'け', 'せ', 'て', 'ね', 'め', 'れ', 'は', 'ひ', 'ふ', 'ほ']
    } else if c == 'め' {
        seq!['え', 'け', 'せ', 'て', 'ね', 'へ', 'れ', 'ま', 'み', 'む', 'も']
    } else if c == 'れ' {
        seq!['え', 'け', 'せ', 'て', 'ね', 'へ', 'め', 'ら', 'り', 'る', 'ろ']
    } else if c == 'お' {
        seq!['こ', 'そ', 'と', 'の', 'ほ', 'も', 'ろ', 'あ', 'い', 'う', 'え']
    } else if c == 'こ' {
        seq!['お', 'そ', 'と', 'の', 'ほ', 'も', 'ろ', 'か', 'き', 'く', 'け']
    } else if c == 'そ' {
        seq!['お', 'こ', 'と', 'の', 'ほ', 'も', 'ろ', 'さ', 'し', 'す', 'せ']
    } else if c == 'と' {
        seq!['お', 'こ', 'そ', 'の', 'ほ', 'も', 'ろ', 'た', 'ち', 'つ', 'て']
    } else if c == 'の' {
        seq!['お', 'こ', 'そ', 'と', 'ほ', 'も', 'ろ', 'な', 'に', 'ぬ', 'ね']
    } else if c == 'ほ' {
        seq!['お', 'こ', 'そ', 'と', 'の', 'も', 'ろ', 'は', 'ひ', 'ふ', 'へ']
    } else if c == 'も' {
        seq!['お', 'こ', 'そ', 'と', 'の', 'ほ', 'ろ', 'ま', 'み', 'む', 'め']
    } else if c == 'ろ' {
        seq!['お', 'こ', 'そ', 'と', 'の', 'ほ', 'も', 'ら', 'り', 'る', 'れ']
    } else if c == 'わ' {
        seq!['を']
    } else if c == 'を' {
        seq!['わ']
    } else if c == 'や' {
        seq!['ゆ', 'よ']
    } else if c == 'ゆ' {
        seq!['や', 'よ']
    } else if c == 'よ' {
        seq!['や', 'ゆ']
    } else if c == 'ゃ' {
        seq!['ゅ', 'ょ']
    } else if c == 'ゅ' {
        seq!['ゃ', 'ょ']
    } else if c == 'ょ' {
        seq!['ゃ', 'ゅ']
    } else {
        Seq::empty()
    }
}

/// Swap pool of a katakana character, mirroring the hiragana chart.
pub open spec fn kata_pool(c: char) -> Seq<char> {
    if c == 'ア' {
        seq!['カ', 'サ', 'タ', 'ナ', 'ハ', 'マ', 'ラ', 'イ', 'ウ', 'エ', 'オ']
    } else if c == 'カ' {
        seq!['ア', 'サ', 'タ', 'ナ', 'ハ', 'マ', 'ラ', 'キ', 'ク', 'ケ', 'コ']
    } else if c == 'サ' {
        seq!['ア', 'カ', 'タ', 'ナ', 'ハ', 'マ', 'ラ', 'シ', 'ス', 'セ', 'ソ']
    } else if c == 'タ' {
        seq!['ア', 'カ', 'サ', 'ナ', 'ハ', 'マ', 'ラ', 'チ', 'ツ', 'テ', 'ト']
    } else if c == 'ナ' {
        seq!['ア', 'カ', 'サ', 'タ', 'ハ', 'マ', 'ラ', 'ニ', 'ヌ', 'ネ', 'ノ']
    } else if c == 'ハ' {
        seq!['ア', 'カ', 'サ', 'タ', 'ナ', 'マ', 'ラ', 'ヒ', 'フ', 'ヘ', 'ホ']
    } else if c == 'マ' {
        seq!['ア', 'カ', 'サ', 'タ', 'ナ', 'ハ', 'ラ', 'ミ', 'ム', 'メ', 'モ']
    } else if c == 'ラ' {
        seq!['ア', 'カ', 'サ', 'タ', 'ナ', 'ハ', 'マ', 'リ', 'ル', 'レ', 'ロ']
    } else if c == 'イ' {
        seq!['キ', 'シ', 'チ', 'ニ', 'ヒ', 'ミ', 'リ', 'ア', 'ウ', 'エ', 'オ']
    } else if c == 'キ' {
        seq!['イ', 'シ', 'チ', 'ニ', 'ヒ', 'ミ', 'リ', 'カ', 'ク', 'ケ', 'コ']
    } else if c == 'シ' {
        seq!['イ', 'キ', 'チ', 'ニ', 'ヒ', 'ミ', 'リ', 'サ', 'ス', 'セ', 'ソ']
    } else if c == 'チ' {
        seq!['イ', 'キ', 'シ', 'ニ', 'ヒ', 'ミ', 'リ', 'タ', 'ツ', 'テ', 'ト']
    } else if c == 'ニ' {
        seq!['イ', 'キ', 'シ', 'チ', 'ヒ', 'ミ', 'リ', 'ナ', 'ヌ', 'ネ', 'ノ']
    } else if c == 'ヒ' {
        seq!['イ', 'キ', 'シ', 'チ', 'ニ', 'ミ', 'リ', 'ハ', 'フ', 'ヘ', 'ホ']
    } else if c == 'ミ' {
        seq!['イ', 'キ', 'シ', 'チ', 'ニ', 'ヒ', 'リ', 'マ', 'ム', 'メ', 'モ']
    } else if c == 'リ' {
        seq!['イ', 'キ', 'シ', 'チ', 'ニ', 'ヒ', 'ミ', 'ラ', 'ル', 'レ', 'ロ']
    } else if c == 'ウ' {
        seq!['ク', 'ス', 'ツ', 'ヌ', 'フ', 'ム', 'ル', 'ア', 'イ', 'エ', 'オ']
    } else if c == 'ク' {
        seq!['ウ', 'ス', 'ツ', 'ヌ', 'フ', 'ム', 'ル', 'カ', 'キ', 'ケ', 'コ']
    } else if c == 'ス' {
        seq!['ウ', 'ク', 'ツ', 'ヌ', 'フ', 'ム', 'ル', 'サ', 'シ', 'セ', 'ソ']
    } else if c == 'ツ' {
        seq!['ウ', 'ク', 'ス', 'ヌ', 'フ', 'ム', 'ル', 'タ', 'チ', 'テ', 'ト']
    } else if c == 'ヌ' {
        seq!['ウ', 'ク', 'ス', 'ツ', 'フ', 'ム', 'ル', 'ナ', 'ニ', 'ネ', 'ノ']
    } else if c == 'フ' {
        seq!['ウ', 'ク', 'ス', 'ツ', 'ヌ', 'ム', 'ル', 'ハ', 'ヒ', 'ヘ', 'ホ']
    } else if c == 'ム' {
        seq!['ウ', 'ク', 'ス', 'ツ', 'ヌ', 'フ', 'ル', 'マ', 'ミ', 'メ', 'モ']
    } else if c == 'ル' {
        seq!['ウ', 'ク', 'ス', 'ツ', 'ヌ', 'フ', 'ム', 'ラ', 'リ', 'レ', 'ロ']
    } else if c == 'エ' {
        seq!['ケ', 'セ', 'テ', 'ネ', 'ヘ', 'メ', 'レ', 'ア', 'イ', 'ウ', 'オ']
    } else if c == 'ケ' {
        seq!['エ', 'セ', 'テ', 'ネ', 'ヘ', 'メ', 'レ', 'カ', 'キ', 'ク', 'コ']
    } else if c == 'セ' {
        seq!['エ', 'ケ', 'テ', 'ネ', 'ヘ', 'メ', 'レ', 'サ', 'シ', 'ス', 'ソ']
    } else if c == 'テ' {
        seq!['エ', 'ケ', 'セ', 'ネ', 'ヘ', 'メ', 'レ', 'タ', 'チ', 'ツ', 'ト']
    } else if c == 'ネ' {
        seq!['エ', 'ケ', 'セ', 'テ', 'ヘ', 'メ', 'レ', 'ナ', 'ニ', 'ヌ', 'ノ']
    } else if c == 'ヘ' {
        seq!['エ', 'ケ', 'セ', 'テ', 'ネ', 'メ', 'レ', 'ハ', 'ヒ', 'フ', 'ホ']
    } else if c == 'メ' {
        seq!['エ', 'ケ', 'セ', 'テ', 'ネ', 'ヘ', 'レ', 'マ', 'ミ', 'ム', 'モ']
    } else if c == 'レ' {
        seq!['エ', 'ケ', 'セ', 'テ', 'ネ', 'ヘ', 'メ', 'ラ', 'リ', 'ル', 'ロ']
    } else if c == 'オ' {
        seq!['コ', 'ソ', 'ト', 'ノ', 'ホ', 'モ', 'ロ', 'ア', 'イ', 'ウ', 'エ']
    } else if c == 'コ' {
        seq!['オ', 'ソ', 'ト', 'ノ', 'ホ', 'モ', 'ロ', 'カ', 'キ', 'ク', 'ケ']
    } else if c == 'ソ' {
        seq!['オ', 'コ', 'ト', 'ノ', 'ホ', 'モ', 'ロ', 'サ', 'シ', 'ス', 'セ']
    } else if c == 'ト' {
        seq!['オ', 'コ', 'ソ', 'ノ', 'ホ', 'モ', 'ロ', 'タ', 'チ', 'ツ', 'テ']
    } else if c == 'ノ' {
        seq!['オ', 'コ', 'ソ', 'ト', 'ホ', 'モ', 'ロ', 'ナ', 'ニ', 'ヌ', 'ネ']
    } else if c == 'ホ' {
        seq!['オ', 'コ', 'ソ', 'ト', 'ノ', 'モ', 'ロ', 'ハ', 'ヒ', 'フ', 'ヘ']
    } else if c == 'モ' {
        seq!['オ', 'コ', 'ソ', 'ト', 'ノ', 'ホ', 'ロ', 'マ', 'ミ', 'ム', 'メ']
    } else if c == 'ロ' {
        seq!['オ', 'コ', 'ソ', 'ト', 'ノ', 'ホ', 'モ', 'ラ', 'リ', 'ル', 'レ']
    } else if c == 'ワ' {
        seq!['ヲ']
    } else if c == 'ヲ' {
        seq!['ワ']
    } else if c == 'ヤ' {
        seq!['ユ', 'ヨ']
    } else if c == 'ユ' {
        seq!['ヤ', 'ヨ']
    } else if c == 'ヨ' {
        seq!['ヤ', 'ユ']
    } else if c == 'ャ' {
        seq!['ュ', 'ョ']
    } else if c == 'ュ' {
        seq!['ャ', 'ョ']
    } else if c == 'ョ' {
        seq!['ャ', 'ュ']
    } else {
        Seq::empty()
    }
}

/// The designated swap pool of a character: looked up in whichever chart
/// holds it; empty for characters outside both charts. A character is
/// never in its own pool.
pub open spec fn pool_of(c: char) -> Seq<char> {
    if hira_pool(c).len() > 0 {
        hira_pool(c)
    } else {
        kata_pool(c)
    }
}

#[verifier::rlimit(100)]
proof fn lemma_hira_no_self(c: char)
    ensures
        !hira_pool(c).contains(c),
{
}

#[verifier::rlimit(100)]
proof fn lemma_kata_no_self(c: char)
    ensures
        !kata_pool(c).contains(c),
{
}

/// No character can be swapped into itself.
pub proof fn lemma_pool_no_self(c: char)
    ensures
        !pool_of(c).contains(c),
{
    lemma_hira_no_self(c);
    lemma_kata_no_self(c);
}

#[verifier::rlimit(100)]
fn hira_swap(c: char) -> (r: Vec<char>)
    ensures
        r@ == hira_pool(c),
{
    if c == 'あ' {
        vec!['か', 'さ', 'た', 'な', 'は', 'ま', 'ら', 'い', 'う', 'え', 'お']
    } else if c == 'か' {
        vec!['あ', 'さ', 'た', 'な', 'は', 'ま', 'ら', 'き', 'く', 'け', 'こ']
    } else if c == 'さ' {
        vec!['あ', 'か', 'た', 'な', 'は', 'ま', 'ら', 'し', 'す', 'せ', 'そ']
    } else if c == 'た' {
        vec!['あ', 'か', 'さ', 'な', 'は', 'ま', 'ら', 'ち', 'つ', 'て', 'と']
    } else if c == 'な' {
        vec!['あ', 'か', 'さ', 'た', 'は', 'ま', 'ら', 'に', 'ぬ', 'ね', 'の']
    } else if c == 'は' {
        vec!['あ', 'か', 'さ', 'た', 'な', 'ま', 'ら', 'ひ', 'ふ', 'へ', 'ほ']
    } else if c == 'ま' {
        vec!['あ', 'か', 'さ', 'た', 'な', 'は', 'ら', 'み', 'む', 'め', 'も']
    } else if c == 'ら' {
        vec!['あ', 'か', 'さ', 'た', 'な', 'は', 'ま', 'り', 'る', 'れ', 'ろ']
    } else if c == 'い' {
        vec!['き', 'し', 'ち', 'に', 'ひ', 'み', 'り', 'あ', 'う', 'え', 'お']
    } else if c == 'き' {
        vec!['い', 'し', 'ち', 'に', 'ひ', 'み', 'り', 'か', 'く', 'け', 'こ']
    } else if c == 'し' {
        vec!['い', 'き', 'ち', 'に', 'ひ', 'み', 'り', 'さ', 'す', 'せ', 'そ']
    } else if c == 'ち' {
        vec!['い', 'き', 'し', 'に', 'ひ', 'み', 'り', 'た', 'つ', 'て', 'と']
    } else if c == 'に' {
        vec!['い', 'き', 'し', 'ち', 'ひ', 'み', 'り', 'な', 'ぬ', 'ね', 'の']
    } else if c == 'ひ' {
        vec!['い', 'き', 'し', 'ち', 'に', 'み', 'り', 'は', 'ふ', 'へ', 'ほ']
    } else if c == 'み' {
        vec!['い', 'き', 'し', 'ち', 'に', 'ひ', 'り', 'ま', 'む', 'め', 'も']
    } else if c == 'り' {
        vec!['い', 'き', 'し', 'ち', 'に', 'ひ', 'み', 'ら', 'る', 'れ', 'ろ']
    } else if c == 'う' {
        vec!['く', 'す', 'つ', 'ぬ', 'ふ', 'む', 'る', 'あ', 'い', 'え', 'お']
    } else if c == 'く' {
        vec!['う', 'す', 'つ', 'ぬ', 'ふ', 'む', 'る', 'か', 'き', 'け', 'こ']
    } else if c == 'す' {
        vec!['う', 'く', 'つ', 'ぬ', 'ふ', 'む', 'る', 'さ', 'し', 'せ', 'そ']
    } else if c == 'つ' {
        vec!['う', 'く', 'す', 'ぬ', 'ふ', 'む', 'る', 'た', 'ち', 'て', 'と']
    } else if c == 'ぬ' {
        vec!['う', 'く', 'す', 'つ', 'ふ', 'む', 'る', 'な', 'に', 'ね', 'の']
    } else if c == 'ふ' {
        vec!['う', 'く', 'す', 'つ', 'ぬ', 'む', 'る', 'は', 'ひ', 'へ', 'ほ']
    } else if c == 'む' {
        vec!['う', 'く', 'す', 'つ', 'ぬ', 'ふ', 'る', 'ま', 'み', 'め', 'も']
    } else if c == 'る' {
        vec!['う', 'く', 'す', 'つ', 'ぬ', 'ふ', 'む', 'ら', 'り', 'れ', 'ろ']
    } else if c == 'え' {
        vec!['け', 'せ', 'て', 'ね', 'へ', 'め', 'れ', 'あ', 'い', 'う', 'お']
    } else if c == 'け' {
        vec!['え', 'せ', 'て', 'ね', 'へ', 'め', 'れ', 'か', 'き', 'く', 'こ']
    } else if c == 'せ' {
        vec!['え', 'け', 'て', 'ね', 'へ', 'め', 'れ', 'さ', 'し', 'す', 'そ']
    } else if c == 'て' {
        vec!['え', 'け', 'せ', 'ね', 'へ', 'め', 'れ', 'た', 'ち', 'つ', 'と']
    } else if c == 'ね' {
        vec!['え', 'け', 'せ', 'て', 'へ', 'め', 'れ', 'な', 'に', 'ぬ', 'の']
    } else if c == 'へ' {
        vec!['え', 'け', 'せ', 'て', 'ね', 'め', 'れ', 'は', 'ひ', 'ふ', 'ほ']
    } else if c == 'め' {
        vec!['え', 'け', 'せ', 'て', 'ね', 'へ', 'れ', 'ま', 'み', 'む', 'も']
    } else if c == 'れ' {
        vec!['え', 'け', 'せ', 'て', 'ね', 'へ', 'め', 'ら', 'り', 'る', 'ろ']
    } else if c == 'お' {
        vec!['こ', 'そ', 'と', 'の', 'ほ', 'も', 'ろ', 'あ', 'い', 'う', 'え']
    } else if c == 'こ' {
        vec!['お', 'そ', 'と', 'の', 'ほ', 'も', 'ろ', 'か', 'き', 'く', 'け']
    } else if c == 'そ' {
        vec!['お', 'こ', 'と', 'の', 'ほ', 'も', 'ろ', 'さ', 'し', 'す', 'せ']
    } else if c == 'と' {
        vec!['お', 'こ', 'そ', 'の', 'ほ', 'も', 'ろ', 'た', 'ち', 'つ', 'て']
    } else if c == 'の' {
        vec!['お', 'こ', 'そ', 'と', 'ほ', 'も', 'ろ', 'な', 'に', 'ぬ', 'ね']
    } else if c == 'ほ' {
        vec!['お', 'こ', 'そ', 'と', 'の', 'も', 'ろ', 'は', 'ひ', 'ふ', 'へ']
    } else if c == 'も' {
        vec!['お', 'こ', 'そ', 'と', 'の', 'ほ', 'ろ', 'ま', 'み', 'む', 'め']
    } else if c == 'ろ' {
        vec!['お', 'こ', 'そ', 'と', 'の', 'ほ', 'も', 'ら', 'り', 'る', 'れ']
    } else if c == 'わ' {
        vec!['を']
    } else if c == 'を' {
        vec!['わ']
    } else if c == 'や' {
        vec!['ゆ', 'よ']
    } else if c == 'ゆ' {
        vec!['や', 'よ']
    } else if c == 'よ' {
        vec!['や', 'ゆ']
    } else if c == 'ゃ' {
        vec!['ゅ', 'ょ']
    } else if c == 'ゅ' {
        vec!['ゃ', 'ょ']
    } else if c == 'ょ' {
        vec!['ゃ', 'ゅ']
    } else {
        Vec::new()
    }
}

#[verifier::rlimit(100)]
fn kata_swap(c: char) -> (r: Vec<char>)
    ensures
        r@ == kata_pool(c),
{
    if c == 'ア' {
        vec!['カ', 'サ', 'タ', 'ナ', 'ハ', 'マ', 'ラ', 'イ', 'ウ', 'エ', 'オ']
    } else if c == 'カ' {
        vec!['ア', 'サ', 'タ', 'ナ', 'ハ', 'マ', 'ラ', 'キ', 'ク', 'ケ', 'コ']
    } else if c == 'サ' {
        vec!['ア', 'カ', 'タ', 'ナ', 'ハ', 'マ', 'ラ', 'シ', 'ス', 'セ', 'ソ']
    } else if c == 'タ' {
        vec!['ア', 'カ', 'サ', 'ナ', 'ハ', 'マ', 'ラ', 'チ', 'ツ', 'テ', 'ト']
    } else if c == 'ナ' {
        vec!['ア', 'カ', 'サ', 'タ', 'ハ', 'マ', 'ラ', 'ニ', 'ヌ', 'ネ', 'ノ']
    } else if c == 'ハ' {
        vec!['ア', 'カ', 'サ', 'タ', 'ナ', 'マ', 'ラ', 'ヒ', 'フ', 'ヘ', 'ホ']
    } else if c == 'マ' {
        vec!['ア', 'カ', 'サ', 'タ', 'ナ', 'ハ', 'ラ', 'ミ', 'ム', 'メ', 'モ']
    } else if c == 'ラ' {
        vec!['ア', 'カ', 'サ', 'タ', 'ナ', 'ハ', 'マ', 'リ', 'ル', 'レ', 'ロ']
    } else if c == 'イ' {
        vec!['キ', 'シ', 'チ', 'ニ', 'ヒ', 'ミ', 'リ', 'ア', 'ウ', 'エ', 'オ']
    } else if c == 'キ' {
        vec!['イ', 'シ', 'チ', 'ニ', 'ヒ', 'ミ', 'リ', 'カ', 'ク', 'ケ', 'コ']
    } else if c == 'シ' {
        vec!['イ', 'キ', 'チ', 'ニ', 'ヒ', 'ミ', 'リ', 'サ', 'ス', 'セ', 'ソ']
    } else if c == 'チ' {
        vec!['イ', 'キ', 'シ', 'ニ', 'ヒ', 'ミ', 'リ', 'タ', 'ツ', 'テ', 'ト']
    } else if c == 'ニ' {
        vec!['イ', 'キ', 'シ', 'チ', 'ヒ', 'ミ', 'リ', 'ナ', 'ヌ', 'ネ', 'ノ']
    } else if c == 'ヒ' {
        vec!['イ', 'キ', 'シ', 'チ', 'ニ', 'ミ', 'リ', 'ハ', 'フ', 'ヘ', 'ホ']
    } else if c == 'ミ' {
        vec!['イ', 'キ', 'シ', 'チ', 'ニ', 'ヒ', 'リ', 'マ', 'ム', 'メ', 'モ']
    } else if c == 'リ' {
        vec!['イ', 'キ', 'シ', 'チ', 'ニ', 'ヒ', 'ミ', 'ラ', 'ル', 'レ', 'ロ']
    } else if c == 'ウ' {
        vec!['ク', 'ス', 'ツ', 'ヌ', 'フ', 'ム', 'ル', 'ア', 'イ', 'エ', 'オ']
    } else if c == 'ク' {
        vec!['ウ', 'ス', 'ツ', 'ヌ', 'フ', 'ム', 'ル', 'カ', 'キ', 'ケ', 'コ']
    } else if c == 'ス' {
        vec!['ウ', 'ク', 'ツ', 'ヌ', 'フ', 'ム', 'ル', 'サ', 'シ', 'セ', 'ソ']
    } else if c == 'ツ' {
        vec!['ウ', 'ク', 'ス', 'ヌ', 'フ', 'ム', 'ル', 'タ', 'チ', 'テ', 'ト']
    } else if c == 'ヌ' {
        vec!['ウ', 'ク', 'ス', 'ツ', 'フ', 'ム', 'ル', 'ナ', 'ニ', 'ネ', 'ノ']
    } else if c == 'フ' {
        vec!['ウ', 'ク', 'ス', 'ツ', 'ヌ', 'ム', 'ル', 'ハ', 'ヒ', 'ヘ', 'ホ']
    } else if c == 'ム' {
        vec!['ウ', 'ク', 'ス', 'ツ', 'ヌ', 'フ', 'ル', 'マ', 'ミ', 'メ', 'モ']
    } else if c == 'ル' {
        vec!['ウ', 'ク', 'ス', 'ツ', 'ヌ', 'フ', 'ム', 'ラ', 'リ', 'レ', 'ロ']
    } else if c == 'エ' {
        vec!['ケ', 'セ', 'テ', 'ネ', 'ヘ', 'メ', 'レ', 'ア', 'イ', 'ウ', 'オ']
    } else if c == 'ケ' {
        vec!['エ', 'セ', 'テ', 'ネ', 'ヘ', 'メ', 'レ', 'カ', 'キ', 'ク', 'コ']
    } else if c == 'セ' {
        vec!['エ', 'ケ', 'テ', 'ネ', 'ヘ', 'メ', 'レ', 'サ', 'シ', 'ス', 'ソ']
    } else if c == 'テ' {
        vec!['エ', 'ケ', 'セ', 'ネ', 'ヘ', 'メ', 'レ', 'タ', 'チ', 'ツ', 'ト']
    } else if c == 'ネ' {
        vec!['エ', 'ケ', 'セ', 'テ', 'ヘ', 'メ', 'レ', 'ナ', 'ニ', 'ヌ', 'ノ']
    } else if c == 'ヘ' {
        vec!['エ', 'ケ', 'セ', 'テ', 'ネ', 'メ', 'レ', 'ハ', 'ヒ', 'フ', 'ホ']
    } else if c == 'メ' {
        vec!['エ', 'ケ', 'セ', 'テ', 'ネ', 'ヘ', 'レ', 'マ', 'ミ', 'ム', 'モ']
    } else if c == 'レ' {
        vec!['エ', 'ケ', 'セ', 'テ', 'ネ', 'ヘ', 'メ', 'ラ', 'リ', 'ル', 'ロ']
    } else if c == 'オ' {
        vec!['コ', 'ソ', 'ト', 'ノ', 'ホ', 'モ', 'ロ', 'ア', 'イ', 'ウ', 'エ']
    } else if c == 'コ' {
        vec!['オ', 'ソ', 'ト', 'ノ', 'ホ', 'モ', 'ロ', 'カ', 'キ', 'ク', 'ケ']
    } else if c == 'ソ' {
        vec!['オ', 'コ', 'ト', 'ノ', 'ホ', 'モ', 'ロ', 'サ', 'シ', 'ス', 'セ']
    } else if c == 'ト' {
        vec!['オ', 'コ', 'ソ', 'ノ', 'ホ', 'モ', 'ロ', 'タ', 'チ', 'ツ', 'テ']
    } else if c == 'ノ' {
        vec!['オ', 'コ', 'ソ', 'ト', 'ホ', 'モ', 'ロ', 'ナ', 'ニ', 'ヌ', 'ネ']
    } else if c == 'ホ' {
        vec!['オ', 'コ', 'ソ', 'ト', 'ノ', 'モ', 'ロ', 'ハ', 'ヒ', 'フ', 'ヘ']
    } else if c == 'モ' {
        vec!['オ', 'コ', 'ソ', 'ト', 'ノ', 'ホ', 'ロ', 'マ', 'ミ', 'ム', 'メ']
    } else if c == 'ロ' {
        vec!['オ', 'コ', 'ソ', 'ト', 'ノ', 'ホ', 'モ', 'ラ', 'リ', 'ル', 'レ']
    } else if c == 'ワ' {
        vec!['ヲ']
    } else if c == 'ヲ' {
        vec!['ワ']
    } else if c == 'ヤ' {
        vec!['ユ', 'ヨ']
    } else if c == 'ユ' {
        vec!['ヤ', 'ヨ']
    } else if c == 'ヨ' {
        vec!['ヤ', 'ユ']
    } else if c == 'ャ' {
        vec!['ュ', 'ョ']
    } else if c == 'ュ' {
        vec!['ャ', 'ョ']
    } else if c == 'ョ' {
        vec!['ャ', 'ュ']
    } else {
        Vec::new()
    }
}

/// The swap pool of `c` as `pool_of` gives it.
pub fn swap_pool(c: char) -> (r: Vec<char>)
    ensures
        r@ == pool_of(c),
{
    let h = hira_swap(c);
    if h.len() > 0 {
        h
    } else {
        kata_swap(c)
    }
}

/// Whether a character has phonetic neighbors to swap with.
pub open spec fn swappable(c: char) -> bool {
    pool_of(c).len() > 0
}

/// How many characters of `s` are swappable.
pub open spec fn swap_count(s: Seq<char>) -> nat
    decreases s.len(),
{
    if s.len() == 0 {
        0
    } else {
        swap_count(s.drop_last()) + if swappable(s.last()) {
            1nat
        } else {
            0nat
        }
    }
}

/// Whether the whole-swap branch applies: short readings, and readings
/// where fewer than three fifths of the characters are swappable, have
/// every swappable character swapped.
pub open spec fn aggressive(s: Seq<char>) -> bool {
    s.len() < 4 || 5 * swap_count(s) < 3 * s.len()
}

/// What any scramble of `src` looks like: the same character count, each
/// character kept or drawn from its swap pool, and, when the whole-swap
/// branch applies, every swappable character changed.
pub open spec fn scramble_shape(src: Seq<char>, out: Seq<char>) -> bool {
    &&& out.len() == src.len()
    &&& forall|i: int| 0 <= i < src.len()
            ==> out[i] == src[i] || pool_of(#[trigger] src[i]).contains(out[i])
    &&& aggressive(src) ==> forall|i: int| 0 <= i < src.len() && swappable(#[trigger] src[i])
            ==> out[i] != src[i]
}

fn count_swappable(s: &str) -> (r: usize)
    ensures
        r == swap_count(s@),
{
    let n = s.unicode_len();
    let mut count: usize = 0;
    let mut i: usize = 0;
    while i < n
        invariant
            i <= n,
            n == s@.len(),
            count == swap_count(s@.subrange(0, i as int)),
            count <= i,
        decreases n - i,
    {
        let pool = swap_pool(s.get_char(i));
        proof {
            assert(s@.subrange(0, i as int + 1).drop_last() =~= s@.subrange(0, i as int));
            assert(s@.subrange(0, i as int + 1).last() == s@[i as int]);
        }
        if pool.len() > 0 {
            count += 1;
        }
        i += 1;
    }
    proof {
        assert(s@.subrange(0, n as int) =~= s@);
    }
    count
}

proof fn lemma_swap_count_le(s: Seq<char>)
    ensures
        swap_count(s) <= s.len(),
    decreases s.len(),
{
    if s.len() > 0 {
        lemma_swap_count_le(s.drop_last());
    }
}

fn is_aggressive(s: &str) -> (r: bool)
    ensures
        r == aggressive(s@),
{
    let n = s.unicode_len();
    if n < 4 {
        return true;
    }
    let count = count_swappable(s);
    proof {
        lemma_swap_count_le(s@);
    }
    (count as u128) * 5 < (n as u128) * 3
}

/// Scrambles a reading: each swappable character is replaced by one of
/// its phonetic neighbors, always on short or low-swappability readings,
/// with an independent coin flip per character otherwise.
pub fn scramble(reading: &str) -> (r: String)
    ensures
        scramble_shape(reading@, r@),
{
    let n = reading.unicode_len();
    let agg = is_aggressive(reading);
    let mut out = String::new();
    let mut i: usize = 0;
    while i < n
        invariant
            i <= n,
            n == reading@.len(),
            agg == aggressive(reading@),
            out@.len() == i,
            forall|j: int| 0 <= j < i
                ==> out@[j] == reading@[j] || pool_of(#[trigger] reading@[j]).contains(out@[j]),
            agg ==> forall|j: int| 0 <= j < i && swappable(#[trigger] reading@[j])
                ==> out@[j] != reading@[j],
        decreases n - i,
    {
        let c = reading.get_char(i);
        let pool = swap_pool(c);
        if pool.len() == 0 {
            push_char(&mut out, c);
        } else if agg || coin() {
            let j = pick_index(pool.len());
            proof {
                lemma_pool_no_self(c);
            }
            push_char(&mut out, pool[j]);
        } else {
            push_char(&mut out, c);
        }
        i += 1;
    }
    out
}

/// The fixed placeholder used when no distinct scramble could be found.
pub fn scramble_fallback() -> (r: String)
    ensures
        r@ == "？？？"@,
{
    "？？？".to_owned()
}

/// How many scrambles are tried before giving up on distinctness.
pub const SCRAMBLE_ATTEMPTS: usize = 1000;

/// Scrambles a reading into a string distinct from every string in
/// `taken`, retrying up to `SCRAMBLE_ATTEMPTS` times; when every attempt
/// collides, the fixed placeholder is substituted instead. The
/// placeholder can only come out of a collision, so it is never
/// returned unless `taken` already holds a scramble of the reading.
pub fn scramble_unique(reading: &str, taken: &Vec<String>) -> (r: String)
    ensures
        (scramble_shape(reading@, r@) && !contains_text(taken@, r@)) || (r@ == "？？？"@
            && exists|i: int| 0 <= i < taken@.len()
                && scramble_shape(reading@, #[trigger] taken@[i]@)),
{
    let mut attempts: usize = 0;
    while attempts < SCRAMBLE_ATTEMPTS
        invariant
            attempts <= SCRAMBLE_ATTEMPTS,
            attempts > 0 ==> exists|i: int| 0 <= i < taken@.len()
                && scramble_shape(reading@, #[trigger] taken@[i]@),
        decreases SCRAMBLE_ATTEMPTS - attempts,
    {
        let s = scramble(reading);
        if !contains_str(taken, s.as_str()) {
            return s;
        }
        proof {
            let i = choose|i: int| 0 <= i < taken@.len() && taken@[i]@ == s@;
            assert(scramble_shape(reading@, taken@[i]@));
        }
        attempts += 1;
    }
    scramble_fallback()
}

} // verus!
