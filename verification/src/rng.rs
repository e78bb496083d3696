//! Trusted wrappers around the process randomness source. Nothing is
//! assumed about which values come out, only about their shape.

use vstd::prelude::*;
use rand::RngExt;
use rand::seq::IteratorRandom;
use rand::seq::SliceRandom;

verus! {

/// Relies on rand's `SliceRandom::shuffle`: an in-place permutation of
/// the slice, so the elements are kept and only reordered.
#[verifier::external_body]
pub fn shuffle<T>(v: &mut Vec<T>)
    ensures
        final(v)@.to_multiset() == old(v)@.to_multiset(),
{
    v.shuffle(&mut rand::rng());
}

/// Relies on rand's `Rng::random_range`: a value drawn from the given
/// range, here an index below `n`.
#[verifier::external_body]
pub fn pick_index(n: usize) -> (r: usize)
    requires
        n > 0,
    ensures
        r < n,
{
    rand::rng().random_range(0..n)
}

/// Relies on rand's `random`: a coin flip; nothing is known of the
/// outcome.
#[verifier::external_body]
pub fn coin() -> bool {
    rand::random::<bool>()
}

/// Relies on rand's `IteratorRandom::sample_fill`: fills a buffer of `k`
/// slots with distinct elements of the iterator, or with all of them
/// when it holds fewer than `k`.
#[verifier::external_body]
pub fn choose_fill(cands: &Vec<String>, k: usize) -> (r: Vec<String>)
    ensures
        r@.len() == vstd::math::min(k as int, cands@.len() as int),
        forall|i: int| 0 <= i < r@.len()
            ==> exists|j: int| 0 <= j < cands@.len() && #[trigger] r@[i]@ == cands@[j]@,
{
    let mut buf = vec![String::new(); k];
    let filled = cands.iter().cloned().sample_fill(&mut rand::rng(), &mut buf);
    buf.truncate(filled);
    buf
}

} // verus!
