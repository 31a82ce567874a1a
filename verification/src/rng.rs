//! Randomness: shuffling with the thread's random generator.
use vstd::prelude::*;
use rand::seq::SliceRandom;
use rand::Rng;

verus! {

/// Calls `rand::seq::SliceRandom::shuffle` on the vector with `rand::thread_rng()`.
/// The order that comes out is random; the contract claims only that the
/// result holds the same items as the input (`shuffle` only swaps items).
#[verifier::external_body]
pub(crate) fn shuffle<T>(v: &mut Vec<T>)
    ensures
        final(v)@.to_multiset() == old(v)@.to_multiset(),
{
    let mut rng = rand::thread_rng();
    v.as_mut_slice().shuffle(&mut rng);
}

/// An ASCII letter or digit.
pub open spec fn alphanumeric(c: char) -> bool {
    ('A' <= c && c <= 'Z') || ('a' <= c && c <= 'z') || ('0' <= c && c <= '9')
}

/// `n` characters drawn with `rand::distributions::Alphanumeric` from
/// `rand::thread_rng()`. Which characters come out is random; the contract
/// claims the count and that each is an ASCII letter or digit, the 62 bytes
/// that the distribution samples from.
#[verifier::external_body]
pub(crate) fn random_alphanumeric(n: usize) -> (r: String)
    ensures
        r@.len() == n,
        forall|i: int| 0 <= i < n ==> alphanumeric(#[trigger] r@[i]),
{
    rand::thread_rng().sample_iter(&rand::distributions::Alphanumeric).take(n).map(char::from).collect()
}

} // verus!
