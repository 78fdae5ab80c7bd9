//! The crate's only trusted boundary: draws from the process-wide random
//! number generator.  Nothing is assumed of which value comes back, only of
//! the set every outcome lies in.

use crate::models::Piece;
use vstd::prelude::*;

verus! {

/// Relies on rand::Rng::gen_range over the half-open range `low..high`,
/// on the generator that rand::thread_rng hands out: the result lies in
/// that range, and the call panics only on an empty range, which the
/// precondition rules out.
#[verifier::external_body]
pub(crate) fn rand_u32_in(low: u32, high: u32) -> (r: u32)
    requires
        low < high,
    ensures
        low <= r < high,
{
    rand::Rng::gen_range(&mut rand::thread_rng(), low..high)
}

/// Relies on rand::seq::SliceRandom::shuffle, driven by the generator that
/// rand::thread_rng hands out: it reorders the slice in place by swaps, so
/// the result is a permutation of the input — the same elements, as a
/// multiset, in some order.
#[verifier::external_body]
pub(crate) fn shuffle_pieces(v: &mut Vec<Piece>)
    ensures
        final(v)@.len() == old(v)@.len(),
        final(v)@.to_multiset() == old(v)@.to_multiset(),
{
    rand::seq::SliceRandom::shuffle(v.as_mut_slice(), &mut rand::thread_rng())
}

} // verus!
