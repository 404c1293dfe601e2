//! The engine's single source of randomness. Every random decision in the
//! game is taken on an integer drawn here, so the logic that consumes a
//! draw is a deterministic function of it.

use vstd::prelude::*;
use rand::Rng;

verus! {

/// Relies on rand::Rng::gen_range on rand::thread_rng(): a draw from the
/// inclusive range `lo..=hi`, which panics only when the range is empty
/// and otherwise returns a value inside it.
#[verifier::external_body]
pub(crate) fn rng_range(lo: u32, hi: u32) -> (r: u32)
    requires
        lo <= hi,
    ensures
        lo <= r <= hi,
{
    rand::thread_rng().gen_range(lo..=hi)
}

} // verus!
