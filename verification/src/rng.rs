//! The single source of randomness for the simulation.
use vstd::prelude::*;
use rand::Rng;

verus! {

/// Relies on rand::Rng::gen_range over the half-open range `lo..hi`
/// (through rand::thread_rng): a uniform draw in `[lo, hi)`. It panics
/// only on an empty range, which the precondition rules out.
#[verifier::external_body]
pub(crate) fn rand_range(lo: i64, hi: i64) -> (r: i64)
    requires
        lo < hi,
    ensures
        lo <= r < hi,
{
    rand::thread_rng().gen_range(lo..hi)
}

} // verus!
