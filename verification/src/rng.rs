//! The single source of randomness for the simulation.
//!
//! Every random decision in the library flows through `random_in_range`, so
//! everything downstream of it is verified for every value the range allows.

use vstd::prelude::*;

verus! {

/// Relies on rand::Rng::gen_range over the half-open range `lo..hi`: it
/// returns a uniform sample `r` with `lo <= r < hi`, and panics only when the
/// range is empty, which the precondition rules out.
#[verifier::external_body]
pub(crate) fn random_in_range(lo: i64, hi: i64) -> (r: i64)
    requires
        lo < hi,
    ensures
        lo <= r < hi,
{
    rand::Rng::gen_range(&mut rand::thread_rng(), lo..hi)
}

} // verus!
