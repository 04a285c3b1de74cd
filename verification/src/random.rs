//! The one source of chance.

use rand::Rng;
use vstd::prelude::*;

verus! {

/// A uniformly drawn integer from `low` to `high`, both included.
///
/// Trusted: this is `rand::Rng::gen_range` on the inclusive range
/// `low..=high`, called on the generator that `rand::thread_rng` hands out.
/// `gen_range` panics on an empty range, which the precondition rules out,
/// and returns a value inside the range. Successive draws are unrelated.
/// `thread_rng` panics where the operating system has no randomness to seed
/// it with, whatever the arguments.
#[verifier::external_body]
pub(crate) fn random_between(low: i64, high: i64) -> (r: i64)
    requires
        low <= high,
    ensures
        low <= r <= high,
{
    rand::thread_rng().gen_range(low..=high)
}

} // verus!
