//! A population of grid-bound cells that turn, divide, mutate and fight as
//! their genomes tell them, advanced one tick at a time.
//!
//! Every quantity is an integer. Energies, thresholds, combat strengths,
//! colour channels and averages are held in thousandths of a unit (see
//! [`fixed::UNIT`]), so that each rule of the simulation is exact and can be
//! stated and proved.

use vstd::prelude::*;

pub mod cell;
pub mod color;
pub mod filters;
pub mod fixed;
pub mod grid;
pub mod info;
pub mod laws;
pub mod mutation;
mod random;
pub mod rules;
pub mod world;

verus! {

/// The value of `n` held to the closed interval from `min` to `max`. Where
/// the interval is empty the lower bound wins for an `n` below it, the upper
/// bound for any other.
pub open spec fn spec_limit(min: int, max: int, n: int) -> int {
    if n < min {
        min
    } else if n > max {
        max
    } else {
        n
    }
}

/// Holds `n` to the closed interval from `min` to `max`.
pub fn limit(min: i64, max: i64, n: i64) -> (r: i64)
    ensures
        r == spec_limit(min as int, max as int, n as int),
{
    if n < min {
        min
    } else if n > max {
        max
    } else {
        n
    }
}

} // verus!
