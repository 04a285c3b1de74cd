//! The colour by which a lineage is told apart on screen.

use vstd::prelude::*;
use crate::fixed::limited_sum;
use crate::random::random_between;
use crate::spec_limit;

verus! {

/// The value of a fully lit channel.
pub const CHANNEL_MAX: i64 = 1000;

/// The furthest that one mutation moves a channel, either way.
pub const COLOR_STEP: i64 = 200;

/// A colour of three channels, each in thousandths of full intensity.
#[derive(Clone, Copy, Debug, PartialEq, Eq)]
pub struct ColorCell {
    pub r: i64,
    pub g: i64,
    pub b: i64,
}

impl ColorCell {
    /// Every channel lies between dark and fully lit.
    pub open spec fn valid(self) -> bool {
        &&& 0 <= self.r <= CHANNEL_MAX
        &&& 0 <= self.g <= CHANNEL_MAX
        &&& 0 <= self.b <= CHANNEL_MAX
    }

    /// This colour with each channel moved by its delta and then held
    /// between dark and fully lit.
    pub open spec fn shifted(self, dr: int, dg: int, db: int) -> ColorCell {
        ColorCell {
            r: spec_limit(0, CHANNEL_MAX as int, self.r + dr) as i64,
            g: spec_limit(0, CHANNEL_MAX as int, self.g + dg) as i64,
            b: spec_limit(0, CHANNEL_MAX as int, self.b + db) as i64,
        }
    }

    /// The colour of the given channels.
    pub fn new(r: i64, g: i64, b: i64) -> (c: Self)
        ensures
            c == (ColorCell { r, g, b }),
    {
        Self { r, g, b }
    }

    /// Moves each channel by its delta; no channel leaves the range from
    /// dark to fully lit.
    pub fn shift(&mut self, dr: i64, dg: i64, db: i64)
        ensures
            *final(self) == old(self).shifted(dr as int, dg as int, db as int),
            final(self).valid(),
    {
        self.r = limited_sum(0, CHANNEL_MAX, self.r, dr);
        self.g = limited_sum(0, CHANNEL_MAX, self.g, dg);
        self.b = limited_sum(0, CHANNEL_MAX, self.b, db);
    }

    /// Moves each channel by a random amount of at most `COLOR_STEP`.
    pub fn modify(&mut self)
        ensures
            final(self).valid(),
            exists|dr: int, dg: int, db: int|
                {
                    &&& -COLOR_STEP <= dr <= COLOR_STEP
                    &&& -COLOR_STEP <= dg <= COLOR_STEP
                    &&& -COLOR_STEP <= db <= COLOR_STEP
                    &&& *final(self) == #[trigger] old(self).shifted(dr, dg, db)
                },
    {
        let dr = random_between(-COLOR_STEP, COLOR_STEP);
        let dg = random_between(-COLOR_STEP, COLOR_STEP);
        let db = random_between(-COLOR_STEP, COLOR_STEP);
        self.shift(dr, dg, db);
    }
}

} // verus!
