//! The occupancy map: which cell, if any, stands on each coordinate.

use vstd::prelude::*;
use vstd::set_lib::{lemma_int_range, lemma_len_subset, set_int_range};
use crate::world::{MAP_HEIGHT, MAP_WIDTH};

verus! {

/// Whether `at` is a coordinate of the grid.
pub open spec fn on_map(at: (usize, usize)) -> bool {
    at.0 < MAP_WIDTH && at.1 < MAP_HEIGHT
}

/// For each coordinate, the index of the cell that stands there, or `None`.
pub struct Grid {
    slots: [[Option<usize>; MAP_HEIGHT]; MAP_WIDTH],
}

impl Grid {
    /// What the grid holds for `at`. Meaningful for a coordinate of the
    /// grid.
    pub closed spec fn at(&self, at: (usize, usize)) -> Option<usize> {
        self.slots[at.0 as int][at.1 as int]
    }

    /// The grid and the cells agree: the cell of index `i` stands on a
    /// coordinate that holds `i`, and a coordinate that holds an index is
    /// the position of the cell of that index. `positions` lists the cells'
    /// positions by index.
    pub open spec fn mirrors(&self, positions: Seq<(usize, usize)>) -> bool {
        &&& positions.len() <= usize::MAX
        &&& forall|i: int|
            0 <= i < positions.len() ==> on_map(#[trigger] positions[i]) && self.at(positions[i])
                == Some(i as usize)
        &&& forall|x: usize, y: usize|
            on_map((x, y)) ==> (#[trigger] self.at((x, y)) matches Some(i) ==> i < positions.len()
                && positions[i as int] == (x, y))
    }

    /// A grid on which nothing stands.
    pub fn new() -> (grid: Grid)
        ensures
            forall|at: (usize, usize)| on_map(at) ==> #[trigger] grid.at(at) is None,
            grid.mirrors(Seq::empty()),
    {
        Grid { slots: [[None; MAP_HEIGHT]; MAP_WIDTH] }
    }

    /// The index of the cell that stands on `at`, if any.
    pub fn get(&self, at: (usize, usize)) -> (slot: Option<usize>)
        requires
            on_map(at),
        ensures
            slot == self.at(at),
    {
        self.slots[at.0][at.1]
    }

    /// Records what stands on `at`; every other coordinate keeps what it
    /// held.
    pub fn set(&mut self, at: (usize, usize), slot: Option<usize>)
        requires
            on_map(at),
        ensures
            final(self).at(at) == slot,
            forall|other: (usize, usize)|
                on_map(other) && other != at ==> #[trigger] final(self).at(other) == old(self).at(
                    other,
                ),
    {
        self.slots[at.0][at.1] = slot;
    }
}

/// No two cells stand on one coordinate of a grid that agrees with them.
pub proof fn lemma_mirrored_positions_differ(grid: Grid, positions: Seq<(usize, usize)>)
    requires
        grid.mirrors(positions),
    ensures
        forall|i: int, j: int|
            0 <= i < positions.len() && 0 <= j < positions.len() && i != j ==> #[trigger] positions[i]
                != #[trigger] positions[j],
{
    assert forall|i: int, j: int|
        0 <= i < positions.len() && 0 <= j < positions.len() && i != j implies #[trigger] positions[i]
        != #[trigger] positions[j] by {
    }
}

/// A grid that agrees with the cells has a coordinate for each of them:
/// there are no more cells than coordinates.
pub proof fn lemma_mirrored_positions_fit(grid: Grid, positions: Seq<(usize, usize)>)
    requires
        grid.mirrors(positions),
    ensures
        positions.len() <= MAP_WIDTH * MAP_HEIGHT,
{
    lemma_mirrored_positions_differ(grid, positions);
    let codes = Seq::new(positions.len(), |i: int| positions[i].0 * MAP_HEIGHT + positions[i].1);
    let room = set_int_range(0, MAP_WIDTH * MAP_HEIGHT);
    assert forall|i: int, j: int|
        0 <= i < codes.len() && 0 <= j < codes.len() && i != j implies codes[i] != codes[j] by {
    }
    codes.unique_seq_to_set();
    lemma_int_range(0, MAP_WIDTH * MAP_HEIGHT);
    assert forall|code: int| codes.to_set().contains(code) implies room.contains(code) by {
        let i = choose|i: int| 0 <= i < codes.len() && codes[i] == code;
    }
    lemma_len_subset(codes.to_set(), room);
}

} // verus!
