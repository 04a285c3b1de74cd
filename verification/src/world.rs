//! The grid and the cells that live on it.

use vstd::prelude::*;
use crate::cell::{within_limit, Cell, CellView, Gen, TRAIT_LIMIT};
use crate::grid::{
    lemma_mirrored_positions_differ, lemma_mirrored_positions_fit, on_map, Grid,
};
use crate::info::{lemma_averaged_sums, lemma_tallied_sums, Info};
use crate::limit;
use crate::mutation::{Mutation, MutationView};
use crate::rules::{
    acted, all_drawn, counted, drawn, last_survey, measured, occupant, occupied, positions, ran,
    stepped, surveyed, survives, swept, ticked, Sweep,
};
use crate::spec_limit;

verus! {

/// The number of columns of the grid.
pub const MAP_WIDTH: usize = 50;

/// The number of rows of the grid.
pub const MAP_HEIGHT: usize = 50;

/// The nutrient level of a new world, in thousandths.
pub const DEFAULT_NUTRIENT_MEDIUM: i64 = 4_000;

/// The cells in the order in which they act, the grid that tells who stands
/// where, and the two settings that the outside may change.
pub struct World {
    grid: Grid,
    cells: Vec<Cell>,
    nutrient_medium: i64,
    speed: usize,
}

impl View for World {
    type V = Seq<CellView>;

    /// The cells, in the order in which they act.
    closed spec fn view(&self) -> Seq<CellView> {
        self.cells.deep_view()
    }
}

impl World {
    /// The occupancy map.
    pub closed spec fn occupancy(&self) -> Grid {
        self.grid
    }

    /// The energy that a tick offers to a cell in row 0, in thousandths.
    pub closed spec fn nutrient(&self) -> i64 {
        self.nutrient_medium
    }

    /// The number of ticks that `run` makes.
    pub closed spec fn pace(&self) -> usize {
        self.speed
    }

    /// The world is in order: the grid and the cells agree on who stands
    /// where, so that no two cells share a coordinate; the rules can be
    /// applied to every cell; and the nutrient level is within the limit.
    pub open spec fn wf(&self) -> bool {
        &&& self.occupancy().mirrors(positions(self@))
        &&& forall|i: int| 0 <= i < self@.len() ==> (#[trigger] self@[i]).valid()
        &&& within_limit(self.nutrient())
    }

    /// A world with one cell of the founding lineage in the middle of row 0.
    pub fn new() -> (world: Self)
        ensures
            world.wf(),
            world@ == seq![CellView::fresh((25, 0))],
            world.nutrient() == DEFAULT_NUTRIENT_MEDIUM,
            world.pace() == 1,
    {
        let mut grid = Grid::new();
        grid.set((25, 0), Some(0));
        let world = Self {
            grid,
            cells: vec![Cell::new((25, 0))],
            nutrient_medium: DEFAULT_NUTRIENT_MEDIUM,
            speed: 1,
        };
        world
    }

    /// A world of the given cells, which act in the order of the list, or
    /// `None` where the world would not be in order: where the rules cannot
    /// be applied to one of the cells, where two of them stand on one
    /// coordinate, or where the nutrient level is beyond the limit.
    pub fn from_cells(cells: Vec<Cell>, nutrient_medium: i64, speed: usize) -> (world: Option<
        Self,
    >)
        ensures
            world.is_some() == {
                &&& within_limit(nutrient_medium)
                &&& forall|i: int|
                    0 <= i < cells.deep_view().len() ==> (#[trigger] cells.deep_view()[i]).valid()
                &&& forall|i: int, j: int|
                    0 <= i < j < cells.deep_view().len() ==> (#[trigger] cells.deep_view()[i]).position
                        != (#[trigger] cells.deep_view()[j]).position
            },
            world matches Some(w) ==> {
                &&& w.wf()
                &&& w@ == cells.deep_view()
                &&& w.nutrient() == nutrient_medium
                &&& w.pace() == speed
            },
    {
        if nutrient_medium < -TRAIT_LIMIT || nutrient_medium > TRAIT_LIMIT {
            return None;
        }
        let ghost listed = cells.deep_view();
        let mut grid = Grid::new();
        let mut k: usize = 0;
        while k < cells.len()
            invariant
                k <= cells@.len(),
                listed == cells.deep_view(),
                grid.mirrors(positions(listed.take(k as int))),
                forall|i: int| 0 <= i < k ==> (#[trigger] listed[i]).valid(),
            decreases cells@.len() - k,
        {
            let ghost placed = positions(listed.take(k as int));
            if !cells[k].is_valid() {
                assert(!listed[k as int].valid());
                return None;
            }
            let at = cells[k].position;
            match grid.get(at) {
                Some(m) => {
                    assert(listed[m as int].position == listed[k as int].position);
                    return None;
                },
                None => {},
            }
            grid.set(at, Some(k));
            assert(positions(listed.take(k + 1)) =~= placed.push(at));
            k += 1;
        }
        assert(listed.take(k as int) =~= listed);
        proof {
            lemma_mirrored_positions_differ(grid, positions(listed));
            assert forall|i: int, j: int| 0 <= i < j < listed.len() implies (#[trigger] listed[i]).position
                != (#[trigger] listed[j]).position by {
                assert(positions(listed)[i] != positions(listed)[j]);
            }
        }
        Some(Self { grid, cells, nutrient_medium, speed })
    }

    /// Whether the world is in order. It is after every call of this
    /// module; the test is for callers that cannot see the proofs.
    pub fn is_in_order(&self) -> (b: bool)
        ensures
            b == self.wf(),
    {
        if self.nutrient_medium < -TRAIT_LIMIT || self.nutrient_medium > TRAIT_LIMIT {
            return false;
        }
        let ghost places = positions(self@);
        let mut k: usize = 0;
        while k < self.cells.len()
            invariant
                k <= self.cells@.len(),
                places == positions(self@),
                forall|i: int| 0 <= i < k ==> (#[trigger] self@[i]).valid(),
                forall|i: int|
                    0 <= i < k ==> on_map(#[trigger] places[i]) && self.grid.at(places[i]) == Some(
                        i as usize,
                    ),
            decreases self.cells@.len() - k,
        {
            if !self.cells[k].is_valid() {
                assert(!self@[k as int].valid());
                return false;
            }
            let at = self.cells[k].position;
            assert(at == places[k as int]);
            if self.grid.get(at) != Some(k) {
                return false;
            }
            k += 1;
        }
        let mut x: usize = 0;
        while x < MAP_WIDTH
            invariant
                x <= MAP_WIDTH,
                places == positions(self@),
                forall|a: usize, b: usize|
                    a < x && b < MAP_HEIGHT ==> (#[trigger] self.grid.at((a, b)) matches Some(i)
                        ==> i < places.len() && places[i as int] == (a, b)),
            decreases MAP_WIDTH - x,
        {
            let mut y: usize = 0;
            while y < MAP_HEIGHT
                invariant
                    x < MAP_WIDTH,
                    y <= MAP_HEIGHT,
                    places == positions(self@),
                    forall|a: usize, b: usize|
                        a < x && b < MAP_HEIGHT ==> (#[trigger] self.grid.at((a, b)) matches Some(
                            i,
                        ) ==> i < places.len() && places[i as int] == (a, b)),
                    forall|b: usize|
                        b < y ==> (#[trigger] self.grid.at((x, b)) matches Some(i) ==> i
                            < places.len() && places[i as int] == (x, b)),
                decreases MAP_HEIGHT - y,
            {
                match self.grid.get((x, y)) {
                    Some(i) => {
                        if i >= self.cells.len() {
                            return false;
                        }
                        let at = self.cells[i].position;
                        if at.0 != x || at.1 != y {
                            return false;
                        }
                    },
                    None => {},
                }
                y += 1;
            }
            x += 1;
        }
        true
    }

    /// The cells, in the order in which they act.
    pub fn cells(&self) -> (cells: &Vec<Cell>)
        ensures
            cells.deep_view() == self@,
    {
        &self.cells
    }

    /// The number of cells. A world in order holds no more cells than the
    /// grid has coordinates.
    pub fn population(&self) -> (count: usize)
        ensures
            count == self@.len(),
            self.wf() ==> count <= MAP_WIDTH * MAP_HEIGHT,
    {
        proof {
            if self.wf() {
                lemma_mirrored_positions_fit(self.grid, positions(self@));
            }
        }
        self.cells.len()
    }

    /// The energy that a tick offers to a cell in row 0, in thousandths.
    pub fn nutrient_medium(&self) -> (level: i64)
        ensures
            level == self.nutrient(),
    {
        self.nutrient_medium
    }

    /// Sets the nutrient level, held within the limit.
    pub fn set_nutrient_medium(&mut self, level: i64)
        ensures
            final(self).nutrient() == spec_limit(-TRAIT_LIMIT as int, TRAIT_LIMIT as int, level as int),
            final(self)@ == old(self)@,
            final(self).occupancy() == old(self).occupancy(),
            final(self).pace() == old(self).pace(),
            old(self).wf() ==> final(self).wf(),
    {
        self.nutrient_medium = limit(-TRAIT_LIMIT, TRAIT_LIMIT, level);
    }

    /// The number of ticks that `run` makes.
    pub fn speed(&self) -> (ticks: usize)
        ensures
            ticks == self.pace(),
    {
        self.speed
    }

    /// Sets the number of ticks that `run` makes.
    pub fn set_speed(&mut self, ticks: usize)
        ensures
            final(self).pace() == ticks,
            final(self)@ == old(self)@,
            final(self).occupancy() == old(self).occupancy(),
            final(self).nutrient() == old(self).nutrient(),
            old(self).wf() ==> final(self).wf(),
    {
        self.speed = ticks;
    }

    /// The index of the cell that stands on `at`, if any.
    pub fn occupant_of(&self, at: (usize, usize)) -> (index: Option<usize>)
        requires
            self.wf(),
            on_map(at),
        ensures
            index.is_some() == occupied(self@, at),
            index matches Some(i) ==> occupant(self@, at) == Some(i as int) && i < self@.len()
                && self@[i as int].position == at,
    {
        let slot = self.grid.get(at);
        proof {
            self.lemma_slot_is_occupant(at);
        }
        slot
    }

    /// In a world that is in order no two cells stand on one coordinate,
    /// and each coordinate of the grid holds the index of the cell that
    /// stands on it, or nothing where none does.
    pub proof fn lemma_cells_stand_apart(&self)
        requires
            self.wf(),
        ensures
            forall|i: int, j: int|
                0 <= i < self@.len() && 0 <= j < self@.len() && i != j ==> (#[trigger] self@[i]).position
                    != (#[trigger] self@[j]).position,
            forall|at: (usize, usize)|
                on_map(at) ==> #[trigger] self.occupancy().at(at) == match occupant(self@, at) {
                    Some(i) => Some(i as usize),
                    None => None,
                },
    {
        lemma_mirrored_positions_differ(self.grid, positions(self@));
        assert forall|i: int, j: int|
            0 <= i < self@.len() && 0 <= j < self@.len() && i != j implies (#[trigger] self@[i]).position
            != (#[trigger] self@[j]).position by {
            assert(positions(self@)[i] != positions(self@)[j]);
        }
        assert forall|at: (usize, usize)| on_map(at) implies #[trigger] self.occupancy().at(at)
            == match occupant(self@, at) {
            Some(i) => Some(i as usize),
            None => None,
        } by {
            self.lemma_slot_is_occupant(at);
        }
    }

    /// What the grid holds for a coordinate is the cell that stands there.
    proof fn lemma_slot_is_occupant(&self, at: (usize, usize))
        requires
            self.wf(),
            on_map(at),
        ensures
            self.grid.at(at) is Some == occupied(self@, at),
            self.grid.at(at) matches Some(i) ==> occupant(self@, at) == Some(i as int) && i
                < self@.len() && self@[i as int].position == at,
    {
        let places = positions(self@);
        lemma_mirrored_positions_differ(self.grid, places);
        match self.grid.at(at) {
            Some(i) => {
                let chosen = occupant(self@, at).unwrap();
                assert(places[chosen] == at);
            },
            None => {
                assert forall|i: int| 0 <= i < self@.len() implies (#[trigger] self@[i]).position
                    != at by {
                    assert(self.grid.at(places[i]) == Some(i as usize));
                }
            },
        }
    }

    /// Takes cell `i` out of the world: its coordinate becomes free, and the
    /// cells behind it move up by one index, on the grid as in the list.
    fn remove(&mut self, i: usize)
        requires
            old(self).wf(),
            i < old(self)@.len(),
        ensures
            final(self).wf(),
            final(self)@ == old(self)@.remove(i as int),
            final(self).nutrient() == old(self).nutrient(),
            final(self).pace() == old(self).pace(),
    {
        let ghost before = positions(self@);
        let ghost after = positions(self@.remove(i as int));
        proof {
            lemma_mirrored_positions_differ(self.grid, before);
            assert forall|j: int| 0 <= j < after.len() implies #[trigger] after[j] == before[if j
                < i {
                j
            } else {
                j + 1
            }] by {}
        }
        let at = self.cells[i].position;
        assert(at == before[i as int]);
        self.grid.set(at, None);
        self.cells.remove(i);
        let mut k: usize = i;
        while k < self.cells.len()
            invariant
                i <= k <= self.cells@.len(),
                self@ == old(self)@.remove(i as int),
                after == positions(self@),
                after.len() == self.cells@.len(),
                self.nutrient_medium == old(self).nutrient_medium,
                self.speed == old(self).speed,
                forall|j: int| 0 <= j < after.len() ==> on_map(#[trigger] after[j]),
                forall|a: int, b: int|
                    0 <= a < after.len() && 0 <= b < after.len() && a != b ==> #[trigger] after[a]
                        != #[trigger] after[b],
                forall|j: int| 0 <= j < k ==> self.grid.at(#[trigger] after[j]) == Some(j as usize),
                forall|j: int|
                    k <= j < after.len() ==> self.grid.at(#[trigger] after[j]) == Some(
                        (j + 1) as usize,
                    ),
                forall|x: usize, y: usize|
                    on_map((x, y)) ==> (#[trigger] self.grid.at((x, y)) matches Some(m) ==> (m < k
                        && after[m as int] == (x, y)) || (k < m <= after.len() && after[m - 1] == (
                        x,
                        y,
                    ))),
            decreases self.cells@.len() - k,
        {
            let here = self.cells[k].position;
            assert(here == after[k as int]);
            self.grid.set(here, Some(k));
            k += 1;
        }
    }

    /// Lets `child` join the end of the list, on a coordinate that is free.
    fn spawn(&mut self, child: Cell)
        requires
            old(self).wf(),
            child@.valid(),
            !occupied(old(self)@, child@.position),
        ensures
            final(self).wf(),
            final(self)@ == old(self)@.push(child@),
            final(self).nutrient() == old(self).nutrient(),
            final(self).pace() == old(self).pace(),
    {
        let at = child.position;
        proof {
            self.lemma_slot_is_occupant(at);
        }
        let index = self.cells.len();
        self.cells.push(child);
        self.grid.set(at, Some(index));
        assert(self.cells.len() == self.cells@.len());
        assert(self@ =~= old(self)@.push(child@));
        assert(positions(self@) =~= positions(old(self)@).push(at));
    }

    /// A world stays in order when one cell changes where it stands.
    proof fn lemma_changed_in_place(before: World, after: World, i: int)
        requires
            before.wf(),
            0 <= i < before@.len(),
            after@ =~= before@.update(i, after@[i]),
            after@[i].valid(),
            after@[i].position == before@[i].position,
            after.grid == before.grid,
            after.nutrient_medium == before.nutrient_medium,
        ensures
            after.wf(),
            forall|at: (usize, usize)| occupied(after@, at) == occupied(before@, at),
    {
        assert(positions(after@) =~= positions(before@));
        assert forall|at: (usize, usize)| occupied(after@, at) == occupied(before@, at) by {
            if occupied(before@, at) {
                let k = choose|k: int| 0 <= k < before@.len() && (#[trigger] before@[k]).position
                    == at;
                assert(after@[k].position == at);
            }
        }
    }

    /// Lets cell `i` execute its current instruction: see `acted`.
    pub fn act(&mut self, i: usize, plan: &Option<Mutation>)
        requires
            old(self).wf(),
            i < old(self)@.len(),
        ensures
            final(self).wf(),
            final(self)@ == acted(old(self)@, i as int, plan.deep_view()),
            final(self)@.len() >= old(self)@.len(),
            final(self).nutrient() == old(self).nutrient(),
            final(self).pace() == old(self).pace(),
    {
        assert(old(self)@[i as int].valid());
        self.cells[i].normalize();
        proof {
            Self::lemma_changed_in_place(*old(self), *self, i as int);
        }
        let ghost ready = *self;
        let gen = self.cells[i].instruction();
        match gen {
            Gen::SetDirection(delta) => {
                self.cells[i].to_rotate(delta);
                proof {
                    Self::lemma_changed_in_place(ready, *self, i as int);
                }
            },
            Gen::Reproduce => {
                let target = self.cells[i].facing();
                proof {
                    self.lemma_slot_is_occupant(target);
                }
                if self.grid.get(target).is_none() && self.cells[i].is_fertile() {
                    let mut child = self.cells[i].divide(target);
                    proof {
                        Self::lemma_changed_in_place(ready, *self, i as int);
                    }
                    match plan {
                        Some(mutation) => {
                            child.mutate_with(mutation);
                        },
                        None => {},
                    }
                    self.spawn(child);
                }
            },
            Gen::Attack => {
                let target = self.cells[i].facing();
                proof {
                    self.lemma_slot_is_occupant(target);
                }
                match self.grid.get(target) {
                    Some(j) => {
                        assert(occupant(old(self)@, target) == Some(j as int)) by {
                            let chosen = occupant(old(self)@, target).unwrap();
                            lemma_mirrored_positions_differ(ready.grid, positions(ready@));
                            assert(positions(ready@)[chosen] == target);
                        }
                        if self.cells[i].species != self.cells[j].species {
                            let damage = self.cells[i].damage;
                            let resistance = self.cells[j].resistance;
                            self.cells[j].suffer(damage);
                            proof {
                                Self::lemma_changed_in_place(ready, *self, j as int);
                            }
                            let ghost struck = *self;
                            self.cells[i].strike(resistance);
                            proof {
                                Self::lemma_changed_in_place(struck, *self, i as int);
                            }
                        }
                    },
                    None => {},
                }
            },
        }
    }

    /// Gives cell `i` its whole turn: its instruction, its metabolic
    /// update, its entry in the statistics, and the death check, which
    /// removes it if it fails. Tells whether the cell is still there, at
    /// index `i`; if it is not, the cell that followed it now has that
    /// index.
    pub fn step(&mut self, i: usize, plan: &Option<Mutation>, sums: &mut Info) -> (survived: bool)
        requires
            old(self).wf(),
            i < old(self)@.len(),
        ensures
            final(self).wf(),
            final(self)@ == stepped(
                old(self)@,
                i as int,
                plan.deep_view(),
                old(self).nutrient() as int,
            ),
            survived == survives(
                old(self)@,
                i as int,
                plan.deep_view(),
                old(self).nutrient() as int,
            ),
            *final(sums) == old(sums).tallied(
                measured(old(self)@, i as int, plan.deep_view(), old(self).nutrient() as int),
            ),
            final(self).nutrient() == old(self).nutrient(),
            final(self).pace() == old(self).pace(),
            survived ==> final(self)@.len() >= old(self)@.len(),
            !survived ==> final(self)@.len() + 1 >= old(self)@.len(),
            measured(
                old(self)@,
                i as int,
                plan.deep_view(),
                old(self).nutrient() as int,
            ).valid(),
    {
        self.act(i, plan);
        let ghost moved = *self;
        let nutrient = self.nutrient_medium;
        self.cells[i].metabolize(nutrient);
        proof {
            Self::lemma_changed_in_place(moved, *self, i as int);
        }
        sums.accumulate(&self.cells[i]);
        if self.cells[i].is_dead() {
            self.remove(i);
            false
        } else {
            true
        }
    }

    /// Advances the world by one tick. Each cell that is alive at the start
    /// has its turn, in order: see `step`. The offspring of the cell that
    /// acts as number `k` mutates as `plans[k]` says, and not at all where
    /// `plans` has no such entry. Offspring do not act in the tick of their
    /// birth. Returns the statistics of the tick.
    pub fn advance(&mut self, plans: &Vec<Option<Mutation>>) -> (info: Info)
        requires
            old(self).wf(),
        ensures
            final(self).wf(),
            final(self)@ == ticked(old(self)@, plans.deep_view(), old(self).nutrient() as int),
            info == surveyed(old(self)@, plans.deep_view(), old(self).nutrient() as int),
            final(self).nutrient() == old(self).nutrient(),
            final(self).pace() == old(self).pace(),
    {
        let turns = self.cells.len();
        let none: Option<Mutation> = None;
        let mut sums = Info::new();
        let ghost mut seen: Seq<CellView> = Seq::empty();
        let mut next: usize = 0;
        let mut turn: usize = 0;
        while turn < turns
            invariant
                self.wf(),
                turn <= turns,
                turns == old(self)@.len(),
                next <= turn,
                next + (turns - turn) <= self@.len(),
                none is None,
                self.nutrient_medium == old(self).nutrient_medium,
                self.speed == old(self).speed,
                swept(
                    old(self)@,
                    plans.deep_view(),
                    old(self).nutrient_medium as int,
                    turn as nat,
                ) == (Sweep { cells: self@, next: next as int }),
                seen == counted(
                    old(self)@,
                    plans.deep_view(),
                    old(self).nutrient_medium as int,
                    turn as nat,
                ),
                seen.len() == turn,
                forall|k: int| 0 <= k < seen.len() ==> (#[trigger] seen[k]).valid(),
                sums == Info::sums(seen),
            decreases turns - turn,
        {
            let plan = if turn < plans.len() {
                &plans[turn]
            } else {
                &none
            };
            proof {
                let one = measured(
                    self@,
                    next as int,
                    plan.deep_view(),
                    self.nutrient_medium as int,
                );
                lemma_tallied_sums(seen, one);
                seen = seen.push(one);
            }
            let survived = self.step(next, plan, &mut sums);
            if survived {
                next += 1;
            }
            turn += 1;
        }
        proof {
            lemma_averaged_sums(seen, next as int);
        }
        sums.average_over(next);
        sums
    }

    /// Advances the world by one tick, as `advance` does, with mutations
    /// that chance decides.
    pub fn tick(&mut self) -> (info: Info)
        requires
            old(self).wf(),
        ensures
            final(self).wf(),
            final(self).nutrient() == old(self).nutrient(),
            final(self).pace() == old(self).pace(),
            exists|plans: Seq<Option<MutationView>>|
                drawn(plans, old(self)@) && final(self)@ == #[trigger] ticked(
                    old(self)@,
                    plans,
                    old(self).nutrient() as int,
                ) && info == surveyed(old(self)@, plans, old(self).nutrient() as int),
    {
        let mut plans: Vec<Option<Mutation>> = Vec::new();
        while plans.len() < self.cells.len()
            invariant
                self.wf(),
                *self == *old(self),
                plans@.len() <= self.cells@.len(),
                forall|k: int|
                    0 <= k < plans@.len() ==> (#[trigger] plans@[k] matches Some(m) ==> m@.drawn_for(
                        self@[k].genome.len(),
                    )),
            decreases self.cells@.len() - plans@.len(),
        {
            let k = plans.len();
            assert(self@[k as int].valid());
            let plan = Mutation::draw(self.cells[k].genome.len());
            plans.push(plan);
        }
        self.advance(&plans)
    }

    /// Advances the world by as many ticks as its speed says, with
    /// mutations that chance decides. Returns the statistics of the last
    /// tick, or `None` at speed 0.
    pub fn run(&mut self) -> (info: Option<Info>)
        requires
            old(self).wf(),
        ensures
            final(self).wf(),
            final(self).nutrient() == old(self).nutrient(),
            final(self).pace() == old(self).pace(),
            exists|history: Seq<Seq<Option<MutationView>>>|
                {
                    &&& history.len() == old(self).pace()
                    &&& all_drawn(old(self)@, history, old(self).nutrient() as int)
                    &&& final(self)@ == #[trigger] ran(
                        old(self)@,
                        history,
                        old(self).nutrient() as int,
                    )
                    &&& info == last_survey(old(self)@, history, old(self).nutrient() as int)
                },
    {
        let mut info: Option<Info> = None;
        let ghost mut history: Seq<Seq<Option<MutationView>>> = Seq::empty();
        let mut done: usize = 0;
        while done < self.speed
            invariant
                self.wf(),
                done <= self.speed,
                self.nutrient_medium == old(self).nutrient_medium,
                self.speed == old(self).speed,
                history.len() == done,
                all_drawn(old(self)@, history, old(self).nutrient_medium as int),
                self@ == ran(old(self)@, history, old(self).nutrient_medium as int),
                info == last_survey(old(self)@, history, old(self).nutrient_medium as int),
            decreases self.speed - done,
        {
            let ghost before = self@;
            let latest = self.tick();
            proof {
                let plans = choose|plans: Seq<Option<MutationView>>|
                    drawn(plans, before) && self@ == #[trigger] ticked(
                        before,
                        plans,
                        old(self).nutrient_medium as int,
                    ) && latest == surveyed(before, plans, old(self).nutrient_medium as int);
                let longer = history.push(plans);
                assert(longer.drop_last() =~= history);
                history = longer;
            }
            info = Some(latest);
            done += 1;
        }
        info
    }
}

} // verus!
