//! One organism: its traits, its genome, and the rules by which it turns,
//! feeds, divides, fights and dies.

use vstd::prelude::*;
use crate::color::ColorCell;
use crate::fixed::{quotient, ratio, spec_ratio, RATIO_RANGE};
use crate::limit;
use crate::spec_limit;
use crate::world::{MAP_HEIGHT, MAP_WIDTH};

verus! {

/// The age threshold of the founding lineage, in ticks.
pub const DEFAULT_MAX_TIME_LIFE: usize = 13;

/// The death threshold of the founding lineage: the baseline that upkeep
/// sets a cell's own death threshold against.
pub const DEFAULT_MIN_MASS: i64 = 12_000;

/// The energy that a founding cell starts with.
pub const DEFAULT_MASS: i64 = 25_000;

/// The energy ceiling of the founding lineage: the baseline that upkeep
/// sets a cell's own ceiling against.
pub const DEFAULT_MAX_MASS: i64 = 30_000;

/// The division threshold of the founding lineage.
pub const DEFAULT_MIN_MASS_DIVISION: i64 = 26_000;

/// The damage of the founding lineage.
pub const DEFAULT_DAMAGE: i64 = 1_000;

/// The resistance of the founding lineage.
pub const DEFAULT_RESISTANCE: i64 = 1_000;

/// The largest magnitude of a threshold, of a combat strength and of the
/// nutrient level; also the most energy that a cell can hold.
pub const TRAIT_LIMIT: i64 = 1_000_000_000_000;

/// The least energy that a cell can hold. A cell at the floor is beyond
/// rescue: see `lemma_floor_is_fatal`.
pub const ENERGY_FLOOR: i64 = -1_000_000_000_000_000_000;

/// The largest age threshold.
pub const AGE_LIMIT: usize = 1_000_000_000;

/// One instruction of a genome.
#[derive(Clone, Copy, Debug, PartialEq, Eq)]
pub enum Gen {
    /// Turn by the given number of quarter turns.
    SetDirection(i8),
    /// Try to place an offspring on the coordinate ahead.
    Reproduce,
    /// Try to strike the cell on the coordinate ahead.
    Attack,
}

/// A cell. Energies (`mass` and the three `*_mass*` thresholds) and the two
/// combat strengths are in thousandths.
#[derive(Debug)]
pub struct Cell {
    /// The lineage tag: cells with equal tags do not fight.
    pub species: usize,
    pub position: (usize, usize),
    pub color: ColorCell,
    /// The facing, in quarter turns: 0 looks toward larger `x`, 1 toward
    /// larger `y`, 2 toward smaller `x`, 3 toward smaller `y`.
    pub direction: i8,
    /// Ticks since birth or since the last division.
    pub time_life: usize,
    /// The age beyond which the cell dies.
    pub max_time_life: usize,
    /// The energy below which the cell dies.
    pub min_mass: i64,
    /// The energy that the cell holds.
    pub mass: i64,
    /// The most energy that feeding leaves the cell with.
    pub max_mass: i64,
    /// The energy that the cell must exceed to divide.
    pub min_mass_division: i64,
    pub damage: i64,
    pub resistance: i64,
    /// The program counter: the index of the next instruction.
    pub step: usize,
    pub genome: Vec<Gen>,
}

/// What a cell is, with its genome as a sequence.
#[verifier::ext_equal]
pub struct CellView {
    pub species: usize,
    pub position: (usize, usize),
    pub color: ColorCell,
    pub direction: i8,
    pub time_life: usize,
    pub max_time_life: usize,
    pub min_mass: i64,
    pub mass: i64,
    pub max_mass: i64,
    pub min_mass_division: i64,
    pub damage: i64,
    pub resistance: i64,
    pub step: usize,
    pub genome: Seq<Gen>,
}

impl DeepView for Cell {
    type V = CellView;

    open spec fn deep_view(&self) -> CellView {
        self@
    }
}

impl View for Cell {
    type V = CellView;

    open spec fn view(&self) -> CellView {
        CellView {
            species: self.species,
            position: self.position,
            color: self.color,
            direction: self.direction,
            time_life: self.time_life,
            max_time_life: self.max_time_life,
            min_mass: self.min_mass,
            mass: self.mass,
            max_mass: self.max_mass,
            min_mass_division: self.min_mass_division,
            damage: self.damage,
            resistance: self.resistance,
            step: self.step,
            genome: self.genome@,
        }
    }
}

/// Whether `v` is a threshold or strength within the limit.
pub open spec fn within_limit(v: i64) -> bool {
    -TRAIT_LIMIT <= v <= TRAIT_LIMIT
}

/// An energy held between the floor and the limit.
pub open spec fn settled(energy: int) -> int {
    spec_limit(ENERGY_FLOOR as int, TRAIT_LIMIT as int, energy)
}

/// What a cell in row `y` takes in during one tick at the given nutrient
/// level: all of it in row 0, less in proportion with each row further in.
pub open spec fn income(nutrient: int, y: int) -> int {
    quotient(nutrient * (MAP_HEIGHT - y), MAP_HEIGHT as int)
}

/// The coordinate one step from `position` in `direction`, held to the grid:
/// at an edge it is `position` itself.
pub open spec fn spec_ahead(position: (usize, usize), direction: i8) -> (usize, usize) {
    let (x, y) = position;
    if direction == 0 {
        (spec_limit(0, MAP_WIDTH - 1, x + 1) as usize, y)
    } else if direction == 1 {
        (x, spec_limit(0, MAP_HEIGHT - 1, y + 1) as usize)
    } else if direction == 2 {
        (spec_limit(0, MAP_WIDTH - 1, x - 1) as usize, y)
    } else if direction == 3 {
        (x, spec_limit(0, MAP_HEIGHT - 1, y - 1) as usize)
    } else {
        position
    }
}

impl CellView {
    /// The cell that `Cell::new` makes at `position`.
    pub open spec fn fresh(position: (usize, usize)) -> CellView {
        CellView {
            species: 0,
            position,
            color: ColorCell { r: 1000, g: 1000, b: 1000 },
            direction: 0,
            time_life: 0,
            max_time_life: DEFAULT_MAX_TIME_LIFE,
            min_mass: DEFAULT_MIN_MASS,
            mass: DEFAULT_MASS,
            max_mass: DEFAULT_MAX_MASS,
            min_mass_division: DEFAULT_MIN_MASS_DIVISION,
            damage: DEFAULT_DAMAGE,
            resistance: DEFAULT_RESISTANCE,
            step: 0,
            genome: seq![Gen::SetDirection(1), Gen::Reproduce],
        }
    }

    /// What the rules take for granted of a cell: it stands on the grid,
    /// faces one of the four ways, has at least one instruction, and its
    /// traits and energy are within their limits.
    pub open spec fn valid(self) -> bool {
        &&& self.position.0 < MAP_WIDTH
        &&& self.position.1 < MAP_HEIGHT
        &&& 0 <= self.direction < 4
        &&& self.max_time_life <= AGE_LIMIT
        &&& within_limit(self.min_mass)
        &&& within_limit(self.max_mass)
        &&& within_limit(self.min_mass_division)
        &&& within_limit(self.damage)
        &&& within_limit(self.resistance)
        &&& ENERGY_FLOOR <= self.mass <= TRAIT_LIMIT
        &&& self.genome.len() > 0
    }

    /// The program counter brought into range: a counter at or past the end
    /// of the genome counts as 0.
    pub open spec fn counter(self) -> int {
        if self.step < self.genome.len() {
            self.step as int
        } else {
            0
        }
    }

    /// This cell with its program counter brought into range.
    pub open spec fn normalized(self) -> CellView {
        CellView { step: self.counter() as usize, ..self }
    }

    /// The instruction that the cell executes next.
    pub open spec fn instruction(self) -> Gen {
        self.genome[self.counter()]
    }

    /// This cell turned by `delta` quarter turns.
    pub open spec fn rotated(self, delta: int) -> CellView {
        CellView { direction: ((self.direction + delta) % 4) as i8, ..self }
    }

    /// The coordinate that the cell faces.
    pub open spec fn facing(self) -> (usize, usize) {
        spec_ahead(self.position, self.direction)
    }

    /// The energy that one tick costs the cell: the baseline death threshold
    /// over the cell's own, plus the cell's energy ceiling over the baseline
    /// ceiling, plus the cell's age over its age threshold. There is no such
    /// sum where the cell's death threshold or its age threshold is zero.
    pub open spec fn upkeep(self) -> Option<int> {
        if self.min_mass == 0 || self.max_time_life == 0 {
            None
        } else {
            Some(
                spec_ratio(DEFAULT_MIN_MASS as int, self.min_mass as int) + spec_ratio(
                    self.max_mass as int,
                    DEFAULT_MAX_MASS as int,
                ) + spec_ratio(self.time_life as int, self.max_time_life as int),
            )
        }
    }

    /// This cell one tick older, with its program counter moved on.
    pub open spec fn older(self) -> CellView {
        CellView {
            time_life: if self.time_life < usize::MAX {
                (self.time_life + 1) as usize
            } else {
                self.time_life
            },
            step: if self.step + 1 < self.genome.len() {
                (self.step + 1) as usize
            } else {
                0
            },
            ..self
        }
    }

    /// The energy that the cell holds after being fed at the given nutrient
    /// level and paying its upkeep: never more than its ceiling. A cell with
    /// no upkeep to state drops to the floor.
    pub open spec fn fed_mass(self, nutrient: int) -> int {
        match self.upkeep() {
            Some(cost) => spec_limit(
                ENERGY_FLOOR as int,
                self.max_mass as int,
                self.mass + income(nutrient, self.position.1 as int) - cost,
            ),
            None => ENERGY_FLOOR as int,
        }
    }

    /// This cell after the metabolic update of one tick: older, its program
    /// counter moved on, fed, charged for its upkeep at the new age.
    pub open spec fn nourished(self, nutrient: int) -> CellView {
        CellView { mass: self.older().fed_mass(nutrient) as i64, ..self.older() }
    }

    /// Whether the cell fails the death check: too old, or short of energy.
    pub open spec fn expired(self) -> bool {
        self.time_life > self.max_time_life || self.mass < self.min_mass
    }

    /// Whether the cell holds enough energy to divide.
    pub open spec fn fertile(self) -> bool {
        self.mass > self.min_mass_division
    }

    /// A parent just after division: age 0 and half the energy.
    pub open spec fn divided(self) -> CellView {
        CellView { time_life: 0, mass: quotient(self.mass as int, 2) as i64, ..self }
    }

    /// The offspring of a division, before mutation: the parent's copy at
    /// `target`, with age 0, half the parent's energy, and its program
    /// counter at the start.
    pub open spec fn offspring(self, target: (usize, usize)) -> CellView {
        CellView { position: target, step: 0, ..self.divided() }
    }

    /// An attacker after striking a cell of the given resistance: it gains
    /// its damage less that resistance, whatever the sign.
    pub open spec fn after_striking(self, resistance: int) -> CellView {
        CellView { mass: settled(self.mass + (self.damage - resistance)) as i64, ..self }
    }

    /// A victim after being struck with the given damage: it loses what of
    /// the damage exceeds its resistance, and never gains.
    pub open spec fn after_struck(self, damage: int) -> CellView {
        if damage > self.resistance {
            CellView { mass: settled(self.mass - (damage - self.resistance)) as i64, ..self }
        } else {
            self
        }
    }

    /// Whether the cell would fight `other`: only across lineages.
    pub open spec fn hostile_to(self, other: CellView) -> bool {
        self.species != other.species
    }
}

/// The coordinate one step from `position` in `direction`, held to the grid.
pub fn ahead(position: (usize, usize), direction: i8) -> (target: (usize, usize))
    requires
        position.0 < MAP_WIDTH,
        position.1 < MAP_HEIGHT,
    ensures
        target == spec_ahead(position, direction),
        target.0 < MAP_WIDTH,
        target.1 < MAP_HEIGHT,
{
    let (x, y) = position;
    if direction == 0 {
        (limit(0, (MAP_WIDTH - 1) as i64, x as i64 + 1) as usize, y)
    } else if direction == 1 {
        (x, limit(0, (MAP_HEIGHT - 1) as i64, y as i64 + 1) as usize)
    } else if direction == 2 {
        (limit(0, (MAP_WIDTH - 1) as i64, x as i64 - 1) as usize, y)
    } else if direction == 3 {
        (x, limit(0, (MAP_HEIGHT - 1) as i64, y as i64 - 1) as usize)
    } else {
        position
    }
}

/// Whether `v` is a threshold or strength within the limit.
fn is_within_limit(v: i64) -> (b: bool)
    ensures
        b == within_limit(v),
{
    -TRAIT_LIMIT <= v && v <= TRAIT_LIMIT
}

/// An energy held between the floor and `ceiling`.
fn settle(energy: i128, ceiling: i64) -> (r: i64)
    requires
        ENERGY_FLOOR <= ceiling,
    ensures
        r == spec_limit(ENERGY_FLOOR as int, ceiling as int, energy as int),
{
    if energy < ENERGY_FLOOR as i128 {
        ENERGY_FLOOR
    } else if energy > ceiling as i128 {
        ceiling
    } else {
        energy as i64
    }
}

impl Clone for Cell {
    fn clone(&self) -> (c: Self)
        ensures
            c@ == self@,
    {
        let mut genome: Vec<Gen> = Vec::new();
        let mut i: usize = 0;
        while i < self.genome.len()
            invariant
                i <= self.genome.len(),
                genome@ == self.genome@.subrange(0, i as int),
            decreases self.genome.len() - i,
        {
            genome.push(self.genome[i]);
            i += 1;
        }
        Cell {
            species: self.species,
            position: self.position,
            color: self.color,
            direction: self.direction,
            time_life: self.time_life,
            max_time_life: self.max_time_life,
            min_mass: self.min_mass,
            mass: self.mass,
            max_mass: self.max_mass,
            min_mass_division: self.min_mass_division,
            damage: self.damage,
            resistance: self.resistance,
            step: self.step,
            genome,
        }
    }
}

impl Cell {
    /// A cell of the founding lineage at `pos`: white, facing toward larger
    /// `x`, with the default traits and the genome "turn a quarter, divide".
    pub fn new(pos: (usize, usize)) -> (c: Self)
        ensures
            c@ == CellView::fresh(pos),
    {
        let c = Self {
            species: 0,
            position: pos,
            color: ColorCell::new(1000, 1000, 1000),
            direction: 0,
            time_life: 0,
            max_time_life: DEFAULT_MAX_TIME_LIFE,
            min_mass: DEFAULT_MIN_MASS,
            mass: DEFAULT_MASS,
            max_mass: DEFAULT_MAX_MASS,
            min_mass_division: DEFAULT_MIN_MASS_DIVISION,
            damage: DEFAULT_DAMAGE,
            resistance: DEFAULT_RESISTANCE,
            step: 0,
            genome: vec![Gen::SetDirection(1), Gen::Reproduce],
        };
        c
    }

    /// Whether the rules can be applied to this cell.
    pub fn is_valid(&self) -> (b: bool)
        ensures
            b == self@.valid(),
    {
        self.position.0 < MAP_WIDTH && self.position.1 < MAP_HEIGHT && 0 <= self.direction
            && self.direction < 4 && self.max_time_life <= AGE_LIMIT && is_within_limit(
            self.min_mass,
        ) && is_within_limit(self.max_mass) && is_within_limit(self.min_mass_division)
            && is_within_limit(self.damage) && is_within_limit(self.resistance) && ENERGY_FLOOR
            <= self.mass && self.mass <= TRAIT_LIMIT && self.genome.len() > 0
    }

    /// Turns the cell by `direction` quarter turns. The new facing is one of
    /// 0, 1, 2, 3 whatever the sign and size of the turn.
    pub fn to_rotate(&mut self, direction: i8)
        ensures
            final(self)@ == old(self)@.rotated(direction as int),
            0 <= final(self).direction < 4,
    {
        let turned: i16 = (self.direction as i16 + direction as i16) % 4;
        self.direction = if turned < 0 {
            (turned + 4) as i8
        } else {
            turned as i8
        };
    }

    /// Brings the program counter into range: one at or past the end of the
    /// genome goes back to 0.
    pub fn normalize(&mut self)
        requires
            old(self).genome@.len() > 0,
        ensures
            final(self)@ == old(self)@.normalized(),
            0 <= final(self).step < final(self).genome@.len(),
    {
        if self.step >= self.genome.len() {
            self.step = 0;
        }
    }

    /// The instruction that the cell executes next.
    pub fn instruction(&self) -> (g: Gen)
        requires
            self.genome@.len() > 0,
        ensures
            g == self@.instruction(),
    {
        if self.step < self.genome.len() {
            self.genome[self.step]
        } else {
            self.genome[0]
        }
    }

    /// The coordinate that the cell faces.
    pub fn facing(&self) -> (target: (usize, usize))
        requires
            self.position.0 < MAP_WIDTH,
            self.position.1 < MAP_HEIGHT,
        ensures
            target == self@.facing(),
            target.0 < MAP_WIDTH,
            target.1 < MAP_HEIGHT,
    {
        ahead(self.position, self.direction)
    }

    /// The energy that one tick costs the cell, or `None` where its death
    /// threshold or its age threshold is zero.
    pub fn consume(&self) -> (cost: Option<i128>)
        ensures
            cost.is_some() == self@.upkeep().is_some(),
            cost matches Some(c) ==> self@.upkeep() == Some(c as int) && -RATIO_RANGE <= c
                <= RATIO_RANGE,
    {
        if self.min_mass == 0 || self.max_time_life == 0 {
            None
        } else {
            let threshold = ratio(DEFAULT_MIN_MASS as i128, self.min_mass as i128);
            let ceiling = ratio(self.max_mass as i128, DEFAULT_MAX_MASS as i128);
            let age = ratio(self.time_life as i128, self.max_time_life as i128);
            Some(threshold + ceiling + age)
        }
    }

    /// Whether the cell fails the death check.
    pub fn is_dead(&self) -> (b: bool)
        ensures
            b == self@.expired(),
    {
        self.time_life > self.max_time_life || self.mass < self.min_mass
    }

    /// Whether the cell holds enough energy to divide.
    pub fn is_fertile(&self) -> (b: bool)
        ensures
            b == self@.fertile(),
    {
        self.mass > self.min_mass_division
    }

    /// The metabolic update of one tick: the cell grows a tick older, its
    /// program counter moves on and wraps at the end of the genome, and it
    /// takes in what its row yields at the given nutrient level, less its
    /// upkeep. Its energy ends at or under its ceiling.
    pub fn metabolize(&mut self, nutrient: i64)
        requires
            old(self)@.valid(),
            within_limit(nutrient),
        ensures
            final(self)@ == old(self)@.nourished(nutrient as int),
            final(self)@.valid(),
            final(self).mass <= final(self).max_mass,
    {
        if self.time_life < usize::MAX {
            self.time_life += 1;
        }
        if self.step < self.genome.len() - 1 {
            self.step += 1;
        } else {
            self.step = 0;
        }
        let rows = (MAP_HEIGHT - self.position.1) as i128;
        assert(-50 * TRAIT_LIMIT <= nutrient * rows <= 50 * TRAIT_LIMIT) by (nonlinear_arith)
            requires
                -TRAIT_LIMIT <= nutrient <= TRAIT_LIMIT,
                0 < rows <= 50,
        ;
        let gain = (nutrient as i128 * rows) / (MAP_HEIGHT as i128);
        self.mass = match self.consume() {
            Some(cost) => settle(self.mass as i128 + gain - cost, self.max_mass),
            None => ENERGY_FLOOR,
        };
    }

    /// Divides the cell: it keeps half of its energy and starts a new age;
    /// the offspring, handed back before any mutation, is its copy at
    /// `target` with the other half, age 0 and its program counter at the
    /// start.
    pub fn divide(&mut self, target: (usize, usize)) -> (child: Cell)
        ensures
            final(self)@ == old(self)@.divided(),
            child@ == old(self)@.offspring(target),
    {
        self.time_life = 0;
        self.mass = self.mass / 2;
        let mut child = self.clone();
        child.position = target;
        child.step = 0;
        child
    }

    /// Strikes `victim` if it is of another lineage: the attacker gains its
    /// damage less the victim's resistance, whatever the sign; the victim
    /// loses that much only where the damage exceeds its resistance. Within
    /// one lineage nothing happens.
    pub fn attack(&mut self, victim: &mut Cell)
        ensures
            old(self)@.hostile_to(old(victim)@) ==> final(self)@ == old(self)@.after_striking(
                old(victim).resistance as int,
            ) && final(victim)@ == old(victim)@.after_struck(old(self).damage as int),
            !old(self)@.hostile_to(old(victim)@) ==> final(self)@ == old(self)@ && final(victim)@
                == old(victim)@,
    {
        if self.species != victim.species {
            let damage = self.damage;
            self.strike(victim.resistance);
            victim.suffer(damage);
        }
    }

    /// Takes the attacker's share of a strike at a cell of the given
    /// resistance.
    pub fn strike(&mut self, resistance: i64)
        ensures
            final(self)@ == old(self)@.after_striking(resistance as int),
    {
        self.mass = settle(
            self.mass as i128 + (self.damage as i128 - resistance as i128),
            TRAIT_LIMIT,
        );
    }

    /// Takes the victim's share of a strike of the given damage.
    pub fn suffer(&mut self, damage: i64)
        ensures
            final(self)@ == old(self)@.after_struck(damage as int),
    {
        if damage > self.resistance {
            self.mass = settle(
                self.mass as i128 - (damage as i128 - self.resistance as i128),
                TRAIT_LIMIT,
            );
        }
    }
}

} // verus!
