//! How an offspring comes to differ from its parent.

use vstd::prelude::*;
use crate::cell::{Cell, CellView, Gen, AGE_LIMIT, ENERGY_FLOOR, TRAIT_LIMIT};
use crate::color::COLOR_STEP;
use crate::fixed::{limited_sum, UNIT};
use crate::random::random_between;
use crate::spec_limit;

verus! {

/// The length beyond which a genome is not allowed to grow.
pub const GENOME_CAP: usize = 20;

/// The number of lineage tags that a mutation chooses from.
pub const SPECIES_RANGE: usize = 1_000_000_000;

/// One offspring in this many mutates.
pub const MUTATION_ODDS: i64 = 100;

/// What a mutation does to the genome.
#[derive(Debug)]
pub enum GenomeChange {
    /// Add to the parameter of each `SetDirection` the delta at its index.
    Turn(Vec<i8>),
    /// Append one instruction.
    Append(Gen),
    /// Delete the instruction at an index.
    Delete(usize),
}

/// A genome change, with its deltas as a sequence.
#[verifier::ext_equal]
pub enum GenomeChangeView {
    Turn(Seq<i8>),
    Append(Gen),
    Delete(usize),
}

impl View for GenomeChange {
    type V = GenomeChangeView;

    open spec fn view(&self) -> GenomeChangeView {
        match self {
            GenomeChange::Turn(deltas) => GenomeChangeView::Turn(deltas@),
            GenomeChange::Append(gen) => GenomeChangeView::Append(*gen),
            GenomeChange::Delete(index) => GenomeChangeView::Delete(*index),
        }
    }
}

/// One mutation: a new lineage tag, a delta for each trait and each colour
/// channel, and a change to the genome.
#[derive(Debug)]
pub struct Mutation {
    pub species: usize,
    pub max_time_life: i8,
    pub min_mass: i64,
    pub min_mass_division: i64,
    pub max_mass: i64,
    pub damage: i64,
    pub resistance: i64,
    pub genome: GenomeChange,
    pub color: (i64, i64, i64),
}

/// A mutation, with its genome change as a view.
#[verifier::ext_equal]
pub struct MutationView {
    pub species: usize,
    pub max_time_life: i8,
    pub min_mass: i64,
    pub min_mass_division: i64,
    pub max_mass: i64,
    pub damage: i64,
    pub resistance: i64,
    pub genome: GenomeChangeView,
    pub color: (i64, i64, i64),
}

impl View for Mutation {
    type V = MutationView;

    open spec fn view(&self) -> MutationView {
        MutationView {
            species: self.species,
            max_time_life: self.max_time_life,
            min_mass: self.min_mass,
            min_mass_division: self.min_mass_division,
            max_mass: self.max_mass,
            damage: self.damage,
            resistance: self.resistance,
            genome: self.genome@,
            color: self.color,
        }
    }
}

impl DeepView for Mutation {
    type V = MutationView;

    open spec fn deep_view(&self) -> MutationView {
        self@
    }
}

/// A trait moved by `delta` and held within the limit.
pub open spec fn nudged(value: i64, delta: i64) -> i64 {
    spec_limit(-TRAIT_LIMIT as int, TRAIT_LIMIT as int, value + delta) as i64
}

/// The delta that `deltas` holds for the instruction at `index`: 0 past its
/// end.
pub open spec fn delta_at(deltas: Seq<i8>, index: int) -> i8 {
    if 0 <= index < deltas.len() {
        deltas[index]
    } else {
        0
    }
}

/// An instruction with `delta` added to its parameter, if it has one. The
/// sum wraps at the ends of the parameter's range, which leaves the facing
/// that the instruction turns to as the exact sum would.
pub open spec fn turned(gen: Gen, delta: i8) -> Gen {
    match gen {
        Gen::SetDirection(turn) => Gen::SetDirection(
            vstd::wrapping::i8_specs::wrapping_add(turn, delta),
        ),
        other => other,
    }
}

/// A genome with the delta at each index applied to the instruction there.
pub open spec fn retuned(genome: Seq<Gen>, deltas: Seq<i8>) -> Seq<Gen> {
    Seq::new(genome.len(), |i: int| turned(genome[i], delta_at(deltas, i)))
}

impl Gen {
    /// The instruction that a draw stands for: kind 0 is a turn by `turn`
    /// quarters, kind 1 a division, any other kind an attack.
    pub open spec fn drawn(kind: int, turn: i8) -> Gen {
        if kind == 0 {
            Gen::SetDirection(turn)
        } else if kind == 1 {
            Gen::Reproduce
        } else {
            Gen::Attack
        }
    }
}

impl GenomeChangeView {
    /// The genome change that a draw stands for: kind 0 retunes by
    /// `turns`, kind 1 appends `gen`, any other kind deletes at `index`.
    pub open spec fn drawn(kind: int, turns: Seq<i8>, gen: Gen, index: usize) -> GenomeChangeView {
        if kind == 0 {
            GenomeChangeView::Turn(turns)
        } else if kind == 1 {
            GenomeChangeView::Append(gen)
        } else {
            GenomeChangeView::Delete(index)
        }
    }
}

impl MutationView {
    /// Whether a roll out of `MUTATION_ODDS` means that the offspring
    /// mutates: only a roll of 0 does.
    pub open spec fn struck(roll: int) -> bool {
        roll == 0
    }

    /// What holds of every mutation drawn for a genome of the given length:
    /// the tag is below `SPECIES_RANGE`, the age threshold moves by at most
    /// one tick, each other trait by at most one unit, each colour channel
    /// by at most `COLOR_STEP`; a turn has a delta of at most one quarter for
    /// each instruction, an appended turn is by 0 to 3 quarters, and a
    /// deletion names an instruction of the genome.
    pub open spec fn drawn_for(self, genome_len: nat) -> bool {
        &&& self.species < SPECIES_RANGE
        &&& -1 <= self.max_time_life <= 1
        &&& -UNIT <= self.min_mass <= UNIT
        &&& -UNIT <= self.min_mass_division <= UNIT
        &&& -UNIT <= self.max_mass <= UNIT
        &&& -UNIT <= self.damage <= UNIT
        &&& -UNIT <= self.resistance <= UNIT
        &&& -COLOR_STEP <= self.color.0 <= COLOR_STEP
        &&& -COLOR_STEP <= self.color.1 <= COLOR_STEP
        &&& -COLOR_STEP <= self.color.2 <= COLOR_STEP
        &&& match self.genome {
            GenomeChangeView::Turn(deltas) => deltas.len() == genome_len && forall|i: int|
                0 <= i < deltas.len() ==> -1 <= #[trigger] deltas[i] <= 1,
            GenomeChangeView::Append(gen) => gen matches Gen::SetDirection(turn) ==> 0 <= turn
                < 4,
            GenomeChangeView::Delete(index) => index < genome_len,
        }
    }
}

impl CellView {
    /// This cell with the lineage tag, the traits and the colour that the
    /// mutation gives it, each trait held within its limit.
    pub open spec fn with_traits_of(self, m: MutationView) -> CellView {
        CellView {
            species: m.species,
            max_time_life: spec_limit(0, AGE_LIMIT as int, self.max_time_life + m.max_time_life)
                as usize,
            min_mass: nudged(self.min_mass, m.min_mass),
            min_mass_division: nudged(self.min_mass_division, m.min_mass_division),
            max_mass: nudged(self.max_mass, m.max_mass),
            damage: nudged(self.damage, m.damage),
            resistance: nudged(self.resistance, m.resistance),
            color: self.color.shifted(m.color.0 as int, m.color.1 as int, m.color.2 as int),
            ..self
        }
    }

    /// This cell with its energy at the floor, which marks it for death.
    pub open spec fn doomed(self) -> CellView {
        CellView { mass: ENERGY_FLOOR, ..self }
    }

    /// This cell after the mutation. Its tag, traits and colour change
    /// first. Then the genome: a turn retunes every `SetDirection`; an
    /// appended instruction dooms the cell if the genome then exceeds
    /// `GENOME_CAP`; a deletion removes the named instruction unless it is
    /// the only one, and dooms the cell if it was the only one or if damage
    /// or resistance have become negative.
    pub open spec fn mutated(self, m: MutationView) -> CellView {
        let changed = self.with_traits_of(m);
        match m.genome {
            GenomeChangeView::Turn(deltas) => CellView {
                genome: retuned(self.genome, deltas),
                ..changed
            },
            GenomeChangeView::Append(gen) => {
                let grown = CellView { genome: self.genome.push(gen), ..changed };
                if grown.genome.len() > GENOME_CAP {
                    grown.doomed()
                } else {
                    grown
                }
            },
            GenomeChangeView::Delete(index) => {
                let cut = if self.genome.len() > 1 && index < self.genome.len() {
                    CellView { genome: self.genome.remove(index as int), ..changed }
                } else {
                    changed
                };
                if self.genome.len() <= 1 || changed.damage < 0 || changed.resistance < 0 {
                    cut.doomed()
                } else {
                    cut
                }
            },
        }
    }

    /// This cell after the mutation, if there is one.
    pub open spec fn perhaps_mutated(self, plan: Option<MutationView>) -> CellView {
        match plan {
            Some(m) => self.mutated(m),
            None => self,
        }
    }
}

/// An age threshold moved by `delta` ticks and held from 0 to `AGE_LIMIT`.
fn nudge_age(value: usize, delta: i8) -> (r: usize)
    ensures
        r == spec_limit(0, AGE_LIMIT as int, value + delta),
{
    let moved: i128 = value as i128 + delta as i128;
    if moved < 0 {
        0
    } else if moved > AGE_LIMIT as i128 {
        AGE_LIMIT
    } else {
        moved as usize
    }
}

/// A random delta for every instruction of a genome of the given length.
fn draw_turns(genome_len: usize) -> (deltas: Vec<i8>)
    ensures
        deltas@.len() == genome_len,
        forall|i: int| 0 <= i < deltas@.len() ==> -1 <= #[trigger] deltas@[i] <= 1,
{
    let mut deltas: Vec<i8> = Vec::new();
    while deltas.len() < genome_len
        invariant
            deltas@.len() <= genome_len,
            forall|i: int| 0 <= i < deltas@.len() ==> -1 <= #[trigger] deltas@[i] <= 1,
        decreases genome_len - deltas@.len(),
    {
        let delta = random_between(-1, 1);
        deltas.push(delta as i8);
    }
    deltas
}

/// A random instruction: each kind is as likely as the others, and a turn
/// is by 0 to 3 quarters. Which instruction a draw stands for is for
/// `Gen::from_draw` to say.
fn draw_gen() -> (gen: Gen)
    ensures
        gen matches Gen::SetDirection(turn) ==> 0 <= turn < 4,
{
    let kind = random_between(0, 2);
    let turn = random_between(0, 3) as i8;
    Gen::from_draw(kind, turn)
}

/// The largest index that a deletion in a genome of the given length is
/// drawn from.
fn last_index(genome_len: usize) -> (last: i64)
    requires
        genome_len > 0,
    ensures
        last == spec_limit(0, i64::MAX as int, genome_len - 1),
{
    let last = (genome_len - 1) as u64;
    if last <= i64::MAX as u64 {
        last as i64
    } else {
        i64::MAX
    }
}

impl Gen {
    /// The instruction that a draw of a kind and of a turn stands for.
    pub fn from_draw(kind: i64, turn: i8) -> (gen: Gen)
        ensures
            gen == Gen::drawn(kind as int, turn),
    {
        if kind == 0 {
            Gen::SetDirection(turn)
        } else if kind == 1 {
            Gen::Reproduce
        } else {
            Gen::Attack
        }
    }
}

impl GenomeChange {
    /// The genome change that a draw of a kind stands for, made of what
    /// was drawn for each of the three kinds.
    pub fn from_draw(kind: i64, turns: Vec<i8>, gen: Gen, index: usize) -> (change: GenomeChange)
        ensures
            change@ == GenomeChangeView::drawn(kind as int, turns@, gen, index),
    {
        if kind == 0 {
            GenomeChange::Turn(turns)
        } else if kind == 1 {
            GenomeChange::Append(gen)
        } else {
            GenomeChange::Delete(index)
        }
    }
}

impl Mutation {
    /// Whether a roll out of `MUTATION_ODDS` means that the offspring
    /// mutates.
    pub fn strikes(roll: i64) -> (b: bool)
        ensures
            b == MutationView::struck(roll as int),
    {
        roll == 0
    }

    /// Decides at random whether an offspring with a genome of the given
    /// length mutates, which happens once in `MUTATION_ODDS` times, and if
    /// so how: each delta is uniform over its range, and the three ways of
    /// changing the genome are equally likely. What a roll and a draw of a
    /// kind stand for is for `strikes` and `GenomeChange::from_draw` to say.
    pub fn draw(genome_len: usize) -> (plan: Option<Mutation>)
        requires
            genome_len > 0,
        ensures
            plan matches Some(m) ==> m@.drawn_for(genome_len as nat),
    {
        if !Mutation::strikes(random_between(0, MUTATION_ODDS - 1)) {
            return None;
        }
        let species = random_between(0, SPECIES_RANGE as i64 - 1) as usize;
        let max_time_life = random_between(-1, 1) as i8;
        let min_mass = random_between(-UNIT, UNIT);
        let min_mass_division = random_between(-UNIT, UNIT);
        let max_mass = random_between(-UNIT, UNIT);
        let damage = random_between(-UNIT, UNIT);
        let resistance = random_between(-UNIT, UNIT);
        let genome = GenomeChange::from_draw(
            random_between(0, 2),
            draw_turns(genome_len),
            draw_gen(),
            random_between(0, last_index(genome_len)) as usize,
        );
        let color = (
            random_between(-COLOR_STEP, COLOR_STEP),
            random_between(-COLOR_STEP, COLOR_STEP),
            random_between(-COLOR_STEP, COLOR_STEP),
        );
        Some(
            Mutation {
                species,
                max_time_life,
                min_mass,
                min_mass_division,
                max_mass,
                damage,
                resistance,
                genome,
                color,
            },
        )
    }
}

impl Cell {
    /// Adds to the parameter of each `SetDirection` the delta at its index.
    fn retune(&mut self, deltas: &Vec<i8>)
        ensures
            final(self)@ == (CellView { genome: retuned(old(self)@.genome, deltas@), ..old(self)@ }),
    {
        let mut i: usize = 0;
        while i < self.genome.len()
            invariant
                i <= self.genome@.len(),
                self.genome@.len() == old(self).genome@.len(),
                self@ == (CellView { genome: self.genome@, ..old(self)@ }),
                forall|k: int|
                    0 <= k < i ==> self.genome@[k] == turned(
                        #[trigger] old(self).genome@[k],
                        delta_at(deltas@, k),
                    ),
                forall|k: int|
                    i <= k < self.genome@.len() ==> self.genome@[k] == #[trigger] old(
                        self,
                    ).genome@[k],
            decreases self.genome@.len() - i,
        {
            let delta: i8 = if i < deltas.len() {
                deltas[i]
            } else {
                0
            };
            match self.genome[i] {
                Gen::SetDirection(turn) => {
                    self.genome[i] = Gen::SetDirection(turn.wrapping_add(delta));
                },
                _ => {},
            }
            i += 1;
        }
    }

    /// Applies the mutation: see `CellView::mutated`. The genome never
    /// becomes empty, and a cell that the rules can be applied to stays one.
    pub fn mutate_with(&mut self, plan: &Mutation)
        ensures
            final(self)@ == old(self)@.mutated(plan@),
            old(self)@.genome.len() > 0 ==> final(self)@.genome.len() > 0,
            old(self)@.valid() ==> final(self)@.valid(),
    {
        let only = self.genome.len() <= 1;
        self.species = plan.species;
        self.max_time_life = nudge_age(self.max_time_life, plan.max_time_life);
        self.min_mass = limited_sum(-TRAIT_LIMIT, TRAIT_LIMIT, self.min_mass, plan.min_mass);
        self.min_mass_division = limited_sum(
            -TRAIT_LIMIT,
            TRAIT_LIMIT,
            self.min_mass_division,
            plan.min_mass_division,
        );
        self.max_mass = limited_sum(-TRAIT_LIMIT, TRAIT_LIMIT, self.max_mass, plan.max_mass);
        self.damage = limited_sum(-TRAIT_LIMIT, TRAIT_LIMIT, self.damage, plan.damage);
        self.resistance = limited_sum(-TRAIT_LIMIT, TRAIT_LIMIT, self.resistance, plan.resistance);
        self.color.shift(plan.color.0, plan.color.1, plan.color.2);
        match &plan.genome {
            GenomeChange::Turn(deltas) => {
                self.retune(deltas);
            },
            GenomeChange::Append(gen) => {
                self.genome.push(*gen);
                if self.genome.len() > GENOME_CAP {
                    self.mass = ENERGY_FLOOR;
                }
            },
            GenomeChange::Delete(index) => {
                if !only && *index < self.genome.len() {
                    self.genome.remove(*index);
                }
                if only || self.damage < 0 || self.resistance < 0 {
                    self.mass = ENERGY_FLOOR;
                }
            },
        }
    }

    /// Lets chance decide whether and how the cell mutates. It is meant for
    /// an offspring just made.
    pub fn mutate(&mut self)
        requires
            old(self).genome@.len() > 0,
        ensures
            final(self)@ == old(self)@ || exists|m: MutationView|
                m.drawn_for(old(self)@.genome.len()) && final(self)@ == #[trigger] old(
                    self,
                )@.mutated(m),
            final(self)@.genome.len() > 0,
            old(self)@.valid() ==> final(self)@.valid(),
    {
        match Mutation::draw(self.genome.len()) {
            Some(plan) => {
                self.mutate_with(&plan);
            },
            None => {},
        }
    }
}

} // verus!
