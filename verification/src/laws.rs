//! What holds of the rules for every cell and every population.

use vstd::prelude::*;
use crate::cell::{CellView, DEFAULT_MAX_MASS, DEFAULT_MIN_MASS, ENERGY_FLOOR, TRAIT_LIMIT};
use crate::fixed::{lemma_quotient_rounds_toward_zero, UNIT};
use crate::mutation::MutationView;
use crate::filters::Filters;
use crate::rules::{
    acted, occupied, plan_at, ran, stepped, surveyed, survives, survivors, swept, ticked,
};
use crate::world::MAP_HEIGHT;

verus! {

/// Once the program counter is brought into range it names an instruction
/// of the genome, and doing so a second time changes nothing.
pub proof fn lemma_normalized_counter_in_range(cell: CellView)
    requires
        cell.genome.len() > 0,
    ensures
        0 <= cell.normalized().step < cell.genome.len(),
        cell.normalized().normalized() == cell.normalized(),
        cell.normalized().instruction() == cell.instruction(),
{
}

/// A turn leaves the cell facing one of the four ways, whatever it faced
/// before and whatever the sign and size of the turn; and turns add up.
pub proof fn lemma_rotation_stays_in_range(cell: CellView, delta: int, more: int)
    ensures
        0 <= cell.rotated(delta).direction < 4,
        cell.rotated(delta).rotated(more) == cell.rotated(delta + more),
        0 <= cell.direction < 4 ==> cell.rotated(0) == cell,
{
    let first = (cell.direction + delta) % 4;
    assert((first + more) % 4 == (cell.direction + delta + more) % 4) by (nonlinear_arith)
        requires
            first == (cell.direction + delta) % 4,
    ;
}

/// The metabolic update never leaves a cell with more energy than its
/// ceiling, and leaves it a cell that the rules can be applied to.
pub proof fn lemma_fed_within_ceiling(cell: CellView, nutrient: int)
    requires
        cell.valid(),
    ensures
        cell.nourished(nutrient).mass <= cell.nourished(nutrient).max_mass,
        cell.nourished(nutrient).valid(),
{
}

/// A mutation never leaves a genome empty. One that would delete the only
/// instruction keeps the genome and puts the cell's energy at the floor.
pub proof fn lemma_genome_never_empties(cell: CellView, mutation: MutationView)
    requires
        cell.genome.len() > 0,
    ensures
        cell.mutated(mutation).genome.len() > 0,
        cell.genome.len() == 1 && mutation.genome is Delete ==> cell.mutated(mutation).genome
            == cell.genome && cell.mutated(mutation).mass == ENERGY_FLOOR,
{
}

/// A cell whose energy is at the floor does not survive its next turn:
/// whatever its instruction, its neighbours and the nutrient level, the
/// death check of that turn removes it.
pub proof fn lemma_floor_is_fatal(
    cells: Seq<CellView>,
    i: int,
    plan: Option<MutationView>,
    nutrient: int,
)
    requires
        0 <= i < cells.len(),
        forall|k: int| 0 <= k < cells.len() ==> (#[trigger] cells[k]).valid(),
        -TRAIT_LIMIT <= nutrient <= TRAIT_LIMIT,
        cells[i].mass == ENERGY_FLOOR,
    ensures
        !survives(cells, i, plan, nutrient),
{
    let me = cells[i];
    let after = acted(cells, i, plan)[i];
    assert(after.mass <= ENERGY_FLOOR + 2 * TRAIT_LIMIT && after.min_mass == me.min_mass
        && after.max_mass == me.max_mass && after.position == me.position);
    let older = after.older();
    let rows = MAP_HEIGHT - older.position.1;
    assert(-50 * TRAIT_LIMIT <= nutrient * rows <= 50 * TRAIT_LIMIT) by (nonlinear_arith)
        requires
            -TRAIT_LIMIT <= nutrient <= TRAIT_LIMIT,
            0 <= rows <= 50,
    ;
    lemma_quotient_rounds_toward_zero(nutrient * rows, MAP_HEIGHT as int);
    if older.upkeep() is Some {
        lemma_quotient_rounds_toward_zero(DEFAULT_MIN_MASS * UNIT, older.min_mass as int);
        lemma_quotient_rounds_toward_zero(older.max_mass * UNIT, DEFAULT_MAX_MASS as int);
        lemma_quotient_rounds_toward_zero(older.time_life * UNIT, older.max_time_life as int);
    }
}

/// A cell at the floor stays there when it is struck.
pub proof fn lemma_floor_is_kept_when_struck(cell: CellView, damage: int)
    requires
        cell.mass == ENERGY_FLOOR,
    ensures
        cell.after_struck(damage).mass == ENERGY_FLOOR,
{
}

/// A population is in order where the rules can be applied to every cell
/// and no two cells stand on one coordinate.
pub open spec fn orderly(cells: Seq<CellView>) -> bool {
    &&& forall|i: int| 0 <= i < cells.len() ==> (#[trigger] cells[i]).valid()
    &&& forall|i: int, j: int|
        0 <= i < cells.len() && 0 <= j < cells.len() && i != j ==> (#[trigger] cells[i]).position
            != (#[trigger] cells[j]).position
}

/// A mutation leaves a cell that the rules can be applied to as one, where
/// it stood.
pub proof fn lemma_mutation_keeps_validity(cell: CellView, plan: Option<MutationView>)
    requires
        cell.valid(),
    ensures
        cell.perhaps_mutated(plan).valid(),
        cell.perhaps_mutated(plan).position == cell.position,
{
}

/// One cell's instruction leaves a population in order: nobody moves, a
/// division adds one cell on a coordinate that was free, and nothing else
/// adds or removes a cell.
pub proof fn lemma_acting_keeps_order(cells: Seq<CellView>, i: int, plan: Option<MutationView>)
    requires
        orderly(cells),
        0 <= i < cells.len(),
    ensures
        orderly(acted(cells, i, plan)),
        cells.len() <= acted(cells, i, plan).len() <= cells.len() + 1,
        forall|k: int| 0 <= k < cells.len() ==> (#[trigger] acted(cells, i, plan)[k]).position
            == cells[k].position,
        acted(cells, i, plan).len() > cells.len() ==> !occupied(
            cells,
            acted(cells, i, plan).last().position,
        ),
{
    let me = cells[i].normalized();
    lemma_mutation_keeps_validity(me.offspring(me.facing()), plan);
}

/// One cell's whole turn leaves a population in order.
pub proof fn lemma_turn_keeps_order(
    cells: Seq<CellView>,
    i: int,
    plan: Option<MutationView>,
    nutrient: int,
)
    requires
        orderly(cells),
        0 <= i < cells.len(),
    ensures
        orderly(stepped(cells, i, plan, nutrient)),
        survives(cells, i, plan, nutrient) ==> stepped(cells, i, plan, nutrient).len()
            >= cells.len(),
        stepped(cells, i, plan, nutrient).len() + 1 >= cells.len(),
{
    lemma_acting_keeps_order(cells, i, plan);
    let moved = acted(cells, i, plan);
    lemma_fed_within_ceiling(moved[i], nutrient);
}

/// A tick leaves a population in order, whatever the mutations and the
/// nutrient level: at its end the rules can be applied to every cell, and
/// no two cells stand on one coordinate.
pub proof fn lemma_tick_keeps_order(
    cells: Seq<CellView>,
    plans: Seq<Option<MutationView>>,
    nutrient: int,
)
    requires
        orderly(cells),
    ensures
        orderly(ticked(cells, plans, nutrient)),
        0 <= survivors(cells, plans, nutrient) <= cells.len(),
        survivors(cells, plans, nutrient) <= ticked(cells, plans, nutrient).len(),
{
    lemma_sweep_keeps_order(cells, plans, nutrient, cells.len());
}

/// Part of a tick leaves a population in order, and leaves the cells that
/// have not had their turn behind those that have had it and survived.
pub proof fn lemma_sweep_keeps_order(
    cells: Seq<CellView>,
    plans: Seq<Option<MutationView>>,
    nutrient: int,
    turns: nat,
)
    requires
        orderly(cells),
        turns <= cells.len(),
    ensures
        orderly(swept(cells, plans, nutrient, turns).cells),
        0 <= swept(cells, plans, nutrient, turns).next <= turns,
        swept(cells, plans, nutrient, turns).next + (cells.len() - turns) <= swept(
            cells,
            plans,
            nutrient,
            turns,
        ).cells.len(),
    decreases turns,
{
    if turns > 0 {
        lemma_sweep_keeps_order(cells, plans, nutrient, (turns - 1) as nat);
        let before = swept(cells, plans, nutrient, (turns - 1) as nat);
        lemma_turn_keeps_order(before.cells, before.next, plan_at(plans, turns - 1), nutrient);
    }
}

/// Any number of ticks leaves a population in order.
pub proof fn lemma_ticks_keep_order(
    cells: Seq<CellView>,
    history: Seq<Seq<Option<MutationView>>>,
    nutrient: int,
)
    requires
        orderly(cells),
    ensures
        orderly(ran(cells, history, nutrient)),
    decreases history.len(),
{
    if history.len() > 0 {
        lemma_ticks_keep_order(cells, history.drop_last(), nutrient);
        lemma_tick_keeps_order(ran(cells, history.drop_last(), nutrient), history.last(), nutrient);
    }
}

/// The statistics of a tick hold no data exactly where no cell survived
/// its turn: then every average is `None`, and otherwise every average is
/// there.
pub proof fn lemma_no_survivors_no_data(
    cells: Seq<CellView>,
    plans: Seq<Option<MutationView>>,
    nutrient: int,
    filter: Filters,
)
    requires
        filter != Filters::Default,
    ensures
        filter.figure(surveyed(cells, plans, nutrient)) is None <==> survivors(
            cells,
            plans,
            nutrient,
        ) == 0,
{
}

} // verus!
