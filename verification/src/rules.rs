//! What one tick does to a population, stated over sequences of cells. The
//! cells are listed in the order in which they act; offspring join at the
//! end, and a cell that dies leaves the list at once.

use vstd::prelude::*;
use crate::cell::{CellView, Gen};
use crate::info::Info;
use crate::mutation::MutationView;

verus! {

/// The positions of the cells, by index.
pub open spec fn positions(cells: Seq<CellView>) -> Seq<(usize, usize)> {
    Seq::new(cells.len(), |i: int| cells[i].position)
}

/// Whether a cell stands on `at`.
pub open spec fn occupied(cells: Seq<CellView>, at: (usize, usize)) -> bool {
    exists|i: int| 0 <= i < cells.len() && (#[trigger] cells[i]).position == at
}

/// The index of the cell that stands on `at`, if any. Where no two cells
/// share a coordinate there is at most one.
pub open spec fn occupant(cells: Seq<CellView>, at: (usize, usize)) -> Option<int> {
    if occupied(cells, at) {
        Some(choose|i: int| 0 <= i < cells.len() && (#[trigger] cells[i]).position == at)
    } else {
        None
    }
}

/// The mutation that the list holds for the cell that acts as number
/// `turn` of a tick: none past the end of the list.
pub open spec fn plan_at(plans: Seq<Option<MutationView>>, turn: int) -> Option<MutationView> {
    if 0 <= turn < plans.len() {
        plans[turn]
    } else {
        None
    }
}

/// The population after cell `i` has executed its current instruction.
///
/// Its program counter is first brought into range. A turn changes its
/// facing. A division needs the coordinate ahead to be free and the cell to
/// be fertile; the parent is then halved and the offspring, mutated as
/// `plan` says, joins the end of the list. An attack needs a cell of another
/// lineage on the coordinate ahead; attacker and victim then settle.
pub open spec fn acted(cells: Seq<CellView>, i: int, plan: Option<MutationView>) -> Seq<
    CellView,
> {
    let me = cells[i].normalized();
    match me.instruction() {
        Gen::SetDirection(delta) => cells.update(i, me.rotated(delta as int)),
        Gen::Reproduce => {
            if !occupied(cells, me.facing()) && me.fertile() {
                cells.update(i, me.divided()).push(
                    me.offspring(me.facing()).perhaps_mutated(plan),
                )
            } else {
                cells.update(i, me)
            }
        },
        Gen::Attack => {
            match occupant(cells, me.facing()) {
                Some(j) => if me.hostile_to(cells[j]) {
                    cells.update(j, cells[j].after_struck(me.damage as int)).update(
                        i,
                        me.after_striking(cells[j].resistance as int),
                    )
                } else {
                    cells.update(i, me)
                },
                None => cells.update(i, me),
            }
        },
    }
}

/// Cell `i` as the statistics count it in its turn: after its instruction
/// and its metabolic update, before the death check.
pub open spec fn measured(
    cells: Seq<CellView>,
    i: int,
    plan: Option<MutationView>,
    nutrient: int,
) -> CellView {
    acted(cells, i, plan)[i].nourished(nutrient)
}

/// Whether cell `i` passes the death check of its turn.
pub open spec fn survives(
    cells: Seq<CellView>,
    i: int,
    plan: Option<MutationView>,
    nutrient: int,
) -> bool {
    !measured(cells, i, plan, nutrient).expired()
}

/// The population after the whole turn of cell `i`: its instruction, its
/// metabolic update, and the death check, which removes it if it fails.
pub open spec fn stepped(
    cells: Seq<CellView>,
    i: int,
    plan: Option<MutationView>,
    nutrient: int,
) -> Seq<CellView> {
    if survives(cells, i, plan, nutrient) {
        acted(cells, i, plan).update(i, measured(cells, i, plan, nutrient))
    } else {
        acted(cells, i, plan).remove(i)
    }
}

/// A tick under way.
pub struct Sweep {
    /// The population: survivors that have acted, then cells still to act,
    /// then this tick's offspring.
    pub cells: Seq<CellView>,
    /// The index of the cell that acts next, which is also the number of
    /// cells that have acted and survived.
    pub next: int,
}

impl Sweep {
    /// The start of a tick: nobody has acted.
    pub open spec fn start(cells: Seq<CellView>) -> Sweep {
        Sweep { cells, next: 0 }
    }

    /// The tick after the next cell's turn.
    pub open spec fn step(self, plan: Option<MutationView>, nutrient: int) -> Sweep {
        Sweep {
            cells: stepped(self.cells, self.next, plan, nutrient),
            next: if survives(self.cells, self.next, plan, nutrient) {
                self.next + 1
            } else {
                self.next
            },
        }
    }
}

/// The tick after the first `turns` cells of `cells` have had their turn,
/// in order, each with the mutation that `plans` holds for its offspring.
pub open spec fn swept(
    cells: Seq<CellView>,
    plans: Seq<Option<MutationView>>,
    nutrient: int,
    turns: nat,
) -> Sweep
    decreases turns,
{
    if turns == 0 {
        Sweep::start(cells)
    } else {
        swept(cells, plans, nutrient, (turns - 1) as nat).step(
            plan_at(plans, turns - 1),
            nutrient,
        )
    }
}

/// The population after one tick: every cell that was alive at its start
/// has had its turn.
pub open spec fn ticked(
    cells: Seq<CellView>,
    plans: Seq<Option<MutationView>>,
    nutrient: int,
) -> Seq<CellView> {
    swept(cells, plans, nutrient, cells.len()).cells
}

/// The cells that have had one of the first `turns` turns of a tick, each
/// as the statistics count it: see `measured`.
pub open spec fn counted(
    cells: Seq<CellView>,
    plans: Seq<Option<MutationView>>,
    nutrient: int,
    turns: nat,
) -> Seq<CellView>
    decreases turns,
{
    if turns == 0 {
        Seq::empty()
    } else {
        let before = swept(cells, plans, nutrient, (turns - 1) as nat);
        counted(cells, plans, nutrient, (turns - 1) as nat).push(
            measured(before.cells, before.next, plan_at(plans, turns - 1), nutrient),
        )
    }
}

/// The number of cells that have their turn in a tick and survive it.
pub open spec fn survivors(
    cells: Seq<CellView>,
    plans: Seq<Option<MutationView>>,
    nutrient: int,
) -> int {
    swept(cells, plans, nutrient, cells.len()).next
}

/// The statistics of one tick: for each trait, the sum over every cell
/// that had its turn, as it stood at the end of that turn, divided by the
/// number of those that survived; no data where none did. Offspring of the
/// tick count on neither side.
pub open spec fn surveyed(
    cells: Seq<CellView>,
    plans: Seq<Option<MutationView>>,
    nutrient: int,
) -> Info {
    Info::of(counted(cells, plans, nutrient, cells.len()), survivors(cells, plans, nutrient))
}

/// What holds of the mutations that chance hands to one tick: there is
/// one for each cell, made for the length of that cell's genome.
pub open spec fn drawn(plans: Seq<Option<MutationView>>, cells: Seq<CellView>) -> bool {
    &&& plans.len() == cells.len()
    &&& forall|k: int|
        0 <= k < plans.len() ==> (#[trigger] plans[k] matches Some(m) ==> m.drawn_for(
            cells[k].genome.len(),
        ))
}

/// The population after one tick for each entry of `history`, each with
/// the mutations of its entry.
pub open spec fn ran(
    cells: Seq<CellView>,
    history: Seq<Seq<Option<MutationView>>>,
    nutrient: int,
) -> Seq<CellView>
    decreases history.len(),
{
    if history.len() == 0 {
        cells
    } else {
        ticked(ran(cells, history.drop_last(), nutrient), history.last(), nutrient)
    }
}

/// The statistics of the last of these ticks, if there is one.
pub open spec fn last_survey(
    cells: Seq<CellView>,
    history: Seq<Seq<Option<MutationView>>>,
    nutrient: int,
) -> Option<Info> {
    if history.len() == 0 {
        None
    } else {
        Some(surveyed(ran(cells, history.drop_last(), nutrient), history.last(), nutrient))
    }
}

/// Whether the mutations of each of these ticks are as chance hands them
/// to it: see `drawn`.
pub open spec fn all_drawn(
    cells: Seq<CellView>,
    history: Seq<Seq<Option<MutationView>>>,
    nutrient: int,
) -> bool
    decreases history.len(),
{
    history.len() > 0 ==> all_drawn(cells, history.drop_last(), nutrient) && drawn(
        history.last(),
        ran(cells, history.drop_last(), nutrient),
    )
}

} // verus!
