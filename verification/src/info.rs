//! The population's statistics: one figure for each trait, summed over the
//! cells of a tick and then divided by the number of survivors.

use vstd::prelude::*;
use crate::cell::{Cell, CellView, TRAIT_LIMIT};
use crate::filters::Filters;
use crate::fixed::{lemma_quotient_rounds_toward_zero, quotient};

verus! {

/// The sum over `cells` of the trait that `filter` shows, in thousandths.
pub open spec fn total(cells: Seq<CellView>, filter: Filters) -> int
    decreases cells.len(),
{
    if cells.len() == 0 {
        0
    } else {
        total(cells.drop_last(), filter) + match filter.measure(cells.last()) {
            Some(value) => value,
            None => 0,
        }
    }
}

/// The mean over `heads` of the trait that `filter` shows, summed over
/// `cells`, rounded toward zero: no data for no heads.
pub open spec fn mean(cells: Seq<CellView>, filter: Filters, heads: int) -> Option<i128> {
    if heads == 0 {
        None
    } else {
        Some(quotient(total(cells, filter), heads) as i128)
    }
}

/// A figure with `amount` added. A figure that is undefined stays so, and
/// one that leaves the range of its type becomes so.
pub open spec fn plus(figure: Option<i128>, amount: int) -> Option<i128> {
    match figure {
        Some(sum) => if i128::MIN <= sum + amount <= i128::MAX {
            Some((sum + amount) as i128)
        } else {
            None
        },
        None => None,
    }
}

/// A figure divided by a head count, rounded toward zero: undefined for no
/// heads.
pub open spec fn shared(figure: Option<i128>, heads: int) -> Option<i128> {
    match figure {
        Some(sum) => if heads == 0 {
            None
        } else {
            Some(quotient(sum as int, heads) as i128)
        },
        None => None,
    }
}

/// One figure for each trait, in thousandths: a running sum while a tick
/// is under way, the population's average once it is over. `None` stands
/// for "no data": the average of no cells.
#[derive(Clone, Copy, Debug, PartialEq, Eq)]
pub struct Info {
    pub ave_max_lifetime: Option<i128>,
    pub ave_min_mass: Option<i128>,
    pub ave_max_mass: Option<i128>,
    pub ave_min_mass_division: Option<i128>,
    pub ave_damage: Option<i128>,
    pub ave_resistance: Option<i128>,
}

impl Info {
    /// Every figure at zero.
    pub open spec fn zero() -> Info {
        Info {
            ave_max_lifetime: Some(0),
            ave_min_mass: Some(0),
            ave_max_mass: Some(0),
            ave_min_mass_division: Some(0),
            ave_damage: Some(0),
            ave_resistance: Some(0),
        }
    }

    /// For each trait, its sum over `cells`.
    pub open spec fn sums(cells: Seq<CellView>) -> Info {
        Info {
            ave_max_lifetime: Some(total(cells, Filters::MaxLifeTime) as i128),
            ave_min_mass: Some(total(cells, Filters::MinMass) as i128),
            ave_max_mass: Some(total(cells, Filters::MaxMass) as i128),
            ave_min_mass_division: Some(total(cells, Filters::MinMassDivision) as i128),
            ave_damage: Some(total(cells, Filters::Damage) as i128),
            ave_resistance: Some(total(cells, Filters::Resistance) as i128),
        }
    }

    /// For each trait, its sum over `cells` divided by `heads`.
    pub open spec fn of(cells: Seq<CellView>, heads: int) -> Info {
        Info {
            ave_max_lifetime: mean(cells, Filters::MaxLifeTime, heads),
            ave_min_mass: mean(cells, Filters::MinMass, heads),
            ave_max_mass: mean(cells, Filters::MaxMass, heads),
            ave_min_mass_division: mean(cells, Filters::MinMassDivision, heads),
            ave_damage: mean(cells, Filters::Damage, heads),
            ave_resistance: mean(cells, Filters::Resistance, heads),
        }
    }

    /// These figures with the traits of `cell` added.
    pub open spec fn tallied(self, cell: CellView) -> Info {
        Info {
            ave_max_lifetime: plus(
                self.ave_max_lifetime,
                Filters::MaxLifeTime.measure(cell).unwrap(),
            ),
            ave_min_mass: plus(self.ave_min_mass, cell.min_mass as int),
            ave_max_mass: plus(self.ave_max_mass, cell.max_mass as int),
            ave_min_mass_division: plus(self.ave_min_mass_division, cell.min_mass_division as int),
            ave_damage: plus(self.ave_damage, cell.damage as int),
            ave_resistance: plus(self.ave_resistance, cell.resistance as int),
        }
    }

    /// These figures, each divided by the head count.
    pub open spec fn averaged(self, heads: int) -> Info {
        Info {
            ave_max_lifetime: shared(self.ave_max_lifetime, heads),
            ave_min_mass: shared(self.ave_min_mass, heads),
            ave_max_mass: shared(self.ave_max_mass, heads),
            ave_min_mass_division: shared(self.ave_min_mass_division, heads),
            ave_damage: shared(self.ave_damage, heads),
            ave_resistance: shared(self.ave_resistance, heads),
        }
    }

    /// Every figure at zero: the state in which a tick's sums start.
    pub fn new() -> (info: Self)
        ensures
            info == Info::zero(),
    {
        Self {
            ave_max_lifetime: Some(0),
            ave_min_mass: Some(0),
            ave_max_mass: Some(0),
            ave_min_mass_division: Some(0),
            ave_damage: Some(0),
            ave_resistance: Some(0),
        }
    }

    /// Adds the traits of `cell` to the running sums.
    pub fn accumulate(&mut self, cell: &Cell)
        ensures
            *final(self) == old(self).tallied(cell@),
    {
        self.ave_max_lifetime = tally(self.ave_max_lifetime, cell.max_time_life as i128 * 1000);
        self.ave_min_mass = tally(self.ave_min_mass, cell.min_mass as i128);
        self.ave_max_mass = tally(self.ave_max_mass, cell.max_mass as i128);
        self.ave_min_mass_division = tally(
            self.ave_min_mass_division,
            cell.min_mass_division as i128,
        );
        self.ave_damage = tally(self.ave_damage, cell.damage as i128);
        self.ave_resistance = tally(self.ave_resistance, cell.resistance as i128);
    }

    /// Turns the running sums into averages over `heads` cells. With no
    /// cells there is no average: every figure becomes `None`.
    pub fn average_over(&mut self, heads: usize)
        ensures
            *final(self) == old(self).averaged(heads as int),
    {
        self.ave_max_lifetime = share(self.ave_max_lifetime, heads);
        self.ave_min_mass = share(self.ave_min_mass, heads);
        self.ave_max_mass = share(self.ave_max_mass, heads);
        self.ave_min_mass_division = share(self.ave_min_mass_division, heads);
        self.ave_damage = share(self.ave_damage, heads);
        self.ave_resistance = share(self.ave_resistance, heads);
    }
}

/// A figure with `amount` added.
fn tally(figure: Option<i128>, amount: i128) -> (r: Option<i128>)
    ensures
        r == plus(figure, amount as int),
{
    match figure {
        Some(sum) => sum.checked_add(amount),
        None => None,
    }
}

/// A figure divided by a head count.
fn share(figure: Option<i128>, heads: usize) -> (r: Option<i128>)
    ensures
        r == shared(figure, heads as int),
{
    match figure {
        Some(sum) => if heads == 0 {
            None
        } else {
            proof {
                lemma_quotient_rounds_toward_zero(sum as int, heads as int);
            }
            Some(sum / (heads as i128))
        },
        None => None,
    }
}

/// The sum of a trait over cells that the rules can be applied to is at
/// most the limit for each cell, in either direction; and one more cell
/// adds its own trait to the sum.
pub proof fn lemma_total_is_bounded(cells: Seq<CellView>, filter: Filters)
    requires
        forall|i: int| 0 <= i < cells.len() ==> (#[trigger] cells[i]).valid(),
    ensures
        -(cells.len() * TRAIT_LIMIT) <= total(cells, filter) <= cells.len() * TRAIT_LIMIT,
    decreases cells.len(),
{
    if cells.len() > 0 {
        lemma_total_is_bounded(cells.drop_last(), filter);
        assert(cells.len() * TRAIT_LIMIT == (cells.len() - 1) * TRAIT_LIMIT + TRAIT_LIMIT)
            by (nonlinear_arith);
    }
}

/// Adding the traits of one more cell to the sums over a list gives the
/// sums over the longer list, as long as there is room for them.
pub proof fn lemma_tallied_sums(cells: Seq<CellView>, cell: CellView)
    requires
        forall|i: int| 0 <= i < cells.len() ==> (#[trigger] cells[i]).valid(),
        cell.valid(),
        cells.len() < usize::MAX,
    ensures
        Info::sums(cells).tallied(cell) == Info::sums(cells.push(cell)),
{
    let longer = cells.push(cell);
    assert(longer.drop_last() =~= cells);
    assert(longer.len() * TRAIT_LIMIT <= usize::MAX * TRAIT_LIMIT) by (nonlinear_arith)
        requires
            longer.len() <= usize::MAX,
    ;
    lemma_total_is_bounded(longer, Filters::MaxLifeTime);
    lemma_total_is_bounded(longer, Filters::MinMass);
    lemma_total_is_bounded(longer, Filters::MaxMass);
    lemma_total_is_bounded(longer, Filters::MinMassDivision);
    lemma_total_is_bounded(longer, Filters::Damage);
    lemma_total_is_bounded(longer, Filters::Resistance);
}

/// Dividing the sums over a list by a head count gives the means.
pub proof fn lemma_averaged_sums(cells: Seq<CellView>, heads: int)
    requires
        forall|i: int| 0 <= i < cells.len() ==> (#[trigger] cells[i]).valid(),
        cells.len() <= usize::MAX,
    ensures
        Info::sums(cells).averaged(heads) == Info::of(cells, heads),
{
    assert(cells.len() * TRAIT_LIMIT <= usize::MAX * TRAIT_LIMIT) by (nonlinear_arith)
        requires
            cells.len() <= usize::MAX,
    ;
    lemma_total_is_bounded(cells, Filters::MaxLifeTime);
    lemma_total_is_bounded(cells, Filters::MinMass);
    lemma_total_is_bounded(cells, Filters::MaxMass);
    lemma_total_is_bounded(cells, Filters::MinMassDivision);
    lemma_total_is_bounded(cells, Filters::Damage);
    lemma_total_is_bounded(cells, Filters::Resistance);
}

} // verus!
