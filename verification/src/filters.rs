//! The views of the population that a display can choose from.

use vstd::prelude::*;
use crate::cell::{Cell, CellView};
use crate::fixed::UNIT;
use crate::info::Info;

verus! {

/// What a cell is coloured by on screen: its own colour, or one of its
/// traits set against the population's average.
#[derive(Clone, Copy, Debug, PartialEq, Eq)]
pub enum Filters {
    Default,
    MaxLifeTime,
    MaxMass,
    MinMass,
    MinMassDivision,
    Damage,
    Resistance,
}

impl Filters {
    /// The trait of `cell` that the filter shows, in thousandths; `None`
    /// for the filter that shows the cell's own colour.
    pub open spec fn measure(self, cell: CellView) -> Option<int> {
        match self {
            Filters::Default => None,
            Filters::MaxLifeTime => Some(cell.max_time_life * UNIT),
            Filters::MaxMass => Some(cell.max_mass as int),
            Filters::MinMass => Some(cell.min_mass as int),
            Filters::MinMassDivision => Some(cell.min_mass_division as int),
            Filters::Damage => Some(cell.damage as int),
            Filters::Resistance => Some(cell.resistance as int),
        }
    }

    /// The figure of `info` that belongs to the filter; `None` for the
    /// filter that shows the cell's own colour, and where `info` has no
    /// such figure.
    pub open spec fn figure(self, info: Info) -> Option<i128> {
        match self {
            Filters::Default => None,
            Filters::MaxLifeTime => info.ave_max_lifetime,
            Filters::MaxMass => info.ave_max_mass,
            Filters::MinMass => info.ave_min_mass,
            Filters::MinMassDivision => info.ave_min_mass_division,
            Filters::Damage => info.ave_damage,
            Filters::Resistance => info.ave_resistance,
        }
    }

    /// The trait of `cell` that the filter shows, in thousandths.
    pub fn value_of(&self, cell: &Cell) -> (value: Option<i128>)
        ensures
            value.is_some() == self.measure(cell@).is_some(),
            value matches Some(v) ==> self.measure(cell@) == Some(v as int),
    {
        match self {
            Filters::Default => None,
            Filters::MaxLifeTime => Some(cell.max_time_life as i128 * 1000),
            Filters::MaxMass => Some(cell.max_mass as i128),
            Filters::MinMass => Some(cell.min_mass as i128),
            Filters::MinMassDivision => Some(cell.min_mass_division as i128),
            Filters::Damage => Some(cell.damage as i128),
            Filters::Resistance => Some(cell.resistance as i128),
        }
    }

    /// The population's average of the trait that the filter shows.
    pub fn average_in(&self, info: &Info) -> (average: Option<i128>)
        ensures
            average == self.figure(*info),
    {
        match self {
            Filters::Default => None,
            Filters::MaxLifeTime => info.ave_max_lifetime,
            Filters::MaxMass => info.ave_max_mass,
            Filters::MinMass => info.ave_min_mass,
            Filters::MinMassDivision => info.ave_min_mass_division,
            Filters::Damage => info.ave_damage,
            Filters::Resistance => info.ave_resistance,
        }
    }
}

} // verus!
