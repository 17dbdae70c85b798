//! A basic, two-dimensional side-scroller universe.
use vstd::prelude::*;
use crate::physics::fundamental::Universe;
use crate::physics::units::mass::Kilograms;
use crate::physics::units::space::Meters2;
use crate::physics::units::time::Seconds;

verus! {

/// Two-dimensional space in meters, time in whole seconds, mass in
/// kilograms.
pub struct D2Basic {
    pub abs_time: Seconds<i64>,
}

impl Universe<2> for D2Basic {
    type Space = Meters2;

    type Time = Seconds<i64>;

    type Mass = Kilograms;

    fn time(&self) -> &Self::Time {
        &self.abs_time
    }
}

} // verus!
