//! Forces and their sources: movement of mass through space over time.
use vstd::prelude::*;
use crate::physics::fundamental::{Area, Universe};

verus! {

/// The movement of mass through space over an amount of time.
pub trait Force<const D: usize, U: Universe<D>> {
    fn applied(&self, point: &U::Space, duration: &U::Time) -> (U::Mass, U::Space, U::Time);
}

/// A body's capacity to exert force on itself.
pub trait Agency<const D: usize, U: Universe<D>> {
    fn self_force(time: U::Time);
}

/// A (potentially mass-less) source of force within a bounded region.
pub trait Field<const D: usize, U: Universe<D>, F: Force<D, U>> {
    type Bounds: Area<U::Space>;

    fn force(&self, other: &Self::Bounds) -> F;
}

} // verus!
