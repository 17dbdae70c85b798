//! Bodies: masses moving through a space and time.
use vstd::prelude::*;
use crate::physics::fundamental::{Area, Universe};

verus! {

/// A particular mass moving through a universe's space and time.
pub trait Body<const D: usize, U: Universe<D>> {
    type Boundary: Area<U::Space>;

    fn boundary(&self) -> Self::Boundary;

    fn position(&self) -> U::Space;

    fn mass(&self) -> U::Mass;
}

} // verus!
