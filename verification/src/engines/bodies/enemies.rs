//! Simple enemies: bodies with an axis-aligned bounding box and a fixed
//! mass.
use vstd::prelude::*;
use crate::engines::areas::boxes::NonRotatingBox;
use crate::physics::existence::Body;
use crate::physics::fundamental::{ObservableSpace, Universe};
use crate::physics::units::mass::Kilograms;

verus! {

/// An enemy at a position, bounded by a box, weighing a fixed five
/// kilograms.
#[derive(Copy, Clone)]
pub struct BasicEnemy<const D: usize, U: Universe<D>> {
    pub position: U::Space,
    pub bounding_box: NonRotatingBox<U::Space>,
}

impl<const D: usize, U: Universe<D, Mass = Kilograms>> Body<D, U> for BasicEnemy<D, U> where
    U::Space: ObservableSpace<2>,
 {
    type Boundary = NonRotatingBox<U::Space>;

    fn boundary(&self) -> Self::Boundary {
        self.bounding_box
    }

    fn position(&self) -> U::Space {
        self.position
    }

    fn mass(&self) -> U::Mass {
        Kilograms::new(5)
    }
}

} // verus!
