//! Positions in three-dimensional space and directions between them.
use vstd::prelude::*;
use crate::matrix::{gen_matrix, Mobile, Vector};
use crate::physics::fundamental::Combineable;

verus! {

/// A displacement between two positions.
pub type Distance<T> = Vector<T, 3>;

/// A point in three-dimensional space.
#[derive(Copy, Clone, Debug)]
pub struct Position<T> {
    pub coords: Vector<T, 3>,
}

/// Component `m` of the direction from `a` to `b`.
pub open spec fn direction_elem<T: Mobile + Combineable>(
    a: Position<T>,
    b: Position<T>,
    m: usize,
) -> T {
    b.coords.at(m as int, 0).spec_minus(a.coords.at(m as int, 0))
}

impl<T: Mobile + Combineable> Position<T> {
    /// The displacement that carries `self` onto `other`.
    pub fn direction(&self, other: &Position<T>) -> (r: Distance<T>)
        requires
            forall|m: int| 0 <= m < 3 ==> #[trigger] other.coords.at(m, 0).minus_req(
                self.coords.at(m, 0),
            ),
        ensures
            forall|m: int| 0 <= m < 3 ==> #[trigger] r.at(m, 0) == direction_elem(
                *self,
                *other,
                m as usize,
            ),
    {
        let rr = gen_matrix(
            |m: usize, _nn: usize| -> (v: T)
                requires
                    m < 3,
                ensures
                    v == direction_elem(*self, *other, m)
                { other.coords.value_at(m, 0).minus(*self.coords.value_at(m, 0)) },
        );
        rr
    }
}

} // verus!
