//! Time measured in seconds of any base unit.
use vstd::prelude::*;
use crate::physics::fundamental::{BaseUnit, Combineable, Comparable, ObservableSpace, Space, Time};

verus! {

/// A duration in seconds, counted in the base unit `B`.
#[derive(Copy, Clone, Debug)]
pub struct Seconds<B>(pub B);

impl<B: BaseUnit> Seconds<B> {
    pub fn new(x: B) -> (r: Self)
        ensures
            r.0 == x,
    {
        Seconds(x)
    }
}

impl<B: BaseUnit> Comparable for Seconds<B> {
    open spec fn le_req(self, other: Self) -> bool {
        self.0.le_req(other.0)
    }

    open spec fn leq(self, other: Self) -> bool {
        self.0.leq(other.0)
    }

    fn le(&self, other: &Self) -> bool {
        self.0.le(&other.0)
    }
}

impl<B: BaseUnit> Combineable for Seconds<B> {
    open spec fn plus_req(self, other: Self) -> bool {
        self.0.plus_req(other.0)
    }

    open spec fn spec_plus(self, other: Self) -> Self {
        Seconds(self.0.spec_plus(other.0))
    }

    fn plus(self, other: Self) -> Self {
        Seconds(self.0.plus(other.0))
    }

    open spec fn minus_req(self, other: Self) -> bool {
        self.0.minus_req(other.0)
    }

    open spec fn spec_minus(self, other: Self) -> Self {
        Seconds(self.0.spec_minus(other.0))
    }

    fn minus(self, other: Self) -> Self {
        Seconds(self.0.minus(other.0))
    }

    open spec fn times_req(self, other: Self) -> bool {
        self.0.times_req(other.0)
    }

    open spec fn spec_times(self, other: Self) -> Self {
        Seconds(self.0.spec_times(other.0))
    }

    fn times(self, other: Self) -> Self {
        Seconds(self.0.times(other.0))
    }

    open spec fn over_req(self, other: Self) -> bool {
        self.0.over_req(other.0)
    }

    open spec fn spec_over(self, other: Self) -> Self {
        Seconds(self.0.spec_over(other.0))
    }

    fn over(self, other: Self) -> Self {
        Seconds(self.0.over(other.0))
    }
}

impl<B: BaseUnit> Time for Seconds<B> {

}

impl<B: BaseUnit> Space for Seconds<B> {
    type Base = B;
}

impl<B: BaseUnit> ObservableSpace<1> for Seconds<B> {
    open spec fn spec_component(self, i: int) -> Self {
        self
    }

    open spec fn spec_new(p: Seq<B>) -> Self {
        Seconds(p[0])
    }

    fn components(&self) -> (r: [Self; 1]) {
        [*self]
    }

    fn new(p: &[B; 1]) -> (r: Self) {
        Seconds(p[0])
    }
}

} // verus!
