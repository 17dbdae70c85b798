//! Mass measured in kilograms.
use vstd::prelude::*;
use crate::physics::fundamental::{Comparable, Mass};

verus! {

#[derive(Copy, Clone, Debug, PartialEq, Eq, Structural)]
pub struct Kilograms(pub i64);

impl Kilograms {
    pub fn new(m: i64) -> (r: Self)
        ensures
            r.0 == m,
    {
        Kilograms(m)
    }
}

impl Comparable for Kilograms {
    open spec fn le_req(self, other: Self) -> bool {
        true
    }

    open spec fn leq(self, other: Self) -> bool {
        self.0 <= other.0
    }

    fn le(&self, other: &Self) -> bool {
        self.0 <= other.0
    }
}

impl Mass for Kilograms {

}

} // verus!
