//! Space measured in meters: a one-dimensional base unit and the two- and
//! three-dimensional spaces built from it.
use vstd::prelude::*;
use crate::matrix::Zero;
use crate::physics::fundamental::{Combineable, Comparable, ObservableSpace, Space};

verus! {

/// One-dimensional length in meters.
#[derive(Copy, Clone, Debug, PartialEq, Eq, Structural)]
pub struct Meters(pub i64);

pub fn meters(x: i64) -> (r: Meters)
    ensures
        r.0 == x,
{
    Meters(x)
}

impl Zero for Meters {
    open spec fn spec_zero() -> Self {
        Meters(0)
    }

    fn zero() -> Self {
        Meters(0)
    }
}

impl Comparable for Meters {
    open spec fn le_req(self, other: Self) -> bool {
        true
    }

    open spec fn leq(self, other: Self) -> bool {
        self.0 <= other.0
    }

    fn le(&self, other: &Self) -> bool {
        self.0 <= other.0
    }
}

impl Combineable for Meters {
    open spec fn plus_req(self, other: Self) -> bool {
        self.0.plus_req(other.0)
    }

    open spec fn spec_plus(self, other: Self) -> Self {
        Meters(self.0.spec_plus(other.0))
    }

    fn plus(self, other: Self) -> Self {
        Meters(self.0.plus(other.0))
    }

    open spec fn minus_req(self, other: Self) -> bool {
        self.0.minus_req(other.0)
    }

    open spec fn spec_minus(self, other: Self) -> Self {
        Meters(self.0.spec_minus(other.0))
    }

    fn minus(self, other: Self) -> Self {
        Meters(self.0.minus(other.0))
    }

    open spec fn times_req(self, other: Self) -> bool {
        self.0.times_req(other.0)
    }

    open spec fn spec_times(self, other: Self) -> Self {
        Meters(self.0.spec_times(other.0))
    }

    fn times(self, other: Self) -> Self {
        Meters(self.0.times(other.0))
    }

    open spec fn over_req(self, other: Self) -> bool {
        self.0.over_req(other.0)
    }

    open spec fn spec_over(self, other: Self) -> Self {
        Meters(self.0.spec_over(other.0))
    }

    fn over(self, other: Self) -> Self {
        Meters(self.0.over(other.0))
    }
}

impl Space for Meters {
    type Base = i64;
}

/// Two-dimensional extent in meters.
#[derive(Copy, Clone, Debug, PartialEq, Eq, Structural)]
pub struct Meters2 {
    pub x: Meters,
    pub y: Meters,
}

pub fn meters2(x: i64, y: i64) -> (r: Meters2)
    ensures
        r.x.0 == x,
        r.y.0 == y,
{
    Meters2 { x: Meters(x), y: Meters(y) }
}

impl Comparable for Meters2 {
    open spec fn le_req(self, other: Self) -> bool {
        self.x.times_req(self.y) && other.x.times_req(other.y)
    }

    /// Extents compare by their signed area.
    open spec fn leq(self, other: Self) -> bool {
        self.x.spec_times(self.y).0 <= other.x.spec_times(other.y).0
    }

    fn le(&self, other: &Self) -> bool {
        self.x.times(self.y).0 <= other.x.times(other.y).0
    }
}

impl Combineable for Meters2 {
    open spec fn plus_req(self, other: Self) -> bool {
        self.x.plus_req(other.x) && self.y.plus_req(other.y)
    }

    open spec fn spec_plus(self, other: Self) -> Self {
        Meters2 { x: self.x.spec_plus(other.x), y: self.y.spec_plus(other.y) }
    }

    fn plus(self, other: Self) -> Self {
        Meters2 { x: self.x.plus(other.x), y: self.y.plus(other.y) }
    }

    open spec fn minus_req(self, other: Self) -> bool {
        self.x.minus_req(other.x) && self.y.minus_req(other.y)
    }

    open spec fn spec_minus(self, other: Self) -> Self {
        Meters2 { x: self.x.spec_minus(other.x), y: self.y.spec_minus(other.y) }
    }

    fn minus(self, other: Self) -> Self {
        Meters2 { x: self.x.minus(other.x), y: self.y.minus(other.y) }
    }

    open spec fn times_req(self, other: Self) -> bool {
        self.x.times_req(other.x) && self.y.times_req(other.y)
    }

    open spec fn spec_times(self, other: Self) -> Self {
        Meters2 { x: self.x.spec_times(other.x), y: self.y.spec_times(other.y) }
    }

    fn times(self, other: Self) -> Self {
        Meters2 { x: self.x.times(other.x), y: self.y.times(other.y) }
    }

    open spec fn over_req(self, other: Self) -> bool {
        self.x.over_req(other.x) && self.y.over_req(other.y)
    }

    open spec fn spec_over(self, other: Self) -> Self {
        Meters2 { x: self.x.spec_over(other.x), y: self.y.spec_over(other.y) }
    }

    fn over(self, other: Self) -> Self {
        Meters2 { x: self.x.over(other.x), y: self.y.over(other.y) }
    }
}

impl Space for Meters2 {
    type Base = Meters;
}

impl ObservableSpace<2> for Meters2 {
    open spec fn spec_component(self, i: int) -> Self {
        if i == 0 {
            Meters2 { x: self.x, y: Meters(0) }
        } else {
            Meters2 { x: Meters(0), y: self.y }
        }
    }

    open spec fn spec_new(p: Seq<Meters>) -> Self {
        Meters2 { x: p[0], y: p[1] }
    }

    fn components(&self) -> (r: [Self; 2]) {
        [Meters2 { x: self.x, y: Meters(0) }, Meters2 { x: Meters(0), y: self.y }]
    }

    fn new(p: &[Meters; 2]) -> (r: Self) {
        Meters2 { x: p[0], y: p[1] }
    }
}

/// Three-dimensional extent in meters.
#[derive(Copy, Clone, Debug, PartialEq, Eq, Structural)]
pub struct Meters3 {
    pub x: Meters,
    pub y: Meters,
    pub z: Meters,
}

pub fn meters3(x: i64, y: i64, z: i64) -> (r: Meters3)
    ensures
        r.x.0 == x,
        r.y.0 == y,
        r.z.0 == z,
{
    Meters3 { x: Meters(x), y: Meters(y), z: Meters(z) }
}

impl Comparable for Meters3 {
    open spec fn le_req(self, other: Self) -> bool {
        &&& self.x.times_req(self.y)
        &&& self.x.spec_times(self.y).times_req(self.z)
        &&& other.x.times_req(other.y)
        &&& other.x.spec_times(other.y).times_req(other.z)
    }

    /// Extents compare by their signed volume.
    open spec fn leq(self, other: Self) -> bool {
        self.x.spec_times(self.y).spec_times(self.z).0 <= other.x.spec_times(other.y).spec_times(
            other.z,
        ).0
    }

    fn le(&self, other: &Self) -> bool {
        self.x.times(self.y).times(self.z).0 <= other.x.times(other.y).times(other.z).0
    }
}

impl Combineable for Meters3 {
    open spec fn plus_req(self, other: Self) -> bool {
        self.x.plus_req(other.x) && self.y.plus_req(other.y) && self.z.plus_req(other.z)
    }

    open spec fn spec_plus(self, other: Self) -> Self {
        Meters3 {
            x: self.x.spec_plus(other.x),
            y: self.y.spec_plus(other.y),
            z: self.z.spec_plus(other.z),
        }
    }

    fn plus(self, other: Self) -> Self {
        Meters3 { x: self.x.plus(other.x), y: self.y.plus(other.y), z: self.z.plus(other.z) }
    }

    open spec fn minus_req(self, other: Self) -> bool {
        self.x.minus_req(other.x) && self.y.minus_req(other.y) && self.z.minus_req(other.z)
    }

    open spec fn spec_minus(self, other: Self) -> Self {
        Meters3 {
            x: self.x.spec_minus(other.x),
            y: self.y.spec_minus(other.y),
            z: self.z.spec_minus(other.z),
        }
    }

    fn minus(self, other: Self) -> Self {
        Meters3 { x: self.x.minus(other.x), y: self.y.minus(other.y), z: self.z.minus(other.z) }
    }

    open spec fn times_req(self, other: Self) -> bool {
        self.x.times_req(other.x) && self.y.times_req(other.y) && self.z.times_req(other.z)
    }

    open spec fn spec_times(self, other: Self) -> Self {
        Meters3 {
            x: self.x.spec_times(other.x),
            y: self.y.spec_times(other.y),
            z: self.z.spec_times(other.z),
        }
    }

    fn times(self, other: Self) -> Self {
        Meters3 { x: self.x.times(other.x), y: self.y.times(other.y), z: self.z.times(other.z) }
    }

    open spec fn over_req(self, other: Self) -> bool {
        self.x.over_req(other.x) && self.y.over_req(other.y) && self.z.over_req(other.z)
    }

    open spec fn spec_over(self, other: Self) -> Self {
        Meters3 {
            x: self.x.spec_over(other.x),
            y: self.y.spec_over(other.y),
            z: self.z.spec_over(other.z),
        }
    }

    fn over(self, other: Self) -> Self {
        Meters3 { x: self.x.over(other.x), y: self.y.over(other.y), z: self.z.over(other.z) }
    }
}

impl Space for Meters3 {
    type Base = Meters;
}

} // verus!
