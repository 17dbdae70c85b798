//! The fundamental dimensions and what their units must support: copying,
//! comparison, combination, and — for observable spaces — decomposition
//! into components.
use vstd::prelude::*;
use crate::matrix::Zero;

verus! {

/// Units are passed around freely: safe to copy and to take by value.
pub trait Mobile: Copy + Sized {

}

impl<T: Copy + Sized> Mobile for T {

}

/// A dimension admits "bigger" and "smaller" quantities. Each unit states
/// what its ordering means, and when its machine representation can
/// decide it.
pub trait Comparable: Sized {
    spec fn le_req(self, other: Self) -> bool;

    spec fn leq(self, other: Self) -> bool;

    fn le(&self, other: &Self) -> (r: bool)
        requires
            self.le_req(*other),
        ensures
            r == self.leq(*other),
    ;
}

/// Quantities of a dimension compose into bigger and smaller quantities.
/// Each operation carries the precondition under which the unit's machine
/// representation can perform it, and its exact meaning.
pub trait Combineable: Mobile {
    spec fn plus_req(self, other: Self) -> bool;

    spec fn spec_plus(self, other: Self) -> Self;

    fn plus(self, other: Self) -> (r: Self)
        requires
            self.plus_req(other),
        ensures
            r == self.spec_plus(other),
    ;

    spec fn minus_req(self, other: Self) -> bool;

    spec fn spec_minus(self, other: Self) -> Self;

    fn minus(self, other: Self) -> (r: Self)
        requires
            self.minus_req(other),
        ensures
            r == self.spec_minus(other),
    ;

    spec fn times_req(self, other: Self) -> bool;

    spec fn spec_times(self, other: Self) -> Self;

    fn times(self, other: Self) -> (r: Self)
        requires
            self.times_req(other),
        ensures
            r == self.spec_times(other),
    ;

    spec fn over_req(self, other: Self) -> bool;

    spec fn spec_over(self, other: Self) -> Self;

    fn over(self, other: Self) -> (r: Self)
        requires
            self.over_req(other),
        ensures
            r == self.spec_over(other),
    ;
}

impl Comparable for i64 {
    open spec fn le_req(self, other: Self) -> bool {
        true
    }

    open spec fn leq(self, other: Self) -> bool {
        self <= other
    }

    fn le(&self, other: &Self) -> bool {
        *self <= *other
    }
}

impl Combineable for i64 {
    open spec fn plus_req(self, other: Self) -> bool {
        i64::MIN <= self + other <= i64::MAX
    }

    open spec fn spec_plus(self, other: Self) -> Self {
        (self + other) as i64
    }

    fn plus(self, other: Self) -> Self {
        self + other
    }

    open spec fn minus_req(self, other: Self) -> bool {
        i64::MIN <= self - other <= i64::MAX
    }

    open spec fn spec_minus(self, other: Self) -> Self {
        (self - other) as i64
    }

    fn minus(self, other: Self) -> Self {
        self - other
    }

    open spec fn times_req(self, other: Self) -> bool {
        i64::MIN <= self * other <= i64::MAX
    }

    open spec fn spec_times(self, other: Self) -> Self {
        (self * other) as i64
    }

    fn times(self, other: Self) -> Self {
        self * other
    }

    open spec fn over_req(self, other: Self) -> bool {
        self >= 0 && other > 0
    }

    open spec fn spec_over(self, other: Self) -> Self {
        (self / other) as i64
    }

    fn over(self, other: Self) -> Self {
        self / other
    }
}

/// The minimum the fundamental dimensions have in common: divisibility of
/// quantities into comparable parts.
pub trait Divisible: Comparable + Combineable {

}

impl<T: Comparable + Combineable> Divisible for T {

}

/// The fundamental dimension of matter.
pub trait Mass: Mobile + Comparable {

}

/// Potential for change within the system.
pub trait Time: Mobile + Divisible {

}

/// What a space's coordinates are measured in.
pub trait BaseUnit: Combineable + Comparable + Mobile + Zero {

}

impl<T: Combineable + Comparable + Mobile + Zero> BaseUnit for T {

}

/// A spatial dimension: a comparable, combineable quantity with a base
/// unit for its coordinates.
pub trait Space: Mobile + Comparable + Combineable {
    type Base: BaseUnit;
}

/// A space whose values decompose into per-axis components and rebuild
/// from base-unit coordinates.
pub trait ObservableSpace<const D: usize>: Space {
    /// The value's projection onto axis `i`: its `i`-th component with
    /// every other axis at zero.
    spec fn spec_component(self, i: int) -> Self;

    /// The value with coordinate `i` equal to `p[i]`.
    spec fn spec_new(p: Seq<Self::Base>) -> Self;

    fn components(&self) -> (r: [Self; D])
        ensures
            forall|i: int| 0 <= i < D ==> r@[i] == self.spec_component(i),
    ;

    fn new(p: &[Self::Base; D]) -> (r: Self)
        ensures
            r == Self::spec_new(p@),
    ;
}

/// A bounded region of a space.
pub trait Area<S: Space> {
    /// When the region's machine representation can measure itself.
    spec fn area_req(&self) -> bool;

    /// How much space the region takes.
    spec fn spec_area(&self) -> S;

    fn amount_of_space(&self) -> (r: S)
        requires
            self.area_req(),
        ensures
            r == self.spec_area(),
    ;
}

/// Regions that can intersect regions of another shape.
pub trait AreaIntersection<S: Space, A: Area<S>>: Area<S> + Sized {
    spec fn intersection_req(&self, other: &A) -> bool;

    /// The region the two regions share.
    spec fn spec_intersection(&self, other: &A) -> Self;

    fn area_intersection(&self, other: &A) -> (r: Self)
        requires
            self.intersection_req(other),
        ensures
            r == self.spec_intersection(other),
    ;
}

/// Regions that can intersect a raw set of space values.
pub trait SpaceIntersection<S: Space>: Area<S> {
    fn space_intersection<'a>(&self, other: &'a [S]) -> &'a [S];
}

/// The combination of one mass, one space and one time.
pub trait Universe<const D: usize> {
    type Space: Space;

    type Time: Time;

    type Mass: Mass;

    fn time(&self) -> &Self::Time;
}

} // verus!
