//! Axis-aligned, non-rotating boxes in a two-dimensional observable
//! space, given by their top-left and bottom-right corners.
use vstd::prelude::*;
use crate::matrix::Zero;
use crate::physics::fundamental::{
    Area, AreaIntersection, Combineable, Comparable, ObservableSpace, Space,
};

verus! {

#[derive(Copy, Clone)]
pub struct NonRotatingBox<S: Space> {
    pub ltop: S,
    pub rbottom: S,
}

/// The zero extent of a two-dimensional observable space.
pub open spec fn zero_extent<S: ObservableSpace<2>>() -> S {
    S::spec_new(seq![<S::Base as Zero>::spec_zero(), <S::Base as Zero>::spec_zero()])
}

/// The larger of two space values, preferring the second on ties, as the
/// box intersection picks corners.
pub open spec fn spec_max<S: Comparable + Copy>(a: S, b: S) -> S {
    if a.leq(b) {
        b
    } else {
        a
    }
}

/// The smaller of two space values, preferring the first on ties.
pub open spec fn spec_min<S: Comparable + Copy>(a: S, b: S) -> S {
    if a.leq(b) {
        a
    } else {
        b
    }
}

impl<S: ObservableSpace<2>> NonRotatingBox<S> {
    /// The diagonal from the top-left to the bottom-right corner.
    pub open spec fn spec_diagonal(self) -> S {
        self.rbottom.spec_minus(self.ltop)
    }

    /// The horizontal component of the box's diagonal.
    pub fn width(&self) -> (r: S)
        requires
            self.rbottom.minus_req(self.ltop),
        ensures
            r == self.spec_diagonal().spec_component(0),
    {
        let diff = self.rbottom.minus(self.ltop);
        let comps = diff.components();
        comps[0]
    }

    /// The vertical component of the box's diagonal.
    pub fn height(&self) -> (r: S)
        requires
            self.rbottom.minus_req(self.ltop),
        ensures
            r == self.spec_diagonal().spec_component(1),
    {
        let diff = self.rbottom.minus(self.ltop);
        let comps = diff.components();
        comps[1]
    }
}

impl<S: ObservableSpace<2>> Area<S> for NonRotatingBox<S> {
    /// The diagonal must be measurable and its cross products summable.
    open spec fn area_req(&self) -> bool {
        let d = self.spec_diagonal();
        let c0 = d.spec_component(0);
        let c1 = d.spec_component(1);
        let z = zero_extent::<S>();
        &&& self.rbottom.minus_req(self.ltop)
        &&& c0.times_req(c1)
        &&& c1.times_req(c0)
        &&& z.plus_req(c0.spec_times(c1))
        &&& z.spec_plus(c0.spec_times(c1)).plus_req(c1.spec_times(c0))
    }

    /// The sum over both axes of the product of neighbouring diagonal
    /// components, starting from the zero extent.
    open spec fn spec_area(&self) -> S {
        let d = self.spec_diagonal();
        let c0 = d.spec_component(0);
        let c1 = d.spec_component(1);
        zero_extent::<S>().spec_plus(c0.spec_times(c1)).spec_plus(c1.spec_times(c0))
    }

    fn amount_of_space(&self) -> (r: S) {
        let dist = self.rbottom.minus(self.ltop);
        let comps = dist.components();
        let zero_parts: [S::Base; 2] = [<S::Base as Zero>::zero();2];
        proof {
            assert(zero_parts@ =~= seq![
                <S::Base as Zero>::spec_zero(),
                <S::Base as Zero>::spec_zero(),
            ]);
        }
        let mut sum: S = S::new(&zero_parts);
        sum = sum.plus(comps[0].times(comps[1]));
        sum = sum.plus(comps[1].times(comps[0]));
        sum
    }
}

impl<S: ObservableSpace<2>> AreaIntersection<S, NonRotatingBox<S>> for NonRotatingBox<S> {
    /// All four corner comparisons, the two overlap tests, and the two
    /// corner recombinations must be within the space's reach.
    open spec fn intersection_req(&self, other: &NonRotatingBox<S>) -> bool {
        let la = self.ltop;
        let ra = self.rbottom;
        let lb = other.ltop;
        let rb = other.rbottom;
        let lx = spec_max(la.spec_component(0), lb.spec_component(0));
        let rx = spec_min(ra.spec_component(0), rb.spec_component(0));
        let ty = spec_max(la.spec_component(1), lb.spec_component(1));
        let by = spec_min(ra.spec_component(1), rb.spec_component(1));
        &&& la.spec_component(0).le_req(lb.spec_component(0))
        &&& ra.spec_component(0).le_req(rb.spec_component(0))
        &&& la.spec_component(1).le_req(lb.spec_component(1))
        &&& ra.spec_component(1).le_req(rb.spec_component(1))
        &&& rx.le_req(lx)
        &&& by.le_req(ty)
        &&& lx.plus_req(ty)
        &&& rx.plus_req(by)
    }

    /// The box spanned by the inner corners when the boxes overlap on
    /// both axes; a degenerate box at the own top-left corner otherwise.
    open spec fn spec_intersection(&self, other: &NonRotatingBox<S>) -> NonRotatingBox<S> {
        let lx = spec_max(self.ltop.spec_component(0), other.ltop.spec_component(0));
        let rx = spec_min(self.rbottom.spec_component(0), other.rbottom.spec_component(0));
        let ty = spec_max(self.ltop.spec_component(1), other.ltop.spec_component(1));
        let by = spec_min(self.rbottom.spec_component(1), other.rbottom.spec_component(1));
        if !rx.leq(lx) && !by.leq(ty) {
            NonRotatingBox { ltop: lx.spec_plus(ty), rbottom: rx.spec_plus(by) }
        } else {
            NonRotatingBox { ltop: self.ltop, rbottom: self.ltop }
        }
    }

    fn area_intersection(&self, other: &NonRotatingBox<S>) -> (r: NonRotatingBox<S>) {
        let ltop_a = self.ltop.components();
        let rbottom_a = self.rbottom.components();
        let ltop_b = other.ltop.components();
        let rbottom_b = other.rbottom.components();
        let left_x = if ltop_a[0].le(&ltop_b[0]) {
            ltop_b[0]
        } else {
            ltop_a[0]
        };
        let right_x = if rbottom_a[0].le(&rbottom_b[0]) {
            rbottom_a[0]
        } else {
            rbottom_b[0]
        };
        let top_y = if ltop_a[1].le(&ltop_b[1]) {
            ltop_b[1]
        } else {
            ltop_a[1]
        };
        let bottom_y = if rbottom_a[1].le(&rbottom_b[1]) {
            rbottom_a[1]
        } else {
            rbottom_b[1]
        };
        if !right_x.le(&left_x) && !bottom_y.le(&top_y) {
            NonRotatingBox { ltop: left_x.plus(top_y), rbottom: right_x.plus(bottom_y) }
        } else {
            NonRotatingBox { ltop: self.ltop, rbottom: self.ltop }
        }
    }
}

} // verus!
