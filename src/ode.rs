use vstd::prelude::*;
use crate::forces::{slope, slope_seq};
use crate::object_vector::GravityObjectVector;
use crate::scalar::ScalarLike;

verus! {

/// Types with a Euclidean (L2) norm.
pub trait HasNorm<S: ScalarLike> {
    /// The norm, as the implementing type computes it.
    spec fn norm_value(&self) -> S;

    /// L2 norm.
    fn norm(&self) -> (r: S)
        ensures
            r == self.norm_value(),
    ;
}

/// Vector-like values that the integrator combines in place: a fused
/// scaled addition and a reset to zero, besides the norm.
pub trait VectorLike<S: ScalarLike>: HasNorm<S> + Sized {
    /// Whether `self` and `other` have the same shape, so that they can be
    /// combined component by component.
    spec fn compatible(&self, other: &Self) -> bool;

    /// Whether `self` is `before + other * factor`, component by component.
    spec fn is_scaled_sum(&self, before: &Self, other: &Self, factor: S) -> bool;

    /// Whether `self` is `before` with every component set to zero.
    spec fn is_zeroed(&self, before: &Self) -> bool;

    /// `self += other * factor`, without an intermediate value.
    fn add_scaled(&mut self, other: &Self, factor: S)
        requires
            old(self).compatible(other),
        ensures
            final(self).is_scaled_sum(old(self), other, factor),
    ;

    /// Sets every component to zero.
    fn set_zero(&mut self)
        ensures
            final(self).is_zeroed(old(self)),
    ;
}

/// The equation of motion of the bodies under their mutual gravitation, with
/// time running forward or backward. Time is reversed by negating the
/// derivative, so that step sizes stay positive either way.
pub struct DiffEq {
    /// Whether time runs backward.
    pub backward: bool,
}

impl DiffEq {
    /// Create the equation of motion, with time running forward or backward.
    pub fn new(backward: bool) -> (r: DiffEq)
        ensures
            r.backward == backward,
    {
        DiffEq { backward }
    }

    /// Replaces `state` by its time derivative times the step `h`.
    pub fn slope<S: ScalarLike>(&self, state: &mut GravityObjectVector<S>, h: S)
        ensures
            final(state).objects@ == slope_seq(old(state).objects@, self.backward, h),
    {
        slope(state, self.backward, h);
    }
}

} // verus!
