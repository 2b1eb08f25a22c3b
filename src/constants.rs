use vstd::prelude::*;
use crate::scalar::ScalarLike;

verus! {

/// Gravitational constant, 6.6743e-11 N m^2 / kg^2: distances are in meters
/// and masses in kg.
pub open spec fn grav_constant_value<S: ScalarLike>() -> S {
    S::ratio_value(66743, 1_000_000_000_000_000)
}

/// Softening term, 1e-5, added to a mass before dividing by it, so that a
/// body of mass zero does not divide by zero.
pub open spec fn smoothing_value<S: ScalarLike>() -> S {
    S::ratio_value(1, 100_000)
}

/// The gravitational constant, computed.
pub fn grav_constant<S: ScalarLike>() -> (r: S)
    ensures
        r == grav_constant_value::<S>(),
{
    S::ratio(66743, 1_000_000_000_000_000)
}

/// The softening term, computed.
pub fn smoothing_factor<S: ScalarLike>() -> (r: S)
    ensures
        r == smoothing_value::<S>(),
{
    S::ratio(1, 100_000)
}

} // verus!
