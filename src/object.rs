use vstd::prelude::*;
use crate::vector3::Vector3;

verus! {

/// Identifier of a body, unique within a simulation and chosen by the caller.
pub type ObjectID = u32;

/// A body of the simulation: identity, position, velocity, mass, and the
/// force that acted on it at the last force evaluation.
#[derive(Clone, Copy)]
pub struct GravityObject<S> {
    /// Identifier of the body.
    pub id: ObjectID,
    /// Position in space, in meters.
    pub position: Vector3<S>,
    /// Velocity, in meters per second.
    pub velocity: Vector3<S>,
    /// Mass in kg, at least zero.
    pub mass: S,
    /// Force acting on the body at the last force evaluation; transient.
    pub force: Vector3<S>,
}

impl<S: crate::scalar::ScalarLike> GravityObject<S> {
    /// The same body with another position and velocity.
    pub open spec fn with_motion(self, position: Vector3<S>, velocity: Vector3<S>) -> Self {
        GravityObject { position, velocity, ..self }
    }

    /// Create a new body, with zero force.
    pub fn new(id: ObjectID, position: Vector3<S>, velocity: Vector3<S>, mass: S) -> (r: Self)
        ensures
            r == (GravityObject { id, position, velocity, mass, force: Vector3::<S>::zero_vector() }),
    {
        GravityObject { id, position, velocity, mass, force: Vector3::zero() }
    }
}

} // verus!
