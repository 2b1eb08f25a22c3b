//! Newtonian N-body simulation with an adaptive Runge-Kutta-Fehlberg 4(5)
//! integrator, generic over the number type it computes with.
//!
//! The bodies attract each other pairwise by Newton's law of gravitation; the
//! integrator propagates the fifth-order solution and uses the difference to
//! the fourth-order one to accept or reject each step. Every function's
//! contract states its result exactly, as the expression of the number type's
//! operations that it evaluates.
mod constants;
mod forces;
mod object;
mod object_vector;
mod ode;
mod rkf;
mod scalar;
mod sim;
mod tableau;
mod vector3;

pub use constants::{grav_constant, grav_constant_value, smoothing_factor, smoothing_value};
pub use forces::{
    direction_factor, force_sum, net_force, pair_force, slope, slope_seq, update_forces,
    with_forces,
};
pub use object::{GravityObject, ObjectID};
pub use object_vector::{
    copied_motion_seq, difference_seq, motion_norm_squared, over_seq, scaled_sum_seq, sum_seq,
    times_seq, zeroed_seq, GravityObjectVector,
};
pub use ode::{DiffEq, HasNorm, VectorLike};
pub use rkf::{
    at_most, evolution, finite, integrate, lemma_integrate_same_bodies, lemma_integrate_time_left, next_k, rkf_next_state, shrunk_step, stage_input, stages, step_error,
    same_bodies, step_result, time_order_facts, views, weighted_sum, RKFOptions, RKFState,
};
pub use scalar::{zero, zero_value, ScalarLike};
pub use sim::{
    lemma_evolution_deterministic, lemma_evolution_keeps_bodies, lemma_evolution_time_bound,
    lemma_single_rejected_attempt,
    GravitySim,
};
pub use tableau::{
    error_weight, order4_coeff, order4_fraction, order4_weight, order5_coeff, order5_fraction,
    order5_weight, stage_coeff, stage_fraction, stage_weight,
};
pub use vector3::{basis_threshold, gram_schmidt, minus_projections, Vector3};
