use vstd::prelude::*;
use crate::object::GravityObject;
use crate::object_vector::GravityObjectVector;
use crate::rkf::{
    at_most, evolution, integrate, lemma_integrate_same_bodies, lemma_integrate_time_left,
    finite, rkf_next_state, same_bodies, shrunk_step, step_error, time_order_facts, RKFOptions,
};
use crate::scalar::{zero, zero_value, ScalarLike};

verus! {

/// A simulation: the bodies, in order, and the simulation clock.
pub struct GravitySim<S> {
    /// The bodies, in order.
    pub objects: Vec<GravityObject<S>>,
    /// Simulated time since epoch 0, in seconds.
    pub time: S,
}

impl<S: ScalarLike> GravitySim<S> {
    /// An empty simulation at time zero.
    pub fn new() -> (r: Self)
        ensures
            r.objects@ == Seq::<GravityObject<S>>::empty(),
            r.time == zero_value::<S>(),
    {
        GravitySim { objects: Vec::new(), time: zero() }
    }

    /// A copy of the bodies, in order.
    pub fn objects(&self) -> (r: Vec<GravityObject<S>>)
        ensures
            r@ == self.objects@,
    {
        let mut out: Vec<GravityObject<S>> = Vec::with_capacity(self.objects.len());
        let mut i: usize = 0;
        while i < self.objects.len()
            invariant
                i <= self.objects@.len(),
                out@ == self.objects@.subrange(0, i as int),
            decreases self.objects@.len() - i,
        {
            out.push(self.objects[i]);
            i += 1;
        }
        assert(out@ =~= self.objects@);
        out
    }

    /// Replaces the bodies; the clock is left as it is.
    pub fn set_objects(&mut self, objects: Vec<GravityObject<S>>)
        ensures
            final(self).objects@ == objects@,
            final(self).time == old(self).time,
    {
        self.objects = objects;
    }

    /// Evolves the simulation by `time` seconds (backward when `time` is
    /// negative) and returns the time actually simulated, with the sign of
    /// `time`. The clock advances by that amount.
    pub fn evolve(&mut self, time: S, options: RKFOptions<S>) -> (r: S)
        ensures
            r == evolution(old(self).objects@, time, options).0,
            final(self).objects@ == evolution(old(self).objects@, time, options).1,
            final(self).time == old(self).time.sum(r),
    {
        let mut objects: Vec<GravityObject<S>> = Vec::new();
        std::mem::swap(&mut objects, &mut self.objects);
        let (advanced, state) = rkf_next_state(GravityObjectVector::from_vec(objects), time, options);
        self.objects = state.objects;
        self.time = self.time.add(advanced);
        advanced
    }
}

/// Evolution is deterministic: from the same bodies, the same requested time
/// and the same options, it gives the same advanced time and the same bodies,
/// whatever the clock of the simulation or anything else.
pub proof fn lemma_evolution_deterministic<S: ScalarLike>(
    objs_a: Seq<GravityObject<S>>,
    objs_b: Seq<GravityObject<S>>,
    time_a: S,
    time_b: S,
    options_a: RKFOptions<S>,
    options_b: RKFOptions<S>,
)
    requires
        objs_a == objs_b,
        time_a == time_b,
        options_a == options_b,
    ensures
        evolution(objs_a, time_a, options_a) == evolution(objs_b, time_b, options_b),
{
}

/// With a budget of one attempt, an attempt whose error exceeds the tolerance
/// ends the call: the bodies are unchanged and the time advanced is
/// `|time| - |time|` (signed as `time`): nothing of the requested time is
/// consumed.
pub proof fn lemma_single_rejected_attempt<S: ScalarLike>(
    objs: Seq<GravityObject<S>>,
    time: S,
    options: RKFOptions<S>,
)
    requires
        options.max_steps == 1,
        options.tolerance.below(
            step_error(objs, time.magnitude(), time.below(zero_value::<S>())),
        ),
    ensures
        evolution(objs, time, options).1 == objs,
        evolution(objs, time, options).0 == (if time.below(zero_value::<S>()) {
            time.magnitude().difference(time.magnitude()).negated()
        } else {
            time.magnitude().difference(time.magnitude())
        }),
{
    let backward = time.below(zero_value::<S>());
    let m = time.magnitude();
    let tol = options.tolerance;
    if zero_value::<S>().below(m) {
        let err = step_error(objs, m, backward);
        assert(integrate(objs, m, m, 1, backward, tol) == integrate(
            objs,
            m,
            shrunk_step(m, tol, err),
            0,
            backward,
            tol,
        ));
    }
}

/// Evolution moves the bodies and nothing else: the result holds the same
/// bodies in the same order, each with its id, mass and force unchanged.
pub proof fn lemma_evolution_keeps_bodies<S: ScalarLike>(
    objs: Seq<GravityObject<S>>,
    time: S,
    options: RKFOptions<S>,
)
    ensures
        same_bodies(evolution(objs, time, options).1, objs),
{
    let m = time.magnitude();
    lemma_integrate_same_bodies(
        objs,
        m,
        m,
        options.max_steps as nat,
        time.below(zero_value::<S>()),
        options.tolerance,
    );
}

/// The time that evolution reports never exceeds the request in magnitude:
/// `|evolve(t)| <= |t|`, for a tolerance above zero, a finite requested time,
/// and a number type with the order facts of IEEE-754 arithmetic.
pub proof fn lemma_evolution_time_bound<S: ScalarLike>(
    objs: Seq<GravityObject<S>>,
    time: S,
    options: RKFOptions<S>,
)
    requires
        zero_value::<S>().below(options.tolerance),
        at_most(zero_value::<S>(), time.magnitude()),
        finite(time.magnitude()),
        time_order_facts(options.tolerance),
    ensures
        at_most(evolution(objs, time, options).0.magnitude(), time.magnitude()),
{
    let z = zero_value::<S>();
    let m = time.magnitude();
    let backward = time.below(z);
    let run = integrate(objs, m, m, options.max_steps as nat, backward, options.tolerance);
    assert(m.same_as(m));
    lemma_integrate_time_left(objs, m, m, options.max_steps as nat, backward, options.tolerance, m);
    let adv = m.difference(run.0);
    assert(at_most(z, adv) && at_most(adv, m));
    assert(at_most(adv.magnitude(), m) && at_most(adv.negated().magnitude(), m));
}

} // verus!
