use vstd::prelude::*;
use crate::forces::slope_seq;
use crate::object::GravityObject;
use crate::object_vector::{motion_norm_squared, scaled_sum_seq, zeroed_seq, GravityObjectVector};
use crate::ode::{DiffEq, HasNorm, VectorLike};
use crate::scalar::{zero, zero_value, ScalarLike};
use crate::tableau::{
    error_weight, order4_coeff, order5_coeff, order5_weight, stage_coeff, stage_weight,
};

verus! {

/// Options of the adaptive integrator.
pub struct RKFOptions<S> {
    /// Bound on the local error estimate of an accepted step. A lower
    /// tolerance makes the steps smaller.
    pub tolerance: S,
    /// Number of step attempts, accepted or rejected, that one call may make.
    pub max_steps: usize,
    /// Compute-time budget in seconds. The library has no clock and does not
    /// enforce it: the work of a call is bounded by `max_steps`.
    pub max_compute_time: S,
}

impl<S: ScalarLike> RKFOptions<S> {
    /// Create a new options value.
    pub fn new(tolerance: S, max_steps: usize, max_compute_time: S) -> (r: Self)
        ensures
            r == (RKFOptions { tolerance, max_steps, max_compute_time }),
    {
        RKFOptions { tolerance, max_steps, max_compute_time }
    }
}

/// The bodies of each state vector of a list.
pub open spec fn views<S>(k: Seq<GravityObjectVector<S>>) -> Seq<Seq<GravityObject<S>>> {
    k.map_values(|g: GravityObjectVector<S>| g.objects@)
}

/// The state plus the first `n` stages, each scaled by its coefficient for
/// stage `i`, added in order.
pub open spec fn stage_input<S: ScalarLike>(
    state: Seq<GravityObject<S>>,
    ks: Seq<Seq<GravityObject<S>>>,
    i: int,
    n: nat,
) -> Seq<GravityObject<S>>
    decreases n,
{
    if n == 0 {
        state
    } else {
        scaled_sum_seq(stage_input(state, ks, i, (n - 1) as nat), ks[n - 1], stage_weight::<S>(i, n - 1))
    }
}

/// The first `n` stages `k_0, ..., k_(n-1)` of a step of size `h` from
/// `state`: `k_i` is the slope, times `h`, at the state plus the earlier
/// stages weighted by row `i` of the tableau.
pub open spec fn stages<S: ScalarLike>(
    state: Seq<GravityObject<S>>,
    h: S,
    backward: bool,
    n: nat,
) -> Seq<Seq<GravityObject<S>>>
    decreases n,
{
    if n == 0 {
        Seq::empty()
    } else {
        let prev = stages(state, h, backward, (n - 1) as nat);
        prev.push(slope_seq(stage_input(state, prev, n - 1, (n - 1) as nat), backward, h))
    }
}

/// `base` plus the first `n` stages, weighted by the error weights (when
/// `error`) or by the fifth-order weights, added in order.
pub open spec fn weighted_sum<S: ScalarLike>(
    base: Seq<GravityObject<S>>,
    ks: Seq<Seq<GravityObject<S>>>,
    n: nat,
    error: bool,
) -> Seq<GravityObject<S>>
    decreases n,
{
    if n == 0 {
        base
    } else {
        scaled_sum_seq(
            weighted_sum(base, ks, (n - 1) as nat, error),
            ks[n - 1],
            if error { error_weight::<S>(n - 1) } else { order5_weight::<S>(n - 1) },
        )
    }
}

/// Norm of the local error estimate of a step of size `h` from `state`.
pub open spec fn step_error<S: ScalarLike>(state: Seq<GravityObject<S>>, h: S, backward: bool) -> S {
    let e = weighted_sum(zeroed_seq(state), stages(state, h, backward, 6), 6, true);
    motion_norm_squared(e, e.len()).square_root()
}

/// State after an accepted step of size `h`: the fifth-order estimate.
pub open spec fn step_result<S: ScalarLike>(
    state: Seq<GravityObject<S>>,
    h: S,
    backward: bool,
) -> Seq<GravityObject<S>> {
    weighted_sum(state, stages(state, h, backward, 6), 6, false)
}

/// Step size after a rejection: `h * (0.9 * (tolerance / error)^0.2)`.
pub open spec fn shrunk_step<S: ScalarLike>(h: S, tolerance: S, error: S) -> S {
    h.product(
        S::ratio_value(9, 10).product(tolerance.quotient(error).power(S::ratio_value(1, 5))),
    )
}

/// Remaining time and final state of the integration loop, from `state`
/// with `time_left` to go, a next trial step `h`, and `steps` attempts left.
/// An attempt whose error exceeds the tolerance is rejected and retried with
/// a smaller step; an accepted one advances the state and the time, and the
/// next attempt tries the whole remaining time. Every attempt uses one step
/// of the budget.
pub open spec fn integrate<S: ScalarLike>(
    state: Seq<GravityObject<S>>,
    time_left: S,
    h: S,
    steps: nat,
    backward: bool,
    tolerance: S,
) -> (S, Seq<GravityObject<S>>)
    decreases steps,
{
    if steps == 0 || !zero_value::<S>().below(time_left) {
        (time_left, state)
    } else {
        let err = step_error(state, h, backward);
        if tolerance.below(err) {
            integrate(
                state,
                time_left,
                shrunk_step(h, tolerance, err),
                (steps - 1) as nat,
                backward,
                tolerance,
            )
        } else {
            let rest = time_left.difference(h);
            integrate(step_result(state, h, backward), rest, rest, (steps - 1) as nat, backward, tolerance)
        }
    }
}

/// Time advanced (signed as `time`) and final bodies when the bodies
/// `objs` are evolved by `time` with `options`: the integration runs over
/// `|time|`, with time reversed when `time` is negative.
pub open spec fn evolution<S: ScalarLike>(
    objs: Seq<GravityObject<S>>,
    time: S,
    options: RKFOptions<S>,
) -> (S, Seq<GravityObject<S>>) {
    let backward = time.below(zero_value::<S>());
    let magnitude = time.magnitude();
    let run = integrate(
        objs,
        magnitude,
        magnitude,
        options.max_steps as nat,
        backward,
        options.tolerance,
    );
    let advanced = magnitude.difference(run.0);
    (if backward { advanced.negated() } else { advanced }, run.1)
}

/// Whether `a` and `b` hold the same bodies in the same order, up to
/// positions and velocities: same length, and the same id, mass and force at
/// each index.
pub open spec fn same_bodies<S>(a: Seq<GravityObject<S>>, b: Seq<GravityObject<S>>) -> bool {
    &&& a.len() == b.len()
    &&& forall|i: int|
        0 <= i < a.len() ==> #[trigger] a[i].id == b[i].id && a[i].mass == b[i].mass && a[i].force
            == b[i].force
}

proof fn lemma_weighted_sum_same_bodies<S: ScalarLike>(
    base: Seq<GravityObject<S>>,
    ks: Seq<Seq<GravityObject<S>>>,
    n: nat,
    error: bool,
)
    ensures
        same_bodies(weighted_sum(base, ks, n, error), base),
    decreases n,
{
    if n > 0 {
        lemma_weighted_sum_same_bodies(base, ks, (n - 1) as nat, error);
    }
}

/// The integration loop changes positions and velocities only.
pub proof fn lemma_integrate_same_bodies<S: ScalarLike>(
    state: Seq<GravityObject<S>>,
    time_left: S,
    h: S,
    steps: nat,
    backward: bool,
    tolerance: S,
)
    ensures
        same_bodies(integrate(state, time_left, h, steps, backward, tolerance).1, state),
    decreases steps,
{
    if steps > 0 && zero_value::<S>().below(time_left) {
        let err = step_error(state, h, backward);
        if tolerance.below(err) {
            lemma_integrate_same_bodies(
                state,
                time_left,
                shrunk_step(h, tolerance, err),
                (steps - 1) as nat,
                backward,
                tolerance,
            );
        } else {
            let next = step_result(state, h, backward);
            let rest = time_left.difference(h);
            lemma_weighted_sum_same_bodies(state, stages(state, h, backward, 6), 6, false);
            lemma_integrate_same_bodies(next, rest, rest, (steps - 1) as nat, backward, tolerance);
        }
    }
}

/// `a <= b` as the number type compares: below or equal.
pub open spec fn at_most<S: ScalarLike>(a: S, b: S) -> bool {
    a.below(b) || a.same_as(b)
}

/// Whether `a` is finite: `a - a` is zero (it is not for an infinity or a
/// NaN).
pub open spec fn finite<S: ScalarLike>(a: S) -> bool {
    a.difference(a).same_as(zero_value::<S>())
}

/// Facts of the number type's order that the time bookkeeping of the
/// integrator rests on, as IEEE-754 doubles have them for a tolerance above
/// zero: `<=` is reflexive on values from zero up and transitive; a value
/// between zero and a finite value is finite; subtracting `b` from a finite
/// `a`, for `0 <= b <= a`, gives a value between zero and `a`; a shrunk
/// finite step lies between zero and the step it shrinks; and the magnitude
/// of a value between zero and `b`, or of its negation, is at most `b`.
pub open spec fn time_order_facts<S: ScalarLike>(tolerance: S) -> bool {
    &&& forall|a: S| at_most(zero_value::<S>(), a) ==> #[trigger] a.same_as(a)
    &&& forall|a: S, b: S, c: S|
        #[trigger] at_most(a, b) && #[trigger] at_most(b, c) ==> at_most(a, c)
    &&& forall|a: S, b: S|
        at_most(zero_value::<S>(), a) && #[trigger] at_most(a, b) && finite(b) ==> finite(a)
    &&& forall|a: S, b: S|
        at_most(zero_value::<S>(), b) && at_most(b, a) && finite(a) ==> at_most(
            zero_value::<S>(),
            #[trigger] a.difference(b),
        ) && at_most(a.difference(b), a)
    &&& forall|h: S, err: S|
        at_most(zero_value::<S>(), h) && finite(h) && tolerance.below(err) ==> at_most(
            zero_value::<S>(),
            #[trigger] shrunk_step(h, tolerance, err),
        ) && at_most(shrunk_step(h, tolerance, err), h)
    &&& forall|a: S, b: S|
        at_most(zero_value::<S>(), a) && #[trigger] at_most(a, b) ==> at_most(a.magnitude(), b)
            && at_most(a.negated().magnitude(), b)
}

/// Under the order facts, the time left by the integration loop stays
/// between zero and a finite `total` when it starts there with a trial step
/// between zero and the time left.
pub proof fn lemma_integrate_time_left<S: ScalarLike>(
    state: Seq<GravityObject<S>>,
    time_left: S,
    h: S,
    steps: nat,
    backward: bool,
    tolerance: S,
    total: S,
)
    requires
        time_order_facts(tolerance),
        at_most(zero_value::<S>(), h),
        at_most(h, time_left),
        at_most(time_left, total),
        finite(total),
    ensures
        at_most(zero_value::<S>(), integrate(state, time_left, h, steps, backward, tolerance).0),
        at_most(integrate(state, time_left, h, steps, backward, tolerance).0, total),
    decreases steps,
{
    let z = zero_value::<S>();
    assert(at_most(z, time_left));
    assert(finite(time_left));
    assert(finite(h));
    if steps > 0 && z.below(time_left) {
        let err = step_error(state, h, backward);
        if tolerance.below(err) {
            let h2 = shrunk_step(h, tolerance, err);
            assert(at_most(z, h2) && at_most(h2, h));
            assert(at_most(h2, time_left));
            lemma_integrate_time_left(state, time_left, h2, (steps - 1) as nat, backward, tolerance, total);
        } else {
            let rest = time_left.difference(h);
            assert(at_most(z, rest) && at_most(rest, time_left));
            assert(at_most(rest, total));
            assert(rest.same_as(rest));
            lemma_integrate_time_left(
                step_result(state, h, backward),
                rest,
                rest,
                (steps - 1) as nat,
                backward,
                tolerance,
                total,
            );
        }
    }
}

proof fn lemma_stage_input_len<S: ScalarLike>(
    state: Seq<GravityObject<S>>,
    ks: Seq<Seq<GravityObject<S>>>,
    i: int,
    n: nat,
)
    ensures
        stage_input(state, ks, i, n).len() == state.len(),
    decreases n,
{
    if n > 0 {
        lemma_stage_input_len(state, ks, i, (n - 1) as nat);
    }
}

proof fn lemma_stages_len<S: ScalarLike>(
    state: Seq<GravityObject<S>>,
    h: S,
    backward: bool,
    n: nat,
)
    ensures
        stages(state, h, backward, n).len() == n,
        forall|j: int| 0 <= j < n ==> (#[trigger] stages(state, h, backward, n)[j]).len() == state.len(),
    decreases n,
{
    if n > 0 {
        let prev = stages(state, h, backward, (n - 1) as nat);
        lemma_stages_len(state, h, backward, (n - 1) as nat);
        lemma_stage_input_len(state, prev, n - 1, (n - 1) as nat);
    }
}

proof fn lemma_weighted_sum_len<S: ScalarLike>(
    base: Seq<GravityObject<S>>,
    ks: Seq<Seq<GravityObject<S>>>,
    n: nat,
    error: bool,
)
    ensures
        weighted_sum(base, ks, n, error).len() == base.len(),
    decreases n,
{
    if n > 0 {
        lemma_weighted_sum_len(base, ks, (n - 1) as nat, error);
    }
}

/// Computes stage `k_index` of a step of size `h` from `state`, from the
/// stages before it in `k`, and appends it to `k`.
pub fn next_k<S: ScalarLike>(
    k: &mut Vec<GravityObjectVector<S>>,
    state: &GravityObjectVector<S>,
    h: S,
    index: usize,
    diff_eq: &DiffEq,
)
    requires
        index < 6,
        old(k)@.len() == index,
        forall|j: int| 0 <= j < index ==> (#[trigger] old(k)@[j]).objects@.len() == state.objects@.len(),
    ensures
        views(final(k)@) == views(old(k)@).push(
            slope_seq(
                stage_input(state.objects@, views(old(k)@), index as int, index as nat),
                diff_eq.backward,
                h,
            ),
        ),
{
    let ghost ks = views(k@);
    let mut cur = state.duplicate();
    let mut j: usize = 0;
    while j < index
        invariant
            index < 6,
            j <= index,
            k@.len() == index,
            views(k@) == ks,
            forall|m: int| 0 <= m < index ==> (#[trigger] k@[m]).objects@.len() == state.objects@.len(),
            cur.objects@ == stage_input(state.objects@, ks, index as int, j as nat),
        decreases index - j,
    {
        proof {
            lemma_stage_input_len(state.objects@, ks, index as int, j as nat);
        }
        let weight: S = stage_coeff(index, j);
        cur.add_scaled(&k[j], weight);
        j += 1;
    }
    diff_eq.slope(&mut cur, h);
    k.push(cur);
    assert(views(k@) =~= ks.push(cur.objects@));
}

/// State of the adaptive integrator: the equation, the current state and the
/// options.
pub struct RKFState<S> {
    /// Equation of motion to integrate.
    pub diff_eq: DiffEq,
    /// Current state.
    pub state: GravityObjectVector<S>,
    /// Integrator options.
    pub options: RKFOptions<S>,
}

impl<S: ScalarLike> RKFState<S> {
    /// Create a new integrator state.
    pub fn new(diff_eq: DiffEq, state: GravityObjectVector<S>, options: RKFOptions<S>) -> (r: Self)
        ensures
            r.diff_eq == diff_eq,
            r.state == state,
            r.options == options,
    {
        RKFState { diff_eq, state, options }
    }

    /// Integrates over `time` (a duration, not below zero to advance at all)
    /// and returns the time actually advanced: `time` minus what remains
    /// when the step budget runs out first.
    pub fn evolve(&mut self, time: S) -> (r: S)
        ensures
            r == time.difference(
                integrate(
                    old(self).state.objects@,
                    time,
                    time,
                    old(self).options.max_steps as nat,
                    old(self).diff_eq.backward,
                    old(self).options.tolerance,
                ).0,
            ),
            final(self).state.objects@ == integrate(
                old(self).state.objects@,
                time,
                time,
                old(self).options.max_steps as nat,
                old(self).diff_eq.backward,
                old(self).options.tolerance,
            ).1,
            final(self).diff_eq == old(self).diff_eq,
            final(self).options == old(self).options,
    {
        let ghost backward = self.diff_eq.backward;
        let zero_s: S = zero();
        let tolerance = self.options.tolerance;
        let mut steps_left = self.options.max_steps;
        let mut time_left = time;
        // The trial step of the next attempt: the whole remaining time after
        // an accepted step, a shrunk one after a rejection.
        let mut h = time;
        while steps_left > 0 && zero_s.less_than(time_left)
            invariant
                zero_s == zero_value::<S>(),
                tolerance == old(self).options.tolerance,
                self.diff_eq == old(self).diff_eq,
                self.options == old(self).options,
                backward == self.diff_eq.backward,
                integrate(
                    old(self).state.objects@,
                    time,
                    time,
                    old(self).options.max_steps as nat,
                    backward,
                    tolerance,
                ) == integrate(self.state.objects@, time_left, h, steps_left as nat, backward, tolerance),
            decreases steps_left,
        {
            let ghost start = self.state.objects@;
            proof {
                lemma_stages_len(start, h, backward, 6);
            }
            let mut k: Vec<GravityObjectVector<S>> = Vec::new();
            let mut i: usize = 0;
            while i < 6
                invariant
                    i <= 6,
                    self.state.objects@ == start,
                    self.diff_eq.backward == backward,
                    k@.len() == i,
                    views(k@) == stages(start, h, backward, i as nat),
                    forall|m: int| 0 <= m < i ==> (#[trigger] k@[m]).objects@.len() == start.len(),
                decreases 6 - i,
            {
                proof {
                    lemma_stages_len(start, h, backward, (i + 1) as nat);
                }
                next_k(&mut k, &self.state, h, i, &self.diff_eq);
                proof {
                    assert forall|m: int| 0 <= m < i + 1 implies (#[trigger] k@[m]).objects@.len()
                        == start.len() by {
                        assert(views(k@)[m] == k@[m].objects@);
                        assert(views(k@)[m] == stages(start, h, backward, (i + 1) as nat)[m]);
                    }
                }
                i += 1;
            }
            let ghost ks = views(k@);
            let mut error = self.state.duplicate();
            error.set_zero();
            let mut i: usize = 0;
            while i < 6
                invariant
                    i <= 6,
                    k@.len() == 6,
                    views(k@) == ks,
                    forall|m: int| 0 <= m < 6 ==> (#[trigger] k@[m]).objects@.len() == start.len(),
                    error.objects@ == weighted_sum(zeroed_seq(start), ks, i as nat, true),
                decreases 6 - i,
            {
                proof {
                    lemma_weighted_sum_len(zeroed_seq(start), ks, i as nat, true);
                }
                let weight: S = order5_coeff::<S>(i).sub(order4_coeff(i));
                error.add_scaled(&k[i], weight);
                i += 1;
            }
            let error_size = error.norm();
            steps_left -= 1;
            if tolerance.less_than(error_size) {
                let shrink: S = S::ratio(9, 10).mul(tolerance.div(error_size).powf(S::ratio(1, 5)));
                h = h.mul(shrink);
            } else {
                let mut i: usize = 0;
                while i < 6
                    invariant
                        i <= 6,
                        k@.len() == 6,
                        views(k@) == ks,
                        forall|m: int| 0 <= m < 6 ==> (#[trigger] k@[m]).objects@.len() == start.len(),
                        self.state.objects@ == weighted_sum(start, ks, i as nat, false),
                        self.diff_eq == old(self).diff_eq,
                        self.options == old(self).options,
                    decreases 6 - i,
                {
                    proof {
                        lemma_weighted_sum_len(start, ks, i as nat, false);
                    }
                    let weight: S = order5_coeff(i);
                    self.state.add_scaled(&k[i], weight);
                    i += 1;
                }
                time_left = time_left.sub(h);
                h = time_left;
            }
        }
        time.sub(time_left)
    }
}

/// Evolves the bodies of `state` by `time` (backward in time when `time`
/// is negative) and returns the time actually advanced, with the sign of
/// `time`, and the new state.
pub fn rkf_next_state<S: ScalarLike>(
    state: GravityObjectVector<S>,
    time: S,
    options: RKFOptions<S>,
) -> (r: (S, GravityObjectVector<S>))
    ensures
        r.0 == evolution(state.objects@, time, options).0,
        r.1.objects@ == evolution(state.objects@, time, options).1,
{
    let backward = time.less_than(zero());
    let magnitude = time.abs();
    let mut rkf = RKFState::new(DiffEq::new(backward), state, options);
    let advanced = rkf.evolve(magnitude);
    let signed = if backward {
        advanced.neg()
    } else {
        advanced
    };
    (signed, rkf.state)
}

} // verus!
