use vstd::prelude::*;
use crate::constants::{grav_constant, grav_constant_value, smoothing_factor, smoothing_value};
use crate::object::GravityObject;
use crate::object_vector::GravityObjectVector;
use crate::scalar::ScalarLike;
use crate::vector3::Vector3;

verus! {

/// Force that body `b` exerts on body `a`:
/// `d * (G * m_a * m_b / |d|^3)` with `d = b.position - a.position`.
/// Only positions and masses enter it.
pub open spec fn pair_force<S: ScalarLike>(a: GravityObject<S>, b: GravityObject<S>) -> Vector3<S> {
    let d = b.position.minus(a.position);
    let dist = d.euclid_norm();
    d.times(
        grav_constant_value::<S>().product(a.mass).product(b.mass).quotient(
            dist.product(dist).product(dist),
        ),
    )
}

/// Sum, in index order, of the forces that the first `n` bodies other than
/// body `i` exert on body `i`, starting from the zero vector.
pub open spec fn force_sum<S: ScalarLike>(objs: Seq<GravityObject<S>>, i: int, n: nat) -> Vector3<
    S,
>
    decreases n,
{
    if n == 0 {
        Vector3::<S>::zero_vector()
    } else {
        let prev = force_sum(objs, i, (n - 1) as nat);
        if n - 1 == i {
            prev
        } else {
            prev.plus(pair_force(objs[i], objs[n - 1]))
        }
    }
}

/// Net force on body `i` from all the other bodies.
pub open spec fn net_force<S: ScalarLike>(objs: Seq<GravityObject<S>>, i: int) -> Vector3<S> {
    force_sum(objs, i, objs.len())
}

/// The bodies with their forces set to the net forces on them.
pub open spec fn with_forces<S: ScalarLike>(objs: Seq<GravityObject<S>>) -> Seq<GravityObject<S>> {
    Seq::new(objs.len(), |i: int| GravityObject { force: net_force(objs, i), ..objs[i] })
}

/// The factor that derivatives are multiplied with: `multiplier`, negated
/// when time runs backward.
pub open spec fn direction_factor<S: ScalarLike>(backward: bool, multiplier: S) -> S {
    multiplier.product(if backward { S::ratio_value(-1i64, 1) } else { S::ratio_value(1, 1) })
}

/// Time derivative of the state, times `multiplier` (negated when time runs
/// backward): each position becomes `velocity * m`, each velocity becomes
/// `force * m / (mass + softening)`, each force the net force on the body.
pub open spec fn slope_seq<S: ScalarLike>(
    objs: Seq<GravityObject<S>>,
    backward: bool,
    multiplier: S,
) -> Seq<GravityObject<S>> {
    let m = direction_factor(backward, multiplier);
    Seq::new(
        objs.len(),
        |i: int|
            GravityObject {
                position: objs[i].velocity.times(m),
                velocity: net_force(objs, i).times(m).over(objs[i].mass.sum(smoothing_value::<S>())),
                force: net_force(objs, i),
                ..objs[i]
            },
    )
}

/// Sets the force on each body to the net force that the others exert on it.
pub fn update_forces<S: ScalarLike>(state: &mut GravityObjectVector<S>)
    ensures
        final(state).objects@ == with_forces(old(state).objects@),
{
    let ghost before = state.objects@;
    let n: usize = state.objects.len();
    let mut i: usize = 0;
    while i < n
        invariant
            n == before.len(),
            i <= n,
            state.objects@.len() == n,
            forall|k: int| 0 <= k < i ==> state.objects@[k] == with_forces(before)[k],
            forall|k: int| i <= k < n ==> state.objects@[k] == before[k],
            forall|k: int|
                0 <= k < n ==> (#[trigger] state.objects@[k]).position == before[k].position
                    && state.objects@[k].mass == before[k].mass,
        decreases n - i,
    {
        let mut total: Vector3<S> = Vector3::zero();
        let mut j: usize = 0;
        while j < n
            invariant
                n == before.len(),
                i < n,
                j <= n,
                state.objects@.len() == n,
                forall|k: int|
                    0 <= k < n ==> (#[trigger] state.objects@[k]).position == before[k].position
                        && state.objects@[k].mass == before[k].mass,
                total == force_sum(before, i as int, j as nat),
            decreases n - j,
        {
            if i != j {
                let mut pos_diff = state.objects[j].position;
                pos_diff.sub_assign(&state.objects[i].position);
                let distance = pos_diff.length();
                let distance_cubed = distance.mul(distance).mul(distance);
                let force = pos_diff.scale(
                    grav_constant::<S>().mul(state.objects[i].mass).mul(
                        state.objects[j].mass,
                    ).div(distance_cubed),
                );
                total.add_assign(&force);
            }
            j += 1;
        }
        let mut o = state.objects[i];
        o.force = total;
        state.objects.set(i, o);
        i += 1;
    }
    assert(state.objects@ =~= with_forces(before));
}

/// Replaces the state by its time derivative times `multiplier` (negated
/// when `backward`); the forces are updated on the way.
pub fn slope<S: ScalarLike>(state: &mut GravityObjectVector<S>, backward: bool, multiplier: S)
    ensures
        final(state).objects@ == slope_seq(old(state).objects@, backward, multiplier),
{
    let ghost before = state.objects@;
    update_forces(state);
    let sign: S = if backward {
        S::ratio(-1, 1)
    } else {
        S::ratio(1, 1)
    };
    let m = multiplier.mul(sign);
    let smoothing: S = smoothing_factor();
    let n: usize = state.objects.len();
    let mut i: usize = 0;
    while i < n
        invariant
            n == before.len(),
            i <= n,
            m == direction_factor(backward, multiplier),
            smoothing == smoothing_value::<S>(),
            state.objects@.len() == n,
            forall|k: int|
                0 <= k < i ==> state.objects@[k] == slope_seq(before, backward, multiplier)[k],
            forall|k: int| i <= k < n ==> state.objects@[k] == with_forces(before)[k],
        decreases n - i,
    {
        let mut o = state.objects[i];
        assert(o == with_forces(before)[i as int]);
        o.position = o.velocity.scale(m);
        o.velocity = o.force.scale(m).divide(o.mass.add(smoothing));
        state.objects.set(i, o);
        i += 1;
    }
    assert(state.objects@ =~= slope_seq(before, backward, multiplier));
}

} // verus!
