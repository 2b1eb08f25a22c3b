use vstd::prelude::*;
use crate::object::GravityObject;
use crate::ode::{HasNorm, VectorLike};
use crate::scalar::{zero, zero_value, ScalarLike};
use crate::vector3::Vector3;

verus! {

/// `a + b * factor` on positions and velocities, body by body; every other
/// field is that of `a`.
pub open spec fn scaled_sum_seq<S: ScalarLike>(
    a: Seq<GravityObject<S>>,
    b: Seq<GravityObject<S>>,
    factor: S,
) -> Seq<GravityObject<S>> {
    Seq::new(
        a.len(),
        |i: int|
            a[i].with_motion(
                a[i].position.plus(b[i].position.times(factor)),
                a[i].velocity.plus(b[i].velocity.times(factor)),
            ),
    )
}

/// `a` with every position and velocity set to zero.
pub open spec fn zeroed_seq<S: ScalarLike>(a: Seq<GravityObject<S>>) -> Seq<GravityObject<S>> {
    Seq::new(
        a.len(),
        |i: int| a[i].with_motion(Vector3::<S>::zero_vector(), Vector3::<S>::zero_vector()),
    )
}

/// `target` with the positions and velocities of `source`, index by index.
pub open spec fn copied_motion_seq<S: ScalarLike>(
    target: Seq<GravityObject<S>>,
    source: Seq<GravityObject<S>>,
) -> Seq<GravityObject<S>> {
    Seq::new(
        target.len(),
        |i: int| target[i].with_motion(source[i].position, source[i].velocity),
    )
}

/// `a + b` on positions and velocities, body by body.
pub open spec fn sum_seq<S: ScalarLike>(
    a: Seq<GravityObject<S>>,
    b: Seq<GravityObject<S>>,
) -> Seq<GravityObject<S>> {
    Seq::new(
        a.len(),
        |i: int| a[i].with_motion(a[i].position.plus(b[i].position), a[i].velocity.plus(b[i].velocity)),
    )
}

/// `a - b` on positions and velocities, body by body.
pub open spec fn difference_seq<S: ScalarLike>(
    a: Seq<GravityObject<S>>,
    b: Seq<GravityObject<S>>,
) -> Seq<GravityObject<S>> {
    Seq::new(
        a.len(),
        |i: int|
            a[i].with_motion(a[i].position.minus(b[i].position), a[i].velocity.minus(b[i].velocity)),
    )
}

/// `a * factor` on positions and velocities, body by body.
pub open spec fn times_seq<S: ScalarLike>(a: Seq<GravityObject<S>>, factor: S) -> Seq<
    GravityObject<S>,
> {
    Seq::new(
        a.len(),
        |i: int| a[i].with_motion(a[i].position.times(factor), a[i].velocity.times(factor)),
    )
}

/// `a / divisor` on positions and velocities, body by body.
pub open spec fn over_seq<S: ScalarLike>(a: Seq<GravityObject<S>>, divisor: S) -> Seq<
    GravityObject<S>,
> {
    Seq::new(
        a.len(),
        |i: int| a[i].with_motion(a[i].position.over(divisor), a[i].velocity.over(divisor)),
    )
}

/// Sum, over the first `n` bodies in order, of the squared length of the
/// position plus the squared length of the velocity.
pub open spec fn motion_norm_squared<S: ScalarLike>(objs: Seq<GravityObject<S>>, n: nat) -> S
    decreases n,
{
    if n == 0 {
        zero_value::<S>()
    } else {
        let o = objs[n - 1];
        motion_norm_squared(objs, (n - 1) as nat).sum(
            o.position.squared_norm().sum(o.velocity.squared_norm()),
        )
    }
}

/// The ordered bodies of a simulation, seen as one point of a vector space:
/// positions and velocities take part in the arithmetic, while ids, masses
/// and forces are carried along unchanged. Vectors that are combined must
/// have the same length; bodies correspond by index.
pub struct GravityObjectVector<S> {
    /// The bodies, in order.
    pub objects: Vec<GravityObject<S>>,
}

impl<S: ScalarLike> GravityObjectVector<S> {
    /// Create a new empty vector of bodies.
    pub fn new() -> (r: Self)
        ensures
            r.objects@ == Seq::<GravityObject<S>>::empty(),
    {
        GravityObjectVector { objects: Vec::new() }
    }

    /// Create from a list of bodies.
    pub fn from_vec(vec: Vec<GravityObject<S>>) -> (r: Self)
        ensures
            r.objects@ == vec@,
    {
        GravityObjectVector { objects: vec }
    }

    /// Number of bodies.
    pub fn len(&self) -> (r: usize)
        ensures
            r == self.objects@.len(),
    {
        self.objects.len()
    }

    /// A vector holding the same bodies.
    pub fn duplicate(&self) -> (r: Self)
        ensures
            r.objects@ == self.objects@,
    {
        let mut objects: Vec<GravityObject<S>> = Vec::with_capacity(self.objects.len());
        let mut i: usize = 0;
        while i < self.objects.len()
            invariant
                i <= self.objects@.len(),
                objects@ == self.objects@.subrange(0, i as int),
            decreases self.objects@.len() - i,
        {
            objects.push(self.objects[i]);
            i += 1;
        }
        assert(objects@ =~= self.objects@);
        GravityObjectVector { objects }
    }

    /// Squared Euclidean norm of all positions and velocities taken together.
    pub fn norm_squared(&self) -> (r: S)
        ensures
            r == motion_norm_squared(self.objects@, self.objects@.len()),
    {
        let mut total: S = zero();
        let mut i: usize = 0;
        while i < self.objects.len()
            invariant
                i <= self.objects@.len(),
                total == motion_norm_squared(self.objects@, i as nat),
            decreases self.objects@.len() - i,
        {
            let object = &self.objects[i];
            total = total.add(object.position.norm_squared().add(object.velocity.norm_squared()));
            i += 1;
        }
        total
    }

    /// Copies the positions and velocities into `other`, index by index; the
    /// ids, masses and forces of `other` are left as they are.
    pub fn clone_into(&self, other: &mut Self)
        requires
            old(other).objects@.len() == self.objects@.len(),
        ensures
            final(other).objects@ == copied_motion_seq(old(other).objects@, self.objects@),
    {
        let mut i: usize = 0;
        while i < self.objects.len()
            invariant
                i <= self.objects@.len(),
                other.objects@.len() == self.objects@.len(),
                forall|j: int|
                    0 <= j < i ==> other.objects@[j] == old(other).objects@[j].with_motion(
                        self.objects@[j].position,
                        self.objects@[j].velocity,
                    ),
                forall|j: int| i <= j < self.objects@.len() ==> other.objects@[j] == old(other).objects@[j],
            decreases self.objects@.len() - i,
        {
            let mut o = other.objects[i];
            o.position = self.objects[i].position;
            o.velocity = self.objects[i].velocity;
            other.objects.set(i, o);
            i += 1;
        }
        assert(other.objects@ =~= copied_motion_seq(old(other).objects@, self.objects@));
    }

    /// `self += rhs` on positions and velocities, index by index.
    pub fn add_assign(&mut self, rhs: &Self)
        requires
            old(self).objects@.len() == rhs.objects@.len(),
        ensures
            final(self).objects@ == sum_seq(old(self).objects@, rhs.objects@),
    {
        let mut i: usize = 0;
        while i < self.objects.len()
            invariant
                i <= self.objects@.len(),
                self.objects@.len() == old(self).objects@.len(),
                rhs.objects@.len() == old(self).objects@.len(),
                forall|j: int| 0 <= j < i ==> self.objects@[j] == sum_seq(old(self).objects@, rhs.objects@)[j],
                forall|j: int| i <= j < self.objects@.len() ==> self.objects@[j] == old(self).objects@[j],
            decreases self.objects@.len() - i,
        {
            let mut o = self.objects[i];
            o.position.add_assign(&rhs.objects[i].position);
            o.velocity.add_assign(&rhs.objects[i].velocity);
            self.objects.set(i, o);
            i += 1;
        }
        assert(self.objects@ =~= sum_seq(old(self).objects@, rhs.objects@));
    }

    /// `self -= rhs` on positions and velocities, index by index.
    pub fn sub_assign(&mut self, rhs: &Self)
        requires
            old(self).objects@.len() == rhs.objects@.len(),
        ensures
            final(self).objects@ == difference_seq(old(self).objects@, rhs.objects@),
    {
        let mut i: usize = 0;
        while i < self.objects.len()
            invariant
                i <= self.objects@.len(),
                self.objects@.len() == old(self).objects@.len(),
                rhs.objects@.len() == old(self).objects@.len(),
                forall|j: int|
                    0 <= j < i ==> self.objects@[j] == difference_seq(old(self).objects@, rhs.objects@)[j],
                forall|j: int| i <= j < self.objects@.len() ==> self.objects@[j] == old(self).objects@[j],
            decreases self.objects@.len() - i,
        {
            let mut o = self.objects[i];
            o.position.sub_assign(&rhs.objects[i].position);
            o.velocity.sub_assign(&rhs.objects[i].velocity);
            self.objects.set(i, o);
            i += 1;
        }
        assert(self.objects@ =~= difference_seq(old(self).objects@, rhs.objects@));
    }

    /// `self *= factor` on positions and velocities.
    pub fn mul_assign(&mut self, factor: S)
        ensures
            final(self).objects@ == times_seq(old(self).objects@, factor),
    {
        let mut i: usize = 0;
        while i < self.objects.len()
            invariant
                i <= self.objects@.len(),
                self.objects@.len() == old(self).objects@.len(),
                forall|j: int| 0 <= j < i ==> self.objects@[j] == times_seq(old(self).objects@, factor)[j],
                forall|j: int| i <= j < self.objects@.len() ==> self.objects@[j] == old(self).objects@[j],
            decreases self.objects@.len() - i,
        {
            let mut o = self.objects[i];
            o.position.mul_assign(factor);
            o.velocity.mul_assign(factor);
            self.objects.set(i, o);
            i += 1;
        }
        assert(self.objects@ =~= times_seq(old(self).objects@, factor));
    }

    /// `self /= divisor` on positions and velocities.
    pub fn div_assign(&mut self, divisor: S)
        ensures
            final(self).objects@ == over_seq(old(self).objects@, divisor),
    {
        let mut i: usize = 0;
        while i < self.objects.len()
            invariant
                i <= self.objects@.len(),
                self.objects@.len() == old(self).objects@.len(),
                forall|j: int| 0 <= j < i ==> self.objects@[j] == over_seq(old(self).objects@, divisor)[j],
                forall|j: int| i <= j < self.objects@.len() ==> self.objects@[j] == old(self).objects@[j],
            decreases self.objects@.len() - i,
        {
            let mut o = self.objects[i];
            o.position.div_assign(divisor);
            o.velocity.div_assign(divisor);
            self.objects.set(i, o);
            i += 1;
        }
        assert(self.objects@ =~= over_seq(old(self).objects@, divisor));
    }
}

impl<S: ScalarLike> HasNorm<S> for GravityObjectVector<S> {
    open spec fn norm_value(&self) -> S {
        motion_norm_squared(self.objects@, self.objects@.len()).square_root()
    }

    /// Euclidean norm of all positions and velocities taken together.
    fn norm(&self) -> (r: S) {
        self.norm_squared().sqrt()
    }
}

impl<S: ScalarLike> VectorLike<S> for GravityObjectVector<S> {
    open spec fn compatible(&self, other: &Self) -> bool {
        self.objects@.len() == other.objects@.len()
    }

    open spec fn is_scaled_sum(&self, before: &Self, other: &Self, factor: S) -> bool {
        self.objects@ == scaled_sum_seq(before.objects@, other.objects@, factor)
    }

    open spec fn is_zeroed(&self, before: &Self) -> bool {
        self.objects@ == zeroed_seq(before.objects@)
    }

    /// Adds `other`, scaled, to the positions and velocities, index by index.
    fn add_scaled(&mut self, other: &Self, factor: S) {
        let mut i: usize = 0;
        while i < self.objects.len()
            invariant
                i <= self.objects@.len(),
                self.objects@.len() == old(self).objects@.len(),
                other.objects@.len() == old(self).objects@.len(),
                forall|j: int|
                    0 <= j < i ==> self.objects@[j] == scaled_sum_seq(
                        old(self).objects@,
                        other.objects@,
                        factor,
                    )[j],
                forall|j: int| i <= j < self.objects@.len() ==> self.objects@[j] == old(self).objects@[j],
            decreases self.objects@.len() - i,
        {
            let mut o = self.objects[i];
            o.position.add_scaled(&other.objects[i].position, factor);
            o.velocity.add_scaled(&other.objects[i].velocity, factor);
            self.objects.set(i, o);
            i += 1;
        }
        assert(self.objects@ =~= scaled_sum_seq(old(self).objects@, other.objects@, factor));
    }

    /// Sets all positions and velocities to zero.
    fn set_zero(&mut self) {
        let mut i: usize = 0;
        while i < self.objects.len()
            invariant
                i <= self.objects@.len(),
                self.objects@.len() == old(self).objects@.len(),
                forall|j: int| 0 <= j < i ==> self.objects@[j] == zeroed_seq(old(self).objects@)[j],
                forall|j: int| i <= j < self.objects@.len() ==> self.objects@[j] == old(self).objects@[j],
            decreases self.objects@.len() - i,
        {
            let mut o = self.objects[i];
            o.position.set_zero();
            o.velocity.set_zero();
            self.objects.set(i, o);
            i += 1;
        }
        assert(self.objects@ =~= zeroed_seq(old(self).objects@));
    }
}

} // verus!
