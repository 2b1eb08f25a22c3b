use vstd::prelude::*;
use crate::ode::{HasNorm, VectorLike};
use crate::scalar::{zero, zero_value, ScalarLike};

verus! {

/// A vector of three components.
#[derive(Clone, Copy)]
pub struct Vector3<S> {
    pub x: S,
    pub y: S,
    pub z: S,
}

impl<S: ScalarLike> Vector3<S> {
    /// The zero vector.
    pub open spec fn zero_vector() -> Self {
        Vector3 { x: zero_value::<S>(), y: zero_value::<S>(), z: zero_value::<S>() }
    }

    /// `self + rhs`, component by component.
    pub open spec fn plus(self, rhs: Self) -> Self {
        Vector3 { x: self.x.sum(rhs.x), y: self.y.sum(rhs.y), z: self.z.sum(rhs.z) }
    }

    /// `self - rhs`, component by component.
    pub open spec fn minus(self, rhs: Self) -> Self {
        Vector3 {
            x: self.x.difference(rhs.x),
            y: self.y.difference(rhs.y),
            z: self.z.difference(rhs.z),
        }
    }

    /// `self * factor`, component by component.
    pub open spec fn times(self, factor: S) -> Self {
        Vector3 { x: self.x.product(factor), y: self.y.product(factor), z: self.z.product(factor) }
    }

    /// `self / divisor`, component by component.
    pub open spec fn over(self, divisor: S) -> Self {
        Vector3 {
            x: self.x.quotient(divisor),
            y: self.y.quotient(divisor),
            z: self.z.quotient(divisor),
        }
    }

    /// `-self`, component by component.
    pub open spec fn negation(self) -> Self {
        Vector3 { x: self.x.negated(), y: self.y.negated(), z: self.z.negated() }
    }

    /// Dot product `x * x' + y * y' + z * z'`, summed left to right.
    pub open spec fn inner(self, rhs: Self) -> S {
        self.x.product(rhs.x).sum(self.y.product(rhs.y)).sum(self.z.product(rhs.z))
    }

    /// Square of the Euclidean length.
    pub open spec fn squared_norm(self) -> S {
        self.inner(self)
    }

    /// Euclidean length.
    pub open spec fn euclid_norm(self) -> S {
        self.squared_norm().square_root()
    }

    /// Cross product.
    pub open spec fn cross_with(self, rhs: Self) -> Self {
        Vector3 {
            x: self.y.product(rhs.z).difference(self.z.product(rhs.y)),
            y: self.z.product(rhs.x).difference(self.x.product(rhs.z)),
            z: self.x.product(rhs.y).difference(self.y.product(rhs.x)),
        }
    }

    /// Whether each component equals zero as a number.
    pub open spec fn zero_components(self) -> bool {
        self.x.same_as(zero_value::<S>()) && self.y.same_as(zero_value::<S>()) && self.z.same_as(
            zero_value::<S>(),
        )
    }

    /// Orthogonal projection onto the line spanned by `span`, or the zero
    /// vector where `span` is zero.
    pub open spec fn projection(self, span: Self) -> Self {
        if span.zero_components() {
            Self::zero_vector()
        } else {
            span.times(self.inner(span)).over(span.squared_norm())
        }
    }

    /// Create a new vector.
    pub fn new(x: S, y: S, z: S) -> (r: Self)
        ensures
            r == (Vector3 { x, y, z }),
    {
        Vector3 { x, y, z }
    }

    /// The zero vector.
    pub fn zero() -> (r: Self)
        ensures
            r == Self::zero_vector(),
    {
        Vector3 { x: zero(), y: zero(), z: zero() }
    }

    /// Sum of two vectors.
    pub fn add(&self, rhs: &Self) -> (r: Self)
        ensures
            r == self.plus(*rhs),
    {
        Vector3 { x: self.x.add(rhs.x), y: self.y.add(rhs.y), z: self.z.add(rhs.z) }
    }

    /// Difference of two vectors.
    pub fn sub(&self, rhs: &Self) -> (r: Self)
        ensures
            r == self.minus(*rhs),
    {
        Vector3 { x: self.x.sub(rhs.x), y: self.y.sub(rhs.y), z: self.z.sub(rhs.z) }
    }

    /// The vector scaled by a factor.
    pub fn scale(&self, factor: S) -> (r: Self)
        ensures
            r == self.times(factor),
    {
        Vector3 { x: self.x.mul(factor), y: self.y.mul(factor), z: self.z.mul(factor) }
    }

    /// The vector divided by a number. Division by zero is left to the number
    /// type.
    pub fn divide(&self, divisor: S) -> (r: Self)
        ensures
            r == self.over(divisor),
    {
        Vector3 { x: self.x.div(divisor), y: self.y.div(divisor), z: self.z.div(divisor) }
    }

    /// The opposite vector.
    pub fn neg(&self) -> (r: Self)
        ensures
            r == self.negation(),
    {
        Vector3 { x: self.x.neg(), y: self.y.neg(), z: self.z.neg() }
    }

    /// `self += rhs`.
    pub fn add_assign(&mut self, rhs: &Self)
        ensures
            *final(self) == old(self).plus(*rhs),
    {
        *self = self.add(rhs);
    }

    /// `self -= rhs`.
    pub fn sub_assign(&mut self, rhs: &Self)
        ensures
            *final(self) == old(self).minus(*rhs),
    {
        *self = self.sub(rhs);
    }

    /// `self *= factor`.
    pub fn mul_assign(&mut self, factor: S)
        ensures
            *final(self) == old(self).times(factor),
    {
        *self = self.scale(factor);
    }

    /// `self /= divisor`.
    pub fn div_assign(&mut self, divisor: S)
        ensures
            *final(self) == old(self).over(divisor),
    {
        *self = self.divide(divisor);
    }

    /// Dot product of two vectors.
    pub fn dot(&self, rhs: &Self) -> (r: S)
        ensures
            r == self.inner(*rhs),
    {
        self.x.mul(rhs.x).add(self.y.mul(rhs.y)).add(self.z.mul(rhs.z))
    }

    /// Square of the Euclidean length.
    pub fn norm_squared(&self) -> (r: S)
        ensures
            r == self.squared_norm(),
    {
        self.dot(self)
    }

    /// Square of the Euclidean length (same as `norm_squared`).
    pub fn length2(&self) -> (r: S)
        ensures
            r == self.squared_norm(),
    {
        self.norm_squared()
    }

    /// Euclidean length (same as `norm`).
    pub fn length(&self) -> (r: S)
        ensures
            r == self.euclid_norm(),
    {
        self.norm_squared().sqrt()
    }

    /// Cross product of two vectors: a vector orthogonal to both.
    pub fn cross(&self, rhs: &Self) -> (r: Self)
        ensures
            r == self.cross_with(*rhs),
    {
        Vector3 {
            x: self.y.mul(rhs.z).sub(self.z.mul(rhs.y)),
            y: self.z.mul(rhs.x).sub(self.x.mul(rhs.z)),
            z: self.x.mul(rhs.y).sub(self.y.mul(rhs.x)),
        }
    }

    /// Scales the vector to length one; a vector of length zero is left
    /// unchanged.
    pub fn normalize(&mut self)
        ensures
            old(self).euclid_norm().same_as(zero_value::<S>()) ==> *final(self) == *old(self),
            !old(self).euclid_norm().same_as(zero_value::<S>()) ==> *final(self) == old(
                self,
            ).over(old(self).euclid_norm()),
    {
        let length = self.length();
        if length.equals(zero()) {
            return ;
        }
        self.div_assign(length);
    }

    /// Whether every component is zero.
    pub fn is_zero(&self) -> (r: bool)
        ensures
            r == self.zero_components(),
    {
        let z: S = zero();
        self.x.equals(z) && self.y.equals(z) && self.z.equals(z)
    }

    /// Distance between two points.
    pub fn distance_to(&self, rhs: &Self) -> (r: S)
        ensures
            r == self.minus(*rhs).euclid_norm(),
    {
        self.sub(rhs).length()
    }

    /// Orthogonal projection onto the line spanned by `span`; the zero vector
    /// where `span` is the zero vector.
    pub fn project_onto(&self, span: &Self) -> (r: Self)
        ensures
            r == self.projection(*span),
    {
        if span.is_zero() {
            Self::zero()
        } else {
            span.scale(self.dot(span)).divide(span.length2())
        }
    }
    /// Basis of the space spanned by `vectors`, by Gram-Schmidt: each vector
    /// minus its projections onto the vectors kept before it, kept where its
    /// length is at least 1e-9. The kept vectors are not scaled to length
    /// one.
    pub fn orthonormal_basis(vectors: Vec<Self>) -> (r: Vec<Self>)
        ensures
            r@ == gram_schmidt(vectors@, vectors@.len()),
    {
        let threshold: S = S::ratio(1, 1_000_000_000);
        let mut out: Vec<Self> = Vec::new();
        let mut i: usize = 0;
        while i < vectors.len()
            invariant
                i <= vectors@.len(),
                threshold == basis_threshold::<S>(),
                out@ == gram_schmidt(vectors@, i as nat),
            decreases vectors@.len() - i,
        {
            let v = vectors[i];
            let mut cur = v;
            let mut j: usize = 0;
            while j < out.len()
                invariant
                    j <= out@.len(),
                    cur == minus_projections(v, out@, j as nat),
                decreases out@.len() - j,
            {
                cur.sub_assign(&v.project_onto(&out[j]));
                j += 1;
            }
            let len = cur.length();
            if threshold.less_than(len) || len.equals(threshold) {
                out.push(cur);
            }
            i += 1;
        }
        out
    }
}

/// `v` minus its projections onto the first `m` vectors of `basis`,
/// subtracted in order.
pub open spec fn minus_projections<S: ScalarLike>(
    v: Vector3<S>,
    basis: Seq<Vector3<S>>,
    m: nat,
) -> Vector3<S>
    decreases m,
{
    if m == 0 {
        v
    } else {
        minus_projections(v, basis, (m - 1) as nat).minus(v.projection(basis[m - 1]))
    }
}

/// Shortest length, 1e-9, of a vector that `orthonormal_basis` keeps.
pub open spec fn basis_threshold<S: ScalarLike>() -> S {
    S::ratio_value(1, 1_000_000_000)
}

/// Gram-Schmidt over the first `n` vectors of `vs`: each vector minus its
/// projections onto the vectors kept so far is kept where its length is at
/// least the threshold.
pub open spec fn gram_schmidt<S: ScalarLike>(vs: Seq<Vector3<S>>, n: nat) -> Seq<Vector3<S>>
    decreases n,
{
    if n == 0 {
        Seq::empty()
    } else {
        let out = gram_schmidt(vs, (n - 1) as nat);
        let cur = minus_projections(vs[n - 1], out, out.len());
        let len = cur.euclid_norm();
        if basis_threshold::<S>().below(len) || len.same_as(basis_threshold::<S>()) {
            out.push(cur)
        } else {
            out
        }
    }
}

impl<S: ScalarLike> HasNorm<S> for Vector3<S> {
    open spec fn norm_value(&self) -> S {
        self.euclid_norm()
    }

    fn norm(&self) -> (r: S) {
        self.length()
    }
}

impl<S: ScalarLike> VectorLike<S> for Vector3<S> {
    open spec fn compatible(&self, other: &Self) -> bool {
        true
    }

    open spec fn is_scaled_sum(&self, before: &Self, other: &Self, factor: S) -> bool {
        *self == before.plus(other.times(factor))
    }

    open spec fn is_zeroed(&self, before: &Self) -> bool {
        *self == Self::zero_vector()
    }

    fn add_scaled(&mut self, other: &Self, factor: S) {
        self.x = self.x.add(other.x.mul(factor));
        self.y = self.y.add(other.y.mul(factor));
        self.z = self.z.add(other.z.mul(factor));
    }

    fn set_zero(&mut self) {
        *self = Self::zero();
    }
}

} // verus!
