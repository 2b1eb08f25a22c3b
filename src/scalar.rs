use vstd::prelude::*;

verus! {

/// The number type that the simulation computes with.
///
/// Each operation is described by a spec function of its operands, and the
/// executable method returns exactly that value. The contracts of the
/// simulation are stated over these spec functions, so they fix the precise
/// sequence of operations that is performed, operand by operand, rather than
/// an idealised real-number result. An implementation over IEEE-754 doubles
/// meets this by performing each operation once, as its name says: the basic
/// operations and the square root of IEEE-754 are correctly rounded and hence
/// functions of their operands.
pub trait ScalarLike: Sized + Copy {
    /// Value of `self + rhs`.
    spec fn sum(self, rhs: Self) -> Self;

    /// Value of `self - rhs`.
    spec fn difference(self, rhs: Self) -> Self;

    /// Value of `self * rhs`.
    spec fn product(self, rhs: Self) -> Self;

    /// Value of `self / rhs`.
    spec fn quotient(self, rhs: Self) -> Self;

    /// Value of `-self`.
    spec fn negated(self) -> Self;

    /// Value of `|self|`.
    spec fn magnitude(self) -> Self;

    /// Value of the square root of `self`.
    spec fn square_root(self) -> Self;

    /// Value of `self` raised to the power `exponent`.
    spec fn power(self, exponent: Self) -> Self;

    /// Whether `self < rhs`.
    spec fn below(self, rhs: Self) -> bool;

    /// Whether `self == rhs` as numbers.
    spec fn same_as(self, rhs: Self) -> bool;

    /// The number `num / den`, for integers `num` and `den > 0`.
    spec fn ratio_value(num: i64, den: i64) -> Self;

    fn add(self, rhs: Self) -> (r: Self)
        ensures
            r == self.sum(rhs),
    ;

    fn sub(self, rhs: Self) -> (r: Self)
        ensures
            r == self.difference(rhs),
    ;

    fn mul(self, rhs: Self) -> (r: Self)
        ensures
            r == self.product(rhs),
    ;

    fn div(self, rhs: Self) -> (r: Self)
        ensures
            r == self.quotient(rhs),
    ;

    fn neg(self) -> (r: Self)
        ensures
            r == self.negated(),
    ;

    fn abs(self) -> (r: Self)
        ensures
            r == self.magnitude(),
    ;

    fn sqrt(self) -> (r: Self)
        ensures
            r == self.square_root(),
    ;

    fn powf(self, exponent: Self) -> (r: Self)
        ensures
            r == self.power(exponent),
    ;

    fn less_than(self, rhs: Self) -> (r: bool)
        ensures
            r == self.below(rhs),
    ;

    fn equals(self, rhs: Self) -> (r: bool)
        ensures
            r == self.same_as(rhs),
    ;

    fn ratio(num: i64, den: i64) -> (r: Self)
        requires
            den > 0,
        ensures
            r == Self::ratio_value(num, den),
    ;
}

/// The number zero.
pub open spec fn zero_value<S: ScalarLike>() -> S {
    S::ratio_value(0, 1)
}

/// The number zero, computed.
pub fn zero<S: ScalarLike>() -> (r: S)
    ensures
        r == zero_value::<S>(),
{
    S::ratio(0, 1)
}

} // verus!
