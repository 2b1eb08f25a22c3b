use vstd::prelude::*;
use crate::scalar::ScalarLike;

verus! {

/// Coefficient `j` of stage `i` of the Butcher tableau, as a fraction: the
/// input of stage `i` (for `1 <= i <= 5`, `j < i`) is the state plus
/// the sum of `k_j` times these.
pub open spec fn stage_fraction(i: int, j: int) -> (i64, i64) {
    if i == 1 {
        (2, 9)
    } else if i == 2 {
        if j == 0 { (1, 12) } else { (1, 4) }
    } else if i == 3 {
        if j == 0 { (69, 128) } else if j == 1 { (-243i64, 128) } else { (135, 64) }
    } else if i == 4 {
        if j == 0 {
            (-17i64, 12)
        } else if j == 1 {
            (27, 4)
        } else if j == 2 {
            (-27i64, 5)
        } else {
            (16, 15)
        }
    } else {
        if j == 0 {
            (65, 432)
        } else if j == 1 {
            (-5i64, 16)
        } else if j == 2 {
            (13, 16)
        } else if j == 3 {
            (4, 27)
        } else {
            (5, 144)
        }
    }
}

/// Weight of `k_i` in the fourth-order estimate, as a fraction.
pub open spec fn order4_fraction(i: int) -> (i64, i64) {
    if i == 0 {
        (1, 9)
    } else if i == 2 {
        (9, 20)
    } else if i == 3 {
        (16, 45)
    } else if i == 4 {
        (1, 12)
    } else {
        (0, 1)
    }
}

/// Weight of `k_i` in the fifth-order estimate, as a fraction.
pub open spec fn order5_fraction(i: int) -> (i64, i64) {
    if i == 0 {
        (47, 450)
    } else if i == 2 {
        (12, 25)
    } else if i == 3 {
        (32, 225)
    } else if i == 4 {
        (1, 30)
    } else if i == 5 {
        (6, 25)
    } else {
        (0, 1)
    }
}

pub open spec fn stage_weight<S: ScalarLike>(i: int, j: int) -> S {
    S::ratio_value(stage_fraction(i, j).0, stage_fraction(i, j).1)
}

pub open spec fn order4_weight<S: ScalarLike>(i: int) -> S {
    S::ratio_value(order4_fraction(i).0, order4_fraction(i).1)
}

pub open spec fn order5_weight<S: ScalarLike>(i: int) -> S {
    S::ratio_value(order5_fraction(i).0, order5_fraction(i).1)
}

/// Weight of `k_i` in the error estimate: fifth-order minus fourth-order
/// weight.
pub open spec fn error_weight<S: ScalarLike>(i: int) -> S {
    order5_weight::<S>(i).difference(order4_weight::<S>(i))
}

/// Coefficient `j` of stage `i`, computed.
pub fn stage_coeff<S: ScalarLike>(i: usize, j: usize) -> (r: S)
    requires
        1 <= i <= 5,
        j < i,
    ensures
        r == stage_weight::<S>(i as int, j as int),
{
    let (num, den): (i64, i64) = if i == 1 {
        (2, 9)
    } else if i == 2 {
        if j == 0 { (1, 12) } else { (1, 4) }
    } else if i == 3 {
        if j == 0 { (69, 128) } else if j == 1 { (-243, 128) } else { (135, 64) }
    } else if i == 4 {
        if j == 0 {
            (-17, 12)
        } else if j == 1 {
            (27, 4)
        } else if j == 2 {
            (-27, 5)
        } else {
            (16, 15)
        }
    } else {
        if j == 0 {
            (65, 432)
        } else if j == 1 {
            (-5, 16)
        } else if j == 2 {
            (13, 16)
        } else if j == 3 {
            (4, 27)
        } else {
            (5, 144)
        }
    };
    S::ratio(num, den)
}

/// Weight of `k_i` in the fourth-order estimate, computed.
pub fn order4_coeff<S: ScalarLike>(i: usize) -> (r: S)
    ensures
        r == order4_weight::<S>(i as int),
{
    let (num, den): (i64, i64) = if i == 0 {
        (1, 9)
    } else if i == 2 {
        (9, 20)
    } else if i == 3 {
        (16, 45)
    } else if i == 4 {
        (1, 12)
    } else {
        (0, 1)
    };
    S::ratio(num, den)
}

/// Weight of `k_i` in the fifth-order estimate, computed.
pub fn order5_coeff<S: ScalarLike>(i: usize) -> (r: S)
    ensures
        r == order5_weight::<S>(i as int),
{
    let (num, den): (i64, i64) = if i == 0 {
        (47, 450)
    } else if i == 2 {
        (12, 25)
    } else if i == 3 {
        (32, 225)
    } else if i == 4 {
        (1, 30)
    } else if i == 5 {
        (6, 25)
    } else {
        (0, 1)
    };
    S::ratio(num, den)
}

} // verus!
