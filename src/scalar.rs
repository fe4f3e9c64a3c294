//! Integer scalar helpers shared by the vector and matrix types.
//!
//! The arithmetic of this library is done on `i64`. Contracts speak of the
//! mathematical integers; `fits` says when an intermediate value is
//! representable, and `tdiv` is division rounded toward zero, as `/` on
//! `i64` computes it.
use vstd::prelude::*;

verus! {

/// A mathematical integer that an `i64` can hold.
pub open spec fn fits(v: int) -> bool {
    i64::MIN <= v <= i64::MAX
}

/// Division rounded toward zero.
pub open spec fn tdiv(a: int, b: int) -> int {
    if a == 0 {
        0
    } else if a > 0 && b > 0 {
        a / b
    } else if a < 0 && b < 0 {
        (-a) / (-b)
    } else if a < 0 {
        -((-a) / b)
    } else {
        -(a / (-b))
    }
}

/// When `a / b` on `i64` neither divides by zero nor overflows.
pub open spec fn div_ok(a: int, b: int) -> bool {
    b != 0 && !(a == i64::MIN && b == -1)
}

/// `r` is the square root of `v` rounded down.
pub open spec fn is_floor_sqrt(r: int, v: int) -> bool {
    0 <= r && r * r <= v && v < (r + 1) * (r + 1)
}

/// The square root of `v` rounded down, for `v >= 0`.
pub open spec fn floor_sqrt(v: int) -> int {
    choose|r: int| is_floor_sqrt(r, v)
}

/// At most one integer is the rounded-down square root of a value.
pub proof fn lemma_floor_sqrt_unique(r1: int, r2: int, v: int)
    requires
        is_floor_sqrt(r1, v),
        is_floor_sqrt(r2, v),
    ensures
        r1 == r2,
{
    if r1 < r2 {
        assert((r1 + 1) * (r1 + 1) <= r2 * r2) by (nonlinear_arith)
            requires
                0 <= r1,
                r1 + 1 <= r2,
        ;
    } else if r2 < r1 {
        assert((r2 + 1) * (r2 + 1) <= r1 * r1) by (nonlinear_arith)
            requires
                0 <= r2,
                r2 + 1 <= r1,
        ;
    }
}

/// Division of `i64` values, rounded toward zero.
pub fn div_trunc(a: i64, b: i64) -> (r: i64)
    requires
        div_ok(a as int, b as int),
    ensures
        r == tdiv(a as int, b as int),
{
    let q = if b > 0 {
        a / b
    } else if b == i64::MIN {
        if a == i64::MIN {
            1
        } else {
            proof {
                let x: int = if a >= 0 { a as int } else { -(a as int) };
                vstd::arithmetic::div_mod::lemma_basic_div(x, -(b as int));
            }
            0
        }
    } else {
        proof {
            let x: int = if a >= 0 { a as int } else { -(a as int) };
            assert(0 <= x / (-(b as int)) <= x && (-(b as int) >= 2 ==> 2 * (x / (-(b as int))) <= x)) by (nonlinear_arith)
                requires
                    x >= 0,
                    -(b as int) >= 1,
            ;
        }
        let p = a / (-b);
        assert(p == tdiv(a as int, -(b as int)));
        -p
    };
    q
}

/// Relies on `i64::isqrt`: the square root of a non-negative value, rounded
/// down (it panics only on negative values).
#[verifier::external_body]
fn isqrt(v: i64) -> (r: i64)
    requires
        v >= 0,
    ensures
        is_floor_sqrt(r as int, v as int),
{
    v.isqrt()
}

/// The square root of a non-negative `i64`, rounded down.
pub fn sqrt_floor(v: i64) -> (r: i64)
    requires
        v >= 0,
    ensures
        r == floor_sqrt(v as int),
        is_floor_sqrt(r as int, v as int),
{
    let r = isqrt(v);
    proof {
        let c = floor_sqrt(v as int);
        assert(is_floor_sqrt(c, v as int));
        lemma_floor_sqrt_unique(r as int, c, v as int);
    }
    r
}

} // verus!
