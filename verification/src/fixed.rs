//! Fixed-point scalars in micro-units.
//!
//! A scalar is an `i64` counting millionths: `MICRO` is one, `HALF` is one
//! half. Products of two scalars are reduced back to micro-units by a
//! division that truncates toward zero, the same rounding that `i64`
//! division performs.

use vstd::prelude::*;
use vstd::arithmetic::div_mod::lemma_div_multiples_vanish;

verus! {

/// One, in micro-units.
pub const MICRO: i64 = 1_000_000;

/// One half, in micro-units: the coordinate magnitude of every vertex of
/// the canonical unit cube.
pub const HALF: i64 = 500_000;

/// Largest coordinate magnitude the transforms accept, in micro-units
/// (one thousand units). Keeps every intermediate product inside `i64`.
pub const COORD_MAX: i64 = 1_000_000_000;

/// Largest scale-factor magnitude `scale` accepts, in micro-units
/// (one thousand). Keeps every intermediate product inside `i64`.
pub const FACTOR_MAX: i64 = 1_000_000_000;

/// Division truncating toward zero, the rounding of `i64` division.
/// Defined for positive divisors only.
pub open spec fn div_trunc(x: int, d: int) -> int
    recommends
        d > 0,
{
    if x >= 0 {
        x / d
    } else {
        -((-x) / d)
    }
}

/// A product of micro-unit scalars, reduced back to micro-units.
pub open spec fn mul_micro(a: int, b: int) -> int {
    div_trunc(a * b, MICRO as int)
}

/// Truncating division never grows the magnitude of its dividend.
pub proof fn lemma_div_trunc_bound(x: int, d: int)
    requires
        d >= 1,
    ensures
        x >= 0 ==> 0 <= div_trunc(x, d) <= x,
        x < 0 ==> x <= div_trunc(x, d) <= 0,
{
    if x >= 0 {
        vstd::arithmetic::div_mod::lemma_div_is_ordered_by_denominator(x, 1, d);
        vstd::arithmetic::div_mod::lemma_div_pos_is_pos(x, d);
    } else {
        vstd::arithmetic::div_mod::lemma_div_is_ordered_by_denominator(-x, 1, d);
        vstd::arithmetic::div_mod::lemma_div_pos_is_pos(-x, d);
    }
}

/// An exact multiple divides back to its cofactor: truncation loses nothing.
pub proof fn lemma_div_trunc_exact(x: int, d: int)
    requires
        d > 0,
    ensures
        div_trunc(x * d, d) == x,
{
    if x >= 0 {
        lemma_div_multiples_vanish(x, d);
        assert(x * d >= 0) by (nonlinear_arith)
            requires
                x >= 0,
                d > 0,
        ;
        assert(d * x == x * d) by (nonlinear_arith);
    } else {
        lemma_div_multiples_vanish(-x, d);
        assert(x * d < 0) by (nonlinear_arith)
            requires
                x < 0,
                d > 0,
        ;
        assert(d * (-x) == -(x * d)) by (nonlinear_arith);
    }
}

/// Divides a micro-unit product by `MICRO`, truncating toward zero.
pub fn div_micro(t: i64) -> (r: i64)
    ensures
        r == div_trunc(t as int, MICRO as int),
{
    proof {
        lemma_div_trunc_bound(t as int, MICRO as int);
    }
    t.checked_div(MICRO).unwrap()
}

/// Multiplies two micro-unit scalars, reducing the product to
/// micro-units; the only machine constraint is that the intermediate
/// product fits an `i64`.
pub fn fp_mul(a: i64, b: i64) -> (r: i64)
    requires
        i64::MIN <= a * b <= i64::MAX,
    ensures
        r == mul_micro(a as int, b as int),
{
    let t: i64 = a * b;
    div_micro(t)
}

} // verus!
