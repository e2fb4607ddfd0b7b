//! 3-component and 2-component vectors in micro-units, with the
//! vertex-level transform operations: add, scale by a fixed-point factor,
//! rotate about each axis, and the orthographic drop of the depth axis.
//!
//! Every operation is specified against a mathematical model: a vector is
//! viewed as a tuple of unbounded integers, and each operation has a spec
//! function on tuples that pins its result exactly.

use vstd::prelude::*;
use crate::fixed::{MICRO, COORD_MAX, FACTOR_MAX, div_trunc, mul_micro};
use crate::fixed::lemma_div_trunc_exact;

verus! {

/// A point or displacement in 3D space, coordinates in micro-units.
#[derive(Clone, Copy, Debug, PartialEq, Eq, Structural)]
pub struct Vec3 {
    pub x: i64,
    pub y: i64,
    pub z: i64,
}

/// A point on the 2D drawing surface, coordinates in micro-units.
#[derive(Clone, Copy, Debug, PartialEq, Eq, Structural)]
pub struct Vec2 {
    pub x: i64,
    pub y: i64,
}

impl View for Vec3 {
    type V = (int, int, int);

    open spec fn view(&self) -> (int, int, int) {
        (self.x as int, self.y as int, self.z as int)
    }
}

impl View for Vec2 {
    type V = (int, int);

    open spec fn view(&self) -> (int, int) {
        (self.x as int, self.y as int)
    }
}

/// Componentwise sum of two vectors.
pub open spec fn vadd(a: (int, int, int), b: (int, int, int)) -> (int, int, int) {
    (a.0 + b.0, a.1 + b.1, a.2 + b.2)
}

/// Every component multiplied by the micro-unit factor `k`.
pub open spec fn vscale(a: (int, int, int), k: int) -> (int, int, int) {
    (mul_micro(a.0, k), mul_micro(a.1, k), mul_micro(a.2, k))
}

/// Rotation about the x axis by the angle whose cosine and sine, in
/// micro-units, are `c` and `s`: x is fixed, (y, z) turns.
pub open spec fn vrot_x(a: (int, int, int), c: int, s: int) -> (int, int, int) {
    (a.0, div_trunc(a.1 * c - a.2 * s, MICRO as int), div_trunc(a.1 * s + a.2 * c, MICRO as int))
}

/// Rotation about the y axis: y is fixed, (z, x) turns.
pub open spec fn vrot_y(a: (int, int, int), c: int, s: int) -> (int, int, int) {
    (div_trunc(a.0 * c + a.2 * s, MICRO as int), a.1, div_trunc(a.2 * c - a.0 * s, MICRO as int))
}

/// Rotation about the z axis: z is fixed, (x, y) turns.
pub open spec fn vrot_z(a: (int, int, int), c: int, s: int) -> (int, int, int) {
    (div_trunc(a.0 * c - a.1 * s, MICRO as int), div_trunc(a.0 * s + a.1 * c, MICRO as int), a.2)
}

/// The orthographic image of a vertex: x and y kept, depth discarded.
pub open spec fn vproject(a: (int, int, int)) -> (int, int) {
    (a.0, a.1)
}

/// Every component within `bound` in magnitude.
pub open spec fn vec_in_range(a: (int, int, int), bound: int) -> bool {
    &&& -bound <= a.0 <= bound
    &&& -bound <= a.1 <= bound
    &&& -bound <= a.2 <= bound
}

/// A quotient is bounded by the bound of its dividend, divided out:
/// if |t| <= k*d then |t / d| <= k (truncating division, d positive).
pub proof fn lemma_div_trunc_quotient_bound(t: int, k: int, d: int)
    requires
        d > 0,
        k >= 0,
        -(k * d) <= t <= k * d,
    ensures
        -k <= div_trunc(t, d) <= k,
{
    lemma_div_trunc_exact(k, d);
    if t >= 0 {
        vstd::arithmetic::div_mod::lemma_div_is_ordered(t, k * d, d);
        vstd::arithmetic::div_mod::lemma_div_pos_is_pos(t, d);
    } else {
        vstd::arithmetic::div_mod::lemma_div_is_ordered(-t, k * d, d);
        vstd::arithmetic::div_mod::lemma_div_pos_is_pos(-t, d);
    }
}

/// A rotation with micro-unit cosine and sine at most one in magnitude
/// at most doubles the coordinate bound of its input.
pub proof fn lemma_vrot_in_range(a: (int, int, int), c: int, s: int, bound: int)
    requires
        0 <= bound,
        vec_in_range(a, bound),
        -(MICRO as int) <= c <= MICRO as int,
        -(MICRO as int) <= s <= MICRO as int,
    ensures
        vec_in_range(vrot_x(a, c, s), 2 * bound),
        vec_in_range(vrot_y(a, c, s), 2 * bound),
        vec_in_range(vrot_z(a, c, s), 2 * bound),
{
    let m = MICRO as int;
    assert(-(bound * m) <= a.0 * c <= bound * m
        && -(bound * m) <= a.1 * c <= bound * m
        && -(bound * m) <= a.2 * c <= bound * m
        && -(bound * m) <= a.0 * s <= bound * m
        && -(bound * m) <= a.1 * s <= bound * m
        && -(bound * m) <= a.2 * s <= bound * m
        && 2 * bound * m == bound * m + bound * m) by (nonlinear_arith)
        requires
            vec_in_range(a, bound),
            -m <= c <= m,
            -m <= s <= m,
            0 <= bound,
            0 <= m,
    ;
    lemma_div_trunc_quotient_bound(a.1 * c - a.2 * s, 2 * bound, m);
    lemma_div_trunc_quotient_bound(a.1 * s + a.2 * c, 2 * bound, m);
    lemma_div_trunc_quotient_bound(a.0 * c + a.2 * s, 2 * bound, m);
    lemma_div_trunc_quotient_bound(a.2 * c - a.0 * s, 2 * bound, m);
    lemma_div_trunc_quotient_bound(a.0 * c - a.1 * s, 2 * bound, m);
    lemma_div_trunc_quotient_bound(a.0 * s + a.1 * c, 2 * bound, m);
}

impl Vec3 {
    /// Builds a vector from its three micro-unit coordinates.
    pub fn new(x: i64, y: i64, z: i64) -> (r: Vec3)
        ensures
            r@ == (x as int, y as int, z as int),
    {
        Vec3 { x, y, z }
    }

    /// Componentwise sum; the only machine constraint is that each sum
    /// fits an `i64`.
    pub fn add(&self, other: &Vec3) -> (r: Vec3)
        requires
            i64::MIN <= self.x + other.x <= i64::MAX,
            i64::MIN <= self.y + other.y <= i64::MAX,
            i64::MIN <= self.z + other.z <= i64::MAX,
        ensures
            r@ == vadd(self@, other@),
    {
        Vec3 { x: self.x + other.x, y: self.y + other.y, z: self.z + other.z }
    }

    /// Every coordinate multiplied by the micro-unit factor.
    pub fn scaled(&self, factor: i64) -> (r: Vec3)
        requires
            vec_in_range(self@, COORD_MAX as int),
            -FACTOR_MAX <= factor <= FACTOR_MAX,
        ensures
            r@ == vscale(self@, factor as int),
    {
        proof {
            let b = COORD_MAX as int;
            let f = FACTOR_MAX as int;
            assert(-(b * f) <= self.x as int * factor as int <= b * f
                && -(b * f) <= self.y as int * factor as int <= b * f
                && -(b * f) <= self.z as int * factor as int <= b * f) by (nonlinear_arith)
                requires
                    vec_in_range(self@, b),
                    -f <= factor <= f,
                    0 <= b,
                    0 <= f,
            ;
        }
        Vec3 {
            x: crate::fixed::fp_mul(self.x, factor),
            y: crate::fixed::fp_mul(self.y, factor),
            z: crate::fixed::fp_mul(self.z, factor),
        }
    }

    /// Rotation about the x axis; `c` and `s` are the angle's cosine and
    /// sine in micro-units.
    pub fn rotated_x(&self, c: i64, s: i64) -> (r: Vec3)
        requires
            vec_in_range(self@, COORD_MAX as int),
            -MICRO <= c <= MICRO,
            -MICRO <= s <= MICRO,
        ensures
            r@ == vrot_x(self@, c as int, s as int),
    {
        proof {
            lemma_rot_products_fit(self@, c as int, s as int);
        }
        Vec3 {
            x: self.x,
            y: crate::fixed::div_micro(self.y * c - self.z * s),
            z: crate::fixed::div_micro(self.y * s + self.z * c),
        }
    }

    /// Rotation about the y axis.
    pub fn rotated_y(&self, c: i64, s: i64) -> (r: Vec3)
        requires
            vec_in_range(self@, COORD_MAX as int),
            -MICRO <= c <= MICRO,
            -MICRO <= s <= MICRO,
        ensures
            r@ == vrot_y(self@, c as int, s as int),
    {
        proof {
            lemma_rot_products_fit(self@, c as int, s as int);
        }
        Vec3 {
            x: crate::fixed::div_micro(self.x * c + self.z * s),
            y: self.y,
            z: crate::fixed::div_micro(self.z * c - self.x * s),
        }
    }

    /// Rotation about the z axis.
    pub fn rotated_z(&self, c: i64, s: i64) -> (r: Vec3)
        requires
            vec_in_range(self@, COORD_MAX as int),
            -MICRO <= c <= MICRO,
            -MICRO <= s <= MICRO,
        ensures
            r@ == vrot_z(self@, c as int, s as int),
    {
        proof {
            lemma_rot_products_fit(self@, c as int, s as int);
        }
        Vec3 {
            x: crate::fixed::div_micro(self.x * c - self.y * s),
            y: crate::fixed::div_micro(self.x * s + self.y * c),
            z: self.z,
        }
    }

    /// The orthographic image: x and y kept, depth discarded.
    pub fn projected(&self) -> (r: Vec2)
        ensures
            r@ == vproject(self@),
    {
        Vec2 { x: self.x, y: self.y }
    }
}

/// Every cross product of a bounded coordinate with a micro-unit cosine
/// or sine, and every two-term sum of them, fits an `i64`.
proof fn lemma_rot_products_fit(a: (int, int, int), c: int, s: int)
    requires
        vec_in_range(a, COORD_MAX as int),
        -(MICRO as int) <= c <= MICRO as int,
        -(MICRO as int) <= s <= MICRO as int,
    ensures
        -0x8000_0000_0000_0000 <= a.0 * c <= 0x7fff_ffff_ffff_ffff,
        -0x8000_0000_0000_0000 <= a.1 * c <= 0x7fff_ffff_ffff_ffff,
        -0x8000_0000_0000_0000 <= a.2 * c <= 0x7fff_ffff_ffff_ffff,
        -0x8000_0000_0000_0000 <= a.0 * s <= 0x7fff_ffff_ffff_ffff,
        -0x8000_0000_0000_0000 <= a.1 * s <= 0x7fff_ffff_ffff_ffff,
        -0x8000_0000_0000_0000 <= a.2 * s <= 0x7fff_ffff_ffff_ffff,
        -0x8000_0000_0000_0000 <= a.1 * c - a.2 * s <= 0x7fff_ffff_ffff_ffff,
        -0x8000_0000_0000_0000 <= a.1 * s + a.2 * c <= 0x7fff_ffff_ffff_ffff,
        -0x8000_0000_0000_0000 <= a.0 * c + a.2 * s <= 0x7fff_ffff_ffff_ffff,
        -0x8000_0000_0000_0000 <= a.2 * c - a.0 * s <= 0x7fff_ffff_ffff_ffff,
        -0x8000_0000_0000_0000 <= a.0 * c - a.1 * s <= 0x7fff_ffff_ffff_ffff,
        -0x8000_0000_0000_0000 <= a.0 * s + a.1 * c <= 0x7fff_ffff_ffff_ffff,
{
    let b = COORD_MAX as int;
    let m = MICRO as int;
    assert(-(b * m) <= a.0 * c <= b * m
        && -(b * m) <= a.1 * c <= b * m
        && -(b * m) <= a.2 * c <= b * m
        && -(b * m) <= a.0 * s <= b * m
        && -(b * m) <= a.1 * s <= b * m
        && -(b * m) <= a.2 * s <= b * m) by (nonlinear_arith)
        requires
            vec_in_range(a, b),
            -m <= c <= m,
            -m <= s <= m,
            0 <= b,
            0 <= m,
    ;
}

} // verus!
