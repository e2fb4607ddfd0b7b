//! The laws of the transform pipeline, stated over the same models the
//! executable contracts use and proved once for all inputs: the shape of
//! the canonical cube, scaling by one and by minus one, additivity of
//! translation, what rotation preserves, rotation by a zero angle, and
//! why the rotate-before-offset order of the pipeline matters.

use vstd::prelude::*;
use vstd::assert_by_contradiction;
use crate::fixed::{MICRO, HALF, div_trunc, lemma_div_trunc_exact};
use crate::vec3::{vadd, vrot_x, vrot_y, vrot_z};
use crate::cube::{
    unit_cube_model, cube_offset_model, cube_scale_model, cube_rot_x_model, cube_rot_y_model,
    cube_rot_z_model,
};

verus! {

/// The squared distance of a point from the origin.
pub open spec fn sq_norm(a: (int, int, int)) -> int {
    a.0 * a.0 + a.1 * a.1 + a.2 * a.2
}

/// Every component multiplied by the plain integer `k` (no micro-unit
/// reduction).
pub open spec fn vmul_each(a: (int, int, int), k: int) -> (int, int, int) {
    (a.0 * k, a.1 * k, a.2 * k)
}

/// Every component negated: the mirror image through the origin.
pub open spec fn cube_mirror_model(m: Seq<(int, int, int)>) -> Seq<(int, int, int)> {
    m.map_values(|a: (int, int, int)| (-a.0, -a.1, -a.2))
}

/// The x-axis rotation before its division by `MICRO`: every component
/// carries an extra factor of `MICRO`, so no rounding has happened yet.
pub open spec fn vrot_x_scaled(a: (int, int, int), c: int, s: int) -> (int, int, int) {
    (a.0 * MICRO as int, a.1 * c - a.2 * s, a.1 * s + a.2 * c)
}

/// The y-axis rotation before its division by `MICRO`.
pub open spec fn vrot_y_scaled(a: (int, int, int), c: int, s: int) -> (int, int, int) {
    (a.0 * c + a.2 * s, a.1 * MICRO as int, a.2 * c - a.0 * s)
}

/// The z-axis rotation before its division by `MICRO`.
pub open spec fn vrot_z_scaled(a: (int, int, int), c: int, s: int) -> (int, int, int) {
    (a.0 * c - a.1 * s, a.0 * s + a.1 * c, a.2 * MICRO as int)
}

/// Every vertex of the canonical cube has each coordinate equal to one
/// half in magnitude, exactly.
pub proof fn lemma_unit_cube_shape()
    ensures
        unit_cube_model().len() == 8,
        forall|i: int|
            0 <= i < 8 ==> {
                let a = #[trigger] unit_cube_model()[i];
                &&& (a.0 == HALF as int || a.0 == -(HALF as int))
                &&& (a.1 == HALF as int || a.1 == -(HALF as int))
                &&& (a.2 == HALF as int || a.2 == -(HALF as int))
            },
{
    assert forall|i: int|
        0 <= i < 8 implies {
        let a = #[trigger] unit_cube_model()[i];
        &&& (a.0 == HALF as int || a.0 == -(HALF as int))
        &&& (a.1 == HALF as int || a.1 == -(HALF as int))
        &&& (a.2 == HALF as int || a.2 == -(HALF as int))
    } by {
        assert(unit_cube_model().len() == 8);
    }
}

/// Scaling by one is the identity: the micro-unit reduction of each
/// product loses nothing on an exact multiple.
pub proof fn lemma_scale_one_identity(m: Seq<(int, int, int)>)
    ensures
        cube_scale_model(m, MICRO as int) == m,
{
    assert forall|i: int|
        0 <= i < m.len() implies #[trigger] cube_scale_model(m, MICRO as int)[i] == m[i] by {
        let a = m[i];
        lemma_div_trunc_exact(a.0, MICRO as int);
        lemma_div_trunc_exact(a.1, MICRO as int);
        lemma_div_trunc_exact(a.2, MICRO as int);
    }
    assert(cube_scale_model(m, MICRO as int) =~= m);
}

/// Scaling by minus one mirrors every coordinate exactly.
pub proof fn lemma_scale_neg_one_mirrors(m: Seq<(int, int, int)>)
    ensures
        cube_scale_model(m, -(MICRO as int)) == cube_mirror_model(m),
{
    assert forall|i: int|
        0 <= i < m.len() implies #[trigger] cube_scale_model(m, -(MICRO as int))[i]
        == cube_mirror_model(m)[i] by {
        let a = m[i];
        assert(a.0 * -(MICRO as int) == (-a.0) * MICRO as int) by (nonlinear_arith);
        assert(a.1 * -(MICRO as int) == (-a.1) * MICRO as int) by (nonlinear_arith);
        assert(a.2 * -(MICRO as int) == (-a.2) * MICRO as int) by (nonlinear_arith);
        lemma_div_trunc_exact(-a.0, MICRO as int);
        lemma_div_trunc_exact(-a.1, MICRO as int);
        lemma_div_trunc_exact(-a.2, MICRO as int);
    }
    assert(cube_scale_model(m, -(MICRO as int)) =~= cube_mirror_model(m));
}

/// Translation is additive and commutes with itself: offsetting by `a`
/// and then by `b` is offsetting once by their sum, and the same in the
/// other order.
pub proof fn lemma_offset_additive(m: Seq<(int, int, int)>, a: (int, int, int), b: (
    int,
    int,
    int,
))
    ensures
        cube_offset_model(cube_offset_model(m, a), b) == cube_offset_model(m, vadd(a, b)),
        cube_offset_model(cube_offset_model(m, a), b) == cube_offset_model(
            cube_offset_model(m, b),
            a,
        ),
{
    assert(cube_offset_model(cube_offset_model(m, a), b) =~= cube_offset_model(m, vadd(a, b)));
    assert(cube_offset_model(cube_offset_model(m, b), a) =~= cube_offset_model(m, vadd(a, b)));
}

/// Rotation about any axis fixes the origin, rounding included.
pub proof fn lemma_rotation_fixes_origin(c: int, s: int)
    ensures
        vrot_x((0, 0, 0), c, s) == (0int, 0int, 0int),
        vrot_y((0, 0, 0), c, s) == (0int, 0int, 0int),
        vrot_z((0, 0, 0), c, s) == (0int, 0int, 0int),
{
    assert(0 * c == 0 && 0 * s == 0 && 0 * MICRO as int == 0) by (nonlinear_arith);
    lemma_div_trunc_exact(0, MICRO as int);
    assert(div_trunc(0, MICRO as int) == 0);
}

/// What rotation does to squared distance, before any rounding: the
/// turned plane's contribution picks up the factor `c*c + s*s` and the
/// fixed axis the factor `MICRO*MICRO`.
/// The rotation the contracts use is exactly its pre-division form with
/// every component divided by `MICRO`, truncating: what the distance
/// laws state before rounding is about the same operation.
pub proof fn lemma_rot_is_rounded_scaled(a: (int, int, int), c: int, s: int)
    ensures
        vrot_x(a, c, s) == (
            div_trunc(vrot_x_scaled(a, c, s).0, MICRO as int),
            div_trunc(vrot_x_scaled(a, c, s).1, MICRO as int),
            div_trunc(vrot_x_scaled(a, c, s).2, MICRO as int),
        ),
        vrot_y(a, c, s) == (
            div_trunc(vrot_y_scaled(a, c, s).0, MICRO as int),
            div_trunc(vrot_y_scaled(a, c, s).1, MICRO as int),
            div_trunc(vrot_y_scaled(a, c, s).2, MICRO as int),
        ),
        vrot_z(a, c, s) == (
            div_trunc(vrot_z_scaled(a, c, s).0, MICRO as int),
            div_trunc(vrot_z_scaled(a, c, s).1, MICRO as int),
            div_trunc(vrot_z_scaled(a, c, s).2, MICRO as int),
        ),
{
    lemma_div_trunc_exact(a.0, MICRO as int);
    lemma_div_trunc_exact(a.1, MICRO as int);
    lemma_div_trunc_exact(a.2, MICRO as int);
}

/// The plane identity under a rotation before rounding: the images
/// `p*c - q*s` and `p*s + q*c` have squared sum `(p*p + q*q)*(c*c + s*s)`.
#[verifier::rlimit(100)]
pub proof fn lemma_plane_rot_sq(p: int, q: int, c: int, s: int)
    ensures
        (p * c - q * s) * (p * c - q * s) + (p * s + q * c) * (p * s + q * c) == (p * p + q * q) * (
        c * c + s * s),
        (p * c + q * s) * (p * c + q * s) + (q * c - p * s) * (q * c - p * s) == (p * p + q * q) * (
        c * c + s * s),
{
    assert((p * c - q * s) * (p * c - q * s) == (p * c) * (p * c) - 2 * ((p * c) * (q * s)) + (q
        * s) * (q * s)) by (nonlinear_arith);
    assert((p * s + q * c) * (p * s + q * c) == (p * s) * (p * s) + 2 * ((p * s) * (q * c)) + (q
        * c) * (q * c)) by (nonlinear_arith);
    assert((p * c + q * s) * (p * c + q * s) == (p * c) * (p * c) + 2 * ((p * c) * (q * s)) + (q
        * s) * (q * s)) by (nonlinear_arith);
    assert((q * c - p * s) * (q * c - p * s) == (q * c) * (q * c) - 2 * ((p * s) * (q * c)) + (p
        * s) * (p * s)) by (nonlinear_arith);
    assert((p * c) * (q * s) == (p * s) * (q * c)) by (nonlinear_arith);
    assert((p * c) * (p * c) == (p * p) * (c * c)) by (nonlinear_arith);
    assert((q * s) * (q * s) == (q * q) * (s * s)) by (nonlinear_arith);
    assert((p * s) * (p * s) == (p * p) * (s * s)) by (nonlinear_arith);
    assert((q * c) * (q * c) == (q * q) * (c * c)) by (nonlinear_arith);
    assert((p * p + q * q) * (c * c + s * s) == (p * p) * (c * c) + (p * p) * (s * s) + (q * q) * (
    c * c) + (q * q) * (s * s)) by (nonlinear_arith);
}

pub proof fn lemma_rot_scaled_sq_norm(a: (int, int, int), c: int, s: int)
    ensures
        sq_norm(vrot_x_scaled(a, c, s)) == a.0 * a.0 * (MICRO as int * MICRO as int) + (a.1 * a.1
            + a.2 * a.2) * (c * c + s * s),
        sq_norm(vrot_y_scaled(a, c, s)) == a.1 * a.1 * (MICRO as int * MICRO as int) + (a.0 * a.0
            + a.2 * a.2) * (c * c + s * s),
        sq_norm(vrot_z_scaled(a, c, s)) == a.2 * a.2 * (MICRO as int * MICRO as int) + (a.0 * a.0
            + a.1 * a.1) * (c * c + s * s),
{
    let m = MICRO as int;
    lemma_plane_rot_sq(a.1, a.2, c, s);
    lemma_plane_rot_sq(a.0, a.2, c, s);
    lemma_plane_rot_sq(a.0, a.1, c, s);
    assert((a.0 * m) * (a.0 * m) == a.0 * a.0 * (m * m)) by (nonlinear_arith);
    assert((a.1 * m) * (a.1 * m) == a.1 * a.1 * (m * m)) by (nonlinear_arith);
    assert((a.2 * m) * (a.2 * m) == a.2 * a.2 * (m * m)) by (nonlinear_arith);
}

/// Rotation preserves squared distance from the origin, before any
/// rounding, whenever the cosine-sine pair lies exactly on the
/// micro-unit circle. The executable rotation then divides each
/// component by `MICRO`, truncating less than one micro-unit per
/// coordinate, which is the tolerance the tests check.
pub proof fn lemma_rotation_preserves_distance(a: (int, int, int), c: int, s: int)
    requires
        c * c + s * s == MICRO as int * MICRO as int,
    ensures
        sq_norm(vrot_x_scaled(a, c, s)) == sq_norm(a) * (MICRO as int * MICRO as int),
        sq_norm(vrot_y_scaled(a, c, s)) == sq_norm(a) * (MICRO as int * MICRO as int),
        sq_norm(vrot_z_scaled(a, c, s)) == sq_norm(a) * (MICRO as int * MICRO as int),
{
    lemma_rot_scaled_sq_norm(a, c, s);
    let mm = MICRO as int * MICRO as int;
    assert(a.0 * a.0 * mm + (a.1 * a.1 + a.2 * a.2) * mm == sq_norm(a) * mm) by (nonlinear_arith);
    assert(a.1 * a.1 * mm + (a.0 * a.0 + a.2 * a.2) * mm == sq_norm(a) * mm) by (nonlinear_arith);
    assert(a.2 * a.2 * mm + (a.0 * a.0 + a.1 * a.1) * mm == sq_norm(a) * mm) by (nonlinear_arith);
}

/// Rotating by a zero angle — cosine one, sine zero — is the identity
/// about every axis, rounding included.
pub proof fn lemma_rotate_zero_identity(m: Seq<(int, int, int)>)
    ensures
        cube_rot_x_model(m, MICRO as int, 0) == m,
        cube_rot_y_model(m, MICRO as int, 0) == m,
        cube_rot_z_model(m, MICRO as int, 0) == m,
{
    assert forall|i: int|
        0 <= i < m.len() implies #[trigger] cube_rot_x_model(m, MICRO as int, 0)[i] == m[i]
        && cube_rot_y_model(m, MICRO as int, 0)[i] == m[i] && cube_rot_z_model(
        m,
        MICRO as int,
        0,
    )[i] == m[i] by {
        let a = m[i];
        lemma_div_trunc_exact(a.0, MICRO as int);
        lemma_div_trunc_exact(a.1, MICRO as int);
        lemma_div_trunc_exact(a.2, MICRO as int);
    }
    assert(cube_rot_x_model(m, MICRO as int, 0) =~= m);
    assert(cube_rot_y_model(m, MICRO as int, 0) =~= m);
    assert(cube_rot_z_model(m, MICRO as int, 0) =~= m);
}

/// Why the pipeline rotates before it offsets: for any vertex, rotating
/// about the z axis after a translation differs from translating the
/// rotated vertex, as soon as the angle turns at all — sine nonzero, or
/// sine zero with cosine other than one — and the displacement has any
/// component in the turned plane. Stated before rounding, where the
/// difference is exact.
pub proof fn lemma_rotate_translate_order(v: (int, int, int), d: (int, int, int), c: int, s: int)
    requires
        !(d.0 == 0 && d.1 == 0),
        !(c == MICRO as int && s == 0),
    ensures
        vrot_z_scaled(vadd(v, d), c, s) != vadd(
            vrot_z_scaled(v, c, s),
            vmul_each(d, MICRO as int),
        ),
{
    let m = MICRO as int;
    assert_by_contradiction!(
        vrot_z_scaled(vadd(v, d), c, s) != vadd(vrot_z_scaled(v, c, s), vmul_each(d, m)),
        {
            assert((v.0 + d.0) * c - (v.1 + d.1) * s == (v.0 * c - v.1 * s) + d.0 * m);
            assert((v.0 + d.0) * s + (v.1 + d.1) * c == (v.0 * s + v.1 * c) + d.1 * m);
            assert(d.0 * c - d.1 * s == d.0 * m) by (nonlinear_arith)
                requires
                    (v.0 + d.0) * c - (v.1 + d.1) * s == (v.0 * c - v.1 * s) + d.0 * m,
            ;
            assert(d.0 * s + d.1 * c == d.1 * m) by (nonlinear_arith)
                requires
                    (v.0 + d.0) * s + (v.1 + d.1) * c == (v.0 * s + v.1 * c) + d.1 * m,
            ;
            if s != 0 {
                assert(d.1 * (d.0 * c - d.1 * s) == d.1 * (d.0 * m));
                assert(d.0 * (d.0 * s + d.1 * c) == d.0 * (d.1 * m));
                assert(s * (d.0 * d.0 + d.1 * d.1) == 0) by (nonlinear_arith)
                    requires
                        d.1 * (d.0 * c - d.1 * s) == d.1 * (d.0 * m),
                        d.0 * (d.0 * s + d.1 * c) == d.0 * (d.1 * m),
                ;
                assert(d.0 * d.0 + d.1 * d.1 > 0) by (nonlinear_arith)
                    requires
                        !(d.0 == 0 && d.1 == 0),
                ;
                assert(s == 0) by (nonlinear_arith)
                    requires
                        s * (d.0 * d.0 + d.1 * d.1) == 0,
                        d.0 * d.0 + d.1 * d.1 > 0,
                ;
            } else {
                assert(d.0 * c == d.0 * m) by (nonlinear_arith)
                    requires
                        s == 0,
                        d.0 * c - d.1 * s == d.0 * m,
                ;
                assert(d.1 * c == d.1 * m) by (nonlinear_arith)
                    requires
                        s == 0,
                        d.0 * s + d.1 * c == d.1 * m,
                ;
                assert(d.0 == 0 && d.1 == 0) by (nonlinear_arith)
                    requires
                        c != m,
                        d.0 * c == d.0 * m,
                        d.1 * c == d.1 * m,
                ;
            }
        }
    );
}

} // verus!
