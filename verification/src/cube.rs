//! The cube model: eight vertices in a fixed order, pure transform
//! operations that each return a new cube, the orthographic projection,
//! and the constant edge list of the wireframe.
//!
//! Vertex order, front face first (depth -1/2), then the back face
//! (depth +1/2), both counter-clockwise from the lower-left corner:
//! index i and index i+4 are the two ends of a side edge. The order is
//! invariant under every transform: index i always names the same
//! logical corner, which is what lets the edge list stay a constant.

use vstd::prelude::*;
use crate::fixed::{MICRO, HALF, COORD_MAX, FACTOR_MAX};
use crate::vec3::{Vec3, Vec2, vadd, vscale, vrot_x, vrot_y, vrot_z, vproject, vec_in_range};
use crate::vec3::lemma_vrot_in_range;

verus! {

/// A cube snapshot: eight vertices in the documented order.
#[derive(Clone, Copy, Debug)]
pub struct Cube {
    pub vertices: [Vec3; 8],
}

impl View for Cube {
    type V = Seq<(int, int, int)>;

    open spec fn view(&self) -> Seq<(int, int, int)> {
        self.vertices@.map_values(|v: Vec3| v@)
    }
}

/// The canonical unit cube: every coordinate one half in magnitude.
pub open spec fn unit_cube_model() -> Seq<(int, int, int)> {
    let h = HALF as int;
    seq![
        (-h, -h, -h),
        (h, -h, -h),
        (h, h, -h),
        (-h, h, -h),
        (-h, -h, h),
        (h, -h, h),
        (h, h, h),
        (-h, h, h),
    ]
}

/// Every vertex offset by `d`.
pub open spec fn cube_offset_model(m: Seq<(int, int, int)>, d: (int, int, int)) -> Seq<
    (int, int, int),
> {
    m.map_values(|a: (int, int, int)| vadd(a, d))
}

/// Every vertex scaled by the micro-unit factor `k`.
pub open spec fn cube_scale_model(m: Seq<(int, int, int)>, k: int) -> Seq<(int, int, int)> {
    m.map_values(|a: (int, int, int)| vscale(a, k))
}

/// Every vertex rotated about the x axis.
pub open spec fn cube_rot_x_model(m: Seq<(int, int, int)>, c: int, s: int) -> Seq<
    (int, int, int),
> {
    m.map_values(|a: (int, int, int)| vrot_x(a, c, s))
}

/// Every vertex rotated about the y axis.
pub open spec fn cube_rot_y_model(m: Seq<(int, int, int)>, c: int, s: int) -> Seq<
    (int, int, int),
> {
    m.map_values(|a: (int, int, int)| vrot_y(a, c, s))
}

/// Every vertex rotated about the z axis.
pub open spec fn cube_rot_z_model(m: Seq<(int, int, int)>, c: int, s: int) -> Seq<
    (int, int, int),
> {
    m.map_values(|a: (int, int, int)| vrot_z(a, c, s))
}

/// The orthographic image of every vertex: x and y kept, depth dropped.
pub open spec fn cube_project_model(m: Seq<(int, int, int)>) -> Seq<(int, int)> {
    m.map_values(|a: (int, int, int)| vproject(a))
}

/// Every componentwise sum of a vertex and the displacement `d` fits an
/// `i64`: the machine constraint on a translation.
pub open spec fn cube_offset_fits(m: Seq<(int, int, int)>, d: (int, int, int)) -> bool {
    forall|i: int|
        0 <= i < m.len() ==> {
            let a = #[trigger] m[i];
            &&& i64::MIN <= a.0 + d.0 <= i64::MAX
            &&& i64::MIN <= a.1 + d.1 <= i64::MAX
            &&& i64::MIN <= a.2 + d.2 <= i64::MAX
        }
}

/// Every vertex within `bound` in magnitude, componentwise.
pub open spec fn cube_in_range(m: Seq<(int, int, int)>, bound: int) -> bool {
    forall|i: int| 0 <= i < m.len() ==> vec_in_range(#[trigger] m[i], bound)
}

/// The twelve wireframe edges as index pairs into the vertex order:
/// the front loop, the back loop, and the four side edges.
pub open spec fn edges_model() -> Seq<(usize, usize)> {
    seq![
        (0usize, 1usize),
        (1usize, 2usize),
        (2usize, 3usize),
        (3usize, 0usize),
        (4usize, 5usize),
        (5usize, 6usize),
        (6usize, 7usize),
        (7usize, 4usize),
        (0usize, 4usize),
        (1usize, 5usize),
        (2usize, 6usize),
        (3usize, 7usize),
    ]
}

/// The twelve wireframe edges, as a vector of index pairs.
pub fn edges() -> (r: Vec<(usize, usize)>)
    ensures
        r@ == edges_model(),
{
    let r: Vec<(usize, usize)> = vec![
        (0, 1),
        (1, 2),
        (2, 3),
        (3, 0),
        (4, 5),
        (5, 6),
        (6, 7),
        (7, 4),
        (0, 4),
        (1, 5),
        (2, 6),
        (3, 7),
    ];
    proof {
        assert(r@ =~= edges_model());
    }
    r
}

/// The view of a cube indexes to the views of its stored vertices.
pub proof fn lemma_cube_view(c: Cube)
    ensures
        c@.len() == 8,
        c@[0] == c.vertices@[0]@,
        c@[1] == c.vertices@[1]@,
        c@[2] == c.vertices@[2]@,
        c@[3] == c.vertices@[3]@,
        c@[4] == c.vertices@[4]@,
        c@[5] == c.vertices@[5]@,
        c@[6] == c.vertices@[6]@,
        c@[7] == c.vertices@[7]@,
{
}

impl Cube {
    /// The canonical unit cube: side length one, centered on the origin,
    /// vertices in the documented order.
    pub fn unit_cube() -> (r: Cube)
        ensures
            r@ == unit_cube_model(),
            cube_in_range(r@, HALF as int),
    {
        let vertices: [Vec3; 8] = [
            Vec3 { x: -HALF, y: -HALF, z: -HALF },
            Vec3 { x: HALF, y: -HALF, z: -HALF },
            Vec3 { x: HALF, y: HALF, z: -HALF },
            Vec3 { x: -HALF, y: HALF, z: -HALF },
            Vec3 { x: -HALF, y: -HALF, z: HALF },
            Vec3 { x: HALF, y: -HALF, z: HALF },
            Vec3 { x: HALF, y: HALF, z: HALF },
            Vec3 { x: -HALF, y: HALF, z: HALF },
        ];
        let r = Cube { vertices };
        proof {
            assert(r@ =~= unit_cube_model());
        }
        r
    }

    /// Every vertex multiplied componentwise by the micro-unit factor;
    /// negative factors mirror the cube.
    pub fn scale(&self, factor: i64) -> (r: Cube)
        requires
            cube_in_range(self@, COORD_MAX as int),
            -FACTOR_MAX <= factor <= FACTOR_MAX,
        ensures
            r@ == cube_scale_model(self@, factor as int),
    {
        proof {
            lemma_cube_view(*self);
        }
        let r = Cube {
            vertices: [
                self.vertices[0].scaled(factor),
                self.vertices[1].scaled(factor),
                self.vertices[2].scaled(factor),
                self.vertices[3].scaled(factor),
                self.vertices[4].scaled(factor),
                self.vertices[5].scaled(factor),
                self.vertices[6].scaled(factor),
                self.vertices[7].scaled(factor),
            ],
        };
        proof {
            assert(r@ =~= cube_scale_model(self@, factor as int));
        }
        r
    }

    /// Every vertex translated by `delta`; the step that moves the cube
    /// from origin-centered space to screen space, so it comes last.
    pub fn offset(&self, delta: Vec3) -> (r: Cube)
        requires
            cube_offset_fits(self@, delta@),
        ensures
            r@ == cube_offset_model(self@, delta@),
    {
        proof {
            lemma_cube_view(*self);
        }
        let r = Cube {
            vertices: [
                self.vertices[0].add(&delta),
                self.vertices[1].add(&delta),
                self.vertices[2].add(&delta),
                self.vertices[3].add(&delta),
                self.vertices[4].add(&delta),
                self.vertices[5].add(&delta),
                self.vertices[6].add(&delta),
                self.vertices[7].add(&delta),
            ],
        };
        proof {
            assert(r@ =~= cube_offset_model(self@, delta@));
        }
        r
    }

    /// Every vertex rotated about the x axis through the origin; `c` and
    /// `s` are the angle's cosine and sine in micro-units. Correct as a
    /// spin only while the cube is still centered on the origin: rotate
    /// before any offset.
    pub fn rotate_x(&self, c: i64, s: i64) -> (r: Cube)
        requires
            cube_in_range(self@, COORD_MAX as int),
            -MICRO <= c <= MICRO,
            -MICRO <= s <= MICRO,
        ensures
            r@ == cube_rot_x_model(self@, c as int, s as int),
    {
        proof {
            lemma_cube_view(*self);
        }
        let r = Cube {
            vertices: [
                self.vertices[0].rotated_x(c, s),
                self.vertices[1].rotated_x(c, s),
                self.vertices[2].rotated_x(c, s),
                self.vertices[3].rotated_x(c, s),
                self.vertices[4].rotated_x(c, s),
                self.vertices[5].rotated_x(c, s),
                self.vertices[6].rotated_x(c, s),
                self.vertices[7].rotated_x(c, s),
            ],
        };
        proof {
            assert(r@ =~= cube_rot_x_model(self@, c as int, s as int));
        }
        r
    }

    /// Every vertex rotated about the y axis through the origin.
    pub fn rotate_y(&self, c: i64, s: i64) -> (r: Cube)
        requires
            cube_in_range(self@, COORD_MAX as int),
            -MICRO <= c <= MICRO,
            -MICRO <= s <= MICRO,
        ensures
            r@ == cube_rot_y_model(self@, c as int, s as int),
    {
        proof {
            lemma_cube_view(*self);
        }
        let r = Cube {
            vertices: [
                self.vertices[0].rotated_y(c, s),
                self.vertices[1].rotated_y(c, s),
                self.vertices[2].rotated_y(c, s),
                self.vertices[3].rotated_y(c, s),
                self.vertices[4].rotated_y(c, s),
                self.vertices[5].rotated_y(c, s),
                self.vertices[6].rotated_y(c, s),
                self.vertices[7].rotated_y(c, s),
            ],
        };
        proof {
            assert(r@ =~= cube_rot_y_model(self@, c as int, s as int));
        }
        r
    }

    /// Every vertex rotated about the z axis through the origin.
    pub fn rotate_z(&self, c: i64, s: i64) -> (r: Cube)
        requires
            cube_in_range(self@, COORD_MAX as int),
            -MICRO <= c <= MICRO,
            -MICRO <= s <= MICRO,
        ensures
            r@ == cube_rot_z_model(self@, c as int, s as int),
    {
        proof {
            lemma_cube_view(*self);
        }
        let r = Cube {
            vertices: [
                self.vertices[0].rotated_z(c, s),
                self.vertices[1].rotated_z(c, s),
                self.vertices[2].rotated_z(c, s),
                self.vertices[3].rotated_z(c, s),
                self.vertices[4].rotated_z(c, s),
                self.vertices[5].rotated_z(c, s),
                self.vertices[6].rotated_z(c, s),
                self.vertices[7].rotated_z(c, s),
            ],
        };
        proof {
            assert(r@ =~= cube_rot_z_model(self@, c as int, s as int));
        }
        r
    }

    /// The orthographic projection of the cube: one 2D point per vertex,
    /// in vertex order, each keeping the vertex's x and y exactly and
    /// discarding its depth.
    pub fn project(&self) -> (r: Vec<Vec2>)
        ensures
            r@.map_values(|p: Vec2| p@) == cube_project_model(self@),
    {
        let mut r: Vec<Vec2> = Vec::new();
        let mut i: usize = 0;
        while i < 8
            invariant
                0 <= i <= 8,
                r@.len() == i,
                forall|j: int| 0 <= j < i ==> #[trigger] r@[j]@ == vproject(self@[j]),
            decreases 8 - i,
        {
            r.push(self.vertices[i].projected());
            i = i + 1;
        }
        proof {
            assert(r@.map_values(|p: Vec2| p@) =~= cube_project_model(self@));
        }
        r
    }
}

/// A coordinate bound on every vertex stays a bound when widened.
pub proof fn lemma_cube_range_widen(m: Seq<(int, int, int)>, b1: int, b2: int)
    requires
        cube_in_range(m, b1),
        b1 <= b2,
    ensures
        cube_in_range(m, b2),
{
    assert forall|i: int| 0 <= i < m.len() implies vec_in_range(#[trigger] m[i], b2) by {
        assert(vec_in_range(m[i], b1));
    }
}

/// Scaling bounded vertices by a bounded micro-unit factor keeps every
/// coordinate within the reduced product bound.
pub proof fn lemma_cube_scale_in_range(m: Seq<(int, int, int)>, k: int, bound: int, kk: int, q: int)
    requires
        cube_in_range(m, bound),
        -kk <= k <= kk,
        0 <= bound,
        0 <= kk,
        0 <= q,
        bound * kk <= q * MICRO as int,
    ensures
        cube_in_range(cube_scale_model(m, k), q),
{
    assert forall|i: int|
        0 <= i < m.len() implies vec_in_range(#[trigger] cube_scale_model(m, k)[i], q) by {
        let a = m[i];
        assert(-(bound * kk) <= a.0 * k <= bound * kk && -(bound * kk) <= a.1 * k <= bound * kk
            && -(bound * kk) <= a.2 * k <= bound * kk) by (nonlinear_arith)
            requires
                vec_in_range(a, bound),
                -kk <= k <= kk,
                0 <= bound,
                0 <= kk,
        ;
        crate::vec3::lemma_div_trunc_quotient_bound(a.0 * k, q, MICRO as int);
        crate::vec3::lemma_div_trunc_quotient_bound(a.1 * k, q, MICRO as int);
        crate::vec3::lemma_div_trunc_quotient_bound(a.2 * k, q, MICRO as int);
    }
}

/// A rotation with micro-unit cosine and sine at most one in magnitude
/// at most doubles the coordinate bound of every vertex.
pub proof fn lemma_cube_rot_in_range(m: Seq<(int, int, int)>, c: int, s: int, bound: int)
    requires
        0 <= bound,
        cube_in_range(m, bound),
        -(MICRO as int) <= c <= MICRO as int,
        -(MICRO as int) <= s <= MICRO as int,
    ensures
        cube_in_range(cube_rot_x_model(m, c, s), 2 * bound),
        cube_in_range(cube_rot_y_model(m, c, s), 2 * bound),
        cube_in_range(cube_rot_z_model(m, c, s), 2 * bound),
{
    assert forall|i: int|
        0 <= i < m.len() implies vec_in_range(
        #[trigger] cube_rot_x_model(m, c, s)[i],
        2 * bound,
    ) by {
        lemma_vrot_in_range(m[i], c, s, bound);
    }
    assert forall|i: int|
        0 <= i < m.len() implies vec_in_range(
        #[trigger] cube_rot_y_model(m, c, s)[i],
        2 * bound,
    ) by {
        lemma_vrot_in_range(m[i], c, s, bound);
    }
    assert forall|i: int|
        0 <= i < m.len() implies vec_in_range(
        #[trigger] cube_rot_z_model(m, c, s)[i],
        2 * bound,
    ) by {
        lemma_vrot_in_range(m[i], c, s, bound);
    }
}

} // verus!
