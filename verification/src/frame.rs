//! The per-frame pipeline: the fixed transform chain the frame loop
//! applies to the canonical cube, as one verified function from the
//! frame's inputs — the angle's cosine and sine, and the screen center —
//! to the eight projected 2D points.
//!
//! The chain order is the documented contract: rotate about each axis
//! while the cube is still centered on the origin, then scale, then
//! offset into screen space, then project.

use vstd::prelude::*;
use crate::fixed::{MICRO, HALF, COORD_MAX};
use crate::vec3::{Vec3, Vec2};
use crate::cube::{
    Cube, unit_cube_model, cube_rot_x_model, cube_rot_y_model, cube_rot_z_model, cube_scale_model,
    cube_offset_model, cube_project_model, cube_in_range, cube_offset_fits, lemma_cube_rot_in_range,
    lemma_cube_range_widen, lemma_cube_scale_in_range,
};

verus! {

/// The on-screen size factor of the spinning cube: seventy-five, in
/// micro-units.
pub const WINDOW_SCALE: i64 = 75_000_000;

/// Largest screen-center coordinate magnitude `frame_points` accepts,
/// in micro-units (a billion pixels). Keeps the final offset inside an
/// `i64`.
pub const CENTER_MAX: i64 = 1_000_000_000_000_000;

/// The projected cube a frame shows: the canonical cube rotated about
/// all three axes by the angle whose cosine and sine are `c` and `s`,
/// scaled to screen size, moved to the screen center, and projected.
pub open spec fn frame_model(c: int, s: int, cx: int, cy: int) -> Seq<(int, int)> {
    cube_project_model(
        cube_offset_model(
            cube_scale_model(
                cube_rot_z_model(
                    cube_rot_y_model(cube_rot_x_model(unit_cube_model(), c, s), c, s),
                    c,
                    s,
                ),
                WINDOW_SCALE as int,
            ),
            (cx, cy, 0),
        ),
    )
}

/// Runs one frame's whole transform chain on the canonical cube and
/// returns the eight projected screen points, in vertex order.
pub fn frame_points(c: i64, s: i64, center_x: i64, center_y: i64) -> (r: Vec<Vec2>)
    requires
        -MICRO <= c <= MICRO,
        -MICRO <= s <= MICRO,
        -CENTER_MAX <= center_x <= CENTER_MAX,
        -CENTER_MAX <= center_y <= CENTER_MAX,
    ensures
        r@.map_values(|p: Vec2| p@) == frame_model(c as int, s as int, center_x as int,
            center_y as int),
{
    let cube = Cube::unit_cube();
    proof {
        lemma_cube_range_widen(cube@, HALF as int, COORD_MAX as int);
        lemma_cube_rot_in_range(cube@, c as int, s as int, HALF as int);
    }
    let rx = cube.rotate_x(c, s);
    proof {
        lemma_cube_range_widen(rx@, 2 * HALF as int, COORD_MAX as int);
        lemma_cube_rot_in_range(rx@, c as int, s as int, 2 * HALF as int);
    }
    let ry = rx.rotate_y(c, s);
    proof {
        lemma_cube_range_widen(ry@, 4 * HALF as int, COORD_MAX as int);
        lemma_cube_rot_in_range(ry@, c as int, s as int, 4 * HALF as int);
    }
    let rz = ry.rotate_z(c, s);
    proof {
        lemma_cube_range_widen(rz@, 8 * HALF as int, COORD_MAX as int);
        lemma_cube_scale_in_range(
            rz@,
            WINDOW_SCALE as int,
            8 * HALF as int,
            WINDOW_SCALE as int,
            300_000_000,
        );
    }
    let scaled = rz.scale(WINDOW_SCALE);
    let center = Vec3 { x: center_x, y: center_y, z: 0 };
    proof {
        assert forall|i: int| 0 <= i < scaled@.len() implies {
            let a = #[trigger] scaled@[i];
            &&& i64::MIN <= a.0 + center@.0 <= i64::MAX
            &&& i64::MIN <= a.1 + center@.1 <= i64::MAX
            &&& i64::MIN <= a.2 + center@.2 <= i64::MAX
        } by {
            assert(crate::vec3::vec_in_range(scaled@[i], 300_000_000));
        }
        assert(cube_offset_fits(scaled@, center@));
    }
    let moved = scaled.offset(center);
    moved.project()
}

} // verus!
