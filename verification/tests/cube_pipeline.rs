use wirecube::cube::{edges, Cube};
use wirecube::fixed::{HALF, MICRO};
use wirecube::vec3::{Vec2, Vec3};

/// A real number as a micro-unit scalar, rounded to nearest.
fn fp(v: f64) -> i64 {
    (v * 1_000_000.0).round() as i64
}

fn cos_sin(theta: f64) -> (i64, i64) {
    (fp(theta.cos()), fp(theta.sin()))
}

#[test]
fn unit_cube_has_half_magnitude_corners() {
    let c = Cube::unit_cube();
    assert_eq!(c.vertices.len(), 8);
    for v in c.vertices.iter() {
        assert_eq!(v.x.abs(), HALF);
        assert_eq!(v.y.abs(), HALF);
        assert_eq!(v.z.abs(), HALF);
    }
    let expected = [
        (-HALF, -HALF, -HALF),
        (HALF, -HALF, -HALF),
        (HALF, HALF, -HALF),
        (-HALF, HALF, -HALF),
        (-HALF, -HALF, HALF),
        (HALF, -HALF, HALF),
        (HALF, HALF, HALF),
        (-HALF, HALF, HALF),
    ];
    for (v, e) in c.vertices.iter().zip(expected.iter()) {
        assert_eq!((v.x, v.y, v.z), *e);
    }
}

#[test]
fn edge_list_connects_documented_pairs() {
    let e = edges();
    let expected = [
        (0, 1),
        (1, 2),
        (2, 3),
        (3, 0),
        (4, 5),
        (5, 6),
        (6, 7),
        (7, 4),
        (0, 4),
        (1, 5),
        (2, 6),
        (3, 7),
    ];
    assert_eq!(e.len(), 12);
    for (got, want) in e.iter().zip(expected.iter()) {
        assert_eq!(got, want);
    }
}

#[test]
fn scale_multiplies_every_coordinate() {
    let c = Cube::unit_cube();
    let doubled = c.scale(2 * MICRO);
    for (v, o) in doubled.vertices.iter().zip(c.vertices.iter()) {
        assert_eq!(v.x, 2 * o.x);
        assert_eq!(v.y, 2 * o.y);
        assert_eq!(v.z, 2 * o.z);
    }
}

#[test]
fn scale_by_one_is_identity() {
    let c = Cube::unit_cube();
    let same = c.scale(MICRO);
    assert_eq!(same.vertices, c.vertices);
}

#[test]
fn scale_by_neg_one_mirrors() {
    let c = Cube::unit_cube();
    let mirrored = c.scale(-MICRO);
    for (v, o) in mirrored.vertices.iter().zip(c.vertices.iter()) {
        assert_eq!((v.x, v.y, v.z), (-o.x, -o.y, -o.z));
    }
}

#[test]
fn scale_truncates_toward_zero() {
    let c = Cube {
        vertices: [Vec3 { x: 1, y: -1, z: 3 }; 8],
    };
    let s = c.scale(HALF);
    assert_eq!((s.vertices[0].x, s.vertices[0].y, s.vertices[0].z), (0, 0, 1));
}

#[test]
fn offset_adds_and_composes() {
    let c = Cube::unit_cube();
    let a = Vec3 { x: 3_000_000, y: -2_000_000, z: 500 };
    let b = Vec3 { x: -1_000_000, y: 7_000_000, z: -250 };
    let sum = Vec3 { x: a.x + b.x, y: a.y + b.y, z: a.z + b.z };
    let two_steps = c.offset(a).offset(b);
    let one_step = c.offset(sum);
    assert_eq!(two_steps.vertices, one_step.vertices);
    let other_order = c.offset(b).offset(a);
    assert_eq!(two_steps.vertices, other_order.vertices);
    assert_eq!(two_steps.vertices[0].x, -HALF + a.x + b.x);
    assert_eq!(two_steps.vertices[0].y, -HALF + a.y + b.y);
    assert_eq!(two_steps.vertices[0].z, -HALF + a.z + b.z);
}

/// Distance of a vertex from the origin, in units.
fn dist(v: &Vec3) -> f64 {
    let x = v.x as f64 / 1_000_000.0;
    let y = v.y as f64 / 1_000_000.0;
    let z = v.z as f64 / 1_000_000.0;
    (x * x + y * y + z * z).sqrt()
}

#[test]
fn rotation_preserves_distance_from_origin() {
    let expected = 0.75_f64.sqrt();
    let (c, s) = cos_sin(0.7);
    let cube = Cube::unit_cube();
    for rotated in [cube.rotate_x(c, s), cube.rotate_y(c, s), cube.rotate_z(c, s)].iter() {
        for v in rotated.vertices.iter() {
            assert!((dist(v) - expected).abs() < 1e-5);
        }
    }
    let (c2, s2) = cos_sin(-2.1);
    let composed = cube.rotate_x(c2, s2).rotate_y(c2, s2).rotate_z(c2, s2);
    for v in composed.vertices.iter() {
        assert!((dist(v) - expected).abs() < 3e-5);
    }
}

#[test]
fn rotation_by_zero_is_identity() {
    let cube = Cube::unit_cube();
    assert_eq!(cube.rotate_x(MICRO, 0).vertices, cube.vertices);
    assert_eq!(cube.rotate_y(MICRO, 0).vertices, cube.vertices);
    assert_eq!(cube.rotate_z(MICRO, 0).vertices, cube.vertices);
}

#[test]
fn quarter_turn_about_z_moves_corner_exactly() {
    let cube = Cube::unit_cube();
    let turned = cube.rotate_z(0, MICRO);
    // The corner at (1/2, 1/2, -1/2) lands on (-1/2, 1/2, -1/2).
    let v = turned.vertices[2];
    assert_eq!((v.x, v.y, v.z), (-HALF, HALF, -HALF));
}

#[test]
fn projection_keeps_x_and_y_exactly() {
    let (c, s) = cos_sin(1.234);
    let cube = Cube::unit_cube().rotate_y(c, s).scale(3 * MICRO).offset(Vec3 {
        x: 11,
        y: -22,
        z: 33,
    });
    let points = cube.project();
    assert_eq!(points.len(), 8);
    for (p, v) in points.iter().zip(cube.vertices.iter()) {
        assert_eq!(*p, Vec2 { x: v.x, y: v.y });
    }
}

#[test]
fn rotate_then_offset_differs_from_offset_then_rotate() {
    let d = Vec3 { x: 10 * MICRO, y: 20 * MICRO, z: 0 };
    let rotated_first = Cube::unit_cube().rotate_z(0, MICRO).offset(d);
    let offset_first = Cube::unit_cube().offset(d).rotate_z(0, MICRO);
    assert_ne!(rotated_first.vertices, offset_first.vertices);
}
