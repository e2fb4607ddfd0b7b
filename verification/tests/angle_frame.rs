use wirecube::angle::{wrap_angle, Animator, SPIN_RATE, TAU};
use wirecube::fixed::MICRO;
use wirecube::frame::frame_points;

#[test]
fn wrap_lifts_negative_angles_by_one_revolution() {
    assert_eq!(wrap_angle(-100_000), TAU - 100_000);
    assert_eq!(wrap_angle(-1), TAU - 1);
}

#[test]
fn wrap_drops_one_revolution_of_overshoot() {
    assert_eq!(wrap_angle(TAU + 100_000), 100_000);
    assert_eq!(wrap_angle(TAU + 1), 1);
}

#[test]
fn wrap_keeps_in_range_angles_unchanged() {
    assert_eq!(wrap_angle(3_141_593), 3_141_593);
    assert_eq!(wrap_angle(0), 0);
    assert_eq!(wrap_angle(1), 1);
    assert_eq!(wrap_angle(TAU - 1), TAU - 1);
    // The boundary itself passes through: a single correction only
    // applies strictly beyond one revolution.
    assert_eq!(wrap_angle(TAU), TAU);
}

#[test]
fn animator_starts_at_zero_and_advances_at_rate() {
    let mut a = Animator::new();
    assert_eq!(a.angle, 0);
    // One second per frame: a quarter turn each.
    assert_eq!(a.advance(1_000_000), SPIN_RATE);
    assert_eq!(a.advance(1_000_000), 2 * SPIN_RATE);
    assert_eq!(a.advance(1_000_000), 3 * SPIN_RATE);
    // Four quarter turns land just short of one revolution, so no wrap
    // happens yet ...
    assert_eq!(a.advance(1_000_000), 4 * SPIN_RATE);
    assert!(a.angle <= TAU);
    // ... and the fifth wraps.
    assert_eq!(a.advance(1_000_000), 5 * SPIN_RATE - TAU);
}

#[test]
fn animator_scales_step_by_elapsed_time() {
    let mut a = Animator::new();
    // A sixteenth of a second.
    assert_eq!(a.advance(62_500), SPIN_RATE / 16);
    // No time, no turn.
    assert_eq!(a.advance(0), SPIN_RATE / 16);
}

#[test]
fn frame_at_zero_angle_gives_exact_screen_points() {
    // Cosine one, sine zero: the rotations are the identity, so the
    // frame is the canonical cube scaled by seventy-five and centered
    // on a 256x256 surface.
    let points = frame_points(MICRO, 0, 128 * MICRO, 128 * MICRO);
    let lo = 128 * MICRO - 37_500_000;
    let hi = 128 * MICRO + 37_500_000;
    let expected = [
        (lo, lo),
        (hi, lo),
        (hi, hi),
        (lo, hi),
        (lo, lo),
        (hi, lo),
        (hi, hi),
        (lo, hi),
    ];
    assert_eq!(points.len(), 8);
    for (p, e) in points.iter().zip(expected.iter()) {
        assert_eq!((p.x, p.y), *e);
    }
}

#[test]
fn frame_discards_depth_but_keeps_turned_plane() {
    // A quarter turn about every axis still lands the eight corners on
    // the four screen positions, permuted.
    let points = frame_points(0, MICRO, 128 * MICRO, 128 * MICRO);
    let lo = 128 * MICRO - 37_500_000;
    let hi = 128 * MICRO + 37_500_000;
    for p in points.iter() {
        assert!(p.x == lo || p.x == hi);
        assert!(p.y == lo || p.y == hi);
    }
}
