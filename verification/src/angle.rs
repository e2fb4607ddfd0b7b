//! The animation angle: wrapping into one revolution, and the animator
//! state that advances the angle by a quarter turn per second of elapsed
//! time.
//!
//! Angles are in micro-radians. The wrap policy is deliberately a single
//! correction, not a full modulo: a negative angle gains one revolution,
//! an angle above one revolution loses one. It therefore normalizes at
//! most one revolution of underflow or overshoot — enough for the bounded
//! per-frame increment this library is driven with, and stated exactly so
//! in the contracts rather than silently generalized.

use vstd::prelude::*;
use crate::fixed::{MICRO, div_trunc, lemma_div_trunc_bound};

verus! {

/// One full revolution (two pi), in micro-radians.
pub const TAU: i64 = 6_283_185;

/// The spin rate: a quarter turn (pi over two) in micro-radians, applied
/// per second of elapsed time.
pub const SPIN_RATE: i64 = 1_570_796;

/// Largest elapsed time `advance` accepts, in micro-seconds (about
/// eleven and a half days). Keeps the rate product inside an `i64`.
pub const ELAPSED_MAX: i64 = 1_000_000_000_000;

/// The single-correction wrap: one revolution added below zero, one
/// revolution removed above one revolution, unchanged in between.
pub open spec fn wrap_spec(a: int) -> int {
    if a < 0 {
        TAU as int - (0 - a)
    } else if a > TAU as int {
        a - TAU as int
    } else {
        a
    }
}

/// The angle gained in `elapsed` micro-seconds at the spin rate.
pub open spec fn spin_step(elapsed: int) -> int {
    div_trunc(SPIN_RATE as int * elapsed, MICRO as int)
}

/// Wraps an angle into one revolution by a single correction. Faithful
/// to its piecewise statement: an input more than one revolution out of
/// range stays out of range, and an input of exactly one revolution is
/// kept, not sent to zero.
pub fn wrap_angle(angle: i64) -> (r: i64)
    requires
        i64::MIN + TAU < angle,
        angle < i64::MAX - TAU,
    ensures
        r == wrap_spec(angle as int),
{
    if angle < 0 {
        let dif = 0 - angle;
        TAU - dif
    } else if angle > TAU {
        angle - TAU
    } else {
        angle
    }
}

/// The animator: the one piece of state the frame loop owns, the
/// accumulated rotation angle in micro-radians, kept in [0, TAU].
pub struct Animator {
    pub angle: i64,
}

impl Animator {
    /// The angle an animator holds right after start-up.
    pub open spec fn start_model() -> int {
        0
    }

    /// The wrap policy keeps the angle within one revolution.
    pub open spec fn wf(&self) -> bool {
        0 <= self.angle <= TAU as int
    }

    /// A fresh animator, angle zero.
    pub fn new() -> (r: Animator)
        ensures
            r.angle == Animator::start_model(),
            r.wf(),
    {
        Animator { angle: 0 }
    }

    /// Advances the angle by the spin rate times the elapsed time, then
    /// wraps. The exact new angle is pinned; it stays within one
    /// revolution whenever one frame gains at most one revolution.
    pub fn advance(&mut self, elapsed: i64) -> (r: i64)
        requires
            old(self).wf(),
            0 <= elapsed <= ELAPSED_MAX,
        ensures
            final(self).angle == wrap_spec(old(self).angle + spin_step(elapsed as int)),
            r == final(self).angle,
            spin_step(elapsed as int) <= TAU as int ==> final(self).wf(),
    {
        proof {
            assert(SPIN_RATE as int * elapsed as int <= SPIN_RATE as int * ELAPSED_MAX as int)
                by (nonlinear_arith)
                requires
                    0 <= elapsed <= ELAPSED_MAX,
                    0 < SPIN_RATE,
            ;
            assert(0 <= SPIN_RATE as int * elapsed as int) by (nonlinear_arith)
                requires
                    0 <= elapsed,
                    0 < SPIN_RATE,
            ;
            lemma_div_trunc_bound(SPIN_RATE as int * elapsed as int, MICRO as int);
        }
        let step: i64 = crate::fixed::fp_mul(SPIN_RATE, elapsed);
        self.angle = wrap_angle(self.angle + step);
        self.angle
    }
}

} // verus!
