//! Fixed-point arithmetic and the game's tuning constants.
//!
//! Every length, position and velocity in the game is an `i64` counted in
//! thousandths of a screen unit (one unit = `SCALE` thousandths). A product of
//! two such quantities carries a factor of `SCALE` too many, so it is scaled
//! back down with a division that rounds toward zero.

use vstd::prelude::*;
use vstd::arithmetic::div_mod::lemma_div_is_ordered;
use vstd::arithmetic::div_mod::lemma_div_nonincreasing;
use vstd::arithmetic::div_mod::lemma_div_pos_is_pos;

verus! {

/// Thousandths of a screen unit per screen unit.
pub const SCALE: i64 = 1000;

/// Width of the visible screen.
pub const SCREEN_WIDTH: i64 = 500_000;

/// Height of the visible screen.
pub const SCREEN_HEIGHT: i64 = 500_000;

/// Width of the scrolling obstacle's sprite.
pub const OBSTACLE_WIDTH: i64 = 303_000;

/// Height of the scrolling obstacle's sprite.
pub const OBSTACLE_HEIGHT: i64 = 302_000;

/// Height of the falling body's sprite; the body rests when its centre is at
/// half this height.
pub const ROCK_HEIGHT: i64 = 52_000;

/// Downward acceleration applied every frame (negative = downward).
pub const GRAVITY: i64 = -500;

/// Upward velocity a pressed jump resets the body to.
pub const JUMP_IMPULSE: i64 = 7_000;

/// Leftward speed of the obstacle.
pub const SCROLL_SPEED: i64 = 5_000;

/// Factor tying elapsed real time to the simulation's assumed baseline of
/// about seventy updates per second.
pub const TIME_SCALE: i64 = 70;

/// Largest magnitude a position or velocity may have when a frame step
/// starts, so that the step's intermediate products fit in an `i64`.
pub const POS_LIMIT: i64 = 1_000_000_000_000;

/// Largest frame delta a step accepts, for the same reason.
pub const DT_LIMIT: i64 = 1_000_000;

/// Scaling a raw product back down: division by `SCALE`, rounding toward zero.
pub open spec fn scale_down_spec(p: int) -> int {
    if p >= 0 {
        p / (SCALE as int)
    } else {
        -((-p) / (SCALE as int))
    }
}

/// The product of two fixed-point quantities, scaled back to fixed point.
pub open spec fn scaled_mul(a: int, b: int) -> int {
    scale_down_spec(a * b)
}

/// Scaling down is monotonic.
pub proof fn lemma_scale_down_le(p1: int, p2: int)
    requires
        p1 <= p2,
    ensures
        scale_down_spec(p1) <= scale_down_spec(p2),
{
    if p1 >= 0 {
        lemma_div_is_ordered(p1, p2, SCALE as int);
    } else if p2 >= 0 {
        lemma_div_pos_is_pos(-p1, SCALE as int);
        lemma_div_pos_is_pos(p2, SCALE as int);
    } else {
        lemma_div_is_ordered(-p2, -p1, SCALE as int);
    }
}

/// Scales a raw product of two fixed-point quantities back down, rounding
/// toward zero.
pub fn scale_down(p: i64) -> (r: i64)
    requires
        -0x7fff_ffff_ffff_ffff <= p,
    ensures
        r == scale_down_spec(p as int),
{
    if p >= 0 {
        let q: u64 = (p as u64) / 1000;
        proof {
            lemma_div_pos_is_pos(p as int, SCALE as int);
            lemma_div_nonincreasing(p as int, SCALE as int);
        }
        q as i64
    } else {
        let m: u64 = (-p) as u64;
        let q: u64 = m / 1000;
        proof {
            lemma_div_pos_is_pos(-(p as int), SCALE as int);
            lemma_div_nonincreasing(-(p as int), SCALE as int);
        }
        -(q as i64)
    }
}

/// Multiplies two fixed-point quantities and scales the result back down.
pub fn mul_scaled(a: i64, b: i64) -> (r: i64)
    requires
        -0x7fff_ffff_ffff_ffff <= a * b <= 0x7fff_ffff_ffff_ffff,
    ensures
        r == scaled_mul(a as int, b as int),
{
    let p: i64 = a * b;
    scale_down(p)
}

} // verus!
