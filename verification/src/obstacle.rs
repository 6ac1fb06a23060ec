//! The scrolling obstacle: constant leftward motion with a hard wrap back to
//! the right edge of the screen.

use vstd::prelude::*;
use crate::fixed::scaled_mul;
use crate::fixed::lemma_scale_down_le;
use crate::fixed::mul_scaled;
use crate::fixed::DT_LIMIT;
use crate::fixed::POS_LIMIT;
use crate::fixed::SCREEN_HEIGHT;
use crate::fixed::SCREEN_WIDTH;
use crate::fixed::SCROLL_SPEED;

verus! {

/// Half the obstacle's width; the obstacle wraps once its centre is this far
/// past the left edge, so that its sprite has left the screen entirely.
pub const OBSTACLE_HALF_WIDTH: i64 = 151_500;

/// Horizontal position the obstacle spawns at, near the right edge.
pub const OBSTACLE_START_X: i64 = SCREEN_HEIGHT - 10_000;

/// The obstacle only ever moves right to left, so it carries its horizontal
/// position alone, in thousandths of a screen unit.
#[derive(Clone, Copy, Debug, PartialEq, Eq, Structural)]
pub struct Obstacle {
    pub x: i64,
}

/// The position one frame's leftward scroll reaches, before the wrap is
/// considered.
pub open spec fn scrolled_x(x: int, dt: int) -> int {
    x - scaled_mul(SCROLL_SPEED as int, dt)
}

/// Whether the frame ends with the obstacle reset to the right edge.
pub open spec fn wraps(x: int, dt: int) -> bool {
    scrolled_x(x, dt) <= -(OBSTACLE_HALF_WIDTH as int)
}

/// The obstacle's position after one full frame step: the scrolled position,
/// except that one at or beyond the left margin is reset exactly to
/// `SCREEN_WIDTH` — a hard reset, not a wrapped remainder.
pub open spec fn step_x(x: int, dt: int) -> int {
    if wraps(x, dt) {
        SCREEN_WIDTH as int
    } else {
        scrolled_x(x, dt)
    }
}

impl Obstacle {
    /// Magnitude under which one frame step cannot overflow.
    pub open spec fn in_bounds(self) -> bool {
        -POS_LIMIT <= self.x <= POS_LIMIT
    }

    /// A freshly spawned obstacle, near the right edge of the screen.
    pub fn new() -> (obstacle: Obstacle)
        ensures
            obstacle.x == OBSTACLE_START_X,
            obstacle.in_bounds(),
    {
        Obstacle { x: OBSTACLE_START_X }
    }

    pub fn set_x(&mut self, new_x: i64)
        ensures
            final(self).x == new_x,
    {
        self.x = new_x;
    }

    /// One frame of the obstacle's motion: it scrolls left by
    /// `SCROLL_SPEED · dt`, and a position at or beyond half its width past
    /// the left edge is reset to the right edge of the screen.
    pub fn update(&mut self, dt: i64)
        requires
            old(self).in_bounds(),
            0 <= dt <= DT_LIMIT,
        ensures
            final(self).x == step_x(old(self).x as int, dt as int),
            final(self).x > -OBSTACLE_HALF_WIDTH,
            old(self).x <= SCREEN_WIDTH ==> final(self).x <= SCREEN_WIDTH,
    {
        let travel = mul_scaled(SCROLL_SPEED, dt);
        proof {
            lemma_scale_down_le(0, SCROLL_SPEED as int * dt as int);
            lemma_scale_down_le(SCROLL_SPEED as int * dt as int, 5_000_000_000);
            assert(0 <= travel <= 5_000_000);
        }
        let mut new_x = self.x - travel;
        if new_x <= -OBSTACLE_HALF_WIDTH {
            new_x = SCREEN_WIDTH;
        }
        self.set_x(new_x);
    }
}

} // verus!
