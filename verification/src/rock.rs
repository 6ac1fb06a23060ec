//! The player-controlled falling body: gravity integration, jump impulse and
//! the ground clamp.

use vstd::prelude::*;
use crate::fixed::scaled_mul;
use crate::fixed::lemma_scale_down_le;
use crate::fixed::mul_scaled;
use crate::fixed::DT_LIMIT;
use crate::fixed::GRAVITY;
use crate::fixed::JUMP_IMPULSE;
use crate::fixed::POS_LIMIT;

verus! {

/// Vertical position at which the body rests on the ground: half its own
/// height above the ground line.
pub const GROUND_Y: i64 = 26_000;

/// Vertical position the body spawns at.
pub const ROCK_START_Y: i64 = 100_000;

/// The falling body: vertical position and signed vertical velocity
/// (positive = upward), in thousandths of a screen unit.
#[derive(Clone, Copy, Debug, PartialEq, Eq, Structural)]
pub struct Rock {
    pub y: i64,
    pub velocity: i64,
}

/// The velocity after one frame's integration: a pressed jump first resets
/// the velocity to `JUMP_IMPULSE`, then gravity acts for the frame.
pub open spec fn integrated_velocity(velocity: int, jump_pressed: bool, dt: int) -> int {
    (if jump_pressed {
        JUMP_IMPULSE as int
    } else {
        velocity
    }) + scaled_mul(GRAVITY as int, dt)
}

/// The position one frame's semi-implicit Euler integration reaches, before
/// the ground clamp is considered.
pub open spec fn raw_y(y: int, velocity: int, jump_pressed: bool, dt: int) -> int {
    y + scaled_mul(integrated_velocity(velocity, jump_pressed, dt), dt)
}

/// Whether the frame ends with the body clamped to the ground.
pub open spec fn hits_ground(y: int, velocity: int, jump_pressed: bool, dt: int) -> bool {
    raw_y(y, velocity, jump_pressed, dt) <= GROUND_Y as int
}

/// The body's velocity after one full frame step.
pub open spec fn step_velocity(y: int, velocity: int, jump_pressed: bool, dt: int) -> int {
    if hits_ground(y, velocity, jump_pressed, dt) {
        0
    } else {
        integrated_velocity(velocity, jump_pressed, dt)
    }
}

/// The body's position after one full frame step.
pub open spec fn step_y(y: int, velocity: int, jump_pressed: bool, dt: int) -> int {
    if hits_ground(y, velocity, jump_pressed, dt) {
        GROUND_Y as int
    } else {
        raw_y(y, velocity, jump_pressed, dt)
    }
}

impl Rock {
    /// Magnitudes under which one frame step cannot overflow.
    pub open spec fn in_bounds(self) -> bool {
        &&& -POS_LIMIT <= self.y <= POS_LIMIT
        &&& -POS_LIMIT <= self.velocity <= POS_LIMIT
    }

    /// A freshly spawned body: at the starting height, at rest.
    pub fn new() -> (rock: Rock)
        ensures
            rock.y == ROCK_START_Y,
            rock.velocity == 0,
            rock.in_bounds(),
    {
        Rock { y: ROCK_START_Y, velocity: 0 }
    }

    pub fn set_velocity(&mut self, new_velocity: i64)
        ensures
            final(self).velocity == new_velocity,
            final(self).y == old(self).y,
    {
        self.velocity = new_velocity;
    }

    pub fn set_y(&mut self, new_y: i64)
        ensures
            final(self).y == new_y,
            final(self).velocity == old(self).velocity,
    {
        self.y = new_y;
    }

    /// One frame of the body's kinematics: a pressed jump resets the velocity
    /// to `JUMP_IMPULSE`, gravity is integrated, the position follows the new
    /// velocity, and a position at or below the ground is clamped to the
    /// ground with the velocity zeroed.
    pub fn update(&mut self, jump_pressed: bool, dt: i64)
        requires
            old(self).in_bounds(),
            0 <= dt <= DT_LIMIT,
        ensures
            final(self).velocity == step_velocity(
                old(self).y as int,
                old(self).velocity as int,
                jump_pressed,
                dt as int,
            ),
            final(self).y == step_y(
                old(self).y as int,
                old(self).velocity as int,
                jump_pressed,
                dt as int,
            ),
            final(self).y >= GROUND_Y,
            hits_ground(old(self).y as int, old(self).velocity as int, jump_pressed, dt as int)
                ==> final(self).velocity == 0 && final(self).y == GROUND_Y,
    {
        if jump_pressed {
            self.set_velocity(JUMP_IMPULSE);
        }
        let gravity_gain = mul_scaled(GRAVITY, dt);
        proof {
            lemma_scale_down_le(-500_000_000, GRAVITY as int * dt as int);
            lemma_scale_down_le(GRAVITY as int * dt as int, 0);
            assert(-500_000 <= gravity_gain <= 0);
        }
        let new_velocity = self.velocity + gravity_gain;
        proof {
            assert(-1_000_000_500_000 <= new_velocity <= 1_000_000_500_000);
            assert(-1_000_000_500_000_000_000 <= new_velocity as int * dt as int
                <= 1_000_000_500_000_000_000) by (nonlinear_arith)
                requires
                    -1_000_000_500_000 <= new_velocity <= 1_000_000_500_000,
                    0 <= dt <= 1_000_000,
            ;
        }
        let rise = mul_scaled(new_velocity, dt);
        proof {
            lemma_scale_down_le(-1_000_000_500_000_000_000, new_velocity as int * dt as int);
            lemma_scale_down_le(new_velocity as int * dt as int, 1_000_000_500_000_000_000);
            assert(-1_000_000_500_000_000 <= rise <= 1_000_000_500_000_000);
        }
        let new_y = self.y + rise;
        if new_y <= GROUND_Y {
            self.set_velocity(0);
            self.set_y(GROUND_Y);
        } else {
            self.set_velocity(new_velocity);
            self.set_y(new_y);
        }
    }
}

/// In free fall — no jump pressed, and the integrated position stays above
/// the ground — the frame step is exactly semi-implicit Euler integration:
/// gravity is added to the velocity, and the new velocity carries the
/// position.
pub proof fn lemma_airborne_integration(y: int, velocity: int, dt: int)
    requires
        raw_y(y, velocity, false, dt) > GROUND_Y as int,
    ensures
        step_velocity(y, velocity, false, dt) == velocity + scaled_mul(GRAVITY as int, dt),
        step_y(y, velocity, false, dt) == y + scaled_mul(
            velocity + scaled_mul(GRAVITY as int, dt),
            dt,
        ),
{
}

/// A pressed jump discards the previous velocity entirely: the integrated
/// velocity is `JUMP_IMPULSE` plus the frame's gravity, whatever the velocity
/// was before, and the whole step no longer depends on that velocity.
pub proof fn lemma_jump_overrides_velocity(y: int, velocity: int, dt: int)
    ensures
        integrated_velocity(velocity, true, dt) == JUMP_IMPULSE + scaled_mul(GRAVITY as int, dt),
        step_velocity(y, velocity, true, dt) == step_velocity(y, 0, true, dt),
        step_y(y, velocity, true, dt) == step_y(y, 0, true, dt),
{
}

/// Resting on the ground is a stable fixed point: a frame with no jump input
/// that starts at the ground position with zero velocity ends there again,
/// still with zero velocity.
pub proof fn lemma_ground_rest_fixed_point(dt: int)
    requires
        0 <= dt <= DT_LIMIT,
    ensures
        step_y(GROUND_Y as int, 0, false, dt) == GROUND_Y as int,
        step_velocity(GROUND_Y as int, 0, false, dt) == 0,
{
    let iv = integrated_velocity(0, false, dt);
    assert(GRAVITY as int * dt <= 0) by (nonlinear_arith)
        requires
            GRAVITY as int == -500,
            dt >= 0,
    ;
    lemma_scale_down_le(GRAVITY as int * dt, 0);
    assert(iv <= 0);
    assert(iv * dt <= 0) by (nonlinear_arith)
        requires
            iv <= 0,
            dt >= 0,
    ;
    lemma_scale_down_le(iv * dt, 0);
}

} // verus!
