//! Frame-step behaviour of the falling body and the scrolling obstacle, on
//! concrete values. All positions and velocities are in thousandths of a
//! screen unit, so 1000 stands for one unit and a frame delta of 1000 stands
//! for one baseline frame.

use rock_dodge::fixed::SCREEN_WIDTH;
use rock_dodge::obstacle::Obstacle;
use rock_dodge::obstacle::OBSTACLE_START_X;
use rock_dodge::play::frame_delta;
use rock_dodge::rock::Rock;
use rock_dodge::rock::GROUND_Y;
use rock_dodge::rock::ROCK_START_Y;

#[test]
fn new_rock_spawns_at_rest() {
    let rock = Rock::new();
    assert_eq!(rock.y, ROCK_START_Y);
    assert_eq!(rock.y, 100_000);
    assert_eq!(rock.velocity, 0);
}

#[test]
fn free_fall_one_frame() {
    // From y = 100, velocity = 0, one frame with dt = 1 and no jump:
    // velocity becomes the gravity -0.5, and y falls to 99.5.
    let mut rock = Rock::new();
    rock.update(false, 1000);
    assert_eq!(rock.velocity, -500);
    assert_eq!(rock.y, 99_500);
}

#[test]
fn free_fall_integrates_gravity_each_frame() {
    // A second frame adds gravity again: velocity -1.0, y 98.5.
    let mut rock = Rock::new();
    rock.update(false, 1000);
    rock.update(false, 1000);
    assert_eq!(rock.velocity, -1_000);
    assert_eq!(rock.y, 98_500);
}

#[test]
fn descent_near_ground_stays_exact_while_airborne() {
    // From y = 30, velocity = -2, dt = 1: the integrated velocity is -2.5 and
    // the integrated position 27.5, still above the resting height 26, so no
    // clamp applies and the step is the exact integration.
    let mut rock = Rock { y: 30_000, velocity: -2_000 };
    rock.update(false, 1000);
    assert_eq!(rock.velocity, -2_500);
    assert_eq!(rock.y, 27_500);
}

#[test]
fn ground_clamp_zeroes_velocity() {
    // From y = 25, velocity = -2, dt = 1: the integration reaches 22.5, at or
    // below the resting height, so the body is clamped to the ground.
    let mut rock = Rock { y: 25_000, velocity: -2_000 };
    rock.update(false, 1000);
    assert_eq!(rock.y, GROUND_Y);
    assert_eq!(rock.y, 26_000);
    assert_eq!(rock.velocity, 0);
}

#[test]
fn ground_clamp_applies_at_exact_boundary() {
    // From y = 28.5, velocity = -2, dt = 1: the integration lands exactly on
    // the resting height 26, and the clamp (a <=-test) still zeroes velocity.
    let mut rock = Rock { y: 28_500, velocity: -2_000 };
    rock.update(false, 1000);
    assert_eq!(rock.y, 26_000);
    assert_eq!(rock.velocity, 0);
}

#[test]
fn resting_on_ground_is_a_fixed_point() {
    let mut rock = Rock { y: GROUND_Y, velocity: 0 };
    rock.update(false, 1000);
    assert_eq!(rock.y, GROUND_Y);
    assert_eq!(rock.velocity, 0);
    rock.update(false, 1000);
    assert_eq!(rock.y, GROUND_Y);
    assert_eq!(rock.velocity, 0);
}

#[test]
fn jump_overrides_fall() {
    // From y = 60, velocity = -10, jump pressed, dt = 1: the impulse 7
    // replaces the old velocity before gravity, giving exactly 6.5.
    let mut rock = Rock { y: 60_000, velocity: -10_000 };
    rock.update(true, 1000);
    assert_eq!(rock.velocity, 6_500);
    assert_eq!(rock.y, 66_500);
}

#[test]
fn jump_result_ignores_prior_velocity() {
    let mut rising = Rock { y: 60_000, velocity: 5_000 };
    let mut falling = Rock { y: 60_000, velocity: -9_999 };
    rising.update(true, 1000);
    falling.update(true, 1000);
    assert_eq!(rising.velocity, falling.velocity);
    assert_eq!(rising.y, falling.y);
}

#[test]
fn zero_delta_leaves_airborne_body_unchanged() {
    let mut rock = Rock { y: 50_000, velocity: -3_000 };
    rock.update(false, 0);
    assert_eq!(rock.y, 50_000);
    assert_eq!(rock.velocity, -3_000);
}

#[test]
fn body_spawned_below_ground_is_clamped_up() {
    let mut rock = Rock { y: 10_000, velocity: 0 };
    rock.update(false, 0);
    assert_eq!(rock.y, 26_000);
    assert_eq!(rock.velocity, 0);
}

#[test]
fn obstacle_spawns_near_right_edge() {
    let obstacle = Obstacle::new();
    assert_eq!(obstacle.x, OBSTACLE_START_X);
    assert_eq!(obstacle.x, 490_000);
}

#[test]
fn obstacle_scrolls_left() {
    let mut obstacle = Obstacle::new();
    obstacle.update(1000);
    assert_eq!(obstacle.x, 485_000);
}

#[test]
fn obstacle_wraps_to_right_edge() {
    // From x = -150, dt = 1: the scroll reaches -155, at or beyond half the
    // obstacle width (-151.5) past the left edge, so x resets to the screen
    // width exactly — not to a wrapped remainder.
    let mut obstacle = Obstacle { x: -150_000 };
    obstacle.update(1000);
    assert_eq!(obstacle.x, SCREEN_WIDTH);
    assert_eq!(obstacle.x, 500_000);
}

#[test]
fn obstacle_wraps_at_exact_boundary() {
    let mut obstacle = Obstacle { x: -146_500 };
    obstacle.update(1000);
    assert_eq!(obstacle.x, 500_000);
}

#[test]
fn obstacle_just_inside_boundary_does_not_wrap() {
    let mut obstacle = Obstacle { x: -146_499 };
    obstacle.update(1000);
    assert_eq!(obstacle.x, -151_499);
}

#[test]
fn frame_delta_scales_elapsed_time() {
    // Fourteen thousandths of a second at the seventy-per-second baseline is
    // just under one whole frame.
    assert_eq!(frame_delta(14), 980);
    assert_eq!(frame_delta(0), 0);
}
