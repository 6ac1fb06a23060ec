//! The per-frame update pass: an external scheduler calls
//! [`PlaySystem::run`] once per rendered frame with the frame's input and
//! elapsed time, and it steps every falling body and every obstacle, writing
//! each new position into the entity's render transform.

use vstd::prelude::*;
use crate::fixed::DT_LIMIT;
use crate::fixed::TIME_SCALE;
use crate::rock::step_velocity;
use crate::rock::step_y;
use crate::obstacle::step_x;
use crate::world::World;

verus! {

/// The frame-rate-normalized time delta: elapsed real time (in thousandths
/// of a second) times `TIME_SCALE`, so that one whole delta unit corresponds
/// to one update at the assumed baseline rate.
pub fn frame_delta(elapsed_millis: i64) -> (dt: i64)
    requires
        0 <= elapsed_millis,
        elapsed_millis * TIME_SCALE <= DT_LIMIT,
    ensures
        dt == elapsed_millis * TIME_SCALE,
        0 <= dt <= DT_LIMIT,
{
    elapsed_millis * TIME_SCALE
}

/// What one frame does to the falling bodies: each one at an index below
/// `upto` has taken its kinematics step and its transform has followed it
/// vertically.
pub open spec fn rocks_stepped(
    before: World,
    after: World,
    jump_pressed: bool,
    dt: int,
    upto: int,
) -> bool {
    forall|j: int|
        0 <= j < upto ==> {
            &&& (#[trigger] after.rocks@[j]).velocity == step_velocity(
                before.rocks@[j].y as int,
                before.rocks@[j].velocity as int,
                jump_pressed,
                dt,
            )
            &&& after.rocks@[j].y == step_y(
                before.rocks@[j].y as int,
                before.rocks@[j].velocity as int,
                jump_pressed,
                dt,
            )
            &&& after.rock_transforms@[j].y == after.rocks@[j].y
            &&& after.rock_transforms@[j].x == before.rock_transforms@[j].x
        }
}

/// What one frame does to the obstacles: each one at an index below `upto`
/// has taken its scroll step and its transform has followed it horizontally.
pub open spec fn obstacles_stepped(before: World, after: World, dt: int, upto: int) -> bool {
    forall|j: int|
        0 <= j < upto ==> {
            &&& (#[trigger] after.obstacles@[j]).x == step_x(before.obstacles@[j].x as int, dt)
            &&& after.obstacle_transforms@[j].x == after.obstacles@[j].x
            &&& after.obstacle_transforms@[j].y == before.obstacle_transforms@[j].y
        }
}

/// The system that runs the game, once per rendered frame.
pub struct PlaySystem;

impl PlaySystem {
    /// One frame of the whole game: every falling body takes one kinematics
    /// step (see `rock::step_y` and `rock::step_velocity`) and its transform
    /// follows it vertically; every obstacle takes one scroll step (see
    /// `obstacle::step_x`) and its transform follows it horizontally. Nothing
    /// else in the world changes.
    pub fn run(&mut self, world: &mut World, jump_pressed: bool, dt: i64)
        requires
            old(world).wf(),
            old(world).all_in_bounds(),
            0 <= dt <= DT_LIMIT,
        ensures
            final(world).wf(),
            final(world).rocks@.len() == old(world).rocks@.len(),
            final(world).rock_transforms@.len() == old(world).rock_transforms@.len(),
            final(world).obstacles@.len() == old(world).obstacles@.len(),
            final(world).obstacle_transforms@.len() == old(world).obstacle_transforms@.len(),
            rocks_stepped(
                *old(world),
                *final(world),
                jump_pressed,
                dt as int,
                old(world).rocks@.len() as int,
            ),
            obstacles_stepped(
                *old(world),
                *final(world),
                dt as int,
                old(world).obstacles@.len() as int,
            ),
    {
        let rock_count = world.rocks.len();
        let mut i: usize = 0;
        while i < rock_count
            invariant
                world.wf(),
                old(world).wf(),
                old(world).all_in_bounds(),
                0 <= dt <= DT_LIMIT,
                i <= rock_count,
                rock_count == old(world).rocks@.len(),
                world.rocks@.len() == old(world).rocks@.len(),
                world.rock_transforms@.len() == old(world).rock_transforms@.len(),
                world.obstacles@ == old(world).obstacles@,
                world.obstacle_transforms@ == old(world).obstacle_transforms@,
                forall|j: int|
                    i <= j < old(world).rocks@.len() ==> (#[trigger] world.rocks@[j]) == old(
                        world,
                    ).rocks@[j] && world.rock_transforms@[j] == old(world).rock_transforms@[j],
                rocks_stepped(*old(world), *world, jump_pressed, dt as int, i as int),
            decreases rock_count - i,
        {
            let ghost entry_rocks = world.rocks@;
            let ghost entry_transforms = world.rock_transforms@;
            let mut rock = world.rocks[i];
            rock.update(jump_pressed, dt);
            let mut transform = world.rock_transforms[i];
            transform.set_translation_y(rock.y);
            world.rocks.set(i, rock);
            world.rock_transforms.set(i, transform);
            proof {
                assert(world.rocks@ == entry_rocks.update(i as int, rock));
                assert(world.rock_transforms@ == entry_transforms.update(i as int, transform));
            }
            i = i + 1;
        }
        let obstacle_count = world.obstacles.len();
        let mut k: usize = 0;
        while k < obstacle_count
            invariant
                world.wf(),
                old(world).wf(),
                old(world).all_in_bounds(),
                0 <= dt <= DT_LIMIT,
                k <= obstacle_count,
                obstacle_count == old(world).obstacles@.len(),
                world.obstacles@.len() == old(world).obstacles@.len(),
                world.obstacle_transforms@.len() == old(world).obstacle_transforms@.len(),
                world.rocks@.len() == old(world).rocks@.len(),
                world.rock_transforms@.len() == old(world).rock_transforms@.len(),
                rocks_stepped(
                    *old(world),
                    *world,
                    jump_pressed,
                    dt as int,
                    old(world).rocks@.len() as int,
                ),
                forall|j: int|
                    k <= j < old(world).obstacles@.len() ==> (#[trigger] world.obstacles@[j])
                        == old(world).obstacles@[j] && world.obstacle_transforms@[j] == old(
                        world,
                    ).obstacle_transforms@[j],
                obstacles_stepped(*old(world), *world, dt as int, k as int),
            decreases obstacle_count - k,
        {
            let mut obstacle = world.obstacles[k];
            obstacle.update(dt);
            let mut transform = world.obstacle_transforms[k];
            transform.set_translation_x(obstacle.x);
            world.obstacles.set(k, obstacle);
            world.obstacle_transforms.set(k, transform);
            k = k + 1;
        }
    }
}

} // verus!
