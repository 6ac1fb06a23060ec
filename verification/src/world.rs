//! The world: every spawned entity's component record and its render-side
//! transform, plus the scene that spawns and clears them.
//!
//! The engine's entity storage is a plain arena here: the record at index `i`
//! of a component vector and the transform at index `i` of its companion
//! vector belong to the same entity. The transforms are what an external
//! renderer reads; the update pass mirrors each new position into them.

use vstd::prelude::*;
use crate::obstacle::Obstacle;
use crate::obstacle::OBSTACLE_START_X;
use crate::rock::Rock;
use crate::rock::ROCK_START_Y;

verus! {

/// Horizontal position the falling body spawns at: a quarter of the screen.
pub const ROCK_START_X: i64 = 125_000;

/// Vertical position of the obstacle's transform, fixed for its lifetime.
pub const OBSTACLE_START_Y: i64 = 121_000;

/// The render-side placement of one entity, in thousandths of a screen unit.
/// An external renderer draws each sprite at its transform's coordinates.
#[derive(Clone, Copy, Debug, PartialEq, Eq, Structural)]
pub struct Transform {
    pub x: i64,
    pub y: i64,
}

impl Transform {
    pub fn new(x: i64, y: i64) -> (transform: Transform)
        ensures
            transform.x == x,
            transform.y == y,
    {
        Transform { x, y }
    }

    pub fn set_translation_x(&mut self, new_x: i64)
        ensures
            final(self).x == new_x,
            final(self).y == old(self).y,
    {
        self.x = new_x;
    }

    pub fn set_translation_y(&mut self, new_y: i64)
        ensures
            final(self).y == new_y,
            final(self).x == old(self).x,
    {
        self.y = new_y;
    }
}

/// All live entities: each component vector runs in step with its transform
/// vector, index by index.
pub struct World {
    pub rocks: Vec<Rock>,
    pub rock_transforms: Vec<Transform>,
    pub obstacles: Vec<Obstacle>,
    pub obstacle_transforms: Vec<Transform>,
}

impl World {
    /// Every component record has its transform at the same index.
    pub open spec fn wf(self) -> bool {
        &&& self.rocks@.len() == self.rock_transforms@.len()
        &&& self.obstacles@.len() == self.obstacle_transforms@.len()
    }

    /// Every component is small enough for one frame step (see
    /// `Rock::in_bounds` and `Obstacle::in_bounds`).
    pub open spec fn all_in_bounds(self) -> bool {
        &&& forall|i: int|
            0 <= i < self.rocks@.len() ==> (#[trigger] self.rocks@[i]).in_bounds()
        &&& forall|i: int|
            0 <= i < self.obstacles@.len() ==> (#[trigger] self.obstacles@[i]).in_bounds()
    }

    /// An empty world, before any scene has started.
    pub fn new() -> (world: World)
        ensures
            world.wf(),
            world.rocks@.len() == 0,
            world.obstacles@.len() == 0,
    {
        World {
            rocks: Vec::new(),
            rock_transforms: Vec::new(),
            obstacles: Vec::new(),
            obstacle_transforms: Vec::new(),
        }
    }

    /// Destroys every entity, as happens when the scene is popped.
    pub fn delete_all(&mut self)
        ensures
            final(self).wf(),
            final(self).rocks@.len() == 0,
            final(self).rock_transforms@.len() == 0,
            final(self).obstacles@.len() == 0,
            final(self).obstacle_transforms@.len() == 0,
    {
        self.rocks.clear();
        self.rock_transforms.clear();
        self.obstacles.clear();
        self.obstacle_transforms.clear();
    }
}

/// Spawns the falling body: a fresh `Rock` at the starting height, with its
/// transform a quarter of the way across the screen, at the screen's bottom
/// edge until the first frame mirrors the body's height into it.
pub fn set_rock(world: &mut World)
    requires
        old(world).wf(),
    ensures
        final(world).wf(),
        final(world).rocks@ == old(world).rocks@.push((Rock { y: ROCK_START_Y, velocity: 0 })),
        final(world).rock_transforms@ == old(world).rock_transforms@.push(
            (Transform { x: ROCK_START_X, y: 0 }),
        ),
        final(world).obstacles@ == old(world).obstacles@,
        final(world).obstacle_transforms@ == old(world).obstacle_transforms@,
{
    let rock = Rock::new();
    let mut transform = Transform::new(0, 0);
    transform.set_translation_x(ROCK_START_X);
    world.rocks.push(rock);
    world.rock_transforms.push(transform);
}

/// Spawns the obstacle near the right edge, with its transform at the same
/// horizontal position and at its fixed height.
pub fn set_obstacle(world: &mut World)
    requires
        old(world).wf(),
    ensures
        final(world).wf(),
        final(world).obstacles@ == old(world).obstacles@.push((Obstacle { x: OBSTACLE_START_X })),
        final(world).obstacle_transforms@ == old(world).obstacle_transforms@.push(
            (Transform { x: OBSTACLE_START_X, y: OBSTACLE_START_Y }),
        ),
        final(world).rocks@ == old(world).rocks@,
        final(world).rock_transforms@ == old(world).rock_transforms@,
{
    let obstacle = Obstacle::new();
    let mut transform = Transform::new(0, OBSTACLE_START_Y);
    transform.set_translation_x(OBSTACLE_START_X);
    world.obstacles.push(obstacle);
    world.obstacle_transforms.push(transform);
}

/// The single play scene: starting it spawns the entities, stopping it
/// destroys them all.
pub struct PlayState;

impl PlayState {
    /// Runs once when the scene becomes active: spawns the falling body and
    /// the obstacle into the world.
    pub fn on_start(&mut self, world: &mut World)
        requires
            old(world).wf(),
        ensures
            final(world).wf(),
            final(world).rocks@ == old(world).rocks@.push(
                (Rock { y: ROCK_START_Y, velocity: 0 }),
            ),
            final(world).rock_transforms@ == old(world).rock_transforms@.push(
                (Transform { x: ROCK_START_X, y: 0 }),
            ),
            final(world).obstacles@ == old(world).obstacles@.push(
                (Obstacle { x: OBSTACLE_START_X }),
            ),
            final(world).obstacle_transforms@ == old(world).obstacle_transforms@.push(
                (Transform { x: OBSTACLE_START_X, y: OBSTACLE_START_Y }),
            ),
    {
        set_rock(world);
        set_obstacle(world);
    }

    /// Runs when the scene is popped: destroys every entity.
    pub fn on_stop(&mut self, world: &mut World)
        ensures
            final(world).wf(),
            final(world).rocks@.len() == 0,
            final(world).obstacles@.len() == 0,
    {
        world.delete_all();
    }
}

} // verus!
