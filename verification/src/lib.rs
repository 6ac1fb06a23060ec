//! A minimal single-screen jump-and-dodge game: a falling, jumpable body and
//! a horizontally scrolling obstacle, stepped once per rendered frame.
//!
//! All quantities are fixed-point integers counted in thousandths of a screen
//! unit, so every frame step is exact arithmetic. Rendering, windowing, asset
//! loading, input polling and scheduling belong to an external engine and are
//! not part of this library; a driver hands each frame's elapsed time and
//! jump input to `play::PlaySystem::run` and reads the new positions back out
//! of the transforms held in `world::World`.

pub mod fixed;
pub mod obstacle;
pub mod play;
pub mod rock;
pub mod world;
