//! Simulation core of a terminal endless runner: a player that runs, jumps
//! and crouches, a field of obstacles that scrolls toward it, and a clock
//! that advances both in fixed steps whatever the rate of the display.
//!
//! The simulation is exact: positions, speeds and gaps are fixed-point
//! integers ([`units`]), time is counted in microseconds, and everything
//! left to chance is drawn from a generator that can be seeded
//! ([`random`]). Every function is verified against its contract; the
//! properties that relate several functions are stated as proof functions
//! beside them.
//!
//! - [`types`]: the player, the obstacles and the clouds.
//! - [`config`]: the settings of a run.
//! - [`collision`]: boxes, and when they overlap.
//! - [`spawner`]: the next obstacle, by a curve of difficulty.
//! - [`physics`]: one step of the simulation.
//! - [`input`]: what the keys do to the player.
//! - [`game`]: a run, from frame to frame.
//! - [`display`]: the size of the screen and the pace of the display.
//! - [`rendering`]: the picture of a run.

pub mod collision;
pub mod config;
pub mod display;
pub mod game;
pub mod input;
pub mod physics;
pub mod random;
pub mod rendering;
pub mod spawner;
pub mod types;
pub mod units;
