//! Configuration of the simulation.
//!
//! Fractional settings are fixed-point (see [`crate::units`]); the fixed
//! timestep is a whole number of microseconds.

use vstd::prelude::*;

verus! {

/// Settings of the player's motion and of the scroll.
#[derive(Clone, Copy, PartialEq, Eq, Structural, Debug)]
pub struct PhysicsConfig {
    /// Rows of the screen below the ground line, the line included.
    pub ground_height: usize,
    /// Display rate assumed where none is detected, fixed-point hertz.
    pub default_fps: i64,
    /// Nominal rate of the simulation, fixed-point hertz.
    pub physics_fps: i64,
    /// Length of one simulation step, in microseconds.
    pub fixed_timestep: u64,
    /// Added to the vertical velocity on every step of a jump.
    pub gravity: i64,
    /// Vertical velocity at the start of a jump; negative is upward.
    pub jump_velocity: i64,
    /// Scroll per step at the start of a run.
    pub initial_speed: i64,
    /// Added to the scroll on every step.
    pub speed_increment: i64,
}

/// Settings of the score and of the difficulty.
#[derive(Clone, Copy, PartialEq, Eq, Structural, Debug)]
pub struct GameConfig {
    /// Steps that make one point of score, fixed-point.
    pub score_update_threshold: i64,
    /// Flying obstacles appear above this score.
    pub ptero_spawn_score: usize,
    /// Large cacti are favoured above this score.
    pub hard_obstacles_score: usize,
    /// Clouds placed at the start of a run.
    pub initial_cloud_count: usize,
    /// How many times slower than the obstacles the clouds scroll,
    /// fixed-point.
    pub cloud_speed_divisor: i64,
}

/// The whole configuration.
#[derive(Debug)]
pub struct Cfg {
    pub highscore_file: String,
    pub physics: PhysicsConfig,
    pub game: GameConfig,
}

impl PhysicsConfig {
    /// The settings of a run where nothing else is configured.
    pub open spec fn standard() -> PhysicsConfig {
        PhysicsConfig {
            ground_height: 3,
            default_fps: 60_000_000,
            physics_fps: 60_000_000,
            fixed_timestep: 30_000,
            gravity: 1_500_000,
            jump_velocity: (-7_000_000i64),
            initial_speed: 4_000_000,
            speed_increment: 2_000,
        }
    }
}

impl GameConfig {
    /// The settings of a run where nothing else is configured.
    pub open spec fn standard() -> GameConfig {
        GameConfig {
            score_update_threshold: 6_000_000,
            ptero_spawn_score: 300,
            hard_obstacles_score: 500,
            initial_cloud_count: 8,
            cloud_speed_divisor: 4_000_000,
        }
    }
}

impl Cfg {
    /// What the simulation needs of a configuration: a step that takes time,
    /// and a cloud divisor by which a speed can be divided.
    pub open spec fn valid(&self) -> bool {
        &&& self.physics.fixed_timestep > 0
        &&& self.game.cloud_speed_divisor != 0
    }

    /// Tells whether the simulation can run on this configuration.
    pub fn is_valid(&self) -> (ok: bool)
        ensures
            ok == self.valid(),
    {
        self.physics.fixed_timestep > 0 && self.game.cloud_speed_divisor != 0
    }
}

impl Clone for Cfg {
    fn clone(&self) -> (copy: Self)
        ensures
            copy == *self,
    {
        Self { highscore_file: self.highscore_file.clone(), physics: self.physics, game: self.game }
    }
}

impl Default for PhysicsConfig {
    fn default() -> (cfg: Self)
        ensures
            cfg == PhysicsConfig::standard(),
    {
        Self {
            ground_height: 3,
            default_fps: 60_000_000,
            physics_fps: 60_000_000,
            fixed_timestep: 30_000,
            gravity: 1_500_000,
            jump_velocity: -7_000_000,
            initial_speed: 4_000_000,
            speed_increment: 2_000,
        }
    }
}

impl Default for GameConfig {
    fn default() -> (cfg: Self)
        ensures
            cfg == GameConfig::standard(),
    {
        Self {
            score_update_threshold: 6_000_000,
            ptero_spawn_score: 300,
            hard_obstacles_score: 500,
            initial_cloud_count: 8,
            cloud_speed_divisor: 4_000_000,
        }
    }
}

impl Default for Cfg {
    fn default() -> (cfg: Self)
        ensures
            cfg.highscore_file@ == "highscore.txt"@,
            cfg.physics == PhysicsConfig::standard(),
            cfg.game == GameConfig::standard(),
            cfg.valid(),
    {
        Self {
            highscore_file: "highscore.txt".to_owned(),
            physics: PhysicsConfig::default(),
            game: GameConfig::default(),
        }
    }
}

} // verus!
