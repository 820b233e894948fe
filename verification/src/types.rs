//! The entities of the simulation: the player, the obstacles and the clouds.

use vstd::prelude::*;

verus! {

/// How the player is moving.
#[derive(Clone, Copy, PartialEq, Eq, Structural, Debug)]
pub enum DinoState {
    Running,
    Jumping,
    Crouching,
}

/// The classes of obstacle.
#[derive(Clone, Copy, PartialEq, Eq, Structural, Debug)]
pub enum ObstacleType {
    SmallCactus,
    MediumCactus,
    TallCactus,
    WideCactus,
    PterodactylLow,
    PterodactylMid,
    PterodactylHigh,
}

/// An obstacle at a fixed-point horizontal position.
#[derive(Clone, Copy, PartialEq, Eq, Structural, Debug)]
pub struct Obstacle {
    pub x: i64,
    pub obstacle_type: ObstacleType,
}

impl Obstacle {
    pub fn new(x: i64, obstacle_type: ObstacleType) -> (obstacle: Self)
        ensures
            obstacle == (Obstacle { x, obstacle_type }),
    {
        Self { x, obstacle_type }
    }
}

/// A background cloud at a fixed-point horizontal position, on a screen row.
#[derive(Clone, Copy, PartialEq, Eq, Structural, Debug)]
pub struct Cloud {
    pub x: i64,
    pub y: usize,
}

impl Cloud {
    pub fn new(x: i64, y: usize) -> (cloud: Self)
        ensures
            cloud == (Cloud { x, y }),
    {
        Self { x, y }
    }
}

/// The player: its motion, its fixed-point height above the ground and its
/// fixed-point vertical velocity, negative while rising.
#[derive(Clone, Copy, PartialEq, Eq, Structural, Debug)]
pub struct Dino {
    pub state: DinoState,
    pub y: i64,
    pub velocity_y: i64,
}

impl Dino {
    /// A player at rest on the ground.
    pub open spec fn at_rest() -> Dino {
        Dino { state: DinoState::Running, y: 0, velocity_y: 0 }
    }

    /// The player is never below the ground, and while it runs or crouches
    /// it stands on the ground with no vertical velocity.
    pub open spec fn wf(&self) -> bool {
        &&& self.y >= 0
        &&& self.state != DinoState::Jumping ==> self.y == 0 && self.velocity_y == 0
    }

    pub fn new() -> (dino: Self)
        ensures
            dino == Dino::at_rest(),
            dino.wf(),
    {
        Self { state: DinoState::Running, y: 0, velocity_y: 0 }
    }

    /// Tells whether the player is where its motion lets it be.
    pub fn is_wf(&self) -> (ok: bool)
        ensures
            ok == self.wf(),
    {
        self.y >= 0 && match self.state {
            DinoState::Jumping => true,
            _ => self.y == 0 && self.velocity_y == 0,
        }
    }

    pub fn reset(&mut self)
        ensures
            *final(self) == Dino::at_rest(),
            final(self).wf(),
    {
        self.state = DinoState::Running;
        self.y = 0;
        self.velocity_y = 0;
    }
}

} // verus!
