//! What the keys do to the player.

use vstd::prelude::*;
use crate::config::Cfg;
use crate::types::{Dino, DinoState};

verus! {

/// A key of the keyboard, as far as the game tells keys apart.
#[derive(Clone, Copy, PartialEq, Eq, Structural, Debug)]
pub enum Key {
    Char(char),
    Esc,
    Up,
    Down,
    Other,
}

/// What a key asks for during a run.
#[derive(Clone, Copy, PartialEq, Eq, Structural, Debug)]
pub enum Command {
    Quit,
    Jump,
    Crouch,
    Nothing,
}

/// What the caller is to do after a key of a run.
#[derive(Clone, Copy, PartialEq, Eq, Structural, Debug)]
pub enum KeyOutcome {
    /// The player wants to leave.
    Quit,
    /// The key began a jump.
    Jumped,
    /// Nothing to do.
    Handled,
}

impl Key {
    /// `q`, `Q` and escape quit; the space bar and the up arrow jump; the
    /// down arrow crouches.
    pub open spec fn command(self) -> Command {
        match self {
            Key::Char(c) => if c == 'q' || c == 'Q' {
                Command::Quit
            } else if c == ' ' {
                Command::Jump
            } else {
                Command::Nothing
            },
            Key::Esc => Command::Quit,
            Key::Up => Command::Jump,
            Key::Down => Command::Crouch,
            Key::Other => Command::Nothing,
        }
    }

    /// What the key asks for during a run.
    pub fn to_command(self) -> (command: Command)
        ensures
            command == self.command(),
    {
        match self {
            Key::Char(c) => if c == 'q' || c == 'Q' {
                Command::Quit
            } else if c == ' ' {
                Command::Jump
            } else {
                Command::Nothing
            },
            Key::Esc => Command::Quit,
            Key::Up => Command::Jump,
            Key::Down => Command::Crouch,
            Key::Other => Command::Nothing,
        }
    }
}

impl Dino {
    /// The player after a key to jump: from the ground it takes off with
    /// the velocity `jump_velocity`; in a jump the key does nothing.
    pub open spec fn after_jump(self, jump_velocity: i64) -> Dino {
        if self.state == DinoState::Jumping {
            self
        } else {
            Dino { state: DinoState::Jumping, y: self.y, velocity_y: jump_velocity }
        }
    }

    /// The player after a key to crouch: running, it crouches; in a jump
    /// the key does nothing.
    pub open spec fn after_crouch(self) -> Dino {
        if self.state == DinoState::Running {
            Dino { state: DinoState::Crouching, ..self }
        } else {
            self
        }
    }

    /// The player after the key to crouch is let go: crouching, it runs
    /// again.
    pub open spec fn after_release(self) -> Dino {
        if self.state == DinoState::Crouching {
            Dino { state: DinoState::Running, ..self }
        } else {
            self
        }
    }

    /// The player after a key of a run.
    pub open spec fn after_key(self, key: Key, jump_velocity: i64) -> Dino {
        match key.command() {
            Command::Jump => self.after_jump(jump_velocity),
            Command::Crouch => self.after_crouch(),
            _ => self,
        }
    }
}

/// What the caller is to do after `key`, pressed with the player as `dino`.
pub open spec fn key_outcome(key: Key, dino: Dino) -> KeyOutcome {
    match key.command() {
        Command::Quit => KeyOutcome::Quit,
        Command::Jump => if dino.state != DinoState::Jumping {
            KeyOutcome::Jumped
        } else {
            KeyOutcome::Handled
        },
        _ => KeyOutcome::Handled,
    }
}

/// Turns keys into moves of the player.
pub struct InputHandler;

impl InputHandler {
    /// Begins a jump unless the player is in one, and tells whether it did.
    pub fn jump(dino: &mut Dino, cfg: &Cfg) -> (jumped: bool)
        ensures
            *final(dino) == old(dino).after_jump(cfg.physics.jump_velocity),
            jumped == (old(dino).state != DinoState::Jumping),
            jumped ==> final(dino).state == DinoState::Jumping,
            !jumped ==> *final(dino) == *old(dino),
            old(dino).wf() ==> final(dino).wf(),
    {
        match dino.state {
            DinoState::Running | DinoState::Crouching => {
                dino.state = DinoState::Jumping;
                dino.velocity_y = cfg.physics.jump_velocity;
                true
            },
            DinoState::Jumping => false,
        }
    }

    /// Makes a running player crouch.
    pub fn start_crouch(dino: &mut Dino)
        ensures
            *final(dino) == old(dino).after_crouch(),
            old(dino).wf() ==> final(dino).wf(),
    {
        match dino.state {
            DinoState::Running => {
                dino.state = DinoState::Crouching;
            },
            _ => {},
        }
    }

    /// Makes a crouching player run again.
    pub fn stop_crouch(dino: &mut Dino)
        ensures
            *final(dino) == old(dino).after_release(),
            old(dino).wf() ==> final(dino).wf(),
    {
        match dino.state {
            DinoState::Crouching => {
                dino.state = DinoState::Running;
            },
            _ => {},
        }
    }

    /// Applies one key of a run to the player, and tells the caller what is
    /// left to do: to leave, or to sound the jump.
    pub fn handle_input(dino: &mut Dino, cfg: &Cfg, key: Key) -> (outcome: KeyOutcome)
        ensures
            *final(dino) == old(dino).after_key(key, cfg.physics.jump_velocity),
            old(dino).wf() ==> final(dino).wf(),
            outcome == key_outcome(key, *old(dino)),
    {
        match key.to_command() {
            Command::Quit => KeyOutcome::Quit,
            Command::Jump => if Self::jump(dino, cfg) {
                KeyOutcome::Jumped
            } else {
                KeyOutcome::Handled
            },
            Command::Crouch => {
                Self::start_crouch(dino);
                KeyOutcome::Handled
            },
            Command::Nothing => KeyOutcome::Handled,
        }
    }
}

} // verus!
