use dino::config::Cfg;
use dino::input::{Command, InputHandler, Key, KeyOutcome};
use dino::types::{Dino, DinoState};

#[test]
fn a_new_player_runs_on_the_ground() {
    let dino = Dino::new();
    assert_eq!(dino.state, DinoState::Running);
    assert_eq!(dino.y, 0);
    assert_eq!(dino.velocity_y, 0);
    assert!(dino.is_wf());
}

#[test]
fn reset_puts_the_player_back_on_the_ground() {
    let mut dino = Dino { state: DinoState::Jumping, y: 9_500_000, velocity_y: -4_000_000 };
    dino.reset();
    assert_eq!(dino, Dino::new());
}

#[test]
fn jump_starts_from_running() {
    let cfg = Cfg::default();
    let mut dino = Dino::new();
    assert!(InputHandler::jump(&mut dino, &cfg));
    assert_eq!(dino, Dino { state: DinoState::Jumping, y: 0, velocity_y: -7_000_000 });
    assert!(dino.is_wf());
}

#[test]
fn jump_starts_from_crouching() {
    let cfg = Cfg::default();
    let mut dino = Dino { state: DinoState::Crouching, y: 0, velocity_y: 0 };
    assert!(InputHandler::jump(&mut dino, &cfg));
    assert_eq!(dino, Dino { state: DinoState::Jumping, y: 0, velocity_y: -7_000_000 });
}

#[test]
fn jump_while_jumping_changes_nothing() {
    let cfg = Cfg::default();
    let mut dino = Dino { state: DinoState::Jumping, y: 9_500_000, velocity_y: -4_000_000 };
    let before = dino;
    assert!(!InputHandler::jump(&mut dino, &cfg));
    assert_eq!(dino, before);
}

#[test]
fn crouch_starts_from_running_only() {
    let mut dino = Dino::new();
    InputHandler::start_crouch(&mut dino);
    assert_eq!(dino.state, DinoState::Crouching);
    InputHandler::start_crouch(&mut dino);
    assert_eq!(dino.state, DinoState::Crouching);

    let mut jumping = Dino { state: DinoState::Jumping, y: 5_500_000, velocity_y: -5_500_000 };
    let before = jumping;
    InputHandler::start_crouch(&mut jumping);
    assert_eq!(jumping, before);
}

#[test]
fn releasing_the_crouch_runs_again() {
    let mut dino = Dino { state: DinoState::Crouching, y: 0, velocity_y: 0 };
    InputHandler::stop_crouch(&mut dino);
    assert_eq!(dino, Dino::new());

    let mut jumping = Dino { state: DinoState::Jumping, y: 5_500_000, velocity_y: -5_500_000 };
    let before = jumping;
    InputHandler::stop_crouch(&mut jumping);
    assert_eq!(jumping, before);

    let mut running = Dino::new();
    InputHandler::stop_crouch(&mut running);
    assert_eq!(running, Dino::new());
}

#[test]
fn keys_and_their_commands() {
    assert_eq!(Key::Char('q').to_command(), Command::Quit);
    assert_eq!(Key::Char('Q').to_command(), Command::Quit);
    assert_eq!(Key::Esc.to_command(), Command::Quit);
    assert_eq!(Key::Char(' ').to_command(), Command::Jump);
    assert_eq!(Key::Up.to_command(), Command::Jump);
    assert_eq!(Key::Down.to_command(), Command::Crouch);
    assert_eq!(Key::Char('x').to_command(), Command::Nothing);
    assert_eq!(Key::Char('r').to_command(), Command::Nothing);
    assert_eq!(Key::Other.to_command(), Command::Nothing);
}

#[test]
fn a_key_to_quit_leaves_the_player_alone() {
    let cfg = Cfg::default();
    let mut dino = Dino::new();
    assert_eq!(InputHandler::handle_input(&mut dino, &cfg, Key::Esc), KeyOutcome::Quit);
    assert_eq!(dino, Dino::new());
}

#[test]
fn a_key_to_jump_reports_the_jump_once() {
    let cfg = Cfg::default();
    let mut dino = Dino::new();
    assert_eq!(InputHandler::handle_input(&mut dino, &cfg, Key::Char(' ')), KeyOutcome::Jumped);
    assert_eq!(dino.state, DinoState::Jumping);
    assert_eq!(InputHandler::handle_input(&mut dino, &cfg, Key::Up), KeyOutcome::Handled);
    assert_eq!(dino, Dino { state: DinoState::Jumping, y: 0, velocity_y: -7_000_000 });
}

#[test]
fn a_key_to_crouch_and_any_other_key() {
    let cfg = Cfg::default();
    let mut dino = Dino::new();
    assert_eq!(InputHandler::handle_input(&mut dino, &cfg, Key::Down), KeyOutcome::Handled);
    assert_eq!(dino.state, DinoState::Crouching);
    assert_eq!(InputHandler::handle_input(&mut dino, &cfg, Key::Other), KeyOutcome::Handled);
    assert_eq!(InputHandler::handle_input(&mut dino, &cfg, Key::Char('z')), KeyOutcome::Handled);
    assert_eq!(dino.state, DinoState::Crouching);
}

#[test]
fn a_player_off_the_ground_must_be_jumping() {
    assert!(Dino { state: DinoState::Jumping, y: 3_000_000, velocity_y: 500_000 }.is_wf());
    assert!(Dino { state: DinoState::Jumping, y: 0, velocity_y: -7_000_000 }.is_wf());
    assert!(!Dino { state: DinoState::Running, y: 3_000_000, velocity_y: 0 }.is_wf());
    assert!(!Dino { state: DinoState::Crouching, y: 0, velocity_y: 1 }.is_wf());
    assert!(!Dino { state: DinoState::Jumping, y: -1, velocity_y: 0 }.is_wf());
}
