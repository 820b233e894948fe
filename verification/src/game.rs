//! A run of the game: the clock that turns the time of the frames into
//! steps of the simulation, the score and the high score.

use vstd::prelude::*;
use crate::config::Cfg;
use crate::display::DisplaySettings;
use crate::input::{key_outcome, InputHandler, Key, KeyOutcome};
use crate::physics::PhysicsEngine;
use crate::rendering::DrawArgs;
use crate::spawner::{ObstacleSpawner, SpawnerCurve};
use crate::types::Dino;

verus! {

/// The most time, in microseconds, that the simulation may lag behind the
/// display: what a longer stall leaves undone is dropped.
pub const MAX_FRAME_DEBT: u64 = 250_000;

/// How a step of a run ended.
#[derive(Clone, Copy, PartialEq, Eq, Structural, Debug)]
pub enum TickOutcome {
    /// The player hit an obstacle: the run is over.
    Collided,
    /// The run goes on; `new_highscore` tells that this step took the score
    /// past the high score for the first time in the run.
    Survived { new_highscore: bool },
}

/// What a frame did to a run.
#[derive(Clone, Copy, PartialEq, Eq, Structural, Debug)]
pub struct FrameReport {
    /// The steps of the simulation made in the frame.
    pub ticks: u64,
    /// The last of them ended the run.
    pub collided: bool,
    /// One of them took the score past the high score for the first time in
    /// the run.
    pub new_highscore: bool,
}

/// What a key asks for once a run is over.
#[derive(Clone, Copy, PartialEq, Eq, Structural, Debug)]
pub enum RestartChoice {
    Restart,
    Quit,
    Wait,
}

impl Key {
    /// `r` and `R` start again; `q`, `Q` and escape leave; any other key
    /// leaves the game waiting.
    pub open spec fn restart_choice(self) -> RestartChoice {
        match self {
            Key::Char(c) => if c == 'r' || c == 'R' {
                RestartChoice::Restart
            } else if c == 'q' || c == 'Q' {
                RestartChoice::Quit
            } else {
                RestartChoice::Wait
            },
            Key::Esc => RestartChoice::Quit,
            _ => RestartChoice::Wait,
        }
    }
}

/// The time owed to the simulation once a frame of `frame_time`
/// microseconds is added to `debt`, at most [`MAX_FRAME_DEBT`].
pub open spec fn frame_debt(debt: u64, frame_time: u64) -> u64 {
    if debt + frame_time > MAX_FRAME_DEBT {
        MAX_FRAME_DEBT
    } else {
        (debt + frame_time) as u64
    }
}

/// The time still owed after the steps of `step` microseconds that `debt`
/// pays for.
pub open spec fn debt_left(debt: u64, step: u64) -> u64
    recommends
        step > 0,
{
    debt % step
}

/// The time owed after a row of frames, none of which ended the run.
pub open spec fn debt_after_frames(debt: u64, frame_times: Seq<u64>, step: u64) -> u64
    decreases frame_times.len(),
{
    if frame_times.len() == 0 {
        debt
    } else {
        debt_after_frames(
            debt_left(frame_debt(debt, frame_times.first()), step),
            frame_times.drop_first(),
            step,
        )
    }
}

/// Whatever the frames take, the time owed after them is less than a step
/// and never more than [`MAX_FRAME_DEBT`].
pub proof fn lemma_debt_stays_bounded(debt: u64, frame_times: Seq<u64>, step: u64)
    requires
        step > 0,
        debt <= MAX_FRAME_DEBT,
    ensures
        debt_after_frames(debt, frame_times, step) <= MAX_FRAME_DEBT,
        debt_after_frames(debt, frame_times, step) <= MAX_FRAME_DEBT + step,
        frame_times.len() > 0 ==> debt_after_frames(debt, frame_times, step) < step,
    decreases frame_times.len(),
{
    if frame_times.len() > 0 {
        let owed = frame_debt(debt, frame_times.first());
        let left = debt_left(owed, step);
        assert(left < step && left <= owed) by {
            vstd::arithmetic::div_mod::lemma_mod_bound(owed as int, step as int);
            vstd::arithmetic::div_mod::lemma_mod_decreases(owed as nat, step as nat);
        }
        lemma_debt_stays_bounded(left, frame_times.drop_first(), step);
    }
}

/// The state of a run of the game.
pub struct RunState {
    pub cfg: Cfg,
    pub physics: PhysicsEngine,
    pub spawner: ObstacleSpawner,
    pub display: DisplaySettings,
    pub score: usize,
    pub highscore: usize,
    /// Microseconds of frame time not yet turned into steps.
    pub physics_accumulator: u64,
    /// The high score as it was when the score last went past it.
    pub last_highscore: usize,
    /// The score has gone past the high score in this run.
    pub cheered: bool,
}

/// A run of the game. Its state is reached only through the operations of
/// a run, each of which leaves it well formed.
pub struct Game {
    run: RunState,
}

impl View for Game {
    type V = RunState;

    closed spec fn view(&self) -> RunState {
        self.run
    }
}

impl RunState {
    /// The parts of the run are well formed, and no more time is owed than
    /// may be.
    pub open spec fn wf(&self) -> bool {
        &&& self.cfg.valid()
        &&& self.physics.wf()
        &&& self.physics.cfg.physics == self.cfg.physics
        &&& self.physics.cfg.game == self.cfg.game
        &&& self.spawner.game() == self.cfg.game
        &&& self.physics_accumulator <= MAX_FRAME_DEBT
    }

    /// The run at its start on the screen of its display: the simulation
    /// fresh, the gaps at their widest, no score, nothing owed.
    pub open spec fn fresh(&self) -> bool {
        &&& self.physics.fresh(self.display.width, self.display.height)
        &&& self.spawner.gaps() == SpawnerCurve::at_score(0)
        &&& self.score == 0
        &&& self.physics_accumulator == 0
        &&& !self.cheered
    }

    /// The run started again from `self` on a terminal of `cols` by `rows`
    /// cells: fresh, under the same configuration, with the same high score.
    pub open spec fn restarted(&self, after: &RunState, cols: u16, rows: u16) -> bool {
        &&& after.fresh()
        &&& after.cfg == self.cfg
        &&& after.display == (DisplaySettings {
            width: cols as usize,
            height: rows as usize,
            render_frame_duration: self.display.render_frame_duration,
        })
        &&& after.highscore == self.highscore
        &&& after.last_highscore == self.last_highscore
    }

    /// The run with the player replaced by `dino`.
    pub open spec fn with_dino(&self, dino: Dino) -> RunState {
        RunState { physics: PhysicsEngine { dino, ..self.physics }, ..*self }
    }

    /// The run with `debt` microseconds owed to the simulation.
    pub open spec fn owing(&self, debt: u64) -> RunState {
        RunState { physics_accumulator: debt, ..*self }
    }

    /// The step took the score past the high score, and the high score was
    /// the one last gone past.
    pub open spec fn sets_record(&self, after: &RunState) -> bool {
        after.score > self.highscore && self.highscore == self.last_highscore
    }

    /// How the step from `self` to `after` ended.
    pub open spec fn outcome_of(&self, after: &RunState) -> TickOutcome {
        if after.physics.collided(self.display.height) {
            TickOutcome::Collided
        } else {
            TickOutcome::Survived { new_highscore: self.sets_record(after) && !self.cheered }
        }
    }

    /// One step of the run, from `self` to `after`: the gaps follow the
    /// score, the simulation makes a step, and unless the player hit an
    /// obstacle the high score follows the score and the step is paid for
    /// out of the time owed.
    pub open spec fn ticked(&self, after: &RunState) -> bool {
        &&& after.cfg == self.cfg
        &&& after.display == self.display
        &&& after.spawner.game() == self.spawner.game()
        &&& after.spawner.gaps() == SpawnerCurve::at_score(self.score)
        &&& self.physics.stepped(
            &after.physics,
            after.spawner,
            self.display.width,
            self.display.height,
            self.score,
            after.score,
        )
        &&& if after.physics.collided(self.display.height) {
            &&& after.highscore == self.highscore
            &&& after.last_highscore == self.last_highscore
            &&& after.cheered == self.cheered
            &&& after.physics_accumulator == self.physics_accumulator
        } else {
            &&& after.highscore == if after.score > self.highscore {
                after.score
            } else {
                self.highscore
            }
            &&& after.last_highscore == if self.sets_record(after) {
                after.score
            } else {
                self.last_highscore
            }
            &&& after.cheered == (self.cheered || self.sets_record(after))
            &&& after.physics_accumulator == if self.physics_accumulator
                >= self.cfg.physics.fixed_timestep {
                (self.physics_accumulator - self.cfg.physics.fixed_timestep) as u64
            } else {
                0
            }
        }
    }

    /// The steps of one frame: each state of `trace` leads to the next by a
    /// step that is due, and only the last step may have ended the run.
    pub open spec fn frame_run(trace: Seq<RunState>) -> bool {
        forall|i: int|
            0 <= i < trace.len() - 1 ==> {
                &&& #[trigger] trace[i].physics_accumulator >= trace[i].cfg.physics.fixed_timestep
                &&& trace[i].ticked(&trace[i + 1])
                &&& i < trace.len() - 2 ==> !trace[i + 1].physics.collided(trace[i].display.height)
            }
    }

}

impl Game {
    /// A run on the given display, under a configuration and with the high
    /// score of earlier runs. What is left to chance in it differs from run
    /// to run.
    pub fn new(cfg: Cfg, highscore: usize, display: DisplaySettings) -> (game: Self)
        requires
            cfg.valid(),
        ensures
            game@.wf(),
            game@.fresh(),
            game@.cfg == cfg,
            game@.display == display,
            game@.highscore == highscore,
            game@.last_highscore == highscore,
    {
        let physics = PhysicsEngine::new(cfg.clone(), display.width, display.height);
        Self::around(cfg, physics, highscore, display)
    }

    /// A run as [`Game::new`] makes it, but with what is left to chance
    /// drawn from a generator that starts from `seed`.
    pub fn seeded(cfg: Cfg, highscore: usize, display: DisplaySettings, seed: u64) -> (game: Self)
        requires
            cfg.valid(),
        ensures
            game@.wf(),
            game@.fresh(),
            game@.cfg == cfg,
            game@.display == display,
            game@.highscore == highscore,
            game@.last_highscore == highscore,
    {
        let physics = PhysicsEngine::seeded(cfg.clone(), display.width, display.height, seed);
        Self::around(cfg, physics, highscore, display)
    }

    fn around(cfg: Cfg, physics: PhysicsEngine, highscore: usize, display: DisplaySettings) -> (game:
        Self)
        requires
            cfg.valid(),
            physics.cfg == cfg,
            physics.wf(),
            physics.fresh(display.width, display.height),
        ensures
            game@.wf(),
            game@.fresh(),
            game@.cfg == cfg,
            game@.display == display,
            game@.highscore == highscore,
            game@.last_highscore == highscore,
    {
        let spawner = ObstacleSpawner::new(cfg.clone());
        Self {
            run: RunState {
                cfg,
                physics,
                spawner,
                display,
                score: 0,
                highscore,
                physics_accumulator: 0,
                last_highscore: highscore,
                cheered: false,
            },
        }
    }

    /// Tells whether the state of the run is well formed.
    pub fn is_wf(&self) -> (ok: bool)
        ensures
            ok == self@.wf(),
    {
        self.run.cfg.is_valid() && self.run.physics.is_wf() && self.run.physics.cfg.physics
            == self.run.cfg.physics && self.run.physics.cfg.game == self.run.cfg.game
            && self.run.spawner.thresholds() == self.run.cfg.game && self.run.physics_accumulator
            <= MAX_FRAME_DEBT
    }

    /// The state of the run.
    pub fn state(&self) -> (state: &RunState)
        ensures
            *state == self@,
    {
        &self.run
    }

    /// What there is to draw of the run.
    pub fn snapshot(&self) -> (draw_args: DrawArgs<'_>)
        ensures
            draw_args.dino_state == self@.physics.dino.state,
            draw_args.dino_y == self@.physics.dino.y,
            draw_args.obstacles@ == self@.physics.obstacles@,
            draw_args.clouds@ == self@.physics.clouds@,
            draw_args.score == self@.score,
            draw_args.highscore == self@.highscore,
            draw_args.speed == self@.physics.speed,
    {
        DrawArgs::new(
            self.run.physics.dino.state,
            self.run.physics.dino.y,
            self.run.physics.obstacles.as_slice(),
            self.run.physics.clouds.as_slice(),
            self.run.score,
            self.run.highscore,
            self.run.physics.speed,
        )
    }

    /// Starts the run again on a terminal of `cols` by `rows` cells. The
    /// high score stays.
    pub fn reset(&mut self, cols: u16, rows: u16)
        requires
            old(self)@.wf(),
        ensures
            final(self)@.wf(),
            old(self)@.restarted(&final(self)@, cols, rows),
    {
        self.run.display.update_size(cols, rows);
        self.run.physics.reset(self.run.display.width, self.run.display.height);
        self.run.score = 0;
        self.run.physics_accumulator = 0;
        self.run.spawner = ObstacleSpawner::new(self.run.cfg.clone());
        self.run.cheered = false;
    }

    /// Takes one key once the run is over, on a terminal that is now `cols`
    /// by `rows` cells: the key to start again starts the run again; any
    /// other key leaves the run as it is.
    pub fn wait_for_restart(&mut self, key: Key, cols: u16, rows: u16) -> (choice: RestartChoice)
        requires
            old(self)@.wf(),
        ensures
            choice == key.restart_choice(),
            final(self)@.wf(),
            choice == RestartChoice::Restart ==> old(self)@.restarted(&final(self)@, cols, rows),
            choice != RestartChoice::Restart ==> final(self)@ == old(self)@,
    {
        let choice = match key {
            Key::Char(c) => if c == 'r' || c == 'R' {
                RestartChoice::Restart
            } else if c == 'q' || c == 'Q' {
                RestartChoice::Quit
            } else {
                RestartChoice::Wait
            },
            Key::Esc => RestartChoice::Quit,
            _ => RestartChoice::Wait,
        };
        match choice {
            RestartChoice::Restart => {
                self.reset(cols, rows);
            },
            _ => {},
        }
        choice
    }

    /// Applies one key of the run to the player.
    pub fn handle_key(&mut self, key: Key) -> (outcome: KeyOutcome)
        requires
            old(self)@.wf(),
        ensures
            final(self)@.wf(),
            final(self)@ == old(self)@.with_dino(
                old(self)@.physics.dino.after_key(key, old(self)@.cfg.physics.jump_velocity),
            ),
            outcome == key_outcome(key, old(self)@.physics.dino),
    {
        InputHandler::handle_input(&mut self.run.physics.dino, &self.run.cfg, key)
    }

    /// Lets the key to crouch go: a crouching player runs again.
    pub fn release_crouch(&mut self)
        requires
            old(self)@.wf(),
        ensures
            final(self)@.wf(),
            final(self)@ == old(self)@.with_dino(old(self)@.physics.dino.after_release()),
    {
        InputHandler::stop_crouch(&mut self.run.physics.dino);
    }

    /// Makes one step of the run.
    pub fn tick(&mut self) -> (outcome: TickOutcome)
        requires
            old(self)@.wf(),
        ensures
            final(self)@.wf(),
            old(self)@.ticked(&final(self)@),
            outcome == old(self)@.outcome_of(&final(self)@),
    {
        self.run.spawner.update_difficulty(self.run.score);
        let alive = self.run.physics.update(
            &self.run.spawner,
            self.run.display.width,
            self.run.display.height,
            &mut self.run.score,
        );
        if !alive {
            return TickOutcome::Collided;
        }
        let mut new_highscore = false;
        if self.run.score > self.run.highscore {
            let was_last = self.run.highscore == self.run.last_highscore;
            self.run.highscore = self.run.score;
            if was_last {
                new_highscore = !self.run.cheered;
                self.run.cheered = true;
                self.run.last_highscore = self.run.highscore;
            }
        }
        self.run.physics_accumulator = self.run.physics_accumulator.saturating_sub(
            self.run.cfg.physics.fixed_timestep,
        );
        TickOutcome::Survived { new_highscore }
    }

    /// Takes the time of a frame, `frame_time` microseconds, and makes the
    /// steps that the time owed pays for, up to the step that ends the run.
    pub fn run(&mut self, frame_time: u64) -> (report: FrameReport)
        requires
            old(self)@.wf(),
        ensures
            final(self)@.wf(),
            final(self)@.physics_accumulator <= MAX_FRAME_DEBT,
            exists|trace: Seq<RunState>|
                {
                    &&& #[trigger] RunState::frame_run(trace)
                    &&& trace.len() == report.ticks + 1
                    &&& trace.first() == old(self)@.owing(
                        frame_debt(old(self)@.physics_accumulator, frame_time),
                    )
                    &&& trace.last() == final(self)@
                },
            report.collided == (report.ticks > 0 && final(self)@.physics.collided(
                old(self)@.display.height,
            )),
            report.new_highscore == (final(self)@.cheered && !old(self)@.cheered),
            report.ticks * old(self)@.cfg.physics.fixed_timestep <= frame_debt(
                old(self)@.physics_accumulator,
                frame_time,
            ),
            report.collided ==> final(self)@.physics_accumulator == frame_debt(
                old(self)@.physics_accumulator,
                frame_time,
            ) - (report.ticks - 1) * old(self)@.cfg.physics.fixed_timestep,
            !report.collided ==> final(self)@.physics_accumulator == debt_left(
                frame_debt(old(self)@.physics_accumulator, frame_time),
                old(self)@.cfg.physics.fixed_timestep,
            ),
            !report.collided ==> report.ticks == frame_debt(
                old(self)@.physics_accumulator,
                frame_time,
            ) / old(self)@.cfg.physics.fixed_timestep,
    {
        let step = self.run.cfg.physics.fixed_timestep;
        let owed = if frame_time >= MAX_FRAME_DEBT - self.run.physics_accumulator {
            MAX_FRAME_DEBT
        } else {
            self.run.physics_accumulator + frame_time
        };
        self.run.physics_accumulator = owed;
        let ghost mut trace: Seq<RunState> = seq![self@];
        let mut report = FrameReport { ticks: 0, collided: false, new_highscore: false };
        assert(report.ticks * step == 0) by (nonlinear_arith)
            requires
                report.ticks == 0,
        ;
        while self.run.physics_accumulator >= step
            invariant
                self@.wf(),
                step > 0,
                self@.cfg == old(self)@.cfg,
                self@.display == old(self)@.display,
                step == self@.cfg.physics.fixed_timestep,
                owed == frame_debt(old(self)@.physics_accumulator, frame_time),
                RunState::frame_run(trace),
                trace.len() == report.ticks + 1,
                trace.first() == old(self)@.owing(owed),
                trace.last() == self@,
                !report.collided,
                report.ticks > 0 ==> !self@.physics.collided(self@.display.height),
                old(self)@.cheered ==> self@.cheered,
                report.new_highscore == (self@.cheered && !old(self)@.cheered),
                owed == report.ticks * step + self@.physics_accumulator,
                report.ticks <= owed,
            decreases self@.physics_accumulator,
        {
            let ghost before = self@;
            let outcome = self.tick();
            proof {
                trace = trace.push(self@);
                assert(before.physics_accumulator >= before.cfg.physics.fixed_timestep);
                assert(before.ticked(&trace[trace.len() - 1]));
                assert(RunState::frame_run(trace));
            }
            assert(report.ticks * step + step == (report.ticks + 1) * step) by (nonlinear_arith);
            assert(report.ticks + 1 <= owed) by (nonlinear_arith)
                requires
                    (report.ticks + 1) * step <= owed,
                    step > 0,
            ;
            report.ticks = report.ticks + 1;
            match outcome {
                TickOutcome::Collided => {
                    report.collided = true;
                    assert((report.ticks - 1) * step + step == report.ticks * step)
                        by (nonlinear_arith);
                    return report;
                },
                TickOutcome::Survived { new_highscore } => {
                    if new_highscore {
                        report.new_highscore = true;
                    }
                },
            }
        }
        proof {
            vstd::arithmetic::div_mod::lemma_fundamental_div_mod_converse(
                owed as int,
                step as int,
                report.ticks as int,
                self@.physics_accumulator as int,
            );
        }
        report
    }
}

} // verus!
