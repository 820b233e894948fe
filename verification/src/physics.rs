//! One step of the simulation: the player rises and falls, the obstacles and
//! the clouds scroll, the score and the speed grow, and the player's box is
//! held against the obstacles.

use vstd::prelude::*;
use crate::collision::{collides, ground_line, ground_row, hits_any, minus};
use crate::config::Cfg;
use crate::random::Generator;
use crate::spawner::ObstacleSpawner;
use crate::types::{Cloud, Dino, DinoState, Obstacle, ObstacleType};
use crate::units::{from_cells, quotient, sat_add, sat_sub, saturate, scaled_div, units_of, SCALE};

verus! {

/// An obstacle at or left of this position has left the field.
pub const FIELD_EDGE: i64 = -20_000_000;

/// A cloud left of this position has left the sky.
pub const SKY_EDGE: i64 = -10_000_000;

/// How far right of the screen a cloud comes back in.
pub const CLOUD_MARGIN: i64 = 10_000_000;

/// How far right of the screen the first obstacle of a run stands.
pub const FIRST_OBSTACLE_MARGIN: i64 = 50_000_000;

/// The highest row a cloud floats on.
pub const TOP_CLOUD_ROW: usize = 5;

/// The player one step later: a jump gains `gravity` in velocity and moves
/// by the new velocity, and ends on the ground; a player on the ground stays
/// there.
pub open spec fn dino_after_step(dino: Dino, gravity: i64) -> Dino {
    if dino.state == DinoState::Jumping {
        let velocity_y = saturate(dino.velocity_y + gravity);
        let y = saturate(dino.y - velocity_y);
        if y <= 0 {
            Dino::at_rest()
        } else {
            Dino { state: DinoState::Jumping, y, velocity_y }
        }
    } else {
        Dino { state: dino.state, y: 0, velocity_y: 0 }
    }
}

/// The player `steps` steps later, with no key pressed in between.
pub open spec fn dino_after_steps(dino: Dino, gravity: i64, steps: nat) -> Dino
    decreases steps,
{
    if steps == 0 {
        dino
    } else {
        dino_after_steps(dino_after_step(dino, gravity), gravity, (steps - 1) as nat)
    }
}

/// Under a gravity that pulls down, every jump ends: after some number of
/// steps, which the proof counts, the player runs on the ground again.
pub proof fn lemma_jump_lands(dino: Dino, gravity: i64) -> (steps: nat)
    requires
        gravity > 0,
        dino.wf(),
        dino.state == DinoState::Jumping,
    ensures
        steps > 0,
        dino_after_steps(dino, gravity, steps) == Dino::at_rest(),
        forall|earlier: nat|
            earlier < steps ==> (#[trigger] dino_after_steps(dino, gravity, earlier)).state
                == DinoState::Jumping,
    decreases
            (if dino.velocity_y < 0 {
                -dino.velocity_y
            } else {
                0
            }),
            dino.y,
{
    let next = dino_after_step(dino, gravity);
    if next.state == DinoState::Jumping {
        let later = lemma_jump_lands(next, gravity);
        let steps = (later + 1) as nat;
        assert forall|earlier: nat| earlier < steps implies (#[trigger] dino_after_steps(
            dino,
            gravity,
            earlier,
        )).state == DinoState::Jumping by {
            if earlier > 0 {
                assert(dino_after_steps(dino, gravity, earlier) == dino_after_steps(
                    next,
                    gravity,
                    (earlier - 1) as nat,
                ));
            }
        }
        steps
    } else {
        assert(dino_after_steps(next, gravity, 0) == next);
        assert forall|earlier: nat| earlier < 1 implies (#[trigger] dino_after_steps(
            dino,
            gravity,
            earlier,
        )).state == DinoState::Jumping by {}
        1
    }
}

/// The obstacle moved left by `speed`.
pub open spec fn shifted(obstacle: Obstacle, speed: i64) -> Obstacle {
    Obstacle { x: saturate(obstacle.x - speed), obstacle_type: obstacle.obstacle_type }
}

/// The obstacles, each moved left by `speed`.
pub open spec fn scrolled(obstacles: Seq<Obstacle>, speed: i64) -> Seq<Obstacle> {
    Seq::new(obstacles.len(), |i: int| shifted(obstacles[i], speed))
}

/// The obstacle is still on the field.
pub open spec fn on_field(obstacle: Obstacle) -> bool {
    obstacle.x > FIELD_EDGE
}

/// The obstacles that are still on the field, in their order.
pub open spec fn pruned(obstacles: Seq<Obstacle>) -> Seq<Obstacle> {
    obstacles.filter(|obstacle: Obstacle| on_field(obstacle))
}

/// An obstacle is due after the last of `obstacles` on a screen
/// `screen_width` cells wide.
pub open spec fn spawn_due(
    obstacles: Seq<Obstacle>,
    spawner: ObstacleSpawner,
    screen_width: usize,
) -> bool {
    obstacles.len() > 0 && obstacles.last().x < units_of(screen_width as int)
        - spawner.gaps().min_gap
}

/// One step of the obstacles: all move left by `speed`; where one is due, it
/// is placed after the last; those that have left the field go.
pub open spec fn obstacles_stepped(
    before: Seq<Obstacle>,
    after: Seq<Obstacle>,
    speed: i64,
    spawner: ObstacleSpawner,
    screen_width: usize,
) -> bool {
    let moved = scrolled(before, speed);
    if spawn_due(moved, spawner, screen_width) {
        exists|obstacle: Obstacle| #[trigger]
            spawner.may_spawn(moved.last().x, obstacle) && after == pruned(moved.push(obstacle))
    } else {
        after == pruned(moved)
    }
}

/// How far the clouds move in a step: the speed divided by the divisor.
pub open spec fn cloud_drift(speed: i64, divisor: i64) -> i64 {
    saturate(quotient(speed * SCALE, divisor as int))
}

/// The first row that is too low for a cloud: ten rows above the ground
/// line.
pub open spec fn cloud_floor(screen_height: usize, ground_height: usize) -> usize {
    minus(
        screen_height,
        if ground_height + 10 > usize::MAX {
            usize::MAX
        } else {
            (ground_height + 10) as usize
        },
    )
}

/// A row that a cloud may be given: from the top cloud row down to the row
/// above the floor, and the top cloud row where the floor is no lower.
pub open spec fn cloud_row_ok(row: usize, screen_height: usize, ground_height: usize) -> bool {
    if cloud_floor(screen_height, ground_height) <= TOP_CLOUD_ROW {
        row == TOP_CLOUD_ROW
    } else {
        TOP_CLOUD_ROW <= row < cloud_floor(screen_height, ground_height)
    }
}

/// A place that a cloud may be given at the start of a run: a position on
/// the screen, the left edge where the screen has no width, and a row for
/// clouds.
pub open spec fn cloud_placed(
    cloud: Cloud,
    screen_width: usize,
    screen_height: usize,
    ground_height: usize,
) -> bool {
    &&& if screen_width == 0 {
        cloud.x == 0
    } else {
        0 <= cloud.x < units_of(screen_width as int)
    }
    &&& cloud_row_ok(cloud.y, screen_height, ground_height)
}

/// One step of a cloud: it moves left by `drift`; once left of the sky it
/// comes back in right of the screen, on a row for clouds.
pub open spec fn cloud_stepped(
    before: Cloud,
    after: Cloud,
    drift: i64,
    screen_width: usize,
    screen_height: usize,
    ground_height: usize,
) -> bool {
    let x = saturate(before.x - drift);
    if x < SKY_EDGE {
        &&& after.x == saturate(units_of(screen_width as int) + CLOUD_MARGIN)
        &&& cloud_row_ok(after.y, screen_height, ground_height)
    } else {
        after == (Cloud { x, y: before.y })
    }
}

/// One step of the clouds: each makes its step, in place.
pub open spec fn clouds_stepped(
    before: Seq<Cloud>,
    after: Seq<Cloud>,
    drift: i64,
    screen_width: usize,
    screen_height: usize,
    ground_height: usize,
) -> bool {
    &&& after.len() == before.len()
    &&& forall|i: int|
        0 <= i < before.len() ==> cloud_stepped(
            before[i],
            #[trigger] after[i],
            drift,
            screen_width,
            screen_height,
            ground_height,
        )
}

/// A step earns a point: with this step counted, the steps since the last
/// point reach the threshold.
pub open spec fn point_due(accumulator: i64, threshold: i64) -> bool {
    accumulator + SCALE >= threshold
}

/// The steps counted since the last point, one step later.
pub open spec fn accumulator_after_step(accumulator: i64, threshold: i64) -> i64 {
    if point_due(accumulator, threshold) {
        0
    } else {
        (accumulator + SCALE) as i64
    }
}

/// The score with one point more, as far as a `usize` counts.
pub open spec fn score_plus_one(score: usize) -> usize {
    if score < usize::MAX {
        (score + 1) as usize
    } else {
        score
    }
}

/// Draws a row for a cloud on a screen of `screen_height` rows.
pub fn cloud_row(rng: &mut Generator, screen_height: usize, ground_height: usize) -> (row: usize)
    ensures
        cloud_row_ok(row, screen_height, ground_height),
{
    let floor = screen_height.saturating_sub(ground_height.saturating_add(10));
    if floor <= TOP_CLOUD_ROW {
        TOP_CLOUD_ROW
    } else {
        rng.between(TOP_CLOUD_ROW as u64, (floor - 1) as u64) as usize
    }
}

/// Draws a cloud for the start of a run.
pub fn place_cloud(
    rng: &mut Generator,
    screen_width: usize,
    screen_height: usize,
    ground_height: usize,
) -> (cloud: Cloud)
    ensures
        cloud_placed(cloud, screen_width, screen_height, ground_height),
{
    let width = from_cells(screen_width);
    let x = if width <= 0 {
        0
    } else {
        rng.between(0, (width - 1) as u64) as i64
    };
    Cloud::new(x, cloud_row(rng, screen_height, ground_height))
}

/// Draws `count` clouds for the start of a run.
pub fn place_clouds(
    rng: &mut Generator,
    count: usize,
    screen_width: usize,
    screen_height: usize,
    ground_height: usize,
) -> (clouds: Vec<Cloud>)
    ensures
        clouds@.len() == count,
        forall|i: int|
            0 <= i < count ==> cloud_placed(
                #[trigger] clouds@[i],
                screen_width,
                screen_height,
                ground_height,
            ),
{
    let mut clouds: Vec<Cloud> = Vec::new();
    let mut placed: usize = 0;
    while placed < count
        invariant
            placed <= count,
            clouds@.len() == placed,
            forall|i: int|
                0 <= i < placed ==> cloud_placed(
                    #[trigger] clouds@[i],
                    screen_width,
                    screen_height,
                    ground_height,
                ),
        decreases count - placed,
    {
        clouds.push(place_cloud(rng, screen_width, screen_height, ground_height));
        placed += 1;
    }
    clouds
}

/// The obstacle that stands right of the screen at the start of a run.
pub fn first_obstacle(screen_width: usize) -> (obstacle: Obstacle)
    ensures
        obstacle == (Obstacle {
            x: saturate(units_of(screen_width as int) + FIRST_OBSTACLE_MARGIN),
            obstacle_type: ObstacleType::SmallCactus,
        }),
{
    Obstacle::new(sat_add(from_cells(screen_width), FIRST_OBSTACLE_MARGIN), ObstacleType::SmallCactus)
}

/// Moves a cloud by one step.
pub fn step_cloud(
    rng: &mut Generator,
    cloud: Cloud,
    drift: i64,
    screen_width: usize,
    screen_height: usize,
    ground_height: usize,
) -> (moved: Cloud)
    ensures
        cloud_stepped(cloud, moved, drift, screen_width, screen_height, ground_height),
{
    let x = sat_sub(cloud.x, drift);
    if x < SKY_EDGE {
        Cloud::new(
            sat_add(from_cells(screen_width), CLOUD_MARGIN),
            cloud_row(rng, screen_height, ground_height),
        )
    } else {
        Cloud::new(x, cloud.y)
    }
}

/// An obstacle is among those kept exactly when it was there and stands
/// right of the edge of the field.
pub proof fn lemma_pruned_keeps_the_field(obstacles: Seq<Obstacle>, obstacle: Obstacle)
    ensures
        pruned(obstacles).contains(obstacle) <==> obstacles.contains(obstacle) && obstacle.x
            > FIELD_EDGE,
{
    let keep = |obstacle: Obstacle| on_field(obstacle);
    if pruned(obstacles).contains(obstacle) {
        obstacles.lemma_filter_contains_rev(keep, obstacle);
        let i = choose|i: int| 0 <= i < pruned(obstacles).len() && pruned(obstacles)[i] == obstacle;
        obstacles.lemma_filter_pred(keep, i);
    }
    if obstacles.contains(obstacle) && obstacle.x > FIELD_EDGE {
        let i = choose|i: int| 0 <= i < obstacles.len() && obstacles[i] == obstacle;
        obstacles.lemma_filter_contains(keep, i);
    }
}

/// The obstacles stand in the order of their positions, the leftmost first,
/// so that the last is the rightmost.
pub open spec fn in_order(obstacles: Seq<Obstacle>) -> bool {
    forall|i: int, j: int| 0 <= i < j < obstacles.len() ==> obstacles[i].x <= obstacles[j].x
}

/// Dropping the obstacles that have left the field keeps the others in
/// order.
pub proof fn lemma_pruned_keeps_order(obstacles: Seq<Obstacle>)
    requires
        in_order(obstacles),
    ensures
        in_order(pruned(obstacles)),
    decreases obstacles.len(),
{
    let keep = |obstacle: Obstacle| on_field(obstacle);
    reveal(Seq::filter);
    if obstacles.len() > 0 {
        let rest = obstacles.drop_last();
        let last = obstacles.last();
        lemma_pruned_keeps_order(rest);
        let kept = pruned(rest);
        assert forall|i: int| 0 <= i < kept.len() implies kept[i].x <= last.x by {
            assert(kept.contains(kept[i]));
            rest.lemma_filter_contains_rev(keep, kept[i]);
            let at = choose|at: int| 0 <= at < rest.len() && rest[at] == kept[i];
            assert(obstacles[at] == kept[i]);
        }
    }
}

/// A step of the obstacles keeps them in order: they all move alike, the
/// one placed stands right of the last, and those that go leave the others
/// as they stood.
pub proof fn lemma_step_keeps_order(
    before: Seq<Obstacle>,
    after: Seq<Obstacle>,
    speed: i64,
    spawner: ObstacleSpawner,
    screen_width: usize,
)
    requires
        in_order(before),
        spawner.wf(),
        obstacles_stepped(before, after, speed, spawner, screen_width),
    ensures
        in_order(after),
{
    let moved = scrolled(before, speed);
    assert(in_order(moved));
    if spawn_due(moved, spawner, screen_width) {
        let placed = choose|obstacle: Obstacle| #[trigger]
            spawner.may_spawn(moved.last().x, obstacle) && after == pruned(moved.push(obstacle));
        assert(placed.x >= moved.last().x);
        assert(in_order(moved.push(placed)));
        lemma_pruned_keeps_order(moved.push(placed));
    } else {
        lemma_pruned_keeps_order(moved);
    }
}

/// The points earned in `steps` steps, with `accumulator` counted since the
/// last point.
pub open spec fn points_earned(accumulator: i64, threshold: i64, steps: nat) -> nat
    decreases steps,
{
    if steps == 0 {
        0
    } else {
        let now: nat = if point_due(accumulator, threshold) {
            1
        } else {
            0
        };
        now + points_earned(
            accumulator_after_step(accumulator, threshold),
            threshold,
            (steps - 1) as nat,
        )
    }
}

/// The whole steps that make a point: the threshold, rounded up to whole
/// steps, and one step where the threshold is less.
pub open spec fn steps_per_point(threshold: i64) -> int {
    if threshold <= SCALE {
        1
    } else {
        (threshold + SCALE - 1) / (SCALE as int)
    }
}

/// From a fresh count, the steps earn one point each time their number
/// reaches the steps that make a point, and no point in between.
pub proof fn lemma_one_point_per_threshold(threshold: i64, steps: nat)
    ensures
        points_earned(0, threshold, steps) == steps as int / steps_per_point(threshold),
{
    lemma_points_from(0, threshold, steps);
}

/// With `counted` whole steps counted since the last point, `steps` more
/// steps earn the points that `counted + steps` steps earn from a fresh
/// count.
pub proof fn lemma_points_from(counted: nat, threshold: i64, steps: nat)
    requires
        counted < steps_per_point(threshold),
    ensures
        counted * SCALE <= i64::MAX,
        points_earned((counted * SCALE) as i64, threshold, steps) == (counted + steps) as int
            / steps_per_point(threshold),
    decreases steps,
{
    let per_point = steps_per_point(threshold);
    let accumulator = (counted * SCALE) as i64;
    assert(point_due(accumulator, threshold) <==> counted + 1 == per_point);
    if steps == 0 {
        vstd::arithmetic::div_mod::lemma_basic_div(counted as int, per_point);
    } else {
        let rest = (steps - 1) as nat;
        if point_due(accumulator, threshold) {
            lemma_points_from(0, threshold, rest);
            vstd::arithmetic::div_mod::lemma_div_plus_one(rest as int, per_point);
        } else {
            lemma_points_from(counted + 1, threshold, rest);
        }
    }
}

/// The state of a run.
pub struct PhysicsEngine {
    pub cfg: Cfg,
    pub dino: Dino,
    pub obstacles: Vec<Obstacle>,
    pub clouds: Vec<Cloud>,
    pub speed: i64,
    pub score_accumulator: i64,
    /// Where the gaps, the classes of obstacle and the rows of the clouds
    /// are drawn from.
    pub rng: Generator,
}

impl PhysicsEngine {
    /// The configuration can be run, and the player is where its motion lets
    /// it be.
    pub open spec fn wf(&self) -> bool {
        &&& self.cfg.valid()
        &&& self.dino.wf()
    }

    /// The state at the start of a run on a screen of the given size: the
    /// player at rest, one small cactus right of the screen, the configured
    /// number of clouds, the configured speed, no step counted.
    pub open spec fn fresh(&self, screen_width: usize, screen_height: usize) -> bool {
        &&& self.dino == Dino::at_rest()
        &&& self.obstacles@ == seq![
            Obstacle {
                x: saturate(units_of(screen_width as int) + FIRST_OBSTACLE_MARGIN),
                obstacle_type: ObstacleType::SmallCactus,
            },
        ]
        &&& self.clouds@.len() == self.cfg.game.initial_cloud_count
        &&& forall|i: int|
            0 <= i < self.clouds@.len() ==> cloud_placed(
                #[trigger] self.clouds@[i],
                screen_width,
                screen_height,
                self.cfg.physics.ground_height,
            )
        &&& self.speed == self.cfg.physics.initial_speed
        &&& self.score_accumulator == 0
    }

    /// One step of the whole state, from `self` to `after`, on a screen of
    /// the given size, with the score going from `score` to `score_after`.
    pub open spec fn stepped(
        &self,
        after: &PhysicsEngine,
        spawner: ObstacleSpawner,
        screen_width: usize,
        screen_height: usize,
        score: usize,
        score_after: usize,
    ) -> bool {
        &&& after.cfg == self.cfg
        &&& after.dino == dino_after_step(self.dino, self.cfg.physics.gravity)
        &&& obstacles_stepped(
            self.obstacles@,
            after.obstacles@,
            self.speed,
            spawner,
            screen_width,
        )
        &&& clouds_stepped(
            self.clouds@,
            after.clouds@,
            cloud_drift(self.speed, self.cfg.game.cloud_speed_divisor),
            screen_width,
            screen_height,
            self.cfg.physics.ground_height,
        )
        &&& after.score_accumulator == accumulator_after_step(
            self.score_accumulator,
            self.cfg.game.score_update_threshold,
        )
        &&& score_after == if point_due(
            self.score_accumulator,
            self.cfg.game.score_update_threshold,
        ) {
            score_plus_one(score)
        } else {
            score
        }
        &&& after.speed == saturate(self.speed + self.cfg.physics.speed_increment)
    }

    /// Tells whether the player, as it stands, overlaps an obstacle on a
    /// screen of `screen_height` rows.
    pub open spec fn collided(&self, screen_height: usize) -> bool {
        collides(
            self.dino,
            self.obstacles@,
            ground_row(screen_height, self.cfg.physics.ground_height),
        )
    }

    /// Tells whether the state is well formed.
    pub fn is_wf(&self) -> (ok: bool)
        ensures
            ok == self.wf(),
    {
        self.cfg.is_valid() && self.dino.is_wf()
    }

    /// The state at the start of a run on a screen of the given size, with
    /// a generator that starts where chance has it.
    pub fn new(cfg: Cfg, width: usize, height: usize) -> (engine: Self)
        requires
            cfg.valid(),
        ensures
            engine.cfg == cfg,
            engine.fresh(width, height),
            engine.wf(),
    {
        Self::with_generator(cfg, width, height, Generator::new())
    }

    /// The state at the start of a run on a screen of the given size, with
    /// a generator that starts from `seed`.
    pub fn seeded(cfg: Cfg, width: usize, height: usize, seed: u64) -> (engine: Self)
        requires
            cfg.valid(),
        ensures
            engine.cfg == cfg,
            engine.fresh(width, height),
            engine.wf(),
    {
        Self::with_generator(cfg, width, height, Generator::seeded(seed))
    }

    /// The state at the start of a run on a screen of the given size, with
    /// the generator `rng` to draw from.
    pub fn with_generator(cfg: Cfg, width: usize, height: usize, rng: Generator) -> (engine: Self)
        requires
            cfg.valid(),
        ensures
            engine.cfg == cfg,
            engine.fresh(width, height),
            engine.wf(),
    {
        let mut rng = rng;
        let clouds = place_clouds(
            &mut rng,
            cfg.game.initial_cloud_count,
            width,
            height,
            cfg.physics.ground_height,
        );
        let mut obstacles: Vec<Obstacle> = Vec::new();
        obstacles.push(first_obstacle(width));
        let speed = cfg.physics.initial_speed;
        Self { cfg, dino: Dino::new(), obstacles, clouds, speed, score_accumulator: 0, rng }
    }

    /// Starts the run again on a screen of the given size, under the same
    /// configuration.
    pub fn reset(&mut self, width: usize, height: usize)
        ensures
            final(self).cfg == old(self).cfg,
            final(self).fresh(width, height),
            old(self).cfg.valid() ==> final(self).wf(),
    {
        self.dino.reset();
        self.obstacles.clear();
        self.obstacles.push(first_obstacle(width));
        self.clouds = place_clouds(
            &mut self.rng,
            self.cfg.game.initial_cloud_count,
            width,
            height,
            self.cfg.physics.ground_height,
        );
        self.speed = self.cfg.physics.initial_speed;
        self.score_accumulator = 0;
    }

    /// Runs one step of the simulation on a screen of the given size, and
    /// tells whether the player is still alive after it: whether its box
    /// overlaps no obstacle.
    pub fn update(
        &mut self,
        spawner: &ObstacleSpawner,
        screen_width: usize,
        screen_height: usize,
        score: &mut usize,
    ) -> (alive: bool)
        requires
            old(self).cfg.valid(),
        ensures
            final(self).wf(),
            old(self).stepped(
                final(self),
                *spawner,
                screen_width,
                screen_height,
                *old(score),
                *final(score),
            ),
            in_order(old(self).obstacles@) ==> in_order(final(self).obstacles@),
            alive == !final(self).collided(screen_height),
    {
        self.update_dino();
        self.update_obstacles(spawner, screen_width);
        self.update_clouds(screen_width, screen_height);
        self.update_score(score);
        self.increase_speed();
        !self.check_collision(screen_height)
    }

    /// Moves the player by one step.
    pub fn update_dino(&mut self)
        ensures
            final(self).dino == dino_after_step(old(self).dino, old(self).cfg.physics.gravity),
            final(self).dino.wf(),
            final(self).cfg == old(self).cfg,
            final(self).obstacles == old(self).obstacles,
            final(self).clouds == old(self).clouds,
            final(self).speed == old(self).speed,
            final(self).score_accumulator == old(self).score_accumulator,
            final(self).rng == old(self).rng,
    {
        match self.dino.state {
            DinoState::Jumping => {
                self.dino.velocity_y = sat_add(self.dino.velocity_y, self.cfg.physics.gravity);
                self.dino.y = sat_sub(self.dino.y, self.dino.velocity_y);
                if self.dino.y <= 0 {
                    self.dino.y = 0;
                    self.dino.velocity_y = 0;
                    self.dino.state = DinoState::Running;
                }
            },
            DinoState::Running | DinoState::Crouching => {
                self.dino.y = 0;
                self.dino.velocity_y = 0;
            },
        }
    }

    /// Moves the clouds by one step: each drifts left, slower than the
    /// obstacles, and comes back in on the right once it has left the sky.
    pub fn update_clouds(&mut self, width: usize, height: usize)
        requires
            old(self).cfg.valid(),
        ensures
            clouds_stepped(
                old(self).clouds@,
                final(self).clouds@,
                cloud_drift(old(self).speed, old(self).cfg.game.cloud_speed_divisor),
                width,
                height,
                old(self).cfg.physics.ground_height,
            ),
            final(self).cfg == old(self).cfg,
            final(self).dino == old(self).dino,
            final(self).obstacles == old(self).obstacles,
            final(self).speed == old(self).speed,
            final(self).score_accumulator == old(self).score_accumulator,
    {
        let drift = scaled_div(self.speed, self.cfg.game.cloud_speed_divisor);
        let ground_height = self.cfg.physics.ground_height;
        let mut moved: Vec<Cloud> = Vec::new();
        let mut i: usize = 0;
        while i < self.clouds.len()
            invariant
                i <= self.clouds.len(),
                moved@.len() == i,
                forall|j: int|
                    0 <= j < i ==> cloud_stepped(
                        self.clouds@[j],
                        #[trigger] moved@[j],
                        drift,
                        width,
                        height,
                        ground_height,
                    ),
                self.cfg == old(self).cfg,
                self.dino == old(self).dino,
                self.obstacles == old(self).obstacles,
                self.clouds == old(self).clouds,
                self.speed == old(self).speed,
                self.score_accumulator == old(self).score_accumulator,
            decreases self.clouds.len() - i,
        {
            let cloud = self.clouds[i];
            moved.push(step_cloud(&mut self.rng, cloud, drift, width, height, ground_height));
            i += 1;
        }
        self.clouds = moved;
    }

    /// Counts one step toward the score, and adds a point to `score` where
    /// one is due.
    pub fn update_score(&mut self, score: &mut usize)
        ensures
            final(self).score_accumulator == accumulator_after_step(
                old(self).score_accumulator,
                old(self).cfg.game.score_update_threshold,
            ),
            *final(score) == if point_due(
                old(self).score_accumulator,
                old(self).cfg.game.score_update_threshold,
            ) {
                score_plus_one(*old(score))
            } else {
                *old(score)
            },
            final(self).cfg == old(self).cfg,
            final(self).dino == old(self).dino,
            final(self).obstacles == old(self).obstacles,
            final(self).clouds == old(self).clouds,
            final(self).speed == old(self).speed,
            final(self).rng == old(self).rng,
    {
        let threshold = self.cfg.game.score_update_threshold;
        if (self.score_accumulator as i128) + 1_000_000i128 >= threshold as i128 {
            if *score < usize::MAX {
                *score = *score + 1;
            }
            self.score_accumulator = 0;
        } else {
            self.score_accumulator = self.score_accumulator + 1_000_000;
        }
    }

    /// Raises the speed by the configured increment.
    pub fn increase_speed(&mut self)
        ensures
            final(self).speed == saturate(old(self).speed + old(self).cfg.physics.speed_increment),
            final(self).cfg == old(self).cfg,
            final(self).dino == old(self).dino,
            final(self).obstacles == old(self).obstacles,
            final(self).clouds == old(self).clouds,
            final(self).score_accumulator == old(self).score_accumulator,
            final(self).rng == old(self).rng,
    {
        self.speed = sat_add(self.speed, self.cfg.physics.speed_increment);
    }

    /// Moves every obstacle left by the speed.
    pub fn scroll_obstacles(&mut self)
        ensures
            final(self).obstacles@ == scrolled(old(self).obstacles@, old(self).speed),
            final(self).cfg == old(self).cfg,
            final(self).dino == old(self).dino,
            final(self).clouds == old(self).clouds,
            final(self).speed == old(self).speed,
            final(self).score_accumulator == old(self).score_accumulator,
            final(self).rng == old(self).rng,
    {
        let mut moved: Vec<Obstacle> = Vec::new();
        let mut i: usize = 0;
        while i < self.obstacles.len()
            invariant
                i <= self.obstacles.len(),
                moved@.len() == i,
                forall|j: int| 0 <= j < i ==> moved@[j] == shifted(self.obstacles@[j], self.speed),
                *self == *old(self),
            decreases self.obstacles.len() - i,
        {
            let obstacle = self.obstacles[i];
            moved.push(Obstacle::new(sat_sub(obstacle.x, self.speed), obstacle.obstacle_type));
            i += 1;
        }
        self.obstacles = moved;
    }

    /// Drops the obstacles that have left the field, and keeps the others in
    /// their order.
    pub fn prune_obstacles(&mut self)
        ensures
            final(self).obstacles@ == pruned(old(self).obstacles@),
            final(self).cfg == old(self).cfg,
            final(self).dino == old(self).dino,
            final(self).clouds == old(self).clouds,
            final(self).speed == old(self).speed,
            final(self).score_accumulator == old(self).score_accumulator,
            final(self).rng == old(self).rng,
    {
        let mut kept: Vec<Obstacle> = Vec::new();
        let mut i: usize = 0;
        assert(self.obstacles@.take(0) == Seq::<Obstacle>::empty());
        proof {
            reveal(Seq::filter);
        }
        while i < self.obstacles.len()
            invariant
                i <= self.obstacles.len(),
                kept@ == pruned(self.obstacles@.take(i as int)),
                *self == *old(self),
            decreases self.obstacles.len() - i,
        {
            let obstacle = self.obstacles[i];
            proof {
                let seen = self.obstacles@.take(i as int);
                assert(self.obstacles@.take(i + 1) == seen.push(obstacle));
                seen.lemma_filter_push(obstacle, |obstacle: Obstacle| on_field(obstacle));
            }
            if obstacle.x > FIELD_EDGE {
                kept.push(obstacle);
            }
            i += 1;
        }
        assert(self.obstacles@.take(i as int) == self.obstacles@);
        self.obstacles = kept;
    }

    /// Moves the obstacles by one step: scrolls them, places the next one
    /// where it is due, and drops those that have left the field.
    pub fn update_obstacles(&mut self, spawner: &ObstacleSpawner, screen_width: usize)
        ensures
            obstacles_stepped(
                old(self).obstacles@,
                final(self).obstacles@,
                old(self).speed,
                *spawner,
                screen_width,
            ),
            in_order(old(self).obstacles@) ==> in_order(final(self).obstacles@),
            final(self).cfg == old(self).cfg,
            final(self).dino == old(self).dino,
            final(self).clouds == old(self).clouds,
            final(self).speed == old(self).speed,
            final(self).score_accumulator == old(self).score_accumulator,
    {
        proof {
            use_type_invariant(spawner);
        }
        self.scroll_obstacles();
        let count = self.obstacles.len();
        if count > 0 {
            let last_x = self.obstacles[count - 1].x;
            if spawner.should_spawn(last_x, from_cells(screen_width)) {
                let obstacle = spawner.spawn_next(last_x, &mut self.rng);
                self.obstacles.push(obstacle);
            }
        }
        self.prune_obstacles();
        proof {
            if in_order(old(self).obstacles@) {
                lemma_step_keeps_order(
                    old(self).obstacles@,
                    self.obstacles@,
                    old(self).speed,
                    *spawner,
                    screen_width,
                );
            }
        }
    }

    /// Tells whether the player's box overlaps the box of an obstacle, on a
    /// screen of `screen_height` rows.
    pub fn check_collision(&self, screen_height: usize) -> (hit: bool)
        ensures
            hit == collides(
                self.dino,
                self.obstacles@,
                ground_row(screen_height, self.cfg.physics.ground_height),
            ),
    {
        let ground_y = ground_line(screen_height, self.cfg.physics.ground_height);
        hits_any(&self.dino, &self.obstacles, ground_y)
    }
}

} // verus!
