//! Where and what the next obstacle is: the gaps between obstacles narrow,
//! and harder classes of obstacle appear, as the score grows.

use vstd::prelude::*;
use crate::config::{Cfg, GameConfig};
use crate::random::Generator;
use crate::types::{Obstacle, ObstacleType};
use crate::units::{sat_add, saturate};

verus! {

/// Score at which the gaps stop narrowing.
pub const FULL_DIFFICULTY_SCORE: usize = 1000;

/// Out of a hundred, the share of obstacles that fly once flying obstacles
/// are unlocked.
pub const PTERO_CHANCE: u64 = 25;

/// Out of a hundred, the share of the other obstacles that are large cacti
/// once those are favoured.
pub const HARD_CHANCE: u64 = 30;

/// The least and the greatest fixed-point gap between two obstacles, and the
/// score from which they were derived.
#[derive(Clone, Copy, PartialEq, Eq, Structural, Debug)]
pub struct SpawnerCurve {
    pub min_gap: i64,
    pub max_gap: i64,
    pub difficulty_score: usize,
}

/// The difficulty in thousandths: the score, up to a thousand.
pub open spec fn difficulty(score: usize) -> int {
    if score < FULL_DIFFICULTY_SCORE {
        score as int
    } else {
        1000
    }
}

impl SpawnerCurve {
    /// The curve at a score: the least gap falls from 50 cells to 35 and the
    /// greatest from 120 cells to 90, evenly over the first thousand points.
    pub open spec fn at_score(score: usize) -> SpawnerCurve {
        SpawnerCurve {
            min_gap: (50_000_000 - 15_000 * difficulty(score)) as i64,
            max_gap: (120_000_000 - 30_000 * difficulty(score)) as i64,
            difficulty_score: score,
        }
    }

    /// Computes the curve at a score.
    pub fn at(score: usize) -> (curve: SpawnerCurve)
        ensures
            curve == SpawnerCurve::at_score(score),
            35_000_000 <= curve.min_gap <= 50_000_000,
            90_000_000 <= curve.max_gap <= 120_000_000,
    {
        let steps: i64 = if score < FULL_DIFFICULTY_SCORE {
            score as i64
        } else {
            1000
        };
        SpawnerCurve {
            min_gap: 50_000_000 - 15_000 * steps,
            max_gap: 120_000_000 - 30_000 * steps,
            difficulty_score: score,
        }
    }
}

/// The gaps never widen as the score grows, and never fall below 35 and 90
/// cells.
pub proof fn lemma_gaps_narrow_to_floor(lower: usize, higher: usize)
    requires
        lower <= higher,
    ensures
        SpawnerCurve::at_score(higher).min_gap <= SpawnerCurve::at_score(lower).min_gap,
        SpawnerCurve::at_score(higher).max_gap <= SpawnerCurve::at_score(lower).max_gap,
        SpawnerCurve::at_score(higher).min_gap >= 35_000_000,
        SpawnerCurve::at_score(higher).max_gap >= 90_000_000,
        higher >= FULL_DIFFICULTY_SCORE ==> SpawnerCurve::at_score(higher).min_gap == 35_000_000
            && SpawnerCurve::at_score(higher).max_gap == 90_000_000,
{
}

/// The group of classes from which the next obstacle is picked.
#[derive(Clone, Copy, PartialEq, Eq, Structural, Debug)]
pub enum SpawnTier {
    /// The three pterodactyls.
    Flying,
    /// The tall and the wide cactus.
    Hard,
    /// The small, the medium and the tall cactus.
    Common,
}

impl SpawnTier {
    /// The group chosen at a score by two rolls out of a hundred. The flying
    /// group is tried first, then the hard one; a group is open only above
    /// its score.
    pub open spec fn chosen(
        score: usize,
        game: GameConfig,
        ptero_roll: u64,
        hard_roll: u64,
    ) -> SpawnTier {
        if score > game.ptero_spawn_score && ptero_roll < PTERO_CHANCE {
            SpawnTier::Flying
        } else if score > game.hard_obstacles_score && hard_roll < HARD_CHANCE {
            SpawnTier::Hard
        } else {
            SpawnTier::Common
        }
    }

    /// How many classes the group holds.
    pub open spec fn size(self) -> u64 {
        match self {
            SpawnTier::Flying => 3,
            SpawnTier::Hard => 2,
            SpawnTier::Common => 3,
        }
    }

    /// The class at a place in the group; the last class stands for every
    /// place past the end.
    pub open spec fn member(self, pick: u64) -> ObstacleType {
        match self {
            SpawnTier::Flying => if pick == 0 {
                ObstacleType::PterodactylLow
            } else if pick == 1 {
                ObstacleType::PterodactylMid
            } else {
                ObstacleType::PterodactylHigh
            },
            SpawnTier::Hard => if pick == 0 {
                ObstacleType::TallCactus
            } else {
                ObstacleType::WideCactus
            },
            SpawnTier::Common => if pick == 0 {
                ObstacleType::SmallCactus
            } else if pick == 1 {
                ObstacleType::MediumCactus
            } else {
                ObstacleType::TallCactus
            },
        }
    }

    /// Computes how many classes the group holds.
    pub fn len(self) -> (count: u64)
        ensures
            count == self.size(),
            count >= 1,
    {
        match self {
            SpawnTier::Flying => 3,
            SpawnTier::Hard => 2,
            SpawnTier::Common => 3,
        }
    }

    /// Looks up the class at a place in the group.
    pub fn kind(self, pick: u64) -> (kind: ObstacleType)
        ensures
            kind == self.member(pick),
    {
        match self {
            SpawnTier::Flying => if pick == 0 {
                ObstacleType::PterodactylLow
            } else if pick == 1 {
                ObstacleType::PterodactylMid
            } else {
                ObstacleType::PterodactylHigh
            },
            SpawnTier::Hard => if pick == 0 {
                ObstacleType::TallCactus
            } else {
                ObstacleType::WideCactus
            },
            SpawnTier::Common => if pick == 0 {
                ObstacleType::SmallCactus
            } else if pick == 1 {
                ObstacleType::MediumCactus
            } else {
                ObstacleType::TallCactus
            },
        }
    }
}

impl ObstacleType {
    /// One of the three pterodactyls.
    pub open spec fn is_pterodactyl(self) -> bool {
        self == ObstacleType::PterodactylLow || self == ObstacleType::PterodactylMid || self
            == ObstacleType::PterodactylHigh
    }

    /// The classes that can appear at a score: the small, the medium and the
    /// tall cactus always, the wide cactus above the score of the large
    /// cacti, the pterodactyls above theirs.
    pub open spec fn unlocked(self, score: usize, game: GameConfig) -> bool {
        if self.is_pterodactyl() {
            score > game.ptero_spawn_score
        } else if self == ObstacleType::WideCactus {
            score > game.hard_obstacles_score
        } else {
            true
        }
    }

    /// This class is the one picked at a score by two rolls out of a
    /// hundred and a place in the group that the rolls choose.
    pub open spec fn picked_by(
        self,
        score: usize,
        game: GameConfig,
        ptero_roll: u64,
        hard_roll: u64,
        pick: u64,
    ) -> bool {
        let tier = SpawnTier::chosen(score, game, ptero_roll, hard_roll);
        &&& ptero_roll < 100
        &&& hard_roll < 100
        &&& pick < tier.size()
        &&& self == tier.member(pick)
    }
}

/// Whatever the rolls, the class picked is one that the score has unlocked.
pub proof fn lemma_picked_kind_is_unlocked(
    score: usize,
    game: GameConfig,
    ptero_roll: u64,
    hard_roll: u64,
    pick: u64,
)
    ensures
        SpawnTier::chosen(score, game, ptero_roll, hard_roll).member(pick).unlocked(score, game),
{
}

/// Every class that the score has unlocked is picked by some rolls.
pub proof fn lemma_unlocked_kind_can_be_picked(score: usize, game: GameConfig, kind: ObstacleType)
    requires
        kind.unlocked(score, game),
    ensures
        exists|ptero_roll: u64, hard_roll: u64, pick: u64|
            ptero_roll < 100 && hard_roll < 100 && pick < SpawnTier::chosen(
                score,
                game,
                ptero_roll,
                hard_roll,
            ).size() && #[trigger] SpawnTier::chosen(score, game, ptero_roll, hard_roll).member(pick)
                == kind,
{
    if kind.is_pterodactyl() {
        let pick: u64 = if kind == ObstacleType::PterodactylLow {
            0
        } else if kind == ObstacleType::PterodactylMid {
            1
        } else {
            2
        };
        assert(SpawnTier::chosen(score, game, 0, 0).member(pick) == kind);
    } else if kind == ObstacleType::WideCactus {
        assert(SpawnTier::chosen(score, game, 99, 0).member(1) == kind);
    } else {
        let pick: u64 = if kind == ObstacleType::SmallCactus {
            0
        } else if kind == ObstacleType::MediumCactus {
            1
        } else {
            2
        };
        assert(SpawnTier::chosen(score, game, 99, 99).member(pick) == kind);
    }
}

/// Above the score of the flying obstacles, a roll under the flying share
/// gives a pterodactyl, and nothing else does.
pub proof fn lemma_pterodactyl_iff_flying_roll(
    score: usize,
    game: GameConfig,
    ptero_roll: u64,
    hard_roll: u64,
    pick: u64,
)
    ensures
        SpawnTier::chosen(score, game, ptero_roll, hard_roll).member(pick).is_pterodactyl() <==> (
        score > game.ptero_spawn_score && ptero_roll < PTERO_CHANCE),
{
}

/// Places obstacles: holds the score thresholds of the classes and the
/// curve of gaps at the current score.
pub struct ObstacleSpawner {
    cfg: Cfg,
    curve: SpawnerCurve,
}

impl ObstacleSpawner {
    /// The curve of gaps in use.
    pub closed spec fn gaps(&self) -> SpawnerCurve {
        self.curve
    }

    /// The score thresholds in use.
    pub closed spec fn game(&self) -> GameConfig {
        self.cfg.game
    }

    /// The curve in use is the curve at the score it was derived from.
    #[verifier::type_invariant]
    pub open spec fn wf(&self) -> bool {
        self.gaps() == SpawnerCurve::at_score(self.gaps().difficulty_score)
    }

    /// Where the next obstacle may stand and what it may be, after an
    /// obstacle at `last_x`.
    pub open spec fn may_spawn(&self, last_x: i64, obstacle: Obstacle) -> bool {
        &&& saturate(last_x + self.gaps().min_gap) <= obstacle.x <= saturate(
            last_x + self.gaps().max_gap,
        )
        &&& obstacle.obstacle_type.unlocked(self.gaps().difficulty_score, self.game())
    }

    /// A spawner at score zero.
    pub fn new(cfg: Cfg) -> (spawner: Self)
        ensures
            spawner.wf(),
            spawner.gaps() == SpawnerCurve::at_score(0),
            spawner.game() == cfg.game,
    {
        Self { cfg, curve: SpawnerCurve::at(0) }
    }

    /// The curve of gaps in use.
    pub fn curve(&self) -> (curve: SpawnerCurve)
        ensures
            curve == self.gaps(),
            self.wf(),
    {
        proof {
            use_type_invariant(self);
        }
        self.curve
    }

    /// The score thresholds in use.
    pub fn thresholds(&self) -> (game: GameConfig)
        ensures
            game == self.game(),
    {
        self.cfg.game
    }

    /// Derives the curve of gaps from the score.
    pub fn update_difficulty(&mut self, score: usize)
        ensures
            final(self).wf(),
            final(self).gaps() == SpawnerCurve::at_score(score),
            final(self).game() == old(self).game(),
    {
        self.curve = SpawnerCurve::at(score);
    }

    /// Tells whether the rightmost obstacle has come far enough onto a
    /// screen of the fixed-point width `screen_width` for the next one to
    /// be placed: it stands more than the least gap left of the right edge.
    pub fn should_spawn(&self, rightmost_obstacle_x: i64, screen_width: i64) -> (due: bool)
        ensures
            due == (rightmost_obstacle_x < screen_width - self.gaps().min_gap),
    {
        (rightmost_obstacle_x as i128) < (screen_width as i128) - (self.curve.min_gap as i128)
    }

    /// The group of classes that two rolls out of a hundred choose at the
    /// current score.
    pub fn tier_for(&self, ptero_roll: u64, hard_roll: u64) -> (tier: SpawnTier)
        ensures
            tier == SpawnTier::chosen(
                self.gaps().difficulty_score,
                self.game(),
                ptero_roll,
                hard_roll,
            ),
    {
        let score = self.curve.difficulty_score;
        if score > self.cfg.game.ptero_spawn_score && ptero_roll < PTERO_CHANCE {
            SpawnTier::Flying
        } else if score > self.cfg.game.hard_obstacles_score && hard_roll < HARD_CHANCE {
            SpawnTier::Hard
        } else {
            SpawnTier::Common
        }
    }

    /// The obstacle of class `kind` at the distance `gap` after `last_x`.
    pub fn place(last_x: i64, gap: i64, kind: ObstacleType) -> (obstacle: Obstacle)
        ensures
            obstacle.x == saturate(last_x + gap),
            obstacle.obstacle_type == kind,
    {
        Obstacle::new(sat_add(last_x, gap), kind)
    }

    /// Places the next obstacle after an obstacle at `last_x`, at a distance
    /// and of a class drawn from `rng`.
    pub fn spawn_next(&self, last_x: i64, rng: &mut Generator) -> (obstacle: Obstacle)
        ensures
            self.may_spawn(last_x, obstacle),
    {
        let gap = self.get_spawn_distance(rng);
        let kind = self.choose_obstacle_type(rng);
        Self::place(last_x, gap, kind)
    }

    /// Draws a distance between the least and the greatest gap.
    pub fn get_spawn_distance(&self, rng: &mut Generator) -> (gap: i64)
        ensures
            self.gaps().min_gap <= gap <= self.gaps().max_gap,
    {
        proof {
            use_type_invariant(self);
        }
        rng.between(self.curve.min_gap as u64, self.curve.max_gap as u64) as i64
    }

    /// Draws a class of obstacle: two rolls out of a hundred choose the
    /// group, a third draw the class in the group. Whatever is drawn, the
    /// class is one that the score has unlocked.
    pub fn choose_obstacle_type(&self, rng: &mut Generator) -> (kind: ObstacleType)
        ensures
            exists|ptero_roll: u64, hard_roll: u64, pick: u64| #[trigger]
                kind.picked_by(
                    self.gaps().difficulty_score,
                    self.game(),
                    ptero_roll,
                    hard_roll,
                    pick,
                ),
            kind.unlocked(self.gaps().difficulty_score, self.game()),
    {
        let ptero_roll = rng.between(0, 99);
        let hard_roll = rng.between(0, 99);
        let tier = self.tier_for(ptero_roll, hard_roll);
        let pick = rng.between(0, tier.len() - 1);
        let kind = tier.kind(pick);
        assert(kind.picked_by(
            self.gaps().difficulty_score,
            self.game(),
            ptero_roll,
            hard_roll,
            pick,
        ));
        kind
    }
}

} // verus!
