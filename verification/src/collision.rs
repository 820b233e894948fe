//! Collision geometry: axis-aligned boxes in cell coordinates, the box of
//! the player and the box of each class of obstacle.

use vstd::prelude::*;
use crate::types::{Dino, DinoState, Obstacle, ObstacleType};
use crate::units::{cell_of, to_cell};

verus! {

/// Column of the left edge of the player.
pub const DINO_COLUMN: usize = 10;

/// `a - b`, or zero where `b` is the larger.
pub open spec fn minus(a: usize, b: usize) -> usize {
    if a >= b {
        (a - b) as usize
    } else {
        0
    }
}

/// An axis-aligned box: the cell of its top left corner, its width and its
/// height. Rows grow downward.
#[derive(Clone, Copy, PartialEq, Eq, Structural, Debug)]
pub struct Box {
    pub x: usize,
    pub y: usize,
    pub w: usize,
    pub h: usize,
}

impl Box {
    /// Two boxes overlap when their column ranges and their row ranges both
    /// share a cell. Boxes that only touch along an edge do not overlap.
    pub open spec fn overlaps(self, other: Box) -> bool {
        &&& self.x < other.x + other.w
        &&& self.x + self.w > other.x
        &&& self.y < other.y + other.h
        &&& self.y + self.h > other.y
    }

    pub fn new(x: usize, y: usize, w: usize, h: usize) -> (made: Self)
        ensures
            made == (Box { x, y, w, h }),
    {
        Self { x, y, w, h }
    }

    /// Tells whether this box and `other` overlap.
    pub fn check_collision(&self, other: Self) -> (hit: bool)
        ensures
            hit == self.overlaps(other),
    {
        starts_before_end(self.x, other.x, other.w) && starts_before_end(other.x, self.x, self.w)
            && starts_before_end(self.y, other.y, other.h) && starts_before_end(
            other.y,
            self.y,
            self.h,
        )
    }
}

/// Tells whether `start` lies before the end of the range of `length` cells
/// from `origin`, also where that end is past the last `usize`.
fn starts_before_end(start: usize, origin: usize, length: usize) -> (before: bool)
    ensures
        before == (start < origin + length),
{
    match origin.checked_add(length) {
        Some(end) => start < end,
        None => true,
    }
}

/// The shape of a class of obstacle: the width and height of its box in
/// cells, and how many rows above the ground line the box begins.
#[derive(Clone, Copy, PartialEq, Eq, Structural, Debug)]
pub struct Hitbox {
    pub width: usize,
    pub height: usize,
    pub rise: usize,
}

impl ObstacleType {
    /// The table of shapes.
    pub open spec fn shape(self) -> Hitbox {
        match self {
            ObstacleType::SmallCactus => Hitbox { width: 3, height: 2, rise: 2 },
            ObstacleType::MediumCactus => Hitbox { width: 3, height: 3, rise: 3 },
            ObstacleType::TallCactus => Hitbox { width: 5, height: 4, rise: 4 },
            ObstacleType::WideCactus => Hitbox { width: 7, height: 3, rise: 3 },
            ObstacleType::PterodactylLow => Hitbox { width: 7, height: 3, rise: 8 },
            ObstacleType::PterodactylMid => Hitbox { width: 7, height: 3, rise: 12 },
            ObstacleType::PterodactylHigh => Hitbox { width: 7, height: 3, rise: 16 },
        }
    }

    /// The shape of this class of obstacle.
    pub fn hitbox(self) -> (shape: Hitbox)
        ensures
            shape == self.shape(),
    {
        match self {
            ObstacleType::SmallCactus => Hitbox { width: 3, height: 2, rise: 2 },
            ObstacleType::MediumCactus => Hitbox { width: 3, height: 3, rise: 3 },
            ObstacleType::TallCactus => Hitbox { width: 5, height: 4, rise: 4 },
            ObstacleType::WideCactus => Hitbox { width: 7, height: 3, rise: 3 },
            ObstacleType::PterodactylLow => Hitbox { width: 7, height: 3, rise: 8 },
            ObstacleType::PterodactylMid => Hitbox { width: 7, height: 3, rise: 12 },
            ObstacleType::PterodactylHigh => Hitbox { width: 7, height: 3, rise: 16 },
        }
    }
}

/// The row of the ground line on a screen of `screen_height` rows.
pub open spec fn ground_row(screen_height: usize, ground_height: usize) -> usize {
    minus(screen_height, ground_height)
}

/// The box of an obstacle: its column is the cell of its position, and it
/// begins `rise` rows above the ground line, or on the top row of the
/// screen where the ground line is less than `rise` rows down.
pub open spec fn obstacle_box(obstacle: Obstacle, ground_y: usize) -> Box {
    let shape = obstacle.obstacle_type.shape();
    Box {
        x: cell_of(obstacle.x as int),
        y: minus(ground_y, shape.rise),
        w: shape.width,
        h: shape.height,
    }
}

/// The row of the top of the standing player: six rows above the ground
/// line, less the whole cells of its height above the ground.
pub open spec fn player_row(dino: Dino, ground_y: usize) -> usize {
    minus(minus(ground_y, 6), cell_of(dino.y as int))
}

/// The box of the player: eight by six cells, or, while it crouches, six by
/// four cells and two rows lower.
pub open spec fn player_box(dino: Dino, ground_y: usize) -> Box {
    let row = player_row(dino, ground_y);
    if dino.state == DinoState::Crouching {
        Box { x: DINO_COLUMN, y: (row + 2) as usize, w: 6, h: 4 }
    } else {
        Box { x: DINO_COLUMN, y: row, w: 8, h: 6 }
    }
}

/// The player's box overlaps the box of at least one obstacle.
pub open spec fn collides(dino: Dino, obstacles: Seq<Obstacle>, ground_y: usize) -> bool {
    exists|i: int|
        0 <= i < obstacles.len() && player_box(dino, ground_y).overlaps(
            #[trigger] obstacle_box(obstacles[i], ground_y),
        )
}

/// Computes the row of the ground line.
pub fn ground_line(screen_height: usize, ground_height: usize) -> (row: usize)
    ensures
        row == ground_row(screen_height, ground_height),
{
    screen_height.saturating_sub(ground_height)
}

/// Computes the box of an obstacle.
pub fn box_of_obstacle(obstacle: &Obstacle, ground_y: usize) -> (made: Box)
    ensures
        made == obstacle_box(*obstacle, ground_y),
{
    let shape = obstacle.obstacle_type.hitbox();
    Box::new(to_cell(obstacle.x), ground_y.saturating_sub(shape.rise), shape.width, shape.height)
}

/// Computes the box of the player.
pub fn box_of_player(dino: &Dino, ground_y: usize) -> (made: Box)
    ensures
        made == player_box(*dino, ground_y),
{
    let row = ground_y.saturating_sub(6).saturating_sub(to_cell(dino.y));
    match dino.state {
        DinoState::Crouching => Box::new(DINO_COLUMN, row + 2, 6, 4),
        _ => Box::new(DINO_COLUMN, row, 8, 6),
    }
}

/// Tells whether the player's box overlaps the box of any of `obstacles`.
pub fn hits_any(dino: &Dino, obstacles: &Vec<Obstacle>, ground_y: usize) -> (hit: bool)
    ensures
        hit == collides(*dino, obstacles@, ground_y),
{
    let player = box_of_player(dino, ground_y);
    let mut i: usize = 0;
    while i < obstacles.len()
        invariant
            i <= obstacles.len(),
            player == player_box(*dino, ground_y),
            forall|j: int|
                0 <= j < i ==> !player.overlaps(#[trigger] obstacle_box(obstacles@[j], ground_y)),
        decreases obstacles.len() - i,
    {
        if player.check_collision(box_of_obstacle(&obstacles[i], ground_y)) {
            return true;
        }
        i += 1;
    }
    false
}

/// Overlap does not depend on which box is asked.
pub proof fn lemma_overlap_is_mutual(a: Box, b: Box)
    ensures
        a.overlaps(b) == b.overlaps(a),
{
}

/// Boxes that touch along an edge, the one ending on the column or row where
/// the other begins, do not overlap.
pub proof fn lemma_touching_boxes_do_not_overlap(a: Box, b: Box)
    requires
        a.x + a.w == b.x || b.x + b.w == a.x || a.y + a.h == b.y || b.y + b.h == a.y,
    ensures
        !a.overlaps(b),
{
}

/// The cell at `column` and `row` lies in the box.
pub open spec fn holds_cell(b: Box, column: int, row: int) -> bool {
    b.x <= column < b.x + b.w && b.y <= row < b.y + b.h
}

/// Boxes overlap exactly when they share a cell, as long as neither is
/// empty.
pub proof fn lemma_overlap_is_a_shared_cell(a: Box, b: Box)
    requires
        a.w > 0 && a.h > 0 && b.w > 0 && b.h > 0,
    ensures
        a.overlaps(b) <==> exists|column: int, row: int|
            #[trigger] holds_cell(a, column, row) && holds_cell(b, column, row),
{
    if a.overlaps(b) {
        let column = if a.x >= b.x {
            a.x as int
        } else {
            b.x as int
        };
        let row = if a.y >= b.y {
            a.y as int
        } else {
            b.y as int
        };
        assert(holds_cell(a, column, row) && holds_cell(b, column, row));
    }
}

/// The crouching player's box is six by four cells against eight by six,
/// begins two rows lower and ends on the same row, and lies within the box
/// that the player has standing at the same height: whatever overlaps the
/// first overlaps the second.
pub proof fn lemma_crouching_box_is_smaller(dino: Dino, ground_y: usize, other: Box)
    requires
        dino.state == DinoState::Crouching,
    ensures
        ({
            let low = player_box(dino, ground_y);
            let tall = player_box(Dino { state: DinoState::Running, ..dino }, ground_y);
            &&& low.w == 6 && low.h == 4
            &&& tall.w == 8 && tall.h == 6
            &&& low.x == tall.x
            &&& low.y == tall.y + 2
            &&& low.y + low.h == tall.y + tall.h
            &&& low.overlaps(other) ==> tall.overlaps(other)
        }),
{
}

} // verus!
