use vstd::prelude::*;

use crate::player::Player;
use crate::random::random_in_range;
use crate::{GAP_CENTER_END, GAP_CENTER_MIN, SCREEN_HEIGHT, SUBCELLS};

verus! {

/// Half the height of the gap of an obstacle made at `score`: it narrows as
/// the score rises, and never closes.
pub open spec fn gap_half_size_for(score: int) -> int {
    if (20 - score) / 2 < 1 {
        1
    } else {
        (20 - score) / 2
    }
}

/// A wall at horizontal position `x` with a gap of half height `half_size`
/// around row `gap_y`.
#[derive(Clone, Copy, Debug, PartialEq, Eq, Structural)]
pub struct Obstacle {
    pub x: i32,
    pub gap_y: i32,
    pub half_size: i32,
}

impl Obstacle {
    /// The gap centre lies in the range that obstacles draw it from, and the
    /// gap is open.
    pub open spec fn wf(self) -> bool {
        &&& GAP_CENTER_MIN <= self.gap_y < GAP_CENTER_END
        &&& 1 <= self.half_size <= 10
    }

    /// The obstacle made at `x` for `score` around row `gap_y`.
    pub open spec fn made(x: i32, score: i32, gap_y: i32) -> Obstacle {
        Obstacle { x, gap_y, half_size: gap_half_size_for(score as int) as i32 }
    }

    /// The player is at the wall's column and outside its gap.
    pub open spec fn hits(self, p: Player) -> bool {
        let d = p.y - self.gap_y * SUBCELLS;
        &&& p.x == self.x
        &&& (if d < 0 { -d } else { d }) >= self.half_size * SUBCELLS
    }

    /// Row `row` of the wall's column is solid.
    pub open spec fn is_wall_row(self, row: int) -> bool {
        ||| 0 <= row < self.gap_y - self.half_size
        ||| self.gap_y + self.half_size <= row < SCREEN_HEIGHT
    }

    /// The obstacle at `x` for `score`, with the given gap centre.
    pub fn with_gap(x: i32, score: i32, gap_y: i32) -> (o: Obstacle)
        requires
            score >= 0,
        ensures
            o == Obstacle::made(x, score, gap_y),
            o.half_size >= 1,
    {
        let half_size: i32 = if score >= 18 {
            1
        } else {
            (20 - score) / 2
        };
        Obstacle { x, gap_y, half_size }
    }

    /// The obstacle at `x` for `score`, with a gap centre drawn at random.
    pub fn new(x: i32, score: i32) -> (o: Obstacle)
        requires
            score >= 0,
        ensures
            o == Obstacle::made(x, score, o.gap_y),
            o.wf(),
    {
        let gap_y = random_in_range(GAP_CENTER_MIN, GAP_CENTER_END);
        Obstacle::with_gap(x, score, gap_y)
    }

    /// Whether `player` runs into this obstacle.
    pub fn hit_obstacle(&self, player: &Player) -> (r: bool)
        ensures
            r == self.hits(*player),
    {
        assert(i32::MIN * 10 <= self.gap_y * 10 <= i32::MAX * 10) by (nonlinear_arith)
            requires
                i32::MIN <= self.gap_y <= i32::MAX,
        ;
        assert(i32::MIN * 10 <= self.half_size * 10 <= i32::MAX * 10) by (nonlinear_arith)
            requires
                i32::MIN <= self.half_size <= i32::MAX,
        ;
        let d: i64 = player.y as i64 - self.gap_y as i64 * SUBCELLS as i64;
        let dist: i64 = if d < 0 {
            -d
        } else {
            d
        };
        player.x == self.x && dist >= self.half_size as i64 * SUBCELLS as i64
    }

    /// Column of the screen at which the obstacle stands when the player has
    /// made `player_x` progress.
    pub fn screen_column(&self, player_x: i32) -> (c: i64)
        ensures
            c == self.x - player_x,
    {
        self.x as i64 - player_x as i64
    }

    /// The solid rows of the wall's column, top to bottom.
    pub fn wall_rows(&self) -> (rows: Vec<i32>)
        ensures
            forall|i: int, j: int| 0 <= i < j < rows@.len() ==> rows@[i] < rows@[j],
            forall|i: int| 0 <= i < rows@.len() ==> 0 <= #[trigger] rows@[i] < SCREEN_HEIGHT,
            forall|i: int| 0 <= i < rows@.len() ==> self.is_wall_row(#[trigger] rows@[i] as int),
            forall|row: int|
                0 <= row < SCREEN_HEIGHT && #[trigger] self.is_wall_row(row) ==> rows@.contains(
                    row as i32,
                ),
    {
        let mut rows: Vec<i32> = Vec::new();
        let top_end: i64 = self.gap_y as i64 - self.half_size as i64;
        let bottom_start: i64 = self.gap_y as i64 + self.half_size as i64;
        let mut row: i32 = 0;
        while row < SCREEN_HEIGHT
            invariant
                0 <= row <= SCREEN_HEIGHT,
                top_end == self.gap_y - self.half_size,
                bottom_start == self.gap_y + self.half_size,
                forall|i: int, j: int| 0 <= i < j < rows@.len() ==> rows@[i] < rows@[j],
                forall|i: int| 0 <= i < rows@.len() ==> 0 <= #[trigger] rows@[i] < row,
                forall|i: int|
                    0 <= i < rows@.len() ==> self.is_wall_row(#[trigger] rows@[i] as int),
                forall|r: int|
                    0 <= r < row && #[trigger] self.is_wall_row(r) ==> rows@.contains(r as i32),
            decreases SCREEN_HEIGHT - row,
        {
            if (row as i64) < top_end || (row as i64) >= bottom_start {
                let ghost before = rows@;
                rows.push(row);
                assert(rows@[rows@.len() - 1] == row);
                assert forall|r: int|
                    0 <= r < row && #[trigger] self.is_wall_row(r) implies rows@.contains(
                        r as i32,
                    ) by {
                    let i = choose|i: int| 0 <= i < before.len() && before[i] == r as i32;
                    assert(rows@[i] == r as i32);
                }
            }
            row = row + 1;
        }
        rows
    }
}

} // verus!
