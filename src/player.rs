use vstd::prelude::*;

use crate::{
    DRAGON_FRAME_COUNT, FALL_LIMIT, START_X, START_Y, TERMINAL_VELOCITY, VELOCITY_INCREMENT,
    VELOCITY_ON_FLAP,
};

verus! {

/// Tile of each animation frame of the dragon.
pub open spec fn dragon_tile(frame: int) -> u16 {
    if frame == 0 {
        64
    } else if frame == 1 || frame == 5 {
        1
    } else if frame == 2 || frame == 4 {
        2
    } else {
        3
    }
}

/// The player: horizontal progress through the level, vertical position and
/// velocity (in sub-cells, downward positive), and the animation frame.
#[derive(Clone, Copy, Debug, PartialEq, Eq, Structural)]
pub struct Player {
    pub x: i32,
    pub y: i32,
    pub velocity: i32,
    pub frame: usize,
}

impl Player {
    /// Position and velocity stay in the ranges that the physics keeps.
    pub open spec fn wf(self) -> bool {
        &&& 0 <= self.y <= FALL_LIMIT + TERMINAL_VELOCITY
        &&& VELOCITY_ON_FLAP <= self.velocity <= TERMINAL_VELOCITY
        &&& self.frame < DRAGON_FRAME_COUNT
    }

    /// Velocity after one physics step: one increment more, at most terminal.
    pub open spec fn stepped_velocity(v: int) -> int {
        if v + VELOCITY_INCREMENT > TERMINAL_VELOCITY {
            TERMINAL_VELOCITY as int
        } else {
            v + VELOCITY_INCREMENT
        }
    }

    /// The player after one physics step.
    pub open spec fn stepped(self) -> Player {
        let v = Self::stepped_velocity(self.velocity as int);
        let y = if self.y + v < 0 {
            0
        } else {
            self.y + v
        };
        Player {
            x: (self.x + 1) as i32,
            y: y as i32,
            velocity: v as i32,
            frame: ((self.frame + 1) % (DRAGON_FRAME_COUNT as int)) as usize,
        }
    }

    /// The player after a flap.
    pub open spec fn flapped(self) -> Player {
        Player { velocity: VELOCITY_ON_FLAP, ..self }
    }

    /// A player at progress `x` and height `y`, at rest, on the first frame.
    pub fn new(x: i32, y: i32) -> (p: Player)
        ensures
            p == (Player { x, y, velocity: 0, frame: 0 }),
    {
        Player { x, y, velocity: 0, frame: 0 }
    }

    /// The player of a fresh game.
    pub fn fresh() -> (p: Player)
        ensures
            p == (Player { x: START_X, y: START_Y, velocity: 0, frame: 0 }),
            p.wf(),
    {
        Player::new(START_X, START_Y)
    }

    /// One physics step: gravity, move, clamp at the top edge, advance the
    /// progress and the animation.
    pub fn gravity_and_move(&mut self)
        requires
            old(self).wf(),
            old(self).y <= FALL_LIMIT,
            old(self).x < i32::MAX,
        ensures
            *final(self) == old(self).stepped(),
            final(self).wf(),
            final(self).x == old(self).x + 1,
    {
        if self.velocity + VELOCITY_INCREMENT > TERMINAL_VELOCITY {
            self.velocity = TERMINAL_VELOCITY;
        } else {
            self.velocity = self.velocity + VELOCITY_INCREMENT;
        }
        self.y = self.y + self.velocity;
        if self.y < 0 {
            self.y = 0;
        }
        self.x = self.x + 1;
        self.frame = (self.frame + 1) % DRAGON_FRAME_COUNT;
    }

    /// Upward impulse: the velocity becomes the flap velocity.
    pub fn flap(&mut self)
        ensures
            *final(self) == old(self).flapped(),
    {
        self.velocity = VELOCITY_ON_FLAP;
    }

    /// Tile to draw for the current animation frame.
    pub fn tile(&self) -> (t: u16)
        requires
            self.frame < DRAGON_FRAME_COUNT,
        ensures
            t == dragon_tile(self.frame as int),
    {
        match self.frame {
            0 => 64,
            1 | 5 => 1,
            2 | 4 => 2,
            _ => 3,
        }
    }
}

} // verus!
