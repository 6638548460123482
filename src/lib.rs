//! Simulation core of a side-scrolling "flappy dragon" game: the player's
//! physics, obstacle generation, collision, and the menu / playing / end state
//! machine. Drawing, input polling and the frame loop belong to the host.
//!
//! Vertical quantities (position, velocity) are kept in tenths of a screen
//! cell, so that the gravity increment and the flap impulse are exact.
use vstd::prelude::*;

pub mod laws;
pub mod obstacle;
pub mod player;
pub mod random;
pub mod state;

verus! {

/// Width of the play field, in cells.
pub const SCREEN_WIDTH: i32 = 80;

/// Height of the play field, in cells.
pub const SCREEN_HEIGHT: i32 = 50;

/// Vertical sub-cells per cell: vertical quantities are in these units.
pub const SUBCELLS: i32 = 10;

/// Vertical position, in sub-cells, below which the player has left the screen.
pub const FALL_LIMIT: i32 = SCREEN_HEIGHT * SUBCELLS;

/// Time between two physics steps, in microseconds.
pub const FRAME_DURATION_US: u64 = 100000;

/// Largest downward velocity, in sub-cells per physics step.
pub const TERMINAL_VELOCITY: i32 = 20;

/// Velocity gained per physics step, in sub-cells per step.
pub const VELOCITY_INCREMENT: i32 = 2;

/// Velocity set by a flap, in sub-cells per step.
pub const VELOCITY_ON_FLAP: i32 = -20;

/// Horizontal progress of a fresh player.
pub const START_X: i32 = 5;

/// Vertical position of a fresh player, in sub-cells.
pub const START_Y: i32 = 250;

/// Smallest gap centre an obstacle can get, in cells.
pub const GAP_CENTER_MIN: i32 = 10;

/// One past the largest gap centre an obstacle can get, in cells.
pub const GAP_CENTER_END: i32 = 40;

/// Number of frames in the dragon's flight animation.
pub const DRAGON_FRAME_COUNT: usize = 6;

/// A key press as the state machine sees it.
#[derive(Clone, Copy, Debug, PartialEq, Eq, Structural)]
pub enum Key {
    Space,
    P,
    Q,
    Other,
}

} // verus!
