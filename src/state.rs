use vstd::prelude::*;

use crate::obstacle::Obstacle;
use crate::player::Player;
use crate::random::random_in_range;
use crate::{
    Key, DRAGON_FRAME_COUNT, FALL_LIMIT, FRAME_DURATION_US, GAP_CENTER_END, GAP_CENTER_MIN,
    SCREEN_WIDTH, START_X, START_Y, TERMINAL_VELOCITY, VELOCITY_ON_FLAP,
};

verus! {

/// Which routine the tick runs.
#[derive(Clone, Copy, Debug, PartialEq, Eq, Structural)]
pub enum GameMode {
    Menu,
    Playing,
    End,
}

/// The whole session: player, current obstacle, score, time not yet spent on
/// a physics step (microseconds), mode, and whether the host should exit.
#[derive(Clone, Copy, Debug, PartialEq, Eq, Structural)]
pub struct State {
    pub player: Player,
    pub frame_time: u64,
    pub obstacle: Obstacle,
    pub mode: GameMode,
    pub score: i32,
    pub quitting: bool,
}

impl State {
    /// The player's position and velocity are in range; while playing, the
    /// player has not yet fallen off the screen.
    pub open spec fn physics_ok(self) -> bool {
        &&& self.player.wf()
        &&& self.mode is Playing ==> self.player.y <= FALL_LIMIT
    }

    /// What every tick keeps.
    pub open spec fn wf(self) -> bool {
        &&& self.physics_ok()
        &&& self.frame_time <= FRAME_DURATION_US
        &&& self.obstacle.wf()
        &&& 0 <= self.score <= self.player.x
        &&& self.player.x <= self.obstacle.x
    }

    /// The next obstacle still has a position that fits in an `i32`.
    pub open spec fn has_room(self) -> bool {
        self.obstacle.x < i32::MAX - SCREEN_WIDTH
    }

    /// A fresh game in Playing mode, whose first obstacle has its gap at `gap_y`.
    pub open spec fn restarted(self, gap_y: i32) -> State {
        State {
            player: Player { x: START_X, y: START_Y, velocity: 0, frame: 0 },
            frame_time: 0,
            obstacle: Obstacle::made(SCREEN_WIDTH, 0, gap_y),
            mode: GameMode::Playing,
            score: 0,
            quitting: self.quitting,
        }
    }

    /// Response of the menu and of the end screen to a key.
    pub open spec fn after_key(self, key: Option<Key>, gap_y: i32) -> State {
        match key {
            Some(Key::P) => self.restarted(gap_y),
            Some(Key::Q) => State { quitting: true, ..self },
            _ => self,
        }
    }

    /// One tick while playing, `elapsed` microseconds after the previous one;
    /// `gap_y` is the gap centre of an obstacle made during it.
    pub open spec fn after_play(self, elapsed: u32, key: Option<Key>, gap_y: i32) -> State {
        let acc = self.frame_time + elapsed;
        let moved = acc > FRAME_DURATION_US;
        let p1 = if moved {
            self.player.stepped()
        } else {
            self.player
        };
        let p = if key == Some(Key::Space) {
            p1.flapped()
        } else {
            p1
        };
        let passed = p.x > self.obstacle.x;
        let score = if passed {
            self.score + 1
        } else {
            self.score as int
        };
        let obstacle = if passed {
            Obstacle::made((p.x + SCREEN_WIDTH) as i32, score as i32, gap_y)
        } else {
            self.obstacle
        };
        let ended = p.y > FALL_LIMIT || obstacle.hits(p);
        State {
            player: p,
            frame_time: if moved {
                0
            } else {
                acc as u64
            },
            obstacle,
            mode: if ended {
                GameMode::End
            } else {
                GameMode::Playing
            },
            score: score as i32,
            quitting: self.quitting,
        }
    }

    /// One tick in any mode.
    pub open spec fn next(self, elapsed: u32, key: Option<Key>, gap_y: i32) -> State {
        match self.mode {
            GameMode::Playing => self.after_play(elapsed, key, gap_y),
            _ => self.after_key(key, gap_y),
        }
    }

    /// A session at the menu, with a fresh player and a first obstacle one
    /// screen ahead.
    pub fn new() -> (s: State)
        ensures
            s.mode is Menu,
            s.player == (Player { x: START_X, y: START_Y, velocity: 0, frame: 0 }),
            s.obstacle == Obstacle::made(SCREEN_WIDTH, 0, s.obstacle.gap_y),
            s.frame_time == 0,
            s.score == 0,
            !s.quitting,
            s.wf(),
            s.has_room(),
    {
        State {
            player: Player::fresh(),
            frame_time: 0,
            obstacle: Obstacle::new(SCREEN_WIDTH, 0),
            mode: GameMode::Menu,
            score: 0,
            quitting: false,
        }
    }

    /// Whether `tick` may be called on this session.
    pub fn can_tick(&self) -> (r: bool)
        ensures
            r == (self.wf() && self.has_room()),
    {
        let p = &self.player;
        let o = &self.obstacle;
        let physics = 0 <= p.y && p.y <= FALL_LIMIT + TERMINAL_VELOCITY
            && VELOCITY_ON_FLAP <= p.velocity && p.velocity <= TERMINAL_VELOCITY
            && p.frame < DRAGON_FRAME_COUNT && (match self.mode {
            GameMode::Playing => p.y <= FALL_LIMIT,
            _ => true,
        });
        let gap = GAP_CENTER_MIN <= o.gap_y && o.gap_y < GAP_CENTER_END && 1 <= o.half_size
            && o.half_size <= 10;
        physics && self.frame_time <= FRAME_DURATION_US && gap && 0 <= self.score && self.score
            <= p.x && p.x <= o.x && o.x < i32::MAX - SCREEN_WIDTH
    }

    /// Start a new game, whose first obstacle has its gap at `gap_y`.
    pub fn restart(&mut self, gap_y: i32)
        ensures
            *final(self) == old(self).restarted(gap_y),
    {
        self.player = Player::fresh();
        self.frame_time = 0;
        self.obstacle = Obstacle::with_gap(SCREEN_WIDTH, 0, gap_y);
        self.mode = GameMode::Playing;
        self.score = 0;
    }

    /// The menu and the end screen: P starts a game, Q asks the host to exit,
    /// any other key or none changes nothing.
    pub fn respond_to_key(&mut self, key: Option<Key>, gap_y: i32)
        ensures
            *final(self) == old(self).after_key(key, gap_y),
    {
        match key {
            Some(Key::P) => self.restart(gap_y),
            Some(Key::Q) => self.quitting = true,
            _ => {},
        }
    }

    /// One tick of play.
    pub fn play(&mut self, elapsed_us: u32, key: Option<Key>, gap_y: i32)
        requires
            old(self).wf(),
            old(self).has_room(),
            old(self).mode is Playing,
        ensures
            *final(self) == old(self).after_play(elapsed_us, key, gap_y),
    {
        self.frame_time = self.frame_time + elapsed_us as u64;
        if self.frame_time > FRAME_DURATION_US {
            self.frame_time = 0;
            self.player.gravity_and_move();
        }
        if let Some(Key::Space) = key {
            self.player.flap();
        }
        if self.player.x > self.obstacle.x {
            self.score = self.score + 1;
            self.obstacle = Obstacle::with_gap(self.player.x + SCREEN_WIDTH, self.score, gap_y);
        }
        if self.player.y > FALL_LIMIT || self.obstacle.hit_obstacle(&self.player) {
            self.mode = GameMode::End;
        }
    }

    /// One tick in the current mode; `gap_y` is the gap centre of an obstacle
    /// made during it.
    pub fn step(&mut self, elapsed_us: u32, key: Option<Key>, gap_y: i32)
        requires
            old(self).wf(),
            old(self).has_room(),
            GAP_CENTER_MIN <= gap_y < GAP_CENTER_END,
        ensures
            *final(self) == old(self).next(elapsed_us, key, gap_y),
            final(self).wf(),
    {
        proof {
            old(self).lemma_next_wf(elapsed_us, key, gap_y);
        }
        match self.mode {
            GameMode::Playing => self.play(elapsed_us, key, gap_y),
            _ => self.respond_to_key(key, gap_y),
        }
    }

    /// One tick in the current mode, with a gap centre drawn at random for an
    /// obstacle made during it.
    pub fn tick(&mut self, elapsed_us: u32, key: Option<Key>)
        requires
            old(self).wf(),
            old(self).has_room(),
        ensures
            exists|g: i32|
                GAP_CENTER_MIN <= g < GAP_CENTER_END && *final(self) == old(self).next(
                    elapsed_us,
                    key,
                    g,
                ),
            final(self).wf(),
    {
        let gap_y = random_in_range(GAP_CENTER_MIN, GAP_CENTER_END);
        self.step(elapsed_us, key, gap_y);
    }

    /// A tick keeps the session well formed.
    pub proof fn lemma_next_wf(self, elapsed: u32, key: Option<Key>, gap_y: i32)
        requires
            self.wf(),
            self.has_room(),
            GAP_CENTER_MIN <= gap_y < GAP_CENTER_END,
        ensures
            self.next(elapsed, key, gap_y).wf(),
    {
    }
}

} // verus!
