use flappy_dragon::obstacle::Obstacle;
use flappy_dragon::player::Player;
use flappy_dragon::state::{GameMode, State};
use flappy_dragon::{Key, GAP_CENTER_END, GAP_CENTER_MIN, SCREEN_HEIGHT, START_X, START_Y};

fn playing(gap_y: i32) -> State {
    let mut s = State::new();
    s.step(0, Some(Key::P), gap_y);
    s
}

#[test]
fn gap_half_size_by_score() {
    assert_eq!(Obstacle::with_gap(80, 18, 20).half_size, 1);
    assert_eq!(Obstacle::with_gap(80, 0, 20).half_size, 10);
    assert_eq!(Obstacle::with_gap(80, 1, 20).half_size, 9);
    assert_eq!(Obstacle::with_gap(80, 19, 20).half_size, 1);
    assert_eq!(Obstacle::with_gap(80, 20, 20).half_size, 1);
    assert_eq!(Obstacle::with_gap(80, 1000, 20).half_size, 1);
}

#[test]
fn gap_stays_open_for_many_scores() {
    for score in 0..500 {
        assert!(Obstacle::with_gap(0, score, 25).half_size >= 1);
    }
}

#[test]
fn random_gap_centres_in_range_and_varied() {
    let mut seen_other = false;
    for _ in 0..200 {
        let o = Obstacle::new(80, 0);
        assert!(o.gap_y >= GAP_CENTER_MIN && o.gap_y < GAP_CENTER_END);
        assert_eq!(o.half_size, 10);
        assert_eq!(o.x, 80);
        if o.gap_y != GAP_CENTER_MIN {
            seen_other = true;
        }
    }
    assert!(seen_other);
}

#[test]
fn new_session_is_at_menu() {
    let s = State::new();
    assert_eq!(s.mode, GameMode::Menu);
    assert_eq!(s.score, 0);
    assert_eq!(s.player, Player::new(START_X, START_Y));
    assert!(!s.quitting);
    assert!(s.can_tick());
}

#[test]
fn quit_from_menu_does_not_play() {
    let mut s = State::new();
    s.tick(16000, Some(Key::Q));
    assert!(s.quitting);
    assert_eq!(s.mode, GameMode::Menu);
}

#[test]
fn start_from_menu_resets() {
    let mut s = State::new();
    s.tick(16000, Some(Key::P));
    assert_eq!(s.mode, GameMode::Playing);
    assert_eq!(s.score, 0);
    assert_eq!(s.player.x, START_X);
    assert_eq!(s.player.velocity, 0);
    assert_eq!(s.frame_time, 0);
    assert_eq!(s.obstacle.x, 80);
}

#[test]
fn other_keys_at_menu_do_nothing() {
    let s0 = State::new();
    let mut s = s0;
    s.tick(16000, Some(Key::Space));
    s.tick(16000, Some(Key::Other));
    s.tick(16000, None);
    assert_eq!(s, s0);
}

#[test]
fn collision_outside_gap_ends_game() {
    let mut s = playing(10);
    s.player.x = 79;
    s.step(100001, None, 20);
    assert_eq!(s.player.x, 80);
    assert_eq!(s.player.y, 252);
    assert_eq!(s.mode, GameMode::End);
}

#[test]
fn inside_gap_keeps_playing() {
    let mut s = playing(25);
    s.player.x = 79;
    s.step(100001, None, 20);
    assert_eq!(s.player.x, 80);
    assert_eq!(s.mode, GameMode::Playing);
}

#[test]
fn hit_predicate_exact_boundary() {
    let o = Obstacle::with_gap(30, 0, 20);
    let mut p = Player::new(30, 300);
    assert!(o.hit_obstacle(&p));
    p.y = 299;
    assert!(!o.hit_obstacle(&p));
    p.y = 100;
    assert!(o.hit_obstacle(&p));
    p.y = 101;
    assert!(!o.hit_obstacle(&p));
    p.x = 31;
    p.y = 0;
    assert!(!o.hit_obstacle(&p));
}

#[test]
fn repeated_flaps_stay_away_from_bottom() {
    let mut s = playing(25);
    for _ in 0..60 {
        s.step(100001, Some(Key::Space), 25);
        assert!(s.player.y >= 0);
        assert!(s.player.y <= 252);
        assert_eq!(s.player.velocity, -20);
    }
    assert_eq!(s.player.y, 0);
}

#[test]
fn falling_off_screen_ends_game() {
    let mut s = playing(25);
    let mut ticks = 0;
    while s.mode == GameMode::Playing {
        s.step(100001, None, 25);
        ticks += 1;
        assert!(ticks < 100);
    }
    assert!(s.player.y > SCREEN_HEIGHT * 10);
    assert!(s.player.velocity <= 20);
}

#[test]
fn end_screen_without_key_is_still() {
    let mut s = playing(10);
    s.player.x = 79;
    s.step(100001, None, 20);
    assert_eq!(s.mode, GameMode::End);
    let ended = s;
    for e in [0u32, 16000, 100001, 5_000_000] {
        s.tick(e, None);
        assert_eq!(s, ended);
    }
}

#[test]
fn restart_from_end_screen() {
    let mut s = playing(10);
    s.player.x = 79;
    s.step(100001, None, 20);
    s.step(0, Some(Key::P), 30);
    assert_eq!(s.mode, GameMode::Playing);
    assert_eq!(s.score, 0);
    assert_eq!(s.player, Player::new(START_X, START_Y));
    assert_eq!(s.obstacle, Obstacle::with_gap(80, 0, 30));
}

#[test]
fn gravity_and_clamps() {
    let mut p = Player::new(5, 250);
    p.gravity_and_move();
    assert_eq!((p.x, p.y, p.velocity, p.frame), (6, 252, 2, 1));
    p.velocity = 20;
    p.gravity_and_move();
    assert_eq!((p.y, p.velocity), (272, 20));
    p.velocity = 19;
    p.gravity_and_move();
    assert_eq!((p.y, p.velocity), (292, 20));
    let mut q = Player::new(0, 5);
    q.flap();
    assert_eq!(q.velocity, -20);
    q.gravity_and_move();
    assert_eq!((q.y, q.velocity), (0, -18));
}

#[test]
fn animation_cycles() {
    let mut p = Player::new(0, 250);
    let mut tiles = Vec::new();
    for _ in 0..7 {
        tiles.push(p.tile());
        p.flap();
        p.gravity_and_move();
    }
    assert_eq!(tiles, vec![64, 1, 2, 3, 2, 1, 64]);
}

#[test]
fn physics_waits_for_frame_duration() {
    let mut s = playing(25);
    s.step(100000, None, 25);
    assert_eq!(s.player.x, START_X);
    assert_eq!(s.frame_time, 100000);
    s.step(1, None, 25);
    assert_eq!(s.player.x, START_X + 1);
    assert_eq!(s.frame_time, 0);
}

#[test]
fn flap_applies_without_physics_step() {
    let mut s = playing(25);
    s.step(10, Some(Key::Space), 25);
    assert_eq!(s.player.velocity, -20);
    assert_eq!(s.player.y, START_Y);
    assert_eq!(s.frame_time, 10);
}

#[test]
fn passing_obstacle_scores_and_narrows() {
    let mut s = playing(25);
    s.player.x = 80;
    s.step(100001, None, 33);
    assert_eq!(s.score, 1);
    assert_eq!(s.obstacle, Obstacle::with_gap(161, 1, 33));
    assert_eq!(s.obstacle.half_size, 9);
    assert_eq!(s.mode, GameMode::Playing);
}

#[test]
fn wall_rows_leave_the_gap() {
    let o = Obstacle::with_gap(0, 0, 20);
    let rows = o.wall_rows();
    let expected: Vec<i32> = (0..10).chain(30..50).collect();
    assert_eq!(rows, expected);
    assert_eq!(o.screen_column(70), -70);
}

#[test]
fn can_tick_rejects_broken_state() {
    let mut s = State::new();
    s.player.y = -1;
    assert!(!s.can_tick());
    let mut t = State::new();
    t.obstacle.x = i32::MAX - 10;
    assert!(!t.can_tick());
}
