use snek::collision::Contact;
use snek::entity::Snek;
use snek::game::{SnekGame, TickRolls};
use snek::geometry::{Direction, Point2d};
use snek::input::{Key, KeyState};
use snek::path::Path;
use snek::pill::{kind_for_roll, GameMode, Pill, PillType};

fn pt(x: i64, y: i64) -> Point2d {
    Point2d { x, y }
}

fn up_key() -> KeyState {
    let mut ks = KeyState::new();
    ks.set_key_pressed(Key::Up, true);
    ks
}

fn quiet_rolls(turns: usize) -> TickRolls {
    // a spawn roll of 9999 stays above any small spawn counter, so no
    // pill spawns during the tick
    TickRolls {
        spawn: 9999,
        kind: 0,
        pill_x: 0,
        pill_y: 0,
        enemy_x: 0,
        enemy_y: 0,
        turns: vec![false; turns],
    }
}

#[test]
fn game_waits_for_the_first_input() {
    let mut g = SnekGame::new();
    let head_before = g.snek.path().points()[1];
    g.update_core(&KeyState::new(), &quiet_rolls(1));
    assert!(!g.ready);
    assert_eq!(g.frame_number, 1);
    assert_eq!(g.snek.path().points()[1], head_before);
    g.update_core(&up_key(), &quiet_rolls(1));
    assert!(g.ready);
    assert_eq!(g.snek.path().points()[1], pt(24000, 18000 - 120));
}

#[test]
fn spawn_enemy_pill_adds_one_rival_and_consumes_the_pill() {
    let mut g = SnekGame::new();
    assert_eq!(g.mode, GameMode::Extended);
    g.pills.push(Pill::new(PillType::SpawnEnemySnek, 24000, 18000));
    let mut control = SnekGame::new();
    let ks = up_key();
    g.update_core(&ks, &quiet_rolls(2));
    control.update_core(&ks, &quiet_rolls(2));
    // exactly one rival appeared and the pill is gone
    assert_eq!(g.enemy_sneks.len(), 1);
    assert_eq!(g.pills.len(), 0);
    // the player's speed and path are exactly as without the pill
    assert_eq!(g.snek.speed(), control.snek.speed());
    assert_eq!(
        g.snek.path().points().as_slice(),
        control.snek.path().points().as_slice(),
    );
    // the rival spawned at the arena-interior point the rolls map to,
    // facing up, and moved its first tick's distance already
    let rival = g.enemy_sneks[0].get();
    assert!(g.enemy_sneks[0].alive);
    assert_eq!(rival.direction(), Direction::Up);
    assert_eq!(rival.speed(), 2400);
    assert_eq!(
        rival.path().points().as_slice(),
        &[pt(18600, 13800 - 76), pt(18600, 12600 - 80)],
    );
}

#[test]
fn expand_pill_widens_the_arena_with_clamp() {
    let mut g = SnekGame::new();
    g.pills.push(Pill::new(PillType::ExpandBoundary, 24000, 18000));
    let before = g.boundary.rect();
    g.update_core(&up_key(), &quiet_rolls(1));
    let after = g.boundary.rect();
    assert_eq!(g.pills.len(), 0);
    assert_eq!(after.width, before.width + 600);
    assert_eq!(after.height, before.height + 600);
    assert_eq!(after.x, before.x - 300);
    assert_eq!(after.y, before.y - 300);
}

#[test]
fn repeated_expansion_clamps_at_the_canvas_margin() {
    let mut b = snek::entity::Boundary::new();
    let mut i = 0;
    while i < 100 {
        b.expand();
        i += 1;
    }
    let r = b.rect();
    assert_eq!(r.x, 300);
    assert_eq!(r.y, 300);
    assert_eq!(r.width, 800 * 60 - 600);
    assert_eq!(r.height, 600 * 60 - 600);
}

#[test]
fn shorten_pill_trims_the_player() {
    let mut g = SnekGame::new();
    g.pills.push(Pill::new(PillType::ShortenSnek, 24000, 18000));
    g.update_core(&up_key(), &quiet_rolls(1));
    // 10% of 1200 trimmed, then the tick's own advance and trim
    assert_eq!(g.snek.path().total_length(), 1080 + 120 - 114);
}

#[test]
fn speed_pill_raises_the_player_speed() {
    let mut g = SnekGame::new();
    g.pills.push(Pill::new(PillType::IncreaseSpeed, 24000, 18000));
    g.update_core(&up_key(), &quiet_rolls(1));
    assert_eq!(g.pills.len(), 0);
    assert_eq!(g.snek.speed(), 3600 + 300);
    // the faster speed applied to this very tick's move
    assert_eq!(g.snek.path().points()[1], pt(24000, 18000 - 130));
}

#[test]
fn pill_spawns_when_the_roll_lands_under_the_counter() {
    let mut g = SnekGame::new();
    g.frames_since_pill_spawn = 20000;
    let rolls = TickRolls {
        spawn: 5,
        kind: 2,
        pill_x: 100,
        pill_y: 40,
        enemy_x: 0,
        enemy_y: 0,
        turns: vec![false],
    };
    g.update_core(&up_key(), &rolls);
    assert_eq!(g.pills.len(), 1);
    assert_eq!(g.frames_since_pill_spawn, 0);
    assert_eq!(g.pills[0].pill_type, PillType::SpawnEnemySnek);
    assert_eq!(g.pills[0].position, pt(18000 + 600 + 100, 12000 + 600 + 40));
}

#[test]
fn no_spawn_while_the_roll_stays_above_the_counter() {
    let mut g = SnekGame::new();
    g.frames_since_pill_spawn = 50;
    g.update_core(&up_key(), &quiet_rolls(1));
    assert_eq!(g.pills.len(), 0);
    assert_eq!(g.frames_since_pill_spawn, 51);
}

#[test]
fn kind_selection_is_uniform_over_the_mode_set() {
    assert_eq!(kind_for_roll(GameMode::Extended, 0), PillType::ExpandBoundary);
    assert_eq!(kind_for_roll(GameMode::Extended, 1), PillType::ShortenSnek);
    assert_eq!(kind_for_roll(GameMode::Extended, 2), PillType::SpawnEnemySnek);
    assert_eq!(kind_for_roll(GameMode::Extended, 3), PillType::IncreaseSpeed);
    assert_eq!(kind_for_roll(GameMode::Extended, 7), PillType::IncreaseSpeed);
    assert_eq!(kind_for_roll(GameMode::Minimal, 0), PillType::ExpandBoundary);
    assert_eq!(kind_for_roll(GameMode::Minimal, 1), PillType::ShortenSnek);
    assert_eq!(kind_for_roll(GameMode::Minimal, 2), PillType::ExpandBoundary);
}

#[test]
fn reaching_the_exit_wins_even_on_the_wall() {
    let mut g = SnekGame::new();
    g.snek = Snek::new("white".to_owned(), 3600, pt(47400, 18000), Direction::Up);
    assert_eq!(g.player_collision(), Some(Contact::Exit));
    g.update_core(&up_key(), &quiet_rolls(1));
    assert!(g.game_over);
    assert!(g.win);
}

#[test]
fn self_collision_ends_the_game_without_a_win() {
    let mut g = SnekGame::new();
    g.snek = Snek {
        color: "white".to_owned(),
        speed: 3600,
        path: Path::from_points(vec![
            pt(24000, 18000),
            pt(25200, 18000),
            pt(25200, 19200),
            pt(24000, 19200),
            pt(24000, 18060),
        ]),
        direction: Direction::Up,
    };
    assert_eq!(g.player_collision(), Some(Contact::Deadly));
    let head = g.snek.path().points()[4];
    g.update_core(&up_key(), &quiet_rolls(1));
    assert!(g.game_over);
    assert!(!g.win);
    // a finished tick moves nothing
    assert_eq!(g.snek.path().points()[4], head);
}

#[test]
fn leaving_the_arena_ends_the_game() {
    let mut g = SnekGame::new();
    g.snek = Snek::new("white".to_owned(), 3600, pt(18600, 18000), Direction::Up);
    g.update_core(&up_key(), &quiet_rolls(1));
    assert!(g.game_over);
    assert!(!g.win);
}

#[test]
fn game_over_is_terminal() {
    let mut g = SnekGame::new();
    g.snek = Snek::new("white".to_owned(), 3600, pt(18600, 18000), Direction::Up);
    g.update_core(&up_key(), &quiet_rolls(1));
    assert!(g.game_over);
    // a tick on a finished game mutates nothing, counters included
    let frames = g.frame_number;
    let since_spawn = g.frames_since_pill_spawn;
    let ready = g.ready;
    let head = g.snek.path().points()[1];
    let pills = g.pills.len();
    let rivals = g.enemy_sneks.len();
    g.update_core(&up_key(), &quiet_rolls(1));
    assert!(g.game_over);
    assert!(!g.win);
    assert_eq!(g.frame_number, frames);
    assert_eq!(g.frames_since_pill_spawn, since_spawn);
    assert_eq!(g.ready, ready);
    assert_eq!(g.snek.path().points()[1], head);
    assert_eq!(g.pills.len(), pills);
    assert_eq!(g.enemy_sneks.len(), rivals);
}

#[test]
fn a_rival_that_hits_the_wall_dies_and_freezes() {
    let mut g = SnekGame::new();
    g.enemy_sneks.push(snek::entity::AiSnek::new(
        "red".to_owned(),
        2400,
        pt(18600, 18000),
        Direction::Up,
    ));
    g.update_core(&up_key(), &quiet_rolls(2));
    assert!(!g.enemy_sneks[0].alive);
    let head = g.enemy_sneks[0].get().path().points()[1];
    g.update_core(&up_key(), &quiet_rolls(2));
    // the dead rival's body stays exactly where it was
    assert_eq!(g.enemy_sneks[0].get().path().points()[1], head);
    assert!(!g.game_over);
}

#[test]
fn a_rival_turns_at_the_interval() {
    let mut a = snek::entity::AiSnek::new("red".to_owned(), 2400, pt(24000, 18000), Direction::Up);
    a.frames_since_turn = 48;
    a.step(true);
    assert_eq!(a.frames_since_turn, 49);
    assert_eq!(a.get().direction(), Direction::Up);
    a.step(true);
    assert_eq!(a.frames_since_turn, 0);
    assert_eq!(a.get().direction(), Direction::Left);
    assert_eq!(a.get().path().points().len(), 3);
    a.step(false);
    assert_eq!(a.get().direction(), Direction::Left);
}

#[test]
fn random_point_lands_in_the_margin_inset_interior() {
    let b = snek::entity::Boundary::new();
    let r = b.rect();
    let mut i = 0;
    while i < 50 {
        let p = b.random_point();
        assert!(r.x + 600 <= p.x && p.x < r.x + r.width - 600);
        assert!(r.y + 600 <= p.y && p.y < r.y + r.height - 600);
        i += 1;
    }
}

#[test]
fn update_draws_its_own_randomness() {
    let mut g = SnekGame::new();
    let mut i = 0;
    while i < 200 {
        assert!(g.can_step());
        g.update(&up_key());
        i += 1;
    }
    // heading straight up, the player reaches the top wall well within
    // 200 ticks, whatever was drawn; the counters freeze there
    assert!(g.ready);
    assert!(g.game_over);
    assert!(!g.win);
    assert!(0 < g.frame_number && g.frame_number < 200);
}
