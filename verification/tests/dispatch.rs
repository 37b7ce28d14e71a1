use snek::collision::Collision;
use snek::entity::{AiSnek, Boundary, Exit, Snek};
use snek::game::SnekGame;
use snek::geometry::{Direction, Point2d};
use snek::input::{Key, KeyState};
use snek::path::Path;
use snek::pill::{GameMode, Pill, PillType};

fn pt(x: i64, y: i64) -> Point2d {
    Point2d { x, y }
}

#[test]
fn trait_dispatch_agrees_with_each_target() {
    let looped = Snek {
        color: "white".to_owned(),
        speed: 3600,
        path: Path::from_points(vec![
            pt(0, 0),
            pt(1200, 0),
            pt(1200, 1200),
            pt(0, 1200),
            pt(0, 60),
        ]),
        direction: Direction::Up,
    };
    assert!(looped.colliding(&()));

    let centered = Snek::new("white".to_owned(), 3600, pt(24000, 18000), Direction::Up);
    assert!(!centered.colliding(&()));
    assert!(!centered.colliding(&Boundary::new()));
    assert!(!centered.colliding(&Exit::new()));

    let walled = Snek::new("white".to_owned(), 3600, pt(18600, 18000), Direction::Up);
    assert!(walled.colliding(&Boundary::new()));

    let rival = Snek::new("red".to_owned(), 2400, pt(24100, 17000), Direction::Up);
    assert!(centered.colliding(&rival));

    let pills = vec![
        Pill::new(PillType::ShortenSnek, 0, 0),
        Pill::new(PillType::ExpandBoundary, 24000, 18000),
    ];
    assert_eq!(centered.colliding(&pills), Some(1));
    let empty: Vec<Pill> = Vec::new();
    assert_eq!(centered.colliding(&empty), None);
}

#[test]
fn minimal_mode_only_spawns_two_kinds() {
    let mut g = SnekGame::with_mode(GameMode::Minimal);
    assert_eq!(g.mode, GameMode::Minimal);
    g.frames_since_pill_spawn = 20000;
    let mut ks = KeyState::new();
    ks.set_key_pressed(Key::Up, true);
    let rolls = snek::game::TickRolls {
        spawn: 0,
        kind: 2,
        pill_x: 0,
        pill_y: 0,
        enemy_x: 0,
        enemy_y: 0,
        turns: vec![false],
    };
    g.update_core(&ks, &rolls);
    // roll 2 maps to the first of the two minimal kinds, never a rival
    assert_eq!(g.pills.len(), 1);
    assert_eq!(g.pills[0].pill_type, PillType::ExpandBoundary);
}

#[test]
fn a_dead_rival_never_moves_again() {
    let mut a = AiSnek::new("red".to_owned(), 2400, pt(24000, 18000), Direction::Up);
    a.die();
    assert!(!a.alive);
    let before = a.get().path().points().clone();
    a.update();
    a.step(true);
    assert_eq!(a.get().path().points().as_slice(), before.as_slice());
}

#[test]
fn a_live_rival_update_moves_one_tick() {
    let mut a = AiSnek::new("red".to_owned(), 2400, pt(24000, 18000), Direction::Up);
    a.update();
    // no turn this early, whatever the coin said: straight up by 80,
    // trimmed 76 at the tail
    assert_eq!(a.get().direction(), Direction::Up);
    assert_eq!(
        a.get().path().points().as_slice(),
        &[pt(24000, 19200 - 76), pt(24000, 18000 - 80)],
    );
}
