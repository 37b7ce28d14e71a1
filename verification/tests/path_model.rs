use snek::constants::{MAX_SPEED, SCALE};
use snek::geometry::{Direction, Point2d, Rect};
use snek::input::{direction, Key, KeyState};
use snek::entity::Snek;
use snek::path::Path;

fn pt(x: i64, y: i64) -> Point2d {
    Point2d { x, y }
}

#[test]
fn total_length_sums_segments() {
    let p = Path::from_points(vec![pt(0, 0), pt(1000, 0), pt(1000, 500), pt(900, 500)]);
    assert_eq!(p.total_length(), 1600);
}

#[test]
fn advance_straight_grows_head_segment() {
    let mut p = Path::from_points(vec![pt(0, 0), pt(1000, 0)]);
    let dir = p.advance(Direction::Right, None, 50);
    assert_eq!(dir, Direction::Right);
    assert_eq!(p.points().as_slice(), &[pt(0, 0), pt(1050, 0)]);
    assert_eq!(p.total_length(), 1050);
}

#[test]
fn advance_perpendicular_opens_new_segment() {
    let mut p = Path::from_points(vec![pt(0, 0), pt(1000, 0)]);
    let dir = p.advance(Direction::Right, Some(Direction::Up), 70);
    assert_eq!(dir, Direction::Up);
    assert_eq!(p.points().as_slice(), &[pt(0, 0), pt(1000, 0), pt(1000, -70)]);
    assert_eq!(p.total_length(), 1070);
}

#[test]
fn advance_ignores_reversal_and_same_direction() {
    let mut p = Path::from_points(vec![pt(0, 0), pt(1000, 0)]);
    let dir = p.advance(Direction::Right, Some(Direction::Left), 10);
    assert_eq!(dir, Direction::Right);
    assert_eq!(p.points().len(), 2);
    let dir = p.advance(Direction::Right, Some(Direction::Right), 10);
    assert_eq!(dir, Direction::Right);
    assert_eq!(p.points().as_slice(), &[pt(0, 0), pt(1020, 0)]);
}

#[test]
fn trim_tail_shifts_oldest_point() {
    let mut p = Path::from_points(vec![pt(0, 0), pt(100, 0)]);
    p.trim_tail(99);
    assert_eq!(p.points().as_slice(), &[pt(99, 0), pt(100, 0)]);
    assert_eq!(p.total_length(), 1);
}

#[test]
fn trim_tail_rolls_over_whole_segments() {
    let mut p = Path::from_points(vec![pt(0, 0), pt(100, 0), pt(100, 50)]);
    p.trim_tail(120);
    assert_eq!(p.points().as_slice(), &[pt(100, 20), pt(100, 50)]);
    assert_eq!(p.total_length(), 30);
}

#[test]
fn trim_tail_keeps_two_points_near_the_limit() {
    // amount one short of the whole length: still two points, length 1
    let mut p = Path::from_points(vec![pt(0, 0), pt(40, 0), pt(40, 40), pt(0, 40)]);
    p.trim_tail(119);
    assert_eq!(p.points().len(), 2);
    assert_eq!(p.total_length(), 1);
}

#[test]
fn advance_then_trim_grows_by_the_difference() {
    // one full cycle with trim factor below one: net growth is exact
    let mut p = Path::from_points(vec![pt(0, 0), pt(1000, 0)]);
    p.advance(Direction::Right, None, 100);
    p.trim_tail(95);
    assert_eq!(p.total_length(), 1005);
    assert_eq!(p.points().as_slice(), &[pt(95, 0), pt(1100, 0)]);
}

#[test]
fn shorten_by_fraction_trims_the_tail() {
    let mut p = Path::from_points(vec![pt(0, 0), pt(1200, 0)]);
    p.shorten_by_fraction(1, 10);
    assert_eq!(p.total_length(), 1080);
    assert_eq!(p.points().as_slice(), &[pt(120, 0), pt(1200, 0)]);
}

#[test]
fn player_tick_matches_the_stock_figures() {
    // head at (400, 300) canvas units, speed 60 units/s, tick 1/30 s:
    // the head moves 2 units, the tail trims 1.9, net growth 0.1
    let mut s = Snek::new(
        "white".to_owned(),
        60 * SCALE,
        Point2d { x: 400 * SCALE, y: 300 * SCALE },
        Direction::Up,
    );
    assert_eq!(
        s.path().points().as_slice(),
        &[pt(400 * SCALE, 320 * SCALE), pt(400 * SCALE, 300 * SCALE)],
    );
    assert_eq!(s.path().total_length(), 20 * SCALE);
    let ks = KeyState::new();
    s.update(&ks);
    assert_eq!(
        s.path().points().as_slice(),
        &[pt(24000, 19200 - 114), pt(24000, 18000 - 120)],
    );
    assert_eq!(s.path().total_length(), 1206);
}

#[test]
fn player_turns_only_on_perpendicular_input() {
    let mut s = Snek::new("white".to_owned(), 3600, pt(24000, 18000), Direction::Up);
    let mut ks = KeyState::new();
    ks.set_key_pressed(Key::Down, true);
    s.update(&ks);
    // a reversal is ignored: still moving up
    assert_eq!(s.direction(), Direction::Up);
    assert_eq!(s.path().points().len(), 2);
    let mut ks = KeyState::new();
    ks.set_key_pressed(Key::Left, true);
    s.update(&ks);
    assert_eq!(s.direction(), Direction::Left);
    assert_eq!(s.path().points().len(), 3);
}

#[test]
fn key_priority_up_beats_all() {
    let ks = KeyState { up: true, down: true, left: true, right: true };
    assert_eq!(direction(&ks), Some(Direction::Up));
    let ks = KeyState { up: false, down: true, left: true, right: true };
    assert_eq!(direction(&ks), Some(Direction::Down));
    let ks = KeyState { up: false, down: false, left: true, right: true };
    assert_eq!(direction(&ks), Some(Direction::Left));
    let ks = KeyState { up: false, down: false, left: false, right: true };
    assert_eq!(direction(&ks), Some(Direction::Right));
    assert_eq!(direction(&KeyState::new()), None);
}

#[test]
fn key_state_records_presses() {
    let mut ks = KeyState::new();
    assert!(!ks.is_pressed(Key::Up));
    ks.set_key_pressed(Key::Up, true);
    assert!(ks.is_pressed(Key::Up));
    assert!(!ks.is_pressed(Key::Other));
    ks.set_key_pressed(Key::Other, true);
    assert!(!ks.is_pressed(Key::Other));
    ks.set_key_pressed(Key::Up, false);
    assert!(!ks.is_pressed(Key::Up));
}

#[test]
fn rect_containment_is_strictly_open() {
    let r = Rect::new(10, 20, 30, 40);
    // points exactly on each edge are out
    assert!(!r.contains(&pt(10, 25)));
    assert!(!r.contains(&pt(40, 25)));
    assert!(!r.contains(&pt(25, 20)));
    assert!(!r.contains(&pt(25, 60)));
    // one unit inside every edge is in
    assert!(r.contains(&pt(11, 21)));
    assert!(r.contains(&pt(39, 59)));
    // well outside is out
    assert!(!r.contains(&pt(0, 0)));
}

#[test]
fn increase_speed_saturates_at_the_cap() {
    let mut s = Snek::new("white".to_owned(), MAX_SPEED - 100, pt(24000, 18000), Direction::Up);
    s.increase_speed(300);
    assert_eq!(s.speed(), MAX_SPEED);
    let mut s = Snek::new("white".to_owned(), 3600, pt(24000, 18000), Direction::Up);
    s.increase_speed(300);
    assert_eq!(s.speed(), 3900);
}

#[test]
fn shorten_keeps_the_head_in_place() {
    let mut s = Snek::new("white".to_owned(), 3600, pt(24000, 18000), Direction::Up);
    s.shorten(1, 10);
    assert_eq!(
        s.path().points().as_slice(),
        &[pt(24000, 19200 - 120), pt(24000, 18000)],
    );
    assert_eq!(s.path().total_length(), 1080);
}
