use snek::entity::{Boundary, Exit, Snek};
use snek::geometry::{Direction, Point2d};
use snek::path::Path;
use snek::pill::{Pill, PillType};
use snek::collision::{
    actor_collision, boundary_collision, exit_collision, pill_collision, self_collision,
};

fn pt(x: i64, y: i64) -> Point2d {
    Point2d { x, y }
}

fn snek_on(points: Vec<Point2d>, direction: Direction) -> Snek {
    Snek { color: "white".to_owned(), speed: 3600, path: Path::from_points(points), direction }
}

#[test]
fn straight_body_never_self_collides() {
    // an unturned body has no segments in the test window, however long
    let s = snek_on(vec![pt(0, 0), pt(90000, 0)], Direction::Right);
    assert!(!self_collision(&s));
    let s = snek_on(vec![pt(5000, 90000), pt(5000, 100)], Direction::Up);
    assert!(!self_collision(&s));
}

#[test]
fn tight_loop_self_collides() {
    // the head has come back over the first, oldest segment
    let s = snek_on(
        vec![pt(0, 0), pt(1200, 0), pt(1200, 1200), pt(0, 1200), pt(0, 60)],
        Direction::Up,
    );
    assert!(self_collision(&s));
}

#[test]
fn wide_loop_does_not_self_collide() {
    // same shape, but the head stays clear of the thickened segments
    let s = snek_on(
        vec![pt(0, 0), pt(2400, 0), pt(2400, 2400), pt(0, 2400), pt(0, 1400)],
        Direction::Up,
    );
    assert!(!self_collision(&s));
}

#[test]
fn rival_body_is_hit_with_no_window_exclusion() {
    let me = snek_on(vec![pt(600, 2000), pt(600, 100)], Direction::Up);
    // the rival's only segment runs right under my head probes
    let rival = snek_on(vec![pt(-1000, 0), pt(1000, 0)], Direction::Right);
    assert!(actor_collision(&me, &rival));
    let far = snek_on(vec![pt(-1000, 5000), pt(1000, 5000)], Direction::Right);
    assert!(!actor_collision(&me, &far));
}

#[test]
fn boundary_collision_is_open_at_the_inset() {
    let arena = Boundary::new().rect();
    // head in the middle: both probes well clear of every edge
    let s = Snek::new("white".to_owned(), 3600, pt(24000, 18000), Direction::Up);
    assert!(!boundary_collision(&s, arena));
    // head exactly on the inset rectangle's left edge: collides
    let s = Snek::new("white".to_owned(), 3600, pt(18600, 18000), Direction::Up);
    assert!(boundary_collision(&s, arena));
    // one unit further in: clear
    let s = Snek::new("white".to_owned(), 3600, pt(18601, 18000), Direction::Up);
    assert!(!boundary_collision(&s, arena));
}

#[test]
fn pill_collision_takes_the_first_match_in_list_order() {
    let s = Snek::new("white".to_owned(), 3600, pt(24000, 18000), Direction::Up);
    let far = Pill::new(PillType::ShortenSnek, 0, 0);
    let near_a = Pill::new(PillType::ExpandBoundary, 24100, 18000);
    let near_b = Pill::new(PillType::IncreaseSpeed, 23900, 18000);
    let pills = vec![far, near_a, near_b];
    assert_eq!(pill_collision(&s, &pills), Some(1));
    let pills = vec![Pill::new(PillType::ShortenSnek, 0, 0)];
    assert_eq!(pill_collision(&s, &pills), None);
}

#[test]
fn pill_pickup_region_is_an_open_circle() {
    let pill = Pill::new(PillType::ExpandBoundary, 1000, 1000);
    let s = |x: i64, y: i64| Snek::new("white".to_owned(), 3600, pt(x, y), Direction::Up);
    // head exactly on the rim (radius 300): not picked up by the head,
    // but the probe at head.x - 300 reaches the pill's center
    assert_eq!(pill_collision(&s(1300, 1000), &vec![pill]), Some(0));
    // head well over a diameter away, probes clear too
    assert_eq!(pill_collision(&s(1700, 1000), &vec![pill]), None);
    // head strictly inside
    assert_eq!(pill_collision(&s(1299, 1000), &vec![pill]), Some(0));
}

#[test]
fn exit_collision_uses_the_hatch_rectangle() {
    let e = Exit::new();
    let inside = Snek::new("white".to_owned(), 3600, pt(47400, 18000), Direction::Up);
    assert!(exit_collision(&inside, &e));
    let outside = Snek::new("white".to_owned(), 3600, pt(24000, 18000), Direction::Up);
    assert!(!exit_collision(&outside, &e));
}
