//! Geometry primitives: points, axis-aligned rectangles with an *open*
//! containment test, and the four movement directions.

use vstd::prelude::*;
use crate::constants::COORD_LIMIT;

verus! {

/// The absolute value of a coordinate difference.
pub open spec fn abs_val(x: int) -> int {
    if x < 0 {
        -x
    } else {
        x
    }
}

/// A point of the arena, in fixed-point subunits.
#[derive(Clone, Copy, Debug, PartialEq, Eq, Structural)]
pub struct Point2d {
    pub x: i64,
    pub y: i64,
}

impl Point2d {
    /// The point lies inside the coordinate range every simulation value
    /// keeps to, so collision arithmetic on it cannot overflow.
    pub open spec fn in_range(self) -> bool {
        -COORD_LIMIT <= self.x <= COORD_LIMIT && -COORD_LIMIT <= self.y <= COORD_LIMIT
    }
}

/// An axis-aligned rectangle: corner plus nonnegative extent.
#[derive(Clone, Copy, Debug, PartialEq, Eq, Structural)]
pub struct Rect {
    pub x: i64,
    pub y: i64,
    pub width: i64,
    pub height: i64,
}

/// Open containment: points exactly on an edge are *not* contained.  The
/// collision engine leans on this: a head exactly on a wall counts as
/// colliding.
pub open spec fn spec_contains(r: Rect, p: Point2d) -> bool {
    r.x < p.x < r.x + r.width && r.y < p.y < r.y + r.height
}

impl Rect {
    pub fn new(x: i64, y: i64, width: i64, height: i64) -> (r: Rect)
        ensures
            r == (Rect { x, y, width, height }),
    {
        Rect { x, y, width, height }
    }

    /// Strictly open containment test.
    pub fn contains(&self, p: &Point2d) -> (c: bool)
        requires
            i64::MIN <= self.x + self.width <= i64::MAX,
            i64::MIN <= self.y + self.height <= i64::MAX,
        ensures
            c == spec_contains(*self, *p),
    {
        p.x > self.x && p.x < self.x + self.width && p.y > self.y && p.y < self.y + self.height
    }
}

/// A rectangle whose edge points all lie strictly between its corner
/// coordinates is never entered by the open test: any point is either on
/// an edge (excluded by openness) or off the rectangle entirely.
///
/// Stated concretely: a point on any of the four edges is not contained,
/// and a point one subunit inside every edge is contained (when the
/// rectangle is at least two subunits wide and tall).
pub proof fn lemma_contains_open(r: Rect, p: Point2d)
    ensures
        p.x == r.x || p.x == r.x + r.width || p.y == r.y || p.y == r.y + r.height
            ==> !spec_contains(r, p),
        r.width >= 2 && r.height >= 2 && p.x == r.x + 1 && p.y == r.y + 1
            ==> spec_contains(r, p),
        r.width >= 2 && r.height >= 2 && p.x == r.x + r.width - 1 && p.y == r.y + r.height - 1
            ==> spec_contains(r, p),
{
}

/// A movement direction; paths only ever run parallel to an axis.
#[derive(Clone, Copy, Debug, PartialEq, Eq, Structural)]
pub enum Direction {
    Left,
    Right,
    Up,
    Down,
}

impl Direction {
    /// Left/Right run along the x axis; Up/Down along the y axis.
    pub open spec fn is_horizontal(self) -> bool {
        self is Left || self is Right
    }

    /// The direction pairs (Up, Down) and (Left, Right) reverse each other.
    pub open spec fn is_reversal_of(self, other: Direction) -> bool {
        (self is Up && other is Down) || (self is Down && other is Up)
            || (self is Left && other is Right) || (self is Right && other is Left)
    }

    /// Perpendicular directions are the only accepted turns: a request to
    /// keep going or to reverse is ignored.
    pub open spec fn is_perpendicular_to(self, other: Direction) -> bool {
        self.is_horizontal() != other.is_horizontal()
    }

    /// Executable axis test.
    pub fn horizontal(self) -> (r: bool)
        ensures
            r == self.is_horizontal(),
    {
        matches!(self, Direction::Left | Direction::Right)
    }

    /// Executable perpendicularity test.
    pub fn perpendicular_to(self, other: Direction) -> (r: bool)
        ensures
            r == self.is_perpendicular_to(other),
    {
        self.horizontal() != other.horizontal()
    }
}

/// The point one `distance` step from `p` along `d`.
pub open spec fn spec_step(p: Point2d, d: Direction, distance: int) -> Point2d {
    match d {
        Direction::Up => Point2d { x: p.x, y: (p.y - distance) as i64 },
        Direction::Down => Point2d { x: p.x, y: (p.y + distance) as i64 },
        Direction::Left => Point2d { x: (p.x - distance) as i64, y: p.y },
        Direction::Right => Point2d { x: (p.x + distance) as i64, y: p.y },
    }
}

/// Executable step along a direction.
pub fn step_point(p: Point2d, d: Direction, distance: i64) -> (q: Point2d)
    requires
        0 <= distance,
        i64::MIN <= p.x - distance,
        p.x + distance <= i64::MAX,
        i64::MIN <= p.y - distance,
        p.y + distance <= i64::MAX,
    ensures
        q == spec_step(p, d, distance as int),
{
    match d {
        Direction::Up => Point2d { x: p.x, y: p.y - distance },
        Direction::Down => Point2d { x: p.x, y: p.y + distance },
        Direction::Left => Point2d { x: p.x - distance, y: p.y },
        Direction::Right => Point2d { x: p.x + distance, y: p.y },
    }
}

} // verus!
