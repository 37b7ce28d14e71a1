//! The moving and mutable entities: the player-controlled snake, the
//! arena boundary, the autonomous rival snake, and the exit hatch.

use vstd::prelude::*;
use crate::constants::{
    ARENA_START_H, ARENA_START_W, ARENA_START_X, ARENA_START_Y, CANVAS_HEIGHT, CANVAS_WIDTH,
    CLAMP_MARGIN, COORD_LIMIT, EXIT_H, EXIT_W, EXIT_X, EXIT_Y, EXPAND_STEP, FRAMES_PER_SEC,
    MAX_SPEED, MAX_STEP, MAX_TOTAL, SPAWN_MARGIN, TAIL_OFFSET, TRIM_DEN, TRIM_NUM, TURN_INTERVAL,
};
use crate::geometry::{spec_step, Direction, Point2d, Rect};
use crate::input::{direction, spec_direction, KeyState};
use crate::path::{
    last_oriented, seg_len, spec_accept, spec_advance, spec_trim, step_clear, total_of, wf_points,
    Path,
};

verus! {

/// Distance an actor covers in one tick: its speed (subunits per second)
/// over the tick rate.
pub open spec fn spec_tick_distance(speed: int) -> int {
    speed / (FRAMES_PER_SEC as int)
}

/// Per-tick tail trim: slightly less than the distance advanced, so the
/// body slowly lengthens.
pub open spec fn spec_trim_amount(distance: int) -> int {
    distance * (TRIM_NUM as int) / (TRIM_DEN as int)
}

/// Executable per-tick distance.
pub fn tick_distance(speed: i64) -> (d: i64)
    requires
        0 <= speed <= MAX_SPEED,
    ensures
        d == spec_tick_distance(speed as int),
        0 <= d <= MAX_STEP,
{
    speed / FRAMES_PER_SEC
}

/// Executable per-tick trim amount.
pub fn trim_amount(distance: i64) -> (t: i64)
    requires
        0 <= distance <= MAX_STEP,
    ensures
        t == spec_trim_amount(distance as int),
        0 <= t <= distance,
        distance > 0 ==> t < distance,
{
    distance * TRIM_NUM / TRIM_DEN
}

/// An actor's body with its motion state: current direction, speed, and
/// a color naming the actor to the renderer.
pub struct Snek {
    pub color: String,
    /// Subunits per second.
    pub speed: i64,
    pub path: Path,
    pub direction: Direction,
}

impl Snek {
    /// A live snake: well-formed positive-length body whose head segment
    /// points along the current direction, speed within the cap.
    pub open spec fn wf(self) -> bool {
        &&& self.path.wf()
        &&& self.path.oriented(self.direction)
        &&& self.path.total() > 0
        &&& 0 <= self.speed <= MAX_SPEED
    }

    /// The two-point body a new snake starts with: the head at
    /// `position`, the tail `TAIL_OFFSET` behind it, against the travel
    /// direction.
    pub open spec fn spec_initial_points(position: Point2d, dir: Direction) -> Seq<Point2d> {
        seq![spec_step(position, dir, -(TAIL_OFFSET as int)), position]
    }

    pub fn new(color: String, speed: i64, position: Point2d, direction: Direction) -> (s: Snek)
        requires
            0 <= speed <= MAX_SPEED,
            -COORD_LIMIT + TAIL_OFFSET <= position.x <= COORD_LIMIT - TAIL_OFFSET,
            -COORD_LIMIT + TAIL_OFFSET <= position.y <= COORD_LIMIT - TAIL_OFFSET,
        ensures
            s.wf(),
            s.color == color,
            s.speed == speed,
            s.direction == direction,
            s.path@ == Self::spec_initial_points(position, direction),
            s.path.total() == TAIL_OFFSET,
    {
        let tail = match direction {
            Direction::Up => Point2d { x: position.x, y: position.y + TAIL_OFFSET },
            Direction::Down => Point2d { x: position.x, y: position.y - TAIL_OFFSET },
            Direction::Left => Point2d { x: position.x + TAIL_OFFSET, y: position.y },
            Direction::Right => Point2d { x: position.x - TAIL_OFFSET, y: position.y },
        };
        let mut points: Vec<Point2d> = Vec::new();
        points.push(tail);
        points.push(position);
        proof {
            assert(points@ =~= Self::spec_initial_points(position, direction));
            assert(total_of(points@) == seg_len(tail, position) + total_of(
                points@.subrange(1, 2),
            ));
        }
        let path = Path::from_points(points);
        Snek { color, speed, path, direction }
    }

    /// The body's turn points.
    pub fn path(&self) -> (p: &Path)
        ensures
            p == &self.path,
    {
        &self.path
    }

    /// The current travel direction.
    pub fn direction(&self) -> (d: Direction)
        ensures
            d == self.direction,
    {
        self.direction
    }

    /// The current speed, in subunits per second.
    pub fn speed(&self) -> (s: i64)
        ensures
            s == self.speed,
    {
        self.speed
    }

    /// One simulation tick: resolve the held keys to a turn request
    /// (perpendicular requests turn, straight-on and reversing ones are
    /// ignored), advance the head one tick's distance, then trim slightly
    /// less off the tail.
    pub fn update(&mut self, key_state: &KeyState)
        requires
            old(self).wf(),
            step_clear(old(self).path.spec_head()),
            old(self).path.total() + MAX_STEP <= MAX_TOTAL,
        ensures
            final(self).wf(),
            final(self).color == old(self).color,
            final(self).speed == old(self).speed,
            ({
                let dist = spec_tick_distance(old(self).speed as int);
                let trim = spec_trim_amount(dist);
                let req = spec_direction(*key_state);
                let dir = spec_accept(old(self).direction, req);
                &&& final(self).direction == dir
                &&& final(self).path@ == spec_trim(
                    spec_advance(old(self).path@, old(self).direction, req, dist),
                    trim,
                )
                &&& final(self).path.total() == old(self).path.total() + dist - trim
                &&& dist > 0 ==> final(self).path.total() > old(self).path.total()
                &&& final(self).path.spec_head() == spec_step(
                    old(self).path.spec_head(),
                    dir,
                    dist,
                )
            }),
    {
        let req = direction(key_state);
        let dist = tick_distance(self.speed);
        let trim = trim_amount(dist);
        let dir = self.path.advance(self.direction, req, dist);
        self.direction = dir;
        self.path.trim_tail(trim);
    }

    /// Trims `num / den` of the body's current length off the tail — a
    /// pill effect.
    pub fn shorten(&mut self, num: i64, den: i64)
        requires
            old(self).wf(),
            0 <= num < den,
            den <= 10000,
        ensures
            final(self).wf(),
            final(self).color == old(self).color,
            final(self).speed == old(self).speed,
            final(self).direction == old(self).direction,
            final(self).path@ == spec_trim(
                old(self).path@,
                old(self).path.total() / den as int * num as int,
            ),
            final(self).path.total() == old(self).path.total() - old(self).path.total()
                / den as int * num as int,
            final(self).path.spec_head() == old(self).path.spec_head(),
    {
        self.path.shorten_by_fraction(num, den);
    }

    /// Raises the speed by `amount`, saturating at the cap that keeps
    /// per-tick distances in range.
    pub fn increase_speed(&mut self, amount: i64)
        requires
            old(self).wf(),
            0 <= amount,
        ensures
            final(self).wf(),
            final(self).speed == (if old(self).speed + amount <= MAX_SPEED {
                old(self).speed + amount
            } else {
                MAX_SPEED as int
            }),
            final(self).color == old(self).color,
            final(self).direction == old(self).direction,
            final(self).path == old(self).path,
    {
        if amount <= MAX_SPEED - self.speed {
            self.speed = self.speed + amount;
        } else {
            self.speed = MAX_SPEED;
        }
    }
}

/// A rectangle is a valid arena: it starts inside the canvas with room
/// to expand, is wide enough for margin-inset sampling, and expansion
/// keeps it inside the canvas.
pub open spec fn valid_arena(r: Rect) -> bool {
    &&& r.x >= EXPAND_STEP
    &&& r.y >= EXPAND_STEP
    &&& r.width >= ARENA_START_W
    &&& r.height >= ARENA_START_H
    &&& 2 * r.x + r.width <= CANVAS_WIDTH
    &&& 2 * r.y + r.height <= CANVAS_HEIGHT
}

/// What one expansion does: every side moves `EXPAND_STEP` outward, the
/// corner clamped at `EXPAND_STEP` from the canvas origin and each
/// dimension clamped at the canvas dimension minus `CLAMP_MARGIN`.
pub open spec fn spec_expand(r: Rect) -> Rect {
    Rect {
        x: if r.x - EXPAND_STEP > EXPAND_STEP {
            (r.x - EXPAND_STEP) as i64
        } else {
            EXPAND_STEP as i64
        },
        y: if r.y - EXPAND_STEP > EXPAND_STEP {
            (r.y - EXPAND_STEP) as i64
        } else {
            EXPAND_STEP as i64
        },
        width: if r.width + 2 * EXPAND_STEP < CANVAS_WIDTH - CLAMP_MARGIN {
            (r.width + 2 * EXPAND_STEP) as i64
        } else {
            (CANVAS_WIDTH - CLAMP_MARGIN) as i64
        },
        height: if r.height + 2 * EXPAND_STEP < CANVAS_HEIGHT - CLAMP_MARGIN {
            (r.height + 2 * EXPAND_STEP) as i64
        } else {
            (CANVAS_HEIGHT - CLAMP_MARGIN) as i64
        },
    }
}

/// Law: one expansion grows each dimension by exactly `2 * EXPAND_STEP`
/// (`EXPAND_STEP` per side) while the clamp allows, grows it strictly
/// whenever it is not yet at the clamp, and never takes it past the
/// canvas dimension minus `CLAMP_MARGIN`.
pub proof fn lemma_expand_clamped(r: Rect)
    requires
        valid_arena(r),
    ensures
        ({
            let e = spec_expand(r);
            &&& e.width <= CANVAS_WIDTH - CLAMP_MARGIN
            &&& e.height <= CANVAS_HEIGHT - CLAMP_MARGIN
            &&& r.width < CANVAS_WIDTH - CLAMP_MARGIN ==> e.width > r.width
            &&& r.height < CANVAS_HEIGHT - CLAMP_MARGIN ==> e.height > r.height
            &&& r.width + 2 * EXPAND_STEP <= CANVAS_WIDTH - CLAMP_MARGIN ==> e.width == r.width
                + 2 * EXPAND_STEP
            &&& r.height + 2 * EXPAND_STEP <= CANVAS_HEIGHT - CLAMP_MARGIN ==> e.height
                == r.height + 2 * EXPAND_STEP
        }),
{
}

/// The mutable arena rectangle.
pub struct Boundary {
    rect: Rect,
}

impl Boundary {
    /// The arena rectangle.
    pub closed spec fn spec_rect(self) -> Rect {
        self.rect
    }

    pub open spec fn wf(self) -> bool {
        valid_arena(self.spec_rect())
    }

    pub fn new() -> (b: Boundary)
        ensures
            b.wf(),
            b.spec_rect() == (Rect {
                x: ARENA_START_X,
                y: ARENA_START_Y,
                width: ARENA_START_W,
                height: ARENA_START_H,
            }),
    {
        Boundary {
            rect: Rect {
                x: ARENA_START_X,
                y: ARENA_START_Y,
                width: ARENA_START_W,
                height: ARENA_START_H,
            },
        }
    }

    pub fn rect(&self) -> (r: Rect)
        ensures
            r == self.spec_rect(),
    {
        self.rect
    }

    /// Grows the arena `EXPAND_STEP` outward on all four sides, clamped
    /// to the canvas bounds minus `CLAMP_MARGIN`.  A valid arena stays
    /// valid — in particular it stays inside the canvas.
    pub fn expand(&mut self)
        requires
            old(self).wf(),
        ensures
            final(self).wf(),
            final(self).spec_rect() == spec_expand(old(self).spec_rect()),
            final(self).spec_rect().width >= old(self).spec_rect().width,
            final(self).spec_rect().height >= old(self).spec_rect().height,
    {
        let r = self.rect;
        let x = if r.x - EXPAND_STEP > EXPAND_STEP {
            r.x - EXPAND_STEP
        } else {
            EXPAND_STEP
        };
        let y = if r.y - EXPAND_STEP > EXPAND_STEP {
            r.y - EXPAND_STEP
        } else {
            EXPAND_STEP
        };
        let width = if r.width + 2 * EXPAND_STEP < CANVAS_WIDTH - CLAMP_MARGIN {
            r.width + 2 * EXPAND_STEP
        } else {
            CANVAS_WIDTH - CLAMP_MARGIN
        };
        let height = if r.height + 2 * EXPAND_STEP < CANVAS_HEIGHT - CLAMP_MARGIN {
            r.height + 2 * EXPAND_STEP
        } else {
            CANVAS_HEIGHT - CLAMP_MARGIN
        };
        self.rect = Rect { x, y, width, height };
    }

    /// The margin-inset interior point that the draws `rx`, `ry` map to:
    /// each offset is the draw reduced modulo the inset span.
    pub open spec fn spec_interior_point(r: Rect, rx: u64, ry: u64) -> Point2d {
        Point2d {
            x: (r.x + SPAWN_MARGIN + (rx as int % (r.width - 2 * SPAWN_MARGIN))) as i64,
            y: (r.y + SPAWN_MARGIN + (ry as int % (r.height - 2 * SPAWN_MARGIN))) as i64,
        }
    }

    /// Maps two generator draws to a point of the arena's margin-inset
    /// interior: at least `SPAWN_MARGIN` inside every edge.
    pub fn interior_point(&self, rx: u64, ry: u64) -> (p: Point2d)
        requires
            self.wf(),
        ensures
            p == Self::spec_interior_point(self.spec_rect(), rx, ry),
            self.spec_rect().x + SPAWN_MARGIN <= p.x < self.spec_rect().x
                + self.spec_rect().width - SPAWN_MARGIN,
            self.spec_rect().y + SPAWN_MARGIN <= p.y < self.spec_rect().y
                + self.spec_rect().height - SPAWN_MARGIN,
            p.in_range(),
    {
        let span_x = (self.rect.width - 2 * SPAWN_MARGIN) as u64;
        let span_y = (self.rect.height - 2 * SPAWN_MARGIN) as u64;
        let off_x = (rx % span_x) as i64;
        let off_y = (ry % span_y) as i64;
        Point2d { x: self.rect.x + SPAWN_MARGIN + off_x, y: self.rect.y + SPAWN_MARGIN + off_y }
    }

    /// A uniform-random point of the arena's margin-inset interior: at
    /// least `SPAWN_MARGIN` inside every edge, whatever the generator
    /// returned.
    pub fn random_point(&self) -> (p: Point2d)
        requires
            self.wf(),
        ensures
            self.spec_rect().x + SPAWN_MARGIN <= p.x < self.spec_rect().x
                + self.spec_rect().width - SPAWN_MARGIN,
            self.spec_rect().y + SPAWN_MARGIN <= p.y < self.spec_rect().y
                + self.spec_rect().height - SPAWN_MARGIN,
            p.in_range(),
    {
        let rx = rand::random::<u64>();
        let ry = rand::random::<u64>();
        self.interior_point(rx, ry)
    }
}

/// The direction an autonomous snake turns to: a uniformly random
/// perpendicular of its current direction, picked by one coin flip.
pub open spec fn spec_ai_turn(d: Direction, choice: bool) -> Direction {
    if d.is_horizontal() {
        if choice {
            Direction::Up
        } else {
            Direction::Down
        }
    } else {
        if choice {
            Direction::Left
        } else {
            Direction::Right
        }
    }
}

/// An autonomous rival snake: a snake body plus a liveness flag and the
/// countdown to its next random turn.  A dead rival stops moving for
/// good; its body stays on the arena as a static obstacle.
pub struct AiSnek {
    pub snek: Snek,
    pub alive: bool,
    pub frames_since_turn: u8,
}

impl AiSnek {
    pub open spec fn wf(self) -> bool {
        &&& self.snek.wf()
        &&& self.frames_since_turn < TURN_INTERVAL
    }

    pub fn new(color: String, speed: i64, position: Point2d, direction: Direction) -> (a: AiSnek)
        requires
            0 <= speed <= MAX_SPEED,
            -COORD_LIMIT + TAIL_OFFSET <= position.x <= COORD_LIMIT - TAIL_OFFSET,
            -COORD_LIMIT + TAIL_OFFSET <= position.y <= COORD_LIMIT - TAIL_OFFSET,
        ensures
            a.wf(),
            a.alive,
            a.frames_since_turn == 0,
            a.snek.color == color,
            a.snek.speed == speed,
            a.snek.direction == direction,
            a.snek.path@ == Snek::spec_initial_points(position, direction),
            a.snek.path.total() == TAIL_OFFSET,
    {
        AiSnek { snek: Snek::new(color, speed, position, direction), alive: true, frames_since_turn: 0 }
    }

    /// The underlying snake body.
    pub fn get(&self) -> (s: &Snek)
        ensures
            s == &self.snek,
    {
        &self.snek
    }

    /// Stops the snake for good; its body remains a static obstacle.
    pub fn die(&mut self)
        ensures
            *final(self) == (AiSnek { alive: false, ..*old(self) }),
    {
        self.alive = false;
    }

    /// One deterministic tick, the coin flip for a possible turn given:
    /// a dead snake does not move at all; a live one counts toward its
    /// turn threshold, turns to the random perpendicular when the
    /// threshold is reached, and then advances and trims like the player.
    pub fn step(&mut self, choice: bool)
        requires
            old(self).wf(),
            old(self).alive ==> step_clear(old(self).snek.path.spec_head()),
            old(self).alive ==> old(self).snek.path.total() + MAX_STEP <= MAX_TOTAL,
        ensures
            final(self).wf(),
            !old(self).alive ==> *final(self) == *old(self),
            final(self).alive == old(self).alive,
            final(self).snek.color == old(self).snek.color,
            final(self).snek.speed == old(self).snek.speed,
            old(self).alive && spec_tick_distance(old(self).snek.speed as int) > 0
                ==> final(self).snek.path.total() > old(self).snek.path.total(),
            Self::step_rel(*old(self), *final(self), choice),
    {
        if !self.alive {
            return ;
        }
        self.frames_since_turn = self.frames_since_turn + 1;
        let req: Option<Direction> = if self.frames_since_turn == TURN_INTERVAL {
            self.frames_since_turn = 0;
            let d = if self.snek.direction.horizontal() {
                if choice {
                    Direction::Up
                } else {
                    Direction::Down
                }
            } else {
                if choice {
                    Direction::Left
                } else {
                    Direction::Right
                }
            };
            Option::Some(d)
        } else {
            Option::None
        };
        let dist = tick_distance(self.snek.speed);
        let trim = trim_amount(dist);
        let dir = self.snek.path.advance(self.snek.direction, req, dist);
        self.snek.direction = dir;
        self.snek.path.trim_tail(trim);
    }

    /// What one deterministic tick with coin flip `choice` leaves
    /// behind — `step`'s contract, packaged so that `update` can
    /// quantify over the flip.
    pub open spec fn step_rel(pre: AiSnek, post: AiSnek, choice: bool) -> bool {
        if !pre.alive {
            post == pre
        } else {
            let turning = pre.frames_since_turn + 1 == TURN_INTERVAL;
            let req = if turning {
                Option::Some(spec_ai_turn(pre.snek.direction, choice))
            } else {
                Option::<Direction>::None
            };
            let dir = spec_accept(pre.snek.direction, req);
            let dist = spec_tick_distance(pre.snek.speed as int);
            let trim = spec_trim_amount(dist);
            &&& post.alive
            &&& post.snek.color == pre.snek.color
            &&& post.snek.speed == pre.snek.speed
            &&& post.frames_since_turn == (if turning {
                0int
            } else {
                pre.frames_since_turn + 1
            })
            &&& post.snek.direction == dir
            &&& post.snek.path@ == spec_trim(
                spec_advance(pre.snek.path@, pre.snek.direction, req, dist),
                trim,
            )
            &&& post.snek.path.total() == pre.snek.path.total() + dist - trim
        }
    }

    /// One tick with the turn choice drawn from the process-wide
    /// generator: some coin flip decides a turn at the threshold, and
    /// everything `step` guarantees of either flip holds.
    pub fn update(&mut self)
        requires
            old(self).wf(),
            old(self).alive ==> step_clear(old(self).snek.path.spec_head()),
            old(self).alive ==> old(self).snek.path.total() + MAX_STEP <= MAX_TOTAL,
        ensures
            final(self).wf(),
            !old(self).alive ==> *final(self) == *old(self),
            final(self).alive == old(self).alive,
            final(self).snek.color == old(self).snek.color,
            final(self).snek.speed == old(self).snek.speed,
            old(self).alive && spec_tick_distance(old(self).snek.speed as int) > 0
                ==> final(self).snek.path.total() > old(self).snek.path.total(),
            exists|choice: bool| Self::step_rel(*old(self), *final(self), choice),
    {
        let choice = rand::random::<bool>();
        let ghost pre = *self;
        self.step(choice);
        proof {
            assert(Self::step_rel(pre, *self, choice));
        }
    }
}

/// The exit hatch: reaching it wins the game.
pub struct Exit {
    pub rect: Rect,
}

impl Exit {
    pub fn new() -> (e: Exit)
        ensures
            e.rect == (Rect { x: EXIT_X, y: EXIT_Y, width: EXIT_W, height: EXIT_H }),
    {
        Exit { rect: Rect { x: EXIT_X, y: EXIT_Y, width: EXIT_W, height: EXIT_H } }
    }

    /// Open containment in the hatch rectangle.
    pub fn contains(&self, p: &Point2d) -> (c: bool)
        requires
            i64::MIN <= self.rect.x + self.rect.width <= i64::MAX,
            i64::MIN <= self.rect.y + self.rect.height <= i64::MAX,
        ensures
            c == crate::geometry::spec_contains(self.rect, *p),
    {
        self.rect.contains(p)
    }
}

} // verus!
