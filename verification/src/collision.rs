//! The collision engine: stateless predicates over actors, the arena
//! boundary, rival bodies and the pill set.
//!
//! Every test works on the *head probes*: two points straddling the head
//! perpendicular to the travel direction, `STROKE_HALF` to each side, so
//! the rendered stroke width is treated as a thick line rather than a
//! zero-width point.

use vstd::prelude::*;
use crate::constants::{BOUNDARY_INSET, STROKE_HALF};
use crate::entity::{valid_arena, Boundary, Exit, Snek};
use crate::geometry::{abs_val, spec_contains, Direction, Point2d, Rect};
use crate::pill::Pill;

verus! {

/// The pair of probe points straddling `head` perpendicular to `dir`.
pub open spec fn spec_probes(head: Point2d, dir: Direction) -> (Point2d, Point2d) {
    if dir.is_horizontal() {
        (
            Point2d { x: head.x, y: (head.y - STROKE_HALF) as i64 },
            Point2d { x: head.x, y: (head.y + STROKE_HALF) as i64 },
        )
    } else {
        (
            Point2d { x: (head.x - STROKE_HALF) as i64, y: head.y },
            Point2d { x: (head.x + STROKE_HALF) as i64, y: head.y },
        )
    }
}

/// The probe points of an actor's head.
pub open spec fn spec_actor_probes(s: Snek) -> (Point2d, Point2d) {
    spec_probes(s.path@.last(), s.direction)
}

/// Executable probe construction.
pub fn probes(head: Point2d, dir: Direction) -> (pair: (Point2d, Point2d))
    requires
        head.in_range(),
    ensures
        pair == spec_probes(head, dir),
{
    if dir.horizontal() {
        (
            Point2d { x: head.x, y: head.y - STROKE_HALF },
            Point2d { x: head.x, y: head.y + STROKE_HALF },
        )
    } else {
        (
            Point2d { x: head.x - STROKE_HALF, y: head.y },
            Point2d { x: head.x + STROKE_HALF, y: head.y },
        )
    }
}

/// The thickened rectangle around the segment from `a` to `b`:
/// `STROKE_HALF` added to each side across the segment's axis, nothing
/// along it.  Degenerate (duplicate-point) segments thicken to a
/// zero-extent rectangle that the open test never enters.
pub open spec fn spec_seg_rect(a: Point2d, b: Point2d) -> Rect {
    let minx = if a.x < b.x {
        a.x
    } else {
        b.x
    };
    let miny = if a.y < b.y {
        a.y
    } else {
        b.y
    };
    if a.x == b.x {
        Rect {
            x: (minx - STROKE_HALF) as i64,
            y: miny,
            width: (2 * STROKE_HALF) as i64,
            height: abs_val(a.y - b.y) as i64,
        }
    } else {
        Rect {
            x: minx,
            y: (miny - STROKE_HALF) as i64,
            width: abs_val(a.x - b.x) as i64,
            height: (2 * STROKE_HALF) as i64,
        }
    }
}

/// Either probe point falls inside the thickened rectangle of the
/// segment from `a` to `b`.
pub open spec fn spec_seg_hit(a: Point2d, b: Point2d, h1: Point2d, h2: Point2d) -> bool {
    spec_contains(spec_seg_rect(a, b), h1) || spec_contains(spec_seg_rect(a, b), h2)
}

/// Executable thickened-segment test against both probes.
fn seg_hit(a: Point2d, b: Point2d, h1: Point2d, h2: Point2d) -> (r: bool)
    requires
        a.in_range(),
        b.in_range(),
    ensures
        r == spec_seg_hit(a, b, h1, h2),
{
    let minx = if a.x < b.x {
        a.x
    } else {
        b.x
    };
    let miny = if a.y < b.y {
        a.y
    } else {
        b.y
    };
    let rect = if a.x == b.x {
        let height = if a.y < b.y {
            b.y - a.y
        } else {
            a.y - b.y
        };
        Rect::new(minx - STROKE_HALF, miny, 2 * STROKE_HALF, height)
    } else {
        let width = if a.x < b.x {
            b.x - a.x
        } else {
            a.x - b.x
        };
        Rect::new(minx, miny - STROKE_HALF, width, 2 * STROKE_HALF)
    };
    rect.contains(&h1) || rect.contains(&h2)
}

/// Self-collision: some segment of the actor's own body, the two
/// segments nearest the head excluded, is hit by a probe.  The exclusion
/// avoids a false positive against the segment the head is currently
/// extending.
pub open spec fn spec_self_collision(s: Snek) -> bool {
    let pts = s.path@;
    let probes_pair = spec_actor_probes(s);
    exists|i: int|
        0 <= i < pts.len() - 3 && spec_seg_hit(#[trigger] pts[i], pts[i + 1], probes_pair.0, probes_pair.1)
}

/// Executable self-collision test.
pub fn self_collision(s: &Snek) -> (r: bool)
    requires
        s.wf(),
    ensures
        r == spec_self_collision(*s),
{
    let pts = s.path.points();
    let head = s.path.head();
    let (h1, h2) = probes(head, s.direction);
    if pts.len() < 4 {
        return false;
    }
    let window_end = pts.len() - 3;
    let mut i: usize = 0;
    while i < window_end
        invariant
            s.wf(),
            window_end == pts@.len() - 3,
            pts@ == s.path@,
            0 <= i <= window_end,
            h1 == spec_actor_probes(*s).0,
            h2 == spec_actor_probes(*s).1,
            forall|j: int|
                0 <= j < i ==> !spec_seg_hit(#[trigger] pts@[j], pts@[j + 1], h1, h2),
        decreases window_end - i,
    {
        if seg_hit(pts[i], pts[i + 1], h1, h2) {
            return true;
        }
        i = i + 1;
    }
    false
}

/// Actor-versus-actor collision: some segment of `other`'s full body is
/// hit by one of `s`'s probes.  Used player-versus-rival and
/// rival-versus-rival; `other`'s own head segment is *not* excluded.
pub open spec fn spec_actor_collision(s: Snek, other: Snek) -> bool {
    let pts = other.path@;
    let probes_pair = spec_actor_probes(s);
    exists|i: int|
        0 <= i < pts.len() - 1 && spec_seg_hit(#[trigger] pts[i], pts[i + 1], probes_pair.0, probes_pair.1)
}

/// Executable actor-versus-actor test.
pub fn actor_collision(s: &Snek, other: &Snek) -> (r: bool)
    requires
        s.wf(),
        other.wf(),
    ensures
        r == spec_actor_collision(*s, *other),
{
    let pts = other.path.points();
    let head = s.path.head();
    let (h1, h2) = probes(head, s.direction);
    let mut i: usize = 0;
    let end = pts.len() - 1;
    while i < end
        invariant
            other.wf(),
            end == pts@.len() - 1,
            pts@ == other.path@,
            0 <= i <= end,
            h1 == spec_actor_probes(*s).0,
            h2 == spec_actor_probes(*s).1,
            forall|j: int|
                0 <= j < i ==> !spec_seg_hit(#[trigger] pts@[j], pts@[j + 1], h1, h2),
        decreases end - i,
    {
        if seg_hit(pts[i], pts[i + 1], h1, h2) {
            return true;
        }
        i = i + 1;
    }
    false
}

/// The arena rectangle shrunk by the collision inset on all four sides.
pub open spec fn spec_inset(r: Rect) -> Rect {
    Rect {
        x: (r.x + BOUNDARY_INSET) as i64,
        y: (r.y + BOUNDARY_INSET) as i64,
        width: (r.width - 2 * BOUNDARY_INSET) as i64,
        height: (r.height - 2 * BOUNDARY_INSET) as i64,
    }
}

/// Boundary collision: a probe point touching or outside the inset
/// arena rectangle.  The containment test is open, so a head exactly on
/// the inset edge already collides.
pub open spec fn spec_boundary_collision(s: Snek, arena: Rect) -> bool {
    let probes_pair = spec_actor_probes(s);
    !spec_contains(spec_inset(arena), probes_pair.0) || !spec_contains(
        spec_inset(arena),
        probes_pair.1,
    )
}

/// Executable boundary test against an arena rectangle.
pub fn boundary_collision(s: &Snek, arena: Rect) -> (r: bool)
    requires
        s.wf(),
        valid_arena(arena),
    ensures
        r == spec_boundary_collision(*s, arena),
{
    let head = s.path.head();
    let (h1, h2) = probes(head, s.direction);
    let inset = Rect::new(
        arena.x + BOUNDARY_INSET,
        arena.y + BOUNDARY_INSET,
        arena.width - 2 * BOUNDARY_INSET,
        arena.height - 2 * BOUNDARY_INSET,
    );
    !inset.contains(&h1) || !inset.contains(&h2)
}

/// A pill's pickup region holds the head or a probe point.
pub open spec fn spec_pill_hit(s: Snek, pill: Pill) -> bool {
    let head = s.path@.last();
    let probes_pair = spec_actor_probes(s);
    pill.spec_contains(head) || pill.spec_contains(probes_pair.0) || pill.spec_contains(
        probes_pair.1,
    )
}

/// All pills in the list are well formed (their positions in range).
pub open spec fn wf_pills(pills: Seq<Pill>) -> bool {
    forall|i: int| 0 <= i < pills.len() ==> (#[trigger] pills[i]).wf()
}

/// Pill collision: the index of the first pill, in list order, whose
/// pickup region holds the head or a probe point; `None` if none does.
/// First-match tie-break is by list order, not by distance.
pub fn pill_collision(s: &Snek, pills: &Vec<Pill>) -> (r: Option<usize>)
    requires
        s.wf(),
        wf_pills(pills@),
    ensures
        match r {
            Option::Some(i) => 0 <= i < pills@.len() && spec_pill_hit(*s, pills@[i as int])
                && forall|j: int| 0 <= j < i ==> !spec_pill_hit(*s, pills@[j]),
            Option::None => forall|j: int| 0 <= j < pills@.len() ==> !spec_pill_hit(*s, pills@[j]),
        },
{
    let head = s.path.head();
    let (h1, h2) = probes(head, s.direction);
    let mut i: usize = 0;
    while i < pills.len()
        invariant
            s.wf(),
            wf_pills(pills@),
            0 <= i <= pills@.len(),
            h1 == spec_actor_probes(*s).0,
            h2 == spec_actor_probes(*s).1,
            head == s.path@.last(),
            forall|j: int| 0 <= j < i ==> !spec_pill_hit(*s, pills@[j]),
        decreases pills@.len() - i,
    {
        let pill = &pills[i];
        if pill.contains(&head) || pill.contains(&h1) || pill.contains(&h2) {
            return Option::Some(i);
        }
        i = i + 1;
    }
    Option::None
}

/// The index of the first pill, from position `k` on, whose pickup
/// region holds the actor's head or a probe point.
pub open spec fn first_hit_index(s: Snek, pills: Seq<Pill>, k: int) -> Option<int>
    decreases pills.len() - k when 0 <= k <= pills.len()
{
    if k < 0 || k >= pills.len() {
        Option::None
    } else if spec_pill_hit(s, pills[k]) {
        Option::Some(k)
    } else {
        first_hit_index(s, pills, k + 1)
    }
}

/// What a first-hit search from `k` returns: the earliest hit at or
/// after `k`, if any.
pub proof fn lemma_first_hit_found(s: Snek, pills: Seq<Pill>, k: int)
    requires
        0 <= k <= pills.len(),
    ensures
        match first_hit_index(s, pills, k) {
            Option::Some(i) => k <= i < pills.len() && spec_pill_hit(s, pills[i])
                && forall|j: int| k <= j < i ==> !spec_pill_hit(s, #[trigger] pills[j]),
            Option::None => forall|j: int|
                k <= j < pills.len() ==> !spec_pill_hit(s, #[trigger] pills[j]),
        },
    decreases pills.len() - k,
{
    if k < pills.len() && !spec_pill_hit(s, pills[k]) {
        lemma_first_hit_found(s, pills, k + 1);
    }
}

/// Skipping a miss-only prefix does not change the first hit.
pub proof fn lemma_first_hit_skip(s: Snek, pills: Seq<Pill>, k: int)
    requires
        0 <= k <= pills.len(),
        forall|j: int| 0 <= j < k ==> !spec_pill_hit(s, #[trigger] pills[j]),
    ensures
        first_hit_index(s, pills, 0) == first_hit_index(s, pills, k),
    decreases k,
{
    if k > 0 {
        lemma_first_hit_skip(s, pills, k - 1);
    }
}

/// The exit hatch holds the head or a probe point.
pub open spec fn spec_exit_collision(s: Snek, e: Exit) -> bool {
    let head = s.path@.last();
    let probes_pair = spec_actor_probes(s);
    spec_contains(e.rect, head) || spec_contains(e.rect, probes_pair.0) || spec_contains(
        e.rect,
        probes_pair.1,
    )
}

/// Executable exit test.
pub fn exit_collision(s: &Snek, e: &Exit) -> (r: bool)
    requires
        s.wf(),
        i64::MIN <= e.rect.x + e.rect.width <= i64::MAX,
        i64::MIN <= e.rect.y + e.rect.height <= i64::MAX,
    ensures
        r == spec_exit_collision(*s, *e),
{
    let head = s.path.head();
    let (h1, h2) = probes(head, s.direction);
    e.contains(&head) || e.contains(&h1) || e.contains(&h2)
}

/// What the player ran into on one tick, in check order: the exit wins
/// the game, any deadly obstacle (own body, arena wall, rival body)
/// loses it, and otherwise the first matching pill is consumed.
#[derive(Clone, Copy, Debug, PartialEq, Eq, Structural)]
pub enum Contact {
    Exit,
    Deadly,
    Pill(usize),
}

/// Dispatch over what a snake collides with.  Each target type gets its
/// own output: a plain yes/no for bodies, walls and the exit, the first
/// matching index for the pill set.
pub trait Collision<Other> {
    type Output;

    /// What the test asks of its inputs: the actors well formed.
    spec fn colliding_req(&self, other: &Other) -> bool;

    /// The value the test computes.
    spec fn colliding_spec(&self, other: &Other) -> Self::Output;

    /// Executable collision test.
    fn colliding(&self, other: &Other) -> (r: Self::Output)
        requires
            self.colliding_req(other),
        ensures
            r == self.colliding_spec(other),
    ;
}

/// Self-collision, against the actor's own body.
impl Collision<()> for Snek {
    type Output = bool;

    open spec fn colliding_req(&self, other: &()) -> bool {
        self.wf()
    }

    open spec fn colliding_spec(&self, other: &()) -> bool {
        spec_self_collision(*self)
    }

    fn colliding(&self, other: &()) -> (r: bool) {
        self_collision(self)
    }
}

/// Collision with another snake's full body.
impl Collision<Snek> for Snek {
    type Output = bool;

    open spec fn colliding_req(&self, other: &Snek) -> bool {
        self.wf() && other.wf()
    }

    open spec fn colliding_spec(&self, other: &Snek) -> bool {
        spec_actor_collision(*self, *other)
    }

    fn colliding(&self, other: &Snek) -> (r: bool) {
        actor_collision(self, other)
    }
}

/// Collision with the arena boundary.
impl Collision<Boundary> for Snek {
    type Output = bool;

    open spec fn colliding_req(&self, other: &Boundary) -> bool {
        self.wf() && other.wf()
    }

    open spec fn colliding_spec(&self, other: &Boundary) -> bool {
        spec_boundary_collision(*self, other.spec_rect())
    }

    fn colliding(&self, other: &Boundary) -> (r: bool) {
        boundary_collision(self, other.rect())
    }
}

/// Collision with the exit hatch.
impl Collision<Exit> for Snek {
    type Output = bool;

    open spec fn colliding_req(&self, other: &Exit) -> bool {
        self.wf() && i64::MIN <= other.rect.x + other.rect.width <= i64::MAX && i64::MIN
            <= other.rect.y + other.rect.height <= i64::MAX
    }

    open spec fn colliding_spec(&self, other: &Exit) -> bool {
        spec_exit_collision(*self, *other)
    }

    fn colliding(&self, other: &Exit) -> (r: bool) {
        exit_collision(self, other)
    }
}

/// Collision with the pill set: the first matching index, if any.
impl Collision<Vec<Pill>> for Snek {
    type Output = Option<usize>;

    open spec fn colliding_req(&self, other: &Vec<Pill>) -> bool {
        self.wf() && wf_pills(other@)
    }

    open spec fn colliding_spec(&self, other: &Vec<Pill>) -> Option<usize> {
        match first_hit_index(*self, other@, 0) {
            Option::Some(i) => Option::Some(i as usize),
            Option::None => Option::None,
        }
    }

    fn colliding(&self, other: &Vec<Pill>) -> (r: Option<usize>) {
        let r = pill_collision(self, other);
        proof {
            match r {
                Option::Some(i) => {
                    lemma_first_hit_skip(*self, other@, i as int);
                },
                Option::None => {
                    lemma_first_hit_skip(*self, other@, other@.len() as int);
                },
            }
        }
        r
    }
}

/// An actor that does not collide with the boundary has its head inside
/// the arena rectangle: both probes lie in the inset rectangle, and the
/// head sits between its probes.
pub proof fn lemma_no_boundary_hit_head_in_arena(s: Snek, arena: Rect)
    requires
        valid_arena(arena),
        !spec_boundary_collision(s, arena),
    ensures
        arena.x <= s.path@.last().x <= arena.x + arena.width,
        arena.y <= s.path@.last().y <= arena.y + arena.height,
{
}

/// Law: a straight, never-turned body — one whose path still has no
/// interior turn points — cannot self-collide: the test window excludes
/// the two segments nearest the head, and such a body has no others.
pub proof fn lemma_straight_no_self_collision(s: Snek)
    requires
        s.path@.len() <= 3,
    ensures
        !spec_self_collision(s),
{
}

/// Law: an actor whose probe points both lie strictly more than
/// `BOUNDARY_INSET` inside every edge of the arena rectangle reports no
/// boundary collision; a probe exactly on the inset rectangle's edge
/// reports one, since the containment test is open.
pub proof fn lemma_boundary_collision_margin(s: Snek, arena: Rect)
    requires
        valid_arena(arena),
    ensures
        ({
            let probes_pair = spec_actor_probes(s);
            let h1 = probes_pair.0;
            let h2 = probes_pair.1;
            &&& (arena.x + BOUNDARY_INSET < h1.x < arena.x + arena.width - BOUNDARY_INSET
                && arena.y + BOUNDARY_INSET < h1.y < arena.y + arena.height - BOUNDARY_INSET
                && arena.x + BOUNDARY_INSET < h2.x < arena.x + arena.width - BOUNDARY_INSET
                && arena.y + BOUNDARY_INSET < h2.y < arena.y + arena.height - BOUNDARY_INSET)
                ==> !spec_boundary_collision(s, arena)
            &&& (h1.x == arena.x + BOUNDARY_INSET || h1.y == arena.y + BOUNDARY_INSET || h1.x
                == arena.x + arena.width - BOUNDARY_INSET || h1.y == arena.y + arena.height
                - BOUNDARY_INSET) ==> spec_boundary_collision(s, arena)
        }),
{
}

} // verus!
