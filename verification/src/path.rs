//! The path model: an ordered sequence of turn points representing a
//! growing and shrinking orthogonal polyline — the snake's body.
//!
//! The head (the last point) advances along the current direction; the
//! tail (the first points) is trimmed by a rolling algorithm that eats
//! whole segments until the remaining amount fits inside the oldest one.

use vstd::prelude::*;
use crate::constants::{COORD_LIMIT, MAX_STEP, MAX_TOTAL};
use crate::geometry::{abs_val, spec_step, step_point, Direction, Point2d};

verus! {

/// Manhattan length of one segment.  Segments are axis-aligned, so this
/// equals the Euclidean length.
pub open spec fn seg_len(a: Point2d, b: Point2d) -> int {
    abs_val(b.x - a.x) + abs_val(b.y - a.y)
}

/// Two consecutive turn points always share a coordinate: every segment
/// is purely horizontal or purely vertical (possibly of length zero,
/// transiently, around a turn or an exact trim).
pub open spec fn aligned(a: Point2d, b: Point2d) -> bool {
    a.x == b.x || a.y == b.y
}

/// Well-formed turn-point sequence: at least two points, axis-aligned
/// segments, all coordinates in simulation range.
pub open spec fn wf_points(s: Seq<Point2d>) -> bool {
    &&& s.len() >= 2
    &&& forall|i: int| 0 <= i < s.len() - 1 ==> aligned(#[trigger] s[i], s[i + 1])
    &&& forall|i: int| 0 <= i < s.len() ==> (#[trigger] s[i]).in_range()
}

/// Total path length: the sum of the segment lengths.
pub open spec fn total_of(s: Seq<Point2d>) -> int
    decreases s.len(),
{
    if s.len() < 2 {
        0
    } else {
        seg_len(s[0], s[1]) + total_of(s.subrange(1, s.len() as int))
    }
}

/// The head segment points along `d`: the head lies at a nonnegative
/// offset from its predecessor in that direction.
pub open spec fn last_oriented(s: Seq<Point2d>, d: Direction) -> bool {
    let p = s[s.len() - 2];
    let h = s[s.len() - 1];
    match d {
        Direction::Up => h.x == p.x && h.y <= p.y,
        Direction::Down => h.x == p.x && h.y >= p.y,
        Direction::Left => h.y == p.y && h.x <= p.x,
        Direction::Right => h.y == p.y && h.x >= p.x,
    }
}

/// The tail point, moved `amount` along the oldest segment toward its
/// successor.
pub open spec fn spec_shift(p0: Point2d, p1: Point2d, amount: int) -> Point2d {
    if p0.x == p1.x {
        Point2d { x: p0.x, y: if p0.y < p1.y { (p0.y + amount) as i64 } else { (p0.y - amount) as i64 } }
    } else {
        Point2d { x: if p0.x < p1.x { (p0.x + amount) as i64 } else { (p0.x - amount) as i64 }, y: p0.y }
    }
}

/// The rolling tail trim: segments shorter than the remaining amount are
/// deleted whole; the amount left over shifts the then-oldest point along
/// its segment.
pub open spec fn spec_trim(s: Seq<Point2d>, amount: int) -> Seq<Point2d>
    decreases s.len(),
{
    if s.len() < 2 {
        s
    } else {
        let d = seg_len(s[0], s[1]);
        if d < amount {
            spec_trim(s.subrange(1, s.len() as int), amount - d)
        } else {
            s.update(0, spec_shift(s[0], s[1], amount))
        }
    }
}

/// The direction a turn request resolves to: only a perpendicular request
/// is accepted; keeping course or reversing leaves the direction as it is.
pub open spec fn spec_accept(current: Direction, requested: Option<Direction>) -> Direction {
    match requested {
        Option::Some(d) => if d.is_perpendicular_to(current) {
            d
        } else {
            current
        },
        Option::None => current,
    }
}

/// One head advance: on an accepted turn a duplicate head point opens a
/// new segment; then the head moves `distance` along the resolved
/// direction.
pub open spec fn spec_advance(
    s: Seq<Point2d>,
    current: Direction,
    requested: Option<Direction>,
    distance: int,
) -> Seq<Point2d> {
    let dir = spec_accept(current, requested);
    let s1 = if dir == current {
        s
    } else {
        s.push(s.last())
    };
    s1.update(s1.len() - 1, spec_step(s1.last(), dir, distance))
}

pub proof fn lemma_total_nonneg(s: Seq<Point2d>)
    ensures
        total_of(s) >= 0,
    decreases s.len(),
{
    if s.len() >= 2 {
        lemma_total_nonneg(s.subrange(1, s.len() as int));
    }
}

/// Appending a point adds one segment's length to the total.
pub proof fn lemma_total_push(s: Seq<Point2d>, p: Point2d)
    requires
        s.len() >= 1,
    ensures
        total_of(s.push(p)) == total_of(s) + seg_len(s.last(), p),
    decreases s.len(),
{
    let sp = s.push(p);
    assert(total_of(sp) == seg_len(sp[0], sp[1]) + total_of(sp.subrange(1, sp.len() as int)));
    if s.len() == 1 {
        assert(sp.subrange(1, 2) =~= seq![p]);
        assert(total_of(seq![p]) == 0);
    } else {
        assert(sp.subrange(1, sp.len() as int) =~= s.subrange(1, s.len() as int).push(p));
        lemma_total_push(s.subrange(1, s.len() as int), p);
    }
}

/// Replacing the head changes the total by the head segment's change.
pub proof fn lemma_total_update_last(s: Seq<Point2d>, p: Point2d)
    requires
        s.len() >= 2,
    ensures
        total_of(s.update(s.len() - 1, p)) == total_of(s) - seg_len(s[s.len() - 2], s.last())
            + seg_len(s[s.len() - 2], p),
    decreases s.len(),
{
    let t = s.update(s.len() - 1, p);
    assert(total_of(t) == seg_len(t[0], t[1]) + total_of(t.subrange(1, t.len() as int)));
    assert(total_of(s) == seg_len(s[0], s[1]) + total_of(s.subrange(1, s.len() as int)));
    if s.len() == 2 {
        assert(t.subrange(1, 2) =~= seq![p]);
        assert(s.subrange(1, 2) =~= seq![s[1]]);
        assert(total_of(seq![p]) == 0);
        assert(total_of(seq![s[1]]) == 0);
    } else {
        assert(t.subrange(1, s.len() as int) =~= s.subrange(1, s.len() as int).update(
            s.len() - 2,
            p,
        ));
        lemma_total_update_last(s.subrange(1, s.len() as int), p);
    }
}

/// The head may still take a full step in any direction without leaving
/// the simulation's coordinate range.
pub open spec fn step_clear(p: Point2d) -> bool {
    &&& -COORD_LIMIT + MAX_STEP <= p.x <= COORD_LIMIT - MAX_STEP
    &&& -COORD_LIMIT + MAX_STEP <= p.y <= COORD_LIMIT - MAX_STEP
}

/// What the rolling trim does when the amount is strictly below the total
/// length: the result is well formed (so it keeps at least two points), is
/// exactly `amount` shorter, keeps the head point, and keeps the head
/// segment's orientation.
pub proof fn lemma_trim(s: Seq<Point2d>, amount: int)
    requires
        wf_points(s),
        0 <= amount < total_of(s),
    ensures
        wf_points(spec_trim(s, amount)),
        spec_trim(s, amount).len() <= s.len(),
        total_of(spec_trim(s, amount)) == total_of(s) - amount,
        spec_trim(s, amount).last() == s.last(),
        forall|d: Direction| last_oriented(s, d) ==> last_oriented(spec_trim(s, amount), d),
    decreases s.len(),
{
    let d0 = seg_len(s[0], s[1]);
    let tail = s.subrange(1, s.len() as int);
    assert(total_of(s) == d0 + total_of(tail));
    if d0 < amount {
        assert(total_of(tail) > 0);
        if tail.len() < 2 {
            assert(total_of(tail) == 0);
        }
        assert forall|i: int| 0 <= i < tail.len() - 1 implies aligned(
            #[trigger] tail[i],
            tail[i + 1],
        ) by {
            assert(aligned(s[i + 1], s[i + 2]));
        }
        assert forall|i: int| 0 <= i < tail.len() implies (#[trigger] tail[i]).in_range() by {
            assert(s[i + 1].in_range());
        }
        lemma_trim(tail, amount - d0);
        assert(s.len() >= 3);
        assert forall|d: Direction| last_oriented(s, d) implies last_oriented(
            spec_trim(s, amount),
            d,
        ) by {
            assert(tail[tail.len() - 2] == s[s.len() - 2]);
            assert(tail[tail.len() - 1] == s[s.len() - 1]);
            assert(last_oriented(tail, d));
        }
    } else {
        let q = spec_shift(s[0], s[1], amount);
        let t = s.update(0, q);
        assert(q.in_range() && aligned(q, s[1]) && seg_len(q, s[1]) == d0 - amount);
        assert(t.subrange(1, t.len() as int) =~= tail);
        assert(total_of(t) == seg_len(t[0], t[1]) + total_of(t.subrange(1, t.len() as int)));
        assert forall|i: int| 0 <= i < t.len() - 1 implies aligned(
            #[trigger] t[i],
            t[i + 1],
        ) by {
            assert(aligned(s[i], s[i + 1]));
        }
        assert forall|i: int| 0 <= i < t.len() implies (#[trigger] t[i]).in_range() by {
            assert(s[i].in_range());
        }
        assert forall|d: Direction| last_oriented(s, d) implies last_oriented(t, d) by {
            if s.len() == 2 {
                assert(t[0] == q && t[1] == s[1]);
            } else {
                assert(t[t.len() - 2] == s[s.len() - 2]);
            }
        }
    }
}

/// What one head advance does: the path gains a point exactly on an
/// accepted turn, its total length grows by exactly `distance`, and the
/// head ends one step along the resolved direction, leaving the head
/// segment oriented that way.
pub proof fn lemma_advance(
    s: Seq<Point2d>,
    current: Direction,
    requested: Option<Direction>,
    distance: int,
)
    requires
        wf_points(s),
        last_oriented(s, current),
        0 <= distance <= MAX_STEP,
        step_clear(s.last()),
    ensures
        ({
            let dir = spec_accept(current, requested);
            let t = spec_advance(s, current, requested, distance);
            &&& wf_points(t)
            &&& total_of(t) == total_of(s) + distance
            &&& t.len() == s.len() + (if dir == current { 0int } else { 1int })
            &&& t.last() == spec_step(s.last(), dir, distance)
            &&& last_oriented(t, dir)
        }),
{
    let dir = spec_accept(current, requested);
    let t = spec_advance(s, current, requested, distance);
    let h = s.last();
    let moved = spec_step(h, dir, distance);
    if dir == current {
        let prev = s[s.len() - 2];
        lemma_total_update_last(s, moved);
        assert(seg_len(prev, moved) == seg_len(prev, h) + distance);
        assert forall|i: int| 0 <= i < t.len() - 1 implies aligned(
            #[trigger] t[i],
            t[i + 1],
        ) by {
            assert(aligned(s[i], s[i + 1]));
        }
        assert forall|i: int| 0 <= i < t.len() implies (#[trigger] t[i]).in_range() by {
            if i < t.len() - 1 {
                assert(s[i].in_range());
            }
        }
    } else {
        let s1 = s.push(h);
        lemma_total_push(s, h);
        assert(seg_len(h, h) == 0);
        lemma_total_update_last(s1, moved);
        assert(s1[s1.len() - 2] == h);
        assert(seg_len(h, moved) == distance);
        assert forall|i: int| 0 <= i < t.len() - 1 implies aligned(
            #[trigger] t[i],
            t[i + 1],
        ) by {
            if i < s.len() - 1 {
                assert(aligned(s[i], s[i + 1]));
            }
        }
        assert forall|i: int| 0 <= i < t.len() implies (#[trigger] t[i]).in_range() by {
            if i < t.len() - 1 {
                assert(s[i].in_range());
            }
        }
    }
}

/// Law: a full advance-plus-trim cycle whose trim amount stays strictly
/// below the distance moved grows the total length by exactly the
/// difference — and so strictly — for every well-formed starting path.
/// With the per-tick trim `distance * TRIM_NUM / TRIM_DEN` and
/// `TRIM_NUM < TRIM_DEN` this is the body's slow lengthening.
pub proof fn lemma_advance_trim_growth(
    s: Seq<Point2d>,
    current: Direction,
    requested: Option<Direction>,
    distance: int,
    trim: int,
)
    requires
        wf_points(s),
        last_oriented(s, current),
        step_clear(s.last()),
        0 <= distance <= MAX_STEP,
        0 <= trim < distance,
    ensures
        ({
            let t = spec_trim(spec_advance(s, current, requested, distance), trim);
            &&& total_of(t) == total_of(s) + distance - trim
            &&& total_of(t) > total_of(s)
        }),
{
    lemma_advance(s, current, requested, distance);
    lemma_total_nonneg(s);
    lemma_trim(spec_advance(s, current, requested, distance), trim);
}

/// Law: the rolling trim never leaves fewer than two points as long as
/// its amount stays strictly below the total length.  An amount at or
/// above the total is out of contract — `trim_tail` requires it strictly
/// below, and every caller in this crate discharges that bound.
pub proof fn lemma_trim_keeps_two_points(s: Seq<Point2d>, amount: int)
    requires
        wf_points(s),
        0 <= amount < total_of(s),
    ensures
        spec_trim(s, amount).len() >= 2,
        wf_points(spec_trim(s, amount)),
{
    lemma_trim(s, amount);
}

/// Manhattan length of one segment, executable form.
pub fn seg_len_exec(a: Point2d, b: Point2d) -> (l: i64)
    requires
        a.in_range(),
        b.in_range(),
    ensures
        l == seg_len(a, b),
{
    let dx = if a.x < b.x {
        b.x - a.x
    } else {
        a.x - b.x
    };
    let dy = if a.y < b.y {
        b.y - a.y
    } else {
        a.y - b.y
    };
    dx + dy
}

/// The snake's body: the ordered turn points of an orthogonal polyline.
/// The last point is the head.
pub struct Path {
    points: Vec<Point2d>,
}

impl View for Path {
    type V = Seq<Point2d>;

    closed spec fn view(&self) -> Seq<Point2d> {
        self.points@
    }
}

impl Path {
    /// Total path length.
    pub open spec fn total(self) -> int {
        total_of(self@)
    }

    /// Well-formed body: a well-formed point sequence whose total length
    /// stays under the cap that keeps length sums inside `i64`.
    pub open spec fn wf(self) -> bool {
        wf_points(self@) && self.total() <= MAX_TOTAL
    }

    /// The head point.
    pub open spec fn spec_head(self) -> Point2d {
        self@.last()
    }

    /// The head segment points along `d`.
    pub open spec fn oriented(self, d: Direction) -> bool {
        last_oriented(self@, d)
    }

    /// Wraps an explicit list of turn points.
    pub fn from_points(points: Vec<Point2d>) -> (p: Path)
        requires
            wf_points(points@),
            total_of(points@) <= MAX_TOTAL,
        ensures
            p@ == points@,
    {
        Path { points }
    }

    /// The turn points, tail first, head last.
    pub fn points(&self) -> (v: &Vec<Point2d>)
        ensures
            v@ == self@,
    {
        &self.points
    }

    /// The head point.
    pub fn head(&self) -> (h: Point2d)
        requires
            self@.len() >= 1,
        ensures
            h == self.spec_head(),
    {
        self.points[self.points.len() - 1]
    }

    /// Sum of the per-segment Manhattan lengths (equal to the Euclidean
    /// ones, since segments are orthogonal).
    pub fn total_length(&self) -> (t: i64)
        requires
            self.wf(),
        ensures
            t == self.total(),
    {
        let ghost s = self.points@;
        proof {
            assert(s.subrange(0, s.len() as int) =~= s);
            lemma_total_nonneg(s);
        }
        let n = self.points.len();
        let mut sum: i64 = 0;
        let mut i: usize = 1;
        while i < n
            invariant
                1 <= i <= n,
                n == s.len(),
                self.points@ == s,
                wf_points(s),
                total_of(s) <= MAX_TOTAL,
                0 <= sum,
                sum == total_of(s) - total_of(s.subrange(i - 1, s.len() as int)),
                total_of(s.subrange(i - 1, s.len() as int)) >= 0,
            decreases n - i,
        {
            let l = seg_len_exec(self.points[i - 1], self.points[i]);
            proof {
                let suf = s.subrange(i - 1, s.len() as int);
                let suf2 = s.subrange(i as int, s.len() as int);
                assert(suf.subrange(1, suf.len() as int) =~= suf2);
                assert(total_of(suf) == seg_len(suf[0], suf[1]) + total_of(suf2));
                assert(suf[0] == s[i - 1] && suf[1] == s[i as int]);
                lemma_total_nonneg(suf2);
            }
            sum = sum + l;
            i = i + 1;
        }
        proof {
            assert(s.subrange(n - 1, s.len() as int).len() == 1);
        }
        sum
    }

    /// One head advance: a perpendicular
    /// request turns the path (opening a new segment with a duplicated
    /// head point); a straight-on or reversing request is ignored; either
    /// way the head then moves `distance` along the resolved direction.
    /// Returns the resolved direction.
    pub fn advance(&mut self, current: Direction, requested: Option<Direction>, distance: i64) -> (dir:
        Direction)
        requires
            old(self).wf(),
            old(self).oriented(current),
            0 <= distance <= MAX_STEP,
            step_clear(old(self).spec_head()),
            old(self).total() + distance <= MAX_TOTAL,
        ensures
            final(self).wf(),
            dir == spec_accept(current, requested),
            final(self)@ == spec_advance(old(self)@, current, requested, distance as int),
            final(self).total() == old(self).total() + distance,
            final(self).spec_head() == spec_step(old(self).spec_head(), dir, distance as int),
            final(self).oriented(dir),
            final(self)@.len() == old(self)@.len() + (if dir == current {
                0int
            } else {
                1int
            }),
    {
        proof {
            lemma_advance(old(self)@, current, requested, distance as int);
        }
        let dir = match requested {
            Option::Some(d) => {
                if d.perpendicular_to(current) {
                    let h = self.head();
                    self.points.push(h);
                    d
                } else {
                    current
                }
            },
            Option::None => current,
        };
        let n = self.points.len() - 1;
        let h = self.points[n];
        let moved = step_point(h, dir, distance);
        self.points[n] = moved;
        dir
    }

    /// The rolling tail trim: deletes whole leading segments
    /// shorter than the remaining amount, then shifts the oldest point
    /// along its segment.  The amount must stay strictly below the total
    /// length; the result then always keeps at least two points.
    pub fn trim_tail(&mut self, amount: i64)
        requires
            old(self).wf(),
            0 <= amount < old(self).total(),
        ensures
            final(self).wf(),
            final(self)@ == spec_trim(old(self)@, amount as int),
            final(self).total() == old(self).total() - amount,
            final(self)@.len() >= 2,
            final(self)@.len() <= old(self)@.len(),
            final(self).spec_head() == old(self).spec_head(),
            forall|d: Direction| old(self).oriented(d) ==> final(self).oriented(d),
    {
        proof {
            lemma_trim(old(self)@, amount as int);
        }
        let mut rem: i64 = amount;
        let mut d: i64 = seg_len_exec(self.points[0], self.points[1]);
        while d < rem
            invariant
                wf_points(self.points@),
                0 <= rem,
                rem < total_of(self.points@),
                d == seg_len(self.points@[0], self.points@[1]),
                spec_trim(self.points@, rem as int) == spec_trim(old(self)@, amount as int),
            decreases self.points.len(),
        {
            let ghost pre = self.points@;
            self.points.remove(0);
            rem = rem - d;
            proof {
                let cur = self.points@;
                assert(cur =~= pre.subrange(1, pre.len() as int));
                assert(total_of(pre) == seg_len(pre[0], pre[1]) + total_of(cur));
                if cur.len() < 2 {
                    assert(total_of(cur) == 0);
                }
                assert forall|i: int| 0 <= i < cur.len() - 1 implies aligned(
                    #[trigger] cur[i],
                    cur[i + 1],
                ) by {
                    assert(aligned(pre[i + 1], pre[i + 2]));
                }
                assert forall|i: int| 0 <= i < cur.len() implies (
                #[trigger] cur[i]).in_range() by {
                    assert(pre[i + 1].in_range());
                }
            }
            d = seg_len_exec(self.points[0], self.points[1]);
        }
        let p0 = self.points[0];
        let p1 = self.points[1];
        let np = if p0.x == p1.x {
            Point2d { x: p0.x, y: if p0.y < p1.y { p0.y + rem } else { p0.y - rem } }
        } else {
            Point2d { x: if p0.x < p1.x { p0.x + rem } else { p0.x - rem }, y: p0.y }
        };
        proof {
            assert(np == spec_shift(p0, p1, rem as int));
        }
        self.points[0] = np;
    }

    /// Trims `num / den` of the current total length off the tail, the
    /// fraction evaluated as `(total / den) * num`.  Used by pill effects.
    pub fn shorten_by_fraction(&mut self, num: i64, den: i64)
        requires
            old(self).wf(),
            0 <= num < den,
            den <= 10000,
        ensures
            final(self).wf(),
            final(self)@ == (if old(self).total() > 0 {
                spec_trim(old(self)@, old(self).total() / den as int * num as int)
            } else {
                old(self)@
            }),
            final(self).total() == old(self).total() - (if old(self).total() > 0 {
                old(self).total() / den as int * num as int
            } else {
                0int
            }),
            final(self).spec_head() == old(self).spec_head(),
            old(self).total() > 0 ==> final(self).total() > 0,
            forall|d: Direction| old(self).oriented(d) ==> final(self).oriented(d),
    {
        let t = self.total_length();
        proof {
            lemma_total_nonneg(self@);
        }
        if t > 0 {
            let q = t / den;
            proof {
                vstd::arithmetic::div_mod::lemma_div_pos_is_pos(t as int, den as int);
                vstd::arithmetic::div_mod::lemma_div_nonincreasing(t as int, den as int);
                assert(0 <= q <= t);
                assert(0 <= q * num <= 40_000_000_000_000_000) by (nonlinear_arith)
                    requires
                        0 <= q <= 4_000_000_000_000i64,
                        0 <= num <= 10000,
                ;
            }
            let cut = q * num;
            proof {
                vstd::arithmetic::div_mod::lemma_fundamental_div_mod(t as int, den as int);
                assert(t % den >= 0);
                assert(den * q <= t);
                assert(q * num <= den * q - q) by (nonlinear_arith)
                    requires
                        0 <= q,
                        0 <= num <= den - 1,
                ;
                if q == 0 {
                    assert(cut == 0) by (nonlinear_arith)
                        requires
                            cut == q * num,
                            q == 0,
                    ;
                }
                assert(cut < t);
            }
            self.trim_tail(cut);
        }
    }
}

} // verus!
