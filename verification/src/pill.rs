//! Pills: immutable collectible point effects, spawned at random arena
//! points and consumed when the player's head touches them.

use vstd::prelude::*;
use crate::constants::{COORD_LIMIT, PILL_RADIUS, STROKE_HALF};
use crate::geometry::Point2d;

verus! {

/// The closed set of pill effects.
#[derive(Clone, Copy, Debug, PartialEq, Eq, Structural)]
pub enum PillType {
    ExpandBoundary,
    ShortenSnek,
    SpawnEnemySnek,
    IncreaseSpeed,
}

/// The game mode decides which pill kinds can spawn.
#[derive(Clone, Copy, Debug, PartialEq, Eq, Structural)]
pub enum GameMode {
    /// Arena and body effects only: two kinds.
    Minimal,
    /// All four kinds, rival-spawning included.
    Extended,
}

/// Uniform kind selection over the mode's enabled kind set, from one
/// draw of the generator.
pub open spec fn spec_kind_for_roll(mode: GameMode, roll: u64) -> PillType {
    match mode {
        GameMode::Minimal => if roll % 2 == 0 {
            PillType::ExpandBoundary
        } else {
            PillType::ShortenSnek
        },
        GameMode::Extended => if roll % 4 == 0 {
            PillType::ExpandBoundary
        } else if roll % 4 == 1 {
            PillType::ShortenSnek
        } else if roll % 4 == 2 {
            PillType::SpawnEnemySnek
        } else {
            PillType::IncreaseSpeed
        },
    }
}

/// Executable kind selection.
pub fn kind_for_roll(mode: GameMode, roll: u64) -> (k: PillType)
    ensures
        k == spec_kind_for_roll(mode, roll),
{
    match mode {
        GameMode::Minimal => {
            if roll % 2 == 0 {
                PillType::ExpandBoundary
            } else {
                PillType::ShortenSnek
            }
        },
        GameMode::Extended => {
            let r = roll % 4;
            if r == 0 {
                PillType::ExpandBoundary
            } else if r == 1 {
                PillType::ShortenSnek
            } else if r == 2 {
                PillType::SpawnEnemySnek
            } else {
                PillType::IncreaseSpeed
            }
        },
    }
}

/// An immutable (kind, position) pair.  Pills persist until collected.
#[derive(Clone, Copy, Debug, PartialEq, Eq, Structural)]
pub struct Pill {
    pub pill_type: PillType,
    pub position: Point2d,
}

impl Pill {
    pub open spec fn wf(self) -> bool {
        self.position.in_range()
    }

    pub fn new(pill_type: PillType, x: i64, y: i64) -> (p: Pill)
        requires
            -COORD_LIMIT <= x <= COORD_LIMIT,
            -COORD_LIMIT <= y <= COORD_LIMIT,
        ensures
            p.pill_type == pill_type,
            p.position == (Point2d { x, y }),
            p.wf(),
    {
        Pill { pill_type, position: Point2d { x, y } }
    }

    /// Open circular pickup region: strictly inside `PILL_RADIUS` of the
    /// pill's position.
    pub open spec fn spec_contains(self, p: Point2d) -> bool {
        let dx = self.position.x - p.x;
        let dy = self.position.y - p.y;
        dx * dx + dy * dy < PILL_RADIUS * PILL_RADIUS
    }

    /// Executable pickup test.  The probe points sit `STROKE_HALF`
    /// outside the head, so the bound admits them.
    pub fn contains(&self, p: &Point2d) -> (c: bool)
        requires
            self.wf(),
            -COORD_LIMIT - STROKE_HALF <= p.x <= COORD_LIMIT + STROKE_HALF,
            -COORD_LIMIT - STROKE_HALF <= p.y <= COORD_LIMIT + STROKE_HALF,
        ensures
            c == self.spec_contains(*p),
    {
        let a = self.position.x - p.x;
        let b = self.position.y - p.y;
        proof {
            assert(0 <= a * a <= 90_000_000_000_000_000i64) by (nonlinear_arith)
                requires
                    -300_000_000 <= a <= 300_000_000,
            ;
            assert(0 <= b * b <= 90_000_000_000_000_000i64) by (nonlinear_arith)
                requires
                    -300_000_000 <= b <= 300_000_000,
            ;
        }
        (a * a + b * b) < PILL_RADIUS * PILL_RADIUS
    }
}

} // verus!
