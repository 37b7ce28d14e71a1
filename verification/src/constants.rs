//! Tuning constants of the simulation, in fixed-point subunits.
//!
//! One canvas unit (a rendered pixel at the default zoom) is `SCALE`
//! subunits.  Every distance below is the spec's canvas-unit figure times
//! `SCALE`; `SCALE = 60` is divisible by `FRAMES_PER_SEC` and by the
//! denominator of the tail-trim fraction, so per-tick distances and trims
//! are exact integers for the stock speeds.

use vstd::prelude::*;

verus! {

/// Subunits per canvas unit.
pub const SCALE: i64 = 60;

/// Arena canvas width, in subunits (800 canvas units).
pub const CANVAS_WIDTH: i64 = 800 * SCALE;

/// Arena canvas height, in subunits (600 canvas units).
pub const CANVAS_HEIGHT: i64 = 600 * SCALE;

/// Fixed simulation ticks per second.
pub const FRAMES_PER_SEC: i64 = 30;

/// Half-width of the snake's rendered stroke: head probe points sit this
/// far to each side of the head, and segment rectangles are thickened by
/// this much on each side (5 canvas units).
pub const STROKE_HALF: i64 = 5 * SCALE;

/// Inset applied to the arena rectangle for boundary-collision tests
/// (5 canvas units).
pub const BOUNDARY_INSET: i64 = 5 * SCALE;

/// Radius of a pill's circular pickup region (5 canvas units).
pub const PILL_RADIUS: i64 = 5 * SCALE;

/// Margin kept between a randomly sampled interior point and the arena
/// rectangle's edges (10 canvas units).
pub const SPAWN_MARGIN: i64 = 10 * SCALE;

/// How far each side of the arena moves outward on one expansion
/// (5 canvas units).
pub const EXPAND_STEP: i64 = 5 * SCALE;

/// The arena never grows wider or taller than the canvas dimension minus
/// twice this margin per the expansion clamp (10 canvas units).
pub const CLAMP_MARGIN: i64 = 10 * SCALE;

/// Distance between a freshly created snake's head and its tail point
/// (20 canvas units).
pub const TAIL_OFFSET: i64 = 20 * SCALE;

/// Numerator of the tail-trim fraction: each tick trims
/// `distance * TRIM_NUM / TRIM_DEN` off the tail, slightly less than the
/// head's advance, so the body slowly lengthens.
pub const TRIM_NUM: i64 = 95;

/// Denominator of the tail-trim fraction.
pub const TRIM_DEN: i64 = 100;

/// Ticks between an autonomous snake's random turns.
pub const TURN_INTERVAL: u8 = 50;

/// Pill-spawn odds denominator: a pill spawns on a tick with probability
/// `min(1, frames_since_last_spawn / SPAWN_ODDS)`.
pub const SPAWN_ODDS: u64 = 10000;

/// The player's initial speed, in subunits per second (60 canvas units/s).
pub const PLAYER_SPEED: i64 = 60 * SCALE;

/// An autonomous snake's speed, in subunits per second (40 canvas units/s).
pub const ENEMY_SPEED: i64 = 40 * SCALE;

/// Speed gained from an `IncreaseSpeed` pill, in subunits per second
/// (5 canvas units/s).
pub const SPEED_BONUS: i64 = 5 * SCALE;

/// The player's starting head position.
pub const PLAYER_START_X: i64 = 400 * SCALE;

/// The player's starting head position.
pub const PLAYER_START_Y: i64 = 300 * SCALE;

/// Initial arena rectangle.
pub const ARENA_START_X: i64 = 300 * SCALE;

/// Initial arena rectangle.
pub const ARENA_START_Y: i64 = 200 * SCALE;

/// Initial arena rectangle.
pub const ARENA_START_W: i64 = 200 * SCALE;

/// Initial arena rectangle.
pub const ARENA_START_H: i64 = 200 * SCALE;

/// The exit hatch on the canvas's right edge.
pub const EXIT_X: i64 = 780 * SCALE;

/// The exit hatch on the canvas's right edge.
pub const EXIT_Y: i64 = 260 * SCALE;

/// The exit hatch on the canvas's right edge.
pub const EXIT_W: i64 = 20 * SCALE;

/// The exit hatch on the canvas's right edge.
pub const EXIT_H: i64 = 80 * SCALE;

/// Largest distance any actor may cover in one tick; speeds are capped so
/// that head coordinates stay far inside `i64` range.
pub const MAX_STEP: i64 = 2_000_000;

/// Cap on an actor's speed, in subunits per second.
pub const MAX_SPEED: i64 = 60_000_000;

/// All path and pill coordinates stay within this bound, which keeps every
/// collision computation inside `i64` range.
pub const COORD_LIMIT: i64 = 100_000_000;

/// Cap on a path's total length, which keeps length sums inside `i64`
/// range.
pub const MAX_TOTAL: i64 = 4_000_000_000_000;

} // verus!
