//! The per-tick input snapshot the simulation consumes: which of the four
//! directional keys is currently held.  How raw device events become this
//! snapshot is the input collaborator's business, outside the core.

use vstd::prelude::*;
use crate::geometry::Direction;

verus! {

/// A key the simulation reacts to.
#[derive(Clone, Copy, Debug, PartialEq, Eq, Structural)]
pub enum Key {
    Up,
    Down,
    Left,
    Right,
    Other,
}

/// Held-state of the four directional keys, as of one tick.
#[derive(Clone, Copy, Debug, PartialEq, Eq, Structural)]
pub struct KeyState {
    pub up: bool,
    pub down: bool,
    pub left: bool,
    pub right: bool,
}

impl KeyState {
    /// Whether `key` is held; `Other` never counts as held.
    pub open spec fn spec_pressed(self, key: Key) -> bool {
        match key {
            Key::Up => self.up,
            Key::Down => self.down,
            Key::Left => self.left,
            Key::Right => self.right,
            Key::Other => false,
        }
    }

    /// A snapshot with nothing held.
    pub fn new() -> (s: KeyState)
        ensures
            s == (KeyState { up: false, down: false, left: false, right: false }),
            forall|k: Key| !s.spec_pressed(k),
    {
        KeyState { up: false, down: false, left: false, right: false }
    }

    pub fn is_pressed(&self, key: Key) -> (r: bool)
        ensures
            r == self.spec_pressed(key),
    {
        match key {
            Key::Up => self.up,
            Key::Down => self.down,
            Key::Left => self.left,
            Key::Right => self.right,
            Key::Other => false,
        }
    }

    /// Records a key going down (`value` true) or up (`value` false);
    /// `Other` keys are ignored.
    pub fn set_key_pressed(&mut self, key: Key, value: bool)
        ensures
            forall|k: Key|
                final(self).spec_pressed(k) == (if k == key {
                    value && !(k is Other)
                } else {
                    old(self).spec_pressed(k)
                }),
    {
        match key {
            Key::Up => self.up = value,
            Key::Down => self.down = value,
            Key::Left => self.left = value,
            Key::Right => self.right = value,
            Key::Other => {},
        }
    }
}

/// The direction a snapshot requests.  Simultaneously held keys resolve
/// deterministically by the fixed priority Up > Down > Left > Right.
pub open spec fn spec_direction(ks: KeyState) -> Option<Direction> {
    if ks.up {
        Option::Some(Direction::Up)
    } else if ks.down {
        Option::Some(Direction::Down)
    } else if ks.left {
        Option::Some(Direction::Left)
    } else if ks.right {
        Option::Some(Direction::Right)
    } else {
        Option::None
    }
}

/// Resolves the held keys to the requested direction, first match wins.
pub fn direction(key_state: &KeyState) -> (d: Option<Direction>)
    ensures
        d == spec_direction(*key_state),
{
    if key_state.is_pressed(Key::Up) {
        return Option::Some(Direction::Up);
    }
    if key_state.is_pressed(Key::Down) {
        return Option::Some(Direction::Down);
    }
    if key_state.is_pressed(Key::Left) {
        return Option::Some(Direction::Left);
    }
    if key_state.is_pressed(Key::Right) {
        return Option::Some(Direction::Right);
    }
    Option::None
}

} // verus!
