//! The simulation's single source of randomness.
//!
//! Spawn timing, pill kinds, spawn positions and the rivals' turn choices
//! all draw from the process-wide generator.  Nothing is assumed of the
//! values drawn: every caller states what holds of each possible outcome.

use vstd::prelude::*;

verus! {

/// Relies on rand::random: an arbitrary value of the type, drawn from the
/// thread-local generator.  No clause is stated, since nothing can be
/// promised of a random value.
pub assume_specification<T>[ rand::random::<T> ]() -> (r: T)
    where
        rand::distributions::Standard: rand::distributions::Distribution<T>,
;

} // verus!
