//! The two paddle sides, their key mappings and their permitted ranges.

use crate::{ARENA_HALF_WIDTH, ARENA_WIDTH, PLAYER_HALF_WIDTH};
use vstd::prelude::*;

verus! {

/// A logical input key. The host environment translates its own key codes
/// into these four before handing key state to the simulation.
#[derive(Copy, Clone, PartialEq, Eq, Structural, Debug)]
pub enum Key {
    /// Moves the left paddle towards the left wall.
    A,
    /// Moves the left paddle towards the center line.
    D,
    /// Moves the right paddle towards the center line.
    Left,
    /// Moves the right paddle towards the right wall.
    Right,
}

/// Which half of the arena a paddle is confined to.
#[derive(Copy, Clone, PartialEq, Eq, Structural, Debug)]
pub enum Side {
    Left,
    Right,
}

/// The key that moves a paddle of this side to the left.
pub open spec fn spec_go_left_key(side: Side) -> Key {
    match side {
        Side::Left => Key::A,
        Side::Right => Key::Left,
    }
}

/// The key that moves a paddle of this side to the right.
pub open spec fn spec_go_right_key(side: Side) -> Key {
    match side {
        Side::Left => Key::D,
        Side::Right => Key::Right,
    }
}

/// Smallest permitted paddle center position for this side: the arena's left
/// edge or the center line, inset by half the paddle width.
pub open spec fn range_min(side: Side) -> int {
    match side {
        Side::Left => PLAYER_HALF_WIDTH as int,
        Side::Right => ARENA_HALF_WIDTH + PLAYER_HALF_WIDTH,
    }
}

/// Largest permitted paddle center position for this side: the center line
/// or the arena's right edge, inset by half the paddle width.
pub open spec fn range_max(side: Side) -> int {
    match side {
        Side::Left => ARENA_HALF_WIDTH - PLAYER_HALF_WIDTH,
        Side::Right => ARENA_WIDTH - PLAYER_HALF_WIDTH,
    }
}

impl Side {
    /// Get key for move left.
    pub fn go_left_key(&self) -> (k: Key)
        ensures
            k == spec_go_left_key(*self),
    {
        match self {
            Side::Left => Key::A,
            Side::Right => Key::Left,
        }
    }

    /// Get key for move right.
    pub fn go_right_key(&self) -> (k: Key)
        ensures
            k == spec_go_right_key(*self),
    {
        match self {
            Side::Left => Key::D,
            Side::Right => Key::Right,
        }
    }

    /// Determine the permissible range of the paddle center on this side.
    pub fn range(&self) -> (r: (i64, i64))
        ensures
            r.0 == range_min(*self),
            r.1 == range_max(*self),
            0 < r.0 < r.1 < ARENA_WIDTH,
    {
        match self {
            Side::Left => (PLAYER_HALF_WIDTH, ARENA_HALF_WIDTH - PLAYER_HALF_WIDTH),
            Side::Right => (ARENA_HALF_WIDTH + PLAYER_HALF_WIDTH, ARENA_WIDTH - PLAYER_HALF_WIDTH),
        }
    }
}

} // verus!
