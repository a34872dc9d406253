//! Paddle state and the per-frame paddle controller.

use crate::side::{range_max, range_min, spec_go_left_key, spec_go_right_key, Key, Side};
use crate::{ARENA_HEIGHT, DT_LIMIT, PLAYER_SPEED, SCALE};
use vstd::prelude::*;

verus! {

/// The set of currently held logical keys, as sampled by the host
/// environment at the start of a frame.
#[derive(Copy, Clone)]
pub struct KeyState {
    pub a: bool,
    pub d: bool,
    pub left: bool,
    pub right: bool,
}

impl KeyState {
    /// Whether `k` is currently held.
    pub open spec fn spec_pressed(self, k: Key) -> bool {
        match k {
            Key::A => self.a,
            Key::D => self.d,
            Key::Left => self.left,
            Key::Right => self.right,
        }
    }

    pub fn pressed(&self, k: Key) -> (r: bool)
        ensures
            r == self.spec_pressed(k),
    {
        match k {
            Key::A => self.a,
            Key::D => self.d,
            Key::Left => self.left,
            Key::Right => self.right,
        }
    }
}

/// A player-controlled paddle: a side, a horizontal center position and a
/// fixed vertical center position, in milli-units.
#[derive(Copy, Clone)]
pub struct Paddle {
    pub side: Side,
    pub x: i64,
    pub y: i64,
}

impl Paddle {
    /// A paddle is well formed when its center lies within its side's
    /// permitted horizontal range and vertically within the arena.
    pub open spec fn wf(self) -> bool {
        &&& range_min(self.side) <= self.x <= range_max(self.side)
        &&& 0 <= self.y <= ARENA_HEIGHT
    }
}

/// The signed unit direction a side's held keys request: -1 for the side's
/// left key, +1 for its right key, summed so opposite presses cancel.
pub open spec fn direction_of(side: Side, keys: KeyState) -> int {
    (if keys.spec_pressed(spec_go_left_key(side)) {
        -1int
    } else {
        0int
    }) + (if keys.spec_pressed(spec_go_right_key(side)) {
        1int
    } else {
        0int
    })
}

/// `v` clamped into the closed interval [`lo`, `hi`].
pub open spec fn clamped(v: int, lo: int, hi: int) -> int {
    if v < lo {
        lo
    } else if v > hi {
        hi
    } else {
        v
    }
}

/// The paddle controller's result for one frame: the displacement
/// `direction * speed * dt` added to the position, clamped into the side's
/// permitted range. `dt` is in milliseconds, so the displacement divides the
/// speed (milli-units per second) by `SCALE`; the quotient is exact.
pub open spec fn moved_x(side: Side, x: int, keys: KeyState, dt: int) -> int {
    clamped(
        x + direction_of(side, keys) * (PLAYER_SPEED / SCALE) * dt,
        range_min(side),
        range_max(side),
    )
}

/// Create a paddle of `side` centered at (`x`, `y`).
pub fn initialize_player(side: Side, x: i64, y: i64) -> (p: Paddle)
    requires
        range_min(side) <= x <= range_max(side),
        0 <= y <= ARENA_HEIGHT,
    ensures
        p.side == side,
        p.x == x,
        p.y == y,
        p.wf(),
{
    Paddle { side, x, y }
}

/// Advance a paddle by one frame of `dt` milliseconds: combine the side's
/// held keys into a signed unit direction, move at the fixed paddle speed,
/// and clamp the result into the side's permitted range. The vertical
/// position never changes, and with no net direction the paddle stays put.
pub fn player(paddle: &mut Paddle, keys: &KeyState, dt: i64)
    requires
        old(paddle).wf(),
        0 <= dt <= DT_LIMIT,
    ensures
        final(paddle).side == old(paddle).side,
        final(paddle).y == old(paddle).y,
        final(paddle).x == moved_x(old(paddle).side, old(paddle).x as int, *keys, dt as int),
        final(paddle).wf(),
        direction_of(old(paddle).side, *keys) == 0 ==> final(paddle).x == old(paddle).x,
{
    let left: i64 = if keys.pressed(paddle.side.go_left_key()) {
        -1
    } else {
        0
    };
    let right: i64 = if keys.pressed(paddle.side.go_right_key()) {
        1
    } else {
        0
    };
    let direction: i64 = left + right;
    let step: i64 = 60 * dt;
    proof {
        let d = direction_of(old(paddle).side, *keys);
        assert(d == direction as int);
        assert(PLAYER_SPEED / SCALE == 60);
        if direction == 1 {
            assert(d * 60 * dt == 60 * (dt as int)) by (nonlinear_arith)
                requires
                    d == 1,
            ;
        } else if direction == -1 {
            assert(d * 60 * dt == -(60 * (dt as int))) by (nonlinear_arith)
                requires
                    d == -1,
            ;
        } else {
            assert(d * 60 * dt == 0) by (nonlinear_arith)
                requires
                    d == 0,
            ;
        }
    }
    let target: i64 = if direction == 1 {
        paddle.x + step
    } else if direction == -1 {
        paddle.x - step
    } else {
        paddle.x
    };
    let (left_limit, right_limit) = paddle.side.range();
    paddle.x = if target < left_limit {
        left_limit
    } else if target > right_limit {
        right_limit
    } else {
        target
    };
}

} // verus!
