//! Ball state, motion integration and collision handling.

use crate::paddle::Paddle;
use crate::side::Side;
use crate::{
    ARENA_HALF_HEIGHT, ARENA_HALF_WIDTH, ARENA_HEIGHT, ARENA_WIDTH, BALL_RADIUS, BALL_VELOCITY_X,
    BALL_VELOCITY_Y, DT_LIMIT, GRAVITY_ACCELERATION, JITTER_MAX, JITTER_MIN, PLAYER_HALF_HEIGHT,
    PLAYER_HALF_WIDTH, POS_LIMIT, SCALE, VEL_LIMIT,
};
use rand::Rng;
use vstd::arithmetic::div_mod::{
    lemma_div_is_ordered, lemma_div_multiples_vanish, lemma_div_pos_is_pos,
};
use vstd::prelude::*;

verus! {

/// The ball: center position, velocity and radius, in milli-units and
/// milli-units per second.
#[derive(Copy, Clone)]
pub struct Ball {
    pub x: i64,
    pub y: i64,
    pub vx: i64,
    pub vy: i64,
    pub radius: i64,
}

impl Ball {
    /// Bounds under which a simulation step is free of overflow: positions
    /// and velocities within the library's operating envelope, radius
    /// non-negative and no larger than the arena.
    pub open spec fn in_bounds(self) -> bool {
        &&& -POS_LIMIT <= self.x <= POS_LIMIT
        &&& -POS_LIMIT <= self.y <= POS_LIMIT
        &&& -VEL_LIMIT <= self.vx <= VEL_LIMIT
        &&& -VEL_LIMIT <= self.vy <= VEL_LIMIT
        &&& 0 <= self.radius <= ARENA_HEIGHT
    }
}

/// Fixed-point product of a milli-unit quantity `a` with a non-negative
/// factor `b` in thousandths, truncated towards zero, exactly as the
/// executable step computes it.
pub open spec fn scaled(a: int, b: int) -> int {
    if a >= 0 {
        (a * b) / (SCALE as int)
    } else {
        -((-a * b) / (SCALE as int))
    }
}

/// The magnitude of `v`.
pub open spec fn magnitude(v: int) -> int {
    if v >= 0 {
        v
    } else {
        -v
    }
}

/// Multiply `a` (milli-units) by `b` (thousandths), truncating towards zero.
fn scale_mul(a: i64, b: i64) -> (r: i64)
    requires
        -5 * VEL_LIMIT <= a <= 5 * VEL_LIMIT,
        0 <= b <= DT_LIMIT,
    ensures
        r == scaled(a as int, b as int),
        -500_000_000_000_000 <= r <= 500_000_000_000_000,
{
    proof {
        assert(magnitude(a as int) * b <= 500_000_000_000_000_000) by (nonlinear_arith)
            requires
                0 <= magnitude(a as int) <= 5_000_000_000,
                0 <= b <= 100_000_000,
        ;
        assert(magnitude(a as int) * b >= 0) by (nonlinear_arith)
            requires
                0 <= magnitude(a as int),
                0 <= b,
        ;
        lemma_div_pos_is_pos(magnitude(a as int) * b, SCALE as int);
        lemma_div_is_ordered(magnitude(a as int) * b, 500_000_000_000_000_000, SCALE as int);
    }
    if a >= 0 {
        let prod: u64 = (a as u64) * (b as u64);
        (prod / 1000) as i64
    } else {
        let mag: u64 = (-a) as u64;
        let prod: u64 = mag * (b as u64);
        -((prod / 1000) as i64)
    }
}

/// Gravity's exact velocity change over `dt` milliseconds, in milli-units
/// per second (negative: downward).
pub open spec fn gravity_dv(dt: int) -> int {
    scaled(GRAVITY_ACCELERATION as int, dt)
}

/// The gravity update over `dt` milliseconds is exact: no truncation is
/// lost, since the acceleration is a whole multiple of the fixed-point
/// scale.
pub proof fn lemma_gravity_dv(dt: int)
    requires
        0 <= dt,
    ensures
        gravity_dv(dt) == -40 * dt,
        gravity_dv(dt) / 2 == -20 * dt,
{
    assert(40000 * dt == 1000 * (40 * dt));
    lemma_div_multiples_vanish(40 * dt, 1000);
    assert(-40 * dt == 2 * (-20 * dt));
    lemma_div_multiples_vanish(-20 * dt, 2);
}

/// Create the ball at the arena center with the initial velocity and radius.
pub fn initialize_ball() -> (b: Ball)
    ensures
        b.x == ARENA_HALF_WIDTH,
        b.y == ARENA_HALF_HEIGHT,
        b.vx == BALL_VELOCITY_X,
        b.vy == BALL_VELOCITY_Y,
        b.radius == BALL_RADIUS,
        b.in_bounds(),
{
    Ball {
        x: ARENA_HALF_WIDTH,
        y: ARENA_HALF_HEIGHT,
        vx: BALL_VELOCITY_X,
        vy: BALL_VELOCITY_Y,
        radius: BALL_RADIUS,
    }
}

/// Advance the ball by one motion step of `dt` milliseconds under constant
/// gravity. The horizontal position moves by `vx * dt` with the horizontal
/// velocity untouched; the vertical position moves using the midpoint
/// velocity estimate `vy + g*dt/2` rather than the start-of-step velocity;
/// only then does the vertical velocity take the full gravity update. This
/// semi-implicit ordering is not plain Euler integration and is what the
/// numeric trajectories rely on.
pub fn move_ball(ball: &mut Ball, dt: i64)
    requires
        old(ball).in_bounds(),
        0 <= dt <= DT_LIMIT,
    ensures
        final(ball).x == old(ball).x + scaled(old(ball).vx as int, dt as int),
        final(ball).y == old(ball).y + scaled(
            old(ball).vy + gravity_dv(dt as int) / 2,
            dt as int,
        ),
        final(ball).vx == old(ball).vx,
        final(ball).vy == old(ball).vy + gravity_dv(dt as int),
        final(ball).vy == old(ball).vy - 40 * dt,
        final(ball).radius == old(ball).radius,
{
    proof {
        lemma_gravity_dv(dt as int);
    }
    let dx = scale_mul(ball.vx, dt);
    ball.x = ball.x + dx;
    let half_dv: i64 = 20 * dt;
    let mid_vy: i64 = ball.vy - half_dv;
    let dy = scale_mul(mid_vy, dt);
    ball.y = ball.y + dy;
    ball.vy = ball.vy - 40 * dt;
}

/// Whether the point (`x`, `y`) lies in the closed axis-aligned rectangle
/// with the given edges.
pub open spec fn spec_point_in_rect(
    x: int,
    y: int,
    left: int,
    bottom: int,
    right: int,
    top: int,
) -> bool {
    left <= x <= right && bottom <= y <= top
}

pub fn point_in_rect(x: i64, y: i64, left: i64, bottom: i64, right: i64, top: i64) -> (r: bool)
    ensures
        r == spec_point_in_rect(x as int, y as int, left as int, bottom as int, right as int, top as int),
{
    x >= left && x <= right && y >= bottom && y <= top
}

/// The ball's velocity after the wall checks of one collision pass: the
/// first of floor, ceiling, left wall, right wall whose condition holds
/// reflects its velocity component; otherwise the velocity is unchanged.
/// The result is the pair (horizontal, vertical).
pub open spec fn wall_reflect(b: Ball) -> (int, int) {
    if b.y <= b.radius && b.vy < 0 {
        (b.vx as int, -(b.vy as int))
    } else if b.y >= ARENA_HEIGHT - b.radius && b.vy > 0 {
        (b.vx as int, -(b.vy as int))
    } else if b.x <= b.radius && b.vx < 0 {
        (-(b.vx as int), b.vy as int)
    } else if b.x >= ARENA_WIDTH - b.radius && b.vx > 0 {
        (-(b.vx as int), b.vy as int)
    } else {
        (b.vx as int, b.vy as int)
    }
}

/// Reflect the ball's velocity off the arena walls: a falling ball touching
/// the floor or a rising ball touching the ceiling has its vertical
/// velocity negated; otherwise a ball moving into the left or right wall
/// has its horizontal velocity negated. The four checks are mutually
/// exclusive, so at most one component changes, and the position is left
/// for the next motion step to adjust.
pub fn bounce_walls(ball: &mut Ball)
    requires
        old(ball).in_bounds(),
    ensures
        final(ball).x == old(ball).x,
        final(ball).y == old(ball).y,
        final(ball).radius == old(ball).radius,
        (final(ball).vx as int, final(ball).vy as int) == wall_reflect(*old(ball)),
        old(ball).y <= old(ball).radius && old(ball).vy < 0 ==> final(ball).vy == -old(ball).vy
            && final(ball).vx == old(ball).vx,
        final(ball).in_bounds(),
{
    if ball.y <= ball.radius && ball.vy < 0 {
        ball.vy = -ball.vy;
    } else if ball.y >= ARENA_HEIGHT - ball.radius && ball.vy > 0 {
        ball.vy = -ball.vy;
    } else if ball.x <= ball.radius && ball.vx < 0 {
        ball.vx = -ball.vx;
    } else if ball.x >= ARENA_WIDTH - ball.radius && ball.vx > 0 {
        ball.vx = -ball.vx;
    }
}

/// Whether the ball's center lies within the paddle's bounding box expanded
/// by the ball's radius on every side (an inclusive containment test).
pub open spec fn in_paddle_box(b: Ball, p: Paddle) -> bool {
    spec_point_in_rect(
        b.x as int,
        b.y as int,
        p.x - PLAYER_HALF_WIDTH - b.radius,
        p.y - PLAYER_HALF_HEIGHT - b.radius,
        p.x + PLAYER_HALF_WIDTH + b.radius,
        p.y + PLAYER_HALF_HEIGHT + b.radius,
    )
}

/// The horizontal velocity a paddle contact assigns: the magnitude of the
/// incoming horizontal velocity scaled by `jitter` thousandths, directed
/// away from the paddle's half of the arena.
pub open spec fn pushed_vx(side: Side, vx: int, jitter: int) -> int {
    match side {
        Side::Left => scaled(magnitude(vx), jitter),
        Side::Right => -scaled(magnitude(vx), jitter),
    }
}

/// A paddle contact always pushes the ball towards the opponent's half: a
/// Left paddle leaves a non-negative horizontal velocity and a Right paddle
/// a non-positive one, whatever multiplier the jitter drew.
pub proof fn lemma_push_direction(side: Side, vx: int, jitter: int)
    requires
        0 <= jitter,
    ensures
        side == Side::Left ==> pushed_vx(side, vx, jitter) >= 0,
        side == Side::Right ==> pushed_vx(side, vx, jitter) <= 0,
{
    assert(magnitude(vx) * jitter >= 0) by (nonlinear_arith)
        requires
            magnitude(vx) >= 0,
            jitter >= 0,
    ;
    lemma_div_pos_is_pos(magnitude(vx) * jitter, SCALE as int);
}

/// Relies on rand::thread_rng and rand::Rng::gen_range: `gen_range(low..high)`
/// draws uniformly from the half-open range [low, high) and panics only on
/// an empty range, which the precondition rules out.
#[verifier::external_body]
fn gen_range_i64(low: i64, high: i64) -> (r: i64)
    requires
        low < high,
    ensures
        low <= r < high,
{
    rand::thread_rng().gen_range(low..high)
}

/// Apply one paddle contact to a falling ball: reflect the vertical
/// velocity upwards and replace the horizontal velocity by its magnitude
/// times the drawn `jitter` multiplier (in thousandths), directed away from
/// the paddle's side. The position is left untouched.
pub fn paddle_bounce(ball: &mut Ball, paddle: &Paddle, jitter: i64)
    requires
        old(ball).in_bounds(),
        paddle.wf(),
        in_paddle_box(*old(ball), *paddle),
        old(ball).vy < 0,
        JITTER_MIN <= jitter < JITTER_MAX,
    ensures
        final(ball).x == old(ball).x,
        final(ball).y == old(ball).y,
        final(ball).radius == old(ball).radius,
        final(ball).vy == -old(ball).vy,
        final(ball).vx == pushed_vx(paddle.side, old(ball).vx as int, jitter as int),
        paddle.side == Side::Left ==> final(ball).vx >= 0,
        paddle.side == Side::Right ==> final(ball).vx <= 0,
{
    proof {
        lemma_push_direction(paddle.side, old(ball).vx as int, jitter as int);
    }
    ball.vy = -ball.vy;
    let mag: i64 = if ball.vx >= 0 {
        ball.vx
    } else {
        -ball.vx
    };
    let pushed = scale_mul(mag, jitter);
    match paddle.side {
        Side::Left => {
            ball.vx = pushed;
        }
        Side::Right => {
            ball.vx = -pushed;
        }
    }
}

/// No paddle's expanded box contains the ball's center.
pub open spec fn no_contact(b: Ball, ps: Seq<Paddle>) -> bool {
    forall|i: int| 0 <= i < ps.len() ==> !in_paddle_box(b, #[trigger] ps[i])
}

/// `i` is the first paddle in `ps` whose expanded box contains the ball's
/// center.
pub open spec fn first_contact(b: Ball, ps: Seq<Paddle>, i: int) -> bool {
    &&& 0 <= i < ps.len()
    &&& in_paddle_box(b, ps[i])
    &&& forall|k: int| 0 <= k < i ==> !in_paddle_box(b, #[trigger] ps[k])
}

/// At most one paddle is the first contact.
pub proof fn lemma_first_contact_unique(b: Ball, ps: Seq<Paddle>, i: int, k: int)
    requires
        first_contact(b, ps, i),
        first_contact(b, ps, k),
    ensures
        i == k,
{
    if i < k {
        assert(!in_paddle_box(b, ps[i]));
    } else if k < i {
        assert(!in_paddle_box(b, ps[k]));
    }
}

/// One collision pass over the arena: the wall checks run first and at most
/// one of them reflects a velocity component; then every paddle is tested
/// in order, and the first one whose expanded box contains the center of a
/// falling ball reflects it upwards and re-randomizes the horizontal speed.
/// A ball already rising is left alone, so at most one paddle fires per
/// pass, though a wall and a paddle may both fire in the same pass.
pub fn bounce(ball: &mut Ball, paddles: &Vec<Paddle>)
    requires
        old(ball).in_bounds(),
        forall|i: int| 0 <= i < paddles@.len() ==> (#[trigger] paddles@[i]).wf(),
    ensures
        final(ball).x == old(ball).x,
        final(ball).y == old(ball).y,
        final(ball).radius == old(ball).radius,
        ({
            let wv = wall_reflect(*old(ball));
            &&& (wv.1 >= 0 || no_contact(*old(ball), paddles@) ==> final(ball).vx == wv.0
                && final(ball).vy == wv.1)
            &&& (wv.1 < 0 && !no_contact(*old(ball), paddles@) ==> exists|i: int, j: int|
                first_contact(*old(ball), paddles@, i) && JITTER_MIN <= j < JITTER_MAX
                    && final(ball).vy == -wv.1 && final(ball).vx == #[trigger] pushed_vx(
                    #[trigger] paddles@[i].side,
                    wv.0,
                    j,
                ))
            &&& (forall|i: int|
                wv.1 < 0 && #[trigger] first_contact(*old(ball), paddles@, i)
                    && paddles@[i].side == Side::Left ==> final(ball).vx >= 0)
            &&& (forall|i: int|
                wv.1 < 0 && #[trigger] first_contact(*old(ball), paddles@, i)
                    && paddles@[i].side == Side::Right ==> final(ball).vx <= 0)
        }),
{
    let ghost b0 = *old(ball);
    bounce_walls(ball);
    let ghost wv = wall_reflect(b0);
    let ghost mut fired = false;
    let ghost mut gi = 0int;
    let ghost mut gj = 0int;
    let mut idx: usize = 0;
    while idx < paddles.len()
        invariant
            0 <= idx <= paddles@.len(),
            forall|i: int| 0 <= i < paddles@.len() ==> (#[trigger] paddles@[i]).wf(),
            b0.in_bounds(),
            wv == wall_reflect(b0),
            ball.x == b0.x,
            ball.y == b0.y,
            ball.radius == b0.radius,
            !fired ==> ball.vx == wv.0 && ball.vy == wv.1 && ball.in_bounds(),
            !fired && wv.1 < 0 ==> forall|k: int|
                0 <= k < idx ==> !in_paddle_box(b0, #[trigger] paddles@[k]),
            wv.1 >= 0 ==> !fired,
            fired ==> wv.1 < 0 && first_contact(b0, paddles@, gi) && JITTER_MIN <= gj < JITTER_MAX
                && ball.vy == -wv.1 && ball.vx == pushed_vx(paddles@[gi].side, wv.0, gj)
                && (paddles@[gi].side == Side::Left ==> ball.vx >= 0) && (paddles@[gi].side
                == Side::Right ==> ball.vx <= 0),
        decreases paddles@.len() - idx,
    {
        let p = paddles[idx];
        let box_left = p.x - PLAYER_HALF_WIDTH - ball.radius;
        let box_bottom = p.y - PLAYER_HALF_HEIGHT - ball.radius;
        let box_right = p.x + PLAYER_HALF_WIDTH + ball.radius;
        let box_top = p.y + PLAYER_HALF_HEIGHT + ball.radius;
        if point_in_rect(ball.x, ball.y, box_left, box_bottom, box_right, box_top) {
            if ball.vy < 0 {
                let jitter = gen_range_i64(JITTER_MIN, JITTER_MAX);
                proof {
                    fired = true;
                    gi = idx as int;
                    gj = jitter as int;
                }
                paddle_bounce(ball, &p, jitter);
            }
        }
        idx = idx + 1;
    }
    proof {
        if fired {
            assert(first_contact(b0, paddles@, gi));
            assert forall|i: int|
                wv.1 < 0 && #[trigger] first_contact(b0, paddles@, i) implies paddles@[i].side
                == paddles@[gi].side by {
                lemma_first_contact_unique(b0, paddles@, i, gi);
            }
        } else {
            if wv.1 < 0 && !no_contact(b0, paddles@) {
                assert(false);
            }
        }
    }
}

} // verus!
