//! Concrete scenarios for the volleyball simulation. All geometry is in
//! milli-units: one arena unit is 1000, so the 700-unit arena is 700_000.

use cat_volleyball::ball::{bounce, bounce_walls, initialize_ball, move_ball, paddle_bounce, Ball};
use cat_volleyball::paddle::{initialize_player, player, KeyState};
use cat_volleyball::side::{Key, Side};

fn no_keys() -> KeyState {
    KeyState { a: false, d: false, left: false, right: false }
}

#[test]
fn key_mapping_is_side_specific() {
    assert_eq!(Side::Left.go_left_key(), Key::A);
    assert_eq!(Side::Left.go_right_key(), Key::D);
    assert_eq!(Side::Right.go_left_key(), Key::Left);
    assert_eq!(Side::Right.go_right_key(), Key::Right);
}

#[test]
fn permitted_ranges() {
    assert_eq!(Side::Left.range(), (11_000, 339_000));
    assert_eq!(Side::Right.range(), (361_000, 689_000));
}

#[test]
fn ball_starts_at_center() {
    let b = initialize_ball();
    assert_eq!((b.x, b.y), (350_000, 350_000));
    assert_eq!((b.vx, b.vy), (30_000, 0));
    assert_eq!(b.radius, 4_000);
}

#[test]
fn paddle_moves_right_within_range() {
    // Left paddle at x=50, move right for 1 s at speed 60: target 110,
    // inside [11, 339], so the position becomes 110.
    let mut p = initialize_player(Side::Left, 50_000, 16_000);
    let keys = KeyState { d: true, ..no_keys() };
    player(&mut p, &keys, 1000);
    assert_eq!(p.x, 110_000);
}

#[test]
fn paddle_move_clamps_at_range_max() {
    // Left paddle at x=335, move right for 1 s: raw target 395 is clamped
    // to the range maximum 339.
    let mut p = initialize_player(Side::Left, 335_000, 16_000);
    let keys = KeyState { d: true, ..no_keys() };
    player(&mut p, &keys, 1000);
    assert_eq!(p.x, 339_000);
}

#[test]
fn paddle_move_clamps_at_range_min() {
    let mut p = initialize_player(Side::Left, 20_000, 16_000);
    let keys = KeyState { a: true, ..no_keys() };
    player(&mut p, &keys, 1000);
    assert_eq!(p.x, 11_000);
}

#[test]
fn paddle_unmoved_without_input() {
    let mut p = initialize_player(Side::Left, 123_000, 16_000);
    player(&mut p, &no_keys(), 5000);
    assert_eq!(p.x, 123_000);
    assert_eq!(p.y, 16_000);
}

#[test]
fn paddle_unmoved_on_opposite_presses() {
    let mut p = initialize_player(Side::Right, 500_000, 16_000);
    let keys = KeyState { left: true, right: true, ..no_keys() };
    player(&mut p, &keys, 2500);
    assert_eq!(p.x, 500_000);
}

#[test]
fn paddle_unmoved_for_zero_dt() {
    let mut p = initialize_player(Side::Right, 400_000, 16_000);
    let keys = KeyState { right: true, ..no_keys() };
    player(&mut p, &keys, 0);
    assert_eq!(p.x, 400_000);
}

#[test]
fn right_paddle_moves_left() {
    let mut p = initialize_player(Side::Right, 689_000, 16_000);
    let keys = KeyState { left: true, ..no_keys() };
    player(&mut p, &keys, 1000);
    assert_eq!(p.x, 629_000);
}

#[test]
fn other_sides_keys_do_not_move_a_paddle() {
    let mut p = initialize_player(Side::Left, 100_000, 16_000);
    let keys = KeyState { left: true, right: true, ..no_keys() };
    player(&mut p, &keys, 1000);
    assert_eq!(p.x, 100_000);
}

#[test]
fn motion_step_is_exact() {
    // From the start state (350, 350) with velocity (30, 0), one second of
    // gravity -40: x moves by 30, y by the midpoint estimate -20, and the
    // vertical velocity ends at -40.
    let mut b = initialize_ball();
    move_ball(&mut b, 1000);
    assert_eq!(b.x, 380_000);
    assert_eq!(b.y, 330_000);
    assert_eq!(b.vx, 30_000);
    assert_eq!(b.vy, -40_000);
}

#[test]
fn motion_keeps_horizontal_velocity() {
    let mut b = Ball { x: 100_000, y: 200_000, vx: -7_000, vy: 9_000, radius: 4_000 };
    move_ball(&mut b, 333);
    assert_eq!(b.vx, -7_000);
    // vy_after = vy + g*dt = 9000 - 40*333
    assert_eq!(b.vy, 9_000 - 40 * 333);
}

#[test]
fn motion_step_zero_dt_changes_nothing() {
    let mut b = Ball { x: 100_000, y: 200_000, vx: -7_000, vy: 9_000, radius: 4_000 };
    move_ball(&mut b, 0);
    assert_eq!((b.x, b.y, b.vx, b.vy), (100_000, 200_000, -7_000, 9_000));
}

#[test]
fn floor_reflects_falling_ball() {
    // Ball at (350, 4) with velocity (30, -20) and radius 4: the floor
    // condition fires and only the vertical velocity is negated.
    let mut b = Ball { x: 350_000, y: 4_000, vx: 30_000, vy: -20_000, radius: 4_000 };
    bounce_walls(&mut b);
    assert_eq!(b.vy, 20_000);
    assert_eq!(b.vx, 30_000);
    assert_eq!((b.x, b.y), (350_000, 4_000));
}

#[test]
fn floor_ignores_rising_ball() {
    let mut b = Ball { x: 350_000, y: 4_000, vx: 30_000, vy: 20_000, radius: 4_000 };
    bounce_walls(&mut b);
    assert_eq!(b.vy, 20_000);
    assert_eq!(b.vx, 30_000);
}

#[test]
fn right_wall_reflects_ball() {
    // Ball at (696, 350) moving right in the 700-wide arena: the right-wall
    // condition fires and the horizontal velocity becomes -10.
    let mut b = Ball { x: 696_000, y: 350_000, vx: 10_000, vy: 5_000, radius: 4_000 };
    bounce_walls(&mut b);
    assert_eq!(b.vx, -10_000);
    assert_eq!(b.vy, 5_000);
}

#[test]
fn left_wall_reflects_ball() {
    let mut b = Ball { x: 3_000, y: 350_000, vx: -10_000, vy: 5_000, radius: 4_000 };
    bounce_walls(&mut b);
    assert_eq!(b.vx, 10_000);
    assert_eq!(b.vy, 5_000);
}

#[test]
fn ceiling_reflects_rising_ball() {
    let mut b = Ball { x: 350_000, y: 697_000, vx: 1_000, vy: 5_000, radius: 4_000 };
    bounce_walls(&mut b);
    assert_eq!(b.vy, -5_000);
    assert_eq!(b.vx, 1_000);
}

#[test]
fn wall_checks_leave_free_ball_alone() {
    let mut b = Ball { x: 350_000, y: 350_000, vx: 10_000, vy: -5_000, radius: 4_000 };
    bounce_walls(&mut b);
    assert_eq!((b.vx, b.vy), (10_000, -5_000));
}

#[test]
fn paddle_contact_with_unit_jitter_mirrors_speed() {
    // jitter 1000 is the multiplier 1.0: the new horizontal speed is the
    // old magnitude, pushed rightwards by a Left paddle.
    let p = initialize_player(Side::Left, 50_000, 16_000);
    let mut b = Ball { x: 50_000, y: 20_000, vx: -5_000, vy: -10_000, radius: 4_000 };
    paddle_bounce(&mut b, &p, 1000);
    assert_eq!(b.vy, 10_000);
    assert_eq!(b.vx, 5_000);
}

#[test]
fn paddle_contact_scales_speed_by_jitter() {
    let p = initialize_player(Side::Right, 650_000, 16_000);
    let mut b = Ball { x: 650_000, y: 20_000, vx: 5_000, vy: -10_000, radius: 4_000 };
    paddle_bounce(&mut b, &p, 700);
    assert_eq!(b.vy, 10_000);
    // 5000 * 0.7, pushed leftwards by a Right paddle
    assert_eq!(b.vx, -3_500);
}

#[test]
fn left_paddle_contact_pushes_rightward() {
    // Through the randomized pass: whatever multiplier is drawn from
    // [0.6, 1.4), the resulting speed lies in [3, 7) units/s, rightwards.
    let paddles = vec![initialize_player(Side::Left, 50_000, 16_000)];
    for _ in 0..64 {
        let mut b = Ball { x: 50_000, y: 20_000, vx: -5_000, vy: -10_000, radius: 4_000 };
        bounce(&mut b, &paddles);
        assert_eq!(b.vy, 10_000);
        assert!(b.vx >= 3_000);
        assert!(b.vx < 7_000);
    }
}

#[test]
fn right_paddle_contact_pushes_leftward() {
    let paddles = vec![initialize_player(Side::Right, 650_000, 16_000)];
    for _ in 0..64 {
        let mut b = Ball { x: 650_000, y: 20_000, vx: 5_000, vy: -10_000, radius: 4_000 };
        bounce(&mut b, &paddles);
        assert_eq!(b.vy, 10_000);
        assert!(b.vx <= -3_000);
        assert!(b.vx > -7_000);
    }
}

#[test]
fn rising_ball_inside_paddle_box_is_unaffected() {
    let paddles = vec![initialize_player(Side::Left, 50_000, 16_000)];
    let mut b = Ball { x: 50_000, y: 20_000, vx: -5_000, vy: 10_000, radius: 4_000 };
    bounce(&mut b, &paddles);
    assert_eq!((b.vx, b.vy), (-5_000, 10_000));
}

#[test]
fn ball_outside_every_paddle_box_is_unaffected() {
    let paddles = vec![
        initialize_player(Side::Left, 50_000, 16_000),
        initialize_player(Side::Right, 650_000, 16_000),
    ];
    let mut b = Ball { x: 350_000, y: 350_000, vx: -5_000, vy: -10_000, radius: 4_000 };
    bounce(&mut b, &paddles);
    assert_eq!((b.vx, b.vy), (-5_000, -10_000));
}

#[test]
fn bounce_without_paddles_is_the_wall_pass() {
    let paddles = Vec::new();
    let mut b = Ball { x: 696_000, y: 350_000, vx: 10_000, vy: 5_000, radius: 4_000 };
    bounce(&mut b, &paddles);
    assert_eq!(b.vx, -10_000);
    assert_eq!(b.vy, 5_000);
}

#[test]
fn floor_bounce_preempts_paddle_in_one_pass() {
    // A ball falling onto the floor inside a paddle's box: the floor check
    // flips it to rising first, so the paddle check then leaves it alone.
    let paddles = vec![initialize_player(Side::Left, 50_000, 16_000)];
    let mut b = Ball { x: 50_000, y: 3_000, vx: -5_000, vy: -10_000, radius: 4_000 };
    bounce(&mut b, &paddles);
    assert_eq!((b.vx, b.vy), (-5_000, 10_000));
}
