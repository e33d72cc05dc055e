//! The physics and collision step, driven on concrete states.
use pong_core::ball::{sat_add_signed, step_ball, Ball, XEvent};
use pong_core::geometry::GameArea;

fn area() -> GameArea {
    // interior: 128 columns x 26 rows
    GameArea::new(0, 0, 130, 28)
}

fn ball(x: u16, y: u16, vx: i8, vy: i8, powered: bool) -> Ball {
    Ball { x, y, vx, vy, is_powered: powered }
}

#[test]
fn saturating_moves() {
    assert_eq!(sat_add_signed(0, -5), 0);
    assert_eq!(sat_add_signed(3, -6), 0);
    assert_eq!(sat_add_signed(65535, 5), 65535);
    assert_eq!(sat_add_signed(10, -3), 7);
    assert_eq!(sat_add_signed(10, 3), 13);
}

#[test]
fn wall_bounce_top() {
    // ball on the top edge moving up: vertical velocity inverts, row stays 0
    let b = ball(50, 0, 3, -2, false);
    let r = step_ball(&b, 10, 5, 10, 5, &area(), true);
    assert_eq!(r.outcome, XEvent::Advance);
    assert_eq!(r.ball.y, 0);
    assert_eq!(r.ball.vy, 2);
    assert_eq!(r.ball.x, 53);
    assert_eq!(r.ball.vx, 3);
}

#[test]
fn wall_bounce_bottom() {
    let b = ball(50, 25, 3, 2, false);
    let r = step_ball(&b, 10, 5, 10, 5, &area(), true);
    assert_eq!(r.outcome, XEvent::Advance);
    assert_eq!(r.ball.y, 25);
    assert_eq!(r.ball.vy, -2);
}

#[test]
fn left_paddle_reflects_full_speed() {
    // a boosted ball keeps its speed off the left paddle
    let b = ball(3, 12, -6, 0, true);
    let r = step_ball(&b, 10, 5, 0, 5, &area(), true);
    assert_eq!(r.outcome, XEvent::HitLeft);
    assert_eq!(r.ball.vx, 6);
    assert_eq!(r.ball.x, 5);
    assert_eq!(r.ball.y, 12);
    assert!(r.ball.is_powered);
}

#[test]
fn right_paddle_resets_speed() {
    // a boosted ball loses its boost off the right paddle
    let b = ball(124, 12, 6, 0, true);
    let r = step_ball(&b, 0, 5, 10, 5, &area(), true);
    assert_eq!(r.outcome, XEvent::HitRight);
    assert_eq!(r.ball.vx, -3);
    assert_eq!(r.ball.x, 123);
    assert!(!r.ball.is_powered);
}

#[test]
fn exit_left_recenters() {
    // no paddle overlap: the ball leaves on the left and recenters
    let b = ball(2, 20, -3, 0, true);
    let r = step_ball(&b, 0, 5, 0, 5, &area(), true);
    assert_eq!(r.outcome, XEvent::ExitLeft);
    assert_eq!(r.ball.x, 64);
    assert_eq!(r.ball.y, 13);
    assert_eq!(r.ball.vx, 3);
    assert!(!r.ball.is_powered);

    let r2 = step_ball(&b, 0, 5, 0, 5, &area(), false);
    assert_eq!(r2.outcome, XEvent::ExitLeft);
    assert_eq!(r2.ball.vx, -3);
}

#[test]
fn exit_right_recenters() {
    let b = ball(126, 20, 3, 0, false);
    let r = step_ball(&b, 0, 5, 0, 5, &area(), false);
    assert_eq!(r.outcome, XEvent::ExitRight);
    assert_eq!(r.ball.x, 64);
    assert_eq!(r.ball.y, 13);
    assert_eq!(r.ball.vx, -3);
}

#[test]
fn near_left_band_needs_leftward_motion() {
    // in the near-left band but moving right: no left-paddle hit
    let b = ball(0, 12, 1, 0, false);
    let r = step_ball(&b, 10, 5, 10, 5, &area(), true);
    assert_eq!(r.outcome, XEvent::Advance);
    assert_eq!(r.ball.x, 1);
}

#[test]
fn miss_above_paddle_passes_through() {
    // candidate row just above the left paddle's rows: no hit yet
    let b = ball(3, 9, -6, 0, false);
    let r = step_ball(&b, 10, 5, 0, 5, &area(), true);
    assert_eq!(r.outcome, XEvent::ExitLeft);
}
