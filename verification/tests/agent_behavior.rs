//! The predictive agent, driven deterministically with fixed draws.
use pong_core::agent::{agent_step, AgentDraws, ComputerAI};
use pong_core::ball::Ball;
use pong_core::geometry::GameArea;

fn area() -> GameArea {
    // interior: 128 columns x 26 rows, vertical center at row 13
    GameArea::new(0, 0, 130, 28)
}

#[test]
fn difficulty_derived_constants() {
    let easy = ComputerAI::new(0);
    assert_eq!(easy.reaction_delay_ms, 700);
    assert_eq!(easy.prediction_error_mil, 5000);
    assert_eq!(easy.max_speed_mil, 800);

    let mid = ComputerAI::new(500);
    assert_eq!(mid.reaction_delay_ms, 450);
    assert_eq!(mid.prediction_error_mil, 3500);
    assert_eq!(mid.max_speed_mil, 1150);

    let hard = ComputerAI::new(1000);
    assert_eq!(hard.reaction_delay_ms, 200);
    assert_eq!(hard.prediction_error_mil, 2000);
    assert_eq!(hard.max_speed_mil, 1500);
}

#[test]
fn neutral_mode_converges_to_rest_at_center() {
    // a stationary ball directly in line with the paddle is never
    // "coming": the drift target stays by the paddle's own center, the
    // agent brakes from full speed and comes to rest
    let mut ai = ComputerAI::new(1000);
    ai.current_speed_mil = 1500;
    let ball = Ball { x: 64, y: 13, vx: 0, vy: 0, is_powered: false };
    let draws = AgentDraws::neutral();
    let mut bar: u16 = 10;
    for t in 1..=100u64 {
        bar = agent_step(&mut ai, &ball, bar, 5, true, &area(), t * 33, &draws);
        assert!(bar + 5 <= 26);
    }
    assert_eq!(ai.current_speed_mil, 0);
    // the paddle's center (in milli-rows) has come to rest inside the
    // brake radius of the midline, and the target has converged to
    // within half a row of the paddle's own center
    let center_mil = i64::from(bar) * 1000 + 2500;
    assert!((center_mil - 13000).abs() <= 5000);
    assert!((ai.target_position_mil - center_mil).abs() <= 500);

    // at rest the state is a fixed point: one more step changes nothing
    let bar_again = agent_step(&mut ai, &ball, bar, 5, true, &area(), 10000, &draws);
    assert_eq!(bar_again, bar);
    assert_eq!(ai.current_speed_mil, 0);
}

#[test]
fn active_mode_predicts_impact_row() {
    // ball heading left toward the paddle plane at column 3, level
    // travel at row 5: the noise-free prediction is exactly row 5
    let mut ai = ComputerAI::new(1000);
    let ball = Ball { x: 60, y: 5, vx: -3, vy: 0, is_powered: false };
    let draws = AgentDraws::neutral();
    let mut bar: u16 = 10;
    for t in 1..=20u64 {
        bar = agent_step(&mut ai, &ball, bar, 5, true, &area(), t * 33, &draws);
    }
    assert_eq!(ai.target_position_mil, 5000);
    // the paddle has moved up toward the predicted row
    assert!(bar < 10);
}

#[test]
fn prediction_unfolds_wall_bounces() {
    // extrapolated row would be far below the field; mirrored back
    // inside: from (x 13, y 20) with velocity (-1, 2) the paddle plane
    // at column 3 is 10 ticks away, the unreflected row 40, and two
    // mirror folds about the 26-row interior give row 12
    let mut ai = ComputerAI::new(1000);
    let ball = Ball { x: 13, y: 20, vx: -1, vy: 2, is_powered: false };
    let draws = AgentDraws::neutral();
    let mut bar: u16 = 10;
    for t in 1..=20u64 {
        bar = agent_step(&mut ai, &ball, bar, 5, true, &area(), t * 33, &draws);
    }
    assert_eq!(ai.target_position_mil, 12000);
}

#[test]
fn direction_change_arms_the_reaction_timer() {
    let mut ai = ComputerAI::new(1000);
    let ball = Ball { x: 60, y: 5, vx: 3, vy: 0, is_powered: false };
    let draws = AgentDraws::neutral();
    agent_step(&mut ai, &ball, 10, 5, true, &area(), 33, &draws);
    assert_eq!(ai.last_ball_direction, 1);
    // armed to the 200 ms delay, then run down by the 33 ms elapsed
    assert_eq!(ai.reaction_timer_ms, 167);

    // same direction again: the timer keeps draining, no re-arm
    agent_step(&mut ai, &ball, 10, 5, true, &area(), 66, &draws);
    assert_eq!(ai.reaction_timer_ms, 134);

    // reversal: re-armed
    let back = Ball { x: 60, y: 5, vx: -3, vy: 0, is_powered: false };
    agent_step(&mut ai, &back, 10, 5, true, &area(), 99, &draws);
    assert_eq!(ai.last_ball_direction, -1);
    assert_eq!(ai.reaction_timer_ms, 167);
}

#[test]
fn fatigue_accumulates_and_caps() {
    let mut ai = ComputerAI::new(500);
    let ball = Ball { x: 64, y: 13, vx: 0, vy: 0, is_powered: false };
    let draws = AgentDraws::neutral();
    // 10 seconds pass: fatigue grows by 0.009 per second
    agent_step(&mut ai, &ball, 10, 5, true, &area(), 10000, &draws);
    assert_eq!(ai.fatigue_mil, 90);
    // a very long idle saturates at the cap of 0.3
    agent_step(&mut ai, &ball, 10, 5, true, &area(), 10000000, &draws);
    assert_eq!(ai.fatigue_mil, 300);
}

#[test]
fn paddle_stays_inside_even_from_bad_start() {
    // the commit clamp keeps the paddle inside the interior whatever
    // the draws push toward
    let mut ai = ComputerAI::new(0);
    let ball = Ball { x: 10, y: 0, vx: -6, vy: -6, is_powered: true };
    let wild = AgentDraws {
        err_draw: 999,
        blunder_roll: 0,
        blunder_draw: 999,
        jitter_roll: 0,
        jitter_draw: 999,
        motion_draw: 999,
        quirk_roll: 999,
        overshoot_roll: 0,
    };
    let mut bar: u16 = 21;
    for t in 1..=50u64 {
        bar = agent_step(&mut ai, &ball, bar, 5, false, &area(), t * 33, &wild);
        assert!(bar + 5 <= 26);
    }
}
