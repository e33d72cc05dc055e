//! The predictive agent that can steer a paddle.
//!
//! The agent reacts to ball-direction changes with a latency, predicts
//! the ball's impact row by mirror-unfolding wall bounces, injects
//! bounded randomness and fatigue, and smooths the paddle's motion with
//! acceleration. All quantities that the original design expresses as
//! fractional numbers are held here in thousandths ("milli-units"), so
//! every step is exact integer arithmetic.
//!
//! Randomness enters only through an [`AgentDraws`] value handed in by
//! the caller, so any step can be replayed deterministically.
use crate::ball::Ball;
use crate::geometry::{interior_height, valid_area, GameArea};
use vstd::arithmetic::div_mod::{
    lemma_div_is_ordered, lemma_div_multiples_vanish, lemma_div_nonincreasing, lemma_div_pos_is_pos,
};
use vstd::math::abs;
use vstd::prelude::*;

verus! {

/// Difficulty used when a match is created without an explicit one, in
/// thousandths (0.5).
pub const DEFAULT_DIFFICULTY_PERMILL: u16 = 500;

/// Fatigue never grows past 0.3, in thousandths.
pub const FATIGUE_CAP_MIL: i64 = 300;

/// Columns a paddle occupies; the agent aims at the near face of its
/// paddle, this many columns from the playfield edge.
pub const DEFAULT_PADDLE_WIDTH: u16 = 3;

/// Elapsed real time beyond this many milliseconds is treated as exactly
/// this long: past it the fatigue cap, the reaction-timer floor and the
/// speed bounds all saturate, so a longer delta changes nothing.
pub const AGENT_DT_CAP_MS: u64 = 100000;

/// Controller state of one agent-steered paddle.
///
/// The three difficulty-derived constants are fixed at construction;
/// the rest evolves each tick.
#[derive(Clone, Copy, Debug, PartialEq, Eq, Structural)]
pub struct ComputerAI {
    /// Latency before active tracking resumes after the ball turns
    /// around, in milliseconds: 0.2s plus half of (1 - difficulty).
    pub reaction_delay_ms: i64,
    /// Sign of the ball's horizontal velocity when last observed.
    pub last_ball_direction: i8,
    /// Milliseconds of latency still to burn before active tracking.
    pub reaction_timer_ms: i64,
    /// Base magnitude of the injected prediction error, in milli-rows.
    pub prediction_error_mil: i64,
    /// Largest smoothed speed, in milli-rows per tick.
    pub max_speed_mil: i64,
    /// Current smoothed speed, in milli-rows per tick.
    pub current_speed_mil: i64,
    /// Row (paddle-center coordinate) the agent is steering toward, in
    /// milli-rows.
    pub target_position_mil: i64,
    /// The difficulty this controller was built from, in thousandths.
    pub difficulty_permill: u16,
    /// Accumulated fatigue, in thousandths, capped at 0.3.
    pub fatigue_mil: i64,
    /// Timestamp of the last agent update, for real-delta-time
    /// smoothing (decoupled from the fixed simulation tick).
    pub last_update_ms: u64,
}

/// Reaction latency for a difficulty in thousandths: 0.2s to 0.7s.
pub open spec fn reaction_delay_from(difficulty: int) -> int {
    200 + (1000 - difficulty) / 2
}

/// Prediction error for a difficulty in thousandths: 2 to 5 rows.
pub open spec fn prediction_error_from(difficulty: int) -> int {
    2000 + (1000 - difficulty) * 3
}

/// Speed bound for a difficulty in thousandths: 0.8 to 1.5 rows/tick.
pub open spec fn max_speed_from(difficulty: int) -> int {
    800 + difficulty * 7 / 10
}

impl ComputerAI {
    /// Field ranges every reachable controller state satisfies.
    pub open spec fn wf(self) -> bool {
        &&& 200 <= self.reaction_delay_ms <= 700
        &&& -1 <= self.last_ball_direction <= 1
        &&& 0 <= self.reaction_timer_ms <= 850
        &&& 2000 <= self.prediction_error_mil <= 5000
        &&& 800 <= self.max_speed_mil <= 1500
        &&& 0 <= self.current_speed_mil <= self.max_speed_mil
        &&& self.difficulty_permill <= 1000
        &&& 0 <= self.fatigue_mil <= FATIGUE_CAP_MIL
    }

    /// A fresh controller for the given difficulty (in thousandths),
    /// with the three derived constants set and all evolving state at
    /// rest.
    pub fn new(difficulty_permill: u16) -> (r: ComputerAI)
        requires
            difficulty_permill <= 1000,
        ensures
            r.reaction_delay_ms == reaction_delay_from(difficulty_permill as int),
            r.prediction_error_mil == prediction_error_from(difficulty_permill as int),
            r.max_speed_mil == max_speed_from(difficulty_permill as int),
            r.last_ball_direction == 0,
            r.reaction_timer_ms == 0,
            r.current_speed_mil == 0,
            r.target_position_mil == 0,
            r.difficulty_permill == difficulty_permill,
            r.fatigue_mil == 0,
            r.last_update_ms == 0,
            r.wf(),
    {
        let d: i64 = difficulty_permill as i64;
        ComputerAI {
            reaction_delay_ms: 200 + (1000 - d) / 2,
            last_ball_direction: 0,
            reaction_timer_ms: 0,
            prediction_error_mil: 2000 + (1000 - d) * 3,
            max_speed_mil: 800 + d * 7 / 10,
            current_speed_mil: 0,
            target_position_mil: 0,
            difficulty_permill,
            fatigue_mil: 0,
            last_update_ms: 0,
        }
    }
}

/// The uniform draws one agent step consumes, each in `0..1000`
/// (thousandths of the unit interval). The caller draws them; handing
/// in fixed values replays a step deterministically.
#[derive(Clone, Copy, Debug, PartialEq, Eq, Structural)]
pub struct AgentDraws {
    /// Offset of the injected prediction error.
    pub err_draw: u16,
    /// Chance roll for the rare large "blunder" offset.
    pub blunder_roll: u16,
    /// Offset of the blunder when it happens.
    pub blunder_draw: u16,
    /// Chance roll for the small post-clamp jitter.
    pub jitter_roll: u16,
    /// Offset of that jitter when it happens.
    pub jitter_draw: u16,
    /// Offset of the per-tick movement jitter.
    pub motion_draw: u16,
    /// Chance roll for hesitation (movement scaled down).
    pub quirk_roll: u16,
    /// Chance roll for overshoot (movement scaled up).
    pub overshoot_roll: u16,
}

/// Draws that inject nothing: every offset draw sits at the middle of
/// the unit interval (an offset of zero) and every chance roll is above
/// its threshold.
pub open spec fn neutral_draws() -> AgentDraws {
    AgentDraws {
        err_draw: 500,
        blunder_roll: 999,
        blunder_draw: 500,
        jitter_roll: 999,
        jitter_draw: 500,
        motion_draw: 500,
        quirk_roll: 999,
        overshoot_roll: 999,
    }
}

impl AgentDraws {
    /// Every draw lies in the unit interval.
    pub open spec fn wf(self) -> bool {
        &&& self.err_draw < 1000
        &&& self.blunder_roll < 1000
        &&& self.blunder_draw < 1000
        &&& self.jitter_roll < 1000
        &&& self.jitter_draw < 1000
        &&& self.motion_draw < 1000
        &&& self.quirk_roll < 1000
        &&& self.overshoot_roll < 1000
    }

    /// The draws that inject no randomness at all.
    pub fn neutral() -> (r: AgentDraws)
        ensures
            r == neutral_draws(),
            r.wf(),
    {
        AgentDraws {
            err_draw: 500,
            blunder_roll: 999,
            blunder_draw: 500,
            jitter_roll: 999,
            jitter_draw: 500,
            motion_draw: 500,
            quirk_roll: 999,
            overshoot_roll: 999,
        }
    }
}

/// Division rounding toward zero, as the executable `i64` division
/// does; for a non-negative dividend it agrees with the mathematical
/// (Euclidean) quotient.
pub open spec fn tdiv(a: int, b: int) -> int
    recommends
        b > 0,
{
    if a >= 0 {
        a / b
    } else {
        -((-a) / b)
    }
}

/// A value forced into `[lo, hi]`.
pub open spec fn clamp_spec(v: int, lo: int, hi: int) -> int
    recommends
        lo <= hi,
{
    if v < lo {
        lo
    } else if v > hi {
        hi
    } else {
        v
    }
}

/// The sign of a quantity: -1, 0 or 1.
pub open spec fn sign_spec(v: int) -> int {
    if v > 0 {
        1
    } else if v < 0 {
        -1
    } else {
        0
    }
}

/// Real milliseconds elapsed between two agent updates, floored at zero
/// if the clock stood still and capped at `AGENT_DT_CAP_MS` (beyond the
/// cap every effect of the delta saturates anyway).
pub open spec fn capped_dt(now_ms: u64, last_ms: u64) -> int {
    if now_ms <= last_ms {
        0
    } else if now_ms - last_ms > AGENT_DT_CAP_MS {
        AGENT_DT_CAP_MS as int
    } else {
        now_ms - last_ms
    }
}

/// Fatigue after `dt` more milliseconds: it grows at 0.009 per second
/// and caps at 0.3.
pub open spec fn fatigue_after(fatigue_mil: int, dt: int) -> int {
    if fatigue_mil + dt * 9 / 1000 >= FATIGUE_CAP_MIL {
        FATIGUE_CAP_MIL as int
    } else {
        fatigue_mil + dt * 9 / 1000
    }
}

/// Whether the observed ball direction differs from the remembered one
/// (a zero horizontal velocity never counts as a change).
pub open spec fn direction_changed(last_dir: int, vx: int) -> bool {
    sign_spec(vx) != last_dir && sign_spec(vx) != 0
}

/// The reaction timer after one step: re-armed to the reaction delay
/// plus half the fatigue when the ball turned around, then run down by
/// the elapsed time, floored at zero.
pub open spec fn timer_after(
    timer: int,
    delay: int,
    last_dir: int,
    vx: int,
    fatigue1: int,
    dt: int,
) -> int {
    let armed = if direction_changed(last_dir, vx) {
        delay + fatigue1 / 2
    } else {
        timer
    };
    if armed - dt >= 0 {
        armed - dt
    } else {
        0
    }
}

/// A paddle's center row in milli-rows, from its top row and length.
pub open spec fn paddle_center_mil(bar_position: u16, bar_length: u8) -> int {
    bar_position * 1000 + bar_length * 500
}

/// Neutral-mode target: the paddle center drifts a tenth of the way
/// toward the interior's vertical center each tick.
pub open spec fn neutral_target(pc: int, ih: int) -> int {
    pc + tdiv((ih / 2) * 1000 - pc, 10)
}

/// A row mirrored off the interior's top and bottom edges (both in
/// milli-rows) until it lies inside `[0, h_mil]`: exactly the wall
/// bounces the physics step would produce, unfolded.
pub open spec fn spec_reflect(y: int, h_mil: int) -> int
    recommends
        h_mil >= 1,
    decreases abs(y), (if y < 0 {
        1int
    } else {
        0int
    }),
        when h_mil >= 1
{
    if y < 0 {
        spec_reflect(-y, h_mil)
    } else if y > h_mil {
        spec_reflect(2 * h_mil - y, h_mil)
    } else {
        y
    }
}

/// Active-mode target before smoothing: the ball's row extrapolated to
/// the paddle's plane, mirrored off the walls, perturbed by the error
/// and blunder draws, clamped to the paddle's travel range, then
/// possibly jittered once more.
///
/// Opaque so that callers of the whole-step function do not unfold the
/// prediction arithmetic; `reveal(predicted_target)` opens it.
#[verifier::opaque]
pub open spec fn predicted_target(
    ball: Ball,
    is_left: bool,
    area: GameArea,
    bar_length: u8,
    prediction_error_mil: int,
    fatigue1: int,
    draws: AgentDraws,
) -> int
    recommends
        valid_area(area),
        ball.vx != 0,
        bar_length <= interior_height(area),
{
    let ih = interior_height(area);
    let paddle_x: int = if is_left {
        DEFAULT_PADDLE_WIDTH as int
    } else {
        area.width - DEFAULT_PADDLE_WIDTH
    };
    let num = (paddle_x - ball.x) * 1000;
    let tt = if ball.vx > 0 {
        tdiv(num, ball.vx as int)
    } else {
        tdiv(-num, -(ball.vx as int))
    };
    let pred0 = ball.y * 1000 + ball.vy * tt;
    let reflected = spec_reflect(pred0, ih * 1000);
    let err_mag = prediction_error_mil * (1000 + fatigue1) / 1000;
    let with_err = reflected + tdiv((draws.err_draw - 500) * err_mag, 1000);
    let with_blunder = if draws.blunder_roll < 50 + fatigue1 / 10 {
        with_err + (draws.blunder_draw - 500) * 8
    } else {
        with_err
    };
    let clamped = clamp_spec(with_blunder, 0, (ih - bar_length) * 1000);
    if draws.jitter_roll < 100 {
        clamped + (draws.jitter_draw - 500) * 2
    } else {
        clamped
    }
}

/// The row the agent steers toward this tick: the wall-bounce
/// prediction when the ball is coming toward this paddle's side and the
/// reaction latency has run out, the center drift otherwise.
pub open spec fn agent_target(
    ai: ComputerAI,
    ball: Ball,
    pc: int,
    is_left: bool,
    area: GameArea,
    bar_length: u8,
    fatigue1: int,
    timer1: int,
    draws: AgentDraws,
) -> int {
    let coming = if is_left {
        ball.vx < 0
    } else {
        ball.vx > 0
    };
    if !coming || timer1 > 0 {
        neutral_target(pc, interior_height(area))
    } else {
        predicted_target(ball, is_left, area, bar_length, ai.prediction_error_mil as int, fatigue1, draws)
    }
}

/// The smoothed speed after one step: toward the target distance (but
/// never past the speed bound) at 2 milli-rows per ms per tick while far
/// from the target, braked twice as fast and floored at zero when close.
pub open spec fn speed_after(cur: int, dist: int, max_speed: int, dt: int) -> int {
    let adist = abs(dist) as int;
    let desired = if adist <= max_speed {
        adist
    } else {
        max_speed
    };
    if adist > 500 {
        if cur + 2 * dt <= desired {
            cur + 2 * dt
        } else {
            desired
        }
    } else {
        if cur - 4 * dt >= 0 {
            cur - 4 * dt
        } else {
            0
        }
    }
}

/// The movement the paddle center commits this tick: the signed speed
/// plus a fatigue-scaled jitter, then hesitation (scaled to 0.3) or
/// overshoot (scaled to 1.4) when their rolls come up, in that priority
/// order.
pub open spec fn movement_mil(dist: int, speed1: int, fatigue1: int, draws: AgentDraws) -> int {
    let jit = tdiv((draws.motion_draw - 500) * (1000 + fatigue1), 10000);
    let mv = sign_spec(dist) * speed1 + jit;
    if draws.quirk_roll < 20 + fatigue1 / 20 {
        tdiv(mv * 3, 10)
    } else if draws.overshoot_roll < 30 {
        tdiv(mv * 14, 10)
    } else {
        mv
    }
}

/// The paddle's new top row: its center moved by the final movement,
/// clamped so the whole paddle stays inside the interior.
pub open spec fn committed_bar(pc: int, mv: int, bar_length: u8, ih: int) -> int
    recommends
        bar_length <= ih,
{
    let lo = bar_length * 500;
    let hi = ih * 1000 - bar_length * 500;
    (clamp_spec(pc + mv, lo, hi) - lo) / 1000
}

/// One whole agent step as a mathematical function of the old state,
/// the observed ball, the paddle, the wall clock and the draws: the new
/// controller state and the paddle's new top row.
pub open spec fn spec_agent_step(
    ai: ComputerAI,
    ball: Ball,
    bar_position: u16,
    bar_length: u8,
    is_left: bool,
    area: GameArea,
    now_ms: u64,
    draws: AgentDraws,
) -> (ComputerAI, u16)
    recommends
        ai.wf(),
        ball.velocity_bounded(),
        valid_area(area),
        bar_length <= interior_height(area),
        draws.wf(),
{
    let ih = interior_height(area);
    let dt = capped_dt(now_ms, ai.last_update_ms);
    let f1 = fatigue_after(ai.fatigue_mil as int, dt);
    let dir1 = if direction_changed(ai.last_ball_direction as int, ball.vx as int) {
        sign_spec(ball.vx as int)
    } else {
        ai.last_ball_direction as int
    };
    let timer1 = timer_after(
        ai.reaction_timer_ms as int,
        ai.reaction_delay_ms as int,
        ai.last_ball_direction as int,
        ball.vx as int,
        f1,
        dt,
    );
    let pc = paddle_center_mil(bar_position, bar_length);
    let target = agent_target(ai, ball, pc, is_left, area, bar_length, f1, timer1, draws);
    let speed1 = speed_after(ai.current_speed_mil as int, target - pc, ai.max_speed_mil as int, dt);
    let mv = movement_mil(target - pc, speed1, f1, draws);
    let bar1 = committed_bar(pc, mv, bar_length, ih);
    (
        ComputerAI {
            last_ball_direction: dir1 as i8,
            reaction_timer_ms: timer1 as i64,
            current_speed_mil: speed1 as i64,
            target_position_mil: target as i64,
            fatigue_mil: f1 as i64,
            last_update_ms: now_ms,
            ..ai
        },
        bar1 as u16,
    )
}

/// Mirror a milli-row off the interior's edges until it lies inside
/// `[0, h_mil]`, as `spec_reflect` states.
fn reflect_into_range(y0: i64, h_mil: i64) -> (r: i64)
    requires
        1000 <= h_mil <= 100_000_000,
        -1_000_000_000_000 <= y0 <= 1_000_000_000_000,
    ensures
        r == spec_reflect(y0 as int, h_mil as int),
        0 <= r <= h_mil,
{
    let mut y: i64 = y0;
    while y < 0 || y > h_mil
        invariant
            1000 <= h_mil <= 100_000_000,
            -1_000_000_000_000 <= y <= 1_000_000_000_000,
            spec_reflect(y as int, h_mil as int) == spec_reflect(y0 as int, h_mil as int),
        decreases abs(y as int), (if y < 0 {
            1int
        } else {
            0int
        }),
    {
        if y < 0 {
            y = -y;
        } else {
            y = 2 * h_mil - y;
        }
    }
    y
}

/// Active-mode target: extrapolate the ball to the paddle's plane,
/// unfold wall bounces, then perturb, clamp and jitter, as
/// `predicted_target` states.
fn active_target(
    ball: &Ball,
    is_left: bool,
    area: &GameArea,
    bar_length: u8,
    prediction_error_mil: i64,
    f1: i64,
    draws: &AgentDraws,
) -> (t: i64)
    requires
        valid_area(*area),
        ball.velocity_bounded(),
        ball.vx != 0,
        bar_length <= interior_height(*area),
        2000 <= prediction_error_mil <= 5000,
        0 <= f1 <= FATIGUE_CAP_MIL,
        draws.wf(),
    ensures
        t == predicted_target(
            *ball,
            is_left,
            *area,
            bar_length,
            prediction_error_mil as int,
            f1 as int,
            *draws,
        ),
        -1000 <= t <= 70_000_000,
{
    proof {
        reveal(predicted_target);
    }
    let ih: i64 = (area.height - 2) as i64;
    let paddle_x: i64 = if is_left {
        DEFAULT_PADDLE_WIDTH as i64
    } else {
        (area.width - DEFAULT_PADDLE_WIDTH) as i64
    };
    let num: i64 = (paddle_x - ball.x as i64) * 1000;
    let vxi: i64 = ball.vx as i64;
    let tt: i64 = if vxi > 0 {
        div_trunc(num, vxi)
    } else {
        div_trunc(-num, -vxi)
    };
    proof {
        assert((ball.vy as int) * (tt as int) <= 396_000_000 && (ball.vy as int) * (tt as int)
            >= -396_000_000) by (nonlinear_arith)
            requires
                -6 <= ball.vy as int <= 6,
                -66_000_000 <= tt as int <= 66_000_000,
        ;
    }
    let pred0: i64 = (ball.y as i64) * 1000 + (ball.vy as i64) * tt;
    let reflected: i64 = reflect_into_range(pred0, ih * 1000);
    proof {
        assert(0 <= (prediction_error_mil as int) * (1000 + f1 as int) <= 6_500_000)
            by (nonlinear_arith)
            requires
                2000 <= prediction_error_mil as int <= 5000,
                0 <= f1 as int <= 300,
        ;
    }
    let err_mag: i64 = prediction_error_mil * (1000 + f1) / 1000;
    proof {
        assert(-3_250_000 <= (draws.err_draw as int - 500) * (err_mag as int) <= 3_250_000)
            by (nonlinear_arith)
            requires
                -500 <= draws.err_draw as int - 500 <= 500,
                0 <= err_mag as int <= 6500,
        ;
    }
    let with_err: i64 = reflected + (draws.err_draw as i64 - 500) * err_mag / 1000;
    let with_blunder: i64 = if (draws.blunder_roll as i64) < 50 + f1 / 10 {
        with_err + (draws.blunder_draw as i64 - 500) * 8
    } else {
        with_err
    };
    let hi_travel: i64 = (ih - bar_length as i64) * 1000;
    let clamped: i64 = if with_blunder < 0 {
        0
    } else if with_blunder > hi_travel {
        hi_travel
    } else {
        with_blunder
    };
    if draws.jitter_roll < 100 {
        clamped + (draws.jitter_draw as i64 - 500) * 2
    } else {
        clamped
    }
}

/// Motion smoothing and commit: accelerate or brake the speed toward
/// the target distance, add jitter and quirks, and clamp the moved
/// center into the paddle's travel range, as `speed_after`,
/// `movement_mil` and `committed_bar` state.
#[verifier::rlimit(100)]
fn smooth_and_commit(
    pc: i64,
    target: i64,
    cur_speed: i64,
    max_speed: i64,
    f1: i64,
    dt: i64,
    bar_length: u8,
    ih: i64,
    draws: &AgentDraws,
) -> (r: (i64, u16))
    requires
        0 <= cur_speed <= max_speed,
        800 <= max_speed <= 1500,
        0 <= f1 <= FATIGUE_CAP_MIL,
        0 <= dt <= AGENT_DT_CAP_MS,
        draws.wf(),
        bar_length <= ih,
        7 <= ih <= 65533,
        0 <= pc <= 66_000_000,
        -200_000_000 <= target <= 200_000_000,
    ensures
        r.0 == speed_after(cur_speed as int, target - pc, max_speed as int, dt as int),
        0 <= r.0 <= max_speed,
        r.1 == committed_bar(
            pc as int,
            movement_mil(target - pc, r.0 as int, f1 as int, *draws),
            bar_length,
            ih as int,
        ),
        r.1 + bar_length <= ih,
{
    let dist: i64 = target - pc;
    let adist: i64 = if dist >= 0 {
        dist
    } else {
        -dist
    };
    let desired: i64 = if adist <= max_speed {
        adist
    } else {
        max_speed
    };
    let speed1: i64 = if adist > 500 {
        if cur_speed + 2 * dt <= desired {
            cur_speed + 2 * dt
        } else {
            desired
        }
    } else {
        if cur_speed - 4 * dt >= 0 {
            cur_speed - 4 * dt
        } else {
            0
        }
    };

    // jitter and behavioral quirks
    proof {
        assert(-650_000 <= (draws.motion_draw as int - 500) * (1000 + f1 as int) <= 650_000)
            by (nonlinear_arith)
            requires
                -500 <= draws.motion_draw as int - 500 <= 500,
                1000 <= 1000 + f1 as int <= 1300,
        ;
    }
    let jit: i64 = (draws.motion_draw as i64 - 500) * (1000 + f1) / 10000;
    let signed_speed: i64 = if dist > 0 {
        speed1
    } else if dist < 0 {
        -speed1
    } else {
        0
    };
    let mv: i64 = signed_speed + jit;
    let mvf: i64 = if (draws.quirk_roll as i64) < 20 + f1 / 20 {
        mv * 3 / 10
    } else if draws.overshoot_roll < 30 {
        mv * 14 / 10
    } else {
        mv
    };

    // commit the new position, keeping the paddle inside the interior
    let lo: i64 = (bar_length as i64) * 500;
    let hi: i64 = ih * 1000 - lo;
    let pos: i64 = pc + mvf;
    let clamped_pos: i64 = if pos < lo {
        lo
    } else if pos > hi {
        hi
    } else {
        pos
    };
    let new_bar: u16 = ((clamped_pos - lo) / 1000) as u16;
    proof {
        assert(speed1 == speed_after(cur_speed as int, target - pc, max_speed as int, dt as int));
        assert(jit == tdiv((draws.motion_draw - 500) * (1000 + f1 as int), 10000));
        assert(mv == sign_spec(target - pc) * (speed1 as int) + jit);
        assert(mvf == movement_mil(target - pc, speed1 as int, f1 as int, *draws));
        assert(new_bar == committed_bar(pc as int, mvf as int, bar_length, ih as int));
    }
    (speed1, new_bar)
}

/// One agent update for one paddle.
///
/// Reads the ball, the wall clock and the uniform draws, advances the
/// controller state, and returns the paddle's new top row, which always
/// leaves the paddle fully inside the interior. The whole result is the
/// mathematical function `spec_agent_step` of the inputs.
#[verifier::rlimit(60)]
pub fn agent_step(
    ai: &mut ComputerAI,
    ball: &Ball,
    bar_position: u16,
    bar_length: u8,
    is_left: bool,
    area: &GameArea,
    now_ms: u64,
    draws: &AgentDraws,
) -> (new_bar: u16)
    requires
        old(ai).wf(),
        ball.velocity_bounded(),
        valid_area(*area),
        bar_length <= interior_height(*area),
        draws.wf(),
    ensures
        (*final(ai), new_bar) == spec_agent_step(
            *old(ai),
            *ball,
            bar_position,
            bar_length,
            is_left,
            *area,
            now_ms,
            *draws,
        ),
        final(ai).wf(),
        new_bar + bar_length <= interior_height(*area),
        final(ai).last_update_ms == now_ms,
{
    let ih: i64 = (area.height - 2) as i64;

    // delta time and fatigue
    let elapsed: u64 = now_ms.saturating_sub(ai.last_update_ms);
    let dt: i64 = if elapsed > AGENT_DT_CAP_MS {
        AGENT_DT_CAP_MS as i64
    } else {
        elapsed as i64
    };
    let grown: i64 = ai.fatigue_mil + dt * 9 / 1000;
    let f1: i64 = if grown >= FATIGUE_CAP_MIL {
        FATIGUE_CAP_MIL
    } else {
        grown
    };

    // direction-change detection and reaction latency
    let dir: i8 = if ball.vx > 0 {
        1
    } else if ball.vx < 0 {
        -1
    } else {
        0
    };
    let changed: bool = dir != ai.last_ball_direction && dir != 0;
    let dir1: i8 = if changed {
        dir
    } else {
        ai.last_ball_direction
    };
    let armed: i64 = if changed {
        ai.reaction_delay_ms + f1 / 2
    } else {
        ai.reaction_timer_ms
    };
    let timer1: i64 = if armed - dt >= 0 {
        armed - dt
    } else {
        0
    };

    let pc: i64 = (bar_position as i64) * 1000 + (bar_length as i64) * 500;
    let coming: bool = if is_left {
        ball.vx < 0
    } else {
        ball.vx > 0
    };

    let target: i64 = if !coming || timer1 > 0 {
        // neutral mode: drift toward the vertical center
        pc + ((ih / 2) * 1000 - pc) / 10
    } else {
        active_target(ball, is_left, area, bar_length, ai.prediction_error_mil, f1, draws)
    };
    proof {
        assert(target == agent_target(
            *old(ai),
            *ball,
            pc as int,
            is_left,
            *area,
            bar_length,
            f1 as int,
            timer1 as int,
            *draws,
        ));
    }

    let committed: (i64, u16) = smooth_and_commit(
        pc,
        target,
        ai.current_speed_mil,
        ai.max_speed_mil,
        f1,
        dt,
        bar_length,
        ih,
        draws,
    );
    let speed1: i64 = committed.0;
    let new_bar: u16 = committed.1;

    ai.last_ball_direction = dir1;
    ai.reaction_timer_ms = timer1;
    ai.current_speed_mil = speed1;
    ai.target_position_mil = target;
    ai.fatigue_mil = f1;
    ai.last_update_ms = now_ms;
    new_bar
}

/// Agent convergence, the fixed point: with a stationary ball (which is
/// never "coming"), noise-free draws, and the paddle's center within
/// the brake radius of the interior's midline (five rows -- within it
/// the drift step is below the half-row threshold, so the agent only
/// brakes), one step pins the target within half a row of the paddle's
/// own center, never raises the smoothed speed, brings it to exactly
/// zero once at least 375 ms have elapsed (the time the brake needs
/// from the largest speed), and -- once the speed has settled to zero
/// -- leaves the paddle exactly where it is, with the speed still zero.
pub proof fn lemma_neutral_fixed_point(
    ai: ComputerAI,
    ball: Ball,
    bar_position: u16,
    bar_length: u8,
    is_left: bool,
    area: GameArea,
    now_ms: u64,
)
    requires
        ai.wf(),
        ball.velocity_bounded(),
        valid_area(area),
        bar_position + bar_length <= interior_height(area),
        ball.vx == 0,
        abs(
            paddle_center_mil(bar_position, bar_length) - (interior_height(area) / 2) * 1000,
        ) <= 5000,
    ensures
        ({
            let r = spec_agent_step(
                ai,
                ball,
                bar_position,
                bar_length,
                is_left,
                area,
                now_ms,
                neutral_draws(),
            );
            let pc = paddle_center_mil(bar_position, bar_length);
            &&& r.0.target_position_mil == neutral_target(pc, interior_height(area))
            &&& abs(r.0.target_position_mil - pc) <= 500
            &&& r.0.current_speed_mil <= ai.current_speed_mil
            &&& (now_ms >= ai.last_update_ms + 375 ==> r.0.current_speed_mil == 0)
            &&& (ai.current_speed_mil == 0 ==> r.0.current_speed_mil == 0 && r.1 == bar_position)
        }),
{
    let ih = interior_height(area);
    let pc = paddle_center_mil(bar_position, bar_length);
    let c = (ih / 2) * 1000;
    let d = c - pc;
    if d >= 0 {
        lemma_div_pos_is_pos(d, 10);
        lemma_div_is_ordered(d, 5000, 10);
    } else {
        lemma_div_pos_is_pos(-d, 10);
        lemma_div_is_ordered(-d, 5000, 10);
    }
    let target = neutral_target(pc, ih);
    assert(abs(target - pc) <= 500);
    let dt = capped_dt(now_ms, ai.last_update_ms);
    let speed1 = speed_after(ai.current_speed_mil as int, target - pc, ai.max_speed_mil as int, dt);
    assert(speed1 <= ai.current_speed_mil);
    assert(now_ms >= ai.last_update_ms + 375 ==> speed1 == 0);
    if ai.current_speed_mil == 0 {
        let f1 = fatigue_after(ai.fatigue_mil as int, dt);
        assert(0 <= f1 <= FATIGUE_CAP_MIL) by {
            lemma_div_pos_is_pos(dt * 9, 1000);
        }
        lemma_div_pos_is_pos(f1, 20);
        lemma_div_is_ordered(f1, 300, 20);
        assert(movement_mil(target - pc, 0, f1, neutral_draws()) == 0) by {
            let nd = neutral_draws();
            assert(nd.motion_draw == 500);
            assert((nd.motion_draw - 500) * (1000 + f1) == 0) by (nonlinear_arith)
                requires
                    nd.motion_draw == 500,
            ;
            assert(tdiv(0, 10000) == 0);
            assert(sign_spec(target - pc) * 0 == 0);
            assert(!(nd.quirk_roll < 20 + f1 / 20));
            assert(!(nd.overshoot_roll < 30));
        }
        assert(committed_bar(pc, 0, bar_length, ih) == bar_position) by {
            let lo = bar_length * 500;
            assert(lo <= pc <= ih * 1000 - lo);
            assert(clamp_spec(pc, lo, ih * 1000 - lo) == pc);
            assert(pc - lo == 1000 * (bar_position as int));
            lemma_div_multiples_vanish(bar_position as int, 1000);
        }
    }
}

/// Agent convergence, the approach: in neutral mode the target drifts
/// toward the interior's vertical midline -- it is never farther from
/// the midline than the paddle's center is, and strictly nearer
/// whenever the paddle's center is at least a hundredth of a row off.
pub proof fn lemma_neutral_drift_contracts(pc: int, ih: int)
    requires
        0 <= pc,
        1 <= ih,
    ensures
        abs(neutral_target(pc, ih) - (ih / 2) * 1000) <= abs(pc - (ih / 2) * 1000),
        abs(pc - (ih / 2) * 1000) >= 10 ==> abs(neutral_target(pc, ih) - (ih / 2) * 1000) < abs(
            pc - (ih / 2) * 1000,
        ),
{
    let c = (ih / 2) * 1000;
    let d = c - pc;
    if d >= 0 {
        lemma_div_pos_is_pos(d, 10);
        lemma_div_nonincreasing(d, 10);
        if d >= 10 {
            lemma_div_is_ordered(10, d, 10);
        }
    } else {
        lemma_div_pos_is_pos(-d, 10);
        lemma_div_nonincreasing(-d, 10);
        if -d >= 10 {
            lemma_div_is_ordered(10, -d, 10);
        }
    }
}

/// Division by a positive divisor, rounding toward zero as `i64`
/// division does; the quotient's magnitude never exceeds the
/// dividend's.
fn div_trunc(a: i64, b: i64) -> (q: i64)
    requires
        b >= 1,
        a > i64::MIN,
    ensures
        q == tdiv(a as int, b as int),
        a >= 0 ==> 0 <= q <= a,
        a < 0 ==> a <= q <= 0,
{
    proof {
        if a >= 0 {
            lemma_div_pos_is_pos(a as int, b as int);
            lemma_div_nonincreasing(a as int, b as int);
        } else {
            lemma_div_pos_is_pos(-(a as int), b as int);
            lemma_div_nonincreasing(-(a as int), b as int);
        }
    }
    a / b
}

} // verus!
