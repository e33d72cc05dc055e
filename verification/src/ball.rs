//! The ball and the per-tick physics and collision step.
//!
//! The step is a pure function of the current ball, the two paddle
//! positions, the playfield and one random sign (used only when the ball
//! leaves the field and is recentered). Randomness is handed in as an
//! argument so a tick can be replayed deterministically.
use crate::geometry::{interior_height, interior_width, valid_area, GameArea};
use vstd::prelude::*;

verus! {

/// Default horizontal speed of the ball, in columns per tick.
pub const DEFAULT_BALL_VELOCITY_X: i8 = 3;

/// Default vertical speed of the ball, in rows per tick.
pub const DEFAULT_BALL_VELOCITY_Y: i8 = 1;

/// Horizontal speed of the ball right after a power move.
pub const POWER_BALL_VELOCITY_X: i8 = 6;

/// Largest speed the engine ever assigns on either axis.
pub const MAX_BALL_SPEED: i8 = 6;

/// The ball: a position inside the playfield interior, a small signed
/// velocity on each axis, and whether a power move is still in effect.
#[derive(Clone, Copy, Debug, PartialEq, Eq, Structural)]
pub struct Ball {
    /// Column within the interior.
    pub x: u16,
    /// Row within the interior.
    pub y: u16,
    /// Columns per tick; sign is the direction, never zero during play.
    pub vx: i8,
    /// Rows per tick; sign is the direction, zero means level travel.
    pub vy: i8,
    /// True from a power move until the right paddle is struck or the
    /// ball is reset.
    pub is_powered: bool,
}

impl Ball {
    /// Both velocity components are at most the power speed in
    /// magnitude.
    pub open spec fn velocity_bounded(self) -> bool {
        &&& -MAX_BALL_SPEED as int <= self.vx <= MAX_BALL_SPEED
        &&& -MAX_BALL_SPEED as int <= self.vy <= MAX_BALL_SPEED
    }

    /// Velocities the engine can produce: bounded, and the horizontal
    /// speed never zero during play.
    pub open spec fn wf(self) -> bool {
        &&& self.velocity_bounded()
        &&& self.vx != 0
    }
}

/// The ball sits inside the closed interior rectangle.
pub open spec fn ball_in_interior(ball: Ball, area: GameArea) -> bool {
    &&& 0 <= ball.x <= interior_width(area)
    &&& 0 <= ball.y <= interior_height(area)
}

/// What happened on the horizontal axis in one physics step; exactly one
/// of these applies per tick.
#[derive(Clone, Copy, Debug, PartialEq, Eq, Structural)]
pub enum XEvent {
    /// The left paddle was struck; the ball reflects at full speed.
    HitLeft,
    /// The right paddle was struck; the ball's speed resets to default.
    HitRight,
    /// The ball left the field on the left; the right side scores.
    ExitLeft,
    /// The ball left the field on the right; the left side scores.
    ExitRight,
    /// The ball advanced without contact.
    Advance,
}

/// Result of one physics step: the next ball state and the horizontal
/// event that produced it.
#[derive(Clone, Copy, Debug, PartialEq, Eq, Structural)]
pub struct BallStep {
    pub ball: Ball,
    pub outcome: XEvent,
}

/// A grid coordinate moved by a signed velocity, saturating at 0 and at
/// the top of the `u16` range, exactly as the executable step computes it.
pub open spec fn sat_add_spec(a: int, d: int) -> int {
    if a + d < 0 {
        0
    } else if a + d > u16::MAX {
        u16::MAX as int
    } else {
        a + d
    }
}

/// Move a coordinate by a signed velocity, saturating at the ends of the
/// `u16` range.
pub fn sat_add_signed(a: u16, d: i8) -> (r: u16)
    ensures
        r == sat_add_spec(a as int, d as int),
{
    if d >= 0 {
        a.saturating_add(d as u16)
    } else {
        let m = (-(d as i16)) as u16;
        a.saturating_sub(m)
    }
}

/// One physics and collision step, as a mathematical function.
///
/// The candidate position is the old one moved by the velocity,
/// saturating at the grid bounds. The vertical axis resolves first: at or
/// past the top or bottom edge the vertical velocity inverts and the row
/// clamps to that edge. Then exactly one horizontal case applies, checked
/// in this order: a left-paddle hit reflects the ball at whatever speed
/// it had (a boost survives) and snaps it to column 5; a right-paddle hit
/// resets the speed to the default, snaps the ball just inside the right
/// edge and clears the boost; an exit recenters the ball with default
/// speed and the sign given by `coin`, clearing the boost and leaving the
/// resolved vertical velocity; otherwise the candidate column commits.
pub open spec fn spec_step_ball(
    ball: Ball,
    left_top: u16,
    left_len: u8,
    right_top: u16,
    right_len: u8,
    area: GameArea,
    coin: bool,
) -> BallStep
    recommends
        valid_area(area),
        ball.wf(),
{
    let iw = interior_width(area);
    let ih = interior_height(area);
    let nx = sat_add_spec(ball.x as int, ball.vx as int);
    let ny = sat_add_spec(ball.y as int, ball.vy as int);
    let wall = ny == 0 || ny >= ih - 1;
    let y1 = if !wall {
        ny
    } else if ny == 0 {
        0
    } else {
        ih - 1
    };
    let vy1 = if wall {
        -(ball.vy as int)
    } else {
        ball.vy as int
    };
    if nx <= 3 && ball.vx < 0 && left_top <= ny < left_top + left_len {
        BallStep {
            ball: Ball {
                x: 5u16,
                y: y1 as u16,
                vx: (-(ball.vx as int)) as i8,
                vy: vy1 as i8,
                is_powered: ball.is_powered,
            },
            outcome: XEvent::HitLeft,
        }
    } else if nx >= iw - 4 && ball.vx > 0 && right_top <= ny < right_top + right_len {
        BallStep {
            ball: Ball {
                x: (iw - 5) as u16,
                y: y1 as u16,
                vx: -DEFAULT_BALL_VELOCITY_X as i8,
                vy: vy1 as i8,
                is_powered: false,
            },
            outcome: XEvent::HitRight,
        }
    } else if nx <= 0 || nx >= iw {
        BallStep {
            ball: Ball {
                x: (iw / 2) as u16,
                y: (ih / 2) as u16,
                vx: if coin {
                    DEFAULT_BALL_VELOCITY_X
                } else {
                    -DEFAULT_BALL_VELOCITY_X as i8
                },
                vy: vy1 as i8,
                is_powered: false,
            },
            outcome: if nx <= 0 {
                XEvent::ExitLeft
            } else {
                XEvent::ExitRight
            },
        }
    } else {
        BallStep {
            ball: Ball {
                x: nx as u16,
                y: y1 as u16,
                vx: ball.vx,
                vy: vy1 as i8,
                is_powered: ball.is_powered,
            },
            outcome: XEvent::Advance,
        }
    }
}

/// One physics and collision step.
///
/// `coin` picks the horizontal direction of a recentered ball after an
/// exit; every other part of the result is a function of the inputs, as
/// `spec_step_ball` states. The resulting ball is always inside the
/// interior, whatever the ball held before.
pub fn step_ball(
    ball: &Ball,
    left_top: u16,
    left_len: u8,
    right_top: u16,
    right_len: u8,
    area: &GameArea,
    coin: bool,
) -> (r: BallStep)
    requires
        valid_area(*area),
        ball.wf(),
    ensures
        r == spec_step_ball(*ball, left_top, left_len, right_top, right_len, *area, coin),
        r.ball.wf(),
        ball_in_interior(r.ball, *area),
{
    let iw = area.width - 2;
    let ih = area.height - 2;
    let nx = sat_add_signed(ball.x, ball.vx);
    let ny = sat_add_signed(ball.y, ball.vy);
    let wall = ny == 0 || ny >= ih - 1;
    let y1: u16 = if !wall {
        ny
    } else if ny == 0 {
        0
    } else {
        ih - 1
    };
    let vy1: i8 = if wall {
        -ball.vy
    } else {
        ball.vy
    };
    if nx <= 3 && ball.vx < 0 && (ny as u32) >= (left_top as u32) && (ny as u32) < (left_top as u32)
        + (left_len as u32) {
        BallStep {
            ball: Ball { x: 5, y: y1, vx: -ball.vx, vy: vy1, is_powered: ball.is_powered },
            outcome: XEvent::HitLeft,
        }
    } else if nx >= iw - 4 && ball.vx > 0 && (ny as u32) >= (right_top as u32) && (ny as u32) < (
    right_top as u32) + (right_len as u32) {
        BallStep {
            ball: Ball {
                x: iw - 5,
                y: y1,
                vx: -DEFAULT_BALL_VELOCITY_X,
                vy: vy1,
                is_powered: false,
            },
            outcome: XEvent::HitRight,
        }
    } else if nx == 0 || nx >= iw {
        BallStep {
            ball: Ball {
                x: iw / 2,
                y: ih / 2,
                vx: if coin {
                    DEFAULT_BALL_VELOCITY_X
                } else {
                    -DEFAULT_BALL_VELOCITY_X
                },
                vy: vy1,
                is_powered: false,
            },
            outcome: if nx == 0 {
                XEvent::ExitLeft
            } else {
                XEvent::ExitRight
            },
        }
    } else {
        BallStep {
            ball: Ball { x: nx, y: y1, vx: ball.vx, vy: vy1, is_powered: ball.is_powered },
            outcome: XEvent::Advance,
        }
    }
}

/// Wall-bounce reflection: a ball on the top edge moving up leaves the
/// step with its vertical velocity exactly inverted, and unless the ball
/// also left the field horizontally (which recenters it), its row is
/// still the top edge.
pub proof fn lemma_wall_bounce_top(
    ball: Ball,
    left_top: u16,
    left_len: u8,
    right_top: u16,
    right_len: u8,
    area: GameArea,
    coin: bool,
)
    requires
        valid_area(area),
        ball.wf(),
        ball.y == 0,
        ball.vy < 0,
    ensures
        ({
            let r = spec_step_ball(ball, left_top, left_len, right_top, right_len, area, coin);
            &&& r.ball.vy as int == -(ball.vy as int)
            &&& (r.outcome != XEvent::ExitLeft && r.outcome != XEvent::ExitRight) ==> r.ball.y == 0
        }),
{
}

/// Left-paddle full-speed reflection: a leftward ball whose candidate
/// column is in the near-left band and whose candidate row overlaps the
/// left paddle reflects with its horizontal speed preserved in magnitude
/// (a boost survives), snaps to column 5, and the step reports a
/// left-paddle hit.
pub proof fn lemma_left_paddle_reflection(
    ball: Ball,
    left_top: u16,
    left_len: u8,
    right_top: u16,
    right_len: u8,
    area: GameArea,
    coin: bool,
)
    requires
        valid_area(area),
        ball.wf(),
        ball.vx < 0,
        sat_add_spec(ball.x as int, ball.vx as int) <= 3,
        left_top <= sat_add_spec(ball.y as int, ball.vy as int) < left_top + left_len,
    ensures
        ({
            let r = spec_step_ball(ball, left_top, left_len, right_top, right_len, area, coin);
            &&& r.outcome == XEvent::HitLeft
            &&& r.ball.vx as int == -(ball.vx as int)
            &&& r.ball.x == 5
            &&& r.ball.is_powered == ball.is_powered
        }),
{
}

/// Right-paddle speed reset: a rightward ball whose candidate column is
/// in the near-right band and whose candidate row overlaps the right
/// paddle leaves with the default horizontal speed toward the left --
/// a boosted ball loses its boost here and only here -- snaps just
/// inside the right edge, and the step reports a right-paddle hit.
pub proof fn lemma_right_paddle_speed_reset(
    ball: Ball,
    left_top: u16,
    left_len: u8,
    right_top: u16,
    right_len: u8,
    area: GameArea,
    coin: bool,
)
    requires
        valid_area(area),
        ball.wf(),
        ball.vx > 0,
        sat_add_spec(ball.x as int, ball.vx as int) >= interior_width(area) - 4,
        right_top <= sat_add_spec(ball.y as int, ball.vy as int) < right_top + right_len,
    ensures
        ({
            let r = spec_step_ball(ball, left_top, left_len, right_top, right_len, area, coin);
            &&& r.outcome == XEvent::HitRight
            &&& r.ball.vx == -DEFAULT_BALL_VELOCITY_X as i8
            &&& r.ball.x as int == interior_width(area) - 5
            &&& !r.ball.is_powered
        }),
{
}

/// Exit scoring on the left: a leftward ball whose candidate column
/// reaches 0 without overlapping the left paddle leaves the field; the
/// step reports the left exit (the right side's point), recenters the
/// ball, assigns the default horizontal speed with the sign given by the
/// coin, and clears any boost.
pub proof fn lemma_exit_left(
    ball: Ball,
    left_top: u16,
    left_len: u8,
    right_top: u16,
    right_len: u8,
    area: GameArea,
    coin: bool,
)
    requires
        valid_area(area),
        ball.wf(),
        ball.vx < 0,
        sat_add_spec(ball.x as int, ball.vx as int) == 0,
        !(left_top <= sat_add_spec(ball.y as int, ball.vy as int) < left_top + left_len),
    ensures
        ({
            let r = spec_step_ball(ball, left_top, left_len, right_top, right_len, area, coin);
            &&& r.outcome == XEvent::ExitLeft
            &&& r.ball.x as int == interior_width(area) / 2
            &&& r.ball.y as int == interior_height(area) / 2
            &&& r.ball.vx == (if coin {
                DEFAULT_BALL_VELOCITY_X
            } else {
                -DEFAULT_BALL_VELOCITY_X as i8
            })
            &&& !r.ball.is_powered
        }),
{
}

} // verus!
