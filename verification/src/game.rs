//! The game container: two paddles, one ball, the playfield, and the
//! command and tick interface the embedding layer drives.
//!
//! The container is the sole mutable root. Outside code mutates it only
//! through the commands here; each command's contract states exactly
//! what changes. The wall clock is handed in as milliseconds by the
//! caller, so the tick gate and the agents' real-delta-time smoothing
//! are deterministic functions of the given times.
use crate::agent::{
    agent_step, spec_agent_step, AgentDraws, ComputerAI, DEFAULT_DIFFICULTY_PERMILL,
};
use crate::ball::{
    ball_in_interior, spec_step_ball, step_ball, Ball, BallStep, XEvent, DEFAULT_BALL_VELOCITY_X,
    DEFAULT_BALL_VELOCITY_Y, POWER_BALL_VELOCITY_X,
};
use crate::geometry::{interior_height, interior_width, valid_area, GameArea};
use crate::helpers::{padded_chars, string_to_char_array};
use crate::rng::random_below;
use crate::PLAYER_NAME_SIZE;
use vstd::prelude::*;

verus! {

/// Rows a paddle occupies.
pub const DEFAULT_BAR_LENGTH: u8 = 5;

/// Power-move charges a player starts with; they are never replenished.
pub const STARTING_POWER_MOVES: u8 = 10;

/// Milliseconds that must pass between committed ticks (about 30 Hz).
pub const TICK_INTERVAL_MS: u64 = 33;

/// A power move fires only while the ball's distance from the acting
/// player's own edge is strictly between these two bounds.
pub const POWER_WINDOW_NEAR: u16 = 3;

/// Far bound of the power-move activation band (exclusive).
pub const POWER_WINDOW_FAR: u16 = 6;

/// Who steers a paddle: a human through move commands, or an attached
/// agent controller. An agent-steered paddle still accepts manual move
/// commands.
#[derive(Clone, Copy, Debug, PartialEq, Eq, Structural)]
pub enum Controller {
    Human,
    Agent(ComputerAI),
}

impl Controller {
    /// An attached agent controller, if any, is well-formed.
    pub open spec fn wf(self) -> bool {
        match self {
            Controller::Human => true,
            Controller::Agent(ai) => ai.wf(),
        }
    }

    /// Whether an agent controller is attached.
    pub open spec fn spec_is_agent(self) -> bool {
        self is Agent
    }
}

/// Which paddles get an agent controller at construction.
#[derive(Clone, Copy, Debug, PartialEq, Eq, Structural)]
pub enum GameType {
    /// Both paddles are manual.
    WithFriend,
    /// The right paddle gets an agent.
    AgainstAi,
    /// Both paddles get an agent.
    ScreenSaver,
}

/// One player: label, score, remaining power moves, and the paddle.
#[derive(Clone, Copy, Debug)]
pub struct Player {
    /// Fixed-width display label.
    pub name: [char; PLAYER_NAME_SIZE],
    /// Points won; never decreases during a match.
    pub score: u32,
    /// Power-move charges left; only a successful activation spends one.
    pub power_moves_left: u8,
    /// When the last power move fired, if one ever did (kept for a
    /// future cooldown; nothing gates on it).
    pub last_power_used_at: Option<u64>,
    /// Top row of the paddle within the interior.
    pub bar_position: u16,
    /// Rows the paddle occupies; constant after construction.
    pub bar_length: u8,
    /// Whether this player has confirmed the match start.
    pub is_ready: bool,
    /// Manual steering, or an attached agent.
    pub controller: Controller,
}

impl Player {
    /// The paddle has its fixed length and any attached controller is
    /// well-formed.
    pub open spec fn wf(self) -> bool {
        &&& self.bar_length == DEFAULT_BAR_LENGTH
        &&& self.controller.wf()
    }

    /// The paddle lies fully inside the interior.
    pub open spec fn in_interior(self, area: GameArea) -> bool {
        self.bar_position + self.bar_length <= interior_height(area)
    }

    /// Whether an agent controller is attached.
    pub fn is_agent_controlled(&self) -> (r: bool)
        ensures
            r == self.controller.spec_is_agent(),
    {
        match self.controller {
            Controller::Human => false,
            Controller::Agent(_) => true,
        }
    }
}

/// The whole match state.
#[derive(Clone, Copy, Debug)]
pub struct Game {
    /// The player defending the left edge (index 0).
    pub player_left: Player,
    /// The player defending the right edge (index 1).
    pub player_right: Player,
    pub ball: Ball,
    pub game_area: GameArea,
    /// When the last tick committed, in caller-clock milliseconds.
    pub last_update_ms: u64,
    /// While paused the tick gate stays shut; move and power commands
    /// are still accepted.
    pub is_paused: bool,
}

/// A score raised by one point, stopping at the integer's top rather
/// than overflowing (points in a real match never get near it).
pub open spec fn score_plus_one(score: u32) -> u32 {
    if score == u32::MAX {
        score
    } else {
        (score + 1) as u32
    }
}

/// The player at an index: 0 is the left seat, 1 the right.
pub open spec fn spec_player_at(g: Game, index: int) -> Player {
    if index == 0 {
        g.player_left
    } else {
        g.player_right
    }
}

/// Where a move command puts a paddle's top row: unchanged for a zero
/// direction, one row up (toward the top edge) for a positive one, one
/// row down for a negative one, stopping at the edges.
pub open spec fn moved_bar(bar: u16, len: u8, direction: i8, area: GameArea) -> u16 {
    if direction == 0 {
        bar
    } else if direction > 0 {
        if bar > 0 {
            (bar - 1) as u16
        } else {
            bar
        }
    } else {
        if bar + len < interior_height(area) {
            (bar + 1) as u16
        } else {
            bar
        }
    }
}

/// Whether a power move fires for the player at `index`: a charge is
/// left, the ball is moving toward that player's side, its row overlaps
/// the paddle, and its distance from that player's own edge is inside
/// the activation band (the same band on both sides).
pub open spec fn power_move_fires(g: Game, index: int) -> bool {
    let p = spec_player_at(g, index);
    let edge_distance = if index == 0 {
        g.ball.x as int
    } else {
        interior_width(g.game_area) - g.ball.x
    };
    &&& p.power_moves_left > 0
    &&& (if index == 0 {
        g.ball.vx < 0
    } else {
        g.ball.vx > 0
    })
    &&& p.bar_position <= g.ball.y < p.bar_position + p.bar_length
    &&& POWER_WINDOW_NEAR < edge_distance < POWER_WINDOW_FAR
}

impl Game {
    /// Everything a reachable match state satisfies: a playable field,
    /// engine-made velocities, fixed paddle lengths, well-formed
    /// controllers.
    pub open spec fn wf(self) -> bool {
        &&& valid_area(self.game_area)
        &&& self.ball.wf()
        &&& self.player_left.wf()
        &&& self.player_right.wf()
    }

    /// A fresh match: paddles centered, ball centered with the default
    /// velocity, scores zero, full power charges, paused, and agents
    /// attached per the game type, from the given difficulty (in
    /// thousandths) or the default one.
    pub fn new(
        player_names: [&str; 2],
        game_area: GameArea,
        game_type: GameType,
        difficulty_permill: Option<u16>,
    ) -> (g: Game)
        requires
            valid_area(game_area),
            difficulty_permill matches Some(d) ==> d <= 1000,
        ensures
            g.wf(),
            g.game_area == game_area,
            g.is_paused,
            g.last_update_ms == 0,
            g.ball.x == interior_width(game_area) / 2,
            g.ball.y == interior_height(game_area) / 2,
            g.ball.vx == DEFAULT_BALL_VELOCITY_X,
            g.ball.vy == DEFAULT_BALL_VELOCITY_Y,
            !g.ball.is_powered,
            g.player_left.name@ == padded_chars(player_names[0]@),
            g.player_right.name@ == padded_chars(player_names[1]@),
            g.player_left.score == 0 && g.player_right.score == 0,
            g.player_left.power_moves_left == STARTING_POWER_MOVES,
            g.player_right.power_moves_left == STARTING_POWER_MOVES,
            g.player_left.bar_position == game_area.height / 2 - 2,
            g.player_right.bar_position == game_area.height / 2 - 2,
            g.player_left.bar_length == DEFAULT_BAR_LENGTH,
            g.player_right.bar_length == DEFAULT_BAR_LENGTH,
            !g.player_left.is_ready && g.player_right.is_ready,
            g.player_left.in_interior(game_area),
            g.player_right.in_interior(game_area),
            g.player_left.controller.spec_is_agent() <==> game_type == GameType::ScreenSaver,
            g.player_right.controller.spec_is_agent() <==> (game_type == GameType::AgainstAi
                || game_type == GameType::ScreenSaver),
            ball_in_interior(g.ball, game_area),
    {
        let difficulty: u16 = match difficulty_permill {
            Some(d) => d,
            None => DEFAULT_DIFFICULTY_PERMILL,
        };
        let ai_template = ComputerAI::new(difficulty);
        let center_bar: u16 = game_area.height / 2 - (DEFAULT_BAR_LENGTH / 2) as u16;
        let name_left = string_to_char_array(player_names[0]);
        let name_right = string_to_char_array(player_names[1]);
        let player_left = Player {
            name: name_left,
            score: 0,
            power_moves_left: STARTING_POWER_MOVES,
            last_power_used_at: None,
            bar_position: center_bar,
            bar_length: DEFAULT_BAR_LENGTH,
            is_ready: false,
            controller: match game_type {
                GameType::ScreenSaver => Controller::Agent(ai_template),
                _ => Controller::Human,
            },
        };
        let player_right = Player {
            name: name_right,
            score: 0,
            power_moves_left: STARTING_POWER_MOVES,
            last_power_used_at: None,
            bar_position: center_bar,
            bar_length: DEFAULT_BAR_LENGTH,
            is_ready: true,
            controller: match game_type {
                GameType::AgainstAi => Controller::Agent(ai_template),
                GameType::ScreenSaver => Controller::Agent(ai_template),
                GameType::WithFriend => Controller::Human,
            },
        };
        let iw: u16 = game_area.width - 2;
        let ih: u16 = game_area.height - 2;
        Game {
            player_left,
            player_right,
            ball: Ball {
                x: iw / 2,
                y: ih / 2,
                vx: DEFAULT_BALL_VELOCITY_X,
                vy: DEFAULT_BALL_VELOCITY_Y,
                is_powered: false,
            },
            game_area,
            last_update_ms: 0,
            is_paused: true,
        }
    }

    /// The playfield rectangle.
    pub fn get_area(&self) -> (r: GameArea)
        ensures
            r == self.game_area,
    {
        self.game_area
    }

    /// Replace the playfield rectangle at once. Paddle and ball
    /// positions are not re-clamped here; the next tick's own clamping
    /// brings the ball back inside, and the agents re-clamp their
    /// paddles.
    pub fn set_area(&mut self, game_area: GameArea)
        requires
            old(self).wf(),
            valid_area(game_area),
        ensures
            *final(self) == (Game { game_area, ..*old(self) }),
            final(self).wf(),
    {
        self.game_area = game_area;
    }

    /// The player in the given seat: 0 left, 1 right.
    pub fn get_player(&self, index: usize) -> (p: &Player)
        requires
            index < 2,
        ensures
            *p == spec_player_at(*self, index as int),
    {
        if index == 0 {
            &self.player_left
        } else {
            &self.player_right
        }
    }

    /// The ball.
    pub fn get_ball(&self) -> (b: &Ball)
        ensures
            *b == self.ball,
    {
        &self.ball
    }

    /// Mark the player in the given seat ready; nothing else changes.
    pub fn ready_player(&mut self, index: usize)
        requires
            index < 2,
        ensures
            index == 0 ==> *final(self) == (Game {
                player_left: Player { is_ready: true, ..old(self).player_left },
                ..*old(self)
            }),
            index == 1 ==> *final(self) == (Game {
                player_right: Player { is_ready: true, ..old(self).player_right },
                ..*old(self)
            }),
    {
        if index == 0 {
            self.player_left.is_ready = true;
        } else {
            self.player_right.is_ready = true;
        }
    }

    /// Open or shut the tick gate; nothing else changes. Move and
    /// power commands stay accepted while paused (the embedding layer
    /// may gate them by its own policy).
    pub fn set_paused(&mut self, paused: bool)
        ensures
            *final(self) == (Game { is_paused: paused, ..*old(self) }),
    {
        self.is_paused = paused;
    }

    /// Move one paddle one row: a positive direction is toward the top
    /// edge, a negative one toward the bottom, zero is a no-op, and a
    /// move past either edge is silently ignored, as `moved_bar`
    /// states. Accepted for agent-steered paddles too.
    pub fn move_player(&mut self, player_index: usize, direction: i8)
        requires
            old(self).wf(),
            player_index < 2,
        ensures
            player_index == 0 ==> *final(self) == (Game {
                player_left: Player {
                    bar_position: moved_bar(
                        old(self).player_left.bar_position,
                        old(self).player_left.bar_length,
                        direction,
                        old(self).game_area,
                    ),
                    ..old(self).player_left
                },
                ..*old(self)
            }),
            player_index == 1 ==> *final(self) == (Game {
                player_right: Player {
                    bar_position: moved_bar(
                        old(self).player_right.bar_position,
                        old(self).player_right.bar_length,
                        direction,
                        old(self).game_area,
                    ),
                    ..old(self).player_right
                },
                ..*old(self)
            }),
            final(self).wf(),
            spec_player_at(*old(self), player_index as int).in_interior(old(self).game_area)
                ==> spec_player_at(*final(self), player_index as int).in_interior(
                old(self).game_area,
            ),
    {
        if direction == 0 {
            return ;
        }
        let inner_height: u16 = self.game_area.height - 2;
        if player_index == 0 {
            if direction > 0 {
                if self.player_left.bar_position > 0 {
                    self.player_left.bar_position = self.player_left.bar_position - 1;
                }
            } else {
                if (self.player_left.bar_position as u32) + (self.player_left.bar_length as u32)
                    < (inner_height as u32) {
                    self.player_left.bar_position = self.player_left.bar_position + 1;
                }
            }
        } else {
            if direction > 0 {
                if self.player_right.bar_position > 0 {
                    self.player_right.bar_position = self.player_right.bar_position - 1;
                }
            } else {
                if (self.player_right.bar_position as u32) + (self.player_right.bar_length as u32)
                    < (inner_height as u32) {
                    self.player_right.bar_position = self.player_right.bar_position + 1;
                }
            }
        }
    }

    /// Spend one power-move charge if the activation condition holds:
    /// the ball, already heading toward the acting player and level
    /// with the paddle, speeds up to the boosted magnitude away from
    /// that player and is marked powered, and one charge is consumed.
    /// With no charge left, or outside the condition, nothing at all
    /// changes.
    pub fn power_move(&mut self, player_index: usize)
        requires
            old(self).wf(),
            player_index < 2,
        ensures
            !power_move_fires(*old(self), player_index as int) ==> *final(self) == *old(self),
            power_move_fires(*old(self), player_index as int) ==> {
                &&& final(self).ball == (Ball {
                    vx: if player_index == 0 {
                        POWER_BALL_VELOCITY_X
                    } else {
                        -POWER_BALL_VELOCITY_X as i8
                    },
                    is_powered: true,
                    ..old(self).ball
                })
                &&& spec_player_at(*final(self), player_index as int) == (Player {
                    power_moves_left: (spec_player_at(
                        *old(self),
                        player_index as int,
                    ).power_moves_left - 1) as u8,
                    ..spec_player_at(*old(self), player_index as int)
                })
                &&& spec_player_at(*final(self), 1 - player_index as int) == spec_player_at(
                    *old(self),
                    1 - player_index as int,
                )
                &&& final(self).game_area == old(self).game_area
                &&& final(self).last_update_ms == old(self).last_update_ms
                &&& final(self).is_paused == old(self).is_paused
            },
            final(self).wf(),
    {
        let iw: u16 = self.game_area.width - 2;
        if player_index == 0 {
            if self.player_left.power_moves_left == 0 {
                return ;
            }
            let p = &self.player_left;
            if self.ball.vx < 0 && self.ball.y >= p.bar_position && (self.ball.y as u32) < (
            p.bar_position as u32) + (p.bar_length as u32) && self.ball.x > POWER_WINDOW_NEAR
                && self.ball.x < POWER_WINDOW_FAR {
                self.ball.vx = POWER_BALL_VELOCITY_X;
                self.ball.is_powered = true;
                self.player_left.power_moves_left = self.player_left.power_moves_left - 1;
            }
        } else {
            if self.player_right.power_moves_left == 0 {
                return ;
            }
            let p = &self.player_right;
            let edge_distance: i32 = (iw as i32) - (self.ball.x as i32);
            if self.ball.vx > 0 && self.ball.y >= p.bar_position && (self.ball.y as u32) < (
            p.bar_position as u32) + (p.bar_length as u32) && edge_distance > (
            POWER_WINDOW_NEAR as i32) && edge_distance < (POWER_WINDOW_FAR as i32) {
                self.ball.vx = -POWER_BALL_VELOCITY_X;
                self.ball.is_powered = true;
                self.player_right.power_moves_left = self.player_right.power_moves_left - 1;
            }
        }
    }
}

/// The collision report of the physics step, in the embedding layer's
/// historical encoding: 1 for the left paddle, 2 for the right, nothing
/// for a tick without a paddle hit.
pub open spec fn hit_code(outcome: XEvent) -> Option<u8> {
    match outcome {
        XEvent::HitLeft => Some(1u8),
        XEvent::HitRight => Some(2u8),
        _ => None,
    }
}

/// A physics-step result folded into the match state: the new ball, and
/// a point for the side away from which the ball left the field.
pub open spec fn apply_ball_step(g: Game, s: BallStep) -> Game {
    Game {
        ball: s.ball,
        player_left: if s.outcome == XEvent::ExitRight {
            Player { score: score_plus_one(g.player_left.score), ..g.player_left }
        } else {
            g.player_left
        },
        player_right: if s.outcome == XEvent::ExitLeft {
            Player { score: score_plus_one(g.player_right.score), ..g.player_right }
        } else {
            g.player_right
        },
        ..g
    }
}

/// One agent update folded into the match state: the controller at the
/// given seat advances and its paddle moves; a manual seat is left
/// alone.
pub open spec fn apply_agent(g: Game, index: int, now_ms: u64, d: AgentDraws) -> Game {
    let p = spec_player_at(g, index);
    match p.controller {
        Controller::Human => g,
        Controller::Agent(ai) => {
            let r = spec_agent_step(
                ai,
                g.ball,
                p.bar_position,
                p.bar_length,
                index == 0,
                g.game_area,
                now_ms,
                d,
            );
            if index == 0 {
                Game {
                    player_left: Player {
                        bar_position: r.1,
                        controller: Controller::Agent(r.0),
                        ..g.player_left
                    },
                    ..g
                }
            } else {
                Game {
                    player_right: Player {
                        bar_position: r.1,
                        controller: Controller::Agent(r.0),
                        ..g.player_right
                    },
                    ..g
                }
            }
        },
    }
}

/// Whether a call at this time commits a tick: the match is running and
/// a whole tick interval has passed since the last committed tick.
pub open spec fn tick_due(g: Game, now_ms: u64) -> bool {
    &&& !g.is_paused
    &&& now_ms >= g.last_update_ms + TICK_INTERVAL_MS
}

/// One committed tick as a mathematical function of the old state, the
/// clock and the random values: the physics step resolves first, then
/// each agent reacts to the post-move ball, then the tick timestamp
/// advances.
pub open spec fn spec_tick(
    g: Game,
    now_ms: u64,
    coin: bool,
    dl: AgentDraws,
    dr: AgentDraws,
) -> Game {
    let s = spec_step_ball(
        g.ball,
        g.player_left.bar_position,
        g.player_left.bar_length,
        g.player_right.bar_position,
        g.player_right.bar_length,
        g.game_area,
        coin,
    );
    let g1 = apply_ball_step(g, s);
    let g2 = apply_agent(g1, 0, now_ms, dl);
    let g3 = apply_agent(g2, 1, now_ms, dr);
    Game { last_update_ms: now_ms, ..g3 }
}

/// Tick gating: after a tick committed at some time, no call strictly
/// within one tick interval of it is due, so two calls within the
/// interval commit at most one tick.
pub proof fn lemma_tick_gating(g: Game, now2_ms: u64)
    requires
        now2_ms < g.last_update_ms + TICK_INTERVAL_MS,
    ensures
        !tick_due(g, now2_ms),
{
}

impl Game {
    /// Advance the ball one physics step and fold in any point scored.
    ///
    /// The direction of a recentered ball is random; everything else is
    /// the function `spec_step_ball` of the state, and the report is
    /// its outcome's code.
    fn update_ball_position(&mut self) -> (hit: Option<u8>)
        requires
            old(self).wf(),
        ensures
            ({
                let st = spec_step_ball(
                    old(self).ball,
                    old(self).player_left.bar_position,
                    old(self).player_left.bar_length,
                    old(self).player_right.bar_position,
                    old(self).player_right.bar_length,
                    old(self).game_area,
                    true,
                );
                let sf = spec_step_ball(
                    old(self).ball,
                    old(self).player_left.bar_position,
                    old(self).player_left.bar_length,
                    old(self).player_right.bar_position,
                    old(self).player_right.bar_length,
                    old(self).game_area,
                    false,
                );
                ||| (*final(self) == apply_ball_step(*old(self), st) && hit == hit_code(st.outcome))
                ||| (*final(self) == apply_ball_step(*old(self), sf) && hit == hit_code(sf.outcome))
            }),
            final(self).wf(),
            ball_in_interior(final(self).ball, old(self).game_area),
            old(self).player_left.score <= final(self).player_left.score,
            old(self).player_right.score <= final(self).player_right.score,
            final(self).player_left.bar_position == old(self).player_left.bar_position,
            final(self).player_right.bar_position == old(self).player_right.bar_position,
            final(self).game_area == old(self).game_area,
            final(self).is_paused == old(self).is_paused,
            final(self).last_update_ms == old(self).last_update_ms,
    {
        let draw: u16 = random_below(2);
        let coin: bool = draw == 0;
        let s: BallStep = step_ball(
            &self.ball,
            self.player_left.bar_position,
            self.player_left.bar_length,
            self.player_right.bar_position,
            self.player_right.bar_length,
            &self.game_area,
            coin,
        );
        self.ball = s.ball;
        match s.outcome {
            XEvent::ExitLeft => {
                if self.player_right.score != u32::MAX {
                    self.player_right.score = self.player_right.score + 1;
                }
            },
            XEvent::ExitRight => {
                if self.player_left.score != u32::MAX {
                    self.player_left.score = self.player_left.score + 1;
                }
            },
            _ => {},
        }
        match s.outcome {
            XEvent::HitLeft => Some(1),
            XEvent::HitRight => Some(2),
            _ => None,
        }
    }

    /// Run the agent of the given seat, if one is attached: draw its
    /// randomness, advance its controller state against the current
    /// ball and clock, and move its paddle. A manual seat is left
    /// untouched.
    fn update_computer_player(&mut self, player_index: usize, now_ms: u64)
        requires
            old(self).wf(),
            player_index < 2,
        ensures
            exists|d: AgentDraws| d.wf() && *final(self) == apply_agent(
                *old(self),
                player_index as int,
                now_ms,
                d,
            ),
            final(self).wf(),
            final(self).ball == old(self).ball,
            final(self).game_area == old(self).game_area,
            final(self).is_paused == old(self).is_paused,
            final(self).last_update_ms == old(self).last_update_ms,
            final(self).player_left.score == old(self).player_left.score,
            final(self).player_right.score == old(self).player_right.score,
            spec_player_at(*old(self), player_index as int).controller.spec_is_agent()
                ==> spec_player_at(*final(self), player_index as int).in_interior(
                old(self).game_area,
            ),
            !spec_player_at(*old(self), player_index as int).controller.spec_is_agent()
                ==> *final(self) == *old(self),
            spec_player_at(*final(self), 1 - player_index as int) == spec_player_at(
                *old(self),
                1 - player_index as int,
            ),
    {
        let attached: bool = if player_index == 0 {
            self.player_left.is_agent_controlled()
        } else {
            self.player_right.is_agent_controlled()
        };
        if !attached {
            proof {
                let d0 = crate::agent::neutral_draws();
                assert(d0.wf() && *self == apply_agent(*self, player_index as int, now_ms, d0));
            }
            return ;
        }
        let draws = AgentDraws {
            err_draw: random_below(1000),
            blunder_roll: random_below(1000),
            blunder_draw: random_below(1000),
            jitter_roll: random_below(1000),
            jitter_draw: random_below(1000),
            motion_draw: random_below(1000),
            quirk_roll: random_below(1000),
            overshoot_roll: random_below(1000),
        };
        if player_index == 0 {
            let bar: u16 = self.player_left.bar_position;
            let len: u8 = self.player_left.bar_length;
            let moved: Option<u16> = match &mut self.player_left.controller {
                Controller::Human => None,
                Controller::Agent(ai) => Some(
                    agent_step(ai, &self.ball, bar, len, true, &self.game_area, now_ms, &draws),
                ),
            };
            if let Some(b) = moved {
                self.player_left.bar_position = b;
            }
        } else {
            let bar: u16 = self.player_right.bar_position;
            let len: u8 = self.player_right.bar_length;
            let moved: Option<u16> = match &mut self.player_right.controller {
                Controller::Human => None,
                Controller::Agent(ai) => Some(
                    agent_step(ai, &self.ball, bar, len, false, &self.game_area, now_ms, &draws),
                ),
            };
            if let Some(b) = moved {
                self.player_right.bar_position = b;
            }
        }
    }

    /// Advance the match by at most one tick.
    ///
    /// If the match is paused or a whole tick interval has not passed
    /// since the last committed tick, nothing at all changes. Otherwise
    /// exactly one tick commits -- the physics step, then both agents
    /// against the post-move ball, then the timestamp -- as `spec_tick`
    /// states for the drawn random values. A slow caller gets exactly
    /// one tick, never a catch-up burst. Scores never decrease, the
    /// ball ends inside the interior, and paddles inside the interior
    /// stay inside.
    pub fn update_game_state(&mut self, now_ms: u64)
        requires
            old(self).wf(),
        ensures
            final(self).wf(),
            !tick_due(*old(self), now_ms) ==> *final(self) == *old(self),
            tick_due(*old(self), now_ms) ==> exists|coin: bool, dl: AgentDraws, dr: AgentDraws|
                dl.wf() && dr.wf() && *final(self) == spec_tick(*old(self), now_ms, coin, dl, dr),
            tick_due(*old(self), now_ms) ==> final(self).last_update_ms == now_ms,
            tick_due(*old(self), now_ms) ==> ball_in_interior(
                final(self).ball,
                old(self).game_area,
            ),
            old(self).player_left.score <= final(self).player_left.score,
            old(self).player_right.score <= final(self).player_right.score,
            old(self).player_left.in_interior(old(self).game_area) ==> final(self)
                .player_left.in_interior(old(self).game_area),
            old(self).player_right.in_interior(old(self).game_area) ==> final(self)
                .player_right.in_interior(old(self).game_area),
            final(self).game_area == old(self).game_area,
    {
        if self.is_paused {
            return ;
        }
        let elapsed: u64 = now_ms.saturating_sub(self.last_update_ms);
        if elapsed < TICK_INTERVAL_MS {
            return ;
        }
        let ghost g0: Game = *self;
        let hit: Option<u8> = self.update_ball_position();
        let ghost g1: Game = *self;
        self.update_computer_player(0, now_ms);
        let ghost g2: Game = *self;
        self.update_computer_player(1, now_ms);
        let ghost g3: Game = *self;
        self.last_update_ms = now_ms;
        proof {
            let st = spec_step_ball(
                g0.ball,
                g0.player_left.bar_position,
                g0.player_left.bar_length,
                g0.player_right.bar_position,
                g0.player_right.bar_length,
                g0.game_area,
                true,
            );
            let coin: bool = g1 == apply_ball_step(g0, st) && hit == hit_code(st.outcome);
            let dl = choose|d: AgentDraws| d.wf() && g2 == apply_agent(g1, 0, now_ms, d);
            let dr = choose|d: AgentDraws| d.wf() && g3 == apply_agent(g2, 1, now_ms, d);
            assert(dl.wf() && dr.wf() && *self == spec_tick(g0, now_ms, coin, dl, dr));
        }
    }
}

} // verus!
