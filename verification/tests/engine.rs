//! The match container: construction, commands, the tick gate, and the
//! invariants that hold across many ticks.
use pong_core::ball::Ball;
use pong_core::game::{Controller, Game, GameType};
use pong_core::geometry::GameArea;

fn area() -> GameArea {
    GameArea::new(0, 0, 130, 28)
}

fn new_match(game_type: GameType) -> Game {
    Game::new(["Forg", "Car"], area(), game_type, None)
}

#[test]
fn new_match_initial_state() {
    let g = new_match(GameType::WithFriend);
    assert_eq!(g.ball.x, 64);
    assert_eq!(g.ball.y, 13);
    assert_eq!(g.ball.vx, 3);
    assert_eq!(g.ball.vy, 1);
    assert!(!g.ball.is_powered);
    assert!(g.is_paused);
    assert_eq!(g.last_update_ms, 0);
    for i in 0..2 {
        let p = g.get_player(i);
        assert_eq!(p.score, 0);
        assert_eq!(p.power_moves_left, 10);
        assert_eq!(p.bar_position, 12);
        assert_eq!(p.bar_length, 5);
        assert!(p.last_power_used_at.is_none());
    }
    assert!(!g.get_player(0).is_ready);
    assert!(g.get_player(1).is_ready);
    let name: String = g.get_player(0).name.iter().collect();
    assert_eq!(name, "Forg            ");
    let name2: String = g.get_player(1).name.iter().collect();
    assert_eq!(name2, "Car             ");
}

#[test]
fn new_match_attaches_agents_by_type() {
    let friend = new_match(GameType::WithFriend);
    assert!(!friend.get_player(0).is_agent_controlled());
    assert!(!friend.get_player(1).is_agent_controlled());

    let vs_ai = new_match(GameType::AgainstAi);
    assert!(!vs_ai.get_player(0).is_agent_controlled());
    assert!(vs_ai.get_player(1).is_agent_controlled());

    let watch = new_match(GameType::ScreenSaver);
    assert!(watch.get_player(0).is_agent_controlled());
    assert!(watch.get_player(1).is_agent_controlled());
    match watch.get_player(0).controller {
        Controller::Agent(ai) => {
            // the default difficulty of one half
            assert_eq!(ai.difficulty_permill, 500);
            assert_eq!(ai.reaction_delay_ms, 450);
            assert_eq!(ai.prediction_error_mil, 3500);
            assert_eq!(ai.max_speed_mil, 1150);
        }
        Controller::Human => panic!("expected an agent"),
    }
}

#[test]
fn move_player_clamps_at_edges() {
    let mut g = new_match(GameType::WithFriend);
    g.move_player(0, 0);
    assert_eq!(g.player_left.bar_position, 12);
    g.move_player(0, 1);
    assert_eq!(g.player_left.bar_position, 11);
    g.move_player(0, -1);
    assert_eq!(g.player_left.bar_position, 12);

    g.player_left.bar_position = 0;
    g.move_player(0, 1);
    assert_eq!(g.player_left.bar_position, 0);

    // interior is 26 rows; a 5-row paddle stops at row 21
    g.player_right.bar_position = 21;
    g.move_player(1, -1);
    assert_eq!(g.player_right.bar_position, 21);
    g.move_player(1, 1);
    assert_eq!(g.player_right.bar_position, 20);
}

#[test]
fn power_move_without_charges_changes_nothing() {
    let mut g = new_match(GameType::WithFriend);
    g.player_left.power_moves_left = 0;
    g.ball = Ball { x: 4, y: 12, vx: -3, vy: 1, is_powered: false };
    g.power_move(0);
    assert_eq!(g.ball.vx, -3);
    assert!(!g.ball.is_powered);
    assert_eq!(g.player_left.power_moves_left, 0);
}

#[test]
fn power_move_fires_in_left_band() {
    let mut g = new_match(GameType::WithFriend);
    g.ball = Ball { x: 4, y: 12, vx: -3, vy: 1, is_powered: false };
    g.power_move(0);
    assert_eq!(g.ball.vx, 6);
    assert!(g.ball.is_powered);
    assert_eq!(g.player_left.power_moves_left, 9);
    assert_eq!(g.player_right.power_moves_left, 10);
}

#[test]
fn power_move_fires_in_mirrored_right_band() {
    let mut g = new_match(GameType::WithFriend);
    // 4 columns from the right edge of the 128-column interior
    g.ball = Ball { x: 124, y: 12, vx: 3, vy: 1, is_powered: false };
    g.power_move(1);
    assert_eq!(g.ball.vx, -6);
    assert!(g.ball.is_powered);
    assert_eq!(g.player_right.power_moves_left, 9);
}

#[test]
fn power_move_outside_band_changes_nothing() {
    let mut g = new_match(GameType::WithFriend);
    g.ball = Ball { x: 7, y: 12, vx: -3, vy: 1, is_powered: false };
    g.power_move(0);
    assert_eq!(g.ball.vx, -3);
    assert!(!g.ball.is_powered);
    assert_eq!(g.player_left.power_moves_left, 10);

    // moving away from the paddle: no activation either
    g.ball = Ball { x: 4, y: 12, vx: 3, vy: 1, is_powered: false };
    g.power_move(0);
    assert_eq!(g.ball.vx, 3);
    assert_eq!(g.player_left.power_moves_left, 10);
}

#[test]
fn tick_gate_commits_at_most_once_per_interval() {
    let mut g = new_match(GameType::WithFriend);
    g.set_paused(false);
    g.update_game_state(33);
    assert_eq!(g.last_update_ms, 33);
    assert_eq!(g.ball.x, 67);
    assert_eq!(g.ball.y, 14);

    // a second call within 33 ms of the committed tick is a no-op
    let before = g;
    g.update_game_state(50);
    assert_eq!(g.ball.x, before.ball.x);
    assert_eq!(g.ball.y, before.ball.y);
    assert_eq!(g.last_update_ms, 33);

    g.update_game_state(66);
    assert_eq!(g.last_update_ms, 66);
    assert_eq!(g.ball.x, 70);
}

#[test]
fn tick_too_early_after_construction_is_a_no_op() {
    let mut g = new_match(GameType::WithFriend);
    g.set_paused(false);
    g.update_game_state(32);
    assert_eq!(g.last_update_ms, 0);
    assert_eq!(g.ball.x, 64);
}

#[test]
fn paused_match_never_ticks() {
    let mut g = new_match(GameType::WithFriend);
    g.update_game_state(100000);
    assert_eq!(g.ball.x, 64);
    assert_eq!(g.ball.y, 13);
    assert_eq!(g.last_update_ms, 0);
}

#[test]
fn exit_scores_for_the_other_side() {
    let mut g = new_match(GameType::WithFriend);
    g.set_paused(false);
    // heading out on the left, no paddle in the way
    g.ball = Ball { x: 2, y: 20, vx: -3, vy: 0, is_powered: true };
    g.update_game_state(33);
    assert_eq!(g.player_right.score, 1);
    assert_eq!(g.player_left.score, 0);
    assert_eq!(g.ball.x, 64);
    assert_eq!(g.ball.y, 13);
    assert_eq!(g.ball.vx.abs(), 3);
    assert!(!g.ball.is_powered);
}

#[test]
fn scores_never_decrease_and_state_stays_in_bounds() {
    let mut g = new_match(GameType::ScreenSaver);
    g.set_paused(false);
    let mut last_scores = (0u32, 0u32);
    for i in 1..=600u64 {
        g.update_game_state(i * 33);
        let scores = (g.player_left.score, g.player_right.score);
        assert!(scores.0 >= last_scores.0);
        assert!(scores.1 >= last_scores.1);
        last_scores = scores;
        // interior is 128 x 26
        assert!(g.ball.x <= 128);
        assert!(g.ball.y <= 26);
        assert!(g.player_left.bar_position + 5 <= 26);
        assert!(g.player_right.bar_position + 5 <= 26);
    }
}

#[test]
fn smallest_playfield_stays_consistent() {
    // the smallest allowed field: a 10 x 7 interior
    let mut g = Game::new(["a", "b"], GameArea::new(0, 0, 12, 9), GameType::ScreenSaver, Some(0));
    assert_eq!(g.ball.x, 5);
    assert_eq!(g.ball.y, 3);
    assert_eq!(g.player_left.bar_position, 2);
    g.set_paused(false);
    for i in 1..=200u64 {
        g.update_game_state(i * 33);
        assert!(g.ball.x <= 10);
        assert!(g.ball.y <= 7);
        assert!(g.player_left.bar_position + 5 <= 7);
        assert!(g.player_right.bar_position + 5 <= 7);
    }
}

#[test]
fn score_saturates_at_the_integer_top() {
    let mut g = new_match(GameType::WithFriend);
    g.set_paused(false);
    g.player_right.score = u32::MAX;
    g.ball = Ball { x: 2, y: 20, vx: -3, vy: 0, is_powered: false };
    g.update_game_state(33);
    assert_eq!(g.player_right.score, u32::MAX);
}

#[test]
fn shrinking_the_field_recovers_on_the_next_tick() {
    // the resize command does not re-clamp; the following tick's own
    // clamping brings the ball back inside the new interior
    let mut g = new_match(GameType::WithFriend);
    g.set_paused(false);
    g.set_area(GameArea::new(0, 0, 12, 9));
    assert_eq!(g.ball.x, 64);
    g.update_game_state(33);
    assert!(g.ball.x <= 10);
    assert!(g.ball.y <= 7);
}

#[test]
fn set_area_and_queries() {
    let mut g = new_match(GameType::WithFriend);
    assert_eq!(g.get_area(), area());
    let smaller = GameArea::new(5, 5, 100, 20);
    g.set_area(smaller);
    assert_eq!(g.get_area(), smaller);
    assert_eq!(g.get_ball().x, 64);
}

#[test]
fn ready_player_marks_one_seat() {
    let mut g = new_match(GameType::WithFriend);
    assert!(!g.get_player(0).is_ready);
    g.ready_player(0);
    assert!(g.get_player(0).is_ready);
    assert!(g.get_player(1).is_ready);
}
