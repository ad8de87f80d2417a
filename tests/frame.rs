use pong::math::Vec2;
use pong::state::{Config, Event, GameState, Input, State, BALL_RADIUS};
use pong::systems::score_label;

fn config(win_score: u32) -> Config {
    Config::new(9_000, 10_000, 250, 100, 10, 400, win_score, 60).unwrap()
}

fn no_input() -> Input {
    Input {
        p1_up: false,
        p1_down: false,
        p2_up: false,
        p2_down: false,
        up_pressed: false,
        down_pressed: false,
        confirm_pressed: false,
        escape_pressed: false,
    }
}

fn confirm() -> Input {
    Input { confirm_pressed: true, ..no_input() }
}

fn playing(win_score: u32) -> State {
    let mut s = State::new(config(win_score), 800, 600);
    let mut events = Vec::new();
    s.run_frame(&confirm(), &mut events);
    s.run_frame(&confirm(), &mut events);
    assert_eq!(s.game_state, GameState::Playing);
    s
}

#[test]
fn new_game_starts_in_menu() {
    let s = State::new(config(3), 800, 600);
    assert_eq!(s.game_state, GameState::MainMenu);
    assert_eq!(s.prev_state, GameState::Quiting);
    assert!(s.play_button.focused);
    assert!(!s.quit_button.focused);
    assert!(s.title_text.visible && s.play_button.visible && s.quit_button.visible);
    assert!(!s.ball.visible && !s.player1.visible && !s.player2.visible);
    assert!(!s.player1_score.visible && !s.win_text.visible);
    assert_eq!(s.ball.radius, BALL_RADIUS);
    assert_eq!(s.player1_score.position, Vec2 { x: 200, y: 20 });
    assert_eq!(s.player2_score.position, Vec2 { x: 600, y: 20 });
    assert_eq!(s.win_text.position, Vec2 { x: 400, y: 300 });
    assert_eq!(s.title_text.text, "PONG");
    assert_eq!(s.title_text.size, 64);
    assert_eq!(s.play_button.text, "Play");
    assert_eq!(s.play_button.position, Vec2 { x: 40, y: 100 });
    assert_eq!(s.quit_button.text, "Quit");
    assert_eq!(s.quit_button.position, Vec2 { x: 40, y: 160 });
    assert_eq!(s.win_text.bounds, Vec2 { x: 800, y: i64::MAX });
    assert!(s.win_text.centered && !s.title_text.centered);
    let texts: Vec<&str> = s.visible_texts().iter().map(|t| t.text.as_str()).collect();
    assert_eq!(texts, vec!["PONG", "Play", "Quit"]);
}

#[test]
fn scenario_menu_to_serve_to_play() {
    let mut s = State::new(config(3), 800, 600);
    let mut events = Vec::new();
    s.run_frame(&confirm(), &mut events);
    assert_eq!(s.game_state, GameState::Serving);
    assert_eq!(s.prev_state, GameState::MainMenu);
    assert_eq!(events, vec![Event::ButtonPressed]);
    assert_eq!(s.serve_timer, 60);
    assert!(s.ball.visible && s.player1.visible && s.player1_score.visible);
    assert!(!s.title_text.visible);
    assert!(s.win_text.visible);
    assert_eq!(s.win_text.text, "Get ready!");
    s.run_frame(&confirm(), &mut events);
    assert!(!s.win_text.visible);
    assert_eq!(s.game_state, GameState::Playing);
    assert_ne!(s.ball.velocity, Vec2 { x: 0, y: 0 });
    assert_eq!(s.ball.velocity, Vec2 { x: 100, y: 100 });
    assert_eq!(s.ball.position, Vec2 { x: 0, y: 0 });
}

#[test]
fn serve_waits_for_countdown() {
    let mut s = State::new(config(3), 800, 600);
    let mut events = Vec::new();
    s.run_frame(&confirm(), &mut events);
    for _ in 0..60 {
        s.run_frame(&no_input(), &mut events);
        assert_eq!(s.game_state, GameState::Serving);
    }
    assert_eq!(s.serve_timer, 0);
    s.run_frame(&no_input(), &mut events);
    assert_eq!(s.game_state, GameState::Playing);
}

#[test]
fn scenario_ball_past_right_edge_scores_left_player() {
    let mut s = playing(3);
    s.ball.position = Vec2 { x: 9_500, y: 0 };
    s.ball.velocity = Vec2 { x: 0, y: 0 };
    let mut events = Vec::new();
    s.run_frame(&no_input(), &mut events);
    assert_eq!(s.player1.score, 1);
    assert_eq!(s.player2.score, 0);
    assert_eq!(s.game_state, GameState::Serving);
    assert_eq!(s.ball.position, Vec2 { x: 0, y: 0 });
    assert_eq!(s.ball.velocity, Vec2 { x: 0, y: 0 });
    assert_eq!(events, vec![Event::Score(1)]);
    assert_eq!(s.player1_score.text, "1");
    assert_eq!(s.player2_score.text, "0");
}

#[test]
fn scenario_ball_past_right_edge_wins_match() {
    let mut s = playing(1);
    s.ball.position = Vec2 { x: 9_500, y: 0 };
    s.ball.velocity = Vec2 { x: 0, y: 0 };
    let mut events = Vec::new();
    s.run_frame(&no_input(), &mut events);
    assert_eq!(s.player1.score, 1);
    assert_eq!(s.game_state, GameState::GameOver);
    assert_eq!(s.ball.position, Vec2 { x: 0, y: 0 });
    assert_eq!(s.ball.velocity, Vec2 { x: 0, y: 0 });
    assert_eq!(s.win_text.text, "Player 1 wins!");
    assert!(s.win_text.visible && !s.ball.visible);
}

#[test]
fn ball_past_left_edge_scores_right_player() {
    let mut s = playing(3);
    s.ball.position = Vec2 { x: -9_500, y: 0 };
    s.ball.velocity = Vec2 { x: 0, y: 0 };
    let mut events = Vec::new();
    s.run_frame(&no_input(), &mut events);
    assert_eq!(s.player1.score, 0);
    assert_eq!(s.player2.score, 1);
    assert_eq!(events, vec![Event::Score(1)]);
    assert_eq!(s.game_state, GameState::Serving);
}

#[test]
fn scenario_game_over_confirm_resets_scores() {
    let mut s = playing(2);
    s.player2.score = 1;
    s.ball.position = Vec2 { x: -9_500, y: 0 };
    s.ball.velocity = Vec2 { x: 0, y: 0 };
    let mut events = Vec::new();
    s.run_frame(&no_input(), &mut events);
    assert_eq!(s.game_state, GameState::GameOver);
    assert_eq!(s.player2.score, 2);
    assert_eq!(s.win_text.text, "Player 2 wins!");
    s.run_frame(&no_input(), &mut events);
    assert_eq!(s.game_state, GameState::GameOver);
    s.run_frame(&confirm(), &mut events);
    assert_eq!(s.game_state, GameState::MainMenu);
    assert_eq!(s.player1.score, 0);
    assert_eq!(s.player2.score, 0);
    assert_eq!(s.player1_score.text, "0");
    assert_eq!(s.player2_score.text, "0");
    assert!(s.play_button.focused);
}

#[test]
fn scores_rise_by_one_per_score_event() {
    let mut s = playing(5);
    let mut total = 0;
    for k in 0..4 {
        s.ball.position = Vec2 { x: if k % 2 == 0 { 9_500 } else { -9_500 }, y: 0 };
        let mut events = Vec::new();
        s.run_frame(&no_input(), &mut events);
        let scored = events.iter().filter(|e| matches!(e, Event::Score(_))).count();
        assert_eq!(scored, 1);
        total += 1;
        assert_eq!(s.player1.score + s.player2.score, total);
        s.run_frame(&confirm(), &mut events);
        assert_eq!(s.game_state, GameState::Playing);
    }
}

#[test]
fn escape_quits_from_every_phase() {
    let esc = Input { escape_pressed: true, ..no_input() };
    let mut events = Vec::new();
    let mut s = State::new(config(3), 800, 600);
    s.run_frame(&esc, &mut events);
    assert_eq!(s.game_state, GameState::Quiting);
    assert_eq!(s.prev_state, GameState::MainMenu);
    let mut s = playing(3);
    s.run_frame(&esc, &mut events);
    assert_eq!(s.game_state, GameState::Quiting);
    assert!(!s.ball.visible && !s.title_text.visible);
    // nothing runs any more once quitting
    s.run_frame(&confirm(), &mut events);
    assert_eq!(s.game_state, GameState::Quiting);
    assert!(events.is_empty());
}

#[test]
fn menu_focus_and_quit() {
    let mut s = State::new(config(3), 800, 600);
    let mut events = Vec::new();
    s.run_frame(&Input { down_pressed: true, ..no_input() }, &mut events);
    assert!(!s.play_button.focused && s.quit_button.focused);
    assert_eq!(events, vec![Event::FocusChanged]);
    assert_eq!(s.game_state, GameState::MainMenu);
    s.run_frame(&Input { up_pressed: true, ..no_input() }, &mut events);
    assert!(s.play_button.focused && !s.quit_button.focused);
    events.clear();
    s.run_frame(&Input { down_pressed: true, confirm_pressed: true, ..no_input() }, &mut events);
    assert_eq!(s.game_state, GameState::Quiting);
    assert_eq!(events, vec![Event::FocusChanged, Event::ButtonPressed]);
}

#[test]
fn paddles_move_and_stay_in_court() {
    let mut s = playing(3);
    s.ball.velocity = Vec2 { x: 0, y: 0 };
    let mut events = Vec::new();
    s.run_frame(&Input { p1_up: true, p2_down: true, ..no_input() }, &mut events);
    assert_eq!(s.player1.position.y, 250);
    assert_eq!(s.player2.position.y, -250);
    for _ in 0..100 {
        s.run_frame(&Input { p1_up: true, p2_down: true, ..no_input() }, &mut events);
    }
    assert_eq!(s.player1.position.y, 8_000);
    assert_eq!(s.player2.position.y, -8_000);
    assert_eq!(s.game_state, GameState::Playing);
}

#[test]
fn paddle_returns_ball_faster() {
    let mut s = playing(3);
    s.ball.position = Vec2 { x: -7_000, y: 0 };
    s.ball.velocity = Vec2 { x: -300, y: 0 };
    let mut events = Vec::new();
    s.run_frame(&no_input(), &mut events);
    // moved to -7300, which overlaps the left paddle (-8250..-7750)
    assert_eq!(events, vec![Event::BallBounce(Vec2 { x: -7_300, y: 0 })]);
    assert_eq!(s.ball.position, Vec2 { x: -8_000 + 250 + 500, y: 0 });
    assert_eq!(s.ball.velocity, Vec2 { x: 310, y: 0 });
    assert_eq!(s.game_state, GameState::Playing);
}

#[test]
fn ball_bounces_off_top_wall() {
    let mut s = playing(3);
    s.ball.position = Vec2 { x: 0, y: 9_400 };
    s.ball.velocity = Vec2 { x: 100, y: 200 };
    let mut events = Vec::new();
    s.run_frame(&no_input(), &mut events);
    assert_eq!(s.ball.position, Vec2 { x: 100, y: 9_500 });
    assert_eq!(s.ball.velocity, Vec2 { x: 100, y: -200 });
    assert_eq!(events, vec![Event::BallBounce(Vec2 { x: 100, y: 9_500 })]);
}

#[test]
fn score_labels_are_decimal() {
    assert_eq!(score_label(0), "0");
    assert_eq!(score_label(7), "7");
    assert_eq!(score_label(42), "42");
    assert_eq!(score_label(1_234_567), "1234567");
    assert_eq!(score_label(u32::MAX), "4294967295");
}

#[test]
fn config_rejects_bad_bounds() {
    assert!(Config::new(9_000, 10_000, 250, 100, 10, 400, 3, 60).is_some());
    assert!(Config::new(0, 10_000, 250, 100, 10, 400, 3, 60).is_none());
    assert!(Config::new(9_000, -1, 250, 100, 10, 400, 3, 60).is_none());
    assert!(Config::new(9_000, BALL_RADIUS - 1, 250, 100, 10, 400, 3, 60).is_none());
    assert!(Config::new(9_000, 10_000, -5, 100, 10, 400, 3, 60).is_none());
    assert!(Config::new(9_000, 10_000, 250, 0, 10, 400, 3, 60).is_none());
    assert!(Config::new(9_000, 10_000, 250, 500, 10, 400, 3, 60).is_none());
    assert!(Config::new(9_000, 10_000, 250, 100, -1, 400, 3, 60).is_none());
    assert!(Config::new(9_000, 10_000, 250, 100, 10, 400, 0, 60).is_none());
    assert!(Config::new(2_000_000_000, 10_000, 250, 100, 10, 400, 3, 60).is_none());
}
