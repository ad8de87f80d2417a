use vstd::prelude::*;
use crate::math::{clamp, Vec2, COORD_LIMIT};
use crate::physics::ball_physics;
use crate::state::{Ball, Config, Event, GameState, Input, Player, State, StateModel, Text, TextModel, BALL_RADIUS};

verus! {

// The rules of the game as functions on `StateModel`: one per system action,
// and `frame` for the dispatcher that runs them.

impl Config {
    /// Positive court bounds that leave room for the ball, speeds within limits.
    pub open spec fn wf(&self) -> bool {
        &&& 0 < self.half_width <= COORD_LIMIT
        &&& BALL_RADIUS <= self.half_height <= COORD_LIMIT
        &&& 0 <= self.paddle_speed <= COORD_LIMIT
        &&& 0 < self.ball_speed <= self.max_ball_speed <= COORD_LIMIT
        &&& 0 <= self.speed_up <= COORD_LIMIT
        &&& 0 < self.win_score
    }
}

/// Bounds that hold at every step of a frame.
pub open spec fn core_wf(m: StateModel) -> bool {
    &&& m.config.wf()
    &&& m.ball.wf()
    &&& m.ball.radius <= m.config.half_height
    &&& m.player1.wf()
    &&& m.player2.wf()
    &&& m.player1.score <= m.config.win_score
    &&& m.player2.score <= m.config.win_score
}

/// Neither player has reached the win score yet.
pub open spec fn scores_open(m: StateModel) -> bool {
    m.player1.score < m.config.win_score && m.player2.score < m.config.win_score
}

/// The invariant of a game between frames: outside the end of a match and
/// quitting, nobody has won yet.
pub open spec fn state_wf(m: StateModel) -> bool {
    &&& core_wf(m)
    &&& (m.game_state == GameState::MainMenu || m.game_state == GameState::Serving
        || m.game_state == GameState::Playing) ==> scores_open(m)
}

pub open spec fn in_game(g: GameState) -> bool {
    g == GameState::Serving || g == GameState::Playing || g == GameState::GameOver
}

pub open spec fn shown(t: TextModel, v: bool) -> TextModel {
    TextModel { visible: v, ..t }
}

pub open spec fn labelled(t: TextModel, s: Seq<char>) -> TextModel {
    TextModel { text: s, ..t }
}

pub open spec fn focus(t: TextModel, f: bool) -> TextModel {
    TextModel { focused: f, ..t }
}

/// Visibility for the current phase: the menu shows the title and buttons;
/// a match shows paddles and scores, and the ball except once it is over;
/// the banner shows during a serve ("ready") and at the end of a match.
pub open spec fn visibility(m: StateModel) -> StateModel {
    let g = m.game_state;
    StateModel {
        ball: Ball { visible: in_game(g) && g != GameState::GameOver, ..m.ball },
        player1: Player { visible: in_game(g), ..m.player1 },
        player2: Player { visible: in_game(g), ..m.player2 },
        title_text: shown(m.title_text, g == GameState::MainMenu),
        play_button: shown(m.play_button, g == GameState::MainMenu),
        quit_button: shown(m.quit_button, g == GameState::MainMenu),
        player1_score: shown(m.player1_score, in_game(g)),
        player2_score: shown(m.player2_score, in_game(g)),
        win_text: shown(m.win_text, g == GameState::Serving || g == GameState::GameOver),
        ..m
    }
}

pub open spec fn digit(d: nat) -> char {
    if d == 0 { '0' } else if d == 1 { '1' } else if d == 2 { '2' } else if d == 3 { '3' }
    else if d == 4 { '4' } else if d == 5 { '5' } else if d == 6 { '6' } else if d == 7 { '7' }
    else if d == 8 { '8' } else { '9' }
}

/// Decimal digits of `n`, most significant first.
pub open spec fn decimal(n: nat) -> Seq<char>
    decreases n,
{
    if n < 10 { seq![digit(n)] } else { decimal(n / 10).push(digit(n % 10)) }
}

/// Entering the menu: Play is focused and both scores start again from zero.
pub open spec fn menu_start(m: StateModel) -> StateModel {
    StateModel {
        play_button: focus(m.play_button, true),
        quit_button: focus(m.quit_button, false),
        player1: Player { score: 0, ..m.player1 },
        player2: Player { score: 0, ..m.player2 },
        player1_score: labelled(m.player1_score, decimal(0)),
        player2_score: labelled(m.player2_score, decimal(0)),
        ..m
    }
}

/// Up focuses Play, down focuses Quit; confirm presses the focused button.
pub open spec fn menu_update(m: StateModel, i: Input) -> (StateModel, Seq<Event>) {
    let (f, e) = if i.up_pressed {
        (StateModel { play_button: focus(m.play_button, true), quit_button: focus(m.quit_button, false), ..m },
         seq![Event::FocusChanged])
    } else if i.down_pressed {
        (StateModel { play_button: focus(m.play_button, false), quit_button: focus(m.quit_button, true), ..m },
         seq![Event::FocusChanged])
    } else {
        (m, Seq::<Event>::empty())
    };
    if i.confirm_pressed && f.play_button.focused {
        (StateModel { game_state: GameState::Serving, ..f }, e.push(Event::ButtonPressed))
    } else if i.confirm_pressed && f.quit_button.focused {
        (StateModel { game_state: GameState::Quiting, ..f }, e.push(Event::ButtonPressed))
    } else {
        (f, e)
    }
}

/// The ball at rest at the center of the court.
pub open spec fn served(b: Ball) -> Ball {
    Ball { position: Vec2 { x: 0, y: 0 }, velocity: Vec2 { x: 0, y: 0 }, ..b }
}

pub open spec fn ready_text() -> Seq<char> {
    seq!['G', 'e', 't', ' ', 'r', 'e', 'a', 'd', 'y', '!']
}

/// Entering a serve: the ball waits at the center, the countdown starts,
/// the score labels show the scores and the banner says to get ready.
pub open spec fn serving_start(m: StateModel) -> StateModel {
    StateModel {
        ball: served(m.ball),
        serve_timer: m.config.serve_delay,
        player1_score: labelled(m.player1_score, decimal(m.player1.score as nat)),
        player2_score: labelled(m.player2_score, decimal(m.player2.score as nat)),
        win_text: labelled(m.win_text, ready_text()),
        ..m
    }
}

/// The serve is ready when confirm is pressed or the countdown has run out.
pub open spec fn serve_ready(m: StateModel, i: Input) -> bool {
    i.confirm_pressed || m.serve_timer == 0
}

pub open spec fn serving_update(m: StateModel, i: Input) -> StateModel {
    if serve_ready(m, i) {
        StateModel { game_state: GameState::Playing, ..m }
    } else {
        StateModel { serve_timer: (m.serve_timer - 1) as u32, ..m }
    }
}

/// How far from the court's center a paddle's center may go vertically.
pub open spec fn paddle_limit(p: Player, half_height: int) -> int {
    if half_height - p.half_y() > 0 { half_height - p.half_y() } else { 0 }
}

/// A paddle after one frame: up and down move it by `speed`, and it is kept inside the court.
pub open spec fn moved_paddle(p: Player, up: bool, down: bool, speed: int, half_height: int) -> Player {
    let dy = (if up { speed } else { 0 }) - (if down { speed } else { 0 });
    let lim = paddle_limit(p, half_height);
    Player { position: Vec2 { x: p.position.x, y: clamp(p.position.y + dy, -lim, lim) as i64 }, ..p }
}

pub open spec fn play_update(m: StateModel, i: Input) -> StateModel {
    let c = m.config;
    StateModel {
        player1: moved_paddle(m.player1, i.p1_up, i.p1_down, c.paddle_speed as int, c.half_height as int),
        player2: moved_paddle(m.player2, i.p2_up, i.p2_down, c.paddle_speed as int, c.half_height as int),
        ..m
    }
}

/// Entering play launches the ball, toward the right paddle when the total
/// score is even and toward the left one when it is odd.
pub open spec fn play_start(m: StateModel) -> StateModel {
    let s = m.config.ball_speed;
    let vx = if (m.player1.score + m.player2.score) % 2 == 0 { s } else { -s as i64 };
    StateModel { ball: Ball { velocity: Vec2 { x: vx, y: s }, ..m.ball }, ..m }
}

/// Ball physics, then scoring: a ball past the right edge scores for the
/// left player and one past the left edge for the right player; the scorer
/// wins on reaching the win score, and otherwise a new serve follows. A
/// scored ball comes to rest at the center.
pub open spec fn ball_update(m: StateModel) -> (StateModel, Seq<Event>) {
    let c = m.config;
    let (b, e) = ball_physics(
        m.ball, m.player1, m.player2, c.half_height as int, c.speed_up as int, c.max_ball_speed as int);
    if b.position.x > c.half_width {
        let s = (m.player1.score + 1) as u32;
        let g = if s >= c.win_score { GameState::GameOver } else { GameState::Serving };
        (StateModel { ball: served(b), player1: Player { score: s, ..m.player1 }, game_state: g, ..m },
         e.push(Event::Score(s)))
    } else if b.position.x < -c.half_width {
        let s = (m.player2.score + 1) as u32;
        let g = if s >= c.win_score { GameState::GameOver } else { GameState::Serving };
        (StateModel { ball: served(b), player2: Player { score: s, ..m.player2 }, game_state: g, ..m },
         e.push(Event::Score(s)))
    } else {
        (StateModel { ball: b, ..m }, e)
    }
}

pub open spec fn player1_wins_text() -> Seq<char> {
    seq!['P', 'l', 'a', 'y', 'e', 'r', ' ', '1', ' ', 'w', 'i', 'n', 's', '!']
}

pub open spec fn player2_wins_text() -> Seq<char> {
    seq!['P', 'l', 'a', 'y', 'e', 'r', ' ', '2', ' ', 'w', 'i', 'n', 's', '!']
}

/// Entering the end of a match: the banner names the player who reached the win score.
pub open spec fn game_over_start(m: StateModel) -> StateModel {
    let t = if m.player1.score >= m.config.win_score { player1_wins_text() } else { player2_wins_text() };
    StateModel { win_text: labelled(m.win_text, t), ..m }
}

pub open spec fn game_over_update(m: StateModel, i: Input) -> StateModel {
    if i.confirm_pressed { StateModel { game_state: GameState::MainMenu, ..m } } else { m }
}

/// The entry action of the phase `m` is in.
pub open spec fn start_of(m: StateModel) -> StateModel {
    match m.game_state {
        GameState::MainMenu => menu_start(m),
        GameState::Serving => serving_start(m),
        GameState::Playing => play_start(m),
        GameState::GameOver => game_over_start(m),
        GameState::Quiting => m,
    }
}

/// The update actions of the phase that `m` is in, in dispatch order.
pub open spec fn updates(m: StateModel, i: Input) -> (StateModel, Seq<Event>) {
    match m.game_state {
        GameState::MainMenu => menu_update(m, i),
        GameState::Serving => (play_update(serving_update(m, i), i), Seq::<Event>::empty()),
        GameState::Playing => ball_update(play_update(m, i)),
        GameState::GameOver => (game_over_update(m, i), Seq::<Event>::empty()),
        GameState::Quiting => (m, Seq::<Event>::empty()),
    }
}

/// One frame. Nothing runs once the game is quitting, and Escape quits from
/// any phase. Otherwise visibility is applied, then the current phase's
/// updates; if they changed the phase, the new phase's entry action runs and
/// visibility is applied again. `prev_state` records the phase the frame began in.
pub open spec fn frame(m: StateModel, i: Input) -> (StateModel, Seq<Event>) {
    if m.game_state == GameState::Quiting {
        (m, Seq::<Event>::empty())
    } else if i.escape_pressed {
        (visibility(StateModel { game_state: GameState::Quiting, prev_state: m.game_state, ..m }),
         Seq::<Event>::empty())
    } else {
        let (u, e) = updates(visibility(m), i);
        let n = if u.game_state != m.game_state { visibility(start_of(u)) } else { u };
        (StateModel { prev_state: m.game_state, ..n }, e)
    }
}

pub open spec fn if_visible<'a>(t: &'a Text) -> Seq<&'a Text> {
    if t.visible { seq![t] } else { Seq::empty() }
}

/// The visible labels in drawing order.
pub open spec fn visible_labels<'a>(s: &'a State) -> Seq<&'a Text> {
    if_visible(&s.title_text) + if_visible(&s.play_button) + if_visible(&s.quit_button)
        + if_visible(&s.player1_score) + if_visible(&s.player2_score) + if_visible(&s.win_text)
}

} // verus!
