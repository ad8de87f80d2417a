use vstd::prelude::*;
use vstd::string::StringExecFns;
use crate::math::{Vec2, Vec4, COORD_LIMIT};
use crate::physics::step_ball;
use crate::rules;
use crate::rules::{core_wf, decimal, frame, scores_open, state_wf};
use crate::state::{
    Ball, Config, Event, GameState, Input, Player, State, Text, BALL_RADIUS, PADDLE_HEIGHT, PADDLE_WIDTH,
    PADDLE_X, UNBOUNDED,
};

verus! {

impl Config {
    /// Checks the rules of a match; `None` when a bound is out of range.
    pub fn new(
        half_width: i64,
        half_height: i64,
        paddle_speed: i64,
        ball_speed: i64,
        speed_up: i64,
        max_ball_speed: i64,
        win_score: u32,
        serve_delay: u32,
    ) -> (r: Option<Config>)
        ensures
            ({
                let c = Config {
                    half_width,
                    half_height,
                    paddle_speed,
                    ball_speed,
                    speed_up,
                    max_ball_speed,
                    win_score,
                    serve_delay,
                };
                &&& c.wf() ==> r == Some(c)
                &&& !c.wf() ==> r.is_none()
            }),
    {
        let c = Config {
            half_width,
            half_height,
            paddle_speed,
            ball_speed,
            speed_up,
            max_ball_speed,
            win_score,
            serve_delay,
        };
        if 0 < half_width && half_width <= COORD_LIMIT && BALL_RADIUS <= half_height
            && half_height <= COORD_LIMIT && 0 <= paddle_speed && paddle_speed <= COORD_LIMIT
            && 0 < ball_speed && ball_speed <= max_ball_speed && max_ball_speed <= COORD_LIMIT
            && 0 <= speed_up && speed_up <= COORD_LIMIT && 0 < win_score {
            Some(c)
        } else {
            None
        }
    }
}

fn digit_text(d: u32) -> (r: &'static str)
    requires
        d < 10,
    ensures
        r@ == seq![rules::digit(d as nat)],
{
    proof {
        reveal_strlit("0");
        reveal_strlit("1");
        reveal_strlit("2");
        reveal_strlit("3");
        reveal_strlit("4");
        reveal_strlit("5");
        reveal_strlit("6");
        reveal_strlit("7");
        reveal_strlit("8");
        reveal_strlit("9");
    }
    let r = if d == 0 { "0" } else if d == 1 { "1" } else if d == 2 { "2" } else if d == 3 { "3" }
    else if d == 4 { "4" } else if d == 5 { "5" } else if d == 6 { "6" } else if d == 7 { "7" }
    else if d == 8 { "8" } else { "9" };
    assert(r@ =~= seq![rules::digit(d as nat)]);
    r
}

/// The decimal text of a score.
pub fn score_label(n: u32) -> (r: String)
    ensures
        r@ == decimal(n as nat),
    decreases n,
{
    if n < 10 {
        String::from_str(digit_text(n))
    } else {
        let mut s = score_label(n / 10);
        s.append(digit_text(n % 10));
        s
    }
}

/// Sets every visibility flag to match the current phase.
pub fn apply_visibility(s: &mut State)
    requires
        state_wf(old(s)@),
    ensures
        final(s)@ == rules::visibility(old(s)@),
        state_wf(final(s)@),
{
    let g = s.game_state;
    let menu = g == GameState::MainMenu;
    let over = g == GameState::GameOver;
    let in_game = g == GameState::Serving || g == GameState::Playing || over;
    s.ball.visible = in_game && !over;
    s.player1.visible = in_game;
    s.player2.visible = in_game;
    s.title_text.visible = menu;
    s.play_button.visible = menu;
    s.quit_button.visible = menu;
    s.player1_score.visible = in_game;
    s.player2_score.visible = in_game;
    s.win_text.visible = over || g == GameState::Serving;
}

/// Entry action of the menu.
pub fn menu_start(s: &mut State)
    requires
        core_wf(old(s)@),
    ensures
        final(s)@ == rules::menu_start(old(s)@),
        state_wf(final(s)@),
{
    s.play_button.focused = true;
    s.quit_button.focused = false;
    s.player1.score = 0;
    s.player2.score = 0;
    s.player1_score.text = score_label(0);
    s.player2_score.text = score_label(0);
}

/// Per-frame action of the menu.
pub fn menu_update(s: &mut State, input: &Input, events: &mut Vec<Event>)
    requires
        state_wf(old(s)@),
        old(s).game_state == GameState::MainMenu,
    ensures
        ({
            let (m, e) = rules::menu_update(old(s)@, *input);
            final(s)@ == m && final(events)@ == old(events)@ + e
        }),
        state_wf(final(s)@),
{
    if input.up_pressed {
        s.play_button.focused = true;
        s.quit_button.focused = false;
        events.push(Event::FocusChanged);
    } else if input.down_pressed {
        s.play_button.focused = false;
        s.quit_button.focused = true;
        events.push(Event::FocusChanged);
    }
    if input.confirm_pressed && s.play_button.focused {
        s.game_state = GameState::Serving;
        events.push(Event::ButtonPressed);
    } else if input.confirm_pressed && s.quit_button.focused {
        s.game_state = GameState::Quiting;
        events.push(Event::ButtonPressed);
    }
    assert(events@ =~= old(events)@ + rules::menu_update(old(s)@, *input).1);
}

/// Entry action of a serve.
pub fn serving_start(s: &mut State)
    requires
        state_wf(old(s)@),
        old(s).game_state == GameState::Serving,
    ensures
        final(s)@ == rules::serving_start(old(s)@),
        state_wf(final(s)@),
{
    s.ball.position = Vec2::new(0, 0);
    s.ball.velocity = Vec2::new(0, 0);
    s.serve_timer = s.config.serve_delay;
    s.player1_score.text = score_label(s.player1.score);
    s.player2_score.text = score_label(s.player2.score);
    proof { reveal_strlit("Get ready!"); }
    let t = String::from_str("Get ready!");
    assert(t@ =~= rules::ready_text());
    s.win_text.text = t;
}

/// Per-frame action of a serve: count down, or launch on confirm.
pub fn serving_update(s: &mut State, input: &Input)
    requires
        state_wf(old(s)@),
        old(s).game_state == GameState::Serving,
    ensures
        final(s)@ == rules::serving_update(old(s)@, *input),
        state_wf(final(s)@),
{
    if input.confirm_pressed || s.serve_timer == 0 {
        s.game_state = GameState::Playing;
    } else {
        s.serve_timer = s.serve_timer - 1;
    }
}

/// Moves one paddle for a frame and keeps it inside the court.
pub fn move_paddle(p: Player, up: bool, down: bool, speed: i64, half_height: i64) -> (r: Player)
    requires
        p.wf(),
        0 <= speed <= COORD_LIMIT,
        0 < half_height <= COORD_LIMIT,
    ensures
        r == rules::moved_paddle(p, up, down, speed as int, half_height as int),
        r.wf(),
{
    let mut y = p.position.y;
    if up {
        y = y + speed;
    }
    if down {
        y = y - speed;
    }
    let half = p.size.y / 2;
    let lim = if half_height - half > 0 { half_height - half } else { 0 };
    let ny = if y < -lim { -lim } else if y > lim { lim } else { y };
    Player { position: Vec2 { x: p.position.x, y: ny }, ..p }
}

/// Per-frame paddle movement, during serves and play.
pub fn play_update(s: &mut State, input: &Input)
    requires
        state_wf(old(s)@),
    ensures
        final(s)@ == rules::play_update(old(s)@, *input),
        state_wf(final(s)@),
{
    let c = s.config;
    s.player1 = move_paddle(s.player1, input.p1_up, input.p1_down, c.paddle_speed, c.half_height);
    s.player2 = move_paddle(s.player2, input.p2_up, input.p2_down, c.paddle_speed, c.half_height);
}

/// Entry action of play: launches the ball from the center.
pub fn play_start(s: &mut State)
    requires
        state_wf(old(s)@),
        old(s).game_state == GameState::Playing,
    ensures
        final(s)@ == rules::play_start(old(s)@),
        state_wf(final(s)@),
{
    let v = s.config.ball_speed;
    let total: u64 = s.player1.score as u64 + s.player2.score as u64;
    let vx = if total % 2 == 0 { v } else { -v };
    s.ball.velocity = Vec2::new(vx, v);
}

/// Per-frame ball physics and scoring.
pub fn ball_update(s: &mut State, events: &mut Vec<Event>)
    requires
        state_wf(old(s)@),
        old(s).game_state == GameState::Playing,
    ensures
        ({
            let (m, e) = rules::ball_update(old(s)@);
            final(s)@ == m && final(events)@ == old(events)@ + e
        }),
        state_wf(final(s)@),
{
    let c = s.config;
    let b = step_ball(s.ball, &s.player1, &s.player2, c.half_height, c.speed_up, c.max_ball_speed, events);
    let rest = Ball { position: Vec2::new(0, 0), velocity: Vec2::new(0, 0), ..b };
    if b.position.x > c.half_width {
        let sc = s.player1.score + 1;
        s.ball = rest;
        s.player1.score = sc;
        s.game_state = if sc >= c.win_score { GameState::GameOver } else { GameState::Serving };
        events.push(Event::Score(sc));
    } else if b.position.x < -c.half_width {
        let sc = s.player2.score + 1;
        s.ball = rest;
        s.player2.score = sc;
        s.game_state = if sc >= c.win_score { GameState::GameOver } else { GameState::Serving };
        events.push(Event::Score(sc));
    } else {
        s.ball = b;
    }
}

/// Entry action of the end of a match: names the winner.
pub fn game_over_start(s: &mut State)
    requires
        core_wf(old(s)@),
        old(s).game_state == GameState::GameOver,
    ensures
        final(s)@ == rules::game_over_start(old(s)@),
        state_wf(final(s)@),
{
    if s.player1.score >= s.config.win_score {
        proof { reveal_strlit("Player 1 wins!"); }
        let t = String::from_str("Player 1 wins!");
        assert(t@ =~= rules::player1_wins_text());
        s.win_text.text = t;
    } else {
        proof { reveal_strlit("Player 2 wins!"); }
        let t = String::from_str("Player 2 wins!");
        assert(t@ =~= rules::player2_wins_text());
        s.win_text.text = t;
    }
}

/// Per-frame action of the end of a match: confirm returns to the menu.
pub fn game_over_update(s: &mut State, input: &Input)
    requires
        core_wf(old(s)@),
    ensures
        final(s)@ == rules::game_over_update(old(s)@, *input),
        core_wf(final(s)@),
{
    if input.confirm_pressed {
        s.game_state = GameState::MainMenu;
    }
}

/// Runs the update actions of the phase the game is in, in dispatch order.
pub fn run_updates(s: &mut State, input: &Input, events: &mut Vec<Event>)
    requires
        state_wf(old(s)@),
    ensures
        final(s)@ == rules::updates(old(s)@, *input).0,
        final(events)@ == old(events)@ + rules::updates(old(s)@, *input).1,
        core_wf(final(s)@),
        (final(s).game_state == GameState::Serving || final(s).game_state == GameState::Playing)
            ==> scores_open(final(s)@),
{
    match s.game_state {
        GameState::MainMenu => menu_update(s, input, events),
        GameState::Serving => {
            serving_update(s, input);
            play_update(s, input);
            assert(events@ =~= old(events)@ + Seq::<Event>::empty());
        },
        GameState::Playing => {
            play_update(s, input);
            ball_update(s, events);
        },
        GameState::GameOver => {
            game_over_update(s, input);
            assert(events@ =~= old(events)@ + Seq::<Event>::empty());
        },
        GameState::Quiting => {
            assert(events@ =~= old(events)@ + Seq::<Event>::empty());
        },
    }
}

/// Runs the entry action of the phase the game is in.
pub fn start_phase(s: &mut State)
    requires
        core_wf(old(s)@),
        (old(s).game_state == GameState::Serving || old(s).game_state == GameState::Playing) ==> scores_open(old(s)@),
    ensures
        final(s)@ == rules::start_of(old(s)@),
        state_wf(final(s)@),
{
    match s.game_state {
        GameState::MainMenu => menu_start(s),
        GameState::Serving => serving_start(s),
        GameState::Playing => play_start(s),
        GameState::GameOver => game_over_start(s),
        GameState::Quiting => {},
    }
}

impl State {
    /// Runs one frame of the dispatcher, appending its events to `events`.
    #[verifier::rlimit(30)]
    pub fn run_frame(&mut self, input: &Input, events: &mut Vec<Event>)
        requires
            state_wf(old(self)@),
        ensures
            final(self)@ == frame(old(self)@, *input).0,
            final(events)@ == old(events)@ + frame(old(self)@, *input).1,
            state_wf(final(self)@),
    {
        let start = self.game_state;
        if start == GameState::Quiting {
            assert(events@ =~= old(events)@ + Seq::<Event>::empty());
            return;
        }
        if input.escape_pressed {
            self.game_state = GameState::Quiting;
            self.prev_state = start;
            apply_visibility(self);
            assert(events@ =~= old(events)@ + Seq::<Event>::empty());
            return;
        }
        let ghost m0 = self@;
        apply_visibility(self);
        assert(self@ == rules::visibility(m0));
        run_updates(self, input, events);
        if self.game_state != start {
            start_phase(self);
            apply_visibility(self);
        }
        self.prev_state = start;
        assert(events@ =~= old(events)@ + frame(old(self)@, *input).1);
    }
}

fn label(x: i64, y: i64, text: &str, size: u32) -> (r: Text)
    ensures
        r.position == (Vec2 { x, y }),
        r.bounds == (Vec2 { x: UNBOUNDED, y: UNBOUNDED }),
        r.text@ == text@,
        r.size == size,
        r.color == (Vec4 { r: 255, g: 255, b: 255, a: 255 }),
        !r.visible,
        !r.focused,
        !r.centered,
{
    Text {
        position: Vec2::new(x, y),
        bounds: Vec2::new(UNBOUNDED, UNBOUNDED),
        color: Vec4::new(255, 255, 255, 255),
        text: String::from_str(text),
        size,
        visible: false,
        focused: false,
        centered: false,
    }
}

impl State {
    /// A new game in the menu, laid out for a screen of the given size in
    /// pixels: the ball at rest at the center, both paddles at their edges,
    /// scores at zero and Play focused.
    pub fn new(config: Config, screen_width: i64, screen_height: i64) -> (r: State)
        requires
            config.wf(),
            0 <= screen_width <= COORD_LIMIT,
            0 <= screen_height <= COORD_LIMIT,
        ensures
            state_wf(r@),
            r@ == rules::visibility(r@),
            r.config == config,
            r.game_state == GameState::MainMenu,
            r.prev_state == GameState::Quiting,
            r.ball == (Ball {
                position: Vec2 { x: 0, y: 0 },
                velocity: Vec2 { x: 0, y: 0 },
                radius: BALL_RADIUS,
                visible: false,
            }),
            r.player1.position == (Vec2 { x: (-PADDLE_X) as i64, y: 0 }),
            r.player2.position == (Vec2 { x: PADDLE_X, y: 0 }),
            r.player1.size == (Vec2 { x: PADDLE_WIDTH, y: PADDLE_HEIGHT }),
            r.player2.size == (Vec2 { x: PADDLE_WIDTH, y: PADDLE_HEIGHT }),
            r.player1.score == 0,
            r.player2.score == 0,
            r.play_button.focused,
            !r.quit_button.focused,
            r.player1_score.text@ == decimal(0),
            r.player2_score.text@ == decimal(0),
            r.serve_timer == 0,
            r.title_text.text@ == "PONG"@,
            r.title_text.position == (Vec2 { x: 20, y: 20 }),
            r.title_text.size == 64,
            r.play_button.text@ == "Play"@,
            r.play_button.position == (Vec2 { x: 40, y: 100 }),
            r.play_button.size == 32,
            r.quit_button.text@ == "Quit"@,
            r.quit_button.position == (Vec2 { x: 40, y: 160 }),
            r.quit_button.size == 32,
            r.player1_score.position == (Vec2 { x: (screen_width / 4) as i64, y: 20 }),
            r.player2_score.position == (Vec2 { x: (screen_width / 4 * 3) as i64, y: 20 }),
            r.player1_score.size == 32,
            r.player2_score.size == 32,
            r.win_text.text@ == Seq::<char>::empty(),
            r.win_text.position == (Vec2 { x: (screen_width / 2) as i64, y: (screen_height / 2) as i64 }),
            r.win_text.bounds == (Vec2 { x: screen_width, y: UNBOUNDED }),
            r.win_text.size == 32,
            r.win_text.centered,
            !r.title_text.centered && !r.play_button.centered && !r.quit_button.centered,
            !r.player1_score.centered && !r.player2_score.centered,
            r.title_text.bounds == (Vec2 { x: UNBOUNDED, y: UNBOUNDED }),
            r.play_button.bounds == (Vec2 { x: UNBOUNDED, y: UNBOUNDED }),
            r.quit_button.bounds == (Vec2 { x: UNBOUNDED, y: UNBOUNDED }),
            r.title_text.color == (Vec4 { r: 255, g: 255, b: 255, a: 255 }),
            r.win_text.color == (Vec4 { r: 255, g: 255, b: 255, a: 255 }),
    {
        proof { reveal_strlit(""); }
        let mut win_text = label(screen_width / 2, screen_height / 2, "", 32);
        win_text.bounds = Vec2::new(screen_width, UNBOUNDED);
        win_text.centered = true;
        let mut s = State {
            ball: Ball {
                position: Vec2::new(0, 0),
                velocity: Vec2::new(0, 0),
                radius: BALL_RADIUS,
                visible: true,
            },
            player1: Player {
                position: Vec2::new(-PADDLE_X, 0),
                size: Vec2::new(PADDLE_WIDTH, PADDLE_HEIGHT),
                score: 0,
                visible: true,
            },
            player2: Player {
                position: Vec2::new(PADDLE_X, 0),
                size: Vec2::new(PADDLE_WIDTH, PADDLE_HEIGHT),
                score: 0,
                visible: true,
            },
            title_text: label(20, 20, "PONG", 64),
            play_button: label(40, 100, "Play", 32),
            quit_button: label(40, 160, "Quit", 32),
            player1_score: label(screen_width / 4, 20, "0", 32),
            player2_score: label(screen_width / 4 * 3, 20, "0", 32),
            win_text,
            game_state: GameState::MainMenu,
            prev_state: GameState::Quiting,
            serve_timer: 0,
            config,
        };
        menu_start(&mut s);
        apply_visibility(&mut s);
        s
    }

    /// The labels to draw this frame, in drawing order: title, Play, Quit,
    /// the two scores, the win banner; each one only while it is visible.
    pub fn visible_texts(&self) -> (r: Vec<&Text>)
        ensures
            r@ == rules::visible_labels(self),
    {
        let mut v: Vec<&Text> = Vec::new();
        if self.title_text.visible {
            v.push(&self.title_text);
        }
        if self.play_button.visible {
            v.push(&self.play_button);
        }
        if self.quit_button.visible {
            v.push(&self.quit_button);
        }
        if self.player1_score.visible {
            v.push(&self.player1_score);
        }
        if self.player2_score.visible {
            v.push(&self.player2_score);
        }
        if self.win_text.visible {
            v.push(&self.win_text);
        }
        assert(v@ =~= rules::visible_labels(self));
        v
    }
}

} // verus!
