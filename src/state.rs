use vstd::prelude::*;
use crate::math::{abs, Vec2, Vec4, COORD_LIMIT};

verus! {

/// Extra glyph scale given to a focused menu button.
pub const FOCUS_BONUS: u32 = 8;

/// Wrap/clip bound that means "no bound on this axis".
pub const UNBOUNDED: i64 = i64::MAX;

/// Radius of the ball that a new game starts with.
pub const BALL_RADIUS: i64 = 500;

/// Distance from the court's center to each paddle's center at the start of a game.
pub const PADDLE_X: i64 = 8_000;

/// Width and height of a paddle at the start of a game.
pub const PADDLE_WIDTH: i64 = 500;
pub const PADDLE_HEIGHT: i64 = 4_000;

/// Top-level phase of the game.
#[derive(Clone, Copy, Debug, PartialEq, Eq, Structural)]
pub enum GameState {
    MainMenu,
    Serving,
    Playing,
    GameOver,
    Quiting,
}

/// The ball; `position` is its center.
#[derive(Clone, Copy, Debug, PartialEq, Eq, Structural)]
pub struct Ball {
    pub position: Vec2,
    pub velocity: Vec2,
    pub radius: i64,
    pub visible: bool,
}

/// A paddle; `position` is its center and `size` its full extent, whose
/// components are even so that the box `position ± size / 2` is exact.
#[derive(Clone, Copy, Debug, PartialEq, Eq, Structural)]
pub struct Player {
    pub position: Vec2,
    pub size: Vec2,
    pub score: u32,
    pub visible: bool,
}

/// A text label queued for the presentation layer.
#[derive(Debug)]
pub struct Text {
    pub position: Vec2,
    pub bounds: Vec2,
    pub color: Vec4,
    pub text: String,
    pub size: u32,
    pub visible: bool,
    pub focused: bool,
    pub centered: bool,
}

/// What a `Text` holds, with its content as a character sequence.
pub struct TextModel {
    pub position: Vec2,
    pub bounds: Vec2,
    pub color: Vec4,
    pub text: Seq<char>,
    pub size: u32,
    pub visible: bool,
    pub focused: bool,
    pub centered: bool,
}

/// A notification emitted during a frame for the presentation layer.
#[derive(Clone, Copy, Debug, PartialEq, Eq, Structural)]
pub enum Event {
    ButtonPressed,
    FocusChanged,
    BallBounce(Vec2),
    Score(u32),
}

/// Rules of a match, fixed when the game is built.
#[derive(Clone, Copy, Debug, PartialEq, Eq, Structural)]
pub struct Config {
    /// Distance from the court's center to its left and right scoring edges.
    pub half_width: i64,
    /// Distance from the court's center to its top and bottom walls.
    pub half_height: i64,
    /// Vertical distance a paddle moves in one frame while its key is held.
    pub paddle_speed: i64,
    /// Speed of the ball on both axes when it is served.
    pub ball_speed: i64,
    /// Horizontal speed the ball gains at each paddle return.
    pub speed_up: i64,
    /// Largest horizontal speed the ball can reach.
    pub max_ball_speed: i64,
    /// Score at which a player wins.
    pub win_score: u32,
    /// Frames the serve waits before the ball is launched.
    pub serve_delay: u32,
}

/// Keyboard state for one frame: held paddle keys and newly pressed menu keys.
#[derive(Clone, Copy, Debug, PartialEq, Eq, Structural)]
pub struct Input {
    pub p1_up: bool,
    pub p1_down: bool,
    pub p2_up: bool,
    pub p2_down: bool,
    pub up_pressed: bool,
    pub down_pressed: bool,
    pub confirm_pressed: bool,
    pub escape_pressed: bool,
}

/// The whole game: every entity, label and the current phase.
pub struct State {
    pub ball: Ball,
    pub player1: Player,
    pub player2: Player,
    pub title_text: Text,
    pub play_button: Text,
    pub quit_button: Text,
    pub player1_score: Text,
    pub player2_score: Text,
    pub win_text: Text,
    pub game_state: GameState,
    pub prev_state: GameState,
    /// Frames left before the pending serve launches the ball.
    pub serve_timer: u32,
    pub config: Config,
}

/// What a `State` holds, with label contents as character sequences.
pub struct StateModel {
    pub ball: Ball,
    pub player1: Player,
    pub player2: Player,
    pub title_text: TextModel,
    pub play_button: TextModel,
    pub quit_button: TextModel,
    pub player1_score: TextModel,
    pub player2_score: TextModel,
    pub win_text: TextModel,
    pub game_state: GameState,
    pub prev_state: GameState,
    pub serve_timer: u32,
    pub config: Config,
}

impl View for Text {
    type V = TextModel;

    open spec fn view(&self) -> TextModel {
        TextModel {
            position: self.position,
            bounds: self.bounds,
            color: self.color,
            text: self.text@,
            size: self.size,
            visible: self.visible,
            focused: self.focused,
            centered: self.centered,
        }
    }
}

impl View for State {
    type V = StateModel;

    open spec fn view(&self) -> StateModel {
        StateModel {
            ball: self.ball,
            player1: self.player1,
            player2: self.player2,
            title_text: self.title_text@,
            play_button: self.play_button@,
            quit_button: self.quit_button@,
            player1_score: self.player1_score@,
            player2_score: self.player2_score@,
            win_text: self.win_text@,
            game_state: self.game_state,
            prev_state: self.prev_state,
            serve_timer: self.serve_timer,
            config: self.config,
        }
    }
}

impl Ball {
    /// Bounds that hold of a well-formed ball after one frame of motion.
    pub open spec fn bounded(&self) -> bool {
        &&& abs(self.position.x as int) <= 5 * COORD_LIMIT
        &&& abs(self.position.y as int) <= 5 * COORD_LIMIT
        &&& abs(self.velocity.x as int) <= COORD_LIMIT
        &&& abs(self.velocity.y as int) <= COORD_LIMIT
        &&& 0 <= self.radius <= COORD_LIMIT
    }

    /// Coordinates and speeds stay small enough that one frame of motion cannot overflow.
    pub open spec fn wf(&self) -> bool {
        &&& abs(self.position.x as int) <= 4 * COORD_LIMIT
        &&& abs(self.position.y as int) <= 4 * COORD_LIMIT
        &&& abs(self.velocity.x as int) <= COORD_LIMIT
        &&& abs(self.velocity.y as int) <= COORD_LIMIT
        &&& 0 <= self.radius <= COORD_LIMIT
    }
}

impl Player {
    pub open spec fn wf(&self) -> bool {
        &&& abs(self.position.x as int) <= COORD_LIMIT
        &&& abs(self.position.y as int) <= COORD_LIMIT
        &&& 0 <= self.size.x <= COORD_LIMIT
        &&& 0 <= self.size.y <= COORD_LIMIT
        &&& self.size.x % 2 == 0
        &&& self.size.y % 2 == 0
    }

    /// Half of the paddle's width (exact for a well-formed paddle, whose sizes are even).
    pub open spec fn half_x(&self) -> int {
        self.size.x / 2
    }

    /// Half of the paddle's height (exact for a well-formed paddle).
    pub open spec fn half_y(&self) -> int {
        self.size.y / 2
    }

    /// The paddle's box and the ball's bounding square overlap, with edges
    /// that only touch not counting as overlap.
    pub open spec fn overlaps(&self, ball: Ball) -> bool {
        &&& self.position.x - self.half_x() < ball.position.x + ball.radius
        &&& self.position.x + self.half_x() > ball.position.x - ball.radius
        &&& self.position.y - self.half_y() < ball.position.y + ball.radius
        &&& self.position.y + self.half_y() > ball.position.y - ball.radius
    }

    /// Whether the ball touches this paddle (strict overlap of the two boxes).
    pub fn contains(&self, ball: &Ball) -> (r: bool)
        requires
            self.wf(),
            ball.bounded(),
        ensures
            r == self.overlaps(*ball),
    {
        let half_x = self.size.x / 2;
        let half_y = self.size.y / 2;
        let min_x = self.position.x - half_x;
        let max_x = self.position.x + half_x;
        let min_y = self.position.y - half_y;
        let max_y = self.position.y + half_y;
        let b_min_x = ball.position.x - ball.radius;
        let b_max_x = ball.position.x + ball.radius;
        let b_min_y = ball.position.y - ball.radius;
        let b_max_y = ball.position.y + ball.radius;
        min_x < b_max_x && max_x > b_min_x && min_y < b_max_y && max_y > b_min_y
    }
}

impl Text {
    /// The size the label is drawn at: focused labels are enlarged.
    pub open spec fn spec_effective_size(&self) -> int {
        if self.focused { self.size + FOCUS_BONUS } else { self.size as int }
    }

    pub fn effective_size(&self) -> (r: u32)
        requires
            self.size <= u32::MAX - FOCUS_BONUS,
        ensures
            r == self.spec_effective_size(),
    {
        if self.focused { self.size + FOCUS_BONUS } else { self.size }
    }
}

impl Default for Text {
    fn default() -> (r: Text)
        ensures
            r.position == (Vec2 { x: 0, y: 0 }),
            r.bounds == (Vec2 { x: UNBOUNDED, y: UNBOUNDED }),
            r.color == (Vec4 { r: 255, g: 255, b: 255, a: 255 }),
            r.text@ == Seq::<char>::empty(),
            r.size == 16,
            !r.visible,
            !r.focused,
            !r.centered,
    {
        Text {
            position: Vec2::new(0, 0),
            bounds: Vec2::new(UNBOUNDED, UNBOUNDED),
            color: Vec4::new(255, 255, 255, 255),
            text: String::new(),
            size: 16,
            visible: false,
            focused: false,
            centered: false,
        }
    }
}

} // verus!
