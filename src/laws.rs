use vstd::prelude::*;
use crate::buffers::ball_quad;
use crate::math::{abs, Vec2, COORD_LIMIT};
use crate::physics::{ball_physics, bounced};
use crate::rules::{ball_update, frame, menu_update, play_update, serve_ready, start_of, state_wf, updates, visibility};
use crate::state::{Ball, Event, GameState, Input, Player, StateModel};

verus! {

/// After the wall rule, a ball whose radius fits in the court lies inside it:
/// `|y| + radius` never exceeds the court's half-height.
pub proof fn lemma_wall_bounce_in_court(b: Ball, half_height: int)
    requires
        b.bounded(),
        0 <= b.radius <= half_height <= COORD_LIMIT,
    ensures
        abs(bounced(b, half_height).position.y as int) + b.radius <= half_height,
        bounced(b, half_height).radius == b.radius,
{
}

/// A ball inside the court is drawn inside it: every corner of its square
/// lies between the bottom and top walls.
pub proof fn lemma_ball_quad_in_court(b: Ball, half_height: int)
    requires
        b.bounded(),
        abs(b.position.y as int) + b.radius <= half_height <= COORD_LIMIT,
    ensures
        forall|k: int| 0 <= k < 4 ==> -half_height <= #[trigger] ball_quad(b)[k].pos.y <= half_height,
{
}

/// The drawn ball depends only on its position and radius, not on its velocity.
pub proof fn lemma_ball_quad_ignores_velocity(b1: Ball, b2: Ball)
    requires
        b1.position == b2.position,
        b1.radius == b2.radius,
    ensures
        ball_quad(b1) == ball_quad(b2),
{
}

pub open spec fn translated(v: Vec2, t: Vec2) -> Vec2 {
    Vec2 { x: (v.x + t.x) as i64, y: (v.y + t.y) as i64 }
}

pub open spec fn fits(v: Vec2, t: Vec2) -> bool {
    i64::MIN <= v.x + t.x <= i64::MAX && i64::MIN <= v.y + t.y <= i64::MAX
}

/// Moving a paddle and a ball by the same vector does not change whether they touch.
pub proof fn lemma_contains_translation(p: Player, b: Ball, t: Vec2)
    requires
        fits(p.position, t),
        fits(b.position, t),
    ensures
        (Player { position: translated(p.position, t), ..p }).overlaps(
            Ball { position: translated(b.position, t), ..b },
        ) == p.overlaps(b),
{
}

/// The paddle's box and the ball's square share an edge line on some axis.
pub open spec fn edges_meet(p: Player, b: Ball) -> bool {
    ||| p.position.x + p.half_x() == b.position.x - b.radius
    ||| p.position.x - p.half_x() == b.position.x + b.radius
    ||| p.position.y + p.half_y() == b.position.y - b.radius
    ||| p.position.y - p.half_y() == b.position.y + b.radius
}

/// Boxes that only touch along an edge do not count as a contact.
pub proof fn lemma_contains_touching(p: Player, b: Ball)
    requires
        edges_meet(p, b),
    ensures
        !p.overlaps(b),
{
}

/// Number of `Score` events in `e`.
pub open spec fn score_events(e: Seq<Event>) -> nat
    decreases e.len(),
{
    if e.len() == 0 {
        0
    } else {
        score_events(e.drop_last()) + if e.last() is Score { 1nat } else { 0nat }
    }
}

pub open spec fn total_score(m: StateModel) -> int {
    m.player1.score + m.player2.score
}

proof fn lemma_score_events_push(e: Seq<Event>, x: Event)
    ensures
        score_events(e.push(x)) == score_events(e) + if x is Score { 1nat } else { 0nat },
{
    assert(e.push(x).drop_last() =~= e);
}

proof fn lemma_no_score_events(e: Seq<Event>)
    requires
        forall|k: int| 0 <= k < e.len() ==> !(#[trigger] e[k] is Score),
    ensures
        score_events(e) == 0,
    decreases e.len(),
{
    if e.len() > 0 {
        lemma_no_score_events(e.drop_last());
    }
}

/// Scoring is conserved: outside the return from a finished match to the
/// menu (which clears both scores), a frame raises the sum of the scores by
/// exactly the number of `Score` events it emits, and emits at most one.
#[verifier::rlimit(30)]
pub proof fn lemma_score_conserved(m: StateModel, i: Input)
    requires
        state_wf(m),
        m.game_state != GameState::GameOver,
    ensures
        total_score(frame(m, i).0) == total_score(m) + score_events(frame(m, i).1),
        score_events(frame(m, i).1) <= 1,
{
    let e = frame(m, i).1;
    if m.game_state == GameState::Playing && !i.escape_pressed {
        let p = play_update(visibility(m), i);
        let c = p.config;
        let (b, pe) = ball_physics(
            p.ball, p.player1, p.player2, c.half_height as int, c.speed_up as int, c.max_ball_speed as int);
        lemma_no_score_events(pe);
        if b.position.x > c.half_width || b.position.x < -c.half_width {
            lemma_score_events_push(pe, e.last());
            assert(e =~= pe.push(e.last()));
        } else {
            assert(e =~= pe);
        }
    } else if m.game_state == GameState::MainMenu && !i.escape_pressed {
        let e1 = menu_update(visibility(m), i).1;
        lemma_no_score_events(e1);
    } else {
        lemma_no_score_events(e);
    }
}

/// Scores only go back to zero when a finished match returns to the menu:
/// from `GameOver` a frame either keeps both scores or, on reaching the
/// menu, clears them.
#[verifier::rlimit(30)]
pub proof fn lemma_scores_reset_only_on_menu(m: StateModel, i: Input)
    requires
        state_wf(m),
        m.game_state == GameState::GameOver,
    ensures
        frame(m, i).0.game_state == GameState::MainMenu ==> {
            &&& frame(m, i).0.player1.score == 0
            &&& frame(m, i).0.player2.score == 0
        },
        frame(m, i).0.game_state != GameState::MainMenu ==> {
            &&& frame(m, i).0.player1.score == m.player1.score
            &&& frame(m, i).0.player2.score == m.player2.score
        },
{
}

/// A frame emits at most three events, so a caller that drains them every
/// frame never holds more.
#[verifier::rlimit(30)]
pub proof fn lemma_frame_events_bounded(m: StateModel, i: Input)
    requires
        state_wf(m),
    ensures
        frame(m, i).1.len() <= 3,
{
}

/// What can set off a change of phase.
pub enum Trigger {
    ConfirmPlay,
    ConfirmQuit,
    ServeReady,
    PointNoWin,
    PointWin,
    Confirm,
    Escape,
}

/// The transition table: the phase that `t` leads to from `g`, if any.
pub open spec fn transition(g: GameState, t: Trigger) -> Option<GameState> {
    match (g, t) {
        (GameState::Quiting, _) => None,
        (_, Trigger::Escape) => Some(GameState::Quiting),
        (GameState::MainMenu, Trigger::ConfirmPlay) => Some(GameState::Serving),
        (GameState::MainMenu, Trigger::ConfirmQuit) => Some(GameState::Quiting),
        (GameState::Serving, Trigger::ServeReady) => Some(GameState::Playing),
        (GameState::Playing, Trigger::PointNoWin) => Some(GameState::Serving),
        (GameState::Playing, Trigger::PointWin) => Some(GameState::GameOver),
        (GameState::GameOver, Trigger::Confirm) => Some(GameState::MainMenu),
        _ => None,
    }
}

/// The trigger that a frame with input `i` sets off in `m`, if any.
pub open spec fn trigger_of(m: StateModel, i: Input) -> Option<Trigger> {
    if m.game_state == GameState::Quiting {
        None
    } else if i.escape_pressed {
        Some(Trigger::Escape)
    } else {
        match m.game_state {
            GameState::MainMenu => {
                let play = if i.up_pressed { true } else if i.down_pressed { false } else { m.play_button.focused };
                let quit = if i.up_pressed { false } else if i.down_pressed { true } else { m.quit_button.focused };
                if i.confirm_pressed && play {
                    Some(Trigger::ConfirmPlay)
                } else if i.confirm_pressed && quit {
                    Some(Trigger::ConfirmQuit)
                } else {
                    None
                }
            },
            GameState::Serving => if serve_ready(m, i) { Some(Trigger::ServeReady) } else { None },
            GameState::Playing => {
                let p = play_update(m, i);
                let c = m.config;
                let b = ball_physics(
                    p.ball, p.player1, p.player2, c.half_height as int, c.speed_up as int,
                    c.max_ball_speed as int).0;
                if b.position.x > c.half_width {
                    if m.player1.score + 1 >= c.win_score { Some(Trigger::PointWin) } else { Some(Trigger::PointNoWin) }
                } else if b.position.x < -c.half_width {
                    if m.player2.score + 1 >= c.win_score { Some(Trigger::PointWin) } else { Some(Trigger::PointNoWin) }
                } else {
                    None
                }
            },
            GameState::GameOver => if i.confirm_pressed { Some(Trigger::Confirm) } else { None },
            GameState::Quiting => None,
        }
    }
}

/// The phase after a frame is the one the table gives for its trigger, or
/// the same phase when there is none.
pub open spec fn follows_table(m: StateModel, i: Input) -> bool {
    match trigger_of(m, i) {
        Some(t) => transition(m.game_state, t) == Some(frame(m, i).0.game_state),
        None => frame(m, i).0.game_state == m.game_state,
    }
}

proof fn lemma_entry_keeps_phase(u: StateModel)
    ensures
        visibility(start_of(u)).game_state == u.game_state,
{
}

#[verifier::rlimit(30)]
proof fn lemma_menu_transitions(m: StateModel, i: Input)
    requires
        state_wf(m),
        m.game_state == GameState::MainMenu,
        !i.escape_pressed,
    ensures
        follows_table(m, i),
{
    lemma_entry_keeps_phase(updates(visibility(m), i).0);
}

proof fn lemma_serving_transitions(m: StateModel, i: Input)
    requires
        state_wf(m),
        m.game_state == GameState::Serving,
        !i.escape_pressed,
    ensures
        follows_table(m, i),
{
    lemma_entry_keeps_phase(updates(visibility(m), i).0);
}

#[verifier::rlimit(30)]
proof fn lemma_playing_transitions(m: StateModel, i: Input)
    requires
        state_wf(m),
        m.game_state == GameState::Playing,
        !i.escape_pressed,
    ensures
        follows_table(m, i),
{
    let v = visibility(m);
    let pv = play_update(v, i);
    let pm = play_update(m, i);
    assert(pv.ball == Ball { visible: true, ..pm.ball });
    assert(pv.player1 == Player { visible: true, ..pm.player1 });
    assert(pv.player2 == Player { visible: true, ..pm.player2 });
    let c = m.config;
    assert(ball_physics(pv.ball, pv.player1, pv.player2, c.half_height as int, c.speed_up as int, c.max_ball_speed as int).0.position
        == ball_physics(pm.ball, pm.player1, pm.player2, c.half_height as int, c.speed_up as int, c.max_ball_speed as int).0.position);
    let bp = ball_physics(pv.ball, pv.player1, pv.player2, c.half_height as int, c.speed_up as int, c.max_ball_speed as int).0;
    let u = ball_update(pv).0;
    assert(updates(v, i).0 == u);
    if bp.position.x > c.half_width {
        assert(u.game_state == if m.player1.score + 1 >= c.win_score { GameState::GameOver } else { GameState::Serving });
    } else if bp.position.x < -c.half_width {
        assert(u.game_state == if m.player2.score + 1 >= c.win_score { GameState::GameOver } else { GameState::Serving });
    } else {
        assert(u.game_state == GameState::Playing);
    }
    lemma_entry_keeps_phase(u);
}

proof fn lemma_game_over_transitions(m: StateModel, i: Input)
    requires
        state_wf(m),
        m.game_state == GameState::GameOver,
        !i.escape_pressed,
    ensures
        follows_table(m, i),
{
    lemma_entry_keeps_phase(updates(visibility(m), i).0);
}

/// Every change of phase follows the transition table: a frame that sets
/// off a trigger moves to the phase the table gives for it, and a frame that
/// sets off none stays in its phase.
pub proof fn lemma_phase_transitions(m: StateModel, i: Input)
    requires
        state_wf(m),
    ensures
        follows_table(m, i),
{
    if m.game_state != GameState::Quiting && !i.escape_pressed {
        match m.game_state {
            GameState::MainMenu => lemma_menu_transitions(m, i),
            GameState::Serving => lemma_serving_transitions(m, i),
            GameState::Playing => lemma_playing_transitions(m, i),
            GameState::GameOver => lemma_game_over_transitions(m, i),
            GameState::Quiting => {},
        }
    }
}

} // verus!
