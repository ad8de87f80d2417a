use pong::buffers::{assemble, QuadBufferBuilder, Vertex};
use pong::math::Vec2;
use pong::state::{Ball, Config, Player, State, Text};

fn v(x: i64, y: i64) -> Vertex {
    Vertex { pos: Vec2 { x, y } }
}

#[test]
fn push_quad_adds_two_triangles() {
    let (vs, is, n) = QuadBufferBuilder::new().push_quad(1, 2, 3, 4).push_quad(5, 6, 7, 8).build();
    assert_eq!(vs, vec![v(1, 2), v(3, 2), v(3, 4), v(1, 4), v(5, 6), v(7, 6), v(7, 8), v(5, 8)]);
    assert_eq!(is, vec![0, 1, 2, 0, 2, 3, 4, 5, 6, 4, 6, 7]);
    assert_eq!(n, 12);
}

#[test]
fn push_ball_and_player_respect_visibility() {
    let ball = Ball { position: Vec2 { x: 10, y: -20 }, velocity: Vec2 { x: 0, y: 0 }, radius: 5, visible: true };
    let player = Player { position: Vec2 { x: 100, y: 0 }, size: Vec2 { x: 10, y: 40 }, score: 0, visible: true };
    let (vs, _, n) = QuadBufferBuilder::new().push_ball(&ball).push_player(&player).build();
    assert_eq!(vs, vec![v(5, -25), v(15, -25), v(15, -15), v(5, -15), v(95, -20), v(105, -20), v(105, 20), v(95, 20)]);
    assert_eq!(n, 12);
    let hidden = Ball { visible: false, ..ball };
    let (vs, is, n) = QuadBufferBuilder::new().push_ball(&hidden).build();
    assert!(vs.is_empty() && is.is_empty());
    assert_eq!(n, 0);
}

#[test]
fn assemble_counts_visible_entities() {
    let mut s = State::new(Config::new(9_000, 10_000, 250, 100, 10, 400, 3, 60).unwrap(), 800, 600);
    for mask in 0..8u32 {
        s.ball.visible = mask & 1 != 0;
        s.player1.visible = mask & 2 != 0;
        s.player2.visible = mask & 4 != 0;
        let k = mask.count_ones();
        let (vs, is, n) = assemble(&s);
        assert_eq!(n, 6 * k);
        assert_eq!(is.len() as u32, 6 * k);
        assert_eq!(vs.len() as u32, 4 * k);
    }
    s.ball.visible = false;
    s.player1.visible = true;
    s.player2.visible = true;
    let (vs, is, _) = assemble(&s);
    assert_eq!(vs[0], v(-8_250, -2_000));
    assert_eq!(vs[6], v(8_250, 2_000));
    assert_eq!(is, vec![0, 1, 2, 0, 2, 3, 4, 5, 6, 4, 6, 7]);
}

#[test]
fn text_defaults_and_focus_size() {
    let t = Text::default();
    assert_eq!(t.size, 16);
    assert_eq!(t.bounds, Vec2 { x: i64::MAX, y: i64::MAX });
    assert!(t.text.is_empty() && !t.visible && !t.focused && !t.centered);
    assert_eq!(t.effective_size(), 16);
    let f = Text { focused: true, size: 32, ..Text::default() };
    assert_eq!(f.effective_size(), 40);
}

#[test]
fn ball_in_court_is_drawn_in_court() {
    let ball = Ball { position: Vec2 { x: 0, y: 9_500 }, velocity: Vec2 { x: 3, y: -4 }, radius: 500, visible: true };
    let (vs, _, _) = QuadBufferBuilder::new().push_ball(&ball).build();
    assert!(vs.iter().all(|v| -10_000 <= v.pos.y && v.pos.y <= 10_000));
    let at_rest = Ball { velocity: Vec2 { x: 0, y: 0 }, ..ball };
    let (ws, _, _) = QuadBufferBuilder::new().push_ball(&at_rest).build();
    assert_eq!(vs, ws);
}
