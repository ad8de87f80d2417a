use vstd::prelude::*;
use crate::math::Vec2;
use crate::state::{Ball, Player, State};

verus! {

/// Largest number of quads one builder accepts, so that every index fits in a `u32`.
pub const MAX_QUADS: u32 = 0x1000_0000;

/// A corner of a quad.
#[derive(Clone, Copy, Debug, PartialEq, Eq, Structural)]
pub struct Vertex {
    pub pos: Vec2,
}

/// The four corners of an axis-aligned box, counter-clockwise from its lower left.
pub open spec fn quad_vertices(min_x: int, min_y: int, max_x: int, max_y: int) -> Seq<Vertex> {
    seq![
        Vertex { pos: Vec2 { x: min_x as i64, y: min_y as i64 } },
        Vertex { pos: Vec2 { x: max_x as i64, y: min_y as i64 } },
        Vertex { pos: Vec2 { x: max_x as i64, y: max_y as i64 } },
        Vertex { pos: Vec2 { x: min_x as i64, y: max_y as i64 } },
    ]
}

/// The two triangles of quad number `q`, as indices into the vertex list.
pub open spec fn quad_indices(q: nat) -> Seq<u32> {
    let b = 4 * q;
    seq![b as u32, (b + 1) as u32, (b + 2) as u32, b as u32, (b + 2) as u32, (b + 3) as u32]
}

/// The indices of the first `n` quads.
pub open spec fn indices_upto(n: nat) -> Seq<u32>
    decreases n,
{
    if n == 0 { Seq::<u32>::empty() } else { indices_upto((n - 1) as nat) + quad_indices((n - 1) as nat) }
}

pub proof fn lemma_indices_len(n: nat)
    ensures
        indices_upto(n).len() == 6 * n,
    decreases n,
{
    if n > 0 {
        lemma_indices_len((n - 1) as nat);
    }
}

/// The square circumscribing the ball.
pub open spec fn ball_quad(b: Ball) -> Seq<Vertex> {
    quad_vertices(
        b.position.x - b.radius,
        b.position.y - b.radius,
        b.position.x + b.radius,
        b.position.y + b.radius,
    )
}

/// The paddle's box.
pub open spec fn player_quad(p: Player) -> Seq<Vertex> {
    quad_vertices(
        p.position.x - p.half_x(),
        p.position.y - p.half_y(),
        p.position.x + p.half_x(),
        p.position.y + p.half_y(),
    )
}

/// Accumulates quads into a vertex list and an index list.
pub struct QuadBufferBuilder {
    vertex_data: Vec<Vertex>,
    index_data: Vec<u32>,
    current_quad: u32,
}

impl QuadBufferBuilder {
    pub closed spec fn vertices(&self) -> Seq<Vertex> {
        self.vertex_data@
    }

    pub closed spec fn indices(&self) -> Seq<u32> {
        self.index_data@
    }

    /// Number of quads pushed so far.
    pub closed spec fn quads(&self) -> nat {
        self.current_quad as nat
    }

    /// Four vertices per quad, and the indices of each quad in order.
    pub open spec fn wf(&self) -> bool {
        &&& self.vertices().len() == 4 * self.quads()
        &&& self.indices() == indices_upto(self.quads())
        &&& self.quads() <= MAX_QUADS
    }

    pub fn new() -> (r: Self)
        ensures
            r.wf(),
            r.quads() == 0,
            r.vertices() == Seq::<Vertex>::empty(),
    {
        QuadBufferBuilder { vertex_data: Vec::new(), index_data: Vec::new(), current_quad: 0 }
    }

    /// Adds the box from (`min_x`, `min_y`) to (`max_x`, `max_y`).
    pub fn push_quad(self, min_x: i64, min_y: i64, max_x: i64, max_y: i64) -> (r: Self)
        requires
            self.wf(),
            self.quads() < MAX_QUADS,
        ensures
            r.wf(),
            r.quads() == self.quads() + 1,
            r.vertices() == self.vertices() + quad_vertices(min_x as int, min_y as int, max_x as int, max_y as int),
            r.indices() == self.indices() + quad_indices(self.quads()),
    {
        let mut b = self;
        b.vertex_data.push(Vertex { pos: Vec2 { x: min_x, y: min_y } });
        b.vertex_data.push(Vertex { pos: Vec2 { x: max_x, y: min_y } });
        b.vertex_data.push(Vertex { pos: Vec2 { x: max_x, y: max_y } });
        b.vertex_data.push(Vertex { pos: Vec2 { x: min_x, y: max_y } });
        let base = b.current_quad * 4;
        b.index_data.push(base);
        b.index_data.push(base + 1);
        b.index_data.push(base + 2);
        b.index_data.push(base);
        b.index_data.push(base + 2);
        b.index_data.push(base + 3);
        b.current_quad = b.current_quad + 1;
        assert(b.vertex_data@ =~= self.vertex_data@ + quad_vertices(
            min_x as int, min_y as int, max_x as int, max_y as int));
        assert(b.index_data@ =~= self.index_data@ + quad_indices(self.quads()));
        b
    }

    /// Adds the ball's square when the ball is visible.
    pub fn push_ball(self, ball: &Ball) -> (r: Self)
        requires
            self.wf(),
            self.quads() < MAX_QUADS,
            ball.bounded(),
        ensures
            r.wf(),
            r.quads() == self.quads() + if ball.visible { 1nat } else { 0nat },
            r.vertices() == self.vertices() + if ball.visible { ball_quad(*ball) } else { Seq::<Vertex>::empty() },
    {
        if ball.visible {
            let r = ball.radius;
            self.push_quad(ball.position.x - r, ball.position.y - r, ball.position.x + r, ball.position.y + r)
        } else {
            assert(self.vertices() =~= self.vertices() + Seq::<Vertex>::empty());
            self
        }
    }

    /// Adds the paddle's box when the paddle is visible.
    pub fn push_player(self, player: &Player) -> (r: Self)
        requires
            self.wf(),
            self.quads() < MAX_QUADS,
            player.wf(),
        ensures
            r.wf(),
            r.quads() == self.quads() + if player.visible { 1nat } else { 0nat },
            r.vertices() == self.vertices() + if player.visible { player_quad(*player) } else { Seq::<Vertex>::empty() },
    {
        if player.visible {
            let hx = player.size.x / 2;
            let hy = player.size.y / 2;
            self.push_quad(
                player.position.x - hx,
                player.position.y - hy,
                player.position.x + hx,
                player.position.y + hy,
            )
        } else {
            assert(self.vertices() =~= self.vertices() + Seq::<Vertex>::empty());
            self
        }
    }

    /// Hands out the vertex list, the index list and the number of indices.
    pub fn build(self) -> (r: (Vec<Vertex>, Vec<u32>, u32))
        requires
            self.wf(),
        ensures
            r.0@ == self.vertices(),
            r.1@ == self.indices(),
            r.2 == 6 * self.quads(),
            r.1@.len() == 6 * self.quads(),
    {
        proof {
            lemma_indices_len(self.quads());
        }
        let n = self.current_quad * 6;
        (self.vertex_data, self.index_data, n)
    }
}

/// Number of visible entities among the ball and the two paddles.
pub open spec fn visible_count(s: &State) -> nat {
    (if s.ball.visible { 1nat } else { 0nat }) + (if s.player1.visible { 1nat } else { 0nat })
        + (if s.player2.visible { 1nat } else { 0nat })
}

/// The quads of the visible entities, in the order ball, left paddle, right paddle.
pub open spec fn scene_vertices(s: &State) -> Seq<Vertex> {
    (if s.ball.visible { ball_quad(s.ball) } else { Seq::<Vertex>::empty() })
        + (if s.player1.visible { player_quad(s.player1) } else { Seq::<Vertex>::empty() })
        + (if s.player2.visible { player_quad(s.player2) } else { Seq::<Vertex>::empty() })
}

/// Builds this frame's geometry from scratch: vertices, indices and index
/// count. With nothing visible all three are empty, and no draw is due.
pub fn assemble(state: &State) -> (r: (Vec<Vertex>, Vec<u32>, u32))
    requires
        state.ball.bounded(),
        state.player1.wf(),
        state.player2.wf(),
    ensures
        r.0@ == scene_vertices(state),
        r.1@ == indices_upto(visible_count(state)),
        r.2 == 6 * visible_count(state),
        r.0@.len() == 4 * visible_count(state),
        r.1@.len() == 6 * visible_count(state),
{
    let b = QuadBufferBuilder::new()
        .push_ball(&state.ball)
        .push_player(&state.player1)
        .push_player(&state.player2);
    assert(b.vertices() =~= scene_vertices(state));
    b.build()
}

} // verus!
