use vstd::prelude::*;
use crate::math::{abs, Vec2, COORD_LIMIT};
use crate::state::{Ball, Event, Player};

verus! {

/// The ball after one frame of straight-line motion.
pub open spec fn moved(b: Ball) -> Ball {
    Ball {
        position: Vec2 {
            x: (b.position.x + b.velocity.x) as i64,
            y: (b.position.y + b.velocity.y) as i64,
        },
        ..b
    }
}

/// The ball's bounding square pokes through the top or bottom wall.
pub open spec fn hits_wall(b: Ball, half_height: int) -> bool {
    b.position.y + b.radius > half_height || b.position.y - b.radius < -half_height
}

/// The wall rule: a ball through the top (bottom) wall is put back against
/// it and its vertical velocity is negated; any other ball is unchanged.
pub open spec fn bounced(b: Ball, half_height: int) -> Ball {
    if b.position.y + b.radius > half_height {
        Ball {
            position: Vec2 { x: b.position.x, y: (half_height - b.radius) as i64 },
            velocity: Vec2 { x: b.velocity.x, y: -b.velocity.y as i64 },
            ..b
        }
    } else if b.position.y - b.radius < -half_height {
        Ball {
            position: Vec2 { x: b.position.x, y: (b.radius - half_height) as i64 },
            velocity: Vec2 { x: b.velocity.x, y: -b.velocity.y as i64 },
            ..b
        }
    } else {
        b
    }
}

/// Applies the wall rule and reports whether the ball bounced.
pub fn wall_bounce(ball: Ball, half_height: i64) -> (r: (Ball, bool))
    requires
        ball.bounded(),
        ball.radius <= half_height <= COORD_LIMIT,
    ensures
        r.0 == bounced(ball, half_height as int),
        r.1 == hits_wall(ball, half_height as int),
        abs(r.0.position.y as int) + r.0.radius <= half_height,
        r.0.bounded(),
{
    let mut b = ball;
    if ball.position.y + ball.radius > half_height {
        b.position.y = half_height - ball.radius;
        b.velocity.y = -ball.velocity.y;
        (b, true)
    } else if ball.position.y - ball.radius < -half_height {
        b.position.y = ball.radius - half_height;
        b.velocity.y = -ball.velocity.y;
        (b, true)
    } else {
        (b, false)
    }
}

/// Horizontal speed after a paddle return: one step faster, capped.
pub open spec fn returned_speed(vx: int, speed_up: int, max_speed: int) -> int {
    if abs(vx) + speed_up > max_speed { max_speed } else { abs(vx) + speed_up }
}

/// The paddle-return rule: the ball is placed just outside the paddle's
/// leading edge (its right edge for the left paddle) and sent away from it.
pub open spec fn returned(b: Ball, p: Player, left: bool, speed_up: int, max_speed: int) -> Ball {
    let speed = returned_speed(b.velocity.x as int, speed_up, max_speed);
    if left {
        Ball {
            position: Vec2 { x: (p.position.x + p.half_x() + b.radius) as i64, y: b.position.y },
            velocity: Vec2 { x: speed as i64, y: b.velocity.y },
            ..b
        }
    } else {
        Ball {
            position: Vec2 { x: (p.position.x - p.half_x() - b.radius) as i64, y: b.position.y },
            velocity: Vec2 { x: -speed as i64, y: b.velocity.y },
            ..b
        }
    }
}

/// Sends the ball back from paddle `p`, on the left side of the court when `left`.
pub fn paddle_return(ball: Ball, p: &Player, left: bool, speed_up: i64, max_speed: i64) -> (r: Ball)
    requires
        ball.bounded(),
        p.wf(),
        0 <= speed_up <= COORD_LIMIT,
        0 <= max_speed <= COORD_LIMIT,
    ensures
        r == returned(ball, *p, left, speed_up as int, max_speed as int),
        r.bounded(),
{
    let vx = if ball.velocity.x < 0 { -ball.velocity.x } else { ball.velocity.x };
    let speed = if vx + speed_up > max_speed { max_speed } else { vx + speed_up };
    let half_x = p.size.x / 2;
    let mut b = ball;
    if left {
        b.position.x = p.position.x + half_x + ball.radius;
        b.velocity.x = speed;
    } else {
        b.position.x = p.position.x - half_x - ball.radius;
        b.velocity.x = -speed;
    }
    b
}

/// One frame of ball physics against the two paddles, before scoring: move,
/// return off a touched paddle (the left one first), then bounce off the walls.
pub open spec fn ball_physics(
    b: Ball,
    p1: Player,
    p2: Player,
    half_height: int,
    speed_up: int,
    max_speed: int,
) -> (Ball, Seq<Event>) {
    let m = moved(b);
    let (r, e1) = if p1.overlaps(m) {
        (returned(m, p1, true, speed_up, max_speed), seq![Event::BallBounce(m.position)])
    } else if p2.overlaps(m) {
        (returned(m, p2, false, speed_up, max_speed), seq![Event::BallBounce(m.position)])
    } else {
        (m, Seq::<Event>::empty())
    };
    let w = bounced(r, half_height);
    if hits_wall(r, half_height) {
        (w, e1.push(Event::BallBounce(w.position)))
    } else {
        (w, e1)
    }
}

/// Runs one frame of ball physics, appending a `BallBounce` for each contact.
pub fn step_ball(
    ball: Ball,
    p1: &Player,
    p2: &Player,
    half_height: i64,
    speed_up: i64,
    max_speed: i64,
    events: &mut Vec<Event>,
) -> (r: Ball)
    requires
        ball.wf(),
        ball.radius <= half_height <= COORD_LIMIT,
        p1.wf(),
        p2.wf(),
        0 <= speed_up <= COORD_LIMIT,
        0 <= max_speed <= COORD_LIMIT,
    ensures
        ({
            let (b, e) = ball_physics(ball, *p1, *p2, half_height as int, speed_up as int, max_speed as int);
            r == b && final(events)@ == old(events)@ + e
        }),
        r.bounded(),
        abs(r.position.y as int) + r.radius <= half_height,
{
    let m = Ball { position: ball.position.plus(ball.velocity), ..ball };
    assert(m == moved(ball));
    let r = if p1.contains(&m) {
        events.push(Event::BallBounce(m.position));
        paddle_return(m, p1, true, speed_up, max_speed)
    } else if p2.contains(&m) {
        events.push(Event::BallBounce(m.position));
        paddle_return(m, p2, false, speed_up, max_speed)
    } else {
        m
    };
    let (w, hit) = wall_bounce(r, half_height);
    if hit {
        events.push(Event::BallBounce(w.position));
    }
    proof {
        assert(events@ =~= old(events)@ + ball_physics(ball, *p1, *p2, half_height as int, speed_up as int, max_speed as int).1);
    }
    w
}

} // verus!
