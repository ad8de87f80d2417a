use pong::math::Vec2;
use pong::physics::{paddle_return, wall_bounce};
use pong::state::{Ball, Player};

fn ball(x: i64, y: i64, vx: i64, vy: i64) -> Ball {
    Ball { position: Vec2 { x, y }, velocity: Vec2 { x: vx, y: vy }, radius: 500, visible: true }
}

fn paddle(x: i64, y: i64) -> Player {
    Player { position: Vec2 { x, y }, size: Vec2 { x: 500, y: 4_000 }, score: 0, visible: true }
}

#[test]
fn wall_bounce_keeps_ball_in_court() {
    for y in [-12_000i64, -9_600, -9_500, 0, 9_499, 9_500, 9_501, 12_000] {
        for vy in [-300i64, 0, 300] {
            let (b, hit) = wall_bounce(ball(0, y, 0, vy), 10_000);
            assert!(b.position.y.abs() + b.radius <= 10_000);
            assert_eq!(hit, y.abs() + 500 > 10_000);
            if hit {
                assert_eq!(b.velocity.y, -vy);
            } else {
                assert_eq!(b, ball(0, y, 0, vy));
            }
        }
    }
    let (b, hit) = wall_bounce(ball(3, -9_800, 7, -40), 10_000);
    assert!(hit);
    assert_eq!(b.position, Vec2 { x: 3, y: -9_500 });
    assert_eq!(b.velocity, Vec2 { x: 7, y: 40 });
}

#[test]
fn contains_is_translation_invariant() {
    let p = paddle(-8_000, 0);
    for (bx, by) in [(-7_300i64, 0i64), (-7_250, 0), (-7_249, 2_400), (0, 0), (-8_000, -2_499)] {
        let b = ball(bx, by, 0, 0);
        for (tx, ty) in [(0i64, 0i64), (123, -456), (-10_000, 7_777)] {
            let pt = Player { position: Vec2 { x: p.position.x + tx, y: p.position.y + ty }, ..p };
            let bt = Ball { position: Vec2 { x: bx + tx, y: by + ty }, ..b };
            assert_eq!(pt.contains(&bt), p.contains(&b));
        }
    }
}

#[test]
fn contains_excludes_touching_edges() {
    let p = paddle(-8_000, 0);
    // paddle spans x -8250..-7750, y -2000..2000
    assert!(!p.contains(&ball(-7_250, 0, 0, 0)));
    assert!(p.contains(&ball(-7_251, 0, 0, 0)));
    assert!(!p.contains(&ball(-8_750, 0, 0, 0)));
    assert!(!p.contains(&ball(-8_000, 2_500, 0, 0)));
    assert!(p.contains(&ball(-8_000, 2_499, 0, 0)));
    assert!(!p.contains(&ball(-8_000, -2_500, 0, 0)));
}

#[test]
fn paddle_return_places_ball_outside() {
    let p = paddle(8_000, 0);
    let b = paddle_return(ball(7_600, 100, 390, -20), &p, false, 10, 395);
    assert_eq!(b.position, Vec2 { x: 8_000 - 250 - 500, y: 100 });
    assert_eq!(b.velocity, Vec2 { x: -395, y: -20 });
    assert!(!p.contains(&b));
}
