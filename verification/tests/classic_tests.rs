use arcade_physics::classic::{
    serve_angle, Ball, Collide, Logic, Racket, RacketHit, Scorer, Travel, BALL_DIM, BALL_SPEED,
    BOUNCE_HALF_RANGE, RACKET_HEIGHT, RACKET_SHIFT_X, RACKET_WIDTH,
};
use arcade_physics::fixed::UNIT;
use arcade_physics::physics::Dir;

#[test]
fn serve_and_update() {
    let mut logic = Logic::new(Dir::east());
    assert_eq!(logic.ball().x(), UNIT / 2 - BALL_DIM / 2);
    assert_eq!(logic.ball().vx(), BALL_SPEED);
    // One tenth of a second east.
    let goal = logic.update(UNIT / 10, Dir::east());
    assert_eq!(goal, None);
    assert_eq!(logic.ball().x(), UNIT / 2 - BALL_DIM / 2 + 500);
}

#[test]
fn ball_reflects_at_edges() {
    let mut logic = Logic::new(Dir::new(0, UNIT));
    // Flying straight down for a second crosses the bottom edge; the
    // vertical velocity flips inside the ball's own update.
    logic.update(UNIT, Dir::east());
    let b: &Ball = logic.ball();
    assert!(b.y() + BALL_DIM > UNIT);
    assert_eq!(b.y(), 9_950);
    // Another frame flies back up: the flip took effect.
    logic.update(UNIT / 10, Dir::east());
    assert_eq!(logic.ball().y(), 9_950 - 500);
}

#[test]
fn swept_racket_hit() {
    // The swept test: the ball crossed the left racket's plane between
    // the previous frame and this one, inside the racket's span.
    let mut pass = Collide::new();
    assert!(!pass.is_collide());

    // Serve westwards and fly for 0.96 s: the ball lands at x == 150,
    // just inside the racket plane at 200, having been outside before.
    let mut l = Logic::new(Dir::west());
    let ry = l.left_racket().y();
    let goal = l.update(9_600, Dir::west());
    assert_eq!(goal, None);
    assert_eq!(l.ball().x(), RACKET_SHIFT_X + RACKET_WIDTH - 50);

    let hit = pass.collide(&l, 9_600).unwrap();
    assert!(pass.is_collide());
    assert_eq!(hit.travel, Travel::Right);
    // Contact 450 steps into the racket's 1000-step span:
    // (2 * 450 - 1000) * 7000 / 1000 == -700.
    let expect = (2 * (l.ball().y() - ry) - RACKET_HEIGHT) * BOUNCE_HALF_RANGE / RACKET_HEIGHT;
    assert_eq!(hit.angle, -700);
    assert_eq!(hit.angle, expect);
}

#[test]
fn apply_bounce() {
    let mut logic = Logic::new(Dir::west());
    let pass = Collide::new();
    let hit = RacketHit { angle: 0, travel: Travel::Left };
    pass.apply(&mut logic, &hit, Dir::east());
    // Straight back towards the left: the east direction, negated.
    assert_eq!(logic.ball().vx(), -BALL_SPEED);

    let hit2 = RacketHit { angle: 0, travel: Travel::Right };
    pass.apply(&mut logic, &hit2, Dir::east());
    assert_eq!(logic.ball().vx(), BALL_SPEED);
}

#[test]
fn goal_scoring() {
    let mut logic = Logic::new(Dir::west());
    // Flying west from the centre, the ball crosses x == 0 within two
    // seconds and the right player scores.
    let mut scored = None;
    for _ in 0..40 {
        if let Some(s) = logic.update(UNIT / 10, Dir::east()) {
            scored = Some(s);
            break;
        }
    }
    assert_eq!(scored, Some(Scorer::Right));
    assert_eq!(logic.score().right(), 1);
    assert_eq!(logic.score().left(), 0);
    // Fresh serve.
    assert_eq!(logic.ball().x(), UNIT / 2 - BALL_DIM / 2);
}

#[test]
fn racket_clamps() {
    let mut logic = Logic::new(Dir::east());
    logic.m_left_racket().accelerate();
    // Ten seconds down pins the racket at the bottom.
    for _ in 0..100 {
        logic.update(UNIT / 10, Dir::east());
    }
    assert_eq!(logic.left_racket().y(), UNIT - RACKET_HEIGHT);
    logic.m_left_racket().decelerate();
    let r: &Racket = logic.left_racket();
    assert_eq!(r.y(), UNIT - RACKET_HEIGHT);
}

#[test]
fn over_flag() {
    let mut logic = Logic::new(Dir::east());
    assert!(!logic.is_over());
    logic.over();
    assert!(logic.is_over());
}

#[test]
fn serve_angle_avoids_vertical_bands() {
    for _ in 0..200 {
        let a = serve_angle();
        assert!((0..36_000).contains(&a));
        assert!(!(7_000 < a && a < 11_000), "angle {} in the upper band", a);
        assert!(!(25_000 < a && a < 29_000), "angle {} in the lower band", a);
    }
}
