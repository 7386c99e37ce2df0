use arcade_physics::fixed::UNIT;
use arcade_physics::physics::Dir;
use arcade_physics::pong::{
    serve_angle, Ball, Collide, Logic, RacketContact, ScoredSide, BALL_DIM, BALL_SPEED,
    BOUNCE_HALF_RANGE, RACKET_HEIGHT, SCORE_MAX,
};

fn serve_east() -> Dir {
    Dir::east()
}

#[test]
fn wall_bounce_scenario() {
    // Ball at (0.5, -0.001) flying (0, -0.5): after the wall pass its y is
    // exactly 0 and the vertical velocity sign has inverted.
    let mut logic = Logic::new(serve_east());
    logic.ball = Ball::new(5_000, -10, Dir::new(0, -UNIT));
    assert_eq!(logic.ball.solid.vel.vy(), -BALL_SPEED);

    let mut pass = Collide::new();
    let bounced = pass.collide_ball_and_wall(&mut logic);

    assert!(bounced);
    assert_eq!(logic.ball.solid.pos.y(), 0);
    assert_eq!(logic.ball.solid.vel.vy(), BALL_SPEED);
}

#[test]
fn top_wall_bounce() {
    // The opposite wall: the ball is set to 1 - ball_height.
    let mut logic = Logic::new(serve_east());
    logic.ball = Ball::new(5_000, UNIT - 50, Dir::new(0, UNIT));

    let mut pass = Collide::new();
    let bounced = pass.collide_ball_and_wall(&mut logic);

    assert!(bounced);
    assert_eq!(logic.ball.solid.pos.y(), UNIT - BALL_DIM);
    assert_eq!(logic.ball.solid.vel.vy(), -BALL_SPEED);
}

#[test]
fn bounce_angle_centre() {
    // Dead centre of the racket: the straight-back baseline, no
    // deflection.
    let logic = Logic::new(serve_east());
    let racket_y = logic.left_racket.solid.pos.y();
    let centre = racket_y + RACKET_HEIGHT / 2;
    assert_eq!(logic.left_racket.get_bounce_angle(200, centre), 0);
    // The right racket mirrors through the vertical: straight back is a
    // half turn.
    let right_centre = logic.right_racket.solid.pos.y() + RACKET_HEIGHT / 2;
    assert_eq!(logic.right_racket.get_bounce_angle(9_800, right_centre), 18_000);
}

#[test]
fn bounce_angle_extremes() {
    // At either racket extremity the deflection magnitude is exactly the
    // configured half-range.
    let logic = Logic::new(serve_east());
    let racket_y = logic.left_racket.solid.pos.y();
    assert_eq!(logic.left_racket.get_bounce_angle(200, racket_y), -BOUNCE_HALF_RANGE);
    assert_eq!(
        logic.left_racket.get_bounce_angle(200, racket_y + RACKET_HEIGHT),
        BOUNCE_HALF_RANGE
    );
}

#[test]
fn bounce_preserves_speed() {
    // The angle bounce rewrites only the direction: the scalar speed field
    // is carried over exactly.
    let mut ball = Ball::new(5_000, 5_000, Dir::new(0, -UNIT));
    let before = ball.speed;
    ball.bounce(Dir::new(7_071, 7_071), 60);
    assert_eq!(ball.speed, before);
    assert_eq!(ball.dir, Dir::new(7_071, 7_071));
    assert_eq!(ball.solid.pos.x(), 5_060);
    // The projected components follow the new direction.
    assert_eq!(ball.solid.vel.vx(), 3_535);
    assert_eq!(ball.solid.vel.vy(), 3_535);
}

#[test]
fn racket_contact_reported() {
    // A ball on the left racket produces a contact whose shift frees it
    // rightwards.
    let mut logic = Logic::new(serve_east());
    let rx = logic.left_racket.solid.pos.x();
    let ry = logic.left_racket.solid.pos.y();
    logic.ball = Ball::new(rx + 50, ry + RACKET_HEIGHT / 2 - BALL_DIM / 2, Dir::west());

    let mut pass = Collide::new();
    let contact = pass.collide_ball_and_racket(&logic).unwrap();
    // Contact in the middle of the racket: no deflection.
    assert_eq!(contact.angle, 0);
    assert!(contact.x_shift > 0);

    // Answer with the straight-back direction and apply.
    let c = RacketContact { angle: contact.angle, x_shift: contact.x_shift };
    pass.apply_racket_bounce(&mut logic, &c, Dir::east());
    assert_eq!(logic.ball.solid.vel.vx(), BALL_SPEED);
    assert_eq!(logic.ball.solid.vel.vy(), 0);
}

#[test]
fn goal_and_serve() {
    let mut logic = Logic::new(serve_east());
    logic.ball = Ball::new(-200, 5_000, Dir::west());

    let goal = logic.update(0, Dir::east());
    assert_eq!(goal, Some(ScoredSide::Right));
    assert_eq!(logic.score.right(), 1);
    assert_eq!(logic.score.left(), 0);
    // Fresh serve from the centre.
    assert_eq!(logic.ball.solid.pos.x(), UNIT / 2 - BALL_DIM / 2);
    assert!(!logic.is_over());
}

#[test]
fn score_game_over() {
    let mut logic = Logic::new(serve_east());
    logic.score.left = SCORE_MAX - 1;
    logic.ball = Ball::new(UNIT + 200, 5_000, Dir::east());

    let goal = logic.update(0, Dir::east());
    assert_eq!(goal, Some(ScoredSide::Left));
    assert_eq!(logic.score.left(), SCORE_MAX);
    assert!(logic.is_over());
}

#[test]
fn racket_moves() {
    let mut logic = Logic::new(serve_east());
    let y0 = logic.left_racket.solid.pos.y();
    logic.left_racket.accelerate();
    // One tenth of a second at 0.75 boards per second: 750 steps down.
    logic.update(UNIT / 10, Dir::east());
    assert_eq!(logic.left_racket.solid.pos.y(), y0 + 750);
    logic.left_racket.decelerate();
    assert_eq!(logic.left_racket.solid.vel.vy(), 0);
}

#[test]
fn serve_angle_in_range() {
    for _ in 0..100 {
        let a = serve_angle();
        assert!(
            (-3_500..=3_400).contains(&a) || (14_500..=21_400).contains(&a),
            "serve angle {} out of range",
            a
        );
    }
}
