use arcade_physics::breakout::{
    collide_ball_and_blocks, collide_ball_and_racket, collide_ball_and_wall, serve_angle, Ball,
    Logic,
    BALL_SPEED, BLOCKS_X0, BLOCKS_Y0, BLOCK_COL_N, BLOCK_HEIGHT, BLOCK_ROW_N, BLOCK_WIDTH,
    BOARD_TOP_LIMIT_Y, BOUNCE_BASELINE, BOUNCE_HALF_RANGE, LIFE_STARTING_COUNT, RACKET_WIDTH,
};
use arcade_physics::fixed::UNIT;
use arcade_physics::physics::{Dir, Position};

fn serve_down() -> Dir {
    Dir::new(0, UNIT)
}

#[test]
fn block_destruction_scenario() {
    // Ball overlapping exactly one block, with the overlap wider than
    // tall: the vertical velocity flips, not the horizontal.
    let mut logic = Logic::new(serve_down());
    // First block spans x in [150, 750], y in [2000, 2150].  Put the ball
    // inside it horizontally, straddling its top edge: overlap 100 wide,
    // 50 tall.
    logic.ball = Ball::new(serve_down());
    logic.ball.solid.pos = Position::new(BLOCKS_X0 + 50, BLOCKS_Y0 - 50);
    assert_eq!(logic.ball.solid.vel.vy(), BALL_SPEED);
    let vx_before = logic.ball.solid.vel.vx();
    let score_before = logic.score.get();

    let destroyed = collide_ball_and_blocks(&mut logic);

    // Exactly one block died: the top-row block, worth 3 points plus one.
    assert_eq!(destroyed, vec![3u8]);
    assert_eq!(logic.score.get(), score_before + 4);
    assert!(logic.blocks.get(0).is_destroyed());
    assert!(!logic.blocks.get(1).is_destroyed());
    // Vertical flip, horizontal untouched; shifted up out of the block.
    assert_eq!(logic.ball.solid.vel.vy(), -BALL_SPEED);
    assert_eq!(logic.ball.solid.vel.vx(), vx_before);
    assert_eq!(logic.ball.solid.pos.y(), BLOCKS_Y0 - 100);
}

#[test]
fn block_destruction_horizontal() {
    // An overlap taller than wide flips the horizontal velocity instead.
    let mut logic = Logic::new(serve_down());
    logic.ball = Ball::new(Dir::new(UNIT, 0));
    // Straddle the first block's left edge: overlap 50 wide, 100 tall.
    logic.ball.solid.pos = Position::new(BLOCKS_X0 - 50, BLOCKS_Y0 + 25);

    let destroyed = collide_ball_and_blocks(&mut logic);

    assert_eq!(destroyed.len(), 1);
    assert_eq!(logic.ball.solid.vel.vx(), -BALL_SPEED);
    assert_eq!(logic.ball.solid.vel.vy(), 0);
    assert_eq!(logic.ball.solid.pos.x(), BLOCKS_X0 - 100);
}

#[test]
fn blocks_grid_layout() {
    let logic = Logic::new(serve_down());
    let n = BLOCK_ROW_N as usize * BLOCK_COL_N as usize;
    assert_eq!(logic.blocks.block_vec.len(), n);

    // First block of the wall.
    let first = logic.blocks.get(0);
    assert_eq!(first.solid.pos.x(), BLOCKS_X0);
    assert_eq!(first.solid.pos.y(), BLOCKS_Y0);
    assert_eq!(first.get_value(), 3);

    // Last block: row 7, column 13.
    let last = logic.blocks.get(n - 1);
    assert_eq!(last.solid.pos.x(), BLOCKS_X0 + 13 * (BLOCK_WIDTH + 100));
    assert_eq!(last.solid.pos.y(), BLOCKS_Y0 + 7 * (BLOCK_HEIGHT + 100));
    assert_eq!(last.get_value(), 0);
}

#[test]
fn racket_bounce_angle_breakout() {
    // Centre: straight up the board; extremities: baseline plus or minus
    // the half-range.
    let logic = Logic::new(serve_down());
    let rx = logic.racket.solid.pos.x();
    assert_eq!(logic.racket.get_bounce_angle(rx + RACKET_WIDTH / 2, 0), BOUNCE_BASELINE);
    assert_eq!(logic.racket.get_bounce_angle(rx, 0), BOUNCE_BASELINE - BOUNCE_HALF_RANGE);
    assert_eq!(
        logic.racket.get_bounce_angle(rx + RACKET_WIDTH, 0),
        BOUNCE_BASELINE + BOUNCE_HALF_RANGE
    );
}

#[test]
fn racket_contact_and_bounce() {
    let mut logic = Logic::new(serve_down());
    let rx = logic.racket.solid.pos.x();
    let ry = logic.racket.solid.pos.y();
    logic.ball.solid.pos = Position::new(rx + RACKET_WIDTH / 2 - 50, ry - 50);

    let contact = collide_ball_and_racket(&logic).unwrap();
    assert_eq!(contact.angle, BOUNCE_BASELINE);
    assert_eq!(contact.y_shift, -50);

    let speed_before = logic.ball.speed;
    arcade_physics::breakout::apply_racket_bounce(&mut logic, &contact, Dir::new(0, -UNIT));
    assert_eq!(logic.ball.speed, speed_before);
    assert_eq!(logic.ball.solid.vel.vy(), -BALL_SPEED);
}

#[test]
fn wall_reflections() {
    // Against the left wall the horizontal velocity flips and the ball is
    // shifted clear by the overlap width.
    let mut logic = Logic::new(serve_down());
    logic.ball = Ball::new(Dir::new(-UNIT, 0));
    logic.ball.solid.pos = Position::new(100, 5_000);

    let hits = collide_ball_and_wall(&mut logic);
    assert_eq!(hits, 1);
    assert_eq!(logic.ball.solid.vel.vx(), BALL_SPEED);
    assert_eq!(logic.ball.solid.pos.x(), 150);

    // Against the top wall the ball is nudged down by the limit depth.
    let mut logic2 = Logic::new(serve_down());
    logic2.ball = Ball::new(Dir::new(0, -UNIT));
    logic2.ball.solid.pos = Position::new(5_000, 100);
    let hits2 = collide_ball_and_wall(&mut logic2);
    assert_eq!(hits2, 1);
    assert_eq!(logic2.ball.solid.vel.vy(), BALL_SPEED);
    assert_eq!(logic2.ball.solid.pos.y(), 100 + BOARD_TOP_LIMIT_Y);
}

#[test]
fn lost_ball_and_life() {
    let mut logic = Logic::new(serve_down());
    assert_eq!(logic.life.get(), LIFE_STARTING_COUNT);
    logic.ball.solid.pos = Position::new(5_000, UNIT + 50);

    let lost = logic.update(0, serve_down());
    assert!(lost);
    assert_eq!(logic.life.get(), LIFE_STARTING_COUNT - 1);
    assert_eq!(logic.ball.solid.pos.y(), 5_000);
    assert!(!logic.is_over());
}

#[test]
fn game_over_when_lives_end() {
    let mut logic = Logic::new(serve_down());
    logic.life.count = 1;
    logic.ball.solid.pos = Position::new(5_000, UNIT + 50);
    let lost = logic.update(0, serve_down());
    assert!(lost);
    assert_eq!(logic.life.get(), 0);
    assert!(logic.is_over());
}

#[test]
fn score_add() {
    let mut logic = Logic::new(serve_down());
    assert_eq!(logic.score.get(), 0);
    logic.score.add(7);
    logic.score.add(4);
    assert_eq!(logic.score.get(), 11);
}

#[test]
fn serve_angle_downwards() {
    for _ in 0..100 {
        let a = serve_angle();
        assert!((4_500..=13_400).contains(&a));
    }
}

#[test]
fn block_values_by_row() {
    // Upper rows are worth more: the values run 3, 3, 2, 2, 1, 1, 0, 0.
    let logic = Logic::new(serve_down());
    let expected = [3u8, 3, 2, 2, 1, 1, 0, 0];
    for row in 0..BLOCK_ROW_N as usize {
        let block = logic.blocks.get(row * BLOCK_COL_N as usize);
        assert_eq!(block.get_value(), expected[row]);
    }
}
