use arcade_physics::combat::{
    check_collision, collide_shell_and_limits, collide_shell_and_map, collide_tank_and_map,
    collide_tanks, Level, Logic, Tank, BLOCK_COL_COUNT, BLOCK_ROW_COUNT, BLOCK_SIZE,
    BOARD_LEFT_LIMIT, BOARD_TOP_LIMIT, LEFT_TANK_X0, RIGHT_TANK_X0, TANK_ROTATION_ANGLE,
    TANK_VELOCITY,
};
use arcade_physics::fixed::UNIT;
use arcade_physics::physics::{Dir, Position};

fn empty_level() -> Level {
    // Non-zero pixels everywhere: no wall stands.
    let pixels = vec![255u8; BLOCK_ROW_COUNT * BLOCK_COL_COUNT];
    Level::load(0, &pixels, BLOCK_COL_COUNT, BLOCK_ROW_COUNT, BLOCK_COL_COUNT)
}

fn one_block_level(i: usize, j: usize) -> Level {
    let mut pixels = vec![255u8; BLOCK_ROW_COUNT * BLOCK_COL_COUNT];
    pixels[j * BLOCK_COL_COUNT + i] = 0;
    Level::load(1, &pixels, BLOCK_COL_COUNT, BLOCK_ROW_COUNT, BLOCK_COL_COUNT)
}

#[test]
fn level_from_pixels() {
    let level = empty_level();
    assert_eq!(level.index, 0);
    assert_eq!(level.get_block(0, 0), None);
    assert_eq!(level.get_block(29, 29), None);

    let walled = one_block_level(3, 4);
    let rect = walled.get_block(3, 4).unwrap();
    assert_eq!(rect.x0(), BOARD_LEFT_LIMIT + 3 * BLOCK_SIZE);
    assert_eq!(rect.y0(), BOARD_TOP_LIMIT + 4 * BLOCK_SIZE);
    assert_eq!((rect.w(), rect.h()), (BLOCK_SIZE, BLOCK_SIZE));
    assert_eq!(walled.get_block(4, 3), None);
}

#[test]
fn shell_boundary() {
    let mut logic = Logic::new(empty_level());
    assert!(logic.left_tank.fire());
    // Drag the live shell off the battlefield.
    logic.left_tank.shell.solid.pos = Position::new(UNIT - 100, 5_000);
    collide_shell_and_limits(&mut logic.left_tank.shell);
    assert!(logic.left_tank.shell.is_destroyed());

    // A shell inside the battlefield survives the pass.
    let mut logic2 = Logic::new(empty_level());
    assert!(logic2.left_tank.fire());
    collide_shell_and_limits(&mut logic2.left_tank.shell);
    assert!(!logic2.left_tank.shell.is_destroyed());
}

#[test]
fn shell_hits_wall() {
    let level = one_block_level(10, 10);
    let mut logic = Logic::new(empty_level());
    assert!(logic.left_tank.fire());
    // Park the shell on the block.
    logic.left_tank.shell.solid.pos = Position::new(
        BOARD_LEFT_LIMIT + 10 * BLOCK_SIZE + 100,
        BOARD_TOP_LIMIT + 10 * BLOCK_SIZE + 100,
    );
    collide_shell_and_map(&mut logic.left_tank.shell, &level);
    assert!(logic.left_tank.shell.is_destroyed());
}

#[test]
fn tank_pushed_out_of_wall() {
    // A tank that drove into a wall block is stepped backward by one
    // frame's worth.
    let level = one_block_level(0, 14);
    let mut logic = Logic::new(empty_level());
    let dt = UNIT / 10;
    // The left tank sits at (600, 5000); the block at column 0, row 14
    // spans x in [500, 800], y in [4700, 5000]: edge contact counts.
    assert!(logic.left_tank.accelerate());
    let x0 = logic.left_tank.solid.pos.x();
    collide_tank_and_map(&mut logic.left_tank, &level, dt);
    // Driving east at 0.1 boards per second, the undo moves it 100 back,
    // clamped against the battlefield edge.
    assert_eq!(logic.left_tank.solid.pos.x(), x0 - 100);
}

#[test]
fn tanks_push_back() {
    let mut logic = Logic::new(empty_level());
    let dt = UNIT / 10;
    // Drive the tanks into each other.
    logic.left_tank.solid.pos = Position::new(5_000, 5_000);
    logic.right_tank.solid.pos = Position::new(5_400, 5_000);
    assert!(logic.left_tank.accelerate());
    assert!(logic.right_tank.accelerate());
    collide_tanks(&mut logic.left_tank, &mut logic.right_tank, dt);
    // Left drives east, right drives west: both undo one frame.
    assert_eq!(logic.left_tank.solid.pos.x(), 4_900);
    assert_eq!(logic.right_tank.solid.pos.x(), 5_500);
}

#[test]
fn duel_hit_scenario() {
    let mut logic = Logic::new(empty_level());
    assert!(logic.left_tank.fire());
    // Fly the shell onto the right tank.
    logic.left_tank.shell.solid.pos = Position::new(RIGHT_TANK_X0 + 100, 5_100);

    let events = check_collision(&mut logic, 0);

    assert!(events.left_scored);
    assert!(!events.right_scored);
    assert_eq!(logic.score.get_left_score(), 1);
    assert_eq!(logic.score.get_right_score(), 0);
    assert!(logic.left_tank.shell.is_destroyed());
    assert!(logic.right_tank.is_impacted());
    // The hit tank is thrown the way the shell flew: east.
    assert_eq!(logic.right_tank.solid.vel.vx(), TANK_VELOCITY);
}

#[test]
fn tank_turns_with_delay() {
    let mut logic = Logic::new(empty_level());
    let east_by_north = Dir::new(9_239, -3_827);
    // Fresh tanks may turn at once.
    assert!(logic.left_tank.turn_left(east_by_north));
    assert_eq!(logic.left_tank.get_orientation(), -TANK_ROTATION_ANGLE);
    // The turn timer now blocks the next step.
    assert!(!logic.left_tank.turn_left(east_by_north));
    assert!(logic.left_tank.is_turning());
}

#[test]
fn tank_drive_and_update() {
    let mut logic = Logic::new(empty_level());
    assert!(logic.left_tank.accelerate());
    assert!(!logic.left_tank.is_moving() == false);
    logic.update(UNIT);
    // One second east at 0.1 boards per second.
    assert_eq!(logic.left_tank.solid.pos.x(), LEFT_TANK_X0 + 1_000);
    assert!(logic.left_tank.decelerate());
    assert!(!logic.left_tank.is_moving());
}

#[test]
fn change_map_resets() {
    let mut logic = Logic::new(empty_level());
    logic.score.point_left();
    logic.over();
    logic.change_map(one_block_level(2, 2));
    assert_eq!(logic.score.get_left_score(), 0);
    assert_eq!(logic.map.index, 1);
    assert!(!logic.is_over());
    assert_eq!(logic.left_tank.solid.pos.x(), LEFT_TANK_X0);
}

#[test]
fn impacted_tank_recovers() {
    let mut logic = Logic::new(empty_level());
    logic.left_tank.impact(9_000, Dir::new(0, UNIT));
    assert!(logic.left_tank.is_impacted());
    assert!(!logic.left_tank.accelerate());
    assert!(!logic.left_tank.fire());
    // The push-back delay runs out after half a second.
    logic.update(UNIT);
    assert!(!logic.left_tank.is_impacted());
    assert_eq!(logic.left_tank.solid.vel.vy(), 0);
}

#[test]
fn level_partial_image() {
    // A level image smaller than the grid fills only its corner; the rest
    // stays clear.  The pitch may exceed the row width.
    let pixels = vec![0u8, 7, 255, 0, 9, 255];
    let level = Level::load(2, &pixels, 2, 2, 3);
    assert!(level.get_block(0, 0).is_some());
    assert_eq!(level.get_block(1, 0), None);
    assert!(level.get_block(0, 1).is_some());
    assert_eq!(level.get_block(1, 1), None);
    assert_eq!(level.get_block(2, 0), None);
    assert_eq!(level.get_block(0, 2), None);
    assert_eq!(level.get_block(29, 29), None);
}

#[test]
fn shell_reports_heading() {
    let mut logic = Logic::new(empty_level());
    assert_eq!(logic.left_tank.get_shell().get_orientation(), 0);
    assert!(logic.right_tank.fire());
    // The right tank faces a half turn around: its shell flies west.
    assert_eq!(logic.right_tank.get_shell().get_orientation(), 18_000);
    assert_eq!(logic.right_tank.get_shell().solid.vel.vx(), -5_000);
}
