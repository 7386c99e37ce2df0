use arcade_physics::fixed::UNIT;
use arcade_physics::invaders::{
    Logic, Missile, Spaceship, MISSILE_RECT_HEIGHT, MISSILE_RECT_WIDTH, MISSILE_SPEED,
    SPACESHIP_SPEED, SPACESHIP_STARTING_POSITION_X0,
};

#[test]
fn missile_launch() {
    let mut m = Missile::new(0, 0);
    assert!(m.is_destroyed());
    m.launch(4_825, 9_128);
    assert!(!m.is_destroyed());
    assert_eq!(m.solid.pos.x(), 4_825 - MISSILE_RECT_WIDTH / 2);
    assert_eq!(m.solid.pos.y(), 9_128 - MISSILE_RECT_HEIGHT);
    // A launched missile flies straight up.
    m.update(UNIT / 10);
    assert_eq!(m.solid.pos.y(), 9_028 + MISSILE_SPEED / 10);
}

#[test]
fn destroyed_missile_stays() {
    let mut m = Missile::new(3_000, 3_000);
    m.update(UNIT);
    assert_eq!(m.solid.pos.y(), 3_000);
}

#[test]
fn fire_only_when_ready() {
    let mut ship = Spaceship::new();
    assert!(ship.fire());
    // Launched from the ship's centre.
    assert_eq!(ship.missile.solid.pos.x(), 4_825 - MISSILE_RECT_WIDTH / 2);
    assert_eq!(ship.missile.solid.pos.y(), 9_128 - MISSILE_RECT_HEIGHT);
    // The gun stays blocked until the missile dies.
    assert!(!ship.fire());
    ship.missile.destroy();
    assert!(ship.fire());
}

#[test]
fn ship_slides() {
    let mut logic = Logic::new();
    logic.spaceship.accelerate();
    assert_eq!(logic.spaceship.solid.vel.vx(), SPACESHIP_SPEED);
    logic.update(UNIT / 10);
    assert_eq!(
        logic.spaceship.solid.pos.x(),
        SPACESHIP_STARTING_POSITION_X0 + SPACESHIP_SPEED / 10
    );
    logic.spaceship.decelerate();
    assert_eq!(logic.spaceship.solid.vel.vx(), 0);
    assert!(!logic.is_over());
    logic.over();
    assert!(logic.is_over());
}
