use arcade_physics::asteroids::{
    check_collision, random_heading, Asteroid, Asteroids, Bullet, Logic, Spaceship, Turning,
    ASTEROID_RADIUS, ASTEROID_STARTING_NUMBER, BULLET_SPEED,
};
use arcade_physics::fixed::UNIT;
use arcade_physics::geometry::Rect;
use arcade_physics::physics::{CircleSolid, Dir, Position, Velocity};

fn four_dirs() -> Vec<Dir> {
    vec![Dir::east(), Dir::west(), Dir::new(0, UNIT), Dir::new(0, -UNIT)]
}

fn asteroid_at(x: i64, y: i64, id: u32) -> Asteroid {
    Asteroid {
        solid: CircleSolid::new(
            Position::new(x, y),
            Velocity::new(0, 0),
            ASTEROID_RADIUS,
            Rect::new(-UNIT, -UNIT, 3 * UNIT, 3 * UNIT),
        ),
        id,
        is_destroyed: false,
    }
}

#[test]
fn wrap_idempotence() {
    // An entity with position exactly at the wrap boundary, after one
    // update with zero time delta, is unchanged.
    let mut a = asteroid_at(0, UNIT, 7);
    let before = a;
    a.update(0);
    assert_eq!(a, before);
}

#[test]
fn asteroid_wrap_formula() {
    // The reflection-style wrap: a coordinate below zero lands at one
    // minus itself.
    let mut a = asteroid_at(0, 5_000, 1);
    a.solid.vel = Velocity::new(-1_000, 0);
    a.update(UNIT / 10);
    // Moved to -100, then wrapped to UNIT + 100.
    assert_eq!(a.solid.pos.x(), UNIT + 100);
}

#[test]
fn bullets_strike_asteroids() {
    let mut asteroids = vec![asteroid_at(2_000, 2_000, 0), asteroid_at(8_000, 8_000, 1)];
    let mut bullets = vec![Bullet::new(2_000, 2_000, Dir::east())];

    arcade_physics::asteroids::collide_shell_and_asteroids(&mut asteroids, &mut bullets);

    assert!(asteroids[0].is_destroyed);
    assert!(!asteroids[1].is_destroyed);
    assert!(bullets[0].is_destroyed);
}

#[test]
fn field_culls_destroyed() {
    let dirs = four_dirs();
    let mut field = Asteroids::new(ASTEROID_STARTING_NUMBER, &dirs);
    assert_eq!(field.vec.len(), 4);
    assert_eq!(field.get_ids(), vec![0, 1, 2, 3]);

    field.vec[1].destroy();
    field.update(0);
    assert_eq!(field.get_ids(), vec![0, 2, 3]);
}

#[test]
fn bullet_limits() {
    let b = Bullet::new(5_000, 5_000, Dir::east());
    assert!(b.is_in_limit());
    let out = Bullet::new(UNIT + 100, 5_000, Dir::east());
    assert!(!out.is_in_limit());
    assert_eq!(b.solid.vel.vx(), BULLET_SPEED);
}

#[test]
fn ship_fires_after_delay() {
    let mut ship = Spaceship::new();
    ship.firing = true;
    // A fresh ship sits exactly at the firing delay: the strict test
    // blocks the first frame, and the frame's own time pushes it over.
    ship.update(UNIT / 10, Dir::east());
    assert_eq!(ship.bullets().len(), 0);
    ship.update(UNIT / 10, Dir::east());
    assert_eq!(ship.bullets().len(), 1);
    assert_eq!(ship.bullets()[0].solid.vel.vx(), BULLET_SPEED);
    // Right after a shot the delay blocks the gun again.
    ship.update(UNIT / 10, Dir::east());
    assert_eq!(ship.bullets().len(), 1);
}

#[test]
fn ship_turns_and_thrusts() {
    let mut ship = Spaceship::new();
    ship.turn(Turning::RIGHT);
    ship.accelerate();
    // One second of turning at the fixed rate, thrusting east.
    ship.update(UNIT, Dir::east());
    assert_eq!(ship.orientation, 28_648);
    // One second of thrust at 0.2 boards per second per second.
    assert_eq!(ship.solid.vel.vx(), 2_000);
    assert_eq!(ship.solid.vel.vy(), 0);
    ship.decelerate();
    ship.turn(Turning::NONE);
    let vx = ship.solid.vel.vx();
    ship.update(UNIT, Dir::east());
    assert_eq!(ship.solid.vel.vx(), vx);
    assert_eq!(ship.orientation, 28_648);
}

#[test]
fn game_collision_pass() {
    let dirs = four_dirs();
    let mut logic = Logic::new(&dirs);
    // Park an asteroid on a bullet.
    logic.asteroids.vec[0] = asteroid_at(3_000, 3_000, 0);
    logic.spaceship.bullets.push(Bullet::new(3_000, 3_000, Dir::east()));

    check_collision(&mut logic);

    assert!(logic.asteroids.vec[0].is_destroyed);
    assert!(logic.spaceship.bullets[0].is_destroyed);
    assert!(!logic.is_over());
}

#[test]
fn random_heading_range() {
    for _ in 0..100 {
        let a = random_heading();
        assert!((0..36_000).contains(&a));
    }
}

#[test]
fn random_asteroid_on_board() {
    let a = Asteroid::random(9, Dir::east());
    assert_eq!(a.get_id(), 9);
    assert!((0..=UNIT - 100).contains(&a.solid.pos.x()));
    assert!((0..=UNIT - 100).contains(&a.solid.pos.y()));
    assert!(!a.is_destroyed);
}
