use arcade_physics::collide::collide;
use arcade_physics::fixed::{isqrt, UNIT};
use arcade_physics::geometry::{Circle, Rect};
use arcade_physics::physics::{wrap_coord, Dir, Position, RectSolid, Velocity};
use arcade_physics::random::{flip, rand};

#[test]
fn it_works() {
    assert_eq!(2 + 2, 4);
}

#[test]
fn overlap_partial() {
    let a = Rect::new(0, 0, 100, 100);
    let b = Rect::new(50, 50, 100, 100);
    let r = collide(&a, &b).unwrap();
    assert_eq!(r, Rect { x: 50, y: 50, w: 50, h: 50 });
}

#[test]
fn overlap_symmetry() {
    // The same overlap-or-none outcome both ways round.
    let a = Rect::new(100, 200, 300, 400);
    let b = Rect::new(250, 350, 120, 80);
    assert_eq!(collide(&a, &b), collide(&b, &a));

    let c = Rect::new(5_000, 5_000, 10, 10);
    assert_eq!(collide(&a, &c), None);
    assert_eq!(collide(&c, &a), None);
}

#[test]
fn overlap_containment() {
    // A rectangle fully inside another: the overlap is the inner one.
    let inner = Rect::new(200, 200, 50, 50);
    let outer = Rect::new(100, 100, 400, 400);
    assert_eq!(collide(&inner, &outer), Some(inner));
}

#[test]
fn overlap_disjoint() {
    // A strict gap on the x axis: no overlap.
    let a = Rect::new(0, 0, 100, 100);
    let b = Rect::new(101, 0, 100, 100);
    assert!(a.x1() < b.x0());
    assert_eq!(collide(&a, &b), None);
}

#[test]
fn overlap_edge_contact() {
    // Rectangles sharing exactly one edge, no y gap: the implemented
    // convention treats closed intervals as touching, so this counts as a
    // collision with a zero-width overlap.
    let a = Rect::new(0, 0, 100, 100);
    let b = Rect::new(100, 0, 100, 100);
    assert_eq!(a.x1(), b.x0());
    let r = collide(&a, &b).unwrap();
    assert_eq!(r, Rect { x: 100, y: 0, w: 0, h: 100 });
}

#[test]
fn rect_accessors() {
    let r = Rect::new(100, 200, 300, 400);
    assert_eq!(r.x0(), 100);
    assert_eq!(r.x1(), 400);
    assert_eq!(r.xc(), 250);
    assert_eq!(r.y0(), 200);
    assert_eq!(r.y1(), 600);
    assert_eq!(r.yc(), 400);
    assert_eq!(r.w(), 300);
    assert_eq!(r.h(), 400);

    let mut s = r;
    s.set_w(10);
    s.set_h(20);
    assert_eq!((s.w(), s.h()), (10, 20));

    let p = Rect::from_2_points(10, 20, 110, 220);
    assert_eq!(p, Rect { x: 10, y: 20, w: 100, h: 200 });
    assert_eq!(Rect::default(), Rect { x: 0, y: 0, w: UNIT, h: UNIT });

    let mut c = Circle::new(1, 2, 3);
    assert_eq!((c.x(), c.y(), c.r()), (1, 2, 3));
    c.set_radius(9);
    assert_eq!(c.r(), 9);
}

#[test]
fn integrator_moves_and_clamps() {
    // One second at (1000, 500) steps per second moves exactly that far.
    let limit = Rect::new(0, 0, UNIT, UNIT);
    let mut s = RectSolid::new(
        Position::new(0, 0),
        Velocity::new(1_000, 500),
        100,
        100,
        limit,
    );
    s.update(UNIT);
    assert_eq!((s.pos.x(), s.pos.y()), (1_000, 500));

    // Driving hard right for ten seconds pins the body at the limit edge.
    let mut t = RectSolid::new(
        Position::new(0, 0),
        Velocity::new(5_000, 0),
        100,
        100,
        limit,
    );
    t.update(10 * UNIT);
    assert_eq!(t.pos.x(), UNIT - 100);
    // The velocity is left unchanged by the clamp.
    assert_eq!(t.vel.vx(), 5_000);
}

#[test]
fn integrator_zero_dt() {
    let limit = Rect::new(0, 0, UNIT, UNIT);
    let mut s = RectSolid::new(
        Position::new(42, 43),
        Velocity::new(9_999, -9_999),
        10,
        10,
        limit,
    );
    s.update(0);
    assert_eq!((s.pos.x(), s.pos.y()), (42, 43));
}

#[test]
fn wrap_boundary() {
    // Coordinates exactly on the wrap boundary stay put.
    assert_eq!(wrap_coord(0), 0);
    assert_eq!(wrap_coord(UNIT), UNIT);
    // The reflection-style wrap: one minus p below, p minus one above.
    assert_eq!(wrap_coord(-5), UNIT + 5);
    assert_eq!(wrap_coord(UNIT + 5), 5);
}

#[test]
fn velocity_mag() {
    let v = Velocity::new(3, 4);
    assert_eq!(v.mag(), 5);
    let w = Velocity::new(-3_000, 4_000);
    assert_eq!(w.mag(), 5_000);
    let almost = Velocity::new(3, 3);
    // floor(sqrt(18)) == 4
    assert_eq!(almost.mag(), 4);
}

#[test]
fn isqrt_values() {
    assert_eq!(isqrt(0), 0);
    assert_eq!(isqrt(1), 1);
    assert_eq!(isqrt(17), 4);
    assert_eq!(isqrt(10_000), 100);
}

#[test]
fn dir_velocity_projection() {
    let east = Dir::east();
    let v = east.velocity(5_000);
    assert_eq!((v.vx(), v.vy()), (5_000, 0));
    let diag = Dir::new(7_071, -7_071);
    let w = diag.velocity(5_000);
    assert_eq!((w.vx(), w.vy()), (3_535, -3_535));
}

#[test]
fn rand_in_range() {
    // A one-value range is forced: the wrapper cannot hand its bounds back
    // unchanged without landing exactly here.
    assert_eq!(rand(5, 6), 5);
    for _ in 0..50 {
        let r = rand(-3, 3);
        assert!((-3..3).contains(&r));
    }
}

#[test]
fn flip_flips() {
    // Nothing is promised of the outcome; it only has to come back.
    let a = flip();
    let b = flip();
    assert!(a || !a);
    assert!(b || !b);
}
