//! The toroidal-board game: a spaceship that turns, thrusts and fires,
//! and drifting asteroids; everything wraps around the board edges
//! instead of clamping.

use vstd::prelude::*;
use crate::collide::{collide, overlaps};
use crate::fixed::{in_drift_range, in_ext_range, in_pos_range, in_range, scale, tdiv, UNIT};
use crate::geometry::{AsRect, Rect};
use crate::physics::{
    dir_vel_x, dir_vel_y, wrap_coord, wrapped, CircleSolid, Dir, Position, Velocity,
};
use crate::random::rand;

verus! {

/// Spaceship body radius.
pub const SPACESHIP_RADIUS: i64 = 400;

/// Where the spaceship starts.
pub const SPACESHIP_STARTING_POSITION_X0: i64 = 5_000;

/// Where the spaceship starts.
pub const SPACESHIP_STARTING_POSITION_Y0: i64 = 5_000;

/// Thrust, in grid steps per second per second.
pub const SPACESHIP_ACCELERATION: i64 = 2_000;

/// Turn rate while a key is held, in hundredths of a degree per second.
pub const SPACESHIP_ROTATION_SPEED: i64 = 28_648;

/// The spaceship's top speed per axis.
pub const SPACESHIP_MAX_SPEED: i64 = 10_000;

/// Seconds between shots, in ticks.
pub const SPACESHIP_FIRING_DELAY: i64 = 3_000;

/// Bullet speed.
pub const BULLET_SPEED: i64 = 5_000;

/// Bullet radius.
pub const BULLET_RADIUS: i64 = 50;

/// Asteroids at the start of a game.
pub const ASTEROID_STARTING_NUMBER: u32 = 4;

/// Radius of a fresh asteroid.
pub const ASTEROID_RADIUS: i64 = 500;

/// Speed of a fresh asteroid.
pub const ASTEROID_SPEED: i64 = 1_000;

/// Which way the spaceship is turning.
#[derive(Clone, Copy, PartialEq, Eq, Structural, Debug)]
#[allow(non_camel_case_types)]
pub enum Turning {
    NONE,
    LEFT,
    RIGHT,
}

/// The off-board limit every wrapping entity gets: one board width of
/// slack on every side.
fn wrapping_limit() -> (r: Rect)
    ensures
        r == spec_wrapping_limit(),
{
    Rect::new(-UNIT, -UNIT, 3 * UNIT, 3 * UNIT)
}

/// The off-board limit every wrapping entity gets.
pub open spec fn spec_wrapping_limit() -> Rect {
    Rect { x: (-UNIT) as i64, y: (-UNIT) as i64, w: (3 * UNIT) as i64, h: (3 * UNIT) as i64 }
}

/// Draw a drift heading: anywhere on the circle.
pub fn random_heading() -> (a: i64)
    ensures
        0 <= a < 36_000,
{
    let r = rand(0, 360);
    r as i64 * 100
}

/// One drifting asteroid.
#[derive(Clone, Copy, PartialEq, Eq, Structural, Debug)]
pub struct Asteroid {
    pub solid: CircleSolid,
    pub id: u32,
    pub is_destroyed: bool,
}

impl Asteroid {
    pub open spec fn wf(self) -> bool {
        &&& self.solid.wf()
        &&& self.solid.limit == spec_wrapping_limit()
        &&& -UNIT <= self.solid.pos.x <= 2 * UNIT
        &&& -UNIT <= self.solid.pos.y <= 2 * UNIT
        &&& 0 <= self.solid.r <= UNIT
    }

    /// A fresh asteroid at a random board position, drifting in the
    /// direction the embedder drew.
    pub fn random(id: u32, dir: Dir) -> (a: Asteroid)
        requires
            dir.wf(),
        ensures
            0 <= a.solid.pos.x <= UNIT - 100,
            0 <= a.solid.pos.y <= UNIT - 100,
            a.solid.vel.vx == dir_vel_x(ASTEROID_SPEED as int, dir),
            a.solid.vel.vy == dir_vel_y(ASTEROID_SPEED as int, dir),
            a.solid.r == ASTEROID_RADIUS,
            a.solid.limit == spec_wrapping_limit(),
            a.id == id,
            !a.is_destroyed,
            a.wf(),
    {
        let x = rand(0, 100) as i64 * 100;
        let y = rand(0, 100) as i64 * 100;

        let position = Position::new(x, y);
        let velocity = dir.velocity(ASTEROID_SPEED);
        let limit = wrapping_limit();
        let circle_solid = CircleSolid::new(position, velocity, ASTEROID_RADIUS, limit);
        Asteroid { solid: circle_solid, id, is_destroyed: false }
    }

    /// This asteroid after one frame: stepped by the integrator, then
    /// wrapped back onto the board.
    pub open spec fn updated(self, dt: i64) -> Asteroid {
        let st = self.solid.stepped(dt);
        Asteroid {
            solid: CircleSolid {
                pos: Position {
                    x: wrapped(st.pos.x as int) as i64,
                    y: wrapped(st.pos.y as int) as i64,
                },
                ..st
            },
            ..self
        }
    }

    /// Advance by one frame and wrap around the board.
    pub fn update(&mut self, dt: i64)
        requires
            old(self).wf(),
            in_range(dt),
        ensures
            *final(self) == old(self).updated(dt),
            final(self).wf(),
    {
        self.solid.update(dt);
        self.handle_out_of_limit();
    }

    pub fn get_id(&self) -> (id: u32)
        ensures
            id == self.id,
    {
        self.id
    }

    /// The reflection-style wrap: both coordinates re-enter the board
    /// when they left it; a coordinate exactly on the boundary stays.
    fn handle_out_of_limit(&mut self)
        requires
            old(self).wf(),
        ensures
            *final(self) == (Asteroid {
                solid: CircleSolid {
                    pos: Position {
                        x: wrapped(old(self).solid.pos.x as int) as i64,
                        y: wrapped(old(self).solid.pos.y as int) as i64,
                    },
                    ..old(self).solid
                },
                ..*old(self)
            }),
            final(self).wf(),
    {
        let pos_x = self.solid.pos.x();
        let pos_y = self.solid.pos.y();
        let wx = wrap_coord(pos_x);
        let wy = wrap_coord(pos_y);
        self.solid.pos.set_x(wx);
        self.solid.pos.set_y(wy);
    }

    pub fn destroy(&mut self)
        ensures
            *final(self) == (Asteroid { is_destroyed: true, ..*old(self) }),
    {
        self.is_destroyed = true;
    }
}

impl AsRect for Asteroid {
    open spec fn rect_req(&self) -> bool {
        self.wf()
    }

    open spec fn rect_spec(&self) -> Rect {
        Rect {
            x: (self.solid.pos.x - self.solid.r) as i64,
            y: (self.solid.pos.y - self.solid.r) as i64,
            w: (2 * self.solid.r) as i64,
            h: (2 * self.solid.r) as i64,
        }
    }

    fn as_rect(&self) -> (r: Rect) {
        let x = self.solid.pos.x();
        let y = self.solid.pos.y();
        let r = self.solid.r;
        Rect::new(x - r, y - r, 2 * r, 2 * r)
    }
}

/// An entity exactly at the wrap boundary, updated with a zero time
/// delta, does not move: the step adds nothing, the clamp finds it inside
/// its limit, and the wrap leaves boundary coordinates alone.
pub proof fn lemma_wrap_update_zero_dt(a: Asteroid)
    requires
        a.wf(),
        a.solid.limit.x <= a.solid.pos.x,
        a.solid.pos.x <= a.solid.limit.x_end(),
        a.solid.limit.y <= a.solid.pos.y,
        a.solid.pos.y <= a.solid.limit.y_end(),
        0 <= a.solid.pos.x <= UNIT,
        0 <= a.solid.pos.y <= UNIT,
    ensures
        a.updated(0) == a,
{
    assert(a.solid.vel.vx as int * 0 == 0);
    assert(a.solid.vel.vy as int * 0 == 0);
    assert(tdiv(0, UNIT as int) == 0);
}

/// The asteroid field.
pub struct Asteroids {
    pub vec: Vec<Asteroid>,
}

/// The asteroids that survive a frame, each advanced and wrapped:
/// destroyed ones are dropped, the order of the rest is kept.
pub open spec fn surviving(s: Seq<Asteroid>, dt: i64) -> Seq<Asteroid>
    decreases s.len(),
{
    if s.len() == 0 {
        Seq::empty()
    } else {
        let rest = surviving(s.drop_first(), dt);
        if s[0].is_destroyed {
            rest
        } else {
            seq![s[0].updated(dt)] + rest
        }
    }
}

impl Asteroids {
    pub open spec fn wf(self) -> bool {
        forall|i: int| 0 <= i < self.vec@.len() ==> (#[trigger] self.vec@[i]).wf()
    }

    /// A fresh field of `asteroid_count` random asteroids, with ids
    /// counted up from zero and one drift direction each.
    pub fn new(asteroid_count: u32, dirs: &Vec<Dir>) -> (asts: Asteroids)
        requires
            dirs@.len() == asteroid_count,
            forall|i: int| 0 <= i < dirs@.len() ==> (#[trigger] dirs@[i]).wf(),
        ensures
            asts.vec@.len() == asteroid_count,
            forall|i: int|
                0 <= i < asts.vec@.len() ==> {
                    let a = #[trigger] asts.vec@[i];
                    &&& a.id == i
                    &&& !a.is_destroyed
                    &&& a.solid.vel.vx == dir_vel_x(ASTEROID_SPEED as int, dirs@[i])
                    &&& a.solid.vel.vy == dir_vel_y(ASTEROID_SPEED as int, dirs@[i])
                    &&& a.solid.r == ASTEROID_RADIUS
                    &&& 0 <= a.solid.pos.x <= UNIT
                    &&& 0 <= a.solid.pos.y <= UNIT
                },
            asts.wf(),
    {
        let mut counter: u32 = 0;
        let mut asteroids: Vec<Asteroid> = Vec::new();
        while counter < asteroid_count
            invariant
                counter <= asteroid_count,
                dirs@.len() == asteroid_count,
                forall|i: int| 0 <= i < dirs@.len() ==> (#[trigger] dirs@[i]).wf(),
                asteroids@.len() == counter,
                forall|i: int|
                    0 <= i < asteroids@.len() ==> {
                        let a = #[trigger] asteroids@[i];
                        &&& a.id == i
                        &&& !a.is_destroyed
                        &&& a.solid.vel.vx == dir_vel_x(ASTEROID_SPEED as int, dirs@[i])
                        &&& a.solid.vel.vy == dir_vel_y(ASTEROID_SPEED as int, dirs@[i])
                        &&& a.solid.r == ASTEROID_RADIUS
                        &&& 0 <= a.solid.pos.x <= UNIT
                        &&& 0 <= a.solid.pos.y <= UNIT
                        &&& a.wf()
                    },
            decreases asteroid_count - counter,
        {
            let asteroid = Asteroid::random(counter, dirs[counter as usize]);
            asteroids.push(asteroid);
            counter = counter + 1;
        }
        Asteroids { vec: asteroids }
    }

    /// One frame: drop the asteroids destroyed since the last pass, then
    /// advance and wrap the rest, keeping their order.
    pub fn update(&mut self, dt: i64)
        requires
            old(self).wf(),
            in_range(dt),
        ensures
            final(self).vec@ == surviving(old(self).vec@, dt),
            final(self).wf(),
    {
        let ghost orig = self.vec@;
        let ghost full = surviving(orig, dt);
        proof {
            assert(orig.skip(0) =~= orig);
            assert(Seq::<Asteroid>::empty() + full =~= full);
        }
        let n = self.vec.len();
        let mut kept: Vec<Asteroid> = Vec::new();
        let mut k: usize = 0;
        while k < n
            invariant
                0 <= k <= n,
                n == orig.len(),
                self.vec@ == orig,
                in_range(dt),
                full == surviving(orig, dt),
                forall|i: int| 0 <= i < orig.len() ==> (#[trigger] orig[i]).wf(),
                full == kept@ + surviving(orig.skip(k as int), dt),
                forall|i: int| 0 <= i < kept@.len() ==> (#[trigger] kept@[i]).wf(),
            decreases n - k,
        {
            proof {
                assert(orig.skip(k as int).drop_first() =~= orig.skip(k as int + 1));
            }
            let a = self.vec[k];
            if !a.is_destroyed {
                let mut moved = a;
                moved.update(dt);
                kept.push(moved);
                proof {
                    assert(kept@ + surviving(orig.skip(k as int + 1), dt) =~= kept@.subrange(
                        0,
                        kept@.len() - 1,
                    ) + (seq![orig[k as int].updated(dt)] + surviving(
                        orig.skip(k as int + 1),
                        dt,
                    )));
                }
            }
            k = k + 1;
        }
        proof {
            assert(orig.skip(n as int) =~= Seq::<Asteroid>::empty());
            assert(kept@ + Seq::<Asteroid>::empty() =~= kept@);
        }
        self.vec = kept;
    }

    /// The ids of the asteroids still in the field, in order.
    pub fn get_ids(&self) -> (ids: Vec<u32>)
        ensures
            ids@.len() == self.vec@.len(),
            forall|i: int| 0 <= i < ids@.len() ==> #[trigger] ids@[i] == self.vec@[i].id,
    {
        let mut ids: Vec<u32> = Vec::new();
        let n = self.vec.len();
        let mut k: usize = 0;
        while k < n
            invariant
                0 <= k <= n,
                n == self.vec@.len(),
                ids@.len() == k,
                forall|i: int| 0 <= i < ids@.len() ==> #[trigger] ids@[i] == self.vec@[i].id,
            decreases n - k,
        {
            ids.push(self.vec[k].id);
            k = k + 1;
        }
        ids
    }
}

/// One bullet in flight.
#[derive(Clone, Copy, PartialEq, Eq, Structural, Debug)]
pub struct Bullet {
    pub solid: CircleSolid,
    pub is_destroyed: bool,
}

impl Bullet {
    pub open spec fn wf(self) -> bool {
        &&& self.solid.wf()
        &&& self.solid.limit == spec_wrapping_limit()
        &&& -2 * UNIT <= self.solid.pos.x <= 2 * UNIT
        &&& -2 * UNIT <= self.solid.pos.y <= 2 * UNIT
        &&& 0 <= self.solid.r <= UNIT
    }

    /// A bullet fired from `(x, y)` in the ship's facing direction.
    pub fn new(x: i64, y: i64, dir: Dir) -> (b: Bullet)
        requires
            -2 * UNIT <= x <= 2 * UNIT,
            -2 * UNIT <= y <= 2 * UNIT,
            dir.wf(),
        ensures
            b.solid.pos == (Position { x, y }),
            b.solid.vel.vx == dir_vel_x(BULLET_SPEED as int, dir),
            b.solid.vel.vy == dir_vel_y(BULLET_SPEED as int, dir),
            b.solid.r == BULLET_RADIUS,
            b.solid.limit == spec_wrapping_limit(),
            !b.is_destroyed,
            b.wf(),
    {
        let position = Position::new(x, y);
        let velocity = dir.velocity(BULLET_SPEED);
        let limit = wrapping_limit();
        let circle_solid = CircleSolid::new(position, velocity, BULLET_RADIUS, limit);
        Bullet { solid: circle_solid, is_destroyed: false }
    }

    /// Is the bullet still over the board?
    pub open spec fn in_limit(self) -> bool {
        0 <= self.solid.pos.x <= UNIT && 0 <= self.solid.pos.y <= UNIT
    }

    pub fn is_in_limit(&self) -> (r: bool)
        ensures
            r == self.in_limit(),
    {
        let x = self.solid.pos.x();
        let y = self.solid.pos.y();
        if x < 0 || x > UNIT {
            return false;
        }
        if y < 0 || y > UNIT {
            return false;
        }
        true
    }

    /// This bullet after one frame: destroyed bullets stay put.
    pub open spec fn updated(self, dt: i64) -> Bullet {
        if self.is_destroyed {
            self
        } else {
            Bullet { solid: self.solid.stepped(dt), ..self }
        }
    }

    pub fn update(&mut self, dt: i64)
        requires
            old(self).wf(),
            in_range(dt),
        ensures
            *final(self) == old(self).updated(dt),
            final(self).wf(),
    {
        if self.is_destroyed {
            return ;
        }
        self.solid.update(dt);
    }

    pub fn destroy(&mut self)
        ensures
            *final(self) == (Bullet { is_destroyed: true, ..*old(self) }),
    {
        self.is_destroyed = true;
    }
}

impl AsRect for Bullet {
    open spec fn rect_req(&self) -> bool {
        self.wf()
    }

    open spec fn rect_spec(&self) -> Rect {
        Rect {
            x: (self.solid.pos.x - self.solid.r) as i64,
            y: (self.solid.pos.y - self.solid.r) as i64,
            w: self.solid.r,
            h: self.solid.r,
        }
    }

    fn as_rect(&self) -> (r: Rect) {
        let x = self.solid.pos.x();
        let y = self.solid.pos.y();
        let r = self.solid.r;
        Rect::new(x - r, y - r, r, r)
    }
}

/// The bullets that survive a frame, each advanced: bullets off the board
/// or destroyed are dropped, the order of the rest is kept.
pub open spec fn live_bullets(s: Seq<Bullet>, dt: i64) -> Seq<Bullet>
    decreases s.len(),
{
    if s.len() == 0 {
        Seq::empty()
    } else {
        let rest = live_bullets(s.drop_first(), dt);
        if s[0].in_limit() && !s[0].is_destroyed {
            seq![s[0].updated(dt)] + rest
        } else {
            rest
        }
    }
}

/// The player's spaceship.
pub struct Spaceship {
    pub solid: CircleSolid,
    pub orientation: i64,
    pub accelerating: bool,
    pub firing: bool,
    pub firing_delay: i64,
    pub turning: Turning,
    pub bullets: Vec<Bullet>,
}

/// A velocity component clamped to the spaceship's top speed.
pub open spec fn clamped_speed(v: int) -> int {
    if v > SPACESHIP_MAX_SPEED {
        SPACESHIP_MAX_SPEED as int
    } else if v < -SPACESHIP_MAX_SPEED {
        -SPACESHIP_MAX_SPEED as int
    } else {
        v
    }
}

impl Spaceship {
    pub open spec fn wf(self) -> bool {
        &&& self.solid.wf()
        &&& self.solid.limit == spec_wrapping_limit()
        &&& -UNIT <= self.solid.pos.x <= 2 * UNIT
        &&& -UNIT <= self.solid.pos.y <= 2 * UNIT
        &&& 0 <= self.solid.r <= UNIT
        &&& in_pos_range(self.orientation as int)
        &&& in_pos_range(self.firing_delay as int)
        &&& forall|i: int| 0 <= i < self.bullets@.len() ==> (#[trigger] self.bullets@[i]).wf()
    }

    /// A new spaceship in the middle of the board, at rest, gun loaded.
    pub fn new() -> (s: Spaceship)
        ensures
            s.solid.pos == (Position {
                x: SPACESHIP_STARTING_POSITION_X0,
                y: SPACESHIP_STARTING_POSITION_Y0,
            }),
            s.solid.vel == (Velocity { vx: 0i64, vy: 0i64 }),
            s.solid.r == SPACESHIP_RADIUS,
            s.orientation == 0,
            !s.accelerating,
            !s.firing,
            s.firing_delay == SPACESHIP_FIRING_DELAY,
            s.turning == Turning::NONE,
            s.bullets@.len() == 0,
            s.wf(),
    {
        let position = Position::new(SPACESHIP_STARTING_POSITION_X0, SPACESHIP_STARTING_POSITION_Y0);
        let velocity = Velocity::new(0, 0);
        let limit = wrapping_limit();

        Spaceship {
            solid: CircleSolid::new(position, velocity, SPACESHIP_RADIUS, limit),
            orientation: 0,
            accelerating: false,
            firing: false,
            firing_delay: SPACESHIP_FIRING_DELAY,
            turning: Turning::NONE,
            bullets: Vec::new(),
        }
    }

    /// Open the throttle.
    pub fn accelerate(&mut self)
        ensures
            *final(self) == (Spaceship { accelerating: true, ..*old(self) }),
    {
        self.accelerating = true;
    }

    /// Close the throttle.
    pub fn decelerate(&mut self)
        ensures
            *final(self) == (Spaceship { accelerating: false, ..*old(self) }),
    {
        self.accelerating = false;
    }

    /// Select the turn direction.
    pub fn turn(&mut self, turn: Turning)
        ensures
            *final(self) == (Spaceship { turning: turn, ..*old(self) }),
    {
        self.turning = turn;
    }

    pub fn bullets(&self) -> (b: &Vec<Bullet>)
        ensures
            b == &self.bullets,
    {
        &self.bullets
    }

    /// The orientation after one frame of turning.
    pub open spec fn next_orientation(self, dt: i64) -> int {
        match self.turning {
            Turning::LEFT => self.orientation - tdiv(
                SPACESHIP_ROTATION_SPEED as int * dt as int,
                UNIT as int,
            ),
            Turning::RIGHT => self.orientation + tdiv(
                SPACESHIP_ROTATION_SPEED as int * dt as int,
                UNIT as int,
            ),
            Turning::NONE => self.orientation as int,
        }
    }

    fn update_orientation(&mut self, dt: i64)
        requires
            old(self).wf(),
            in_drift_range(old(self).orientation as int),
            in_range(dt),
        ensures
            *final(self) == (Spaceship {
                orientation: old(self).next_orientation(dt) as i64,
                ..*old(self)
            }),
            final(self).wf(),
    {
        match &self.turning {
            Turning::LEFT => {
                let d = scale(SPACESHIP_ROTATION_SPEED, dt);
                self.orientation = self.orientation - d;
            },
            Turning::RIGHT => {
                let d = scale(SPACESHIP_ROTATION_SPEED, dt);
                self.orientation = self.orientation + d;
            },
            Turning::NONE => (),
        }
    }

    /// The velocity after one frame of thrust along `facing`, clamped to
    /// the top speed; no thrust, no change.
    pub open spec fn next_velocity(self, dt: i64, facing: Dir) -> Velocity {
        if self.accelerating {
            let base = tdiv(SPACESHIP_ACCELERATION as int * dt as int, UNIT as int);
            Velocity {
                vx: clamped_speed(
                    self.solid.vel.vx + tdiv(base * facing.x, UNIT as int),
                ) as i64,
                vy: clamped_speed(
                    self.solid.vel.vy + tdiv(base * facing.y, UNIT as int),
                ) as i64,
            }
        } else {
            self.solid.vel
        }
    }

    fn update_speed(&mut self, dt: i64, facing: Dir)
        requires
            old(self).wf(),
            in_range(dt),
            facing.wf(),
        ensures
            *final(self) == (Spaceship {
                solid: CircleSolid {
                    vel: old(self).next_velocity(dt, facing),
                    ..old(self).solid
                },
                ..*old(self)
            }),
            final(self).wf(),
    {
        if self.accelerating {
            let base = scale(SPACESHIP_ACCELERATION, dt);
            proof {
                crate::fixed::lemma_tdiv_quotient_bound(
                    SPACESHIP_ACCELERATION as int * dt as int,
                    UNIT as int,
                    200_000,
                );
            }
            let dvx = scale(base, facing.x);
            let dvy = scale(base, facing.y);
            proof {
                crate::physics::lemma_dir_vel_in_range(base as int, facing);
            }
            let mut vx = self.solid.vel.vx() + dvx;
            let mut vy = self.solid.vel.vy() + dvy;

            if vx > SPACESHIP_MAX_SPEED {
                vx = SPACESHIP_MAX_SPEED;
            }
            if vx < -SPACESHIP_MAX_SPEED {
                vx = -SPACESHIP_MAX_SPEED;
            }
            if vy > SPACESHIP_MAX_SPEED {
                vy = SPACESHIP_MAX_SPEED;
            }
            if vy < -SPACESHIP_MAX_SPEED {
                vy = -SPACESHIP_MAX_SPEED;
            }

            self.solid.vel.set_vx(vx);
            self.solid.vel.set_vy(vy);
        }
    }

    /// The body after one frame: wrapped back over the board first, then
    /// stepped by the integrator (in that order, unlike the asteroids).
    pub open spec fn next_solid(self, dt: i64) -> CircleSolid {
        let wrapped_solid = CircleSolid {
            pos: Position {
                x: wrapped(self.solid.pos.x as int) as i64,
                y: wrapped(self.solid.pos.y as int) as i64,
            },
            ..self.solid
        };
        wrapped_solid.stepped(dt)
    }

    fn update_position(&mut self, dt: i64)
        requires
            old(self).wf(),
            in_range(dt),
        ensures
            *final(self) == (Spaceship { solid: old(self).next_solid(dt), ..*old(self) }),
            final(self).wf(),
    {
        self.handle_out_of_limit();
        self.solid.update(dt);
    }

    fn handle_out_of_limit(&mut self)
        requires
            old(self).wf(),
        ensures
            *final(self) == (Spaceship {
                solid: CircleSolid {
                    pos: Position {
                        x: wrapped(old(self).solid.pos.x as int) as i64,
                        y: wrapped(old(self).solid.pos.y as int) as i64,
                    },
                    ..old(self).solid
                },
                ..*old(self)
            }),
            final(self).wf(),
    {
        let pos_x = self.solid.pos.x();
        let pos_y = self.solid.pos.y();
        let wx = wrap_coord(pos_x);
        let wy = wrap_coord(pos_y);
        self.solid.pos.set_x(wx);
        self.solid.pos.set_y(wy);
    }

    /// Is the gun ready and the trigger held?
    pub open spec fn fires(self) -> bool {
        self.firing && self.firing_delay > SPACESHIP_FIRING_DELAY
    }

    /// The bullet a firing ship launches: from the centre of the ship's
    /// rectangle, flying the way the ship faces.
    pub open spec fn launched_bullet(self, facing: Dir) -> Bullet {
        Bullet {
            solid: CircleSolid {
                pos: Position {
                    x: tdiv(2 * self.solid.pos.x - self.solid.r, 2) as i64,
                    y: tdiv(2 * self.solid.pos.y - self.solid.r, 2) as i64,
                },
                vel: Velocity {
                    vx: dir_vel_x(BULLET_SPEED as int, facing) as i64,
                    vy: dir_vel_y(BULLET_SPEED as int, facing) as i64,
                },
                r: BULLET_RADIUS,
                limit: spec_wrapping_limit(),
            },
            is_destroyed: false,
        }
    }

    fn update_firing(&mut self, dt: i64, facing: Dir)
        requires
            old(self).wf(),
            in_drift_range(old(self).firing_delay as int),
            in_range(dt),
            facing.wf(),
        ensures
            ({
                let fired = old(self).fires();
                let launched = if fired {
                    old(self).bullets@.push(old(self).launched_bullet(facing))
                } else {
                    old(self).bullets@
                };
                &&& final(self).bullets@ == launched
                &&& final(self).firing_delay == (if fired {
                    0int
                } else {
                    old(self).firing_delay as int
                }) + dt
                &&& *final(self) == (Spaceship {
                    firing_delay: final(self).firing_delay,
                    bullets: final(self).bullets,
                    ..*old(self)
                })
            }),
            final(self).wf(),
    {
        if self.firing && self.firing_delay > SPACESHIP_FIRING_DELAY {
            self.firing_delay = 0;
            let rect = self.solid.as_rect_quirk();
            let xc = rect.xc();
            let yc = rect.yc();
            let bullet = Bullet::new(xc, yc, facing);
            self.bullets.push(bullet);
        }
        self.firing_delay = self.firing_delay + dt;
    }

    fn update_bullets(&mut self, dt: i64)
        requires
            old(self).wf(),
            in_range(dt),
        ensures
            final(self).bullets@ == live_bullets(old(self).bullets@, dt),
            *final(self) == (Spaceship { bullets: final(self).bullets, ..*old(self) }),
            final(self).wf(),
    {
        let ghost orig = self.bullets@;
        let ghost full = live_bullets(orig, dt);
        proof {
            assert(orig.skip(0) =~= orig);
            assert(Seq::<Bullet>::empty() + full =~= full);
        }
        let n = self.bullets.len();
        let mut kept: Vec<Bullet> = Vec::new();
        let mut k: usize = 0;
        while k < n
            invariant
                0 <= k <= n,
                n == orig.len(),
                self.bullets@ == orig,
                in_range(dt),
                full == live_bullets(orig, dt),
                forall|i: int| 0 <= i < orig.len() ==> (#[trigger] orig[i]).wf(),
                full == kept@ + live_bullets(orig.skip(k as int), dt),
                forall|i: int| 0 <= i < kept@.len() ==> (#[trigger] kept@[i]).wf(),
            decreases n - k,
        {
            proof {
                assert(orig.skip(k as int).drop_first() =~= orig.skip(k as int + 1));
            }
            let b = self.bullets[k];
            if b.is_in_limit() && !b.is_destroyed {
                let mut moved = b;
                moved.update(dt);
                kept.push(moved);
                proof {
                    assert(kept@ + live_bullets(orig.skip(k as int + 1), dt) =~= kept@.subrange(
                        0,
                        kept@.len() - 1,
                    ) + (seq![orig[k as int].updated(dt)] + live_bullets(
                        orig.skip(k as int + 1),
                        dt,
                    )));
                }
            }
            k = k + 1;
        }
        proof {
            assert(orig.skip(n as int) =~= Seq::<Bullet>::empty());
            assert(kept@ + Seq::<Bullet>::empty() =~= kept@);
        }
        self.bullets = kept;
    }

    /// One frame: turn, thrust along `facing` (the unit direction the
    /// embedder computed for the new orientation), wrap and move, fire if
    /// due, then advance and cull the bullets — the newly fired one
    /// included, as the pass order prescribes.
    pub fn update(&mut self, dt: i64, facing: Dir)
        requires
            old(self).wf(),
            in_range(dt),
            facing.wf(),
            in_drift_range(old(self).orientation as int),
            in_drift_range(old(self).firing_delay as int),
        ensures
            ({
                let s1 = Spaceship {
                    orientation: old(self).next_orientation(dt) as i64,
                    ..*old(self)
                };
                let s2 = Spaceship {
                    solid: CircleSolid { vel: s1.next_velocity(dt, facing), ..s1.solid },
                    ..s1
                };
                let s3 = Spaceship { solid: s2.next_solid(dt), ..s2 };
                let fired = s3.fires();
                let launched = if fired {
                    s3.bullets@.push(s3.launched_bullet(facing))
                } else {
                    s3.bullets@
                };
                let delay4: int = (if fired {
                    0int
                } else {
                    s3.firing_delay as int
                }) + dt;
                &&& final(self).solid == s3.solid
                &&& final(self).orientation == s3.orientation
                &&& final(self).accelerating == old(self).accelerating
                &&& final(self).firing == old(self).firing
                &&& final(self).turning == old(self).turning
                &&& final(self).firing_delay == delay4
                &&& final(self).bullets@ == live_bullets(launched, dt)
            }),
            final(self).wf(),
    {
        self.update_orientation(dt);
        self.update_speed(dt, facing);
        self.update_position(dt);
        self.update_firing(dt, facing);
        self.update_bullets(dt);
    }
}

impl CircleSolid {
    /// The rectangle the spaceship and bullets use for collision: anchored
    /// a radius up and left of the centre, but only one radius wide and
    /// tall.
    fn as_rect_quirk(&self) -> (r: Rect)
        requires
            in_ext_range(self.pos.x as int),
            in_ext_range(self.pos.y as int),
            0 <= self.r <= UNIT,
        ensures
            r == (Rect {
                x: (self.pos.x - self.r) as i64,
                y: (self.pos.y - self.r) as i64,
                w: self.r,
                h: self.r,
            }),
    {
        Rect::new(self.pos.x - self.r, self.pos.y - self.r, self.r, self.r)
    }
}

impl AsRect for Spaceship {
    open spec fn rect_req(&self) -> bool {
        self.wf()
    }

    open spec fn rect_spec(&self) -> Rect {
        Rect {
            x: (self.solid.pos.x - self.solid.r) as i64,
            y: (self.solid.pos.y - self.solid.r) as i64,
            w: self.solid.r,
            h: self.solid.r,
        }
    }

    fn as_rect(&self) -> (r: Rect) {
        let x = self.solid.pos.x();
        let y = self.solid.pos.y();
        let r = self.solid.r;
        Rect::new(x - r, y - r, r, r)
    }
}

/// Does this bullet strike this asteroid?
pub open spec fn strikes(b: Bullet, a: Asteroid) -> bool {
    overlaps(b.rect_spec(), a.rect_spec())
}

/// Destroy every bullet-asteroid pair that overlaps: a bullet dies if it
/// strikes any asteroid, an asteroid dies if any bullet strikes it.
/// Already-destroyed entities still take part in the tests; destroying
/// them again changes nothing.
pub fn collide_shell_and_asteroids(asteroids: &mut Vec<Asteroid>, bullets: &mut Vec<Bullet>)
    requires
        forall|i: int| 0 <= i < old(asteroids)@.len() ==> (#[trigger] old(asteroids)@[i]).wf(),
        forall|j: int| 0 <= j < old(bullets)@.len() ==> (#[trigger] old(bullets)@[j]).wf(),
    ensures
        final(asteroids)@.len() == old(asteroids)@.len(),
        final(bullets)@.len() == old(bullets)@.len(),
        forall|i: int|
            0 <= i < old(asteroids)@.len() ==> #[trigger] final(asteroids)@[i] == (Asteroid {
                is_destroyed: old(asteroids)@[i].is_destroyed || (exists|j: int|
                    0 <= j < old(bullets)@.len() && strikes(
                        #[trigger] old(bullets)@[j],
                        old(asteroids)@[i],
                    )),
                ..old(asteroids)@[i]
            }),
        forall|j: int|
            0 <= j < old(bullets)@.len() ==> #[trigger] final(bullets)@[j] == (Bullet {
                is_destroyed: old(bullets)@[j].is_destroyed || (exists|i: int|
                    0 <= i < old(asteroids)@.len() && strikes(
                        old(bullets)@[j],
                        #[trigger] old(asteroids)@[i],
                    )),
                ..old(bullets)@[j]
            }),
{
    let ghost g_asts = asteroids@;
    let ghost g_blts = bullets@;
    let na = asteroids.len();
    let nb = bullets.len();

    let mut bi: usize = 0;
    while bi < nb
        invariant
            0 <= bi <= nb,
            na == g_asts.len(),
            nb == g_blts.len(),
            asteroids@.len() == na,
            bullets@.len() == nb,
            forall|i: int| 0 <= i < na ==> (#[trigger] g_asts[i]).wf(),
            forall|j: int| 0 <= j < nb ==> (#[trigger] g_blts[j]).wf(),
            forall|i: int|
                0 <= i < na ==> #[trigger] asteroids@[i] == (Asteroid {
                    is_destroyed: g_asts[i].is_destroyed || (exists|j: int|
                        0 <= j < bi && strikes(#[trigger] g_blts[j], g_asts[i])),
                    ..g_asts[i]
                }),
            forall|j: int|
                bi <= j < nb ==> #[trigger] bullets@[j] == g_blts[j],
            forall|j: int|
                0 <= j < bi ==> #[trigger] bullets@[j] == (Bullet {
                    is_destroyed: g_blts[j].is_destroyed || (exists|i: int|
                        0 <= i < na && strikes(g_blts[j], #[trigger] g_asts[i])),
                    ..g_blts[j]
                }),
        decreases nb - bi,
    {
        let bullet = bullets[bi];
        let bullet_rect = bullet.as_rect();

        let mut ai: usize = 0;
        while ai < na
            invariant
                0 <= ai <= na,
                0 <= bi < nb,
                na == g_asts.len(),
                nb == g_blts.len(),
                asteroids@.len() == na,
                bullets@.len() == nb,
                forall|i: int| 0 <= i < na ==> (#[trigger] g_asts[i]).wf(),
                forall|j: int| 0 <= j < nb ==> (#[trigger] g_blts[j]).wf(),
                bullet == g_blts[bi as int],
                bullet_rect == g_blts[bi as int].rect_spec(),
                forall|i: int|
                    ai <= i < na ==> #[trigger] asteroids@[i] == (Asteroid {
                        is_destroyed: g_asts[i].is_destroyed || (exists|j: int|
                            0 <= j < bi && strikes(#[trigger] g_blts[j], g_asts[i])),
                        ..g_asts[i]
                    }),
                forall|i: int|
                    0 <= i < ai ==> #[trigger] asteroids@[i] == (Asteroid {
                        is_destroyed: g_asts[i].is_destroyed || (exists|j: int|
                            0 <= j < bi + 1 && strikes(#[trigger] g_blts[j], g_asts[i])),
                        ..g_asts[i]
                    }),
                forall|j: int|
                    bi < j < nb ==> #[trigger] bullets@[j] == g_blts[j],
                bullets@[bi as int] == (Bullet {
                    is_destroyed: g_blts[bi as int].is_destroyed || (exists|i: int|
                        0 <= i < ai && strikes(g_blts[bi as int], #[trigger] g_asts[i])),
                    ..g_blts[bi as int]
                }),
                forall|j: int|
                    0 <= j < bi ==> #[trigger] bullets@[j] == (Bullet {
                        is_destroyed: g_blts[j].is_destroyed || (exists|i: int|
                            0 <= i < na && strikes(g_blts[j], #[trigger] g_asts[i])),
                        ..g_blts[j]
                    }),
            decreases na - ai,
        {
            let asteroid = asteroids[ai];
            let asteroid_rect = asteroid.as_rect();
            proof {
                assert(asteroid_rect == g_asts[ai as int].rect_spec());
            }
            match collide(&bullet_rect, &asteroid_rect) {
                None => {
                    proof {
                        assert(!strikes(g_blts[bi as int], g_asts[ai as int]));
                    }
                },
                Some(_rect) => {
                    let mut nb_ = bullets[bi];
                    nb_.destroy();
                    bullets.set(bi, nb_);
                    let mut na_ = asteroids[ai];
                    na_.destroy();
                    asteroids.set(ai, na_);
                    proof {
                        assert(strikes(g_blts[bi as int], g_asts[ai as int]));
                    }
                },
            }
            ai = ai + 1;
        }
        bi = bi + 1;
        proof {
            assert forall|i: int| 0 <= i < na implies #[trigger] asteroids@[i] == (Asteroid {
                is_destroyed: g_asts[i].is_destroyed || (exists|j: int|
                    0 <= j < bi && strikes(#[trigger] g_blts[j], g_asts[i])),
                ..g_asts[i]
            }) by {
                assert(asteroids@[i] == (Asteroid {
                    is_destroyed: g_asts[i].is_destroyed || (exists|j: int|
                        0 <= j < bi - 1 + 1 && strikes(#[trigger] g_blts[j], g_asts[i])),
                    ..g_asts[i]
                }));
            }
        }
    }
}

/// All entities of one running game.
pub struct Logic {
    pub is_over: bool,
    pub spaceship: Spaceship,
    pub asteroids: Asteroids,
}

impl Logic {
    pub open spec fn wf(self) -> bool {
        self.spaceship.wf() && self.asteroids.wf()
    }

    /// A new game: the spaceship in the middle, the starting asteroids
    /// drifting in the directions the embedder drew.
    pub fn new(dirs: &Vec<Dir>) -> (l: Logic)
        requires
            dirs@.len() == ASTEROID_STARTING_NUMBER,
            forall|i: int| 0 <= i < dirs@.len() ==> (#[trigger] dirs@[i]).wf(),
        ensures
            !l.is_over,
            l.asteroids.vec@.len() == ASTEROID_STARTING_NUMBER,
            forall|i: int|
                0 <= i < l.asteroids.vec@.len() ==> (#[trigger] l.asteroids.vec@[i]).id == i
                    && !l.asteroids.vec@[i].is_destroyed,
            l.spaceship.solid.pos == (Position {
                x: SPACESHIP_STARTING_POSITION_X0,
                y: SPACESHIP_STARTING_POSITION_Y0,
            }),
            l.spaceship.solid.vel == (Velocity { vx: 0i64, vy: 0i64 }),
            l.spaceship.orientation == 0,
            !l.spaceship.accelerating,
            !l.spaceship.firing,
            l.spaceship.turning == Turning::NONE,
            l.spaceship.bullets@.len() == 0,
            l.wf(),
    {
        Logic {
            is_over: false,
            spaceship: Spaceship::new(),
            asteroids: Asteroids::new(ASTEROID_STARTING_NUMBER, dirs),
        }
    }

    /// Advance every entity by `dt` ticks; `facing` is the unit direction
    /// the embedder computed for the spaceship's new orientation.
    pub fn update(&mut self, dt: i64, facing: Dir)
        requires
            old(self).wf(),
            in_range(dt),
            facing.wf(),
            in_drift_range(old(self).spaceship.orientation as int),
            in_drift_range(old(self).spaceship.firing_delay as int),
        ensures
            ({
                let s0 = old(self).spaceship;
                let s1 = Spaceship { orientation: s0.next_orientation(dt) as i64, ..s0 };
                let s2 = Spaceship {
                    solid: CircleSolid { vel: s1.next_velocity(dt, facing), ..s1.solid },
                    ..s1
                };
                let s3 = Spaceship { solid: s2.next_solid(dt), ..s2 };
                let fired = s3.fires();
                let launched = if fired {
                    s3.bullets@.push(s3.launched_bullet(facing))
                } else {
                    s3.bullets@
                };
                &&& final(self).spaceship.solid == s3.solid
                &&& final(self).spaceship.orientation == s3.orientation
                &&& final(self).spaceship.accelerating == s0.accelerating
                &&& final(self).spaceship.firing == s0.firing
                &&& final(self).spaceship.turning == s0.turning
                &&& final(self).spaceship.firing_delay == (if fired {
                    0int
                } else {
                    s3.firing_delay as int
                }) + dt
                &&& final(self).spaceship.bullets@ == live_bullets(launched, dt)
            }),
            final(self).asteroids.vec@ == surviving(old(self).asteroids.vec@, dt),
            final(self).is_over == old(self).is_over,
            final(self).wf(),
    {
        self.spaceship.update(dt, facing);
        self.asteroids.update(dt);
    }

    /// End the game.
    pub fn over(&mut self)
        ensures
            *final(self) == (Logic { is_over: true, ..*old(self) }),
    {
        self.is_over = true;
    }

    pub fn is_over(&self) -> (r: bool)
        ensures
            r == self.is_over,
    {
        self.is_over
    }
}

/// The collision pass of one frame: bullets against asteroids.
pub fn check_collision(logic: &mut Logic)
    requires
        old(logic).wf(),
    ensures
        final(logic).asteroids.vec@.len() == old(logic).asteroids.vec@.len(),
        final(logic).spaceship.bullets@.len() == old(logic).spaceship.bullets@.len(),
        forall|i: int|
            0 <= i < old(logic).asteroids.vec@.len() ==> #[trigger] final(logic).asteroids.vec@[i]
                == (Asteroid {
                is_destroyed: old(logic).asteroids.vec@[i].is_destroyed || (exists|j: int|
                    0 <= j < old(logic).spaceship.bullets@.len() && strikes(
                        #[trigger] old(logic).spaceship.bullets@[j],
                        old(logic).asteroids.vec@[i],
                    )),
                ..old(logic).asteroids.vec@[i]
            }),
        forall|j: int|
            0 <= j < old(logic).spaceship.bullets@.len()
                ==> #[trigger] final(logic).spaceship.bullets@[j] == (Bullet {
                is_destroyed: old(logic).spaceship.bullets@[j].is_destroyed || (exists|i: int|
                    0 <= i < old(logic).asteroids.vec@.len() && strikes(
                        old(logic).spaceship.bullets@[j],
                        #[trigger] old(logic).asteroids.vec@[i],
                    )),
                ..old(logic).spaceship.bullets@[j]
            }),
        final(logic).spaceship.solid == old(logic).spaceship.solid,
        final(logic).is_over == old(logic).is_over,
        final(logic).wf(),
{
    collide_shell_and_asteroids(&mut logic.asteroids.vec, &mut logic.spaceship.bullets);
}

} // verus!
