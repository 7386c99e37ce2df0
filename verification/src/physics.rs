//! Kinematics: positions, velocities, unit directions, and the moving
//! bodies (`RectSolid`, `CircleSolid`) that advance by velocity times delta
//! time and are then clamped into their limit rectangle.
//!
//! Entities that wrap around the board instead of clamping use
//! [`wrap_coord`], the reflection-style wrap the games share.

use vstd::prelude::*;
use crate::fixed::{in_ext_range, in_pos_range, in_range, isqrt, scale, tdiv, RANGE, UNIT};
use crate::geometry::{AsCircle, AsRect, Circle, Rect};

verus! {

/// A point on the board grid.
#[derive(Clone, Copy, PartialEq, Eq, Structural, Debug)]
pub struct Position {
    pub x: i64,
    pub y: i64,
}

impl Position {
    pub fn new(x: i64, y: i64) -> (p: Position)
        ensures
            p == (Position { x, y }),
    {
        Position { x, y }
    }

    pub fn x(&self) -> (r: i64)
        ensures
            r == self.x,
    {
        self.x
    }

    pub fn y(&self) -> (r: i64)
        ensures
            r == self.y,
    {
        self.y
    }

    pub fn set_x(&mut self, x: i64)
        ensures
            *final(self) == (Position { x, ..*old(self) }),
    {
        self.x = x;
    }

    pub fn set_y(&mut self, y: i64)
        ensures
            *final(self) == (Position { y, ..*old(self) }),
    {
        self.y = y;
    }
}

/// A velocity in grid steps per second.
#[derive(Clone, Copy, PartialEq, Eq, Structural, Debug)]
pub struct Velocity {
    pub vx: i64,
    pub vy: i64,
}

impl Velocity {
    pub open spec fn wf(self) -> bool {
        in_range(self.vx) && in_range(self.vy)
    }

    pub fn new(vx: i64, vy: i64) -> (v: Velocity)
        ensures
            v == (Velocity { vx, vy }),
    {
        Velocity { vx, vy }
    }

    pub fn default() -> (v: Velocity)
        ensures
            v == (Velocity { vx: 0i64, vy: 0i64 }),
    {
        Velocity { vx: 0, vy: 0 }
    }

    pub fn copy(&self) -> (v: Velocity)
        ensures
            v == *self,
    {
        Velocity { vx: self.vx, vy: self.vy }
    }

    pub fn vx(&self) -> (r: i64)
        ensures
            r == self.vx,
    {
        self.vx
    }

    pub fn vy(&self) -> (r: i64)
        ensures
            r == self.vy,
    {
        self.vy
    }

    /// The magnitude, rounded down to the grid: the integer square root of
    /// `vx^2 + vy^2`.
    pub fn mag(&self) -> (r: i64)
        requires
            self.wf(),
        ensures
            0 <= r,
            r * r <= self.vx * self.vx + self.vy * self.vy < (r + 1) * (r + 1),
    {
        proof {
            crate::fixed::lemma_square_bounds(self.vx as int);
            crate::fixed::lemma_square_bounds(self.vy as int);
        }
        let n = (self.vx * self.vx + self.vy * self.vy) as u64;
        let r = isqrt(n);
        proof {
            assert(r <= 2_000_000) by (nonlinear_arith)
                requires
                    r * r <= n,
                    n <= 2_000_000_000_000,
            ;
        }
        r as i64
    }

    pub fn set_vx(&mut self, vx: i64)
        ensures
            *final(self) == (Velocity { vx, ..*old(self) }),
    {
        self.vx = vx;
    }

    pub fn set_vy(&mut self, vy: i64)
        ensures
            *final(self) == (Velocity { vy, ..*old(self) }),
    {
        self.vy = vy;
    }
}

/// A unit direction vector scaled by `UNIT`: the fixed-point cosine/sine
/// pair the embedding program computes for an angle.  The library never
/// evaluates trigonometry itself; it only demands that each component stays
/// within `UNIT` in magnitude.
#[derive(Clone, Copy, PartialEq, Eq, Structural, Debug)]
pub struct Dir {
    pub x: i64,
    pub y: i64,
}

impl Dir {
    pub open spec fn wf(self) -> bool {
        -UNIT <= self.x <= UNIT && -UNIT <= self.y <= UNIT
    }

    pub fn new(x: i64, y: i64) -> (d: Dir)
        requires
            -UNIT <= x <= UNIT,
            -UNIT <= y <= UNIT,
        ensures
            d == (Dir { x, y }),
    {
        Dir { x, y }
    }

    /// The direction along the positive x axis.
    pub fn east() -> (d: Dir)
        ensures
            d == (Dir { x: UNIT, y: 0i64 }),
    {
        Dir { x: UNIT, y: 0 }
    }

    /// The direction along the negative x axis.
    pub fn west() -> (d: Dir)
        ensures
            d.x == -UNIT,
            d.y == 0,
    {
        Dir { x: -UNIT, y: 0 }
    }

    /// The velocity of magnitude about `speed` pointing this way:
    /// each component is `speed * component / UNIT`, truncated.
    pub fn velocity(self, speed: i64) -> (v: Velocity)
        requires
            self.wf(),
            in_range(speed),
        ensures
            v.vx == dir_vel_x(speed as int, self),
            v.vy == dir_vel_y(speed as int, self),
            v.wf(),
    {
        let vx = scale(speed, self.x);
        let vy = scale(speed, self.y);
        proof {
            lemma_dir_component_bound(speed as int, self.x as int);
            lemma_dir_component_bound(speed as int, self.y as int);
        }
        Velocity { vx, vy }
    }
}

/// The horizontal component of the velocity of magnitude `speed` pointing
/// in direction `d`.
pub open spec fn dir_vel_x(speed: int, d: Dir) -> int {
    tdiv(speed * d.x, UNIT as int)
}

/// The vertical component of the velocity of magnitude `speed` pointing
/// in direction `d`.
pub open spec fn dir_vel_y(speed: int, d: Dir) -> int {
    tdiv(speed * d.y, UNIT as int)
}

/// Both components of a projected velocity stay within the ordinary
/// velocity band when the speed does.
pub proof fn lemma_dir_vel_in_range(speed: int, d: Dir)
    requires
        d.wf(),
        -RANGE <= speed <= RANGE,
    ensures
        -RANGE <= dir_vel_x(speed, d) <= RANGE,
        -RANGE <= dir_vel_y(speed, d) <= RANGE,
{
    lemma_dir_component_bound(speed, d.x as int);
    lemma_dir_component_bound(speed, d.y as int);
}

/// Negating one component of a direction negates exactly that component
/// of the projected velocity and leaves the other untouched.
pub proof fn lemma_dir_vel_flip(speed: int, d: Dir)
    requires
        d.wf(),
    ensures
        dir_vel_x(speed, Dir { x: d.x, y: (-d.y) as i64 }) == dir_vel_x(speed, d),
        dir_vel_y(speed, Dir { x: d.x, y: (-d.y) as i64 }) == -dir_vel_y(speed, d),
        dir_vel_x(speed, Dir { x: (-d.x) as i64, y: d.y }) == -dir_vel_x(speed, d),
        dir_vel_y(speed, Dir { x: (-d.x) as i64, y: d.y }) == dir_vel_y(speed, d),
{
    assert(speed * (-d.y as int) == -(speed * d.y as int)) by (nonlinear_arith);
    assert(speed * (-d.x as int) == -(speed * d.x as int)) by (nonlinear_arith);
}

/// Speed preservation under the angle bounce, at the level of the polar
/// model: a velocity written as scalar speed times a unit direction has
/// squared magnitude `(speed * UNIT)^2` in fine units, whatever unit
/// direction the bounce selected.  Two bounces that keep the scalar speed
/// therefore keep the magnitude.
pub proof fn lemma_unit_dir_speed_sq(speed: int, d: Dir) by (nonlinear_arith)
    requires
        d.x * d.x + d.y * d.y == UNIT * UNIT,
    ensures
        (speed * d.x) * (speed * d.x) + (speed * d.y) * (speed * d.y) == (speed * UNIT) * (speed
            * UNIT),
{
}

/// A component of `speed * d / UNIT` never exceeds `speed` in magnitude
/// when `d` is bounded by `UNIT`.
proof fn lemma_dir_component_bound(speed: int, d: int)
    requires
        -RANGE <= speed <= RANGE,
        -UNIT <= d <= UNIT,
    ensures
        -RANGE <= tdiv(speed * d, UNIT as int) <= RANGE,
{
    assert(-(RANGE as int * UNIT as int) <= speed * d <= RANGE as int * UNIT as int)
        by (nonlinear_arith)
        requires
            -RANGE <= speed <= RANGE,
            -UNIT <= d <= UNIT,
    ;
    crate::fixed::lemma_tdiv_quotient_bound(speed * d, UNIT as int, RANGE as int);
}

/// One coordinate clamped into `[lo, hi - extent]` the way the integrator
/// does it: snap to the low edge first, else to the high edge.
pub open spec fn clamp_axis(p: int, extent: int, lo: int, hi: int) -> int {
    if p < lo {
        lo
    } else if p + extent > hi {
        hi - extent
    } else {
        p
    }
}

/// The reflection-style wrap the toroidal entities use: a coordinate that
/// left `[0, UNIT]` re-enters from the other side.  A coordinate exactly on
/// the boundary is left untouched.
pub open spec fn wrapped(p: int) -> int {
    if p < 0 {
        UNIT - p
    } else if p > UNIT {
        p - UNIT
    } else {
        p
    }
}

/// A coordinate already inside the board, boundary included, wraps to
/// itself.
pub proof fn lemma_wrap_inside_identity(p: int)
    requires
        0 <= p <= UNIT,
    ensures
        wrapped(p) == p,
{
}

/// Wrap a coordinate after it left the board.
pub fn wrap_coord(p: i64) -> (r: i64)
    requires
        in_ext_range(p as int),
    ensures
        r == wrapped(p as int),
{
    if p < 0 {
        UNIT - p
    } else if p > UNIT {
        p - UNIT
    } else {
        p
    }
}

/// A moving axis-aligned rectangle, clamped into `limit` after each step.
#[derive(Clone, Copy, PartialEq, Eq, Structural, Debug)]
pub struct RectSolid {
    pub pos: Position,
    pub vel: Velocity,
    pub w: i64,
    pub h: i64,
    pub limit: Rect,
}

impl RectSolid {
    pub open spec fn wf(self) -> bool {
        &&& in_pos_range(self.pos.x as int)
        &&& in_pos_range(self.pos.y as int)
        &&& self.vel.wf()
        &&& in_range(self.w)
        &&& in_range(self.h)
        &&& self.w >= 0
        &&& self.h >= 0
        &&& self.limit.wf()
        &&& in_range(self.limit.x)
        &&& in_range(self.limit.y)
    }

    /// Is the position inside the band integration leaves it in?  Every
    /// update clamps into the limit, so this holds from one frame to the
    /// next; collision shifts may leave it temporarily.
    pub open spec fn settled(self) -> bool {
        in_ext_range(self.pos.x as int) && in_ext_range(self.pos.y as int)
    }

    /// The body after one integration step: moved by `vel * dt / UNIT`,
    /// then clamped into the limit, the vertical axis first.
    pub open spec fn stepped(self, dt: i64) -> RectSolid {
        let mx = self.pos.x + tdiv(self.vel.vx as int * dt as int, UNIT as int);
        let my = self.pos.y + tdiv(self.vel.vy as int * dt as int, UNIT as int);
        RectSolid {
            pos: Position {
                x: clamp_axis(mx, self.w as int, self.limit.x as int, self.limit.x_end()) as i64,
                y: clamp_axis(my, self.h as int, self.limit.y as int, self.limit.y_end()) as i64,
            },
            ..self
        }
    }

    pub fn new(pos: Position, vel: Velocity, w: i64, h: i64, limit: Rect) -> (s: RectSolid)
        ensures
            s == (RectSolid { pos, vel, w, h, limit }),
    {
        RectSolid { pos, vel, w, h, limit }
    }

    /// A motionless body pinned at a point, with the whole board as limit.
    pub fn fixed(x: i64, y: i64, w: i64, h: i64) -> (s: RectSolid)
        ensures
            s.pos == (Position { x, y }),
            s.vel == (Velocity { vx: 0i64, vy: 0i64 }),
            s.w == w,
            s.h == h,
            s.limit == (Rect { x: 0i64, y: 0i64, w: UNIT, h: UNIT }),
    {
        RectSolid {
            pos: Position::new(x, y),
            vel: Velocity::default(),
            w,
            h,
            limit: Rect::default(),
        }
    }

    /// Advance by one frame of `dt` ticks and clamp into the limit.
    pub fn update(&mut self, dt: i64)
        requires
            old(self).wf(),
            in_range(dt),
        ensures
            *final(self) == old(self).stepped(dt),
            final(self).wf(),
            final(self).settled(),
    {
        let dx = scale(self.vel.vx, dt);
        let dy = scale(self.vel.vy, dt);
        self.pos.set_x(self.pos.x() + dx);
        self.pos.set_y(self.pos.y() + dy);

        if self.pos.y() < self.limit.y0() {
            let y = self.limit.y0();
            self.pos.set_y(y);
        } else if self.pos.y() + self.h > self.limit.y1() {
            let y = self.limit.y1() - self.h;
            self.pos.set_y(y);
        }

        if self.pos.x() < self.limit.x0() {
            let x = self.limit.x0();
            self.pos.set_x(x);
        } else if self.pos.x() + self.w > self.limit.x1() {
            let x = self.limit.x1() - self.w;
            self.pos.set_x(x);
        }
    }
}

impl AsRect for RectSolid {
    open spec fn rect_req(&self) -> bool {
        true
    }

    open spec fn rect_spec(&self) -> Rect {
        Rect { x: self.pos.x, y: self.pos.y, w: self.w, h: self.h }
    }

    fn as_rect(&self) -> (r: Rect) {
        Rect::new(self.pos.x, self.pos.y, self.w, self.h)
    }
}

/// A moving circle; the limit clamps its centre point.
#[derive(Clone, Copy, PartialEq, Eq, Structural, Debug)]
pub struct CircleSolid {
    pub pos: Position,
    pub vel: Velocity,
    pub r: i64,
    pub limit: Rect,
}

impl CircleSolid {
    pub open spec fn wf(self) -> bool {
        &&& in_pos_range(self.pos.x as int)
        &&& in_pos_range(self.pos.y as int)
        &&& self.vel.wf()
        &&& in_range(self.r)
        &&& self.r >= 0
        &&& self.limit.wf()
        &&& in_range(self.limit.x)
        &&& in_range(self.limit.y)
    }

    /// Is the position inside the band integration leaves it in?
    pub open spec fn settled(self) -> bool {
        in_ext_range(self.pos.x as int) && in_ext_range(self.pos.y as int)
    }

    /// The body after one integration step: moved by `vel * dt / UNIT`,
    /// then its centre clamped into the limit, the vertical axis first.
    pub open spec fn stepped(self, dt: i64) -> CircleSolid {
        let mx = self.pos.x + tdiv(self.vel.vx as int * dt as int, UNIT as int);
        let my = self.pos.y + tdiv(self.vel.vy as int * dt as int, UNIT as int);
        CircleSolid {
            pos: Position {
                x: clamp_axis(mx, 0, self.limit.x as int, self.limit.x_end()) as i64,
                y: clamp_axis(my, 0, self.limit.y as int, self.limit.y_end()) as i64,
            },
            ..self
        }
    }

    pub fn new(pos: Position, vel: Velocity, r: i64, limit: Rect) -> (s: CircleSolid)
        ensures
            s == (CircleSolid { pos, vel, r, limit }),
    {
        CircleSolid { pos, vel, r, limit }
    }

    /// Advance by one frame of `dt` ticks and clamp the centre into the
    /// limit.
    pub fn update(&mut self, dt: i64)
        requires
            old(self).wf(),
            in_range(dt),
        ensures
            *final(self) == old(self).stepped(dt),
            final(self).wf(),
            final(self).settled(),
    {
        let dx = scale(self.vel.vx, dt);
        let dy = scale(self.vel.vy, dt);
        self.pos.set_x(self.pos.x() + dx);
        self.pos.set_y(self.pos.y() + dy);

        if self.pos.y() < self.limit.y0() {
            let y = self.limit.y0();
            self.pos.set_y(y);
        } else if self.pos.y() > self.limit.y1() {
            let y = self.limit.y1();
            self.pos.set_y(y);
        }

        if self.pos.x() < self.limit.x0() {
            let x = self.limit.x0();
            self.pos.set_x(x);
        } else if self.pos.x() > self.limit.x1() {
            let x = self.limit.x1();
            self.pos.set_x(x);
        }
    }
}

impl AsCircle for CircleSolid {
    open spec fn circle_req(&self) -> bool {
        true
    }

    open spec fn circle_spec(&self) -> Circle {
        Circle { x: self.pos.x, y: self.pos.y, r: self.r }
    }

    fn as_circle(&self) -> (c: Circle) {
        Circle::new(self.pos.x, self.pos.y, self.r)
    }
}

/// A body whose position sits inside its limit band keeps its position
/// across an update with a zero time delta.
pub proof fn lemma_update_zero_dt(s: RectSolid)
    requires
        s.wf(),
        s.limit.x <= s.pos.x,
        s.pos.x + s.w <= s.limit.x_end(),
        s.limit.y <= s.pos.y,
        s.pos.y + s.h <= s.limit.y_end(),
    ensures
        s.stepped(0) == s,
{
    assert(tdiv(s.vel.vx as int * 0, UNIT as int) == 0);
    assert(tdiv(s.vel.vy as int * 0, UNIT as int) == 0);
}

} // verus!
