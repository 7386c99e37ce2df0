//! The fixed-gunner game: a spaceship sliding along the bottom of the
//! board, firing a single missile straight up.

use vstd::prelude::*;
use crate::fixed::{in_range, in_pos_range, RANGE, UNIT};
use crate::geometry::{AsRect, Rect};
use crate::physics::{Position, RectSolid, Velocity};

verus! {

/// Spaceship width.
pub const SPACESHIP_WIDTH: i64 = 650;

/// Spaceship height.
pub const SPACESHIP_HEIGHT: i64 = 256;

/// Where the spaceship starts.
pub const SPACESHIP_STARTING_POSITION_X0: i64 = 4_500;

/// Where the spaceship starts.
pub const SPACESHIP_STARTING_POSITION_Y0: i64 = 9_000;

/// Spaceship speed while a key is held.
pub const SPACESHIP_SPEED: i64 = 7_500;

/// The missile's vertical speed: straight up the board.
pub const MISSILE_SPEED: i64 = -10_000;

/// Missile width.
pub const MISSILE_RECT_WIDTH: i64 = 50;

/// Missile height.
pub const MISSILE_RECT_HEIGHT: i64 = 100;

/// The spaceship's missile; only one exists, relaunched after it dies.
#[derive(Clone, Copy, PartialEq, Eq, Structural, Debug)]
pub struct Missile {
    pub solid: RectSolid,
    pub is_destroyed: bool,
}

impl Missile {
    pub open spec fn wf(self) -> bool {
        self.solid.wf()
    }

    /// A new missile, not yet launched.
    pub fn new(x: i64, y: i64) -> (m: Missile)
        requires
            in_range(x),
            in_range(y),
        ensures
            m.solid.pos == (Position { x, y }),
            m.solid.vel == (Velocity { vx: 0i64, vy: MISSILE_SPEED }),
            m.solid.w == MISSILE_RECT_WIDTH,
            m.solid.h == MISSILE_RECT_HEIGHT,
            m.solid.limit == (Rect { x: 0i64, y: 0i64, w: UNIT, h: UNIT }),
            m.is_destroyed,
            m.wf(),
    {
        let position = Position::new(x, y);
        let velocity = Velocity::new(0, MISSILE_SPEED);
        let limit = Rect::new(0, 0, UNIT, UNIT);
        Missile {
            solid: RectSolid::new(position, velocity, MISSILE_RECT_WIDTH, MISSILE_RECT_HEIGHT, limit),
            is_destroyed: true,
        }
    }

    pub fn destroy(&mut self)
        ensures
            *final(self) == (Missile { is_destroyed: true, ..*old(self) }),
    {
        self.is_destroyed = true;
    }

    pub fn is_destroyed(&self) -> (r: bool)
        ensures
            r == self.is_destroyed,
    {
        self.is_destroyed
    }

    /// Launch from the gun position: centred on `x0`, nose at `y0`.
    pub fn launch(&mut self, x0: i64, y0: i64)
        requires
            old(self).wf(),
            in_pos_range(x0 - MISSILE_RECT_WIDTH / 2),
            in_pos_range(y0 - MISSILE_RECT_HEIGHT),
        ensures
            *final(self) == (Missile {
                solid: RectSolid {
                    pos: Position {
                        x: (x0 - MISSILE_RECT_WIDTH / 2) as i64,
                        y: (y0 - MISSILE_RECT_HEIGHT) as i64,
                    },
                    ..old(self).solid
                },
                is_destroyed: false,
            }),
            final(self).wf(),
    {
        self.is_destroyed = false;
        let pos = Position::new(x0 - MISSILE_RECT_WIDTH / 2, y0 - MISSILE_RECT_HEIGHT);
        self.solid.pos = pos;
    }

    /// A destroyed missile stays put; a live one flies.
    pub fn update(&mut self, dt: i64)
        requires
            old(self).wf(),
            in_range(dt),
        ensures
            final(self).is_destroyed == old(self).is_destroyed,
            old(self).is_destroyed ==> *final(self) == *old(self),
            !old(self).is_destroyed ==> final(self).solid == old(self).solid.stepped(dt)
                && final(self).solid.settled(),
            final(self).wf(),
    {
        if !self.is_destroyed {
            self.solid.update(dt);
        }
    }
}

impl AsRect for Missile {
    open spec fn rect_req(&self) -> bool {
        true
    }

    open spec fn rect_spec(&self) -> Rect {
        Rect { x: self.solid.pos.x, y: self.solid.pos.y, w: self.solid.w, h: self.solid.h }
    }

    fn as_rect(&self) -> (r: Rect) {
        Rect::new(self.solid.pos.x, self.solid.pos.y, self.solid.w, self.solid.h)
    }
}

/// The player's spaceship.
#[derive(Clone, Copy, PartialEq, Eq, Structural, Debug)]
pub struct Spaceship {
    pub solid: RectSolid,
    pub missile: Missile,
    pub is_destroyed: bool,
    pub delay_since_explosion: i64,
}

impl Spaceship {
    pub open spec fn wf(self) -> bool {
        self.solid.wf() && self.missile.wf()
    }

    /// A new spaceship at the starting position, missile ready.
    pub fn new() -> (s: Spaceship)
        ensures
            s.solid.pos == (Position {
                x: SPACESHIP_STARTING_POSITION_X0,
                y: SPACESHIP_STARTING_POSITION_Y0,
            }),
            s.solid.vel == (Velocity { vx: 0i64, vy: 0i64 }),
            s.solid.w == SPACESHIP_WIDTH,
            s.solid.h == SPACESHIP_HEIGHT,
            s.missile.is_destroyed,
            !s.is_destroyed,
            s.delay_since_explosion == 0,
            s.wf(),
            s.solid.settled(),
    {
        let position = Position::new(SPACESHIP_STARTING_POSITION_X0, SPACESHIP_STARTING_POSITION_Y0);
        let velocity = Velocity::new(0, 0);
        let limit = Rect::new(0, 0, UNIT, UNIT);
        Spaceship {
            solid: RectSolid::new(position, velocity, SPACESHIP_WIDTH, SPACESHIP_HEIGHT, limit),
            missile: Missile::new(0, 0),
            is_destroyed: false,
            delay_since_explosion: 0,
        }
    }

    /// Fire the missile from the ship's centre, if the previous one is
    /// done.  Returns whether a missile left the gun.
    pub fn fire(&mut self) -> (fired: bool)
        requires
            old(self).wf(),
            old(self).solid.settled(),
        ensures
            fired == old(self).missile.is_destroyed,
            final(self).solid == old(self).solid,
            final(self).is_destroyed == old(self).is_destroyed,
            final(self).delay_since_explosion == old(self).delay_since_explosion,
            fired ==> final(self).missile == (Missile {
                solid: RectSolid {
                    pos: Position {
                        x: (old(self).rect_spec().x_mid() - MISSILE_RECT_WIDTH / 2) as i64,
                        y: (old(self).rect_spec().y_mid() - MISSILE_RECT_HEIGHT) as i64,
                    },
                    ..old(self).missile.solid
                },
                is_destroyed: false,
            }),
            !fired ==> final(self).missile == old(self).missile,
            final(self).wf(),
    {
        if self.missile.is_destroyed() {
            let rect = self.solid.as_rect();
            let xc = rect.xc();
            let yc = rect.yc();
            self.missile.launch(xc, yc);
            return true;
        }
        false
    }

    /// Start sliding right.
    pub fn accelerate(&mut self)
        requires
            old(self).wf(),
            old(self).solid.vel.vx + SPACESHIP_SPEED <= RANGE,
        ensures
            final(self).solid.vel.vx == old(self).solid.vel.vx + SPACESHIP_SPEED,
            *final(self) == (Spaceship {
                solid: RectSolid {
                    vel: Velocity { vx: final(self).solid.vel.vx, ..old(self).solid.vel },
                    ..old(self).solid
                },
                ..*old(self)
            }),
            final(self).wf(),
    {
        let pv = self.solid.vel.copy();
        self.solid.vel.set_vx(pv.vx() + SPACESHIP_SPEED);
    }

    /// Stop sliding right (or start sliding left).
    pub fn decelerate(&mut self)
        requires
            old(self).wf(),
            old(self).solid.vel.vx - SPACESHIP_SPEED >= -RANGE,
        ensures
            final(self).solid.vel.vx == old(self).solid.vel.vx - SPACESHIP_SPEED,
            *final(self) == (Spaceship {
                solid: RectSolid {
                    vel: Velocity { vx: final(self).solid.vel.vx, ..old(self).solid.vel },
                    ..old(self).solid
                },
                ..*old(self)
            }),
            final(self).wf(),
    {
        let pv = self.solid.vel.copy();
        self.solid.vel.set_vx(pv.vx() - SPACESHIP_SPEED);
    }

    /// Advance the ship and its missile.
    pub fn update(&mut self, dt: i64)
        requires
            old(self).wf(),
            in_range(dt),
        ensures
            final(self).solid == old(self).solid.stepped(dt),
            final(self).missile.is_destroyed == old(self).missile.is_destroyed,
            old(self).missile.is_destroyed ==> final(self).missile == old(self).missile,
            !old(self).missile.is_destroyed ==> final(self).missile.solid == old(
                self,
            ).missile.solid.stepped(dt),
            final(self).is_destroyed == old(self).is_destroyed,
            final(self).delay_since_explosion == old(self).delay_since_explosion,
            final(self).wf(),
            final(self).solid.settled(),
    {
        self.solid.update(dt);
        self.missile.update(dt);
    }
}

impl AsRect for Spaceship {
    open spec fn rect_req(&self) -> bool {
        true
    }

    open spec fn rect_spec(&self) -> Rect {
        Rect { x: self.solid.pos.x, y: self.solid.pos.y, w: self.solid.w, h: self.solid.h }
    }

    fn as_rect(&self) -> (r: Rect) {
        Rect::new(self.solid.pos.x, self.solid.pos.y, self.solid.w, self.solid.h)
    }
}

/// All entities of one running game.
pub struct Logic {
    pub spaceship: Spaceship,
    pub is_over: bool,
}

impl Logic {
    pub open spec fn wf(self) -> bool {
        self.spaceship.wf()
    }

    /// A new game.
    pub fn new() -> (l: Logic)
        ensures
            !l.is_over,
            l.spaceship.solid.pos == (Position {
                x: SPACESHIP_STARTING_POSITION_X0,
                y: SPACESHIP_STARTING_POSITION_Y0,
            }),
            l.spaceship.missile.is_destroyed,
            l.wf(),
    {
        Logic { spaceship: Spaceship::new(), is_over: false }
    }

    /// Advance every entity by `dt` ticks.
    pub fn update(&mut self, dt: i64)
        requires
            old(self).wf(),
            in_range(dt),
        ensures
            final(self).spaceship.solid == old(self).spaceship.solid.stepped(dt),
            final(self).spaceship.missile.is_destroyed == old(self).spaceship.missile.is_destroyed,
            old(self).spaceship.missile.is_destroyed ==> final(self).spaceship.missile == old(
                self,
            ).spaceship.missile,
            !old(self).spaceship.missile.is_destroyed ==> final(self).spaceship.missile.solid
                == old(self).spaceship.missile.solid.stepped(dt),
            final(self).spaceship.is_destroyed == old(self).spaceship.is_destroyed,
            final(self).spaceship.delay_since_explosion == old(
                self,
            ).spaceship.delay_since_explosion,
            final(self).is_over == old(self).is_over,
            final(self).wf(),
    {
        self.spaceship.update(dt);
    }

    /// End the game.
    pub fn over(&mut self)
        ensures
            *final(self) == (Logic { is_over: true, ..*old(self) }),
    {
        self.is_over = true;
    }

    pub fn is_over(&self) -> (r: bool)
        ensures
            r == self.is_over,
    {
        self.is_over
    }
}

} // verus!
