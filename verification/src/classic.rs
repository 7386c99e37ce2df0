//! The minimal two-racket game, the oldest layer of the engine: rackets
//! and ball carry their coordinates directly, the ball reflects off the
//! top and bottom edges inside its own update, and racket contact is
//! detected with a swept test — the ball must have crossed the racket's
//! plane between the previous frame and this one — rather than a
//! rectangle overlap.

use vstd::prelude::*;
use crate::angles::deflection_spec;
use crate::fixed::{in_calc_range, in_drift_range, in_pos_range, in_range, scale, tdiv, RANGE, UNIT};
use crate::physics::{Dir, dir_vel_x, dir_vel_y};

verus! {

/// Racket height: a tenth of the board.
pub const RACKET_HEIGHT: i64 = 1_000;

/// Racket width: a hundredth of the board.
pub const RACKET_WIDTH: i64 = 100;

/// Distance of each racket from its board edge.
pub const RACKET_SHIFT_X: i64 = 100;

/// Side length of the square ball.
pub const BALL_DIM: i64 = 100;

/// The ball's scalar speed: every serve and every racket bounce sets the
/// velocity to this magnitude times a unit direction.
pub const BALL_SPEED: i64 = 5_000;

/// Racket speed while a key is held.
pub const RACKET_SPEED: i64 = 7_500;

/// Largest deflection a racket imparts, in hundredths of a degree.
pub const BOUNCE_HALF_RANGE: i64 = 7_000;

/// One score per player.
#[derive(Clone, Copy, PartialEq, Eq, Structural, Debug)]
pub struct Score {
    pub left: u8,
    pub right: u8,
}

impl Score {
    fn new() -> (s: Score)
        ensures
            s == (Score { left: 0u8, right: 0u8 }),
    {
        Score { left: 0, right: 0 }
    }

    pub fn left(&self) -> (r: u8)
        ensures
            r == self.left,
    {
        self.left
    }

    pub fn right(&self) -> (r: u8)
        ensures
            r == self.right,
    {
        self.right
    }

    pub fn point_left(&mut self)
        requires
            old(self).left < 255,
        ensures
            *final(self) == (Score { left: (old(self).left + 1) as u8, ..*old(self) }),
    {
        self.left = self.left + 1;
    }

    pub fn point_right(&mut self)
        requires
            old(self).right < 255,
        ensures
            *final(self) == (Score { right: (old(self).right + 1) as u8, ..*old(self) }),
    {
        self.right = self.right + 1;
    }
}

/// A player's racket: a fixed column, a height, a vertical speed.
#[derive(Clone, Copy, PartialEq, Eq, Structural, Debug)]
pub struct Racket {
    pub x: i64,
    pub y: i64,
    pub vy: i64,
}

impl Racket {
    pub open spec fn wf(self) -> bool {
        in_range(self.vy) && in_pos_range(self.y as int)
    }

    fn new(x: i64, y: i64) -> (r: Racket)
        requires
            in_range(y),
        ensures
            r == (Racket { x, y, vy: 0i64 }),
    {
        Racket { x, y, vy: 0 }
    }

    /// The racket after one frame: moved by `vy * dt / UNIT`, then clamped
    /// to the board.
    pub open spec fn stepped(self, dt: i64) -> Racket {
        let my = self.y + tdiv(self.vy as int * dt as int, UNIT as int);
        let ny = if my < 0 {
            0
        } else if my + RACKET_HEIGHT > UNIT {
            UNIT - RACKET_HEIGHT
        } else {
            my
        };
        Racket { y: ny as i64, ..self }
    }

    fn update(&mut self, dt: i64)
        requires
            old(self).wf(),
            in_drift_range(old(self).y as int),
            in_range(dt),
        ensures
            *final(self) == old(self).stepped(dt),
            final(self).wf(),
            in_range(final(self).y),
    {
        self.y = self.y + scale(self.vy, dt);
        if self.y < 0 {
            self.y = 0;
        } else if self.y + RACKET_HEIGHT > UNIT {
            self.y = UNIT - RACKET_HEIGHT;
        }
    }

    pub fn y(&self) -> (r: i64)
        ensures
            r == self.y,
    {
        self.y
    }

    /// Start moving down the board.
    pub fn accelerate(&mut self)
        requires
            old(self).vy + RACKET_SPEED <= RANGE,
        ensures
            *final(self) == (Racket { vy: (old(self).vy + RACKET_SPEED) as i64, ..*old(self) }),
    {
        self.vy = self.vy + RACKET_SPEED;
    }

    /// Stop moving down the board (or start moving up).
    pub fn decelerate(&mut self)
        requires
            old(self).vy - RACKET_SPEED >= -RANGE,
        ensures
            *final(self) == (Racket { vy: (old(self).vy - RACKET_SPEED) as i64, ..*old(self) }),
    {
        self.vy = self.vy - RACKET_SPEED;
    }
}

/// The ball: plain coordinates and velocity components.
#[derive(Clone, Copy, PartialEq, Eq, Structural, Debug)]
pub struct Ball {
    pub x: i64,
    pub y: i64,
    pub vx: i64,
    pub vy: i64,
}

impl Ball {
    pub open spec fn wf(self) -> bool {
        &&& in_range(self.vx)
        &&& in_range(self.vy)
        &&& in_pos_range(self.x as int)
        &&& in_pos_range(self.y as int)
    }

    /// A fresh ball at `(x, y)` flying at the standard speed in `dir`.
    fn new(x: i64, y: i64, dir: Dir) -> (b: Ball)
        requires
            in_range(x),
            in_range(y),
            dir.wf(),
        ensures
            b.x == x,
            b.y == y,
            b.vx == dir_vel_x(BALL_SPEED as int, dir),
            b.vy == dir_vel_y(BALL_SPEED as int, dir),
            b.wf(),
    {
        let vx = scale(BALL_SPEED, dir.x);
        let vy = scale(BALL_SPEED, dir.y);
        proof {
            crate::physics::lemma_dir_vel_in_range(BALL_SPEED as int, dir);
        }
        Ball { x, y, vx, vy }
    }

    /// The ball after one frame: moved by its velocity; the vertical
    /// velocity flips when the ball finds itself beyond the top or bottom
    /// edge.  (The position is not corrected here; the flip brings it back
    /// over the following frames.)
    pub open spec fn stepped(self, dt: i64) -> Ball {
        let ny = self.y + tdiv(self.vy as int * dt as int, UNIT as int);
        let nx = self.x + tdiv(self.vx as int * dt as int, UNIT as int);
        let nvy = if ny < 0 || ny + BALL_DIM > UNIT {
            (-self.vy) as i64
        } else {
            self.vy
        };
        Ball { x: nx as i64, y: ny as i64, vy: nvy, ..self }
    }

    fn update(&mut self, dt: i64)
        requires
            old(self).wf(),
            in_drift_range(old(self).x as int),
            in_drift_range(old(self).y as int),
            in_range(dt),
        ensures
            *final(self) == old(self).stepped(dt),
            final(self).wf(),
    {
        self.y = self.y + scale(self.vy, dt);
        self.x = self.x + scale(self.vx, dt);

        if self.y < 0 || self.y + BALL_DIM > UNIT {
            self.vy = -self.vy;
        }
    }

    pub fn x(&self) -> (r: i64)
        ensures
            r == self.x,
    {
        self.x
    }

    pub fn y(&self) -> (r: i64)
        ensures
            r == self.y,
    {
        self.y
    }

    pub fn vx(&self) -> (r: i64)
        ensures
            r == self.vx,
    {
        self.vx
    }

    /// The scalar speed every serve and bounce restores.
    pub fn v(&self) -> (r: i64)
        ensures
            r == BALL_SPEED,
    {
        BALL_SPEED
    }

    pub fn set_vx(&mut self, vx: i64)
        requires
            in_range(vx),
        ensures
            *final(self) == (Ball { vx, ..*old(self) }),
    {
        self.vx = vx;
    }

    pub fn set_vy(&mut self, vy: i64)
        requires
            in_range(vy),
        ensures
            *final(self) == (Ball { vy, ..*old(self) }),
    {
        self.vy = vy;
    }
}

/// All entities of one running game.
pub struct Logic {
    pub left_racket: Racket,
    pub right_racket: Racket,
    pub ball: Ball,
    pub score: Score,
    pub is_over: bool,
}

/// Which player a goal was scored for.
#[derive(Clone, Copy, PartialEq, Eq, Structural, Debug)]
pub enum Scorer {
    Left,
    Right,
}

impl Logic {
    pub open spec fn wf(self) -> bool {
        self.left_racket.wf() && self.right_racket.wf() && self.ball.wf()
    }

    /// The centre position a fresh ball is served from.
    pub open spec fn serve_x() -> int {
        UNIT / 2 - BALL_DIM / 2
    }

    /// A new game: rackets at mid-height, ball in the centre flying in the
    /// serve direction the embedder drew.
    pub fn new(serve_dir: Dir) -> (l: Logic)
        requires
            serve_dir.wf(),
        ensures
            l.left_racket == (Racket {
                x: RACKET_SHIFT_X,
                y: (UNIT / 2 - RACKET_HEIGHT / 2) as i64,
                vy: 0i64,
            }),
            l.right_racket == (Racket {
                x: (UNIT - RACKET_WIDTH - RACKET_SHIFT_X) as i64,
                y: (UNIT / 2 - RACKET_HEIGHT / 2) as i64,
                vy: 0i64,
            }),
            l.ball.x == Logic::serve_x(),
            l.ball.y == Logic::serve_x(),
            l.ball.vx == dir_vel_x(BALL_SPEED as int, serve_dir),
            l.ball.vy == dir_vel_y(BALL_SPEED as int, serve_dir),
            l.score == (Score { left: 0u8, right: 0u8 }),
            !l.is_over,
            l.wf(),
    {
        Logic {
            left_racket: Racket::new(RACKET_SHIFT_X, UNIT / 2 - RACKET_HEIGHT / 2),
            right_racket: Racket::new(UNIT - RACKET_WIDTH - RACKET_SHIFT_X, UNIT / 2 - RACKET_HEIGHT / 2),
            ball: Ball::new(UNIT / 2 - BALL_DIM / 2, UNIT / 2 - BALL_DIM / 2, serve_dir),
            score: Score::new(),
            is_over: false,
        }
    }

    /// Advance every entity by `dt` ticks, then settle a goal if the ball
    /// escaped on either side: the passed player scores and a fresh ball
    /// is served in `serve_dir`.
    pub fn update(&mut self, dt: i64, serve_dir: Dir) -> (goal: Option<Scorer>)
        requires
            old(self).wf(),
            in_drift_range(old(self).ball.x as int),
            in_drift_range(old(self).ball.y as int),
            in_drift_range(old(self).left_racket.y as int),
            in_drift_range(old(self).right_racket.y as int),
            in_range(dt),
            serve_dir.wf(),
            old(self).score.left < 255,
            old(self).score.right < 255,
        ensures
            final(self).left_racket == old(self).left_racket.stepped(dt),
            final(self).right_racket == old(self).right_racket.stepped(dt),
            final(self).is_over == old(self).is_over,
            ({
                let moved = old(self).ball.stepped(dt);
                &&& goal == if moved.x < 0 {
                    Some(Scorer::Right)
                } else if moved.x > UNIT {
                    Some(Scorer::Left)
                } else {
                    Option::<Scorer>::None
                }
                &&& goal is None ==> final(self).ball == moved && final(self).score == old(
                    self,
                ).score
                &&& goal is Some ==> {
                    &&& final(self).ball.x == Logic::serve_x()
                    &&& final(self).ball.y == Logic::serve_x()
                    &&& final(self).ball.vx == dir_vel_x(BALL_SPEED as int, serve_dir)
                    &&& final(self).ball.vy == dir_vel_y(BALL_SPEED as int, serve_dir)
                    &&& final(self).score == if goal == Some(Scorer::Right) {
                        Score { right: (old(self).score.right + 1) as u8, ..old(self).score }
                    } else {
                        Score { left: (old(self).score.left + 1) as u8, ..old(self).score }
                    }
                }
            }),
            final(self).wf(),
    {
        self.left_racket.update(dt);
        self.right_racket.update(dt);
        self.ball.update(dt);

        if self.ball.x() < 0 || self.ball.x() > UNIT {
            let goal: Scorer;
            if self.ball.x() < 0 {
                self.score.point_right();
                goal = Scorer::Right;
            } else {
                self.score.point_left();
                goal = Scorer::Left;
            }
            self.ball = Ball::new(UNIT / 2 - BALL_DIM / 2, UNIT / 2 - BALL_DIM / 2, serve_dir);
            Some(goal)
        } else {
            None
        }
    }

    pub fn left_racket(&self) -> (r: &Racket)
        ensures
            r == &self.left_racket,
    {
        &self.left_racket
    }

    pub fn right_racket(&self) -> (r: &Racket)
        ensures
            r == &self.right_racket,
    {
        &self.right_racket
    }

    pub fn m_left_racket(&mut self) -> (r: &mut Racket)
        ensures
            *r == old(self).left_racket,
            *final(self) == (Logic { left_racket: *final(r), ..*old(self) }),
    {
        &mut self.left_racket
    }

    pub fn m_right_racket(&mut self) -> (r: &mut Racket)
        ensures
            *r == old(self).right_racket,
            *final(self) == (Logic { right_racket: *final(r), ..*old(self) }),
    {
        &mut self.right_racket
    }

    pub fn ball(&self) -> (b: &Ball)
        ensures
            b == &self.ball,
    {
        &self.ball
    }

    pub fn m_ball(&mut self) -> (b: &mut Ball)
        ensures
            *b == old(self).ball,
            *final(self) == (Logic { ball: *final(b), ..*old(self) }),
    {
        &mut self.ball
    }

    /// End the game.
    pub fn over(&mut self)
        ensures
            *final(self) == (Logic { is_over: true, ..*old(self) }),
    {
        self.is_over = true;
    }

    pub fn is_over(&self) -> (r: bool)
        ensures
            r == self.is_over,
    {
        self.is_over
    }

    pub fn score(&self) -> (s: &Score)
        ensures
            s == &self.score,
    {
        &self.score
    }
}

/// Draw a serve angle that avoids the near-vertical bands, where a rally
/// would never reach a racket: the bands of 70 to 110 and 250 to 290
/// degrees are cut out of the circle and the draw is made over what
/// remains.
pub fn serve_angle() -> (a: i64)
    ensures
        0 <= a < 36_000,
        !(7_000 < a < 11_000),
        !(25_000 < a < 29_000),
{
    let r = crate::random::rand(0, 282) as i64;
    let degrees: i64 = if r <= 70 {
        r
    } else if r <= 211 {
        r + 39
    } else {
        r + 78
    };
    degrees * 100
}

/// Which way the ball flies after a racket contact.
#[derive(Clone, Copy, PartialEq, Eq, Structural, Debug)]
pub enum Travel {
    Left,
    Right,
}

/// A racket contact the embedder must answer with a direction: the bounce
/// angle this module computed, and which way the ball leaves.
#[derive(Clone, Copy, PartialEq, Eq, Structural, Debug)]
pub struct RacketHit {
    pub angle: i64,
    pub travel: Travel,
}

/// Did the ball cross the left racket's plane this frame, inside the
/// racket's vertical span, while flying left?
pub open spec fn hits_left_racket(l: Logic, dt: i64) -> bool {
    let px = l.ball.x - tdiv(l.ball.vx as int * dt as int, UNIT as int);
    &&& l.ball.x <= RACKET_SHIFT_X + RACKET_WIDTH
    &&& px >= RACKET_SHIFT_X + RACKET_WIDTH
    &&& l.ball.y < l.left_racket.y + RACKET_HEIGHT
    &&& l.ball.y + BALL_DIM > l.left_racket.y
    &&& l.ball.vx < 0
}

/// Did the ball cross the right racket's plane this frame, inside the
/// racket's vertical span, while flying right?
pub open spec fn hits_right_racket(l: Logic, dt: i64) -> bool {
    let px = l.ball.x - tdiv(l.ball.vx as int * dt as int, UNIT as int);
    &&& l.ball.x + BALL_DIM >= UNIT - RACKET_SHIFT_X - RACKET_WIDTH
    &&& px + BALL_DIM <= UNIT - RACKET_SHIFT_X - RACKET_WIDTH
    &&& l.ball.y < l.right_racket.y + RACKET_HEIGHT
    &&& l.ball.y + BALL_DIM > l.right_racket.y
    &&& l.ball.vx > 0
}

/// The bounce angle for a contact at ball height `y` on a racket at
/// height `ry`.
pub open spec fn hit_angle(y: int, ry: int) -> int {
    deflection_spec(y, ry, RACKET_HEIGHT as int, BOUNCE_HALF_RANGE as int)
}

/// The collision pass: remembers whether the last pass found a contact.
pub struct Collide {
    pub is_collide: bool,
}

impl Collide {
    pub fn new() -> (c: Collide)
        ensures
            !c.is_collide,
    {
        Collide { is_collide: false }
    }

    pub fn is_collide(&self) -> (r: bool)
        ensures
            r == self.is_collide,
    {
        self.is_collide
    }

    /// The swept racket test: the ball has crossed a racket's plane
    /// between the previous position (reconstructed from the velocity and
    /// `dt`) and the current one, within the racket's span.  Reports the
    /// bounce angle and the travel direction for the embedder to answer
    /// with a unit direction; the right racket wins if both somehow
    /// match.
    pub fn collide(&mut self, logic: &Logic, dt: i64) -> (hit: Option<RacketHit>)
        requires
            logic.wf(),
            in_calc_range(logic.ball.y as int),
            in_calc_range(logic.left_racket.y as int),
            in_calc_range(logic.right_racket.y as int),
            in_range(dt),
        ensures
            hit == if hits_right_racket(*logic, dt) {
                Some(RacketHit {
                    angle: hit_angle(logic.ball.y as int, logic.right_racket.y as int) as i64,
                    travel: Travel::Left,
                })
            } else if hits_left_racket(*logic, dt) {
                Some(RacketHit {
                    angle: hit_angle(logic.ball.y as int, logic.left_racket.y as int) as i64,
                    travel: Travel::Right,
                })
            } else {
                Option::<RacketHit>::None
            },
            final(self).is_collide == (hit is Some),
    {
        self.is_collide = false;

        let ball = logic.ball();
        let left_racket = logic.left_racket();
        let right_racket = logic.right_racket();

        let px = ball.x() - scale(ball.vx(), dt);
        let x = ball.x();
        let y = ball.y();

        let mut hit: Option<RacketHit> = None;

        if x <= RACKET_SHIFT_X + RACKET_WIDTH && px >= RACKET_SHIFT_X + RACKET_WIDTH && y
            < left_racket.y() + RACKET_HEIGHT && y + BALL_DIM > left_racket.y() && ball.vx() < 0 {
            let angle = crate::angles::bounce_deflection(
                y,
                left_racket.y(),
                RACKET_HEIGHT,
                BOUNCE_HALF_RANGE,
            );
            hit = Some(RacketHit { angle, travel: Travel::Right });
        }

        if x + BALL_DIM >= UNIT - RACKET_SHIFT_X - RACKET_WIDTH && px + BALL_DIM <= UNIT
            - RACKET_SHIFT_X - RACKET_WIDTH && y < right_racket.y() + RACKET_HEIGHT && y + BALL_DIM
            > right_racket.y() && ball.vx() > 0 {
            let angle = crate::angles::bounce_deflection(
                y,
                right_racket.y(),
                RACKET_HEIGHT,
                BOUNCE_HALF_RANGE,
            );
            hit = Some(RacketHit { angle, travel: Travel::Left });
        }

        if hit.is_some() {
            self.is_collide = true;
        }
        hit
    }

    /// Apply a racket bounce with the direction the embedder computed for
    /// the reported angle: the ball leaves at the standard speed, flying
    /// towards the side the hit reported.
    pub fn apply(&self, logic: &mut Logic, hit: &RacketHit, dir: Dir)
        requires
            old(logic).wf(),
            dir.wf(),
        ensures
            ({
                let vx = dir_vel_x(BALL_SPEED as int, dir);
                let vy = dir_vel_y(BALL_SPEED as int, dir);
                final(logic).ball == (Ball {
                    vx: if hit.travel == Travel::Left {
                        (-vx) as i64
                    } else {
                        vx as i64
                    },
                    vy: vy as i64,
                    ..old(logic).ball
                })
            }),
            final(logic).left_racket == old(logic).left_racket,
            final(logic).right_racket == old(logic).right_racket,
            final(logic).score == old(logic).score,
            final(logic).is_over == old(logic).is_over,
            final(logic).wf(),
    {
        proof {
            crate::physics::lemma_dir_vel_in_range(BALL_SPEED as int, dir);
        }
        let ball = logic.m_ball();
        let v = ball.v();
        let vx = scale(v, dir.x);
        let vy = scale(v, dir.y);

        ball.set_vx(vx);
        ball.set_vy(vy);
        match hit.travel {
            Travel::Left => {
                let cur = ball.vx();
                ball.set_vx(-cur);
            },
            Travel::Right => (),
        }
    }
}

} // verus!
