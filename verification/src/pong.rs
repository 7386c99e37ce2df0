//! The two-racket game: a ball bouncing between a left and a right racket
//! on the unit board, with a point scored whenever the ball escapes on
//! either side.
//!
//! Trigonometry never happens here: wherever a bounce would take the
//! cosine and sine of an angle, the functions below either compute the
//! angle (exactly, in hundredths of a degree) or accept the resulting unit
//! direction as a [`Dir`] argument.

use vstd::prelude::*;
use crate::angles::{deflection_spec, bounce_deflection, HALF_TURN};
use crate::collide::{collide, overlaps};
use crate::fixed::{in_calc_range, in_ext_range, in_range, RANGE, UNIT};
use crate::geometry::{AsRect, Rect};
use crate::physics::{dir_vel_x, dir_vel_y, lemma_dir_vel_flip, Dir, Position, RectSolid, Velocity};

verus! {

/// Racket height: a tenth of the board.
pub const RACKET_HEIGHT: i64 = 1_000;

/// Racket width: a hundredth of the board.
pub const RACKET_WIDTH: i64 = 100;

/// Distance of each racket from its board edge.
pub const RACKET_SHIFT_X: i64 = 100;

/// Racket speed while a key is held.
pub const RACKET_SPEED: i64 = 7_500;

/// Side length of the square ball.
pub const BALL_DIM: i64 = 100;

/// The ball's scalar speed, which bounces preserve.
pub const BALL_SPEED: i64 = 5_000;

/// Largest deflection a racket imparts, in hundredths of a degree.
pub const BOUNCE_HALF_RANGE: i64 = 7_000;

/// Points needed to win.
pub const SCORE_MAX: u8 = 10;

/// One score per player; the first to reach `max` wins.
#[derive(Clone, Copy, PartialEq, Eq, Structural, Debug)]
pub struct Score {
    pub left: u8,
    pub right: u8,
    pub max: u8,
}

impl Score {
    fn new() -> (s: Score)
        ensures
            s == (Score { left: 0u8, right: 0u8, max: SCORE_MAX }),
    {
        Score { left: 0, right: 0, max: SCORE_MAX }
    }

    pub fn left(&self) -> (r: u8)
        ensures
            r == self.left,
    {
        self.left
    }

    pub fn right(&self) -> (r: u8)
        ensures
            r == self.right,
    {
        self.right
    }

    pub fn point_left(&mut self)
        requires
            old(self).left < 255,
        ensures
            *final(self) == (Score { left: (old(self).left + 1) as u8, ..*old(self) }),
    {
        self.left = self.left + 1;
    }

    pub fn point_right(&mut self)
        requires
            old(self).right < 255,
        ensures
            *final(self) == (Score { right: (old(self).right + 1) as u8, ..*old(self) }),
    {
        self.right = self.right + 1;
    }

    /// The game ends as soon as either player reaches the maximum.
    pub fn is_game_over(&self) -> (r: bool)
        ensures
            r == (self.right >= self.max || self.left >= self.max),
    {
        self.right >= self.max || self.left >= self.max
    }
}

/// A player's racket: a solid clamped to the board.
#[derive(Clone, Copy, PartialEq, Eq, Structural, Debug)]
pub struct Racket {
    pub solid: RectSolid,
}

impl Racket {
    pub open spec fn wf(self) -> bool {
        self.solid.wf()
    }

    fn new(x: i64, y: i64) -> (r: Racket)
        requires
            in_range(x),
            in_range(y),
        ensures
            r.solid.pos == (Position { x, y }),
            r.solid.vel == (Velocity { vx: 0i64, vy: 0i64 }),
            r.solid.w == RACKET_WIDTH,
            r.solid.h == RACKET_HEIGHT,
            r.solid.limit == (Rect { x: 0i64, y: 0i64, w: UNIT, h: UNIT }),
            r.wf(),
    {
        let pos = Position::new(x, y);
        let vel = Velocity::new(0, 0);
        let limit = Rect::new(0, 0, UNIT, UNIT);
        Racket { solid: RectSolid::new(pos, vel, RACKET_WIDTH, RACKET_HEIGHT, limit) }
    }

    fn update(&mut self, dt: i64)
        requires
            old(self).wf(),
            in_range(dt),
        ensures
            final(self).solid == old(self).solid.stepped(dt),
            final(self).wf(),
            final(self).solid.settled(),
    {
        self.solid.update(dt);
    }

    /// Start moving down the board.
    pub fn accelerate(&mut self)
        requires
            old(self).wf(),
            old(self).solid.vel.vy + RACKET_SPEED <= RANGE,
        ensures
            final(self).solid.vel.vy == old(self).solid.vel.vy + RACKET_SPEED,
            final(self).solid == (RectSolid {
                vel: Velocity { vy: final(self).solid.vel.vy, ..old(self).solid.vel },
                ..old(self).solid
            }),
            final(self).wf(),
    {
        let pv = self.solid.vel.copy();
        self.solid.vel.set_vy(pv.vy() + RACKET_SPEED);
    }

    /// Stop moving down the board (or start moving up).
    pub fn decelerate(&mut self)
        requires
            old(self).wf(),
            old(self).solid.vel.vy - RACKET_SPEED >= -RANGE,
        ensures
            final(self).solid.vel.vy == old(self).solid.vel.vy - RACKET_SPEED,
            final(self).solid == (RectSolid {
                vel: Velocity { vy: final(self).solid.vel.vy, ..old(self).solid.vel },
                ..old(self).solid
            }),
            final(self).wf(),
    {
        let pv = self.solid.vel.copy();
        self.solid.vel.set_vy(pv.vy() - RACKET_SPEED);
    }

    /// The angle a ball leaving this racket flies at, given the contact
    /// point `(x, y)`; see [`bounce_angle_spec`].
    pub fn get_bounce_angle(&self, x: i64, y: i64) -> (a: i64)
        requires
            self.wf(),
            self.solid.settled(),
            in_calc_range(x as int),
            in_calc_range(y as int),
        ensures
            a == bounce_angle_spec(*self, x as int, y as int),
    {
        let d = bounce_deflection(y, self.solid.pos.y, RACKET_HEIGHT, BOUNCE_HALF_RANGE);
        if x > UNIT / 2 {
            HALF_TURN - d
        } else {
            d
        }
    }
}

/// The angle a ball leaving a racket flies at, given the contact point
/// `(x, y)`: a linear ramp over the racket's vertical span, with zero
/// deflection (straight back) at the centre.  A contact on the right half
/// of the board belongs to the right racket, which sends the ball
/// leftwards: its angle is the mirror image through the vertical.
pub open spec fn bounce_angle_spec(r: Racket, x: int, y: int) -> int {
    let d = deflection_spec(
        y,
        r.solid.pos.y as int,
        RACKET_HEIGHT as int,
        BOUNCE_HALF_RANGE as int,
    );
    if x > UNIT / 2 {
        HALF_TURN - d
    } else {
        d
    }
}

/// The pinned points of the racket's bounce ramp: a contact at the exact
/// centre of the racket leaves at the straight-back baseline (zero for a
/// racket on the left half, a half turn for one on the right), and a
/// contact at either extremity is deflected by exactly the configured
/// half-range.
pub proof fn lemma_bounce_angle_extremes(r: Racket, x: int)
    ensures
        bounce_angle_spec(r, x, r.solid.pos.y + RACKET_HEIGHT / 2) == if x > UNIT / 2 {
            HALF_TURN as int
        } else {
            0
        },
        bounce_angle_spec(r, x, r.solid.pos.y as int) == if x > UNIT / 2 {
            HALF_TURN + BOUNCE_HALF_RANGE
        } else {
            -BOUNCE_HALF_RANGE as int
        },
        bounce_angle_spec(r, x, r.solid.pos.y + RACKET_HEIGHT) == if x > UNIT / 2 {
            HALF_TURN - BOUNCE_HALF_RANGE
        } else {
            BOUNCE_HALF_RANGE as int
        },
{
    crate::angles::lemma_deflection_extremes(
        r.solid.pos.y as int,
        RACKET_HEIGHT as int,
        BOUNCE_HALF_RANGE as int,
    );
}

impl AsRect for Racket {
    open spec fn rect_req(&self) -> bool {
        true
    }

    open spec fn rect_spec(&self) -> Rect {
        Rect { x: self.solid.pos.x, y: self.solid.pos.y, w: self.solid.w, h: self.solid.h }
    }

    fn as_rect(&self) -> (r: Rect) {
        Rect::new(self.solid.pos.x, self.solid.pos.y, self.solid.w, self.solid.h)
    }
}

/// The ball: a solid whose velocity is kept in polar form, a scalar speed
/// and a unit direction, so that a bounce can change the direction while
/// leaving the speed untouched.  The cartesian velocity inside `solid` is
/// always the projection of that pair.
#[derive(Clone, Copy, PartialEq, Eq, Structural, Debug)]
pub struct Ball {
    pub solid: RectSolid,
    pub speed: i64,
    pub dir: Dir,
}

impl Ball {
    pub open spec fn wf(self) -> bool {
        &&& self.solid.wf()
        &&& 0 <= self.speed <= RANGE
        &&& self.dir.wf()
        &&& self.solid.vel.vx == dir_vel_x(self.speed as int, self.dir)
        &&& self.solid.vel.vy == dir_vel_y(self.speed as int, self.dir)
    }

    /// A fresh ball at `(x, y)` flying in direction `dir` at the standard
    /// speed, free to leave the board on the left and right.
    pub fn new(x: i64, y: i64, dir: Dir) -> (b: Ball)
        requires
            in_range(x),
            in_range(y),
            dir.wf(),
        ensures
            b.solid.pos == (Position { x, y }),
            b.speed == BALL_SPEED,
            b.dir == dir,
            b.solid.w == BALL_DIM,
            b.solid.h == BALL_DIM,
            b.solid.limit == (Rect { x: -1_000i64, y: 0i64, w: 12_000i64, h: 11_000i64 }),
            b.wf(),
    {
        let pos = Position::new(x, y);
        let vel = dir.velocity(BALL_SPEED);
        let limit = Rect::new(-1_000, 0, 12_000, 11_000);
        Ball { solid: RectSolid::new(pos, vel, BALL_DIM, BALL_DIM, limit), speed: BALL_SPEED, dir }
    }

    fn update(&mut self, dt: i64)
        requires
            old(self).wf(),
            in_range(dt),
        ensures
            final(self).solid == old(self).solid.stepped(dt),
            final(self).speed == old(self).speed,
            final(self).dir == old(self).dir,
            final(self).wf(),
            final(self).solid.settled(),
    {
        self.solid.update(dt);
    }

    /// The ball after a wall reflection at height `y0`: repositioned to the
    /// wall's inner edge, vertical velocity component negated.
    pub open spec fn reflect_spec(self, y0: i64) -> Ball {
        Ball {
            solid: RectSolid {
                pos: Position { y: y0, ..self.solid.pos },
                vel: Velocity { vy: (-self.solid.vel.vy) as i64, ..self.solid.vel },
                ..self.solid
            },
            dir: Dir { y: (-self.dir.y) as i64, ..self.dir },
            ..self
        }
    }

    /// Reflect off a horizontal wall: snap to the wall's known coordinate
    /// (not to the overlap, to avoid jitter) and invert the vertical
    /// velocity.  The speed is untouched.
    pub fn reflect(&mut self, y0: i64)
        requires
            old(self).wf(),
            in_range(y0),
        ensures
            *final(self) == old(self).reflect_spec(y0),
            final(self).speed == old(self).speed,
            final(self).wf(),
    {
        proof {
            lemma_dir_vel_flip(self.speed as int, self.dir);
        }
        self.solid.pos.set_y(y0);
        let vy = self.solid.vel.vy();
        self.solid.vel.set_vy(-vy);
        self.dir = Dir::new(self.dir.x, -self.dir.y);
    }

    /// The ball after an angle bounce: shifted clear of the paddle on the
    /// x axis and flying in the new direction at the old speed.
    pub open spec fn bounce_spec(self, dir: Dir, x_shift: i64) -> Ball {
        Ball {
            solid: RectSolid {
                pos: Position { x: (self.solid.pos.x + x_shift) as i64, ..self.solid.pos },
                vel: Velocity {
                    vx: dir_vel_x(self.speed as int, dir) as i64,
                    vy: dir_vel_y(self.speed as int, dir) as i64,
                },
                ..self.solid
            },
            dir,
            ..self
        }
    }

    /// Bounce at a new direction: the embedder computed `dir` from the
    /// angle this module reported.  Only the direction changes; the scalar
    /// speed is preserved exactly.
    pub fn bounce(&mut self, dir: Dir, x_shift: i64)
        requires
            old(self).wf(),
            dir.wf(),
            in_range(x_shift),
            in_ext_range(old(self).solid.pos.x + x_shift),
        ensures
            *final(self) == old(self).bounce_spec(dir, x_shift),
            final(self).speed == old(self).speed,
            final(self).wf(),
    {
        let x = self.solid.pos.x();
        self.solid.pos.set_x(x + x_shift);
        let vel = dir.velocity(self.speed);
        self.solid.vel = vel;
        self.dir = dir;
    }
}

impl AsRect for Ball {
    open spec fn rect_req(&self) -> bool {
        true
    }

    open spec fn rect_spec(&self) -> Rect {
        Rect { x: self.solid.pos.x, y: self.solid.pos.y, w: self.solid.w, h: self.solid.h }
    }

    fn as_rect(&self) -> (r: Rect) {
        Rect::new(self.solid.pos.x, self.solid.pos.y, self.solid.w, self.solid.h)
    }
}

/// Speed preservation of the angle bounce: a bounce rewrites only the
/// direction, so the scalar speed carries over exactly; and whenever the
/// old and the new direction are both exactly unit length, the squared
/// magnitude of the velocity, measured in fine units of grid steps times
/// `UNIT`, is the same before and after the bounce.
pub proof fn lemma_bounce_preserves_speed(b: Ball, dir: Dir, x_shift: i64)
    requires
        b.dir.x * b.dir.x + b.dir.y * b.dir.y == UNIT * UNIT,
        dir.x * dir.x + dir.y * dir.y == UNIT * UNIT,
    ensures
        b.bounce_spec(dir, x_shift).speed == b.speed,
        b.bounce_spec(dir, x_shift).dir == dir,
        (b.speed * b.dir.x) * (b.speed * b.dir.x) + (b.speed * b.dir.y) * (b.speed * b.dir.y) == (
        b.speed * dir.x) * (b.speed * dir.x) + (b.speed * dir.y) * (b.speed * dir.y),
{
    crate::physics::lemma_unit_dir_speed_sq(b.speed as int, b.dir);
    crate::physics::lemma_unit_dir_speed_sq(b.speed as int, dir);
}

/// Which player a goal was scored for.
#[derive(Clone, Copy, PartialEq, Eq, Structural, Debug)]
pub enum ScoredSide {
    Left,
    Right,
}

/// All entities of one running game.
pub struct Logic {
    pub left_racket: Racket,
    pub right_racket: Racket,
    pub ball: Ball,
    pub score: Score,
    pub is_over: bool,
}

impl Logic {
    pub open spec fn wf(self) -> bool {
        &&& self.left_racket.wf()
        &&& self.right_racket.wf()
        &&& self.ball.wf()
    }

    /// The centre position a fresh ball is served from.
    pub open spec fn serve_pos() -> Position {
        Position { x: (UNIT / 2 - BALL_DIM / 2) as i64, y: (UNIT / 2 - BALL_DIM / 2) as i64 }
    }

    /// A new game: rackets at mid-height near their edges, ball in the
    /// centre flying in the serve direction the embedder drew.
    pub fn new(serve_dir: Dir) -> (l: Logic)
        requires
            serve_dir.wf(),
        ensures
            l.left_racket.solid.pos == (Position {
                x: RACKET_SHIFT_X,
                y: (UNIT / 2 - RACKET_HEIGHT / 2) as i64,
            }),
            l.right_racket.solid.pos == (Position {
                x: (UNIT - RACKET_WIDTH - RACKET_SHIFT_X) as i64,
                y: (UNIT / 2 - RACKET_HEIGHT / 2) as i64,
            }),
            l.ball.solid.pos == Logic::serve_pos(),
            l.ball.dir == serve_dir,
            l.score == (Score { left: 0u8, right: 0u8, max: SCORE_MAX }),
            !l.is_over,
            l.wf(),
    {
        Logic {
            left_racket: Racket::new(RACKET_SHIFT_X, UNIT / 2 - RACKET_HEIGHT / 2),
            right_racket: Racket::new(UNIT - RACKET_WIDTH - RACKET_SHIFT_X, UNIT / 2 - RACKET_HEIGHT / 2),
            ball: Ball::new(UNIT / 2 - BALL_DIM / 2, UNIT / 2 - BALL_DIM / 2, serve_dir),
            score: Score::new(),
            is_over: false,
        }
    }

    /// Did the stepped ball leave the board, and past which racket?
    /// The test is on the ball's horizontal centre.
    pub open spec fn goal_of(ball: Ball) -> Option<ScoredSide> {
        let xc = ball.rect_spec().x_mid();
        if xc < 0 {
            Some(ScoredSide::Right)
        } else if xc > UNIT {
            Some(ScoredSide::Left)
        } else {
            None
        }
    }

    /// Advance every entity by `dt` ticks, then settle a goal if the ball
    /// escaped: the passed player scores, the game may end, and a fresh
    /// ball is served in `serve_dir`.  Returns who scored, so the embedder
    /// can play its cue.
    pub fn update(&mut self, dt: i64, serve_dir: Dir) -> (goal: Option<ScoredSide>)
        requires
            old(self).wf(),
            in_range(dt),
            serve_dir.wf(),
            old(self).score.left < 255,
            old(self).score.right < 255,
        ensures
            final(self).left_racket.solid == old(self).left_racket.solid.stepped(dt),
            final(self).right_racket.solid == old(self).right_racket.solid.stepped(dt),
            goal == Logic::goal_of(
                Ball { solid: old(self).ball.solid.stepped(dt), ..old(self).ball },
            ),
            goal is None ==> {
                &&& final(self).ball == (Ball {
                    solid: old(self).ball.solid.stepped(dt),
                    ..old(self).ball
                })
                &&& final(self).score == old(self).score
                &&& final(self).is_over == old(self).is_over
            },
            goal is Some ==> {
                &&& final(self).ball.solid.pos == Logic::serve_pos()
                &&& final(self).ball.dir == serve_dir
                &&& final(self).ball.speed == BALL_SPEED
                &&& final(self).score == if goal == Some(ScoredSide::Left) {
                    Score { left: (old(self).score.left + 1) as u8, ..old(self).score }
                } else {
                    Score { right: (old(self).score.right + 1) as u8, ..old(self).score }
                }
                &&& final(self).is_over == (old(self).is_over || final(self).score.left
                    >= final(self).score.max || final(self).score.right >= final(self).score.max)
            },
            final(self).wf(),
    {
        self.left_racket.update(dt);
        self.right_racket.update(dt);
        self.ball.update(dt);
        self.update_score(serve_dir)
    }

    /// Check for a goal on the current ball and settle it.
    fn update_score(&mut self, serve_dir: Dir) -> (goal: Option<ScoredSide>)
        requires
            old(self).wf(),
            old(self).ball.solid.settled(),
            serve_dir.wf(),
            old(self).score.left < 255,
            old(self).score.right < 255,
        ensures
            goal == Logic::goal_of(old(self).ball),
            final(self).left_racket == old(self).left_racket,
            final(self).right_racket == old(self).right_racket,
            goal is None ==> *final(self) == *old(self),
            goal is Some ==> {
                &&& final(self).ball.solid.pos == Logic::serve_pos()
                &&& final(self).ball.dir == serve_dir
                &&& final(self).ball.speed == BALL_SPEED
                &&& final(self).score == if goal == Some(ScoredSide::Left) {
                    Score { left: (old(self).score.left + 1) as u8, ..old(self).score }
                } else {
                    Score { right: (old(self).score.right + 1) as u8, ..old(self).score }
                }
                &&& final(self).is_over == (old(self).is_over || final(self).score.left
                    >= final(self).score.max || final(self).score.right >= final(self).score.max)
            },
            final(self).wf(),
    {
        let ball_rect = self.ball.as_rect();
        let x = ball_rect.xc();
        if x < 0 || x > UNIT {
            let goal: ScoredSide;
            if x < 0 {
                self.score.point_right();
                goal = ScoredSide::Right;
            } else {
                self.score.point_left();
                goal = ScoredSide::Left;
            }
            if self.score.is_game_over() {
                self.is_over = true;
            }
            self.ball = Ball::new(UNIT / 2 - BALL_DIM / 2, UNIT / 2 - BALL_DIM / 2, serve_dir);
            Some(goal)
        } else {
            None
        }
    }

    /// End the game.
    pub fn over(&mut self)
        ensures
            final(self).is_over,
            final(self).left_racket == old(self).left_racket,
            final(self).right_racket == old(self).right_racket,
            final(self).ball == old(self).ball,
            final(self).score == old(self).score,
    {
        self.is_over = true;
    }

    pub fn is_over(&self) -> (r: bool)
        ensures
            r == self.is_over,
    {
        self.is_over
    }
}

/// Draw a serve angle: up to 35 degrees off the horizontal, towards a
/// random side of the board.
pub fn serve_angle() -> (a: i64)
    ensures
        -3_500 <= a <= 3_400 || 14_500 <= a <= 21_400,
{
    let r = crate::random::rand(-35, 35);
    let mut angle: i64 = r as i64 * 100;
    if crate::random::flip() {
        angle = angle + HALF_TURN;
    }
    angle
}

/// The bottom wall: a zero-height strip along `y == 0`.
pub open spec fn bottom_wall() -> Rect {
    Rect { x: 0i64, y: 0i64, w: UNIT, h: 0i64 }
}

/// The top wall: a zero-height strip along `y == UNIT`.
pub open spec fn top_wall() -> Rect {
    Rect { x: 0i64, y: UNIT, w: UNIT, h: 0i64 }
}

/// A racket contact the embedder must answer with a direction: the bounce
/// angle this module computed and the x shift that frees the ball.
#[derive(Clone, Copy, PartialEq, Eq, Structural, Debug)]
pub struct RacketContact {
    pub angle: i64,
    pub x_shift: i64,
}

/// The collision pass of one frame.
pub struct Collide {}

impl Collide {
    pub fn new() -> (c: Collide) {
        Collide {  }
    }

    /// Bounce the ball off the bottom and top walls.  Both tests use the
    /// ball rectangle from the start of the pass, as the per-frame pass
    /// order prescribes.  Returns whether a wall was hit.
    pub fn collide_ball_and_wall(&mut self, logic: &mut Logic) -> (bounced: bool)
        requires
            old(logic).wf(),
            old(logic).ball.solid.settled(),
        ensures
            ({
                let br = old(logic).ball.rect_spec();
                let hit_bottom = overlaps(br, bottom_wall());
                let hit_top = overlaps(br, top_wall());
                let after_bottom = if hit_bottom {
                    old(logic).ball.reflect_spec(0)
                } else {
                    old(logic).ball
                };
                let after_top = if hit_top {
                    after_bottom.reflect_spec((UNIT - BALL_DIM) as i64)
                } else {
                    after_bottom
                };
                &&& bounced == (hit_bottom || hit_top)
                &&& final(logic).ball == after_top
            }),
            final(logic).left_racket == old(logic).left_racket,
            final(logic).right_racket == old(logic).right_racket,
            final(logic).score == old(logic).score,
            final(logic).is_over == old(logic).is_over,
            final(logic).wf(),
    {
        let mut bounced = false;
        let ball_rect = logic.ball.as_rect();
        let bottom_wall_rect = Rect::from_2_points(0, 0, UNIT, 0);
        match collide(&ball_rect, &bottom_wall_rect) {
            Some(_rect) => {
                logic.ball.reflect(0);
                bounced = true;
            },
            None => (),
        }

        let top_wall_rect = Rect::from_2_points(0, UNIT, UNIT, UNIT);
        match collide(&ball_rect, &top_wall_rect) {
            Some(_rect) => {
                logic.ball.reflect(UNIT - BALL_DIM);
                bounced = true;
            },
            None => (),
        }
        bounced
    }

    /// Test the ball against both rackets and report the contact, if any:
    /// the bounce angle and the x shift that moves the ball off the
    /// racket.  A contact on the right racket wins if both somehow touch.
    /// The embedder turns the angle into a direction and hands it to
    /// [`Collide::apply_racket_bounce`].
    pub fn collide_ball_and_racket(&mut self, logic: &Logic) -> (contact: Option<RacketContact>)
        requires
            logic.wf(),
            logic.ball.solid.settled(),
            logic.left_racket.solid.settled(),
            logic.right_racket.solid.settled(),
        ensures
            ({
                let br = logic.ball.rect_spec();
                let lr = logic.left_racket.rect_spec();
                let rr = logic.right_racket.rect_spec();
                if overlaps(br, rr) {
                    let ov = crate::collide::overlap_rect(br, rr);
                    contact == Some(RacketContact {
                        angle: bounce_angle_spec(
                            logic.right_racket,
                            ov.x_mid(),
                            ov.y_mid(),
                        ) as i64,
                        x_shift: (-ov.w) as i64,
                    })
                } else if overlaps(br, lr) {
                    let ov = crate::collide::overlap_rect(br, lr);
                    contact == Some(RacketContact {
                        angle: bounce_angle_spec(
                            logic.left_racket,
                            ov.x_mid(),
                            ov.y_mid(),
                        ) as i64,
                        x_shift: ov.w,
                    })
                } else {
                    contact is None
                }
            }),
    {
        let ball_rect = logic.ball.as_rect();
        let left_racket = logic.left_racket.as_rect();
        let right_racket = logic.right_racket.as_rect();

        let mut contact: Option<RacketContact> = None;

        match collide(&ball_rect, &left_racket) {
            Some(rect) => {
                let angle = logic.left_racket.get_bounce_angle(rect.xc(), rect.yc());
                contact = Some(RacketContact { angle, x_shift: rect.w() });
            },
            None => (),
        }

        match collide(&ball_rect, &right_racket) {
            Some(rect) => {
                let angle = logic.right_racket.get_bounce_angle(rect.xc(), rect.yc());
                contact = Some(RacketContact { angle, x_shift: -rect.w() });
            },
            None => (),
        }

        contact
    }

    /// Apply a racket bounce with the direction the embedder computed for
    /// the reported angle.
    pub fn apply_racket_bounce(
        &mut self,
        logic: &mut Logic,
        contact: &RacketContact,
        dir: Dir,
    )
        requires
            old(logic).wf(),
            dir.wf(),
            in_range(contact.x_shift),
            in_ext_range(old(logic).ball.solid.pos.x + contact.x_shift),
        ensures
            final(logic).ball == old(logic).ball.bounce_spec(dir, contact.x_shift),
            final(logic).ball.speed == old(logic).ball.speed,
            final(logic).left_racket == old(logic).left_racket,
            final(logic).right_racket == old(logic).right_racket,
            final(logic).score == old(logic).score,
            final(logic).is_over == old(logic).is_over,
            final(logic).wf(),
    {
        logic.ball.bounce(dir, contact.x_shift);
    }
}

} // verus!
