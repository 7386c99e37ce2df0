//! The block-breaking game: one racket at the bottom, a wall of blocks at
//! the top, and a ball that destroys blocks on contact.
//!
//! The per-block response axis follows the larger-overlap-dimension
//! heuristic: an overlap wider than tall means the shallow penetration is
//! vertical, so the vertical velocity flips; otherwise the horizontal one
//! does.

use vstd::prelude::*;
use crate::angles::{bounce_deflection, deflection_spec};
use crate::collide::{collide, overlap_rect, overlaps};
use crate::fixed::{in_calc_range, in_ext_range, in_pos_range, in_range, RANGE, UNIT};
use crate::geometry::{AsRect, Rect};
use crate::physics::{dir_vel_x, dir_vel_y, lemma_dir_vel_flip, Dir, Position, RectSolid, Velocity};

verus! {

/// Racket width: wider than tall, it slides along the bottom.
pub const RACKET_WIDTH: i64 = 800;

/// Racket height.
pub const RACKET_HEIGHT: i64 = 200;

/// The racket's fixed height on the board.
pub const RACKET_Y0: i64 = 9_000;

/// Racket speed while a key is held.
pub const RACKET_SPEED: i64 = 7_500;

/// Inner edge of the left board wall.
pub const BOARD_LEFT_LIMIT_X: i64 = 150;

/// Inner edge of the right board wall.
pub const BOARD_RIGHT_LIMIT_X: i64 = 9_850;

/// Inner edge of the top board wall.
pub const BOARD_TOP_LIMIT_Y: i64 = 150;

/// Block width.
pub const BLOCK_WIDTH: i64 = 600;

/// Block height.
pub const BLOCK_HEIGHT: i64 = 150;

/// Horizontal gap between blocks.
pub const BLOCK_STEP_X: i64 = 100;

/// Vertical gap between blocks.
pub const BLOCK_STEP_Y: i64 = 100;

/// Rows of blocks.
pub const BLOCK_ROW_N: u8 = 8;

/// Columns of blocks.
pub const BLOCK_COL_N: u8 = 14;

/// Left edge of the block wall.
pub const BLOCKS_X0: i64 = 150;

/// Top edge of the block wall.
pub const BLOCKS_Y0: i64 = 2_000;

/// Where the ball is served.
pub const BALL_X0: i64 = 5_000;

/// Where the ball is served.
pub const BALL_Y0: i64 = 5_000;

/// The ball's scalar speed, which bounces preserve.
pub const BALL_SPEED: i64 = 5_000;

/// Side length of the square ball.
pub const BALL_DIM: i64 = 100;

/// The racket's bounce baseline: straight up the board.
pub const BOUNCE_BASELINE: i64 = 27_000;

/// Largest deflection the racket imparts, in hundredths of a degree.
pub const BOUNCE_HALF_RANGE: i64 = 6_000;

/// Lives at the start of a game.
pub const LIFE_STARTING_COUNT: u32 = 3;

/// The player's racket, sliding between the side walls.
#[derive(Clone, Copy, PartialEq, Eq, Structural, Debug)]
pub struct Racket {
    pub solid: RectSolid,
}

impl Racket {
    pub open spec fn wf(self) -> bool {
        self.solid.wf()
    }

    /// A new racket, centred near the bottom of the board.
    pub fn new() -> (r: Racket)
        ensures
            r.solid.pos == (Position { x: (UNIT / 2 - RACKET_WIDTH / 2) as i64, y: RACKET_Y0 }),
            r.solid.vel == (Velocity { vx: 0i64, vy: 0i64 }),
            r.solid.w == RACKET_WIDTH,
            r.solid.h == RACKET_HEIGHT,
            r.solid.limit.x == BOARD_LEFT_LIMIT_X,
            r.solid.limit.y == 0,
            r.solid.limit.x_end() == BOARD_RIGHT_LIMIT_X,
            r.solid.limit.y_end() == UNIT,
            r.wf(),
            r.solid.settled(),
    {
        let pos = Position::new(UNIT / 2 - RACKET_WIDTH / 2, RACKET_Y0);
        let vel = Velocity::new(0, 0);
        let limit = Rect::from_2_points(BOARD_LEFT_LIMIT_X, 0, BOARD_RIGHT_LIMIT_X, UNIT);
        Racket { solid: RectSolid::new(pos, vel, RACKET_WIDTH, RACKET_HEIGHT, limit) }
    }

    /// Start sliding right.
    pub fn accelerate(&mut self)
        requires
            old(self).wf(),
            old(self).solid.vel.vx + RACKET_SPEED <= RANGE,
        ensures
            final(self).solid.vel.vx == old(self).solid.vel.vx + RACKET_SPEED,
            final(self).solid == (RectSolid {
                vel: Velocity { vx: final(self).solid.vel.vx, ..old(self).solid.vel },
                ..old(self).solid
            }),
            final(self).wf(),
    {
        let pv = self.solid.vel.copy();
        self.solid.vel.set_vx(pv.vx() + RACKET_SPEED);
    }

    /// Stop sliding right (or start sliding left).
    pub fn decelerate(&mut self)
        requires
            old(self).wf(),
            old(self).solid.vel.vx - RACKET_SPEED >= -RANGE,
        ensures
            final(self).solid.vel.vx == old(self).solid.vel.vx - RACKET_SPEED,
            final(self).solid == (RectSolid {
                vel: Velocity { vx: final(self).solid.vel.vx, ..old(self).solid.vel },
                ..old(self).solid
            }),
            final(self).wf(),
    {
        let pv = self.solid.vel.copy();
        self.solid.vel.set_vx(pv.vx() - RACKET_SPEED);
    }

    fn update(&mut self, dt: i64)
        requires
            old(self).wf(),
            in_range(dt),
        ensures
            final(self).solid == old(self).solid.stepped(dt),
            final(self).wf(),
            final(self).solid.settled(),
    {
        self.solid.update(dt);
    }

    /// The angle a ball leaving this racket flies at, given the contact
    /// point: the straight-up baseline plus a linear deflection over the
    /// racket's horizontal span; see [`bounce_angle_spec`].
    pub fn get_bounce_angle(&self, x: i64, _y: i64) -> (a: i64)
        requires
            self.wf(),
            self.solid.settled(),
            in_calc_range(x as int),
        ensures
            a == bounce_angle_spec(*self, x as int),
    {
        let d = bounce_deflection(x, self.solid.pos.x, RACKET_WIDTH, BOUNCE_HALF_RANGE);
        BOUNCE_BASELINE + d
    }
}

/// The angle a ball leaving the racket flies at for a contact at `x`:
/// straight up from the centre, deflected up to the half-range towards
/// either end.
pub open spec fn bounce_angle_spec(r: Racket, x: int) -> int {
    BOUNCE_BASELINE + deflection_spec(
        x,
        r.solid.pos.x as int,
        RACKET_WIDTH as int,
        BOUNCE_HALF_RANGE as int,
    )
}

/// The pinned points of the racket's bounce ramp: a contact at the exact
/// centre of the racket leaves straight up the board, and a contact at
/// either extremity is deflected by exactly the configured half-range.
pub proof fn lemma_bounce_angle_extremes(r: Racket)
    ensures
        bounce_angle_spec(r, r.solid.pos.x + RACKET_WIDTH / 2) == BOUNCE_BASELINE,
        bounce_angle_spec(r, r.solid.pos.x as int) == BOUNCE_BASELINE - BOUNCE_HALF_RANGE,
        bounce_angle_spec(r, r.solid.pos.x + RACKET_WIDTH) == BOUNCE_BASELINE
            + BOUNCE_HALF_RANGE,
{
    crate::angles::lemma_deflection_extremes(
        r.solid.pos.x as int,
        RACKET_WIDTH as int,
        BOUNCE_HALF_RANGE as int,
    );
}

impl AsRect for Racket {
    open spec fn rect_req(&self) -> bool {
        true
    }

    open spec fn rect_spec(&self) -> Rect {
        Rect { x: self.solid.pos.x, y: self.solid.pos.y, w: self.solid.w, h: self.solid.h }
    }

    fn as_rect(&self) -> (r: Rect) {
        Rect::new(self.solid.pos.x, self.solid.pos.y, self.solid.w, self.solid.h)
    }
}

/// One destructible block; its value decides the score it awards.
#[derive(Clone, Copy, PartialEq, Eq, Structural, Debug)]
pub struct Block {
    pub solid: RectSolid,
    pub value: u8,
    pub is_destroyed: bool,
}

impl Block {
    pub open spec fn wf(self) -> bool {
        self.solid.wf() && self.solid.settled()
    }

    /// A new block at the given position.
    pub fn new(x: i64, y: i64, value: u8) -> (b: Block)
        requires
            in_range(x),
            in_range(y),
        ensures
            b == (Block {
                solid: RectSolid {
                    pos: Position { x, y },
                    vel: Velocity { vx: 0i64, vy: 0i64 },
                    w: BLOCK_WIDTH,
                    h: BLOCK_HEIGHT,
                    limit: Rect { x: 0i64, y: 0i64, w: UNIT, h: UNIT },
                },
                value,
                is_destroyed: false,
            }),
            b.wf(),
    {
        Block { solid: RectSolid::fixed(x, y, BLOCK_WIDTH, BLOCK_HEIGHT), value, is_destroyed: false }
    }

    pub fn get_value(&self) -> (v: u8)
        ensures
            v == self.value,
    {
        self.value
    }

    pub fn destroy(&mut self)
        ensures
            *final(self) == (Block { is_destroyed: true, ..*old(self) }),
    {
        self.is_destroyed = true;
    }

    pub fn is_destroyed(&self) -> (r: bool)
        ensures
            r == self.is_destroyed,
    {
        self.is_destroyed
    }
}

impl AsRect for Block {
    open spec fn rect_req(&self) -> bool {
        true
    }

    open spec fn rect_spec(&self) -> Rect {
        Rect { x: self.solid.pos.x, y: self.solid.pos.y, w: self.solid.w, h: self.solid.h }
    }

    fn as_rect(&self) -> (r: Rect) {
        Rect::new(self.solid.pos.x, self.solid.pos.y, self.solid.w, self.solid.h)
    }
}

/// The block at index `k` of the freshly built wall, row by row.
pub open spec fn block_at(k: int) -> Block {
    let i = k / (BLOCK_COL_N as int);
    let j = k % (BLOCK_COL_N as int);
    Block {
        solid: RectSolid {
            pos: Position {
                x: (BLOCKS_X0 + j * (BLOCK_WIDTH + BLOCK_STEP_X)) as i64,
                y: (BLOCKS_Y0 + i * (BLOCK_HEIGHT + BLOCK_STEP_Y)) as i64,
            },
            vel: Velocity { vx: 0i64, vy: 0i64 },
            w: BLOCK_WIDTH,
            h: BLOCK_HEIGHT,
            limit: Rect { x: 0i64, y: 0i64, w: UNIT, h: UNIT },
        },
        value: ((BLOCK_ROW_N - i - 1) / 2) as u8,
        is_destroyed: false,
    }
}

/// The whole wall of blocks.
pub struct Blocks {
    pub block_vec: Vec<Block>,
}

impl Blocks {
    /// Build the full wall: `BLOCK_ROW_N` rows of `BLOCK_COL_N` blocks,
    /// upper rows worth more.
    pub fn new() -> (bs: Blocks)
        ensures
            bs.block_vec@.len() == BLOCK_ROW_N as int * BLOCK_COL_N as int,
            forall|k: int|
                0 <= k < bs.block_vec@.len() ==> #[trigger] bs.block_vec@[k] == block_at(k),
    {
        let mut blocks: Vec<Block> = Vec::new();
        let mut i: usize = 0;
        while i < BLOCK_ROW_N as usize
            invariant
                i <= BLOCK_ROW_N as usize,
                blocks@.len() == i * BLOCK_COL_N as int,
                forall|k: int| 0 <= k < blocks@.len() ==> #[trigger] blocks@[k] == block_at(k),
            decreases BLOCK_ROW_N as usize - i,
        {
            let mut j: usize = 0;
            while j < BLOCK_COL_N as usize
                invariant
                    i < BLOCK_ROW_N as usize,
                    j <= BLOCK_COL_N as usize,
                    blocks@.len() == i * BLOCK_COL_N as int + j,
                    forall|k: int| 0 <= k < blocks@.len() ==> #[trigger] blocks@[k] == block_at(k),
                decreases BLOCK_COL_N as usize - j,
            {
                proof {
                    vstd::arithmetic::div_mod::lemma_fundamental_div_mod_converse(
                        i as int * BLOCK_COL_N as int + j as int,
                        BLOCK_COL_N as int,
                        i as int,
                        j as int,
                    );
                }
                let b = Block::new(
                    BLOCKS_X0 + (j as i64) * (BLOCK_WIDTH + BLOCK_STEP_X),
                    BLOCKS_Y0 + (i as i64) * (BLOCK_HEIGHT + BLOCK_STEP_Y),
                    ((BLOCK_ROW_N as usize - i - 1) / 2) as u8,
                );
                blocks.push(b);
                j = j + 1;
            }
            i = i + 1;
        }
        Blocks { block_vec: blocks }
    }

    /// The block at a given index.
    pub fn get(&self, i: usize) -> (b: &Block)
        requires
            i < self.block_vec@.len(),
        ensures
            *b == self.block_vec@[i as int],
    {
        &self.block_vec[i]
    }
}

/// The ball, with its velocity kept in polar form exactly as in the
/// two-racket game: a scalar speed and a unit direction.
#[derive(Clone, Copy, PartialEq, Eq, Structural, Debug)]
pub struct Ball {
    pub solid: RectSolid,
    pub speed: i64,
    pub dir: Dir,
}

impl Ball {
    pub open spec fn wf(self) -> bool {
        &&& self.solid.wf()
        &&& 0 <= self.speed <= RANGE
        &&& self.dir.wf()
        &&& self.solid.vel.vx == dir_vel_x(self.speed as int, self.dir)
        &&& self.solid.vel.vy == dir_vel_y(self.speed as int, self.dir)
    }

    /// A fresh ball served from the middle of the board, free to fall out
    /// at the bottom.
    pub fn new(dir: Dir) -> (b: Ball)
        requires
            dir.wf(),
        ensures
            b.solid.pos == (Position { x: BALL_X0, y: BALL_Y0 }),
            b.speed == BALL_SPEED,
            b.dir == dir,
            b.solid.w == BALL_DIM,
            b.solid.h == BALL_DIM,
            b.solid.limit == (Rect { x: 0i64, y: 0i64, w: UNIT, h: (2 * UNIT) as i64 }),
            b.wf(),
            b.solid.settled(),
    {
        let pos = Position::new(BALL_X0, BALL_Y0);
        let vel = dir.velocity(BALL_SPEED);
        let limit = Rect::from_2_points(0, 0, UNIT, 2 * UNIT);
        Ball { solid: RectSolid::new(pos, vel, BALL_DIM, BALL_DIM, limit), speed: BALL_SPEED, dir }
    }

    fn update(&mut self, dt: i64)
        requires
            old(self).wf(),
            in_range(dt),
        ensures
            final(self).solid == old(self).solid.stepped(dt),
            final(self).speed == old(self).speed,
            final(self).dir == old(self).dir,
            final(self).wf(),
            final(self).solid.settled(),
    {
        self.solid.update(dt);
    }

    /// The ball after a horizontal reflection: shifted by `x_shift`, with
    /// the horizontal velocity component negated.
    pub open spec fn reflect_x_spec(self, x_shift: i64) -> Ball {
        Ball {
            solid: RectSolid {
                pos: Position { x: (self.solid.pos.x + x_shift) as i64, ..self.solid.pos },
                vel: Velocity { vx: (-self.solid.vel.vx) as i64, ..self.solid.vel },
                ..self.solid
            },
            dir: Dir { x: (-self.dir.x) as i64, ..self.dir },
            ..self
        }
    }

    /// Reflect horizontally: shift clear of the obstacle and negate the
    /// horizontal velocity.  The speed is untouched.
    pub fn reflect_x(&mut self, x_shift: i64)
        requires
            old(self).wf(),
            in_range(x_shift),
            in_pos_range(old(self).solid.pos.x + x_shift),
        ensures
            *final(self) == old(self).reflect_x_spec(x_shift),
            final(self).speed == old(self).speed,
            final(self).wf(),
    {
        proof {
            lemma_dir_vel_flip(self.speed as int, self.dir);
        }
        let x = self.solid.pos.x();
        self.solid.pos.set_x(x + x_shift);
        let vx = self.solid.vel.vx();
        self.solid.vel.set_vx(-vx);
        self.dir = Dir::new(-self.dir.x, self.dir.y);
    }

    /// The ball after a vertical reflection: shifted by `y_shift`, with
    /// the vertical velocity component negated.
    pub open spec fn reflect_y_spec(self, y_shift: i64) -> Ball {
        Ball {
            solid: RectSolid {
                pos: Position { y: (self.solid.pos.y + y_shift) as i64, ..self.solid.pos },
                vel: Velocity { vy: (-self.solid.vel.vy) as i64, ..self.solid.vel },
                ..self.solid
            },
            dir: Dir { y: (-self.dir.y) as i64, ..self.dir },
            ..self
        }
    }

    /// Reflect vertically: shift clear of the obstacle and negate the
    /// vertical velocity.  The speed is untouched.
    pub fn reflect_y(&mut self, y_shift: i64)
        requires
            old(self).wf(),
            in_range(y_shift),
            in_pos_range(old(self).solid.pos.y + y_shift),
        ensures
            *final(self) == old(self).reflect_y_spec(y_shift),
            final(self).speed == old(self).speed,
            final(self).wf(),
    {
        proof {
            lemma_dir_vel_flip(self.speed as int, self.dir);
        }
        let y = self.solid.pos.y();
        self.solid.pos.set_y(y + y_shift);
        let vy = self.solid.vel.vy();
        self.solid.vel.set_vy(-vy);
        self.dir = Dir::new(self.dir.x, -self.dir.y);
    }

    /// The ball after an angle bounce off the racket: shifted clear on the
    /// y axis and flying in the new direction at the old speed.
    pub open spec fn bounce_spec(self, dir: Dir, y_shift: i64) -> Ball {
        Ball {
            solid: RectSolid {
                pos: Position { y: (self.solid.pos.y + y_shift) as i64, ..self.solid.pos },
                vel: Velocity {
                    vx: dir_vel_x(self.speed as int, dir) as i64,
                    vy: dir_vel_y(self.speed as int, dir) as i64,
                },
                ..self.solid
            },
            dir,
            ..self
        }
    }

    /// Bounce at a new direction the embedder computed from the reported
    /// angle.  Only the direction changes; the scalar speed is preserved
    /// exactly.
    pub fn bounce(&mut self, dir: Dir, y_shift: i64)
        requires
            old(self).wf(),
            dir.wf(),
            in_range(y_shift),
            in_pos_range(old(self).solid.pos.y + y_shift),
        ensures
            *final(self) == old(self).bounce_spec(dir, y_shift),
            final(self).speed == old(self).speed,
            final(self).wf(),
    {
        let y = self.solid.pos.y();
        self.solid.pos.set_y(y + y_shift);
        let vel = dir.velocity(self.speed);
        self.solid.vel = vel;
        self.dir = dir;
    }

    /// Serve again from the middle of the board, in a fresh direction.
    pub fn reset(&mut self, dir: Dir)
        requires
            old(self).wf(),
            dir.wf(),
        ensures
            final(self).solid.pos == (Position { x: BALL_X0, y: BALL_Y0 }),
            final(self).speed == old(self).speed,
            final(self).dir == dir,
            final(self).solid.w == old(self).solid.w,
            final(self).solid.h == old(self).solid.h,
            final(self).solid.limit == old(self).solid.limit,
            final(self).wf(),
            final(self).solid.settled(),
    {
        let vel = dir.velocity(self.speed);
        self.solid.vel = vel;
        self.solid.pos = Position::new(BALL_X0, BALL_Y0);
        self.dir = dir;
    }
}

impl AsRect for Ball {
    open spec fn rect_req(&self) -> bool {
        true
    }

    open spec fn rect_spec(&self) -> Rect {
        Rect { x: self.solid.pos.x, y: self.solid.pos.y, w: self.solid.w, h: self.solid.h }
    }

    fn as_rect(&self) -> (r: Rect) {
        Rect::new(self.solid.pos.x, self.solid.pos.y, self.solid.w, self.solid.h)
    }
}

/// The running score.
#[derive(Clone, Copy, PartialEq, Eq, Structural, Debug)]
pub struct Score {
    pub current: u32,
}

impl Score {
    fn new() -> (s: Score)
        ensures
            s == (Score { current: 0u32 }),
    {
        Score { current: 0 }
    }

    pub fn get(&self) -> (r: u32)
        ensures
            r == self.current,
    {
        self.current
    }

    /// Add points for a destroyed block.
    pub fn add(&mut self, points: u32)
        requires
            old(self).current + points <= u32::MAX,
        ensures
            final(self).current == old(self).current + points,
    {
        self.current = self.current + points;
    }
}

/// The lives that remain; the game ends when they run out.
#[derive(Clone, Copy, PartialEq, Eq, Structural, Debug)]
pub struct Life {
    pub count: u32,
}

impl Life {
    fn new() -> (l: Life)
        ensures
            l == (Life { count: LIFE_STARTING_COUNT }),
    {
        Life { count: LIFE_STARTING_COUNT }
    }

    pub fn get(&self) -> (r: u32)
        ensures
            r == self.count,
    {
        self.count
    }

    /// Remove one life.
    pub fn remove(&mut self)
        requires
            old(self).count > 0,
        ensures
            final(self).count == old(self).count - 1,
    {
        self.count = self.count - 1;
    }
}

/// Does the ball rectangle `br` hit this block: still standing and
/// overlapping?
pub open spec fn block_hit(br: Rect, b: Block) -> bool {
    !b.is_destroyed && overlaps(br, b.rect_spec())
}

/// The ball after responding to one hit block: the larger overlap
/// dimension picks the response axis — an overlap wider than tall flips
/// the vertical velocity, otherwise the horizontal one — and the sign of
/// the shift moves the ball away from the block's centre.
pub open spec fn ball_after_block(ball: Ball, br: Rect, b: Block) -> Ball {
    let ov = overlap_rect(br, b.rect_spec());
    let bl = b.rect_spec();
    if ov.w > ov.h {
        let shift = if ov.y_mid() < bl.y_mid() {
            (-ov.h) as i64
        } else {
            ov.h
        };
        ball.reflect_y_spec(shift)
    } else {
        let shift = if ov.x_mid() < bl.x_mid() {
            (-ov.w) as i64
        } else {
            ov.w
        };
        ball.reflect_x_spec(shift)
    }
}

/// The outcome of one ball-versus-blocks pass.
pub struct BlocksPass {
    /// The ball after every response, applied in block order.
    pub ball: Ball,
    /// The blocks, hit ones now destroyed.
    pub blocks: Seq<Block>,
    /// The score gained: each hit block's value plus one.
    pub score_gain: int,
    /// The values of the hit blocks, in block order.
    pub values: Seq<u8>,
}

/// One ball-versus-blocks pass, block by block: every standing block that
/// the ball rectangle `br` overlaps is destroyed, awards its value plus
/// one, and deflects the ball.  All overlap tests use the one rectangle
/// `br`; the ball's responses accumulate.
pub open spec fn blocks_pass(br: Rect, blocks: Seq<Block>, ball: Ball) -> BlocksPass
    decreases blocks.len(),
{
    if blocks.len() == 0 {
        BlocksPass { ball, blocks, score_gain: 0, values: Seq::empty() }
    } else {
        let b0 = blocks[0];
        if block_hit(br, b0) {
            let rest = blocks_pass(br, blocks.drop_first(), ball_after_block(ball, br, b0));
            BlocksPass {
                ball: rest.ball,
                blocks: seq![Block { is_destroyed: true, ..b0 }] + rest.blocks,
                score_gain: b0.value + 1 + rest.score_gain,
                values: seq![b0.value] + rest.values,
            }
        } else {
            let rest = blocks_pass(br, blocks.drop_first(), ball);
            BlocksPass {
                ball: rest.ball,
                blocks: seq![b0] + rest.blocks,
                score_gain: rest.score_gain,
                values: rest.values,
            }
        }
    }
}

/// Shape facts about a pass: the blocks keep their count, and the score
/// gain is non-negative and at most `u8::MAX + 1` per block.
pub proof fn lemma_blocks_pass_bounds(br: Rect, blocks: Seq<Block>, ball: Ball)
    ensures
        blocks_pass(br, blocks, ball).blocks.len() == blocks.len(),
        0 <= blocks_pass(br, blocks, ball).score_gain <= 256 * blocks.len(),
    decreases blocks.len(),
{
    if blocks.len() > 0 {
        let b0 = blocks[0];
        if block_hit(br, b0) {
            lemma_blocks_pass_bounds(br, blocks.drop_first(), ball_after_block(ball, br, b0));
        } else {
            lemma_blocks_pass_bounds(br, blocks.drop_first(), ball);
        }
    }
}

/// All entities of one running game.
pub struct Logic {
    pub racket: Racket,
    pub blocks: Blocks,
    pub ball: Ball,
    pub score: Score,
    pub life: Life,
    pub is_over: bool,
}

impl Logic {
    pub open spec fn wf(self) -> bool {
        &&& self.racket.wf()
        &&& self.ball.wf()
        &&& forall|i: int|
            0 <= i < self.blocks.block_vec@.len() ==> (#[trigger] self.blocks.block_vec@[i]).wf()
    }

    /// A new game: fresh racket, full wall, ball served in the direction
    /// the embedder drew, starting score and lives.
    pub fn new(serve_dir: Dir) -> (l: Logic)
        requires
            serve_dir.wf(),
        ensures
            l.racket.solid.pos == (Position {
                x: (UNIT / 2 - RACKET_WIDTH / 2) as i64,
                y: RACKET_Y0,
            }),
            l.racket.solid.vel == (Velocity { vx: 0i64, vy: 0i64 }),
            l.blocks.block_vec@.len() == BLOCK_ROW_N as int * BLOCK_COL_N as int,
            forall|k: int|
                0 <= k < l.blocks.block_vec@.len() ==> #[trigger] l.blocks.block_vec@[k]
                    == block_at(k),
            l.ball.solid.pos == (Position { x: BALL_X0, y: BALL_Y0 }),
            l.ball.dir == serve_dir,
            l.ball.speed == BALL_SPEED,
            l.score == (Score { current: 0u32 }),
            l.life == (Life { count: LIFE_STARTING_COUNT }),
            !l.is_over,
            l.wf(),
    {
        Logic {
            racket: Racket::new(),
            blocks: Blocks::new(),
            ball: Ball::new(serve_dir),
            score: Score::new(),
            life: Life::new(),
            is_over: false,
        }
    }

    /// Advance the racket and the ball by `dt` ticks; if the ball fell out
    /// at the bottom, a life goes and the ball is served again in
    /// `serve_dir`.  The game is over once no life remains.  Returns
    /// whether the ball was lost this frame.
    pub fn update(&mut self, dt: i64, serve_dir: Dir) -> (lost: bool)
        requires
            old(self).wf(),
            in_range(dt),
            serve_dir.wf(),
            old(self).life.count > 0,
        ensures
            final(self).racket.solid == old(self).racket.solid.stepped(dt),
            lost == (old(self).ball.solid.stepped(dt).pos.y > UNIT),
            final(self).blocks.block_vec@ == old(self).blocks.block_vec@,
            !lost ==> {
                &&& final(self).ball == (Ball {
                    solid: old(self).ball.solid.stepped(dt),
                    ..old(self).ball
                })
                &&& final(self).life == old(self).life
            },
            lost ==> {
                &&& final(self).ball.solid.pos == (Position { x: BALL_X0, y: BALL_Y0 })
                &&& final(self).ball.dir == serve_dir
                &&& final(self).ball.speed == old(self).ball.speed
                &&& final(self).life.count == old(self).life.count - 1
            },
            final(self).score == old(self).score,
            final(self).is_over == (old(self).is_over || final(self).life.count == 0),
            final(self).wf(),
            final(self).ball.solid.settled(),
    {
        self.racket.update(dt);
        self.ball.update(dt);

        let mut lost = false;
        if self.ball.solid.pos.y() > UNIT {
            self.life.remove();
            self.ball.reset(serve_dir);
            lost = true;
        }

        if self.life.get() == 0 {
            self.over();
        }
        lost
    }

    /// End the game.
    pub fn over(&mut self)
        ensures
            *final(self) == (Logic { is_over: true, ..*old(self) }),
    {
        self.is_over = true;
    }

    pub fn is_over(&self) -> (r: bool)
        ensures
            r == self.is_over,
    {
        self.is_over
    }
}

/// Draw a serve angle: downwards, up to 45 degrees off the vertical.
pub fn serve_angle() -> (a: i64)
    ensures
        4_500 <= a <= 13_400,
{
    let r = crate::random::rand(45, 135);
    r as i64 * 100
}

/// A racket contact the embedder must answer with a direction: the bounce
/// angle this module computed and the y shift that frees the ball.
#[derive(Clone, Copy, PartialEq, Eq, Structural, Debug)]
pub struct RacketContact {
    pub angle: i64,
    pub y_shift: i64,
}

/// Test the ball against the racket and report the contact, if any: the
/// bounce angle for the contact point and the y shift that moves the ball
/// off the racket.  The embedder turns the angle into a direction and
/// hands it to [`apply_racket_bounce`].
pub fn collide_ball_and_racket(logic: &Logic) -> (contact: Option<RacketContact>)
    requires
        logic.wf(),
        logic.ball.solid.settled(),
        logic.racket.solid.settled(),
    ensures
        ({
            let br = logic.ball.rect_spec();
            let rr = logic.racket.rect_spec();
            if overlaps(br, rr) {
                let ov = overlap_rect(br, rr);
                contact == Some(RacketContact {
                    angle: bounce_angle_spec(logic.racket, ov.x_mid()) as i64,
                    y_shift: (-ov.h) as i64,
                })
            } else {
                contact is None
            }
        }),
{
    let ball = logic.ball.as_rect();
    let racket = logic.racket.as_rect();

    match collide(&ball, &racket) {
        Some(rect) => {
            let angle = logic.racket.get_bounce_angle(rect.xc(), rect.yc());
            Some(RacketContact { angle, y_shift: -rect.h() })
        },
        None => None,
    }
}

/// Apply a racket bounce with the direction the embedder computed for the
/// reported angle.
pub fn apply_racket_bounce(logic: &mut Logic, contact: &RacketContact, dir: Dir)
    requires
        old(logic).wf(),
        dir.wf(),
        in_range(contact.y_shift),
        in_pos_range(old(logic).ball.solid.pos.y + contact.y_shift),
    ensures
        final(logic).ball == old(logic).ball.bounce_spec(dir, contact.y_shift),
        final(logic).ball.speed == old(logic).ball.speed,
        final(logic).racket == old(logic).racket,
        final(logic).blocks.block_vec@ == old(logic).blocks.block_vec@,
        final(logic).score == old(logic).score,
        final(logic).life == old(logic).life,
        final(logic).is_over == old(logic).is_over,
        final(logic).wf(),
{
    logic.ball.bounce(dir, contact.y_shift);
}

/// The left board wall.
pub open spec fn left_wall() -> Rect {
    Rect { x: 0i64, y: 0i64, w: BOARD_LEFT_LIMIT_X, h: UNIT }
}

/// The right board wall.
pub open spec fn right_wall() -> Rect {
    Rect { x: BOARD_RIGHT_LIMIT_X, y: 0i64, w: (UNIT - BOARD_RIGHT_LIMIT_X) as i64, h: UNIT }
}

/// The top board wall.
pub open spec fn top_wall() -> Rect {
    Rect { x: 0i64, y: 0i64, w: UNIT, h: BOARD_TOP_LIMIT_Y }
}

/// Bounce the ball off the side and top walls.  All three tests use the
/// ball rectangle from the start of the pass; the responses accumulate on
/// the ball.  Returns how many walls were hit.
pub fn collide_ball_and_wall(logic: &mut Logic) -> (hits: u32)
    requires
        old(logic).wf(),
        old(logic).ball.solid.settled(),
    ensures
        ({
            let br = old(logic).ball.rect_spec();
            let hit_left = overlaps(br, left_wall());
            let hit_right = overlaps(br, right_wall());
            let hit_top = overlaps(br, top_wall());
            let b1 = if hit_left {
                old(logic).ball.reflect_x_spec(overlap_rect(br, left_wall()).w)
            } else {
                old(logic).ball
            };
            let b2 = if hit_right {
                b1.reflect_x_spec((-overlap_rect(br, right_wall()).w) as i64)
            } else {
                b1
            };
            let b3 = if hit_top {
                b2.reflect_y_spec(BOARD_TOP_LIMIT_Y)
            } else {
                b2
            };
            &&& final(logic).ball == b3
            &&& hits == (if hit_left { 1int } else { 0 }) + (if hit_right { 1int } else { 0 }) + (
            if hit_top {
                1int
            } else {
                0
            })
        }),
        final(logic).racket == old(logic).racket,
        final(logic).blocks.block_vec@ == old(logic).blocks.block_vec@,
        final(logic).score == old(logic).score,
        final(logic).life == old(logic).life,
        final(logic).is_over == old(logic).is_over,
        final(logic).wf(),
{
    let mut hits: u32 = 0;
    let ball = logic.ball.as_rect();

    let left_wall_rect = Rect::from_2_points(0, 0, BOARD_LEFT_LIMIT_X, UNIT);
    match collide(&ball, &left_wall_rect) {
        Some(rect) => {
            logic.ball.reflect_x(rect.w());
            hits = hits + 1;
        },
        None => (),
    }

    let right_wall_rect = Rect::from_2_points(BOARD_RIGHT_LIMIT_X, 0, UNIT, UNIT);
    match collide(&ball, &right_wall_rect) {
        Some(rect) => {
            logic.ball.reflect_x(-rect.w());
            hits = hits + 1;
        },
        None => (),
    }

    let top_wall_rect = Rect::from_2_points(0, 0, UNIT, BOARD_TOP_LIMIT_Y);
    match collide(&ball, &top_wall_rect) {
        Some(_rect) => {
            logic.ball.reflect_y(BOARD_TOP_LIMIT_Y);
            hits = hits + 1;
        },
        None => (),
    }
    hits
}

/// One ball-versus-blocks pass: destroy every standing block the ball
/// rectangle overlaps, award its value plus one, and deflect the ball per
/// block along the axis the larger overlap dimension picks.  Returns the
/// values of the destroyed blocks, in block order, so the embedder can
/// play one cue per block.
pub fn collide_ball_and_blocks(logic: &mut Logic) -> (destroyed: Vec<u8>)
    requires
        old(logic).wf(),
        old(logic).ball.solid.settled(),
        old(logic).blocks.block_vec@.len() <= 10_000,
        old(logic).score.current + 256 * old(logic).blocks.block_vec@.len() <= u32::MAX,
    ensures
        ({
            let full = blocks_pass(
                old(logic).ball.rect_spec(),
                old(logic).blocks.block_vec@,
                old(logic).ball,
            );
            &&& final(logic).ball == full.ball
            &&& final(logic).blocks.block_vec@ == full.blocks
            &&& final(logic).score.current == old(logic).score.current + full.score_gain
            &&& destroyed@ == full.values
        }),
        final(logic).racket == old(logic).racket,
        final(logic).life == old(logic).life,
        final(logic).is_over == old(logic).is_over,
        final(logic).wf(),
{
    let ghost g_blocks0 = logic.blocks.block_vec@;
    let ghost g_ball0 = logic.ball;
    let ghost g_score0 = logic.score.current;
    let ghost g_racket = logic.racket;
    let ghost g_life = logic.life;
    let ghost g_over = logic.is_over;
    let ball = logic.ball.as_rect();
    let ghost g_br = logic.ball.rect_spec();
    let ghost full = blocks_pass(g_br, g_blocks0, g_ball0);
    proof {
        lemma_blocks_pass_bounds(g_br, g_blocks0, g_ball0);
        assert(g_blocks0.skip(0) =~= g_blocks0);
        assert(Seq::<u8>::empty() + full.values =~= full.values);
        assert(Seq::<Block>::empty() + full.blocks =~= full.blocks);
        assert(logic.blocks.block_vec@.take(0) =~= Seq::<Block>::empty());
    }

    let mut destroyed: Vec<u8> = Vec::new();
    let n = logic.blocks.block_vec.len();
    let mut k: usize = 0;
    while k < n
        invariant
            0 <= k <= n,
            n == g_blocks0.len() <= 10_000,
            logic.blocks.block_vec@.len() == n,
            ball == g_br,
            g_score0 + 256 * g_blocks0.len() <= u32::MAX,
            0 <= full.score_gain <= 256 * g_blocks0.len(),
            full == blocks_pass(g_br, g_blocks0, g_ball0),
            g_ball0.wf(),
            g_br == g_ball0.rect_spec(),
            in_ext_range(g_ball0.solid.pos.x as int),
            in_ext_range(g_ball0.solid.pos.y as int),
            forall|i: int|
                k <= i < n ==> #[trigger] logic.blocks.block_vec@[i] == g_blocks0[i],
            forall|i: int|
                0 <= i < n ==> (#[trigger] logic.blocks.block_vec@[i]).wf(),
            logic.ball.wf(),
            -2 * RANGE - k as int * RANGE <= logic.ball.solid.pos.x <= 2 * RANGE + k as int
                * RANGE,
            -2 * RANGE - k as int * RANGE <= logic.ball.solid.pos.y <= 2 * RANGE + k as int
                * RANGE,
            ({
                let sub = blocks_pass(g_br, g_blocks0.skip(k as int), logic.ball);
                &&& full.ball == sub.ball
                &&& full.score_gain == (logic.score.current - g_score0) + sub.score_gain
                &&& full.values == destroyed@ + sub.values
                &&& full.blocks == logic.blocks.block_vec@.take(k as int) + sub.blocks
            }),
            logic.score.current >= g_score0,
            logic.racket == g_racket,
            logic.life == g_life,
            logic.is_over == g_over,
        decreases n - k,
    {
        let ghost pre_ball = logic.ball;
        let ghost suffix = g_blocks0.skip(k as int);
        let ghost sub = blocks_pass(g_br, suffix, pre_ball);
        proof {
            assert(suffix.len() == n - k);
            assert(suffix[0] == g_blocks0[k as int]);
            assert(suffix.drop_first() =~= g_blocks0.skip(k as int + 1));
        }

        let b = logic.blocks.block_vec[k];

        if !b.is_destroyed() {
            let block_rect = b.as_rect();
            match collide(&ball, &block_rect) {
                Some(rect) => {
                    let ghost rest = blocks_pass(
                        g_br,
                        g_blocks0.skip(k as int + 1),
                        ball_after_block(pre_ball, g_br, g_blocks0[k as int]),
                    );
                    proof {
                        lemma_blocks_pass_bounds(
                            g_br,
                            g_blocks0.skip(k as int + 1),
                            ball_after_block(pre_ball, g_br, g_blocks0[k as int]),
                        );
                        assert(block_hit(g_br, g_blocks0[k as int]));
                        assert(sub.score_gain == g_blocks0[k as int].value + 1 + rest.score_gain);
                        assert(logic.score.current + (b.value + 1) <= u32::MAX);
                    }
                    logic.score.add(b.get_value() as u32 + 1);
                    let mut nb = b;
                    nb.destroy();
                    logic.blocks.block_vec.set(k, nb);
                    destroyed.push(b.get_value());

                    if rect.w() > rect.h() {
                        let mut y_shift = rect.h();
                        if rect.yc() < block_rect.yc() {
                            y_shift = -y_shift;
                        }
                        logic.ball.reflect_y(y_shift);
                    } else {
                        let mut x_shift = rect.w();
                        if rect.xc() < block_rect.xc() {
                            x_shift = -x_shift;
                        }
                        logic.ball.reflect_x(x_shift);
                    }
                    proof {
                        assert(logic.ball == ball_after_block(pre_ball, g_br, g_blocks0[k as int]));
                        assert(destroyed@ =~= destroyed@.subrange(0, destroyed@.len() - 1)
                            + seq![g_blocks0[k as int].value]);
                        assert(full.values =~= destroyed@ + rest.values);
                        assert(full.blocks =~= logic.blocks.block_vec@.take(k as int + 1)
                            + rest.blocks);
                    }
                },
                None => {
                    proof {
                        assert(!block_hit(g_br, g_blocks0[k as int]));
                        assert(full.blocks =~= logic.blocks.block_vec@.take(k as int + 1)
                            + blocks_pass(g_br, g_blocks0.skip(k as int + 1), pre_ball).blocks);
                    }
                },
            }
        } else {
            proof {
                assert(!block_hit(g_br, g_blocks0[k as int]));
                assert(full.blocks =~= logic.blocks.block_vec@.take(k as int + 1)
                    + blocks_pass(g_br, g_blocks0.skip(k as int + 1), pre_ball).blocks);
            }
        }
        k = k + 1;
    }
    proof {
        assert(g_blocks0.skip(n as int) =~= Seq::<Block>::empty());
        assert(full.values =~= destroyed@);
        assert(full.blocks =~= logic.blocks.block_vec@.take(n as int));
        assert(logic.blocks.block_vec@.take(n as int) =~= logic.blocks.block_vec@);
    }
    destroyed
}

} // verus!
