//! The two-tank duel: tanks that turn in fixed steps, a wall map loaded
//! from a level image, one shell per tank, and push-back separation when
//! solids meet.
//!
//! Tanks and shells keep their velocity in polar form — a scalar speed,
//! an orientation angle and the matching unit direction — so that no
//! trigonometry happens here: the unit direction for a new orientation
//! comes in as a [`Dir`] argument wherever the player turns.

use vstd::prelude::*;
use crate::collide::{collide, overlaps};
use crate::fixed::{in_drift_range, in_pos_range, in_range, RANGE, UNIT};
use crate::geometry::{AsRect, Rect};
use crate::physics::{dir_vel_x, dir_vel_y, Dir, Position, RectSolid, Velocity};

verus! {

/// Left edge of the battlefield.
pub const BOARD_LEFT_LIMIT: i64 = 500;

/// Right edge of the battlefield.
pub const BOARD_RIGHT_LIMIT: i64 = 9_500;

/// Top edge of the battlefield.
pub const BOARD_TOP_LIMIT: i64 = 500;

/// Bottom edge of the battlefield.
pub const BOARD_BOTTOM_LIMIT: i64 = 9_500;

/// Tank width.
pub const TANK_WIDTH: i64 = 500;

/// Tank height.
pub const TANK_HEIGHT: i64 = 500;

/// Tank speed while driving.
pub const TANK_VELOCITY: i64 = 1_000;

/// One turn step: an eighth of a half turn, in hundredths of a degree.
pub const TANK_ROTATION_ANGLE: i64 = 2_250;

/// Shortest time between turn steps, in ticks.
pub const TANK_ROTATION_DELAY: i64 = 2_500;

/// How long a hit tank is pushed back, in ticks.
pub const TANK_IMPACT_DELAY: i64 = 5_000;

/// Shell width.
pub const SHELL_WIDTH: i64 = 50;

/// Shell height.
pub const SHELL_HEIGHT: i64 = 50;

/// Shell speed.
pub const SHELL_VELOCITY: i64 = 5_000;

/// Where the left tank starts.
pub const LEFT_TANK_X0: i64 = 600;

/// Where the left tank starts.
pub const LEFT_TANK_Y0: i64 = 5_000;

/// Where the right tank starts.
pub const RIGHT_TANK_X0: i64 = 8_900;

/// Where the right tank starts.
pub const RIGHT_TANK_Y0: i64 = 5_000;

/// Rows of map blocks.
pub const BLOCK_ROW_COUNT: usize = 30;

/// Columns of map blocks.
pub const BLOCK_COL_COUNT: usize = 30;

/// Side length of one map block: the battlefield divided evenly.
pub const BLOCK_SIZE: i64 = 300;

/// Score of the duel: one count per tank.
#[derive(Clone, Copy, PartialEq, Eq, Structural, Debug)]
pub struct Score {
    pub left_score: u32,
    pub right_score: u32,
}

impl Score {
    /// Starting at zero for each tank.
    pub fn new() -> (s: Score)
        ensures
            s == (Score { left_score: 0u32, right_score: 0u32 }),
    {
        Score { left_score: 0, right_score: 0 }
    }

    /// A point for the left tank.
    pub fn point_left(&mut self)
        requires
            old(self).left_score < u32::MAX,
        ensures
            *final(self) == (Score {
                left_score: (old(self).left_score + 1) as u32,
                ..*old(self)
            }),
    {
        self.left_score = self.left_score + 1;
    }

    /// A point for the right tank.
    pub fn point_right(&mut self)
        requires
            old(self).right_score < u32::MAX,
        ensures
            *final(self) == (Score {
                right_score: (old(self).right_score + 1) as u32,
                ..*old(self)
            }),
    {
        self.right_score = self.right_score + 1;
    }

    pub fn get_left_score(&self) -> (r: u32)
        ensures
            r == self.left_score,
    {
        self.left_score
    }

    pub fn get_right_score(&self) -> (r: u32)
        ensures
            r == self.right_score,
    {
        self.right_score
    }
}

/// The current level: a grid of wall blocks over the battlefield.
pub struct Level {
    /// Row-major block flags: entry `j * BLOCK_COL_COUNT + i` says whether
    /// the block in column `i` of row `j` stands.
    pub blocks: Vec<bool>,
    /// Index of the current level.
    pub index: usize,
}

impl Level {
    pub open spec fn wf(self) -> bool {
        self.blocks@.len() == BLOCK_ROW_COUNT as int * BLOCK_COL_COUNT as int
    }

    /// Does the block in column `i` of row `j` stand?
    pub open spec fn has_block(self, i: int, j: int) -> bool {
        self.blocks@[j * BLOCK_COL_COUNT as int + i]
    }

    /// The rectangle of the block in column `i` of row `j`.
    pub open spec fn block_rect(i: int, j: int) -> Rect {
        Rect {
            x: (BOARD_LEFT_LIMIT + i * BLOCK_SIZE) as i64,
            y: (BOARD_TOP_LIMIT + j * BLOCK_SIZE) as i64,
            w: BLOCK_SIZE,
            h: BLOCK_SIZE,
        }
    }

    /// Build the level with the given index from decoded image pixels: a
    /// block stands wherever the pixel byte is zero.  The embedder decodes
    /// the level image and hands the raw rows in here; `pitch` is the
    /// byte stride between rows.
    pub fn load(
        map_index: usize,
        pixels: &Vec<u8>,
        width: usize,
        height: usize,
        pitch: usize,
    ) -> (m: Level)
        requires
            width <= BLOCK_COL_COUNT,
            height <= BLOCK_ROW_COUNT,
            height * pitch <= pixels@.len(),
            width <= pitch,
            pitch <= 100_000,
        ensures
            m.wf(),
            m.index == map_index,
            forall|i: int, j: int|
                0 <= i < width && 0 <= j < height ==> m.has_block(i, j) == (pixels@[j * pitch + i]
                    == 0),
            forall|i: int, j: int|
                0 <= i < BLOCK_COL_COUNT && 0 <= j < BLOCK_ROW_COUNT && !(i < width && j < height)
                    ==> !m.has_block(i, j),
    {
        let mut blocks: Vec<bool> = Vec::new();
        let total = BLOCK_ROW_COUNT * BLOCK_COL_COUNT;
        let mut k: usize = 0;
        while k < total
            invariant
                0 <= k <= total,
                total == BLOCK_ROW_COUNT * BLOCK_COL_COUNT,
                blocks@.len() == k,
                forall|idx: int| 0 <= idx < k ==> !(#[trigger] blocks@[idx]),
            decreases total - k,
        {
            blocks.push(false);
            k = k + 1;
        }

        let mut j: usize = 0;
        while j < height
            invariant
                0 <= j <= height,
                width <= BLOCK_COL_COUNT,
                height <= BLOCK_ROW_COUNT,
                height * pitch <= pixels@.len(),
                width <= pitch,
                pitch <= 100_000,
                blocks@.len() == BLOCK_ROW_COUNT * BLOCK_COL_COUNT,
                forall|a: int, b: int|
                    0 <= a < BLOCK_COL_COUNT && 0 <= b < BLOCK_ROW_COUNT
                        ==> #[trigger] blocks@[b * BLOCK_COL_COUNT as int + a] == (a < width && b
                        < j && pixels@[b * pitch + a] == 0),
            decreases height - j,
        {
            let mut i: usize = 0;
            while i < width
                invariant
                    0 <= i <= width,
                    0 <= j < height,
                    width <= BLOCK_COL_COUNT,
                    height <= BLOCK_ROW_COUNT,
                    height * pitch <= pixels@.len(),
                    width <= pitch,
                    pitch <= 100_000,
                    blocks@.len() == BLOCK_ROW_COUNT * BLOCK_COL_COUNT,
                    forall|a: int, b: int|
                        0 <= a < BLOCK_COL_COUNT && 0 <= b < BLOCK_ROW_COUNT
                            ==> #[trigger] blocks@[b * BLOCK_COL_COUNT as int + a] == (a < width
                            && (b < j || (b == j && a < i)) && pixels@[b * pitch + a] == 0),
                decreases width - i,
            {
                proof {
                    assert(j * pitch + i <= 3_100_000) by (nonlinear_arith)
                        requires
                            0 <= j,
                            j < height,
                            height <= 30,
                            0 <= pitch <= 100_000,
                            0 <= i <= 100,
                    ;
                    assert(j * pitch + i < pixels@.len()) by (nonlinear_arith)
                        requires
                            0 <= j < height,
                            0 <= i < width,
                            width <= pitch,
                            height * pitch <= pixels@.len(),
                    ;
                    assert(j * BLOCK_COL_COUNT + i < BLOCK_ROW_COUNT * BLOCK_COL_COUNT)
                        by (nonlinear_arith)
                        requires
                            0 <= j < height,
                            0 <= i < width,
                            width <= BLOCK_COL_COUNT as int,
                            height <= BLOCK_ROW_COUNT as int,
                    ;
                }
                let pixel = pixels[j * pitch + i];
                let block: bool = pixel == 0;
                blocks.set(j * BLOCK_COL_COUNT + i, block);
                i = i + 1;
            }
            j = j + 1;
        }
        Level { blocks, index: map_index }
    }

    /// The rectangle of the block at the given grid cell, if one stands
    /// there.
    pub fn get_block(&self, i: u32, j: u32) -> (b: Option<Rect>)
        requires
            self.wf(),
            i < BLOCK_COL_COUNT,
            j < BLOCK_ROW_COUNT,
        ensures
            b == if self.has_block(i as int, j as int) {
                Some(Level::block_rect(i as int, j as int))
            } else {
                Option::<Rect>::None
            },
    {
        let block = self.blocks[j as usize * BLOCK_COL_COUNT + i as usize];

        if block {
            Some(
                Rect::new(
                    BOARD_LEFT_LIMIT + (i as i64) * BLOCK_SIZE,
                    BOARD_TOP_LIMIT + (j as i64) * BLOCK_SIZE,
                    BLOCK_SIZE,
                    BLOCK_SIZE,
                ),
            )
        } else {
            None
        }
    }
}

/// The generous limit a shell flies in before the boundary check destroys
/// it.
pub open spec fn shell_limit() -> Rect {
    Rect { x: (-UNIT) as i64, y: (-UNIT) as i64, w: (3 * UNIT) as i64, h: (3 * UNIT) as i64 }
}

/// A shell: one per tank, relaunched after it dies.
#[derive(Clone, Copy, PartialEq, Eq, Structural, Debug)]
pub struct Shell {
    pub solid: RectSolid,
    pub is_destroyed: bool,
    /// The angle the shell flies at, in hundredths of a degree.
    pub heading: i64,
    /// The unit direction matching `heading`.
    pub facing: Dir,
    /// The scalar speed: zero before the first launch.
    pub speed: i64,
}

impl Shell {
    pub open spec fn wf(self) -> bool {
        &&& self.solid.wf()
        &&& self.solid.limit == shell_limit()
        &&& -UNIT <= self.solid.pos.x <= 2 * UNIT
        &&& -UNIT <= self.solid.pos.y <= 2 * UNIT
        &&& self.solid.w == SHELL_WIDTH
        &&& self.solid.h == SHELL_HEIGHT
        &&& 0 <= self.speed <= RANGE
        &&& self.facing.wf()
        &&& in_pos_range(self.heading as int)
        &&& self.solid.vel.vx == dir_vel_x(self.speed as int, self.facing)
        &&& self.solid.vel.vy == dir_vel_y(self.speed as int, self.facing)
    }

    /// A fresh shell: spent, parked at the origin.
    pub fn new() -> (s: Shell)
        ensures
            s.solid.pos == (Position { x: 0i64, y: 0i64 }),
            s.solid.vel == (Velocity { vx: 0i64, vy: 0i64 }),
            s.is_destroyed,
            s.heading == 0,
            s.speed == 0,
            s.wf(),
    {
        let pos = Position::new(0, 0);
        let vel = Velocity::new(0, 0);
        let limit = Rect::from_2_points(-UNIT, -UNIT, 2 * UNIT, 2 * UNIT);

        let solid = RectSolid::new(pos, vel, SHELL_WIDTH, SHELL_HEIGHT, limit);
        proof {
            assert(dir_vel_x(0, Dir { x: UNIT, y: 0i64 }) == 0);
            assert(dir_vel_y(0, Dir { x: UNIT, y: 0i64 }) == 0);
        }
        Shell {
            solid,
            is_destroyed: true,
            heading: 0,
            facing: Dir::east(),
            speed: 0,
        }
    }

    pub fn is_destroyed(&self) -> (r: bool)
        ensures
            r == self.is_destroyed,
    {
        self.is_destroyed
    }

    pub fn destroy(&mut self)
        ensures
            *final(self) == (Shell { is_destroyed: true, ..*old(self) }),
    {
        self.is_destroyed = true;
    }

    /// The shell right after a launch from `(x0, y0)` at `angle`, flying
    /// in the matching unit direction `dir`.
    pub open spec fn launched(self, x0: i64, y0: i64, angle: i64, dir: Dir) -> Shell {
        Shell {
            solid: RectSolid {
                pos: Position {
                    x: (x0 - SHELL_WIDTH / 2) as i64,
                    y: (y0 - SHELL_HEIGHT / 2) as i64,
                },
                vel: Velocity {
                    vx: dir_vel_x(SHELL_VELOCITY as int, dir) as i64,
                    vy: dir_vel_y(SHELL_VELOCITY as int, dir) as i64,
                },
                ..self.solid
            },
            is_destroyed: false,
            heading: angle,
            facing: dir,
            speed: SHELL_VELOCITY,
        }
    }

    /// Launch from the tank's centre, flying the tank's way.
    fn launch(&mut self, x0: i64, y0: i64, angle: i64, dir: Dir)
        requires
            old(self).wf(),
            0 <= x0 <= UNIT,
            0 <= y0 <= UNIT,
            dir.wf(),
            in_pos_range(angle as int),
        ensures
            *final(self) == old(self).launched(x0, y0, angle, dir),
            final(self).wf(),
    {
        self.is_destroyed = false;
        let pos = Position::new(x0 - SHELL_WIDTH / 2, y0 - SHELL_HEIGHT / 2);
        let vel = dir.velocity(SHELL_VELOCITY);
        self.solid.pos = pos;
        self.solid.vel = vel;
        self.heading = angle;
        self.facing = dir;
        self.speed = SHELL_VELOCITY;
    }

    fn update(&mut self, dt: i64)
        requires
            old(self).wf(),
            in_range(dt),
        ensures
            *final(self) == (Shell { solid: old(self).solid.stepped(dt), ..*old(self) }),
            final(self).wf(),
    {
        self.solid.update(dt);
    }

    /// The angle the shell flies at.  A spent shell that never launched
    /// reports zero.
    pub fn get_orientation(&self) -> (a: i64)
        ensures
            a == self.heading,
    {
        self.heading
    }
}

impl AsRect for Shell {
    open spec fn rect_req(&self) -> bool {
        true
    }

    open spec fn rect_spec(&self) -> Rect {
        Rect { x: self.solid.pos.x, y: self.solid.pos.y, w: self.solid.w, h: self.solid.h }
    }

    fn as_rect(&self) -> (r: Rect) {
        Rect::new(self.solid.pos.x, self.solid.pos.y, self.solid.w, self.solid.h)
    }
}

/// The limit rectangle tanks drive in: the battlefield.
pub open spec fn tank_limit() -> Rect {
    Rect {
        x: BOARD_LEFT_LIMIT,
        y: BOARD_TOP_LIMIT,
        w: (BOARD_RIGHT_LIMIT - BOARD_LEFT_LIMIT) as i64,
        h: (BOARD_BOTTOM_LIMIT - BOARD_TOP_LIMIT) as i64,
    }
}

/// One player's tank.
#[derive(Clone, Copy, PartialEq, Eq, Structural, Debug)]
pub struct Tank {
    pub solid: RectSolid,
    pub shell: Shell,
    /// Where the barrel points, in hundredths of a degree.
    pub orientation: i64,
    /// The unit direction matching `orientation`.
    pub facing: Dir,
    /// The scalar speed: zero when parked, `TANK_VELOCITY` when driving.
    pub speed: i64,
    pub rotation_delay: i64,
    pub is_impacted: bool,
    pub impact_delay: i64,
}

impl Tank {
    pub open spec fn wf(self) -> bool {
        &&& self.solid.wf()
        &&& self.solid.limit == tank_limit()
        &&& -UNIT <= self.solid.pos.x <= 2 * UNIT
        &&& -UNIT <= self.solid.pos.y <= 2 * UNIT
        &&& self.solid.w == TANK_WIDTH
        &&& self.solid.h == TANK_HEIGHT
        &&& 0 <= self.speed <= RANGE
        &&& self.facing.wf()
        &&& in_pos_range(self.orientation as int)
        &&& in_pos_range(self.rotation_delay as int)
        &&& in_pos_range(self.impact_delay as int)
        &&& self.solid.vel.vx == dir_vel_x(self.speed as int, self.facing)
        &&& self.solid.vel.vy == dir_vel_y(self.speed as int, self.facing)
        &&& self.shell.wf()
    }

    /// A tank parked at `(x0, y0)`, barrel at `orientation`, with the
    /// matching unit direction.
    pub fn new(x0: i64, y0: i64, orientation: i64, facing: Dir) -> (t: Tank)
        requires
            -UNIT <= x0 <= 2 * UNIT,
            -UNIT <= y0 <= 2 * UNIT,
            in_pos_range(orientation as int),
            facing.wf(),
        ensures
            t.solid.pos == (Position { x: x0, y: y0 }),
            t.solid.vel == (Velocity { vx: 0i64, vy: 0i64 }),
            t.shell.is_destroyed,
            t.orientation == orientation,
            t.facing == facing,
            t.speed == 0,
            t.rotation_delay == TANK_ROTATION_DELAY,
            !t.is_impacted,
            t.impact_delay == 0,
            t.wf(),
    {
        let pos = Position::new(x0, y0);
        let vel = Velocity::new(0, 0);
        let limit = Rect::from_2_points(
            BOARD_LEFT_LIMIT,
            BOARD_TOP_LIMIT,
            BOARD_RIGHT_LIMIT,
            BOARD_BOTTOM_LIMIT,
        );

        let solid = RectSolid::new(pos, vel, TANK_WIDTH, TANK_HEIGHT, limit);
        proof {
            assert(dir_vel_x(0, facing) == 0);
            assert(dir_vel_y(0, facing) == 0);
        }
        Tank {
            solid,
            shell: Shell::new(),
            orientation,
            facing,
            speed: 0,
            rotation_delay: TANK_ROTATION_DELAY,
            is_impacted: false,
            impact_delay: 0,
        }
    }

    pub fn get_shell(&self) -> (s: &Shell)
        ensures
            s == &self.shell,
    {
        &self.shell
    }

    pub fn get_orientation(&self) -> (a: i64)
        ensures
            a == self.orientation,
    {
        self.orientation
    }

    pub fn is_impacted(&self) -> (r: bool)
        ensures
            r == self.is_impacted,
    {
        self.is_impacted
    }

    /// The tank after an incoming shell hit it: thrown in the shell's
    /// travel direction, and marked impacted.
    pub open spec fn impacted(self, angle: i64, dir: Dir) -> Tank {
        Tank {
            solid: RectSolid {
                vel: Velocity {
                    vx: dir_vel_x(TANK_VELOCITY as int, dir) as i64,
                    vy: dir_vel_y(TANK_VELOCITY as int, dir) as i64,
                },
                ..self.solid
            },
            speed: TANK_VELOCITY,
            orientation: angle,
            facing: dir,
            is_impacted: true,
            ..self
        }
    }

    /// Take a shell hit from direction `dir` at angle `angle`: the tank
    /// is pushed backward, in the direction of the incoming shell.  Only
    /// a tank not already impacted takes a hit; the collision pass
    /// guards for that.
    pub fn impact(&mut self, angle: i64, dir: Dir)
        requires
            old(self).wf(),
            !old(self).is_impacted,
            in_pos_range(angle as int),
            dir.wf(),
        ensures
            *final(self) == old(self).impacted(angle, dir),
            final(self).wf(),
    {
        self.orientation = angle;
        self.facing = dir;
        let vel = dir.velocity(TANK_VELOCITY);
        self.solid.vel.set_vx(vel.vx());
        self.solid.vel.set_vy(vel.vy());
        self.speed = TANK_VELOCITY;
        self.is_impacted = true;
    }

    /// Start driving the way the tank faces.  An impacted tank refuses.
    pub fn accelerate(&mut self) -> (ok: bool)
        requires
            old(self).wf(),
        ensures
            ok == !old(self).is_impacted,
            !ok ==> *final(self) == *old(self),
            ok ==> *final(self) == (Tank {
                solid: RectSolid {
                    vel: Velocity {
                        vx: dir_vel_x(TANK_VELOCITY as int, old(self).facing) as i64,
                        vy: dir_vel_y(TANK_VELOCITY as int, old(self).facing) as i64,
                    },
                    ..old(self).solid
                },
                speed: TANK_VELOCITY,
                ..*old(self)
            }),
            final(self).wf(),
    {
        if self.is_impacted {
            return false;
        }
        let vel = self.facing.velocity(TANK_VELOCITY);
        self.solid.vel.set_vx(vel.vx());
        self.solid.vel.set_vy(vel.vy());
        self.speed = TANK_VELOCITY;
        true
    }

    /// Park.  An impacted tank refuses.
    pub fn decelerate(&mut self) -> (ok: bool)
        requires
            old(self).wf(),
        ensures
            ok == !old(self).is_impacted,
            !ok ==> *final(self) == *old(self),
            ok ==> *final(self) == (Tank {
                solid: RectSolid {
                    vel: Velocity { vx: 0i64, vy: 0i64 },
                    ..old(self).solid
                },
                speed: 0i64,
                ..*old(self)
            }),
            final(self).wf(),
    {
        if self.is_impacted {
            return false;
        }
        self.solid.vel.set_vx(0);
        self.solid.vel.set_vy(0);
        self.speed = 0;
        proof {
            assert(dir_vel_x(0, self.facing) == 0);
            assert(dir_vel_y(0, self.facing) == 0);
        }
        true
    }

    /// One turn step: the orientation moves by the fixed angle, the new
    /// unit direction comes in, and the velocity is re-aimed at the
    /// current speed.
    fn do_turn(&mut self, counter_clockwise: bool, new_facing: Dir)
        requires
            old(self).wf(),
            in_drift_range(old(self).orientation as int),
            new_facing.wf(),
        ensures
            *final(self) == (Tank {
                solid: RectSolid {
                    vel: Velocity {
                        vx: dir_vel_x(old(self).speed as int, new_facing) as i64,
                        vy: dir_vel_y(old(self).speed as int, new_facing) as i64,
                    },
                    ..old(self).solid
                },
                orientation: if counter_clockwise {
                    (old(self).orientation - TANK_ROTATION_ANGLE) as i64
                } else {
                    (old(self).orientation + TANK_ROTATION_ANGLE) as i64
                },
                facing: new_facing,
                ..*old(self)
            }),
            final(self).wf(),
    {
        if counter_clockwise {
            self.orientation = self.orientation - TANK_ROTATION_ANGLE;
        } else {
            self.orientation = self.orientation + TANK_ROTATION_ANGLE;
        }
        self.facing = new_facing;
        let vel = self.facing.velocity(self.speed);
        self.solid.vel.set_vx(vel.vx());
        self.solid.vel.set_vy(vel.vy());
    }

    /// Is the turn timer still running?
    pub fn is_turning(&self) -> (r: bool)
        ensures
            r == (self.rotation_delay < TANK_ROTATION_DELAY),
    {
        self.rotation_delay < TANK_ROTATION_DELAY
    }

    /// Is the tank moving at all?  True when the velocity magnitude
    /// exceeds one grid step per second.
    pub fn is_moving(&self) -> (r: bool)
        requires
            self.wf(),
        ensures
            r == (self.solid.vel.vx * self.solid.vel.vx + self.solid.vel.vy * self.solid.vel.vy
                > 1),
    {
        proof {
            crate::fixed::lemma_square_bounds(self.solid.vel.vx as int);
            crate::fixed::lemma_square_bounds(self.solid.vel.vy as int);
        }
        self.solid.vel.vx * self.solid.vel.vx + self.solid.vel.vy * self.solid.vel.vy > 1
    }

    /// May the tank turn right now?
    pub open spec fn can_turn(self) -> bool {
        !self.is_impacted && self.rotation_delay >= TANK_ROTATION_DELAY
    }

    /// Turn one step counter-clockwise, if the tank is free and the turn
    /// timer has run out.  `new_facing` is the unit direction the
    /// embedder computed for the new orientation.
    pub fn turn_left(&mut self, new_facing: Dir) -> (ok: bool)
        requires
            old(self).wf(),
            in_drift_range(old(self).orientation as int),
            new_facing.wf(),
        ensures
            ok == old(self).can_turn(),
            !ok ==> *final(self) == *old(self),
            ok ==> *final(self) == (Tank {
                solid: RectSolid {
                    vel: Velocity {
                        vx: dir_vel_x(old(self).speed as int, new_facing) as i64,
                        vy: dir_vel_y(old(self).speed as int, new_facing) as i64,
                    },
                    ..old(self).solid
                },
                orientation: (old(self).orientation - TANK_ROTATION_ANGLE) as i64,
                facing: new_facing,
                rotation_delay: 0i64,
                ..*old(self)
            }),
            final(self).wf(),
    {
        if self.is_impacted {
            return false;
        }
        if self.rotation_delay < TANK_ROTATION_DELAY {
            return false;
        }
        self.rotation_delay = 0;
        self.do_turn(true, new_facing);
        true
    }

    /// Turn one step clockwise, if the tank is free and the turn timer
    /// has run out.
    pub fn turn_right(&mut self, new_facing: Dir) -> (ok: bool)
        requires
            old(self).wf(),
            in_drift_range(old(self).orientation as int),
            new_facing.wf(),
        ensures
            ok == old(self).can_turn(),
            !ok ==> *final(self) == *old(self),
            ok ==> *final(self) == (Tank {
                solid: RectSolid {
                    vel: Velocity {
                        vx: dir_vel_x(old(self).speed as int, new_facing) as i64,
                        vy: dir_vel_y(old(self).speed as int, new_facing) as i64,
                    },
                    ..old(self).solid
                },
                orientation: (old(self).orientation + TANK_ROTATION_ANGLE) as i64,
                facing: new_facing,
                rotation_delay: 0i64,
                ..*old(self)
            }),
            final(self).wf(),
    {
        if self.is_impacted {
            return false;
        }
        if self.rotation_delay < TANK_ROTATION_DELAY {
            return false;
        }
        self.rotation_delay = 0;
        self.do_turn(false, new_facing);
        true
    }

    /// May the tank fire right now, and where from?
    pub open spec fn can_fire(self) -> bool {
        !self.is_impacted && self.shell.is_destroyed
    }

    /// Fire a shell from the tank's centre, if the tank is free and the
    /// previous shell is spent.
    pub fn fire(&mut self) -> (ok: bool)
        requires
            old(self).wf(),
            0 <= old(self).solid.pos.x,
            old(self).solid.pos.x + TANK_WIDTH <= UNIT,
            0 <= old(self).solid.pos.y,
            old(self).solid.pos.y + TANK_HEIGHT <= UNIT,
        ensures
            ok == old(self).can_fire(),
            !ok ==> *final(self) == *old(self),
            ok ==> *final(self) == (Tank {
                shell: old(self).shell.launched(
                    old(self).rect_spec().x_mid() as i64,
                    old(self).rect_spec().y_mid() as i64,
                    old(self).orientation,
                    old(self).facing,
                ),
                ..*old(self)
            }),
            final(self).wf(),
    {
        if self.is_impacted {
            return false;
        }
        if self.shell.is_destroyed() {
            let rect = self.solid.as_rect();
            let xc = rect.xc();
            let yc = rect.yc();
            let orientation = self.orientation;
            let facing = self.facing;
            self.shell.launch(xc, yc, orientation, facing);
            return true;
        }
        false
    }

    /// The tank after one frame: the turn timer runs; an impacted tank
    /// counts down its push-back and comes to rest when it ends; then the
    /// tank and its shell move.
    pub open spec fn updated(self, dt: i64) -> Tank {
        let t1 = Tank { rotation_delay: (self.rotation_delay + dt) as i64, ..self };
        let t2 = if t1.is_impacted {
            if t1.impact_delay + dt > TANK_IMPACT_DELAY {
                Tank {
                    impact_delay: 0i64,
                    is_impacted: false,
                    speed: 0i64,
                    solid: RectSolid { vel: Velocity { vx: 0i64, vy: 0i64 }, ..t1.solid },
                    ..t1
                }
            } else {
                Tank { impact_delay: (t1.impact_delay + dt) as i64, ..t1 }
            }
        } else {
            t1
        };
        Tank {
            solid: t2.solid.stepped(dt),
            shell: Shell { solid: t2.shell.solid.stepped(dt), ..t2.shell },
            ..t2
        }
    }

    /// Advance the tank and its shell by one frame.
    pub fn update(&mut self, dt: i64)
        requires
            old(self).wf(),
            in_range(dt),
            in_drift_range(old(self).rotation_delay as int),
            in_drift_range(old(self).impact_delay as int),
        ensures
            *final(self) == old(self).updated(dt),
            final(self).wf(),
    {
        self.rotation_delay = self.rotation_delay + dt;

        if self.is_impacted {
            if self.impact_delay + dt > TANK_IMPACT_DELAY {
                self.impact_delay = 0;
                self.is_impacted = false;
                self.solid.vel.set_vx(0);
                self.solid.vel.set_vy(0);
                self.speed = 0;
                proof {
                    assert(dir_vel_x(0, self.facing) == 0);
                    assert(dir_vel_y(0, self.facing) == 0);
                }
            } else {
                self.impact_delay = self.impact_delay + dt;
            }
        }

        self.solid.update(dt);
        self.shell.update(dt);
    }

    /// Undo the last frame's displacement: step backward by one frame's
    /// worth, the push-back approximation for solid separation.
    pub fn move_back(&mut self, dt: i64)
        requires
            old(self).wf(),
            in_range(dt),
        ensures
            *final(self) == (Tank { solid: old(self).solid.stepped((-dt) as i64), ..*old(self) }),
            final(self).wf(),
    {
        self.solid.update(-dt);
    }
}

impl AsRect for Tank {
    open spec fn rect_req(&self) -> bool {
        true
    }

    open spec fn rect_spec(&self) -> Rect {
        Rect { x: self.solid.pos.x, y: self.solid.pos.y, w: self.solid.w, h: self.solid.h }
    }

    fn as_rect(&self) -> (r: Rect) {
        Rect::new(self.solid.pos.x, self.solid.pos.y, self.solid.w, self.solid.h)
    }
}

/// All entities of one running duel.
pub struct Logic {
    pub score: Score,
    pub left_tank: Tank,
    pub right_tank: Tank,
    pub map: Level,
    pub is_over: bool,
}

impl Logic {
    pub open spec fn wf(self) -> bool {
        self.left_tank.wf() && self.right_tank.wf() && self.map.wf()
    }

    /// A new duel on the given level: tanks at their starting posts,
    /// facing each other dead on, so both unit directions are exact.
    pub fn new(map: Level) -> (l: Logic)
        requires
            map.wf(),
        ensures
            l.score == (Score { left_score: 0u32, right_score: 0u32 }),
            l.left_tank.solid.pos == (Position { x: LEFT_TANK_X0, y: LEFT_TANK_Y0 }),
            l.left_tank.orientation == 0,
            l.left_tank.facing == (Dir { x: UNIT, y: 0i64 }),
            l.left_tank.solid.vel == (Velocity { vx: 0i64, vy: 0i64 }),
            l.left_tank.shell.is_destroyed,
            !l.left_tank.is_impacted,
            l.right_tank.solid.pos == (Position { x: RIGHT_TANK_X0, y: RIGHT_TANK_Y0 }),
            l.right_tank.orientation == crate::angles::HALF_TURN,
            l.right_tank.facing.x == -UNIT && l.right_tank.facing.y == 0,
            l.right_tank.solid.vel == (Velocity { vx: 0i64, vy: 0i64 }),
            l.right_tank.shell.is_destroyed,
            !l.right_tank.is_impacted,
            l.map == map,
            !l.is_over,
            l.wf(),
    {
        Logic {
            score: Score::new(),
            left_tank: Tank::new(LEFT_TANK_X0, LEFT_TANK_Y0, 0, Dir::east()),
            right_tank: Tank::new(
                RIGHT_TANK_X0,
                RIGHT_TANK_Y0,
                crate::angles::HALF_TURN,
                Dir::west(),
            ),
            map,
            is_over: false,
        }
    }

    /// Start over on a new level: score and tanks reset, the given level
    /// installed.
    pub fn change_map(&mut self, map: Level)
        requires
            map.wf(),
        ensures
            final(self).score == (Score { left_score: 0u32, right_score: 0u32 }),
            final(self).left_tank.solid.pos == (Position { x: LEFT_TANK_X0, y: LEFT_TANK_Y0 }),
            final(self).right_tank.solid.pos == (Position { x: RIGHT_TANK_X0, y: RIGHT_TANK_Y0 }),
            final(self).map == map,
            !final(self).is_over,
            final(self).wf(),
    {
        self.score = Score::new();
        self.left_tank = Tank::new(LEFT_TANK_X0, LEFT_TANK_Y0, 0, Dir::east());
        self.right_tank = Tank::new(
            RIGHT_TANK_X0,
            RIGHT_TANK_Y0,
            crate::angles::HALF_TURN,
            Dir::west(),
        );
        self.map = map;
        self.is_over = false;
    }

    /// Advance both tanks (and their shells) by `dt` ticks.
    pub fn update(&mut self, dt: i64)
        requires
            old(self).wf(),
            in_range(dt),
            in_drift_range(old(self).left_tank.rotation_delay as int),
            in_drift_range(old(self).left_tank.impact_delay as int),
            in_drift_range(old(self).right_tank.rotation_delay as int),
            in_drift_range(old(self).right_tank.impact_delay as int),
        ensures
            final(self).left_tank == old(self).left_tank.updated(dt),
            final(self).right_tank == old(self).right_tank.updated(dt),
            final(self).score == old(self).score,
            final(self).map.blocks@ == old(self).map.blocks@,
            final(self).map.index == old(self).map.index,
            final(self).is_over == old(self).is_over,
            final(self).wf(),
    {
        self.left_tank.update(dt);
        self.right_tank.update(dt);
    }

    /// End the duel.
    pub fn over(&mut self)
        ensures
            final(self).is_over,
            final(self).score == old(self).score,
            final(self).left_tank == old(self).left_tank,
            final(self).right_tank == old(self).right_tank,
    {
        self.is_over = true;
    }

    pub fn is_over(&self) -> (r: bool)
        ensures
            r == self.is_over,
    {
        self.is_over
    }
}

/// Is the shell's centre outside the battlefield?
pub open spec fn shell_out(s: Shell) -> bool {
    let r = s.rect_spec();
    ||| r.x_mid() > BOARD_RIGHT_LIMIT
    ||| r.x_mid() < BOARD_LEFT_LIMIT
    ||| r.y_mid() > BOARD_BOTTOM_LIMIT
    ||| r.y_mid() < BOARD_TOP_LIMIT
}

/// The shell after the boundary pass: destroyed once its centre leaves
/// the battlefield.
pub open spec fn shell_after_limits(s: Shell) -> Shell {
    Shell { is_destroyed: s.is_destroyed || shell_out(s), ..s }
}

/// Destroy a shell that flew off the battlefield.
pub fn collide_shell_and_limits(shell: &mut Shell)
    requires
        old(shell).wf(),
    ensures
        *final(shell) == shell_after_limits(*old(shell)),
        final(shell).wf(),
{
    if shell.is_destroyed() {
        return ;
    }
    let shell_rect = shell.as_rect();
    let xc = shell_rect.xc();
    let yc = shell_rect.yc();
    if xc > BOARD_RIGHT_LIMIT || xc < BOARD_LEFT_LIMIT {
        shell.destroy();
    }
    if yc > BOARD_BOTTOM_LIMIT || yc < BOARD_TOP_LIMIT {
        shell.destroy();
    }
}

/// Does the rectangle touch any standing block of the level?
pub open spec fn hits_map(rect: Rect, m: Level) -> bool {
    exists|i: int, j: int|
        0 <= i < BLOCK_COL_COUNT && 0 <= j < BLOCK_ROW_COUNT && (#[trigger] m.has_block(i, j))
            && overlaps(rect, Level::block_rect(i, j))
}

/// The shell after the wall pass: destroyed if it touches any standing
/// block.
pub open spec fn shell_after_map(s: Shell, m: Level) -> Shell {
    Shell { is_destroyed: s.is_destroyed || hits_map(s.rect_spec(), m), ..s }
}

/// Destroy a shell that hit a wall block.
pub fn collide_shell_and_map(shell: &mut Shell, map: &Level)
    requires
        old(shell).wf(),
        map.wf(),
    ensures
        *final(shell) == shell_after_map(*old(shell), *map),
        final(shell).wf(),
{
    let shell_rect = shell.as_rect();
    let ghost g_rect = old(shell).rect_spec();
    let mut i: usize = 0;
    while i < BLOCK_COL_COUNT
        invariant
            0 <= i <= BLOCK_COL_COUNT,
            map.wf(),
            shell_rect == g_rect,
            g_rect == old(shell).rect_spec(),
            g_rect.wf(),
            *shell == (Shell {
                is_destroyed: old(shell).is_destroyed || (exists|a: int, b: int|
                    0 <= a < i && 0 <= b < BLOCK_ROW_COUNT && (#[trigger] map.has_block(a, b))
                        && overlaps(g_rect, Level::block_rect(a, b))),
                ..*old(shell)
            }),
        decreases BLOCK_COL_COUNT - i,
    {
        let mut j: usize = 0;
        while j < BLOCK_ROW_COUNT
            invariant
                0 <= i < BLOCK_COL_COUNT,
                0 <= j <= BLOCK_ROW_COUNT,
                map.wf(),
                shell_rect == g_rect,
                g_rect == old(shell).rect_spec(),
                g_rect.wf(),
                *shell == (Shell {
                    is_destroyed: old(shell).is_destroyed || (exists|a: int, b: int|
                        0 <= a < i && 0 <= b < BLOCK_ROW_COUNT && (#[trigger] map.has_block(a, b))
                            && overlaps(g_rect, Level::block_rect(a, b))) || (exists|b: int|
                        0 <= b < j && (#[trigger] map.has_block(i as int, b)) && overlaps(
                            g_rect,
                            Level::block_rect(i as int, b),
                        )),
                    ..*old(shell)
                }),
            decreases BLOCK_ROW_COUNT - j,
        {
            let block = map.get_block(i as u32, j as u32);
            match block {
                None => (),
                Some(block_rect) => {
                    match collide(&shell_rect, &block_rect) {
                        None => (),
                        Some(_) => {
                            shell.destroy();
                        },
                    }
                },
            }
            j = j + 1;
        }
        i = i + 1;
    }
}

/// Does any standing block of column `i` touch the rectangle?
pub open spec fn column_hit(rect: Rect, m: Level, i: int) -> bool {
    exists|j: int|
        0 <= j < BLOCK_ROW_COUNT && (#[trigger] m.has_block(i, j)) && overlaps(
            rect,
            Level::block_rect(i, j),
        )
}

/// A tank body pushed back once for every column (among the first `i`)
/// holding a block it touches, the push-back approximation for tank
/// versus wall.
pub open spec fn pushed_back(solid: RectSolid, rect: Rect, m: Level, dt: i64, i: int) -> RectSolid
    decreases i,
{
    if i <= 0 {
        solid
    } else {
        let prev = pushed_back(solid, rect, m, dt, i - 1);
        if column_hit(rect, m, i - 1) {
            prev.stepped((-dt) as i64)
        } else {
            prev
        }
    }
}

/// The tank after the wall pass.
pub open spec fn tank_after_map(t: Tank, m: Level, dt: i64) -> Tank {
    Tank { solid: pushed_back(t.solid, t.rect_spec(), m, dt, BLOCK_COL_COUNT as int), ..t }
}

/// Push a tank back out of the walls: one backward step per column that
/// holds a block the tank touches.
pub fn collide_tank_and_map(tank: &mut Tank, map: &Level, dt: i64)
    requires
        old(tank).wf(),
        map.wf(),
        in_range(dt),
    ensures
        *final(tank) == tank_after_map(*old(tank), *map, dt),
        final(tank).wf(),
{
    let tank_rect = tank.as_rect();
    let ghost g_rect = old(tank).rect_spec();
    let mut i: usize = 0;
    while i < BLOCK_COL_COUNT
        invariant
            0 <= i <= BLOCK_COL_COUNT,
            map.wf(),
            in_range(dt),
            tank_rect == g_rect,
            g_rect == old(tank).rect_spec(),
            *tank == (Tank {
                solid: pushed_back(old(tank).solid, g_rect, *map, dt, i as int),
                ..*old(tank)
            }),
            tank.wf(),
            g_rect.wf(),
        decreases BLOCK_COL_COUNT - i,
    {
        let mut hit = false;
        let mut j: usize = 0;
        while j < BLOCK_ROW_COUNT
            invariant
                0 <= i < BLOCK_COL_COUNT,
                0 <= j <= BLOCK_ROW_COUNT,
                map.wf(),
                tank_rect == g_rect,
                g_rect.wf(),
                hit == (exists|b: int|
                    0 <= b < j && (#[trigger] map.has_block(i as int, b)) && overlaps(
                        g_rect,
                        Level::block_rect(i as int, b),
                    )),
            decreases BLOCK_ROW_COUNT - j,
        {
            let block = map.get_block(i as u32, j as u32);
            match block {
                None => (),
                Some(block_rect) => {
                    match collide(&tank_rect, &block_rect) {
                        None => (),
                        Some(_) => {
                            hit = true;
                        },
                    }
                },
            }
            j = j + 1;
        }
        if hit {
            tank.move_back(dt);
        }
        i = i + 1;
    }
}

/// Push both tanks back when they drive into each other.
pub fn collide_tanks(tank1: &mut Tank, tank2: &mut Tank, dt: i64)
    requires
        old(tank1).wf(),
        old(tank2).wf(),
        in_range(dt),
    ensures
        ({
            let met = overlaps(old(tank1).rect_spec(), old(tank2).rect_spec());
            &&& *final(tank1) == if met {
                Tank { solid: old(tank1).solid.stepped((-dt) as i64), ..*old(tank1) }
            } else {
                *old(tank1)
            }
            &&& *final(tank2) == if met {
                Tank { solid: old(tank2).solid.stepped((-dt) as i64), ..*old(tank2) }
            } else {
                *old(tank2)
            }
        }),
        final(tank1).wf(),
        final(tank2).wf(),
{
    let tank1_rect = tank1.as_rect();
    let tank2_rect = tank2.as_rect();
    match collide(&tank1_rect, &tank2_rect) {
        None => (),
        Some(_) => {
            tank1.move_back(dt);
            tank2.move_back(dt);
        },
    }
}

/// Does this shell hit this tank for real: overlapping, with the tank
/// still free?
pub open spec fn shell_hits_tank(s: Shell, t: Tank) -> bool {
    overlaps(t.rect_spec(), s.rect_spec()) && !t.is_impacted
}

/// Let a shell hit a tank: a free tank that the shell touches is thrown
/// in the shell's travel direction, and the shell dies.  Returns whether
/// that happened.
pub fn collide_shell_and_tank(shell: &mut Shell, tank: &mut Tank) -> (scored: bool)
    requires
        old(shell).wf(),
        old(tank).wf(),
    ensures
        scored == shell_hits_tank(*old(shell), *old(tank)),
        scored ==> {
            &&& *final(tank) == old(tank).impacted(old(shell).heading, old(shell).facing)
            &&& *final(shell) == (Shell { is_destroyed: true, ..*old(shell) })
        },
        !scored ==> *final(tank) == *old(tank) && *final(shell) == *old(shell),
        final(shell).wf(),
        final(tank).wf(),
{
    let tank_rect = tank.as_rect();
    let shell_rect = shell.as_rect();
    match collide(&tank_rect, &shell_rect) {
        None => false,
        Some(_) => {
            if !tank.is_impacted() {
                let angle = shell.get_orientation();
                let facing = shell.facing;
                tank.impact(angle, facing);
                shell.destroy();
                return true;
            }
            false
        },
    }
}

/// What one collision pass reported: who scored a hit, so the embedder
/// can play the explosions.
#[derive(Clone, Copy, PartialEq, Eq, Structural, Debug)]
pub struct CollisionEvents {
    pub left_scored: bool,
    pub right_scored: bool,
}

/// The full collision pass of one frame, in the fixed order: shells
/// against the boundary, shells against the walls, tanks against the
/// walls, tank against tank, then each shell against the enemy tank,
/// scoring a point per hit.
pub fn check_collision(logic: &mut Logic, dt: i64) -> (events: CollisionEvents)
    requires
        old(logic).wf(),
        in_range(dt),
        old(logic).score.left_score < u32::MAX,
        old(logic).score.right_score < u32::MAX,
    ensures
        ({
            let m = old(logic).map;
            let ls2 = shell_after_map(shell_after_limits(old(logic).left_tank.shell), m);
            let rs2 = shell_after_map(shell_after_limits(old(logic).right_tank.shell), m);
            let lt0 = Tank { shell: ls2, ..old(logic).left_tank };
            let rt0 = Tank { shell: rs2, ..old(logic).right_tank };
            let lt1 = tank_after_map(lt0, m, dt);
            let rt1 = tank_after_map(rt0, m, dt);
            let met = overlaps(lt1.rect_spec(), rt1.rect_spec());
            let lt2 = if met {
                Tank { solid: lt1.solid.stepped((-dt) as i64), ..lt1 }
            } else {
                lt1
            };
            let rt2 = if met {
                Tank { solid: rt1.solid.stepped((-dt) as i64), ..rt1 }
            } else {
                rt1
            };
            let hit1 = shell_hits_tank(lt2.shell, rt2);
            let rt3 = if hit1 {
                rt2.impacted(lt2.shell.heading, lt2.shell.facing)
            } else {
                rt2
            };
            let lt3 = if hit1 {
                Tank { shell: Shell { is_destroyed: true, ..lt2.shell }, ..lt2 }
            } else {
                lt2
            };
            let hit2 = shell_hits_tank(rt3.shell, lt3);
            let lt4 = if hit2 {
                lt3.impacted(rt3.shell.heading, rt3.shell.facing)
            } else {
                lt3
            };
            let rt4 = if hit2 {
                Tank { shell: Shell { is_destroyed: true, ..rt3.shell }, ..rt3 }
            } else {
                rt3
            };
            &&& final(logic).left_tank == lt4
            &&& final(logic).right_tank == rt4
            &&& events.left_scored == hit1
            &&& events.right_scored == hit2
            &&& final(logic).score == (Score {
                left_score: if hit1 {
                    (old(logic).score.left_score + 1) as u32
                } else {
                    old(logic).score.left_score
                },
                right_score: if hit2 {
                    (old(logic).score.right_score + 1) as u32
                } else {
                    old(logic).score.right_score
                },
            })
        }),
        final(logic).map.blocks@ == old(logic).map.blocks@,
        final(logic).map.index == old(logic).map.index,
        final(logic).is_over == old(logic).is_over,
        final(logic).wf(),
{
    let mut events = CollisionEvents { left_scored: false, right_scored: false };
    collide_shell_and_limits(&mut logic.left_tank.shell);
    collide_shell_and_limits(&mut logic.right_tank.shell);
    collide_shell_and_map(&mut logic.left_tank.shell, &logic.map);
    collide_shell_and_map(&mut logic.right_tank.shell, &logic.map);
    collide_tank_and_map(&mut logic.left_tank, &logic.map, dt);
    collide_tank_and_map(&mut logic.right_tank, &logic.map, dt);
    collide_tanks(&mut logic.left_tank, &mut logic.right_tank, dt);
    if collide_shell_and_tank(&mut logic.left_tank.shell, &mut logic.right_tank) {
        logic.score.point_left();
        events.left_scored = true;
    }
    if collide_shell_and_tank(&mut logic.right_tank.shell, &mut logic.left_tank) {
        logic.score.point_right();
        events.right_scored = true;
    }
    events
}

} // verus!
