//! Axis-aligned rectangles and circles on the fixed-point board grid.

use vstd::prelude::*;
use crate::fixed::{half, in_ext_range, in_range, tdiv, UNIT};

verus! {

/// An axis-aligned rectangle: origin corner plus extents.
///
/// Extents are normally non-negative; `wf` states that together with the
/// coordinate range every function of the library works in.
#[derive(Clone, Copy, PartialEq, Eq, Structural, Debug)]
pub struct Rect {
    pub x: i64,
    pub y: i64,
    pub w: i64,
    pub h: i64,
}

impl Rect {
    /// A rectangle the library accepts: bounded coordinates, extents
    /// non-negative.
    pub open spec fn wf(self) -> bool {
        &&& in_ext_range(self.x as int)
        &&& in_ext_range(self.y as int)
        &&& in_range(self.w)
        &&& in_range(self.h)
        &&& self.w >= 0
        &&& self.h >= 0
    }

    /// Right edge, as a mathematical value.
    pub open spec fn x_end(self) -> int {
        self.x + self.w
    }

    /// Bottom edge, as a mathematical value.
    pub open spec fn y_end(self) -> int {
        self.y + self.h
    }

    /// Horizontal midpoint, as a mathematical value.
    pub open spec fn x_mid(self) -> int {
        tdiv(self.x + self.x_end(), 2)
    }

    /// Vertical midpoint, as a mathematical value.
    pub open spec fn y_mid(self) -> int {
        tdiv(self.y + self.y_end(), 2)
    }

    pub fn new(x: i64, y: i64, w: i64, h: i64) -> (r: Rect)
        ensures
            r == (Rect { x, y, w, h }),
    {
        Rect { x, y, w, h }
    }

    /// The rectangle spanned by two corner points.
    pub fn from_2_points(x0: i64, y0: i64, x1: i64, y1: i64) -> (r: Rect)
        requires
            -0x2000_0000_0000_0000 < x0 < 0x2000_0000_0000_0000,
            -0x2000_0000_0000_0000 < y0 < 0x2000_0000_0000_0000,
            -0x2000_0000_0000_0000 < x1 < 0x2000_0000_0000_0000,
            -0x2000_0000_0000_0000 < y1 < 0x2000_0000_0000_0000,
        ensures
            r.x == x0,
            r.y == y0,
            r.x_end() == x1,
            r.y_end() == y1,
    {
        Rect { x: x0, y: y0, w: x1 - x0, h: y1 - y0 }
    }

    /// The whole board: the unit square.
    pub fn default() -> (r: Rect)
        ensures
            r == (Rect { x: 0i64, y: 0i64, w: UNIT, h: UNIT }),
    {
        Rect { x: 0, y: 0, w: UNIT, h: UNIT }
    }

    pub fn x0(&self) -> (r: i64)
        ensures
            r == self.x,
    {
        self.x
    }

    pub fn x1(&self) -> (r: i64)
        requires
            self.wf(),
        ensures
            r == self.x_end(),
    {
        self.x + self.w
    }

    pub fn xc(&self) -> (r: i64)
        requires
            self.wf(),
        ensures
            r == self.x_mid(),
    {
        half(self.x + (self.x + self.w))
    }

    pub fn y0(&self) -> (r: i64)
        ensures
            r == self.y,
    {
        self.y
    }

    pub fn y1(&self) -> (r: i64)
        requires
            self.wf(),
        ensures
            r == self.y_end(),
    {
        self.y + self.h
    }

    pub fn yc(&self) -> (r: i64)
        requires
            self.wf(),
        ensures
            r == self.y_mid(),
    {
        half(self.y + (self.y + self.h))
    }

    pub fn w(&self) -> (r: i64)
        ensures
            r == self.w,
    {
        self.w
    }

    pub fn h(&self) -> (r: i64)
        ensures
            r == self.h,
    {
        self.h
    }

    pub fn set_w(&mut self, w: i64)
        ensures
            *final(self) == (Rect { w, ..*old(self) }),
    {
        self.w = w;
    }

    pub fn set_h(&mut self, h: i64)
        ensures
            *final(self) == (Rect { h, ..*old(self) }),
    {
        self.h = h;
    }
}

/// Anything that can present itself as a rectangle for collision tests and
/// drawing.
pub trait AsRect {
    /// What the entity asks of itself before building its rectangle.
    spec fn rect_req(&self) -> bool;

    /// The rectangle this entity occupies, as a mathematical value.
    spec fn rect_spec(&self) -> Rect;

    fn as_rect(&self) -> (r: Rect)
        requires
            self.rect_req(),
        ensures
            r == self.rect_spec(),
    ;
}

/// A circle: centre plus radius.
#[derive(Clone, Copy, PartialEq, Eq, Structural, Debug)]
pub struct Circle {
    pub x: i64,
    pub y: i64,
    pub r: i64,
}

impl Circle {
    pub fn new(x: i64, y: i64, r: i64) -> (c: Circle)
        ensures
            c == (Circle { x, y, r }),
    {
        Circle { x, y, r }
    }

    pub fn x(&self) -> (v: i64)
        ensures
            v == self.x,
    {
        self.x
    }

    pub fn y(&self) -> (v: i64)
        ensures
            v == self.y,
    {
        self.y
    }

    pub fn r(&self) -> (v: i64)
        ensures
            v == self.r,
    {
        self.r
    }

    pub fn set_radius(&mut self, r: i64)
        ensures
            *final(self) == (Circle { r, ..*old(self) }),
    {
        self.r = r;
    }
}

/// Anything that can present itself as a circle.
pub trait AsCircle {
    /// What the entity asks of itself before building its circle.
    spec fn circle_req(&self) -> bool;

    /// The circle this entity occupies, as a mathematical value.
    spec fn circle_spec(&self) -> Circle;

    fn as_circle(&self) -> (c: Circle)
        requires
            self.circle_req(),
        ensures
            c == self.circle_spec(),
    ;
}

} // verus!
