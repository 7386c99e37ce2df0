//! The pairwise rectangle overlap test shared by every game.
//!
//! Intervals are closed: two rectangles that merely touch along an edge or
//! a corner still count as overlapping, and the reported overlap rectangle
//! then has zero extent on the touching axis.  Only a strict gap on some
//! axis reports no overlap.  This is the one consistent convention; callers
//! that want touching to not count can test the overlap's extents.

use vstd::prelude::*;
use crate::geometry::Rect;

verus! {

/// Do the two rectangles intersect as closed point sets?
pub open spec fn overlaps(a: Rect, b: Rect) -> bool {
    &&& b.x <= a.x_end()
    &&& a.x <= b.x_end()
    &&& b.y <= a.y_end()
    &&& a.y <= b.y_end()
}

/// The intersection rectangle of two overlapping rectangles.
pub open spec fn overlap_rect(a: Rect, b: Rect) -> Rect {
    let x0 = if a.x >= b.x { a.x } else { b.x };
    let y0 = if a.y >= b.y { a.y } else { b.y };
    let xe = if a.x_end() <= b.x_end() { a.x_end() } else { b.x_end() };
    let ye = if a.y_end() <= b.y_end() { a.y_end() } else { b.y_end() };
    Rect { x: x0, y: y0, w: (xe - x0) as i64, h: (ye - y0) as i64 }
}

/// Is `inner` contained in `outer` as a closed point set?
pub open spec fn contains(outer: Rect, inner: Rect) -> bool {
    &&& outer.x <= inner.x
    &&& inner.x_end() <= outer.x_end()
    &&& outer.y <= inner.y
    &&& inner.y_end() <= outer.y_end()
}

/// The overlap rectangle of two rectangles, or `None` when they have a
/// strict gap on some axis.
pub fn collide(r1: &Rect, r2: &Rect) -> (res: Option<Rect>)
    requires
        r1.wf(),
        r2.wf(),
    ensures
        res is Some <==> overlaps(*r1, *r2),
        overlaps(*r1, *r2) ==> res == Some(overlap_rect(*r1, *r2)),
{
    if r1.x0() < r2.x0() && r2.x0() > r1.x1() {
        return None;
    }
    if r2.x0() < r1.x0() && r1.x0() > r2.x1() {
        return None;
    }
    if r1.y0() < r2.y0() && r2.y0() > r1.y1() {
        return None;
    }
    if r2.y0() < r1.y0() && r1.y0() > r2.y1() {
        return None;
    }

    let x0 = if r1.x >= r2.x { r1.x } else { r2.x };
    let y0 = if r1.y >= r2.y { r1.y } else { r2.y };
    let r1xe = r1.x1();
    let r2xe = r2.x1();
    let xe = if r1xe <= r2xe { r1xe } else { r2xe };
    let r1ye = r1.y1();
    let r2ye = r2.y1();
    let ye = if r1ye <= r2ye { r1ye } else { r2ye };

    Some(Rect::from_2_points(x0, y0, xe, ye))
}

/// The overlap test does not care about the order of its arguments: it
/// reports the same overlap-or-none outcome, and the same overlap
/// rectangle, both ways round.
pub proof fn lemma_overlap_symmetric(a: Rect, b: Rect)
    requires
        a.wf(),
        b.wf(),
    ensures
        overlaps(a, b) == overlaps(b, a),
        overlaps(a, b) ==> overlap_rect(a, b) == overlap_rect(b, a),
{
}

/// A rectangle fully inside another overlaps it, and the overlap is the
/// inner rectangle itself.
pub proof fn lemma_overlap_containment(a: Rect, b: Rect)
    requires
        a.wf(),
        b.wf(),
        contains(b, a),
    ensures
        overlaps(a, b),
        overlap_rect(a, b) == a,
{
}

/// A strict gap between the right edge of one rectangle and the left edge
/// of the other means no overlap.
pub proof fn lemma_gap_no_overlap(a: Rect, b: Rect)
    requires
        a.wf(),
        b.wf(),
        a.x_end() < b.x,
    ensures
        !overlaps(a, b),
{
}

/// Rectangles sharing exactly one vertical edge, with no gap on the other
/// axis, do overlap, and the overlap is a zero-width sliver on that edge.
pub proof fn lemma_edge_contact(a: Rect, b: Rect)
    requires
        a.wf(),
        b.wf(),
        a.x_end() == b.x,
        b.y <= a.y_end(),
        a.y <= b.y_end(),
    ensures
        overlaps(a, b),
        overlap_rect(a, b).x == b.x,
        overlap_rect(a, b).w == 0,
{
}

} // verus!
