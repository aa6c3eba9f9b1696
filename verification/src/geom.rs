//! Axis-aligned rectangles and the strict overlap test used for collisions.

use vstd::prelude::*;
use crate::fxpt::Fxpt;

verus! {

/// An axis-aligned rectangle in fixed-point units, used both for wall
/// segments and for floating obstacles.
#[derive(Clone, Copy, PartialEq, Eq, Structural, Debug)]
pub struct Obstacle {
    pub x: Fxpt,
    pub y: Fxpt,
    pub width: Fxpt,
    pub height: Fxpt,
}

/// Two half-open spans `[a1, a2)` and `[b1, b2)` overlap: the larger start
/// lies strictly below the smaller end.  Spans that merely touch at an
/// endpoint do not overlap.
pub open spec fn spans_overlap(a1: int, a2: int, b1: int, b2: int) -> bool {
    (if a1 > b1 {
        a1
    } else {
        b1
    }) < (if a2 < b2 {
        a2
    } else {
        b2
    })
}

/// Spans that share only an endpoint never count as overlapping, while spans
/// sharing at least one interior unit always do.
pub proof fn lemma_overlap_strictness(a1: int, a2: int, b1: int, b2: int)
    ensures
        a2 == b1 ==> !spans_overlap(a1, a2, b1, b2),
        b2 == a1 ==> !spans_overlap(a1, a2, b1, b2),
        a1 <= b1 && b1 + 1 <= a2 ==> spans_overlap(a1, a2, b1, b1 + 1),
{
}

/// Rectangles that merely share an edge do not collide, while rectangles
/// overlapping by at least one unit on both axes always do.
pub proof fn lemma_rect_collision_strictness(a: Obstacle, b: Obstacle)
    ensures
        a.x.0 + a.width.0 == b.x.0 ==> !rects_overlap(a, b),
        b.x.0 + b.width.0 == a.x.0 ==> !rects_overlap(a, b),
        a.y.0 + a.height.0 == b.y.0 ==> !rects_overlap(a, b),
        b.y.0 + b.height.0 == a.y.0 ==> !rects_overlap(a, b),
        (a.x.0 <= b.x.0 && b.x.0 + 1 <= a.x.0 + a.width.0 && b.x.0 + 1 <= b.x.0 + b.width.0
            && a.y.0 <= b.y.0 && b.y.0 + 1 <= a.y.0 + a.height.0 && b.y.0 + 1 <= b.y.0
            + b.height.0) ==> rects_overlap(a, b),
{
}

/// The rectangles `a` and `b` overlap on both axes, edges excluded.
pub open spec fn rects_overlap(a: Obstacle, b: Obstacle) -> bool {
    &&& spans_overlap(a.x.0 as int, a.x.0 + a.width.0, b.x.0 as int, b.x.0 + b.width.0)
    &&& spans_overlap(a.y.0 as int, a.y.0 + a.height.0, b.y.0 as int, b.y.0 + b.height.0)
}

/// Executable strict overlap test between two rectangles whose edge sums
/// stay within the backing integer.
pub fn rects_overlap_exec(a: &Obstacle, b: &Obstacle) -> (r: bool)
    requires
        i16::MIN <= a.x.0 + a.width.0 <= i16::MAX,
        i16::MIN <= a.y.0 + a.height.0 <= i16::MAX,
        i16::MIN <= b.x.0 + b.width.0 <= i16::MAX,
        i16::MIN <= b.y.0 + b.height.0 <= i16::MAX,
    ensures
        r == rects_overlap(*a, *b),
{
    let a1 = a.x.0;
    let a2 = a.x.0 + a.width.0;
    let b1 = b.x.0;
    let b2 = b.x.0 + b.width.0;
    let c1 = a.y.0;
    let c2 = a.y.0 + a.height.0;
    let d1 = b.y.0;
    let d2 = b.y.0 + b.height.0;
    let x_lo = if a1 > b1 { a1 } else { b1 };
    let x_hi = if a2 < b2 { a2 } else { b2 };
    let y_lo = if c1 > d1 { c1 } else { d1 };
    let y_hi = if c2 < d2 { c2 } else { d2 };
    x_lo < x_hi && y_lo < y_hi
}

} // verus!
