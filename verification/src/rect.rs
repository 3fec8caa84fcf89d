//! Screen-space points and rectangles.

use vstd::prelude::*;
use crate::scalar::Scalar;

verus! {

/// A position on screen, in points.
#[derive(Clone, Copy, Debug)]
pub struct Pos2 {
    pub x: Scalar,
    pub y: Scalar,
}

/// An axis-aligned rectangle on screen, given by two opposite corners.
#[derive(Clone, Copy, Debug)]
pub struct Rect {
    /// The corner with the least coordinates.
    pub min: Pos2,
    /// The corner with the greatest coordinates.
    pub max: Pos2,
}

impl Rect {
    /// Whether `p` lies in the rectangle, its border included. A coordinate
    /// that is "not a number", in `p` or in the rectangle, puts `p` outside.
    pub open spec fn contains_spec(self, p: Pos2) -> bool {
        &&& self.min.x.le(p.x)
        &&& p.x.le(self.max.x)
        &&& self.min.y.le(p.y)
        &&& p.y.le(self.max.y)
    }

    /// `p` lies inside the rectangle and not on its border.
    pub open spec fn strictly_inside(self, p: Pos2) -> bool {
        &&& self.min.x.lt(p.x)
        &&& p.x.lt(self.max.x)
        &&& self.min.y.lt(p.y)
        &&& p.y.lt(self.max.y)
    }

    /// `p` lies on the rectangle's border: on one of its four sides, between
    /// the ends of that side or at one of them.
    pub open spec fn on_border(self, p: Pos2) -> bool {
        &&& self.contains_spec(p)
        &&& {
            ||| p.x.same_value(self.min.x)
            ||| p.x.same_value(self.max.x)
            ||| p.y.same_value(self.min.y)
            ||| p.y.same_value(self.max.y)
        }
    }

    /// `p` lies beyond one of the rectangle's sides.
    pub open spec fn strictly_outside(self, p: Pos2) -> bool {
        ||| p.x.lt(self.min.x)
        ||| p.x.gt(self.max.x)
        ||| p.y.lt(self.min.y)
        ||| p.y.gt(self.max.y)
    }

    /// The bounding rectangle of two points.
    pub open spec fn from_two_pos_spec(a: Pos2, b: Pos2) -> Rect {
        Rect {
            min: Pos2 { x: a.x.min(b.x), y: a.y.min(b.y) },
            max: Pos2 { x: a.x.max(b.x), y: a.y.max(b.y) },
        }
    }

    /// The bounding rectangle of two points, whichever way the drag went.
    #[verifier::when_used_as_spec(from_two_pos_spec)]
    pub fn from_two_pos(a: Pos2, b: Pos2) -> (r: Rect)
        ensures
            r == Self::from_two_pos_spec(a, b),
    {
        Rect {
            min: Pos2 { x: a.x.min(b.x), y: a.y.min(b.y) },
            max: Pos2 { x: a.x.max(b.x), y: a.y.max(b.y) },
        }
    }

    /// Whether `p` lies in the rectangle, its border included.
    #[verifier::when_used_as_spec(contains_spec)]
    pub fn contains(self, p: Pos2) -> (b: bool)
        ensures
            b == self.contains_spec(p),
    {
        self.min.x.le(p.x) && p.x.le(self.max.x) && self.min.y.le(p.y) && p.y.le(self.max.y)
    }
}

/// The bounding rectangle of two points contains both, and every point that
/// lies between them on each axis, provided no coordinate is "not a number".
pub proof fn lemma_bounding_rect_contains(a: Pos2, b: Pos2, p: Pos2)
    requires
        !a.x.is_nan() && !a.y.is_nan() && !b.x.is_nan() && !b.y.is_nan(),
    ensures
        Rect::from_two_pos(a, b).contains(a),
        Rect::from_two_pos(a, b).contains(b),
        Rect::from_two_pos(a, b).contains(p) <==> {
            &&& (a.x.le(p.x) && p.x.le(b.x)) || (b.x.le(p.x) && p.x.le(a.x))
            &&& (a.y.le(p.y) && p.y.le(b.y)) || (b.y.le(p.y) && p.y.le(a.y))
        },
{
}

/// A rectangle contains the points strictly inside it and the points on its
/// border, and no point strictly outside it.
pub proof fn lemma_contains_is_inclusive(rect: Rect, p: Pos2)
    ensures
        rect.strictly_inside(p) ==> rect.contains(p),
        rect.on_border(p) ==> rect.contains(p),
        rect.strictly_outside(p) ==> !rect.contains(p),
        rect.contains(p) ==> rect.strictly_inside(p) || rect.on_border(p),
{
}

} // verus!
