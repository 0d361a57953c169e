//! The catalogue of pairwise overlap predicates.

use vstd::prelude::*;
use crate::point::Point2D;
use crate::shapes::affine::{Affine2D, TypedAffine2D};
use crate::shapes::circle::Circle;
use crate::shapes::line::Line2D;
use crate::shapes::rectangle::Rectangle;
use crate::shapes::segment::Segment2D;
use crate::shapes::{Shape2D, Shape2DType};

verus! {

/// One predicate of the catalogue together with the two operands it is to be
/// evaluated on, in the order in which the predicate takes them.
///
/// There is one variant for each unordered pair of shape kinds, fifteen in
/// all. Where the kinds differ the operand order is fixed by the variant;
/// where they agree the two operands have the same type and either order is
/// a well-formed call.
///
/// Each variant is documented with the rule its predicate stands for. Shapes
/// are closed regions, so shapes that merely touch overlap, and every
/// comparison is meant up to one fixed tolerance. Evaluating a rule takes
/// arithmetic on the scalars and is left to the caller.
#[derive(Debug, Copy)]
pub enum PredicateCall<S: Copy> {
    /// The two points agree on both axes.
    PointPoint(Point2D<S>, Point2D<S>),
    /// The point lies on the infinite line.
    LinePoint(TypedAffine2D<Line2D<S>>, Point2D<S>),
    /// The point lies on the segment's carrier line and no farther from the
    /// segment's anchor than half its length.
    SegmentPoint(TypedAffine2D<Segment2D<S>>, Point2D<S>),
    /// The point is no farther from the circle's centre than its radius.
    CirclePoint(TypedAffine2D<Circle<S>>, Point2D<S>),
    /// Both coordinates of the point lie within the rectangle's extent.
    RectPoint(TypedAffine2D<Rectangle<S>>, Point2D<S>),
    /// The lines cross, or they are one and the same line; parallel lines
    /// apart from each other are the one case that does not overlap.
    LineLine(TypedAffine2D<Line2D<S>>, TypedAffine2D<Line2D<S>>),
    /// The line meets the segment's carrier line within the segment, or runs
    /// along it.
    LineSegment(TypedAffine2D<Line2D<S>>, TypedAffine2D<Segment2D<S>>),
    /// The carrier lines meet in a point of both segments, or the segments
    /// are collinear and their anchors no farther apart than the sum of their
    /// half-lengths.
    SegmentSegment(TypedAffine2D<Segment2D<S>>, TypedAffine2D<Segment2D<S>>),
    /// The line meets one of the rectangle's four edges.
    RectLine(TypedAffine2D<Rectangle<S>>, TypedAffine2D<Line2D<S>>),
    /// The segment meets one of the rectangle's four edges, or its anchor
    /// lies inside the rectangle.
    RectSegment(TypedAffine2D<Rectangle<S>>, TypedAffine2D<Segment2D<S>>),
    /// The circle's centre is no farther from the line than its radius.
    CircleLine(TypedAffine2D<Circle<S>>, TypedAffine2D<Line2D<S>>),
    /// The foot of the perpendicular from the circle's centre lies on the
    /// segment and within the circle, or else one of the segment's end points
    /// lies within the circle.
    CircleSegment(TypedAffine2D<Circle<S>>, TypedAffine2D<Segment2D<S>>),
    /// The point of the rectangle nearest to the circle's centre lies within
    /// the circle.
    CircleRect(TypedAffine2D<Circle<S>>, TypedAffine2D<Rectangle<S>>),
    /// The centres are no farther apart than the sum of the radii.
    CircleCircle(TypedAffine2D<Circle<S>>, TypedAffine2D<Circle<S>>),
    /// The rectangles' extents overlap on both axes.
    RectRect(TypedAffine2D<Rectangle<S>>, TypedAffine2D<Rectangle<S>>),
}

impl<S: Copy> Clone for PredicateCall<S> {
    fn clone(&self) -> (copy: Self)
        ensures
            copy == *self,
    {
        *self
    }
}

impl<S: Copy> PredicateCall<S> {
    /// Whether both operands of this call are of the same shape kind.
    pub open spec fn is_homogeneous(self) -> bool {
        self is PointPoint || self is LineLine || self is SegmentSegment || self is CircleCircle
            || self is RectRect
    }

    /// The two operands of this call in tagged form, in the call's order. A
    /// bare point stands as the point shape at that anchor.
    pub open spec fn operands(self) -> (Affine2D<S>, Affine2D<S>) {
        match self {
            PredicateCall::PointPoint(p, q) => (
                Affine2D { shape: Shape2D::Point, point: p },
                Affine2D { shape: Shape2D::Point, point: q },
            ),
            PredicateCall::LinePoint(l, p) => (
                l.tagged(),
                Affine2D { shape: Shape2D::Point, point: p },
            ),
            PredicateCall::SegmentPoint(s, p) => (
                s.tagged(),
                Affine2D { shape: Shape2D::Point, point: p },
            ),
            PredicateCall::CirclePoint(c, p) => (
                c.tagged(),
                Affine2D { shape: Shape2D::Point, point: p },
            ),
            PredicateCall::RectPoint(r, p) => (
                r.tagged(),
                Affine2D { shape: Shape2D::Point, point: p },
            ),
            PredicateCall::LineLine(l1, l2) => (l1.tagged(), l2.tagged()),
            PredicateCall::LineSegment(l, s) => (l.tagged(), s.tagged()),
            PredicateCall::SegmentSegment(s1, s2) => (s1.tagged(), s2.tagged()),
            PredicateCall::RectLine(r, l) => (r.tagged(), l.tagged()),
            PredicateCall::RectSegment(r, s) => (r.tagged(), s.tagged()),
            PredicateCall::CircleLine(c, l) => (c.tagged(), l.tagged()),
            PredicateCall::CircleSegment(c, s) => (c.tagged(), s.tagged()),
            PredicateCall::CircleRect(c, r) => (c.tagged(), r.tagged()),
            PredicateCall::CircleCircle(c1, c2) => (c1.tagged(), c2.tagged()),
            PredicateCall::RectRect(r1, r2) => (r1.tagged(), r2.tagged()),
        }
    }

    /// The same predicate with its two operands exchanged, where they are of
    /// the same kind; the call itself where they are not, since there the
    /// variant fixes the order.
    pub open spec fn exchanged(self) -> Self {
        match self {
            PredicateCall::PointPoint(p, q) => PredicateCall::PointPoint(q, p),
            PredicateCall::LineLine(l1, l2) => PredicateCall::LineLine(l2, l1),
            PredicateCall::SegmentSegment(s1, s2) => PredicateCall::SegmentSegment(s2, s1),
            PredicateCall::CircleCircle(c1, c2) => PredicateCall::CircleCircle(c2, c1),
            PredicateCall::RectRect(r1, r2) => PredicateCall::RectRect(r2, r1),
            mixed => mixed,
        }
    }
}

} // verus!
