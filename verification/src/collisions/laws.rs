//! What holds of the dispatcher for every pair of shapes.

use vstd::prelude::*;
use super::catalogue::PredicateCall;
use super::{pair_query, point_query, Collisions};
use crate::point::Point2D;
use crate::shapes::affine::{Affine2D, TypedAffine2D};
use crate::shapes::circle::Circle;
use crate::shapes::line::Line2D;
use crate::shapes::rectangle::Rectangle;
use crate::shapes::segment::Segment2D;
use crate::shapes::Shape2D;

verus! {

/// Dispatch hands both shapes on as they are: the operands of the resolved
/// call are `a` and `b`, each with its anchor and all its dimensions, in one
/// order or the other.
pub proof fn lemma_query_keeps_operands<S: Copy>(a: Affine2D<S>, b: Affine2D<S>)
    ensures
        pair_query(a, b).operands() == (a, b) || pair_query(a, b).operands() == (b, a),
{
}

/// Every call of the catalogue is what some query resolves to: dispatching
/// on a call's own operands gives the call back, or its exchange where the
/// operands are of one kind. So each of the fifteen predicates is in use,
/// and a pair of shapes determines its predicate call up to that exchange.
pub proof fn lemma_every_call_is_resolved<S: Copy>(call: PredicateCall<S>)
    ensures
        pair_query(call.operands().0, call.operands().1) == call || pair_query(
            call.operands().0,
            call.operands().1,
        ) == call.exchanged(),
        !call.is_homogeneous() ==> pair_query(call.operands().0, call.operands().1) == call,
        !call.is_homogeneous() ==> pair_query(call.operands().1, call.operands().0) == call,
{
}

/// Asking in the other direction resolves to the same predicate on the same
/// two operands: in the same order where the kinds differ, exchanged where
/// they agree.
pub proof fn lemma_query_mirrored<S: Copy>(a: Affine2D<S>, b: Affine2D<S>)
    ensures
        pair_query(b, a) == pair_query(a, b).exchanged(),
        pair_query(a, b).is_homogeneous() <==> a.shape.same_kind(b.shape),
        !a.shape.same_kind(b.shape) ==> pair_query(b, a) == pair_query(a, b),
{
}

/// Dispatch is symmetric in its outcome: whatever evaluates the predicate
/// calls, as long as it gives a same-kind call and its exchange the same
/// answer, gives the query from `a` to `b` and the query from `b` to `a`
/// the same answer.
pub proof fn lemma_outcome_symmetric<S: Copy>(
    a: Affine2D<S>,
    b: Affine2D<S>,
    outcome: spec_fn(PredicateCall<S>) -> bool,
)
    requires
        forall|call: PredicateCall<S>|
            call.is_homogeneous() ==> outcome(#[trigger] call.exchanged()) == outcome(call),
    ensures
        outcome(pair_query(a, b)) == outcome(pair_query(b, a)),
{
    lemma_query_mirrored(a, b);
}

/// A shape asked about a point and the point asked about the shape resolve
/// to the same predicate call; two bare points resolve to the point
/// predicate on the asking point first.
pub proof fn lemma_point_query_mirrored<S: Copy>(a: Affine2D<S>, p: Point2D<S>, q: Point2D<S>)
    ensures
        p.query(&a) == a.query(&p),
        q.query(&p) == p.query(&q).exchanged(),
{
}

/// A bare point and a point shape at the same anchor are the same operand:
/// a query against either resolves to the same predicate on the same
/// operands.
pub proof fn lemma_point_shape_is_point<S: Copy>(a: Affine2D<S>, p: Point2D<S>)
    ensures
        !(a.shape is Point) ==> pair_query(a, Affine2D { shape: Shape2D::Point, point: p })
            == point_query(a, p),
        a.shape is Point ==> pair_query(a, Affine2D { shape: Shape2D::Point, point: p })
            == point_query(a, p).exchanged(),
        pair_query(Affine2D { shape: Shape2D::Point, point: p }, a) == point_query(a, p),
{
}

/// Erasing the types of two positioned shapes and dispatching on the tags
/// recovers both types: the query resolves to the predicate named after the
/// two kinds, applied to the very operands that were erased. Where the kinds
/// differ this holds whichever operand asks. Two shapes of one kind reach
/// their predicate in the order asking shape, asked shape; two segments in
/// the order asked segment, asking segment.
pub proof fn lemma_typed_round_trip<S: Copy>(
    c1: TypedAffine2D<Circle<S>>,
    c2: TypedAffine2D<Circle<S>>,
    r1: TypedAffine2D<Rectangle<S>>,
    r2: TypedAffine2D<Rectangle<S>>,
    l1: TypedAffine2D<Line2D<S>>,
    l2: TypedAffine2D<Line2D<S>>,
    s1: TypedAffine2D<Segment2D<S>>,
    s2: TypedAffine2D<Segment2D<S>>,
    p: Point2D<S>,
    q: Point2D<S>,
)
    ensures
        p.query(&q) == PredicateCall::PointPoint(p, q),
        l1.query(&p) == PredicateCall::LinePoint(l1, p),
        s1.query(&p) == PredicateCall::SegmentPoint(s1, p),
        c1.query(&p) == PredicateCall::CirclePoint(c1, p),
        r1.query(&p) == PredicateCall::RectPoint(r1, p),
        l1.query(&l2) == PredicateCall::LineLine(l1, l2),
        l1.query(&s1) == PredicateCall::LineSegment(l1, s1),
        s1.query(&l1) == PredicateCall::LineSegment(l1, s1),
        s1.query(&s2) == PredicateCall::SegmentSegment(s2, s1),
        r1.query(&l1) == PredicateCall::RectLine(r1, l1),
        l1.query(&r1) == PredicateCall::RectLine(r1, l1),
        r1.query(&s1) == PredicateCall::RectSegment(r1, s1),
        s1.query(&r1) == PredicateCall::RectSegment(r1, s1),
        c1.query(&l1) == PredicateCall::CircleLine(c1, l1),
        l1.query(&c1) == PredicateCall::CircleLine(c1, l1),
        c1.query(&s1) == PredicateCall::CircleSegment(c1, s1),
        s1.query(&c1) == PredicateCall::CircleSegment(c1, s1),
        c1.query(&r1) == PredicateCall::CircleRect(c1, r1),
        r1.query(&c1) == PredicateCall::CircleRect(c1, r1),
        c1.query(&c2) == PredicateCall::CircleCircle(c1, c2),
        r1.query(&r2) == PredicateCall::RectRect(r1, r2),
{
}

} // verus!
