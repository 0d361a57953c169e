//! Dispatch of overlap queries to the predicate catalogue.
//!
//! Whether two shapes overlap is answered in two steps. The dispatcher, here,
//! looks at the kinds of the two shapes and resolves the query to one call of
//! the catalogue: which of the fifteen predicates, on which operands, in
//! which order. Whoever holds the scalar type then evaluates that call.
//!
//! The mirrored query is not dispatched by logic of its own. Asking `b`
//! about `a` resolves to the predicate that asking `a` about `b` resolves to,
//! on the same operands, so an answer cannot depend on who asks except
//! through the predicate itself; see the `laws` module for what is proved.

use vstd::prelude::*;
use self::catalogue::PredicateCall;
use crate::point::Point2D;
use crate::shapes::affine::{Affine2D, EmbedInAffine2D, TypedAffine2D};
use crate::shapes::{Shape2D, Shape2DType};

pub mod catalogue;
pub mod laws;

verus! {

/// Reserved for overlap queries that cannot be resolved. Every pair of
/// shapes this crate can express resolves, so no function here returns it.
#[derive(Debug)]
pub struct CollisionsError;

/// The predicate call that decides whether the shape `a` overlaps the
/// point `p`.
pub open spec fn point_query<S: Copy>(a: Affine2D<S>, p: Point2D<S>) -> PredicateCall<S> {
    match a.shape {
        Shape2D::Rectangle { rect } => PredicateCall::RectPoint(
            TypedAffine2D { point: a.point, shape: rect },
            p,
        ),
        Shape2D::Circle { circle } => PredicateCall::CirclePoint(
            TypedAffine2D { point: a.point, shape: circle },
            p,
        ),
        Shape2D::Line { line } => PredicateCall::LinePoint(
            TypedAffine2D { point: a.point, shape: line },
            p,
        ),
        Shape2D::Segment { segment } => PredicateCall::SegmentPoint(
            TypedAffine2D { point: a.point, shape: segment },
            p,
        ),
        Shape2D::Point => PredicateCall::PointPoint(a.point, p),
    }
}

/// The predicate call that decides whether the shapes `a` and `b` overlap:
/// one row for each ordered pair of kinds.
pub open spec fn pair_query<S: Copy>(a: Affine2D<S>, b: Affine2D<S>) -> PredicateCall<S> {
    match (a.shape, b.shape) {
        (Shape2D::Point, _) => point_query(b, a.point),
        (_, Shape2D::Point) => point_query(a, b.point),
        (Shape2D::Line { line: l1 }, Shape2D::Line { line: l2 }) => PredicateCall::LineLine(
            TypedAffine2D { point: a.point, shape: l1 },
            TypedAffine2D { point: b.point, shape: l2 },
        ),
        (Shape2D::Line { line }, Shape2D::Segment { segment }) => PredicateCall::LineSegment(
            TypedAffine2D { point: a.point, shape: line },
            TypedAffine2D { point: b.point, shape: segment },
        ),
        (Shape2D::Line { line }, Shape2D::Rectangle { rect }) => PredicateCall::RectLine(
            TypedAffine2D { point: b.point, shape: rect },
            TypedAffine2D { point: a.point, shape: line },
        ),
        (Shape2D::Line { line }, Shape2D::Circle { circle }) => PredicateCall::CircleLine(
            TypedAffine2D { point: b.point, shape: circle },
            TypedAffine2D { point: a.point, shape: line },
        ),
        (Shape2D::Segment { segment }, Shape2D::Line { line }) => PredicateCall::LineSegment(
            TypedAffine2D { point: b.point, shape: line },
            TypedAffine2D { point: a.point, shape: segment },
        ),
        (Shape2D::Segment { segment: s1 }, Shape2D::Segment { segment: s2 }) =>
            PredicateCall::SegmentSegment(
            TypedAffine2D { point: b.point, shape: s2 },
            TypedAffine2D { point: a.point, shape: s1 },
        ),
        (Shape2D::Segment { segment }, Shape2D::Rectangle { rect }) => PredicateCall::RectSegment(
            TypedAffine2D { point: b.point, shape: rect },
            TypedAffine2D { point: a.point, shape: segment },
        ),
        (Shape2D::Segment { segment }, Shape2D::Circle { circle }) => PredicateCall::CircleSegment(
            TypedAffine2D { point: b.point, shape: circle },
            TypedAffine2D { point: a.point, shape: segment },
        ),
        (Shape2D::Circle { circle }, Shape2D::Line { line }) => PredicateCall::CircleLine(
            TypedAffine2D { point: a.point, shape: circle },
            TypedAffine2D { point: b.point, shape: line },
        ),
        (Shape2D::Circle { circle }, Shape2D::Segment { segment }) => PredicateCall::CircleSegment(
            TypedAffine2D { point: a.point, shape: circle },
            TypedAffine2D { point: b.point, shape: segment },
        ),
        (Shape2D::Circle { circle }, Shape2D::Rectangle { rect }) => PredicateCall::CircleRect(
            TypedAffine2D { point: a.point, shape: circle },
            TypedAffine2D { point: b.point, shape: rect },
        ),
        (Shape2D::Circle { circle: c1 }, Shape2D::Circle { circle: c2 }) =>
            PredicateCall::CircleCircle(
            TypedAffine2D { point: a.point, shape: c1 },
            TypedAffine2D { point: b.point, shape: c2 },
        ),
        (Shape2D::Rectangle { rect }, Shape2D::Line { line }) => PredicateCall::RectLine(
            TypedAffine2D { point: a.point, shape: rect },
            TypedAffine2D { point: b.point, shape: line },
        ),
        (Shape2D::Rectangle { rect }, Shape2D::Segment { segment }) => PredicateCall::RectSegment(
            TypedAffine2D { point: a.point, shape: rect },
            TypedAffine2D { point: b.point, shape: segment },
        ),
        (Shape2D::Rectangle { rect }, Shape2D::Circle { circle }) => PredicateCall::CircleRect(
            TypedAffine2D { point: b.point, shape: circle },
            TypedAffine2D { point: a.point, shape: rect },
        ),
        (Shape2D::Rectangle { rect: r1 }, Shape2D::Rectangle { rect: r2 }) =>
            PredicateCall::RectRect(
            TypedAffine2D { point: a.point, shape: r1 },
            TypedAffine2D { point: b.point, shape: r2 },
        ),
    }
}

/// Resolving an overlap query between `self` and a shape of type `T`.
pub trait Collisions<T> {
    /// The scalar type of both operands.
    type Scalar: Copy;

    /// The predicate call that decides whether `self` and `shape` overlap.
    spec fn query(&self, shape: &T) -> PredicateCall<Self::Scalar>;

    /// Resolves the query to the one catalogue predicate that decides it,
    /// with the operands in that predicate's order. Always succeeds.
    fn check_collision(&self, shape: &T) -> (result: Result<
        PredicateCall<Self::Scalar>,
        CollisionsError,
    >)
        ensures
            result == Ok::<PredicateCall<Self::Scalar>, CollisionsError>(self.query(shape)),
    ;
}

impl<S: Copy> Collisions<Point2D<S>> for Point2D<S> {
    type Scalar = S;

    open spec fn query(&self, point: &Point2D<S>) -> PredicateCall<S> {
        PredicateCall::PointPoint(*self, *point)
    }

    fn check_collision(&self, point: &Point2D<S>) -> (result: Result<
        PredicateCall<S>,
        CollisionsError,
    >) {
        Ok(PredicateCall::PointPoint(*self, *point))
    }
}

impl<S: Copy> Collisions<Point2D<S>> for Affine2D<S> {
    type Scalar = S;

    open spec fn query(&self, point: &Point2D<S>) -> PredicateCall<S> {
        point_query(*self, *point)
    }

    fn check_collision(&self, point: &Point2D<S>) -> (result: Result<
        PredicateCall<S>,
        CollisionsError,
    >) {
        match &self.shape {
            Shape2D::Rectangle { rect: r } => Ok(
                PredicateCall::RectPoint(r.embed_affine(&self.point), *point),
            ),
            Shape2D::Circle { circle: c } => Ok(
                PredicateCall::CirclePoint(c.embed_affine(&self.point), *point),
            ),
            Shape2D::Point => Ok(PredicateCall::PointPoint(self.point, *point)),
            Shape2D::Line { line: l } => Ok(
                PredicateCall::LinePoint(l.embed_affine(&self.point), *point),
            ),
            Shape2D::Segment { segment: s } => Ok(
                PredicateCall::SegmentPoint(TypedAffine2D::new(self.point, *s), *point),
            ),
        }
    }
}

impl<S: Copy> Collisions<Affine2D<S>> for Point2D<S> {
    type Scalar = S;

    open spec fn query(&self, shape: &Affine2D<S>) -> PredicateCall<S> {
        point_query(*shape, *self)
    }

    fn check_collision(&self, shape: &Affine2D<S>) -> (result: Result<
        PredicateCall<S>,
        CollisionsError,
    >) {
        shape.check_collision(self)
    }
}

impl<S: Copy> Collisions<Affine2D<S>> for Affine2D<S> {
    type Scalar = S;

    open spec fn query(&self, other: &Affine2D<S>) -> PredicateCall<S> {
        pair_query(*self, *other)
    }

    fn check_collision(&self, other: &Affine2D<S>) -> (result: Result<
        PredicateCall<S>,
        CollisionsError,
    >) {
        match &self.shape {
            Shape2D::Point => other.check_collision(&self.point),
            Shape2D::Line { line: l } => match &other.shape {
                Shape2D::Point => Ok(
                    PredicateCall::LinePoint(l.embed_affine(&self.point), other.point),
                ),
                Shape2D::Line { line: l2 } => Ok(
                    PredicateCall::LineLine(
                        l.embed_affine(&self.point),
                        l2.embed_affine(&other.point),
                    ),
                ),
                Shape2D::Segment { segment: s } => Ok(
                    PredicateCall::LineSegment(
                        l.embed_affine(&self.point),
                        s.embed_affine(&other.point),
                    ),
                ),
                Shape2D::Rectangle { rect: r } => Ok(
                    PredicateCall::RectLine(
                        r.embed_affine(&other.point),
                        l.embed_affine(&self.point),
                    ),
                ),
                Shape2D::Circle { circle: c } => Ok(
                    PredicateCall::CircleLine(
                        c.embed_affine(&other.point),
                        l.embed_affine(&self.point),
                    ),
                ),
            },
            Shape2D::Segment { segment: s } => match &other.shape {
                Shape2D::Point => Ok(
                    PredicateCall::SegmentPoint(s.embed_affine(&self.point), other.point),
                ),
                Shape2D::Rectangle { rect } => Ok(
                    PredicateCall::RectSegment(
                        rect.embed_affine(&other.point),
                        s.embed_affine(&self.point),
                    ),
                ),
                Shape2D::Circle { circle } => Ok(
                    PredicateCall::CircleSegment(
                        circle.embed_affine(&other.point),
                        s.embed_affine(&self.point),
                    ),
                ),
                Shape2D::Line { line: l } => Ok(
                    PredicateCall::LineSegment(
                        l.embed_affine(&other.point),
                        s.embed_affine(&self.point),
                    ),
                ),
                Shape2D::Segment { segment: s2 } => Ok(
                    PredicateCall::SegmentSegment(
                        s2.embed_affine(&other.point),
                        s.embed_affine(&self.point),
                    ),
                ),
            },
            Shape2D::Circle { circle: c } => match &other.shape {
                Shape2D::Point => Ok(
                    PredicateCall::CirclePoint(c.embed_affine(&self.point), other.point),
                ),
                Shape2D::Rectangle { rect } => Ok(
                    PredicateCall::CircleRect(
                        c.embed_affine(&self.point),
                        rect.embed_affine(&other.point),
                    ),
                ),
                Shape2D::Circle { circle } => Ok(
                    PredicateCall::CircleCircle(
                        c.embed_affine(&self.point),
                        circle.embed_affine(&other.point),
                    ),
                ),
                Shape2D::Line { line } => Ok(
                    PredicateCall::CircleLine(
                        c.embed_affine(&self.point),
                        line.embed_affine(&other.point),
                    ),
                ),
                Shape2D::Segment { segment } => Ok(
                    PredicateCall::CircleSegment(
                        c.embed_affine(&self.point),
                        segment.embed_affine(&other.point),
                    ),
                ),
            },
            Shape2D::Rectangle { rect: r } => match &other.shape {
                Shape2D::Point => Ok(
                    PredicateCall::RectPoint(r.embed_affine(&self.point), other.point),
                ),
                Shape2D::Rectangle { rect } => Ok(
                    PredicateCall::RectRect(
                        r.embed_affine(&self.point),
                        rect.embed_affine(&other.point),
                    ),
                ),
                Shape2D::Circle { circle } => Ok(
                    PredicateCall::CircleRect(
                        circle.embed_affine(&other.point),
                        r.embed_affine(&self.point),
                    ),
                ),
                Shape2D::Line { line } => Ok(
                    PredicateCall::RectLine(
                        r.embed_affine(&self.point),
                        line.embed_affine(&other.point),
                    ),
                ),
                Shape2D::Segment { segment } => Ok(
                    PredicateCall::RectSegment(
                        r.embed_affine(&self.point),
                        segment.embed_affine(&other.point),
                    ),
                ),
            },
        }
    }
}

impl<T: Shape2DType> Collisions<Point2D<T::Scalar>> for TypedAffine2D<T> {
    type Scalar = T::Scalar;

    open spec fn query(&self, point: &Point2D<T::Scalar>) -> PredicateCall<T::Scalar> {
        point_query(self.tagged(), *point)
    }

    fn check_collision(&self, point: &Point2D<T::Scalar>) -> (result: Result<
        PredicateCall<T::Scalar>,
        CollisionsError,
    >) {
        let aff = Affine2D::from(*self);
        aff.check_collision(point)
    }
}

impl<T: Shape2DType> Collisions<Affine2D<T::Scalar>> for TypedAffine2D<T> {
    type Scalar = T::Scalar;

    open spec fn query(&self, aff2: &Affine2D<T::Scalar>) -> PredicateCall<T::Scalar> {
        pair_query(self.tagged(), *aff2)
    }

    fn check_collision(&self, aff2: &Affine2D<T::Scalar>) -> (result: Result<
        PredicateCall<T::Scalar>,
        CollisionsError,
    >) {
        let aff1 = Affine2D::from(*self);
        aff1.check_collision(aff2)
    }
}

impl<S: Copy, T: Shape2DType<Scalar = S>, U: Shape2DType<Scalar = S>> Collisions<
    TypedAffine2D<U>,
> for TypedAffine2D<T> {
    type Scalar = S;

    open spec fn query(&self, t_aff2: &TypedAffine2D<U>) -> PredicateCall<S> {
        pair_query(self.tagged(), t_aff2.tagged())
    }

    fn check_collision(&self, t_aff2: &TypedAffine2D<U>) -> (result: Result<
        PredicateCall<S>,
        CollisionsError,
    >) {
        let aff1 = Affine2D::from(*self);
        let aff2 = Affine2D::from(*t_aff2);
        aff1.check_collision(&aff2)
    }
}

} // verus!
