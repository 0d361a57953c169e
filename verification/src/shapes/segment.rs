//! The finite segment payload.

use vstd::prelude::*;
use vstd::std_specs::convert::FromSpecImpl;
use super::affine::{EmbedInAffine2D, TypedAffine2D};
use super::line::Line2D;
use super::{Shape2D, Shape2DType};
use crate::angle::Angle;

verus! {

/// A segment of the given length in the given direction, centred on its
/// anchor.
///
/// The length is taken as given: nothing here asks that it be positive.
#[derive(Debug, Copy)]
pub struct Segment2D<S> {
    pub angle: Angle<S>,
    pub length: S,
}

impl<S: Copy> Clone for Segment2D<S> {
    fn clone(&self) -> (copy: Self)
        ensures
            copy == *self,
    {
        *self
    }
}

impl<S: Copy> Shape2DType for Segment2D<S> {
    type Scalar = S;

    open spec fn tagged(self) -> Shape2D<S> {
        Shape2D::Segment { segment: self }
    }

    fn into_shape(self) -> (shape: Shape2D<S>) {
        Shape2D::Segment { segment: self }
    }
}

impl<S: Copy> From<Segment2D<S>> for Shape2D<S> {
    /// The payload as the variant of its kind.
    fn from(segment: Segment2D<S>) -> (shape: Self)
        ensures
            shape == segment.tagged(),
    {
        Shape2D::Segment { segment }
    }
}

impl<S: Copy> FromSpecImpl<Segment2D<S>> for Shape2D<S> {
    open spec fn obeys_from_spec() -> bool {
        true
    }

    open spec fn from_spec(segment: Segment2D<S>) -> Self {
        segment.tagged()
    }
}

impl<S: Copy> Segment2D<S> {
    /// The direction of the segment's carrier line: the segment without its
    /// length.
    pub fn get_line(&self) -> (line: Line2D<S>)
        ensures
            line == (Line2D { angle: self.angle }),
    {
        Line2D { angle: self.angle }
    }
}

impl<S: Copy> TypedAffine2D<Segment2D<S>> {
    /// The segment's carrier line: the infinite line in the segment's
    /// direction through the segment's anchor.
    pub fn get_line(&self) -> (line: TypedAffine2D<Line2D<S>>)
        ensures
            line == (TypedAffine2D { point: self.point, shape: Line2D { angle: self.shape.angle } }),
    {
        self.shape.get_line().embed_affine(&self.point)
    }
}

} // verus!
