//! The infinite line payload.

use vstd::prelude::*;
use vstd::std_specs::convert::FromSpecImpl;
use super::{Shape2D, Shape2DType};
use crate::angle::Angle;

verus! {

/// An infinite line in the given direction through its anchor.
#[derive(Debug, Copy)]
pub struct Line2D<S> {
    pub angle: Angle<S>,
}

impl<S: Copy> Clone for Line2D<S> {
    fn clone(&self) -> (copy: Self)
        ensures
            copy == *self,
    {
        *self
    }
}

impl<S: Copy> Shape2DType for Line2D<S> {
    type Scalar = S;

    open spec fn tagged(self) -> Shape2D<S> {
        Shape2D::Line { line: self }
    }

    fn into_shape(self) -> (shape: Shape2D<S>) {
        Shape2D::Line { line: self }
    }
}

impl<S: Copy> From<Line2D<S>> for Shape2D<S> {
    /// The payload as the variant of its kind.
    fn from(line: Line2D<S>) -> (shape: Self)
        ensures
            shape == line.tagged(),
    {
        Shape2D::Line { line }
    }
}

impl<S: Copy> FromSpecImpl<Line2D<S>> for Shape2D<S> {
    open spec fn obeys_from_spec() -> bool {
        true
    }

    open spec fn from_spec(line: Line2D<S>) -> Self {
        line.tagged()
    }
}

} // verus!
