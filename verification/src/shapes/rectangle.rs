//! The axis-aligned rectangle payload.

use vstd::prelude::*;
use vstd::std_specs::convert::FromSpecImpl;
use super::{Shape2D, Shape2DType};

verus! {

/// An axis-aligned rectangle of the given extents, centred on its anchor.
///
/// The extents are taken as given: nothing here asks that they be positive.
/// A rectangle has no angle; it cannot be rotated.
#[derive(Debug, Copy)]
pub struct Rectangle<S> {
    pub width: S,
    pub height: S,
}

impl<S: Copy> Clone for Rectangle<S> {
    fn clone(&self) -> (copy: Self)
        ensures
            copy == *self,
    {
        *self
    }
}

impl<S: Copy> Shape2DType for Rectangle<S> {
    type Scalar = S;

    open spec fn tagged(self) -> Shape2D<S> {
        Shape2D::Rectangle { rect: self }
    }

    fn into_shape(self) -> (shape: Shape2D<S>) {
        Shape2D::Rectangle { rect: self }
    }
}

impl<S: Copy> From<Rectangle<S>> for Shape2D<S> {
    /// The payload as the variant of its kind.
    fn from(rect: Rectangle<S>) -> (shape: Self)
        ensures
            shape == rect.tagged(),
    {
        Shape2D::Rectangle { rect }
    }
}

impl<S: Copy> FromSpecImpl<Rectangle<S>> for Shape2D<S> {
    open spec fn obeys_from_spec() -> bool {
        true
    }

    open spec fn from_spec(rect: Rectangle<S>) -> Self {
        rect.tagged()
    }
}

} // verus!
