//! The circle payload.

use vstd::prelude::*;
use vstd::std_specs::convert::FromSpecImpl;
use super::{Shape2D, Shape2DType};

verus! {

/// A circle of the given radius around its anchor.
///
/// The radius is taken as given: nothing here asks that it be positive.
#[derive(Debug, Copy)]
pub struct Circle<S> {
    pub radius: S,
}

impl<S: Copy> Clone for Circle<S> {
    fn clone(&self) -> (copy: Self)
        ensures
            copy == *self,
    {
        *self
    }
}

impl<S: Copy> Shape2DType for Circle<S> {
    type Scalar = S;

    open spec fn tagged(self) -> Shape2D<S> {
        Shape2D::Circle { circle: self }
    }

    fn into_shape(self) -> (shape: Shape2D<S>) {
        Shape2D::Circle { circle: self }
    }
}

impl<S: Copy> From<Circle<S>> for Shape2D<S> {
    /// The payload as the variant of its kind.
    fn from(circle: Circle<S>) -> (shape: Self)
        ensures
            shape == circle.tagged(),
    {
        Shape2D::Circle { circle }
    }
}

impl<S: Copy> FromSpecImpl<Circle<S>> for Shape2D<S> {
    open spec fn obeys_from_spec() -> bool {
        true
    }

    open spec fn from_spec(circle: Circle<S>) -> Self {
        circle.tagged()
    }
}

} // verus!
