//! Shape payloads: what a shape is, without where it is.

use vstd::prelude::*;
use self::circle::Circle;
use self::line::Line2D;
use self::rectangle::Rectangle;
use self::segment::Segment2D;

pub mod affine;
pub mod circle;
pub mod line;
pub mod rectangle;
pub mod segment;

verus! {

/// A shape payload of any kind, told apart at run time by its variant.
///
/// A point has no dimensions of its own: it is fully described by the anchor
/// it is placed at.
#[derive(Debug, Copy)]
pub enum Shape2D<S> {
    Rectangle { rect: Rectangle<S> },
    Circle { circle: Circle<S> },
    Line { line: Line2D<S> },
    Segment { segment: Segment2D<S> },
    Point,
}

impl<S: Copy> Clone for Shape2D<S> {
    fn clone(&self) -> (copy: Self)
        ensures
            copy == *self,
    {
        *self
    }
}

impl<S: Copy> Shape2D<S> {
    /// Whether two payloads are of the same kind, whatever their dimensions.
    pub open spec fn same_kind(self, other: Self) -> bool {
        ||| self is Rectangle && other is Rectangle
        ||| self is Circle && other is Circle
        ||| self is Line && other is Line
        ||| self is Segment && other is Segment
        ||| self is Point && other is Point
    }
}

/// A shape payload whose kind is known at compile time.
///
/// Every such payload has exactly one tagged form; going from the typed
/// payload to the tagged one forgets the type and nothing else. The way
/// back is a match on the tag.
pub trait Shape2DType: Copy {
    /// The scalar type of the payload's dimensions.
    type Scalar: Copy;

    /// The tagged form of this payload.
    spec fn tagged(self) -> Shape2D<Self::Scalar>;

    /// Erases the payload's type, keeping its kind as a run-time tag.
    fn into_shape(self) -> (shape: Shape2D<Self::Scalar>)
        ensures
            shape == self.tagged(),
    ;
}

} // verus!
