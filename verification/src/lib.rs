//! Positioned 2D shapes and the dispatch of overlap queries between them.
//!
//! The crate holds the shape model (point, infinite line, finite segment,
//! circle, axis-aligned rectangle), the two ways of placing a shape at an
//! anchor (typed and tagged), and the dispatcher that resolves any pair of
//! positioned shapes to exactly one entry of the catalogue of fifteen
//! pairwise overlap predicates.
//!
//! Everything is generic in the scalar type `S` of coordinates and
//! dimensions. The crate carries scalars through unchanged and, in the
//! arithmetic of points and vectors, applies the scalar type's own operators
//! component by component; it never looks at a scalar's value. The numeric
//! evaluation of a predicate is the caller's part, and what is proved here
//! holds for every scalar type.

use vstd::prelude::*;
use vstd::pervasive::unreached;
use crate::shapes::affine::Affine2D;
use crate::shapes::circle::Circle;
use crate::shapes::Shape2D;

pub mod angle;
pub mod collisions;
pub mod point;
pub mod shapes;
pub mod vector;

verus! {

/// A rule that reads each of its two operands as a circle, by the operand's
/// run-time tag.
pub struct RectanglePointRule {}

impl RectanglePointRule {
    /// Takes the circle out of each operand and accepts the pair.
    ///
    /// The rule has no answer for an operand of another kind, so both
    /// operands must be circles.
    pub fn check<S: Copy>(&self, s1: &Affine2D<S>, s2: &Affine2D<S>) -> (accepted: bool)
        requires
            s1.shape is Circle,
            s2.shape is Circle,
        ensures
            accepted,
    {
        let _c: Circle<S> = match s1.shape {
            Shape2D::Circle { circle } => circle,
            _ => unreached(),
        };
        let _d: Circle<S> = match s2.shape {
            Shape2D::Circle { circle } => circle,
            _ => unreached(),
        };
        true
    }
}

} // verus!
