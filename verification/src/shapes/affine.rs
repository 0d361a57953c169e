//! Shapes placed at an anchor.
//!
//! A positioned shape comes in two forms. The typed form keeps the payload's
//! concrete type and is what shape-specific geometry works on; the tagged
//! form erases it into a run-time tag and is what dispatch works on. The
//! conversion goes one way, from typed to tagged.

use vstd::prelude::*;
use vstd::std_specs::convert::FromSpecImpl;
use super::{Shape2D, Shape2DType};
use crate::point::Point2D;

verus! {

/// A shape of any kind placed at an anchor: the tagged form of a positioned
/// shape.
#[derive(Debug, Copy)]
pub struct Affine2D<S> {
    pub shape: Shape2D<S>,
    pub point: Point2D<S>,
}

impl<S: Copy> Clone for Affine2D<S> {
    fn clone(&self) -> (copy: Self)
        ensures
            copy == *self,
    {
        *self
    }
}

impl<S: Copy> Affine2D<S> {
    /// Places `shape` at the anchor `(x, y)`.
    pub fn new(x: S, y: S, shape: Shape2D<S>) -> (affine: Self)
        ensures
            affine == (Affine2D { shape, point: Point2D { x, y } }),
    {
        Affine2D { point: Point2D { x, y }, shape }
    }
}

/// A shape of the kind `T` placed at an anchor: the typed form of a
/// positioned shape.
#[derive(Debug, Copy)]
pub struct TypedAffine2D<T: Shape2DType> {
    pub point: Point2D<T::Scalar>,
    pub shape: T,
}

impl<T: Shape2DType> Clone for TypedAffine2D<T> {
    fn clone(&self) -> (copy: Self)
        ensures
            copy == *self,
    {
        *self
    }
}

impl<T: Shape2DType> TypedAffine2D<T> {
    /// Places `shape` at the anchor `point`.
    pub fn new(point: Point2D<T::Scalar>, shape: T) -> (affine: Self)
        ensures
            affine == (TypedAffine2D { point, shape }),
    {
        TypedAffine2D { point, shape }
    }

    /// The tagged form of this positioned shape: the same anchor, the payload
    /// with its type erased.
    pub open spec fn tagged(self) -> Affine2D<T::Scalar> {
        Affine2D { shape: self.shape.tagged(), point: self.point }
    }
}

impl<T: Shape2DType> From<TypedAffine2D<T>> for Affine2D<T::Scalar> {
    /// The typed positioned shape in tagged form.
    fn from(typed_affine: TypedAffine2D<T>) -> (affine: Self)
        ensures
            affine == typed_affine.tagged(),
    {
        Affine2D { point: typed_affine.point, shape: typed_affine.shape.into_shape() }
    }
}

impl<T: Shape2DType> FromSpecImpl<TypedAffine2D<T>> for Affine2D<T::Scalar> {
    open spec fn obeys_from_spec() -> bool {
        true
    }

    open spec fn from_spec(typed_affine: TypedAffine2D<T>) -> Self {
        typed_affine.tagged()
    }
}

/// Placing a shape payload at an anchor.
pub trait EmbedInAffine2D {
    /// The scalar type of the anchor's coordinates.
    type Scalar;

    /// The positioned shape that results.
    type AffineType;

    /// This payload placed at `p`.
    spec fn embedded(&self, p: &Point2D<Self::Scalar>) -> Self::AffineType;

    /// Places a copy of this payload at the anchor `p`.
    fn embed_affine(&self, p: &Point2D<Self::Scalar>) -> (affine: Self::AffineType)
        ensures
            affine == self.embedded(p),
    ;
}

/// A payload of known kind is placed in typed form.
impl<T: Shape2DType> EmbedInAffine2D for T {
    type Scalar = T::Scalar;

    type AffineType = TypedAffine2D<T>;

    open spec fn embedded(&self, p: &Point2D<T::Scalar>) -> TypedAffine2D<T> {
        TypedAffine2D { point: *p, shape: *self }
    }

    fn embed_affine(&self, p: &Point2D<T::Scalar>) -> (affine: TypedAffine2D<T>) {
        TypedAffine2D::new(*p, *self)
    }
}

/// A tagged payload is placed in tagged form.
impl<S: Copy> EmbedInAffine2D for Shape2D<S> {
    type Scalar = S;

    type AffineType = Affine2D<S>;

    open spec fn embedded(&self, p: &Point2D<S>) -> Affine2D<S> {
        Affine2D { shape: *self, point: *p }
    }

    fn embed_affine(&self, p: &Point2D<S>) -> (affine: Affine2D<S>) {
        Affine2D::new(p.x, p.y, *self)
    }
}

} // verus!
