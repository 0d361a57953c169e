//! Positions in the plane.
//!
//! A position moves by a displacement and two positions differ by one. Both
//! are component-wise: each coordinate of a result is what the scalar type's
//! own operator gives for the matching coordinates of the operands. The
//! contracts are those of the vector operators.

use vstd::prelude::*;
use vstd::std_specs::ops::{AddSpec, AddSpecImpl, SubSpec, SubSpecImpl};
use std::ops::{Add, Sub};
use crate::vector::Vector2D;

verus! {

/// A position in the plane, with coordinates of scalar type `S`.
#[derive(Debug, Copy)]
pub struct Point2D<S> {
    pub x: S,
    pub y: S,
}

impl<S: Copy> Clone for Point2D<S> {
    fn clone(&self) -> (copy: Self)
        ensures
            copy == *self,
    {
        *self
    }
}

impl<S: Copy + Default> Point2D<S> {
    /// The point whose two coordinates are the scalar type's default value:
    /// the origin, for the numeric types.
    pub fn zero() -> (origin: Self)
        ensures
            call_ensures(S::default, (), origin.x),
            call_ensures(S::default, (), origin.y),
    {
        Point2D { x: S::default(), y: S::default() }
    }
}

impl<S: Copy + Add<Output = S>> Add<Vector2D<S>> for Point2D<S> {
    type Output = Point2D<S>;

    /// The position reached from `self` by the displacement `other`.
    fn add(self, other: Vector2D<S>) -> (moved: Point2D<S>)
        ensures
            call_ensures(S::add, (self.x, other.x), moved.x),
            call_ensures(S::add, (self.y, other.y), moved.y),
    {
        Point2D { x: self.x + other.x, y: self.y + other.y }
    }
}

impl<S: Copy + Add<Output = S>> AddSpecImpl<Vector2D<S>> for Point2D<S> {
    open spec fn obeys_add_spec() -> bool {
        <S as AddSpec>::obeys_add_spec()
    }

    open spec fn add_req(self, other: Vector2D<S>) -> bool {
        self.x.add_req(other.x) && self.y.add_req(other.y)
    }

    open spec fn add_spec(self, other: Vector2D<S>) -> Point2D<S> {
        Point2D { x: self.x.add_spec(other.x), y: self.y.add_spec(other.y) }
    }
}

impl<S: Copy + Sub<Output = S>> Sub<Vector2D<S>> for Point2D<S> {
    type Output = Point2D<S>;

    /// The position from which the displacement `other` reaches `self`.
    fn sub(self, other: Vector2D<S>) -> (moved: Point2D<S>)
        ensures
            call_ensures(S::sub, (self.x, other.x), moved.x),
            call_ensures(S::sub, (self.y, other.y), moved.y),
    {
        Point2D { x: self.x - other.x, y: self.y - other.y }
    }
}

impl<S: Copy + Sub<Output = S>> SubSpecImpl<Vector2D<S>> for Point2D<S> {
    open spec fn obeys_sub_spec() -> bool {
        <S as SubSpec>::obeys_sub_spec()
    }

    open spec fn sub_req(self, other: Vector2D<S>) -> bool {
        self.x.sub_req(other.x) && self.y.sub_req(other.y)
    }

    open spec fn sub_spec(self, other: Vector2D<S>) -> Point2D<S> {
        Point2D { x: self.x.sub_spec(other.x), y: self.y.sub_spec(other.y) }
    }
}

impl<S: Copy + Sub<Output = S>> Sub<Point2D<S>> for Point2D<S> {
    type Output = Vector2D<S>;

    /// The displacement that leads from `rhs` to `self`.
    fn sub(self, rhs: Point2D<S>) -> (displacement: Vector2D<S>)
        ensures
            call_ensures(S::sub, (self.x, rhs.x), displacement.x),
            call_ensures(S::sub, (self.y, rhs.y), displacement.y),
    {
        Vector2D { x: self.x - rhs.x, y: self.y - rhs.y }
    }
}

impl<S: Copy + Sub<Output = S>> SubSpecImpl<Point2D<S>> for Point2D<S> {
    open spec fn obeys_sub_spec() -> bool {
        <S as SubSpec>::obeys_sub_spec()
    }

    open spec fn sub_req(self, rhs: Point2D<S>) -> bool {
        self.x.sub_req(rhs.x) && self.y.sub_req(rhs.y)
    }

    open spec fn sub_spec(self, rhs: Point2D<S>) -> Vector2D<S> {
        Vector2D { x: self.x.sub_spec(rhs.x), y: self.y.sub_spec(rhs.y) }
    }
}

} // verus!
