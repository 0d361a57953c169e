//! Displacements in the plane.
//!
//! The arithmetic here is component-wise and nothing else: each component of
//! a result is what the scalar type's own operator gives for the matching
//! components of the operands. What that operator computes is the scalar
//! type's business, so the contracts speak of its outcome rather than of a
//! number.
//!
//! Every operator carries the contract of its operator trait, spelled out by
//! the three specification functions that stand beside it: it may be called
//! where the scalar operator may be called on both pairs of components, and
//! where the scalar type's operator is a function of its operands, so is the
//! vector's, component by component. On top of that each operator promises,
//! for every scalar type, that each component of its result is an outcome of
//! the scalar operator on the matching components.

use vstd::prelude::*;
use vstd::std_specs::ops::{
    AddSpec, AddSpecImpl, DivSpec, DivSpecImpl, MulSpec, MulSpecImpl, NegSpec, NegSpecImpl,
    SubSpec, SubSpecImpl,
};
use std::ops::{Add, Div, Mul, Neg, Sub};

verus! {

/// A displacement in the plane, with components of scalar type `S`.
#[derive(Debug, Copy)]
pub struct Vector2D<S> {
    pub x: S,
    pub y: S,
}

impl<S: Copy> Clone for Vector2D<S> {
    fn clone(&self) -> (copy: Self)
        ensures
            copy == *self,
    {
        *self
    }
}

impl<S: Copy + Add<Output = S>> Add for Vector2D<S> {
    type Output = Self;

    /// The sum of two displacements, component by component.
    fn add(self, other: Self) -> (sum: Self)
        ensures
            call_ensures(S::add, (self.x, other.x), sum.x),
            call_ensures(S::add, (self.y, other.y), sum.y),
    {
        Vector2D { x: self.x + other.x, y: self.y + other.y }
    }
}

impl<S: Copy + Add<Output = S>> AddSpecImpl for Vector2D<S> {
    open spec fn obeys_add_spec() -> bool {
        <S as AddSpec>::obeys_add_spec()
    }

    open spec fn add_req(self, other: Self) -> bool {
        self.x.add_req(other.x) && self.y.add_req(other.y)
    }

    open spec fn add_spec(self, other: Self) -> Self {
        Vector2D { x: self.x.add_spec(other.x), y: self.y.add_spec(other.y) }
    }
}

impl<S: Copy + Sub<Output = S>> Sub for Vector2D<S> {
    type Output = Self;

    /// The difference of two displacements, component by component.
    fn sub(self, other: Self) -> (difference: Self)
        ensures
            call_ensures(S::sub, (self.x, other.x), difference.x),
            call_ensures(S::sub, (self.y, other.y), difference.y),
    {
        Vector2D { x: self.x - other.x, y: self.y - other.y }
    }
}

impl<S: Copy + Sub<Output = S>> SubSpecImpl for Vector2D<S> {
    open spec fn obeys_sub_spec() -> bool {
        <S as SubSpec>::obeys_sub_spec()
    }

    open spec fn sub_req(self, other: Self) -> bool {
        self.x.sub_req(other.x) && self.y.sub_req(other.y)
    }

    open spec fn sub_spec(self, other: Self) -> Self {
        Vector2D { x: self.x.sub_spec(other.x), y: self.y.sub_spec(other.y) }
    }
}

impl<S: Copy + Mul<Output = S>> Mul<S> for Vector2D<S> {
    type Output = Self;

    /// The displacement scaled by `s`: each component times `s`.
    fn mul(self, s: S) -> (scaled: Self)
        ensures
            call_ensures(S::mul, (self.x, s), scaled.x),
            call_ensures(S::mul, (self.y, s), scaled.y),
    {
        Vector2D { x: self.x * s, y: self.y * s }
    }
}

impl<S: Copy + Mul<Output = S>> MulSpecImpl<S> for Vector2D<S> {
    open spec fn obeys_mul_spec() -> bool {
        <S as MulSpec>::obeys_mul_spec()
    }

    open spec fn mul_req(self, s: S) -> bool {
        self.x.mul_req(s) && self.y.mul_req(s)
    }

    open spec fn mul_spec(self, s: S) -> Self {
        Vector2D { x: self.x.mul_spec(s), y: self.y.mul_spec(s) }
    }
}

impl<S: Copy + Div<Output = S>> Div<S> for Vector2D<S> {
    type Output = Self;

    /// The displacement scaled down by `s`: each component divided by `s`.
    fn div(self, s: S) -> (scaled: Self)
        ensures
            call_ensures(S::div, (self.x, s), scaled.x),
            call_ensures(S::div, (self.y, s), scaled.y),
    {
        Vector2D { x: self.x / s, y: self.y / s }
    }
}

impl<S: Copy + Div<Output = S>> DivSpecImpl<S> for Vector2D<S> {
    open spec fn obeys_div_spec() -> bool {
        <S as DivSpec>::obeys_div_spec()
    }

    open spec fn div_req(self, s: S) -> bool {
        self.x.div_req(s) && self.y.div_req(s)
    }

    open spec fn div_spec(self, s: S) -> Self {
        Vector2D { x: self.x.div_spec(s), y: self.y.div_spec(s) }
    }
}

impl<S: Copy + Neg<Output = S>> Neg for Vector2D<S> {
    type Output = Vector2D<S>;

    /// The opposite displacement: each component negated.
    fn neg(self) -> (opposite: Vector2D<S>)
        ensures
            call_ensures(S::neg, (self.x,), opposite.x),
            call_ensures(S::neg, (self.y,), opposite.y),
    {
        Vector2D { x: self.x.neg(), y: self.y.neg() }
    }
}

impl<S: Copy + Neg<Output = S>> NegSpecImpl for Vector2D<S> {
    open spec fn obeys_neg_spec() -> bool {
        <S as NegSpec>::obeys_neg_spec()
    }

    open spec fn neg_req(self) -> bool {
        self.x.neg_req() && self.y.neg_req()
    }

    open spec fn neg_spec(self) -> Vector2D<S> {
        Vector2D { x: self.x.neg_spec(), y: self.y.neg_spec() }
    }
}

} // verus!
