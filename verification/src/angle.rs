//! Angular values tagged with their unit.

use vstd::prelude::*;

verus! {

/// The unit in which an angular value is stored.
#[derive(Debug, Clone, Copy, PartialEq, Eq, Structural)]
pub enum AngleRepresentation {
    Radians,
    Degrees,
}

/// A scalar together with the unit it is measured in.
///
/// The value is kept exactly as given, in the unit it was given in: an angle
/// is converted when it is read, not when it is made.
#[derive(Debug, Copy)]
pub struct Angle<S> {
    value: S,
    representation: AngleRepresentation,
}

impl<S: Copy> Clone for Angle<S> {
    fn clone(&self) -> (copy: Self)
        ensures
            copy == *self,
    {
        *self
    }
}

impl<S: Copy> Angle<S> {
    /// The stored scalar, in the unit named by `representation_of`.
    pub closed spec fn value_of(self) -> S {
        self.value
    }

    /// The unit of the stored scalar.
    pub closed spec fn representation_of(self) -> AngleRepresentation {
        self.representation
    }

    /// An angle of `radians` radians.
    pub fn radians(radians: S) -> (angle: Self)
        ensures
            angle.value_of() == radians,
            angle.representation_of() == AngleRepresentation::Radians,
    {
        Angle { value: radians, representation: AngleRepresentation::Radians }
    }

    /// An angle of `degrees` degrees.
    pub fn degrees(degrees: S) -> (angle: Self)
        ensures
            angle.value_of() == degrees,
            angle.representation_of() == AngleRepresentation::Degrees,
    {
        Angle { value: degrees, representation: AngleRepresentation::Degrees }
    }

    /// The stored scalar.
    pub fn value(&self) -> (value: S)
        ensures
            value == self.value_of(),
    {
        self.value
    }

    /// The unit of the stored scalar.
    pub fn representation(&self) -> (representation: AngleRepresentation)
        ensures
            representation == self.representation_of(),
    {
        self.representation
    }

    /// Two angles with the same scalar and the same unit are the same angle.
    pub proof fn lemma_extensional(a: Self, b: Self)
        requires
            a.value_of() == b.value_of(),
            a.representation_of() == b.representation_of(),
        ensures
            a == b,
    {
    }
}

} // verus!
