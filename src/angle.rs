//! Angle values tagged with their unit.
use vstd::prelude::*;

verus! {

/// An angle in degrees.
#[derive(Debug, Clone, Copy, PartialEq)]
pub struct Degrees<V: Copy>(pub V);

impl<V: Copy> Degrees<V> {
    pub fn new(degrees: V) -> (r: Self)
        ensures
            r.0 == degrees,
    {
        Degrees(degrees)
    }

    pub fn into_inner(self) -> (r: V)
        ensures
            r == self.0,
    {
        self.0
    }
}

/// An angle in gradians (a right angle is 100).
#[derive(Debug, Clone, Copy, PartialEq)]
pub struct Gradians<V: Copy>(pub V);

impl<V: Copy> Gradians<V> {
    pub fn new(gradians: V) -> (r: Self)
        ensures
            r.0 == gradians,
    {
        Gradians(gradians)
    }

    pub fn into_inner(self) -> (r: V)
        ensures
            r == self.0,
    {
        self.0
    }
}

} // verus!
