//! A unit type for places that need a type but hold no data.
use vstd::prelude::*;

verus! {

/// The null value: a concrete type with nothing in it.
#[derive(Eq, PartialEq, Ord, PartialOrd, Clone, Copy, Debug, Default, Hash)]
pub struct Null;

} // verus!
