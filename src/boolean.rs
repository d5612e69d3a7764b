//! Booleans as types: `True` and `False`, and the bits `I` and `O`, with the
//! logical operators resolved by the trait system.
use vstd::prelude::*;

verus! {

/// A type-level boolean.
pub trait Boolean: Sized + Copy {
    /// The truth value this type stands for.
    spec fn value() -> bool;

    /// Makes the one value of this zero-sized type.
    fn new() -> Self;

    /// The truth value, at run time.
    fn as_bool(&self) -> (r: bool)
        ensures
            r == Self::value();
}

/// The smaller of two bits: `I` only when both are `I`.
pub trait Min<R: Boolean>: Boolean {
    type Output: Boolean;

    fn min(self, rhs: R) -> (r: Self::Output)
        ensures
            Self::Output::value() == (Self::value() && R::value());
}

/// The greater of two bits: `I` when either is `I`.
pub trait Max<R: Boolean>: Boolean {
    type Output: Boolean;

    fn max(self, rhs: R) -> (r: Self::Output)
        ensures
            Self::Output::value() == (Self::value() || R::value());
}

/// The boolean false.
#[derive(Eq, PartialEq, Ord, PartialOrd, Clone, Copy, Debug, Default)]
pub struct False;

impl False {
    pub fn new() -> Self {
        False
    }
}

impl Boolean for False {
    open spec fn value() -> bool {
        false
    }

    fn new() -> Self {
        False
    }

    fn as_bool(&self) -> (r: bool) {
        false
    }
}

/// The boolean true.
#[derive(Eq, PartialEq, Ord, PartialOrd, Clone, Copy, Debug, Default)]
pub struct True;

impl True {
    pub fn new() -> Self {
        True
    }
}

impl Boolean for True {
    open spec fn value() -> bool {
        true
    }

    fn new() -> Self {
        True
    }

    fn as_bool(&self) -> (r: bool) {
        true
    }
}

impl core::ops::Not for False {
    type Output = True;

    fn not(self) -> True {
        True
    }
}

impl vstd::std_specs::ops::NotSpecImpl for False {
    open spec fn obeys_not_spec() -> bool {
        true
    }

    open spec fn not_req(self) -> bool {
        true
    }

    open spec fn not_spec(self) -> True {
        True
    }
}

impl core::ops::Not for True {
    type Output = False;

    fn not(self) -> False {
        False
    }
}

impl vstd::std_specs::ops::NotSpecImpl for True {
    open spec fn obeys_not_spec() -> bool {
        true
    }

    open spec fn not_req(self) -> bool {
        true
    }

    open spec fn not_spec(self) -> False {
        False
    }
}

impl<R: Boolean> core::ops::BitAnd<R> for False {
    type Output = False;

    fn bitand(self, rhs: R) -> False {
        False
    }
}

impl<R: Boolean> vstd::std_specs::ops::BitAndSpecImpl<R> for False {
    open spec fn obeys_bitand_spec() -> bool {
        true
    }

    open spec fn bitand_req(self, rhs: R) -> bool {
        true
    }

    open spec fn bitand_spec(self, rhs: R) -> False {
        False
    }
}

impl<R: Boolean> core::ops::BitAnd<R> for True {
    type Output = R;

    fn bitand(self, rhs: R) -> R {
        rhs
    }
}

impl<R: Boolean> vstd::std_specs::ops::BitAndSpecImpl<R> for True {
    open spec fn obeys_bitand_spec() -> bool {
        true
    }

    open spec fn bitand_req(self, rhs: R) -> bool {
        true
    }

    open spec fn bitand_spec(self, rhs: R) -> R {
        rhs
    }
}

impl<R: Boolean> core::ops::BitOr<R> for False {
    type Output = R;

    fn bitor(self, rhs: R) -> R {
        rhs
    }
}

impl<R: Boolean> vstd::std_specs::ops::BitOrSpecImpl<R> for False {
    open spec fn obeys_bitor_spec() -> bool {
        true
    }

    open spec fn bitor_req(self, rhs: R) -> bool {
        true
    }

    open spec fn bitor_spec(self, rhs: R) -> R {
        rhs
    }
}

impl<R: Boolean> core::ops::BitOr<R> for True {
    type Output = True;

    fn bitor(self, rhs: R) -> True {
        True
    }
}

impl<R: Boolean> vstd::std_specs::ops::BitOrSpecImpl<R> for True {
    open spec fn obeys_bitor_spec() -> bool {
        true
    }

    open spec fn bitor_req(self, rhs: R) -> bool {
        true
    }

    open spec fn bitor_spec(self, rhs: R) -> True {
        True
    }
}

impl core::ops::BitXor<False> for False {
    type Output = False;

    fn bitxor(self, rhs: False) -> False {
        False
    }
}

impl vstd::std_specs::ops::BitXorSpecImpl<False> for False {
    open spec fn obeys_bitxor_spec() -> bool {
        true
    }

    open spec fn bitxor_req(self, rhs: False) -> bool {
        true
    }

    open spec fn bitxor_spec(self, rhs: False) -> False {
        False
    }
}

impl core::ops::BitXor<True> for False {
    type Output = True;

    fn bitxor(self, rhs: True) -> True {
        True
    }
}

impl vstd::std_specs::ops::BitXorSpecImpl<True> for False {
    open spec fn obeys_bitxor_spec() -> bool {
        true
    }

    open spec fn bitxor_req(self, rhs: True) -> bool {
        true
    }

    open spec fn bitxor_spec(self, rhs: True) -> True {
        True
    }
}

impl core::ops::BitXor<False> for True {
    type Output = True;

    fn bitxor(self, rhs: False) -> True {
        True
    }
}

impl vstd::std_specs::ops::BitXorSpecImpl<False> for True {
    open spec fn obeys_bitxor_spec() -> bool {
        true
    }

    open spec fn bitxor_req(self, rhs: False) -> bool {
        true
    }

    open spec fn bitxor_spec(self, rhs: False) -> True {
        True
    }
}

impl core::ops::BitXor<True> for True {
    type Output = False;

    fn bitxor(self, rhs: True) -> False {
        False
    }
}

impl vstd::std_specs::ops::BitXorSpecImpl<True> for True {
    open spec fn obeys_bitxor_spec() -> bool {
        true
    }

    open spec fn bitxor_req(self, rhs: True) -> bool {
        true
    }

    open spec fn bitxor_spec(self, rhs: True) -> False {
        False
    }
}

/// The bit 0.
#[derive(Eq, PartialEq, Ord, PartialOrd, Clone, Copy, Debug, Default)]
pub struct O;

impl O {
    pub fn new() -> Self {
        O
    }
}

impl Boolean for O {
    open spec fn value() -> bool {
        false
    }

    fn new() -> Self {
        O
    }

    fn as_bool(&self) -> (r: bool) {
        false
    }
}

/// The bit 1.
#[derive(Eq, PartialEq, Ord, PartialOrd, Clone, Copy, Debug, Default)]
pub struct I;

impl I {
    pub fn new() -> Self {
        I
    }
}

impl Boolean for I {
    open spec fn value() -> bool {
        true
    }

    fn new() -> Self {
        I
    }

    fn as_bool(&self) -> (r: bool) {
        true
    }
}

impl core::ops::Not for O {
    type Output = I;

    fn not(self) -> I {
        I
    }
}

impl vstd::std_specs::ops::NotSpecImpl for O {
    open spec fn obeys_not_spec() -> bool {
        true
    }

    open spec fn not_req(self) -> bool {
        true
    }

    open spec fn not_spec(self) -> I {
        I
    }
}

impl core::ops::Not for I {
    type Output = O;

    fn not(self) -> O {
        O
    }
}

impl vstd::std_specs::ops::NotSpecImpl for I {
    open spec fn obeys_not_spec() -> bool {
        true
    }

    open spec fn not_req(self) -> bool {
        true
    }

    open spec fn not_spec(self) -> O {
        O
    }
}

impl<R: Boolean> core::ops::BitAnd<R> for O {
    type Output = O;

    fn bitand(self, rhs: R) -> O {
        O
    }
}

impl<R: Boolean> vstd::std_specs::ops::BitAndSpecImpl<R> for O {
    open spec fn obeys_bitand_spec() -> bool {
        true
    }

    open spec fn bitand_req(self, rhs: R) -> bool {
        true
    }

    open spec fn bitand_spec(self, rhs: R) -> O {
        O
    }
}

impl<R: Boolean> core::ops::BitAnd<R> for I {
    type Output = R;

    fn bitand(self, rhs: R) -> R {
        rhs
    }
}

impl<R: Boolean> vstd::std_specs::ops::BitAndSpecImpl<R> for I {
    open spec fn obeys_bitand_spec() -> bool {
        true
    }

    open spec fn bitand_req(self, rhs: R) -> bool {
        true
    }

    open spec fn bitand_spec(self, rhs: R) -> R {
        rhs
    }
}

impl<R: Boolean> core::ops::BitOr<R> for O {
    type Output = R;

    fn bitor(self, rhs: R) -> R {
        rhs
    }
}

impl<R: Boolean> vstd::std_specs::ops::BitOrSpecImpl<R> for O {
    open spec fn obeys_bitor_spec() -> bool {
        true
    }

    open spec fn bitor_req(self, rhs: R) -> bool {
        true
    }

    open spec fn bitor_spec(self, rhs: R) -> R {
        rhs
    }
}

impl<R: Boolean> core::ops::BitOr<R> for I {
    type Output = I;

    fn bitor(self, rhs: R) -> I {
        I
    }
}

impl<R: Boolean> vstd::std_specs::ops::BitOrSpecImpl<R> for I {
    open spec fn obeys_bitor_spec() -> bool {
        true
    }

    open spec fn bitor_req(self, rhs: R) -> bool {
        true
    }

    open spec fn bitor_spec(self, rhs: R) -> I {
        I
    }
}

impl core::ops::BitXor<O> for O {
    type Output = O;

    fn bitxor(self, rhs: O) -> O {
        O
    }
}

impl vstd::std_specs::ops::BitXorSpecImpl<O> for O {
    open spec fn obeys_bitxor_spec() -> bool {
        true
    }

    open spec fn bitxor_req(self, rhs: O) -> bool {
        true
    }

    open spec fn bitxor_spec(self, rhs: O) -> O {
        O
    }
}

impl core::ops::BitXor<I> for O {
    type Output = I;

    fn bitxor(self, rhs: I) -> I {
        I
    }
}

impl vstd::std_specs::ops::BitXorSpecImpl<I> for O {
    open spec fn obeys_bitxor_spec() -> bool {
        true
    }

    open spec fn bitxor_req(self, rhs: I) -> bool {
        true
    }

    open spec fn bitxor_spec(self, rhs: I) -> I {
        I
    }
}

impl core::ops::BitXor<O> for I {
    type Output = I;

    fn bitxor(self, rhs: O) -> I {
        I
    }
}

impl vstd::std_specs::ops::BitXorSpecImpl<O> for I {
    open spec fn obeys_bitxor_spec() -> bool {
        true
    }

    open spec fn bitxor_req(self, rhs: O) -> bool {
        true
    }

    open spec fn bitxor_spec(self, rhs: O) -> I {
        I
    }
}

impl core::ops::BitXor<I> for I {
    type Output = O;

    fn bitxor(self, rhs: I) -> O {
        O
    }
}

impl vstd::std_specs::ops::BitXorSpecImpl<I> for I {
    open spec fn obeys_bitxor_spec() -> bool {
        true
    }

    open spec fn bitxor_req(self, rhs: I) -> bool {
        true
    }

    open spec fn bitxor_spec(self, rhs: I) -> O {
        O
    }
}

impl Min<O> for O {
    type Output = O;

    fn min(self, rhs: O) -> (r: O) {
        O
    }
}

impl Max<O> for O {
    type Output = O;

    fn max(self, rhs: O) -> (r: O) {
        O
    }
}

impl Min<I> for O {
    type Output = O;

    fn min(self, rhs: I) -> (r: O) {
        O
    }
}

impl Max<I> for O {
    type Output = I;

    fn max(self, rhs: I) -> (r: I) {
        I
    }
}

impl Min<O> for I {
    type Output = O;

    fn min(self, rhs: O) -> (r: O) {
        O
    }
}

impl Max<O> for I {
    type Output = I;

    fn max(self, rhs: O) -> (r: I) {
        I
    }
}

impl Min<I> for I {
    type Output = I;

    fn min(self, rhs: I) -> (r: I) {
        I
    }
}

impl Max<I> for I {
    type Output = I;

    fn max(self, rhs: I) -> (r: I) {
        I
    }
}

} // verus!
