//! Three-way comparison. The result is itself a numeral: `Less`, `Equal` and
//! `Greater` are `N1`, `Z0` and `P1`, so comparisons compose with arithmetic.
use vstd::prelude::*;
use crate::repr::{lemma_canonical_small, Repr};
use crate::types::{int_of, is_canonical, value_of, TypedInt, B0, B1, N1, P1, Z0};

verus! {

/// The result of a comparison whose left side is smaller.
pub type Less = N1;

/// The result of a comparison whose sides are equal.
pub type Equal = Z0;

/// The result of a comparison whose left side is greater.
pub type Greater = P1;

/// The sign of an integer: -1, 0 or +1.
pub open spec fn sign(x: int) -> int {
    if x < 0 {
        -1
    } else if x == 0 {
        0
    } else {
        1
    }
}

/// Whether a numeral is one of the three comparison results.
pub open spec fn is_ordering<T: TypedInt>() -> bool {
    T::repr() == Repr::Zero || T::repr() == Repr::PosOne || T::repr() == Repr::NegOne
}

/// A comparison result as a runtime `Ordering`.
pub trait Ord: TypedInt {
    fn to_ordering() -> (r: core::cmp::Ordering)
        ensures
            (r == core::cmp::Ordering::Less) == (value_of::<Self>() < 0),
            (r == core::cmp::Ordering::Equal) == (value_of::<Self>() == 0),
            (r == core::cmp::Ordering::Greater) == (value_of::<Self>() > 0);
}

impl Ord for Greater {
    fn to_ordering() -> (r: core::cmp::Ordering) {
        core::cmp::Ordering::Greater
    }
}

impl Ord for Less {
    fn to_ordering() -> (r: core::cmp::Ordering) {
        core::cmp::Ordering::Less
    }
}

impl Ord for Equal {
    fn to_ordering() -> (r: core::cmp::Ordering) {
        core::cmp::Ordering::Equal
    }
}

/// Compares `Self` with `R`: the sign of `Self - R`, for canonical operands.
pub trait Cmp<R: TypedInt>: TypedInt {
    type Output: TypedInt;

    /// The comparison result that `Output` stands for.
    proof fn lemma_cmp()
        ensures
            is_ordering::<Self::Output>(),
            is_canonical::<Self>() && is_canonical::<R>() ==> value_of::<Self::Output>() == sign(
                value_of::<Self>() - value_of::<R>(),
            );

    fn compare(self, rhs: R) -> (r: Self::Output)
        ensures
            is_ordering::<Self::Output>(),
            is_canonical::<Self>() && is_canonical::<R>() ==> int_of(r) == sign(
                int_of(self) - int_of(rhs),
            );
}

/// Breaks a tie between equal higher parts when the left low bit is 0 and the
/// right one is 1: `Equal` becomes `Less`.
pub trait IfLess: TypedInt {
    type Output: TypedInt;

    /// The value of `Output`.
    proof fn lemma_if_less()
        ensures
            is_ordering::<Self>() ==> is_ordering::<Self::Output>(),
            value_of::<Self::Output>() == if value_of::<Self>() == 0 {
                -1
            } else {
                value_of::<Self>()
            };

    fn if_less() -> (r: Self::Output)
        ensures
            is_ordering::<Self>() ==> is_ordering::<Self::Output>(),
            int_of(r) == if value_of::<Self>() == 0 {
                -1
            } else {
                value_of::<Self>()
            };
}

/// Breaks a tie between equal higher parts when the left low bit is 1 and the
/// right one is 0: `Equal` becomes `Greater`.
pub trait IfGreater: TypedInt {
    type Output: TypedInt;

    /// The value of `Output`.
    proof fn lemma_if_greater()
        ensures
            is_ordering::<Self>() ==> is_ordering::<Self::Output>(),
            value_of::<Self::Output>() == if value_of::<Self>() == 0 {
                1
            } else {
                value_of::<Self>()
            };

    fn if_greater() -> (r: Self::Output)
        ensures
            is_ordering::<Self>() ==> is_ordering::<Self::Output>(),
            int_of(r) == if value_of::<Self>() == 0 {
                1
            } else {
                value_of::<Self>()
            };
}

impl IfLess for Equal {
    type Output = Less;

    proof fn lemma_if_less() {
    }

    fn if_less() -> (r: Less) {
        proof {
            <Self as IfLess>::lemma_if_less();
        }
        Less::new()
    }
}

impl IfLess for Less {
    type Output = Less;

    proof fn lemma_if_less() {
    }

    fn if_less() -> (r: Less) {
        proof {
            <Self as IfLess>::lemma_if_less();
        }
        Less::new()
    }
}

impl IfLess for Greater {
    type Output = Greater;

    proof fn lemma_if_less() {
    }

    fn if_less() -> (r: Greater) {
        proof {
            <Self as IfLess>::lemma_if_less();
        }
        Greater::new()
    }
}

impl IfGreater for Equal {
    type Output = Greater;

    proof fn lemma_if_greater() {
    }

    fn if_greater() -> (r: Greater) {
        proof {
            <Self as IfGreater>::lemma_if_greater();
        }
        Greater::new()
    }
}

impl IfGreater for Less {
    type Output = Less;

    proof fn lemma_if_greater() {
    }

    fn if_greater() -> (r: Less) {
        proof {
            <Self as IfGreater>::lemma_if_greater();
        }
        Less::new()
    }
}

impl IfGreater for Greater {
    type Output = Greater;

    proof fn lemma_if_greater() {
    }

    fn if_greater() -> (r: Greater) {
        proof {
            <Self as IfGreater>::lemma_if_greater();
        }
        Greater::new()
    }
}

impl Cmp<Z0> for Z0 {
    type Output = Equal;

    proof fn lemma_cmp() {
    }

    fn compare(self, rhs: Z0) -> (r: Equal) {
        proof {
            <Self as Cmp<Z0>>::lemma_cmp();
        }
        Equal::new()
    }
}

impl Cmp<P1> for Z0 {
    type Output = Less;

    proof fn lemma_cmp() {
    }

    fn compare(self, rhs: P1) -> (r: Less) {
        proof {
            <Self as Cmp<P1>>::lemma_cmp();
        }
        Less::new()
    }
}

impl Cmp<N1> for Z0 {
    type Output = Greater;

    proof fn lemma_cmp() {
    }

    fn compare(self, rhs: N1) -> (r: Greater) {
        proof {
            <Self as Cmp<N1>>::lemma_cmp();
        }
        Greater::new()
    }
}

impl Cmp<Z0> for P1 {
    type Output = Greater;

    proof fn lemma_cmp() {
    }

    fn compare(self, rhs: Z0) -> (r: Greater) {
        proof {
            <Self as Cmp<Z0>>::lemma_cmp();
        }
        Greater::new()
    }
}

impl Cmp<P1> for P1 {
    type Output = Equal;

    proof fn lemma_cmp() {
    }

    fn compare(self, rhs: P1) -> (r: Equal) {
        proof {
            <Self as Cmp<P1>>::lemma_cmp();
        }
        Equal::new()
    }
}

impl Cmp<N1> for P1 {
    type Output = Greater;

    proof fn lemma_cmp() {
    }

    fn compare(self, rhs: N1) -> (r: Greater) {
        proof {
            <Self as Cmp<N1>>::lemma_cmp();
        }
        Greater::new()
    }
}

impl Cmp<Z0> for N1 {
    type Output = Less;

    proof fn lemma_cmp() {
    }

    fn compare(self, rhs: Z0) -> (r: Less) {
        proof {
            <Self as Cmp<Z0>>::lemma_cmp();
        }
        Less::new()
    }
}

impl Cmp<P1> for N1 {
    type Output = Less;

    proof fn lemma_cmp() {
    }

    fn compare(self, rhs: P1) -> (r: Less) {
        proof {
            <Self as Cmp<P1>>::lemma_cmp();
        }
        Less::new()
    }
}

impl Cmp<N1> for N1 {
    type Output = Equal;

    proof fn lemma_cmp() {
    }

    fn compare(self, rhs: N1) -> (r: Equal) {
        proof {
            <Self as Cmp<N1>>::lemma_cmp();
        }
        Equal::new()
    }
}

/// A terminator against a longer numeral: the sign of the longer one decides.
impl<H: TypedInt> Cmp<B0<H>> for Z0
where
    Z0: Cmp<H>,
{
    type Output = <Z0 as Cmp<H>>::Output;

    proof fn lemma_cmp() {
        lemma_canonical_small(H::repr());
        <Z0 as Cmp<H>>::lemma_cmp();
    }

    fn compare(self, rhs: B0<H>) -> (r: <Z0 as Cmp<H>>::Output) {
        proof {
            <Self as Cmp<B0<H>>>::lemma_cmp();
        }
        Z0::new().compare(H::instance())
    }
}

impl<H: TypedInt> Cmp<B1<H>> for Z0
where
    Z0: Cmp<H>,
{
    type Output = <Z0 as Cmp<H>>::Output;

    proof fn lemma_cmp() {
        lemma_canonical_small(H::repr());
        <Z0 as Cmp<H>>::lemma_cmp();
    }

    fn compare(self, rhs: B1<H>) -> (r: <Z0 as Cmp<H>>::Output) {
        proof {
            <Self as Cmp<B1<H>>>::lemma_cmp();
        }
        Z0::new().compare(H::instance())
    }
}

impl<H: TypedInt> Cmp<B0<H>> for P1
where
    Z0: Cmp<H>,
{
    type Output = <Z0 as Cmp<H>>::Output;

    proof fn lemma_cmp() {
        lemma_canonical_small(H::repr());
        <Z0 as Cmp<H>>::lemma_cmp();
    }

    fn compare(self, rhs: B0<H>) -> (r: <Z0 as Cmp<H>>::Output) {
        proof {
            <Self as Cmp<B0<H>>>::lemma_cmp();
        }
        Z0::new().compare(H::instance())
    }
}

impl<H: TypedInt> Cmp<B1<H>> for P1
where
    Z0: Cmp<H>,
{
    type Output = <Z0 as Cmp<H>>::Output;

    proof fn lemma_cmp() {
        lemma_canonical_small(H::repr());
        <Z0 as Cmp<H>>::lemma_cmp();
    }

    fn compare(self, rhs: B1<H>) -> (r: <Z0 as Cmp<H>>::Output) {
        proof {
            <Self as Cmp<B1<H>>>::lemma_cmp();
        }
        Z0::new().compare(H::instance())
    }
}

impl<H: TypedInt> Cmp<B0<H>> for N1
where
    Z0: Cmp<H>,
{
    type Output = <Z0 as Cmp<H>>::Output;

    proof fn lemma_cmp() {
        lemma_canonical_small(H::repr());
        <Z0 as Cmp<H>>::lemma_cmp();
    }

    fn compare(self, rhs: B0<H>) -> (r: <Z0 as Cmp<H>>::Output) {
        proof {
            <Self as Cmp<B0<H>>>::lemma_cmp();
        }
        Z0::new().compare(H::instance())
    }
}

impl<H: TypedInt> Cmp<B1<H>> for N1
where
    Z0: Cmp<H>,
{
    type Output = <Z0 as Cmp<H>>::Output;

    proof fn lemma_cmp() {
        lemma_canonical_small(H::repr());
        <Z0 as Cmp<H>>::lemma_cmp();
    }

    fn compare(self, rhs: B1<H>) -> (r: <Z0 as Cmp<H>>::Output) {
        proof {
            <Self as Cmp<B1<H>>>::lemma_cmp();
        }
        Z0::new().compare(H::instance())
    }
}

/// A longer numeral against a terminator: its own sign decides.
impl<H: Cmp<Z0>> Cmp<Z0> for B0<H> {
    type Output = <H as Cmp<Z0>>::Output;

    proof fn lemma_cmp() {
        lemma_canonical_small(H::repr());
        <H as Cmp<Z0>>::lemma_cmp();
    }

    fn compare(self, rhs: Z0) -> (r: <H as Cmp<Z0>>::Output) {
        proof {
            <Self as Cmp<Z0>>::lemma_cmp();
        }
        H::instance().compare(Z0::new())
    }
}

impl<H: Cmp<Z0>> Cmp<P1> for B0<H> {
    type Output = <H as Cmp<Z0>>::Output;

    proof fn lemma_cmp() {
        lemma_canonical_small(H::repr());
        <H as Cmp<Z0>>::lemma_cmp();
    }

    fn compare(self, rhs: P1) -> (r: <H as Cmp<Z0>>::Output) {
        proof {
            <Self as Cmp<P1>>::lemma_cmp();
        }
        H::instance().compare(Z0::new())
    }
}

impl<H: Cmp<Z0>> Cmp<N1> for B0<H> {
    type Output = <H as Cmp<Z0>>::Output;

    proof fn lemma_cmp() {
        lemma_canonical_small(H::repr());
        <H as Cmp<Z0>>::lemma_cmp();
    }

    fn compare(self, rhs: N1) -> (r: <H as Cmp<Z0>>::Output) {
        proof {
            <Self as Cmp<N1>>::lemma_cmp();
        }
        H::instance().compare(Z0::new())
    }
}

impl<H: Cmp<Z0>> Cmp<Z0> for B1<H> {
    type Output = <H as Cmp<Z0>>::Output;

    proof fn lemma_cmp() {
        lemma_canonical_small(H::repr());
        <H as Cmp<Z0>>::lemma_cmp();
    }

    fn compare(self, rhs: Z0) -> (r: <H as Cmp<Z0>>::Output) {
        proof {
            <Self as Cmp<Z0>>::lemma_cmp();
        }
        H::instance().compare(Z0::new())
    }
}

impl<H: Cmp<Z0>> Cmp<P1> for B1<H> {
    type Output = <H as Cmp<Z0>>::Output;

    proof fn lemma_cmp() {
        lemma_canonical_small(H::repr());
        <H as Cmp<Z0>>::lemma_cmp();
    }

    fn compare(self, rhs: P1) -> (r: <H as Cmp<Z0>>::Output) {
        proof {
            <Self as Cmp<P1>>::lemma_cmp();
        }
        H::instance().compare(Z0::new())
    }
}

impl<H: Cmp<Z0>> Cmp<N1> for B1<H> {
    type Output = <H as Cmp<Z0>>::Output;

    proof fn lemma_cmp() {
        lemma_canonical_small(H::repr());
        <H as Cmp<Z0>>::lemma_cmp();
    }

    fn compare(self, rhs: N1) -> (r: <H as Cmp<Z0>>::Output) {
        proof {
            <Self as Cmp<N1>>::lemma_cmp();
        }
        H::instance().compare(Z0::new())
    }
}

/// Equal low bits: the higher parts decide.
impl<H1: Cmp<H2>, H2: TypedInt> Cmp<B0<H2>> for B0<H1> {
    type Output = <H1 as Cmp<H2>>::Output;

    proof fn lemma_cmp() {
        <H1 as Cmp<H2>>::lemma_cmp();
    }

    fn compare(self, rhs: B0<H2>) -> (r: <H1 as Cmp<H2>>::Output) {
        proof {
            <Self as Cmp<B0<H2>>>::lemma_cmp();
        }
        H1::instance().compare(H2::instance())
    }
}

impl<H1: Cmp<H2>, H2: TypedInt> Cmp<B1<H2>> for B1<H1> {
    type Output = <H1 as Cmp<H2>>::Output;

    proof fn lemma_cmp() {
        <H1 as Cmp<H2>>::lemma_cmp();
    }

    fn compare(self, rhs: B1<H2>) -> (r: <H1 as Cmp<H2>>::Output) {
        proof {
            <Self as Cmp<B1<H2>>>::lemma_cmp();
        }
        H1::instance().compare(H2::instance())
    }
}

/// Low bits 0 against 1: the higher parts decide, and a tie is `Less`.
impl<H1: Cmp<H2>, H2: TypedInt> Cmp<B1<H2>> for B0<H1>
where
    <H1 as Cmp<H2>>::Output: IfLess,
{
    type Output = <<H1 as Cmp<H2>>::Output as IfLess>::Output;

    proof fn lemma_cmp() {
        <H1 as Cmp<H2>>::lemma_cmp();
        <<H1 as Cmp<H2>>::Output as IfLess>::lemma_if_less();
    }

    fn compare(self, rhs: B1<H2>) -> (r: <<H1 as Cmp<H2>>::Output as IfLess>::Output) {
        proof {
            <Self as Cmp<B1<H2>>>::lemma_cmp();
        }
        <<H1 as Cmp<H2>>::Output as IfLess>::if_less()
    }
}

/// Low bits 1 against 0: the higher parts decide, and a tie is `Greater`.
impl<H1: Cmp<H2>, H2: TypedInt> Cmp<B0<H2>> for B1<H1>
where
    <H1 as Cmp<H2>>::Output: IfGreater,
{
    type Output = <<H1 as Cmp<H2>>::Output as IfGreater>::Output;

    proof fn lemma_cmp() {
        <H1 as Cmp<H2>>::lemma_cmp();
        <<H1 as Cmp<H2>>::Output as IfGreater>::lemma_if_greater();
    }

    fn compare(self, rhs: B0<H2>) -> (r: <<H1 as Cmp<H2>>::Output as IfGreater>::Output) {
        proof {
            <Self as Cmp<B0<H2>>>::lemma_cmp();
        }
        <<H1 as Cmp<H2>>::Output as IfGreater>::if_greater()
    }
}

} // verus!
