//! Multiplication: shift-and-add, driven by the bits of the left operand.
use vstd::prelude::*;
use crate::add::IntAdd;
use crate::neg::IntNeg;
use crate::standardization::IfB0;
use crate::types::{int_of, is_canonical, value_of, TypedInt, B0, B1, N1, P1, Z0};

verus! {

/// `Self * R`.
pub trait IntMul<R: TypedInt>: TypedInt {
    type Output: TypedInt;

    /// The value and the canonical form of `Output`.
    proof fn lemma_mul()
        ensures
            value_of::<Self::Output>() == value_of::<Self>() * value_of::<R>(),
            is_canonical::<Self>() && is_canonical::<R>() ==> is_canonical::<Self::Output>();

    fn int_mul(self, rhs: R) -> (r: Self::Output)
        ensures
            int_of(r) == int_of(self) * int_of(rhs),
            is_canonical::<Self>() && is_canonical::<R>() ==> is_canonical::<Self::Output>();
}

/// 0 * x = 0.
impl<R: TypedInt> IntMul<R> for Z0 {
    type Output = Z0;

    proof fn lemma_mul() {
    }

    fn int_mul(self, rhs: R) -> (r: Z0) {
        proof {
            <Self as IntMul<R>>::lemma_mul();
        }
        Z0::new()
    }
}

/// 1 * x = x.
impl<R: TypedInt> IntMul<R> for P1 {
    type Output = R;

    proof fn lemma_mul() {
    }

    fn int_mul(self, rhs: R) -> (r: R) {
        proof {
            <Self as IntMul<R>>::lemma_mul();
        }
        rhs
    }
}

/// -1 * x = -x.
impl<R: IntNeg> IntMul<R> for N1 {
    type Output = <R as IntNeg>::Output;

    proof fn lemma_mul() {
        R::lemma_neg();
        assert(-1 * value_of::<R>() == -value_of::<R>()) by (nonlinear_arith);
    }

    fn int_mul(self, rhs: R) -> (r: <R as IntNeg>::Output) {
        proof {
            <Self as IntMul<R>>::lemma_mul();
        }
        rhs.int_neg()
    }
}

/// `(2h) * x = 2 (h * x)`.
impl<H: IntMul<R>, R: TypedInt> IntMul<R> for B0<H>
where
    <H as IntMul<R>>::Output: IfB0,
{
    type Output = <<H as IntMul<R>>::Output as IfB0>::Output;

    proof fn lemma_mul() {
        <H as IntMul<R>>::lemma_mul();
        <<H as IntMul<R>>::Output as IfB0>::lemma_b0();
        assert(2 * value_of::<H>() * value_of::<R>() == 2 * (value_of::<H>() * value_of::<R>()))
            by (nonlinear_arith);
    }

    fn int_mul(self, rhs: R) -> (r: <<H as IntMul<R>>::Output as IfB0>::Output) {
        proof {
            <Self as IntMul<R>>::lemma_mul();
        }
        <<H as IntMul<R>>::Output as IfB0>::b0()
    }
}

/// `(2h + 1) * x = x + 2 (h * x)`.
impl<H: IntMul<R>, R: TypedInt> IntMul<R> for B1<H>
where
    <H as IntMul<R>>::Output: IfB0,
    R: IntAdd<<<H as IntMul<R>>::Output as IfB0>::Output>,
{
    type Output = <R as IntAdd<<<H as IntMul<R>>::Output as IfB0>::Output>>::Output;

    proof fn lemma_mul() {
        <H as IntMul<R>>::lemma_mul();
        <<H as IntMul<R>>::Output as IfB0>::lemma_b0();
        <R as IntAdd<<<H as IntMul<R>>::Output as IfB0>::Output>>::lemma_add();
        assert((2 * value_of::<H>() + 1) * value_of::<R>() == value_of::<R>() + 2 * (value_of::<H>()
            * value_of::<R>())) by (nonlinear_arith);
    }

    fn int_mul(self, rhs: R) -> (r: <R as IntAdd<<<H as IntMul<R>>::Output as IfB0>::Output>>::Output) {
        proof {
            <Self as IntMul<R>>::lemma_mul();
        }
        let twice = <<H as IntMul<R>>::Output as IfB0>::b0();
        rhs.int_add(twice)
    }
}

// The operator form: the same operation through the standard operator trait.

impl<R: TypedInt> core::ops::Mul<R> for Z0 where Z0: IntMul<R> {
    type Output = <Z0 as IntMul<R>>::Output;

    fn mul(self, rhs: R) -> Self::Output {
        let r = self.int_mul(rhs);
        proof {
            <<Z0 as IntMul<R>>::Output as TypedInt>::lemma_unique(r);
        }
        r
    }
}

impl<R: TypedInt> vstd::std_specs::ops::MulSpecImpl<R> for Z0 where Z0: IntMul<R> {
    open spec fn obeys_mul_spec() -> bool {
        true
    }

    open spec fn mul_req(self, rhs: R) -> bool {
        true
    }

    open spec fn mul_spec(self, rhs: R) -> Self::Output {
        <Z0 as IntMul<R>>::Output::unit()
    }
}

impl<R: TypedInt> core::ops::Mul<R> for P1 where P1: IntMul<R> {
    type Output = <P1 as IntMul<R>>::Output;

    fn mul(self, rhs: R) -> Self::Output {
        let r = self.int_mul(rhs);
        proof {
            <<P1 as IntMul<R>>::Output as TypedInt>::lemma_unique(r);
        }
        r
    }
}

impl<R: TypedInt> vstd::std_specs::ops::MulSpecImpl<R> for P1 where P1: IntMul<R> {
    open spec fn obeys_mul_spec() -> bool {
        true
    }

    open spec fn mul_req(self, rhs: R) -> bool {
        true
    }

    open spec fn mul_spec(self, rhs: R) -> Self::Output {
        <P1 as IntMul<R>>::Output::unit()
    }
}

impl<R: TypedInt> core::ops::Mul<R> for N1 where N1: IntMul<R> {
    type Output = <N1 as IntMul<R>>::Output;

    fn mul(self, rhs: R) -> Self::Output {
        let r = self.int_mul(rhs);
        proof {
            <<N1 as IntMul<R>>::Output as TypedInt>::lemma_unique(r);
        }
        r
    }
}

impl<R: TypedInt> vstd::std_specs::ops::MulSpecImpl<R> for N1 where N1: IntMul<R> {
    open spec fn obeys_mul_spec() -> bool {
        true
    }

    open spec fn mul_req(self, rhs: R) -> bool {
        true
    }

    open spec fn mul_spec(self, rhs: R) -> Self::Output {
        <N1 as IntMul<R>>::Output::unit()
    }
}

impl<H: TypedInt, R: TypedInt> core::ops::Mul<R> for B0<H> where B0<H>: IntMul<R> {
    type Output = <B0<H> as IntMul<R>>::Output;

    fn mul(self, rhs: R) -> Self::Output {
        let r = self.int_mul(rhs);
        proof {
            <<B0<H> as IntMul<R>>::Output as TypedInt>::lemma_unique(r);
        }
        r
    }
}

impl<H: TypedInt, R: TypedInt> vstd::std_specs::ops::MulSpecImpl<R> for B0<H> where B0<H>: IntMul<R> {
    open spec fn obeys_mul_spec() -> bool {
        true
    }

    open spec fn mul_req(self, rhs: R) -> bool {
        true
    }

    open spec fn mul_spec(self, rhs: R) -> Self::Output {
        <B0<H> as IntMul<R>>::Output::unit()
    }
}

impl<H: TypedInt, R: TypedInt> core::ops::Mul<R> for B1<H> where B1<H>: IntMul<R> {
    type Output = <B1<H> as IntMul<R>>::Output;

    fn mul(self, rhs: R) -> Self::Output {
        let r = self.int_mul(rhs);
        proof {
            <<B1<H> as IntMul<R>>::Output as TypedInt>::lemma_unique(r);
        }
        r
    }
}

impl<H: TypedInt, R: TypedInt> vstd::std_specs::ops::MulSpecImpl<R> for B1<H> where B1<H>: IntMul<R> {
    open spec fn obeys_mul_spec() -> bool {
        true
    }

    open spec fn mul_req(self, rhs: R) -> bool {
        true
    }

    open spec fn mul_spec(self, rhs: R) -> Self::Output {
        <B1<H> as IntMul<R>>::Output::unit()
    }
}

} // verus!
