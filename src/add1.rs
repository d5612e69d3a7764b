//! Increment: a carry that ripples up from the lowest bit.
use vstd::prelude::*;
use crate::types::{int_of, is_canonical, value_of, NonNegOne, NonZero, TypedInt, B0, B1, N1, P1, Z0};

verus! {

/// `Self + 1`.
pub trait Add1: TypedInt {
    type Output: TypedInt;

    /// The value and the canonical form of `Output`.
    proof fn lemma_add1()
        ensures
            value_of::<Self::Output>() == value_of::<Self>() + 1,
            is_canonical::<Self>() ==> is_canonical::<Self::Output>();

    fn add1(self) -> (r: Self::Output)
        ensures
            int_of(r) == int_of(self) + 1,
            is_canonical::<Self>() ==> is_canonical::<Self::Output>();
}

impl Add1 for Z0 {
    type Output = P1;

    proof fn lemma_add1() {
    }

    fn add1(self) -> (r: P1) {
        proof {
            <Self as Add1>::lemma_add1();
        }
        P1::new()
    }
}

impl Add1 for P1 {
    type Output = B0<P1>;

    proof fn lemma_add1() {
    }

    fn add1(self) -> (r: B0<P1>) {
        proof {
            <Self as Add1>::lemma_add1();
        }
        B0::new()
    }
}

impl Add1 for N1 {
    type Output = Z0;

    proof fn lemma_add1() {
    }

    fn add1(self) -> (r: Z0) {
        proof {
            <Self as Add1>::lemma_add1();
        }
        Z0::new()
    }
}

/// A trailing zero becomes a one; no carry.
impl<H: NonNegOne> Add1 for B0<H> {
    type Output = B1<H>;

    proof fn lemma_add1() {
        H::lemma_non_neg_one();
    }

    fn add1(self) -> (r: B1<H>) {
        proof {
            <Self as Add1>::lemma_add1();
        }
        B1::new()
    }
}

/// -2 + 1 is -1 itself: `B1<N1>` is not a canonical form.
impl Add1 for B0<N1> {
    type Output = N1;

    proof fn lemma_add1() {
    }

    fn add1(self) -> (r: N1) {
        proof {
            <Self as Add1>::lemma_add1();
        }
        N1::new()
    }
}

/// A trailing one becomes a zero and the carry moves into the higher part.
impl<H: Add1> Add1 for B1<H>
where
    <H as Add1>::Output: NonZero,
{
    type Output = B0<<H as Add1>::Output>;

    proof fn lemma_add1() {
        H::lemma_add1();
        <H as Add1>::Output::lemma_non_zero();
    }

    fn add1(self) -> (r: B0<<H as Add1>::Output>) {
        proof {
            <Self as Add1>::lemma_add1();
        }
        B0::new()
    }
}

} // verus!
