//! Decrement: a borrow that ripples up from the lowest bit.
use vstd::prelude::*;
use crate::repr::lemma_canonical_small;
use crate::types::{int_of, is_canonical, value_of, NonOne, TypedInt, B0, B1, N1, P1, Z0};

verus! {

/// `Self - 1`.
pub trait Sub1: TypedInt {
    type Output: TypedInt;

    /// The value and the canonical form of `Output`.
    proof fn lemma_sub1()
        ensures
            value_of::<Self::Output>() == value_of::<Self>() - 1,
            is_canonical::<Self>() ==> is_canonical::<Self::Output>();

    fn sub1(self) -> (r: Self::Output)
        ensures
            int_of(r) == int_of(self) - 1,
            is_canonical::<Self>() ==> is_canonical::<Self::Output>();
}

impl Sub1 for Z0 {
    type Output = N1;

    proof fn lemma_sub1() {
    }

    fn sub1(self) -> (r: N1) {
        proof {
            <Self as Sub1>::lemma_sub1();
        }
        N1::new()
    }
}

impl Sub1 for P1 {
    type Output = Z0;

    proof fn lemma_sub1() {
    }

    fn sub1(self) -> (r: Z0) {
        proof {
            <Self as Sub1>::lemma_sub1();
        }
        Z0::new()
    }
}

impl Sub1 for N1 {
    type Output = B0<N1>;

    proof fn lemma_sub1() {
    }

    fn sub1(self) -> (r: B0<N1>) {
        proof {
            <Self as Sub1>::lemma_sub1();
        }
        B0::new()
    }
}

/// A trailing zero becomes a one and the borrow moves into the higher part.
impl<H: NonOne + Sub1> Sub1 for B0<H> {
    type Output = B1<<H as Sub1>::Output>;

    proof fn lemma_sub1() {
        H::lemma_sub1();
        H::lemma_non_one();
        lemma_canonical_small(H::repr());
        lemma_canonical_small(<H as Sub1>::Output::repr());
    }

    fn sub1(self) -> (r: B1<<H as Sub1>::Output>) {
        proof {
            <Self as Sub1>::lemma_sub1();
        }
        B1::new()
    }
}

/// 2 - 1 is +1 itself: `B1<Z0>` is not a canonical form.
impl Sub1 for B0<P1> {
    type Output = P1;

    proof fn lemma_sub1() {
    }

    fn sub1(self) -> (r: P1) {
        proof {
            <Self as Sub1>::lemma_sub1();
        }
        P1::new()
    }
}

/// A trailing one becomes a zero; no borrow.
impl<H: TypedInt> Sub1 for B1<H> {
    type Output = B0<H>;

    proof fn lemma_sub1() {
    }

    fn sub1(self) -> (r: B0<H>) {
        proof {
            <Self as Sub1>::lemma_sub1();
        }
        B0::new()
    }
}

} // verus!
