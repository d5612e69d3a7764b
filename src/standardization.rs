//! Canonicalisation: the two rules through which every operation builds a
//! new low bit on top of a computed higher part.
use vstd::prelude::*;
use crate::types::{int_of, is_canonical, value_of, TypedInt, B0, B1, N1, P1, Z0};

verus! {

/// Builds the numeral "`Self` followed by a zero bit", collapsing `B0<Z0>` to `Z0`.
pub trait IfB0: TypedInt {
    type Output: TypedInt;

    /// The value and the canonical form of `Output`.
    proof fn lemma_b0()
        ensures
            value_of::<Self::Output>() == 2 * value_of::<Self>(),
            is_canonical::<Self>() ==> is_canonical::<Self::Output>();

    fn b0() -> (r: Self::Output)
        ensures
            int_of(r) == 2 * value_of::<Self>(),
            is_canonical::<Self>() ==> is_canonical::<Self::Output>();
}

/// Builds the numeral "`Self` followed by a one bit", collapsing `B1<Z0>` to
/// `P1` and `B1<N1>` to `N1`.
pub trait IfB1: TypedInt {
    type Output: TypedInt;

    /// The value and the canonical form of `Output`.
    proof fn lemma_b1()
        ensures
            value_of::<Self::Output>() == 2 * value_of::<Self>() + 1,
            is_canonical::<Self>() ==> is_canonical::<Self::Output>();

    fn b1() -> (r: Self::Output)
        ensures
            int_of(r) == 2 * value_of::<Self>() + 1,
            is_canonical::<Self>() ==> is_canonical::<Self::Output>();
}

impl IfB0 for Z0 {
    type Output = Z0;

    proof fn lemma_b0() {
    }

    fn b0() -> (r: Z0) {
        proof {
            <Self as IfB0>::lemma_b0();
        }
        Z0::new()
    }
}

impl IfB0 for P1 {
    type Output = B0<P1>;

    proof fn lemma_b0() {
    }

    fn b0() -> (r: B0<P1>) {
        proof {
            <Self as IfB0>::lemma_b0();
        }
        B0::new()
    }
}

impl IfB0 for N1 {
    type Output = B0<N1>;

    proof fn lemma_b0() {
    }

    fn b0() -> (r: B0<N1>) {
        proof {
            <Self as IfB0>::lemma_b0();
        }
        B0::new()
    }
}

impl<H: TypedInt> IfB0 for B0<H> {
    type Output = B0<B0<H>>;

    proof fn lemma_b0() {
    }

    fn b0() -> (r: B0<B0<H>>) {
        proof {
            <Self as IfB0>::lemma_b0();
        }
        B0::new()
    }
}

impl<H: TypedInt> IfB0 for B1<H> {
    type Output = B0<B1<H>>;

    proof fn lemma_b0() {
    }

    fn b0() -> (r: B0<B1<H>>) {
        proof {
            <Self as IfB0>::lemma_b0();
        }
        B0::new()
    }
}

impl IfB1 for Z0 {
    type Output = P1;

    proof fn lemma_b1() {
    }

    fn b1() -> (r: P1) {
        proof {
            <Self as IfB1>::lemma_b1();
        }
        P1::new()
    }
}

impl IfB1 for P1 {
    type Output = B1<P1>;

    proof fn lemma_b1() {
    }

    fn b1() -> (r: B1<P1>) {
        proof {
            <Self as IfB1>::lemma_b1();
        }
        B1::new()
    }
}

impl IfB1 for N1 {
    type Output = N1;

    proof fn lemma_b1() {
    }

    fn b1() -> (r: N1) {
        proof {
            <Self as IfB1>::lemma_b1();
        }
        N1::new()
    }
}

impl<H: TypedInt> IfB1 for B0<H> {
    type Output = B1<B0<H>>;

    proof fn lemma_b1() {
    }

    fn b1() -> (r: B1<B0<H>>) {
        proof {
            <Self as IfB1>::lemma_b1();
        }
        B1::new()
    }
}

impl<H: TypedInt> IfB1 for B1<H> {
    type Output = B1<B1<H>>;

    proof fn lemma_b1() {
    }

    fn b1() -> (r: B1<B1<H>>) {
        proof {
            <Self as IfB1>::lemma_b1();
        }
        B1::new()
    }
}

} // verus!
