//! Negation.
use vstd::prelude::*;
use crate::not::IntNot;
use crate::repr::lemma_canonical_small;
use crate::types::{int_of, is_canonical, value_of, TypedInt, B0, B1, N1, P1, Z0};

verus! {

/// `-Self`.
pub trait IntNeg: TypedInt {
    type Output: TypedInt;

    /// The value and the canonical form of `Output`.
    proof fn lemma_neg()
        ensures
            value_of::<Self::Output>() == -value_of::<Self>(),
            is_canonical::<Self>() ==> is_canonical::<Self::Output>();

    fn int_neg(self) -> (r: Self::Output)
        ensures
            int_of(r) == -int_of(self),
            is_canonical::<Self>() ==> is_canonical::<Self::Output>();
}

impl IntNeg for Z0 {
    type Output = Z0;

    proof fn lemma_neg() {
    }

    fn int_neg(self) -> (r: Z0) {
        proof {
            <Self as IntNeg>::lemma_neg();
        }
        Z0::new()
    }
}

impl IntNeg for P1 {
    type Output = N1;

    proof fn lemma_neg() {
    }

    fn int_neg(self) -> (r: N1) {
        proof {
            <Self as IntNeg>::lemma_neg();
        }
        N1::new()
    }
}

impl IntNeg for N1 {
    type Output = P1;

    proof fn lemma_neg() {
    }

    fn int_neg(self) -> (r: P1) {
        proof {
            <Self as IntNeg>::lemma_neg();
        }
        P1::new()
    }
}

/// `-(2h) = 2(-h)`.
impl<H: IntNeg> IntNeg for B0<H> {
    type Output = B0<<H as IntNeg>::Output>;

    proof fn lemma_neg() {
        H::lemma_neg();
        lemma_canonical_small(H::repr());
        lemma_canonical_small(<H as IntNeg>::Output::repr());
    }

    fn int_neg(self) -> (r: B0<<H as IntNeg>::Output>) {
        proof {
            <Self as IntNeg>::lemma_neg();
        }
        B0::new()
    }
}

/// `-(2h + 1) = 2(!h) + 1`.
impl<H: IntNot> IntNeg for B1<H> {
    type Output = B1<<H as IntNot>::Output>;

    proof fn lemma_neg() {
        H::lemma_not();
        lemma_canonical_small(H::repr());
        lemma_canonical_small(<H as IntNot>::Output::repr());
    }

    fn int_neg(self) -> (r: B1<<H as IntNot>::Output>) {
        proof {
            <Self as IntNeg>::lemma_neg();
        }
        B1::new()
    }
}

// The operator form: the same operation through the standard operator trait.

impl core::ops::Neg for Z0 where Z0: IntNeg {
    type Output = <Z0 as IntNeg>::Output;

    fn neg(self) -> Self::Output {
        let r = self.int_neg();
        proof {
            <<Z0 as IntNeg>::Output as TypedInt>::lemma_unique(r);
        }
        r
    }
}

impl vstd::std_specs::ops::NegSpecImpl for Z0 where Z0: IntNeg {
    open spec fn obeys_neg_spec() -> bool {
        true
    }

    open spec fn neg_req(self) -> bool {
        true
    }

    open spec fn neg_spec(self) -> Self::Output {
        <Z0 as IntNeg>::Output::unit()
    }
}

impl core::ops::Neg for P1 where P1: IntNeg {
    type Output = <P1 as IntNeg>::Output;

    fn neg(self) -> Self::Output {
        let r = self.int_neg();
        proof {
            <<P1 as IntNeg>::Output as TypedInt>::lemma_unique(r);
        }
        r
    }
}

impl vstd::std_specs::ops::NegSpecImpl for P1 where P1: IntNeg {
    open spec fn obeys_neg_spec() -> bool {
        true
    }

    open spec fn neg_req(self) -> bool {
        true
    }

    open spec fn neg_spec(self) -> Self::Output {
        <P1 as IntNeg>::Output::unit()
    }
}

impl core::ops::Neg for N1 where N1: IntNeg {
    type Output = <N1 as IntNeg>::Output;

    fn neg(self) -> Self::Output {
        let r = self.int_neg();
        proof {
            <<N1 as IntNeg>::Output as TypedInt>::lemma_unique(r);
        }
        r
    }
}

impl vstd::std_specs::ops::NegSpecImpl for N1 where N1: IntNeg {
    open spec fn obeys_neg_spec() -> bool {
        true
    }

    open spec fn neg_req(self) -> bool {
        true
    }

    open spec fn neg_spec(self) -> Self::Output {
        <N1 as IntNeg>::Output::unit()
    }
}

impl<H: TypedInt> core::ops::Neg for B0<H> where B0<H>: IntNeg {
    type Output = <B0<H> as IntNeg>::Output;

    fn neg(self) -> Self::Output {
        let r = self.int_neg();
        proof {
            <<B0<H> as IntNeg>::Output as TypedInt>::lemma_unique(r);
        }
        r
    }
}

impl<H: TypedInt> vstd::std_specs::ops::NegSpecImpl for B0<H> where B0<H>: IntNeg {
    open spec fn obeys_neg_spec() -> bool {
        true
    }

    open spec fn neg_req(self) -> bool {
        true
    }

    open spec fn neg_spec(self) -> Self::Output {
        <B0<H> as IntNeg>::Output::unit()
    }
}

impl<H: TypedInt> core::ops::Neg for B1<H> where B1<H>: IntNeg {
    type Output = <B1<H> as IntNeg>::Output;

    fn neg(self) -> Self::Output {
        let r = self.int_neg();
        proof {
            <<B1<H> as IntNeg>::Output as TypedInt>::lemma_unique(r);
        }
        r
    }
}

impl<H: TypedInt> vstd::std_specs::ops::NegSpecImpl for B1<H> where B1<H>: IntNeg {
    open spec fn obeys_neg_spec() -> bool {
        true
    }

    open spec fn neg_req(self) -> bool {
        true
    }

    open spec fn neg_spec(self) -> Self::Output {
        <B1<H> as IntNeg>::Output::unit()
    }
}

} // verus!
