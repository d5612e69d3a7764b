//! Bitwise complement: `!x = -x - 1`.
use vstd::prelude::*;
use crate::repr::{lemma_canonical_small, Repr};
use crate::types::{int_of, is_canonical, value_of, NonNegOne, TypedInt, B0, B1, N1, P1, Z0};

verus! {

/// `!Self`, the two's-complement bitwise complement.
pub trait IntNot: TypedInt {
    type Output: TypedInt;

    /// The value and the canonical form of `Output`.
    proof fn lemma_not()
        ensures
            value_of::<Self::Output>() == -value_of::<Self>() - 1,
            is_canonical::<Self>() ==> is_canonical::<Self::Output>();

    fn int_not(self) -> (r: Self::Output)
        ensures
            int_of(r) == -int_of(self) - 1,
            is_canonical::<Self>() ==> is_canonical::<Self::Output>();
}

impl IntNot for Z0 {
    type Output = N1;

    proof fn lemma_not() {
    }

    fn int_not(self) -> (r: N1) {
        proof {
            <Self as IntNot>::lemma_not();
        }
        N1::new()
    }
}

impl IntNot for P1 {
    type Output = B0<N1>;

    proof fn lemma_not() {
        reveal_with_fuel(Repr::val, 2);
        reveal_with_fuel(Repr::canonical, 2);
    }

    fn int_not(self) -> (r: B0<N1>) {
        proof {
            <Self as IntNot>::lemma_not();
        }
        B0::new()
    }
}

impl IntNot for N1 {
    type Output = Z0;

    proof fn lemma_not() {
    }

    fn int_not(self) -> (r: Z0) {
        proof {
            <Self as IntNot>::lemma_not();
        }
        Z0::new()
    }
}

/// A zero bit flips to a one bit above the complemented higher part.
impl<H: NonNegOne + IntNot> IntNot for B0<H> {
    type Output = B1<<H as IntNot>::Output>;

    proof fn lemma_not() {
        H::lemma_not();
        H::lemma_non_neg_one();
        lemma_canonical_small(H::repr());
        lemma_canonical_small(<H as IntNot>::Output::repr());
    }

    fn int_not(self) -> (r: B1<<H as IntNot>::Output>) {
        proof {
            <Self as IntNot>::lemma_not();
        }
        B1::new()
    }
}

/// `!(-2)` is +1 itself: `B1<Z0>` is not a canonical form.
impl IntNot for B0<N1> {
    type Output = P1;

    proof fn lemma_not() {
        reveal_with_fuel(Repr::val, 2);
    }

    fn int_not(self) -> (r: P1) {
        proof {
            <Self as IntNot>::lemma_not();
        }
        P1::new()
    }
}

/// A one bit flips to a zero bit above the complemented higher part.
impl<H: IntNot> IntNot for B1<H> {
    type Output = B0<<H as IntNot>::Output>;

    proof fn lemma_not() {
        H::lemma_not();
        lemma_canonical_small(H::repr());
        lemma_canonical_small(<H as IntNot>::Output::repr());
    }

    fn int_not(self) -> (r: B0<<H as IntNot>::Output>) {
        proof {
            <Self as IntNot>::lemma_not();
        }
        B0::new()
    }
}

// The operator form: the same operation through the standard operator trait.

impl core::ops::Not for Z0 where Z0: IntNot {
    type Output = <Z0 as IntNot>::Output;

    fn not(self) -> Self::Output {
        let r = self.int_not();
        proof {
            <<Z0 as IntNot>::Output as TypedInt>::lemma_unique(r);
        }
        r
    }
}

impl vstd::std_specs::ops::NotSpecImpl for Z0 where Z0: IntNot {
    open spec fn obeys_not_spec() -> bool {
        true
    }

    open spec fn not_req(self) -> bool {
        true
    }

    open spec fn not_spec(self) -> Self::Output {
        <Z0 as IntNot>::Output::unit()
    }
}

impl core::ops::Not for P1 where P1: IntNot {
    type Output = <P1 as IntNot>::Output;

    fn not(self) -> Self::Output {
        let r = self.int_not();
        proof {
            <<P1 as IntNot>::Output as TypedInt>::lemma_unique(r);
        }
        r
    }
}

impl vstd::std_specs::ops::NotSpecImpl for P1 where P1: IntNot {
    open spec fn obeys_not_spec() -> bool {
        true
    }

    open spec fn not_req(self) -> bool {
        true
    }

    open spec fn not_spec(self) -> Self::Output {
        <P1 as IntNot>::Output::unit()
    }
}

impl core::ops::Not for N1 where N1: IntNot {
    type Output = <N1 as IntNot>::Output;

    fn not(self) -> Self::Output {
        let r = self.int_not();
        proof {
            <<N1 as IntNot>::Output as TypedInt>::lemma_unique(r);
        }
        r
    }
}

impl vstd::std_specs::ops::NotSpecImpl for N1 where N1: IntNot {
    open spec fn obeys_not_spec() -> bool {
        true
    }

    open spec fn not_req(self) -> bool {
        true
    }

    open spec fn not_spec(self) -> Self::Output {
        <N1 as IntNot>::Output::unit()
    }
}

impl<H: TypedInt> core::ops::Not for B0<H> where B0<H>: IntNot {
    type Output = <B0<H> as IntNot>::Output;

    fn not(self) -> Self::Output {
        let r = self.int_not();
        proof {
            <<B0<H> as IntNot>::Output as TypedInt>::lemma_unique(r);
        }
        r
    }
}

impl<H: TypedInt> vstd::std_specs::ops::NotSpecImpl for B0<H> where B0<H>: IntNot {
    open spec fn obeys_not_spec() -> bool {
        true
    }

    open spec fn not_req(self) -> bool {
        true
    }

    open spec fn not_spec(self) -> Self::Output {
        <B0<H> as IntNot>::Output::unit()
    }
}

impl<H: TypedInt> core::ops::Not for B1<H> where B1<H>: IntNot {
    type Output = <B1<H> as IntNot>::Output;

    fn not(self) -> Self::Output {
        let r = self.int_not();
        proof {
            <<B1<H> as IntNot>::Output as TypedInt>::lemma_unique(r);
        }
        r
    }
}

impl<H: TypedInt> vstd::std_specs::ops::NotSpecImpl for B1<H> where B1<H>: IntNot {
    open spec fn obeys_not_spec() -> bool {
        true
    }

    open spec fn not_req(self) -> bool {
        true
    }

    open spec fn not_spec(self) -> Self::Output {
        <B1<H> as IntNot>::Output::unit()
    }
}

} // verus!
