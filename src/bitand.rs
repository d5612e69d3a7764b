//! Bitwise AND, bit by bit, with -1 as all ones.
use vstd::prelude::*;
use crate::bitwise::{lemma_and_split, and_int};
use crate::standardization::{IfB0, IfB1};
use crate::types::{int_of, is_canonical, value_of, TypedInt, B0, B1, N1, P1, Z0};

verus! {

/// `Self & R`.
pub trait IntAnd<R: TypedInt>: TypedInt {
    type Output: TypedInt;

    /// The value and the canonical form of `Output`.
    proof fn lemma_and()
        ensures
            value_of::<Self::Output>() == and_int(value_of::<Self>(), value_of::<R>()),
            is_canonical::<Self>() && is_canonical::<R>() ==> is_canonical::<Self::Output>();

    fn int_and(self, rhs: R) -> (r: Self::Output)
        ensures
            int_of(r) == and_int(int_of(self), int_of(rhs)),
            is_canonical::<Self>() && is_canonical::<R>() ==> is_canonical::<Self::Output>();
}

/// 0 & x = 0.
impl<R: TypedInt> IntAnd<R> for Z0 {
    type Output = Z0;

    proof fn lemma_and() {
        lemma_and_split(value_of::<Self>(), value_of::<R>());
    }

    fn int_and(self, rhs: R) -> (r: Z0) {
        proof {
            <Self as IntAnd<R>>::lemma_and();
        }
        Z0::new()
    }
}

/// -1 & x = x.
impl<R: TypedInt> IntAnd<R> for N1 {
    type Output = R;

    proof fn lemma_and() {
        lemma_and_split(value_of::<Self>(), value_of::<R>());
    }

    fn int_and(self, rhs: R) -> (r: R) {
        proof {
            <Self as IntAnd<R>>::lemma_and();
        }
        rhs
    }
}

impl IntAnd<Z0> for P1 {
    type Output = Z0;

    proof fn lemma_and() {
        lemma_and_split(value_of::<Self>(), value_of::<Z0>());
    }

    fn int_and(self, rhs: Z0) -> (r: Z0) {
        proof {
            <Self as IntAnd<Z0>>::lemma_and();
        }
        Z0::new()
    }
}

impl IntAnd<P1> for P1 {
    type Output = P1;

    proof fn lemma_and() {
        lemma_and_split(value_of::<Self>(), value_of::<P1>());
    }

    fn int_and(self, rhs: P1) -> (r: P1) {
        proof {
            <Self as IntAnd<P1>>::lemma_and();
        }
        P1::new()
    }
}

impl IntAnd<N1> for P1 {
    type Output = P1;

    proof fn lemma_and() {
        lemma_and_split(value_of::<Self>(), value_of::<N1>());
    }

    fn int_and(self, rhs: N1) -> (r: P1) {
        proof {
            <Self as IntAnd<N1>>::lemma_and();
        }
        P1::new()
    }
}

impl<H: TypedInt> IntAnd<B0<H>> for P1 {
    type Output = Z0;

    proof fn lemma_and() {
        lemma_and_split(value_of::<Self>(), value_of::<B0<H>>());
    }

    fn int_and(self, rhs: B0<H>) -> (r: Z0) {
        proof {
            <Self as IntAnd<B0<H>>>::lemma_and();
        }
        Z0::new()
    }
}

impl<H: TypedInt> IntAnd<B1<H>> for P1 {
    type Output = P1;

    proof fn lemma_and() {
        lemma_and_split(value_of::<Self>(), value_of::<B1<H>>());
    }

    fn int_and(self, rhs: B1<H>) -> (r: P1) {
        proof {
            <Self as IntAnd<B1<H>>>::lemma_and();
        }
        P1::new()
    }
}

impl<H: TypedInt> IntAnd<Z0> for B0<H> {
    type Output = Z0;

    proof fn lemma_and() {
        lemma_and_split(value_of::<Self>(), value_of::<Z0>());
    }

    fn int_and(self, rhs: Z0) -> (r: Z0) {
        proof {
            <Self as IntAnd<Z0>>::lemma_and();
        }
        Z0::new()
    }
}

impl<H: TypedInt> IntAnd<P1> for B0<H> {
    type Output = Z0;

    proof fn lemma_and() {
        lemma_and_split(value_of::<Self>(), value_of::<P1>());
    }

    fn int_and(self, rhs: P1) -> (r: Z0) {
        proof {
            <Self as IntAnd<P1>>::lemma_and();
        }
        Z0::new()
    }
}

impl<H: TypedInt> IntAnd<N1> for B0<H> {
    type Output = B0<H>;

    proof fn lemma_and() {
        lemma_and_split(value_of::<Self>(), value_of::<N1>());
    }

    fn int_and(self, rhs: N1) -> (r: B0<H>) {
        proof {
            <Self as IntAnd<N1>>::lemma_and();
        }
        self
    }
}

impl<H: TypedInt> IntAnd<Z0> for B1<H> {
    type Output = Z0;

    proof fn lemma_and() {
        lemma_and_split(value_of::<Self>(), value_of::<Z0>());
    }

    fn int_and(self, rhs: Z0) -> (r: Z0) {
        proof {
            <Self as IntAnd<Z0>>::lemma_and();
        }
        Z0::new()
    }
}

impl<H: TypedInt> IntAnd<P1> for B1<H> {
    type Output = P1;

    proof fn lemma_and() {
        lemma_and_split(value_of::<Self>(), value_of::<P1>());
    }

    fn int_and(self, rhs: P1) -> (r: P1) {
        proof {
            <Self as IntAnd<P1>>::lemma_and();
        }
        P1::new()
    }
}

impl<H: TypedInt> IntAnd<N1> for B1<H> {
    type Output = B1<H>;

    proof fn lemma_and() {
        lemma_and_split(value_of::<Self>(), value_of::<N1>());
    }

    fn int_and(self, rhs: N1) -> (r: B1<H>) {
        proof {
            <Self as IntAnd<N1>>::lemma_and();
        }
        self
    }
}

/// Two low bits: combine them, and combine the higher parts.
impl<H1: IntAnd<H2>, H2: TypedInt> IntAnd<B0<H2>> for B0<H1>
where
    <H1 as IntAnd<H2>>::Output: IfB0,
{
    type Output = <<H1 as IntAnd<H2>>::Output as IfB0>::Output;

    proof fn lemma_and() {
        lemma_and_split(value_of::<Self>(), value_of::<B0<H2>>());
        <H1 as IntAnd<H2>>::lemma_and();
        <<H1 as IntAnd<H2>>::Output as IfB0>::lemma_b0();
    }

    fn int_and(self, rhs: B0<H2>) -> (r: <<H1 as IntAnd<H2>>::Output as IfB0>::Output) {
        proof {
            <Self as IntAnd<B0<H2>>>::lemma_and();
        }
        <<H1 as IntAnd<H2>>::Output as IfB0>::b0()
    }
}

impl<H1: IntAnd<H2>, H2: TypedInt> IntAnd<B1<H2>> for B0<H1>
where
    <H1 as IntAnd<H2>>::Output: IfB0,
{
    type Output = <<H1 as IntAnd<H2>>::Output as IfB0>::Output;

    proof fn lemma_and() {
        lemma_and_split(value_of::<Self>(), value_of::<B1<H2>>());
        <H1 as IntAnd<H2>>::lemma_and();
        <<H1 as IntAnd<H2>>::Output as IfB0>::lemma_b0();
    }

    fn int_and(self, rhs: B1<H2>) -> (r: <<H1 as IntAnd<H2>>::Output as IfB0>::Output) {
        proof {
            <Self as IntAnd<B1<H2>>>::lemma_and();
        }
        <<H1 as IntAnd<H2>>::Output as IfB0>::b0()
    }
}

impl<H1: IntAnd<H2>, H2: TypedInt> IntAnd<B0<H2>> for B1<H1>
where
    <H1 as IntAnd<H2>>::Output: IfB0,
{
    type Output = <<H1 as IntAnd<H2>>::Output as IfB0>::Output;

    proof fn lemma_and() {
        lemma_and_split(value_of::<Self>(), value_of::<B0<H2>>());
        <H1 as IntAnd<H2>>::lemma_and();
        <<H1 as IntAnd<H2>>::Output as IfB0>::lemma_b0();
    }

    fn int_and(self, rhs: B0<H2>) -> (r: <<H1 as IntAnd<H2>>::Output as IfB0>::Output) {
        proof {
            <Self as IntAnd<B0<H2>>>::lemma_and();
        }
        <<H1 as IntAnd<H2>>::Output as IfB0>::b0()
    }
}

impl<H1: IntAnd<H2>, H2: TypedInt> IntAnd<B1<H2>> for B1<H1>
where
    <H1 as IntAnd<H2>>::Output: IfB1,
{
    type Output = <<H1 as IntAnd<H2>>::Output as IfB1>::Output;

    proof fn lemma_and() {
        lemma_and_split(value_of::<Self>(), value_of::<B1<H2>>());
        <H1 as IntAnd<H2>>::lemma_and();
        <<H1 as IntAnd<H2>>::Output as IfB1>::lemma_b1();
    }

    fn int_and(self, rhs: B1<H2>) -> (r: <<H1 as IntAnd<H2>>::Output as IfB1>::Output) {
        proof {
            <Self as IntAnd<B1<H2>>>::lemma_and();
        }
        <<H1 as IntAnd<H2>>::Output as IfB1>::b1()
    }
}

// The operator form: the same operation through the standard operator trait.

impl<R: TypedInt> core::ops::BitAnd<R> for Z0 where Z0: IntAnd<R> {
    type Output = <Z0 as IntAnd<R>>::Output;

    fn bitand(self, rhs: R) -> Self::Output {
        let r = self.int_and(rhs);
        proof {
            <<Z0 as IntAnd<R>>::Output as TypedInt>::lemma_unique(r);
        }
        r
    }
}

impl<R: TypedInt> vstd::std_specs::ops::BitAndSpecImpl<R> for Z0 where Z0: IntAnd<R> {
    open spec fn obeys_bitand_spec() -> bool {
        true
    }

    open spec fn bitand_req(self, rhs: R) -> bool {
        true
    }

    open spec fn bitand_spec(self, rhs: R) -> Self::Output {
        <Z0 as IntAnd<R>>::Output::unit()
    }
}

impl<R: TypedInt> core::ops::BitAnd<R> for P1 where P1: IntAnd<R> {
    type Output = <P1 as IntAnd<R>>::Output;

    fn bitand(self, rhs: R) -> Self::Output {
        let r = self.int_and(rhs);
        proof {
            <<P1 as IntAnd<R>>::Output as TypedInt>::lemma_unique(r);
        }
        r
    }
}

impl<R: TypedInt> vstd::std_specs::ops::BitAndSpecImpl<R> for P1 where P1: IntAnd<R> {
    open spec fn obeys_bitand_spec() -> bool {
        true
    }

    open spec fn bitand_req(self, rhs: R) -> bool {
        true
    }

    open spec fn bitand_spec(self, rhs: R) -> Self::Output {
        <P1 as IntAnd<R>>::Output::unit()
    }
}

impl<R: TypedInt> core::ops::BitAnd<R> for N1 where N1: IntAnd<R> {
    type Output = <N1 as IntAnd<R>>::Output;

    fn bitand(self, rhs: R) -> Self::Output {
        let r = self.int_and(rhs);
        proof {
            <<N1 as IntAnd<R>>::Output as TypedInt>::lemma_unique(r);
        }
        r
    }
}

impl<R: TypedInt> vstd::std_specs::ops::BitAndSpecImpl<R> for N1 where N1: IntAnd<R> {
    open spec fn obeys_bitand_spec() -> bool {
        true
    }

    open spec fn bitand_req(self, rhs: R) -> bool {
        true
    }

    open spec fn bitand_spec(self, rhs: R) -> Self::Output {
        <N1 as IntAnd<R>>::Output::unit()
    }
}

impl<H: TypedInt, R: TypedInt> core::ops::BitAnd<R> for B0<H> where B0<H>: IntAnd<R> {
    type Output = <B0<H> as IntAnd<R>>::Output;

    fn bitand(self, rhs: R) -> Self::Output {
        let r = self.int_and(rhs);
        proof {
            <<B0<H> as IntAnd<R>>::Output as TypedInt>::lemma_unique(r);
        }
        r
    }
}

impl<H: TypedInt, R: TypedInt> vstd::std_specs::ops::BitAndSpecImpl<R> for B0<H> where B0<H>: IntAnd<R> {
    open spec fn obeys_bitand_spec() -> bool {
        true
    }

    open spec fn bitand_req(self, rhs: R) -> bool {
        true
    }

    open spec fn bitand_spec(self, rhs: R) -> Self::Output {
        <B0<H> as IntAnd<R>>::Output::unit()
    }
}

impl<H: TypedInt, R: TypedInt> core::ops::BitAnd<R> for B1<H> where B1<H>: IntAnd<R> {
    type Output = <B1<H> as IntAnd<R>>::Output;

    fn bitand(self, rhs: R) -> Self::Output {
        let r = self.int_and(rhs);
        proof {
            <<B1<H> as IntAnd<R>>::Output as TypedInt>::lemma_unique(r);
        }
        r
    }
}

impl<H: TypedInt, R: TypedInt> vstd::std_specs::ops::BitAndSpecImpl<R> for B1<H> where B1<H>: IntAnd<R> {
    open spec fn obeys_bitand_spec() -> bool {
        true
    }

    open spec fn bitand_req(self, rhs: R) -> bool {
        true
    }

    open spec fn bitand_spec(self, rhs: R) -> Self::Output {
        <B1<H> as IntAnd<R>>::Output::unit()
    }
}

} // verus!
