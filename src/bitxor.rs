//! Bitwise exclusive OR, bit by bit, with -1 as all ones.
use vstd::prelude::*;
use crate::bitwise::{lemma_xor_split, xor_int};
use crate::not::IntNot;
use crate::repr::Repr;
use crate::standardization::{IfB0, IfB1};
use crate::types::{int_of, is_canonical, value_of, TypedInt, B0, B1, N1, P1, Z0};

verus! {

/// `Self ^ R`.
pub trait IntXor<R: TypedInt>: TypedInt {
    type Output: TypedInt;

    /// The value and the canonical form of `Output`.
    proof fn lemma_xor()
        ensures
            value_of::<Self::Output>() == xor_int(value_of::<Self>(), value_of::<R>()),
            is_canonical::<Self>() && is_canonical::<R>() ==> is_canonical::<Self::Output>();

    fn int_xor(self, rhs: R) -> (r: Self::Output)
        ensures
            int_of(r) == xor_int(int_of(self), int_of(rhs)),
            is_canonical::<Self>() && is_canonical::<R>() ==> is_canonical::<Self::Output>();
}

/// 0 ^ x = x.
impl<R: TypedInt> IntXor<R> for Z0 {
    type Output = R;

    proof fn lemma_xor() {
        lemma_xor_split(value_of::<Self>(), value_of::<R>());
    }

    fn int_xor(self, rhs: R) -> (r: R) {
        proof {
            <Self as IntXor<R>>::lemma_xor();
        }
        rhs
    }
}

/// -1 ^ x = !x.
impl<R: IntNot> IntXor<R> for N1 {
    type Output = <R as IntNot>::Output;

    proof fn lemma_xor() {
        lemma_xor_split(value_of::<Self>(), value_of::<R>());
        R::lemma_not();
    }

    fn int_xor(self, rhs: R) -> (r: <R as IntNot>::Output) {
        proof {
            <Self as IntXor<R>>::lemma_xor();
        }
        rhs.int_not()
    }
}

impl IntXor<Z0> for P1 {
    type Output = P1;

    proof fn lemma_xor() {
        lemma_xor_split(value_of::<Self>(), value_of::<Z0>());
    }

    fn int_xor(self, rhs: Z0) -> (r: P1) {
        proof {
            <Self as IntXor<Z0>>::lemma_xor();
        }
        P1::new()
    }
}

impl IntXor<P1> for P1 {
    type Output = Z0;

    proof fn lemma_xor() {
        lemma_xor_split(value_of::<Self>(), value_of::<P1>());
    }

    fn int_xor(self, rhs: P1) -> (r: Z0) {
        proof {
            <Self as IntXor<P1>>::lemma_xor();
        }
        Z0::new()
    }
}

impl IntXor<N1> for P1 {
    type Output = B0<N1>;

    proof fn lemma_xor() {
        reveal_with_fuel(Repr::val, 2);
        reveal_with_fuel(Repr::canonical, 2);
        lemma_xor_split(value_of::<Self>(), value_of::<N1>());
        reveal_with_fuel(Repr::val, 2);
        reveal_with_fuel(Repr::canonical, 2);
    }

    fn int_xor(self, rhs: N1) -> (r: B0<N1>) {
        proof {
            <Self as IntXor<N1>>::lemma_xor();
        }
        B0::new()
    }
}

impl<H: TypedInt> IntXor<B0<H>> for P1
where
    H: IfB1,
{
    type Output = <H as IfB1>::Output;

    proof fn lemma_xor() {
        lemma_xor_split(value_of::<Self>(), value_of::<B0<H>>());
        <H as IfB1>::lemma_b1();
    }

    fn int_xor(self, rhs: B0<H>) -> (r: <H as IfB1>::Output) {
        proof {
            <Self as IntXor<B0<H>>>::lemma_xor();
        }
        <H as IfB1>::b1()
    }
}

impl<H: TypedInt> IntXor<B1<H>> for P1
where
    H: IfB0,
{
    type Output = <H as IfB0>::Output;

    proof fn lemma_xor() {
        lemma_xor_split(value_of::<Self>(), value_of::<B1<H>>());
        <H as IfB0>::lemma_b0();
    }

    fn int_xor(self, rhs: B1<H>) -> (r: <H as IfB0>::Output) {
        proof {
            <Self as IntXor<B1<H>>>::lemma_xor();
        }
        <H as IfB0>::b0()
    }
}

impl<H: TypedInt> IntXor<Z0> for B0<H> {
    type Output = B0<H>;

    proof fn lemma_xor() {
        lemma_xor_split(value_of::<Self>(), value_of::<Z0>());
    }

    fn int_xor(self, rhs: Z0) -> (r: B0<H>) {
        proof {
            <Self as IntXor<Z0>>::lemma_xor();
        }
        self
    }
}

impl<H: TypedInt> IntXor<P1> for B0<H>
where
    H: IfB1,
{
    type Output = <H as IfB1>::Output;

    proof fn lemma_xor() {
        lemma_xor_split(value_of::<Self>(), value_of::<P1>());
        <H as IfB1>::lemma_b1();
    }

    fn int_xor(self, rhs: P1) -> (r: <H as IfB1>::Output) {
        proof {
            <Self as IntXor<P1>>::lemma_xor();
        }
        <H as IfB1>::b1()
    }
}

impl<H: TypedInt> IntXor<N1> for B0<H>
where
    B0<H>: IntNot,
{
    type Output = <B0<H> as IntNot>::Output;

    proof fn lemma_xor() {
        lemma_xor_split(value_of::<Self>(), value_of::<N1>());
        <B0<H> as IntNot>::lemma_not();
    }

    fn int_xor(self, rhs: N1) -> (r: <B0<H> as IntNot>::Output) {
        proof {
            <Self as IntXor<N1>>::lemma_xor();
        }
        self.int_not()
    }
}

impl<H: TypedInt> IntXor<Z0> for B1<H> {
    type Output = B1<H>;

    proof fn lemma_xor() {
        lemma_xor_split(value_of::<Self>(), value_of::<Z0>());
    }

    fn int_xor(self, rhs: Z0) -> (r: B1<H>) {
        proof {
            <Self as IntXor<Z0>>::lemma_xor();
        }
        self
    }
}

impl<H: TypedInt> IntXor<P1> for B1<H>
where
    H: IfB0,
{
    type Output = <H as IfB0>::Output;

    proof fn lemma_xor() {
        lemma_xor_split(value_of::<Self>(), value_of::<P1>());
        <H as IfB0>::lemma_b0();
    }

    fn int_xor(self, rhs: P1) -> (r: <H as IfB0>::Output) {
        proof {
            <Self as IntXor<P1>>::lemma_xor();
        }
        <H as IfB0>::b0()
    }
}

impl<H: TypedInt> IntXor<N1> for B1<H>
where
    B1<H>: IntNot,
{
    type Output = <B1<H> as IntNot>::Output;

    proof fn lemma_xor() {
        lemma_xor_split(value_of::<Self>(), value_of::<N1>());
        <B1<H> as IntNot>::lemma_not();
    }

    fn int_xor(self, rhs: N1) -> (r: <B1<H> as IntNot>::Output) {
        proof {
            <Self as IntXor<N1>>::lemma_xor();
        }
        self.int_not()
    }
}

/// Two low bits: combine them, and combine the higher parts.
impl<H1: IntXor<H2>, H2: TypedInt> IntXor<B0<H2>> for B0<H1>
where
    <H1 as IntXor<H2>>::Output: IfB0,
{
    type Output = <<H1 as IntXor<H2>>::Output as IfB0>::Output;

    proof fn lemma_xor() {
        lemma_xor_split(value_of::<Self>(), value_of::<B0<H2>>());
        <H1 as IntXor<H2>>::lemma_xor();
        <<H1 as IntXor<H2>>::Output as IfB0>::lemma_b0();
    }

    fn int_xor(self, rhs: B0<H2>) -> (r: <<H1 as IntXor<H2>>::Output as IfB0>::Output) {
        proof {
            <Self as IntXor<B0<H2>>>::lemma_xor();
        }
        <<H1 as IntXor<H2>>::Output as IfB0>::b0()
    }
}

impl<H1: IntXor<H2>, H2: TypedInt> IntXor<B1<H2>> for B0<H1>
where
    <H1 as IntXor<H2>>::Output: IfB1,
{
    type Output = <<H1 as IntXor<H2>>::Output as IfB1>::Output;

    proof fn lemma_xor() {
        lemma_xor_split(value_of::<Self>(), value_of::<B1<H2>>());
        <H1 as IntXor<H2>>::lemma_xor();
        <<H1 as IntXor<H2>>::Output as IfB1>::lemma_b1();
    }

    fn int_xor(self, rhs: B1<H2>) -> (r: <<H1 as IntXor<H2>>::Output as IfB1>::Output) {
        proof {
            <Self as IntXor<B1<H2>>>::lemma_xor();
        }
        <<H1 as IntXor<H2>>::Output as IfB1>::b1()
    }
}

impl<H1: IntXor<H2>, H2: TypedInt> IntXor<B0<H2>> for B1<H1>
where
    <H1 as IntXor<H2>>::Output: IfB1,
{
    type Output = <<H1 as IntXor<H2>>::Output as IfB1>::Output;

    proof fn lemma_xor() {
        lemma_xor_split(value_of::<Self>(), value_of::<B0<H2>>());
        <H1 as IntXor<H2>>::lemma_xor();
        <<H1 as IntXor<H2>>::Output as IfB1>::lemma_b1();
    }

    fn int_xor(self, rhs: B0<H2>) -> (r: <<H1 as IntXor<H2>>::Output as IfB1>::Output) {
        proof {
            <Self as IntXor<B0<H2>>>::lemma_xor();
        }
        <<H1 as IntXor<H2>>::Output as IfB1>::b1()
    }
}

impl<H1: IntXor<H2>, H2: TypedInt> IntXor<B1<H2>> for B1<H1>
where
    <H1 as IntXor<H2>>::Output: IfB0,
{
    type Output = <<H1 as IntXor<H2>>::Output as IfB0>::Output;

    proof fn lemma_xor() {
        lemma_xor_split(value_of::<Self>(), value_of::<B1<H2>>());
        <H1 as IntXor<H2>>::lemma_xor();
        <<H1 as IntXor<H2>>::Output as IfB0>::lemma_b0();
    }

    fn int_xor(self, rhs: B1<H2>) -> (r: <<H1 as IntXor<H2>>::Output as IfB0>::Output) {
        proof {
            <Self as IntXor<B1<H2>>>::lemma_xor();
        }
        <<H1 as IntXor<H2>>::Output as IfB0>::b0()
    }
}

// The operator form: the same operation through the standard operator trait.

impl<R: TypedInt> core::ops::BitXor<R> for Z0 where Z0: IntXor<R> {
    type Output = <Z0 as IntXor<R>>::Output;

    fn bitxor(self, rhs: R) -> Self::Output {
        let r = self.int_xor(rhs);
        proof {
            <<Z0 as IntXor<R>>::Output as TypedInt>::lemma_unique(r);
        }
        r
    }
}

impl<R: TypedInt> vstd::std_specs::ops::BitXorSpecImpl<R> for Z0 where Z0: IntXor<R> {
    open spec fn obeys_bitxor_spec() -> bool {
        true
    }

    open spec fn bitxor_req(self, rhs: R) -> bool {
        true
    }

    open spec fn bitxor_spec(self, rhs: R) -> Self::Output {
        <Z0 as IntXor<R>>::Output::unit()
    }
}

impl<R: TypedInt> core::ops::BitXor<R> for P1 where P1: IntXor<R> {
    type Output = <P1 as IntXor<R>>::Output;

    fn bitxor(self, rhs: R) -> Self::Output {
        let r = self.int_xor(rhs);
        proof {
            <<P1 as IntXor<R>>::Output as TypedInt>::lemma_unique(r);
        }
        r
    }
}

impl<R: TypedInt> vstd::std_specs::ops::BitXorSpecImpl<R> for P1 where P1: IntXor<R> {
    open spec fn obeys_bitxor_spec() -> bool {
        true
    }

    open spec fn bitxor_req(self, rhs: R) -> bool {
        true
    }

    open spec fn bitxor_spec(self, rhs: R) -> Self::Output {
        <P1 as IntXor<R>>::Output::unit()
    }
}

impl<R: TypedInt> core::ops::BitXor<R> for N1 where N1: IntXor<R> {
    type Output = <N1 as IntXor<R>>::Output;

    fn bitxor(self, rhs: R) -> Self::Output {
        let r = self.int_xor(rhs);
        proof {
            <<N1 as IntXor<R>>::Output as TypedInt>::lemma_unique(r);
        }
        r
    }
}

impl<R: TypedInt> vstd::std_specs::ops::BitXorSpecImpl<R> for N1 where N1: IntXor<R> {
    open spec fn obeys_bitxor_spec() -> bool {
        true
    }

    open spec fn bitxor_req(self, rhs: R) -> bool {
        true
    }

    open spec fn bitxor_spec(self, rhs: R) -> Self::Output {
        <N1 as IntXor<R>>::Output::unit()
    }
}

impl<H: TypedInt, R: TypedInt> core::ops::BitXor<R> for B0<H> where B0<H>: IntXor<R> {
    type Output = <B0<H> as IntXor<R>>::Output;

    fn bitxor(self, rhs: R) -> Self::Output {
        let r = self.int_xor(rhs);
        proof {
            <<B0<H> as IntXor<R>>::Output as TypedInt>::lemma_unique(r);
        }
        r
    }
}

impl<H: TypedInt, R: TypedInt> vstd::std_specs::ops::BitXorSpecImpl<R> for B0<H> where B0<H>: IntXor<R> {
    open spec fn obeys_bitxor_spec() -> bool {
        true
    }

    open spec fn bitxor_req(self, rhs: R) -> bool {
        true
    }

    open spec fn bitxor_spec(self, rhs: R) -> Self::Output {
        <B0<H> as IntXor<R>>::Output::unit()
    }
}

impl<H: TypedInt, R: TypedInt> core::ops::BitXor<R> for B1<H> where B1<H>: IntXor<R> {
    type Output = <B1<H> as IntXor<R>>::Output;

    fn bitxor(self, rhs: R) -> Self::Output {
        let r = self.int_xor(rhs);
        proof {
            <<B1<H> as IntXor<R>>::Output as TypedInt>::lemma_unique(r);
        }
        r
    }
}

impl<H: TypedInt, R: TypedInt> vstd::std_specs::ops::BitXorSpecImpl<R> for B1<H> where B1<H>: IntXor<R> {
    open spec fn obeys_bitxor_spec() -> bool {
        true
    }

    open spec fn bitxor_req(self, rhs: R) -> bool {
        true
    }

    open spec fn bitxor_spec(self, rhs: R) -> Self::Output {
        <B1<H> as IntXor<R>>::Output::unit()
    }
}

} // verus!
