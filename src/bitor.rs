//! Bitwise OR, bit by bit, with -1 as all ones.
use vstd::prelude::*;
use crate::bitwise::{lemma_or_split, or_int};
use crate::standardization::{IfB0, IfB1};
use crate::types::{int_of, is_canonical, value_of, TypedInt, B0, B1, N1, P1, Z0};

verus! {

/// `Self | R`.
pub trait IntOr<R: TypedInt>: TypedInt {
    type Output: TypedInt;

    /// The value and the canonical form of `Output`.
    proof fn lemma_or()
        ensures
            value_of::<Self::Output>() == or_int(value_of::<Self>(), value_of::<R>()),
            is_canonical::<Self>() && is_canonical::<R>() ==> is_canonical::<Self::Output>();

    fn int_or(self, rhs: R) -> (r: Self::Output)
        ensures
            int_of(r) == or_int(int_of(self), int_of(rhs)),
            is_canonical::<Self>() && is_canonical::<R>() ==> is_canonical::<Self::Output>();
}

/// 0 | x = x.
impl<R: TypedInt> IntOr<R> for Z0 {
    type Output = R;

    proof fn lemma_or() {
        lemma_or_split(value_of::<Self>(), value_of::<R>());
    }

    fn int_or(self, rhs: R) -> (r: R) {
        proof {
            <Self as IntOr<R>>::lemma_or();
        }
        rhs
    }
}

/// -1 | x = -1.
impl<R: TypedInt> IntOr<R> for N1 {
    type Output = N1;

    proof fn lemma_or() {
        lemma_or_split(value_of::<Self>(), value_of::<R>());
    }

    fn int_or(self, rhs: R) -> (r: N1) {
        proof {
            <Self as IntOr<R>>::lemma_or();
        }
        N1::new()
    }
}

impl IntOr<Z0> for P1 {
    type Output = P1;

    proof fn lemma_or() {
        lemma_or_split(value_of::<Self>(), value_of::<Z0>());
    }

    fn int_or(self, rhs: Z0) -> (r: P1) {
        proof {
            <Self as IntOr<Z0>>::lemma_or();
        }
        P1::new()
    }
}

impl IntOr<P1> for P1 {
    type Output = P1;

    proof fn lemma_or() {
        lemma_or_split(value_of::<Self>(), value_of::<P1>());
    }

    fn int_or(self, rhs: P1) -> (r: P1) {
        proof {
            <Self as IntOr<P1>>::lemma_or();
        }
        P1::new()
    }
}

impl IntOr<N1> for P1 {
    type Output = N1;

    proof fn lemma_or() {
        lemma_or_split(value_of::<Self>(), value_of::<N1>());
    }

    fn int_or(self, rhs: N1) -> (r: N1) {
        proof {
            <Self as IntOr<N1>>::lemma_or();
        }
        N1::new()
    }
}

impl<H: TypedInt> IntOr<B0<H>> for P1
where
    H: IfB1,
{
    type Output = <H as IfB1>::Output;

    proof fn lemma_or() {
        lemma_or_split(value_of::<Self>(), value_of::<B0<H>>());
        <H as IfB1>::lemma_b1();
    }

    fn int_or(self, rhs: B0<H>) -> (r: <H as IfB1>::Output) {
        proof {
            <Self as IntOr<B0<H>>>::lemma_or();
        }
        <H as IfB1>::b1()
    }
}

impl<H: TypedInt> IntOr<B1<H>> for P1 {
    type Output = B1<H>;

    proof fn lemma_or() {
        lemma_or_split(value_of::<Self>(), value_of::<B1<H>>());
    }

    fn int_or(self, rhs: B1<H>) -> (r: B1<H>) {
        proof {
            <Self as IntOr<B1<H>>>::lemma_or();
        }
        rhs
    }
}

impl<H: TypedInt> IntOr<Z0> for B0<H> {
    type Output = B0<H>;

    proof fn lemma_or() {
        lemma_or_split(value_of::<Self>(), value_of::<Z0>());
    }

    fn int_or(self, rhs: Z0) -> (r: B0<H>) {
        proof {
            <Self as IntOr<Z0>>::lemma_or();
        }
        self
    }
}

impl<H: TypedInt> IntOr<P1> for B0<H>
where
    H: IfB1,
{
    type Output = <H as IfB1>::Output;

    proof fn lemma_or() {
        lemma_or_split(value_of::<Self>(), value_of::<P1>());
        <H as IfB1>::lemma_b1();
    }

    fn int_or(self, rhs: P1) -> (r: <H as IfB1>::Output) {
        proof {
            <Self as IntOr<P1>>::lemma_or();
        }
        <H as IfB1>::b1()
    }
}

impl<H: TypedInt> IntOr<N1> for B0<H> {
    type Output = N1;

    proof fn lemma_or() {
        lemma_or_split(value_of::<Self>(), value_of::<N1>());
    }

    fn int_or(self, rhs: N1) -> (r: N1) {
        proof {
            <Self as IntOr<N1>>::lemma_or();
        }
        N1::new()
    }
}

impl<H: TypedInt> IntOr<Z0> for B1<H> {
    type Output = B1<H>;

    proof fn lemma_or() {
        lemma_or_split(value_of::<Self>(), value_of::<Z0>());
    }

    fn int_or(self, rhs: Z0) -> (r: B1<H>) {
        proof {
            <Self as IntOr<Z0>>::lemma_or();
        }
        self
    }
}

impl<H: TypedInt> IntOr<P1> for B1<H> {
    type Output = B1<H>;

    proof fn lemma_or() {
        lemma_or_split(value_of::<Self>(), value_of::<P1>());
    }

    fn int_or(self, rhs: P1) -> (r: B1<H>) {
        proof {
            <Self as IntOr<P1>>::lemma_or();
        }
        self
    }
}

impl<H: TypedInt> IntOr<N1> for B1<H> {
    type Output = N1;

    proof fn lemma_or() {
        lemma_or_split(value_of::<Self>(), value_of::<N1>());
    }

    fn int_or(self, rhs: N1) -> (r: N1) {
        proof {
            <Self as IntOr<N1>>::lemma_or();
        }
        N1::new()
    }
}

/// Two low bits: combine them, and combine the higher parts.
impl<H1: IntOr<H2>, H2: TypedInt> IntOr<B0<H2>> for B0<H1>
where
    <H1 as IntOr<H2>>::Output: IfB0,
{
    type Output = <<H1 as IntOr<H2>>::Output as IfB0>::Output;

    proof fn lemma_or() {
        lemma_or_split(value_of::<Self>(), value_of::<B0<H2>>());
        <H1 as IntOr<H2>>::lemma_or();
        <<H1 as IntOr<H2>>::Output as IfB0>::lemma_b0();
    }

    fn int_or(self, rhs: B0<H2>) -> (r: <<H1 as IntOr<H2>>::Output as IfB0>::Output) {
        proof {
            <Self as IntOr<B0<H2>>>::lemma_or();
        }
        <<H1 as IntOr<H2>>::Output as IfB0>::b0()
    }
}

impl<H1: IntOr<H2>, H2: TypedInt> IntOr<B1<H2>> for B0<H1>
where
    <H1 as IntOr<H2>>::Output: IfB1,
{
    type Output = <<H1 as IntOr<H2>>::Output as IfB1>::Output;

    proof fn lemma_or() {
        lemma_or_split(value_of::<Self>(), value_of::<B1<H2>>());
        <H1 as IntOr<H2>>::lemma_or();
        <<H1 as IntOr<H2>>::Output as IfB1>::lemma_b1();
    }

    fn int_or(self, rhs: B1<H2>) -> (r: <<H1 as IntOr<H2>>::Output as IfB1>::Output) {
        proof {
            <Self as IntOr<B1<H2>>>::lemma_or();
        }
        <<H1 as IntOr<H2>>::Output as IfB1>::b1()
    }
}

impl<H1: IntOr<H2>, H2: TypedInt> IntOr<B0<H2>> for B1<H1>
where
    <H1 as IntOr<H2>>::Output: IfB1,
{
    type Output = <<H1 as IntOr<H2>>::Output as IfB1>::Output;

    proof fn lemma_or() {
        lemma_or_split(value_of::<Self>(), value_of::<B0<H2>>());
        <H1 as IntOr<H2>>::lemma_or();
        <<H1 as IntOr<H2>>::Output as IfB1>::lemma_b1();
    }

    fn int_or(self, rhs: B0<H2>) -> (r: <<H1 as IntOr<H2>>::Output as IfB1>::Output) {
        proof {
            <Self as IntOr<B0<H2>>>::lemma_or();
        }
        <<H1 as IntOr<H2>>::Output as IfB1>::b1()
    }
}

impl<H1: IntOr<H2>, H2: TypedInt> IntOr<B1<H2>> for B1<H1>
where
    <H1 as IntOr<H2>>::Output: IfB1,
{
    type Output = <<H1 as IntOr<H2>>::Output as IfB1>::Output;

    proof fn lemma_or() {
        lemma_or_split(value_of::<Self>(), value_of::<B1<H2>>());
        <H1 as IntOr<H2>>::lemma_or();
        <<H1 as IntOr<H2>>::Output as IfB1>::lemma_b1();
    }

    fn int_or(self, rhs: B1<H2>) -> (r: <<H1 as IntOr<H2>>::Output as IfB1>::Output) {
        proof {
            <Self as IntOr<B1<H2>>>::lemma_or();
        }
        <<H1 as IntOr<H2>>::Output as IfB1>::b1()
    }
}

// The operator form: the same operation through the standard operator trait.

impl<R: TypedInt> core::ops::BitOr<R> for Z0 where Z0: IntOr<R> {
    type Output = <Z0 as IntOr<R>>::Output;

    fn bitor(self, rhs: R) -> Self::Output {
        let r = self.int_or(rhs);
        proof {
            <<Z0 as IntOr<R>>::Output as TypedInt>::lemma_unique(r);
        }
        r
    }
}

impl<R: TypedInt> vstd::std_specs::ops::BitOrSpecImpl<R> for Z0 where Z0: IntOr<R> {
    open spec fn obeys_bitor_spec() -> bool {
        true
    }

    open spec fn bitor_req(self, rhs: R) -> bool {
        true
    }

    open spec fn bitor_spec(self, rhs: R) -> Self::Output {
        <Z0 as IntOr<R>>::Output::unit()
    }
}

impl<R: TypedInt> core::ops::BitOr<R> for P1 where P1: IntOr<R> {
    type Output = <P1 as IntOr<R>>::Output;

    fn bitor(self, rhs: R) -> Self::Output {
        let r = self.int_or(rhs);
        proof {
            <<P1 as IntOr<R>>::Output as TypedInt>::lemma_unique(r);
        }
        r
    }
}

impl<R: TypedInt> vstd::std_specs::ops::BitOrSpecImpl<R> for P1 where P1: IntOr<R> {
    open spec fn obeys_bitor_spec() -> bool {
        true
    }

    open spec fn bitor_req(self, rhs: R) -> bool {
        true
    }

    open spec fn bitor_spec(self, rhs: R) -> Self::Output {
        <P1 as IntOr<R>>::Output::unit()
    }
}

impl<R: TypedInt> core::ops::BitOr<R> for N1 where N1: IntOr<R> {
    type Output = <N1 as IntOr<R>>::Output;

    fn bitor(self, rhs: R) -> Self::Output {
        let r = self.int_or(rhs);
        proof {
            <<N1 as IntOr<R>>::Output as TypedInt>::lemma_unique(r);
        }
        r
    }
}

impl<R: TypedInt> vstd::std_specs::ops::BitOrSpecImpl<R> for N1 where N1: IntOr<R> {
    open spec fn obeys_bitor_spec() -> bool {
        true
    }

    open spec fn bitor_req(self, rhs: R) -> bool {
        true
    }

    open spec fn bitor_spec(self, rhs: R) -> Self::Output {
        <N1 as IntOr<R>>::Output::unit()
    }
}

impl<H: TypedInt, R: TypedInt> core::ops::BitOr<R> for B0<H> where B0<H>: IntOr<R> {
    type Output = <B0<H> as IntOr<R>>::Output;

    fn bitor(self, rhs: R) -> Self::Output {
        let r = self.int_or(rhs);
        proof {
            <<B0<H> as IntOr<R>>::Output as TypedInt>::lemma_unique(r);
        }
        r
    }
}

impl<H: TypedInt, R: TypedInt> vstd::std_specs::ops::BitOrSpecImpl<R> for B0<H> where B0<H>: IntOr<R> {
    open spec fn obeys_bitor_spec() -> bool {
        true
    }

    open spec fn bitor_req(self, rhs: R) -> bool {
        true
    }

    open spec fn bitor_spec(self, rhs: R) -> Self::Output {
        <B0<H> as IntOr<R>>::Output::unit()
    }
}

impl<H: TypedInt, R: TypedInt> core::ops::BitOr<R> for B1<H> where B1<H>: IntOr<R> {
    type Output = <B1<H> as IntOr<R>>::Output;

    fn bitor(self, rhs: R) -> Self::Output {
        let r = self.int_or(rhs);
        proof {
            <<B1<H> as IntOr<R>>::Output as TypedInt>::lemma_unique(r);
        }
        r
    }
}

impl<H: TypedInt, R: TypedInt> vstd::std_specs::ops::BitOrSpecImpl<R> for B1<H> where B1<H>: IntOr<R> {
    open spec fn obeys_bitor_spec() -> bool {
        true
    }

    open spec fn bitor_req(self, rhs: R) -> bool {
        true
    }

    open spec fn bitor_spec(self, rhs: R) -> Self::Output {
        <B1<H> as IntOr<R>>::Output::unit()
    }
}

} // verus!
