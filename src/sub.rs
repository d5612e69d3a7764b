//! Subtraction: a ripple-borrow subtractor over the bits of the two operands.
use vstd::prelude::*;
use crate::add1::Add1;
use crate::neg::IntNeg;
use crate::not::IntNot;
use crate::standardization::{IfB0, IfB1};
use crate::sub1::Sub1;
use crate::types::{int_of, is_canonical, value_of, TypedInt, B0, B1, N1, P1, Z0};

verus! {

/// `Self - R`.
pub trait IntSub<R: TypedInt>: TypedInt {
    type Output: TypedInt;

    /// The value and the canonical form of `Output`.
    proof fn lemma_sub()
        ensures
            value_of::<Self::Output>() == value_of::<Self>() - value_of::<R>(),
            is_canonical::<Self>() && is_canonical::<R>() ==> is_canonical::<Self::Output>();

    fn int_sub(self, rhs: R) -> (r: Self::Output)
        ensures
            int_of(r) == int_of(self) - int_of(rhs),
            is_canonical::<Self>() && is_canonical::<R>() ==> is_canonical::<Self::Output>();
}

/// `Self - R - 1`: the difference of two higher parts when the bit below borrows.
pub trait SubWithBorrow<R: TypedInt>: TypedInt {
    type Output: TypedInt;

    /// The value and the canonical form of `Output`.
    proof fn lemma_sub_with_borrow()
        ensures
            value_of::<Self::Output>() == value_of::<Self>() - value_of::<R>() - 1,
            is_canonical::<Self>() && is_canonical::<R>() ==> is_canonical::<Self::Output>();

    fn sub_with_borrow(self, rhs: R) -> (r: Self::Output)
        ensures
            int_of(r) == int_of(self) - int_of(rhs) - 1,
            is_canonical::<Self>() && is_canonical::<R>() ==> is_canonical::<Self::Output>();
}

/// 0 - x = -x.
impl<R: IntNeg> IntSub<R> for Z0 {
    type Output = <R as IntNeg>::Output;

    proof fn lemma_sub() {
        R::lemma_neg();
    }

    fn int_sub(self, rhs: R) -> (r: <R as IntNeg>::Output) {
        proof {
            <Self as IntSub<R>>::lemma_sub();
        }
        rhs.int_neg()
    }
}

/// 1 - x = -(x - 1).
impl<R: Sub1> IntSub<R> for P1
where
    <R as Sub1>::Output: IntNeg,
{
    type Output = <<R as Sub1>::Output as IntNeg>::Output;

    proof fn lemma_sub() {
        R::lemma_sub1();
        <R as Sub1>::Output::lemma_neg();
    }

    fn int_sub(self, rhs: R) -> (r: <<R as Sub1>::Output as IntNeg>::Output) {
        proof {
            <Self as IntSub<R>>::lemma_sub();
        }
        rhs.sub1().int_neg()
    }
}

/// -1 - x = -(x + 1).
impl<R: Add1> IntSub<R> for N1
where
    <R as Add1>::Output: IntNeg,
{
    type Output = <<R as Add1>::Output as IntNeg>::Output;

    proof fn lemma_sub() {
        R::lemma_add1();
        <R as Add1>::Output::lemma_neg();
    }

    fn int_sub(self, rhs: R) -> (r: <<R as Add1>::Output as IntNeg>::Output) {
        proof {
            <Self as IntSub<R>>::lemma_sub();
        }
        rhs.add1().int_neg()
    }
}

impl<H: TypedInt> IntSub<Z0> for B0<H> {
    type Output = B0<H>;

    proof fn lemma_sub() {
    }

    fn int_sub(self, rhs: Z0) -> (r: B0<H>) {
        proof {
            <Self as IntSub<Z0>>::lemma_sub();
        }
        self
    }
}

impl<H: TypedInt> IntSub<P1> for B0<H>
where
    B0<H>: Sub1,
{
    type Output = <B0<H> as Sub1>::Output;

    proof fn lemma_sub() {
        <B0<H> as Sub1>::lemma_sub1();
    }

    fn int_sub(self, rhs: P1) -> (r: <B0<H> as Sub1>::Output) {
        proof {
            <Self as IntSub<P1>>::lemma_sub();
        }
        self.sub1()
    }
}

impl<H: TypedInt> IntSub<N1> for B0<H>
where
    B0<H>: Add1,
{
    type Output = <B0<H> as Add1>::Output;

    proof fn lemma_sub() {
        <B0<H> as Add1>::lemma_add1();
    }

    fn int_sub(self, rhs: N1) -> (r: <B0<H> as Add1>::Output) {
        proof {
            <Self as IntSub<N1>>::lemma_sub();
        }
        self.add1()
    }
}

impl<H: TypedInt> IntSub<Z0> for B1<H> {
    type Output = B1<H>;

    proof fn lemma_sub() {
    }

    fn int_sub(self, rhs: Z0) -> (r: B1<H>) {
        proof {
            <Self as IntSub<Z0>>::lemma_sub();
        }
        self
    }
}

impl<H: TypedInt> IntSub<P1> for B1<H>
where
    B1<H>: Sub1,
{
    type Output = <B1<H> as Sub1>::Output;

    proof fn lemma_sub() {
        <B1<H> as Sub1>::lemma_sub1();
    }

    fn int_sub(self, rhs: P1) -> (r: <B1<H> as Sub1>::Output) {
        proof {
            <Self as IntSub<P1>>::lemma_sub();
        }
        self.sub1()
    }
}

impl<H: TypedInt> IntSub<N1> for B1<H>
where
    B1<H>: Add1,
{
    type Output = <B1<H> as Add1>::Output;

    proof fn lemma_sub() {
        <B1<H> as Add1>::lemma_add1();
    }

    fn int_sub(self, rhs: N1) -> (r: <B1<H> as Add1>::Output) {
        proof {
            <Self as IntSub<N1>>::lemma_sub();
        }
        self.add1()
    }
}

/// 0 - 0: bit 0, no borrow.
impl<H1: IntSub<H2>, H2: TypedInt> IntSub<B0<H2>> for B0<H1>
where
    <H1 as IntSub<H2>>::Output: IfB0,
{
    type Output = <<H1 as IntSub<H2>>::Output as IfB0>::Output;

    proof fn lemma_sub() {
        <H1 as IntSub<H2>>::lemma_sub();
        <<H1 as IntSub<H2>>::Output as IfB0>::lemma_b0();
    }

    fn int_sub(self, rhs: B0<H2>) -> (r: <<H1 as IntSub<H2>>::Output as IfB0>::Output) {
        proof {
            <Self as IntSub<B0<H2>>>::lemma_sub();
        }
        <<H1 as IntSub<H2>>::Output as IfB0>::b0()
    }
}

/// 0 - 1: bit 1, and a borrow from the higher parts.
impl<H1: SubWithBorrow<H2>, H2: TypedInt> IntSub<B1<H2>> for B0<H1>
where
    <H1 as SubWithBorrow<H2>>::Output: IfB1,
{
    type Output = <<H1 as SubWithBorrow<H2>>::Output as IfB1>::Output;

    proof fn lemma_sub() {
        <H1 as SubWithBorrow<H2>>::lemma_sub_with_borrow();
        <<H1 as SubWithBorrow<H2>>::Output as IfB1>::lemma_b1();
    }

    fn int_sub(self, rhs: B1<H2>) -> (r: <<H1 as SubWithBorrow<H2>>::Output as IfB1>::Output) {
        proof {
            <Self as IntSub<B1<H2>>>::lemma_sub();
        }
        <<H1 as SubWithBorrow<H2>>::Output as IfB1>::b1()
    }
}

/// 1 - 0: bit 1, no borrow.
impl<H1: IntSub<H2>, H2: TypedInt> IntSub<B0<H2>> for B1<H1>
where
    <H1 as IntSub<H2>>::Output: IfB1,
{
    type Output = <<H1 as IntSub<H2>>::Output as IfB1>::Output;

    proof fn lemma_sub() {
        <H1 as IntSub<H2>>::lemma_sub();
        <<H1 as IntSub<H2>>::Output as IfB1>::lemma_b1();
    }

    fn int_sub(self, rhs: B0<H2>) -> (r: <<H1 as IntSub<H2>>::Output as IfB1>::Output) {
        proof {
            <Self as IntSub<B0<H2>>>::lemma_sub();
        }
        <<H1 as IntSub<H2>>::Output as IfB1>::b1()
    }
}

/// 1 - 1: bit 0, no borrow.
impl<H1: IntSub<H2>, H2: TypedInt> IntSub<B1<H2>> for B1<H1>
where
    <H1 as IntSub<H2>>::Output: IfB0,
{
    type Output = <<H1 as IntSub<H2>>::Output as IfB0>::Output;

    proof fn lemma_sub() {
        <H1 as IntSub<H2>>::lemma_sub();
        <<H1 as IntSub<H2>>::Output as IfB0>::lemma_b0();
    }

    fn int_sub(self, rhs: B1<H2>) -> (r: <<H1 as IntSub<H2>>::Output as IfB0>::Output) {
        proof {
            <Self as IntSub<B1<H2>>>::lemma_sub();
        }
        <<H1 as IntSub<H2>>::Output as IfB0>::b0()
    }
}

/// 0 - x - 1 = !x.
impl<R: IntNot> SubWithBorrow<R> for Z0 {
    type Output = <R as IntNot>::Output;

    proof fn lemma_sub_with_borrow() {
        R::lemma_not();
    }

    fn sub_with_borrow(self, rhs: R) -> (r: <R as IntNot>::Output) {
        proof {
            <Self as SubWithBorrow<R>>::lemma_sub_with_borrow();
        }
        rhs.int_not()
    }
}

/// 1 - x - 1 = -x.
impl<R: IntNeg> SubWithBorrow<R> for P1 {
    type Output = <R as IntNeg>::Output;

    proof fn lemma_sub_with_borrow() {
        R::lemma_neg();
    }

    fn sub_with_borrow(self, rhs: R) -> (r: <R as IntNeg>::Output) {
        proof {
            <Self as SubWithBorrow<R>>::lemma_sub_with_borrow();
        }
        rhs.int_neg()
    }
}

/// -1 - x - 1 = !x - 1.
impl<R: IntNot> SubWithBorrow<R> for N1
where
    <R as IntNot>::Output: Sub1,
{
    type Output = <<R as IntNot>::Output as Sub1>::Output;

    proof fn lemma_sub_with_borrow() {
        R::lemma_not();
        <R as IntNot>::Output::lemma_sub1();
    }

    fn sub_with_borrow(self, rhs: R) -> (r: <<R as IntNot>::Output as Sub1>::Output) {
        proof {
            <Self as SubWithBorrow<R>>::lemma_sub_with_borrow();
        }
        rhs.int_not().sub1()
    }
}

impl<H: TypedInt> SubWithBorrow<Z0> for B0<H>
where
    B0<H>: Sub1,
{
    type Output = <B0<H> as Sub1>::Output;

    proof fn lemma_sub_with_borrow() {
        <B0<H> as Sub1>::lemma_sub1();
    }

    fn sub_with_borrow(self, rhs: Z0) -> (r: <B0<H> as Sub1>::Output) {
        proof {
            <Self as SubWithBorrow<Z0>>::lemma_sub_with_borrow();
        }
        self.sub1()
    }
}

impl<H: TypedInt> SubWithBorrow<N1> for B0<H> {
    type Output = B0<H>;

    proof fn lemma_sub_with_borrow() {
    }

    fn sub_with_borrow(self, rhs: N1) -> (r: B0<H>) {
        proof {
            <Self as SubWithBorrow<N1>>::lemma_sub_with_borrow();
        }
        self
    }
}

/// 2h - 1 - 1 = 2(h - 1).
impl<H: Sub1> SubWithBorrow<P1> for B0<H>
where
    <H as Sub1>::Output: IfB0,
{
    type Output = <<H as Sub1>::Output as IfB0>::Output;

    proof fn lemma_sub_with_borrow() {
        H::lemma_sub1();
        <<H as Sub1>::Output as IfB0>::lemma_b0();
    }

    fn sub_with_borrow(self, rhs: P1) -> (r: <<H as Sub1>::Output as IfB0>::Output) {
        proof {
            <Self as SubWithBorrow<P1>>::lemma_sub_with_borrow();
        }
        <<H as Sub1>::Output as IfB0>::b0()
    }
}

impl<H: TypedInt> SubWithBorrow<Z0> for B1<H>
where
    B1<H>: Sub1,
{
    type Output = <B1<H> as Sub1>::Output;

    proof fn lemma_sub_with_borrow() {
        <B1<H> as Sub1>::lemma_sub1();
    }

    fn sub_with_borrow(self, rhs: Z0) -> (r: <B1<H> as Sub1>::Output) {
        proof {
            <Self as SubWithBorrow<Z0>>::lemma_sub_with_borrow();
        }
        self.sub1()
    }
}

impl<H: TypedInt> SubWithBorrow<N1> for B1<H> {
    type Output = B1<H>;

    proof fn lemma_sub_with_borrow() {
    }

    fn sub_with_borrow(self, rhs: N1) -> (r: B1<H>) {
        proof {
            <Self as SubWithBorrow<N1>>::lemma_sub_with_borrow();
        }
        self
    }
}

/// 2h + 1 - 1 - 1 = 2(h - 1) + 1.
impl<H: Sub1> SubWithBorrow<P1> for B1<H>
where
    <H as Sub1>::Output: IfB1,
{
    type Output = <<H as Sub1>::Output as IfB1>::Output;

    proof fn lemma_sub_with_borrow() {
        H::lemma_sub1();
        <<H as Sub1>::Output as IfB1>::lemma_b1();
    }

    fn sub_with_borrow(self, rhs: P1) -> (r: <<H as Sub1>::Output as IfB1>::Output) {
        proof {
            <Self as SubWithBorrow<P1>>::lemma_sub_with_borrow();
        }
        <<H as Sub1>::Output as IfB1>::b1()
    }
}

/// 0 - 0 - borrow: bit 1, borrow.
impl<H1: SubWithBorrow<H2>, H2: TypedInt> SubWithBorrow<B0<H2>> for B0<H1>
where
    <H1 as SubWithBorrow<H2>>::Output: IfB1,
{
    type Output = <<H1 as SubWithBorrow<H2>>::Output as IfB1>::Output;

    proof fn lemma_sub_with_borrow() {
        <H1 as SubWithBorrow<H2>>::lemma_sub_with_borrow();
        <<H1 as SubWithBorrow<H2>>::Output as IfB1>::lemma_b1();
    }

    fn sub_with_borrow(self, rhs: B0<H2>) -> (r: <<H1 as SubWithBorrow<H2>>::Output as IfB1>::Output) {
        proof {
            <Self as SubWithBorrow<B0<H2>>>::lemma_sub_with_borrow();
        }
        <<H1 as SubWithBorrow<H2>>::Output as IfB1>::b1()
    }
}

/// 0 - 1 - borrow: bit 0, borrow.
impl<H1: SubWithBorrow<H2>, H2: TypedInt> SubWithBorrow<B1<H2>> for B0<H1>
where
    <H1 as SubWithBorrow<H2>>::Output: IfB0,
{
    type Output = <<H1 as SubWithBorrow<H2>>::Output as IfB0>::Output;

    proof fn lemma_sub_with_borrow() {
        <H1 as SubWithBorrow<H2>>::lemma_sub_with_borrow();
        <<H1 as SubWithBorrow<H2>>::Output as IfB0>::lemma_b0();
    }

    fn sub_with_borrow(self, rhs: B1<H2>) -> (r: <<H1 as SubWithBorrow<H2>>::Output as IfB0>::Output) {
        proof {
            <Self as SubWithBorrow<B1<H2>>>::lemma_sub_with_borrow();
        }
        <<H1 as SubWithBorrow<H2>>::Output as IfB0>::b0()
    }
}

/// 1 - 0 - borrow: bit 0, no borrow.
impl<H1: IntSub<H2>, H2: TypedInt> SubWithBorrow<B0<H2>> for B1<H1>
where
    <H1 as IntSub<H2>>::Output: IfB0,
{
    type Output = <<H1 as IntSub<H2>>::Output as IfB0>::Output;

    proof fn lemma_sub_with_borrow() {
        <H1 as IntSub<H2>>::lemma_sub();
        <<H1 as IntSub<H2>>::Output as IfB0>::lemma_b0();
    }

    fn sub_with_borrow(self, rhs: B0<H2>) -> (r: <<H1 as IntSub<H2>>::Output as IfB0>::Output) {
        proof {
            <Self as SubWithBorrow<B0<H2>>>::lemma_sub_with_borrow();
        }
        <<H1 as IntSub<H2>>::Output as IfB0>::b0()
    }
}

/// 1 - 1 - borrow: bit 1, borrow.
impl<H1: SubWithBorrow<H2>, H2: TypedInt> SubWithBorrow<B1<H2>> for B1<H1>
where
    <H1 as SubWithBorrow<H2>>::Output: IfB1,
{
    type Output = <<H1 as SubWithBorrow<H2>>::Output as IfB1>::Output;

    proof fn lemma_sub_with_borrow() {
        <H1 as SubWithBorrow<H2>>::lemma_sub_with_borrow();
        <<H1 as SubWithBorrow<H2>>::Output as IfB1>::lemma_b1();
    }

    fn sub_with_borrow(self, rhs: B1<H2>) -> (r: <<H1 as SubWithBorrow<H2>>::Output as IfB1>::Output) {
        proof {
            <Self as SubWithBorrow<B1<H2>>>::lemma_sub_with_borrow();
        }
        <<H1 as SubWithBorrow<H2>>::Output as IfB1>::b1()
    }
}

// The operator form: the same operation through the standard operator trait.

impl<R: TypedInt> core::ops::Sub<R> for Z0 where Z0: IntSub<R> {
    type Output = <Z0 as IntSub<R>>::Output;

    fn sub(self, rhs: R) -> Self::Output {
        let r = self.int_sub(rhs);
        proof {
            <<Z0 as IntSub<R>>::Output as TypedInt>::lemma_unique(r);
        }
        r
    }
}

impl<R: TypedInt> vstd::std_specs::ops::SubSpecImpl<R> for Z0 where Z0: IntSub<R> {
    open spec fn obeys_sub_spec() -> bool {
        true
    }

    open spec fn sub_req(self, rhs: R) -> bool {
        true
    }

    open spec fn sub_spec(self, rhs: R) -> Self::Output {
        <Z0 as IntSub<R>>::Output::unit()
    }
}

impl<R: TypedInt> core::ops::Sub<R> for P1 where P1: IntSub<R> {
    type Output = <P1 as IntSub<R>>::Output;

    fn sub(self, rhs: R) -> Self::Output {
        let r = self.int_sub(rhs);
        proof {
            <<P1 as IntSub<R>>::Output as TypedInt>::lemma_unique(r);
        }
        r
    }
}

impl<R: TypedInt> vstd::std_specs::ops::SubSpecImpl<R> for P1 where P1: IntSub<R> {
    open spec fn obeys_sub_spec() -> bool {
        true
    }

    open spec fn sub_req(self, rhs: R) -> bool {
        true
    }

    open spec fn sub_spec(self, rhs: R) -> Self::Output {
        <P1 as IntSub<R>>::Output::unit()
    }
}

impl<R: TypedInt> core::ops::Sub<R> for N1 where N1: IntSub<R> {
    type Output = <N1 as IntSub<R>>::Output;

    fn sub(self, rhs: R) -> Self::Output {
        let r = self.int_sub(rhs);
        proof {
            <<N1 as IntSub<R>>::Output as TypedInt>::lemma_unique(r);
        }
        r
    }
}

impl<R: TypedInt> vstd::std_specs::ops::SubSpecImpl<R> for N1 where N1: IntSub<R> {
    open spec fn obeys_sub_spec() -> bool {
        true
    }

    open spec fn sub_req(self, rhs: R) -> bool {
        true
    }

    open spec fn sub_spec(self, rhs: R) -> Self::Output {
        <N1 as IntSub<R>>::Output::unit()
    }
}

impl<H: TypedInt, R: TypedInt> core::ops::Sub<R> for B0<H> where B0<H>: IntSub<R> {
    type Output = <B0<H> as IntSub<R>>::Output;

    fn sub(self, rhs: R) -> Self::Output {
        let r = self.int_sub(rhs);
        proof {
            <<B0<H> as IntSub<R>>::Output as TypedInt>::lemma_unique(r);
        }
        r
    }
}

impl<H: TypedInt, R: TypedInt> vstd::std_specs::ops::SubSpecImpl<R> for B0<H> where B0<H>: IntSub<R> {
    open spec fn obeys_sub_spec() -> bool {
        true
    }

    open spec fn sub_req(self, rhs: R) -> bool {
        true
    }

    open spec fn sub_spec(self, rhs: R) -> Self::Output {
        <B0<H> as IntSub<R>>::Output::unit()
    }
}

impl<H: TypedInt, R: TypedInt> core::ops::Sub<R> for B1<H> where B1<H>: IntSub<R> {
    type Output = <B1<H> as IntSub<R>>::Output;

    fn sub(self, rhs: R) -> Self::Output {
        let r = self.int_sub(rhs);
        proof {
            <<B1<H> as IntSub<R>>::Output as TypedInt>::lemma_unique(r);
        }
        r
    }
}

impl<H: TypedInt, R: TypedInt> vstd::std_specs::ops::SubSpecImpl<R> for B1<H> where B1<H>: IntSub<R> {
    open spec fn obeys_sub_spec() -> bool {
        true
    }

    open spec fn sub_req(self, rhs: R) -> bool {
        true
    }

    open spec fn sub_spec(self, rhs: R) -> Self::Output {
        <B1<H> as IntSub<R>>::Output::unit()
    }
}

} // verus!
