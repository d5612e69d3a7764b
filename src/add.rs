//! Addition: a ripple-carry adder over the bits of the two operands.
use vstd::prelude::*;
use crate::add1::Add1;
use crate::standardization::{IfB0, IfB1};
use crate::sub1::Sub1;
use crate::types::{int_of, is_canonical, value_of, TypedInt, B0, B1, N1, P1, Z0};

verus! {

/// `Self + R`.
pub trait IntAdd<R: TypedInt>: TypedInt {
    type Output: TypedInt;

    /// The value and the canonical form of `Output`.
    proof fn lemma_add()
        ensures
            value_of::<Self::Output>() == value_of::<Self>() + value_of::<R>(),
            is_canonical::<Self>() && is_canonical::<R>() ==> is_canonical::<Self::Output>();

    fn int_add(self, rhs: R) -> (r: Self::Output)
        ensures
            int_of(r) == int_of(self) + int_of(rhs),
            is_canonical::<Self>() && is_canonical::<R>() ==> is_canonical::<Self::Output>();
}

/// `Self + R + 1`: the sum of two higher parts when the bit below carries.
pub trait AddWithCarry<R: TypedInt>: TypedInt {
    type Output: TypedInt;

    /// The value and the canonical form of `Output`.
    proof fn lemma_add_with_carry()
        ensures
            value_of::<Self::Output>() == value_of::<Self>() + value_of::<R>() + 1,
            is_canonical::<Self>() && is_canonical::<R>() ==> is_canonical::<Self::Output>();

    fn add_with_carry(self, rhs: R) -> (r: Self::Output)
        ensures
            int_of(r) == int_of(self) + int_of(rhs) + 1,
            is_canonical::<Self>() && is_canonical::<R>() ==> is_canonical::<Self::Output>();
}

/// 0 + x = x.
impl<R: TypedInt> IntAdd<R> for Z0 {
    type Output = R;

    proof fn lemma_add() {
    }

    fn int_add(self, rhs: R) -> (r: R) {
        proof {
            <Self as IntAdd<R>>::lemma_add();
        }
        rhs
    }
}

/// 1 + x is the increment of x.
impl<R: Add1> IntAdd<R> for P1 {
    type Output = <R as Add1>::Output;

    proof fn lemma_add() {
        R::lemma_add1();
    }

    fn int_add(self, rhs: R) -> (r: <R as Add1>::Output) {
        proof {
            <Self as IntAdd<R>>::lemma_add();
        }
        rhs.add1()
    }
}

/// -1 + x is the decrement of x.
impl<R: Sub1> IntAdd<R> for N1 {
    type Output = <R as Sub1>::Output;

    proof fn lemma_add() {
        R::lemma_sub1();
    }

    fn int_add(self, rhs: R) -> (r: <R as Sub1>::Output) {
        proof {
            <Self as IntAdd<R>>::lemma_add();
        }
        rhs.sub1()
    }
}

impl<H: TypedInt> IntAdd<Z0> for B0<H> {
    type Output = B0<H>;

    proof fn lemma_add() {
    }

    fn int_add(self, rhs: Z0) -> (r: B0<H>) {
        proof {
            <Self as IntAdd<Z0>>::lemma_add();
        }
        self
    }
}

impl<H: TypedInt> IntAdd<P1> for B0<H>
where
    B0<H>: Add1,
{
    type Output = <B0<H> as Add1>::Output;

    proof fn lemma_add() {
        <B0<H> as Add1>::lemma_add1();
    }

    fn int_add(self, rhs: P1) -> (r: <B0<H> as Add1>::Output) {
        proof {
            <Self as IntAdd<P1>>::lemma_add();
        }
        self.add1()
    }
}

impl<H: TypedInt> IntAdd<N1> for B0<H>
where
    B0<H>: Sub1,
{
    type Output = <B0<H> as Sub1>::Output;

    proof fn lemma_add() {
        <B0<H> as Sub1>::lemma_sub1();
    }

    fn int_add(self, rhs: N1) -> (r: <B0<H> as Sub1>::Output) {
        proof {
            <Self as IntAdd<N1>>::lemma_add();
        }
        self.sub1()
    }
}

impl<H: TypedInt> IntAdd<Z0> for B1<H> {
    type Output = B1<H>;

    proof fn lemma_add() {
    }

    fn int_add(self, rhs: Z0) -> (r: B1<H>) {
        proof {
            <Self as IntAdd<Z0>>::lemma_add();
        }
        self
    }
}

impl<H: TypedInt> IntAdd<P1> for B1<H>
where
    B1<H>: Add1,
{
    type Output = <B1<H> as Add1>::Output;

    proof fn lemma_add() {
        <B1<H> as Add1>::lemma_add1();
    }

    fn int_add(self, rhs: P1) -> (r: <B1<H> as Add1>::Output) {
        proof {
            <Self as IntAdd<P1>>::lemma_add();
        }
        self.add1()
    }
}

impl<H: TypedInt> IntAdd<N1> for B1<H>
where
    B1<H>: Sub1,
{
    type Output = <B1<H> as Sub1>::Output;

    proof fn lemma_add() {
        <B1<H> as Sub1>::lemma_sub1();
    }

    fn int_add(self, rhs: N1) -> (r: <B1<H> as Sub1>::Output) {
        proof {
            <Self as IntAdd<N1>>::lemma_add();
        }
        self.sub1()
    }
}

/// 0 + 0: bit 0, no carry.
impl<H1: IntAdd<H2>, H2: TypedInt> IntAdd<B0<H2>> for B0<H1>
where
    <H1 as IntAdd<H2>>::Output: IfB0,
{
    type Output = <<H1 as IntAdd<H2>>::Output as IfB0>::Output;

    proof fn lemma_add() {
        <H1 as IntAdd<H2>>::lemma_add();
        <<H1 as IntAdd<H2>>::Output as IfB0>::lemma_b0();
    }

    fn int_add(self, rhs: B0<H2>) -> (r: <<H1 as IntAdd<H2>>::Output as IfB0>::Output) {
        proof {
            <Self as IntAdd<B0<H2>>>::lemma_add();
        }
        <<H1 as IntAdd<H2>>::Output as IfB0>::b0()
    }
}

/// 0 + 1: bit 1, no carry.
impl<H1: IntAdd<H2>, H2: TypedInt> IntAdd<B1<H2>> for B0<H1>
where
    <H1 as IntAdd<H2>>::Output: IfB1,
{
    type Output = <<H1 as IntAdd<H2>>::Output as IfB1>::Output;

    proof fn lemma_add() {
        <H1 as IntAdd<H2>>::lemma_add();
        <<H1 as IntAdd<H2>>::Output as IfB1>::lemma_b1();
    }

    fn int_add(self, rhs: B1<H2>) -> (r: <<H1 as IntAdd<H2>>::Output as IfB1>::Output) {
        proof {
            <Self as IntAdd<B1<H2>>>::lemma_add();
        }
        <<H1 as IntAdd<H2>>::Output as IfB1>::b1()
    }
}

/// 1 + 0: bit 1, no carry.
impl<H1: IntAdd<H2>, H2: TypedInt> IntAdd<B0<H2>> for B1<H1>
where
    <H1 as IntAdd<H2>>::Output: IfB1,
{
    type Output = <<H1 as IntAdd<H2>>::Output as IfB1>::Output;

    proof fn lemma_add() {
        <H1 as IntAdd<H2>>::lemma_add();
        <<H1 as IntAdd<H2>>::Output as IfB1>::lemma_b1();
    }

    fn int_add(self, rhs: B0<H2>) -> (r: <<H1 as IntAdd<H2>>::Output as IfB1>::Output) {
        proof {
            <Self as IntAdd<B0<H2>>>::lemma_add();
        }
        <<H1 as IntAdd<H2>>::Output as IfB1>::b1()
    }
}

/// 1 + 1: bit 0, and a carry into the higher parts.
impl<H1: AddWithCarry<H2>, H2: TypedInt> IntAdd<B1<H2>> for B1<H1>
where
    <H1 as AddWithCarry<H2>>::Output: IfB0,
{
    type Output = <<H1 as AddWithCarry<H2>>::Output as IfB0>::Output;

    proof fn lemma_add() {
        <H1 as AddWithCarry<H2>>::lemma_add_with_carry();
        <<H1 as AddWithCarry<H2>>::Output as IfB0>::lemma_b0();
    }

    fn int_add(self, rhs: B1<H2>) -> (r: <<H1 as AddWithCarry<H2>>::Output as IfB0>::Output) {
        proof {
            <Self as IntAdd<B1<H2>>>::lemma_add();
        }
        <<H1 as AddWithCarry<H2>>::Output as IfB0>::b0()
    }
}

/// 0 + x + 1 is the increment of x.
impl<R: Add1> AddWithCarry<R> for Z0 {
    type Output = <R as Add1>::Output;

    proof fn lemma_add_with_carry() {
        R::lemma_add1();
    }

    fn add_with_carry(self, rhs: R) -> (r: <R as Add1>::Output) {
        proof {
            <Self as AddWithCarry<R>>::lemma_add_with_carry();
        }
        rhs.add1()
    }
}

/// 1 + x + 1 = x + 2.
impl<R: IntAdd<B0<P1>>> AddWithCarry<R> for P1 {
    type Output = <R as IntAdd<B0<P1>>>::Output;

    proof fn lemma_add_with_carry() {
        <R as IntAdd<B0<P1>>>::lemma_add();
    }

    fn add_with_carry(self, rhs: R) -> (r: <R as IntAdd<B0<P1>>>::Output) {
        proof {
            <Self as AddWithCarry<R>>::lemma_add_with_carry();
        }
        rhs.int_add(B0::<P1>::new())
    }
}

/// -1 + x + 1 = x.
impl<R: TypedInt> AddWithCarry<R> for N1 {
    type Output = R;

    proof fn lemma_add_with_carry() {
    }

    fn add_with_carry(self, rhs: R) -> (r: R) {
        proof {
            <Self as AddWithCarry<R>>::lemma_add_with_carry();
        }
        rhs
    }
}

impl<H: TypedInt> AddWithCarry<Z0> for B0<H>
where
    B0<H>: Add1,
{
    type Output = <B0<H> as Add1>::Output;

    proof fn lemma_add_with_carry() {
        <B0<H> as Add1>::lemma_add1();
    }

    fn add_with_carry(self, rhs: Z0) -> (r: <B0<H> as Add1>::Output) {
        proof {
            <Self as AddWithCarry<Z0>>::lemma_add_with_carry();
        }
        self.add1()
    }
}

impl<H: TypedInt> AddWithCarry<N1> for B0<H> {
    type Output = B0<H>;

    proof fn lemma_add_with_carry() {
    }

    fn add_with_carry(self, rhs: N1) -> (r: B0<H>) {
        proof {
            <Self as AddWithCarry<N1>>::lemma_add_with_carry();
        }
        self
    }
}

/// 2h + 1 + 1 = 2(h + 1).
impl<H: Add1> AddWithCarry<P1> for B0<H>
where
    <H as Add1>::Output: IfB0,
{
    type Output = <<H as Add1>::Output as IfB0>::Output;

    proof fn lemma_add_with_carry() {
        H::lemma_add1();
        <<H as Add1>::Output as IfB0>::lemma_b0();
    }

    fn add_with_carry(self, rhs: P1) -> (r: <<H as Add1>::Output as IfB0>::Output) {
        proof {
            <Self as AddWithCarry<P1>>::lemma_add_with_carry();
        }
        <<H as Add1>::Output as IfB0>::b0()
    }
}

impl<H: TypedInt> AddWithCarry<Z0> for B1<H>
where
    B1<H>: Add1,
{
    type Output = <B1<H> as Add1>::Output;

    proof fn lemma_add_with_carry() {
        <B1<H> as Add1>::lemma_add1();
    }

    fn add_with_carry(self, rhs: Z0) -> (r: <B1<H> as Add1>::Output) {
        proof {
            <Self as AddWithCarry<Z0>>::lemma_add_with_carry();
        }
        self.add1()
    }
}

impl<H: TypedInt> AddWithCarry<N1> for B1<H> {
    type Output = B1<H>;

    proof fn lemma_add_with_carry() {
    }

    fn add_with_carry(self, rhs: N1) -> (r: B1<H>) {
        proof {
            <Self as AddWithCarry<N1>>::lemma_add_with_carry();
        }
        self
    }
}

/// 2h + 1 + 1 + 1 = 2(h + 1) + 1.
impl<H: Add1> AddWithCarry<P1> for B1<H>
where
    <H as Add1>::Output: IfB1,
{
    type Output = <<H as Add1>::Output as IfB1>::Output;

    proof fn lemma_add_with_carry() {
        H::lemma_add1();
        <<H as Add1>::Output as IfB1>::lemma_b1();
    }

    fn add_with_carry(self, rhs: P1) -> (r: <<H as Add1>::Output as IfB1>::Output) {
        proof {
            <Self as AddWithCarry<P1>>::lemma_add_with_carry();
        }
        <<H as Add1>::Output as IfB1>::b1()
    }
}

/// 0 + 0 + carry: bit 1, no carry.
impl<H1: IntAdd<H2>, H2: TypedInt> AddWithCarry<B0<H2>> for B0<H1>
where
    <H1 as IntAdd<H2>>::Output: IfB1,
{
    type Output = <<H1 as IntAdd<H2>>::Output as IfB1>::Output;

    proof fn lemma_add_with_carry() {
        <H1 as IntAdd<H2>>::lemma_add();
        <<H1 as IntAdd<H2>>::Output as IfB1>::lemma_b1();
    }

    fn add_with_carry(self, rhs: B0<H2>) -> (r: <<H1 as IntAdd<H2>>::Output as IfB1>::Output) {
        proof {
            <Self as AddWithCarry<B0<H2>>>::lemma_add_with_carry();
        }
        <<H1 as IntAdd<H2>>::Output as IfB1>::b1()
    }
}

/// 0 + 1 + carry: bit 0, carry.
impl<H1: AddWithCarry<H2>, H2: TypedInt> AddWithCarry<B1<H2>> for B0<H1>
where
    <H1 as AddWithCarry<H2>>::Output: IfB0,
{
    type Output = <<H1 as AddWithCarry<H2>>::Output as IfB0>::Output;

    proof fn lemma_add_with_carry() {
        <H1 as AddWithCarry<H2>>::lemma_add_with_carry();
        <<H1 as AddWithCarry<H2>>::Output as IfB0>::lemma_b0();
    }

    fn add_with_carry(self, rhs: B1<H2>) -> (r: <<H1 as AddWithCarry<H2>>::Output as IfB0>::Output) {
        proof {
            <Self as AddWithCarry<B1<H2>>>::lemma_add_with_carry();
        }
        <<H1 as AddWithCarry<H2>>::Output as IfB0>::b0()
    }
}

/// 1 + 0 + carry: bit 0, carry.
impl<H1: AddWithCarry<H2>, H2: TypedInt> AddWithCarry<B0<H2>> for B1<H1>
where
    <H1 as AddWithCarry<H2>>::Output: IfB0,
{
    type Output = <<H1 as AddWithCarry<H2>>::Output as IfB0>::Output;

    proof fn lemma_add_with_carry() {
        <H1 as AddWithCarry<H2>>::lemma_add_with_carry();
        <<H1 as AddWithCarry<H2>>::Output as IfB0>::lemma_b0();
    }

    fn add_with_carry(self, rhs: B0<H2>) -> (r: <<H1 as AddWithCarry<H2>>::Output as IfB0>::Output) {
        proof {
            <Self as AddWithCarry<B0<H2>>>::lemma_add_with_carry();
        }
        <<H1 as AddWithCarry<H2>>::Output as IfB0>::b0()
    }
}

/// 1 + 1 + carry: bit 1, carry.
impl<H1: AddWithCarry<H2>, H2: TypedInt> AddWithCarry<B1<H2>> for B1<H1>
where
    <H1 as AddWithCarry<H2>>::Output: IfB1,
{
    type Output = <<H1 as AddWithCarry<H2>>::Output as IfB1>::Output;

    proof fn lemma_add_with_carry() {
        <H1 as AddWithCarry<H2>>::lemma_add_with_carry();
        <<H1 as AddWithCarry<H2>>::Output as IfB1>::lemma_b1();
    }

    fn add_with_carry(self, rhs: B1<H2>) -> (r: <<H1 as AddWithCarry<H2>>::Output as IfB1>::Output) {
        proof {
            <Self as AddWithCarry<B1<H2>>>::lemma_add_with_carry();
        }
        <<H1 as AddWithCarry<H2>>::Output as IfB1>::b1()
    }
}

// The operator form: the same operation through the standard operator trait.

impl<R: TypedInt> core::ops::Add<R> for Z0 where Z0: IntAdd<R> {
    type Output = <Z0 as IntAdd<R>>::Output;

    fn add(self, rhs: R) -> Self::Output {
        let r = self.int_add(rhs);
        proof {
            <<Z0 as IntAdd<R>>::Output as TypedInt>::lemma_unique(r);
        }
        r
    }
}

impl<R: TypedInt> vstd::std_specs::ops::AddSpecImpl<R> for Z0 where Z0: IntAdd<R> {
    open spec fn obeys_add_spec() -> bool {
        true
    }

    open spec fn add_req(self, rhs: R) -> bool {
        true
    }

    open spec fn add_spec(self, rhs: R) -> Self::Output {
        <Z0 as IntAdd<R>>::Output::unit()
    }
}

impl<R: TypedInt> core::ops::Add<R> for P1 where P1: IntAdd<R> {
    type Output = <P1 as IntAdd<R>>::Output;

    fn add(self, rhs: R) -> Self::Output {
        let r = self.int_add(rhs);
        proof {
            <<P1 as IntAdd<R>>::Output as TypedInt>::lemma_unique(r);
        }
        r
    }
}

impl<R: TypedInt> vstd::std_specs::ops::AddSpecImpl<R> for P1 where P1: IntAdd<R> {
    open spec fn obeys_add_spec() -> bool {
        true
    }

    open spec fn add_req(self, rhs: R) -> bool {
        true
    }

    open spec fn add_spec(self, rhs: R) -> Self::Output {
        <P1 as IntAdd<R>>::Output::unit()
    }
}

impl<R: TypedInt> core::ops::Add<R> for N1 where N1: IntAdd<R> {
    type Output = <N1 as IntAdd<R>>::Output;

    fn add(self, rhs: R) -> Self::Output {
        let r = self.int_add(rhs);
        proof {
            <<N1 as IntAdd<R>>::Output as TypedInt>::lemma_unique(r);
        }
        r
    }
}

impl<R: TypedInt> vstd::std_specs::ops::AddSpecImpl<R> for N1 where N1: IntAdd<R> {
    open spec fn obeys_add_spec() -> bool {
        true
    }

    open spec fn add_req(self, rhs: R) -> bool {
        true
    }

    open spec fn add_spec(self, rhs: R) -> Self::Output {
        <N1 as IntAdd<R>>::Output::unit()
    }
}

impl<H: TypedInt, R: TypedInt> core::ops::Add<R> for B0<H> where B0<H>: IntAdd<R> {
    type Output = <B0<H> as IntAdd<R>>::Output;

    fn add(self, rhs: R) -> Self::Output {
        let r = self.int_add(rhs);
        proof {
            <<B0<H> as IntAdd<R>>::Output as TypedInt>::lemma_unique(r);
        }
        r
    }
}

impl<H: TypedInt, R: TypedInt> vstd::std_specs::ops::AddSpecImpl<R> for B0<H> where B0<H>: IntAdd<R> {
    open spec fn obeys_add_spec() -> bool {
        true
    }

    open spec fn add_req(self, rhs: R) -> bool {
        true
    }

    open spec fn add_spec(self, rhs: R) -> Self::Output {
        <B0<H> as IntAdd<R>>::Output::unit()
    }
}

impl<H: TypedInt, R: TypedInt> core::ops::Add<R> for B1<H> where B1<H>: IntAdd<R> {
    type Output = <B1<H> as IntAdd<R>>::Output;

    fn add(self, rhs: R) -> Self::Output {
        let r = self.int_add(rhs);
        proof {
            <<B1<H> as IntAdd<R>>::Output as TypedInt>::lemma_unique(r);
        }
        r
    }
}

impl<H: TypedInt, R: TypedInt> vstd::std_specs::ops::AddSpecImpl<R> for B1<H> where B1<H>: IntAdd<R> {
    open spec fn obeys_add_spec() -> bool {
        true
    }

    open spec fn add_req(self, rhs: R) -> bool {
        true
    }

    open spec fn add_spec(self, rhs: R) -> Self::Output {
        <B1<H> as IntAdd<R>>::Output::unit()
    }
}

} // verus!
