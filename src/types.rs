//! The numeral types and the predicates that classify them.
use vstd::prelude::*;
use crate::repr::Repr;
use core::marker::PhantomData;

verus! {

/// The numeral 0.
#[derive(Clone, Copy, Debug, PartialEq, Eq)]
pub struct Z0;

/// The numeral +1; as a higher part, the current bit is 1 and all above are 0.
#[derive(Clone, Copy, Debug, PartialEq, Eq)]
pub struct P1;

/// The numeral -1; as a higher part, the current bit is 1 and all above are 1.
#[derive(Clone, Copy, Debug, PartialEq, Eq)]
pub struct N1;

/// A zero bit below the higher part `H`: the value `2 * H`.
#[derive(Debug, PartialEq, Eq)]
pub struct B0<H>(pub PhantomData<H>);

impl<H> Clone for B0<H> {
    fn clone(&self) -> (r: Self)
        ensures
            r == *self,
    {
        B0(PhantomData)
    }
}

impl<H> Copy for B0<H> {
}

/// A one bit below the higher part `H`: the value `2 * H + 1`.
#[derive(Debug, PartialEq, Eq)]
pub struct B1<H>(pub PhantomData<H>);

impl<H> Clone for B1<H> {
    fn clone(&self) -> (r: Self)
        ensures
            r == *self,
    {
        B1(PhantomData)
    }
}

impl<H> Copy for B1<H> {
}

/// A numeral type: its shape, and a way to make its (only) value.
pub trait TypedInt: Sized + Copy {
    /// The shape of this type.
    spec fn repr() -> Repr;

    /// The one value of this zero-sized type.
    spec fn unit() -> Self;

    /// A numeral type has exactly one value.
    proof fn lemma_unique(x: Self)
        ensures
            x == Self::unit();

    /// Makes the one value of this zero-sized type.
    fn instance() -> (r: Self)
        ensures
            r == Self::unit();

    /// The integer this type denotes, as an `i32`.
    fn to_i32() -> (r: i32)
        requires
            i32::MIN <= Self::repr().val() <= i32::MAX,
        ensures
            r as int == Self::repr().val();
}

/// The integer a numeral type denotes.
pub open spec fn value_of<T: TypedInt>() -> int {
    T::repr().val()
}

/// The integer a numeral value denotes: that of its type.
pub open spec fn int_of<T: TypedInt>(x: T) -> int {
    value_of::<T>()
}

/// Whether a numeral type is in canonical form.
pub open spec fn is_canonical<T: TypedInt>() -> bool {
    T::repr().canonical()
}

impl Z0 {
    pub fn new() -> Self {
        Z0
    }
}

impl P1 {
    pub fn new() -> Self {
        P1
    }
}

impl N1 {
    pub fn new() -> Self {
        N1
    }
}

impl<H> B0<H> {
    pub fn new() -> Self {
        B0(PhantomData)
    }
}

impl<H> B1<H> {
    pub fn new() -> Self {
        B1(PhantomData)
    }
}

impl TypedInt for Z0 {
    open spec fn unit() -> Self {
        Z0
    }

    open spec fn repr() -> Repr {
        Repr::Zero
    }

    proof fn lemma_unique(x: Self) {
    }

    fn instance() -> Self {
        Z0
    }

    fn to_i32() -> (r: i32) {
        0
    }
}

impl TypedInt for P1 {
    open spec fn unit() -> Self {
        P1
    }

    open spec fn repr() -> Repr {
        Repr::PosOne
    }

    proof fn lemma_unique(x: Self) {
    }

    fn instance() -> Self {
        P1
    }

    fn to_i32() -> (r: i32) {
        1
    }
}

impl TypedInt for N1 {
    open spec fn unit() -> Self {
        N1
    }

    open spec fn repr() -> Repr {
        Repr::NegOne
    }

    proof fn lemma_unique(x: Self) {
    }

    fn instance() -> Self {
        N1
    }

    fn to_i32() -> (r: i32) {
        -1
    }
}

impl<H: TypedInt> TypedInt for B0<H> {
    open spec fn unit() -> Self {
        B0(PhantomData)
    }

    open spec fn repr() -> Repr {
        Repr::Bit0(Box::new(H::repr()))
    }

    proof fn lemma_unique(x: Self) {
    }

    fn instance() -> Self {
        B0(PhantomData)
    }

    fn to_i32() -> (r: i32) {
        H::to_i32() * 2
    }
}

impl<H: TypedInt> TypedInt for B1<H> {
    open spec fn unit() -> Self {
        B1(PhantomData)
    }

    open spec fn repr() -> Repr {
        Repr::Bit1(Box::new(H::repr()))
    }

    proof fn lemma_unique(x: Self) {
    }

    fn instance() -> Self {
        B1(PhantomData)
    }

    fn to_i32() -> (r: i32) {
        H::to_i32() * 2 + 1
    }
}

/// Numerals other than 0.
pub trait NonZero: TypedInt {
    proof fn lemma_non_zero()
        ensures
            value_of::<Self>() != 0,
            Self::repr() != Repr::Zero;
}

/// Numerals other than +1.
pub trait NonOne: TypedInt {
    proof fn lemma_non_one()
        ensures
            value_of::<Self>() != 1,
            Self::repr() != Repr::PosOne;
}

/// Numerals other than -1.
pub trait NonNegOne: TypedInt {
    proof fn lemma_non_neg_one()
        ensures
            value_of::<Self>() != -1,
            Self::repr() != Repr::NegOne;
}

/// Numerals that are not negative.
pub trait Unsigned: TypedInt {
    proof fn lemma_unsigned()
        ensures
            value_of::<Self>() >= 0;
}

/// Numerals greater than 0.
pub trait Positive: TypedInt {
    proof fn lemma_positive()
        ensures
            value_of::<Self>() > 0;
}

/// Numerals less than 0.
pub trait Negative: TypedInt {
    proof fn lemma_negative()
        ensures
            value_of::<Self>() < 0;
}

impl NonZero for P1 {
    proof fn lemma_non_zero() {
    }
}

impl NonZero for N1 {
    proof fn lemma_non_zero() {
    }
}

impl<H: NonZero> NonZero for B0<H> {
    proof fn lemma_non_zero() {
        H::lemma_non_zero();
    }
}

impl<H: TypedInt> NonZero for B1<H> {
    proof fn lemma_non_zero() {
    }
}

impl NonOne for Z0 {
    proof fn lemma_non_one() {
    }
}

impl NonOne for N1 {
    proof fn lemma_non_one() {
    }
}

impl<H: TypedInt> NonOne for B0<H> {
    proof fn lemma_non_one() {
    }
}

impl<H: NonZero> NonOne for B1<H> {
    proof fn lemma_non_one() {
        H::lemma_non_zero();
    }
}

impl NonNegOne for Z0 {
    proof fn lemma_non_neg_one() {
    }
}

impl NonNegOne for P1 {
    proof fn lemma_non_neg_one() {
    }
}

impl<H: TypedInt> NonNegOne for B0<H> {
    proof fn lemma_non_neg_one() {
    }
}

impl<H: NonNegOne> NonNegOne for B1<H> {
    proof fn lemma_non_neg_one() {
        H::lemma_non_neg_one();
    }
}

impl Unsigned for Z0 {
    proof fn lemma_unsigned() {
    }
}

impl Unsigned for P1 {
    proof fn lemma_unsigned() {
    }
}

impl<H: Unsigned> Unsigned for B0<H> {
    proof fn lemma_unsigned() {
        H::lemma_unsigned();
    }
}

impl<H: Unsigned> Unsigned for B1<H> {
    proof fn lemma_unsigned() {
        H::lemma_unsigned();
    }
}

impl Positive for P1 {
    proof fn lemma_positive() {
    }
}

impl<H: Positive> Positive for B0<H> {
    proof fn lemma_positive() {
        H::lemma_positive();
    }
}

impl<H: Positive> Positive for B1<H> {
    proof fn lemma_positive() {
        H::lemma_positive();
    }
}

impl Negative for N1 {
    proof fn lemma_negative() {
    }
}

impl<H: Negative> Negative for B0<H> {
    proof fn lemma_negative() {
        H::lemma_negative();
    }
}

impl<H: Negative> Negative for B1<H> {
    proof fn lemma_negative() {
        H::lemma_negative();
    }
}

/// Every type-level number.
pub trait TypedNum {
}

/// Type-level numbers that are ordinary values (not a NaN or an infinity).
pub trait NonSpecial: TypedNum {
}

impl<T: TypedInt> TypedNum for T {
}

impl<T: TypedInt> NonSpecial for T {
}

/// A fixed-point number as a type: an integer part and a chain of fraction
/// bits, most significant first. It only carries its two parts.
#[derive(Debug, PartialEq, Eq)]
pub struct FixedPoint<IntPart, FracPart>(pub PhantomData<(IntPart, FracPart)>);

impl<IntPart, FracPart> Clone for FixedPoint<IntPart, FracPart> {
    fn clone(&self) -> (r: Self)
        ensures
            r == *self,
    {
        FixedPoint(PhantomData)
    }
}

impl<IntPart, FracPart> Copy for FixedPoint<IntPart, FracPart> {
}

impl<IntPart, FracPart> FixedPoint<IntPart, FracPart> {
    pub fn new() -> Self {
        FixedPoint(PhantomData)
    }
}

/// A floating-point number as a type, `Significand * 2^Exponent`. It only
/// carries its two parts.
#[derive(Debug, PartialEq)]
pub struct Float<Significand, Exponent>(pub PhantomData<(Significand, Exponent)>);

impl<Significand, Exponent> Clone for Float<Significand, Exponent> {
    fn clone(&self) -> (r: Self)
        ensures
            r == *self,
    {
        Float(PhantomData)
    }
}

impl<Significand, Exponent> Copy for Float<Significand, Exponent> {
}

impl<Significand, Exponent> Float<Significand, Exponent> {
    pub fn new() -> Self {
        Float(PhantomData)
    }
}

} // verus!
