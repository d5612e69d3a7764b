//! The runtime bridge: `Var` holds an ordinary machine integer, so typed
//! constants and runtime values can meet in one expression.
use vstd::prelude::*;
use crate::types::{value_of, TypedInt, B0, B1, N1, P1, Z0};

verus! {

/// A machine integer type that a `Var` can hold.
pub trait PrimitiveInt: Copy + Sized {
    /// The integer this value denotes.
    spec fn as_int(self) -> int;

    /// Whether an integer is within this type's range.
    spec fn fits(v: int) -> bool;

    /// The value of this type that denotes `v`, for `v` in range.
    spec fn of_int(v: int) -> Self;

    spec fn spec_and(self, o: Self) -> Self;

    spec fn spec_or(self, o: Self) -> Self;

    spec fn spec_xor(self, o: Self) -> Self;

    spec fn spec_not(self) -> Self;

    /// -1, 0 and 1 are in every range.
    proof fn lemma_fits_small()
        ensures
            Self::fits(-1),
            Self::fits(0),
            Self::fits(1);

    fn from_i32(v: i32) -> (r: Self)
        requires
            Self::fits(v as int),
        ensures
            r == Self::of_int(v as int),
            r.as_int() == v as int;

    fn bit_and(self, o: Self) -> (r: Self)
        ensures
            r == self.spec_and(o);

    fn bit_or(self, o: Self) -> (r: Self)
        ensures
            r == self.spec_or(o);

    fn bit_xor(self, o: Self) -> (r: Self)
        ensures
            r == self.spec_xor(o);

    fn bit_not(self) -> (r: Self)
        ensures
            r == self.spec_not();

    fn negate(self) -> (r: Self)
        requires
            Self::fits(-self.as_int()),
        ensures
            r == Self::of_int(-self.as_int()),
            r.as_int() == -self.as_int();
}

impl PrimitiveInt for i8 {
    open spec fn as_int(self) -> int {
        self as int
    }

    open spec fn fits(v: int) -> bool {
        i8::MIN <= v <= i8::MAX
    }

    open spec fn of_int(v: int) -> Self {
        v as i8
    }

    open spec fn spec_and(self, o: Self) -> Self {
        self & o
    }

    open spec fn spec_or(self, o: Self) -> Self {
        self | o
    }

    open spec fn spec_xor(self, o: Self) -> Self {
        self ^ o
    }

    open spec fn spec_not(self) -> Self {
        !self
    }

    proof fn lemma_fits_small() {
    }

    fn from_i32(v: i32) -> (r: Self) {
        v as i8
    }

    fn bit_and(self, o: Self) -> (r: Self) {
        self & o
    }

    fn bit_or(self, o: Self) -> (r: Self) {
        self | o
    }

    fn bit_xor(self, o: Self) -> (r: Self) {
        self ^ o
    }

    fn bit_not(self) -> (r: Self) {
        !self
    }

    fn negate(self) -> (r: Self) {
        -self
    }
}

impl PrimitiveInt for i16 {
    open spec fn as_int(self) -> int {
        self as int
    }

    open spec fn fits(v: int) -> bool {
        i16::MIN <= v <= i16::MAX
    }

    open spec fn of_int(v: int) -> Self {
        v as i16
    }

    open spec fn spec_and(self, o: Self) -> Self {
        self & o
    }

    open spec fn spec_or(self, o: Self) -> Self {
        self | o
    }

    open spec fn spec_xor(self, o: Self) -> Self {
        self ^ o
    }

    open spec fn spec_not(self) -> Self {
        !self
    }

    proof fn lemma_fits_small() {
    }

    fn from_i32(v: i32) -> (r: Self) {
        v as i16
    }

    fn bit_and(self, o: Self) -> (r: Self) {
        self & o
    }

    fn bit_or(self, o: Self) -> (r: Self) {
        self | o
    }

    fn bit_xor(self, o: Self) -> (r: Self) {
        self ^ o
    }

    fn bit_not(self) -> (r: Self) {
        !self
    }

    fn negate(self) -> (r: Self) {
        -self
    }
}

impl PrimitiveInt for i32 {
    open spec fn as_int(self) -> int {
        self as int
    }

    open spec fn fits(v: int) -> bool {
        i32::MIN <= v <= i32::MAX
    }

    open spec fn of_int(v: int) -> Self {
        v as i32
    }

    open spec fn spec_and(self, o: Self) -> Self {
        self & o
    }

    open spec fn spec_or(self, o: Self) -> Self {
        self | o
    }

    open spec fn spec_xor(self, o: Self) -> Self {
        self ^ o
    }

    open spec fn spec_not(self) -> Self {
        !self
    }

    proof fn lemma_fits_small() {
    }

    fn from_i32(v: i32) -> (r: Self) {
        v as i32
    }

    fn bit_and(self, o: Self) -> (r: Self) {
        self & o
    }

    fn bit_or(self, o: Self) -> (r: Self) {
        self | o
    }

    fn bit_xor(self, o: Self) -> (r: Self) {
        self ^ o
    }

    fn bit_not(self) -> (r: Self) {
        !self
    }

    fn negate(self) -> (r: Self) {
        -self
    }
}

impl PrimitiveInt for i64 {
    open spec fn as_int(self) -> int {
        self as int
    }

    open spec fn fits(v: int) -> bool {
        i64::MIN <= v <= i64::MAX
    }

    open spec fn of_int(v: int) -> Self {
        v as i64
    }

    open spec fn spec_and(self, o: Self) -> Self {
        self & o
    }

    open spec fn spec_or(self, o: Self) -> Self {
        self | o
    }

    open spec fn spec_xor(self, o: Self) -> Self {
        self ^ o
    }

    open spec fn spec_not(self) -> Self {
        !self
    }

    proof fn lemma_fits_small() {
    }

    fn from_i32(v: i32) -> (r: Self) {
        v as i64
    }

    fn bit_and(self, o: Self) -> (r: Self) {
        self & o
    }

    fn bit_or(self, o: Self) -> (r: Self) {
        self | o
    }

    fn bit_xor(self, o: Self) -> (r: Self) {
        self ^ o
    }

    fn bit_not(self) -> (r: Self) {
        !self
    }

    fn negate(self) -> (r: Self) {
        -self
    }
}

/// A runtime value beside the typed numerals.
#[derive(Debug, PartialEq, Default)]
pub struct Var<T>(pub T);

impl<T: Copy> Clone for Var<T> {
    fn clone(&self) -> (r: Self)
        ensures
            r == *self,
    {
        Var(self.0)
    }
}

impl<T: Copy> Copy for Var<T> {
}

impl<T: PrimitiveInt> core::ops::Neg for Var<T> {
    type Output = Var<T>;

    fn neg(self) -> Var<T> {
        Var(self.0.negate())
    }
}

impl<T: PrimitiveInt> vstd::std_specs::ops::NegSpecImpl for Var<T> {
    open spec fn obeys_neg_spec() -> bool {
        true
    }

    open spec fn neg_req(self) -> bool {
        T::fits(-self.0.as_int())
    }

    open spec fn neg_spec(self) -> Var<T> {
        Var(T::of_int(-self.0.as_int()))
    }
}

impl<T: PrimitiveInt> core::ops::Not for Var<T> {
    type Output = Var<T>;

    fn not(self) -> Var<T> {
        Var(self.0.bit_not())
    }
}

impl<T: PrimitiveInt> vstd::std_specs::ops::NotSpecImpl for Var<T> {
    open spec fn obeys_not_spec() -> bool {
        true
    }

    open spec fn not_req(self) -> bool {
        true
    }

    open spec fn not_spec(self) -> Var<T> {
        Var(self.0.spec_not())
    }
}

// Conversions into the runtime bridge.

impl<T: PrimitiveInt> From<T> for Var<T> {
    fn from(v: T) -> Var<T> {
        Var(v)
    }
}

impl<T: PrimitiveInt> vstd::std_specs::convert::FromSpecImpl<T> for Var<T> {
    open spec fn obeys_from_spec() -> bool {
        true
    }

    open spec fn from_spec(v: T) -> Var<T> {
        Var(v)
    }
}

impl<T: PrimitiveInt> From<Z0> for Var<T> {
    fn from(v: Z0) -> Var<T> {
        proof {
            T::lemma_fits_small();
        }
        Var(T::from_i32(0))
    }
}

impl<T: PrimitiveInt> vstd::std_specs::convert::FromSpecImpl<Z0> for Var<T> {
    open spec fn obeys_from_spec() -> bool {
        true
    }

    open spec fn from_spec(v: Z0) -> Var<T> {
        Var(T::of_int(0))
    }
}

impl<T: PrimitiveInt> From<P1> for Var<T> {
    fn from(v: P1) -> Var<T> {
        proof {
            T::lemma_fits_small();
        }
        Var(T::from_i32(1))
    }
}

impl<T: PrimitiveInt> vstd::std_specs::convert::FromSpecImpl<P1> for Var<T> {
    open spec fn obeys_from_spec() -> bool {
        true
    }

    open spec fn from_spec(v: P1) -> Var<T> {
        Var(T::of_int(1))
    }
}

impl<T: PrimitiveInt> From<N1> for Var<T> {
    fn from(v: N1) -> Var<T> {
        proof {
            T::lemma_fits_small();
        }
        Var(T::from_i32(-1))
    }
}

impl<T: PrimitiveInt> vstd::std_specs::convert::FromSpecImpl<N1> for Var<T> {
    open spec fn obeys_from_spec() -> bool {
        true
    }

    open spec fn from_spec(v: N1) -> Var<T> {
        Var(T::of_int(-1))
    }
}

// `BitAnd` between runtime values, and between a numeral and a runtime value.

impl<T: PrimitiveInt> core::ops::BitAnd<Var<T>> for Var<T> {
    type Output = Var<T>;

    fn bitand(self, rhs: Var<T>) -> Var<T> {
        Var(self.0.bit_and(rhs.0))
    }
}

impl<T: PrimitiveInt> vstd::std_specs::ops::BitAndSpecImpl<Var<T>> for Var<T> {
    open spec fn obeys_bitand_spec() -> bool {
        true
    }

    open spec fn bitand_req(self, rhs: Var<T>) -> bool {
        true
    }

    open spec fn bitand_spec(self, rhs: Var<T>) -> Var<T> {
        Var(self.0.spec_and(rhs.0))
    }
}

impl<T: PrimitiveInt> core::ops::BitAnd<Var<T>> for Z0 {
    type Output = Z0;

    fn bitand(self, rhs: Var<T>) -> Z0 {
        Z0
    }
}

impl<T: PrimitiveInt> vstd::std_specs::ops::BitAndSpecImpl<Var<T>> for Z0 {
    open spec fn obeys_bitand_spec() -> bool {
        true
    }

    open spec fn bitand_req(self, rhs: Var<T>) -> bool {
        true
    }

    open spec fn bitand_spec(self, rhs: Var<T>) -> Z0 {
        Z0
    }
}

impl<T: PrimitiveInt> core::ops::BitAnd<Var<T>> for N1 {
    type Output = N1;

    fn bitand(self, rhs: Var<T>) -> N1 {
        N1
    }
}

impl<T: PrimitiveInt> vstd::std_specs::ops::BitAndSpecImpl<Var<T>> for N1 {
    open spec fn obeys_bitand_spec() -> bool {
        true
    }

    open spec fn bitand_req(self, rhs: Var<T>) -> bool {
        true
    }

    open spec fn bitand_spec(self, rhs: Var<T>) -> N1 {
        N1
    }
}

impl<T: PrimitiveInt> core::ops::BitAnd<Var<T>> for P1 {
    type Output = Var<T>;

    fn bitand(self, rhs: Var<T>) -> Var<T> {
        proof {
            T::lemma_fits_small();
        }
        Var(T::from_i32(1).bit_and(rhs.0))
    }
}

impl<T: PrimitiveInt> vstd::std_specs::ops::BitAndSpecImpl<Var<T>> for P1 {
    open spec fn obeys_bitand_spec() -> bool {
        true
    }

    open spec fn bitand_req(self, rhs: Var<T>) -> bool {
        true
    }

    open spec fn bitand_spec(self, rhs: Var<T>) -> Var<T> {
        Var(T::of_int(1).spec_and(rhs.0))
    }
}

impl<H: TypedInt, T: PrimitiveInt> core::ops::BitAnd<Var<T>> for B0<H> {
    type Output = Var<T>;

    fn bitand(self, rhs: Var<T>) -> Var<T> {
        let n = <B0<H> as TypedInt>::to_i32();
        Var(T::from_i32(n).bit_and(rhs.0))
    }
}

impl<H: TypedInt, T: PrimitiveInt> vstd::std_specs::ops::BitAndSpecImpl<Var<T>> for B0<H> {
    open spec fn obeys_bitand_spec() -> bool {
        true
    }

    open spec fn bitand_req(self, rhs: Var<T>) -> bool {
        i32::MIN <= value_of::<B0<H>>() <= i32::MAX && T::fits(value_of::<B0<H>>())
    }

    open spec fn bitand_spec(self, rhs: Var<T>) -> Var<T> {
        Var(T::of_int(value_of::<B0<H>>()).spec_and(rhs.0))
    }
}

impl<H: TypedInt, T: PrimitiveInt> core::ops::BitAnd<Var<T>> for B1<H> {
    type Output = Var<T>;

    fn bitand(self, rhs: Var<T>) -> Var<T> {
        let n = <B1<H> as TypedInt>::to_i32();
        Var(T::from_i32(n).bit_and(rhs.0))
    }
}

impl<H: TypedInt, T: PrimitiveInt> vstd::std_specs::ops::BitAndSpecImpl<Var<T>> for B1<H> {
    open spec fn obeys_bitand_spec() -> bool {
        true
    }

    open spec fn bitand_req(self, rhs: Var<T>) -> bool {
        i32::MIN <= value_of::<B1<H>>() <= i32::MAX && T::fits(value_of::<B1<H>>())
    }

    open spec fn bitand_spec(self, rhs: Var<T>) -> Var<T> {
        Var(T::of_int(value_of::<B1<H>>()).spec_and(rhs.0))
    }
}

impl<T: PrimitiveInt> core::ops::BitAnd<Z0> for Var<T> {
    type Output = Z0;

    fn bitand(self, rhs: Z0) -> Z0 {
        Z0
    }
}

impl<T: PrimitiveInt> vstd::std_specs::ops::BitAndSpecImpl<Z0> for Var<T> {
    open spec fn obeys_bitand_spec() -> bool {
        true
    }

    open spec fn bitand_req(self, rhs: Z0) -> bool {
        true
    }

    open spec fn bitand_spec(self, rhs: Z0) -> Z0 {
        Z0
    }
}

impl<T: PrimitiveInt> core::ops::BitAnd<N1> for Var<T> {
    type Output = N1;

    fn bitand(self, rhs: N1) -> N1 {
        N1
    }
}

impl<T: PrimitiveInt> vstd::std_specs::ops::BitAndSpecImpl<N1> for Var<T> {
    open spec fn obeys_bitand_spec() -> bool {
        true
    }

    open spec fn bitand_req(self, rhs: N1) -> bool {
        true
    }

    open spec fn bitand_spec(self, rhs: N1) -> N1 {
        N1
    }
}

impl<T: PrimitiveInt> core::ops::BitAnd<P1> for Var<T> {
    type Output = Var<T>;

    fn bitand(self, rhs: P1) -> Var<T> {
        proof {
            T::lemma_fits_small();
        }
        Var(T::from_i32(1).bit_and(self.0))
    }
}

impl<T: PrimitiveInt> vstd::std_specs::ops::BitAndSpecImpl<P1> for Var<T> {
    open spec fn obeys_bitand_spec() -> bool {
        true
    }

    open spec fn bitand_req(self, rhs: P1) -> bool {
        true
    }

    open spec fn bitand_spec(self, rhs: P1) -> Var<T> {
        Var(T::of_int(1).spec_and(self.0))
    }
}

impl<H: TypedInt, T: PrimitiveInt> core::ops::BitAnd<B0<H>> for Var<T> {
    type Output = Var<T>;

    fn bitand(self, rhs: B0<H>) -> Var<T> {
        let n = <B0<H> as TypedInt>::to_i32();
        Var(T::from_i32(n).bit_and(self.0))
    }
}

impl<H: TypedInt, T: PrimitiveInt> vstd::std_specs::ops::BitAndSpecImpl<B0<H>> for Var<T> {
    open spec fn obeys_bitand_spec() -> bool {
        true
    }

    open spec fn bitand_req(self, rhs: B0<H>) -> bool {
        i32::MIN <= value_of::<B0<H>>() <= i32::MAX && T::fits(value_of::<B0<H>>())
    }

    open spec fn bitand_spec(self, rhs: B0<H>) -> Var<T> {
        Var(T::of_int(value_of::<B0<H>>()).spec_and(self.0))
    }
}

impl<H: TypedInt, T: PrimitiveInt> core::ops::BitAnd<B1<H>> for Var<T> {
    type Output = Var<T>;

    fn bitand(self, rhs: B1<H>) -> Var<T> {
        let n = <B1<H> as TypedInt>::to_i32();
        Var(T::from_i32(n).bit_and(self.0))
    }
}

impl<H: TypedInt, T: PrimitiveInt> vstd::std_specs::ops::BitAndSpecImpl<B1<H>> for Var<T> {
    open spec fn obeys_bitand_spec() -> bool {
        true
    }

    open spec fn bitand_req(self, rhs: B1<H>) -> bool {
        i32::MIN <= value_of::<B1<H>>() <= i32::MAX && T::fits(value_of::<B1<H>>())
    }

    open spec fn bitand_spec(self, rhs: B1<H>) -> Var<T> {
        Var(T::of_int(value_of::<B1<H>>()).spec_and(self.0))
    }
}

// `BitOr` between runtime values, and between a numeral and a runtime value.

impl<T: PrimitiveInt> core::ops::BitOr<Var<T>> for Var<T> {
    type Output = Var<T>;

    fn bitor(self, rhs: Var<T>) -> Var<T> {
        Var(self.0.bit_or(rhs.0))
    }
}

impl<T: PrimitiveInt> vstd::std_specs::ops::BitOrSpecImpl<Var<T>> for Var<T> {
    open spec fn obeys_bitor_spec() -> bool {
        true
    }

    open spec fn bitor_req(self, rhs: Var<T>) -> bool {
        true
    }

    open spec fn bitor_spec(self, rhs: Var<T>) -> Var<T> {
        Var(self.0.spec_or(rhs.0))
    }
}

impl<T: PrimitiveInt> core::ops::BitOr<Var<T>> for Z0 {
    type Output = Var<T>;

    fn bitor(self, rhs: Var<T>) -> Var<T> {
        Var(rhs.0)
    }
}

impl<T: PrimitiveInt> vstd::std_specs::ops::BitOrSpecImpl<Var<T>> for Z0 {
    open spec fn obeys_bitor_spec() -> bool {
        true
    }

    open spec fn bitor_req(self, rhs: Var<T>) -> bool {
        true
    }

    open spec fn bitor_spec(self, rhs: Var<T>) -> Var<T> {
        Var(rhs.0)
    }
}

impl<T: PrimitiveInt> core::ops::BitOr<Var<T>> for N1 {
    type Output = N1;

    fn bitor(self, rhs: Var<T>) -> N1 {
        N1
    }
}

impl<T: PrimitiveInt> vstd::std_specs::ops::BitOrSpecImpl<Var<T>> for N1 {
    open spec fn obeys_bitor_spec() -> bool {
        true
    }

    open spec fn bitor_req(self, rhs: Var<T>) -> bool {
        true
    }

    open spec fn bitor_spec(self, rhs: Var<T>) -> N1 {
        N1
    }
}

impl<T: PrimitiveInt> core::ops::BitOr<Var<T>> for P1 {
    type Output = Var<T>;

    fn bitor(self, rhs: Var<T>) -> Var<T> {
        proof {
            T::lemma_fits_small();
        }
        Var(T::from_i32(1).bit_or(rhs.0))
    }
}

impl<T: PrimitiveInt> vstd::std_specs::ops::BitOrSpecImpl<Var<T>> for P1 {
    open spec fn obeys_bitor_spec() -> bool {
        true
    }

    open spec fn bitor_req(self, rhs: Var<T>) -> bool {
        true
    }

    open spec fn bitor_spec(self, rhs: Var<T>) -> Var<T> {
        Var(T::of_int(1).spec_or(rhs.0))
    }
}

impl<H: TypedInt, T: PrimitiveInt> core::ops::BitOr<Var<T>> for B0<H> {
    type Output = Var<T>;

    fn bitor(self, rhs: Var<T>) -> Var<T> {
        let n = <B0<H> as TypedInt>::to_i32();
        Var(T::from_i32(n).bit_or(rhs.0))
    }
}

impl<H: TypedInt, T: PrimitiveInt> vstd::std_specs::ops::BitOrSpecImpl<Var<T>> for B0<H> {
    open spec fn obeys_bitor_spec() -> bool {
        true
    }

    open spec fn bitor_req(self, rhs: Var<T>) -> bool {
        i32::MIN <= value_of::<B0<H>>() <= i32::MAX && T::fits(value_of::<B0<H>>())
    }

    open spec fn bitor_spec(self, rhs: Var<T>) -> Var<T> {
        Var(T::of_int(value_of::<B0<H>>()).spec_or(rhs.0))
    }
}

impl<H: TypedInt, T: PrimitiveInt> core::ops::BitOr<Var<T>> for B1<H> {
    type Output = Var<T>;

    fn bitor(self, rhs: Var<T>) -> Var<T> {
        let n = <B1<H> as TypedInt>::to_i32();
        Var(T::from_i32(n).bit_or(rhs.0))
    }
}

impl<H: TypedInt, T: PrimitiveInt> vstd::std_specs::ops::BitOrSpecImpl<Var<T>> for B1<H> {
    open spec fn obeys_bitor_spec() -> bool {
        true
    }

    open spec fn bitor_req(self, rhs: Var<T>) -> bool {
        i32::MIN <= value_of::<B1<H>>() <= i32::MAX && T::fits(value_of::<B1<H>>())
    }

    open spec fn bitor_spec(self, rhs: Var<T>) -> Var<T> {
        Var(T::of_int(value_of::<B1<H>>()).spec_or(rhs.0))
    }
}

impl<T: PrimitiveInt> core::ops::BitOr<Z0> for Var<T> {
    type Output = Var<T>;

    fn bitor(self, rhs: Z0) -> Var<T> {
        Var(self.0)
    }
}

impl<T: PrimitiveInt> vstd::std_specs::ops::BitOrSpecImpl<Z0> for Var<T> {
    open spec fn obeys_bitor_spec() -> bool {
        true
    }

    open spec fn bitor_req(self, rhs: Z0) -> bool {
        true
    }

    open spec fn bitor_spec(self, rhs: Z0) -> Var<T> {
        Var(self.0)
    }
}

impl<T: PrimitiveInt> core::ops::BitOr<N1> for Var<T> {
    type Output = N1;

    fn bitor(self, rhs: N1) -> N1 {
        N1
    }
}

impl<T: PrimitiveInt> vstd::std_specs::ops::BitOrSpecImpl<N1> for Var<T> {
    open spec fn obeys_bitor_spec() -> bool {
        true
    }

    open spec fn bitor_req(self, rhs: N1) -> bool {
        true
    }

    open spec fn bitor_spec(self, rhs: N1) -> N1 {
        N1
    }
}

impl<T: PrimitiveInt> core::ops::BitOr<P1> for Var<T> {
    type Output = Var<T>;

    fn bitor(self, rhs: P1) -> Var<T> {
        proof {
            T::lemma_fits_small();
        }
        Var(T::from_i32(1).bit_or(self.0))
    }
}

impl<T: PrimitiveInt> vstd::std_specs::ops::BitOrSpecImpl<P1> for Var<T> {
    open spec fn obeys_bitor_spec() -> bool {
        true
    }

    open spec fn bitor_req(self, rhs: P1) -> bool {
        true
    }

    open spec fn bitor_spec(self, rhs: P1) -> Var<T> {
        Var(T::of_int(1).spec_or(self.0))
    }
}

impl<H: TypedInt, T: PrimitiveInt> core::ops::BitOr<B0<H>> for Var<T> {
    type Output = Var<T>;

    fn bitor(self, rhs: B0<H>) -> Var<T> {
        let n = <B0<H> as TypedInt>::to_i32();
        Var(T::from_i32(n).bit_or(self.0))
    }
}

impl<H: TypedInt, T: PrimitiveInt> vstd::std_specs::ops::BitOrSpecImpl<B0<H>> for Var<T> {
    open spec fn obeys_bitor_spec() -> bool {
        true
    }

    open spec fn bitor_req(self, rhs: B0<H>) -> bool {
        i32::MIN <= value_of::<B0<H>>() <= i32::MAX && T::fits(value_of::<B0<H>>())
    }

    open spec fn bitor_spec(self, rhs: B0<H>) -> Var<T> {
        Var(T::of_int(value_of::<B0<H>>()).spec_or(self.0))
    }
}

impl<H: TypedInt, T: PrimitiveInt> core::ops::BitOr<B1<H>> for Var<T> {
    type Output = Var<T>;

    fn bitor(self, rhs: B1<H>) -> Var<T> {
        let n = <B1<H> as TypedInt>::to_i32();
        Var(T::from_i32(n).bit_or(self.0))
    }
}

impl<H: TypedInt, T: PrimitiveInt> vstd::std_specs::ops::BitOrSpecImpl<B1<H>> for Var<T> {
    open spec fn obeys_bitor_spec() -> bool {
        true
    }

    open spec fn bitor_req(self, rhs: B1<H>) -> bool {
        i32::MIN <= value_of::<B1<H>>() <= i32::MAX && T::fits(value_of::<B1<H>>())
    }

    open spec fn bitor_spec(self, rhs: B1<H>) -> Var<T> {
        Var(T::of_int(value_of::<B1<H>>()).spec_or(self.0))
    }
}

// `BitXor` between runtime values, and between a numeral and a runtime value.

impl<T: PrimitiveInt> core::ops::BitXor<Var<T>> for Var<T> {
    type Output = Var<T>;

    fn bitxor(self, rhs: Var<T>) -> Var<T> {
        Var(self.0.bit_xor(rhs.0))
    }
}

impl<T: PrimitiveInt> vstd::std_specs::ops::BitXorSpecImpl<Var<T>> for Var<T> {
    open spec fn obeys_bitxor_spec() -> bool {
        true
    }

    open spec fn bitxor_req(self, rhs: Var<T>) -> bool {
        true
    }

    open spec fn bitxor_spec(self, rhs: Var<T>) -> Var<T> {
        Var(self.0.spec_xor(rhs.0))
    }
}

impl<T: PrimitiveInt> core::ops::BitXor<Var<T>> for Z0 {
    type Output = Var<T>;

    fn bitxor(self, rhs: Var<T>) -> Var<T> {
        Var(rhs.0)
    }
}

impl<T: PrimitiveInt> vstd::std_specs::ops::BitXorSpecImpl<Var<T>> for Z0 {
    open spec fn obeys_bitxor_spec() -> bool {
        true
    }

    open spec fn bitxor_req(self, rhs: Var<T>) -> bool {
        true
    }

    open spec fn bitxor_spec(self, rhs: Var<T>) -> Var<T> {
        Var(rhs.0)
    }
}

impl<T: PrimitiveInt> core::ops::BitXor<Var<T>> for N1 {
    type Output = Var<T>;

    fn bitxor(self, rhs: Var<T>) -> Var<T> {
        Var(rhs.0.bit_not())
    }
}

impl<T: PrimitiveInt> vstd::std_specs::ops::BitXorSpecImpl<Var<T>> for N1 {
    open spec fn obeys_bitxor_spec() -> bool {
        true
    }

    open spec fn bitxor_req(self, rhs: Var<T>) -> bool {
        true
    }

    open spec fn bitxor_spec(self, rhs: Var<T>) -> Var<T> {
        Var(rhs.0.spec_not())
    }
}

impl<T: PrimitiveInt> core::ops::BitXor<Var<T>> for P1 {
    type Output = Var<T>;

    fn bitxor(self, rhs: Var<T>) -> Var<T> {
        proof {
            T::lemma_fits_small();
        }
        Var(T::from_i32(1).bit_xor(rhs.0))
    }
}

impl<T: PrimitiveInt> vstd::std_specs::ops::BitXorSpecImpl<Var<T>> for P1 {
    open spec fn obeys_bitxor_spec() -> bool {
        true
    }

    open spec fn bitxor_req(self, rhs: Var<T>) -> bool {
        true
    }

    open spec fn bitxor_spec(self, rhs: Var<T>) -> Var<T> {
        Var(T::of_int(1).spec_xor(rhs.0))
    }
}

impl<H: TypedInt, T: PrimitiveInt> core::ops::BitXor<Var<T>> for B0<H> {
    type Output = Var<T>;

    fn bitxor(self, rhs: Var<T>) -> Var<T> {
        let n = <B0<H> as TypedInt>::to_i32();
        Var(T::from_i32(n).bit_xor(rhs.0))
    }
}

impl<H: TypedInt, T: PrimitiveInt> vstd::std_specs::ops::BitXorSpecImpl<Var<T>> for B0<H> {
    open spec fn obeys_bitxor_spec() -> bool {
        true
    }

    open spec fn bitxor_req(self, rhs: Var<T>) -> bool {
        i32::MIN <= value_of::<B0<H>>() <= i32::MAX && T::fits(value_of::<B0<H>>())
    }

    open spec fn bitxor_spec(self, rhs: Var<T>) -> Var<T> {
        Var(T::of_int(value_of::<B0<H>>()).spec_xor(rhs.0))
    }
}

impl<H: TypedInt, T: PrimitiveInt> core::ops::BitXor<Var<T>> for B1<H> {
    type Output = Var<T>;

    fn bitxor(self, rhs: Var<T>) -> Var<T> {
        let n = <B1<H> as TypedInt>::to_i32();
        Var(T::from_i32(n).bit_xor(rhs.0))
    }
}

impl<H: TypedInt, T: PrimitiveInt> vstd::std_specs::ops::BitXorSpecImpl<Var<T>> for B1<H> {
    open spec fn obeys_bitxor_spec() -> bool {
        true
    }

    open spec fn bitxor_req(self, rhs: Var<T>) -> bool {
        i32::MIN <= value_of::<B1<H>>() <= i32::MAX && T::fits(value_of::<B1<H>>())
    }

    open spec fn bitxor_spec(self, rhs: Var<T>) -> Var<T> {
        Var(T::of_int(value_of::<B1<H>>()).spec_xor(rhs.0))
    }
}

impl<T: PrimitiveInt> core::ops::BitXor<Z0> for Var<T> {
    type Output = Var<T>;

    fn bitxor(self, rhs: Z0) -> Var<T> {
        Var(self.0)
    }
}

impl<T: PrimitiveInt> vstd::std_specs::ops::BitXorSpecImpl<Z0> for Var<T> {
    open spec fn obeys_bitxor_spec() -> bool {
        true
    }

    open spec fn bitxor_req(self, rhs: Z0) -> bool {
        true
    }

    open spec fn bitxor_spec(self, rhs: Z0) -> Var<T> {
        Var(self.0)
    }
}

impl<T: PrimitiveInt> core::ops::BitXor<N1> for Var<T> {
    type Output = Var<T>;

    fn bitxor(self, rhs: N1) -> Var<T> {
        Var(self.0.bit_not())
    }
}

impl<T: PrimitiveInt> vstd::std_specs::ops::BitXorSpecImpl<N1> for Var<T> {
    open spec fn obeys_bitxor_spec() -> bool {
        true
    }

    open spec fn bitxor_req(self, rhs: N1) -> bool {
        true
    }

    open spec fn bitxor_spec(self, rhs: N1) -> Var<T> {
        Var(self.0.spec_not())
    }
}

impl<T: PrimitiveInt> core::ops::BitXor<P1> for Var<T> {
    type Output = Var<T>;

    fn bitxor(self, rhs: P1) -> Var<T> {
        proof {
            T::lemma_fits_small();
        }
        Var(T::from_i32(1).bit_xor(self.0))
    }
}

impl<T: PrimitiveInt> vstd::std_specs::ops::BitXorSpecImpl<P1> for Var<T> {
    open spec fn obeys_bitxor_spec() -> bool {
        true
    }

    open spec fn bitxor_req(self, rhs: P1) -> bool {
        true
    }

    open spec fn bitxor_spec(self, rhs: P1) -> Var<T> {
        Var(T::of_int(1).spec_xor(self.0))
    }
}

impl<H: TypedInt, T: PrimitiveInt> core::ops::BitXor<B0<H>> for Var<T> {
    type Output = Var<T>;

    fn bitxor(self, rhs: B0<H>) -> Var<T> {
        let n = <B0<H> as TypedInt>::to_i32();
        Var(T::from_i32(n).bit_xor(self.0))
    }
}

impl<H: TypedInt, T: PrimitiveInt> vstd::std_specs::ops::BitXorSpecImpl<B0<H>> for Var<T> {
    open spec fn obeys_bitxor_spec() -> bool {
        true
    }

    open spec fn bitxor_req(self, rhs: B0<H>) -> bool {
        i32::MIN <= value_of::<B0<H>>() <= i32::MAX && T::fits(value_of::<B0<H>>())
    }

    open spec fn bitxor_spec(self, rhs: B0<H>) -> Var<T> {
        Var(T::of_int(value_of::<B0<H>>()).spec_xor(self.0))
    }
}

impl<H: TypedInt, T: PrimitiveInt> core::ops::BitXor<B1<H>> for Var<T> {
    type Output = Var<T>;

    fn bitxor(self, rhs: B1<H>) -> Var<T> {
        let n = <B1<H> as TypedInt>::to_i32();
        Var(T::from_i32(n).bit_xor(self.0))
    }
}

impl<H: TypedInt, T: PrimitiveInt> vstd::std_specs::ops::BitXorSpecImpl<B1<H>> for Var<T> {
    open spec fn obeys_bitxor_spec() -> bool {
        true
    }

    open spec fn bitxor_req(self, rhs: B1<H>) -> bool {
        i32::MIN <= value_of::<B1<H>>() <= i32::MAX && T::fits(value_of::<B1<H>>())
    }

    open spec fn bitxor_spec(self, rhs: B1<H>) -> Var<T> {
        Var(T::of_int(value_of::<B1<H>>()).spec_xor(self.0))
    }
}

} // verus!
