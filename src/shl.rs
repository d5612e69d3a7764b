//! Left shift by a non-negative numeral: one bit at a time, counted down.
use vstd::prelude::*;
use vstd::arithmetic::power2::{lemma2_to64, lemma_pow2_pos, lemma_pow2_unfold, pow2};
use crate::repr::lemma_canonical_small;
use crate::sub1::Sub1;
use crate::types::{int_of, is_canonical, value_of, NonZero, TypedInt, Unsigned, B0, B1, N1, P1, Z0};

verus! {

/// `Self << R`, that is `Self * 2^R`.
pub trait IntShl<R: Unsigned>: TypedInt {
    type Output: TypedInt;

    /// The value and the canonical form of `Output`.
    proof fn lemma_shl()
        ensures
            value_of::<Self::Output>() == value_of::<Self>() * pow2(value_of::<R>() as nat),
            is_canonical::<Self>() ==> is_canonical::<Self::Output>();

    fn int_shl(self, rhs: R) -> (r: Self::Output)
        ensures
            int_of(r) == int_of(self) * pow2(int_of(rhs) as nat),
            is_canonical::<Self>() ==> is_canonical::<Self::Output>();
}

/// 0 shifted is 0.
impl<R: Unsigned> IntShl<R> for Z0 {
    type Output = Z0;

    proof fn lemma_shl() {
    }

    fn int_shl(self, rhs: R) -> (r: Z0) {
        proof {
            <Self as IntShl<R>>::lemma_shl();
        }
        Z0::new()
    }
}

impl IntShl<Z0> for P1 {
    type Output = P1;

    proof fn lemma_shl() {
        lemma2_to64();
        let x = value_of::<Self>();
        assert(x * 1 == x && x / 1 == x) by (nonlinear_arith);
    }

    fn int_shl(self, rhs: Z0) -> (r: P1) {
        proof {
            <Self as IntShl<Z0>>::lemma_shl();
        }
        self
    }
}

/// Shifting by `r > 0` is shifting by `r - 1`, then appending a zero bit.
impl<R: Unsigned + NonZero + Sub1> IntShl<R> for P1
where
    <R as Sub1>::Output: Unsigned,
    P1: IntShl<<R as Sub1>::Output>,
{
    type Output = B0<<P1 as IntShl<<R as Sub1>::Output>>::Output>;

    proof fn lemma_shl() {
        R::lemma_unsigned();
        R::lemma_non_zero();
        R::lemma_sub1();
        <P1 as IntShl<<R as Sub1>::Output>>::lemma_shl();
        lemma_pow2_unfold(value_of::<R>() as nat);
        lemma_pow2_pos((value_of::<R>() - 1) as nat);
        let x = value_of::<Self>();
        let p = pow2((value_of::<R>() - 1) as nat) as int;
        assert(x * (2 * p) == 2 * (x * p)) by (nonlinear_arith);
        assert(x != 0 ==> x * p != 0) by (nonlinear_arith)
            requires
                p > 0,
        ;
        lemma_canonical_small(Self::repr());
        lemma_canonical_small(<P1 as IntShl<<R as Sub1>::Output>>::Output::repr());
    }

    fn int_shl(self, rhs: R) -> (r: B0<<P1 as IntShl<<R as Sub1>::Output>>::Output>) {
        proof {
            <Self as IntShl<R>>::lemma_shl();
        }
        B0::new()
    }
}

impl IntShl<Z0> for N1 {
    type Output = N1;

    proof fn lemma_shl() {
        lemma2_to64();
        let x = value_of::<Self>();
        assert(x * 1 == x && x / 1 == x) by (nonlinear_arith);
    }

    fn int_shl(self, rhs: Z0) -> (r: N1) {
        proof {
            <Self as IntShl<Z0>>::lemma_shl();
        }
        self
    }
}

impl<R: Unsigned + NonZero + Sub1> IntShl<R> for N1
where
    <R as Sub1>::Output: Unsigned,
    N1: IntShl<<R as Sub1>::Output>,
{
    type Output = B0<<N1 as IntShl<<R as Sub1>::Output>>::Output>;

    proof fn lemma_shl() {
        R::lemma_unsigned();
        R::lemma_non_zero();
        R::lemma_sub1();
        <N1 as IntShl<<R as Sub1>::Output>>::lemma_shl();
        lemma_pow2_unfold(value_of::<R>() as nat);
        lemma_pow2_pos((value_of::<R>() - 1) as nat);
        let x = value_of::<Self>();
        let p = pow2((value_of::<R>() - 1) as nat) as int;
        assert(x * (2 * p) == 2 * (x * p)) by (nonlinear_arith);
        assert(x != 0 ==> x * p != 0) by (nonlinear_arith)
            requires
                p > 0,
        ;
        lemma_canonical_small(Self::repr());
        lemma_canonical_small(<N1 as IntShl<<R as Sub1>::Output>>::Output::repr());
    }

    fn int_shl(self, rhs: R) -> (r: B0<<N1 as IntShl<<R as Sub1>::Output>>::Output>) {
        proof {
            <Self as IntShl<R>>::lemma_shl();
        }
        B0::new()
    }
}

impl<H: TypedInt> IntShl<Z0> for B0<H> {
    type Output = B0<H>;

    proof fn lemma_shl() {
        lemma2_to64();
        let x = value_of::<Self>();
        assert(x * 1 == x && x / 1 == x) by (nonlinear_arith);
    }

    fn int_shl(self, rhs: Z0) -> (r: B0<H>) {
        proof {
            <Self as IntShl<Z0>>::lemma_shl();
        }
        self
    }
}

impl<H: TypedInt, R: Unsigned + NonZero + Sub1> IntShl<R> for B0<H>
where
    <R as Sub1>::Output: Unsigned,
    B0<H>: IntShl<<R as Sub1>::Output>,
{
    type Output = B0<<B0<H> as IntShl<<R as Sub1>::Output>>::Output>;

    proof fn lemma_shl() {
        R::lemma_unsigned();
        R::lemma_non_zero();
        R::lemma_sub1();
        <B0<H> as IntShl<<R as Sub1>::Output>>::lemma_shl();
        lemma_pow2_unfold(value_of::<R>() as nat);
        lemma_pow2_pos((value_of::<R>() - 1) as nat);
        let x = value_of::<Self>();
        let p = pow2((value_of::<R>() - 1) as nat) as int;
        assert(x * (2 * p) == 2 * (x * p)) by (nonlinear_arith);
        assert(x != 0 ==> x * p != 0) by (nonlinear_arith)
            requires
                p > 0,
        ;
        lemma_canonical_small(Self::repr());
        lemma_canonical_small(<B0<H> as IntShl<<R as Sub1>::Output>>::Output::repr());
    }

    fn int_shl(self, rhs: R) -> (r: B0<<B0<H> as IntShl<<R as Sub1>::Output>>::Output>) {
        proof {
            <Self as IntShl<R>>::lemma_shl();
        }
        B0::new()
    }
}

impl<H: TypedInt> IntShl<Z0> for B1<H> {
    type Output = B1<H>;

    proof fn lemma_shl() {
        lemma2_to64();
        let x = value_of::<Self>();
        assert(x * 1 == x && x / 1 == x) by (nonlinear_arith);
    }

    fn int_shl(self, rhs: Z0) -> (r: B1<H>) {
        proof {
            <Self as IntShl<Z0>>::lemma_shl();
        }
        self
    }
}

impl<H: TypedInt, R: Unsigned + NonZero + Sub1> IntShl<R> for B1<H>
where
    <R as Sub1>::Output: Unsigned,
    B1<H>: IntShl<<R as Sub1>::Output>,
{
    type Output = B0<<B1<H> as IntShl<<R as Sub1>::Output>>::Output>;

    proof fn lemma_shl() {
        R::lemma_unsigned();
        R::lemma_non_zero();
        R::lemma_sub1();
        <B1<H> as IntShl<<R as Sub1>::Output>>::lemma_shl();
        lemma_pow2_unfold(value_of::<R>() as nat);
        lemma_pow2_pos((value_of::<R>() - 1) as nat);
        let x = value_of::<Self>();
        let p = pow2((value_of::<R>() - 1) as nat) as int;
        assert(x * (2 * p) == 2 * (x * p)) by (nonlinear_arith);
        assert(x != 0 ==> x * p != 0) by (nonlinear_arith)
            requires
                p > 0,
        ;
        lemma_canonical_small(Self::repr());
        lemma_canonical_small(<B1<H> as IntShl<<R as Sub1>::Output>>::Output::repr());
    }

    fn int_shl(self, rhs: R) -> (r: B0<<B1<H> as IntShl<<R as Sub1>::Output>>::Output>) {
        proof {
            <Self as IntShl<R>>::lemma_shl();
        }
        B0::new()
    }
}

// The operator form: the same operation through the standard operator trait.

impl<R: Unsigned> core::ops::Shl<R> for Z0 where Z0: IntShl<R> {
    type Output = <Z0 as IntShl<R>>::Output;

    fn shl(self, rhs: R) -> Self::Output {
        let r = self.int_shl(rhs);
        proof {
            <<Z0 as IntShl<R>>::Output as TypedInt>::lemma_unique(r);
        }
        r
    }
}

impl<R: Unsigned> vstd::std_specs::ops::ShlSpecImpl<R> for Z0 where Z0: IntShl<R> {
    open spec fn obeys_shl_spec() -> bool {
        true
    }

    open spec fn shl_req(self, rhs: R) -> bool {
        true
    }

    open spec fn shl_spec(self, rhs: R) -> Self::Output {
        <Z0 as IntShl<R>>::Output::unit()
    }
}

impl<R: Unsigned> core::ops::Shl<R> for P1 where P1: IntShl<R> {
    type Output = <P1 as IntShl<R>>::Output;

    fn shl(self, rhs: R) -> Self::Output {
        let r = self.int_shl(rhs);
        proof {
            <<P1 as IntShl<R>>::Output as TypedInt>::lemma_unique(r);
        }
        r
    }
}

impl<R: Unsigned> vstd::std_specs::ops::ShlSpecImpl<R> for P1 where P1: IntShl<R> {
    open spec fn obeys_shl_spec() -> bool {
        true
    }

    open spec fn shl_req(self, rhs: R) -> bool {
        true
    }

    open spec fn shl_spec(self, rhs: R) -> Self::Output {
        <P1 as IntShl<R>>::Output::unit()
    }
}

impl<R: Unsigned> core::ops::Shl<R> for N1 where N1: IntShl<R> {
    type Output = <N1 as IntShl<R>>::Output;

    fn shl(self, rhs: R) -> Self::Output {
        let r = self.int_shl(rhs);
        proof {
            <<N1 as IntShl<R>>::Output as TypedInt>::lemma_unique(r);
        }
        r
    }
}

impl<R: Unsigned> vstd::std_specs::ops::ShlSpecImpl<R> for N1 where N1: IntShl<R> {
    open spec fn obeys_shl_spec() -> bool {
        true
    }

    open spec fn shl_req(self, rhs: R) -> bool {
        true
    }

    open spec fn shl_spec(self, rhs: R) -> Self::Output {
        <N1 as IntShl<R>>::Output::unit()
    }
}

impl<H: TypedInt, R: Unsigned> core::ops::Shl<R> for B0<H> where B0<H>: IntShl<R> {
    type Output = <B0<H> as IntShl<R>>::Output;

    fn shl(self, rhs: R) -> Self::Output {
        let r = self.int_shl(rhs);
        proof {
            <<B0<H> as IntShl<R>>::Output as TypedInt>::lemma_unique(r);
        }
        r
    }
}

impl<H: TypedInt, R: Unsigned> vstd::std_specs::ops::ShlSpecImpl<R> for B0<H> where B0<H>: IntShl<R> {
    open spec fn obeys_shl_spec() -> bool {
        true
    }

    open spec fn shl_req(self, rhs: R) -> bool {
        true
    }

    open spec fn shl_spec(self, rhs: R) -> Self::Output {
        <B0<H> as IntShl<R>>::Output::unit()
    }
}

impl<H: TypedInt, R: Unsigned> core::ops::Shl<R> for B1<H> where B1<H>: IntShl<R> {
    type Output = <B1<H> as IntShl<R>>::Output;

    fn shl(self, rhs: R) -> Self::Output {
        let r = self.int_shl(rhs);
        proof {
            <<B1<H> as IntShl<R>>::Output as TypedInt>::lemma_unique(r);
        }
        r
    }
}

impl<H: TypedInt, R: Unsigned> vstd::std_specs::ops::ShlSpecImpl<R> for B1<H> where B1<H>: IntShl<R> {
    open spec fn obeys_shl_spec() -> bool {
        true
    }

    open spec fn shl_req(self, rhs: R) -> bool {
        true
    }

    open spec fn shl_spec(self, rhs: R) -> Self::Output {
        <B1<H> as IntShl<R>>::Output::unit()
    }
}

} // verus!
