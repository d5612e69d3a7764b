//! Arithmetic right shift by a non-negative numeral: one bit at a time,
//! counted down, with the sign kept.
use vstd::prelude::*;
use vstd::arithmetic::div_mod::{
    lemma_fundamental_div_mod, lemma_fundamental_div_mod_converse, lemma_mod_bound,
};
use vstd::arithmetic::power2::{lemma2_to64, lemma_pow2_pos, lemma_pow2_unfold, pow2};
use crate::sub1::Sub1;
use crate::types::{int_of, is_canonical, value_of, NonZero, TypedInt, Unsigned, B0, B1, N1, P1, Z0};

verus! {

/// `Self >> R`, that is `Self / 2^R` rounded toward negative infinity.
pub trait IntShr<R: Unsigned>: TypedInt {
    type Output: TypedInt;

    /// The value and the canonical form of `Output`.
    proof fn lemma_shr()
        ensures
            value_of::<Self::Output>() == value_of::<Self>() / (pow2(value_of::<R>() as nat) as int),
            is_canonical::<Self>() ==> is_canonical::<Self::Output>();

    fn int_shr(self, rhs: R) -> (r: Self::Output)
        ensures
            int_of(r) == int_of(self) / (pow2(int_of(rhs) as nat) as int),
            is_canonical::<Self>() ==> is_canonical::<Self::Output>();
}

/// Dropping the low bit `b` of `2h + b` and dividing by `p` is dividing by `2p`.
proof fn lemma_div_drop_bit(h: int, b: int, p: int)
    requires
        p > 0,
        0 <= b <= 1,
    ensures
        (2 * h + b) / (2 * p) == h / p,
{
    let q = h / p;
    let m = h % p;
    lemma_fundamental_div_mod(h, p);
    lemma_mod_bound(h, p);
    assert(2 * h + b == q * (2 * p) + (2 * m + b)) by (nonlinear_arith)
        requires
            h == p * q + m,
    ;
    lemma_fundamental_div_mod_converse(2 * h + b, 2 * p, q, 2 * m + b);
}

/// 0 shifted is 0.
impl<R: Unsigned> IntShr<R> for Z0 {
    type Output = Z0;

    proof fn lemma_shr() {
        lemma_pow2_pos(value_of::<R>() as nat);
    }

    fn int_shr(self, rhs: R) -> (r: Z0) {
        proof {
            <Self as IntShr<R>>::lemma_shr();
        }
        Z0::new()
    }
}

/// -1 shifted is -1: the sign bit is copied in.
impl<R: Unsigned> IntShr<R> for N1 {
    type Output = N1;

    proof fn lemma_shr() {
        R::lemma_unsigned();
        let p = pow2(value_of::<R>() as nat) as int;
        lemma_pow2_pos(value_of::<R>() as nat);
        lemma_fundamental_div_mod_converse(-1, p, -1, p - 1);
    }

    fn int_shr(self, rhs: R) -> (r: N1) {
        proof {
            <Self as IntShr<R>>::lemma_shr();
        }
        N1::new()
    }
}

impl IntShr<Z0> for P1 {
    type Output = P1;

    proof fn lemma_shr() {
        lemma2_to64();
        let x = value_of::<Self>();
        assert(x * 1 == x && x / 1 == x) by (nonlinear_arith);
    }

    fn int_shr(self, rhs: Z0) -> (r: P1) {
        proof {
            <Self as IntShr<Z0>>::lemma_shr();
        }
        self
    }
}

/// +1 shifted by `r > 0` is 0.
impl<R: Unsigned + NonZero> IntShr<R> for P1 {
    type Output = Z0;

    proof fn lemma_shr() {
        R::lemma_unsigned();
        R::lemma_non_zero();
        lemma_pow2_unfold(value_of::<R>() as nat);
        lemma_pow2_pos((value_of::<R>() - 1) as nat);
        lemma_fundamental_div_mod_converse(1, pow2(value_of::<R>() as nat) as int, 0, 1);
    }

    fn int_shr(self, rhs: R) -> (r: Z0) {
        proof {
            <Self as IntShr<R>>::lemma_shr();
        }
        Z0::new()
    }
}

impl<H: TypedInt> IntShr<Z0> for B0<H> {
    type Output = B0<H>;

    proof fn lemma_shr() {
        lemma2_to64();
        let x = value_of::<Self>();
        assert(x * 1 == x && x / 1 == x) by (nonlinear_arith);
    }

    fn int_shr(self, rhs: Z0) -> (r: B0<H>) {
        proof {
            <Self as IntShr<Z0>>::lemma_shr();
        }
        self
    }
}

/// Shifting by `r > 0` drops the low bit, then shifts the higher part by `r - 1`.
impl<H: IntShr<<R as Sub1>::Output>, R: Unsigned + NonZero + Sub1> IntShr<R> for B0<H>
where
    <R as Sub1>::Output: Unsigned,
{
    type Output = <H as IntShr<<R as Sub1>::Output>>::Output;

    proof fn lemma_shr() {
        R::lemma_unsigned();
        R::lemma_non_zero();
        R::lemma_sub1();
        <H as IntShr<<R as Sub1>::Output>>::lemma_shr();
        lemma_pow2_unfold(value_of::<R>() as nat);
        lemma_pow2_pos((value_of::<R>() - 1) as nat);
        lemma_div_drop_bit(value_of::<H>(), 0, pow2((value_of::<R>() - 1) as nat) as int);
    }

    fn int_shr(self, rhs: R) -> (r: <H as IntShr<<R as Sub1>::Output>>::Output) {
        proof {
            <Self as IntShr<R>>::lemma_shr();
        }
        H::instance().int_shr(rhs.sub1())
    }
}

impl<H: TypedInt> IntShr<Z0> for B1<H> {
    type Output = B1<H>;

    proof fn lemma_shr() {
        lemma2_to64();
        let x = value_of::<Self>();
        assert(x * 1 == x && x / 1 == x) by (nonlinear_arith);
    }

    fn int_shr(self, rhs: Z0) -> (r: B1<H>) {
        proof {
            <Self as IntShr<Z0>>::lemma_shr();
        }
        self
    }
}

impl<H: IntShr<<R as Sub1>::Output>, R: Unsigned + NonZero + Sub1> IntShr<R> for B1<H>
where
    <R as Sub1>::Output: Unsigned,
{
    type Output = <H as IntShr<<R as Sub1>::Output>>::Output;

    proof fn lemma_shr() {
        R::lemma_unsigned();
        R::lemma_non_zero();
        R::lemma_sub1();
        <H as IntShr<<R as Sub1>::Output>>::lemma_shr();
        lemma_pow2_unfold(value_of::<R>() as nat);
        lemma_pow2_pos((value_of::<R>() - 1) as nat);
        lemma_div_drop_bit(value_of::<H>(), 1, pow2((value_of::<R>() - 1) as nat) as int);
    }

    fn int_shr(self, rhs: R) -> (r: <H as IntShr<<R as Sub1>::Output>>::Output) {
        proof {
            <Self as IntShr<R>>::lemma_shr();
        }
        H::instance().int_shr(rhs.sub1())
    }
}

// The operator form: the same operation through the standard operator trait.

impl<R: Unsigned> core::ops::Shr<R> for Z0 where Z0: IntShr<R> {
    type Output = <Z0 as IntShr<R>>::Output;

    fn shr(self, rhs: R) -> Self::Output {
        let r = self.int_shr(rhs);
        proof {
            <<Z0 as IntShr<R>>::Output as TypedInt>::lemma_unique(r);
        }
        r
    }
}

impl<R: Unsigned> vstd::std_specs::ops::ShrSpecImpl<R> for Z0 where Z0: IntShr<R> {
    open spec fn obeys_shr_spec() -> bool {
        true
    }

    open spec fn shr_req(self, rhs: R) -> bool {
        true
    }

    open spec fn shr_spec(self, rhs: R) -> Self::Output {
        <Z0 as IntShr<R>>::Output::unit()
    }
}

impl<R: Unsigned> core::ops::Shr<R> for P1 where P1: IntShr<R> {
    type Output = <P1 as IntShr<R>>::Output;

    fn shr(self, rhs: R) -> Self::Output {
        let r = self.int_shr(rhs);
        proof {
            <<P1 as IntShr<R>>::Output as TypedInt>::lemma_unique(r);
        }
        r
    }
}

impl<R: Unsigned> vstd::std_specs::ops::ShrSpecImpl<R> for P1 where P1: IntShr<R> {
    open spec fn obeys_shr_spec() -> bool {
        true
    }

    open spec fn shr_req(self, rhs: R) -> bool {
        true
    }

    open spec fn shr_spec(self, rhs: R) -> Self::Output {
        <P1 as IntShr<R>>::Output::unit()
    }
}

impl<R: Unsigned> core::ops::Shr<R> for N1 where N1: IntShr<R> {
    type Output = <N1 as IntShr<R>>::Output;

    fn shr(self, rhs: R) -> Self::Output {
        let r = self.int_shr(rhs);
        proof {
            <<N1 as IntShr<R>>::Output as TypedInt>::lemma_unique(r);
        }
        r
    }
}

impl<R: Unsigned> vstd::std_specs::ops::ShrSpecImpl<R> for N1 where N1: IntShr<R> {
    open spec fn obeys_shr_spec() -> bool {
        true
    }

    open spec fn shr_req(self, rhs: R) -> bool {
        true
    }

    open spec fn shr_spec(self, rhs: R) -> Self::Output {
        <N1 as IntShr<R>>::Output::unit()
    }
}

impl<H: TypedInt, R: Unsigned> core::ops::Shr<R> for B0<H> where B0<H>: IntShr<R> {
    type Output = <B0<H> as IntShr<R>>::Output;

    fn shr(self, rhs: R) -> Self::Output {
        let r = self.int_shr(rhs);
        proof {
            <<B0<H> as IntShr<R>>::Output as TypedInt>::lemma_unique(r);
        }
        r
    }
}

impl<H: TypedInt, R: Unsigned> vstd::std_specs::ops::ShrSpecImpl<R> for B0<H> where B0<H>: IntShr<R> {
    open spec fn obeys_shr_spec() -> bool {
        true
    }

    open spec fn shr_req(self, rhs: R) -> bool {
        true
    }

    open spec fn shr_spec(self, rhs: R) -> Self::Output {
        <B0<H> as IntShr<R>>::Output::unit()
    }
}

impl<H: TypedInt, R: Unsigned> core::ops::Shr<R> for B1<H> where B1<H>: IntShr<R> {
    type Output = <B1<H> as IntShr<R>>::Output;

    fn shr(self, rhs: R) -> Self::Output {
        let r = self.int_shr(rhs);
        proof {
            <<B1<H> as IntShr<R>>::Output as TypedInt>::lemma_unique(r);
        }
        r
    }
}

impl<H: TypedInt, R: Unsigned> vstd::std_specs::ops::ShrSpecImpl<R> for B1<H> where B1<H>: IntShr<R> {
    open spec fn obeys_shr_spec() -> bool {
        true
    }

    open spec fn shr_req(self, rhs: R) -> bool {
        true
    }

    open spec fn shr_spec(self, rhs: R) -> Self::Output {
        <B1<H> as IntShr<R>>::Output::unit()
    }
}

} // verus!
