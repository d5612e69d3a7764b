//! Laws of the numeral system, stated over the types themselves: two canonical
//! numeral types are the same type exactly when their shapes are equal.
use vstd::prelude::*;
use crate::add::IntAdd;
use crate::add1::Add1;
use crate::bitand::IntAnd;
use crate::bitor::IntOr;
use crate::bitwise::lemma_xor_self;
use crate::bitxor::IntXor;
use crate::cmp::{sign, Cmp};
use crate::mul::IntMul;
use crate::not::IntNot;
use crate::repr::{encode, lemma_canonical_unique, lemma_encode, lemma_encode_of_val, Repr};
use crate::sub1::Sub1;
use crate::types::{is_canonical, value_of, TypedInt, N1, P1, Z0};

verus! {

/// Canonical uniqueness: every integer has exactly one canonical numeral, and
/// distinct integers have distinct numerals.
pub proof fn law_canonical_uniqueness(m: int, n: int)
    ensures
        encode(n).canonical(),
        encode(n).val() == n,
        (encode(m) == encode(n)) == (m == n),
{
    lemma_encode(m);
    lemma_encode(n);
}

/// Two canonical numeral types that denote the same integer are the same type.
pub proof fn law_one_type_per_value<T: TypedInt, U: TypedInt>()
    requires
        is_canonical::<T>(),
        is_canonical::<U>(),
        value_of::<T>() == value_of::<U>(),
    ensures
        T::repr() == U::repr(),
{
    lemma_canonical_unique(T::repr(), U::repr());
}

/// Round trip: the integer a canonical numeral type denotes maps back to that type.
pub proof fn law_round_trip<T: TypedInt>()
    requires
        is_canonical::<T>(),
    ensures
        encode(value_of::<T>()) == T::repr(),
{
    lemma_encode_of_val(T::repr());
}

/// Decrementing an increment gives back the same numeral type.
pub proof fn law_decrement_of_increment<T: Add1>()
    where
        <T as Add1>::Output: Sub1,
    requires
        is_canonical::<T>(),
    ensures
        <<T as Add1>::Output as Sub1>::Output::repr() == T::repr(),
{
    T::lemma_add1();
    <T as Add1>::Output::lemma_sub1();
    lemma_canonical_unique(<<T as Add1>::Output as Sub1>::Output::repr(), T::repr());
}

/// Incrementing a decrement gives back the same numeral type.
pub proof fn law_increment_of_decrement<T: Sub1>()
    where
        <T as Sub1>::Output: Add1,
    requires
        is_canonical::<T>(),
    ensures
        <<T as Sub1>::Output as Add1>::Output::repr() == T::repr(),
{
    T::lemma_sub1();
    <T as Sub1>::Output::lemma_add1();
    lemma_canonical_unique(<<T as Sub1>::Output as Add1>::Output::repr(), T::repr());
}

/// Addition is commutative: `A + B` and `B + A` are the same type.
pub proof fn law_add_commutative<A: IntAdd<B>, B: IntAdd<A>>()
    requires
        is_canonical::<A>(),
        is_canonical::<B>(),
    ensures
        <A as IntAdd<B>>::Output::repr() == <B as IntAdd<A>>::Output::repr(),
{
    <A as IntAdd<B>>::lemma_add();
    <B as IntAdd<A>>::lemma_add();
    lemma_canonical_unique(<A as IntAdd<B>>::Output::repr(), <B as IntAdd<A>>::Output::repr());
}

/// Addition is associative: `(A + B) + C` and `A + (B + C)` are the same type.
pub proof fn law_add_associative<A, B, C>()
    where
        A: IntAdd<B> + IntAdd<<B as IntAdd<C>>::Output>,
        B: IntAdd<C>,
        C: TypedInt,
        <A as IntAdd<B>>::Output: IntAdd<C>,
    requires
        is_canonical::<A>(),
        is_canonical::<B>(),
        is_canonical::<C>(),
    ensures
        <<A as IntAdd<B>>::Output as IntAdd<C>>::Output::repr() == <A as IntAdd<
            <B as IntAdd<C>>::Output,
        >>::Output::repr(),
{
    <A as IntAdd<B>>::lemma_add();
    <<A as IntAdd<B>>::Output as IntAdd<C>>::lemma_add();
    <B as IntAdd<C>>::lemma_add();
    <A as IntAdd<<B as IntAdd<C>>::Output>>::lemma_add();
    lemma_canonical_unique(
        <<A as IntAdd<B>>::Output as IntAdd<C>>::Output::repr(),
        <A as IntAdd<<B as IntAdd<C>>::Output>>::Output::repr(),
    );
}

/// Multiplying by +1 gives back the same numeral type.
pub proof fn law_mul_identity<A: IntMul<P1>>()
    requires
        is_canonical::<A>(),
    ensures
        <A as IntMul<P1>>::Output::repr() == A::repr(),
{
    <A as IntMul<P1>>::lemma_mul();
    lemma_canonical_unique(<A as IntMul<P1>>::Output::repr(), A::repr());
}

/// Multiplying by 0 gives `Z0`.
pub proof fn law_mul_zero<A: IntMul<Z0>>()
    requires
        is_canonical::<A>(),
    ensures
        <A as IntMul<Z0>>::Output::repr() == Repr::Zero,
{
    <A as IntMul<Z0>>::lemma_mul();
    lemma_canonical_unique(<A as IntMul<Z0>>::Output::repr(), Repr::Zero);
}

/// Comparison agrees with the order of the integers, and says `Equal` exactly
/// for the same type.
pub proof fn law_cmp_consistent<A: Cmp<B>, B: TypedInt>()
    requires
        is_canonical::<A>(),
        is_canonical::<B>(),
    ensures
        value_of::<<A as Cmp<B>>::Output>() == sign(value_of::<A>() - value_of::<B>()),
        (value_of::<<A as Cmp<B>>::Output>() == 0) == (A::repr() == B::repr()),
{
    <A as Cmp<B>>::lemma_cmp();
    if value_of::<A>() == value_of::<B>() {
        lemma_canonical_unique(A::repr(), B::repr());
    }
}

/// Comparison is antisymmetric: swapping the sides flips the result.
pub proof fn law_cmp_antisymmetric<A: Cmp<B>, B: Cmp<A>>()
    requires
        is_canonical::<A>(),
        is_canonical::<B>(),
    ensures
        value_of::<<A as Cmp<B>>::Output>() == -value_of::<<B as Cmp<A>>::Output>(),
{
    <A as Cmp<B>>::lemma_cmp();
    <B as Cmp<A>>::lemma_cmp();
}

/// Comparison is transitive: `A <= B` and `B <= C` give `A <= C`, and the
/// result is strict when either step is.
pub proof fn law_cmp_transitive<A: Cmp<B> + Cmp<C>, B: Cmp<C>, C: TypedInt>()
    requires
        is_canonical::<A>(),
        is_canonical::<B>(),
        is_canonical::<C>(),
        value_of::<<A as Cmp<B>>::Output>() <= 0,
        value_of::<<B as Cmp<C>>::Output>() <= 0,
    ensures
        value_of::<<A as Cmp<C>>::Output>() <= 0,
        value_of::<<A as Cmp<B>>::Output>() < 0 || value_of::<<B as Cmp<C>>::Output>() < 0
            ==> value_of::<<A as Cmp<C>>::Output>() < 0,
{
    <A as Cmp<B>>::lemma_cmp();
    <B as Cmp<C>>::lemma_cmp();
    <A as Cmp<C>>::lemma_cmp();
}

/// Comparison is total: any two canonical numerals compare as exactly one of
/// `Less`, `Equal` or `Greater`.
pub proof fn law_cmp_total<A: Cmp<B>, B: TypedInt>()
    requires
        is_canonical::<A>(),
        is_canonical::<B>(),
    ensures
        <A as Cmp<B>>::Output::repr() == Repr::NegOne || <A as Cmp<B>>::Output::repr() == Repr::Zero
            || <A as Cmp<B>>::Output::repr() == Repr::PosOne,
{
    <A as Cmp<B>>::lemma_cmp();
}

/// Complementing twice gives back the same numeral type.
pub proof fn law_not_involution<X: IntNot>()
    where
        <X as IntNot>::Output: IntNot,
    requires
        is_canonical::<X>(),
    ensures
        <<X as IntNot>::Output as IntNot>::Output::repr() == X::repr(),
{
    X::lemma_not();
    <X as IntNot>::Output::lemma_not();
    lemma_canonical_unique(<<X as IntNot>::Output as IntNot>::Output::repr(), X::repr());
}

/// AND with all ones (-1) gives back the same numeral type.
pub proof fn law_and_all_ones<X: IntAnd<N1>>()
    requires
        is_canonical::<X>(),
    ensures
        <X as IntAnd<N1>>::Output::repr() == X::repr(),
{
    <X as IntAnd<N1>>::lemma_and();
    lemma_canonical_unique(<X as IntAnd<N1>>::Output::repr(), X::repr());
}

/// OR with all ones (-1) gives `N1`.
pub proof fn law_or_all_ones<X: IntOr<N1>>()
    requires
        is_canonical::<X>(),
    ensures
        <X as IntOr<N1>>::Output::repr() == Repr::NegOne,
{
    <X as IntOr<N1>>::lemma_or();
    lemma_canonical_unique(<X as IntOr<N1>>::Output::repr(), Repr::NegOne);
}

/// XOR of a numeral with itself gives `Z0`.
pub proof fn law_xor_self<X: IntXor<X>>()
    requires
        is_canonical::<X>(),
    ensures
        <X as IntXor<X>>::Output::repr() == Repr::Zero,
{
    <X as IntXor<X>>::lemma_xor();
    lemma_xor_self(value_of::<X>());
    lemma_canonical_unique(<X as IntXor<X>>::Output::repr(), Repr::Zero);
}

} // verus!
