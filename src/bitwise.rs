//! Bitwise operations on mathematical integers in two's complement, where 0 is
//! the pattern of all zeros and -1 the pattern of all ones.
use vstd::prelude::*;

verus! {

/// The absolute value, the measure under which the bit recursions shrink.
pub open spec fn abs(x: int) -> int {
    if x < 0 {
        -x
    } else {
        x
    }
}

/// Halving moves toward 0 and -1, the two fixed points of the recursion.
pub proof fn lemma_half_shrinks(x: int)
    ensures
        abs(x / 2) <= abs(x),
        x != 0 && x != -1 ==> abs(x / 2) < abs(x),
{
}

/// Bitwise AND.
pub open spec fn and_int(a: int, b: int) -> int
    decreases abs(a) + abs(b),
{
    if a == 0 || b == 0 {
        0
    } else if a == -1 {
        b
    } else if b == -1 {
        a
    } else {
        proof {
            lemma_half_shrinks(a);
            lemma_half_shrinks(b);
        }
        2 * and_int(a / 2, b / 2) + (if a % 2 == 1 && b % 2 == 1 { 1int } else { 0 })
    }
}

/// Bitwise OR.
pub open spec fn or_int(a: int, b: int) -> int
    decreases abs(a) + abs(b),
{
    if a == 0 {
        b
    } else if b == 0 {
        a
    } else if a == -1 || b == -1 {
        -1
    } else {
        proof {
            lemma_half_shrinks(a);
            lemma_half_shrinks(b);
        }
        2 * or_int(a / 2, b / 2) + (if a % 2 == 1 || b % 2 == 1 { 1int } else { 0 })
    }
}

/// Bitwise exclusive OR.
pub open spec fn xor_int(a: int, b: int) -> int
    decreases abs(a) + abs(b),
{
    if a == 0 {
        b
    } else if b == 0 {
        a
    } else if a == -1 {
        -b - 1
    } else if b == -1 {
        -a - 1
    } else {
        proof {
            lemma_half_shrinks(a);
            lemma_half_shrinks(b);
        }
        2 * xor_int(a / 2, b / 2) + (if a % 2 != b % 2 { 1int } else { 0 })
    }
}

/// AND works bit by bit: the low bit of the result is the AND of the low bits,
/// the rest is the AND of the halves.
pub proof fn lemma_and_split(a: int, b: int)
    ensures
        and_int(a, b) == 2 * and_int(a / 2, b / 2) + (if a % 2 == 1 && b % 2 == 1 { 1int } else { 0 }),
{
    if a == -1 {
        assert(and_int(-1, b / 2) == b / 2);
    } else if b == -1 {
        assert(and_int(a / 2, -1) == a / 2);
    }
}

/// OR works bit by bit.
pub proof fn lemma_or_split(a: int, b: int)
    ensures
        or_int(a, b) == 2 * or_int(a / 2, b / 2) + (if a % 2 == 1 || b % 2 == 1 { 1int } else { 0 }),
{
    if a == 0 {
        assert(or_int(0, b / 2) == b / 2);
    } else if b == 0 {
        assert(or_int(a / 2, 0) == a / 2);
    } else if a == -1 {
        assert(or_int(-1, b / 2) == -1);
    } else if b == -1 {
        assert(or_int(a / 2, -1) == -1);
    }
}

/// XOR works bit by bit.
pub proof fn lemma_xor_split(a: int, b: int)
    ensures
        xor_int(a, b) == 2 * xor_int(a / 2, b / 2) + (if a % 2 != b % 2 { 1int } else { 0 }),
{
    if a == 0 {
        assert(xor_int(0, b / 2) == b / 2);
    } else if b == 0 {
        assert(xor_int(a / 2, 0) == a / 2);
    } else if a == -1 {
        assert(xor_int(-1, b / 2) == -(b / 2) - 1);
    } else if b == -1 {
        assert(xor_int(a / 2, -1) == -(a / 2) - 1);
    }
}

/// Every integer XOR itself is 0.
pub proof fn lemma_xor_self(a: int)
    ensures
        xor_int(a, a) == 0,
    decreases abs(a),
{
    if a != 0 && a != -1 {
        lemma_half_shrinks(a);
        lemma_xor_self(a / 2);
    }
}

} // verus!
