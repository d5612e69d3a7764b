//! The mathematical model of a numeral: the shape of its type, read as a tree,
//! with the integer it denotes and the rule that makes the shape canonical.
use vstd::prelude::*;

verus! {

/// The shape of a numeral type: three terminators and two constructors that
/// append a low bit below a higher-order part.
pub enum Repr {
    /// `Z0`: the value 0.
    Zero,
    /// `P1`: the value +1; as a higher part, "all higher bits are 0".
    PosOne,
    /// `N1`: the value -1; as a higher part, "all higher bits are 1".
    NegOne,
    /// `B0<H>`: the value `2 * H`.
    Bit0(Box<Repr>),
    /// `B1<H>`: the value `2 * H + 1`.
    Bit1(Box<Repr>),
}

impl Repr {
    /// The integer a shape denotes.
    pub open spec fn val(self) -> int
        decreases self,
    {
        match self {
            Repr::Zero => 0,
            Repr::PosOne => 1,
            Repr::NegOne => -1,
            Repr::Bit0(h) => 2 * h.val(),
            Repr::Bit1(h) => 2 * h.val() + 1,
        }
    }

    /// A shape is canonical when no constructor could be collapsed: a zero bit
    /// never stands on `Zero`, and a one bit never stands on `Zero` or `NegOne`.
    pub open spec fn canonical(self) -> bool
        decreases self,
    {
        match self {
            Repr::Bit0(h) => h.canonical() && *h != Repr::Zero,
            Repr::Bit1(h) => h.canonical() && *h != Repr::Zero && *h != Repr::NegOne,
            _ => true,
        }
    }
}

/// The canonical shape of an integer: the image of the const-to-type bridge.
pub open spec fn encode(n: int) -> Repr
    decreases (if n < 0 { -n } else { n }),
{
    if n == 0 {
        Repr::Zero
    } else if n == 1 {
        Repr::PosOne
    } else if n == -1 {
        Repr::NegOne
    } else if n % 2 == 0 {
        Repr::Bit0(Box::new(encode(n / 2)))
    } else {
        Repr::Bit1(Box::new(encode((n - 1) / 2)))
    }
}

/// A canonical shape denotes 0 only as `Zero`, and -1 only as `NegOne`.
pub proof fn lemma_canonical_small(r: Repr)
    ensures
        r.canonical() ==> (r.val() == 0 <==> r == Repr::Zero),
        r.canonical() ==> (r.val() == -1 <==> r == Repr::NegOne),
        r.canonical() ==> (r.val() == 1 <==> r == Repr::PosOne),
    decreases r,
{
    match r {
        Repr::Bit0(h) => {
            lemma_canonical_small(*h);
        },
        Repr::Bit1(h) => {
            lemma_canonical_small(*h);
        },
        _ => {},
    }
}

/// Canonical form is unique: two canonical shapes that denote the same integer
/// are the same shape.
pub proof fn lemma_canonical_unique(a: Repr, b: Repr)
    requires
        a.canonical(),
        b.canonical(),
        a.val() == b.val(),
    ensures
        a == b,
    decreases a,
{
    lemma_canonical_small(a);
    lemma_canonical_small(b);
    match a {
        Repr::Bit0(ha) => {
            match b {
                Repr::Bit0(hb) => {
                    lemma_canonical_unique(*ha, *hb);
                },
                Repr::Bit1(hb) => {},
                _ => {},
            }
        },
        Repr::Bit1(ha) => {
            match b {
                Repr::Bit0(hb) => {},
                Repr::Bit1(hb) => {
                    lemma_canonical_unique(*ha, *hb);
                },
                _ => {},
            }
        },
        _ => {},
    }
}

/// The encoding of an integer is canonical and denotes that integer.
pub proof fn lemma_encode(n: int)
    ensures
        encode(n).canonical(),
        encode(n).val() == n,
    decreases (if n < 0 { -n } else { n }),
{
    if n == 0 || n == 1 || n == -1 {
    } else if n % 2 == 0 {
        lemma_encode(n / 2);
        lemma_canonical_small(encode(n / 2));
    } else {
        lemma_encode((n - 1) / 2);
        lemma_canonical_small(encode((n - 1) / 2));
    }
}

/// Every canonical shape is the encoding of the integer it denotes.
pub proof fn lemma_encode_of_val(r: Repr)
    requires
        r.canonical(),
    ensures
        encode(r.val()) == r,
{
    lemma_encode(r.val());
    lemma_canonical_unique(encode(r.val()), r);
}

} // verus!
