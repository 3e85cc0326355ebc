//! Three-valued (Kleene) logic values.

use vstd::prelude::*;

verus! {

/// A ternary value: True, False, or Unknown.
#[derive(Debug, Clone, Copy, PartialEq, Eq, Structural)]
pub enum Ternary {
    True,
    False,
    Unknown,
}

/// The truth order of Kleene logic: False < Unknown < True.
pub open spec fn rank(t: Ternary) -> int {
    match t {
        Ternary::False => 0,
        Ternary::Unknown => 1,
        Ternary::True => 2,
    }
}

/// Kleene AND: the lesser of the two values in truth order.
pub open spec fn and_spec(a: Ternary, b: Ternary) -> Ternary {
    if rank(a) <= rank(b) {
        a
    } else {
        b
    }
}

/// Kleene OR: the greater of the two values in truth order.
pub open spec fn or_spec(a: Ternary, b: Ternary) -> Ternary {
    if rank(a) >= rank(b) {
        a
    } else {
        b
    }
}

/// The one-letter name of a value: "T", "F" or "U".
pub open spec fn letter(t: Ternary) -> Seq<char> {
    match t {
        Ternary::True => seq!['T'],
        Ternary::False => seq!['F'],
        Ternary::Unknown => seq!['U'],
    }
}

impl Ternary {
    /// Logical AND for ternary values (Kleene logic).
    pub fn and(&self, other: &Ternary) -> (r: Ternary)
        ensures
            r == and_spec(*self, *other),
    {
        match (self, other) {
            (Ternary::False, _) | (_, Ternary::False) => Ternary::False,
            (Ternary::True, Ternary::True) => Ternary::True,
            _ => Ternary::Unknown,
        }
    }

    /// Logical OR for ternary values (Kleene logic).
    pub fn or(&self, other: &Ternary) -> (r: Ternary)
        ensures
            r == or_spec(*self, *other),
    {
        match (self, other) {
            (Ternary::True, _) | (_, Ternary::True) => Ternary::True,
            (Ternary::False, Ternary::False) => Ternary::False,
            _ => Ternary::Unknown,
        }
    }

    /// The display form: "T", "F" or "U".
    pub fn to_string(&self) -> (s: String)
        ensures
            s@ == letter(*self),
    {
        match self {
            Ternary::True => {
                let s = String::from_str("T");
                proof {
                    reveal_strlit("T");
                }
                s
            },
            Ternary::False => {
                let s = String::from_str("F");
                proof {
                    reveal_strlit("F");
                }
                s
            },
            Ternary::Unknown => {
                let s = String::from_str("U");
                proof {
                    reveal_strlit("U");
                }
                s
            },
        }
    }
}

/// AND and OR are commutative.
pub proof fn lemma_commutative(a: Ternary, b: Ternary)
    ensures
        and_spec(a, b) == and_spec(b, a),
        or_spec(a, b) == or_spec(b, a),
{
}

/// AND and OR are associative.
pub proof fn lemma_associative(a: Ternary, b: Ternary, c: Ternary)
    ensures
        and_spec(and_spec(a, b), c) == and_spec(a, and_spec(b, c)),
        or_spec(or_spec(a, b), c) == or_spec(a, or_spec(b, c)),
{
}

/// True is the identity of AND and False that of OR; False absorbs AND and
/// True absorbs OR.
pub proof fn lemma_identity_and_annihilator(a: Ternary)
    ensures
        and_spec(a, Ternary::True) == a,
        or_spec(a, Ternary::False) == a,
        and_spec(a, Ternary::False) == Ternary::False,
        or_spec(a, Ternary::True) == Ternary::True,
{
}

/// AND and OR are idempotent, and each absorbs the other.
pub proof fn lemma_idempotent_absorption(a: Ternary, b: Ternary)
    ensures
        and_spec(a, a) == a,
        or_spec(a, a) == a,
        and_spec(a, or_spec(a, b)) == a,
        or_spec(a, and_spec(a, b)) == a,
{
}

/// AND distributes over OR and OR over AND.
pub proof fn lemma_distributive(a: Ternary, b: Ternary, c: Ternary)
    ensures
        and_spec(a, or_spec(b, c)) == or_spec(and_spec(a, b), and_spec(a, c)),
        or_spec(a, and_spec(b, c)) == and_spec(or_spec(a, b), or_spec(a, c)),
{
}

/// Unknown is never made definite by combining it with Unknown, and on the
/// definite values AND and OR agree with Boolean logic.
pub proof fn lemma_agrees_with_boolean(a: bool, b: bool)
    ensures
        and_spec(from_bool(a), from_bool(b)) == from_bool(a && b),
        or_spec(from_bool(a), from_bool(b)) == from_bool(a || b),
        and_spec(Ternary::Unknown, Ternary::Unknown) == Ternary::Unknown,
        or_spec(Ternary::Unknown, Ternary::Unknown) == Ternary::Unknown,
{
}

/// The definite value of a Boolean.
pub open spec fn from_bool(b: bool) -> Ternary {
    if b {
        Ternary::True
    } else {
        Ternary::False
    }
}

} // verus!
