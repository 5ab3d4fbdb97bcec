//! The field laws of GF(7), stated over canonical representatives.
//!
//! Together with the contracts of `Galois::add`, `sub`, `mul`, `div`, `inv`
//! and `GF7::neg` — which pin each result's representative to `add7`, `sub7`,
//! `mul7`, `inv7` of the operands' representatives — these lemmas state the
//! laws of the executable operations themselves.

use vstd::prelude::*;
use vstd::arithmetic::div_mod::{
    lemma_add_mod_noop, lemma_add_mod_noop_right, lemma_mul_mod_noop_general, lemma_small_mod,
};
use vstd::arithmetic::mul::lemma_mul_is_associative;
use crate::galois::{add7, sub7, mul7, inv7, div7};

verus! {

/// Closure: addition, subtraction and multiplication of canonical
/// representatives yield a canonical representative.
pub proof fn lemma_closure(a: int, b: int)
    requires
        0 <= a < 7,
        0 <= b < 7,
    ensures
        0 <= add7(a, b) < 7,
        0 <= sub7(a, b) < 7,
        0 <= mul7(a, b) < 7,
{
}

/// Addition is commutative on canonical representatives.
pub proof fn lemma_add_commutative(a: int, b: int)
    requires
        0 <= a < 7,
        0 <= b < 7,
    ensures
        add7(a, b) == add7(b, a),
{
}

/// Multiplication is commutative on canonical representatives.
pub proof fn lemma_mul_commutative(a: int, b: int)
    requires
        0 <= a < 7,
        0 <= b < 7,
    ensures
        mul7(a, b) == mul7(b, a),
{
}

/// Addition is associative on canonical representatives.
pub proof fn lemma_add_associative(a: int, b: int, c: int)
    requires
        0 <= a < 7,
        0 <= b < 7,
        0 <= c < 7,
    ensures
        add7(add7(a, b), c) == add7(a, add7(b, c)),
{
    lemma_small_mod(a as nat, 7nat);
    lemma_small_mod(c as nat, 7nat);
    lemma_add_mod_noop(a + b, c, 7);
    lemma_add_mod_noop(a, b + c, 7);
}

/// Multiplication is associative on canonical representatives.
pub proof fn lemma_mul_associative(a: int, b: int, c: int)
    requires
        0 <= a < 7,
        0 <= b < 7,
        0 <= c < 7,
    ensures
        mul7(mul7(a, b), c) == mul7(a, mul7(b, c)),
{
    lemma_mul_mod_noop_general(a * b, c, 7);
    lemma_mul_mod_noop_general(a, b * c, 7);
    lemma_mul_is_associative(a, b, c);
}

/// The zero representative is the additive identity.
pub proof fn lemma_add_zero(a: int)
    requires
        0 <= a < 7,
    ensures
        add7(a, 0) == a,
{
    lemma_small_mod(a as nat, 7nat);
}

/// Every canonical representative has its additive inverse in `sub7(0, a)`,
/// the representative `GF7::neg` returns.
pub proof fn lemma_add_neg(a: int)
    requires
        0 <= a < 7,
    ensures
        add7(a, sub7(0, a)) == 0,
{
    lemma_add_mod_noop_right(a, 7 - a, 7);
}

/// Every nonzero canonical representative times its tabled inverse is one.
pub proof fn lemma_mul_inverse(a: int)
    requires
        1 <= a < 7,
    ensures
        mul7(a, inv7(a)) == 1,
{
}

/// The inverse table pairs each unit with its mutual inverse:
/// `(1,1), (2,4), (3,5), (4,2), (5,3), (6,6)`.
pub proof fn lemma_inverse_table()
    ensures
        inv7(1) == 1 && mul7(1, 1) == 1,
        inv7(2) == 4 && mul7(2, 4) == 1,
        inv7(3) == 5 && mul7(3, 5) == 1,
        inv7(4) == 2 && mul7(4, 2) == 1,
        inv7(5) == 3 && mul7(5, 3) == 1,
        inv7(6) == 6 && mul7(6, 6) == 1,
        forall|a: int| 1 <= a < 7 ==> inv7(#[trigger] inv7(a)) == a,
{
}

/// Division is multiplication by the inverse of the divisor.
pub proof fn lemma_div_consistent(a: int, b: int)
    requires
        0 <= a < 7,
        1 <= b < 7,
    ensures
        div7(a, b) == mul7(a, inv7(b)),
{
}

/// Division inverts multiplication: dividing by `b` then multiplying by `b`
/// gives back the dividend.
pub proof fn lemma_div_mul_cancel(a: int, b: int)
    requires
        0 <= a < 7,
        1 <= b < 7,
    ensures
        mul7(div7(a, b), b) == a,
{
    lemma_mul_inverse(b);
    lemma_mul_associative(a, inv7(b), b);
    lemma_mul_commutative(inv7(b), b);
    lemma_mul_mod_noop_general(a, inv7(b) * b, 7);
    lemma_small_mod(a as nat, 7nat);
}

} // verus!
