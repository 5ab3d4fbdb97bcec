//! The finite-field capability and the concrete field of order 7.
//!
//! A field element is kept as its canonical representative: the unique
//! integer in `[0, M)` congruent to it modulo the field's modulus `M`.

use vstd::prelude::*;
use crate::algebra::{Magma, Float, Zero, Conjugate};

verus! {

/// Capability a type must satisfy to serve as a field's inner representative:
/// the conjunction of the magma and numeric capabilities.
pub trait Field where Self: Sized + Magma + Float<Self> {
}

impl Magma for i8 {}

impl Float<i8> for i8 {}

impl Field for i8 {}

/// The generic finite-field interface over an inner representative type.
///
/// An element is canonical when its representative lies in `[0, m())`; every
/// operation below takes canonical operands to a canonical result.
pub trait Galois where Self: Sized {
    type Inner: Field;

    /// The field's modulus, fixed at the type level.
    spec fn m() -> int;

    /// The mathematical value of an inner representative.
    spec fn inner_int(v: Self::Inner) -> int;

    /// The representative this element stores.
    spec fn repr(self) -> int;

    /// The canonical representative of this element's multiplicative inverse.
    spec fn inv_spec(self) -> int;

    /// An element is canonical when it stores the least nonnegative residue.
    open spec fn canonical(self) -> bool {
        0 <= self.repr() < Self::m()
    }

    fn from(v: Self::Inner) -> (r: Self)
        ensures
            r.canonical(),
            r.repr() == Self::inner_int(v) % Self::m(),
    ;

    fn into(self) -> (r: Self::Inner)
        ensures
            Self::inner_int(r) == self.repr(),
    ;

    fn add(self, rhs: Self) -> (r: Self)
        requires
            self.canonical(),
            rhs.canonical(),
        ensures
            r.canonical(),
            r.repr() == (self.repr() + rhs.repr()) % Self::m(),
    ;

    fn sub(self, rhs: Self) -> (r: Self)
        requires
            self.canonical(),
            rhs.canonical(),
        ensures
            r.canonical(),
            r.repr() == (self.repr() - rhs.repr() + Self::m()) % Self::m(),
    ;

    fn mul(self, rhs: Self) -> (r: Self)
        requires
            self.canonical(),
            rhs.canonical(),
        ensures
            r.canonical(),
            r.repr() == (self.repr() * rhs.repr()) % Self::m(),
    ;

    fn div(self, rhs: Self) -> (r: Self)
        requires
            self.canonical(),
            rhs.canonical(),
            rhs.repr() != 0,
        ensures
            r.canonical(),
            r.repr() == (self.repr() * rhs.inv_spec()) % Self::m(),
    ;

    fn inv(self) -> (r: Self)
        requires
            self.canonical(),
            self.repr() != 0,
        ensures
            r.canonical(),
            r.repr() == self.inv_spec(),
            (self.repr() * r.repr()) % Self::m() == 1,
    ;
}

/// An element of GF(7), the prime field of order 7, stored as its canonical
/// representative in an 8-bit signed integer.
#[derive(Clone, Copy, PartialEq, Eq, Structural, Debug)]
pub struct GF7(i8);

impl Galois for GF7 {
    type Inner = i8;

    open spec fn m() -> int {
        7
    }

    open spec fn inner_int(v: i8) -> int {
        v as int
    }

    closed spec fn repr(self) -> int {
        self.0 as int
    }

    open spec fn inv_spec(self) -> int {
        inv7(self.repr())
    }

    /// Canonicalizing constructor: any raw representative is normalized to
    /// its least nonnegative residue, so a negative input is reduced upward
    /// (for example, a raw `-1` is stored as `6`) rather than rejected.
    fn from(v: i8) -> (r: GF7) {
        // 133 = 19 * 7 lifts every 8-bit value above zero without changing
        // its residue, so the remainder is taken of a nonnegative dividend.
        let shifted: i16 = (v as i16) + 133;
        let residue: u16 = (shifted as u16) % 7;
        proof {
            vstd::arithmetic::div_mod::lemma_mod_multiples_vanish(19, v as int, 7);
        }
        GF7(residue as i8)
    }

    fn into(self) -> (r: i8) {
        self.0
    }

    fn add(self, rhs: GF7) -> (r: GF7) {
        let sum: u16 = (self.0 as u16) + (rhs.0 as u16);
        let residue: u16 = sum % 7;
        GF7(residue as i8)
    }

    fn sub(self, rhs: GF7) -> (r: GF7) {
        // The shift by the modulus keeps the dividend positive: for canonical
        // operands the difference lies in (-7, 7), so the sum lies in (0, 14).
        let shifted: u16 = (self.0 - rhs.0 + 7) as u16;
        let residue: u16 = shifted % 7;
        GF7(residue as i8)
    }

    fn mul(self, rhs: GF7) -> (r: GF7) {
        let a: u16 = self.0 as u16;
        let b: u16 = rhs.0 as u16;
        proof {
            assert(a * b <= 36) by (nonlinear_arith)
                requires
                    a <= 6,
                    b <= 6,
            ;
        }
        let residue: u16 = (a * b) % 7;
        GF7(residue as i8)
    }

    fn div(self, rhs: GF7) -> (r: GF7) {
        self.mul(rhs.inv())
    }

    /// The multiplicative inverse, by the fixed lookup over the six units of
    /// the field; the zero element has no inverse and is excluded by the
    /// precondition.
    fn inv(self) -> (r: GF7) {
        if self.0 == 1 {
            GF7(1)
        } else if self.0 == 2 {
            GF7(4)
        } else if self.0 == 3 {
            GF7(5)
        } else if self.0 == 4 {
            GF7(2)
        } else if self.0 == 5 {
            GF7(3)
        } else {
            GF7(6)
        }
    }
}

/// The canonical representative of `a + b` in GF(7), for representatives
/// `a` and `b`.
pub open spec fn add7(a: int, b: int) -> int {
    (a + b) % 7
}

/// The canonical representative of `a - b` in GF(7); the shift by the modulus
/// keeps the dividend nonnegative for canonical operands.
pub open spec fn sub7(a: int, b: int) -> int {
    (a - b + 7) % 7
}

/// The canonical representative of `a * b` in GF(7).
pub open spec fn mul7(a: int, b: int) -> int {
    (a * b) % 7
}

/// The multiplicative-inverse table of GF(7) over the canonical nonzero
/// representatives; its value elsewhere is never relied upon.
pub open spec fn inv7(a: int) -> int {
    if a == 1 {
        1
    } else if a == 2 {
        4
    } else if a == 3 {
        5
    } else if a == 4 {
        2
    } else if a == 5 {
        3
    } else {
        6
    }
}

/// The canonical representative of `a / b` in GF(7): multiplication by the
/// inverse of `b`.
pub open spec fn div7(a: int, b: int) -> int {
    mul7(a, inv7(b))
}

/// The GF(7) element that stores the representative `r`; meaningful only for
/// `0 <= r < 7`.
pub closed spec fn elem7(r: int) -> GF7 {
    GF7(r as i8)
}

/// For a canonical representative `r`, `elem7(r)` is the canonical element
/// that stores it.
pub proof fn lemma_elem7_repr(r: int)
    requires
        0 <= r < 7,
    ensures
        elem7(r).repr() == r,
        elem7(r).canonical(),
{
}

impl GF7 {
    /// The additive inverse, defined as the zero element minus `self`, so the
    /// result is canonical by construction.
    pub fn neg(self) -> (r: GF7)
        requires
            self.canonical(),
        ensures
            r.canonical(),
            r.repr() == sub7(0, self.repr()),
    {
        GF7::zero().sub(self)
    }
}

impl Zero for GF7 {
    closed spec fn zero_spec() -> GF7 {
        GF7(0)
    }

    fn zero() -> (r: GF7) {
        GF7(0)
    }
}

/// The zero element of GF(7) stores the representative `0`.
pub proof fn lemma_zero_repr()
    ensures
        GF7::zero_spec().repr() == 0,
{
}

/// A GF(7) element is determined by its representative: equal representatives
/// mean equal elements.
pub proof fn lemma_repr_injective(a: GF7, b: GF7)
    requires
        a.repr() == b.repr(),
    ensures
        a == b,
{
}

impl Conjugate for GF7 {
    /// GF(7) is its own conjugate: it exposes no nontrivial automorphism.
    open spec fn conjugate_spec(self) -> GF7 {
        self
    }

    fn conjugate(self) -> (r: GF7) {
        self
    }
}

impl core::ops::Add<GF7> for GF7 {
    type Output = GF7;

    fn add(self, rhs: GF7) -> (r: GF7) {
        proof {
            lemma_elem7_repr(add7(self.repr(), rhs.repr()));
        }
        Galois::add(self, rhs)
    }
}

impl vstd::std_specs::ops::AddSpecImpl<GF7> for GF7 {
    open spec fn obeys_add_spec() -> bool {
        true
    }

    open spec fn add_req(self, rhs: GF7) -> bool {
        self.canonical() && rhs.canonical()
    }

    open spec fn add_spec(self, rhs: GF7) -> GF7 {
        elem7(add7(self.repr(), rhs.repr()))
    }
}

impl core::ops::Sub<GF7> for GF7 {
    type Output = GF7;

    fn sub(self, rhs: GF7) -> (r: GF7) {
        proof {
            lemma_elem7_repr(sub7(self.repr(), rhs.repr()));
        }
        Galois::sub(self, rhs)
    }
}

impl vstd::std_specs::ops::SubSpecImpl<GF7> for GF7 {
    open spec fn obeys_sub_spec() -> bool {
        true
    }

    open spec fn sub_req(self, rhs: GF7) -> bool {
        self.canonical() && rhs.canonical()
    }

    open spec fn sub_spec(self, rhs: GF7) -> GF7 {
        elem7(sub7(self.repr(), rhs.repr()))
    }
}

impl core::ops::Mul<GF7> for GF7 {
    type Output = GF7;

    fn mul(self, rhs: GF7) -> (r: GF7) {
        proof {
            lemma_elem7_repr(mul7(self.repr(), rhs.repr()));
        }
        Galois::mul(self, rhs)
    }
}

impl vstd::std_specs::ops::MulSpecImpl<GF7> for GF7 {
    open spec fn obeys_mul_spec() -> bool {
        true
    }

    open spec fn mul_req(self, rhs: GF7) -> bool {
        self.canonical() && rhs.canonical()
    }

    open spec fn mul_spec(self, rhs: GF7) -> GF7 {
        elem7(mul7(self.repr(), rhs.repr()))
    }
}

impl core::ops::Neg for GF7 {
    type Output = GF7;

    fn neg(self) -> (r: GF7) {
        proof {
            lemma_elem7_repr(sub7(0, self.repr()));
        }
        GF7::neg(self)
    }
}

impl vstd::std_specs::ops::NegSpecImpl for GF7 {
    open spec fn obeys_neg_spec() -> bool {
        true
    }

    open spec fn neg_req(self) -> bool {
        self.canonical()
    }

    open spec fn neg_spec(self) -> GF7 {
        elem7(sub7(0, self.repr()))
    }
}

} // verus!
