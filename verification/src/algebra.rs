//! Capability traits the surrounding algebraic framework expects: a closed
//! binary combination (magma), a numeric-representative marker, an additive
//! identity, and a conjugation operation.

use vstd::prelude::*;

verus! {

/// Marker capability: the type carries a closed binary combination operation.
/// Structural requirement only; no operation of it is invoked here.
pub trait Magma {}

/// Marker capability: the type is an acceptable numeric representative kind
/// for the framework, with `T` the representative it stands for.
pub trait Float<T> {}

/// Additive-identity capability: the type exposes a distinguished zero value.
pub trait Zero where Self: Sized {
    /// The zero value, as a specification-level constant.
    spec fn zero_spec() -> Self;

    fn zero() -> (r: Self)
        ensures
            r == Self::zero_spec(),
    ;
}

/// Conjugation capability: an involutive structure-preserving operation, for
/// structures built atop field elements.
pub trait Conjugate where Self: Sized {
    /// What conjugation returns, as a specification-level function.
    spec fn conjugate_spec(self) -> Self;

    fn conjugate(self) -> (r: Self)
        ensures
            r == self.conjugate_spec(),
    ;
}

} // verus!
