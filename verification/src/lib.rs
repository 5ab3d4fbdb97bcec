//! Finite-field (Galois-field) arithmetic: a generic field capability and a
//! concrete prime field of order 7 whose elements are kept as canonical
//! least-nonnegative residues.

pub mod algebra;
pub mod galois;
pub mod laws;
