//! Fixed-length, homogeneous sequences with structural transforms.
//!
//! A [`sequence::FixedSequence`] holds exactly `N` elements, where `N` is a
//! property of the type. The transforms — `append`, `prepend`, `pop_back`,
//! `pop_front`, `split` and `concat` — consume their input sequence(s) wholesale
//! and produce differently-shaped output sequence(s) built from exactly the
//! same elements, in the same relative order. Length relationships between
//! input and output (`N + 1`, `N - 1`, `K + (N - K)`, `N + M`) are established
//! statically at each call site; no transform has an observable runtime error.
//!
//! The module [`laws`] states and proves the structural laws that the
//! transforms obey: invertibility of grow/shrink and of split/concat, order
//! preservation, element conservation, and the boundary behaviour of split and
//! concat on empty parts.

pub mod laws;
pub mod sequence;
