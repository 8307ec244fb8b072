//! An information-flow-tracking container: a collection whose security
//! classification is carried as a type-level tag and enforced statically,
//! together with a capability token gating every read of `High`-classified
//! data.
//!
//! The [`lattice`] module holds the two-point security lattice — the `Level`
//! ordering, its `join`, and the type-level tags that mirror it — and the
//! proofs of the lattice laws. The [`flow_control`] module holds the tagged
//! value and container types and the witness-gated read.

pub mod flow_control;
pub mod lattice;
