//! Merge engine of a typed configuration language with first-class records.
//!
//! Records are combined by a recursive merge operator: fields present on one
//! side only are carried over, fields present on both sides are merged
//! recursively, with per-field priorities resolving collisions. Recursive
//! fields see overridden sibling values through a revertible value cache:
//! merging reverts and saturates the cached thunks so that recursive
//! references re-evaluate against the merged record. The same operator
//! applies record contracts to values.
//!
//! The crate is laid out leaves first: identifiers and insertion-ordered
//! maps, positions and labels, the term and record model, environments, the
//! recursive-value cache, the merge engine itself with its algebraic laws, a
//! small evaluator that forces merged records, and the primitive-operation
//! bridge to the surface syntax tree.

pub mod cache;
pub mod compat;
pub mod env;
pub mod error;
pub mod eval;
pub mod ident;
pub mod indexmap;
pub mod label;
pub mod laws;
pub mod merge;
pub mod position;
pub mod record;
pub mod term;
pub mod util;
