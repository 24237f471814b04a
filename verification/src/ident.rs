//! Identifiers.
//!
//! An identifier is an abstract symbol: an index into the identifier table
//! owned by the evaluator state (see [`crate::cache`]). The table stores the
//! display name of each symbol; the merge engine itself compares symbols only.
//! Equality of symbols is the whole equality of identifiers, so `Ident` is a
//! small copyable value, cheap to store in terms and environments.

use vstd::prelude::*;

verus! {

/// An interned identifier: an index into the identifier table.
#[derive(Clone, Copy, PartialEq, Eq, Structural, Debug, Hash)]
pub struct Ident {
    /// Index of this identifier in the identifier table.
    pub sym: usize,
}

impl Ident {
    /// Build an identifier from a raw symbol index.
    pub fn from_sym(sym: usize) -> (r: Ident)
        ensures
            r.sym == sym,
    {
        Ident { sym }
    }
}

} // verus!
