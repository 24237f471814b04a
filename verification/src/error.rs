//! Evaluation errors raised by the merge engine.
//!
//! The error kinds form a closed union: structural mismatch, blame (contract
//! violation carrying a label), sealed-tail violation, unbound identifier, and
//! a reserved not-yet-implemented kind. The merge engine never recovers from
//! its own errors: they bubble up unchanged.

use vstd::prelude::*;

use crate::ident::Ident;
use crate::label::Label;
use crate::position::TermPos;
use crate::term::RichTerm;
use crate::util::copy_vec;

verus! {

/// The call stack of the evaluator, recorded for diagnostics.
#[derive(Debug)]
pub struct CallStack {
    /// Positions of the active calls.
    pub frames: Vec<TermPos>,
}

impl CallStack {
    /// The empty call stack.
    pub fn new() -> (r: CallStack)
        ensures
            r.frames@.len() == 0,
    {
        CallStack { frames: Vec::new() }
    }

    /// Move the frames out, leaving the stack empty.
    pub fn take(&mut self) -> (r: CallStack)
        ensures
            r.frames@ == old(self).frames@,
            final(self).frames@.len() == 0,
    {
        let mut taken = CallStack { frames: Vec::new() };
        core::mem::swap(&mut taken.frames, &mut self.frames);
        taken
    }
}

impl Clone for CallStack {
    /// The clone records the same frames.
    fn clone(&self) -> (r: Self)
        ensures
            r.frames@ == self.frames@,
    {
        CallStack { frames: copy_vec(&self.frames) }
    }
}

/// What was attempted on a sealed record tail.
#[derive(Clone, Copy, PartialEq, Eq, Structural, Debug)]
pub enum IllegalPolymorphicTailAction {
    /// The record was merged.
    Merge,
    /// A field of the sealed part was accessed.
    FieldAccess,
}

/// An error raised during evaluation.
#[derive(Debug)]
pub enum EvalError {
    /// Two values that cannot be merged: distinct atomic variants, or atomic
    /// values that fail the equality check. Carries both offending terms and
    /// the position of the merge operator.
    MergeIncompatibleArgs(RichTerm, RichTerm, TermPos),
    /// A contract violation, with the blaming label.
    BlameError {
        /// The label of the violated contract, carrying diagnostics.
        label: Label,
        /// The evaluated contract argument, when the cache holds one.
        evaluated_arg: Option<RichTerm>,
        /// The call stack at the point of blame.
        call_stack: CallStack,
    },
    /// A merge touched a record with a sealed polymorphic tail.
    IllegalPolymorphicTailAccess {
        /// What was attempted on the sealed tail.
        action: IllegalPolymorphicTailAction,
        /// The label of the sealing site.
        label: Label,
        /// The evaluated sealing argument, when the cache holds one.
        evaluated_arg: Option<RichTerm>,
        /// The call stack, taken over from the evaluator.
        call_stack: CallStack,
    },
    /// A variable that its environment does not bind.
    UnboundIdentifier(Ident, TermPos),
    /// A reserved path that is not implemented, such as non-empty array
    /// merge.
    NotImplemented(TermPos),
}

} // verus!
