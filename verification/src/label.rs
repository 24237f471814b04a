//! Labels: diagnostic context for contract failures.
//!
//! A label carries the blame polarity, the span of the contract annotation,
//! diagnostic messages and notes added along the way, and optionally the cache
//! index of the evaluated contract argument. Labels are builder-friendly: the
//! merge engine decorates a label with
//! [`Label::with_diagnostic_message`] and [`Label::with_diagnostic_notes`]
//! and returns it inside a blame error.

use std::rc::Rc;

use vstd::prelude::*;

use crate::position::TermPos;

verus! {

/// Diagnostic context attached to a contract check.
#[derive(Debug)]
pub struct Label {
    /// Span of the contract annotation this label comes from.
    pub span: TermPos,
    /// Blame polarity: `true` blames the checked value, `false` the context.
    pub polarity: bool,
    /// User-facing diagnostic message, if one was attached.
    pub diag_message: Option<String>,
    /// User-facing diagnostic notes, if any were attached. The list is
    /// shared: labels are copied around freely.
    pub diag_notes: Rc<Vec<String>>,
    /// Cache index of the evaluated contract argument, when known.
    pub arg_idx: Option<usize>,
}

/// Do two optional strings hold the same text?
pub open spec fn opt_string_sim(a: Option<String>, b: Option<String>) -> bool {
    match (a, b) {
        (Option::None, Option::None) => true,
        (Option::Some(x), Option::Some(y)) => x@ == y@,
        _ => false,
    }
}

/// Do two note lists hold the same texts, in the same order?
pub open spec fn notes_sim(a: Seq<String>, b: Seq<String>) -> bool {
    a.len() == b.len() && forall|i: int| 0 <= i < a.len() ==> a[i]@ == b[i]@
}

/// Are two labels the same, comparing the text of messages and notes?
pub open spec fn label_sim(a: Label, b: Label) -> bool {
    a.span == b.span && a.polarity == b.polarity && opt_string_sim(a.diag_message, b.diag_message)
        && notes_sim(a.diag_notes@, b.diag_notes@) && a.arg_idx == b.arg_idx
}

impl Label {
    /// A fresh label for a contract annotation at `span`, blaming the value.
    pub fn new(span: TermPos) -> (r: Label)
        ensures
            r.span == span,
            r.polarity,
            r.diag_message is None,
            r.diag_notes@.len() == 0,
            r.arg_idx is None,
    {
        Label {
            span,
            polarity: true,
            diag_message: None,
            diag_notes: Rc::new(Vec::new()),
            arg_idx: None,
        }
    }

    /// Attach a user-facing diagnostic message, replacing any previous one.
    pub fn with_diagnostic_message(self, message: String) -> (r: Label)
        ensures
            r.span == self.span,
            r.polarity == self.polarity,
            r.diag_message == Some(message),
            r.diag_notes == self.diag_notes,
            r.arg_idx == self.arg_idx,
    {
        Label { diag_message: Some(message), ..self }
    }

    /// Attach user-facing diagnostic notes, replacing any previous ones.
    pub fn with_diagnostic_notes(self, notes: Vec<String>) -> (r: Label)
        ensures
            r.span == self.span,
            r.polarity == self.polarity,
            r.diag_message == self.diag_message,
            r.diag_notes == notes,
            r.arg_idx == self.arg_idx,
    {
        Label { diag_notes: Rc::new(notes), ..self }
    }
}

impl Clone for Label {
    /// The clone is the same label.
    fn clone(&self) -> (r: Self)
        ensures
            r == *self,
    {
        Label {
            span: self.span,
            polarity: self.polarity,
            diag_message: match &self.diag_message {
                None => None,
                Some(m) => Some(m.clone()),
            },
            diag_notes: crate::term::rc_clone(&self.diag_notes),
            arg_idx: self.arg_idx,
        }
    }
}

/// Equality of labels, comparing message and note text.
pub fn label_eq(a: &Label, b: &Label) -> (r: bool)
    ensures
        r == label_sim(*a, *b),
{
    if !(a.span == b.span) {
        return false;
    }
    if a.polarity != b.polarity {
        return false;
    }
    let msg_eq = match (&a.diag_message, &b.diag_message) {
        (Option::None, Option::None) => true,
        (Option::Some(x), Option::Some(y)) => x.eq(y),
        _ => false,
    };
    if !msg_eq {
        return false;
    }
    let idx_eq = match (a.arg_idx, b.arg_idx) {
        (Option::None, Option::None) => true,
        (Option::Some(x), Option::Some(y)) => x == y,
        _ => false,
    };
    if !idx_eq {
        return false;
    }
    let an: &Vec<String> = &*a.diag_notes;
    let bn: &Vec<String> = &*b.diag_notes;
    if an.len() != bn.len() {
        return false;
    }
    let mut i: usize = 0;
    while i < an.len()
        invariant
            i <= an@.len(),
            an@ == a.diag_notes@,
            bn@ == b.diag_notes@,
            an@.len() == bn@.len(),
            forall|j: int| 0 <= j < i ==> an@[j]@ == bn@[j]@,
        decreases an@.len() - i,
    {
        let same = an[i].eq(&bn[i]);
        if !same {
            return false;
        }
        i = i + 1;
    }
    true
}

/// The kind of a merge operation, carried by merge labels.
#[derive(Clone, Copy, PartialEq, Eq, Structural, Debug)]
pub enum MergeKind {
    /// A merge written by the user with the merge operator.
    Standard,
    /// A merge generated from several definitions of one field.
    PiecewiseDefinition,
}

/// The label attached to a merge primitive operation.
#[derive(Clone, Copy, PartialEq, Eq, Structural, Debug)]
pub struct MergeLabel {
    /// Span of the whole merge expression.
    pub span: TermPos,
    /// What kind of merge this label belongs to.
    pub kind: MergeKind,
}

} // verus!
