//! Source positions.
//!
//! Every value carries an optional source span. A span is either `Original`
//! (the value sits at that place in the source) or `Inherited` (the value was
//! produced by an operation whose result inherits the operation's span, as
//! merge results do).

use vstd::prelude::*;

verus! {

/// A span in some source file.
#[derive(Clone, Copy, PartialEq, Eq, Structural, Debug)]
pub struct RawSpan {
    /// Identifier of the source file.
    pub src_id: usize,
    /// Byte offset of the start of the span.
    pub start: usize,
    /// Byte offset of the end of the span.
    pub end: usize,
}

/// An optional position, tagged with how it was obtained.
#[derive(Clone, Copy, PartialEq, Eq, Structural, Debug)]
pub enum TermPos {
    /// No known position.
    Unknown,
    /// The position of the value itself in the source.
    Original(RawSpan),
    /// A position inherited from the operation that produced the value.
    Inherited(RawSpan),
}

impl TermPos {
    /// The same span, marked as inherited.
    pub open spec fn spec_into_inherited(self) -> TermPos {
        match self {
            TermPos::Unknown => TermPos::Unknown,
            TermPos::Original(s) => TermPos::Inherited(s),
            TermPos::Inherited(s) => TermPos::Inherited(s),
        }
    }

    /// Turn the position into an inherited one, keeping the span.
    pub fn into_inherited(self) -> (r: TermPos)
        ensures
            r == self.spec_into_inherited(),
    {
        match self {
            TermPos::Unknown => TermPos::Unknown,
            TermPos::Original(s) => TermPos::Inherited(s),
            TermPos::Inherited(s) => TermPos::Inherited(s),
        }
    }
}

} // verus!
