//! The value model: terms with positions.
//!
//! A [`RichTerm`] is a term with an optional source position. Terms are
//! shared: the term node sits behind a reference-counted pointer, so cloning a
//! term is cheap and yields the same value. The merge engine works on
//! evaluated terms; variants it does not handle (functions, operator
//! applications and the like) are opaque to it and make a merge fail.
//!
//! Numbers are represented exactly, as integers, and merged under exact
//! equality.

use std::rc::Rc;

use vstd::prelude::*;

use crate::ident::Ident;
use crate::label::{Label, MergeLabel};
use crate::position::TermPos;
use crate::record::{FieldMetadata, PendingContract, RecordData, TypeAnnotation};

verus! {

/// Relies on `Rc::clone`: the clone is a handle to the same shared
/// allocation, so it is the same value.
#[verifier::external_body]
pub fn rc_clone<T>(v: &Rc<T>) -> (res: Rc<T>)
    ensures
        res == *v,
{
    Rc::clone(v)
}

/// Distinguishes record operations that consider all fields from those that
/// skip optional fields without a definition.
#[derive(Clone, Copy, PartialEq, Eq, Structural, Debug)]
pub enum RecordOpKind {
    /// Operate on every field.
    ConsiderAllFields,
    /// Skip optional fields without a value.
    IgnoreEmptyOpt,
}

/// Does a record extension come with a value for the new field?
#[derive(Clone, Copy, PartialEq, Eq, Structural, Debug)]
pub enum RecordExtKind {
    /// The new field has a value.
    WithValue,
    /// The new field has no value.
    WithoutValue,
}

/// Unary primitive operations.
#[derive(Debug)]
pub enum UnaryOp {
    /// Conditional; the condition is the operand, the two branches follow as
    /// ordinary applications.
    IfThenElse,
    /// Type of a value, as a tag.
    Typeof,
    /// Boolean and, with a lazy second argument.
    BoolAnd,
    /// Boolean or, with a lazy second argument.
    BoolOr,
    /// Boolean negation.
    BoolNot,
    /// Raise a blame error from a label.
    Blame,
    /// Extend an enum type with a tag.
    EnumEmbed(Ident),
    /// Static record field access.
    RecordAccess(Ident),
    /// Map a function over an array.
    ArrayMap,
    /// Map a function over a record.
    RecordMap,
    /// Flip the polarity of a label.
    LabelFlipPol,
    /// Read the polarity of a label.
    LabelPol,
    /// Move a label to the domain of an arrow type.
    LabelGoDom,
    /// Move a label to the codomain of an arrow type.
    LabelGoCodom,
    /// Move a label to the element type of an array.
    LabelGoArray,
    /// Move a label to the value type of a dictionary.
    LabelGoDict,
    /// Force the evaluation of the operand before returning the second
    /// argument.
    SeqEval,
    /// Recursively force a value.
    DeepSeq,
    /// Length of an array.
    ArrayLength,
    /// Generate an array from a length and a function.
    ArrayGen,
    /// The field names of a record.
    RecordFields(RecordOpKind),
    /// The field values of a record.
    RecordValues,
    /// Trim whitespace from a string.
    StringTrim,
    /// The characters of a string, as an array.
    StringChars,
    /// Uppercase a string.
    StringUppercase,
    /// Lowercase a string.
    StringLowercase,
    /// Length of a string.
    StringLength,
    /// Convert a value to a string.
    ToString,
    /// Parse a number from a string.
    NumberFromString,
    /// Parse an enum tag from a string.
    EnumFromString,
    /// Test a string against a regular expression.
    StringIsMatch,
    /// Find the first match of a regular expression in a string.
    StringFind,
    /// Find all matches of a regular expression in a string.
    StringFindAll,
    /// Recursively force a value, optionally including fields not exported.
    Force {
        /// Skip fields marked as not exported.
        ignore_not_exported: bool,
    },
    /// An empty record with the tail of the operand record.
    RecordEmptyWithTail,
    /// Print a trace message and return the second argument.
    Trace,
    /// Push a diagnostic onto a label.
    LabelPushDiag,
    /// The argument of an enum variant.
    EnumGetArg,
    /// Build an enum variant from a tag string.
    EnumMakeVariant,
    /// Is the operand an enum variant with a given tag?
    EnumIsVariant,
    /// The tag of an enum variant.
    EnumGetTag,
    /// Wrap a function as a custom contract.
    ContractCustom,
    /// Inverse cosine.
    NumberArcCos,
    /// Inverse sine.
    NumberArcSin,
    /// Inverse tangent.
    NumberArcTan,
    /// Cosine.
    NumberCos,
    /// Sine.
    NumberSin,
    /// Tangent.
    NumberTan,
    /// Match only on enum tags; introduced by the evaluator, never present
    /// after parsing.
    TagsOnlyMatch,
    /// Concatenate string chunks; evaluator-only.
    ChunksConcat,
    /// Match against a compiled regular expression; evaluator-only.
    StringIsMatchCompiled,
    /// Find with a compiled regular expression; evaluator-only.
    StringFindCompiled,
    /// Find all with a compiled regular expression; evaluator-only.
    StringFindAllCompiled,
    /// Recursive default priority propagation; evaluator-only.
    RecDefault,
    /// Recursive force priority propagation; evaluator-only.
    RecForce,
    /// A compiled pattern branch; evaluator-only.
    PatternBranch,
    /// Post-process the result of a custom contract; evaluator-only.
    ContractPostprocessResult,
}

/// Binary primitive operations.
#[derive(Debug)]
pub enum BinaryOp {
    /// Addition.
    Plus,
    /// Subtraction.
    Sub,
    /// Multiplication.
    Mult,
    /// Division.
    Div,
    /// Modulo.
    Modulo,
    /// Two-argument inverse tangent.
    NumberArcTan2,
    /// Logarithm with a base.
    NumberLog,
    /// Exponentiation.
    Pow,
    /// String concatenation.
    StringConcat,
    /// Equality of values.
    Eq,
    /// Strictly less than.
    LessThan,
    /// Less than or equal.
    LessOrEq,
    /// Strictly greater than.
    GreaterThan,
    /// Greater than or equal.
    GreaterOrEq,
    /// Apply a contract to a value.
    ContractApply,
    /// Check a value against a contract.
    ContractCheck,
    /// Attach error data to a label.
    LabelWithErrorData,
    /// Move a label to a record field.
    LabelGoField,
    /// Insert a field into a record.
    RecordInsert {
        /// Metadata of the inserted field.
        metadata: FieldMetadata,
        /// Contracts pending on the inserted field.
        pending_contracts: Vec<PendingContract>,
        /// Does the insertion come with a value?
        ext_kind: RecordExtKind,
        /// Which fields the insertion considers.
        op_kind: RecordOpKind,
    },
    /// Remove a field from a record.
    RecordRemove(RecordOpKind),
    /// Dynamic record field access.
    RecordGet,
    /// Does a record have a field?
    RecordHasField(RecordOpKind),
    /// Does a record have a field with a definition?
    RecordFieldIsDefined(RecordOpKind),
    /// Split a record into a pair of records.
    RecordSplitPair,
    /// Merge two records with disjoint fields.
    RecordDisjointMerge,
    /// Concatenate two arrays.
    ArrayConcat,
    /// Index into an array.
    ArrayAt,
    /// Merge two values.
    Merge(MergeLabel),
    /// Hash a string.
    Hash,
    /// Serialize a value to a string.
    Serialize,
    /// Deserialize a string to a value.
    Deserialize,
    /// Split a string on a separator.
    StringSplit,
    /// Does a string contain a substring?
    StringContains,
    /// Compare two strings.
    StringCompare,
    /// Lazily apply a contract to each element of an array.
    ContractArrayLazyApp,
    /// Lazily apply a contract to each field of a record.
    ContractRecordLazyApp,
    /// Replace the diagnostic message of a label.
    LabelWithMessage,
    /// Replace the diagnostic notes of a label.
    LabelWithNotes,
    /// Append a note to a label.
    LabelAppendNote,
    /// Look up a type variable in a label.
    LabelLookupTypeVar,
    /// Remove a sealing key; evaluator-only.
    Unseal,
    /// Apply a sealing key; evaluator-only.
    Seal,
}

/// Primitive operations of three or more arguments.
#[derive(Clone, Copy, PartialEq, Eq, Structural, Debug)]
pub enum NAryOp {
    /// Replace a substring.
    StringReplace,
    /// Replace the matches of a regular expression.
    StringReplaceRegex,
    /// Substring between two indices.
    StringSubstr,
    /// Apply a record contract under a label.
    MergeContract,
    /// Seal the tail of a record.
    RecordSealTail,
    /// Unseal the tail of a record.
    RecordUnsealTail,
    /// Insert a type variable into a label.
    LabelInsertTypeVar,
    /// Slice of an array.
    ArraySlice,
}

/// Attributes of an array value.
#[derive(Clone, Copy, PartialEq, Eq, Structural, Debug)]
pub struct ArrayAttrs {
    /// Have the elements been closurized?
    pub closurized: bool,
}

impl ArrayAttrs {
    /// Attributes of a fresh array literal.
    pub fn new() -> (r: ArrayAttrs)
        ensures
            !r.closurized,
    {
        ArrayAttrs { closurized: false }
    }

    /// Mark the array as closurized.
    pub fn closurized(self) -> (r: ArrayAttrs)
        ensures
            r.closurized,
    {
        ArrayAttrs { closurized: true }
    }
}

/// A term of the language, as the evaluator sees it.
#[derive(Debug)]
pub enum Term {
    /// The null value.
    Null,
    /// A boolean.
    Bool(bool),
    /// A number, represented exactly.
    Num(i64),
    /// A string.
    Str(String),
    /// A label, as a first-class value.
    Lbl(Label),
    /// An enum tag.
    Enum(Ident),
    /// A variable.
    Var(Ident),
    /// A function.
    Fun(Ident, RichTerm),
    /// An application.
    App(RichTerm, RichTerm),
    /// An array with its attributes.
    Array(Vec<RichTerm>, ArrayAttrs),
    /// An evaluated record.
    Record(RecordData),
    /// A recursive record whose fields may refer to their siblings.
    RecRecord(RecordData),
    /// A unary primitive operation.
    Op1(UnaryOp, RichTerm),
    /// A binary primitive operation.
    Op2(BinaryOp, RichTerm, RichTerm),
    /// A primitive operation of three or more arguments.
    OpN(NAryOp, Vec<RichTerm>),
    /// An annotated term.
    Annotated(TypeAnnotation, RichTerm),
}

/// A term together with an optional source position.
#[derive(Debug)]
pub struct RichTerm {
    /// The term node, shared.
    pub term: Rc<Term>,
    /// The position of the term.
    pub pos: TermPos,
}

impl RichTerm {
    /// Pair a term with a position.
    pub fn new(t: Term, pos: TermPos) -> (r: RichTerm)
        ensures
            r.term == t,
            r.pos == pos,
    {
        RichTerm { term: Rc::new(t), pos }
    }

    /// Wrap a term with no position.
    pub fn from_term(t: Term) -> (r: RichTerm)
        ensures
            r.term == t,
            r.pos == TermPos::Unknown,
    {
        RichTerm { term: Rc::new(t), pos: TermPos::Unknown }
    }

    /// The same term at another position.
    pub fn with_pos(self, pos: TermPos) -> (r: RichTerm)
        ensures
            r.term == self.term,
            r.pos == pos,
    {
        RichTerm { term: self.term, pos }
    }
}

impl Clone for RichTerm {
    /// Cloning shares the term node: the clone is the same value.
    fn clone(&self) -> (r: Self)
        ensures
            r == *self,
    {
        RichTerm { term: rc_clone(&self.term), pos: self.pos }
    }
}

} // verus!
