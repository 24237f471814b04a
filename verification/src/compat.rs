//! The bridge between the surface syntax tree and the evaluator's term
//! representation, for primitive operations.
//!
//! The evaluator keeps one tagged operation type per arity family
//! ([`UnaryOp`], [`BinaryOp`], [`NAryOp`]); the surface syntax tree keeps a
//! single unified enumeration, [`AstPrimOp`]. The lowering between the two is
//! total except for a small set of evaluator-only operations that must never
//! appear before evaluation; converting those is ruled out by the
//! precondition of [`FromMainline::from_mainline`].
//!
//! The bridge also canonicalises argument order: array indexing and string
//! containment swap their operands, and the substring operation rotates
//! (string, start, end) into (start, end, string). A binary merge carries a
//! label whose span is known only when the enclosing node is materialised;
//! [`RichTerm::patch_merge_label_span`] patches it afterwards.

use std::rc::Rc;

use vstd::prelude::*;

use crate::ident::Ident;
use crate::label::{MergeKind, MergeLabel};
use crate::position::TermPos;
use crate::record::FieldMetadata;
use crate::term::{
    rc_clone, BinaryOp, NAryOp, RecordExtKind, RecordOpKind, RichTerm, Term, UnaryOp,
};

verus! {

/// The single unified primitive-operation enumeration of the surface
/// syntax tree, covering every arity.
#[derive(Debug)]
pub enum AstPrimOp {
    /// See the evaluator-side operation of the same name.
    Typeof,
    /// See the evaluator-side operation of the same name.
    BoolAnd,
    /// See the evaluator-side operation of the same name.
    BoolOr,
    /// See the evaluator-side operation of the same name.
    BoolNot,
    /// See the evaluator-side operation of the same name.
    Blame,
    /// See the evaluator-side operation of the same name.
    EnumEmbed(Ident),
    /// See the evaluator-side operation of the same name.
    RecordStatAccess(Ident),
    /// See the evaluator-side operation of the same name.
    ArrayMap,
    /// See the evaluator-side operation of the same name.
    RecordMap,
    /// See the evaluator-side operation of the same name.
    LabelFlipPol,
    /// See the evaluator-side operation of the same name.
    LabelPol,
    /// See the evaluator-side operation of the same name.
    LabelGoDom,
    /// See the evaluator-side operation of the same name.
    LabelGoCodom,
    /// See the evaluator-side operation of the same name.
    LabelGoArray,
    /// See the evaluator-side operation of the same name.
    LabelGoDict,
    /// See the evaluator-side operation of the same name.
    SeqEval,
    /// See the evaluator-side operation of the same name.
    DeepSeq,
    /// See the evaluator-side operation of the same name.
    ArrayLength,
    /// See the evaluator-side operation of the same name.
    ArrayGen,
    /// See the evaluator-side operation of the same name.
    RecordFields(RecordOpKind),
    /// See the evaluator-side operation of the same name.
    RecordValues,
    /// See the evaluator-side operation of the same name.
    StringTrim,
    /// See the evaluator-side operation of the same name.
    StringChars,
    /// See the evaluator-side operation of the same name.
    StringUppercase,
    /// See the evaluator-side operation of the same name.
    StringLowercase,
    /// See the evaluator-side operation of the same name.
    StringLength,
    /// See the evaluator-side operation of the same name.
    ToString,
    /// See the evaluator-side operation of the same name.
    NumberFromString,
    /// See the evaluator-side operation of the same name.
    EnumFromString,
    /// See the evaluator-side operation of the same name.
    StringIsMatch,
    /// See the evaluator-side operation of the same name.
    StringFind,
    /// See the evaluator-side operation of the same name.
    StringFindAll,
    /// See the evaluator-side operation of the same name.
    Force{ ignore_not_exported: bool },
    /// See the evaluator-side operation of the same name.
    RecordEmptyWithTail,
    /// See the evaluator-side operation of the same name.
    Trace,
    /// See the evaluator-side operation of the same name.
    LabelPushDiag,
    /// See the evaluator-side operation of the same name.
    EnumGetArg,
    /// See the evaluator-side operation of the same name.
    EnumMakeVariant,
    /// See the evaluator-side operation of the same name.
    EnumIsVariant,
    /// See the evaluator-side operation of the same name.
    EnumGetTag,
    /// See the evaluator-side operation of the same name.
    ContractCustom,
    /// See the evaluator-side operation of the same name.
    NumberArcCos,
    /// See the evaluator-side operation of the same name.
    NumberArcSin,
    /// See the evaluator-side operation of the same name.
    NumberArcTan,
    /// See the evaluator-side operation of the same name.
    NumberCos,
    /// See the evaluator-side operation of the same name.
    NumberSin,
    /// See the evaluator-side operation of the same name.
    NumberTan,
    /// See the evaluator-side operation of the same name.
    Plus,
    /// See the evaluator-side operation of the same name.
    Sub,
    /// See the evaluator-side operation of the same name.
    Mult,
    /// See the evaluator-side operation of the same name.
    Div,
    /// See the evaluator-side operation of the same name.
    Modulo,
    /// See the evaluator-side operation of the same name.
    NumberArcTan2,
    /// See the evaluator-side operation of the same name.
    NumberLog,
    /// See the evaluator-side operation of the same name.
    Pow,
    /// See the evaluator-side operation of the same name.
    StringConcat,
    /// See the evaluator-side operation of the same name.
    Eq,
    /// See the evaluator-side operation of the same name.
    LessThan,
    /// See the evaluator-side operation of the same name.
    LessOrEq,
    /// See the evaluator-side operation of the same name.
    GreaterThan,
    /// See the evaluator-side operation of the same name.
    GreaterOrEq,
    /// See the evaluator-side operation of the same name.
    ContractApply,
    /// See the evaluator-side operation of the same name.
    ContractCheck,
    /// See the evaluator-side operation of the same name.
    LabelWithErrorData,
    /// See the evaluator-side operation of the same name.
    LabelGoField,
    /// See the evaluator-side operation of the same name.
    RecordRemove(RecordOpKind),
    /// See the evaluator-side operation of the same name.
    RecordGet,
    /// See the evaluator-side operation of the same name.
    RecordHasField(RecordOpKind),
    /// See the evaluator-side operation of the same name.
    RecordFieldIsDefined(RecordOpKind),
    /// See the evaluator-side operation of the same name.
    RecordSplitPair,
    /// See the evaluator-side operation of the same name.
    RecordDisjointMerge,
    /// See the evaluator-side operation of the same name.
    ArrayConcat,
    /// See the evaluator-side operation of the same name.
    ArrayAt,
    /// See the evaluator-side operation of the same name.
    Hash,
    /// See the evaluator-side operation of the same name.
    Serialize,
    /// See the evaluator-side operation of the same name.
    Deserialize,
    /// See the evaluator-side operation of the same name.
    StringSplit,
    /// See the evaluator-side operation of the same name.
    StringContains,
    /// See the evaluator-side operation of the same name.
    StringCompare,
    /// See the evaluator-side operation of the same name.
    ContractArrayLazyApp,
    /// See the evaluator-side operation of the same name.
    ContractRecordLazyApp,
    /// See the evaluator-side operation of the same name.
    LabelWithMessage,
    /// See the evaluator-side operation of the same name.
    LabelWithNotes,
    /// See the evaluator-side operation of the same name.
    LabelAppendNote,
    /// See the evaluator-side operation of the same name.
    LabelLookupTypeVar,
    /// See the evaluator-side operation of the same name.
    RecordInsert(RecordOpKind),
    /// See the evaluator-side operation of the same name.
    Merge(MergeKind),
    /// See the evaluator-side operation of the same name.
    StringReplace,
    /// See the evaluator-side operation of the same name.
    StringReplaceRegex,
    /// See the evaluator-side operation of the same name.
    StringSubstr,
    /// See the evaluator-side operation of the same name.
    MergeContract,
    /// See the evaluator-side operation of the same name.
    RecordSealTail,
    /// See the evaluator-side operation of the same name.
    RecordUnsealTail,
    /// See the evaluator-side operation of the same name.
    LabelInsertTypeVar,
    /// See the evaluator-side operation of the same name.
    ArraySlice,
}

/// One type covering the evaluator-side operations of every arity, the
/// target of lowering a unified operation back to the evaluator.
#[derive(Debug)]
pub enum TermPrimOp {
    /// A unary operation.
    Unary(UnaryOp),
    /// A binary operation.
    Binary(BinaryOp),
    /// An operation of three or more arguments.
    NAry(NAryOp),
}

/// Field metadata with nothing in it: no documentation, no annotation, not
/// optional, exported, at the default priority.
pub open spec fn metadata_is_empty(m: FieldMetadata) -> bool {
    &&& m.doc is None
    &&& m.annotation.typ is None
    &&& m.annotation.contracts@.len() == 0
    &&& !m.opt
    &&& !m.not_exported
    &&& m.priority == crate::record::MergePriority::Neutral(0)
}

/// The unified operation a unary evaluator operation lowers to. Only
/// meaningful for operations that may appear before evaluation (see
/// [`unary_op_at_parse_stage`]).
pub open spec fn ast_of_unary(op: UnaryOp) -> AstPrimOp {
    match op {
        UnaryOp::Typeof => AstPrimOp::Typeof,
        UnaryOp::BoolAnd => AstPrimOp::BoolAnd,
        UnaryOp::BoolOr => AstPrimOp::BoolOr,
        UnaryOp::BoolNot => AstPrimOp::BoolNot,
        UnaryOp::Blame => AstPrimOp::Blame,
        UnaryOp::EnumEmbed(i) => AstPrimOp::EnumEmbed(i),
        UnaryOp::RecordAccess(i) => AstPrimOp::RecordStatAccess(i),
        UnaryOp::ArrayMap => AstPrimOp::ArrayMap,
        UnaryOp::RecordMap => AstPrimOp::RecordMap,
        UnaryOp::LabelFlipPol => AstPrimOp::LabelFlipPol,
        UnaryOp::LabelPol => AstPrimOp::LabelPol,
        UnaryOp::LabelGoDom => AstPrimOp::LabelGoDom,
        UnaryOp::LabelGoCodom => AstPrimOp::LabelGoCodom,
        UnaryOp::LabelGoArray => AstPrimOp::LabelGoArray,
        UnaryOp::LabelGoDict => AstPrimOp::LabelGoDict,
        UnaryOp::SeqEval => AstPrimOp::SeqEval,
        UnaryOp::DeepSeq => AstPrimOp::DeepSeq,
        UnaryOp::ArrayLength => AstPrimOp::ArrayLength,
        UnaryOp::ArrayGen => AstPrimOp::ArrayGen,
        UnaryOp::RecordFields(k) => AstPrimOp::RecordFields(k),
        UnaryOp::RecordValues => AstPrimOp::RecordValues,
        UnaryOp::StringTrim => AstPrimOp::StringTrim,
        UnaryOp::StringChars => AstPrimOp::StringChars,
        UnaryOp::StringUppercase => AstPrimOp::StringUppercase,
        UnaryOp::StringLowercase => AstPrimOp::StringLowercase,
        UnaryOp::StringLength => AstPrimOp::StringLength,
        UnaryOp::ToString => AstPrimOp::ToString,
        UnaryOp::NumberFromString => AstPrimOp::NumberFromString,
        UnaryOp::EnumFromString => AstPrimOp::EnumFromString,
        UnaryOp::StringIsMatch => AstPrimOp::StringIsMatch,
        UnaryOp::StringFind => AstPrimOp::StringFind,
        UnaryOp::StringFindAll => AstPrimOp::StringFindAll,
        UnaryOp::Force { ignore_not_exported } => AstPrimOp::Force { ignore_not_exported },
        UnaryOp::RecordEmptyWithTail => AstPrimOp::RecordEmptyWithTail,
        UnaryOp::Trace => AstPrimOp::Trace,
        UnaryOp::LabelPushDiag => AstPrimOp::LabelPushDiag,
        UnaryOp::EnumGetArg => AstPrimOp::EnumGetArg,
        UnaryOp::EnumMakeVariant => AstPrimOp::EnumMakeVariant,
        UnaryOp::EnumIsVariant => AstPrimOp::EnumIsVariant,
        UnaryOp::EnumGetTag => AstPrimOp::EnumGetTag,
        UnaryOp::ContractCustom => AstPrimOp::ContractCustom,
        UnaryOp::NumberArcCos => AstPrimOp::NumberArcCos,
        UnaryOp::NumberArcSin => AstPrimOp::NumberArcSin,
        UnaryOp::NumberArcTan => AstPrimOp::NumberArcTan,
        UnaryOp::NumberCos => AstPrimOp::NumberCos,
        UnaryOp::NumberSin => AstPrimOp::NumberSin,
        UnaryOp::NumberTan => AstPrimOp::NumberTan,
        UnaryOp::IfThenElse => AstPrimOp::Typeof,
        UnaryOp::TagsOnlyMatch => AstPrimOp::Typeof,
        UnaryOp::ChunksConcat => AstPrimOp::Typeof,
        UnaryOp::StringIsMatchCompiled => AstPrimOp::Typeof,
        UnaryOp::StringFindCompiled => AstPrimOp::Typeof,
        UnaryOp::StringFindAllCompiled => AstPrimOp::Typeof,
        UnaryOp::RecDefault => AstPrimOp::Typeof,
        UnaryOp::RecForce => AstPrimOp::Typeof,
        UnaryOp::PatternBranch => AstPrimOp::Typeof,
        UnaryOp::ContractPostprocessResult => AstPrimOp::Typeof,
    }
}

/// May the unary operation appear before evaluation? The conditional is
/// special-cased by the bridge, and a handful of operations are introduced
/// by the evaluator only: their presence at the parsing boundary is a bug.
pub open spec fn unary_op_at_parse_stage(op: UnaryOp) -> bool {
    match op {
        UnaryOp::IfThenElse => false,
        UnaryOp::TagsOnlyMatch => false,
        UnaryOp::ChunksConcat => false,
        UnaryOp::StringIsMatchCompiled => false,
        UnaryOp::StringFindCompiled => false,
        UnaryOp::StringFindAllCompiled => false,
        UnaryOp::RecDefault => false,
        UnaryOp::RecForce => false,
        UnaryOp::PatternBranch => false,
        UnaryOp::ContractPostprocessResult => false,
        _ => true,
    }
}

/// The unified operation a binary evaluator operation lowers to. Only
/// meaningful for operations that may appear before evaluation.
pub open spec fn ast_of_binary(op: BinaryOp) -> AstPrimOp {
    match op {
        BinaryOp::Plus => AstPrimOp::Plus,
        BinaryOp::Sub => AstPrimOp::Sub,
        BinaryOp::Mult => AstPrimOp::Mult,
        BinaryOp::Div => AstPrimOp::Div,
        BinaryOp::Modulo => AstPrimOp::Modulo,
        BinaryOp::NumberArcTan2 => AstPrimOp::NumberArcTan2,
        BinaryOp::NumberLog => AstPrimOp::NumberLog,
        BinaryOp::Pow => AstPrimOp::Pow,
        BinaryOp::StringConcat => AstPrimOp::StringConcat,
        BinaryOp::Eq => AstPrimOp::Eq,
        BinaryOp::LessThan => AstPrimOp::LessThan,
        BinaryOp::LessOrEq => AstPrimOp::LessOrEq,
        BinaryOp::GreaterThan => AstPrimOp::GreaterThan,
        BinaryOp::GreaterOrEq => AstPrimOp::GreaterOrEq,
        BinaryOp::ContractApply => AstPrimOp::ContractApply,
        BinaryOp::ContractCheck => AstPrimOp::ContractCheck,
        BinaryOp::LabelWithErrorData => AstPrimOp::LabelWithErrorData,
        BinaryOp::LabelGoField => AstPrimOp::LabelGoField,
        BinaryOp::RecordRemove(k) => AstPrimOp::RecordRemove(k),
        BinaryOp::RecordGet => AstPrimOp::RecordGet,
        BinaryOp::RecordHasField(k) => AstPrimOp::RecordHasField(k),
        BinaryOp::RecordFieldIsDefined(k) => AstPrimOp::RecordFieldIsDefined(k),
        BinaryOp::RecordSplitPair => AstPrimOp::RecordSplitPair,
        BinaryOp::RecordDisjointMerge => AstPrimOp::RecordDisjointMerge,
        BinaryOp::ArrayConcat => AstPrimOp::ArrayConcat,
        BinaryOp::ArrayAt => AstPrimOp::ArrayAt,
        BinaryOp::Hash => AstPrimOp::Hash,
        BinaryOp::Serialize => AstPrimOp::Serialize,
        BinaryOp::Deserialize => AstPrimOp::Deserialize,
        BinaryOp::StringSplit => AstPrimOp::StringSplit,
        BinaryOp::StringContains => AstPrimOp::StringContains,
        BinaryOp::StringCompare => AstPrimOp::StringCompare,
        BinaryOp::ContractArrayLazyApp => AstPrimOp::ContractArrayLazyApp,
        BinaryOp::ContractRecordLazyApp => AstPrimOp::ContractRecordLazyApp,
        BinaryOp::LabelWithMessage => AstPrimOp::LabelWithMessage,
        BinaryOp::LabelWithNotes => AstPrimOp::LabelWithNotes,
        BinaryOp::LabelAppendNote => AstPrimOp::LabelAppendNote,
        BinaryOp::LabelLookupTypeVar => AstPrimOp::LabelLookupTypeVar,
        BinaryOp::RecordInsert { op_kind, .. } => AstPrimOp::RecordInsert(op_kind),
        BinaryOp::Merge(ml) => AstPrimOp::Merge(ml.kind),
        BinaryOp::Unseal => AstPrimOp::Typeof,
        BinaryOp::Seal => AstPrimOp::Typeof,
    }
}

/// May the binary operation appear before evaluation? Sealing operations are
/// evaluator-only, and a record insertion coming from the source language
/// carries no metadata, no pending contracts, and a value.
pub open spec fn binary_op_at_parse_stage(op: BinaryOp) -> bool {
    match op {
        BinaryOp::Unseal => false,
        BinaryOp::Seal => false,
        BinaryOp::RecordInsert { metadata, pending_contracts, ext_kind, op_kind: _ } => {
            metadata_is_empty(metadata) && pending_contracts@.len() == 0 && ext_kind
                == RecordExtKind::WithValue
        },
        _ => true,
    }
}

/// The unified operation an operation of three or more arguments lowers to;
/// this family is total.
pub open spec fn ast_of_nary(op: NAryOp) -> AstPrimOp {
    match op {
        NAryOp::StringReplace => AstPrimOp::StringReplace,
        NAryOp::StringReplaceRegex => AstPrimOp::StringReplaceRegex,
        NAryOp::StringSubstr => AstPrimOp::StringSubstr,
        NAryOp::MergeContract => AstPrimOp::MergeContract,
        NAryOp::RecordSealTail => AstPrimOp::RecordSealTail,
        NAryOp::RecordUnsealTail => AstPrimOp::RecordUnsealTail,
        NAryOp::LabelInsertTypeVar => AstPrimOp::LabelInsertTypeVar,
        NAryOp::ArraySlice => AstPrimOp::ArraySlice,
    }
}

/// Does the evaluator-side operation `r` lower the unified operation `op`?
/// Total: every unified operation has an evaluator form. A record insertion
/// is rebuilt with empty metadata, no pending contracts and a value; a merge
/// is rebuilt under a label with an unknown span, patched later by
/// [`RichTerm::patch_merge_label_span`].
pub open spec fn term_op_of_ast_ok(op: AstPrimOp, r: TermPrimOp) -> bool {
    match op {
        AstPrimOp::Typeof => r == TermPrimOp::Unary(UnaryOp::Typeof),
        AstPrimOp::BoolAnd => r == TermPrimOp::Unary(UnaryOp::BoolAnd),
        AstPrimOp::BoolOr => r == TermPrimOp::Unary(UnaryOp::BoolOr),
        AstPrimOp::BoolNot => r == TermPrimOp::Unary(UnaryOp::BoolNot),
        AstPrimOp::Blame => r == TermPrimOp::Unary(UnaryOp::Blame),
        AstPrimOp::EnumEmbed(x) => r == TermPrimOp::Unary(UnaryOp::EnumEmbed(x)),
        AstPrimOp::RecordStatAccess(x) => r == TermPrimOp::Unary(UnaryOp::RecordAccess(x)),
        AstPrimOp::ArrayMap => r == TermPrimOp::Unary(UnaryOp::ArrayMap),
        AstPrimOp::RecordMap => r == TermPrimOp::Unary(UnaryOp::RecordMap),
        AstPrimOp::LabelFlipPol => r == TermPrimOp::Unary(UnaryOp::LabelFlipPol),
        AstPrimOp::LabelPol => r == TermPrimOp::Unary(UnaryOp::LabelPol),
        AstPrimOp::LabelGoDom => r == TermPrimOp::Unary(UnaryOp::LabelGoDom),
        AstPrimOp::LabelGoCodom => r == TermPrimOp::Unary(UnaryOp::LabelGoCodom),
        AstPrimOp::LabelGoArray => r == TermPrimOp::Unary(UnaryOp::LabelGoArray),
        AstPrimOp::LabelGoDict => r == TermPrimOp::Unary(UnaryOp::LabelGoDict),
        AstPrimOp::SeqEval => r == TermPrimOp::Unary(UnaryOp::SeqEval),
        AstPrimOp::DeepSeq => r == TermPrimOp::Unary(UnaryOp::DeepSeq),
        AstPrimOp::ArrayLength => r == TermPrimOp::Unary(UnaryOp::ArrayLength),
        AstPrimOp::ArrayGen => r == TermPrimOp::Unary(UnaryOp::ArrayGen),
        AstPrimOp::RecordFields(x) => r == TermPrimOp::Unary(UnaryOp::RecordFields(x)),
        AstPrimOp::RecordValues => r == TermPrimOp::Unary(UnaryOp::RecordValues),
        AstPrimOp::StringTrim => r == TermPrimOp::Unary(UnaryOp::StringTrim),
        AstPrimOp::StringChars => r == TermPrimOp::Unary(UnaryOp::StringChars),
        AstPrimOp::StringUppercase => r == TermPrimOp::Unary(UnaryOp::StringUppercase),
        AstPrimOp::StringLowercase => r == TermPrimOp::Unary(UnaryOp::StringLowercase),
        AstPrimOp::StringLength => r == TermPrimOp::Unary(UnaryOp::StringLength),
        AstPrimOp::ToString => r == TermPrimOp::Unary(UnaryOp::ToString),
        AstPrimOp::NumberFromString => r == TermPrimOp::Unary(UnaryOp::NumberFromString),
        AstPrimOp::EnumFromString => r == TermPrimOp::Unary(UnaryOp::EnumFromString),
        AstPrimOp::StringIsMatch => r == TermPrimOp::Unary(UnaryOp::StringIsMatch),
        AstPrimOp::StringFind => r == TermPrimOp::Unary(UnaryOp::StringFind),
        AstPrimOp::StringFindAll => r == TermPrimOp::Unary(UnaryOp::StringFindAll),
        AstPrimOp::Force { ignore_not_exported } => r == TermPrimOp::Unary(UnaryOp::Force { ignore_not_exported }),
        AstPrimOp::RecordEmptyWithTail => r == TermPrimOp::Unary(UnaryOp::RecordEmptyWithTail),
        AstPrimOp::Trace => r == TermPrimOp::Unary(UnaryOp::Trace),
        AstPrimOp::LabelPushDiag => r == TermPrimOp::Unary(UnaryOp::LabelPushDiag),
        AstPrimOp::EnumGetArg => r == TermPrimOp::Unary(UnaryOp::EnumGetArg),
        AstPrimOp::EnumMakeVariant => r == TermPrimOp::Unary(UnaryOp::EnumMakeVariant),
        AstPrimOp::EnumIsVariant => r == TermPrimOp::Unary(UnaryOp::EnumIsVariant),
        AstPrimOp::EnumGetTag => r == TermPrimOp::Unary(UnaryOp::EnumGetTag),
        AstPrimOp::ContractCustom => r == TermPrimOp::Unary(UnaryOp::ContractCustom),
        AstPrimOp::NumberArcCos => r == TermPrimOp::Unary(UnaryOp::NumberArcCos),
        AstPrimOp::NumberArcSin => r == TermPrimOp::Unary(UnaryOp::NumberArcSin),
        AstPrimOp::NumberArcTan => r == TermPrimOp::Unary(UnaryOp::NumberArcTan),
        AstPrimOp::NumberCos => r == TermPrimOp::Unary(UnaryOp::NumberCos),
        AstPrimOp::NumberSin => r == TermPrimOp::Unary(UnaryOp::NumberSin),
        AstPrimOp::NumberTan => r == TermPrimOp::Unary(UnaryOp::NumberTan),
        AstPrimOp::Plus => r == TermPrimOp::Binary(BinaryOp::Plus),
        AstPrimOp::Sub => r == TermPrimOp::Binary(BinaryOp::Sub),
        AstPrimOp::Mult => r == TermPrimOp::Binary(BinaryOp::Mult),
        AstPrimOp::Div => r == TermPrimOp::Binary(BinaryOp::Div),
        AstPrimOp::Modulo => r == TermPrimOp::Binary(BinaryOp::Modulo),
        AstPrimOp::NumberArcTan2 => r == TermPrimOp::Binary(BinaryOp::NumberArcTan2),
        AstPrimOp::NumberLog => r == TermPrimOp::Binary(BinaryOp::NumberLog),
        AstPrimOp::Pow => r == TermPrimOp::Binary(BinaryOp::Pow),
        AstPrimOp::StringConcat => r == TermPrimOp::Binary(BinaryOp::StringConcat),
        AstPrimOp::Eq => r == TermPrimOp::Binary(BinaryOp::Eq),
        AstPrimOp::LessThan => r == TermPrimOp::Binary(BinaryOp::LessThan),
        AstPrimOp::LessOrEq => r == TermPrimOp::Binary(BinaryOp::LessOrEq),
        AstPrimOp::GreaterThan => r == TermPrimOp::Binary(BinaryOp::GreaterThan),
        AstPrimOp::GreaterOrEq => r == TermPrimOp::Binary(BinaryOp::GreaterOrEq),
        AstPrimOp::ContractApply => r == TermPrimOp::Binary(BinaryOp::ContractApply),
        AstPrimOp::ContractCheck => r == TermPrimOp::Binary(BinaryOp::ContractCheck),
        AstPrimOp::LabelWithErrorData => r == TermPrimOp::Binary(BinaryOp::LabelWithErrorData),
        AstPrimOp::LabelGoField => r == TermPrimOp::Binary(BinaryOp::LabelGoField),
        AstPrimOp::RecordRemove(x) => r == TermPrimOp::Binary(BinaryOp::RecordRemove(x)),
        AstPrimOp::RecordGet => r == TermPrimOp::Binary(BinaryOp::RecordGet),
        AstPrimOp::RecordHasField(x) => r == TermPrimOp::Binary(BinaryOp::RecordHasField(x)),
        AstPrimOp::RecordFieldIsDefined(x) => r == TermPrimOp::Binary(BinaryOp::RecordFieldIsDefined(x)),
        AstPrimOp::RecordSplitPair => r == TermPrimOp::Binary(BinaryOp::RecordSplitPair),
        AstPrimOp::RecordDisjointMerge => r == TermPrimOp::Binary(BinaryOp::RecordDisjointMerge),
        AstPrimOp::ArrayConcat => r == TermPrimOp::Binary(BinaryOp::ArrayConcat),
        AstPrimOp::ArrayAt => r == TermPrimOp::Binary(BinaryOp::ArrayAt),
        AstPrimOp::Hash => r == TermPrimOp::Binary(BinaryOp::Hash),
        AstPrimOp::Serialize => r == TermPrimOp::Binary(BinaryOp::Serialize),
        AstPrimOp::Deserialize => r == TermPrimOp::Binary(BinaryOp::Deserialize),
        AstPrimOp::StringSplit => r == TermPrimOp::Binary(BinaryOp::StringSplit),
        AstPrimOp::StringContains => r == TermPrimOp::Binary(BinaryOp::StringContains),
        AstPrimOp::StringCompare => r == TermPrimOp::Binary(BinaryOp::StringCompare),
        AstPrimOp::ContractArrayLazyApp => r == TermPrimOp::Binary(BinaryOp::ContractArrayLazyApp),
        AstPrimOp::ContractRecordLazyApp => r == TermPrimOp::Binary(BinaryOp::ContractRecordLazyApp),
        AstPrimOp::LabelWithMessage => r == TermPrimOp::Binary(BinaryOp::LabelWithMessage),
        AstPrimOp::LabelWithNotes => r == TermPrimOp::Binary(BinaryOp::LabelWithNotes),
        AstPrimOp::LabelAppendNote => r == TermPrimOp::Binary(BinaryOp::LabelAppendNote),
        AstPrimOp::LabelLookupTypeVar => r == TermPrimOp::Binary(BinaryOp::LabelLookupTypeVar),
        AstPrimOp::RecordInsert(x) => match r {
            TermPrimOp::Binary(b) => match b {
                BinaryOp::RecordInsert { metadata, pending_contracts, ext_kind, op_kind } => metadata_is_empty(metadata) && pending_contracts@.len() == 0 && ext_kind == RecordExtKind::WithValue && op_kind == x,
                _ => false,
            },
            _ => false,
        },
        AstPrimOp::Merge(x) => match r {
            TermPrimOp::Binary(b) => match b {
                BinaryOp::Merge(ml) => ml.kind == x && ml.span == TermPos::Unknown,
                _ => false,
            },
            _ => false,
        },
        AstPrimOp::StringReplace => r == TermPrimOp::NAry(NAryOp::StringReplace),
        AstPrimOp::StringReplaceRegex => r == TermPrimOp::NAry(NAryOp::StringReplaceRegex),
        AstPrimOp::StringSubstr => r == TermPrimOp::NAry(NAryOp::StringSubstr),
        AstPrimOp::MergeContract => r == TermPrimOp::NAry(NAryOp::MergeContract),
        AstPrimOp::RecordSealTail => r == TermPrimOp::NAry(NAryOp::RecordSealTail),
        AstPrimOp::RecordUnsealTail => r == TermPrimOp::NAry(NAryOp::RecordUnsealTail),
        AstPrimOp::LabelInsertTypeVar => r == TermPrimOp::NAry(NAryOp::LabelInsertTypeVar),
        AstPrimOp::ArraySlice => r == TermPrimOp::NAry(NAryOp::ArraySlice),
    }
}

/// Convert from the evaluator representation to the surface syntax tree
/// representation.
pub trait FromMainline<T>: Sized {
    /// Which evaluator values the conversion accepts.
    spec fn mainline_ok(m: T) -> bool;

    /// The converted value.
    spec fn from_mainline_spec(m: T) -> Self;

    /// Convert an accepted evaluator value.
    fn from_mainline(m: &T) -> (r: Self)
        requires
            Self::mainline_ok(*m),
        ensures
            r == Self::from_mainline_spec(*m),
    ;
}

/// Symmetric to [`FromMainline`], as `Into` is to `From`.
pub trait ToAst<T> {
    /// Which evaluator values the conversion accepts.
    spec fn ast_ok(&self) -> bool;

    /// The converted value.
    spec fn to_ast_spec(&self) -> T;

    /// Convert an accepted evaluator value.
    fn to_ast(&self) -> (r: T)
        requires
            self.ast_ok(),
        ensures
            r == self.to_ast_spec(),
    ;
}

/// Convert from the surface syntax tree representation to the evaluator
/// representation; this direction is total.
pub trait FromAst<T>: Sized {
    /// Does `r` convert `ast`?
    spec fn from_ast_ok(ast: T, r: Self) -> bool;

    /// Convert a syntax-tree value.
    fn from_ast(ast: &T) -> (r: Self)
        ensures
            Self::from_ast_ok(*ast, r),
    ;
}

/// Symmetric to [`FromAst`], as `Into` is to `From`.
pub trait ToMainline<T> {
    /// Does `r` convert `self`?
    spec fn to_mainline_ok(&self, r: T) -> bool;

    /// Convert a syntax-tree value.
    fn to_mainline(&self) -> (r: T)
        ensures
            self.to_mainline_ok(r),
    ;
}

impl FromMainline<UnaryOp> for AstPrimOp {
    open spec fn mainline_ok(m: UnaryOp) -> bool {
        unary_op_at_parse_stage(m)
    }

    open spec fn from_mainline_spec(m: UnaryOp) -> AstPrimOp {
        ast_of_unary(m)
    }

    fn from_mainline(m: &UnaryOp) -> (r: AstPrimOp) {
        match m {
        UnaryOp::Typeof => AstPrimOp::Typeof,
        UnaryOp::BoolAnd => AstPrimOp::BoolAnd,
        UnaryOp::BoolOr => AstPrimOp::BoolOr,
        UnaryOp::BoolNot => AstPrimOp::BoolNot,
        UnaryOp::Blame => AstPrimOp::Blame,
        UnaryOp::EnumEmbed(i) => AstPrimOp::EnumEmbed(*i),
        UnaryOp::RecordAccess(i) => AstPrimOp::RecordStatAccess(*i),
        UnaryOp::ArrayMap => AstPrimOp::ArrayMap,
        UnaryOp::RecordMap => AstPrimOp::RecordMap,
        UnaryOp::LabelFlipPol => AstPrimOp::LabelFlipPol,
        UnaryOp::LabelPol => AstPrimOp::LabelPol,
        UnaryOp::LabelGoDom => AstPrimOp::LabelGoDom,
        UnaryOp::LabelGoCodom => AstPrimOp::LabelGoCodom,
        UnaryOp::LabelGoArray => AstPrimOp::LabelGoArray,
        UnaryOp::LabelGoDict => AstPrimOp::LabelGoDict,
        UnaryOp::SeqEval => AstPrimOp::SeqEval,
        UnaryOp::DeepSeq => AstPrimOp::DeepSeq,
        UnaryOp::ArrayLength => AstPrimOp::ArrayLength,
        UnaryOp::ArrayGen => AstPrimOp::ArrayGen,
        UnaryOp::RecordFields(k) => AstPrimOp::RecordFields(*k),
        UnaryOp::RecordValues => AstPrimOp::RecordValues,
        UnaryOp::StringTrim => AstPrimOp::StringTrim,
        UnaryOp::StringChars => AstPrimOp::StringChars,
        UnaryOp::StringUppercase => AstPrimOp::StringUppercase,
        UnaryOp::StringLowercase => AstPrimOp::StringLowercase,
        UnaryOp::StringLength => AstPrimOp::StringLength,
        UnaryOp::ToString => AstPrimOp::ToString,
        UnaryOp::NumberFromString => AstPrimOp::NumberFromString,
        UnaryOp::EnumFromString => AstPrimOp::EnumFromString,
        UnaryOp::StringIsMatch => AstPrimOp::StringIsMatch,
        UnaryOp::StringFind => AstPrimOp::StringFind,
        UnaryOp::StringFindAll => AstPrimOp::StringFindAll,
        UnaryOp::Force { ignore_not_exported } => AstPrimOp::Force { ignore_not_exported: *ignore_not_exported },
        UnaryOp::RecordEmptyWithTail => AstPrimOp::RecordEmptyWithTail,
        UnaryOp::Trace => AstPrimOp::Trace,
        UnaryOp::LabelPushDiag => AstPrimOp::LabelPushDiag,
        UnaryOp::EnumGetArg => AstPrimOp::EnumGetArg,
        UnaryOp::EnumMakeVariant => AstPrimOp::EnumMakeVariant,
        UnaryOp::EnumIsVariant => AstPrimOp::EnumIsVariant,
        UnaryOp::EnumGetTag => AstPrimOp::EnumGetTag,
        UnaryOp::ContractCustom => AstPrimOp::ContractCustom,
        UnaryOp::NumberArcCos => AstPrimOp::NumberArcCos,
        UnaryOp::NumberArcSin => AstPrimOp::NumberArcSin,
        UnaryOp::NumberArcTan => AstPrimOp::NumberArcTan,
        UnaryOp::NumberCos => AstPrimOp::NumberCos,
        UnaryOp::NumberSin => AstPrimOp::NumberSin,
        UnaryOp::NumberTan => AstPrimOp::NumberTan,
            _ => {
                proof {
                    assert(false);
                }
                AstPrimOp::Typeof
            },
        }
    }
}

impl FromMainline<BinaryOp> for AstPrimOp {
    open spec fn mainline_ok(m: BinaryOp) -> bool {
        binary_op_at_parse_stage(m)
    }

    open spec fn from_mainline_spec(m: BinaryOp) -> AstPrimOp {
        ast_of_binary(m)
    }

    fn from_mainline(m: &BinaryOp) -> (r: AstPrimOp) {
        match m {
        BinaryOp::Plus => AstPrimOp::Plus,
        BinaryOp::Sub => AstPrimOp::Sub,
        BinaryOp::Mult => AstPrimOp::Mult,
        BinaryOp::Div => AstPrimOp::Div,
        BinaryOp::Modulo => AstPrimOp::Modulo,
        BinaryOp::NumberArcTan2 => AstPrimOp::NumberArcTan2,
        BinaryOp::NumberLog => AstPrimOp::NumberLog,
        BinaryOp::Pow => AstPrimOp::Pow,
        BinaryOp::StringConcat => AstPrimOp::StringConcat,
        BinaryOp::Eq => AstPrimOp::Eq,
        BinaryOp::LessThan => AstPrimOp::LessThan,
        BinaryOp::LessOrEq => AstPrimOp::LessOrEq,
        BinaryOp::GreaterThan => AstPrimOp::GreaterThan,
        BinaryOp::GreaterOrEq => AstPrimOp::GreaterOrEq,
        BinaryOp::ContractApply => AstPrimOp::ContractApply,
        BinaryOp::ContractCheck => AstPrimOp::ContractCheck,
        BinaryOp::LabelWithErrorData => AstPrimOp::LabelWithErrorData,
        BinaryOp::LabelGoField => AstPrimOp::LabelGoField,
        BinaryOp::RecordRemove(k) => AstPrimOp::RecordRemove(*k),
        BinaryOp::RecordGet => AstPrimOp::RecordGet,
        BinaryOp::RecordHasField(k) => AstPrimOp::RecordHasField(*k),
        BinaryOp::RecordFieldIsDefined(k) => AstPrimOp::RecordFieldIsDefined(*k),
        BinaryOp::RecordSplitPair => AstPrimOp::RecordSplitPair,
        BinaryOp::RecordDisjointMerge => AstPrimOp::RecordDisjointMerge,
        BinaryOp::ArrayConcat => AstPrimOp::ArrayConcat,
        BinaryOp::ArrayAt => AstPrimOp::ArrayAt,
        BinaryOp::Hash => AstPrimOp::Hash,
        BinaryOp::Serialize => AstPrimOp::Serialize,
        BinaryOp::Deserialize => AstPrimOp::Deserialize,
        BinaryOp::StringSplit => AstPrimOp::StringSplit,
        BinaryOp::StringContains => AstPrimOp::StringContains,
        BinaryOp::StringCompare => AstPrimOp::StringCompare,
        BinaryOp::ContractArrayLazyApp => AstPrimOp::ContractArrayLazyApp,
        BinaryOp::ContractRecordLazyApp => AstPrimOp::ContractRecordLazyApp,
        BinaryOp::LabelWithMessage => AstPrimOp::LabelWithMessage,
        BinaryOp::LabelWithNotes => AstPrimOp::LabelWithNotes,
        BinaryOp::LabelAppendNote => AstPrimOp::LabelAppendNote,
        BinaryOp::LabelLookupTypeVar => AstPrimOp::LabelLookupTypeVar,
        BinaryOp::RecordInsert { op_kind, .. } => AstPrimOp::RecordInsert(*op_kind),
        BinaryOp::Merge(ml) => AstPrimOp::Merge(ml.kind),
            _ => {
                proof {
                    assert(false);
                }
                AstPrimOp::Typeof
            },
        }
    }
}

impl FromMainline<NAryOp> for AstPrimOp {
    open spec fn mainline_ok(m: NAryOp) -> bool {
        true
    }

    open spec fn from_mainline_spec(m: NAryOp) -> AstPrimOp {
        ast_of_nary(m)
    }

    fn from_mainline(m: &NAryOp) -> (r: AstPrimOp) {
        match m {
        NAryOp::StringReplace => AstPrimOp::StringReplace,
        NAryOp::StringReplaceRegex => AstPrimOp::StringReplaceRegex,
        NAryOp::StringSubstr => AstPrimOp::StringSubstr,
        NAryOp::MergeContract => AstPrimOp::MergeContract,
        NAryOp::RecordSealTail => AstPrimOp::RecordSealTail,
        NAryOp::RecordUnsealTail => AstPrimOp::RecordUnsealTail,
        NAryOp::LabelInsertTypeVar => AstPrimOp::LabelInsertTypeVar,
        NAryOp::ArraySlice => AstPrimOp::ArraySlice,
        }
    }
}

impl ToAst<AstPrimOp> for UnaryOp {
    open spec fn ast_ok(&self) -> bool {
        unary_op_at_parse_stage(*self)
    }

    open spec fn to_ast_spec(&self) -> AstPrimOp {
        ast_of_unary(*self)
    }

    fn to_ast(&self) -> (r: AstPrimOp) {
        AstPrimOp::from_mainline(self)
    }
}

impl ToAst<AstPrimOp> for BinaryOp {
    open spec fn ast_ok(&self) -> bool {
        binary_op_at_parse_stage(*self)
    }

    open spec fn to_ast_spec(&self) -> AstPrimOp {
        ast_of_binary(*self)
    }

    fn to_ast(&self) -> (r: AstPrimOp) {
        AstPrimOp::from_mainline(self)
    }
}

impl ToAst<AstPrimOp> for NAryOp {
    open spec fn ast_ok(&self) -> bool {
        true
    }

    open spec fn to_ast_spec(&self) -> AstPrimOp {
        ast_of_nary(*self)
    }

    fn to_ast(&self) -> (r: AstPrimOp) {
        AstPrimOp::from_mainline(self)
    }
}

impl FromAst<AstPrimOp> for TermPrimOp {
    open spec fn from_ast_ok(ast: AstPrimOp, r: TermPrimOp) -> bool {
        term_op_of_ast_ok(ast, r)
    }

    fn from_ast(ast: &AstPrimOp) -> (r: TermPrimOp) {
        match ast {
        AstPrimOp::Typeof => TermPrimOp::Unary(UnaryOp::Typeof),
        AstPrimOp::BoolAnd => TermPrimOp::Unary(UnaryOp::BoolAnd),
        AstPrimOp::BoolOr => TermPrimOp::Unary(UnaryOp::BoolOr),
        AstPrimOp::BoolNot => TermPrimOp::Unary(UnaryOp::BoolNot),
        AstPrimOp::Blame => TermPrimOp::Unary(UnaryOp::Blame),
        AstPrimOp::EnumEmbed(x) => TermPrimOp::Unary(UnaryOp::EnumEmbed(*x)),
        AstPrimOp::RecordStatAccess(x) => TermPrimOp::Unary(UnaryOp::RecordAccess(*x)),
        AstPrimOp::ArrayMap => TermPrimOp::Unary(UnaryOp::ArrayMap),
        AstPrimOp::RecordMap => TermPrimOp::Unary(UnaryOp::RecordMap),
        AstPrimOp::LabelFlipPol => TermPrimOp::Unary(UnaryOp::LabelFlipPol),
        AstPrimOp::LabelPol => TermPrimOp::Unary(UnaryOp::LabelPol),
        AstPrimOp::LabelGoDom => TermPrimOp::Unary(UnaryOp::LabelGoDom),
        AstPrimOp::LabelGoCodom => TermPrimOp::Unary(UnaryOp::LabelGoCodom),
        AstPrimOp::LabelGoArray => TermPrimOp::Unary(UnaryOp::LabelGoArray),
        AstPrimOp::LabelGoDict => TermPrimOp::Unary(UnaryOp::LabelGoDict),
        AstPrimOp::SeqEval => TermPrimOp::Unary(UnaryOp::SeqEval),
        AstPrimOp::DeepSeq => TermPrimOp::Unary(UnaryOp::DeepSeq),
        AstPrimOp::ArrayLength => TermPrimOp::Unary(UnaryOp::ArrayLength),
        AstPrimOp::ArrayGen => TermPrimOp::Unary(UnaryOp::ArrayGen),
        AstPrimOp::RecordFields(x) => TermPrimOp::Unary(UnaryOp::RecordFields(*x)),
        AstPrimOp::RecordValues => TermPrimOp::Unary(UnaryOp::RecordValues),
        AstPrimOp::StringTrim => TermPrimOp::Unary(UnaryOp::StringTrim),
        AstPrimOp::StringChars => TermPrimOp::Unary(UnaryOp::StringChars),
        AstPrimOp::StringUppercase => TermPrimOp::Unary(UnaryOp::StringUppercase),
        AstPrimOp::StringLowercase => TermPrimOp::Unary(UnaryOp::StringLowercase),
        AstPrimOp::StringLength => TermPrimOp::Unary(UnaryOp::StringLength),
        AstPrimOp::ToString => TermPrimOp::Unary(UnaryOp::ToString),
        AstPrimOp::NumberFromString => TermPrimOp::Unary(UnaryOp::NumberFromString),
        AstPrimOp::EnumFromString => TermPrimOp::Unary(UnaryOp::EnumFromString),
        AstPrimOp::StringIsMatch => TermPrimOp::Unary(UnaryOp::StringIsMatch),
        AstPrimOp::StringFind => TermPrimOp::Unary(UnaryOp::StringFind),
        AstPrimOp::StringFindAll => TermPrimOp::Unary(UnaryOp::StringFindAll),
        AstPrimOp::Force { ignore_not_exported } => TermPrimOp::Unary(UnaryOp::Force { ignore_not_exported: *ignore_not_exported }),
        AstPrimOp::RecordEmptyWithTail => TermPrimOp::Unary(UnaryOp::RecordEmptyWithTail),
        AstPrimOp::Trace => TermPrimOp::Unary(UnaryOp::Trace),
        AstPrimOp::LabelPushDiag => TermPrimOp::Unary(UnaryOp::LabelPushDiag),
        AstPrimOp::EnumGetArg => TermPrimOp::Unary(UnaryOp::EnumGetArg),
        AstPrimOp::EnumMakeVariant => TermPrimOp::Unary(UnaryOp::EnumMakeVariant),
        AstPrimOp::EnumIsVariant => TermPrimOp::Unary(UnaryOp::EnumIsVariant),
        AstPrimOp::EnumGetTag => TermPrimOp::Unary(UnaryOp::EnumGetTag),
        AstPrimOp::ContractCustom => TermPrimOp::Unary(UnaryOp::ContractCustom),
        AstPrimOp::NumberArcCos => TermPrimOp::Unary(UnaryOp::NumberArcCos),
        AstPrimOp::NumberArcSin => TermPrimOp::Unary(UnaryOp::NumberArcSin),
        AstPrimOp::NumberArcTan => TermPrimOp::Unary(UnaryOp::NumberArcTan),
        AstPrimOp::NumberCos => TermPrimOp::Unary(UnaryOp::NumberCos),
        AstPrimOp::NumberSin => TermPrimOp::Unary(UnaryOp::NumberSin),
        AstPrimOp::NumberTan => TermPrimOp::Unary(UnaryOp::NumberTan),
        AstPrimOp::Plus => TermPrimOp::Binary(BinaryOp::Plus),
        AstPrimOp::Sub => TermPrimOp::Binary(BinaryOp::Sub),
        AstPrimOp::Mult => TermPrimOp::Binary(BinaryOp::Mult),
        AstPrimOp::Div => TermPrimOp::Binary(BinaryOp::Div),
        AstPrimOp::Modulo => TermPrimOp::Binary(BinaryOp::Modulo),
        AstPrimOp::NumberArcTan2 => TermPrimOp::Binary(BinaryOp::NumberArcTan2),
        AstPrimOp::NumberLog => TermPrimOp::Binary(BinaryOp::NumberLog),
        AstPrimOp::Pow => TermPrimOp::Binary(BinaryOp::Pow),
        AstPrimOp::StringConcat => TermPrimOp::Binary(BinaryOp::StringConcat),
        AstPrimOp::Eq => TermPrimOp::Binary(BinaryOp::Eq),
        AstPrimOp::LessThan => TermPrimOp::Binary(BinaryOp::LessThan),
        AstPrimOp::LessOrEq => TermPrimOp::Binary(BinaryOp::LessOrEq),
        AstPrimOp::GreaterThan => TermPrimOp::Binary(BinaryOp::GreaterThan),
        AstPrimOp::GreaterOrEq => TermPrimOp::Binary(BinaryOp::GreaterOrEq),
        AstPrimOp::ContractApply => TermPrimOp::Binary(BinaryOp::ContractApply),
        AstPrimOp::ContractCheck => TermPrimOp::Binary(BinaryOp::ContractCheck),
        AstPrimOp::LabelWithErrorData => TermPrimOp::Binary(BinaryOp::LabelWithErrorData),
        AstPrimOp::LabelGoField => TermPrimOp::Binary(BinaryOp::LabelGoField),
        AstPrimOp::RecordRemove(x) => TermPrimOp::Binary(BinaryOp::RecordRemove(*x)),
        AstPrimOp::RecordGet => TermPrimOp::Binary(BinaryOp::RecordGet),
        AstPrimOp::RecordHasField(x) => TermPrimOp::Binary(BinaryOp::RecordHasField(*x)),
        AstPrimOp::RecordFieldIsDefined(x) => TermPrimOp::Binary(BinaryOp::RecordFieldIsDefined(*x)),
        AstPrimOp::RecordSplitPair => TermPrimOp::Binary(BinaryOp::RecordSplitPair),
        AstPrimOp::RecordDisjointMerge => TermPrimOp::Binary(BinaryOp::RecordDisjointMerge),
        AstPrimOp::ArrayConcat => TermPrimOp::Binary(BinaryOp::ArrayConcat),
        AstPrimOp::ArrayAt => TermPrimOp::Binary(BinaryOp::ArrayAt),
        AstPrimOp::Hash => TermPrimOp::Binary(BinaryOp::Hash),
        AstPrimOp::Serialize => TermPrimOp::Binary(BinaryOp::Serialize),
        AstPrimOp::Deserialize => TermPrimOp::Binary(BinaryOp::Deserialize),
        AstPrimOp::StringSplit => TermPrimOp::Binary(BinaryOp::StringSplit),
        AstPrimOp::StringContains => TermPrimOp::Binary(BinaryOp::StringContains),
        AstPrimOp::StringCompare => TermPrimOp::Binary(BinaryOp::StringCompare),
        AstPrimOp::ContractArrayLazyApp => TermPrimOp::Binary(BinaryOp::ContractArrayLazyApp),
        AstPrimOp::ContractRecordLazyApp => TermPrimOp::Binary(BinaryOp::ContractRecordLazyApp),
        AstPrimOp::LabelWithMessage => TermPrimOp::Binary(BinaryOp::LabelWithMessage),
        AstPrimOp::LabelWithNotes => TermPrimOp::Binary(BinaryOp::LabelWithNotes),
        AstPrimOp::LabelAppendNote => TermPrimOp::Binary(BinaryOp::LabelAppendNote),
        AstPrimOp::LabelLookupTypeVar => TermPrimOp::Binary(BinaryOp::LabelLookupTypeVar),
        AstPrimOp::RecordInsert(x) => TermPrimOp::Binary(BinaryOp::RecordInsert {
            metadata: FieldMetadata::empty(),
            pending_contracts: Vec::new(),
            ext_kind: RecordExtKind::WithValue,
            op_kind: *x,
        }),
        AstPrimOp::Merge(x) => TermPrimOp::Binary(BinaryOp::Merge(MergeLabel { span: TermPos::Unknown, kind: *x })),
        AstPrimOp::StringReplace => TermPrimOp::NAry(NAryOp::StringReplace),
        AstPrimOp::StringReplaceRegex => TermPrimOp::NAry(NAryOp::StringReplaceRegex),
        AstPrimOp::StringSubstr => TermPrimOp::NAry(NAryOp::StringSubstr),
        AstPrimOp::MergeContract => TermPrimOp::NAry(NAryOp::MergeContract),
        AstPrimOp::RecordSealTail => TermPrimOp::NAry(NAryOp::RecordSealTail),
        AstPrimOp::RecordUnsealTail => TermPrimOp::NAry(NAryOp::RecordUnsealTail),
        AstPrimOp::LabelInsertTypeVar => TermPrimOp::NAry(NAryOp::LabelInsertTypeVar),
        AstPrimOp::ArraySlice => TermPrimOp::NAry(NAryOp::ArraySlice),
        }
    }
}

impl ToMainline<TermPrimOp> for AstPrimOp {
    open spec fn to_mainline_ok(&self, r: TermPrimOp) -> bool {
        term_op_of_ast_ok(*self, r)
    }

    fn to_mainline(&self) -> (r: TermPrimOp) {
        TermPrimOp::from_ast(self)
    }
}

/// Is the unified operation one whose two operands the bridge swaps? Array
/// indexing and string containment have historical operand order on the
/// evaluator side; the syntax tree follows the standard library order.
pub open spec fn binary_args_swapped(op: AstPrimOp) -> bool {
    match op {
        AstPrimOp::ArrayAt => true,
        AstPrimOp::StringContains => true,
        _ => false,
    }
}

/// Canonicalise the operand order of a binary operation when lowering from
/// the evaluator representation: array indexing and string containment swap
/// their operands, every other operation keeps them.
pub fn canonicalize_binary_args<T>(op: &AstPrimOp, args: (T, T)) -> (r: (T, T))
    ensures
        binary_args_swapped(*op) ==> r == (args.1, args.0),
        !binary_args_swapped(*op) ==> r == args,
{
    let swap = match op {
        AstPrimOp::ArrayAt => true,
        AstPrimOp::StringContains => true,
        _ => false,
    };
    if swap {
        let (a, b) = args;
        (b, a)
    } else {
        args
    }
}

/// Canonicalise the operand order of the substring operation when lowering
/// from the evaluator representation: (string, start, end) becomes (start,
/// end, string). Every other operation keeps its operands.
pub fn canonicalize_nary_args<T>(op: &AstPrimOp, args: Vec<T>) -> (r: Vec<T>)
    requires
        (op is StringSubstr) ==> args@.len() == 3,
    ensures
        (op is StringSubstr) ==> r@ == seq![args@[1], args@[2], args@[0]],
        !(op is StringSubstr) ==> r@ == args@,
{
    let rotate = matches!(op, AstPrimOp::StringSubstr);
    if rotate {
        let mut args = args;
        let ghost ga = args@;
        let first = args.remove(0);
        args.push(first);
        proof {
            assert(args@ =~= seq![ga[1], ga[2], ga[0]]);
        }
        args
    } else {
        args
    }
}

impl RichTerm {
    /// Patch the span of the merge label of a binary merge node. The span of
    /// a merge is the span of the whole merge expression, which is not known
    /// until the enclosing node is materialised: the node is built under a
    /// label with an unknown span, and the parent patches it afterwards. A
    /// term that is not a binary merge passes through.
    pub fn patch_merge_label_span(self, span: TermPos) -> (r: RichTerm)
        ensures
            match *self.term {
                Term::Op2(op, a, b) => match op {
                    BinaryOp::Merge(ml) => (match *r.term {
                        Term::Op2(op2, a2, b2) => op2 == BinaryOp::Merge(
                            MergeLabel { span, kind: ml.kind },
                        ) && a2 == a && b2 == b,
                        _ => false,
                    }) && r.pos == self.pos,
                    _ => r == self,
                },
                _ => r == self,
            },
    {
        let parts: Option<(MergeKind, RichTerm, RichTerm)> = match &*self.term {
            Term::Op2(BinaryOp::Merge(ml), a, b) => Some((ml.kind, a.clone(), b.clone())),
            _ => None,
        };
        match parts {
            Some((kind, a, b)) => RichTerm {
                term: Rc::new(Term::Op2(BinaryOp::Merge(MergeLabel { span, kind }), a, b)),
                pos: self.pos,
            },
            None => self,
        }
    }
}

} // verus!
