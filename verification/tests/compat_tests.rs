//! Tests of the primitive-operation bridge between the evaluator
//! representation and the surface syntax tree representation.

use nickel_merge::compat::{
    canonicalize_binary_args, canonicalize_nary_args, AstPrimOp, FromAst, FromMainline, TermPrimOp,
    ToAst, ToMainline,
};
use nickel_merge::ident::Ident;
use nickel_merge::label::{MergeKind, MergeLabel};
use nickel_merge::position::TermPos;
use nickel_merge::record::FieldMetadata;
use nickel_merge::term::{
    BinaryOp, NAryOp, RecordExtKind, RecordOpKind, RichTerm, Term, UnaryOp,
};

#[test]
fn unary_ops_lower_to_the_unified_enumeration() {
    assert!(matches!(
        AstPrimOp::from_mainline(&UnaryOp::BoolAnd),
        AstPrimOp::BoolAnd
    ));
    assert!(matches!(
        AstPrimOp::from_mainline(&UnaryOp::StringLowercase),
        AstPrimOp::StringLowercase
    ));
    let i = Ident::from_sym(4);
    match AstPrimOp::from_mainline(&UnaryOp::RecordAccess(i)) {
        AstPrimOp::RecordStatAccess(j) => assert_eq!(j, i),
        _ => panic!("record access lowers to static access"),
    }
    match AstPrimOp::from_mainline(&UnaryOp::Force {
        ignore_not_exported: true,
    }) {
        AstPrimOp::Force {
            ignore_not_exported,
        } => assert!(ignore_not_exported),
        _ => panic!("force keeps its flag"),
    }
}

#[test]
fn binary_ops_lower_to_the_unified_enumeration() {
    assert!(matches!(
        AstPrimOp::from_mainline(&BinaryOp::Plus),
        AstPrimOp::Plus
    ));
    let ins = BinaryOp::RecordInsert {
        metadata: FieldMetadata::empty(),
        pending_contracts: Vec::new(),
        ext_kind: RecordExtKind::WithValue,
        op_kind: RecordOpKind::IgnoreEmptyOpt,
    };
    match AstPrimOp::from_mainline(&ins) {
        AstPrimOp::RecordInsert(k) => assert_eq!(k, RecordOpKind::IgnoreEmptyOpt),
        _ => panic!("a plain record insertion lowers to its kind"),
    }
    let mrg = BinaryOp::Merge(MergeLabel {
        span: TermPos::Unknown,
        kind: MergeKind::PiecewiseDefinition,
    });
    match AstPrimOp::from_mainline(&mrg) {
        AstPrimOp::Merge(k) => assert_eq!(k, MergeKind::PiecewiseDefinition),
        _ => panic!("merge lowers to its kind"),
    }
}

#[test]
fn nary_ops_lower_and_raise() {
    assert!(matches!(
        NAryOp::StringSubstr.to_ast(),
        AstPrimOp::StringSubstr
    ));
    assert!(matches!(
        TermPrimOp::from_ast(&AstPrimOp::ArraySlice),
        TermPrimOp::NAry(NAryOp::ArraySlice)
    ));
}

#[test]
fn unified_ops_raise_to_the_evaluator_families() {
    assert!(matches!(
        AstPrimOp::Plus.to_mainline(),
        TermPrimOp::Binary(BinaryOp::Plus)
    ));
    assert!(matches!(
        TermPrimOp::from_ast(&AstPrimOp::BoolNot),
        TermPrimOp::Unary(UnaryOp::BoolNot)
    ));
    match TermPrimOp::from_ast(&AstPrimOp::RecordInsert(RecordOpKind::ConsiderAllFields)) {
        TermPrimOp::Binary(BinaryOp::RecordInsert {
            metadata,
            pending_contracts,
            ext_kind,
            op_kind,
        }) => {
            assert!(metadata.doc.is_none());
            assert!(metadata.annotation.typ.is_none());
            assert!(pending_contracts.is_empty());
            assert_eq!(ext_kind, RecordExtKind::WithValue);
            assert_eq!(op_kind, RecordOpKind::ConsiderAllFields);
        }
        _ => panic!("record insertion raises to the full evaluator form"),
    }
    match TermPrimOp::from_ast(&AstPrimOp::Merge(MergeKind::Standard)) {
        TermPrimOp::Binary(BinaryOp::Merge(ml)) => {
            // The span is not known at this point; the enclosing node
            // patches it.
            assert_eq!(ml.span, TermPos::Unknown);
            assert_eq!(ml.kind, MergeKind::Standard);
        }
        _ => panic!("merge raises to a labeled binary merge"),
    }
}

#[test]
fn round_trip_through_the_bridge() {
    for op in [
        UnaryOp::Typeof,
        UnaryOp::Blame,
        UnaryOp::StringChars,
        UnaryOp::NumberCos,
    ] {
        let ast = op.to_ast();
        match TermPrimOp::from_ast(&ast) {
            TermPrimOp::Unary(back) => {
                assert!(matches!(
                    (op, back),
                    (UnaryOp::Typeof, UnaryOp::Typeof)
                        | (UnaryOp::Blame, UnaryOp::Blame)
                        | (UnaryOp::StringChars, UnaryOp::StringChars)
                        | (UnaryOp::NumberCos, UnaryOp::NumberCos)
                ));
            }
            _ => panic!("a unary operation raises back to a unary operation"),
        }
    }
}

#[test]
fn array_at_and_string_contains_swap_their_operands() {
    assert_eq!(canonicalize_binary_args(&AstPrimOp::ArrayAt, (1, 2)), (2, 1));
    assert_eq!(
        canonicalize_binary_args(&AstPrimOp::StringContains, ("a", "b")),
        ("b", "a")
    );
    assert_eq!(canonicalize_binary_args(&AstPrimOp::Plus, (1, 2)), (1, 2));
}

#[test]
fn string_substr_rotates_its_operands() {
    // The evaluator order is (string, start, end); the syntax tree order is
    // (start, end, string).
    let r = canonicalize_nary_args(&AstPrimOp::StringSubstr, vec![10, 20, 30]);
    assert_eq!(r, vec![20, 30, 10]);
    let r = canonicalize_nary_args(&AstPrimOp::ArraySlice, vec![10, 20, 30]);
    assert_eq!(r, vec![10, 20, 30]);
}

#[test]
fn merge_label_span_is_backpatched() {
    let span = TermPos::Original(nickel_merge::position::RawSpan {
        src_id: 1,
        start: 5,
        end: 17,
    });
    let merge_node = RichTerm::from_term(Term::Op2(
        BinaryOp::Merge(MergeLabel {
            span: TermPos::Unknown,
            kind: MergeKind::Standard,
        }),
        RichTerm::from_term(Term::Num(1)),
        RichTerm::from_term(Term::Num(2)),
    ));
    let patched = merge_node.patch_merge_label_span(span);
    match &*patched.term {
        Term::Op2(BinaryOp::Merge(ml), a, b) => {
            assert_eq!(ml.span, span);
            assert_eq!(ml.kind, MergeKind::Standard);
            assert!(matches!(&*a.term, Term::Num(1)));
            assert!(matches!(&*b.term, Term::Num(2)));
        }
        _ => panic!("the patched node is still a merge"),
    }
    let other = RichTerm::from_term(Term::Num(7));
    let unchanged = other.patch_merge_label_span(span);
    assert!(matches!(&*unchanged.term, Term::Num(7)));
}
