//! Scenario tests of the merge engine.

use std::rc::Rc;

use nickel_merge::cache::{BindingType, Cache, Closure, IdentKind};
use nickel_merge::env::Environment;
use nickel_merge::error::{CallStack, EvalError, IllegalPolymorphicTailAction};
use nickel_merge::ident::Ident;
use nickel_merge::indexmap::IndexMap;
use nickel_merge::label::Label;
use nickel_merge::merge::{merge, merge_doc, MergeMode};
use nickel_merge::position::{RawSpan, TermPos};
use nickel_merge::record::{
    Field, FieldMetadata, LabeledType, MergePriority, RecordAttrs, RecordData, SealedTail, Type,
    TypeAnnotation,
};
use nickel_merge::term::{ArrayAttrs, RichTerm, Term};

fn span() -> TermPos {
    TermPos::Original(RawSpan {
        src_id: 0,
        start: 3,
        end: 9,
    })
}

fn num(n: i64) -> RichTerm {
    RichTerm::from_term(Term::Num(n))
}

fn field_with_priority(value: RichTerm, priority: MergePriority) -> Field {
    let mut f = Field::from_value(value);
    f.metadata.priority = priority;
    f
}

fn record_term(fields: Vec<(Ident, Field)>, open: bool) -> RichTerm {
    let mut m = IndexMap::new();
    for (id, f) in fields {
        m.insert(id, Rc::new(f));
    }
    RichTerm::from_term(Term::Record(RecordData {
        fields: m,
        attrs: RecordAttrs { open },
        sealed_tail: None,
    }))
}

fn num_contract_field() -> Field {
    Field {
        value: None,
        metadata: FieldMetadata {
            doc: None,
            annotation: TypeAnnotation {
                typ: None,
                contracts: Rc::new(vec![LabeledType {
                    typ: Type::Number,
                    label: Label::new(TermPos::Unknown),
                }]),
            },
            opt: false,
            not_exported: false,
            priority: MergePriority::Neutral(0),
        },
        pending_contracts: Vec::new(),
    }
}

#[test]
fn merge_null_null_inherits_operator_position() {
    let mut cache = Cache::new();
    let mut cs = CallStack::new();
    let r = merge(
        &mut cache,
        RichTerm::from_term(Term::Null),
        Environment::new(),
        RichTerm::from_term(Term::Null),
        Environment::new(),
        span(),
        MergeMode::Standard,
        &mut cs,
    );
    let c = r.expect("merging null with null succeeds");
    assert!(matches!(&*c.body.term, Term::Null));
    assert_eq!(c.body.pos, span().into_inherited());
}

#[test]
fn merge_distinct_booleans_is_incompatible() {
    let mut cache = Cache::new();
    let mut cs = CallStack::new();
    let r = merge(
        &mut cache,
        RichTerm::from_term(Term::Bool(true)),
        Environment::new(),
        RichTerm::from_term(Term::Bool(false)),
        Environment::new(),
        span(),
        MergeMode::Standard,
        &mut cs,
    );
    match r {
        Err(EvalError::MergeIncompatibleArgs(a, b, p)) => {
            assert!(matches!(&*a.term, Term::Bool(true)));
            assert!(matches!(&*b.term, Term::Bool(false)));
            assert_eq!(p, span());
        }
        _ => panic!("expected a structural mismatch"),
    }
}

#[test]
fn merge_equal_numbers_is_idempotent() {
    let mut cache = Cache::new();
    let mut cs = CallStack::new();
    let r = merge(
        &mut cache,
        num(5),
        Environment::new(),
        num(5),
        Environment::new(),
        span(),
        MergeMode::Standard,
        &mut cs,
    );
    let c = r.expect("equal numbers merge");
    assert!(matches!(&*c.body.term, Term::Num(5)));
}

#[test]
fn merge_distinct_numbers_is_incompatible() {
    let mut cache = Cache::new();
    let mut cs = CallStack::new();
    let r = merge(
        &mut cache,
        num(5),
        Environment::new(),
        num(6),
        Environment::new(),
        span(),
        MergeMode::Standard,
        &mut cs,
    );
    assert!(matches!(r, Err(EvalError::MergeIncompatibleArgs(..))));
}

#[test]
fn merge_equal_strings_and_enums() {
    let mut cache = Cache::new();
    let mut cs = CallStack::new();
    let r = merge(
        &mut cache,
        RichTerm::from_term(Term::Str("hello".to_string())),
        Environment::new(),
        RichTerm::from_term(Term::Str("hello".to_string())),
        Environment::new(),
        span(),
        MergeMode::Standard,
        &mut cs,
    );
    let c = r.expect("equal strings merge");
    match &*c.body.term {
        Term::Str(s) => assert_eq!(s, "hello"),
        _ => panic!("expected a string"),
    }
    let tag = Ident::from_sym(7);
    let r = merge(
        &mut cache,
        RichTerm::from_term(Term::Enum(tag)),
        Environment::new(),
        RichTerm::from_term(Term::Enum(Ident::from_sym(8))),
        Environment::new(),
        span(),
        MergeMode::Standard,
        &mut cs,
    );
    assert!(matches!(r, Err(EvalError::MergeIncompatibleArgs(..))));
}

#[test]
fn merge_empty_arrays_only() {
    let mut cache = Cache::new();
    let mut cs = CallStack::new();
    let empty = RichTerm::from_term(Term::Array(Vec::new(), ArrayAttrs::new()));
    let r = merge(
        &mut cache,
        empty,
        Environment::new(),
        RichTerm::from_term(Term::Array(Vec::new(), ArrayAttrs::new())),
        Environment::new(),
        span(),
        MergeMode::Standard,
        &mut cs,
    );
    let c = r.expect("two empty arrays merge");
    match &*c.body.term {
        Term::Array(es, attrs) => {
            assert!(es.is_empty());
            assert!(attrs.closurized);
        }
        _ => panic!("expected an array"),
    }
    let nonempty = RichTerm::from_term(Term::Array(vec![num(1)], ArrayAttrs::new()));
    let r = merge(
        &mut cache,
        nonempty,
        Environment::new(),
        RichTerm::from_term(Term::Array(Vec::new(), ArrayAttrs::new())),
        Environment::new(),
        span(),
        MergeMode::Standard,
        &mut cs,
    );
    assert!(matches!(r, Err(EvalError::MergeIncompatibleArgs(..))));
}

#[test]
fn merge_empty_records_gives_closed_empty_record() {
    let mut cache = Cache::new();
    let mut cs = CallStack::new();
    let r = merge(
        &mut cache,
        record_term(vec![], false),
        Environment::new(),
        record_term(vec![], false),
        Environment::new(),
        span(),
        MergeMode::Standard,
        &mut cs,
    );
    let c = r.expect("empty records merge");
    match &*c.body.term {
        Term::RecRecord(data) => {
            assert_eq!(data.fields.len(), 0);
            assert!(!data.attrs.open);
            assert!(data.sealed_tail.is_none());
        }
        _ => panic!("expected a recursive record"),
    }
}

#[test]
fn higher_priority_side_wins() {
    // merge({x | priority 1 = 1}, {x | priority 2 = 2}): the merged field
    // holds the value 2 at priority 2.
    let mut cache = Cache::new();
    let mut cs = CallStack::new();
    let x = cache.intern("x".to_string());
    let r1 = record_term(
        vec![(x, field_with_priority(num(1), MergePriority::Neutral(1)))],
        false,
    );
    let r2 = record_term(
        vec![(x, field_with_priority(num(2), MergePriority::Neutral(2)))],
        false,
    );
    let c = merge(
        &mut cache,
        r1,
        Environment::new(),
        r2,
        Environment::new(),
        span(),
        MergeMode::Standard,
        &mut cs,
    )
    .expect("records merge");
    match &*c.body.term {
        Term::RecRecord(data) => {
            let f = data.fields.get(x).expect("field x is present");
            assert_eq!(f.metadata.priority, MergePriority::Neutral(2));
            match &f.value {
                Some(v) => assert!(matches!(&*v.term, Term::Num(2))),
                None => panic!("field x has a value"),
            }
        }
        _ => panic!("expected a recursive record"),
    }
}

#[test]
fn priority_dominance_is_order_independent() {
    let mut cache = Cache::new();
    let mut cs = CallStack::new();
    let x = cache.intern("x".to_string());
    for flip in [false, true] {
        let low = record_term(
            vec![(x, field_with_priority(num(1), MergePriority::Bottom))],
            false,
        );
        let high = record_term(
            vec![(x, field_with_priority(num(2), MergePriority::Top))],
            false,
        );
        let (a, b) = if flip { (high, low) } else { (low, high) };
        let c = merge(
            &mut cache,
            a,
            Environment::new(),
            b,
            Environment::new(),
            span(),
            MergeMode::Standard,
            &mut cs,
        )
        .expect("records merge");
        match &*c.body.term {
            Term::RecRecord(data) => {
                let f = data.fields.get(x).expect("field x is present");
                assert_eq!(f.metadata.priority, MergePriority::Top);
                match &f.value {
                    Some(v) => assert!(matches!(&*v.term, Term::Num(2))),
                    None => panic!("field x has a value"),
                }
            }
            _ => panic!("expected a recursive record"),
        }
    }
}

#[test]
fn standard_merge_of_records_commutes() {
    // Same field sets, metadata and constant values in both orders.
    let mut cache = Cache::new();
    let mut cs = CallStack::new();
    let x = cache.intern("x".to_string());
    let y = cache.intern("y".to_string());
    let z = cache.intern("z".to_string());
    let mk1 = |_c: &mut Cache| {
        record_term(
            vec![
                (x, Field::from_value(num(1))),
                (y, field_with_priority(num(7), MergePriority::Neutral(1))),
            ],
            false,
        )
    };
    let mk2 = |_c: &mut Cache| {
        record_term(
            vec![
                (y, field_with_priority(num(8), MergePriority::Neutral(2))),
                (z, Field::from_value(num(3))),
            ],
            true,
        )
    };
    let (r1, r2) = (mk1(&mut cache), mk2(&mut cache));
    let c12 = merge(
        &mut cache,
        r1,
        Environment::new(),
        r2,
        Environment::new(),
        span(),
        MergeMode::Standard,
        &mut cs,
    )
    .expect("merge succeeds");
    let (r1, r2) = (mk1(&mut cache), mk2(&mut cache));
    let c21 = merge(
        &mut cache,
        r2,
        Environment::new(),
        r1,
        Environment::new(),
        span(),
        MergeMode::Standard,
        &mut cs,
    )
    .expect("merge succeeds");
    for c in [&c12, &c21] {
        match &*c.body.term {
            Term::RecRecord(data) => {
                assert_eq!(data.fields.len(), 3);
                assert!(data.attrs.open);
                let fy = data.fields.get(y).expect("field y is present");
                assert_eq!(fy.metadata.priority, MergePriority::Neutral(2));
                match &fy.value {
                    Some(v) => assert!(matches!(&*v.term, Term::Num(8))),
                    None => panic!("field y has a value"),
                }
                let fx = data.fields.get(x).expect("field x is present");
                match &fx.value {
                    Some(v) => assert!(matches!(&*v.term, Term::Num(1))),
                    None => panic!("field x has a value"),
                }
            }
            _ => panic!("expected a recursive record"),
        }
    }
}

#[test]
fn sealed_tail_rejected_and_call_stack_taken() {
    let mut cache = Cache::new();
    let mut cs = CallStack::new();
    cs.frames.push(span());
    let x = cache.intern("x".to_string());
    let mut m = IndexMap::new();
    m.insert(x, Rc::new(Field::from_value(num(1))));
    let sealed = RichTerm::from_term(Term::Record(RecordData {
        fields: m,
        attrs: RecordAttrs { open: false },
        sealed_tail: Some(SealedTail {
            label: Label::new(span()),
        }),
    }));
    let r = merge(
        &mut cache,
        sealed,
        Environment::new(),
        record_term(vec![], false),
        Environment::new(),
        span(),
        MergeMode::Standard,
        &mut cs,
    );
    match r {
        Err(EvalError::IllegalPolymorphicTailAccess {
            action,
            label,
            call_stack,
            ..
        }) => {
            assert_eq!(action, IllegalPolymorphicTailAction::Merge);
            assert_eq!(label.span, span());
            // The error takes the evaluator's call stack by move.
            assert_eq!(call_stack.frames.len(), 1);
            assert_eq!(cs.frames.len(), 0);
        }
        _ => panic!("expected a sealed-tail error"),
    }
}

#[test]
fn closed_contract_rejects_extra_field() {
    // { x = 1, y = 2 } & (contract { x | Num }) blames with a message naming
    // `y` and the two standard notes.
    let mut cache = Cache::new();
    let mut cs = CallStack::new();
    let x = cache.intern("x".to_string());
    let y = cache.intern("y".to_string());
    let value = record_term(
        vec![
            (x, Field::from_value(num(1))),
            (y, Field::from_value(num(2))),
        ],
        false,
    );
    let contract = record_term(vec![(x, num_contract_field())], false);
    let r = merge(
        &mut cache,
        value,
        Environment::new(),
        contract,
        Environment::new(),
        span(),
        MergeMode::Contract(Label::new(span())),
        &mut cs,
    );
    match r {
        Err(EvalError::BlameError { label, .. }) => {
            assert_eq!(label.diag_message.as_deref(), Some("extra field `y`"));
            assert_eq!(label.diag_notes.len(), 2);
            assert_eq!(label.diag_notes[0], "Have you misspelled a field?");
            assert_eq!(
                label.diag_notes[1],
                "The record contract might also be too strict. By default, record contracts exclude any field which is not listed.\nAppend `, ..` at the end of the record contract, as in `{some_field | SomeContract, ..}`, to make it accept extra fields."
            );
        }
        _ => panic!("expected a blame error"),
    }
}

#[test]
fn closed_contract_names_every_extra_field() {
    let mut cache = Cache::new();
    let mut cs = CallStack::new();
    let x = cache.intern("x".to_string());
    let y = cache.intern("y".to_string());
    let z = cache.intern("z".to_string());
    let value = record_term(
        vec![
            (x, Field::from_value(num(1))),
            (y, Field::from_value(num(2))),
            (z, Field::from_value(num(3))),
        ],
        false,
    );
    let contract = record_term(vec![(x, num_contract_field())], false);
    let r = merge(
        &mut cache,
        value,
        Environment::new(),
        contract,
        Environment::new(),
        span(),
        MergeMode::Contract(Label::new(span())),
        &mut cs,
    );
    match r {
        Err(EvalError::BlameError { label, .. }) => {
            assert_eq!(label.diag_message.as_deref(), Some("extra fields `y`,`z`"));
        }
        _ => panic!("expected a blame error"),
    }
}

#[test]
fn open_contract_accepts_extra_field() {
    // The same value checked against contract { x | Num, .. } succeeds.
    let mut cache = Cache::new();
    let mut cs = CallStack::new();
    let x = cache.intern("x".to_string());
    let y = cache.intern("y".to_string());
    let value = record_term(
        vec![
            (x, Field::from_value(num(1))),
            (y, Field::from_value(num(2))),
        ],
        false,
    );
    let contract = record_term(vec![(x, num_contract_field())], true);
    let r = merge(
        &mut cache,
        value,
        Environment::new(),
        contract,
        Environment::new(),
        span(),
        MergeMode::Contract(Label::new(span())),
        &mut cs,
    );
    let c = r.expect("an open contract accepts extra fields");
    match &*c.body.term {
        Term::RecRecord(data) => {
            assert!(data.fields.contains_key(x));
            assert!(data.fields.contains_key(y));
            // In contract mode the result inherits the first operand's
            // position.
            assert_eq!(c.body.pos, TermPos::Unknown);
        }
        _ => panic!("expected a recursive record"),
    }
}

#[test]
fn closed_contract_does_not_check_missing_fields() {
    // { x = 1 } & (contract { x | Num, y | Num }): extra fields only are
    // checked at this layer; the missing definition of y is left to
    // per-field contract checks.
    let mut cache = Cache::new();
    let mut cs = CallStack::new();
    let x = cache.intern("x".to_string());
    let y = cache.intern("y".to_string());
    let value = record_term(vec![(x, Field::from_value(num(1)))], false);
    let contract = record_term(
        vec![(x, num_contract_field()), (y, num_contract_field())],
        false,
    );
    let r = merge(
        &mut cache,
        value,
        Environment::new(),
        contract,
        Environment::new(),
        span(),
        MergeMode::Contract(Label::new(span())),
        &mut cs,
    );
    let c = r.expect("missing fields are not rejected here");
    match &*c.body.term {
        Term::RecRecord(data) => {
            let fy = data.fields.get(y).expect("field y is present");
            assert!(fy.value.is_none());
        }
        _ => panic!("expected a recursive record"),
    }
}

#[test]
fn contract_on_non_record_blames() {
    let mut cache = Cache::new();
    let mut cs = CallStack::new();
    let x = cache.intern("x".to_string());
    let contract = record_term(vec![(x, num_contract_field())], false);
    let r = merge(
        &mut cache,
        num(5),
        Environment::new(),
        contract,
        Environment::new(),
        span(),
        MergeMode::Contract(Label::new(span())),
        &mut cs,
    );
    assert!(matches!(r, Err(EvalError::BlameError { .. })));
}

#[test]
fn evaluated_arg_is_read_from_the_cache() {
    let mut cache = Cache::new();
    let mut cs = CallStack::new();
    let idx = cache.add(
        Closure::atomic_closure(num(42)),
        IdentKind::Record,
        BindingType::Standard,
    );
    cache.update_value(idx, num(42));
    let mut label = Label::new(span());
    label.arg_idx = Some(idx);
    let x = cache.intern("x".to_string());
    let contract = record_term(vec![(x, num_contract_field())], false);
    let r = merge(
        &mut cache,
        num(5),
        Environment::new(),
        contract,
        Environment::new(),
        span(),
        MergeMode::Contract(label),
        &mut cs,
    );
    match r {
        Err(EvalError::BlameError { evaluated_arg, .. }) => match evaluated_arg {
            Some(v) => assert!(matches!(&*v.term, Term::Num(42))),
            None => panic!("the evaluated argument is cached"),
        },
        _ => panic!("expected a blame error"),
    }
}

#[test]
fn unbound_identifier_in_merged_field() {
    // This test deliberately violates the closurization precondition of
    // `merge` (the field values are variables that their environments do not
    // bind) to pin the run-time behaviour: the engine reports the unbound
    // identifier instead of panicking.
    let mut cache = Cache::new();
    let mut cs = CallStack::new();
    let x = cache.intern("x".to_string());
    let dangling = cache.intern("dangling".to_string());
    let var = RichTerm::from_term(Term::Var(dangling));
    let r1 = record_term(vec![(x, Field::from_value(var.clone()))], false);
    let r2 = record_term(vec![(x, Field::from_value(var))], false);
    let r = merge(
        &mut cache,
        r1,
        Environment::new(),
        r2,
        Environment::new(),
        span(),
        MergeMode::Standard,
        &mut cs,
    );
    match r {
        Err(EvalError::UnboundIdentifier(id, _)) => assert_eq!(id, dangling),
        _ => panic!("expected an unbound-identifier error"),
    }
}

#[test]
fn record_merge_is_idempotent_on_plain_records() {
    let mut cache = Cache::new();
    let mut cs = CallStack::new();
    let x = cache.intern("x".to_string());
    let mk = || record_term(vec![(x, Field::from_value(num(1)))], false);
    let c = merge(
        &mut cache,
        mk(),
        Environment::new(),
        mk(),
        Environment::new(),
        span(),
        MergeMode::Standard,
        &mut cs,
    )
    .expect("merge succeeds");
    match &*c.body.term {
        Term::RecRecord(data) => {
            assert_eq!(data.fields.len(), 1);
            let f = data.fields.get(x).expect("field x is present");
            assert_eq!(f.metadata.priority, MergePriority::Neutral(0));
            assert!(!f.metadata.opt);
            assert!(f.value.is_some());
        }
        _ => panic!("expected a recursive record"),
    }
}

#[test]
fn metadata_combination_rules() {
    // opt is and-ed, not_exported or-ed, documentation first-wins, the two
    // type annotations are kept with the second demoted to a contract.
    let mut cache = Cache::new();
    let mut cs = CallStack::new();
    let x = cache.intern("x".to_string());
    let mut f1 = Field::from_value(num(1));
    f1.metadata.opt = true;
    f1.metadata.not_exported = false;
    f1.metadata.doc = Some("first".to_string());
    f1.metadata.annotation.typ = Some(LabeledType {
        typ: Type::Number,
        label: Label::new(span()),
    });
    let mut f2 = Field::from_value(num(1));
    f2.metadata.opt = false;
    f2.metadata.not_exported = true;
    f2.metadata.doc = Some("second".to_string());
    f2.metadata.annotation.typ = Some(LabeledType {
        typ: Type::Dyn,
        label: Label::new(span()),
    });
    let r1 = record_term(vec![(x, f1)], false);
    let r2 = record_term(vec![(x, f2)], false);
    let c = merge(
        &mut cache,
        r1,
        Environment::new(),
        r2,
        Environment::new(),
        span(),
        MergeMode::Standard,
        &mut cs,
    )
    .expect("merge succeeds");
    match &*c.body.term {
        Term::RecRecord(data) => {
            let f = data.fields.get(x).expect("field x is present");
            assert!(!f.metadata.opt);
            assert!(f.metadata.not_exported);
            assert_eq!(f.metadata.doc.as_deref(), Some("first"));
            let ann = &f.metadata.annotation;
            assert!(matches!(ann.typ.as_ref().map(|t| &t.typ), Some(Type::Number)));
            assert_eq!(ann.contracts.len(), 1);
            assert!(matches!(ann.contracts[0].typ, Type::Dyn));
        }
        _ => panic!("expected a recursive record"),
    }
}

#[test]
fn merge_doc_first_wins() {
    assert_eq!(
        merge_doc(Some("a".to_string()), Some("b".to_string())),
        Some("a".to_string())
    );
    assert_eq!(merge_doc(None, Some("b".to_string())), Some("b".to_string()));
    assert_eq!(merge_doc(Some("a".to_string()), None), Some("a".to_string()));
    assert_eq!(merge_doc(None, None), None);
}

#[test]
fn function_refuses_to_merge() {
    let mut cache = Cache::new();
    let mut cs = CallStack::new();
    let x = Ident::from_sym(0);
    let fun = RichTerm::from_term(Term::Fun(x, num(1)));
    let r = merge(
        &mut cache,
        fun,
        Environment::new(),
        num(1),
        Environment::new(),
        span(),
        MergeMode::Standard,
        &mut cs,
    );
    assert!(matches!(r, Err(EvalError::MergeIncompatibleArgs(..))));
}
