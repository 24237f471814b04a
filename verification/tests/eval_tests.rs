//! Tests that force merged records through the evaluator: override
//! propagation through reverting and saturation.

use std::rc::Rc;

use nickel_merge::cache::Cache;
use nickel_merge::env::Environment;
use nickel_merge::error::{CallStack, EvalError};
use nickel_merge::eval::{eval, EvalStop};
use nickel_merge::ident::Ident;
use nickel_merge::indexmap::IndexMap;
use nickel_merge::label::{MergeKind, MergeLabel};
use nickel_merge::position::TermPos;
use nickel_merge::record::{Field, MergePriority, RecordAttrs, RecordData};
use nickel_merge::term::{BinaryOp, RichTerm, Term, UnaryOp};

fn num(n: i64) -> RichTerm {
    RichTerm::from_term(Term::Num(n))
}

fn var(id: Ident) -> RichTerm {
    RichTerm::from_term(Term::Var(id))
}

fn plus(a: RichTerm, b: RichTerm) -> RichTerm {
    RichTerm::from_term(Term::Op2(BinaryOp::Plus, a, b))
}

fn merge_term(a: RichTerm, b: RichTerm) -> RichTerm {
    RichTerm::from_term(Term::Op2(
        BinaryOp::Merge(MergeLabel {
            span: TermPos::Unknown,
            kind: MergeKind::Standard,
        }),
        a,
        b,
    ))
}

fn rec_record(fields: Vec<(Ident, Field)>) -> RichTerm {
    let mut m = IndexMap::new();
    for (id, f) in fields {
        m.insert(id, Rc::new(f));
    }
    RichTerm::from_term(Term::RecRecord(RecordData {
        fields: m,
        attrs: RecordAttrs { open: false },
        sealed_tail: None,
    }))
}

fn field_with_priority(value: RichTerm, priority: MergePriority) -> Field {
    let mut f = Field::from_value(value);
    f.metadata.priority = priority;
    f
}

/// Evaluate the field `id` of an evaluated record closure to a number.
fn eval_field_to_num(cache: &mut Cache, body: &RichTerm, env: &Environment, id: Ident) -> i64 {
    let data = match &*body.term {
        Term::Record(d) => d,
        _ => panic!("expected an evaluated record"),
    };
    let f = data.fields.get(id).expect("field is present");
    let value = f.value.clone().expect("field has a value");
    let mut cs = CallStack::new();
    let r = eval(cache, value, env.clone(), &mut cs, 1000).expect("field evaluates");
    match &*r.body.term {
        Term::Num(n) => *n,
        _ => panic!("expected a number"),
    }
}

#[test]
fn atoms_evaluate_to_themselves() {
    let mut cache = Cache::new();
    let mut cs = CallStack::new();
    let r = eval(&mut cache, num(3), Environment::new(), &mut cs, 10).expect("a number is a value");
    assert!(matches!(&*r.body.term, Term::Num(3)));
}

#[test]
fn addition_evaluates() {
    let mut cache = Cache::new();
    let mut cs = CallStack::new();
    let r = eval(
        &mut cache,
        plus(num(2), num(3)),
        Environment::new(),
        &mut cs,
        100,
    )
    .expect("addition evaluates");
    assert!(matches!(&*r.body.term, Term::Num(5)));
}

#[test]
fn out_of_fuel_is_reported() {
    let mut cache = Cache::new();
    let mut cs = CallStack::new();
    let r = eval(
        &mut cache,
        plus(num(2), num(3)),
        Environment::new(),
        &mut cs,
        1,
    );
    assert!(matches!(r, Err(EvalStop::OutOfFuel)));
}

#[test]
fn unsupported_operation_is_reported() {
    let mut cache = Cache::new();
    let mut cs = CallStack::new();
    let r = eval(
        &mut cache,
        RichTerm::from_term(Term::Op1(UnaryOp::BoolNot, num(1))),
        Environment::new(),
        &mut cs,
        100,
    );
    assert!(matches!(
        r,
        Err(EvalStop::Error(EvalError::NotImplemented(_)))
    ));
}

#[test]
fn recursive_record_sees_its_siblings() {
    // { a = 1, b = a + 1 }.b evaluates to 2.
    let mut cache = Cache::new();
    let mut cs = CallStack::new();
    let a = cache.intern("a".to_string());
    let b = cache.intern("b".to_string());
    let rec = rec_record(vec![
        (a, Field::from_value(num(1))),
        (b, Field::from_value(plus(var(a), num(1)))),
    ]);
    let r = eval(&mut cache, rec, Environment::new(), &mut cs, 1000).expect("record evaluates");
    assert_eq!(eval_field_to_num(&mut cache, &r.body, &r.env, b), 2);
}

#[test]
fn override_propagates_to_recursive_fields() {
    // ({ a | default = 1, b = a + 1 } & { a = 10 }).b evaluates to 11: the
    // carried field b is reverted, so its recursive reference re-evaluates
    // against the merged record.
    let mut cache = Cache::new();
    let mut cs = CallStack::new();
    let a = cache.intern("a".to_string());
    let b = cache.intern("b".to_string());
    let rec = rec_record(vec![
        (a, field_with_priority(num(1), MergePriority::Bottom)),
        (b, Field::from_value(plus(var(a), num(1)))),
    ]);
    let ovr = rec_record(vec![(a, Field::from_value(num(10)))]);
    let r = eval(
        &mut cache,
        merge_term(rec, ovr),
        Environment::new(),
        &mut cs,
        10000,
    )
    .expect("the merge evaluates");
    assert_eq!(eval_field_to_num(&mut cache, &r.body, &r.env, a), 10);
    assert_eq!(eval_field_to_num(&mut cache, &r.body, &r.env, b), 11);
}

#[test]
fn merged_recursive_fields_are_saturated() {
    // ({ a = c + 1, c | default = 1 } & { a = c + 1, c = 5 }).a evaluates to
    // 6: both sides of a are saturated, so both see the overridden c.
    let mut cache = Cache::new();
    let mut cs = CallStack::new();
    let a = cache.intern("a".to_string());
    let c = cache.intern("c".to_string());
    let rec1 = rec_record(vec![
        (a, Field::from_value(plus(var(c), num(1)))),
        (c, field_with_priority(num(1), MergePriority::Bottom)),
    ]);
    let rec2 = rec_record(vec![
        (a, Field::from_value(plus(var(c), num(1)))),
        (c, Field::from_value(num(5))),
    ]);
    let r = eval(
        &mut cache,
        merge_term(rec1, rec2),
        Environment::new(),
        &mut cs,
        10000,
    )
    .expect("the merge evaluates");
    assert_eq!(eval_field_to_num(&mut cache, &r.body, &r.env, c), 5);
    assert_eq!(eval_field_to_num(&mut cache, &r.body, &r.env, a), 6);
}

#[test]
fn incompatible_merge_surfaces_through_eval() {
    let mut cache = Cache::new();
    let mut cs = CallStack::new();
    let r = eval(
        &mut cache,
        merge_term(num(1), num(2)),
        Environment::new(),
        &mut cs,
        1000,
    );
    assert!(matches!(
        r,
        Err(EvalStop::Error(EvalError::MergeIncompatibleArgs(..)))
    ));
}

#[test]
fn function_application_evaluates() {
    let mut cache = Cache::new();
    let mut cs = CallStack::new();
    let x = cache.intern("x".to_string());
    let id_fun = RichTerm::from_term(Term::Fun(x, var(x)));
    let app = RichTerm::from_term(Term::App(id_fun, num(9)));
    let r = eval(&mut cache, app, Environment::new(), &mut cs, 1000).expect("application evaluates");
    assert!(matches!(&*r.body.term, Term::Num(9)));
}
