//! Tests of the supporting model: environments, the cache, dependency sets,
//! priorities, labels and positions.

use nickel_merge::cache::{BindingType, Cache, Closure, IdentKind};
use nickel_merge::env::Environment;
use nickel_merge::ident::Ident;
use nickel_merge::label::{label_eq, Label};
use nickel_merge::position::{RawSpan, TermPos};
use nickel_merge::record::{FieldDeps, MergePriority, RecordAttrs};
use nickel_merge::term::{RichTerm, Term};

fn num(n: i64) -> RichTerm {
    RichTerm::from_term(Term::Num(n))
}

#[test]
fn environment_shadows_and_shares() {
    let mut env = Environment::new();
    let x = Ident::from_sym(1);
    let y = Ident::from_sym(2);
    assert_eq!(env.get(x), None);
    env.insert(x, 10);
    env.insert(y, 20);
    let snapshot = env.clone();
    env.insert(x, 30);
    assert_eq!(env.get(x), Some(30));
    assert_eq!(env.get(y), Some(20));
    // The clone still sees the earlier binding.
    assert_eq!(snapshot.get(x), Some(10));
}

#[test]
fn environment_extension_layers_bindings() {
    let mut base = Environment::new();
    let x = Ident::from_sym(1);
    let y = Ident::from_sym(2);
    base.insert(x, 10);
    base.insert(y, 20);
    let mut over = Environment::new();
    over.insert(x, 30);
    let layered = base.extend(&over);
    assert_eq!(layered.get(x), Some(30));
    assert_eq!(layered.get(y), Some(20));
    let listed = layered.bindings();
    assert_eq!(listed[0], (x, 30));
}

#[test]
fn cache_add_get_and_revert() {
    let mut cache = Cache::new();
    let idx = cache.add(
        Closure::atomic_closure(num(1)),
        IdentKind::Record,
        BindingType::Revertible(FieldDeps::from_idents(vec![Ident::from_sym(5)])),
    );
    assert_eq!(cache.len(), 1);
    cache.update_value(idx, num(1));
    assert!(cache.get(idx).current_value.is_some());
    let r = cache.revert(idx);
    assert_ne!(r, idx);
    let e = cache.get(r);
    // The reverted entry holds the original body, with no evaluated form.
    assert!(matches!(&*e.body.term, Term::Num(1)));
    assert!(e.current_value.is_none());
    match cache.deps(r) {
        Some(d) => assert!(d.contains(Ident::from_sym(5))),
        None => panic!("the reverted entry keeps its dependencies"),
    }
}

#[test]
fn empty_revertible_bindings_are_stored_standard() {
    let mut cache = Cache::new();
    let idx = cache.add(
        Closure::atomic_closure(num(1)),
        IdentKind::Record,
        BindingType::Revertible(FieldDeps::empty()),
    );
    assert!(cache.deps(idx).is_none());
}

#[test]
fn dependency_sets_union_by_membership() {
    let a = Ident::from_sym(1);
    let b = Ident::from_sym(2);
    let c = Ident::from_sym(3);
    let d1 = FieldDeps::from_idents(vec![a, b]);
    let d2 = FieldDeps::from_idents(vec![b, c]);
    let u = d1.union(d2);
    assert!(u.contains(a));
    assert!(u.contains(b));
    assert!(u.contains(c));
    assert!(!u.contains(Ident::from_sym(9)));
}

#[test]
fn priorities_are_totally_ordered() {
    let bottom = MergePriority::Bottom;
    let low = MergePriority::Neutral(-3);
    let zero = MergePriority::Neutral(0);
    let top = MergePriority::Top;
    assert!(bottom.lt(&low));
    assert!(low.lt(&zero));
    assert!(zero.lt(&top));
    assert!(!top.lt(&bottom));
    assert!(!zero.lt(&zero));
    assert_eq!(MergePriority::default(), MergePriority::Neutral(0));
}

#[test]
fn labels_compare_by_content() {
    let span = TermPos::Original(RawSpan {
        src_id: 0,
        start: 1,
        end: 2,
    });
    let l1 = Label::new(span).with_diagnostic_message("boom".to_string());
    let l2 = Label::new(span).with_diagnostic_message("boom".to_string());
    let l3 = Label::new(span).with_diagnostic_message("bang".to_string());
    assert!(label_eq(&l1, &l2));
    assert!(!label_eq(&l1, &l3));
    let l4 = Label::new(span).with_diagnostic_notes(vec!["n".to_string()]);
    assert!(!label_eq(&l1, &l4));
}

#[test]
fn positions_inherit_their_span() {
    let span = RawSpan {
        src_id: 2,
        start: 0,
        end: 4,
    };
    assert_eq!(
        TermPos::Original(span).into_inherited(),
        TermPos::Inherited(span)
    );
    assert_eq!(
        TermPos::Inherited(span).into_inherited(),
        TermPos::Inherited(span)
    );
    assert_eq!(TermPos::Unknown.into_inherited(), TermPos::Unknown);
}

#[test]
fn record_attrs_merge_by_or() {
    let open = RecordAttrs { open: true };
    let closed = RecordAttrs { open: false };
    assert!(RecordAttrs::merge(open, closed).open);
    assert!(RecordAttrs::merge(closed, open).open);
    assert!(!RecordAttrs::merge(closed, closed).open);
}

#[test]
fn interned_names_are_kept() {
    let mut cache = Cache::new();
    let x = cache.intern("x".to_string());
    let y = cache.intern("y".to_string());
    assert_ne!(x, y);
    assert_eq!(cache.name_of(x), "x");
    assert_eq!(cache.name_of(y), "y");
    let f = cache.fresh_ident();
    assert_ne!(f, x);
    assert_ne!(f, y);
}
