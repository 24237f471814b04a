//! Algebraic laws of the merge engine, stated over the specification
//! functions that the contracts of [`crate::merge`] use.

use vstd::multiset::Multiset;
use vstd::prelude::*;
use vstd::seq_lib::lemma_multiset_commutative;
use vstd::seq_lib::lemma_seq_union_to_multiset_commutative;

use crate::label::{label_sim, opt_string_sim};
use std::rc::Rc;

use crate::cache::Cache;
use crate::env::Environment;
use crate::ident::Ident;
use crate::merge::{
    atomic_merge_ok, carried_field_ok, field_of, is_atomic, merge_doc_spec, merge_mismatch,
    merged_contracts, merged_entry_ok, merged_field_ok, merged_typ, spec_merged_priority,
    spec_value_sel, FieldSel, MergeMode,
};
use crate::record::{Field, LabeledType, MergePriority, RecordData, TypeAnnotation};
use crate::term::Term;

verus! {

/// The strict order on priorities is total: two priorities are equal or one
/// is strictly below the other, never both.
pub proof fn lemma_priority_order_total(a: MergePriority, b: MergePriority)
    ensures
        a == b || a.spec_lt(b) || b.spec_lt(a),
        !(a.spec_lt(b) && b.spec_lt(a)),
        !a.spec_lt(a),
{
}

/// Priority dominance: when the first field holds a value at a strictly
/// higher priority, the merged field takes that value and that priority,
/// independent of definition order.
pub proof fn lemma_priority_dominance(f1: Field, f2: Field)
    requires
        f2.metadata.priority.spec_lt(f1.metadata.priority),
        f1.value is Some,
    ensures
        spec_value_sel(f1, f2) is Left,
        spec_merged_priority(f1, f2) == f1.metadata.priority,
        spec_value_sel(f2, f1) is Right,
        spec_merged_priority(f2, f1) == f1.metadata.priority,
{
    lemma_priority_order_total(f1.metadata.priority, f2.metadata.priority);
}

/// All type-like annotations of a field, as one multiset: the declared type,
/// if any, together with the contracts. This is the view under which
/// annotation merging is commutative.
pub open spec fn annotation_multiset(typ: Option<LabeledType>, contracts: Seq<LabeledType>)
    -> Multiset<LabeledType> {
    match typ {
        Some(t) => contracts.to_multiset().insert(t),
        None => contracts.to_multiset(),
    }
}

/// Merging equal atomic values is defined and returns that value: merge is
/// idempotent on atomic terms.
pub proof fn lemma_atomic_merge_idempotent(x: Term)
    requires
        is_atomic(x),
    ensures
        atomic_merge_ok(x, x),
{
}

/// Compatibility of atomic values is symmetric: a standard merge of two
/// atomic values succeeds in one order exactly when it succeeds in the other,
/// and then both orders return the same value up to label similarity.
pub proof fn lemma_atomic_merge_commutative(x: Term, y: Term)
    ensures
        atomic_merge_ok(x, y) == atomic_merge_ok(y, x),
{
}

/// Commutativity of the outcome of a standard merge: the operands make a
/// standard merge fail with a structural mismatch in one order exactly when
/// they do in the other order, and an atomic merge succeeds in one order
/// exactly when it succeeds in the other.
pub proof fn lemma_standard_merge_outcome_symmetric(x: Term, y: Term)
    ensures
        merge_mismatch(x, y, MergeMode::Standard) == merge_mismatch(y, x, MergeMode::Standard),
        (is_atomic(x) && atomic_merge_ok(x, y)) == (is_atomic(y) && atomic_merge_ok(y, x)),
{
}

/// Commutativity of field merging, standard mode. The merged metadata is the
/// same in both orders: optionality, export suppression and the resulting
/// priority agree exactly; the value is merged, taken from the same winning
/// side, or absent, in both orders; the documentation agrees whenever at most
/// one side is documented (with both sides documented, the first wins, so the
/// two orders differ there); and the type-like annotations agree as a
/// multiset, which absorbs the arbitrary choice of the first side's declared
/// type over the second's.
pub proof fn lemma_merge_fields_commutative(f1: Field, f2: Field)
    ensures
        (f1.metadata.opt && f2.metadata.opt) == (f2.metadata.opt && f1.metadata.opt),
        (f1.metadata.not_exported || f2.metadata.not_exported) == (f2.metadata.not_exported
            || f1.metadata.not_exported),
        spec_merged_priority(f1, f2) == spec_merged_priority(f2, f1),
        spec_value_sel(f1, f2) is Neither <==> spec_value_sel(f2, f1) is Neither,
        spec_value_sel(f1, f2) is Merged <==> spec_value_sel(f2, f1) is Merged,
        spec_value_sel(f1, f2) is Left <==> spec_value_sel(f2, f1) is Right,
        (f1.metadata.doc is None || f2.metadata.doc is None) ==> opt_string_sim(
            merge_doc_spec(f1.metadata.doc, f2.metadata.doc),
            merge_doc_spec(f2.metadata.doc, f1.metadata.doc),
        ),
        annotation_multiset(
            merged_typ(f1.metadata.annotation, f2.metadata.annotation),
            merged_contracts(f1.metadata.annotation, f2.metadata.annotation),
        ) =~= annotation_multiset(
            merged_typ(f2.metadata.annotation, f1.metadata.annotation),
            merged_contracts(f2.metadata.annotation, f1.metadata.annotation),
        ),
{
    lemma_priority_order_total(f1.metadata.priority, f2.metadata.priority);
    let a1 = f1.metadata.annotation;
    let a2 = f2.metadata.annotation;
    lemma_annotation_merge_commutative(a1, a2);
}

/// The annotation part of commutativity: seen as a multiset of type-like
/// annotations, merging annotations is symmetric.
pub proof fn lemma_annotation_merge_commutative(a1: TypeAnnotation, a2: TypeAnnotation)
    ensures
        annotation_multiset(merged_typ(a1, a2), merged_contracts(a1, a2)) =~= annotation_multiset(
            merged_typ(a2, a1),
            merged_contracts(a2, a1),
        ),
{
    let c1 = a1.contracts@;
    let c2 = a2.contracts@;
    c1.to_multiset_ensures();
    c2.to_multiset_ensures();
    lemma_multiset_commutative(c1, c2);
    lemma_multiset_commutative(c2, c1);
    lemma_seq_union_to_multiset_commutative(c1, c2);
    match (a1.typ, a2.typ) {
        (Some(t1), Some(t2)) => {
            lemma_multiset_commutative(c1.push(t2), c2);
            lemma_multiset_commutative(c2.push(t1), c1);
            c1.push(t2).to_multiset_ensures();
            c2.push(t1).to_multiset_ensures();
            assert(annotation_multiset(Some(t1), c1.push(t2) + c2) =~= c1.to_multiset().add(
                c2.to_multiset(),
            ).insert(t1).insert(t2));
            assert(annotation_multiset(Some(t2), c2.push(t1) + c1) =~= c2.to_multiset().add(
                c1.to_multiset(),
            ).insert(t2).insert(t1));
        },
        _ => {},
    }
}

/// Idempotence of field merging on plain fields: merging a field that has a
/// value with itself keeps its metadata. Annotations are kept only for
/// unannotated fields: a declared type or contract is accumulated from both
/// sides, so merging an annotated field with itself duplicates it, and a
/// field without a value falls back to the default priority.
pub proof fn lemma_merge_fields_idempotent(f: Field)
    requires
        f.value is Some || f.metadata.priority == MergePriority::Neutral(0),
        f.metadata.annotation.typ is None,
        f.metadata.annotation.contracts@.len() == 0,
    ensures
        merge_doc_spec(f.metadata.doc, f.metadata.doc) == f.metadata.doc,
        (f.metadata.opt && f.metadata.opt) == f.metadata.opt,
        (f.metadata.not_exported || f.metadata.not_exported) == f.metadata.not_exported,
        spec_merged_priority(f, f) == f.metadata.priority,
        spec_value_sel(f, f) is Neither <==> f.value is None,
        merged_typ(f.metadata.annotation, f.metadata.annotation) is None,
        merged_contracts(f.metadata.annotation, f.metadata.annotation).len() == 0,
{
    assert(f.metadata.annotation.contracts@ + f.metadata.annotation.contracts@
        =~= Seq::<LabeledType>::empty());
}

/// Commutativity of record merging in standard mode, at the level of the
/// merge engine's postcondition: take the two merges of the same records in
/// the two orders, and in each result a field of the same name. The two
/// merged fields carry the same optionality, export suppression, priority,
/// documentation presence and value presence, and the same type-like
/// annotations as a multiset, which absorbs the arbitrary choice of the
/// first side's declared type. The text of the documentation agrees under
/// the same proviso as [`lemma_merge_fields_commutative`]: with both sides
/// documented, the first side wins, so the two orders differ there. The
/// merged field values themselves are fresh thunks in two different caches
/// and are compared by evaluation, not structurally.
pub proof fn lemma_record_merge_commutative(
    e12: (Ident, Rc<Field>),
    e21: (Ident, Rc<Field>),
    d1: RecordData,
    d2: RecordData,
    env_1: Environment,
    env_2: Environment,
    names12: Seq<Ident>,
    names21: Seq<Ident>,
    c0: Cache,
    c12: Cache,
    c21: Cache,
    out12: Environment,
    out21: Environment,
)
    requires
        d1.fields.wf(),
        d2.fields.wf(),
        e12.0.sym == e21.0.sym,
        merged_entry_ok(e12, d1, d2, env_1, env_2, names12, c0, c12, out12),
        merged_entry_ok(e21, d2, d1, env_2, env_1, names21, c0, c21, out21),
    ensures
        field_of(e12.1).metadata.opt == field_of(e21.1).metadata.opt,
        field_of(e12.1).metadata.not_exported == field_of(e21.1).metadata.not_exported,
        field_of(e12.1).metadata.priority == field_of(e21.1).metadata.priority,
        field_of(e12.1).metadata.doc is Some <==> field_of(e21.1).metadata.doc is Some,
        field_of(e12.1).value is Some <==> field_of(e21.1).value is Some,
        field_of(e12.1).pending_contracts@.len() == field_of(e21.1).pending_contracts@.len(),
        annotation_multiset(
            field_of(e12.1).metadata.annotation.typ,
            field_of(e12.1).metadata.annotation.contracts@,
        ) =~= annotation_multiset(
            field_of(e21.1).metadata.annotation.typ,
            field_of(e21.1).metadata.annotation.contracts@,
        ),
{
    let s = e12.0.sym;
    let fx = field_of(e12.1);
    let fy = field_of(e21.1);
    if d1.fields.contains_sym(s) && d2.fields.contains_sym(s) {
        let (j, k) = choose|j: int, k: int|
            0 <= j < d1.fields.entries@.len() && 0 <= k < d2.fields.entries@.len() && (
            #[trigger] d1.fields.entries@[j]).0.sym == s && (
            #[trigger] d2.fields.entries@[k]).0.sym == s && merged_field_ok(
                fx,
                field_of(d1.fields.entries@[j].1),
                field_of(d2.fields.entries@[k].1),
                env_1,
                env_2,
                names12,
                c0,
                c12,
                out12,
            );
        let (k2, j2) = choose|k2: int, j2: int|
            0 <= k2 < d2.fields.entries@.len() && 0 <= j2 < d1.fields.entries@.len() && (
            #[trigger] d2.fields.entries@[k2]).0.sym == s && (
            #[trigger] d1.fields.entries@[j2]).0.sym == s && merged_field_ok(
                fy,
                field_of(d2.fields.entries@[k2].1),
                field_of(d1.fields.entries@[j2].1),
                env_2,
                env_1,
                names21,
                c0,
                c21,
                out21,
            );
        // Unique field names pin the sources: both orders combine the same
        // two fields.
        assert(j == j2);
        assert(k == k2);
        let f1 = field_of(d1.fields.entries@[j].1);
        let f2 = field_of(d2.fields.entries@[k].1);
        lemma_merge_fields_commutative(f1, f2);
        lemma_priority_order_total(f1.metadata.priority, f2.metadata.priority);
    } else if d1.fields.contains_sym(s) {
        let j = choose|j: int|
            0 <= j < d1.fields.entries@.len() && (#[trigger] d1.fields.entries@[j]).0.sym == s
                && carried_field_ok(fx, field_of(d1.fields.entries@[j].1), env_1, c0, c12, out12);
        let j2 = choose|j2: int|
            0 <= j2 < d1.fields.entries@.len() && (#[trigger] d1.fields.entries@[j2]).0.sym == s
                && carried_field_ok(fy, field_of(d1.fields.entries@[j2].1), env_1, c0, c21, out21);
        assert(j == j2);
    } else {
        let k = choose|k: int|
            0 <= k < d2.fields.entries@.len() && (#[trigger] d2.fields.entries@[k]).0.sym == s
                && carried_field_ok(fx, field_of(d2.fields.entries@[k].1), env_2, c0, c12, out12);
        let k2 = choose|k2: int|
            0 <= k2 < d2.fields.entries@.len() && (#[trigger] d2.fields.entries@[k2]).0.sym == s
                && carried_field_ok(fy, field_of(d2.fields.entries@[k2].1), env_2, c0, c21, out21);
        assert(k == k2);
    }
}

/// Label similarity, the equality under which atomic label values merge, is
/// reflexive and symmetric.
pub proof fn lemma_label_sim_equivalence(a: crate::label::Label, b: crate::label::Label)
    ensures
        label_sim(a, a),
        label_sim(a, b) == label_sim(b, a),
{
}

} // verus!
