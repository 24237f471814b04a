//! The merge engine.
//!
//! Merge is the combinator on two evaluated values. On atomic values it is
//! defined when the two sides are equal, and returns that common value. On
//! records it produces a new recursive record: fields present on one side are
//! carried over (reverted, so that they re-evaluate against the merged
//! record), fields present on both sides are combined by [`merge_fields`],
//! with per-field priorities resolving collisions.
//!
//! Merge also applies record contracts: in [`MergeMode::Contract`] the first
//! operand is the checked value and the second the contract, and a closed
//! contract rejects extra fields with a blame error.

use std::rc::Rc;

use vstd::prelude::*;

use crate::cache::{
    entry_reverts, filter_deps, is_app_chain, is_lambda_wrap, spec_evaluated_arg, BindingType,
    Cache, Closure, IdentKind,
};
use crate::env::{env_grew, lemma_env_grew_trans, Environment};
use crate::error::{CallStack, EvalError, IllegalPolymorphicTailAction};
use crate::ident::Ident;
use crate::indexmap::{split, IndexMap, SplitResult};
use crate::label::{label_eq, label_sim, Label, MergeKind, MergeLabel};
use crate::position::TermPos;
use crate::record::{
    clone_fields, Field, FieldDeps, FieldMetadata, LabeledType, MergePriority, PendingContract,
    RecordAttrs, RecordData, TypeAnnotation,
};
use crate::term::{rc_clone, ArrayAttrs, BinaryOp, RichTerm, Term};

verus! {

/// Merging mode: merging combines standard data, and also applies record
/// contracts to values.
#[derive(Debug)]
pub enum MergeMode {
    /// Standard merging, for combining data.
    Standard,
    /// Merging to apply a record contract to a value, with the associated
    /// label. In this mode the first operand is the checked value and the
    /// second the contract: contract merging is not commutative.
    Contract(Label),
}

impl Default for MergeMode {
    /// The default mode is standard merging.
    fn default() -> (r: Self)
        ensures
            r is Standard,
    {
        MergeMode::Standard
    }
}

/// Every free identifier of a stored term resolves, in the accompanying
/// environment, to an index into the cache. Merge operates on terms in share
/// normal form, where a field value is either a variable pointing into the
/// cache or a constant; this predicate is what merge needs of them.
pub open spec fn term_closurized(t: RichTerm, e: Environment, n: nat) -> bool {
    match *t.term {
        Term::Var(id) => match e.spec_lookup(id.sym) {
            Some(i) => i < n,
            None => false,
        },
        _ => true,
    }
}

/// The value and every pending contract of the field are closurized.
pub open spec fn field_closurized(f: Field, e: Environment, n: nat) -> bool {
    &&& (match f.value {
        Some(v) => term_closurized(v, e, n),
        None => true,
    })
    &&& (forall|i: int|
        0 <= i < f.pending_contracts@.len() ==> term_closurized(
            (#[trigger] f.pending_contracts@[i]).contract,
            e,
            n,
        ))
}

/// What merge requires of an evaluated record: unique field names, closurized
/// fields, and interned field names.
pub open spec fn record_closurized(d: RecordData, e: Environment, c: Cache) -> bool {
    &&& d.fields.wf()
    &&& (forall|i: int|
        0 <= i < d.fields.entries@.len() ==> field_closurized(
            *(#[trigger] d.fields.entries@[i]).1,
            e,
            c.entries@.len(),
        ))
    &&& (forall|i: int|
        0 <= i < d.fields.entries@.len() ==> (#[trigger] d.fields.entries@[i]).0.sym
            < c.idents.names@.len())
}

/// The cache `b` extends the cache `a`: entries and interned names are only
/// ever appended, never changed or removed.
pub open spec fn cache_extends(a: Cache, b: Cache) -> bool {
    &&& a.entries@.len() <= b.entries@.len()
    &&& (forall|i: int| 0 <= i < a.entries@.len() ==> b.entries@[i] == a.entries@[i])
    &&& a.idents.names@.len() <= b.idents.names@.len()
    &&& (forall|i: int| 0 <= i < a.idents.names@.len() ==> b.idents.names@[i] == a.idents.names@[i])
}

/// The environment `b` resolves every symbol below `bound` as `a` does:
/// output environments are only ever extended with fresh identifiers.
pub open spec fn env_preserved_below(a: Environment, b: Environment, bound: nat) -> bool {
    forall|s: usize| s < bound ==> #[trigger] b.spec_lookup(s) == a.spec_lookup(s)
}

/// Is the term one of the atomic variants, on which merge is equality?
pub open spec fn is_atomic(t: Term) -> bool {
    match t {
        Term::Null => true,
        Term::Bool(_) => true,
        Term::Num(_) => true,
        Term::Str(_) => true,
        Term::Lbl(_) => true,
        Term::Enum(_) => true,
        _ => false,
    }
}

/// Merge combines two atomic values exactly when they are equal: the same
/// variant with the same contents. Numbers are compared exactly.
pub open spec fn atomic_merge_ok(x: Term, y: Term) -> bool {
    match (x, y) {
        (Term::Null, Term::Null) => true,
        (Term::Bool(a), Term::Bool(b)) => a == b,
        (Term::Num(a), Term::Num(b)) => a == b,
        (Term::Str(a), Term::Str(b)) => a@ == b@,
        (Term::Lbl(a), Term::Lbl(b)) => label_sim(a, b),
        (Term::Enum(a), Term::Enum(b)) => a == b,
        _ => false,
    }
}

/// Documentation of a merged field: the first side wins when both sides are
/// documented.
pub open spec fn merge_doc_spec(doc1: Option<String>, doc2: Option<String>) -> Option<String> {
    if doc1 is Some {
        doc1
    } else {
        doc2
    }
}

/// Merge two optional documentations.
pub fn merge_doc(doc1: Option<String>, doc2: Option<String>) -> (r: Option<String>)
    ensures
        r == merge_doc_spec(doc1, doc2),
{
    match doc1 {
        Some(d) => Some(d),
        None => doc2,
    }
}

/// Which side a merged field takes its value from.
#[derive(Clone, Copy, PartialEq, Eq, Structural, Debug)]
pub enum FieldSel {
    /// Both sides define the field at the same priority: the values are
    /// merged recursively.
    Merged,
    /// The first side's value is taken.
    Left,
    /// The second side's value is taken.
    Right,
    /// Neither side defines a value.
    Neither,
}

/// The value selection of [`merge_fields`]: priorities govern, a side without
/// a value never wins, and equal priorities merge recursively.
pub open spec fn spec_value_sel(f1: Field, f2: Field) -> FieldSel {
    let p1 = f1.metadata.priority;
    let p2 = f2.metadata.priority;
    match (f1.value, f2.value) {
        (Some(_), Some(_)) => if p1 == p2 {
            FieldSel::Merged
        } else if p2.spec_lt(p1) {
            FieldSel::Left
        } else {
            FieldSel::Right
        },
        (Some(_), None) => FieldSel::Left,
        (None, Some(_)) => FieldSel::Right,
        (None, None) => FieldSel::Neither,
    }
}

/// The priority of a merged field: the priority of the winning side, and the
/// default priority when neither side has a value.
pub open spec fn spec_merged_priority(f1: Field, f2: Field) -> MergePriority {
    match spec_value_sel(f1, f2) {
        FieldSel::Merged => f1.metadata.priority,
        FieldSel::Left => f1.metadata.priority,
        FieldSel::Right => f2.metadata.priority,
        FieldSel::Neither => MergePriority::Neutral(0),
    }
}

/// The declared type of a merged field: the first side's type when present,
/// else the second side's.
pub open spec fn merged_typ(a1: TypeAnnotation, a2: TypeAnnotation) -> Option<LabeledType> {
    if a1.typ is Some {
        a1.typ
    } else {
        a2.typ
    }
}

/// The contracts of a merged field: the first side's contracts followed by
/// the second side's. When both sides declare a type, the second type is
/// demoted to a contract, appended at the end of the first side's contracts.
pub open spec fn merged_contracts(a1: TypeAnnotation, a2: TypeAnnotation) -> Seq<LabeledType> {
    if a1.typ is Some && a2.typ is Some {
        a1.contracts@.push(a2.typ.unwrap()) + a2.contracts@
    } else {
        a1.contracts@ + a2.contracts@
    }
}

/// A field name quoted for a diagnostic message.
pub open spec fn quoted(name: Seq<char>) -> Seq<char> {
    "`"@ + name + "`"@
}

/// Quoted field names joined with commas.
pub open spec fn joined_names(names: Seq<Seq<char>>) -> Seq<char>
    decreases names.len(),
{
    if names.len() == 0 {
        Seq::empty()
    } else if names.len() == 1 {
        quoted(names[0])
    } else {
        joined_names(names.drop_last()) + ","@ + quoted(names.last())
    }
}

/// The diagnostic message a closed record contract raises for extra fields.
pub open spec fn extra_fields_msg(names: Seq<Seq<char>>) -> Seq<char> {
    "extra field"@ + (if names.len() == 1 {
        Seq::<char>::empty()
    } else {
        "s"@
    }) + " "@ + joined_names(names)
}

/// The first note attached to an extra-fields blame error.
pub open spec fn misspell_note() -> Seq<char> {
    "Have you misspelled a field?"@
}

/// The second note attached to an extra-fields blame error.
pub open spec fn open_contract_note() -> Seq<char> {
    "The record contract might also be too strict. By default, record contracts exclude any field which is not listed.\nAppend `, ..` at the end of the record contract, as in `{some_field | SomeContract, ..}`, to make it accept extra fields."@
}

impl RichTerm {
    /// Revert the cache entry a field value points at, and bind the reverted
    /// entry to a fresh identifier in `env`: the treatment of fields carried
    /// unchanged from one side of a merge into the combined record. A term
    /// that is not a variable is a constant and passes through.
    pub fn revert_closurize(self, cache: &mut Cache, env: &mut Environment, with_env: Environment)
        -> (r: RichTerm)
        requires
            term_closurized(self, with_env, old(cache).entries@.len()),
        ensures
            cache_extends(*old(cache), *final(cache)),
            env_preserved_below(*old(env), *final(env), old(cache).idents.names@.len()),
            env_grew(*old(env), *final(env)),
            r.pos == self.pos,
            reverted_term_ok(self, r, with_env, *old(cache), *final(cache), *final(env)),
            match *self.term {
                Term::Var(id) => {
                    let src_idx = with_env.spec_lookup(id.sym).unwrap();
                    &&& final(cache).entries@.len() == old(cache).entries@.len() + 1
                    &&& (match *r.term {
                        Term::Var(v) => {
                            &&& v.sym == old(cache).idents.names@.len()
                            &&& final(env).spec_lookup(v.sym) == Some(
                                old(cache).entries@.len() as usize,
                            )
                        },
                        _ => false,
                    })
                    &&& entry_reverts(
                        final(cache).entries@[old(cache).entries@.len() as int],
                        old(cache).entries@[src_idx as int],
                    )
                },
                _ => r == self && *final(cache) == *old(cache) && *final(env) == *old(env),
            },
    {
        let idv: Option<Ident> = match &*self.term {
            Term::Var(id) => Some(*id),
            _ => None,
        };
        match idv {
            Some(id) => {
                let idx = with_env.get(id).unwrap();
                let reverted = cache.revert(idx);
                let fresh_id = cache.fresh_ident();
                env.insert(fresh_id, reverted);
                RichTerm { term: Rc::new(Term::Var(fresh_id)), pos: self.pos }
            },
            None => self,
        }
    }

    /// Saturate the cache entry a field value points at (see
    /// [`Cache::saturate`]), reporting an unbound identifier when the local
    /// environment does not bind the variable. A term that is not a variable
    /// has no dependencies and passes through.
    pub fn saturate(
        self,
        cache: &mut Cache,
        env: &mut Environment,
        local_env: &Environment,
        fields: &Vec<Ident>,
    ) -> (r: Result<RichTerm, EvalError>)
        requires
            match *self.term {
                Term::Var(id) => match local_env.spec_lookup(id.sym) {
                    Some(i) => i < old(cache).entries@.len(),
                    None => true,
                },
                _ => true,
            },
        ensures
            cache_extends(*old(cache), *final(cache)),
            env_preserved_below(*old(env), *final(env), old(cache).idents.names@.len()),
            env_grew(*old(env), *final(env)),
            match *self.term {
                Term::Var(id) => match local_env.spec_lookup(id.sym) {
                    None => r == Err::<RichTerm, EvalError>(
                        EvalError::UnboundIdentifier(id, self.pos),
                    ) && *final(cache) == *old(cache) && *final(env) == *old(env),
                    Some(idx) => match r {
                        Ok(rt) => rt.pos == self.pos && saturated_term_ok(
                            self,
                            rt,
                            *local_env,
                            fields@,
                            *old(cache),
                            *final(cache),
                            *final(env),
                        ),
                        _ => false,
                    },
                },
                _ => r == Ok::<RichTerm, EvalError>(self) && *final(cache) == *old(cache)
                    && *final(env) == *old(env),
            },
    {
        let idv: Option<Ident> = match &*self.term {
            Term::Var(id) => Some(*id),
            _ => None,
        };
        match idv {
            Some(id) => {
                match local_env.get(id) {
                    None => Err(EvalError::UnboundIdentifier(id, self.pos)),
                    Some(idx) => {
                        let names_len = cache.idents.names.len();
                        let entries_len = cache.len();
                        let sat = cache.saturate(idx, env, fields);
                        let rt = sat.with_pos(self.pos);
                        proof {
                            let c0 = *old(cache);
                            assert(names_len == c0.idents.names@.len());
                            assert(entries_len == c0.entries@.len());
                            let src = c0.entries@[idx as int];
                            match src.binding_type {
                                BindingType::Standard => {},
                                BindingType::Revertible(d) => {
                                    let xs = filter_deps(fields@, d);
                                    assert(is_app_chain(names_len, xs, rt));
                                    assert(env.spec_lookup(names_len) == Some(entries_len));
                                    assert(cache.entries@[entries_len as int].binding_type
                                        is Standard);
                                },
                            }
                        }
                        Ok(rt)
                    },
                }
            },
            None => {
                proof {
                    assert(env.frames_seq().skip(0) =~= env.frames_seq());
                }
                Ok(self)
            },
        }
    }
}

/// Does the field value `t`, resolved in `e`, depend on the sibling symbol
/// `s`? This is what the cache records for revertible entries; constants have
/// no dependencies.
pub open spec fn spec_field_deps_has(c: Cache, t: RichTerm, e: Environment, s: usize) -> bool {
    match *t.term {
        Term::Var(id) => match e.spec_lookup(id.sym) {
            Some(i) => i < c.entries@.len() && (match c.entries@[i as int].binding_type {
                BindingType::Revertible(d) => d.has(s),
                BindingType::Standard => false,
            }),
            None => false,
        },
        _ => false,
    }
}

/// The output term of revert-closurizing `orig`. A constant passes through
/// unchanged; a variable resolving to an entry of the cache snapshot `c0`
/// through `with_env` becomes a fresh variable, bound in the output
/// environment `e1` to an entry of the later snapshot `c1`, new relative to
/// `c0`, that reverts the source entry.
pub open spec fn reverted_term_ok(
    orig: RichTerm,
    r: RichTerm,
    with_env: Environment,
    c0: Cache,
    c1: Cache,
    e1: Environment,
) -> bool {
    match *orig.term {
        Term::Var(id) => {
            let src_idx = with_env.spec_lookup(id.sym).unwrap();
            match *r.term {
                Term::Var(v) => {
                    &&& v.sym >= c0.idents.names@.len()
                    &&& v.sym < c1.idents.names@.len()
                    &&& (match e1.spec_lookup(v.sym) {
                        Some(new_idx) => {
                            &&& c0.entries@.len() <= new_idx < c1.entries@.len()
                            &&& entry_reverts(
                                c1.entries@[new_idx as int],
                                c0.entries@[src_idx as int],
                            )
                        },
                        None => false,
                    })
                },
                _ => false,
            }
        },
        _ => r == orig,
    }
}

/// Revert-closurization statements survive later growth of the cache and of
/// the output environment: the fresh entry and binding are never changed
/// again.
pub proof fn lemma_reverted_term_stable(
    orig: RichTerm,
    r: RichTerm,
    with_env: Environment,
    c0: Cache,
    c1: Cache,
    c2: Cache,
    e1: Environment,
    e2: Environment,
)
    requires
        reverted_term_ok(orig, r, with_env, c0, c1, e1),
        cache_extends(c1, c2),
        env_preserved_below(e1, e2, c1.idents.names@.len()),
    ensures
        reverted_term_ok(orig, r, with_env, c0, c2, e2),
{
    match *orig.term {
        Term::Var(id) => {
            match *r.term {
                Term::Var(v) => {
                    assert(e2.spec_lookup(v.sym) == e1.spec_lookup(v.sym));
                },
                _ => {},
            }
        },
        _ => {},
    }
}

/// A revert-closurization statement made against an intermediate snapshot
/// `cm` holds against the earlier snapshot `c0` that the source entry lives
/// in.
pub proof fn lemma_reverted_term_rebase(
    orig: RichTerm,
    r: RichTerm,
    with_env: Environment,
    c0: Cache,
    cm: Cache,
    c1: Cache,
    e1: Environment,
)
    requires
        reverted_term_ok(orig, r, with_env, cm, c1, e1),
        cache_extends(c0, cm),
        term_closurized(orig, with_env, c0.entries@.len()),
    ensures
        reverted_term_ok(orig, r, with_env, c0, c1, e1),
{
    match *orig.term {
        Term::Var(id) => {
            let src_idx = with_env.spec_lookup(id.sym).unwrap();
            assert(cm.entries@[src_idx as int] == c0.entries@[src_idx as int]);
        },
        _ => {},
    }
}

/// The output term of saturating `orig` (see [`Cache::saturate`]). A
/// constant passes through unchanged. A variable resolving through
/// `local_env` to a standard entry of the snapshot `c0` becomes a fresh
/// variable bound to that same entry. One resolving to a revertible entry
/// with dependency set `d` becomes the application, to the identifiers
/// `filter_deps(fields, d)` themselves, of a fresh variable bound in `e1` to
/// a new standard entry of `c1` holding the abstraction of the source's
/// original body over those identifiers, under the source's environment.
pub open spec fn saturated_term_ok(
    orig: RichTerm,
    r: RichTerm,
    local_env: Environment,
    fields: Seq<Ident>,
    c0: Cache,
    c1: Cache,
    e1: Environment,
) -> bool {
    match *orig.term {
        Term::Var(id) => match local_env.spec_lookup(id.sym) {
            Some(src_idx) => {
                let src = c0.entries@[src_idx as int];
                match src.binding_type {
                    BindingType::Standard => (match *r.term {
                        Term::Var(v) => {
                            &&& v.sym >= c0.idents.names@.len()
                            &&& v.sym < c1.idents.names@.len()
                            &&& e1.spec_lookup(v.sym) == Some(src_idx)
                        },
                        _ => false,
                    }),
                    BindingType::Revertible(d) => {
                        let xs = filter_deps(fields, d);
                        exists|vsym: usize|
                            {
                                &&& #[trigger] is_app_chain(vsym, xs, r)
                                &&& vsym >= c0.idents.names@.len()
                                &&& vsym < c1.idents.names@.len()
                                &&& (match e1.spec_lookup(vsym) {
                                    Some(new_idx) => {
                                        &&& c0.entries@.len() <= new_idx < c1.entries@.len()
                                        &&& ({
                                            let e = c1.entries@[new_idx as int];
                                            &&& is_lambda_wrap(xs, src.orig_body, e.body)
                                            &&& e.orig_body == e.body
                                            &&& e.env == src.env
                                            &&& e.kind == src.kind
                                            &&& e.binding_type is Standard
                                            &&& e.current_value is None
                                        })
                                    },
                                    None => false,
                                })
                            }
                    },
                }
            },
            None => false,
        },
        _ => r == orig,
    }
}

/// Saturation statements survive later growth of the cache and of the output
/// environment.
pub proof fn lemma_saturated_term_stable(
    orig: RichTerm,
    r: RichTerm,
    local_env: Environment,
    fields: Seq<Ident>,
    c0: Cache,
    c1: Cache,
    c2: Cache,
    e1: Environment,
    e2: Environment,
)
    requires
        saturated_term_ok(orig, r, local_env, fields, c0, c1, e1),
        cache_extends(c1, c2),
        env_preserved_below(e1, e2, c1.idents.names@.len()),
    ensures
        saturated_term_ok(orig, r, local_env, fields, c0, c2, e2),
{
    match *orig.term {
        Term::Var(id) => {
            match local_env.spec_lookup(id.sym) {
                Some(src_idx) => {
                    let src = c0.entries@[src_idx as int];
                    match src.binding_type {
                        BindingType::Standard => {
                            match *r.term {
                                Term::Var(v) => {
                                    assert(e2.spec_lookup(v.sym) == e1.spec_lookup(v.sym));
                                },
                                _ => {},
                            }
                        },
                        BindingType::Revertible(d) => {
                            let xs = filter_deps(fields, d);
                            let vsym = choose|vsym: usize|
                                {
                                    &&& #[trigger] is_app_chain(vsym, xs, r)
                                    &&& vsym >= c0.idents.names@.len()
                                    &&& vsym < c1.idents.names@.len()
                                    &&& (match e1.spec_lookup(vsym) {
                                        Some(new_idx) => {
                                            &&& c0.entries@.len() <= new_idx < c1.entries@.len()
                                            &&& ({
                                                let e = c1.entries@[new_idx as int];
                                                &&& is_lambda_wrap(xs, src.orig_body, e.body)
                                                &&& e.orig_body == e.body
                                                &&& e.env == src.env
                                                &&& e.kind == src.kind
                                                &&& e.binding_type is Standard
                                                &&& e.current_value is None
                                            })
                                        },
                                        None => false,
                                    })
                                };
                            assert(e2.spec_lookup(vsym) == e1.spec_lookup(vsym));
                            let new_idx = e1.spec_lookup(vsym).unwrap();
                            assert(c2.entries@[new_idx as int] == c1.entries@[new_idx as int]);
                        },
                    }
                },
                None => {},
            }
        },
        _ => {},
    }
}

/// A saturation statement made against an intermediate snapshot `cm` holds
/// against the earlier snapshot `c0` that the source entry lives in.
pub proof fn lemma_saturated_term_rebase(
    orig: RichTerm,
    r: RichTerm,
    local_env: Environment,
    fields: Seq<Ident>,
    c0: Cache,
    cm: Cache,
    c1: Cache,
    e1: Environment,
)
    requires
        saturated_term_ok(orig, r, local_env, fields, cm, c1, e1),
        cache_extends(c0, cm),
        term_closurized(orig, local_env, c0.entries@.len()),
    ensures
        saturated_term_ok(orig, r, local_env, fields, c0, c1, e1),
{
    match *orig.term {
        Term::Var(id) => {
            let src_idx = local_env.spec_lookup(id.sym).unwrap();
            assert(cm.entries@[src_idx as int] == c0.entries@[src_idx as int]);
        },
        _ => {},
    }
}

/// The dependencies of a field value: the declared dependency set of the
/// cache entry it points at, and the empty set for constants and standard
/// entries.
pub fn field_deps(cache: &Cache, rt: &RichTerm, local_env: &Environment) -> (r: Result<
    FieldDeps,
    EvalError,
>)
    requires
        match *rt.term {
            Term::Var(id) => match local_env.spec_lookup(id.sym) {
                Some(i) => i < cache.entries@.len(),
                None => true,
            },
            _ => true,
        },
    ensures
        match r {
            Ok(d) => (match *rt.term {
                Term::Var(id) => local_env.spec_lookup(id.sym) is Some,
                _ => true,
            }) && forall|s: usize|
                #[trigger] d.has(s) <==> spec_field_deps_has(*cache, *rt, *local_env, s),
            Err(e) => match *rt.term {
                Term::Var(id) => local_env.spec_lookup(id.sym) is None && e
                    == EvalError::UnboundIdentifier(id, rt.pos),
                _ => false,
            },
        },
{
    let idv: Option<Ident> = match &*rt.term {
        Term::Var(id) => Some(*id),
        _ => None,
    };
    match idv {
        Some(id) => {
            match local_env.get(id) {
                None => Err(EvalError::UnboundIdentifier(id, rt.pos)),
                Some(idx) => {
                    match cache.deps(idx) {
                        Some(d) => Ok(d),
                        None => Ok(FieldDeps::empty()),
                    }
                },
            }
        },
        None => Ok(FieldDeps::empty()),
    }
}

/// The value of a field merged from both sides at equal priority: a fresh
/// variable bound in the output environment `e1` to a new revertible thunk
/// of the cache snapshot `c1` whose body merges the two saturated source
/// values under a fresh local environment, and whose dependency set is the
/// union of the dependencies of the two sides (stored as a standard entry
/// exactly when that union is empty).
pub open spec fn merged_value_ok(
    t1: RichTerm,
    env_1: Environment,
    t2: RichTerm,
    env_2: Environment,
    fields: Seq<Ident>,
    r: RichTerm,
    c0: Cache,
    c1: Cache,
    e1: Environment,
) -> bool {
    match *r.term {
        Term::Var(v) => {
            &&& v.sym >= c0.idents.names@.len()
            &&& v.sym < c1.idents.names@.len()
            &&& (match e1.spec_lookup(v.sym) {
                Some(idx) => {
                    &&& c0.entries@.len() <= idx < c1.entries@.len()
                    &&& ({
                        let e = c1.entries@[idx as int];
                        &&& e.kind == IdentKind::Record
                        &&& e.current_value is None
                        &&& (forall|s: usize|
                            s < c0.idents.names@.len() ==> #[trigger] e.env.spec_lookup(s)
                                is None)
                        &&& (match *e.body.term {
                            Term::Op2(op, s1, s2) => {
                                &&& op is Merge
                                &&& saturated_term_ok(t1, s1, env_1, fields, c0, c1, e.env)
                                &&& saturated_term_ok(t2, s2, env_2, fields, c0, c1, e.env)
                            },
                            _ => false,
                        })
                        &&& (match e.binding_type {
                            BindingType::Revertible(d) => forall|s: usize|
                                #[trigger] d.has(s) <==> (spec_field_deps_has(c0, t1, env_1, s)
                                    || spec_field_deps_has(c0, t2, env_2, s)),
                            BindingType::Standard => forall|s: usize|
                                !(spec_field_deps_has(c0, t1, env_1, s) || spec_field_deps_has(
                                    c0,
                                    t2,
                                    env_2,
                                    s,
                                )),
                        })
                    })
                },
                None => false,
            })
        },
        _ => false,
    }
}

/// Merged-thunk statements survive later growth of the cache and of the
/// output environment.
pub proof fn lemma_merged_value_stable(
    t1: RichTerm,
    env_1: Environment,
    t2: RichTerm,
    env_2: Environment,
    fields: Seq<Ident>,
    r: RichTerm,
    c0: Cache,
    c1: Cache,
    c2: Cache,
    e1: Environment,
    e2: Environment,
)
    requires
        merged_value_ok(t1, env_1, t2, env_2, fields, r, c0, c1, e1),
        cache_extends(c1, c2),
        env_preserved_below(e1, e2, c1.idents.names@.len()),
    ensures
        merged_value_ok(t1, env_1, t2, env_2, fields, r, c0, c2, e2),
{
    match *r.term {
        Term::Var(v) => {
            assert(e2.spec_lookup(v.sym) == e1.spec_lookup(v.sym));
            let idx = e1.spec_lookup(v.sym).unwrap();
            assert(c2.entries@[idx as int] == c1.entries@[idx as int]);
            let e = c1.entries@[idx as int];
            match *e.body.term {
                Term::Op2(op, s1, s2) => {
                    lemma_saturated_term_stable(t1, s1, env_1, fields, c0, c1, c2, e.env, e.env);
                    lemma_saturated_term_stable(t2, s2, env_2, fields, c0, c1, c2, e.env, e.env);
                },
                _ => {},
            }
        },
        _ => {},
    }
}

/// A merged-thunk statement made against an intermediate snapshot `cm` holds
/// against the earlier snapshot `c0` that the source entries live in.
pub proof fn lemma_merged_value_rebase(
    t1: RichTerm,
    env_1: Environment,
    t2: RichTerm,
    env_2: Environment,
    fields: Seq<Ident>,
    r: RichTerm,
    c0: Cache,
    cm: Cache,
    c1: Cache,
    e1: Environment,
)
    requires
        merged_value_ok(t1, env_1, t2, env_2, fields, r, cm, c1, e1),
        cache_extends(c0, cm),
        term_closurized(t1, env_1, c0.entries@.len()),
        term_closurized(t2, env_2, c0.entries@.len()),
    ensures
        merged_value_ok(t1, env_1, t2, env_2, fields, r, c0, c1, e1),
{
    match *r.term {
        Term::Var(v) => {
            match e1.spec_lookup(v.sym) {
                Some(idx) => {
                    let e = c1.entries@[idx as int];
                    match *e.body.term {
                        Term::Op2(op, s1, s2) => {
                            lemma_saturated_term_rebase(t1, s1, env_1, fields, c0, cm, c1, e.env);
                            lemma_saturated_term_rebase(t2, s2, env_2, fields, c0, cm, c1, e.env);
                        },
                        _ => {},
                    }
                    assert forall|s: usize|
                        #[trigger] spec_field_deps_has(cm, t1, env_1, s) == spec_field_deps_has(
                            c0,
                            t1,
                            env_1,
                            s,
                        ) by {
                        match *t1.term {
                            Term::Var(id) => {
                                match env_1.spec_lookup(id.sym) {
                                    Some(i) => {
                                        assert(cm.entries@[i as int] == c0.entries@[i as int]);
                                    },
                                    None => {},
                                }
                            },
                            _ => {},
                        }
                    }
                    assert forall|s: usize|
                        #[trigger] spec_field_deps_has(cm, t2, env_2, s) == spec_field_deps_has(
                            c0,
                            t2,
                            env_2,
                            s,
                        ) by {
                        match *t2.term {
                            Term::Var(id) => {
                                match env_2.spec_lookup(id.sym) {
                                    Some(i) => {
                                        assert(cm.entries@[i as int] == c0.entries@[i as int]);
                                    },
                                    None => {},
                                }
                            },
                            _ => {},
                        }
                    }
                    match e.binding_type {
                        BindingType::Revertible(d) => {
                            assert forall|s: usize|
                                #[trigger] d.has(s) <==> (spec_field_deps_has(c0, t1, env_1, s)
                                    || spec_field_deps_has(c0, t2, env_2, s)) by {
                                assert(d.has(s) <==> (spec_field_deps_has(cm, t1, env_1, s)
                                    || spec_field_deps_has(cm, t2, env_2, s)));
                            }
                        },
                        BindingType::Standard => {
                            assert forall|s: usize|
                                !(spec_field_deps_has(c0, t1, env_1, s) || spec_field_deps_has(
                                    c0,
                                    t2,
                                    env_2,
                                    s,
                                )) by {
                                assert(!(spec_field_deps_has(cm, t1, env_1, s)
                                    || spec_field_deps_has(cm, t2, env_2, s)));
                            }
                        },
                    }
                },
                None => {},
            }
        },
        _ => {},
    }
}

/// Merge the two values of a field defined on both sides at equal priority:
/// the result is a fresh revertible thunk whose body merges the two saturated
/// values and whose dependency set is the union of the dependencies of the
/// two sides, bound to a fresh identifier in `env`. This is the crux of
/// override propagation: a future override of any sibling either side reads
/// will be visible to the merged field.
pub fn fields_merge_closurize(
    cache: &mut Cache,
    env: &mut Environment,
    t1: RichTerm,
    env1: &Environment,
    t2: RichTerm,
    env2: &Environment,
    fields: &Vec<Ident>,
) -> (r: Result<RichTerm, EvalError>)
    requires
        term_closurized(t1, *env1, old(cache).entries@.len()),
        term_closurized(t2, *env2, old(cache).entries@.len()),
    ensures
        cache_extends(*old(cache), *final(cache)),
        env_preserved_below(*old(env), *final(env), old(cache).idents.names@.len()),
        env_grew(*old(env), *final(env)),
        r is Ok,
        match r {
            Ok(rt) => {
                &&& rt.pos == TermPos::Unknown
                &&& merged_value_ok(
                    t1,
                    *env1,
                    t2,
                    *env2,
                    fields@,
                    rt,
                    *old(cache),
                    *final(cache),
                    *final(env),
                )
                // Exactly one new binding, for a previously unused
                // identifier, is layered onto the output environment.
                &&& (match (*rt.term, final(env).head) {
                    (Term::Var(v), Some(n)) => n.id == v && Some(n.idx) == final(env).spec_lookup(
                        v.sym,
                    ) && n.rest == *old(env),
                    _ => false,
                })
            },
            Err(_) => false,
        },
{
    let mut local_env = Environment::new();
    let d1 = match field_deps(cache, &t1, env1) {
        Ok(d) => d,
        Err(e) => {
            proof {
                assert(false);
            }
            return Err(e);
        },
    };
    let d2 = match field_deps(cache, &t2, env2) {
        Ok(d) => d,
        Err(e) => {
            proof {
                assert(false);
            }
            return Err(e);
        },
    };
    let combined_deps = d1.union(d2);
    let sat1 = match t1.saturate(cache, &mut local_env, env1, fields) {
        Ok(t) => t,
        Err(e) => {
            proof {
                assert(false);
            }
            return Err(e);
        },
    };
    let ghost c_s1 = *cache;
    let ghost lenv_s1 = local_env;
    let sat2 = match t2.saturate(cache, &mut local_env, env2, fields) {
        Ok(t) => t,
        Err(e) => {
            proof {
                assert(false);
            }
            return Err(e);
        },
    };
    let ghost c_s2 = *cache;
    let ghost lenv_s2 = local_env;
    proof {
        // The first saturated value keeps its description under the growth
        // caused by the second saturation; the second is rebased to the
        // entry cache both sources live in.
        lemma_saturated_term_stable(
            t1,
            sat1,
            *env1,
            fields@,
            *old(cache),
            c_s1,
            c_s2,
            lenv_s1,
            lenv_s2,
        );
        lemma_saturated_term_rebase(t2, sat2, *env2, fields@, *old(cache), c_s1, c_s2, lenv_s2);
        // The fresh local environment binds fresh identifiers only.
        assert forall|s: usize|
            s < old(cache).idents.names@.len() implies #[trigger] local_env.spec_lookup(s)
            is None by {
            lemma_env_preserved_trans(
                Environment { head: None },
                lenv_s1,
                lenv_s2,
                old(cache).idents.names@.len(),
                c_s1.idents.names@.len(),
            );
        }
    }
    let body = RichTerm {
        term: Rc::new(
            Term::Op2(
                BinaryOp::Merge(MergeLabel { span: TermPos::Unknown, kind: MergeKind::Standard }),
                sat1,
                sat2,
            ),
        ),
        pos: TermPos::Unknown,
    };
    let ghost gcomb = combined_deps;
    proof {
        if gcomb.idents@.len() == 0 {
            assert forall|s: usize|
                !(spec_field_deps_has(*old(cache), t1, *env1, s) || spec_field_deps_has(
                    *old(cache),
                    t2,
                    *env2,
                    s,
                )) by {
                assert(!gcomb.has(s));
            }
        }
    }
    let fresh_var = cache.fresh_ident();
    let ghost c_f = *cache;
    let idx = cache.add(
        Closure { body, env: local_env },
        IdentKind::Record,
        BindingType::Revertible(combined_deps),
    );
    env.insert(fresh_var, idx);
    let rt = RichTerm { term: Rc::new(Term::Var(fresh_var)), pos: TermPos::Unknown };
    proof {
        let e = cache.entries@[idx as int];
        assert(e.env == lenv_s2);
        assert(cache_extends(c_s2, c_f));
        assert(cache_extends(c_f, *cache));
        lemma_cache_extends_trans(c_s2, c_f, *cache);
        match *e.body.term {
            Term::Op2(op, s1, s2) => {
                lemma_saturated_term_stable(
                    t1,
                    s1,
                    *env1,
                    fields@,
                    *old(cache),
                    c_s2,
                    *cache,
                    e.env,
                    e.env,
                );
                lemma_saturated_term_stable(
                    t2,
                    s2,
                    *env2,
                    fields@,
                    *old(cache),
                    c_s2,
                    *cache,
                    e.env,
                    e.env,
                );
            },
            _ => {
                assert(false);
            },
        }
    }
    Ok(rt)
}


/// Cache extension is transitive.
pub proof fn lemma_cache_extends_trans(a: Cache, b: Cache, c: Cache)
    requires
        cache_extends(a, b),
        cache_extends(b, c),
    ensures
        cache_extends(a, c),
{
    assert forall|i: int| 0 <= i < a.entries@.len() implies c.entries@[i] == a.entries@[i] by {
        assert(b.entries@[i] == a.entries@[i]);
        assert(c.entries@[i] == b.entries@[i]);
    }
    assert forall|i: int|
        0 <= i < a.idents.names@.len() implies c.idents.names@[i] == a.idents.names@[i] by {
        assert(b.idents.names@[i] == a.idents.names@[i]);
        assert(c.idents.names@[i] == b.idents.names@[i]);
    }
}

/// Environment preservation below a bound is transitive, also towards a
/// larger bound on the first step.
pub proof fn lemma_env_preserved_trans(
    a: Environment,
    b: Environment,
    c: Environment,
    bound: nat,
    bound2: nat,
)
    requires
        env_preserved_below(a, b, bound),
        env_preserved_below(b, c, bound2),
        bound <= bound2,
    ensures
        env_preserved_below(a, c, bound),
{
    assert forall|s: usize| s < bound implies #[trigger] c.spec_lookup(s) == a.spec_lookup(s) by {
        assert(b.spec_lookup(s) == a.spec_lookup(s));
        assert(c.spec_lookup(s) == b.spec_lookup(s));
    }
}

/// Revert-closurize every contract of a pending-contract list: the treatment
/// of the contracts of a field carried from one side of a merge. Labels and
/// list order are preserved.
pub fn revert_closurize_contracts(
    v: &Vec<PendingContract>,
    cache: &mut Cache,
    env: &mut Environment,
    with_env: &Environment,
) -> (r: Vec<PendingContract>)
    requires
        forall|i: int|
            0 <= i < v@.len() ==> term_closurized(
                (#[trigger] v@[i]).contract,
                *with_env,
                old(cache).entries@.len(),
            ),
    ensures
        cache_extends(*old(cache), *final(cache)),
        env_preserved_below(*old(env), *final(env), old(cache).idents.names@.len()),
        env_grew(*old(env), *final(env)),
        r@.len() == v@.len(),
        forall|i: int| 0 <= i < v@.len() ==> (#[trigger] r@[i]).label == v@[i].label,
        forall|i: int|
            0 <= i < v@.len() ==> (#[trigger] r@[i]).contract.pos == v@[i].contract.pos,
        forall|i: int|
            0 <= i < v@.len() ==> reverted_term_ok(
                (#[trigger] v@[i]).contract,
                r@[i].contract,
                *with_env,
                *old(cache),
                *final(cache),
                *final(env),
            ),
{
    let mut r: Vec<PendingContract> = Vec::new();
    let mut i: usize = 0;
    proof {
        assert(env.frames_seq().skip(0) =~= env.frames_seq());
    }
    while i < v.len()
        invariant
            i <= v@.len(),
            forall|j: int|
                0 <= j < v@.len() ==> term_closurized(
                    (#[trigger] v@[j]).contract,
                    *with_env,
                    old(cache).entries@.len(),
                ),
            cache_extends(*old(cache), *cache),
            env_preserved_below(*old(env), *env, old(cache).idents.names@.len()),
            env_grew(*old(env), *env),
            r@.len() == i,
            forall|j: int| 0 <= j < i ==> (#[trigger] r@[j]).label == v@[j].label,
            forall|j: int| 0 <= j < i ==> (#[trigger] r@[j]).contract.pos == v@[j].contract.pos,
            forall|j: int|
                0 <= j < i ==> reverted_term_ok(
                    (#[trigger] v@[j]).contract,
                    r@[j].contract,
                    *with_env,
                    *old(cache),
                    *cache,
                    *env,
                ),
        decreases v@.len() - i,
    {
        let ghost cache_mid = *cache;
        let ghost env_mid = *env;
        let pc = &v[i];
        let contract = pc.contract.clone();
        proof {
            assert(term_closurized(contract, *with_env, cache.entries@.len()));
        }
        let new_contract = contract.revert_closurize(cache, env, with_env.clone());
        let label = pc.label.clone();
        r.push(PendingContract { contract: new_contract, label });
        proof {
            lemma_cache_extends_trans(*old(cache), cache_mid, *cache);
            lemma_env_preserved_trans(
                *old(env),
                env_mid,
                *env,
                old(cache).idents.names@.len(),
                cache_mid.idents.names@.len(),
            );
            lemma_env_grew_trans(*old(env), env_mid, *env);
            lemma_reverted_term_rebase(
                v@[i as int].contract,
                new_contract,
                *with_env,
                *old(cache),
                cache_mid,
                *cache,
                *env,
            );
            assert forall|j: int|
                0 <= j < i implies reverted_term_ok(
                (#[trigger] v@[j]).contract,
                r@[j].contract,
                *with_env,
                *old(cache),
                *cache,
                *env,
            ) by {
                lemma_reverted_term_stable(
                    v@[j].contract,
                    r@[j].contract,
                    *with_env,
                    *old(cache),
                    cache_mid,
                    *cache,
                    env_mid,
                    *env,
                );
            }
        }
        i = i + 1;
    }
    r
}

impl Field {
    /// Revert-closurize a field carried unchanged from one side of a merge:
    /// the value and every pending contract are reverted, the metadata is
    /// kept as it is.
    pub fn revert_closurize(
        &self,
        cache: &mut Cache,
        env: &mut Environment,
        with_env: &Environment,
    ) -> (r: Field)
        requires
            field_closurized(*self, *with_env, old(cache).entries@.len()),
        ensures
            cache_extends(*old(cache), *final(cache)),
            env_preserved_below(*old(env), *final(env), old(cache).idents.names@.len()),
            env_grew(*old(env), *final(env)),
            r.metadata == self.metadata,
            r.value is Some <==> self.value is Some,
            match self.value {
                Some(v) => (match r.value {
                    Some(rv) => rv.pos == v.pos && reverted_term_ok(
                        v,
                        rv,
                        *with_env,
                        *old(cache),
                        *final(cache),
                        *final(env),
                    ),
                    None => false,
                }),
                None => r.value is None,
            },
            r.pending_contracts@.len() == self.pending_contracts@.len(),
            forall|i: int|
                0 <= i < self.pending_contracts@.len() ==> (
                #[trigger] r.pending_contracts@[i]).label == self.pending_contracts@[i].label,
            forall|i: int|
                0 <= i < self.pending_contracts@.len() ==> reverted_term_ok(
                    (#[trigger] self.pending_contracts@[i]).contract,
                    r.pending_contracts@[i].contract,
                    *with_env,
                    *old(cache),
                    *final(cache),
                    *final(env),
                ),
    {
        let ghost cache0 = *cache;
        let ghost env0 = *env;
        let value: Option<RichTerm> = match &self.value {
            Some(v) => Some(v.clone().revert_closurize(cache, env, with_env.clone())),
            None => None,
        };
        let ghost cache_mid = *cache;
        let ghost env_mid = *env;
        proof {
            if env_mid == env0 {
                assert(env0.frames_seq().skip(0) =~= env0.frames_seq());
                assert(env_grew(env0, env_mid));
            }
        }
        let pending_contracts = revert_closurize_contracts(
            &self.pending_contracts,
            cache,
            env,
            with_env,
        );
        proof {
            lemma_cache_extends_trans(cache0, cache_mid, *cache);
            lemma_env_preserved_trans(
                env0,
                env_mid,
                *env,
                cache0.idents.names@.len(),
                cache_mid.idents.names@.len(),
            );
            lemma_env_grew_trans(env0, env_mid, *env);
            // The reverted value keeps its description under the growth
            // caused by reverting the contracts; each reverted contract is
            // rebased to the cache both source entries live in.
            match (&self.value, &value) {
                (Some(v), Some(rv)) => {
                    lemma_reverted_term_stable(
                        *v,
                        *rv,
                        *with_env,
                        cache0,
                        cache_mid,
                        *cache,
                        env_mid,
                        *env,
                    );
                },
                _ => {},
            }
            assert forall|i: int|
                0 <= i < self.pending_contracts@.len() implies reverted_term_ok(
                (#[trigger] self.pending_contracts@[i]).contract,
                pending_contracts@[i].contract,
                *with_env,
                cache0,
                *cache,
                *env,
            ) by {
                lemma_reverted_term_rebase(
                    self.pending_contracts@[i].contract,
                    pending_contracts@[i].contract,
                    *with_env,
                    cache0,
                    cache_mid,
                    *cache,
                    *env,
                );
            }
        }
        Field { value, metadata: self.metadata.clone(), pending_contracts }
    }
}


/// Take two record fields in their respective environments and combine both
/// their metadata and values.
///
/// Priorities govern the value: with both values present at equal priority
/// the values are merged recursively through [`fields_merge_closurize`]; a
/// strictly higher priority wins; a side without a value never wins. The
/// resulting field is optional only if both sides are, is kept out of
/// serialization if either side is, keeps the first documentation present,
/// and concatenates the pending contracts, first side first. The declared
/// type of the first side wins; when both sides declare one, the second type
/// is demoted to a contract.
pub fn merge_fields(
    cache: &mut Cache,
    field1: &Field,
    env1: Environment,
    field2: &Field,
    env2: Environment,
    env_final: &mut Environment,
    fields: &Vec<Ident>,
) -> (r: Result<Field, EvalError>)
    requires
        field_closurized(*field1, env1, old(cache).entries@.len()),
        field_closurized(*field2, env2, old(cache).entries@.len()),
    ensures
        cache_extends(*old(cache), *final(cache)),
        env_preserved_below(*old(env_final), *final(env_final), old(cache).idents.names@.len()),
        r is Ok,
        match r {
            Ok(f) => {
                &&& f.metadata.doc == merge_doc_spec(field1.metadata.doc, field2.metadata.doc)
                &&& f.metadata.opt == (field1.metadata.opt && field2.metadata.opt)
                &&& f.metadata.not_exported == (field1.metadata.not_exported
                    || field2.metadata.not_exported)
                &&& f.metadata.priority == spec_merged_priority(*field1, *field2)
                &&& f.metadata.annotation.typ == merged_typ(
                    field1.metadata.annotation,
                    field2.metadata.annotation,
                )
                &&& f.metadata.annotation.contracts@ == merged_contracts(
                    field1.metadata.annotation,
                    field2.metadata.annotation,
                )
                &&& (f.value is Some <==> !(spec_value_sel(*field1, *field2) is Neither))
                // Equal priorities merge the two values recursively into a
                // fresh revertible thunk: a selection of one side would not
                // satisfy this clause.
                &&& (spec_value_sel(*field1, *field2) is Merged ==> (match (
                    field1.value,
                    field2.value,
                    f.value,
                ) {
                    (Some(v1), Some(v2), Some(rv)) => merged_value_ok(
                        v1,
                        env1,
                        v2,
                        env2,
                        fields@,
                        rv,
                        *old(cache),
                        *final(cache),
                        *final(env_final),
                    ),
                    _ => false,
                }))
                &&& (spec_value_sel(*field1, *field2) is Left ==> (match (
                    field1.value,
                    f.value,
                ) {
                    (Some(v), Some(rv)) => rv.pos == v.pos && reverted_term_ok(
                        v,
                        rv,
                        env1,
                        *old(cache),
                        *final(cache),
                        *final(env_final),
                    ),
                    _ => false,
                }))
                &&& (spec_value_sel(*field1, *field2) is Right ==> (match (
                    field2.value,
                    f.value,
                ) {
                    (Some(v), Some(rv)) => rv.pos == v.pos && reverted_term_ok(
                        v,
                        rv,
                        env2,
                        *old(cache),
                        *final(cache),
                        *final(env_final),
                    ),
                    _ => false,
                }))
                &&& f.pending_contracts@.len() == field1.pending_contracts@.len()
                    + field2.pending_contracts@.len()
                &&& (forall|i: int|
                    0 <= i < field1.pending_contracts@.len() ==> (
                    #[trigger] f.pending_contracts@[i]).label
                        == field1.pending_contracts@[i].label)
                &&& (forall|i: int|
                    0 <= i < field1.pending_contracts@.len() ==> reverted_term_ok(
                        (#[trigger] field1.pending_contracts@[i]).contract,
                        f.pending_contracts@[i].contract,
                        env1,
                        *old(cache),
                        *final(cache),
                        *final(env_final),
                    ))
                &&& (forall|i: int|
                    0 <= i < field2.pending_contracts@.len() ==> f.pending_contracts@[field1.pending_contracts@.len() + i].label
                        == (#[trigger] field2.pending_contracts@[i]).label)
                &&& (forall|i: int|
                    0 <= i < field2.pending_contracts@.len() ==> reverted_term_ok(
                        (#[trigger] field2.pending_contracts@[i]).contract,
                        f.pending_contracts@[field1.pending_contracts@.len() + i].contract,
                        env2,
                        *old(cache),
                        *final(cache),
                        *final(env_final),
                    ))
            },
            Err(_) => false,
        },
        env_grew(*old(env_final), *final(env_final)),
{
    let ghost cache0 = *cache;
    let ghost env_f0 = *env_final;
    let p1 = field1.metadata.priority;
    let p2 = field2.metadata.priority;
    let sel: FieldSel = match (&field1.value, &field2.value) {
        (Some(_), Some(_)) => if p1 == p2 {
            FieldSel::Merged
        } else if p2.lt(&p1) {
            FieldSel::Left
        } else {
            FieldSel::Right
        },
        (Some(_), None) => FieldSel::Left,
        (None, Some(_)) => FieldSel::Right,
        (None, None) => FieldSel::Neither,
    };
    proof {
        assert(sel == spec_value_sel(*field1, *field2));
    }
    let value: Option<RichTerm> = match sel {
        FieldSel::Merged => {
            match (&field1.value, &field2.value) {
                (Some(v1), Some(v2)) => {
                    match fields_merge_closurize(
                        cache,
                        env_final,
                        v1.clone(),
                        &env1,
                        v2.clone(),
                        &env2,
                        fields,
                    ) {
                        Ok(t) => Some(t),
                        Err(e) => {
                            proof {
                                assert(false);
                            }
                            return Err(e);
                        },
                    }
                },
                _ => {
                    proof {
                        assert(false);
                    }
                    None
                },
            }
        },
        FieldSel::Left => {
            match &field1.value {
                Some(v) => Some(v.clone().revert_closurize(cache, env_final, env1.clone())),
                None => {
                    proof {
                        assert(false);
                    }
                    None
                },
            }
        },
        FieldSel::Right => {
            match &field2.value {
                Some(v) => Some(v.clone().revert_closurize(cache, env_final, env2.clone())),
                None => {
                    proof {
                        assert(false);
                    }
                    None
                },
            }
        },
        FieldSel::Neither => None,
    };
    let priority = match sel {
        FieldSel::Merged => p1,
        FieldSel::Left => p1,
        FieldSel::Right => p2,
        FieldSel::Neither => MergePriority::Neutral(0),
    };
    let ghost cache_v = *cache;
    let ghost env_v = *env_final;
    proof {
        lemma_cache_extends_trans(cache0, cache0, cache_v);
        if env_v == env_f0 {
            assert(env_f0.frames_seq().skip(0) =~= env_f0.frames_seq());
            assert(env_grew(env_f0, env_v));
        }
    }
    let mut pending_contracts = revert_closurize_contracts(
        &field1.pending_contracts,
        cache,
        env_final,
        &env1,
    );
    let ghost cache_p1 = *cache;
    let ghost env_p1 = *env_final;
    proof {
        lemma_cache_extends_trans(cache0, cache_v, cache_p1);
        lemma_env_preserved_trans(
            env_f0,
            env_v,
            env_p1,
            cache0.idents.names@.len(),
            cache_v.idents.names@.len(),
        );
        lemma_env_grew_trans(env_f0, env_v, env_p1);
        // The value of the merged field keeps its description under the
        // growth caused by reverting the first side's contracts.
        match (&field1.value, &field2.value, &value) {
            (Some(v1), Some(v2), Some(rv)) => {
                if sel is Merged {
                    lemma_merged_value_stable(
                        *v1,
                        env1,
                        *v2,
                        env2,
                        fields@,
                        *rv,
                        cache0,
                        cache_v,
                        cache_p1,
                        env_v,
                        env_p1,
                    );
                }
            },
            _ => {},
        }
        match (&field1.value, &value) {
            (Some(v), Some(rv)) => {
                if sel is Left {
                    lemma_reverted_term_stable(
                        *v,
                        *rv,
                        env1,
                        cache0,
                        cache_v,
                        cache_p1,
                        env_v,
                        env_p1,
                    );
                }
            },
            _ => {},
        }
        match (&field2.value, &value) {
            (Some(v), Some(rv)) => {
                if sel is Right {
                    lemma_reverted_term_stable(
                        *v,
                        *rv,
                        env2,
                        cache0,
                        cache_v,
                        cache_p1,
                        env_v,
                        env_p1,
                    );
                }
            },
            _ => {},
        }
    }
    let mut pc2 = revert_closurize_contracts(&field2.pending_contracts, cache, env_final, &env2);
    proof {
        lemma_cache_extends_trans(cache0, cache_p1, *cache);
        lemma_env_preserved_trans(
            env_f0,
            env_p1,
            *env_final,
            cache0.idents.names@.len(),
            cache_p1.idents.names@.len(),
        );
        lemma_env_grew_trans(env_f0, env_p1, *env_final);
        match (&field1.value, &field2.value, &value) {
            (Some(v1), Some(v2), Some(rv)) => {
                if sel is Merged {
                    lemma_merged_value_stable(
                        *v1,
                        env1,
                        *v2,
                        env2,
                        fields@,
                        *rv,
                        cache0,
                        cache_p1,
                        *cache,
                        env_p1,
                        *env_final,
                    );
                }
            },
            _ => {},
        }
        match (&field1.value, &value) {
            (Some(v), Some(rv)) => {
                if sel is Left {
                    lemma_reverted_term_stable(
                        *v,
                        *rv,
                        env1,
                        cache0,
                        cache_p1,
                        *cache,
                        env_p1,
                        *env_final,
                    );
                }
            },
            _ => {},
        }
        match (&field2.value, &value) {
            (Some(v), Some(rv)) => {
                if sel is Right {
                    lemma_reverted_term_stable(
                        *v,
                        *rv,
                        env2,
                        cache0,
                        cache_p1,
                        *cache,
                        env_p1,
                        *env_final,
                    );
                }
            },
            _ => {},
        }
        // Each side's reverted contracts are rebased to the cache both
        // sides' entries live in; the first side's also survive the growth
        // caused by the second side's.
        assert forall|i: int|
            0 <= i < field1.pending_contracts@.len() implies reverted_term_ok(
            (#[trigger] field1.pending_contracts@[i]).contract,
            pending_contracts@[i].contract,
            env1,
            cache0,
            *cache,
            *env_final,
        ) by {
            lemma_reverted_term_rebase(
                field1.pending_contracts@[i].contract,
                pending_contracts@[i].contract,
                env1,
                cache0,
                cache_v,
                cache_p1,
                env_p1,
            );
            lemma_reverted_term_stable(
                field1.pending_contracts@[i].contract,
                pending_contracts@[i].contract,
                env1,
                cache0,
                cache_p1,
                *cache,
                env_p1,
                *env_final,
            );
        }
        assert forall|i: int|
            0 <= i < field2.pending_contracts@.len() implies reverted_term_ok(
            (#[trigger] field2.pending_contracts@[i]).contract,
            pc2@[i].contract,
            env2,
            cache0,
            *cache,
            *env_final,
        ) by {
            lemma_reverted_term_rebase(
                field2.pending_contracts@[i].contract,
                pc2@[i].contract,
                env2,
                cache0,
                cache_p1,
                *cache,
                *env_final,
            );
        }
    }
    let ghost pc_left = pending_contracts@;
    let ghost pc_right = pc2@;
    pending_contracts.append(&mut pc2);
    // Annotations are not used at runtime any more; they are still combined
    // to answer metadata queries, so nothing here is closurized or reverted.
    let a1 = field1.metadata.annotation.clone();
    let a2 = field2.metadata.annotation.clone();
    let TypeAnnotation { typ: typ1, contracts: contracts1 } = a1;
    let TypeAnnotation { typ: typ2, contracts: contracts2 } = a2;
    let c1: &Vec<LabeledType> = &*contracts1;
    let c2: &Vec<LabeledType> = &*contracts2;
    let mut contracts: Vec<LabeledType> = Vec::new();
    let mut i: usize = 0;
    while i < c1.len()
        invariant
            i <= c1@.len(),
            c1@ == field1.metadata.annotation.contracts@,
            contracts@ == c1@.take(i as int),
        decreases c1@.len() - i,
    {
        contracts.push(c1[i].clone());
        proof {
            assert(contracts@ =~= c1@.take(i as int + 1));
        }
        i = i + 1;
    }
    proof {
        assert(contracts@ =~= c1@);
    }
    // If both sides carry a type annotation, keep the first one as the type
    // of the merged field and demote the second to a contract.
    let typ: Option<LabeledType> = match (typ1, typ2) {
        (Some(ctr1), Some(ctr2)) => {
            contracts.push(ctr2);
            Some(ctr1)
        },
        (Some(t), None) => Some(t),
        (None, Some(t)) => Some(t),
        (None, None) => None,
    };
    let ghost contracts_mid = contracts@;
    let mut j: usize = 0;
    while j < c2.len()
        invariant
            j <= c2@.len(),
            c2@ == field2.metadata.annotation.contracts@,
            contracts@ == contracts_mid + c2@.take(j as int),
        decreases c2@.len() - j,
    {
        contracts.push(c2[j].clone());
        proof {
            assert(contracts@ =~= contracts_mid + c2@.take(j as int + 1));
        }
        j = j + 1;
    }
    proof {
        assert(contracts@ =~= contracts_mid + c2@);
        assert(contracts@ =~= merged_contracts(
            field1.metadata.annotation,
            field2.metadata.annotation,
        ));
    }
    let doc1: Option<String> = match &field1.metadata.doc {
        Some(d) => Some(d.clone()),
        None => None,
    };
    let doc2: Option<String> = match &field2.metadata.doc {
        Some(d) => Some(d.clone()),
        None => None,
    };
    let metadata = FieldMetadata {
        doc: merge_doc(doc1, doc2),
        annotation: TypeAnnotation { typ, contracts: Rc::new(contracts) },
        // If one of the records requires this field, it must not be
        // optional: the merged field is optional only if both sides are.
        opt: field1.metadata.opt && field2.metadata.opt,
        // The merged field is kept out of serialization if either side is.
        not_exported: field1.metadata.not_exported || field2.metadata.not_exported,
        priority,
    };
    proof {
        assert(pending_contracts@ == pc_left + pc_right);
        assert forall|k: int|
            0 <= k < field1.pending_contracts@.len() implies (
        #[trigger] pending_contracts@[k]).label == field1.pending_contracts@[k].label by {
            assert(pending_contracts@[k] == pc_left[k]);
        }
        assert forall|k: int|
            0 <= k < field2.pending_contracts@.len() implies pending_contracts@[field1.pending_contracts@.len() + k].label
            == (#[trigger] field2.pending_contracts@[k]).label by {
            assert(pending_contracts@[pc_left.len() + k] == pc_right[k]);
        }
    }
    Ok(Field { metadata, value, pending_contracts })
}


/// The combination [`merge_fields`] guarantees for a field present on both
/// sides.
pub open spec fn merged_field_ok(
    f: Field,
    f1: Field,
    f2: Field,
    env_1: Environment,
    env_2: Environment,
    fields: Seq<Ident>,
    c0: Cache,
    c1: Cache,
    e1: Environment,
) -> bool {
    &&& f.metadata.doc == merge_doc_spec(f1.metadata.doc, f2.metadata.doc)
    &&& f.metadata.opt == (f1.metadata.opt && f2.metadata.opt)
    &&& f.metadata.not_exported == (f1.metadata.not_exported || f2.metadata.not_exported)
    &&& f.metadata.priority == spec_merged_priority(f1, f2)
    &&& f.metadata.annotation.typ == merged_typ(f1.metadata.annotation, f2.metadata.annotation)
    &&& f.metadata.annotation.contracts@ == merged_contracts(
        f1.metadata.annotation,
        f2.metadata.annotation,
    )
    &&& (f.value is Some <==> !(spec_value_sel(f1, f2) is Neither))
    &&& (spec_value_sel(f1, f2) is Merged ==> (match (f1.value, f2.value, f.value) {
        (Some(v1), Some(v2), Some(rv)) => merged_value_ok(
            v1,
            env_1,
            v2,
            env_2,
            fields,
            rv,
            c0,
            c1,
            e1,
        ),
        _ => false,
    }))
    &&& (spec_value_sel(f1, f2) is Left ==> (match (f1.value, f.value) {
        (Some(v), Some(rv)) => rv.pos == v.pos && reverted_term_ok(v, rv, env_1, c0, c1, e1),
        _ => false,
    }))
    &&& (spec_value_sel(f1, f2) is Right ==> (match (f2.value, f.value) {
        (Some(v), Some(rv)) => rv.pos == v.pos && reverted_term_ok(v, rv, env_2, c0, c1, e1),
        _ => false,
    }))
    &&& f.pending_contracts@.len() == f1.pending_contracts@.len() + f2.pending_contracts@.len()
    &&& (forall|i: int|
        0 <= i < f1.pending_contracts@.len() ==> (#[trigger] f.pending_contracts@[i]).label
            == f1.pending_contracts@[i].label)
    &&& (forall|i: int|
        0 <= i < f1.pending_contracts@.len() ==> reverted_term_ok(
            (#[trigger] f1.pending_contracts@[i]).contract,
            f.pending_contracts@[i].contract,
            env_1,
            c0,
            c1,
            e1,
        ))
    &&& (forall|i: int|
        0 <= i < f2.pending_contracts@.len() ==> f.pending_contracts@[f1.pending_contracts@.len()
            + i].label == (#[trigger] f2.pending_contracts@[i]).label)
    &&& (forall|i: int|
        0 <= i < f2.pending_contracts@.len() ==> reverted_term_ok(
            (#[trigger] f2.pending_contracts@[i]).contract,
            f.pending_contracts@[f1.pending_contracts@.len() + i].contract,
            env_2,
            c0,
            c1,
            e1,
        ))
}

/// What a field carried unchanged from one side keeps: its metadata, its
/// value and pending contracts with each term revert-closurized — a constant
/// as it is, a variable re-pointed at a fresh reverted copy of its source
/// entry.
pub open spec fn carried_field_ok(
    f: Field,
    src: Field,
    with_env: Environment,
    c0: Cache,
    c1: Cache,
    e1: Environment,
) -> bool {
    &&& f.metadata == src.metadata
    &&& (f.value is Some <==> src.value is Some)
    &&& (match (src.value, f.value) {
        (Some(v), Some(rv)) => rv.pos == v.pos && reverted_term_ok(v, rv, with_env, c0, c1, e1),
        (None, None) => true,
        _ => false,
    })
    &&& f.pending_contracts@.len() == src.pending_contracts@.len()
    &&& (forall|i: int|
        0 <= i < src.pending_contracts@.len() ==> (#[trigger] f.pending_contracts@[i]).label
            == src.pending_contracts@[i].label)
    &&& (forall|i: int|
        0 <= i < src.pending_contracts@.len() ==> reverted_term_ok(
            (#[trigger] src.pending_contracts@[i]).contract,
            f.pending_contracts@[i].contract,
            with_env,
            c0,
            c1,
            e1,
        ))
}

/// Carried-field statements survive later growth of the cache and of the
/// output environment.
pub proof fn lemma_carried_field_stable(
    f: Field,
    src: Field,
    with_env: Environment,
    c0: Cache,
    c1: Cache,
    c2: Cache,
    e1: Environment,
    e2: Environment,
)
    requires
        carried_field_ok(f, src, with_env, c0, c1, e1),
        cache_extends(c1, c2),
        env_preserved_below(e1, e2, c1.idents.names@.len()),
    ensures
        carried_field_ok(f, src, with_env, c0, c2, e2),
{
    match (&src.value, &f.value) {
        (Some(v), Some(rv)) => {
            lemma_reverted_term_stable(*v, *rv, with_env, c0, c1, c2, e1, e2);
        },
        _ => {},
    }
    assert forall|i: int|
        0 <= i < src.pending_contracts@.len() implies reverted_term_ok(
        (#[trigger] src.pending_contracts@[i]).contract,
        f.pending_contracts@[i].contract,
        with_env,
        c0,
        c2,
        e2,
    ) by {
        lemma_reverted_term_stable(
            src.pending_contracts@[i].contract,
            f.pending_contracts@[i].contract,
            with_env,
            c0,
            c1,
            c2,
            e1,
            e2,
        );
    }
}

/// A carried-field statement made against an intermediate snapshot `cm`
/// holds against the earlier snapshot `c0` the source entries live in.
pub proof fn lemma_carried_field_rebase(
    f: Field,
    src: Field,
    with_env: Environment,
    c0: Cache,
    cm: Cache,
    c1: Cache,
    e1: Environment,
)
    requires
        carried_field_ok(f, src, with_env, cm, c1, e1),
        cache_extends(c0, cm),
        field_closurized(src, with_env, c0.entries@.len()),
    ensures
        carried_field_ok(f, src, with_env, c0, c1, e1),
{
    match (&src.value, &f.value) {
        (Some(v), Some(rv)) => {
            lemma_reverted_term_rebase(*v, *rv, with_env, c0, cm, c1, e1);
        },
        _ => {},
    }
    assert forall|i: int|
        0 <= i < src.pending_contracts@.len() implies reverted_term_ok(
        (#[trigger] src.pending_contracts@[i]).contract,
        f.pending_contracts@[i].contract,
        with_env,
        c0,
        c1,
        e1,
    ) by {
        lemma_reverted_term_rebase(
            src.pending_contracts@[i].contract,
            f.pending_contracts@[i].contract,
            with_env,
            c0,
            cm,
            c1,
            e1,
        );
    }
}

/// Merged-field statements survive later growth of the cache and of the
/// output environment.
pub proof fn lemma_merged_field_stable(
    f: Field,
    f1: Field,
    f2: Field,
    env_1: Environment,
    env_2: Environment,
    fields: Seq<Ident>,
    c0: Cache,
    c1: Cache,
    c2: Cache,
    e1: Environment,
    e2: Environment,
)
    requires
        merged_field_ok(f, f1, f2, env_1, env_2, fields, c0, c1, e1),
        cache_extends(c1, c2),
        env_preserved_below(e1, e2, c1.idents.names@.len()),
    ensures
        merged_field_ok(f, f1, f2, env_1, env_2, fields, c0, c2, e2),
{
    match (&f1.value, &f2.value, &f.value) {
        (Some(v1), Some(v2), Some(rv)) => {
            if spec_value_sel(f1, f2) is Merged {
                lemma_merged_value_stable(*v1, env_1, *v2, env_2, fields, *rv, c0, c1, c2, e1, e2);
            }
        },
        _ => {},
    }
    match (&f1.value, &f.value) {
        (Some(v), Some(rv)) => {
            if spec_value_sel(f1, f2) is Left {
                lemma_reverted_term_stable(*v, *rv, env_1, c0, c1, c2, e1, e2);
            }
        },
        _ => {},
    }
    match (&f2.value, &f.value) {
        (Some(v), Some(rv)) => {
            if spec_value_sel(f1, f2) is Right {
                lemma_reverted_term_stable(*v, *rv, env_2, c0, c1, c2, e1, e2);
            }
        },
        _ => {},
    }
    assert forall|i: int|
        0 <= i < f1.pending_contracts@.len() implies reverted_term_ok(
        (#[trigger] f1.pending_contracts@[i]).contract,
        f.pending_contracts@[i].contract,
        env_1,
        c0,
        c2,
        e2,
    ) by {
        lemma_reverted_term_stable(
            f1.pending_contracts@[i].contract,
            f.pending_contracts@[i].contract,
            env_1,
            c0,
            c1,
            c2,
            e1,
            e2,
        );
    }
    assert forall|i: int|
        0 <= i < f2.pending_contracts@.len() implies reverted_term_ok(
        (#[trigger] f2.pending_contracts@[i]).contract,
        f.pending_contracts@[f1.pending_contracts@.len() + i].contract,
        env_2,
        c0,
        c2,
        e2,
    ) by {
        lemma_reverted_term_stable(
            f2.pending_contracts@[i].contract,
            f.pending_contracts@[f1.pending_contracts@.len() + i].contract,
            env_2,
            c0,
            c1,
            c2,
            e1,
            e2,
        );
    }
}

/// A merged-field statement made against an intermediate snapshot `cm` holds
/// against the earlier snapshot `c0` the source entries live in.
pub proof fn lemma_merged_field_rebase(
    f: Field,
    f1: Field,
    f2: Field,
    env_1: Environment,
    env_2: Environment,
    fields: Seq<Ident>,
    c0: Cache,
    cm: Cache,
    c1: Cache,
    e1: Environment,
)
    requires
        merged_field_ok(f, f1, f2, env_1, env_2, fields, cm, c1, e1),
        cache_extends(c0, cm),
        field_closurized(f1, env_1, c0.entries@.len()),
        field_closurized(f2, env_2, c0.entries@.len()),
    ensures
        merged_field_ok(f, f1, f2, env_1, env_2, fields, c0, c1, e1),
{
    match (&f1.value, &f2.value, &f.value) {
        (Some(v1), Some(v2), Some(rv)) => {
            if spec_value_sel(f1, f2) is Merged {
                lemma_merged_value_rebase(*v1, env_1, *v2, env_2, fields, *rv, c0, cm, c1, e1);
            }
        },
        _ => {},
    }
    match (&f1.value, &f.value) {
        (Some(v), Some(rv)) => {
            if spec_value_sel(f1, f2) is Left {
                lemma_reverted_term_rebase(*v, *rv, env_1, c0, cm, c1, e1);
            }
        },
        _ => {},
    }
    match (&f2.value, &f.value) {
        (Some(v), Some(rv)) => {
            if spec_value_sel(f1, f2) is Right {
                lemma_reverted_term_rebase(*v, *rv, env_2, c0, cm, c1, e1);
            }
        },
        _ => {},
    }
    assert forall|i: int|
        0 <= i < f1.pending_contracts@.len() implies reverted_term_ok(
        (#[trigger] f1.pending_contracts@[i]).contract,
        f.pending_contracts@[i].contract,
        env_1,
        c0,
        c1,
        e1,
    ) by {
        lemma_reverted_term_rebase(
            f1.pending_contracts@[i].contract,
            f.pending_contracts@[i].contract,
            env_1,
            c0,
            cm,
            c1,
            e1,
        );
    }
    assert forall|i: int|
        0 <= i < f2.pending_contracts@.len() implies reverted_term_ok(
        (#[trigger] f2.pending_contracts@[i]).contract,
        f.pending_contracts@[f1.pending_contracts@.len() + i].contract,
        env_2,
        c0,
        c1,
        e1,
    ) by {
        lemma_reverted_term_rebase(
            f2.pending_contracts@[i].contract,
            f.pending_contracts@[f1.pending_contracts@.len() + i].contract,
            env_2,
            c0,
            cm,
            c1,
            e1,
        );
    }
}

/// Every field of a merged record comes from the two operand records: fields
/// of one side only are carried revert-closurized with their metadata,
/// fields of both sides are combined as [`merge_fields`] says.
pub open spec fn merged_entry_ok(
    e: (Ident, Rc<Field>),
    d1: RecordData,
    d2: RecordData,
    env_1: Environment,
    env_2: Environment,
    fields: Seq<Ident>,
    c0: Cache,
    c1: Cache,
    e1: Environment,
) -> bool {
    let s = e.0.sym;
    let f = *e.1;
    if d1.fields.contains_sym(s) && d2.fields.contains_sym(s) {
        exists|j: int, k: int|
            0 <= j < d1.fields.entries@.len() && 0 <= k < d2.fields.entries@.len() && (
            #[trigger] d1.fields.entries@[j]).0.sym == s && (
            #[trigger] d2.fields.entries@[k]).0.sym == s && merged_field_ok(
                f,
                *d1.fields.entries@[j].1,
                *d2.fields.entries@[k].1,
                env_1,
                env_2,
                fields,
                c0,
                c1,
                e1,
            )
    } else if d1.fields.contains_sym(s) {
        exists|j: int|
            0 <= j < d1.fields.entries@.len() && (#[trigger] d1.fields.entries@[j]).0.sym == s
                && carried_field_ok(f, *d1.fields.entries@[j].1, env_1, c0, c1, e1)
    } else {
        exists|k: int|
            0 <= k < d2.fields.entries@.len() && (#[trigger] d2.fields.entries@[k]).0.sym == s
                && carried_field_ok(f, *d2.fields.entries@[k].1, env_2, c0, c1, e1)
    }
}

/// The field behind a shared handle.
pub open spec fn field_of(rc: Rc<Field>) -> Field {
    *rc
}

/// Merged-entry statements survive later growth of the cache and of the
/// output environment.
pub proof fn lemma_merged_entry_stable(
    e: (Ident, Rc<Field>),
    d1: RecordData,
    d2: RecordData,
    env_1: Environment,
    env_2: Environment,
    fields: Seq<Ident>,
    c0: Cache,
    c1: Cache,
    c2: Cache,
    e1: Environment,
    e2: Environment,
)
    requires
        merged_entry_ok(e, d1, d2, env_1, env_2, fields, c0, c1, e1),
        cache_extends(c1, c2),
        env_preserved_below(e1, e2, c1.idents.names@.len()),
    ensures
        merged_entry_ok(e, d1, d2, env_1, env_2, fields, c0, c2, e2),
{
    let s = e.0.sym;
    let f = field_of(e.1);
    if d1.fields.contains_sym(s) && d2.fields.contains_sym(s) {
        let (j, k) = choose|j: int, k: int|
            0 <= j < d1.fields.entries@.len() && 0 <= k < d2.fields.entries@.len() && (
            #[trigger] d1.fields.entries@[j]).0.sym == s && (
            #[trigger] d2.fields.entries@[k]).0.sym == s && merged_field_ok(
                f,
                field_of(d1.fields.entries@[j].1),
                field_of(d2.fields.entries@[k].1),
                env_1,
                env_2,
                fields,
                c0,
                c1,
                e1,
            );
        lemma_merged_field_stable(
            f,
            field_of(d1.fields.entries@[j].1),
            field_of(d2.fields.entries@[k].1),
            env_1,
            env_2,
            fields,
            c0,
            c1,
            c2,
            e1,
            e2,
        );
    } else if d1.fields.contains_sym(s) {
        let j = choose|j: int|
            0 <= j < d1.fields.entries@.len() && (#[trigger] d1.fields.entries@[j]).0.sym == s
                && carried_field_ok(f, field_of(d1.fields.entries@[j].1), env_1, c0, c1, e1);
        lemma_carried_field_stable(
            f,
            field_of(d1.fields.entries@[j].1),
            env_1,
            c0,
            c1,
            c2,
            e1,
            e2,
        );
    } else {
        let k = choose|k: int|
            0 <= k < d2.fields.entries@.len() && (#[trigger] d2.fields.entries@[k]).0.sym == s
                && carried_field_ok(f, field_of(d2.fields.entries@[k].1), env_2, c0, c1, e1);
        lemma_carried_field_stable(
            f,
            field_of(d2.fields.entries@[k].1),
            env_2,
            c0,
            c1,
            c2,
            e1,
            e2,
        );
    }
}

/// All fields of `data` satisfy [`merged_entry_ok`].
pub open spec fn merged_record_fields_ok(
    data: RecordData,
    d1: RecordData,
    d2: RecordData,
    env_1: Environment,
    env_2: Environment,
    fields: Seq<Ident>,
    c0: Cache,
    c1: Cache,
    e1: Environment,
) -> bool {
    forall|i: int|
        0 <= i < data.fields.entries@.len() ==> merged_entry_ok(
            #[trigger] data.fields.entries@[i],
            d1,
            d2,
            env_1,
            env_2,
            fields,
            c0,
            c1,
            e1,
        )
}

/// The identifier sequence holds exactly the field names of the two records:
/// the saturation names of the merged record, whose order is irrelevant
/// beyond determinism.
pub open spec fn names_cover(names: Seq<Ident>, d1: RecordData, d2: RecordData) -> bool {
    forall|s: usize|
        #[trigger] crate::record::ident_seq_has(names, s) <==> (d1.fields.contains_sym(s)
            || d2.fields.contains_sym(s))
}

/// The operands make merge fail with a structural mismatch: they are not both
/// records, not equal atomic values, not two empty arrays, and not the
/// contract-mode case of a record contract applied to a non-record.
pub open spec fn merge_mismatch(x: Term, y: Term, mode: MergeMode) -> bool {
    &&& !(x is Record && y is Record)
    &&& !(is_atomic(x) && atomic_merge_ok(x, y))
    &&& !(match (x, y) {
        (Term::Array(a1, _), Term::Array(a2, _)) => a1@.len() == 0 && a2@.len() == 0,
        _ => false,
    })
    &&& !(mode is Contract && !(x is Record) && y is Record)
}

/// Does the checked record `d1` carry a field that the contract record `d2`
/// does not list?
pub open spec fn has_extra_fields(d1: RecordData, d2: RecordData) -> bool {
    exists|i: int|
        0 <= i < d1.fields.entries@.len() && !d2.fields.contains_sym(
            (#[trigger] d1.fields.entries@[i]).0.sym,
        )
}

/// The display names of the fields of `d1` that `d2` does not list, in field
/// order of `d1`.
pub open spec fn extra_field_names(d1: RecordData, d2: RecordData, c: Cache) -> Seq<Seq<char>> {
    crate::indexmap::left_entries(d1.fields.entries@, d2.fields.entries@).map_values(
        |e: (Ident, Rc<Field>)| c.idents.names@[e.0.sym as int]@,
    )
}

/// A structural-mismatch error carrying the two offending terms and the
/// position of the merge operator.
fn mk_incompatible(t1: &RichTerm, t2: &RichTerm, pos_op: TermPos) -> (e: EvalError)
    ensures
        match e {
            EvalError::MergeIncompatibleArgs(a, b, p) => a.term == t1.term && a.pos == t1.pos
                && b.term == t2.term && b.pos == t2.pos && p == pos_op,
            _ => false,
        },
{
    EvalError::MergeIncompatibleArgs(
        RichTerm { term: rc_clone(&t1.term), pos: t1.pos },
        RichTerm { term: rc_clone(&t2.term), pos: t2.pos },
        pos_op,
    )
}


/// Compute the merge of two evaluated operands. Supports both standard
/// merging and record contract application.
///
/// In [`MergeMode::Contract`] mode, `t1` must be the value and `t2` must be
/// the contract: `merge` is not commutative in this mode.
///
/// On atomic values, merge succeeds exactly when the two sides are equal, and
/// returns that common value at the operator's position. Two empty arrays
/// merge to an empty array; any other array combination is a structural
/// mismatch, as array merge is not implemented. On records, a sealed tail on
/// either side fails with the dedicated error; in contract mode a closed
/// contract record rejects extra fields of the checked value with a blame
/// error naming them; otherwise the result is a fresh recursive record
/// holding the fields of both sides, fields present on both sides merged
/// recursively.
pub fn merge(
    cache: &mut Cache,
    t1: RichTerm,
    env1: Environment,
    t2: RichTerm,
    env2: Environment,
    pos_op: TermPos,
    mode: MergeMode,
    call_stack: &mut CallStack,
) -> (r: Result<Closure, EvalError>)
    requires
        match *t1.term {
            Term::Record(d) => record_closurized(d, env1, *old(cache)),
            _ => true,
        },
        match *t2.term {
            Term::Record(d) => record_closurized(d, env2, *old(cache)),
            _ => true,
        },
    ensures
        cache_extends(*old(cache), *final(cache)),
        // Equal atomic values merge to that value, at the operator's
        // position.
        (is_atomic(*t1.term) && atomic_merge_ok(*t1.term, *t2.term)) ==> (match r {
            Ok(c) => c.body.term == t1.term && c.body.pos == pos_op.spec_into_inherited()
                && c.env.head is None && *final(cache) == *old(cache) && *final(call_stack)
                == *old(call_stack),
            Err(_) => false,
        }),
        // Two empty arrays merge to an empty array.
        (match (*t1.term, *t2.term) {
            (Term::Array(a1, _), Term::Array(a2, _)) => a1@.len() == 0 && a2@.len() == 0,
            _ => false,
        }) ==> (match r {
            Ok(c) => (match *c.body.term {
                Term::Array(es, attrs) => es@.len() == 0 && attrs.closurized,
                _ => false,
            }) && c.body.pos == pos_op.spec_into_inherited() && c.env.head is None && *final(cache) == *old(cache) && *final(call_stack) == *old(call_stack),
            Err(_) => false,
        }),
        // Any other combination outside records is a structural mismatch,
        // reported with both offending terms and the operator position.
        merge_mismatch(*t1.term, *t2.term, mode) ==> (match r {
            Err(EvalError::MergeIncompatibleArgs(a, b, p)) => a.term == t1.term && a.pos == t1.pos
                && b.term == t2.term && b.pos == t2.pos && p == pos_op && *final(cache) == *old(cache) && *final(call_stack) == *old(call_stack),
            _ => false,
        }),
        // A record contract applied to a non-record value blames its label.
        (match mode {
            MergeMode::Contract(lbl) => (!(*t1.term is Record) && *t2.term is Record) ==> (match r {
                Err(EvalError::BlameError { label, evaluated_arg, call_stack: cs }) => label == lbl
                    && evaluated_arg == spec_evaluated_arg(lbl, *old(cache)) && cs.frames@ == old(call_stack).frames@ && *final(cache) == *old(cache) && *final(call_stack) == *old(call_stack),
                _ => false,
            }),
            MergeMode::Standard => true,
        }),
        // A sealed tail on either side fails with the dedicated error; the
        // call stack is taken over by the error.
        (match (*t1.term, *t2.term) {
            (Term::Record(d1), Term::Record(d2)) => (d1.sealed_tail is Some || d2.sealed_tail
                is Some) ==> (match r {
                Err(
                    EvalError::IllegalPolymorphicTailAccess {
                        action,
                        label,
                        evaluated_arg,
                        call_stack: cs,
                    },
                ) => {
                    &&& action == IllegalPolymorphicTailAction::Merge
                    &&& label == (if d1.sealed_tail is Some {
                        d1.sealed_tail.unwrap().label
                    } else {
                        d2.sealed_tail.unwrap().label
                    })
                    &&& evaluated_arg == spec_evaluated_arg(label, *old(cache))
                    &&& cs.frames@ == old(call_stack).frames@
                    &&& final(call_stack).frames@.len() == 0
                    &&& *final(cache) == *old(cache)
                },
                _ => false,
            }),
            _ => true,
        }),
        // In contract mode, a closed contract record rejects extra fields of
        // the checked value with a blame error that names them.
        (match (mode, *t1.term, *t2.term) {
            (MergeMode::Contract(lbl), Term::Record(d1), Term::Record(d2)) => (d1.sealed_tail
                is None && d2.sealed_tail is None && !d2.attrs.open && has_extra_fields(d1, d2))
                ==> (match r {
                Err(EvalError::BlameError { label, evaluated_arg, call_stack: cs }) => {
                    &&& label.span == lbl.span
                    &&& label.polarity == lbl.polarity
                    &&& label.arg_idx == lbl.arg_idx
                    &&& (match label.diag_message {
                        Some(m) => m@ == extra_fields_msg(extra_field_names(d1, d2, *old(cache))),
                        None => false,
                    })
                    &&& label.diag_notes@.len() == 2
                    &&& label.diag_notes@[0]@ == misspell_note()
                    &&& label.diag_notes@[1]@ == open_contract_note()
                    &&& evaluated_arg == spec_evaluated_arg(lbl, *old(cache))
                    &&& cs.frames@.len() == 0
                    &&& *final(cache) == *old(cache)
                    &&& *final(call_stack) == *old(call_stack)
                },
                _ => false,
            }),
            _ => true,
        }),
        // Otherwise two records merge to a fresh recursive record holding
        // the union of the fields.
        (match (*t1.term, *t2.term) {
            (Term::Record(d1), Term::Record(d2)) => (d1.sealed_tail is None && d2.sealed_tail
                is None && !(mode is Contract && !d2.attrs.open && has_extra_fields(d1, d2)))
                ==> (match r {
                Ok(c) => {
                    &&& (match *c.body.term {
                        Term::RecRecord(data) => {
                            &&& data.attrs.open == (d1.attrs.open || d2.attrs.open)
                            &&& data.sealed_tail is None
                            &&& data.fields.wf()
                            &&& (forall|s: usize|
                                #[trigger] data.fields.contains_sym(s) <==> (
                                d1.fields.contains_sym(s) || d2.fields.contains_sym(s)))
                            // The fields of both sides are carried or
                            // merged, rewired against the combined record:
                            // each field value resolves, in the returned
                            // closure's environment, to the reverted or
                            // merged cache entries described by
                            // `merged_entry_ok`.
                            &&& (exists|names: Seq<Ident>|
                                #[trigger] merged_record_fields_ok(
                                    data,
                                    d1,
                                    d2,
                                    env1,
                                    env2,
                                    names,
                                    *old(cache),
                                    *final(cache),
                                    c.env,
                                ) && names_cover(names, d1, d2))
                        },
                        _ => false,
                    })
                    &&& c.body.pos == (if mode is Standard {
                        pos_op.spec_into_inherited()
                    } else {
                        t1.pos.spec_into_inherited()
                    })
                    &&& *final(call_stack) == *old(call_stack)
                },
                Err(_) => false,
            }),
            _ => true,
        }),
{
    let pos1 = t1.pos;
    match (&*t1.term, &*t2.term) {
        // Merge is idempotent on basic terms.
        (Term::Null, Term::Null) => Ok(
            Closure::atomic_closure(
                RichTerm { term: rc_clone(&t1.term), pos: pos_op.into_inherited() },
            ),
        ),
        (Term::Bool(b1), Term::Bool(b2)) => {
            if b1 == b2 {
                Ok(
                    Closure::atomic_closure(
                        RichTerm { term: rc_clone(&t1.term), pos: pos_op.into_inherited() },
                    ),
                )
            } else {
                Err(mk_incompatible(&t1, &t2, pos_op))
            }
        },
        (Term::Num(n1), Term::Num(n2)) => {
            if n1 == n2 {
                Ok(
                    Closure::atomic_closure(
                        RichTerm { term: rc_clone(&t1.term), pos: pos_op.into_inherited() },
                    ),
                )
            } else {
                Err(mk_incompatible(&t1, &t2, pos_op))
            }
        },
        (Term::Str(s1), Term::Str(s2)) => {
            if s1.eq(s2) {
                Ok(
                    Closure::atomic_closure(
                        RichTerm { term: rc_clone(&t1.term), pos: pos_op.into_inherited() },
                    ),
                )
            } else {
                Err(mk_incompatible(&t1, &t2, pos_op))
            }
        },
        (Term::Lbl(l1), Term::Lbl(l2)) => {
            if label_eq(l1, l2) {
                Ok(
                    Closure::atomic_closure(
                        RichTerm { term: rc_clone(&t1.term), pos: pos_op.into_inherited() },
                    ),
                )
            } else {
                Err(mk_incompatible(&t1, &t2, pos_op))
            }
        },
        (Term::Enum(i1), Term::Enum(i2)) => {
            if i1.sym == i2.sym {
                Ok(
                    Closure::atomic_closure(
                        RichTerm { term: rc_clone(&t1.term), pos: pos_op.into_inherited() },
                    ),
                )
            } else {
                Err(mk_incompatible(&t1, &t2, pos_op))
            }
        },
        (Term::Array(a1, _), Term::Array(a2, _)) => {
            if a1.len() == 0 && a2.len() == 0 {
                Ok(
                    Closure::atomic_closure(
                        RichTerm {
                            term: Rc::new(Term::Array(Vec::new(), ArrayAttrs::new().closurized())),
                            pos: pos_op.into_inherited(),
                        },
                    ),
                )
            } else {
                Err(mk_incompatible(&t1, &t2, pos_op))
            }
        },
        // Merge puts the fields of both records together, and recursively
        // merges fields present in both.
        (Term::Record(r1), Term::Record(r2)) => {
            let ghost gd1 = *r1;
            let ghost gd2 = *r2;
            // Merging a record with a sealed tail is prevented entirely:
            // there is no way to do so that preserves parametricity.
            let sealed_label: Option<Label> = match (&r1.sealed_tail, &r2.sealed_tail) {
                (Some(st), _) => Some(st.label.clone()),
                (None, Some(st)) => Some(st.label.clone()),
                (None, None) => None,
            };
            match sealed_label {
                Some(label) => {
                    let evaluated_arg = label.get_evaluated_arg(cache);
                    let taken = call_stack.take();
                    return Err(
                        EvalError::IllegalPolymorphicTailAccess {
                            action: IllegalPolymorphicTailAction::Merge,
                            label,
                            evaluated_arg,
                            call_stack: taken,
                        },
                    );
                },
                None => {},
            }
            let m1 = clone_fields(&r1.fields);
            let m2 = clone_fields(&r2.fields);
            let attrs1 = r1.attrs;
            let attrs2 = r2.attrs;
            let open2 = r2.attrs.open;
            let SplitResult { left, center, right } = split(m1, m2);
            let ghost gleft = left;
            let ghost gcenter = center;
            let ghost gright = right;
            let is_contract = matches!(&mode, MergeMode::Contract(_));
            if is_contract && !open2 && left.len() > 0 {
                let label = match mode {
                    MergeMode::Contract(l) => l,
                    MergeMode::Standard => {
                        proof {
                            assert(false);
                        }
                        Label::new(TermPos::Unknown)
                    },
                };
                let ghost names = extra_field_names(gd1, gd2, *cache);
                proof {
                    assert(gleft.entries@ == crate::indexmap::left_entries(
                        gd1.fields.entries@,
                        gd2.fields.entries@,
                    ));
                    assert(names.len() == gleft.entries@.len());
                    assert forall|j: int|
                        0 <= j < gleft.entries@.len() implies (
                    #[trigger] gleft.entries@[j]).0.sym < cache.idents.names@.len() by {
                        let s0 = gleft.entries@[j].0.sym;
                        assert(gleft.contains_sym(s0)) by {
                            assert(gleft.entries@[j].0.sym == s0);
                        }
                        assert(gd1.fields.contains_sym(s0));
                        let k = choose|k: int|
                            0 <= k < gd1.fields.entries@.len() && (
                            #[trigger] gd1.fields.entries@[k]).0.sym == s0;
                        assert(gd1.fields.entries@[k].0.sym < cache.idents.names@.len());
                    }
                }
                let mut fields_list = String::new();
                let mut i: usize = 0;
                while i < left.len()
                    invariant
                        i <= left.entries@.len(),
                        left == gleft,
                        names == extra_field_names(gd1, gd2, *cache),
                        names.len() == gleft.entries@.len(),
                        forall|j: int|
                            0 <= j < gleft.entries@.len() ==> (
                            #[trigger] gleft.entries@[j]).0.sym < cache.idents.names@.len(),
                        forall|j: int|
                            0 <= j < names.len() ==> names[j] == cache.idents.names@[(
                            #[trigger] gleft.entries@[j]).0.sym as int]@,
                        i > 0 ==> fields_list@ == joined_names(names.take(i as int)),
                        i == 0 ==> fields_list@.len() == 0,
                    decreases left.entries@.len() - i,
                {
                    let id = left.key_at(i);
                    let name = cache.name_of(id);
                    let quoted_name = String::from_str("`").concat(name.as_str()).concat("`");
                    proof {
                        assert(quoted_name@ == quoted(names[i as int]));
                        assert(names.take(i as int + 1).drop_last() =~= names.take(i as int));
                        assert(names.take(i as int + 1).last() == names[i as int]);
                    }
                    if i == 0 {
                        fields_list = quoted_name;
                    } else {
                        fields_list = fields_list.concat(",").concat(quoted_name.as_str());
                    }
                    i = i + 1;
                }
                proof {
                    assert(names.take(names.len() as int) =~= names);
                }
                let mut msg = String::from_str("extra field");
                if left.len() != 1 {
                    msg = msg.concat("s");
                }
                msg = msg.concat(" ").concat(fields_list.as_str());
                proof {
                    assert(msg@ == extra_fields_msg(names));
                }
                let mut notes: Vec<String> = Vec::new();
                notes.push(String::from_str("Have you misspelled a field?"));
                notes.push(
                    String::from_str(
                        "The record contract might also be too strict. By default, record contracts exclude any field which is not listed.\nAppend `, ..` at the end of the record contract, as in `{some_field | SomeContract, ..}`, to make it accept extra fields.",
                    ),
                );
                let label = label.with_diagnostic_message(msg).with_diagnostic_notes(notes);
                let evaluated_arg = label.get_evaluated_arg(cache);
                proof {
                    assert(has_extra_fields(gd1, gd2)) by {
                        let s0 = gleft.entries@[0].0.sym;
                        assert(gleft.contains_sym(s0)) by {
                            assert(gleft.entries@[0].0.sym == s0);
                        }
                        assert(gd1.fields.contains_sym(s0) && !gd2.fields.contains_sym(s0));
                        let k = choose|k: int|
                            0 <= k < gd1.fields.entries@.len() && (
                            #[trigger] gd1.fields.entries@[k]).0.sym == s0;
                        assert(!gd2.fields.contains_sym(gd1.fields.entries@[k].0.sym));
                    }
                }
                return Err(
                    EvalError::BlameError { label, evaluated_arg, call_stack: CallStack::new() },
                );
            }
            proof {
                if mode is Contract && !gd2.attrs.open {
                    assert(gleft.entries@.len() == 0);
                    assert(!has_extra_fields(gd1, gd2)) by {
                        if has_extra_fields(gd1, gd2) {
                            let i = choose|i: int|
                                0 <= i < gd1.fields.entries@.len() && !gd2.fields.contains_sym(
                                    (#[trigger] gd1.fields.entries@[i]).0.sym,
                                );
                            let s0 = gd1.fields.entries@[i].0.sym;
                            assert(gd1.fields.contains_sym(s0)) by {
                                assert(gd1.fields.entries@[i].0.sym == s0);
                            }
                            assert(gleft.contains_sym(s0));
                        }
                    }
                }
            }
            // The names of all fields of the merged record, for saturation:
            // every field of either side occurs, in some deterministic
            // order.
            let mut field_names: Vec<Ident> = Vec::new();
            let mut i: usize = 0;
            proof {
                assert(gleft.entries@.take(0) =~= Seq::<(Ident, Rc<Field>)>::empty());
            }
            while i < left.len()
                invariant
                    i <= left.entries@.len(),
                    left == gleft,
                    forall|s: usize|
                        #[trigger] crate::record::ident_seq_has(field_names@, s)
                            <==> crate::indexmap::seq_has_sym(gleft.entries@.take(i as int), s),
                decreases left.entries@.len() - i,
            {
                let ghost fn0 = field_names@;
                let key = left.key_at(i);
                field_names.push(key);
                proof {
                    crate::record::lemma_ident_seq_push(fn0, key);
                    crate::indexmap::lemma_push_syms(
                        gleft.entries@.take(i as int),
                        gleft.entries@[i as int],
                    );
                    assert(gleft.entries@.take(i as int + 1) =~= gleft.entries@.take(
                        i as int,
                    ).push(gleft.entries@[i as int]));
                }
                i = i + 1;
            }
            proof {
                assert(gleft.entries@.take(gleft.entries@.len() as int) =~= gleft.entries@);
                assert(gcenter.entries@.take(0) =~= Seq::<(Ident, (Rc<Field>, Rc<Field>))>::empty());
            }
            let mut i: usize = 0;
            while i < center.len()
                invariant
                    i <= center.entries@.len(),
                    center == gcenter,
                    forall|s: usize|
                        #[trigger] crate::record::ident_seq_has(field_names@, s) <==> (
                        gleft.contains_sym(s) || crate::indexmap::seq_has_sym(
                            gcenter.entries@.take(i as int),
                            s,
                        )),
                decreases center.entries@.len() - i,
            {
                let ghost fn0 = field_names@;
                let key = center.key_at(i);
                field_names.push(key);
                proof {
                    crate::record::lemma_ident_seq_push(fn0, key);
                    crate::indexmap::lemma_push_syms(
                        gcenter.entries@.take(i as int),
                        gcenter.entries@[i as int],
                    );
                    assert(gcenter.entries@.take(i as int + 1) =~= gcenter.entries@.take(
                        i as int,
                    ).push(gcenter.entries@[i as int]));
                }
                i = i + 1;
            }
            proof {
                assert(gcenter.entries@.take(gcenter.entries@.len() as int) =~= gcenter.entries@);
                assert(gright.entries@.take(0) =~= Seq::<(Ident, Rc<Field>)>::empty());
            }
            let mut i: usize = 0;
            while i < right.len()
                invariant
                    i <= right.entries@.len(),
                    right == gright,
                    forall|s: usize|
                        #[trigger] crate::record::ident_seq_has(field_names@, s) <==> (
                        gleft.contains_sym(s) || gcenter.contains_sym(s)
                            || crate::indexmap::seq_has_sym(gright.entries@.take(i as int), s)),
                decreases right.entries@.len() - i,
            {
                let ghost fn0 = field_names@;
                let key = right.key_at(i);
                field_names.push(key);
                proof {
                    crate::record::lemma_ident_seq_push(fn0, key);
                    crate::indexmap::lemma_push_syms(
                        gright.entries@.take(i as int),
                        gright.entries@[i as int],
                    );
                    assert(gright.entries@.take(i as int + 1) =~= gright.entries@.take(
                        i as int,
                    ).push(gright.entries@[i as int]));
                }
                i = i + 1;
            }
            proof {
                assert(gright.entries@.take(gright.entries@.len() as int) =~= gright.entries@);
                assert forall|s: usize|
                    #[trigger] crate::record::ident_seq_has(field_names@, s) <==> (
                gd1.fields.contains_sym(s) || gd2.fields.contains_sym(s)) by {
                    assert(crate::record::ident_seq_has(field_names@, s) <==> (
                    gleft.contains_sym(s) || gcenter.contains_sym(s)
                        || crate::indexmap::seq_has_sym(gright.entries@, s)));
                    assert(gright.contains_sym(s) == crate::indexmap::seq_has_sym(
                        gright.entries@,
                        s,
                    ));
                    if gd1.fields.contains_sym(s) && gd2.fields.contains_sym(s) {
                        assert(gcenter.contains_sym(s));
                    } else if gd1.fields.contains_sym(s) {
                        assert(gleft.contains_sym(s));
                    } else if gd2.fields.contains_sym(s) {
                        assert(gright.contains_sym(s));
                    }
                    if gleft.contains_sym(s) {
                        assert(gd1.fields.contains_sym(s));
                    }
                    if gcenter.contains_sym(s) {
                        assert(gd1.fields.contains_sym(s));
                    }
                    if gright.contains_sym(s) {
                        assert(gd2.fields.contains_sym(s));
                    }
                }
                assert(names_cover(field_names@, gd1, gd2));
            }
            // Merging recursive records is the one operation that may
            // override recursive fields. Fields carried from one side are
            // reverted, so that their recursive references re-evaluate
            // against the merged record; fields present on both sides are
            // saturated (see [`Cache::saturate`]) to propagate the merged
            // values down to each side.
            let ghost cache0 = *cache;
            let mut m: IndexMap<Rc<Field>> = IndexMap::new();
            let mut env = Environment::new();
            let mut left = left;
            let ghost mut la: int = 0;
            proof {
                assert(gleft.entries@.skip(0) =~= gleft.entries@);
                assert(gleft.entries@.take(0) =~= Seq::<(Ident, Rc<Field>)>::empty());
            }
            while left.len() > 0
                invariant
                    0 <= la <= gleft.entries@.len(),
                    left.entries@ == gleft.entries@.skip(la),
                    gleft.wf(),
                    m.wf(),
                    cache_extends(cache0, *cache),
                    record_closurized(gd1, env1, cache0),
                    record_closurized(gd2, env2, cache0),
                    forall|s: usize, f: Rc<Field>| #[trigger]
                        gleft.maps_to(s, f) ==> gd1.fields.maps_to(s, f),
                    forall|s: usize|
                        #[trigger] gleft.contains_sym(s) ==> (gd1.fields.contains_sym(s)
                            && !gd2.fields.contains_sym(s)),
                    forall|s: usize|
                        #[trigger] m.contains_sym(s) <==> crate::indexmap::seq_has_sym(
                            gleft.entries@.take(la),
                            s,
                        ),
                    forall|i: int|
                        0 <= i < m.entries@.len() ==> merged_entry_ok(
                            #[trigger] m.entries@[i],
                            gd1,
                            gd2,
                            env1,
                            env2,
                            field_names@,
                            cache0,
                            *cache,
                            env,
                        ),
                decreases left.entries@.len(),
            {
                let (id, f) = left.take_first();
                proof {
                    assert((id, f) == gleft.entries@[la]);
                    assert(left.entries@ =~= gleft.entries@.skip(la + 1));
                    assert(gleft.maps_to(id.sym, f)) by {
                        assert(gleft.entries@[la].0.sym == id.sym);
                    }
                    assert(gd1.fields.maps_to(id.sym, f));
                    assert(field_closurized(*f, env1, cache0.entries@.len())) by {
                        let j = choose|j: int|
                            0 <= j < gd1.fields.entries@.len() && (
                            #[trigger] gd1.fields.entries@[j]).0.sym == id.sym
                                && gd1.fields.entries@[j].1 == f;
                        assert(field_closurized(*gd1.fields.entries@[j].1, env1, cache0.entries@.len()));
                    }
                    assert(field_closurized(*f, env1, cache.entries@.len()));
                }
                let ghost cache_pre = *cache;
                let ghost env_pre = env;
                let nf = (&*f).revert_closurize(cache, &mut env, &env1);
                proof {
                    lemma_cache_extends_trans(cache0, cache_pre, *cache);
                    assert(!m.contains_sym(id.sym)) by {
                        if crate::indexmap::seq_has_sym(gleft.entries@.take(la), id.sym) {
                            let j = choose|j: int|
                                0 <= j < la && (#[trigger] gleft.entries@.take(la)[j]).0.sym
                                    == id.sym;
                            assert(gleft.entries@[j].0.sym == gleft.entries@[la].0.sym);
                        }
                    }
                }
                let ghost m0 = m;
                m.insert(id, Rc::new(nf));
                proof {
                    crate::indexmap::lemma_push_syms(
                        gleft.entries@.take(la),
                        gleft.entries@[la],
                    );
                    assert(gleft.entries@.take(la + 1) =~= gleft.entries@.take(la).push(
                        gleft.entries@[la],
                    ));
                    let ghost e_new = m.entries@.last();
                    assert(m.entries@ == m0.entries@.push(e_new));
                    crate::indexmap::lemma_push_syms(m0.entries@, e_new);
                    assert(gleft.contains_sym(id.sym)) by {
                        assert(gleft.entries@[la].0.sym == id.sym);
                    }
                    assert forall|i: int|
                        0 <= i < m0.entries@.len() implies merged_entry_ok(
                        #[trigger] m0.entries@[i],
                        gd1,
                        gd2,
                        env1,
                        env2,
                        field_names@,
                        cache0,
                        *cache,
                        env,
                    ) by {
                        lemma_merged_entry_stable(
                            m0.entries@[i],
                            gd1,
                            gd2,
                            env1,
                            env2,
                            field_names@,
                            cache0,
                            cache_pre,
                            *cache,
                            env_pre,
                            env,
                        );
                    }
                    assert(merged_entry_ok(
                        (id, Rc::new(nf)),
                        gd1,
                        gd2,
                        env1,
                        env2,
                        field_names@,
                        cache0,
                        *cache,
                        env,
                    )) by {
                        assert(gd1.fields.contains_sym(id.sym));
                        assert(!gd2.fields.contains_sym(id.sym));
                        assert(carried_field_ok(nf, *f, env1, cache_pre, *cache, env));
                        lemma_carried_field_rebase(nf, *f, env1, cache0, cache_pre, *cache, env);
                        let j = choose|j: int|
                            0 <= j < gd1.fields.entries@.len() && (
                            #[trigger] gd1.fields.entries@[j]).0.sym == id.sym
                                && gd1.fields.entries@[j].1 == f;
                        assert(carried_field_ok(nf, *gd1.fields.entries@[j].1, env1, cache0, *cache, env));
                    }
                    assert forall|s: usize|
                        #[trigger] m.contains_sym(s) <==> crate::indexmap::seq_has_sym(
                            gleft.entries@.take(la + 1),
                            s,
                        ) by {
                        assert(m0.contains_sym(s) <==> crate::indexmap::seq_has_sym(
                            gleft.entries@.take(la),
                            s,
                        ));
                        assert(crate::indexmap::seq_has_sym(m0.entries@.push(e_new), s) <==> (
                        crate::indexmap::seq_has_sym(m0.entries@, s) || e_new.0.sym == s));
                        assert(e_new.0.sym == id.sym);
                        assert(crate::indexmap::seq_has_sym(
                            gleft.entries@.take(la).push(gleft.entries@[la]),
                            s,
                        ) <==> (crate::indexmap::seq_has_sym(gleft.entries@.take(la), s)
                            || gleft.entries@[la].0.sym == s));
                    }
                    la = la + 1;
                }
            }
            let mut right = right;
            let ghost mut ra: int = 0;
            proof {
                assert(gright.entries@.skip(0) =~= gright.entries@);
                assert(gright.entries@.take(0) =~= Seq::<(Ident, Rc<Field>)>::empty());
                assert(gleft.entries@.take(la) =~= gleft.entries@);
            }
            while right.len() > 0
                invariant
                    0 <= ra <= gright.entries@.len(),
                    right.entries@ == gright.entries@.skip(ra),
                    gright.wf(),
                    m.wf(),
                    cache_extends(cache0, *cache),
                    record_closurized(gd1, env1, cache0),
                    record_closurized(gd2, env2, cache0),
                    forall|s: usize, f: Rc<Field>| #[trigger]
                        gright.maps_to(s, f) ==> gd2.fields.maps_to(s, f),
                    forall|s: usize|
                        #[trigger] gright.contains_sym(s) ==> (gd2.fields.contains_sym(s)
                            && !gd1.fields.contains_sym(s)),
                    forall|s: usize|
                        #[trigger] gleft.contains_sym(s) ==> (gd1.fields.contains_sym(s)
                            && !gd2.fields.contains_sym(s)),
                    forall|s: usize|
                        #[trigger] m.contains_sym(s) <==> (gleft.contains_sym(s)
                            || crate::indexmap::seq_has_sym(gright.entries@.take(ra), s)),
                    forall|i: int|
                        0 <= i < m.entries@.len() ==> merged_entry_ok(
                            #[trigger] m.entries@[i],
                            gd1,
                            gd2,
                            env1,
                            env2,
                            field_names@,
                            cache0,
                            *cache,
                            env,
                        ),
                decreases right.entries@.len(),
            {
                let (id, f) = right.take_first();
                proof {
                    assert((id, f) == gright.entries@[ra]);
                    assert(right.entries@ =~= gright.entries@.skip(ra + 1));
                    assert(gright.maps_to(id.sym, f)) by {
                        assert(gright.entries@[ra].0.sym == id.sym);
                    }
                    assert(gright.contains_sym(id.sym)) by {
                        assert(gright.entries@[ra].0.sym == id.sym);
                    }
                    assert(gd2.fields.maps_to(id.sym, f));
                    assert(field_closurized(*f, env2, cache0.entries@.len())) by {
                        let j = choose|j: int|
                            0 <= j < gd2.fields.entries@.len() && (
                            #[trigger] gd2.fields.entries@[j]).0.sym == id.sym
                                && gd2.fields.entries@[j].1 == f;
                        assert(field_closurized(*gd2.fields.entries@[j].1, env2, cache0.entries@.len()));
                    }
                    assert(field_closurized(*f, env2, cache.entries@.len()));
                }
                let ghost cache_pre = *cache;
                let ghost env_pre = env;
                let nf = (&*f).revert_closurize(cache, &mut env, &env2);
                proof {
                    lemma_cache_extends_trans(cache0, cache_pre, *cache);
                    assert(!m.contains_sym(id.sym)) by {
                        if crate::indexmap::seq_has_sym(gright.entries@.take(ra), id.sym) {
                            let j = choose|j: int|
                                0 <= j < ra && (#[trigger] gright.entries@.take(ra)[j]).0.sym
                                    == id.sym;
                            assert(gright.entries@[j].0.sym == gright.entries@[ra].0.sym);
                        }
                    }
                }
                let ghost m0 = m;
                m.insert(id, Rc::new(nf));
                proof {
                    crate::indexmap::lemma_push_syms(
                        gright.entries@.take(ra),
                        gright.entries@[ra],
                    );
                    assert(gright.entries@.take(ra + 1) =~= gright.entries@.take(ra).push(
                        gright.entries@[ra],
                    ));
                    let ghost e_new = m.entries@.last();
                    assert(m.entries@ == m0.entries@.push(e_new));
                    crate::indexmap::lemma_push_syms(m0.entries@, e_new);
                    assert forall|i: int|
                        0 <= i < m0.entries@.len() implies merged_entry_ok(
                        #[trigger] m0.entries@[i],
                        gd1,
                        gd2,
                        env1,
                        env2,
                        field_names@,
                        cache0,
                        *cache,
                        env,
                    ) by {
                        lemma_merged_entry_stable(
                            m0.entries@[i],
                            gd1,
                            gd2,
                            env1,
                            env2,
                            field_names@,
                            cache0,
                            cache_pre,
                            *cache,
                            env_pre,
                            env,
                        );
                    }
                    assert(merged_entry_ok(
                        (id, Rc::new(nf)),
                        gd1,
                        gd2,
                        env1,
                        env2,
                        field_names@,
                        cache0,
                        *cache,
                        env,
                    )) by {
                        assert(gd2.fields.contains_sym(id.sym));
                        assert(!gd1.fields.contains_sym(id.sym));
                        assert(carried_field_ok(nf, *f, env2, cache_pre, *cache, env));
                        lemma_carried_field_rebase(nf, *f, env2, cache0, cache_pre, *cache, env);
                        let j = choose|j: int|
                            0 <= j < gd2.fields.entries@.len() && (
                            #[trigger] gd2.fields.entries@[j]).0.sym == id.sym
                                && gd2.fields.entries@[j].1 == f;
                        assert(carried_field_ok(nf, *gd2.fields.entries@[j].1, env2, cache0, *cache, env));
                    }
                    assert forall|s: usize|
                        #[trigger] m.contains_sym(s) <==> (gleft.contains_sym(s)
                            || crate::indexmap::seq_has_sym(gright.entries@.take(ra + 1), s)) by {
                        assert(m0.contains_sym(s) <==> (gleft.contains_sym(s)
                            || crate::indexmap::seq_has_sym(gright.entries@.take(ra), s)));
                        assert(crate::indexmap::seq_has_sym(m0.entries@.push(e_new), s) <==> (
                        crate::indexmap::seq_has_sym(m0.entries@, s) || e_new.0.sym == s));
                        assert(e_new.0.sym == id.sym);
                        assert(crate::indexmap::seq_has_sym(
                            gright.entries@.take(ra).push(gright.entries@[ra]),
                            s,
                        ) <==> (crate::indexmap::seq_has_sym(gright.entries@.take(ra), s)
                            || gright.entries@[ra].0.sym == s));
                    }
                    ra = ra + 1;
                }
            }
            let mut center = center;
            let ghost mut ca: int = 0;
            proof {
                assert(gcenter.entries@.skip(0) =~= gcenter.entries@);
                assert(gcenter.entries@.take(0) =~= Seq::<(Ident, (Rc<Field>, Rc<Field>))>::empty());
                assert(gright.entries@.take(ra) =~= gright.entries@);
            }
            while center.len() > 0
                invariant
                    0 <= ca <= gcenter.entries@.len(),
                    center.entries@ == gcenter.entries@.skip(ca),
                    gcenter.wf(),
                    m.wf(),
                    cache_extends(cache0, *cache),
                    record_closurized(gd1, env1, cache0),
                    record_closurized(gd2, env2, cache0),
                    forall|s: usize, p: (Rc<Field>, Rc<Field>)| #[trigger]
                        gcenter.maps_to(s, p) ==> (gd1.fields.maps_to(s, p.0)
                            && gd2.fields.maps_to(s, p.1)),
                    forall|s: usize|
                        #[trigger] gcenter.contains_sym(s) ==> (gd1.fields.contains_sym(s)
                            && gd2.fields.contains_sym(s)),
                    forall|s: usize|
                        #[trigger] gleft.contains_sym(s) ==> (gd1.fields.contains_sym(s)
                            && !gd2.fields.contains_sym(s)),
                    forall|s: usize|
                        #[trigger] gright.contains_sym(s) ==> (gd2.fields.contains_sym(s)
                            && !gd1.fields.contains_sym(s)),
                    forall|s: usize|
                        #[trigger] m.contains_sym(s) <==> (gleft.contains_sym(s)
                            || gright.contains_sym(s) || crate::indexmap::seq_has_sym(
                            gcenter.entries@.take(ca),
                            s,
                        )),
                    forall|i: int|
                        0 <= i < m.entries@.len() ==> merged_entry_ok(
                            #[trigger] m.entries@[i],
                            gd1,
                            gd2,
                            env1,
                            env2,
                            field_names@,
                            cache0,
                            *cache,
                            env,
                        ),
                decreases center.entries@.len(),
            {
                let (id, pair) = center.take_first();
                let (f1, f2) = pair;
                proof {
                    assert((id, (f1, f2)) == gcenter.entries@[ca]);
                    assert(center.entries@ =~= gcenter.entries@.skip(ca + 1));
                    assert(gcenter.maps_to(id.sym, (f1, f2))) by {
                        assert(gcenter.entries@[ca].0.sym == id.sym);
                    }
                    assert(gcenter.contains_sym(id.sym)) by {
                        assert(gcenter.entries@[ca].0.sym == id.sym);
                    }
                    assert(gd1.fields.maps_to(id.sym, f1));
                    assert(gd2.fields.maps_to(id.sym, f2));
                    assert(field_closurized(*f1, env1, cache0.entries@.len())) by {
                        let j = choose|j: int|
                            0 <= j < gd1.fields.entries@.len() && (
                            #[trigger] gd1.fields.entries@[j]).0.sym == id.sym
                                && gd1.fields.entries@[j].1 == f1;
                        assert(field_closurized(*gd1.fields.entries@[j].1, env1, cache0.entries@.len()));
                    }
                    assert(field_closurized(*f2, env2, cache0.entries@.len())) by {
                        let j = choose|j: int|
                            0 <= j < gd2.fields.entries@.len() && (
                            #[trigger] gd2.fields.entries@[j]).0.sym == id.sym
                                && gd2.fields.entries@[j].1 == f2;
                        assert(field_closurized(*gd2.fields.entries@[j].1, env2, cache0.entries@.len()));
                    }
                    assert(field_closurized(*f1, env1, cache.entries@.len()));
                    assert(field_closurized(*f2, env2, cache.entries@.len()));
                }
                let ghost cache_pre = *cache;
                let ghost env_pre = env;
                let nf = match merge_fields(
                    cache,
                    &*f1,
                    env1.clone(),
                    &*f2,
                    env2.clone(),
                    &mut env,
                    &field_names,
                ) {
                    Ok(nf) => nf,
                    Err(e) => {
                        proof {
                            assert(false);
                        }
                        return Err(e);
                    },
                };
                proof {
                    lemma_cache_extends_trans(cache0, cache_pre, *cache);
                    assert(!m.contains_sym(id.sym)) by {
                        if crate::indexmap::seq_has_sym(gcenter.entries@.take(ca), id.sym) {
                            let j = choose|j: int|
                                0 <= j < ca && (#[trigger] gcenter.entries@.take(ca)[j]).0.sym
                                    == id.sym;
                            assert(gcenter.entries@[j].0.sym == gcenter.entries@[ca].0.sym);
                        }
                    }
                }
                let ghost m0 = m;
                m.insert(id, Rc::new(nf));
                proof {
                    crate::indexmap::lemma_push_syms(
                        gcenter.entries@.take(ca),
                        gcenter.entries@[ca],
                    );
                    assert(gcenter.entries@.take(ca + 1) =~= gcenter.entries@.take(ca).push(
                        gcenter.entries@[ca],
                    ));
                    let ghost e_new = m.entries@.last();
                    assert(m.entries@ == m0.entries@.push(e_new));
                    crate::indexmap::lemma_push_syms(m0.entries@, e_new);
                    assert forall|i: int|
                        0 <= i < m0.entries@.len() implies merged_entry_ok(
                        #[trigger] m0.entries@[i],
                        gd1,
                        gd2,
                        env1,
                        env2,
                        field_names@,
                        cache0,
                        *cache,
                        env,
                    ) by {
                        lemma_merged_entry_stable(
                            m0.entries@[i],
                            gd1,
                            gd2,
                            env1,
                            env2,
                            field_names@,
                            cache0,
                            cache_pre,
                            *cache,
                            env_pre,
                            env,
                        );
                    }
                    assert(merged_entry_ok(
                        (id, Rc::new(nf)),
                        gd1,
                        gd2,
                        env1,
                        env2,
                        field_names@,
                        cache0,
                        *cache,
                        env,
                    )) by {
                        assert(gd1.fields.contains_sym(id.sym));
                        assert(gd2.fields.contains_sym(id.sym));
                        assert(merged_field_ok(
                            nf,
                            *f1,
                            *f2,
                            env1,
                            env2,
                            field_names@,
                            cache_pre,
                            *cache,
                            env,
                        ));
                        lemma_merged_field_rebase(
                            nf,
                            *f1,
                            *f2,
                            env1,
                            env2,
                            field_names@,
                            cache0,
                            cache_pre,
                            *cache,
                            env,
                        );
                        let j = choose|j: int|
                            0 <= j < gd1.fields.entries@.len() && (
                            #[trigger] gd1.fields.entries@[j]).0.sym == id.sym
                                && gd1.fields.entries@[j].1 == f1;
                        let k = choose|k: int|
                            0 <= k < gd2.fields.entries@.len() && (
                            #[trigger] gd2.fields.entries@[k]).0.sym == id.sym
                                && gd2.fields.entries@[k].1 == f2;
                        assert(merged_field_ok(
                            nf,
                            *gd1.fields.entries@[j].1,
                            *gd2.fields.entries@[k].1,
                            env1,
                            env2,
                            field_names@,
                            cache0,
                            *cache,
                            env,
                        ));
                    }
                    assert forall|s: usize|
                        #[trigger] m.contains_sym(s) <==> (gleft.contains_sym(s)
                            || gright.contains_sym(s) || crate::indexmap::seq_has_sym(
                            gcenter.entries@.take(ca + 1),
                            s,
                        )) by {
                        assert(m0.contains_sym(s) <==> (gleft.contains_sym(s)
                            || gright.contains_sym(s) || crate::indexmap::seq_has_sym(
                            gcenter.entries@.take(ca),
                            s,
                        )));
                        assert(crate::indexmap::seq_has_sym(m0.entries@.push(e_new), s) <==> (
                        crate::indexmap::seq_has_sym(m0.entries@, s) || e_new.0.sym == s));
                        assert(e_new.0.sym == id.sym);
                        assert(crate::indexmap::seq_has_sym(
                            gcenter.entries@.take(ca).push(gcenter.entries@[ca]),
                            s,
                        ) <==> (crate::indexmap::seq_has_sym(gcenter.entries@.take(ca), s)
                            || gcenter.entries@[ca].0.sym == s));
                    }
                    ca = ca + 1;
                }
            }
            proof {
                assert(gcenter.entries@.take(ca) =~= gcenter.entries@);
                assert forall|s: usize|
                    #[trigger] m.contains_sym(s) <==> (gd1.fields.contains_sym(s)
                        || gd2.fields.contains_sym(s)) by {
                    if gd1.fields.contains_sym(s) && gd2.fields.contains_sym(s) {
                        assert(gcenter.contains_sym(s));
                    } else if gd1.fields.contains_sym(s) {
                        assert(gleft.contains_sym(s));
                    } else if gd2.fields.contains_sym(s) {
                        assert(gright.contains_sym(s));
                    }
                }
            }
            let standard_mode = matches!(&mode, MergeMode::Standard);
            let final_pos = if standard_mode {
                pos_op.into_inherited()
            } else {
                pos1.into_inherited()
            };
            let data = RecordData {
                fields: m,
                attrs: RecordAttrs::merge(attrs1, attrs2),
                sealed_tail: None,
            };
            proof {
                assert(merged_record_fields_ok(
                    data,
                    gd1,
                    gd2,
                    env1,
                    env2,
                    field_names@,
                    cache0,
                    *cache,
                    env,
                ));
            }
            Ok(
                Closure {
                    body: RichTerm { term: Rc::new(Term::RecRecord(data)), pos: final_pos },
                    env,
                },
            )
        },
        // The remaining cases are either a record contract applied to a
        // non-record value, or a structural mismatch.
        (_, _) => {
            let t2_is_rec = matches!(&*t2.term, Term::Record(_));
            match mode {
                MergeMode::Contract(label) => {
                    if t2_is_rec {
                        let evaluated_arg = label.get_evaluated_arg(cache);
                        Err(
                            EvalError::BlameError {
                                label,
                                evaluated_arg,
                                call_stack: call_stack.clone(),
                            },
                        )
                    } else {
                        Err(mk_incompatible(&t1, &t2, pos_op))
                    }
                },
                MergeMode::Standard => Err(mk_incompatible(&t1, &t2, pos_op)),
            }
        },
    }
}

} // verus!
