//! A small call-by-name evaluator around the merge engine.
//!
//! The merge engine consumes evaluated operands and produces closures whose
//! recursive bindings live in the cache; this evaluator is the loop that
//! forces such closures: it resolves variables through the cache, closurizes
//! recursive records (binding each field's dependencies to its siblings, the
//! step that makes overrides visible), applies functions, adds numbers, and
//! hands merge expressions to [`crate::merge::merge`]. It is fueled: every
//! recursive step consumes fuel, and running out is reported separately from
//! evaluation errors.

use std::rc::Rc;

use vstd::prelude::*;

use crate::cache::{BindingType, Cache, Closure, IdentKind};
use crate::env::Environment;
use crate::error::{CallStack, EvalError};
use crate::ident::Ident;
use crate::indexmap::IndexMap;
use crate::merge::{
    atomic_merge_ok, is_atomic, merge, record_closurized, term_closurized, MergeMode,
};
use crate::record::{Field, FieldDeps, RecordData};
use crate::term::{BinaryOp, RichTerm, Term};

verus! {

/// Why evaluation stopped without a value.
#[derive(Debug)]
pub enum EvalStop {
    /// An evaluation error.
    Error(EvalError),
    /// The fuel ran out before evaluation finished.
    OutOfFuel,
}

/// Does the symbol `s` occur in an identifier position syntactically
/// reachable from `t`?
pub open spec fn term_mentions(t: RichTerm, s: usize) -> bool
    decreases t,
{
    match *t.term {
        Term::Var(id) => id.sym == s,
        Term::Fun(_, b) => term_mentions(b, s),
        Term::App(f, a) => term_mentions(f, s) || term_mentions(a, s),
        Term::Op1(_, a) => term_mentions(a, s),
        Term::Op2(_, a, b) => term_mentions(a, s) || term_mentions(b, s),
        Term::Annotated(_, a) => term_mentions(a, s),
        _ => false,
    }
}

/// The identifiers syntactically reachable from `t` in identifier position:
/// the dependency overapproximation used when closurizing a recursive-record
/// field. Terms this evaluator cannot run (arrays, nested records, n-ary
/// operations) contribute nothing, as they are rejected later anyway.
pub fn free_idents(t: &RichTerm, acc: &mut Vec<Ident>)
    ensures
        forall|j: int|
            0 <= j < old(acc)@.len() ==> final(acc)@[j] == old(acc)@[j],
        final(acc)@.len() >= old(acc)@.len(),
        forall|s: usize|
            crate::record::ident_seq_has(final(acc)@, s) <==> (crate::record::ident_seq_has(
                old(acc)@,
                s,
            ) || term_mentions(*t, s)),
    decreases *t.term,
{
    let ghost acc0 = acc@;
    match &*t.term {
        Term::Var(id) => {
            acc.push(*id);
            proof {
                assert forall|s: usize|
                    crate::record::ident_seq_has(acc@, s) <==> (crate::record::ident_seq_has(
                        acc0,
                        s,
                    ) || term_mentions(*t, s)) by {
                    if crate::record::ident_seq_has(acc@, s) {
                        let j = choose|j: int| 0 <= j < acc@.len() && (#[trigger] acc@[j]).sym
                            == s;
                        if j < acc0.len() {
                            assert(acc0[j] == acc@[j]);
                        }
                    }
                    if crate::record::ident_seq_has(acc0, s) {
                        let j = choose|j: int| 0 <= j < acc0.len() && (#[trigger] acc0[j]).sym
                            == s;
                        assert(acc@[j] == acc0[j]);
                    }
                    if term_mentions(*t, s) {
                        assert(acc@[acc0.len() as int].sym == s);
                    }
                }
            }
        },
        Term::Fun(_, b) => {
            free_idents(b, acc);
            proof {
                assert(forall|s: usize| term_mentions(*t, s) == term_mentions(*b, s));
            }
        },
        Term::App(f, a) => {
            free_idents(f, acc);
            let ghost acc1 = acc@;
            free_idents(a, acc);
            proof {
                assert forall|s: usize|
                    crate::record::ident_seq_has(acc@, s) <==> (crate::record::ident_seq_has(
                        acc0,
                        s,
                    ) || term_mentions(*t, s)) by {
                    assert(crate::record::ident_seq_has(acc1, s) <==> (
                    crate::record::ident_seq_has(acc0, s) || term_mentions(*f, s)));
                    assert(crate::record::ident_seq_has(acc@, s) <==> (
                    crate::record::ident_seq_has(acc1, s) || term_mentions(*a, s)));
                }
            }
        },
        Term::Op1(_, a) => {
            free_idents(a, acc);
            proof {
                assert(forall|s: usize| term_mentions(*t, s) == term_mentions(*a, s));
            }
        },
        Term::Op2(_, a, b) => {
            free_idents(a, acc);
            let ghost acc1 = acc@;
            free_idents(b, acc);
            proof {
                assert forall|s: usize|
                    crate::record::ident_seq_has(acc@, s) <==> (crate::record::ident_seq_has(
                        acc0,
                        s,
                    ) || term_mentions(*t, s)) by {
                    assert(crate::record::ident_seq_has(acc1, s) <==> (
                    crate::record::ident_seq_has(acc0, s) || term_mentions(*a, s)));
                    assert(crate::record::ident_seq_has(acc@, s) <==> (
                    crate::record::ident_seq_has(acc1, s) || term_mentions(*b, s)));
                }
            }
        },
        Term::Annotated(_, a) => {
            free_idents(a, acc);
            proof {
                assert(forall|s: usize| term_mentions(*t, s) == term_mentions(*a, s));
            }
        },
        _ => {
            proof {
                assert(acc@ =~= acc0);
            }
        },
    }
}

/// Check at run time that a record is fit for merging: unique field names
/// resolving in the identifier table, and every field value and pending
/// contract either a constant or a variable bound in `e` to a cache index.
pub fn record_mergeable(d: &RecordData, e: &Environment, cache: &Cache) -> (r: bool)
    ensures
        r == record_closurized(*d, *e, *cache),
{
    let n = d.fields.len();
    let mut i: usize = 0;
    while i < n
        invariant
            n == d.fields.entries@.len(),
            i <= n,
            forall|a: int, b: int|
                0 <= a < b < i ==> (#[trigger] d.fields.entries@[a]).0.sym != (
                #[trigger] d.fields.entries@[b]).0.sym,
        decreases n - i,
    {
        let mut j: usize = 0;
        while j < i
            invariant
                n == d.fields.entries@.len(),
                i < n,
                j <= i,
                forall|b: int|
                    0 <= b < j ==> (#[trigger] d.fields.entries@[b]).0.sym
                        != d.fields.entries@[i as int].0.sym,
            decreases i - j,
        {
            if d.fields.entries[j].0.sym == d.fields.entries[i].0.sym {
                return false;
            }
            j = j + 1;
        }
        i = i + 1;
    }
    let mut i: usize = 0;
    while i < n
        invariant
            n == d.fields.entries@.len(),
            i <= n,
            forall|a: int, b: int|
                0 <= a < b < n ==> (#[trigger] d.fields.entries@[a]).0.sym != (
                #[trigger] d.fields.entries@[b]).0.sym,
            forall|a: int|
                0 <= a < i ==> crate::merge::field_closurized(
                    *(#[trigger] d.fields.entries@[a]).1,
                    *e,
                    cache.entries@.len(),
                ),
            forall|a: int|
                0 <= a < i ==> (#[trigger] d.fields.entries@[a]).0.sym
                    < cache.idents.names@.len(),
        decreases n - i,
    {
        let id = d.fields.entries[i].0;
        if id.sym >= cache.idents.names.len() {
            return false;
        }
        let f: &Field = &d.fields.entries[i].1;
        match &f.value {
            Some(v) => {
                if !term_bound_ok(v, e, cache) {
                    return false;
                }
            },
            None => {},
        }
        let mut j: usize = 0;
        while j < f.pending_contracts.len()
            invariant
                f == &d.fields.entries@[i as int].1,
                i < n,
                n == d.fields.entries@.len(),
                j <= f.pending_contracts@.len(),
                forall|b: int|
                    0 <= b < j ==> term_closurized(
                        (#[trigger] f.pending_contracts@[b]).contract,
                        *e,
                        cache.entries@.len(),
                    ),
            decreases f.pending_contracts@.len() - j,
        {
            if !term_bound_ok(&f.pending_contracts[j].contract, e, cache) {
                return false;
            }
            j = j + 1;
        }
        i = i + 1;
    }
    true
}

/// Is the term a constant, or a variable bound in `e` to an index into the
/// cache?
fn term_bound_ok(t: &RichTerm, e: &Environment, cache: &Cache) -> (r: bool)
    ensures
        r == term_closurized(*t, *e, cache.entries@.len()),
{
    match &*t.term {
        Term::Var(id) => {
            match e.get(*id) {
                Some(i) => i < cache.entries.len(),
                None => false,
            }
        },
        _ => true,
    }
}

/// Evaluate a term to a value closure, spending one unit of fuel per step.
///
/// Handled forms: constants, variables (through the cache), functions and
/// applications, addition, standard merge, annotated terms, plain records,
/// and recursive records, which are closurized: every field body is stored in
/// the cache with its reachable identifiers as dependency set, and every
/// entry is patched so that the fields see their siblings. Anything else
/// stops with [`EvalError::NotImplemented`].
pub fn eval(
    cache: &mut Cache,
    t: RichTerm,
    env: Environment,
    call_stack: &mut CallStack,
    fuel: u64,
) -> (r: Result<Closure, EvalStop>)
    ensures
        old(cache).entries@.len() <= final(cache).entries@.len(),
        (fuel > 0 && is_atomic(*t.term)) ==> r == Ok::<Closure, EvalStop>(
            Closure { body: t, env },
        ),
        // A variable that its environment does not bind is an error.
        (fuel > 0 && (match *t.term {
            Term::Var(id) => env.spec_lookup(id.sym) is None,
            _ => false,
        })) ==> (match *t.term {
            Term::Var(id) => r == Err::<Closure, EvalStop>(
                EvalStop::Error(EvalError::UnboundIdentifier(id, t.pos)),
            ),
            _ => false,
        }),
        // Adding two number literals gives their exact sum, and an error
        // when the sum leaves the number range.
        (fuel >= 2 && (match *t.term {
            Term::Op2(op, a, b) => op is Plus && *a.term is Num && *b.term is Num,
            _ => false,
        })) ==> (match *t.term {
            Term::Op2(op, a, b) => match (*a.term, *b.term) {
                (Term::Num(n1), Term::Num(n2)) => if i64::MIN <= n1 + n2 <= i64::MAX {
                    match r {
                        Ok(c) => *c.body.term == Term::Num((n1 + n2) as i64) && c.body.pos
                            == t.pos && c.env.head is None,
                        Err(_) => false,
                    }
                } else {
                    r == Err::<Closure, EvalStop>(
                        EvalStop::Error(EvalError::NotImplemented(t.pos)),
                    )
                },
                _ => false,
            },
            _ => false,
        }),
        // Merging two equal atomic literals gives that value, at the
        // operator's inherited position.
        (fuel >= 3 && (match *t.term {
            Term::Op2(op, a, b) => op is Merge && is_atomic(*a.term) && is_atomic(*b.term)
                && atomic_merge_ok(*a.term, *b.term),
            _ => false,
        })) ==> (match *t.term {
            Term::Op2(op, a, b) => match r {
                Ok(c) => c.body.term == a.term && c.body.pos == t.pos.spec_into_inherited()
                    && c.env.head is None,
                Err(_) => false,
            },
            _ => false,
        }),
    decreases fuel,
{
    if fuel == 0 {
        return Err(EvalStop::OutOfFuel);
    }
    let pos = t.pos;
    let kind: usize = match &*t.term {
        Term::Null => 0,
        Term::Bool(_) => 0,
        Term::Num(_) => 0,
        Term::Str(_) => 0,
        Term::Lbl(_) => 0,
        Term::Enum(_) => 0,
        Term::Fun(_, _) => 0,
        Term::Array(_, _) => 0,
        Term::Record(_) => 0,
        Term::Var(_) => 1,
        Term::App(_, _) => 2,
        Term::Op2(_, _, _) => 3,
        Term::Annotated(_, _) => 4,
        Term::RecRecord(_) => 5,
        Term::Op1(_, _) => 6,
        Term::OpN(_, _) => 6,
    };
    if kind == 0 {
        return Ok(Closure { body: t, env });
    }
    if kind == 1 {
        let id = match &*t.term {
            Term::Var(id) => *id,
            _ => {
                proof {
                    assert(false);
                }
                Ident { sym: 0 }
            },
        };
        let idx = match env.get(id) {
            Some(i) => i,
            None => {
                return Err(EvalStop::Error(EvalError::UnboundIdentifier(id, pos)));
            },
        };
        if idx >= cache.len() {
            return Err(EvalStop::Error(EvalError::UnboundIdentifier(id, pos)));
        }
        let entry = cache.get(idx);
        let body = entry.body.clone();
        let benv = entry.env.clone();
        return eval(cache, body, benv, call_stack, fuel - 1);
    }
    if kind == 2 {
        let (fun, arg) = match &*t.term {
            Term::App(f, a) => (f.clone(), a.clone()),
            _ => {
                proof {
                    assert(false);
                }
                return Err(EvalStop::OutOfFuel);
            },
        };
        let fval = match eval(cache, fun, env.clone(), call_stack, fuel - 1) {
            Ok(c) => c,
            Err(e) => {
                return Err(e);
            },
        };
        let (param, body) = match &*fval.body.term {
            Term::Fun(x, b) => (*x, b.clone()),
            _ => {
                return Err(EvalStop::Error(EvalError::NotImplemented(pos)));
            },
        };
        let idx = cache.add(
            Closure { body: arg, env },
            IdentKind::Lambda,
            BindingType::Standard,
        );
        let mut fenv = fval.env.clone();
        fenv.insert(param, idx);
        return eval(cache, body, fenv, call_stack, fuel - 1);
    }
    if kind == 3 {
        let (op_is_plus, op_is_merge, a, b) = match &*t.term {
            Term::Op2(op, a, b) => {
                let plus = matches!(op, BinaryOp::Plus);
                let mrg = matches!(op, BinaryOp::Merge(_));
                (plus, mrg, a.clone(), b.clone())
            },
            _ => {
                proof {
                    assert(false);
                }
                return Err(EvalStop::OutOfFuel);
            },
        };
        if !op_is_plus && !op_is_merge {
            return Err(EvalStop::Error(EvalError::NotImplemented(pos)));
        }
        let va = match eval(cache, a, env.clone(), call_stack, fuel - 1) {
            Ok(c) => c,
            Err(e) => {
                return Err(e);
            },
        };
        let vb = match eval(cache, b, env, call_stack, fuel - 1) {
            Ok(c) => c,
            Err(e) => {
                return Err(e);
            },
        };
        if op_is_plus {
            let n1 = match &*va.body.term {
                Term::Num(n) => *n,
                _ => {
                    return Err(EvalStop::Error(EvalError::NotImplemented(pos)));
                },
            };
            let n2 = match &*vb.body.term {
                Term::Num(n) => *n,
                _ => {
                    return Err(EvalStop::Error(EvalError::NotImplemented(pos)));
                },
            };
            let sum = match n1.checked_add(n2) {
                Some(s) => s,
                None => {
                    return Err(EvalStop::Error(EvalError::NotImplemented(pos)));
                },
            };
            return Ok(
                Closure::atomic_closure(RichTerm { term: Rc::new(Term::Num(sum)), pos }),
            );
        }
        // A merge: check the operands, run the merge engine, and force its
        // result.
        let ok1 = match &*va.body.term {
            Term::Record(d) => record_mergeable(d, &va.env, cache),
            _ => true,
        };
        let ok2 = match &*vb.body.term {
            Term::Record(d) => record_mergeable(d, &vb.env, cache),
            _ => true,
        };
        if !ok1 || !ok2 {
            return Err(EvalStop::Error(EvalError::NotImplemented(pos)));
        }
        let merged = match merge(
            cache,
            va.body,
            va.env,
            vb.body,
            vb.env,
            pos,
            MergeMode::Standard,
            call_stack,
        ) {
            Ok(c) => c,
            Err(e) => {
                return Err(EvalStop::Error(e));
            },
        };
        return eval(cache, merged.body, merged.env, call_stack, fuel - 1);
    }
    if kind == 4 {
        let inner = match &*t.term {
            Term::Annotated(_, a) => a.clone(),
            _ => {
                proof {
                    assert(false);
                }
                return Err(EvalStop::OutOfFuel);
            },
        };
        return eval(cache, inner, env, call_stack, fuel - 1);
    }
    if kind == 5 {
        return eval_rec_record(cache, t, env, call_stack, fuel);
    }
    Err(EvalStop::Error(EvalError::NotImplemented(pos)))
}

/// Closurize a recursive record: store every field body in the cache as a
/// revertible entry whose dependency set is the identifiers reachable from
/// the body, bind the field names to those entries, patch every entry so
/// that its dependencies resolve to the sibling entries, and return the
/// record with each field now a variable pointing into the cache.
fn eval_rec_record(
    cache: &mut Cache,
    t: RichTerm,
    env: Environment,
    call_stack: &mut CallStack,
    fuel: u64,
) -> (r: Result<Closure, EvalStop>)
    requires
        fuel >= 1,
    ensures
        old(cache).entries@.len() <= final(cache).entries@.len(),
    decreases fuel,
{
    let pos = t.pos;
    let data = match &*t.term {
        Term::RecRecord(d) => d,
        _ => {
            return Err(EvalStop::Error(EvalError::NotImplemented(pos)));
        },
    };
    let attrs = data.attrs;
    let sealed_tail = match &data.sealed_tail {
        None => None,
        Some(st) => Some(st.clone()),
    };
    let n = data.fields.len();
    // First pass: closurize each defined field body.
    let mut rec_env: Vec<(Ident, usize)> = Vec::new();
    let mut new_fields: IndexMap<Rc<Field>> = IndexMap::new();
    let mut i: usize = 0;
    while i < n
        invariant
            n == data.fields.entries@.len(),
            i <= n,
            old(cache).entries@.len() <= cache.entries@.len(),
            forall|j: int|
                0 <= j < rec_env@.len() ==> (#[trigger] rec_env@[j]).1 < cache.entries@.len(),
        decreases n - i,
    {
        let id = data.fields.entries[i].0;
        let f: &Field = &data.fields.entries[i].1;
        let (value, bound): (Option<RichTerm>, Option<usize>) = match &f.value {
            None => (None, None),
            Some(v) => {
                let idx = match &*v.term {
                    Term::Var(x) => {
                        match env.get(*x) {
                            Some(ix) => {
                                if ix < cache.len() {
                                    ix
                                } else {
                                    return Err(
                                        EvalStop::Error(EvalError::UnboundIdentifier(*x, v.pos)),
                                    );
                                }
                            },
                            None => {
                                return Err(
                                    EvalStop::Error(EvalError::UnboundIdentifier(*x, v.pos)),
                                );
                            },
                        }
                    },
                    _ => {
                        let mut deps: Vec<Ident> = Vec::new();
                        free_idents(v, &mut deps);
                        cache.add(
                            Closure { body: v.clone(), env: env.clone() },
                            IdentKind::Record,
                            BindingType::Revertible(FieldDeps::from_idents(deps)),
                        )
                    },
                };
                (
                    Some(RichTerm { term: Rc::new(Term::Var(id)), pos: v.pos }),
                    Some(idx),
                )
            },
        };
        match bound {
            Some(ix) => {
                rec_env.push((id, ix));
            },
            None => {},
        }
        let nf = Field {
            value,
            metadata: f.metadata.clone(),
            pending_contracts: crate::record::copy_contracts(&f.pending_contracts),
        };
        new_fields.insert(id, Rc::new(nf));
        i = i + 1;
    }
    // Second pass: let every revertible entry see its siblings.
    let mut j: usize = 0;
    while j < rec_env.len()
        invariant
            j <= rec_env@.len(),
            old(cache).entries@.len() <= cache.entries@.len(),
            forall|k: int|
                0 <= k < rec_env@.len() ==> (#[trigger] rec_env@[k]).1 < cache.entries@.len(),
        decreases rec_env@.len() - j,
    {
        let ix = rec_env[j].1;
        cache.patch(ix, &rec_env);
        j = j + 1;
    }
    // Bind the field names in the result environment.
    let mut renv = env;
    let mut k: usize = 0;
    while k < rec_env.len()
        invariant
            k <= rec_env@.len(),
        decreases rec_env@.len() - k,
    {
        renv.insert(rec_env[k].0, rec_env[k].1);
        k = k + 1;
    }
    Ok(
        Closure {
            body: RichTerm {
                term: Rc::new(Term::Record(RecordData { fields: new_fields, attrs, sealed_tail })),
                pos,
            },
            env: renv,
        },
    )
}

} // verus!
