//! The recursive-value cache.
//!
//! The cache is a flat store of thunks: each entry holds a term, its
//! environment, and for *revertible* entries the set of sibling fields the
//! term depends on together with the original, unpatched body. Recursive
//! records are compiled so that each field is closed over its sibling
//! identifiers; merging records then rewires those references:
//!
//! - [`Cache::revert`] allocates a fresh entry holding the original body, so
//!   that a field carried from one side of a merge re-evaluates against the
//!   merged record;
//! - [`Cache::saturate`] turns a revertible entry into a function of the
//!   sibling fields it depends on, applied to those same identifiers, so that
//!   evaluating the result inside the merged record sees the updated
//!   siblings;
//! - [`Cache::patch`] binds the dependencies of an entry when the enclosing
//!   recursive record is evaluated.
//!
//! The cache also embeds the identifier service: the table of interned
//! identifier names, with a monotonic counter providing fresh identifiers.

use std::rc::Rc;

use vstd::prelude::*;

use crate::env::{env_grew, lookup_pairs, Environment};
use crate::ident::Ident;
use crate::label::Label;
use crate::position::TermPos;
use crate::record::FieldDeps;
use crate::term::{rc_clone, RichTerm, Term};

verus! {

/// What kind of binding allocated a cache entry.
#[derive(Clone, Copy, PartialEq, Eq, Structural, Debug)]
pub enum IdentKind {
    /// A record field.
    Record,
    /// A let binding.
    Let,
    /// A function parameter.
    Lambda,
}

/// Whether an entry can be reverted to its original body.
#[derive(Debug)]
pub enum BindingType {
    /// An ordinary entry.
    Standard,
    /// An entry that keeps its original body and the set of sibling fields it
    /// depends on, so that a merge can revert it.
    Revertible(FieldDeps),
}

impl Clone for BindingType {
    /// The clone is the same binding type.
    fn clone(&self) -> (r: Self)
        ensures
            r == *self,
    {
        match self {
            BindingType::Standard => BindingType::Standard,
            BindingType::Revertible(d) => BindingType::Revertible(d.clone()),
        }
    }
}

/// A term paired with the environment its free identifiers resolve in.
#[derive(Debug)]
pub struct Closure {
    /// The term.
    pub body: RichTerm,
    /// The environment of the term.
    pub env: Environment,
}

impl Closure {
    /// A closure with an empty environment, for terms without free
    /// identifiers.
    pub fn atomic_closure(body: RichTerm) -> (r: Closure)
        ensures
            r.body == body,
            r.env.head is None,
            forall|s: usize| r.env.spec_lookup(s) is None,
    {
        Closure { body, env: Environment::new() }
    }
}

impl Clone for Closure {
    /// The clone is the same closure.
    fn clone(&self) -> (r: Self)
        ensures
            r == *self,
    {
        Closure { body: self.body.clone(), env: self.env.clone() }
    }
}

/// One stored thunk.
#[derive(Debug)]
pub struct CacheEntry {
    /// The current body of the thunk.
    pub body: RichTerm,
    /// The original body, kept so that the entry can be reverted.
    pub orig_body: RichTerm,
    /// The environment of the body.
    pub env: Environment,
    /// What kind of binding allocated the entry.
    pub kind: IdentKind,
    /// Standard, or revertible with its dependency set.
    pub binding_type: BindingType,
    /// The evaluated form of the body, once known. Reverting clears it.
    pub current_value: Option<RichTerm>,
}

/// The table of interned identifier names. The length of the table is the
/// monotonic counter that keeps fresh identifiers fresh.
#[derive(Debug)]
pub struct IdentTable {
    /// The display name of each symbol, indexed by symbol.
    pub names: Vec<String>,
}

/// The recursive-value cache, together with the identifier service.
#[derive(Debug)]
pub struct Cache {
    /// The stored thunks; indices into this vector never move.
    pub entries: Vec<CacheEntry>,
    /// The identifier service.
    pub idents: IdentTable,
}

/// The subsequence of `fields` whose symbols are in the dependency set `d`,
/// in field order.
pub open spec fn filter_deps(fields: Seq<Ident>, d: FieldDeps) -> Seq<Ident>
    decreases fields.len(),
{
    if fields.len() == 0 {
        Seq::empty()
    } else {
        let rest = filter_deps(fields.drop_last(), d);
        if d.has(fields.last().sym) {
            rest.push(fields.last())
        } else {
            rest
        }
    }
}

/// Is `r` the term `fun xs[0] => ... => fun xs[k-1] => body`?
pub open spec fn is_lambda_wrap(xs: Seq<Ident>, body: RichTerm, r: RichTerm) -> bool
    decreases xs.len(),
{
    if xs.len() == 0 {
        r == body
    } else {
        match *r.term {
            Term::Fun(x, inner) => x == xs[0] && is_lambda_wrap(xs.drop_first(), body, inner),
            _ => false,
        }
    }
}

/// Is `r` the application of the variable with symbol `vsym` to the variables
/// `xs`, in order?
pub open spec fn is_app_chain(vsym: usize, xs: Seq<Ident>, r: RichTerm) -> bool
    decreases xs.len(),
{
    if xs.len() == 0 {
        match *r.term {
            Term::Var(v) => v.sym == vsym,
            _ => false,
        }
    } else {
        match *r.term {
            Term::App(f, a) => is_app_chain(vsym, xs.drop_last(), f) && (match *a.term {
                Term::Var(x) => x == xs.last(),
                _ => false,
            }),
            _ => false,
        }
    }
}

/// The entry `e` is a reverted copy of `src`: it holds the original body of
/// `src` as its current body, with the same environment, kind and binding
/// type, and no evaluated form.
pub open spec fn entry_reverts(e: CacheEntry, src: CacheEntry) -> bool {
    &&& e.body == src.orig_body
    &&& e.orig_body == src.orig_body
    &&& e.env == src.env
    &&& e.kind == src.kind
    &&& e.binding_type == src.binding_type
    &&& e.current_value is None
}

impl Cache {
    /// An empty cache with an empty identifier table.
    pub fn new() -> (r: Cache)
        ensures
            r.entries@.len() == 0,
            r.idents.names@.len() == 0,
    {
        Cache { entries: Vec::new(), idents: IdentTable { names: Vec::new() } }
    }

    /// Number of entries.
    pub fn len(&self) -> (n: usize)
        ensures
            n == self.entries@.len(),
    {
        self.entries.len()
    }

    /// A fresh identifier, never seen before: its symbol is the current value
    /// of the identifier counter.
    pub fn fresh_ident(&mut self) -> (r: Ident)
        ensures
            r.sym == old(self).idents.names@.len(),
            final(self).idents.names@.len() == old(self).idents.names@.len() + 1,
            forall|i: int|
                0 <= i < old(self).idents.names@.len() ==> final(self).idents.names@[i] == old(
                    self,
                ).idents.names@[i],
            final(self).entries == old(self).entries,
    {
        let sym = self.idents.names.len();
        self.idents.names.push(String::new());
        Ident { sym }
    }

    /// Intern a display name, returning its identifier. Interning the same
    /// name twice gives two distinct identifiers: callers keep and reuse the
    /// identifier of each name.
    pub fn intern(&mut self, name: String) -> (r: Ident)
        ensures
            r.sym == old(self).idents.names@.len(),
            final(self).idents.names@ == old(self).idents.names@.push(name),
            final(self).entries == old(self).entries,
    {
        let sym = self.idents.names.len();
        self.idents.names.push(name);
        Ident { sym }
    }

    /// The display name of an identifier.
    pub fn name_of(&self, id: Ident) -> (r: &String)
        requires
            id.sym < self.idents.names@.len(),
        ensures
            *r == self.idents.names@[id.sym as int],
    {
        &self.idents.names[id.sym]
    }

    /// Store a thunk. A revertible binding with no dependencies is stored as
    /// a standard entry: no reversion can ever be needed for it.
    pub fn add(&mut self, clos: Closure, kind: IdentKind, bt: BindingType) -> (r: usize)
        ensures
            r == old(self).entries@.len(),
            final(self).entries@.len() == old(self).entries@.len() + 1,
            forall|i: int|
                0 <= i < old(self).entries@.len() ==> final(self).entries@[i] == old(
                    self,
                ).entries@[i],
            final(self).idents == old(self).idents,
            ({
                let e = final(self).entries@[r as int];
                &&& e.body == clos.body
                &&& e.orig_body == clos.body
                &&& e.env == clos.env
                &&& e.kind == kind
                &&& e.current_value is None
                &&& e.binding_type == (match bt {
                    BindingType::Revertible(d) => if d.idents@.len() == 0 {
                        BindingType::Standard
                    } else {
                        BindingType::Revertible(d)
                    },
                    BindingType::Standard => BindingType::Standard,
                })
            }),
    {
        let binding_type = match bt {
            BindingType::Revertible(d) => if d.is_empty() {
                BindingType::Standard
            } else {
                BindingType::Revertible(d)
            },
            BindingType::Standard => BindingType::Standard,
        };
        let idx = self.entries.len();
        let body = clos.body.clone();
        self.entries.push(
            CacheEntry {
                body,
                orig_body: clos.body,
                env: clos.env,
                kind,
                binding_type,
                current_value: None,
            },
        );
        idx
    }

    /// Read-only access to an entry.
    pub fn get(&self, idx: usize) -> (r: &CacheEntry)
        requires
            idx < self.entries@.len(),
        ensures
            *r == self.entries@[idx as int],
    {
        &self.entries[idx]
    }

    /// The declared dependency set of an entry: `Some` for revertible
    /// entries, `None` for standard ones.
    pub fn deps(&self, idx: usize) -> (r: Option<FieldDeps>)
        requires
            idx < self.entries@.len(),
        ensures
            r == (match self.entries@[idx as int].binding_type {
                BindingType::Revertible(d) => Some(d),
                BindingType::Standard => None::<FieldDeps>,
            }),
    {
        match &self.entries[idx].binding_type {
            BindingType::Standard => None,
            BindingType::Revertible(d) => Some(d.clone()),
        }
    }

    /// Allocate a fresh entry holding the original body of `idx`, with the
    /// same environment, kind and binding type, and no evaluated form.
    pub fn revert(&mut self, idx: usize) -> (r: usize)
        requires
            idx < old(self).entries@.len(),
        ensures
            r == old(self).entries@.len(),
            final(self).entries@.len() == old(self).entries@.len() + 1,
            forall|i: int|
                0 <= i < old(self).entries@.len() ==> final(self).entries@[i] == old(
                    self,
                ).entries@[i],
            final(self).idents == old(self).idents,
            entry_reverts(final(self).entries@[r as int], old(self).entries@[idx as int]),
    {
        let e = &self.entries[idx];
        let body = e.orig_body.clone();
        let orig_body = e.orig_body.clone();
        let env = e.env.clone();
        let kind = e.kind;
        let binding_type = e.binding_type.clone();
        let new_idx = self.entries.len();
        self.entries.push(
            CacheEntry { body, orig_body, env, kind, binding_type, current_value: None },
        );
        new_idx
    }

    /// Record the evaluated form of an entry.
    pub fn update_value(&mut self, idx: usize, v: RichTerm)
        requires
            idx < old(self).entries@.len(),
        ensures
            final(self).entries@.len() == old(self).entries@.len(),
            forall|i: int|
                0 <= i < old(self).entries@.len() && i != idx ==> final(self).entries@[i] == old(
                    self,
                ).entries@[i],
            final(self).idents == old(self).idents,
            ({
                let e = final(self).entries@[idx as int];
                let src = old(self).entries@[idx as int];
                &&& e.body == src.body
                &&& e.orig_body == src.orig_body
                &&& e.env == src.env
                &&& e.kind == src.kind
                &&& e.binding_type == src.binding_type
                &&& e.current_value == Some(v)
            }),
    {
        self.entries[idx].current_value = Some(v);
    }

    /// Bind the given identifiers in the environment of entry `idx`: the step
    /// that lets the fields of a freshly evaluated recursive record see their
    /// siblings.
    pub fn patch(&mut self, idx: usize, bindings: &Vec<(Ident, usize)>)
        requires
            idx < old(self).entries@.len(),
        ensures
            final(self).entries@.len() == old(self).entries@.len(),
            forall|i: int|
                0 <= i < old(self).entries@.len() && i != idx ==> final(self).entries@[i] == old(
                    self,
                ).entries@[i],
            final(self).idents == old(self).idents,
            ({
                let e = final(self).entries@[idx as int];
                let src = old(self).entries@[idx as int];
                &&& e.body == src.body
                &&& e.orig_body == src.orig_body
                &&& e.kind == src.kind
                &&& e.binding_type == src.binding_type
                &&& e.current_value == src.current_value
                &&& forall|s: usize|
                    #[trigger] e.env.spec_lookup(s) == (match lookup_pairs(bindings@, s) {
                        Some(x) => Some(x),
                        None => src.env.spec_lookup(s),
                    })
            }),
    {
        let mut i: usize = 0;
        proof {
            assert(bindings@.take(0) =~= Seq::<(Ident, usize)>::empty());
        }
        while i < bindings.len()
            invariant
                i <= bindings@.len(),
                idx < self.entries@.len(),
                self.entries@.len() == old(self).entries@.len(),
                forall|j: int|
                    0 <= j < old(self).entries@.len() && j != idx ==> self.entries@[j] == old(
                        self,
                    ).entries@[j],
                self.idents == old(self).idents,
                ({
                    let e = self.entries@[idx as int];
                    let src = old(self).entries@[idx as int];
                    &&& e.body == src.body
                    &&& e.orig_body == src.orig_body
                    &&& e.kind == src.kind
                    &&& e.binding_type == src.binding_type
                    &&& e.current_value == src.current_value
                    &&& forall|s: usize|
                        #[trigger] e.env.spec_lookup(s) == (match lookup_pairs(
                            bindings@.take(i as int),
                            s,
                        ) {
                            Some(x) => Some(x),
                            None => src.env.spec_lookup(s),
                        })
                }),
            decreases bindings@.len() - i,
        {
            let pair = bindings[i];
            self.entries[idx].env.insert(pair.0, pair.1);
            proof {
                assert(bindings@.take(i as int + 1).drop_last() =~= bindings@.take(i as int));
                assert(bindings@.take(i as int + 1).last() == pair);
            }
            i = i + 1;
        }
        proof {
            assert(bindings@.take(bindings@.len() as int) =~= bindings@);
        }
    }

    /// Saturation: the override-propagation step for fields merged from both
    /// sides.
    ///
    /// For a revertible entry with dependency set `d`, let `xs` be the fields
    /// of the enclosing merged record that are in `d`. The result is the term
    /// `(fun xs[0] => ... => fun xs[k-1] => body) xs[0] ... xs[k-1]`, where
    /// `body` is the original body of the entry: the abstraction is stored as
    /// a fresh standard entry under a fresh identifier, and the applications
    /// re-bind the dependencies to whatever the surrounding record binds the
    /// names `xs` to when the result is evaluated. Fields outside `d` are not
    /// propagated. A standard entry is returned as it is, closurized under a
    /// fresh identifier.
    pub fn saturate(&mut self, idx: usize, env: &mut Environment, fields: &Vec<Ident>) -> (r:
        RichTerm)
        requires
            idx < old(self).entries@.len(),
        ensures
            final(self).idents.names@.len() == old(self).idents.names@.len() + 1,
            forall|i: int|
                0 <= i < old(self).idents.names@.len() ==> final(self).idents.names@[i] == old(
                    self,
                ).idents.names@[i],
            forall|i: int|
                0 <= i < old(self).entries@.len() ==> final(self).entries@[i] == old(
                    self,
                ).entries@[i],
            forall|s: usize|
                s != old(self).idents.names@.len() ==> #[trigger] final(env).spec_lookup(s) == old(
                    env,
                ).spec_lookup(s),
            env_grew(*old(env), *final(env)),
            r.pos == TermPos::Unknown,
            ({
                let fresh_sym = old(self).idents.names@.len() as usize;
                match old(self).entries@[idx as int].binding_type {
                    BindingType::Standard => {
                        &&& final(self).entries@ == old(self).entries@
                        &&& r.term == Term::Var(Ident { sym: fresh_sym })
                        &&& final(env).spec_lookup(fresh_sym) == Some(idx)
                    },
                    BindingType::Revertible(d) => {
                        let xs = filter_deps(fields@, d);
                        let new_idx = old(self).entries@.len();
                        &&& final(self).entries@.len() == old(self).entries@.len() + 1
                        &&& ({
                            let e = final(self).entries@[new_idx as int];
                            let src = old(self).entries@[idx as int];
                            &&& is_lambda_wrap(xs, src.orig_body, e.body)
                            &&& e.orig_body == e.body
                            &&& e.env == src.env
                            &&& e.kind == src.kind
                            &&& e.binding_type is Standard
                            &&& e.current_value is None
                        })
                        &&& final(env).spec_lookup(fresh_sym) == Some(new_idx as usize)
                        &&& is_app_chain(fresh_sym, xs, r)
                    },
                }
            }),
    {
        let deps_opt = self.deps(idx);
        match deps_opt {
            None => {
                let v = self.fresh_ident();
                env.insert(v, idx);
                RichTerm { term: Rc::new(Term::Var(v)), pos: TermPos::Unknown }
            },
            Some(d) => {
                // The dependencies that are among the sibling fields, in
                // field order.
                let mut xs: Vec<Ident> = Vec::new();
                let mut i: usize = 0;
                proof {
                    assert(fields@.take(0) =~= Seq::<Ident>::empty());
                }
                while i < fields.len()
                    invariant
                        i <= fields@.len(),
                        xs@ == filter_deps(fields@.take(i as int), d),
                    decreases fields@.len() - i,
                {
                    let f = fields[i];
                    proof {
                        assert(fields@.take(i as int + 1).drop_last() =~= fields@.take(i as int));
                        assert(fields@.take(i as int + 1).last() == f);
                    }
                    if d.contains(f) {
                        xs.push(f);
                    }
                    i = i + 1;
                }
                proof {
                    assert(fields@.take(fields@.len() as int) =~= fields@);
                }
                // The abstraction over the dependencies, around the original
                // body.
                let entry = self.get(idx);
                let body0 = entry.orig_body.clone();
                let env0 = entry.env.clone();
                let kind0 = entry.kind;
                let ghost gbody = body0;
                let mut acc = body0;
                let mut j: usize = xs.len();
                proof {
                    assert(xs@.skip(j as int) =~= Seq::<Ident>::empty());
                }
                while j > 0
                    invariant
                        j <= xs@.len(),
                        is_lambda_wrap(xs@.skip(j as int), gbody, acc),
                    decreases j,
                {
                    j = j - 1;
                    acc = RichTerm {
                        term: Rc::new(Term::Fun(xs[j], acc)),
                        pos: TermPos::Unknown,
                    };
                    proof {
                        assert(xs@.skip(j as int).drop_first() =~= xs@.skip(j as int + 1));
                        assert(xs@.skip(j as int)[0] == xs@[j as int]);
                    }
                }
                proof {
                    assert(xs@.skip(0) =~= xs@);
                }
                let new_idx = self.entries.len();
                let body_stored = acc.clone();
                self.entries.push(
                    CacheEntry {
                        body: body_stored,
                        orig_body: acc,
                        env: env0,
                        kind: kind0,
                        binding_type: BindingType::Standard,
                        current_value: None,
                    },
                );
                let v = self.fresh_ident();
                env.insert(v, new_idx);
                // The application of the abstraction to the dependency names
                // themselves.
                let mut rt = RichTerm { term: Rc::new(Term::Var(v)), pos: TermPos::Unknown };
                let mut k: usize = 0;
                proof {
                    assert(xs@.take(0) =~= Seq::<Ident>::empty());
                }
                while k < xs.len()
                    invariant
                        k <= xs@.len(),
                        v.sym == old(self).idents.names@.len(),
                        is_app_chain(v.sym, xs@.take(k as int), rt),
                        rt.pos == TermPos::Unknown,
                    decreases xs@.len() - k,
                {
                    let arg = RichTerm { term: Rc::new(Term::Var(xs[k])), pos: TermPos::Unknown };
                    rt = RichTerm { term: Rc::new(Term::App(rt, arg)), pos: TermPos::Unknown };
                    proof {
                        assert(xs@.take(k as int + 1).drop_last() =~= xs@.take(k as int));
                        assert(xs@.take(k as int + 1).last() == xs@[k as int]);
                    }
                    k = k + 1;
                }
                proof {
                    assert(xs@.take(xs@.len() as int) =~= xs@);
                }
                rt
            },
        }
    }
}

/// The evaluated form of the contract argument a label points at, when the
/// cache holds one.
pub open spec fn spec_evaluated_arg(l: Label, c: Cache) -> Option<RichTerm> {
    match l.arg_idx {
        None => None,
        Some(i) => if i < c.entries@.len() {
            c.entries@[i as int].current_value
        } else {
            None
        },
    }
}

impl Label {
    /// The evaluated form of the contract argument this label points at, if
    /// the cache holds one.
    pub fn get_evaluated_arg(&self, cache: &Cache) -> (r: Option<RichTerm>)
        ensures
            r == spec_evaluated_arg(*self, *cache),
    {
        match self.arg_idx {
            None => None,
            Some(i) => {
                if i < cache.entries.len() {
                    match &cache.entries[i].current_value {
                        None => None,
                        Some(v) => Some(v.clone()),
                    }
                } else {
                    None
                }
            },
        }
    }
}

} // verus!
