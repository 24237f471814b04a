//! Environments: mappings from identifiers to cache indices.
//!
//! An environment is a chain of reference-counted frames. Insertion prepends
//! a frame and shadows earlier bindings of the same identifier: the latest
//! binding wins. Cloning shares the chain, so a clone is the same value.

use std::rc::Rc;

use vstd::prelude::*;

use crate::ident::Ident;
use crate::term::rc_clone;

verus! {

/// One binding frame of an environment.
#[derive(Debug)]
pub struct EnvNode {
    /// The bound identifier.
    pub id: Ident,
    /// The cache index it resolves to.
    pub idx: usize,
    /// The rest of the chain.
    pub rest: Environment,
}

/// An environment mapping identifiers to cache indices.
#[derive(Debug)]
pub struct Environment {
    /// The most recent frame, if any.
    pub head: Option<Rc<EnvNode>>,
}

/// What a sequence of bindings resolves the symbol `k` to when applied in
/// order: the latest binding wins.
pub open spec fn lookup_pairs(s: Seq<(Ident, usize)>, k: usize) -> Option<usize>
    decreases s.len(),
{
    if s.len() == 0 {
        None
    } else if s.last().0.sym == k {
        Some(s.last().1)
    } else {
        lookup_pairs(s.drop_last(), k)
    }
}

impl Environment {
    /// What this environment resolves the symbol `s` to.
    pub open spec fn spec_lookup(self, s: usize) -> Option<usize>
        decreases self,
    {
        match self.head {
            None => None,
            Some(node) => if node.id.sym == s {
                Some(node.idx)
            } else {
                node.rest.spec_lookup(s)
            },
        }
    }

    /// Number of frames in the chain.
    pub open spec fn spec_depth(self) -> nat
        decreases self,
    {
        match self.head {
            None => 0,
            Some(node) => 1 + node.rest.spec_depth(),
        }
    }

    /// The empty environment.
    pub fn new() -> (r: Environment)
        ensures
            r.head is None,
            forall|s: usize| r.spec_lookup(s) is None,
    {
        Environment { head: None }
    }

    /// Bind `id` to the cache index `idx`, shadowing earlier bindings of
    /// `id`.
    pub fn insert(&mut self, id: Ident, idx: usize)
        ensures
            match final(self).head {
                Some(node) => node.id == id && node.idx == idx && node.rest == *old(self),
                None => false,
            },
            final(self).spec_lookup(id.sym) == Some(idx),
            forall|s: usize|
                s != id.sym ==> #[trigger] final(self).spec_lookup(s) == old(self).spec_lookup(s),
            env_grew(*old(self), *final(self)),
    {
        let mut rest = Environment { head: None };
        core::mem::swap(&mut rest, self);
        self.head = Some(Rc::new(EnvNode { id, idx, rest }));
        proof {
            let fnew = self.frames_seq();
            let fold = old(self).frames_seq();
            assert(fnew =~= seq![(id, idx)] + fold);
            assert(fnew.skip(fnew.len() - fold.len()) =~= fold);
        }
    }

    /// Resolve `id` to a cache index, if it is bound.
    pub fn get(&self, id: Ident) -> (r: Option<usize>)
        ensures
            r == self.spec_lookup(id.sym),
        decreases self.spec_depth(),
    {
        match &self.head {
            None => None,
            Some(node) => {
                if node.id.sym == id.sym {
                    Some(node.idx)
                } else {
                    node.rest.get(id)
                }
            },
        }
    }
}

/// The environment `b` is `a` with zero or more bindings layered on top:
/// the frame chain of `a` is a suffix of the frame chain of `b`. In
/// particular no binding of `a` is removed or replaced in `b`.
pub open spec fn env_grew(a: Environment, b: Environment) -> bool {
    a.frames_seq().is_suffix_of(b.frames_seq())
}

/// Growing is transitive.
pub proof fn lemma_env_grew_trans(a: Environment, b: Environment, c: Environment)
    requires
        env_grew(a, b),
        env_grew(b, c),
    ensures
        env_grew(a, c),
{
    let fa = a.frames_seq();
    let fb = b.frames_seq();
    let fc = c.frames_seq();
    assert(fc.skip(fc.len() - fb.len()) =~= fb);
    assert(fc.skip(fc.len() - fa.len()) =~= fa) by {
        assert(fb.skip(fb.len() - fa.len()) =~= fa);
        assert forall|i: int|
            0 <= i < fa.len() implies fc.skip(fc.len() - fa.len())[i] == fa[i] by {
            assert(fc[fc.len() - fa.len() + i] == fb[fb.len() - fa.len() + i]) by {
                assert(fc.skip(fc.len() - fb.len())[fb.len() - fa.len() + i] == fc[fc.len()
                    - fa.len() + i]);
            }
            assert(fb[fb.len() - fa.len() + i] == fa[i]) by {
                assert(fb.skip(fb.len() - fa.len())[i] == fb[fb.len() - fa.len() + i]);
            }
        }
    }
}

impl Environment {
    /// The frames of the chain, newest first.
    pub open spec fn frames_seq(self) -> Seq<(Ident, usize)>
        decreases self,
    {
        match self.head {
            None => Seq::empty(),
            Some(node) => seq![(node.id, node.idx)] + node.rest.frames_seq(),
        }
    }

    /// Layer the bindings of `other` over this environment: the result
    /// resolves an identifier as `other` does, and falls back to this
    /// environment for identifiers `other` does not bind.
    pub fn extend(&self, other: &Environment) -> (r: Environment)
        ensures
            forall|s: usize|
                #[trigger] r.spec_lookup(s) == (match other.spec_lookup(s) {
                    Some(i) => Some(i),
                    None => self.spec_lookup(s),
                }),
        decreases other.spec_depth(),
    {
        match &other.head {
            None => self.clone(),
            Some(node) => {
                let mut r = self.extend(&node.rest);
                r.insert(node.id, node.idx);
                r
            },
        }
    }

    /// The bindings of the environment, newest first.
    pub fn bindings(&self) -> (r: Vec<(Ident, usize)>)
        ensures
            r@ == self.frames_seq(),
        decreases self.spec_depth(),
    {
        match &self.head {
            None => Vec::new(),
            Some(node) => {
                let mut v: Vec<(Ident, usize)> = Vec::new();
                v.push((node.id, node.idx));
                let mut rest = node.rest.bindings();
                v.append(&mut rest);
                proof {
                    assert(v@ =~= self.frames_seq());
                }
                v
            },
        }
    }
}

impl Clone for Environment {
    /// Cloning shares the frame chain: the clone is the same value.
    fn clone(&self) -> (r: Self)
        ensures
            r == *self,
    {
        match &self.head {
            None => Environment { head: None },
            Some(rc) => Environment { head: Some(rc_clone(rc)) },
        }
    }
}

} // verus!
