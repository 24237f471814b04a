//! The record and field model.
//!
//! A record maps identifiers to fields. A field is an optional value together
//! with metadata (documentation, type annotation, optionality, export flag,
//! merge priority) and an ordered list of pending contracts, applied lazily
//! when the field is accessed.

use std::rc::Rc;

use vstd::prelude::*;

use crate::ident::Ident;
use crate::indexmap::IndexMap;
use crate::label::Label;
use crate::term::{rc_clone, RichTerm};

verus! {

/// Per-field priority resolving merge collisions.
///
/// Priorities are totally ordered: `Bottom` is below every numeric priority,
/// `Neutral(x)` is below `Neutral(y)` exactly when `x < y`, and `Top` is above
/// everything.
#[derive(Clone, Copy, PartialEq, Eq, Structural, Debug)]
pub enum MergePriority {
    /// The priority of default values, below every other priority.
    Bottom,
    /// A numeric priority; unannotated fields sit at `Neutral(0)`.
    Neutral(i64),
    /// The priority of forced values, above every other priority.
    Top,
}

impl MergePriority {
    /// The total order on priorities, strictly.
    pub open spec fn spec_lt(self, other: MergePriority) -> bool {
        match (self, other) {
            (MergePriority::Bottom, MergePriority::Bottom) => false,
            (MergePriority::Bottom, _) => true,
            (MergePriority::Neutral(_), MergePriority::Bottom) => false,
            (MergePriority::Neutral(x), MergePriority::Neutral(y)) => x < y,
            (MergePriority::Neutral(_), MergePriority::Top) => true,
            (MergePriority::Top, _) => false,
        }
    }

    /// Strict comparison of priorities.
    pub fn lt(&self, other: &MergePriority) -> (r: bool)
        ensures
            r == self.spec_lt(*other),
    {
        match (self, other) {
            (MergePriority::Bottom, MergePriority::Bottom) => false,
            (MergePriority::Bottom, _) => true,
            (MergePriority::Neutral(_), MergePriority::Bottom) => false,
            (MergePriority::Neutral(x), MergePriority::Neutral(y)) => x < y,
            (MergePriority::Neutral(_), MergePriority::Top) => true,
            (MergePriority::Top, _) => false,
        }
    }
}

impl Default for MergePriority {
    /// The priority of a field without any priority annotation.
    fn default() -> (r: Self)
        ensures
            r == MergePriority::Neutral(0),
    {
        MergePriority::Neutral(0)
    }
}

/// A type, as far as the merge engine needs to see one: merge moves type
/// annotations around but never inspects them.
#[derive(Debug)]
pub enum Type {
    /// The dynamic type.
    Dyn,
    /// The type of numbers.
    Number,
    /// The type of booleans.
    Bool,
    /// The type of strings.
    Str,
    /// A custom contract used as a type.
    Flat(RichTerm),
}

impl Clone for Type {
    /// The clone is the same type.
    fn clone(&self) -> (r: Self)
        ensures
            r == *self,
    {
        match self {
            Type::Dyn => Type::Dyn,
            Type::Number => Type::Number,
            Type::Bool => Type::Bool,
            Type::Str => Type::Str,
            Type::Flat(rt) => Type::Flat(rt.clone()),
        }
    }
}

/// A type paired with the label blaming its annotation site.
#[derive(Debug)]
pub struct LabeledType {
    /// The annotated type.
    pub typ: Type,
    /// The label attached to the annotation.
    pub label: Label,
}

impl Clone for LabeledType {
    /// The clone is the same labeled type.
    fn clone(&self) -> (r: Self)
        ensures
            r == *self,
    {
        LabeledType { typ: self.typ.clone(), label: self.label.clone() }
    }
}

/// The static type annotation and the contract annotations of a field.
#[derive(Debug)]
pub struct TypeAnnotation {
    /// The declared static type, if any.
    pub typ: Option<LabeledType>,
    /// The contract annotations, in source order. The list is shared:
    /// annotations are copied around freely and never mutated in place.
    pub contracts: Rc<Vec<LabeledType>>,
}

impl Clone for TypeAnnotation {
    /// The clone is the same annotation.
    fn clone(&self) -> (r: Self)
        ensures
            r == *self,
    {
        TypeAnnotation {
            typ: match &self.typ {
                None => None,
                Some(t) => Some(t.clone()),
            },
            contracts: rc_clone(&self.contracts),
        }
    }
}

impl TypeAnnotation {
    /// An annotation with no type and no contracts.
    pub fn empty() -> (r: TypeAnnotation)
        ensures
            r.typ is None,
            r.contracts@.len() == 0,
    {
        TypeAnnotation { typ: None, contracts: Rc::new(Vec::new()) }
    }
}

/// The metadata attached to a record field.
#[derive(Debug)]
pub struct FieldMetadata {
    /// Documentation of the field, if any.
    pub doc: Option<String>,
    /// Type and contract annotations.
    pub annotation: TypeAnnotation,
    /// Is the field optional?
    pub opt: bool,
    /// Is the field kept out of serialization?
    pub not_exported: bool,
    /// The merge priority of the field.
    pub priority: MergePriority,
}

impl Clone for FieldMetadata {
    /// The clone is the same metadata.
    fn clone(&self) -> (r: Self)
        ensures
            r == *self,
    {
        FieldMetadata {
            doc: match &self.doc {
                None => None,
                Some(d) => Some(d.clone()),
            },
            annotation: self.annotation.clone(),
            opt: self.opt,
            not_exported: self.not_exported,
            priority: self.priority,
        }
    }
}

impl FieldMetadata {
    /// Metadata with no annotation at all.
    pub fn empty() -> (r: FieldMetadata)
        ensures
            r.doc is None,
            r.annotation.typ is None,
            r.annotation.contracts@.len() == 0,
            !r.opt,
            !r.not_exported,
            r.priority == MergePriority::Neutral(0),
    {
        FieldMetadata {
            doc: None,
            annotation: TypeAnnotation::empty(),
            opt: false,
            not_exported: false,
            priority: MergePriority::Neutral(0),
        }
    }
}

/// A contract attached to a field, to be applied when the field is accessed.
#[derive(Debug)]
pub struct PendingContract {
    /// The contract itself.
    pub contract: RichTerm,
    /// The label blaming the annotation the contract comes from.
    pub label: Label,
}

/// A record field: an optional value, metadata, and pending contracts.
#[derive(Debug)]
pub struct Field {
    /// The value of the field, absent for fields still to be defined.
    pub value: Option<RichTerm>,
    /// The metadata of the field.
    pub metadata: FieldMetadata,
    /// Contracts waiting to be applied to the value.
    pub pending_contracts: Vec<PendingContract>,
}

impl Field {
    /// A plain field holding `value` with empty metadata.
    pub fn from_value(value: RichTerm) -> (r: Field)
        ensures
            r.value == Some(value),
            r.metadata.doc is None,
            r.metadata.annotation.typ is None,
            r.metadata.annotation.contracts@.len() == 0,
            !r.metadata.opt,
            !r.metadata.not_exported,
            r.metadata.priority == MergePriority::Neutral(0),
            r.pending_contracts@.len() == 0,
    {
        Field {
            value: Some(value),
            metadata: FieldMetadata::empty(),
            pending_contracts: Vec::new(),
        }
    }
}

/// The attributes of a record literal.
#[derive(Clone, Copy, PartialEq, Eq, Structural, Debug)]
pub struct RecordAttrs {
    /// Does the record accept fields beyond the ones listed? Relevant for
    /// records used as contracts.
    pub open: bool,
}

impl RecordAttrs {
    /// Attributes of a plain closed record.
    pub fn new() -> (r: RecordAttrs)
        ensures
            !r.open,
    {
        RecordAttrs { open: false }
    }

    /// Combine the attributes of two merged records: a monotone, deterministic
    /// rule, the logical or of each flag.
    pub fn merge(a1: RecordAttrs, a2: RecordAttrs) -> (r: RecordAttrs)
        ensures
            r.open == (a1.open || a2.open),
    {
        RecordAttrs { open: a1.open || a2.open }
    }
}

/// The opaque sealed part of a record with a polymorphic tail. Merging any
/// record that carries one fails.
#[derive(Debug)]
pub struct SealedTail {
    /// The label blaming the sealing site.
    pub label: Label,
}

impl Clone for SealedTail {
    /// The clone is the same sealed tail.
    fn clone(&self) -> (r: Self)
        ensures
            r == *self,
    {
        SealedTail { label: self.label.clone() }
    }
}

/// The contents of a record value.
#[derive(Debug)]
pub struct RecordData {
    /// The fields, keyed by identifier; keys are unique. Fields are immutable
    /// once published, so they are shared: merge produces new fields rather
    /// than mutating them.
    pub fields: IndexMap<Rc<Field>>,
    /// Attributes of the record.
    pub attrs: RecordAttrs,
    /// The sealed polymorphic tail, if the record has one.
    pub sealed_tail: Option<SealedTail>,
}

/// Copy a field map; the copy shares every field and binds exactly what the
/// original binds.
pub fn clone_fields(m: &IndexMap<Rc<Field>>) -> (r: IndexMap<Rc<Field>>)
    ensures
        r.entries@ == m.entries@,
{
    let mut entries: Vec<(Ident, Rc<Field>)> = Vec::new();
    let mut i: usize = 0;
    while i < m.entries.len()
        invariant
            i <= m.entries@.len(),
            entries@ == m.entries@.take(i as int),
        decreases m.entries@.len() - i,
    {
        let id = m.entries[i].0;
        let f = rc_clone(&m.entries[i].1);
        entries.push((id, f));
        proof {
            assert(entries@ =~= m.entries@.take(i as int + 1));
        }
        i = i + 1;
    }
    proof {
        assert(entries@ =~= m.entries@);
    }
    IndexMap { entries }
}

impl RecordData {
    /// Build record contents from parts.
    pub fn new(
        fields: IndexMap<Rc<Field>>,
        attrs: RecordAttrs,
        sealed_tail: Option<SealedTail>,
    ) -> (r: RecordData)
        ensures
            r.fields == fields,
            r.attrs == attrs,
            r.sealed_tail == sealed_tail,
    {
        RecordData { fields, attrs, sealed_tail }
    }

    /// An empty, closed record.
    pub fn empty() -> (r: RecordData)
        ensures
            r.fields.entries@.len() == 0,
            !r.attrs.open,
            r.sealed_tail is None,
    {
        RecordData { fields: IndexMap::new(), attrs: RecordAttrs::new(), sealed_tail: None }
    }
}

/// The set of sibling fields a revertible cache entry depends on.
#[derive(Debug)]
pub struct FieldDeps {
    /// The dependencies; order and duplicates are irrelevant, only membership
    /// counts. The vector is shared, so cloning a dependency set is cheap.
    pub idents: Rc<Vec<Ident>>,
}

/// Does the identifier sequence contain the symbol `k`?
pub open spec fn ident_seq_has(s: Seq<Ident>, k: usize) -> bool {
    exists|i: int| 0 <= i < s.len() && (#[trigger] s[i]).sym == k
}

/// Appending an identifier adds exactly its symbol.
pub proof fn lemma_ident_seq_push(s: Seq<Ident>, e: Ident)
    ensures
        forall|k: usize|
            #[trigger] ident_seq_has(s.push(e), k) <==> (ident_seq_has(s, k) || e.sym == k),
{
    assert forall|k: usize|
        #[trigger] ident_seq_has(s.push(e), k) implies (ident_seq_has(s, k) || e.sym == k) by {
        let i = choose|i: int| 0 <= i < s.push(e).len() && (#[trigger] s.push(e)[i]).sym == k;
        if i < s.len() {
            assert(s[i] == s.push(e)[i]);
        }
    }
    assert forall|k: usize| (ident_seq_has(s, k) || e.sym == k) implies #[trigger] ident_seq_has(
        s.push(e),
        k,
    ) by {
        if ident_seq_has(s, k) {
            let i = choose|i: int| 0 <= i < s.len() && (#[trigger] s[i]).sym == k;
            assert(s.push(e)[i] == s[i]);
        } else {
            assert(s.push(e)[s.len() as int] == e);
        }
    }
}

impl Clone for FieldDeps {
    /// Cloning shares the storage: the clone is the same set.
    fn clone(&self) -> (r: Self)
        ensures
            r == *self,
    {
        FieldDeps { idents: rc_clone(&self.idents) }
    }
}

impl FieldDeps {
    /// Membership of a symbol in the dependency set.
    pub open spec fn has(self, s: usize) -> bool {
        ident_seq_has(self.idents@, s)
    }

    /// The empty dependency set.
    pub fn empty() -> (r: FieldDeps)
        ensures
            forall|s: usize| !r.has(s),
            r.idents@.len() == 0,
    {
        FieldDeps { idents: Rc::new(Vec::new()) }
    }

    /// Build a dependency set from the identifiers it contains.
    pub fn from_idents(idents: Vec<Ident>) -> (r: FieldDeps)
        ensures
            r.idents@ == idents@,
    {
        FieldDeps { idents: Rc::new(idents) }
    }

    /// Is the dependency set empty?
    pub fn is_empty(&self) -> (r: bool)
        ensures
            r <==> self.idents@.len() == 0,
    {
        let v: &Vec<Ident> = &*self.idents;
        v.len() == 0
    }

    /// Does the set contain `id`?
    pub fn contains(&self, id: Ident) -> (r: bool)
        ensures
            r == self.has(id.sym),
    {
        let v: &Vec<Ident> = &*self.idents;
        let mut i: usize = 0;
        while i < v.len()
            invariant
                i <= v@.len(),
                v@ == self.idents@,
                forall|j: int| 0 <= j < i ==> (#[trigger] v@[j]).sym != id.sym,
            decreases v@.len() - i,
        {
            if v[i].sym == id.sym {
                return true;
            }
            i = i + 1;
        }
        false
    }

    /// The union of two dependency sets.
    pub fn union(self, other: FieldDeps) -> (r: FieldDeps)
        ensures
            forall|s: usize| #[trigger] r.has(s) <==> (self.has(s) || other.has(s)),
    {
        let mut idents = crate::util::copy_vec(&*self.idents);
        let mut rest = crate::util::copy_vec(&*other.idents);
        let ghost a = idents@;
        let ghost b = rest@;
        idents.append(&mut rest);
        proof {
            assert forall|s: usize|
                ident_seq_has(a + b, s) <==> (ident_seq_has(a, s) || ident_seq_has(b, s)) by {
                if ident_seq_has(a + b, s) {
                    let i = choose|i: int| 0 <= i < (a + b).len() && (#[trigger] (a + b)[i]).sym
                        == s;
                    if i < a.len() {
                        assert(a[i] == (a + b)[i]);
                    } else {
                        assert(b[i - a.len()] == (a + b)[i]);
                    }
                }
                if ident_seq_has(a, s) {
                    let i = choose|i: int| 0 <= i < a.len() && (#[trigger] a[i]).sym == s;
                    assert((a + b)[i] == a[i]);
                }
                if ident_seq_has(b, s) {
                    let i = choose|i: int| 0 <= i < b.len() && (#[trigger] b[i]).sym == s;
                    assert((a + b)[i + a.len()] == b[i]);
                }
            }
        }
        FieldDeps { idents: Rc::new(idents) }
    }
}

/// Copy a pending-contract list; the copy holds the same contracts.
pub fn copy_contracts(v: &Vec<PendingContract>) -> (r: Vec<PendingContract>)
    ensures
        r@ == v@,
{
    let mut r: Vec<PendingContract> = Vec::new();
    let mut i: usize = 0;
    while i < v.len()
        invariant
            i <= v@.len(),
            r@ == v@.take(i as int),
        decreases v@.len() - i,
    {
        let pc = PendingContract { contract: v[i].contract.clone(), label: v[i].label.clone() };
        proof {
            assert(pc == v@[i as int]);
            assert(r@.push(pc) =~= v@.take(i as int + 1));
        }
        r.push(pc);
        i = i + 1;
    }
    proof {
        assert(r@ =~= v@);
    }
    r
}

} // verus!
