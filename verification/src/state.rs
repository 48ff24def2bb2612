//! Abstract state and the equivalence wrappers.
//!
//! A concrete abstract state is a record whose fields are built from the
//! wrapper types below; each wrapper fixes what "equal enough" means for one
//! field.  The whole record matches another record exactly when every field
//! matches, so composite states conjoin the field-wise checks.

use vstd::prelude::*;

verus! {

use vstd::relations::injective;
use crate::relabel::canon;
use crate::relabel::relabel;
use crate::sorting::lemma_sorted_multiset_unique;
use crate::sorting::sort_values;
use crate::sorting::vec_values_eq;

/// The reference model's view of the system under test.
///
/// A value of an implementing type can be compared against another value of
/// the same type; `matches` is total, reads both values without changing
/// them, and is reflexive.  Record-like states implement it as the
/// conjunction of `matches` over their fields.
pub trait AbstractState: Sized {
    /// What it means for `self` to be equivalent to `other`.
    spec fn spec_matches(&self, other: &Self) -> bool;

    /// Decides whether the two values are equivalent.
    fn matches(&self, other: &Self) -> (r: bool)
        ensures
            r == self.spec_matches(other),
    ;
}

/// A field excluded from comparison: two values always match, whatever they
/// hold.
#[derive(Debug, Clone)]
pub struct Unmatched<T>(pub T);

impl<T> AbstractState for Unmatched<T> {
    open spec fn spec_matches(&self, other: &Self) -> bool {
        true
    }

    fn matches(&self, _other: &Self) -> (r: bool) {
        true
    }
}

/// A plain value compared for equality.
#[derive(Debug, Clone, Copy, PartialEq, Eq, Structural)]
pub struct Value(pub usize);

impl AbstractState for Value {
    open spec fn spec_matches(&self, other: &Self) -> bool {
        self.0 == other.0
    }

    fn matches(&self, other: &Self) -> (r: bool) {
        self.0 == other.0
    }
}

/// A single identifier: its concrete value carries no meaning on its own, so
/// two identifiers always match individually.
#[derive(Debug, Clone, Copy, PartialEq, Eq, Structural)]
pub struct Ident(pub usize);

impl AbstractState for Ident {
    open spec fn spec_matches(&self, other: &Self) -> bool {
        true
    }

    fn matches(&self, _other: &Self) -> (r: bool) {
        true
    }
}

/// The raw values wrapped by a sequence of [`Value`]s.
pub open spec fn raw_values(s: Seq<Value>) -> Seq<usize> {
    s.map_values(|x: Value| x.0)
}

/// The raw values wrapped by a sequence of [`Ident`]s.
pub open spec fn raw_idents(s: Seq<Ident>) -> Seq<usize> {
    s.map_values(|x: Ident| x.0)
}

/// Copies the raw values out of a vector of [`Value`]s.
fn to_raw_values(v: &Vec<Value>) -> (r: Vec<usize>)
    ensures
        r@ == raw_values(v@),
{
    let mut r: Vec<usize> = Vec::new();
    let mut i: usize = 0;
    while i < v.len()
        invariant
            i <= v@.len(),
            r@.len() == i,
            forall|k: int| 0 <= k < i ==> #[trigger] r@[k] == v@[k].0,
        decreases v@.len() - i,
    {
        r.push(v[i].0);
        i = i + 1;
    }
    proof {
        assert(r@ =~= raw_values(v@));
    }
    r
}

/// Copies the raw values out of a vector of [`Ident`]s.
fn to_raw_idents(v: &Vec<Ident>) -> (r: Vec<usize>)
    ensures
        r@ == raw_idents(v@),
{
    let mut r: Vec<usize> = Vec::new();
    let mut i: usize = 0;
    while i < v.len()
        invariant
            i <= v@.len(),
            r@.len() == i,
            forall|k: int| 0 <= k < i ==> #[trigger] r@[k] == v@[k].0,
        decreases v@.len() - i,
    {
        r.push(v[i].0);
        i = i + 1;
    }
    proof {
        assert(r@ =~= raw_idents(v@));
    }
    r
}

/// Computes the canonical relabeling of a vector of identifiers.
pub fn map_ident(list: &Vec<Ident>) -> (r: Vec<usize>)
    ensures
        r@ == canon(raw_idents(list@)),
{
    let raw = to_raw_idents(list);
    relabel(&raw)
}

/// An ordered list of plain values: matches exactly when the wrapped
/// sequences are equal element by element.
#[derive(Debug, Clone)]
pub struct ValueList(pub Vec<Value>);

impl AbstractState for ValueList {
    open spec fn spec_matches(&self, other: &Self) -> bool {
        raw_values(self.0@) == raw_values(other.0@)
    }

    fn matches(&self, other: &Self) -> (r: bool) {
        let a = to_raw_values(&self.0);
        let b = to_raw_values(&other.0);
        vec_values_eq(&a, &b)
    }
}

/// An unordered collection of plain values: matches exactly when both sides
/// hold the same multiset of values.
#[derive(Debug, Clone)]
pub struct ValueSet(pub Vec<Value>);

impl AbstractState for ValueSet {
    open spec fn spec_matches(&self, other: &Self) -> bool {
        raw_values(self.0@).to_multiset() == raw_values(other.0@).to_multiset()
    }

    fn matches(&self, other: &Self) -> (r: bool) {
        let mut a = to_raw_values(&self.0);
        let mut b = to_raw_values(&other.0);
        sort_values(&mut a);
        sort_values(&mut b);
        let r = vec_values_eq(&a, &b);
        proof {
            if raw_values(self.0@).to_multiset() == raw_values(other.0@).to_multiset() {
                lemma_sorted_multiset_unique(a@, b@);
            }
        }
        r
    }
}

/// An ordered list of identifiers: matches exactly when both sides
/// canonicalize to the same label sequence, so renaming identifiers is
/// immaterial but their order and repetition pattern are not.
#[derive(Debug, Clone)]
pub struct IdentList(pub Vec<Ident>);

impl AbstractState for IdentList {
    open spec fn spec_matches(&self, other: &Self) -> bool {
        canon(raw_idents(self.0@)) == canon(raw_idents(other.0@))
    }

    fn matches(&self, other: &Self) -> (r: bool) {
        if self.0.len() != other.0.len() {
            proof {
                assert(canon(raw_idents(self.0@)).len() != canon(raw_idents(other.0@)).len());
            }
            return false;
        }
        let a = map_ident(&self.0);
        let b = map_ident(&other.0);
        vec_values_eq(&a, &b)
    }
}

/// An unordered collection of identifiers: matches exactly when the sorted
/// canonical relabelings coincide, that is, when both sides hold the same
/// multiset of canonical labels.
#[derive(Debug, Clone)]
pub struct IdentSet(pub Vec<Ident>);

impl AbstractState for IdentSet {
    open spec fn spec_matches(&self, other: &Self) -> bool {
        canon(raw_idents(self.0@)).to_multiset() == canon(raw_idents(other.0@)).to_multiset()
    }

    fn matches(&self, other: &Self) -> (r: bool) {
        let mut a = map_ident(&self.0);
        let mut b = map_ident(&other.0);
        sort_values(&mut a);
        sort_values(&mut b);
        let r = vec_values_eq(&a, &b);
        proof {
            if canon(raw_idents(self.0@)).to_multiset() == canon(
                raw_idents(other.0@),
            ).to_multiset() {
                lemma_sorted_multiset_unique(a@, b@);
            }
        }
        r
    }
}

/// Matching is reflexive for plain values.
pub proof fn lemma_value_matches_reflexive(a: &Value)
    ensures
        a.spec_matches(a),
{
}

/// Matching is reflexive for single identifiers.
pub proof fn lemma_ident_matches_reflexive(a: &Ident)
    ensures
        a.spec_matches(a),
{
}

/// Matching is reflexive for ignored fields.
pub proof fn lemma_unmatched_matches_reflexive<T>(a: &Unmatched<T>)
    ensures
        a.spec_matches(a),
{
}

/// Matching is reflexive for ordered value lists.
pub proof fn lemma_value_list_matches_reflexive(a: &ValueList)
    ensures
        a.spec_matches(a),
{
}

/// Matching is reflexive for unordered value collections.
pub proof fn lemma_value_set_matches_reflexive(a: &ValueSet)
    ensures
        a.spec_matches(a),
{
}

/// Matching is reflexive for ordered identifier lists.
pub proof fn lemma_ident_list_matches_reflexive(a: &IdentList)
    ensures
        a.spec_matches(a),
{
}

/// Matching is reflexive for unordered identifier collections.
pub proof fn lemma_ident_set_matches_reflexive(a: &IdentSet)
    ensures
        a.spec_matches(a),
{
}

/// Unmatched fields match regardless of what either side holds.
pub proof fn lemma_unmatched_always_matches<T>(a: &Unmatched<T>, b: &Unmatched<T>)
    ensures
        a.spec_matches(b),
{
}

/// Value lists of different lengths never match.
pub proof fn lemma_value_list_len_mismatch(a: &ValueList, b: &ValueList)
    requires
        a.0@.len() != b.0@.len(),
    ensures
        !a.spec_matches(b),
{
    assert(raw_values(a.0@).len() == a.0@.len());
    assert(raw_values(b.0@).len() == b.0@.len());
}

/// Value collections of different lengths never match.
pub proof fn lemma_value_set_len_mismatch(a: &ValueSet, b: &ValueSet)
    requires
        a.0@.len() != b.0@.len(),
    ensures
        !a.spec_matches(b),
{
    vstd::seq_lib::to_multiset_len(raw_values(a.0@));
    vstd::seq_lib::to_multiset_len(raw_values(b.0@));
}

/// Identifier lists of different lengths never match.
pub proof fn lemma_ident_list_len_mismatch(a: &IdentList, b: &IdentList)
    requires
        a.0@.len() != b.0@.len(),
    ensures
        !a.spec_matches(b),
{
    assert(canon(raw_idents(a.0@)).len() == a.0@.len());
    assert(canon(raw_idents(b.0@)).len() == b.0@.len());
}

/// Identifier collections of different lengths never match.
pub proof fn lemma_ident_set_len_mismatch(a: &IdentSet, b: &IdentSet)
    requires
        a.0@.len() != b.0@.len(),
    ensures
        !a.spec_matches(b),
{
    vstd::seq_lib::to_multiset_len(canon(raw_idents(a.0@)));
    vstd::seq_lib::to_multiset_len(canon(raw_idents(b.0@)));
}

/// Ordered identifier equivalence is invariant under injective renaming: a
/// list always matches the copy of itself whose raw identifiers were renamed
/// through any injective map.
pub proof fn lemma_ident_list_relabel(a: &IdentList, b: &IdentList, f: spec_fn(usize) -> usize)
    requires
        injective(f),
        raw_idents(b.0@) == raw_idents(a.0@).map_values(f),
    ensures
        a.spec_matches(b),
{
    crate::relabel::lemma_canon_relabel(raw_idents(a.0@), f);
}

/// Unordered identifier equivalence is likewise invariant under injective
/// renaming of the raw identifiers.
pub proof fn lemma_ident_set_relabel(a: &IdentSet, b: &IdentSet, f: spec_fn(usize) -> usize)
    requires
        injective(f),
        raw_idents(b.0@) == raw_idents(a.0@).map_values(f),
    ensures
        a.spec_matches(b),
{
    crate::relabel::lemma_canon_relabel(raw_idents(a.0@), f);
}

} // verus!
