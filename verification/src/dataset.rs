//! Addressing of shared and private data collections.
//!
//! A `DatasetPath` names a collection by a namespace tag and a sequence of
//! string segments, independent of any owner. Binding an owner identity
//! yields a `ResolvedDatasetPath`, the canonical reference carried by dataset
//! messages and element dataset bindings. Equality of resolved paths is
//! structural: namespace, segments and owner must all match.

use vstd::prelude::*;

verus! {

/// Namespace of a dataset: private to one owner, or shared.
#[derive(Clone, Copy, PartialEq, Eq, Structural, Debug)]
pub enum DatasetNamespace {
    Private,
    Shared,
}

/// An unresolved dataset address: namespace plus string segments, not yet
/// bound to an owner identity.
#[derive(Debug)]
pub struct DatasetPath {
    namespace: DatasetNamespace,
    segments: Vec<String>,
}

/// Mathematical model of a `DatasetPath`.
pub ghost struct DatasetPathView {
    pub namespace: DatasetNamespace,
    pub segments: Seq<Seq<char>>,
}

impl View for DatasetPath {
    type V = DatasetPathView;

    closed spec fn view(&self) -> DatasetPathView {
        DatasetPathView { namespace: self.namespace, segments: self.segments.deep_view() }
    }
}

impl DeepView for DatasetPath {
    type V = DatasetPathView;

    open spec fn deep_view(&self) -> DatasetPathView {
        self.view()
    }
}

/// A dataset address bound to an owner identity: the unit that dataset
/// messages and element bindings actually reference.
#[derive(Debug)]
pub struct ResolvedDatasetPath {
    namespace: DatasetNamespace,
    owner: String,
    segments: Vec<String>,
}

/// Mathematical model of a `ResolvedDatasetPath`.
pub ghost struct ResolvedDatasetPathView {
    pub namespace: DatasetNamespace,
    pub owner: Seq<char>,
    pub segments: Seq<Seq<char>>,
}

impl View for ResolvedDatasetPath {
    type V = ResolvedDatasetPathView;

    closed spec fn view(&self) -> ResolvedDatasetPathView {
        ResolvedDatasetPathView {
            namespace: self.namespace,
            owner: self.owner@,
            segments: self.segments.deep_view(),
        }
    }
}

impl DeepView for ResolvedDatasetPath {
    type V = ResolvedDatasetPathView;

    open spec fn deep_view(&self) -> ResolvedDatasetPathView {
        self.view()
    }
}

/// The model of resolving `p` with owner identity `owner`: the namespace and
/// segments are kept, the owner is bound.
pub open spec fn resolved_with(p: DatasetPathView, owner: Seq<char>) -> ResolvedDatasetPathView {
    ResolvedDatasetPathView { namespace: p.namespace, owner, segments: p.segments }
}

/// Copies a vector of strings element for element.
pub(crate) fn clone_strings(v: &Vec<String>) -> (r: Vec<String>)
    ensures
        r@ == v@,
{
    let mut r: Vec<String> = Vec::new();
    let mut i: usize = 0;
    while i < v.len()
        invariant
            i <= v.len(),
            r@ == v@.subrange(0, i as int),
        decreases v.len() - i,
    {
        r.push(v[i].clone());
        proof {
            assert(r@ =~= v@.subrange(0, i + 1));
        }
        i += 1;
    }
    proof {
        assert(v@.subrange(0, v@.len() as int) =~= v@);
    }
    r
}

impl DatasetPath {
    /// An unresolved path in the private namespace with the given segments.
    pub fn new_private(segments: Vec<String>) -> (p: DatasetPath)
        ensures
            p@ == (DatasetPathView {
                namespace: DatasetNamespace::Private,
                segments: segments.deep_view(),
            }),
    {
        DatasetPath { namespace: DatasetNamespace::Private, segments }
    }

    /// An unresolved path in the shared namespace with the given segments.
    pub fn new_shared(segments: Vec<String>) -> (p: DatasetPath)
        ensures
            p@ == (DatasetPathView {
                namespace: DatasetNamespace::Shared,
                segments: segments.deep_view(),
            }),
    {
        DatasetPath { namespace: DatasetNamespace::Shared, segments }
    }

    /// Binds an owner identity, producing the canonical resolved reference.
    /// Resolution is pure: it depends only on the path and the owner.
    pub fn resolve(&self, owner: &String) -> (r: ResolvedDatasetPath)
        ensures
            r@ == resolved_with(self@, owner@),
    {
        ResolvedDatasetPath {
            namespace: self.namespace,
            owner: owner.clone(),
            segments: clone_strings(&self.segments),
        }
    }
}

impl Clone for DatasetPath {
    /// A clone addresses the same collection: same namespace and segments.
    fn clone(&self) -> (r: Self)
        ensures
            r@ == self@,
    {
        DatasetPath { namespace: self.namespace, segments: clone_strings(&self.segments) }
    }
}

impl Clone for ResolvedDatasetPath {
    /// A clone references the same resolved collection.
    fn clone(&self) -> (r: Self)
        ensures
            r@ == self@,
    {
        ResolvedDatasetPath {
            namespace: self.namespace,
            owner: self.owner.clone(),
            segments: clone_strings(&self.segments),
        }
    }
}

/// Law: resolution is pure and owner-sensitive. Resolving one unresolved
/// path with two owner identities yields structurally equal references
/// exactly when the identities are equal.
pub proof fn lemma_resolution_pure(p: DatasetPathView, o1: Seq<char>, o2: Seq<char>)
    ensures
        (resolved_with(p, o1) == resolved_with(p, o2)) <==> o1 == o2,
{
    if resolved_with(p, o1) == resolved_with(p, o2) {
        assert(resolved_with(p, o1).owner == resolved_with(p, o2).owner);
    }
}

/// Compares two string vectors element for element.
pub(crate) fn strings_equal(a: &Vec<String>, b: &Vec<String>) -> (r: bool)
    ensures
        r == (a.deep_view() == b.deep_view()),
{
    if a.len() != b.len() {
        proof {
            assert(a.deep_view().len() == a@.len());
            assert(b.deep_view().len() == b@.len());
        }
        return false;
    }
    let mut i: usize = 0;
    while i < a.len()
        invariant
            i <= a.len(),
            a@.len() == b@.len(),
            forall|j: int| 0 <= j < i ==> a.deep_view()[j] == b.deep_view()[j],
        decreases a.len() - i,
    {
        if a[i] != b[i] {
            proof {
                assert(a.deep_view()[i as int] == a@[i as int]@);
                assert(b.deep_view()[i as int] == b@[i as int]@);
            }
            return false;
        }
        proof {
            assert(a.deep_view()[i as int] == a@[i as int]@);
            assert(b.deep_view()[i as int] == b@[i as int]@);
        }
        i += 1;
    }
    proof {
        assert(a.deep_view() =~= b.deep_view());
    }
    true
}

impl PartialEq for DatasetPath {
    /// Structural equality: namespace and segments match.
    fn eq(&self, other: &Self) -> (r: bool)
        ensures
            r == (self@ == other@),
    {
        let r = self.namespace == other.namespace && strings_equal(&self.segments, &other.segments);
        proof {
            if self.namespace == other.namespace && self.segments.deep_view()
                == other.segments.deep_view() {
                assert(self@ == other@);
            }
            if self@ == other@ {
                assert(self.namespace == other.namespace);
                assert(self.segments.deep_view() == other.segments.deep_view());
            }
        }
        r
    }
}

impl vstd::std_specs::cmp::PartialEqSpecImpl for DatasetPath {
    open spec fn obeys_eq_spec() -> bool {
        true
    }

    open spec fn eq_spec(&self, other: &Self) -> bool {
        self@ == other@
    }
}

impl PartialEq for ResolvedDatasetPath {
    /// Structural equality: namespace, owner and segments all match.
    fn eq(&self, other: &Self) -> (r: bool)
        ensures
            r == (self@ == other@),
    {
        let r = self.namespace == other.namespace && self.owner == other.owner && strings_equal(
            &self.segments,
            &other.segments,
        );
        proof {
            if self.namespace == other.namespace && self.owner@ == other.owner@
                && self.segments.deep_view() == other.segments.deep_view() {
                assert(self@ == other@);
            }
            if self@ == other@ {
                assert(self.namespace == other.namespace);
                assert(self.owner@ == other.owner@);
                assert(self.segments.deep_view() == other.segments.deep_view());
            }
        }
        r
    }
}

impl vstd::std_specs::cmp::PartialEqSpecImpl for ResolvedDatasetPath {
    open spec fn obeys_eq_spec() -> bool {
        true
    }

    open spec fn eq_spec(&self, other: &Self) -> bool {
        self@ == other@
    }
}

} // verus!
