//! Index-path addressing of nodes in an element tree.
//!
//! A path is an ordered sequence of child indices; the empty sequence
//! addresses the root. A path is a snapshot: it stays meaningful only as long
//! as the sibling ordering above the addressed node does not change.

use vstd::prelude::*;

verus! {

/// Failure of addressing a tree node: the path does not resolve to a node.
#[derive(Clone, Copy, PartialEq, Eq, Structural, Debug)]
pub enum UiError {
    NotFound,
}

/// A path to a node of an element tree: the sequence of child indices walked
/// down from the root. `UiPath::root()` is the empty path.
#[derive(Debug)]
pub struct UiPath {
    indices: Vec<usize>,
}

impl View for UiPath {
    type V = Seq<usize>;

    closed spec fn view(&self) -> Seq<usize> {
        self.indices@
    }
}

/// Copies an index vector element for element.
fn copy_indices(v: &Vec<usize>) -> (r: Vec<usize>)
    ensures
        r@ == v@,
{
    let mut r: Vec<usize> = Vec::new();
    let mut i: usize = 0;
    while i < v.len()
        invariant
            i <= v.len(),
            r@ == v@.subrange(0, i as int),
        decreases v.len() - i,
    {
        r.push(v[i]);
        proof {
            assert(r@ =~= v@.subrange(0, i + 1));
        }
        i += 1;
    }
    proof {
        assert(v@.subrange(0, v@.len() as int) =~= v@);
    }
    r
}

impl UiPath {
    /// The empty path, which addresses the root of any tree.
    pub fn root() -> (p: UiPath)
        ensures
            p@ == Seq::<usize>::empty(),
    {
        UiPath { indices: Vec::new() }
    }

    /// The path to child `index` of the node this path addresses.
    pub fn child(&self, index: usize) -> (p: UiPath)
        ensures
            p@ == self@.push(index),
    {
        let mut indices = copy_indices(&self.indices);
        indices.push(index);
        UiPath { indices }
    }

    /// Number of indices in the path; the depth of the addressed node.
    pub fn len(&self) -> (n: usize)
        ensures
            n == self@.len(),
    {
        self.indices.len()
    }

    /// The child index at position `i` of the path.
    pub fn index_at(&self, i: usize) -> (x: usize)
        requires
            i < self@.len(),
        ensures
            x == self@[i as int],
    {
        self.indices[i]
    }
}

impl Clone for UiPath {
    /// A clone addresses the same node: it holds the same index sequence.
    fn clone(&self) -> (p: Self)
        ensures
            p@ == self@,
    {
        UiPath { indices: copy_indices(&self.indices) }
    }
}

} // verus!
