//! The append-only tape of elementary-operation records.
//!
//! A [`Node`] stores up to two parent indices with the local partial
//! derivative along each edge; a leaf points at itself with zero partials so
//! the reverse sweep treats it uniformly. A [`Tape`] is a growable sequence
//! of nodes in which every parent index lies at or below its node's own
//! index ([`Tape::wf`]); appending is the only mutation, so recorded indices
//! stay valid for the life of the tape.

use vstd::prelude::*;

use crate::scalar::Scalar;

verus! {

/// One elementary-operation record: two parent indices and the partial
/// derivative of this node's value with respect to each parent.
#[derive(Clone, Copy)]
pub struct Node<T> {
    /// Index of the first parent; a node with no first parent points at
    /// itself.
    pub parent0: usize,
    /// Partial derivative of this node's value with respect to the first
    /// parent's value.
    pub partial0: T,
    /// Index of the second parent; a node with no second parent points at
    /// itself.
    pub parent1: usize,
    /// Partial derivative of this node's value with respect to the second
    /// parent's value.
    pub partial1: T,
}

/// The leaf record at index `i`: both parents point at `i` itself and both
/// partials are zero, so propagating an adjoint through it changes nothing.
pub open spec fn leaf_node<T: Scalar>(i: usize) -> Node<T> {
    (Node {
        parent0: i,
        partial0: T::zero_spec(),
        parent1: i,
        partial1: T::zero_spec(),
    })
}

/// The record of a one-parent operation at index `i`: the unused second
/// parent points at `i` itself with partial zero.
pub open spec fn unary_node<T: Scalar>(parent: usize, d: T, i: usize) -> Node<T> {
    (Node {
        parent0: parent,
        partial0: d,
        parent1: i,
        partial1: T::zero_spec(),
    })
}

/// The record of a two-parent operation.
pub open spec fn binary_node<T: Scalar>(p0: usize, d0: T, p1: usize, d1: T) -> Node<T> {
    (Node {
        parent0: p0,
        partial0: d0,
        parent1: p1,
        partial1: d1,
    })
}

/// Topological order over a plain node sequence: every node's parents lie
/// at or below the node's own index.
pub open spec fn nodes_wf<T>(nodes: Seq<Node<T>>) -> bool {
    forall|i: int|
        0 <= i < nodes.len() ==> (#[trigger] nodes[i]).parent0 <= i && nodes[i].parent1 <= i
}

/// An append-only log of [`Node`]s; the index a node receives at its append
/// is its identity forever after.
pub struct Tape<T> {
    nodes: Vec<Node<T>>,
}

impl<T> View for Tape<T> {
    type V = Seq<Node<T>>;

    closed spec fn view(&self) -> Seq<Node<T>> {
        self.nodes@
    }
}

impl<T> Tape<T> {
    /// Topological order: every node's parents lie at or below the node's
    /// own index. Append-only construction establishes this, and the reverse
    /// sweep relies on it.
    pub open spec fn wf(&self) -> bool {
        nodes_wf(self@)
    }

    /// The number of nodes recorded so far.
    pub fn len(&self) -> (n: usize)
        ensures
            n == self@.len(),
    {
        self.nodes.len()
    }

}

impl<T: Copy> Tape<T> {
    /// Read the node at index `i`.
    pub fn node(&self, i: usize) -> (nd: Node<T>)
        requires
            i < self@.len(),
        ensures
            nd == self@[i as int],
    {
        self.nodes[i]
    }
}

impl<T: Scalar> Tape<T> {
    /// A fresh, empty tape.
    pub fn new() -> (t: Tape<T>)
        ensures
            t@ == Seq::<Node<T>>::empty(),
            t.wf(),
    {
        Tape { nodes: Vec::new() }
    }

    /// Append a leaf record; its index is the tape's length before the call.
    pub fn push_leaf(&mut self) -> (i: usize)
        requires
            old(self).wf(),
        ensures
            final(self).wf(),
            i == old(self)@.len(),
            final(self)@ == old(self)@.push(leaf_node::<T>(i)),
    {
        let i = self.nodes.len();
        let z = T::zero();
        self.nodes.push(Node { parent0: i, partial0: z, parent1: i, partial1: z });
        proof {
            assert forall|j: int| 0 <= j < self@.len() implies (#[trigger] self@[j]).parent0 <= j
                && self@[j].parent1 <= j by {
                if j < old(self)@.len() {
                    assert(self@[j] == old(self)@[j]);
                }
            }
        }
        i
    }

    /// Append a one-parent record with the given partial; the unused second
    /// parent points at the new node itself with partial zero.
    pub fn push_unary(&mut self, parent: usize, d: T) -> (i: usize)
        requires
            old(self).wf(),
            parent < old(self)@.len(),
        ensures
            final(self).wf(),
            i == old(self)@.len(),
            final(self)@ == old(self)@.push(unary_node::<T>(parent, d, i)),
    {
        let i = self.nodes.len();
        let z = T::zero();
        self.nodes.push(Node { parent0: parent, partial0: d, parent1: i, partial1: z });
        proof {
            assert forall|j: int| 0 <= j < self@.len() implies (#[trigger] self@[j]).parent0 <= j
                && self@[j].parent1 <= j by {
                if j < old(self)@.len() {
                    assert(self@[j] == old(self)@[j]);
                }
            }
        }
        i
    }

    /// Append a two-parent record with the given parents and partials.
    pub fn push_binary(&mut self, p0: usize, d0: T, p1: usize, d1: T) -> (i: usize)
        requires
            old(self).wf(),
            p0 < old(self)@.len(),
            p1 < old(self)@.len(),
        ensures
            final(self).wf(),
            i == old(self)@.len(),
            final(self)@ == old(self)@.push(binary_node::<T>(p0, d0, p1, d1)),
    {
        let i = self.nodes.len();
        self.nodes.push(Node { parent0: p0, partial0: d0, parent1: p1, partial1: d1 });
        proof {
            assert forall|j: int| 0 <= j < self@.len() implies (#[trigger] self@[j]).parent0 <= j
                && self@[j].parent1 <= j by {
                if j < old(self)@.len() {
                    assert(self@[j] == old(self)@[j]);
                }
            }
        }
        i
    }
}

} // verus!
