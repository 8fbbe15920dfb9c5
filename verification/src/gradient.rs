//! The backward sweep and the read-only view over its result.
//!
//! [`adjoint_seq`] is the mathematical statement of reverse accumulation:
//! start from a vector that is one at the terminal index and zero elsewhere,
//! then fold every node from the highest index down to zero, adding
//! `adjoint * partial` into each parent slot. Topological order makes one
//! such pass complete: a node's adjoint is finished before the pass reaches
//! it. [`Variable::accumulate`] computes exactly that fold; a
//! [`GradientView`] exposes the resulting vector, answering zero for any
//! index beyond its length (a variable minted after accumulation).

use vstd::prelude::*;

use crate::scalar::Scalar;
use crate::tape::nodes_wf;
use crate::tape::Node;
use crate::tape::Tape;
use crate::variable::Variable;

verus! {

/// The starting adjoint vector for a sweep over `n` nodes with terminal
/// index `k`: one at `k`, zero everywhere else.
pub open spec fn init_adjoints<T: Scalar>(n: nat, k: int) -> Seq<T> {
    Seq::new(n, |i: int| if i == k { T::one_spec() } else { T::zero_spec() })
}

/// One backward step: read the adjoint at `i`, then add its product with
/// each stored partial into the matching parent slot, first parent first.
/// A leaf's self-edges with zero partial leave the vector unchanged.
pub open spec fn sweep_step<T: Scalar>(node: Node<T>, g: Seq<T>, i: int) -> Seq<T> {
    let a = g[i];
    let g0 = g.update(
        node.parent0 as int,
        T::add_spec(g[node.parent0 as int], T::mul_spec(a, node.partial0)),
    );
    g0.update(
        node.parent1 as int,
        T::add_spec(g0[node.parent1 as int], T::mul_spec(a, node.partial1)),
    )
}

/// The adjoint vector after sweeping every node with index at or above `i`,
/// highest first, starting from [`init_adjoints`] for terminal `k`.
pub open spec fn swept<T: Scalar>(nodes: Seq<Node<T>>, k: int, i: int) -> Seq<T>
    decreases nodes.len() - i,
{
    if i >= nodes.len() {
        init_adjoints(nodes.len(), k)
    } else {
        sweep_step(nodes[i], swept(nodes, k, i + 1), i)
    }
}

/// The finished adjoint vector of a sweep from the top of the tape down to
/// index zero: entry `j` is the derivative of node `k`'s value with respect
/// to node `j`'s value, composed in the scalar algebra.
pub open spec fn adjoint_seq<T: Scalar>(nodes: Seq<Node<T>>, k: int) -> Seq<T> {
    swept(nodes, k, 0)
}

/// On a topologically ordered tape, sweeping never changes the vector's
/// length: every parent slot a step touches is in range.
pub proof fn lemma_swept_len<T: Scalar>(nodes: Seq<Node<T>>, k: int, i: int)
    requires
        nodes_wf(nodes),
        0 <= i,
    ensures
        swept(nodes, k, i).len() == nodes.len(),
    decreases nodes.len() - i,
{
    if i >= nodes.len() {
    } else {
        lemma_swept_len(nodes, k, i + 1);
        assert(nodes[i].parent0 <= i && nodes[i].parent1 <= i);
    }
}

/// The adjoint vector over the tape's nodes at the moment of accumulation,
/// read-only. Indexed by node index; indices past its length answer zero.
pub struct GradientView<T> {
    adjoints: Vec<T>,
}

impl<T> View for GradientView<T> {
    type V = Seq<T>;

    closed spec fn view(&self) -> Seq<T> {
        self.adjoints@
    }
}

impl<T: Scalar> GradientView<T> {
    /// The number of adjoints held: the tape length when the sweep ran.
    pub fn len(&self) -> (n: usize)
        ensures
            n == self@.len(),
    {
        self.adjoints.len()
    }

    /// The derivative of the accumulated output with respect to `v`: the
    /// adjoint at `v`'s index, or zero for a variable minted after the
    /// sweep.
    pub fn wrt(&self, v: &Variable<T>) -> (r: T)
        ensures
            r == if (v.index as int) < self@.len() {
                self@[v.index as int]
            } else {
                T::zero_spec()
            },
    {
        if v.index < self.adjoints.len() {
            self.adjoints[v.index]
        } else {
            T::zero()
        }
    }

    /// Element-wise [`Self::wrt`] over an ordered sequence of variables,
    /// preserving order.
    pub fn wrt_vec(&self, vs: &Vec<Variable<T>>) -> (rs: Vec<T>)
        ensures
            rs@.len() == vs@.len(),
            forall|j: int|
                0 <= j < vs@.len() ==> rs@[j] == if ((#[trigger] vs@[j]).index as int)
                    < self@.len() {
                    self@[vs@[j].index as int]
                } else {
                    T::zero_spec()
                },
    {
        let n = vs.len();
        let mut rs: Vec<T> = Vec::new();
        let mut k: usize = 0;
        while k < n
            invariant
                n == vs@.len(),
                k <= n,
                rs@.len() == k,
                forall|j: int|
                    0 <= j < k ==> rs@[j] == if ((#[trigger] vs@[j]).index as int) < self@.len() {
                        self@[vs@[j].index as int]
                    } else {
                        T::zero_spec()
                    },
            decreases n - k,
        {
            let r = self.wrt(&vs[k]);
            rs.push(r);
            k = k + 1;
        }
        rs
    }
}

impl<T: Scalar> Variable<T> {
    /// Reverse accumulation: walk `tape` from its top index down to zero and
    /// return the adjoint of every node with respect to this terminal
    /// variable, exactly as [`adjoint_seq`] states it. Reads the tape only;
    /// it may keep growing afterwards and be accumulated again.
    pub fn accumulate(&self, tape: &Tape<T>) -> (g: GradientView<T>)
        requires
            tape.wf(),
            self.index < tape@.len(),
        ensures
            g@ == adjoint_seq(tape@, self.index as int),
            g@.len() == tape@.len(),
    {
        let n = tape.len();
        let k = self.index;
        let mut adj: Vec<T> = Vec::new();
        let mut j: usize = 0;
        while j < n
            invariant
                j <= n,
                adj@.len() == j,
                forall|m: int| 0 <= m < j ==> adj@[m] == T::zero_spec(),
            decreases n - j,
        {
            adj.push(T::zero());
            j = j + 1;
        }
        adj.set(k, T::one());
        proof {
            assert(adj@ =~= init_adjoints::<T>(tape@.len(), k as int));
            assert(swept(tape@, k as int, n as int) == adj@);
        }
        let mut i: usize = n;
        while i > 0
            invariant
                i <= n,
                n == tape@.len(),
                k < n,
                tape.wf(),
                adj@.len() == n,
                adj@ == swept(tape@, k as int, i as int),
            decreases i,
        {
            i = i - 1;
            let ghost pre = adj@;
            let node = tape.node(i);
            let a = adj[i];
            let p0 = node.parent0;
            let s0 = adj[p0].add(a.mul(node.partial0));
            adj.set(p0, s0);
            let p1 = node.parent1;
            let s1 = adj[p1].add(a.mul(node.partial1));
            adj.set(p1, s1);
            proof {
                assert(adj@ == sweep_step(tape@[i as int], pre, i as int));
            }
        }
        GradientView { adjoints: adj }
    }
}

} // verus!
