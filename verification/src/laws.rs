//! The gradient laws: what one reverse sweep computes on the tapes the
//! operator set builds.
//!
//! Each law is stated over [`adjoint_seq`], the exact statement of
//! accumulation, on the node sequence that the corresponding operator calls
//! record (their contracts pin those sequences down), for every scalar
//! algebra and every operand value. The proofs use only the three algebraic
//! obligations of [`Scalar`].

use vstd::prelude::*;

use crate::gradient::adjoint_seq;
use crate::gradient::init_adjoints;
use crate::gradient::lemma_swept_len;
use crate::gradient::sweep_step;
use crate::gradient::swept;
use crate::scalar::Scalar;
use crate::tape::binary_node;
use crate::tape::leaf_node;
use crate::tape::nodes_wf;
use crate::tape::unary_node;
use crate::tape::Node;
use crate::tape::Tape;

verus! {

/// A tape of inputs only: node `j` is the leaf record for index `j`.
pub open spec fn all_leaves<T: Scalar>(nodes: Seq<Node<T>>) -> bool {
    forall|j: int| 0 <= j < nodes.len() ==> (#[trigger] nodes[j]) == leaf_node::<T>(j as usize)
}

/// Topological safety: on a well-formed tape, both parent indices of every
/// node lie at or below the node's own index.
pub proof fn lemma_topological_order<T: Scalar>(t: Tape<T>, i: int)
    requires
        t.wf(),
        0 <= i < t@.len(),
    ensures
        t@[i].parent0 <= i,
        t@[i].parent1 <= i,
{
}

/// A backward step through a leaf changes nothing: its self-edges carry
/// partial zero, and adding `adjoint * 0` writes every touched slot back
/// unchanged.
pub proof fn lemma_leaf_step_identity<T: Scalar>(i: usize, g: Seq<T>)
    requires
        (i as int) < g.len(),
    ensures
        sweep_step(leaf_node::<T>(i), g, i as int) == g,
{
    let a = g[i as int];
    T::law_mul_zero(a);
    T::law_add_zero(a);
    let g0 = g.update(i as int, T::add_spec(g[i as int], T::mul_spec(a, T::zero_spec())));
    assert(g0 =~= g);
    let g1 = g0.update(i as int, T::add_spec(g0[i as int], T::mul_spec(a, T::zero_spec())));
    assert(g1 =~= g);
}

/// A backward step through a one-parent node is a single accumulation into
/// the parent slot; the self-edge with partial zero adds nothing.
pub proof fn lemma_unary_step_effect<T: Scalar>(p: usize, d: T, i: usize, g: Seq<T>)
    requires
        (p as int) < g.len(),
        (i as int) < g.len(),
        p != i,
    ensures
        sweep_step(unary_node::<T>(p, d, i), g, i as int) == g.update(
            p as int,
            T::add_spec(g[p as int], T::mul_spec(g[i as int], d)),
        ),
{
    let a = g[i as int];
    T::law_mul_zero(a);
    let g0 = g.update(p as int, T::add_spec(g[p as int], T::mul_spec(a, d)));
    T::law_add_zero(g0[i as int]);
    assert(g0.update(i as int, T::add_spec(g0[i as int], T::mul_spec(a, T::zero_spec()))) =~= g0);
}

/// Sweeping across a stretch of leaves leaves the adjoint vector as it was.
pub proof fn lemma_swept_leaf_range<T: Scalar>(nodes: Seq<Node<T>>, k: int, lo: int, hi: int)
    requires
        nodes_wf(nodes),
        nodes.len() <= usize::MAX,
        0 <= lo <= hi <= nodes.len(),
        forall|j: int| lo <= j < hi ==> (#[trigger] nodes[j]) == leaf_node::<T>(j as usize),
    ensures
        swept(nodes, k, lo) == swept(nodes, k, hi),
    decreases hi - lo,
{
    if lo < hi {
        lemma_swept_leaf_range(nodes, k, lo + 1, hi);
        lemma_swept_len(nodes, k, lo + 1);
        lemma_leaf_step_identity::<T>(lo as usize, swept(nodes, k, lo + 1));
    }
}

/// A constant function has zero gradient, and an input's gradient with
/// respect to itself is one: accumulating a leaf `k` on a tape of inputs
/// only yields an adjoint of one at `k` and zero at every other leaf.
pub proof fn lemma_constant_has_zero_gradient<T: Scalar>(nodes: Seq<Node<T>>, k: int, j: int)
    requires
        all_leaves(nodes),
        nodes.len() <= usize::MAX,
        0 <= k < nodes.len(),
        0 <= j < nodes.len(),
    ensures
        adjoint_seq(nodes, k)[k] == T::one_spec(),
        j != k ==> adjoint_seq(nodes, k)[j] == T::zero_spec(),
{
    assert(nodes_wf(nodes)) by {
        assert forall|i: int|
            0 <= i < nodes.len() implies (#[trigger] nodes[i]).parent0 <= i
            && nodes[i].parent1 <= i by {
            assert(nodes[i] == leaf_node::<T>(i as usize));
        }
    }
    lemma_swept_leaf_range(nodes, k, 0, nodes.len() as int);
    assert(swept(nodes, k, nodes.len() as int) == init_adjoints::<T>(nodes.len(), k));
}

/// The adjoints of one two-parent node atop a tape of inputs: each parent
/// receives its recorded partial; when both edges share one parent, the two
/// partials accumulate rather than overwrite; the terminal keeps adjoint
/// one; every other leaf stays at zero.
pub proof fn lemma_binary_terminal<T: Scalar>(base: Seq<Node<T>>, p0: usize, d0: T, p1: usize, d1: T)
    requires
        all_leaves(base),
        base.len() < usize::MAX,
        (p0 as int) < base.len(),
        (p1 as int) < base.len(),
    ensures
        ({
            let nodes = base.push(binary_node::<T>(p0, d0, p1, d1));
            let k = base.len() as int;
            let g = adjoint_seq(nodes, k);
            &&& g.len() == nodes.len()
            &&& g[k] == T::one_spec()
            &&& (p0 != p1 ==> g[p0 as int] == d0 && g[p1 as int] == d1)
            &&& (p0 == p1 ==> g[p0 as int] == T::add_spec(d0, d1))
            &&& forall|j: int|
                0 <= j < base.len() && j != p0 && j != p1 ==> adjoint_seq(nodes, k)[j]
                    == T::zero_spec()
        }),
{
    let nodes = base.push(binary_node::<T>(p0, d0, p1, d1));
    let k = base.len() as int;
    assert(nodes_wf(nodes)) by {
        assert forall|i: int|
            0 <= i < nodes.len() implies (#[trigger] nodes[i]).parent0 <= i
            && nodes[i].parent1 <= i by {
            if i < k {
                assert(nodes[i] == base[i]);
                assert(base[i] == leaf_node::<T>(i as usize));
            }
        }
    }
    let init = init_adjoints::<T>(nodes.len(), k);
    assert(swept(nodes, k, k + 1) == init);
    T::law_one_mul(d0);
    T::law_one_mul(d1);
    T::law_add_zero(d0);
    T::law_add_zero(d1);
    let g0 = init.update(p0 as int, T::add_spec(init[p0 as int], T::mul_spec(init[k], d0)));
    assert(g0[p0 as int] == d0);
    let g2 = g0.update(p1 as int, T::add_spec(g0[p1 as int], T::mul_spec(init[k], d1)));
    assert(swept(nodes, k, k) == g2);
    if p0 == p1 {
        assert(g2[p0 as int] == T::add_spec(d0, d1));
    } else {
        assert(g2[p0 as int] == d0 && g2[p1 as int] == d1);
    }
    assert forall|j: int| 0 <= j < k implies (#[trigger] nodes[j]) == leaf_node::<T>(
        j as usize,
    ) by {
        assert(nodes[j] == base[j]);
    }
    lemma_swept_leaf_range(nodes, k, 0, k);
}

/// The product rule: accumulating `x * y` (whose record carries the
/// opposite operand values as partials, as `Variable::mul` ensures) gives
/// the other factor's value at each input.
pub proof fn lemma_product_rule<T: Scalar>(base: Seq<Node<T>>, x: usize, y: usize, xv: T, yv: T)
    requires
        all_leaves(base),
        base.len() < usize::MAX,
        (x as int) < base.len(),
        (y as int) < base.len(),
        x != y,
    ensures
        ({
            let nodes = base.push(binary_node::<T>(x, yv, y, xv));
            let g = adjoint_seq(nodes, base.len() as int);
            g[x as int] == yv && g[y as int] == xv
        }),
{
    lemma_binary_terminal(base, x, yv, y, xv);
}

/// The quotient rule: accumulating `x / y` (whose record carries partials
/// `1/y` and `-x/(y*y)`, as `Variable::div` ensures) gives exactly those
/// partials at the inputs.
pub proof fn lemma_quotient_rule<T: Scalar>(base: Seq<Node<T>>, x: usize, y: usize, xv: T, yv: T)
    requires
        all_leaves(base),
        base.len() < usize::MAX,
        (x as int) < base.len(),
        (y as int) < base.len(),
        x != y,
    ensures
        ({
            let d0 = T::recip_spec(yv);
            let d1 = T::neg_spec(T::div_spec(xv, T::mul_spec(yv, yv)));
            let nodes = base.push(binary_node::<T>(x, d0, y, d1));
            let g = adjoint_seq(nodes, base.len() as int);
            g[x as int] == d0 && g[y as int] == d1
        }),
{
    lemma_binary_terminal(
        base,
        x,
        T::recip_spec(yv),
        y,
        T::neg_spec(T::div_spec(xv, T::mul_spec(yv, yv))),
    );
}

/// Duplicate-use aliasing: accumulating `x + x` (one addition record with
/// both parents at `x`, partials one and one) gives `1 + 1` at `x` — the
/// two contributions accumulate instead of overwriting one another.
pub proof fn lemma_duplicate_use<T: Scalar>(base: Seq<Node<T>>, x: usize)
    requires
        all_leaves(base),
        base.len() < usize::MAX,
        (x as int) < base.len(),
    ensures
        ({
            let nodes = base.push(binary_node::<T>(x, T::one_spec(), x, T::one_spec()));
            let g = adjoint_seq(nodes, base.len() as int);
            g[x as int] == T::add_spec(T::one_spec(), T::one_spec())
        }),
{
    lemma_binary_terminal(base, x, T::one_spec(), x, T::one_spec());
}

/// Linearity: accumulating `alpha*x + beta*y`, recorded as two scalings
/// (one-parent nodes carrying `alpha` and `beta`) joined by an addition,
/// gives exactly `alpha` at `x` and `beta` at `y`.
pub proof fn lemma_linearity<T: Scalar>(
    base: Seq<Node<T>>,
    x: usize,
    y: usize,
    alpha: T,
    beta: T,
    m: usize,
)
    requires
        all_leaves(base),
        m as int == base.len(),
        m <= usize::MAX - 3,
        (x as int) < base.len(),
        (y as int) < base.len(),
        x != y,
    ensures
        ({
            let nodes = base.push(unary_node::<T>(x, alpha, m)).push(
                unary_node::<T>(y, beta, (m + 1) as usize),
            ).push(binary_node::<T>(m, T::one_spec(), (m + 1) as usize, T::one_spec()));
            let g = adjoint_seq(nodes, m + 2);
            g[x as int] == alpha && g[y as int] == beta
        }),
{
    let one = T::one_spec();
    let nodes = base.push(unary_node::<T>(x, alpha, m)).push(
        unary_node::<T>(y, beta, (m + 1) as usize),
    ).push(binary_node::<T>(m, one, (m + 1) as usize, one));
    let k: int = m + 2;
    assert(nodes_wf(nodes)) by {
        assert forall|i: int|
            0 <= i < nodes.len() implies (#[trigger] nodes[i]).parent0 <= i
            && nodes[i].parent1 <= i by {
            if i < m {
                assert(nodes[i] == base[i]);
                assert(base[i] == leaf_node::<T>(i as usize));
            }
        }
    }
    let init = init_adjoints::<T>(nodes.len(), k);
    assert(swept(nodes, k, k + 1) == init);
    T::law_one_mul(one);
    T::law_add_zero(one);
    let g0 = init.update(m as int, T::add_spec(init[m as int], T::mul_spec(init[k], one)));
    assert(g0[m as int] == one);
    let g2 = g0.update(m + 1, T::add_spec(g0[m + 1], T::mul_spec(init[k], one)));
    assert(swept(nodes, k, k) == g2);
    assert(g2[m + 1] == one);
    lemma_unary_step_effect::<T>(y, beta, (m + 1) as usize, g2);
    T::law_one_mul(beta);
    T::law_add_zero(beta);
    let g3 = g2.update(y as int, T::add_spec(g2[y as int], T::mul_spec(g2[m + 1], beta)));
    assert(swept(nodes, k, m + 1) == g3);
    assert(g3[y as int] == beta);
    assert(g3[m as int] == one);
    lemma_unary_step_effect::<T>(x, alpha, m, g3);
    T::law_one_mul(alpha);
    T::law_add_zero(alpha);
    let g4 = g3.update(x as int, T::add_spec(g3[x as int], T::mul_spec(g3[m as int], alpha)));
    assert(swept(nodes, k, m as int) == g4);
    assert(g4[x as int] == alpha && g4[y as int] == beta);
    assert forall|j: int| 0 <= j < m implies (#[trigger] nodes[j]) == leaf_node::<T>(
        j as usize,
    ) by {
        assert(nodes[j] == base[j]);
    }
    lemma_swept_leaf_range(nodes, k, 0, m as int);
}

/// The chain rule through one one-parent operation: accumulating `u(w)`
/// where `w` is a two-parent record over inputs `x` and `y` gives
/// `u' * dw/dx` at `x` and `u' * dw/dy` at `y`, with `u'` the partial the
/// outer record carries.
pub proof fn lemma_chain_rule<T: Scalar>(
    base: Seq<Node<T>>,
    x: usize,
    y: usize,
    d0: T,
    d1: T,
    du: T,
    m: usize,
)
    requires
        all_leaves(base),
        m as int == base.len(),
        m <= usize::MAX - 2,
        (x as int) < base.len(),
        (y as int) < base.len(),
        x != y,
    ensures
        ({
            let nodes = base.push(binary_node::<T>(x, d0, y, d1)).push(
                unary_node::<T>(m, du, (m + 1) as usize),
            );
            let g = adjoint_seq(nodes, m + 1);
            g[x as int] == T::mul_spec(du, d0) && g[y as int] == T::mul_spec(du, d1)
        }),
{
    let nodes = base.push(binary_node::<T>(x, d0, y, d1)).push(
        unary_node::<T>(m, du, (m + 1) as usize),
    );
    let k: int = m + 1;
    assert(nodes_wf(nodes)) by {
        assert forall|i: int|
            0 <= i < nodes.len() implies (#[trigger] nodes[i]).parent0 <= i
            && nodes[i].parent1 <= i by {
            if i < m {
                assert(nodes[i] == base[i]);
                assert(base[i] == leaf_node::<T>(i as usize));
            }
        }
    }
    let init = init_adjoints::<T>(nodes.len(), k);
    assert(swept(nodes, k, k + 1) == init);
    lemma_unary_step_effect::<T>(m, du, (m + 1) as usize, init);
    T::law_one_mul(du);
    T::law_add_zero(du);
    let g2 = init.update(m as int, T::add_spec(init[m as int], T::mul_spec(init[k], du)));
    assert(swept(nodes, k, k) == g2);
    assert(g2[m as int] == du);
    T::law_add_zero(T::mul_spec(du, d0));
    T::law_add_zero(T::mul_spec(du, d1));
    let g3 = g2.update(x as int, T::add_spec(g2[x as int], T::mul_spec(g2[m as int], d0)));
    assert(g3[x as int] == T::mul_spec(du, d0));
    let g4 = g3.update(y as int, T::add_spec(g3[y as int], T::mul_spec(g2[m as int], d1)));
    assert(swept(nodes, k, m as int) == g4);
    assert(g4[y as int] == T::mul_spec(du, d1));
    assert forall|j: int| 0 <= j < m implies (#[trigger] nodes[j]) == leaf_node::<T>(
        j as usize,
    ) by {
        assert(nodes[j] == base[j]);
    }
    lemma_swept_leaf_range(nodes, k, 0, m as int);
}

/// The chain rule on `sin(x*y)`: the gradient is `cos(x*y)*y` at `x` and
/// `cos(x*y)*x` at `y` — the product record carries the opposite operand
/// values, the sine record carries the cosine of the product.
pub proof fn lemma_chain_rule_sine_of_product<T: Scalar>(
    base: Seq<Node<T>>,
    x: usize,
    y: usize,
    xv: T,
    yv: T,
    m: usize,
)
    requires
        all_leaves(base),
        m as int == base.len(),
        m <= usize::MAX - 2,
        (x as int) < base.len(),
        (y as int) < base.len(),
        x != y,
    ensures
        ({
            let du = T::cos_spec(T::mul_spec(xv, yv));
            let nodes = base.push(binary_node::<T>(x, yv, y, xv)).push(
                unary_node::<T>(m, du, (m + 1) as usize),
            );
            let g = adjoint_seq(nodes, m + 1);
            g[x as int] == T::mul_spec(du, yv) && g[y as int] == T::mul_spec(du, xv)
        }),
{
    lemma_chain_rule(base, x, y, yv, xv, T::cos_spec(T::mul_spec(xv, yv)), m);
}

/// Threefold aliasing: accumulating `x + x + x`, recorded as two additions,
/// gives `(1 + 1) + 1` at `x` — each use of the input contributes once.
pub proof fn lemma_triple_alias<T: Scalar>(base: Seq<Node<T>>, x: usize, m: usize)
    requires
        all_leaves(base),
        m as int == base.len(),
        m <= usize::MAX - 2,
        (x as int) < base.len(),
    ensures
        ({
            let one = T::one_spec();
            let nodes = base.push(binary_node::<T>(x, one, x, one)).push(
                binary_node::<T>(m, one, x, one),
            );
            let g = adjoint_seq(nodes, m + 1);
            g[x as int] == T::add_spec(T::add_spec(one, one), one)
        }),
{
    let one = T::one_spec();
    let nodes = base.push(binary_node::<T>(x, one, x, one)).push(
        binary_node::<T>(m, one, x, one),
    );
    let k: int = m + 1;
    assert(nodes_wf(nodes)) by {
        assert forall|i: int|
            0 <= i < nodes.len() implies (#[trigger] nodes[i]).parent0 <= i
            && nodes[i].parent1 <= i by {
            if i < m {
                assert(nodes[i] == base[i]);
                assert(base[i] == leaf_node::<T>(i as usize));
            }
        }
    }
    let init = init_adjoints::<T>(nodes.len(), k);
    assert(swept(nodes, k, k + 1) == init);
    T::law_one_mul(one);
    T::law_add_zero(one);
    let g0 = init.update(m as int, T::add_spec(init[m as int], T::mul_spec(init[k], one)));
    assert(g0[m as int] == one);
    let g2 = g0.update(x as int, T::add_spec(g0[x as int], T::mul_spec(init[k], one)));
    assert(swept(nodes, k, k) == g2);
    assert(g2[x as int] == one);
    assert(g2[m as int] == one);
    let two = T::add_spec(one, one);
    let g3 = g2.update(x as int, T::add_spec(g2[x as int], T::mul_spec(g2[m as int], one)));
    assert(g3[x as int] == two);
    let g4 = g3.update(x as int, T::add_spec(g3[x as int], T::mul_spec(g2[m as int], one)));
    assert(swept(nodes, k, m as int) == g4);
    assert(g4[x as int] == T::add_spec(two, one));
    assert forall|j: int| 0 <= j < m implies (#[trigger] nodes[j]) == leaf_node::<T>(
        j as usize,
    ) by {
        assert(nodes[j] == base[j]);
    }
    lemma_swept_leaf_range(nodes, k, 0, m as int);
}

/// A complete consumer pass with its result pinned end to end: mint two
/// inputs on a fresh tape, record their product, accumulate, and read the
/// gradient — exactly the opposite operand values, in any scalar algebra.
pub fn gradient_of_product<T: Scalar>(xv: T, yv: T) -> (r: (T, T))
    ensures
        r.0 == yv,
        r.1 == xv,
{
    let mut t: Tape<T> = Tape::new();
    let x = t.var(xv);
    let y = t.var(yv);
    let ghost base = t@;
    let z = x.mul(&mut t, y);
    proof {
        assert forall|j: int| 0 <= j < base.len() implies (#[trigger] base[j]) == leaf_node::<T>(
            j as usize,
        ) by {
            if j == 0 {
                assert(base[0] == leaf_node::<T>(0usize));
            } else {
                assert(base[1] == leaf_node::<T>(1usize));
            }
        }
        lemma_product_rule(base, x.index, y.index, xv, yv);
    }
    let g = z.accumulate(&t);
    let dx = g.wrt(&x);
    let dy = g.wrt(&y);
    (dx, dy)
}

/// A complete consumer pass over an aliased input: record `x + x` on a
/// fresh tape and accumulate; the gradient read back is one plus one — the
/// two uses accumulate.
pub fn gradient_of_duplicate_sum<T: Scalar>(xv: T) -> (r: T)
    ensures
        r == T::add_spec(T::one_spec(), T::one_spec()),
{
    let mut t: Tape<T> = Tape::new();
    let x = t.var(xv);
    let ghost base = t@;
    let s = x.add(&mut t, x);
    proof {
        assert forall|j: int| 0 <= j < base.len() implies (#[trigger] base[j]) == leaf_node::<T>(
            j as usize,
        ) by {
            assert(base[0] == leaf_node::<T>(0usize));
        }
        lemma_duplicate_use(base, x.index);
    }
    let g = s.accumulate(&t);
    g.wrt(&x)
}

} // verus!
