//! The order in which a batch runs: ascending by each operation's `order`
//! value, ties kept in the order given.

use vstd::prelude::*;

verus! {

/// Operation `i` runs before operation `j`.
pub open spec fn runs_before(orders: Seq<u32>, i: int, j: int) -> bool {
    orders[i] < orders[j] || (orders[i] == orders[j] && i < j)
}

/// Position `j` occurs in `p`.
pub open spec fn lists(p: Seq<usize>, j: int) -> bool {
    exists|a: int| 0 <= a < p.len() && p[a] == j
}

/// `p` lists every position of `orders` once, ascending by `order` and, among
/// equal values, by position.
pub open spec fn is_execution_order(orders: Seq<u32>, p: Seq<usize>) -> bool {
    &&& p.len() == orders.len()
    &&& forall|a: int| 0 <= a < p.len() ==> p[a] < orders.len()
    &&& forall|j: int| 0 <= j < orders.len() ==> #[trigger] lists(p, j)
    &&& forall|a: int, b: int|
        0 <= a < b < p.len() ==> #[trigger] runs_before(orders, p[a] as int, p[b] as int)
}

/// The positions of `orders` in the order in which their operations run.
pub fn execution_order(orders: &Vec<u32>) -> (r: Vec<usize>)
    ensures
        is_execution_order(orders@, r@),
{
    let n = orders.len();
    let mut p: Vec<usize> = Vec::new();
    let mut k: usize = 0;
    while k < n
        invariant
            n == orders@.len(),
            k <= n,
            p@.len() == k,
            forall|a: int| 0 <= a < p@.len() ==> p@[a] < k,
            forall|j: int| 0 <= j < k ==> #[trigger] lists(p@, j),
            forall|a: int, b: int|
                0 <= a < b < p@.len() ==> #[trigger] runs_before(orders@, p@[a] as int, p@[b] as int),
        decreases n - k,
    {
        let ok = orders[k];
        let mut pos: usize = 0;
        while pos < p.len() && orders[p[pos]] <= ok
            invariant
                pos <= p@.len(),
                n == orders@.len(),
                forall|a: int| 0 <= a < p@.len() ==> p@[a] < k,
                k < n,
                ok == orders@[k as int],
                forall|a: int| 0 <= a < pos ==> orders@[p@[a] as int] <= ok,
            decreases p@.len() - pos,
        {
            pos = pos + 1;
        }
        let ghost old_p = p@;
        assert forall|a: int| pos <= a < old_p.len() implies orders@[old_p[a] as int] > ok by {
            if a > pos {
                assert(runs_before(orders@, old_p[pos as int] as int, old_p[a] as int));
            }
        }
        p.insert(pos, k);
        assert(p@ == old_p.insert(pos as int, k));
        assert forall|j: int| 0 <= j < k + 1 implies #[trigger] lists(p@, j) by {
            if j == k {
                assert(p@[pos as int] == j);
            } else {
                assert(lists(old_p, j));
                let a = choose|a: int| 0 <= a < old_p.len() && old_p[a] == j;
                if a < pos {
                    assert(p@[a] == j);
                } else {
                    assert(p@[a + 1] == j);
                }
            }
        }
        assert forall|a: int, b: int| 0 <= a < b < p@.len() implies #[trigger] runs_before(orders@, p@[a] as int, p@[b] as int) by {
            if b < pos {
                assert(runs_before(orders@, old_p[a] as int, old_p[b] as int));
            } else if b == pos {
                assert(orders@[old_p[a] as int] <= ok);
            } else if a > pos {
                assert(runs_before(orders@, old_p[a - 1] as int, old_p[b - 1] as int));
            } else if a == pos {
                assert(orders@[old_p[b - 1] as int] > ok);
            } else {
                assert(runs_before(orders@, old_p[a] as int, old_p[b - 1] as int));
            }
        }
        k = k + 1;
    }
    p
}

/// Operations with equal `order` values run in the order in which they were given.
pub proof fn ties_keep_given_order(orders: Seq<u32>, p: Seq<usize>, a: int, b: int)
    requires
        is_execution_order(orders, p),
        0 <= a < b < p.len(),
        orders[p[a] as int] == orders[p[b] as int],
    ensures
        p[a] < p[b],
{
    assert(runs_before(orders, p[a] as int, p[b] as int));
}

/// With distinct `order` values, operations run strictly ascending by `order`.
pub proof fn distinct_orders_run_ascending(orders: Seq<u32>, p: Seq<usize>, a: int, b: int)
    requires
        is_execution_order(orders, p),
        forall|i: int, j: int| 0 <= i < j < orders.len() ==> orders[i] != orders[j],
        0 <= a < b < p.len(),
    ensures
        orders[p[a] as int] < orders[p[b] as int],
{
    assert(runs_before(orders, p[a] as int, p[b] as int));
    if p[a] < p[b] {
        assert(orders[p[a] as int] != orders[p[b] as int]);
    } else if p[a] > p[b] {
        assert(orders[p[b] as int] != orders[p[a] as int]);
    }
}

/// With distinct `order` values, swapping the values of operations `i` and `j`
/// swaps which of the two runs first.
pub proof fn swapped_orders_swap_execution(
    orders: Seq<u32>,
    p: Seq<usize>,
    q: Seq<usize>,
    i: int,
    j: int,
    a: int,
    b: int,
    c: int,
    d: int,
)
    requires
        forall|x: int, y: int| 0 <= x < y < orders.len() ==> orders[x] != orders[y],
        0 <= i < orders.len(),
        0 <= j < orders.len(),
        i != j,
        is_execution_order(orders, p),
        is_execution_order(orders.update(i, orders[j]).update(j, orders[i]), q),
        0 <= a < b < p.len(),
        p[a] == i,
        p[b] == j,
        0 <= c < q.len(),
        0 <= d < q.len(),
        q[c] == i,
        q[d] == j,
    ensures
        d < c,
{
    let swapped = orders.update(i, orders[j]).update(j, orders[i]);
    distinct_orders_run_ascending(orders, p, a, b);
    assert(swapped[i] == orders[j]);
    assert(swapped[j] == orders[i]);
    if c < d {
        assert(runs_before(swapped, q[c] as int, q[d] as int));
    }
}

} // verus!
