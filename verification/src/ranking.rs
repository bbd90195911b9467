//! Putting things in order by a preference, ties in the order they came.

use vstd::prelude::*;

verus! {

/// A preference between values: a strict order in which values that neither
/// outranks the other count as equal.
pub trait Ranked: Sized {
    /// `self` goes before `other`.
    spec fn outranks(self, other: Self) -> bool;

    /// Nothing outranks what outranks it.
    proof fn outranking_is_one_sided(a: Self, b: Self)
        requires
            a.outranks(b),
        ensures
            !b.outranks(a),
    ;

    /// What outranks a value outranks all that is no better than that value.
    proof fn outranking_carries_over(a: Self, b: Self, c: Self)
        requires
            a.outranks(b),
            !c.outranks(b),
        ensures
            a.outranks(c),
    ;

    /// Whether `self` goes before `other`.
    fn goes_before(&self, other: &Self) -> (r: bool)
        ensures
            r == self.outranks(*other),
    ;
}

/// Item `x` of the list comes before item `y` in its ranking: it outranks it,
/// or neither outranks the other and it came first.
pub open spec fn ranks_before<T: Ranked>(items: Seq<T>, x: int, y: int) -> bool {
    items[x].outranks(items[y]) || (!items[y].outranks(items[x]) && x < y)
}

/// Position `x` stands in `order`.
pub open spec fn lists_position(order: Seq<usize>, x: int) -> bool {
    exists|i: int| 0 <= i < order.len() && order[i] == x
}

/// `order` lists the positions `0` to `n - 1`, each once.
pub open spec fn lists_positions(order: Seq<usize>, n: int) -> bool {
    &&& order.len() == n
    &&& forall|i: int| 0 <= i < n ==> 0 <= #[trigger] order[i] < n
    &&& forall|i: int, j: int| 0 <= i < j < n ==> order[i] != order[j]
    &&& forall|x: int| 0 <= x < n ==> #[trigger] lists_position(order, x)
}

/// `order` lists the positions of `items`, each once, in ranking order.
pub open spec fn is_ranking<T: Ranked>(items: Seq<T>, order: Seq<usize>) -> bool {
    &&& lists_positions(order, items.len() as int)
    &&& forall|i: int, j: int|
        0 <= i < j < order.len() ==> ranks_before(
            items,
            #[trigger] order[i] as int,
            #[trigger] order[j] as int,
        )
}

/// The positions of `items` in ranking order.
pub fn ranking<T: Ranked>(items: &Vec<T>) -> (order: Vec<usize>)
    ensures
        is_ranking(items@, order@),
{
    let mut order: Vec<usize> = Vec::new();
    let mut n: usize = 0;
    while n < items.len()
        invariant
            n <= items@.len(),
            lists_positions(order@, n as int),
            forall|i: int, j: int|
                0 <= i < j < order@.len() ==> ranks_before(
                    items@,
                    #[trigger] order@[i] as int,
                    #[trigger] order@[j] as int,
                ),
        decreases items@.len() - n,
    {
        let mut p: usize = 0;
        while p < order.len() && !items[n].goes_before(&items[order[p]])
            invariant
                n < items@.len(),
                p <= order@.len(),
                lists_positions(order@, n as int),
                forall|q: int|
                    0 <= q < p ==> !items@[n as int].outranks(items@[#[trigger] order@[q] as int]),
            decreases order@.len() - p,
        {
            p += 1;
        }
        let ghost before = order@;
        order.insert(p, n);
        proof {
            assert(order@ == before.insert(p as int, n));
            assert forall|x: int| 0 <= x < n + 1 implies #[trigger] lists_position(order@, x) by {
                if x == n {
                    assert(order@[p as int] == x);
                } else {
                    assert(lists_position(before, x));
                    let k = choose|k: int| 0 <= k < before.len() && before[k] == x;
                    assert(order@[if k < p {
                        k
                    } else {
                        k + 1
                    }] == x);
                }
            }
            assert forall|i: int, j: int| 0 <= i < j < order@.len() implies ranks_before(
                items@,
                #[trigger] order@[i] as int,
                #[trigger] order@[j] as int,
            ) by {
                if i == p {
                    let x = before[j - 1] as int;
                    if j - 1 > p {
                        assert(ranks_before(items@, before[p as int] as int, x));
                        if items@[before[p as int] as int].outranks(items@[x]) {
                            T::outranking_is_one_sided(items@[before[p as int] as int], items@[x]);
                        }
                        T::outranking_carries_over(
                            items@[n as int],
                            items@[before[p as int] as int],
                            items@[x],
                        );
                    }
                } else if j == p {
                    assert(order@[i] == before[i]);
                } else {
                    let a = if i < p {
                        i
                    } else {
                        i - 1
                    };
                    let b = if j < p {
                        j
                    } else {
                        j - 1
                    };
                    assert(order@[i] == before[a] && order@[j] == before[b]);
                }
            }
        }
        n += 1;
    }
    order
}

proof fn lemma_rankings_agree_up_to<T: Ranked>(
    items: Seq<T>,
    a: Seq<usize>,
    b: Seq<usize>,
    k: int,
)
    requires
        is_ranking(items, a),
        is_ranking(items, b),
        0 <= k <= items.len(),
    ensures
        forall|i: int| 0 <= i < k ==> a[i] == b[i],
    decreases k,
{
    if k > 0 {
        lemma_rankings_agree_up_to(items, a, b, k - 1);
        let x = a[k - 1];
        let y = b[k - 1];
        if x != y {
            assert(lists_position(b, x as int) && lists_position(a, y as int));
            let i = choose|i: int| 0 <= i < b.len() && b[i] == x as int;
            let j = choose|j: int| 0 <= j < a.len() && a[j] == y as int;
            assert(i >= k) by {
                if i < k - 1 {
                    assert(a[i] == b[i]);
                }
            }
            assert(j >= k) by {
                if j < k - 1 {
                    assert(a[j] == b[j]);
                }
            }
            assert(ranks_before(items, b[k - 1] as int, b[i] as int));
            assert(ranks_before(items, a[k - 1] as int, a[j] as int));
            if items[x as int].outranks(items[y as int]) {
                T::outranking_is_one_sided(items[x as int], items[y as int]);
            }
        }
    }
}

/// A list has one ranking only.
pub proof fn a_list_has_one_ranking<T: Ranked>(items: Seq<T>, a: Seq<usize>, b: Seq<usize>)
    requires
        is_ranking(items, a),
        is_ranking(items, b),
    ensures
        a == b,
{
    lemma_rankings_agree_up_to(items, a, b, items.len() as int);
    assert(a =~= b);
}

proof fn lemma_increasing(order: Seq<usize>, i: int)
    requires
        forall|a: int, b: int| 0 <= a < b < order.len() ==> order[a] < order[b],
        0 <= i < order.len(),
    ensures
        order[i] >= i,
    decreases i,
{
    if i > 0 {
        lemma_increasing(order, i - 1);
    }
}

proof fn lemma_increasing_from_above(order: Seq<usize>, i: int)
    requires
        forall|a: int, b: int| 0 <= a < b < order.len() ==> order[a] < order[b],
        order.last() < order.len(),
        0 <= i < order.len(),
    ensures
        order[i] <= i,
    decreases order.len() - i,
{
    if i < order.len() - 1 {
        lemma_increasing_from_above(order, i + 1);
    }
}

/// Where nothing outranks anything, the ranking is the order of the list.
pub proof fn equals_keep_their_order<T: Ranked>(items: Seq<T>, order: Seq<usize>)
    requires
        is_ranking(items, order),
        forall|x: int, y: int|
            0 <= x < items.len() && 0 <= y < items.len() ==> !(#[trigger] items[x]).outranks(
                #[trigger] items[y],
            ),
    ensures
        forall|i: int| 0 <= i < items.len() ==> order[i] == i,
{
    if items.len() > 0 {
        assert forall|i: int| 0 <= i < items.len() implies order[i] >= i by {
            lemma_increasing(order, i);
        }
        assert forall|i: int| 0 <= i < items.len() implies order[i] <= i by {
            lemma_increasing_from_above(order, i);
        }
    }
}

}
