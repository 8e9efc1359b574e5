//! Putting records in order by a key.

use vstd::prelude::*;

verus! {

/// Record `a` comes before record `b`: its key is smaller, or it is the earlier of two with the same
/// key.
pub open spec fn comes_before(keys: Seq<i128>, a: int, b: int) -> bool {
    keys[a] < keys[b] || keys[a] == keys[b] && a < b
}

/// The list holds each record that is chosen, and no other, in order.
pub open spec fn in_order(list: Seq<usize>, keys: Seq<i128>, chosen: Seq<bool>) -> bool {
    &&& forall|i: int| 0 <= i < list.len() ==> (#[trigger] list[i]) < keys.len()
    &&& forall|i: int, j: int|
        0 <= i < j < list.len() ==> comes_before(
            keys,
            (#[trigger] list[i]) as int,
            (#[trigger] list[j]) as int,
        )
    &&& forall|k: int| 0 <= k < keys.len() ==> (#[trigger] chosen[k] <==> listed(list, k))
}

/// The list holds record `k`.
pub open spec fn listed(list: Seq<usize>, k: int) -> bool {
    exists|i: int| 0 <= i < list.len() && (#[trigger] list[i]) == k
}

/// There is only one order.
pub proof fn order_is_unique(
    list: Seq<usize>,
    other: Seq<usize>,
    keys: Seq<i128>,
    chosen: Seq<bool>,
)
    requires
        keys.len() <= usize::MAX,
        keys.len() == chosen.len(),
        in_order(list, keys, chosen),
        in_order(other, keys, chosen),
    ensures
        list == other,
{
    same_so_far(list, other, keys, chosen, list.len() as int);
    same_so_far(other, list, keys, chosen, other.len() as int);
    assert(list =~= other);
}

proof fn same_so_far(
    list: Seq<usize>,
    other: Seq<usize>,
    keys: Seq<i128>,
    chosen: Seq<bool>,
    n: int,
)
    requires
        0 <= n <= list.len(),
        keys.len() == chosen.len(),
        in_order(list, keys, chosen),
        in_order(other, keys, chosen),
    ensures
        n <= other.len(),
        forall|i: int| 0 <= i < n ==> list[i] == other[i],
    decreases n,
{
    if n > 0 {
        same_so_far(list, other, keys, chosen, n - 1);
        let i = n - 1;
        let a = list[i] as int;
        assert(listed(list, a));
        assert(chosen[a]);
        assert(listed(other, a));
        let j = choose|j: int| 0 <= j < other.len() && (#[trigger] other[j]) == a;
        if j < i {
            assert(list[j] == other[j]);
            assert(comes_before(keys, list[j] as int, list[i] as int));
        } else if j > i {
            let b = other[i] as int;
            assert(comes_before(keys, other[i] as int, other[j] as int));
            assert(listed(other, b));
            assert(chosen[b]);
            assert(listed(list, b));
            let k = choose|k: int| 0 <= k < list.len() && (#[trigger] list[k]) == b;
            if k < i {
                assert(list[k] == other[k]);
                assert(comes_before(keys, other[k] as int, other[i] as int));
            } else if k > i {
                assert(comes_before(keys, list[i] as int, list[k] as int));
            }
        }
    }
}

/// The records that are chosen, in order.
pub fn ordered(keys: &Vec<i128>, chosen: &Vec<bool>) -> (r: Vec<usize>)
    requires
        keys@.len() == chosen@.len(),
    ensures
        in_order(r@, keys@, chosen@),
{
    let mut list: Vec<usize> = Vec::new();
    let mut n: usize = 0;
    while n < keys.len()
        invariant
            n <= keys@.len(),
            keys@.len() == chosen@.len(),
            list@.len() <= n,
            forall|i: int| 0 <= i < list@.len() ==> (#[trigger] list@[i]) < n,
            forall|i: int, j: int|
                0 <= i < j < list@.len() ==> comes_before(
                    keys@,
                    (#[trigger] list@[i]) as int,
                    (#[trigger] list@[j]) as int,
                ),
            forall|k: int| 0 <= k < n ==> (#[trigger] chosen@[k] <==> listed(list@, k)),
        decreases keys@.len() - n,
    {
        let ghost before = list@;
        if chosen[n] {
            let mut at: usize = list.len();
            while at > 0 && keys[n] < keys[list[at - 1]]
                invariant
                    n < keys@.len(),
                    at <= list@.len(),
                    list@ == before,
                    forall|i: int| 0 <= i < list@.len() ==> (#[trigger] list@[i]) < n,
                    forall|i: int|
                        at <= i < list@.len() ==> keys@[n as int] < keys@[(
                        #[trigger] list@[i]) as int],
                decreases at,
            {
                at = at - 1;
            }
            list.insert(at, n);
            proof {
                assert(list@ == before.insert(at as int, n));
                assert forall|i: int, j: int| 0 <= i < j < list@.len() implies comes_before(
                    keys@,
                    (#[trigger] list@[i]) as int,
                    (#[trigger] list@[j]) as int,
                ) by {
                    let oi = if i < at { i } else { i - 1 };
                    let oj = if j < at { j } else { j - 1 };
                    if i != at && j != at {
                        assert(list@[i] == before[oi]);
                        assert(list@[j] == before[oj]);
                    } else if j == at {
                        assert(list@[i] == before[i]);
                        if i < at - 1 {
                            assert(comes_before(
                                keys@,
                                before[i] as int,
                                before[at - 1] as int,
                            ));
                        }
                    } else {
                        assert(list@[j] == before[oj]);
                    }
                }
                assert forall|k: int| 0 <= k < n + 1 implies (#[trigger] chosen@[k] <==> listed(
                    list@,
                    k,
                )) by {
                    if k == n {
                        assert(list@[at as int] == n);
                    } else {
                        if listed(before, k) {
                            let i = choose|i: int|
                                0 <= i < before.len() && (#[trigger] before[i]) == k;
                            let ni = if i < at { i } else { i + 1 };
                            assert(list@[ni] == before[i]);
                        }
                        if listed(list@, k) {
                            let i = choose|i: int|
                                0 <= i < list@.len() && (#[trigger] list@[i]) == k;
                            let oi = if i < at { i } else { i - 1 };
                            assert(before[oi] == list@[i]);
                        }
                    }
                }
            }
        }
        n = n + 1;
    }
    list
}

} // verus!
