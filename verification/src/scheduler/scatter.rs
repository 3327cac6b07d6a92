//! Moving items to given indices in place.

use vstd::prelude::*;

verus! {

/// Whether `order` holds each of `0..order.len()` once.
pub open spec fn is_permutation(order: Seq<u32>) -> bool {
    &&& forall|i: int| 0 <= i < order.len() ==> #[trigger] order[i] < order.len()
    &&& forall|i: int, j: int|
        0 <= i < j < order.len() ==> #[trigger] order[i] != #[trigger] order[j]
}

/// Whether `item` is the item of `data` that `order` sends to index `k`.
pub open spec fn sent_to<T>(data: Seq<T>, order: Seq<u32>, item: T, k: int) -> bool {
    exists|i: int| 0 <= i < order.len() && #[trigger] order[i] == k && item == data[i]
}

/// How many of the first `n` entries of `order` are not at their own index.
spec fn misplaced(order: Seq<u32>, n: nat) -> nat
    decreases n,
{
    if n == 0 {
        0
    } else {
        misplaced(order, (n - 1) as nat) + if order[n - 1] == n - 1 {
            0nat
        } else {
            1nat
        }
    }
}

/// Entries that reach their index and stay there leave fewer misplaced ones.
proof fn lemma_misplaced_shrinks(before: Seq<u32>, after: Seq<u32>, n: nat, placed: int)
    requires
        forall|k: int| 0 <= k < n && #[trigger] before[k] == k ==> after[k] == k,
    ensures
        misplaced(after, n) <= misplaced(before, n),
        0 <= placed < n && before[placed] != placed && after[placed] == placed ==> misplaced(
            after,
            n,
        ) < misplaced(before, n),
    decreases n,
{
    if n > 0 {
        lemma_misplaced_shrinks(before, after, (n - 1) as nat, placed);
        assert(before[n - 1] == n - 1 ==> after[n - 1] == n - 1);
    }
}

/// `<[T]>::swap` exchanges two items.
pub assume_specification<Item>[ <[Item]>::swap ](slice: &mut [Item], a: usize, b: usize)
    requires
        a < old(slice)@.len(),
        b < old(slice)@.len(),
    ensures
        final(slice)@ == old(slice)@.update(a as int, old(slice)@[b as int]).update(
            b as int,
            old(slice)@[a as int],
        ),
;

/// Move every `data[i]` to index `order[i]`. `order` is a permutation of
/// `0..data.len()`, used as scratch and left as the identity permutation.
pub fn scatter_in_place<T>(data: &mut [T], order: &mut [u32])
    requires
        old(data)@.len() == old(order)@.len(),
        is_permutation(old(order)@),
    ensures
        final(data)@.len() == old(data)@.len(),
        final(order)@.len() == old(order)@.len(),
        forall|i: int|
            0 <= i < old(data)@.len() ==> final(data)@[#[trigger] old(order)@[i] as int]
                == old(data)@[i],
        forall|k: int|
            #![trigger final(data)@[k]]
            0 <= k < old(data)@.len() ==> sent_to(old(data)@, old(order)@, final(data)@[k], k),
        forall|k: int| 0 <= k < old(order)@.len() ==> #[trigger] final(order)@[k] == k,
{
    let ghost first_data = data@;
    let ghost first_order = order@;
    let ghost mut source: Seq<int> = Seq::new(order@.len(), |k: int| k);
    let len: usize = data.len();
    let mut i: usize = 0;
    while i < len
        invariant
            i <= len,
            data@.len() == len,
            order@.len() == len,
            first_data.len() == len,
            first_order.len() == len,
            source.len() == len,
            is_permutation(first_order),
            is_permutation(order@),
            forall|k: int| 0 <= k < i ==> #[trigger] order@[k] == k,
            forall|k: int|
                0 <= k < len ==> {
                    &&& 0 <= #[trigger] source[k] < len
                    &&& data@[k] == first_data[source[k]]
                    &&& order@[k] == first_order[source[k]]
                },
        decreases len - i,
    {
        // Each swap parks at least one element at its final index, so the
        // inner loop runs at most `len` times in total.
        while order[i] as usize != i
            invariant
                i < len,
                data@.len() == len,
                order@.len() == len,
                first_data.len() == len,
                first_order.len() == len,
                source.len() == len,
                is_permutation(first_order),
                is_permutation(order@),
                forall|k: int| 0 <= k < i ==> #[trigger] order@[k] == k,
                forall|k: int|
                    0 <= k < len ==> {
                        &&& 0 <= #[trigger] source[k] < len
                        &&& data@[k] == first_data[source[k]]
                        &&& order@[k] == first_order[source[k]]
                    },
            decreases misplaced(order@, len as nat),
        {
            let j: usize = order[i] as usize;
            let ghost before = order@;
            data.swap(i, j);
            order.swap(i, j);
            proof {
                source = source.update(i as int, source[j as int]).update(
                    j as int,
                    source[i as int],
                );
                assert(order@[j as int] == j);
                lemma_misplaced_shrinks(before, order@, len as nat, j as int);
            }
        }
        i = i + 1;
    }
    proof {
        assert forall|k: int| 0 <= k < len implies data@[#[trigger] first_order[k] as int]
            == first_data[k] by {
            let target = first_order[k] as int;
            assert(order@[target] == target);
            assert(first_order[source[target]] == first_order[k]);
        }
        assert forall|k: int| #![trigger data@[k]] 0 <= k < len implies sent_to(
            first_data,
            first_order,
            data@[k],
            k,
        ) by {
            assert(order@[k] == k);
            assert(first_order[source[k]] == k);
        }
    }
}

} // verus!
