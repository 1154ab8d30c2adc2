//! Back-to-front ordering of the loaded splats.
//!
//! Splats are alpha-blended without an ordering guarantee from the depth
//! test, so the loader draws them back to front along one fixed reference
//! direction. Each triangle gets one sort key — larger key means further
//! along that direction — and the three splat arrays are reordered together
//! by descending key. The keys are order-preserving integer encodings of the
//! centroid projections; computing them is floating-point work and happens
//! outside this library, while everything the ordering promises (a
//! permutation, aligned across the arrays, monotone in the keys) is proved
//! here for whatever keys are handed in.

use crate::load::TSplat;
use vstd::prelude::*;

verus! {

/// `order` lists each index below `n` exactly once: applying it is a
/// permutation of `n` elements.
pub open spec fn is_reorder_of(order: Seq<usize>, n: int) -> bool {
    &&& order.len() == n
    &&& forall|i: int| 0 <= i < n ==> order[i] < n
    &&& forall|i: int, j: int| 0 <= i < j < n ==> order[i] != order[j]
}

/// The keys picked out by `order` never increase.
pub open spec fn descending_by(order: Seq<usize>, keys: Seq<u64>) -> bool {
    forall|i: int, j: int|
        0 <= i < j < order.len() ==> keys[order[i] as int] >= keys[order[j] as int]
}

/// `out` is `inp` rearranged by `order`.
pub open spec fn gathered<T>(out: Seq<T>, inp: Seq<T>, order: Seq<usize>) -> bool {
    &&& out.len() == order.len()
    &&& forall|i: int| 0 <= i < order.len() ==> out[i] == inp[order[i] as int]
}

/// Rearranging a sequence by a reorder keeps exactly its elements: the
/// gathered output holds the same multiset as the input.
pub proof fn lemma_reorder_preserves_multiset<T>(out: Seq<T>, inp: Seq<T>, order: Seq<usize>)
    requires
        is_reorder_of(order, inp.len() as int),
        gathered(out, inp, order),
    ensures
        out.to_multiset() == inp.to_multiset(),
    decreases inp.len(),
{
    broadcast use vstd::seq_lib::group_to_multiset_ensures;

    let n = inp.len() as int;
    if n == 0 {
        assert(out =~= inp);
    } else {
        let last = order[n - 1] as int;
        let tail = out.drop_last();
        let inp2 = inp.remove(last);
        let order2 = Seq::new(
            (n - 1) as nat,
            |i: int|
                if order[i] > order[n - 1] {
                    (order[i] - 1) as usize
                } else {
                    order[i]
                },
        );
        assert forall|i: int| 0 <= i < n - 1 implies order2[i] < n - 1 by {
            assert(order[i] != order[n - 1]);
        }
        assert forall|p: int, q: int| 0 <= p < q < n - 1 implies order2[p] != order2[q] by {
            assert(order[p] != order[q]);
            assert(order[p] != order[n - 1]);
            assert(order[q] != order[n - 1]);
        }
        assert forall|i: int| 0 <= i < n - 1 implies tail[i] == inp2[order2[i] as int] by {
            assert(out[i] == inp[order[i] as int]);
            assert(order[i] != order[n - 1]);
            if order[i] as int > last {
                assert(inp2[order[i] - 1] == inp[order[i] as int]);
            } else {
                assert(inp2[order[i] as int] == inp[order[i] as int]);
            }
        }
        lemma_reorder_preserves_multiset(tail, inp2, order2);
        assert(out =~= tail.push(out.last()));
        assert(out.last() == inp[last]);
        assert(tail.push(out.last()).to_multiset() =~= tail.to_multiset().insert(out.last()));
        assert(inp2.to_multiset() =~= inp.to_multiset().remove(inp[last]));
        assert(inp.contains(inp[last]));
        assert(inp.to_multiset().count(inp[last]) > 0);
        assert(out.to_multiset() =~= inp.to_multiset()) by {
            broadcast use vstd::multiset::group_multiset_axioms;

        }
    }
}

/// Compute the order that sorts `keys` into descending sequence: a
/// permutation of the key indices whose keys never increase. Ties keep no
/// particular order.
pub fn sort_order(keys: &Vec<u64>) -> (order: Vec<usize>)
    ensures
        is_reorder_of(order@, keys@.len() as int),
        descending_by(order@, keys@),
{
    let n = keys.len();
    let mut pairs: Vec<(u64, usize)> = Vec::new();
    let mut i: usize = 0;
    while i < n
        invariant
            0 <= i <= n,
            n == keys@.len(),
            pairs@.len() == i,
            forall|p: int| 0 <= p < i ==> (#[trigger] pairs@[p]).1 == p,
            forall|p: int| 0 <= p < i ==> (#[trigger] pairs@[p]).0 == keys@[p],
        decreases n - i,
    {
        pairs.push((keys[i], i));
        i += 1;
    }

    let mut i: usize = 1;
    while i < n
        invariant
            1 <= i <= n || (n == 0 && i == 1),
            n == keys@.len(),
            pairs@.len() == n,
            forall|p: int| 0 <= p < n ==> (#[trigger] pairs@[p]).1 < n,
            forall|p: int, q: int| 0 <= p < q < n ==> pairs@[p].1 != pairs@[q].1,
            forall|p: int| 0 <= p < n ==> (#[trigger] pairs@[p]).0 == keys@[pairs@[p].1 as int],
            forall|p: int, q: int| 0 <= p < q < i ==> pairs@[p].0 >= pairs@[q].0,
        decreases n - i,
    {
        let mut j: usize = i;
        while j > 0 && pairs[j - 1].0 < pairs[j].0
            invariant
                0 <= j <= i < n,
                n == keys@.len(),
                pairs@.len() == n,
                forall|p: int| 0 <= p < n ==> (#[trigger] pairs@[p]).1 < n,
                forall|p: int, q: int| 0 <= p < q < n ==> pairs@[p].1 != pairs@[q].1,
                forall|p: int| 0 <= p < n ==> (#[trigger] pairs@[p]).0 == keys@[pairs@[p].1 as int],
                forall|p: int, q: int|
                    0 <= p < q <= i && q != j ==> pairs@[p].0 >= pairs@[q].0,
            decreases j,
        {
            let a = pairs[j - 1];
            let c = pairs[j];
            pairs.set(j - 1, c);
            pairs.set(j, a);
            j -= 1;
        }
        i += 1;
    }

    let mut order: Vec<usize> = Vec::new();
    let mut i: usize = 0;
    while i < n
        invariant
            0 <= i <= n,
            n == keys@.len(),
            pairs@.len() == n,
            forall|p: int| 0 <= p < n ==> (#[trigger] pairs@[p]).1 < n,
            forall|p: int, q: int| 0 <= p < q < n ==> pairs@[p].1 != pairs@[q].1,
            forall|p: int| 0 <= p < n ==> (#[trigger] pairs@[p]).0 == keys@[pairs@[p].1 as int],
            forall|p: int, q: int| 0 <= p < q < n ==> pairs@[p].0 >= pairs@[q].0,
            order@.len() == i,
            forall|p: int| 0 <= p < i ==> (#[trigger] order@[p]) == pairs@[p].1,
        decreases n - i,
    {
        order.push(pairs[i].1);
        i += 1;
    }
    order
}

/// Rearrange `data` by `order`: entry `i` of the result is `data[order[i]]`.
pub fn apply_order<T: Copy>(data: &Vec<T>, order: &Vec<usize>) -> (out: Vec<T>)
    requires
        forall|i: int| 0 <= i < order@.len() ==> (#[trigger] order@[i]) < data@.len(),
    ensures
        gathered(out@, data@, order@),
{
    let n = order.len();
    let mut out: Vec<T> = Vec::new();
    let mut i: usize = 0;
    while i < n
        invariant
            0 <= i <= n,
            n == order@.len(),
            forall|k: int| 0 <= k < n ==> (#[trigger] order@[k]) < data@.len(),
            out@.len() == i,
            forall|k: int| 0 <= k < i ==> out@[k] == data@[order@[k] as int],
        decreases n - i,
    {
        out.push(data[order[i]]);
        i += 1;
    }
    out
}

/// Reorder the three splat arrays together by descending key.
///
/// The result is a single permutation of the input applied to positions,
/// alpha/spread pairs and color terms alike, so the arrays stay
/// index-aligned, and consecutive output triangles never increase in key.
pub fn depth_sort(splats: TSplat, keys: &Vec<u64>) -> (r: TSplat)
    requires
        splats.wf(),
        keys@.len() == splats.spec_num_tris(),
    ensures
        r.wf(),
        r.spec_num_tris() == splats.spec_num_tris(),
        r.points@.to_multiset() == splats.points@.to_multiset(),
        r.alpha_sigma@.to_multiset() == splats.alpha_sigma@.to_multiset(),
        r.sh@.to_multiset() == splats.sh@.to_multiset(),
        exists|order: Seq<usize>|
            {
                &&& #[trigger] is_reorder_of(order, keys@.len() as int)
                &&& descending_by(order, keys@)
                &&& gathered(r.points@, splats.points@, order)
                &&& gathered(r.alpha_sigma@, splats.alpha_sigma@, order)
                &&& gathered(r.sh@, splats.sh@, order)
            },
{
    let order = sort_order(keys);
    let points = apply_order(&splats.points, &order);
    let alpha_sigma = apply_order(&splats.alpha_sigma, &order);
    let sh = apply_order(&splats.sh, &order);
    let r = TSplat { points, alpha_sigma, sh };
    proof {
        assert({
            &&& is_reorder_of(order@, keys@.len() as int)
            &&& descending_by(order@, keys@)
            &&& gathered(r.points@, splats.points@, order@)
            &&& gathered(r.alpha_sigma@, splats.alpha_sigma@, order@)
            &&& gathered(r.sh@, splats.sh@, order@)
        });
        lemma_reorder_preserves_multiset(r.points@, splats.points@, order@);
        lemma_reorder_preserves_multiset(r.alpha_sigma@, splats.alpha_sigma@, order@);
        lemma_reorder_preserves_multiset(r.sh@, splats.sh@, order@);
    }
    r
}

} // verus!
