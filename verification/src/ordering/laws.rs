//! What holds of marking and ordering: the marked positions are the positions of the
//! mask, and an ordered list is a rearrangement that is in order and keeps ties in the
//! order of the table.
use vstd::prelude::*;
use vstd::seq_lib::{to_multiset_build, to_multiset_contains};
use crate::ordering::{count_true, goes_before, in_range, key_lt, marked, ordered, placed, OrderKeyView};
use crate::text::{lemma_text_lt_asymmetric, lemma_text_lt_connected, lemma_text_lt_transitive, text_lt};

verus! {

/// What `marked` lists: positions of the mask at which it holds, in ascending order,
/// and each such position.
pub proof fn lemma_marked(mask: Seq<bool>)
    ensures
        marked(mask).len() == count_true(mask),
        marked(mask).len() <= mask.len(),
        forall|k: int|
            0 <= k < marked(mask).len() ==> 0 <= #[trigger] marked(mask)[k] < mask.len() && mask[marked(
                mask,
            )[k]],
        forall|k: int, l: int|
            0 <= k < l < marked(mask).len() ==> #[trigger] marked(mask)[k] < #[trigger] marked(mask)[l],
        forall|i: int| 0 <= i < mask.len() && #[trigger] mask[i] ==> marked(mask).contains(i),
    decreases mask.len(),
{
    if mask.len() > 0 {
        let front = mask.drop_last();
        lemma_marked(front);
        let m = marked(mask);
        let f = marked(front);
        assert forall|i: int| 0 <= i < mask.len() && #[trigger] mask[i] implies m.contains(i) by {
            if i < front.len() {
                assert(front[i]);
                let k = choose|k: int| 0 <= k < f.len() && f[k] == i;
                assert(m[k] == i);
            } else {
                assert(m[m.len() - 1] == i);
            }
        }
    }
}

/// A mask that holds nowhere marks nothing.
pub proof fn lemma_marked_none(mask: Seq<bool>)
    requires
        forall|i: int| 0 <= i < mask.len() ==> !#[trigger] mask[i],
    ensures
        marked(mask) == Seq::<int>::empty(),
    decreases mask.len(),
{
    if mask.len() > 0 {
        let front = mask.drop_last();
        lemma_marked_none(front);
    }
}

/// A mask that holds from the position `from` on, and nowhere before, marks the
/// positions from `from` on.
pub proof fn lemma_marked_tail(mask: Seq<bool>, from: int)
    requires
        0 <= from <= mask.len(),
        forall|i: int| 0 <= i < mask.len() ==> #[trigger] mask[i] == (i >= from),
    ensures
        marked(mask) == Seq::new((mask.len() - from) as nat, |k: int| from + k),
    decreases mask.len(),
{
    if from == mask.len() {
        lemma_marked_none(mask);
    } else {
        let front = mask.drop_last();
        lemma_marked_tail(front, from);
    }
}

/// No key is smaller than itself, and of two keys at most one is smaller than the
/// other.
pub proof fn lemma_key_lt_asymmetric(a: OrderKeyView, b: OrderKeyView)
    ensures
        !(key_lt(a, b) && key_lt(b, a)),
{
    match (a, b) {
        (OrderKeyView::Text(s), OrderKeyView::Text(t)) => {
            lemma_text_lt_asymmetric(s, t);
        },
        _ => {},
    }
}

/// Where `a` is not smaller than `b` and `b` is not smaller than `c`, `a` is not
/// smaller than `c`.
pub proof fn lemma_key_not_lt_transitive(a: OrderKeyView, b: OrderKeyView, c: OrderKeyView)
    requires
        !key_lt(a, b),
        !key_lt(b, c),
    ensures
        !key_lt(a, c),
{
    match (a, b, c) {
        (OrderKeyView::Text(s), OrderKeyView::Text(t), OrderKeyView::Text(u)) => {
            if text_lt(s, u) {
                lemma_text_lt_connected(s, t);
                lemma_text_lt_connected(t, u);
                if s != t && t != u {
                    lemma_text_lt_transitive(u, t, s);
                    lemma_text_lt_asymmetric(s, u);
                }
            }
        },
        _ => {},
    }
}

/// Putting a position in its place adds it, and nothing else, to the list.
pub proof fn lemma_placed_adds(keys: Seq<OrderKeyView>, sorted: Seq<int>, p: int, descending: bool)
    ensures
        placed(keys, sorted, p, descending).to_multiset() == sorted.to_multiset().insert(p),
        placed(keys, sorted, p, descending).len() == sorted.len() + 1,
    decreases sorted.len(),
{
    broadcast use {to_multiset_build, vstd::multiset::group_multiset_axioms};

    if sorted.len() == 0 {
        assert(sorted =~= Seq::<int>::empty());
    } else if goes_before(keys[p], keys[sorted.last()], descending) {
        let front = sorted.drop_last();
        lemma_placed_adds(keys, front, p, descending);
        assert(sorted =~= front.push(sorted.last()));
    }
}

/// Ordering rearranges: the ordered list holds the positions it was given, each as
/// often as it was given.
pub proof fn lemma_ordered_rearranges(keys: Seq<OrderKeyView>, positions: Seq<int>, descending: bool)
    ensures
        ordered(keys, positions, descending).to_multiset() == positions.to_multiset(),
        ordered(keys, positions, descending).len() == positions.len(),
    decreases positions.len(),
{
    broadcast use {to_multiset_build, vstd::multiset::group_multiset_axioms};

    if positions.len() == 0 {
        assert(positions =~= Seq::<int>::empty());
    } else {
        let front = positions.drop_last();
        lemma_ordered_rearranges(keys, front, descending);
        lemma_placed_adds(keys, ordered(keys, front, descending), positions.last(), descending);
        assert(positions =~= front.push(positions.last()));
    }
}

/// The ordered list holds a position exactly where the given list holds it, and holds
/// none twice where the given list holds none twice.
pub proof fn lemma_ordered_same_positions(
    keys: Seq<OrderKeyView>,
    positions: Seq<int>,
    descending: bool,
)
    ensures
        forall|p: int| #[trigger]
            ordered(keys, positions, descending).contains(p) <==> positions.contains(p),
        positions.no_duplicates() ==> ordered(keys, positions, descending).no_duplicates(),
        in_range(positions, keys.len() as int) ==> in_range(
            ordered(keys, positions, descending),
            keys.len() as int,
        ),
{
    let out = ordered(keys, positions, descending);
    lemma_ordered_rearranges(keys, positions, descending);
    assert forall|p: int| #[trigger] out.contains(p) <==> positions.contains(p) by {
        to_multiset_contains(out, p);
        to_multiset_contains(positions, p);
    }
    if positions.no_duplicates() {
        positions.lemma_multiset_has_no_duplicates();
        out.lemma_multiset_has_no_duplicates_conv();
    }
    if in_range(positions, keys.len() as int) {
        assert forall|i: int| 0 <= i < out.len() implies 0 <= #[trigger] out[i] < keys.len() by {
            assert(out.contains(out[i]));
            let j = choose|j: int| 0 <= j < positions.len() && positions[j] == out[i];
        }
    }
}

/// `list` is in order: no position has to stand before one that stands earlier.
pub open spec fn in_order(keys: Seq<OrderKeyView>, list: Seq<int>, descending: bool) -> bool {
    forall|k: int, l: int|
        0 <= k < l < list.len() ==> !goes_before(
            keys[#[trigger] list[l]],
            keys[#[trigger] list[k]],
            descending,
        )
}

/// The position `x` can stand behind `list`: it has to stand before none of its
/// positions.
pub open spec fn stands_last(keys: Seq<OrderKeyView>, list: Seq<int>, x: int, descending: bool) -> bool {
    forall|k: int| 0 <= k < list.len() ==> !goes_before(keys[x], keys[#[trigger] list[k]], descending)
}

/// Putting a position in its place keeps a list in order, and keeps behind it what
/// could stand behind it and behind the position.
pub proof fn lemma_placed_in_order(keys: Seq<OrderKeyView>, sorted: Seq<int>, p: int, descending: bool)
    requires
        in_order(keys, sorted, descending),
    ensures
        in_order(keys, placed(keys, sorted, p, descending), descending),
        forall|x: int|
            stands_last(keys, sorted, x, descending) && !goes_before(keys[x], keys[p], descending)
                ==> #[trigger] stands_last(keys, placed(keys, sorted, p, descending), x, descending),
    decreases sorted.len(),
{
    let out = placed(keys, sorted, p, descending);
    if sorted.len() == 0 {
    } else if goes_before(keys[p], keys[sorted.last()], descending) {
        let front = sorted.drop_last();
        let last = sorted.last();
        lemma_placed_in_order(keys, front, p, descending);
        let inner = placed(keys, front, p, descending);
        assert(!goes_before(keys[last], keys[p], descending)) by {
            lemma_key_lt_asymmetric(keys[p], keys[last]);
        }
        assert(stands_last(keys, inner, last, descending));
        assert forall|x: int|
            stands_last(keys, sorted, x, descending) && !goes_before(
                keys[x],
                keys[p],
                descending,
            ) implies #[trigger] stands_last(keys, out, x, descending) by {
            assert(stands_last(keys, inner, x, descending));
        }
    } else {
        let last = sorted.last();
        assert forall|k: int, l: int| 0 <= k < l < out.len() implies !goes_before(
            keys[#[trigger] out[l]],
            keys[#[trigger] out[k]],
            descending,
        ) by {
            if l < sorted.len() {
            } else {
                if k < sorted.len() - 1 {
                    if descending {
                        lemma_key_not_lt_transitive(keys[sorted[k]], keys[last], keys[p]);
                    } else {
                        lemma_key_not_lt_transitive(keys[p], keys[last], keys[sorted[k]]);
                    }
                }
            }
        }
    }
}

/// An ordered list is in order.
pub proof fn lemma_ordered_in_order(keys: Seq<OrderKeyView>, positions: Seq<int>, descending: bool)
    ensures
        in_order(keys, ordered(keys, positions, descending), descending),
    decreases positions.len(),
{
    if positions.len() > 0 {
        lemma_ordered_in_order(keys, positions.drop_last(), descending);
        lemma_placed_in_order(
            keys,
            ordered(keys, positions.drop_last(), descending),
            positions.last(),
            descending,
        );
    }
}

/// The positions of `list` ascend.
pub open spec fn ascending(list: Seq<int>) -> bool {
    forall|k: int, l: int| 0 <= k < l < list.len() ==> #[trigger] list[k] < #[trigger] list[l]
}

/// In `list`, positions whose keys tie stand in ascending order.
pub open spec fn ties_ascend(keys: Seq<OrderKeyView>, list: Seq<int>, descending: bool) -> bool {
    forall|k: int, l: int|
        0 <= k < l < list.len() && !goes_before(
            keys[#[trigger] list[k]],
            keys[#[trigger] list[l]],
            descending,
        ) ==> list[k] < list[l]
}

/// Every position of `list` may stand before `x`: it is smaller than `x`, or its key
/// has to stand before that of `x`.
pub open spec fn all_before(keys: Seq<OrderKeyView>, list: Seq<int>, x: int, descending: bool) -> bool {
    forall|k: int|
        0 <= k < list.len() ==> #[trigger] list[k] < x || goes_before(
            keys[list[k]],
            keys[x],
            descending,
        )
}

/// Putting a position that is larger than all others in its place keeps ties in
/// ascending order.
proof fn lemma_placed_ties(keys: Seq<OrderKeyView>, sorted: Seq<int>, p: int, descending: bool)
    requires
        ties_ascend(keys, sorted, descending),
        forall|k: int| 0 <= k < sorted.len() ==> #[trigger] sorted[k] < p,
    ensures
        ties_ascend(keys, placed(keys, sorted, p, descending), descending),
        forall|k: int|
            0 <= k < placed(keys, sorted, p, descending).len() ==> #[trigger] placed(
                keys,
                sorted,
                p,
                descending,
            )[k] <= p,
        forall|x: int|
            goes_before(keys[p], keys[x], descending) && all_before(keys, sorted, x, descending)
                ==> #[trigger] all_before(keys, placed(keys, sorted, p, descending), x, descending),
    decreases sorted.len(),
{
    let out = placed(keys, sorted, p, descending);
    if sorted.len() == 0 {
    } else if goes_before(keys[p], keys[sorted.last()], descending) {
        let front = sorted.drop_last();
        let last = sorted.last();
        lemma_placed_ties(keys, front, p, descending);
        let inner = placed(keys, front, p, descending);
        assert(all_before(keys, inner, last, descending));
        assert forall|x: int|
            goes_before(keys[p], keys[x], descending) && all_before(
                keys,
                sorted,
                x,
                descending,
            ) implies #[trigger] all_before(keys, out, x, descending) by {
            assert(all_before(keys, inner, x, descending));
        }
    }
}

/// Ordering is stable: where the given positions ascend, positions whose keys tie stay
/// in ascending order.
pub proof fn lemma_ordered_stable(keys: Seq<OrderKeyView>, positions: Seq<int>, descending: bool)
    requires
        ascending(positions),
    ensures
        ties_ascend(keys, ordered(keys, positions, descending), descending),
        forall|k: int|
            0 <= k < ordered(keys, positions, descending).len() && positions.len() > 0
                ==> #[trigger] ordered(keys, positions, descending)[k] <= positions.last(),
    decreases positions.len(),
{
    if positions.len() > 0 {
        let front = positions.drop_last();
        lemma_ordered_stable(keys, front, descending);
        let sorted = ordered(keys, front, descending);
        lemma_placed_ties(keys, sorted, positions.last(), descending);
    }
}

} // verus!
