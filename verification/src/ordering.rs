//! Choosing rows and putting them in order.
//!
//! A query marks the rows it wants and names a key for each row. Its result lists the
//! marked rows by ascending or descending key; rows with the same key keep the order
//! in which they stand in the table.
use vstd::prelude::*;
use crate::text::{text_before, text_lt};

pub mod laws;

verus! {

/// The key by which a row is ordered: a number or a text.
#[derive(Debug)]
pub enum OrderKey {
    Number(i64),
    Text(Vec<char>),
}

/// The value of an [`OrderKey`].
pub ghost enum OrderKeyView {
    Number(int),
    Text(Seq<char>),
}

impl View for OrderKey {
    type V = OrderKeyView;

    open spec fn view(&self) -> OrderKeyView {
        match self {
            OrderKey::Number(n) => OrderKeyView::Number(*n as int),
            OrderKey::Text(t) => OrderKeyView::Text(t@),
        }
    }
}

/// The values of a list of keys.
pub open spec fn keys_view(keys: Seq<OrderKey>) -> Seq<OrderKeyView> {
    Seq::new(keys.len(), |i: int| keys[i]@)
}

/// `a` is strictly smaller than `b`: numbers by their size, texts character by
/// character, and every number before every text.
pub open spec fn key_lt(a: OrderKeyView, b: OrderKeyView) -> bool {
    match (a, b) {
        (OrderKeyView::Number(x), OrderKeyView::Number(y)) => x < y,
        (OrderKeyView::Text(s), OrderKeyView::Text(t)) => text_lt(s, t),
        (OrderKeyView::Number(_), OrderKeyView::Text(_)) => true,
        (OrderKeyView::Text(_), OrderKeyView::Number(_)) => false,
    }
}

/// A row with the key `a` has to stand before a row with the key `b`.
pub open spec fn goes_before(a: OrderKeyView, b: OrderKeyView, descending: bool) -> bool {
    if descending {
        key_lt(b, a)
    } else {
        key_lt(a, b)
    }
}

/// The positions as integers.
pub open spec fn ints(positions: Seq<usize>) -> Seq<int> {
    Seq::new(positions.len(), |i: int| positions[i] as int)
}

/// The positions at which `mask` holds, in ascending order.
pub open spec fn marked(mask: Seq<bool>) -> Seq<int>
    decreases mask.len(),
{
    if mask.len() == 0 {
        Seq::empty()
    } else if mask.last() {
        marked(mask.drop_last()).push(mask.len() - 1)
    } else {
        marked(mask.drop_last())
    }
}

/// The number of positions at which `mask` holds.
pub open spec fn count_true(mask: Seq<bool>) -> nat
    decreases mask.len(),
{
    if mask.len() == 0 {
        0
    } else if mask.last() {
        count_true(mask.drop_last()) + 1
    } else {
        count_true(mask.drop_last())
    }
}

/// The rows of `rows` at which `mask` holds, in their order.
pub open spec fn picked<T>(rows: Seq<T>, mask: Seq<bool>) -> Seq<T> {
    Seq::new(marked(mask).len(), |k: int| rows[marked(mask)[k]])
}

/// The ordered list `sorted` with the position `p` put in its place: behind every
/// position that does not have to stand after it.
pub open spec fn placed(
    keys: Seq<OrderKeyView>,
    sorted: Seq<int>,
    p: int,
    descending: bool,
) -> Seq<int>
    decreases sorted.len(),
{
    if sorted.len() == 0 {
        seq![p]
    } else if goes_before(keys[p], keys[sorted.last()], descending) {
        placed(keys, sorted.drop_last(), p, descending).push(sorted.last())
    } else {
        sorted.push(p)
    }
}

/// `positions` in the order of their keys. Positions with the same key keep the order
/// they have in `positions`.
pub open spec fn ordered(keys: Seq<OrderKeyView>, positions: Seq<int>, descending: bool) -> Seq<
    int,
>
    decreases positions.len(),
{
    if positions.len() == 0 {
        Seq::empty()
    } else {
        placed(keys, ordered(keys, positions.drop_last(), descending), positions.last(), descending)
    }
}

/// Every position of `positions` is a position of a list of `n` rows.
pub open spec fn in_range(positions: Seq<int>, n: int) -> bool {
    forall|i: int| 0 <= i < positions.len() ==> 0 <= #[trigger] positions[i] < n
}

/// The mask of length `n` that holds everywhere.
pub open spec fn full_mask(n: nat) -> Seq<bool> {
    Seq::new(n, |i: int| true)
}

/// The mask of length `n` that holds everywhere.
pub fn mark_all(n: usize) -> (mask: Vec<bool>)
    ensures
        mask@ == full_mask(n as nat),
{
    let mut mask: Vec<bool> = Vec::new();
    let mut i: usize = 0;
    while i < n
        invariant
            i <= n,
            mask.len() == i,
            forall|j: int| 0 <= j < i ==> mask@[j],
        decreases n - i,
    {
        mask.push(true);
        i += 1;
    }
    mask
}

/// Whether `a` is strictly smaller than `b`.
pub fn key_before(a: &OrderKey, b: &OrderKey) -> (before: bool)
    ensures
        before == key_lt(a@, b@),
{
    match a {
        OrderKey::Number(x) => match b {
            OrderKey::Number(y) => *x < *y,
            OrderKey::Text(_) => true,
        },
        OrderKey::Text(s) => match b {
            OrderKey::Number(_) => false,
            OrderKey::Text(t) => text_before(s, t),
        },
    }
}

/// Whether a row with the key `a` has to stand before a row with the key `b`.
pub fn stands_before(a: &OrderKey, b: &OrderKey, descending: bool) -> (before: bool)
    ensures
        before == goes_before(a@, b@, descending),
{
    if descending {
        key_before(b, a)
    } else {
        key_before(a, b)
    }
}

/// The positions at which `mask` holds, in ascending order.
pub fn marked_positions(mask: &Vec<bool>) -> (out: Vec<usize>)
    ensures
        ints(out@) == marked(mask@),
        in_range(ints(out@), mask.len() as int),
{
    let mut out: Vec<usize> = Vec::new();
    let mut i: usize = 0;
    while i < mask.len()
        invariant
            i <= mask.len(),
            ints(out@) == marked(mask@.take(i as int)),
            in_range(ints(out@), i as int),
        decreases mask.len() - i,
    {
        if mask[i] {
            out.push(i);
        }
        proof {
            let next = mask@.take(i + 1);
            assert(next.drop_last() =~= mask@.take(i as int));
        }
        i += 1;
    }
    assert(mask@.take(mask.len() as int) =~= mask@);
    out
}

/// The number of positions at which `mask` holds.
pub fn count_marked(mask: &Vec<bool>) -> (n: u64)
    ensures
        n == count_true(mask@),
{
    let mut n: u64 = 0;
    let mut i: usize = 0;
    while i < mask.len()
        invariant
            i <= mask.len(),
            n == count_true(mask@.take(i as int)),
            n <= i,
        decreases mask.len() - i,
    {
        proof {
            let next = mask@.take(i + 1);
            assert(next.drop_last() =~= mask@.take(i as int));
        }
        if mask[i] {
            n += 1;
        }
        i += 1;
    }
    assert(mask@.take(mask.len() as int) =~= mask@);
    n
}

/// Putting `p` into `sorted` from the back: once the positions from `at` on are known
/// to stand after `p`, what is left is to place `p` among the first `at`.
proof fn lemma_placed_split(
    keys: Seq<OrderKeyView>,
    sorted: Seq<int>,
    p: int,
    descending: bool,
    at: int,
)
    requires
        0 <= at <= sorted.len(),
        forall|j: int| at <= j < sorted.len() ==> goes_before(keys[p], keys[#[trigger] sorted[j]], descending),
    ensures
        placed(keys, sorted, p, descending) == placed(keys, sorted.take(at), p, descending)
            + sorted.skip(at),
    decreases sorted.len() - at,
{
    if at == sorted.len() {
        assert(sorted.take(at) =~= sorted);
    } else {
        let front = sorted.drop_last();
        lemma_placed_split(keys, front, p, descending, at);
        assert(front.take(at) =~= sorted.take(at));
    }
}

/// `positions` in the order of their keys, ascending or descending. Positions with the
/// same key keep the order they have in `positions`.
pub fn order_positions(keys: &Vec<OrderKey>, positions: &Vec<usize>, descending: bool) -> (out:
    Vec<usize>)
    requires
        in_range(ints(positions@), keys.len() as int),
    ensures
        ints(out@) == ordered(keys_view(keys@), ints(positions@), descending),
        in_range(ints(out@), keys.len() as int),
        out.len() == positions.len(),
{
    let ghost kv = keys_view(keys@);
    let ghost ps = ints(positions@);
    let mut out: Vec<usize> = Vec::new();
    let mut i: usize = 0;
    while i < positions.len()
        invariant
            i <= positions.len(),
            kv == keys_view(keys@),
            ps == ints(positions@),
            in_range(ps, keys.len() as int),
            ints(out@) == ordered(kv, ps.take(i as int), descending),
            in_range(ints(out@), keys.len() as int),
            out.len() == i,
        decreases positions.len() - i,
    {
        let p = positions[i];
        assert(ps[i as int] == p);
        let ghost sorted = ints(out@);
        let mut at: usize = out.len();
        assert forall|j: int| 0 <= j < out.len() implies #[trigger] out@[j] < keys.len() by {
            assert(sorted[j] == out@[j]);
        }
        while at > 0 && stands_before(&keys[p], &keys[out[at - 1]], descending)
            invariant
                at <= out.len(),
                p < keys.len(),
                kv == keys_view(keys@),
                sorted == ints(out@),
                in_range(sorted, keys.len() as int),
                forall|j: int| 0 <= j < out.len() ==> #[trigger] out@[j] < keys.len(),
                forall|j: int|
                    at <= j < sorted.len() ==> goes_before(
                        kv[p as int],
                        kv[#[trigger] sorted[j]],
                        descending,
                    ),
            decreases at,
        {
            at -= 1;
        }
        proof {
            lemma_placed_split(kv, sorted, p as int, descending, at as int);
            let next = ps.take(i + 1);
            assert(next.drop_last() =~= ps.take(i as int));
        }
        out.insert(at, p);
        i += 1;
    }
    assert(ps.take(positions.len() as int) =~= ps);
    out
}

} // verus!
