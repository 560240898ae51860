//! Tables: rows in the order of their insertion, each found again by its key.
use vstd::prelude::*;
use crate::ordering::laws::lemma_marked;
use crate::ordering::{ints, marked, marked_positions, picked};

verus! {

/// A row that is found by a key of its own.
pub trait Record: View {
    /// The key of a row.
    spec fn key_of(v: Self::V) -> Seq<char>;

    /// The key of this row.
    fn key(&self) -> (k: &String)
        ensures
            k@ == Self::key_of(self@),
    ;
}

/// A row that can be copied.
pub trait Stored: View + Sized {
    /// A copy of this row.
    fn dup(&self) -> (r: Self)
        ensures
            r@ == self@,
    ;
}

/// The values of a list of rows.
pub open spec fn rows_view<R: View>(rows: Seq<R>) -> Seq<R::V> {
    Seq::new(rows.len(), |i: int| rows[i]@)
}

/// The value of an optional row.
pub open spec fn opt_view<R: View>(row: Option<R>) -> Option<R::V> {
    match row {
        Some(r) => Some(r@),
        None => None,
    }
}

/// Some row of `rows` has the key `id`.
pub open spec fn has_key<R: Record>(rows: Seq<R::V>, id: Seq<char>) -> bool {
    exists|i: int| 0 <= i < rows.len() && R::key_of(#[trigger] rows[i]) == id
}

/// No two rows of `rows` have the same key.
pub open spec fn distinct_keys<R: Record>(rows: Seq<R::V>) -> bool {
    forall|i: int, j: int|
        0 <= i < j < rows.len() ==> R::key_of(#[trigger] rows[i]) != R::key_of(#[trigger] rows[j])
}

/// The position of a row with the key `id`.
pub open spec fn index_of<R: Record>(rows: Seq<R::V>, id: Seq<char>) -> int {
    choose|i: int| 0 <= i < rows.len() && R::key_of(#[trigger] rows[i]) == id
}

/// The row with the key `id`, if there is one.
pub open spec fn lookup<R: Record>(rows: Seq<R::V>, id: Seq<char>) -> Option<R::V> {
    if has_key::<R>(rows, id) {
        Some(rows[index_of::<R>(rows, id)])
    } else {
        None
    }
}

/// `rows` without the row that has the key `id`.
pub open spec fn without<R: Record>(rows: Seq<R::V>, id: Seq<char>) -> Seq<R::V> {
    if has_key::<R>(rows, id) {
        rows.remove(index_of::<R>(rows, id))
    } else {
        rows
    }
}

/// `rows` with `row` in the place of the row that has the key `id`.
pub open spec fn replaced<R: Record>(rows: Seq<R::V>, id: Seq<char>, row: R::V) -> Seq<R::V> {
    if has_key::<R>(rows, id) {
        rows.update(index_of::<R>(rows, id), row)
    } else {
        rows
    }
}

/// Where keys are distinct, a row with the key `id` stands at one position only.
pub proof fn lemma_index_unique<R: Record>(rows: Seq<R::V>, id: Seq<char>, i: int)
    requires
        distinct_keys::<R>(rows),
        0 <= i < rows.len(),
        R::key_of(rows[i]) == id,
    ensures
        has_key::<R>(rows, id),
        index_of::<R>(rows, id) == i,
        lookup::<R>(rows, id) == Some(rows[i]),
{
}

/// A row with a new key can be appended, and is then found at the end.
pub proof fn lemma_push_fresh<R: Record>(rows: Seq<R::V>, row: R::V)
    requires
        distinct_keys::<R>(rows),
        !has_key::<R>(rows, R::key_of(row)),
    ensures
        distinct_keys::<R>(rows.push(row)),
        lookup::<R>(rows.push(row), R::key_of(row)) == Some(row),
        forall|id: Seq<char>|
            id != R::key_of(row) ==> #[trigger] lookup::<R>(rows.push(row), id) == lookup::<R>(
                rows,
                id,
            ),
        forall|id: Seq<char>|
            #[trigger] has_key::<R>(rows.push(row), id) <==> (id == R::key_of(row) || has_key::<R>(
                rows,
                id,
            )),
{
    let next = rows.push(row);
    lemma_index_unique::<R>(next, R::key_of(row), rows.len() as int);
    assert forall|id: Seq<char>| #[trigger]
        has_key::<R>(next, id) <==> (id == R::key_of(row) || has_key::<R>(rows, id)) by {
        if has_key::<R>(rows, id) {
            let i = index_of::<R>(rows, id);
            assert(next[i] == rows[i]);
        }
    }
}

/// Taking the row at `at` out keeps the keys distinct and every other row in reach.
pub proof fn lemma_remove_at<R: Record>(rows: Seq<R::V>, at: int)
    requires
        distinct_keys::<R>(rows),
        0 <= at < rows.len(),
    ensures
        distinct_keys::<R>(rows.remove(at)),
        without::<R>(rows, R::key_of(rows[at])) == rows.remove(at),
        !has_key::<R>(rows.remove(at), R::key_of(rows[at])),
        forall|id: Seq<char>|
            id != R::key_of(rows[at]) ==> #[trigger] lookup::<R>(rows.remove(at), id) == lookup::<
                R,
            >(rows, id),
        forall|id: Seq<char>|
            #[trigger] has_key::<R>(rows.remove(at), id) <==> (id != R::key_of(rows[at])
                && has_key::<R>(rows, id)),
{
    let rest = rows.remove(at);
    let gone = R::key_of(rows[at]);
    assert forall|id: Seq<char>| #[trigger]
        has_key::<R>(rest, id) <==> (id != gone && has_key::<R>(rows, id)) by {
        if id != gone && has_key::<R>(rows, id) {
            let a = index_of::<R>(rows, id);
            let i = if a < at { a } else { a - 1 };
            assert(rest[i] == rows[a]);
        }
    }
}

/// Putting a row with the same key in the place of the row at `at` keeps the keys
/// distinct and leaves every other row as it was.
pub proof fn lemma_update_at<R: Record>(rows: Seq<R::V>, at: int, row: R::V)
    requires
        distinct_keys::<R>(rows),
        0 <= at < rows.len(),
        R::key_of(row) == R::key_of(rows[at]),
    ensures
        distinct_keys::<R>(rows.update(at, row)),
        replaced::<R>(rows, R::key_of(row), row) == rows.update(at, row),
        lookup::<R>(rows.update(at, row), R::key_of(row)) == Some(row),
        forall|id: Seq<char>|
            id != R::key_of(row) ==> #[trigger] lookup::<R>(rows.update(at, row), id) == lookup::<
                R,
            >(rows, id),
        forall|id: Seq<char>|
            #[trigger] has_key::<R>(rows.update(at, row), id) <==> has_key::<R>(rows, id),
{
    let next = rows.update(at, row);
    let key = R::key_of(row);
    assert forall|id: Seq<char>| id != key implies #[trigger] lookup::<R>(next, id) == lookup::<R>(
        rows,
        id,
    ) by {
        if has_key::<R>(rows, id) {
            let i = index_of::<R>(rows, id);
            lemma_index_unique::<R>(next, id, i);
        }
    }
}

/// Rows that are changed in place, each keeping its key, are found as before.
pub proof fn lemma_same_keys<R: Record>(rows: Seq<R::V>, next: Seq<R::V>)
    requires
        distinct_keys::<R>(rows),
        next.len() == rows.len(),
        forall|i: int| 0 <= i < rows.len() ==> R::key_of(#[trigger] next[i]) == R::key_of(rows[i]),
    ensures
        distinct_keys::<R>(next),
        forall|id: Seq<char>| #[trigger] has_key::<R>(next, id) <==> has_key::<R>(rows, id),
        forall|id: Seq<char>|
            has_key::<R>(rows, id) ==> #[trigger] index_of::<R>(next, id) == index_of::<R>(rows, id),
{
    assert forall|i: int, j: int| 0 <= i < j < next.len() implies R::key_of(#[trigger] next[i])
        != R::key_of(#[trigger] next[j]) by {}
    assert forall|id: Seq<char>| #[trigger]
        has_key::<R>(next, id) <==> has_key::<R>(rows, id) by {
        if has_key::<R>(rows, id) {
            let i = index_of::<R>(rows, id);
            assert(R::key_of(next[i]) == R::key_of(rows[i]));
        }
    }
    assert forall|id: Seq<char>| has_key::<R>(rows, id) implies #[trigger] index_of::<R>(next, id)
        == index_of::<R>(rows, id) by {
        let i = index_of::<R>(rows, id);
        lemma_index_unique::<R>(next, id, i);
    }
}

/// Among the rows that a mask picks, keys are distinct as before, and a key is found
/// where the row that has it is picked.
pub proof fn lemma_picked_keys<R: Record>(rows: Seq<R::V>, mask: Seq<bool>)
    requires
        distinct_keys::<R>(rows),
        mask.len() == rows.len(),
    ensures
        distinct_keys::<R>(picked(rows, mask)),
        forall|id: Seq<char>|
            #[trigger] has_key::<R>(picked(rows, mask), id) <==> (has_key::<R>(rows, id)
                && mask[index_of::<R>(rows, id)]),
        forall|id: Seq<char>|
            has_key::<R>(picked(rows, mask), id) ==> #[trigger] lookup::<R>(picked(rows, mask), id)
                == lookup::<R>(rows, id),
{
    lemma_marked(mask);
    let m = marked(mask);
    let out = picked(rows, mask);
    assert forall|id: Seq<char>| #[trigger]
        has_key::<R>(out, id) <==> (has_key::<R>(rows, id) && mask[index_of::<R>(rows, id)]) by {
        if has_key::<R>(rows, id) && mask[index_of::<R>(rows, id)] {
            let i = index_of::<R>(rows, id);
            let k = choose|k: int| 0 <= k < m.len() && m[k] == i;
            assert(out[k] == rows[i]);
        }
    }
}

/// Copies of the rows at which `mask` holds, in their order.
pub fn pick<R: Stored>(rows: &Vec<R>, mask: &Vec<bool>) -> (out: Vec<R>)
    requires
        mask.len() == rows.len(),
    ensures
        rows_view(out@) == picked(rows_view(rows@), mask@),
{
    let positions = marked_positions(mask);
    let mut out: Vec<R> = Vec::new();
    let mut k: usize = 0;
    while k < positions.len()
        invariant
            k <= positions.len(),
            out.len() == k,
            ints(positions@) == marked(mask@),
            forall|j: int| 0 <= j < positions.len() ==> 0 <= #[trigger] ints(positions@)[j] < rows.len(),
            forall|j: int| 0 <= j < k ==> (#[trigger] out@[j])@ == rows@[marked(mask@)[j]]@,
        decreases positions.len() - k,
    {
        assert(ints(positions@)[k as int] == positions@[k as int]);
        out.push(rows[positions[k]].dup());
        k += 1;
    }
    out
}

/// Copies of all rows.
pub fn copy_rows<R: Stored>(rows: &Vec<R>) -> (out: Vec<R>)
    ensures
        rows_view(out@) == rows_view(rows@),
{
    let mut out: Vec<R> = Vec::new();
    let mut i: usize = 0;
    while i < rows.len()
        invariant
            i <= rows.len(),
            out.len() == i,
            forall|j: int| 0 <= j < i ==> (#[trigger] out@[j])@ == rows@[j]@,
        decreases rows.len() - i,
    {
        out.push(rows[i].dup());
        i += 1;
    }
    out
}

/// The position of the row with the key `id`, if there is one.
pub fn position<R: Record>(rows: &Vec<R>, id: &String) -> (at: Option<usize>)
    ensures
        match at {
            Some(i) => {
                &&& i < rows.len()
                &&& R::key_of(rows@[i as int]@) == id@
                &&& has_key::<R>(rows_view(rows@), id@)
                &&& distinct_keys::<R>(rows_view(rows@)) ==> index_of::<R>(rows_view(rows@), id@)
                    == i
            },
            None => !has_key::<R>(rows_view(rows@), id@),
        },
{
    let mut i: usize = 0;
    while i < rows.len()
        invariant
            i <= rows.len(),
            forall|j: int| 0 <= j < i ==> R::key_of(#[trigger] rows_view(rows@)[j]) != id@,
        decreases rows.len() - i,
    {
        if *rows[i].key() == *id {
            proof {
                assert(rows_view(rows@)[i as int] == rows@[i as int]@);
            }
            return Some(i);
        }
        i += 1;
    }
    None
}

/// Whether no two rows have the same key.
pub fn keys_distinct<R: Record>(rows: &Vec<R>) -> (distinct: bool)
    ensures
        distinct == distinct_keys::<R>(rows_view(rows@)),
{
    let ghost all = rows_view(rows@);
    let mut j: usize = 0;
    while j < rows.len()
        invariant
            j <= rows.len(),
            all == rows_view(rows@),
            forall|a: int, b: int|
                0 <= a < b < j ==> R::key_of(#[trigger] all[a]) != R::key_of(#[trigger] all[b]),
        decreases rows.len() - j,
    {
        let mut i: usize = 0;
        while i < j
            invariant
                i <= j,
                j < rows.len(),
                all == rows_view(rows@),
                forall|a: int| 0 <= a < i ==> R::key_of(#[trigger] all[a]) != R::key_of(all[j as int]),
            decreases j - i,
        {
            if *rows[i].key() == *rows[j].key() {
                assert(R::key_of(all[i as int]) == R::key_of(all[j as int]));
                return false;
            }
            i += 1;
        }
        j += 1;
    }
    true
}

} // verus!
