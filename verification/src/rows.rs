//! Sequences of rows: how a table is searched, thinned, rewritten and
//! ordered, and what stays true of its keys.

use vstd::prelude::*;

verus! {

/// The last row that `accept` accepts, if there is one.
pub open spec fn find<T>(rows: Seq<T>, accept: spec_fn(T) -> bool) -> Option<T>
    decreases rows.len(),
{
    if rows.len() == 0 {
        None
    } else if accept(rows.last()) {
        Some(rows.last())
    } else {
        find(rows.drop_last(), accept)
    }
}

/// The rows that `accept` accepts, in their order.
pub open spec fn keep<T>(rows: Seq<T>, accept: spec_fn(T) -> bool) -> Seq<T>
    decreases rows.len(),
{
    if rows.len() == 0 {
        Seq::empty()
    } else if accept(rows.last()) {
        keep(rows.drop_last(), accept).push(rows.last())
    } else {
        keep(rows.drop_last(), accept)
    }
}

/// The rows that `accept` does not accept, in their order.
pub open spec fn reject<T>(rows: Seq<T>, accept: spec_fn(T) -> bool) -> Seq<T>
    decreases rows.len(),
{
    if rows.len() == 0 {
        Seq::empty()
    } else if accept(rows.last()) {
        reject(rows.drop_last(), accept)
    } else {
        reject(rows.drop_last(), accept).push(rows.last())
    }
}

/// The rows with `change` applied to each one that `accept` accepts.
pub open spec fn rewrite<T>(
    rows: Seq<T>,
    accept: spec_fn(T) -> bool,
    change: spec_fn(T) -> T,
) -> Seq<T>
    decreases rows.len(),
{
    if rows.len() == 0 {
        Seq::empty()
    } else if accept(rows.last()) {
        rewrite(rows.drop_last(), accept, change).push(change(rows.last()))
    } else {
        rewrite(rows.drop_last(), accept, change).push(rows.last())
    }
}

/// The rows in the opposite order.
pub open spec fn reversed<T>(rows: Seq<T>) -> Seq<T> {
    Seq::new(rows.len(), |i: int| rows[rows.len() - 1 - i])
}

/// `sorted` with `row` put behind the last row whose rank is at least that of
/// `row`: in front only of rows of a lower rank.
pub open spec fn place<T>(sorted: Seq<T>, row: T, rank: spec_fn(T) -> int) -> Seq<T>
    decreases sorted.len(),
{
    if sorted.len() == 0 {
        seq![row]
    } else if rank(sorted.last()) >= rank(row) {
        sorted.push(row)
    } else {
        place(sorted.drop_last(), row, rank).push(sorted.last())
    }
}

/// The rows ordered by falling rank; rows of one rank keep their order.
pub open spec fn descending<T>(rows: Seq<T>, rank: spec_fn(T) -> int) -> Seq<T>
    decreases rows.len(),
{
    if rows.len() == 0 {
        Seq::empty()
    } else {
        place(descending(rows.drop_last(), rank), rows.last(), rank)
    }
}

/// Every rank is at least 0 and below `bound`, and each is above the one
/// before it.
pub open spec fn ascending<T>(rows: Seq<T>, rank: spec_fn(T) -> int, bound: int) -> bool
    decreases rows.len(),
{
    rows.len() == 0 || (0 <= rank(rows.last()) < bound && ascending(
        rows.drop_last(),
        rank,
        rank(rows.last()),
    ))
}

/// No two rows have the same key.
pub open spec fn distinct<T, K>(rows: Seq<T>, key: spec_fn(T) -> K) -> bool
    decreases rows.len(),
{
    rows.len() == 0 || (!occurs(rows.drop_last(), key, key(rows.last())) && distinct(
        rows.drop_last(),
        key,
    ))
}

/// Some row has the key `k`.
pub open spec fn occurs<T, K>(rows: Seq<T>, key: spec_fn(T) -> K, k: K) -> bool
    decreases rows.len(),
{
    rows.len() != 0 && (key(rows.last()) == k || occurs(rows.drop_last(), key, k))
}

/// Ranks that ascend below one bound ascend below every higher one.
pub proof fn lemma_ascending_bound<T>(rows: Seq<T>, rank: spec_fn(T) -> int, low: int, high: int)
    requires
        ascending(rows, rank, low),
        low <= high,
    ensures
        ascending(rows, rank, high),
{
}

/// In an ascending table the ranks grow with the position.
pub proof fn lemma_ascending_index<T>(rows: Seq<T>, rank: spec_fn(T) -> int, bound: int)
    requires
        ascending(rows, rank, bound),
    ensures
        forall|i: int| 0 <= i < rows.len() ==> 0 <= #[trigger] rank(rows[i]) < bound,
        forall|i: int, j: int|
            0 <= i < j < rows.len() ==> rank(#[trigger] rows[i]) < rank(#[trigger] rows[j]),
    decreases rows.len(),
{
    if rows.len() > 0 {
        let front = rows.drop_last();
        lemma_ascending_index(front, rank, rank(rows.last()));
        assert forall|i: int| 0 <= i < rows.len() implies 0 <= #[trigger] rank(rows[i])
            < bound by {
            if i < front.len() {
                assert(rows[i] == front[i]);
            }
        }
        assert forall|i: int, j: int| 0 <= i < j < rows.len() implies rank(#[trigger] rows[i])
            < rank(#[trigger] rows[j]) by {
            assert(rows[i] == front[i]);
            if j < front.len() {
                assert(rows[j] == front[j]);
            }
        }
    }
}

/// Thinning an ascending table leaves it ascending.
pub proof fn lemma_reject_ascending<T>(
    rows: Seq<T>,
    accept: spec_fn(T) -> bool,
    rank: spec_fn(T) -> int,
    bound: int,
)
    requires
        ascending(rows, rank, bound),
    ensures
        ascending(reject(rows, accept), rank, bound),
    decreases rows.len(),
{
    if rows.len() > 0 {
        let front = rows.drop_last();
        lemma_reject_ascending(front, accept, rank, rank(rows.last()));
        if accept(rows.last()) {
            lemma_ascending_bound(reject(front, accept), rank, rank(rows.last()), bound);
        } else {
            assert(reject(rows, accept).drop_last() =~= reject(front, accept));
        }
    }
}

/// Rewriting rows without touching their ranks leaves the table ascending.
pub proof fn lemma_rewrite_ascending<T>(
    rows: Seq<T>,
    accept: spec_fn(T) -> bool,
    change: spec_fn(T) -> T,
    rank: spec_fn(T) -> int,
    bound: int,
)
    requires
        ascending(rows, rank, bound),
        forall|row: T| rank(#[trigger] change(row)) == rank(row),
    ensures
        ascending(rewrite(rows, accept, change), rank, bound),
    decreases rows.len(),
{
    if rows.len() > 0 {
        let front = rows.drop_last();
        lemma_rewrite_ascending(front, accept, change, rank, rank(rows.last()));
        assert(rewrite(rows, accept, change).drop_last() =~= rewrite(front, accept, change));
    }
}

/// A row added with a rank that is the old bound keeps the table ascending.
pub proof fn lemma_push_ascending<T>(rows: Seq<T>, row: T, rank: spec_fn(T) -> int, bound: int)
    requires
        ascending(rows, rank, bound),
        rank(row) == bound,
        0 <= bound,
    ensures
        ascending(rows.push(row), rank, bound + 1),
{
    assert(rows.push(row).drop_last() =~= rows);
}

/// A key that does not occur in a table does not occur in the thinned one.
pub proof fn lemma_reject_occurs<T, K>(
    rows: Seq<T>,
    accept: spec_fn(T) -> bool,
    key: spec_fn(T) -> K,
    k: K,
)
    ensures
        occurs(reject(rows, accept), key, k) ==> occurs(rows, key, k),
    decreases rows.len(),
{
    if rows.len() > 0 {
        let front = rows.drop_last();
        lemma_reject_occurs(front, accept, key, k);
        if !accept(rows.last()) {
            assert(reject(rows, accept).drop_last() =~= reject(front, accept));
        }
    }
}

/// Thinning a table without duplicates leaves none.
pub proof fn lemma_reject_distinct<T, K>(
    rows: Seq<T>,
    accept: spec_fn(T) -> bool,
    key: spec_fn(T) -> K,
)
    requires
        distinct(rows, key),
    ensures
        distinct(reject(rows, accept), key),
    decreases rows.len(),
{
    if rows.len() > 0 {
        let front = rows.drop_last();
        lemma_reject_distinct(front, accept, key);
        if !accept(rows.last()) {
            lemma_reject_occurs(front, accept, key, key(rows.last()));
            assert(reject(rows, accept).drop_last() =~= reject(front, accept));
        }
    }
}

/// Rewriting rows without touching their keys changes no key's occurrence.
pub proof fn lemma_rewrite_occurs<T, K>(
    rows: Seq<T>,
    accept: spec_fn(T) -> bool,
    change: spec_fn(T) -> T,
    key: spec_fn(T) -> K,
    k: K,
)
    requires
        forall|row: T| key(#[trigger] change(row)) == key(row),
    ensures
        occurs(rewrite(rows, accept, change), key, k) == occurs(rows, key, k),
    decreases rows.len(),
{
    if rows.len() > 0 {
        let front = rows.drop_last();
        lemma_rewrite_occurs(front, accept, change, key, k);
        assert(rewrite(rows, accept, change).drop_last() =~= rewrite(front, accept, change));
    }
}

/// Rewriting rows without touching their keys creates no duplicate.
pub proof fn lemma_rewrite_distinct<T, K>(
    rows: Seq<T>,
    accept: spec_fn(T) -> bool,
    change: spec_fn(T) -> T,
    key: spec_fn(T) -> K,
)
    requires
        distinct(rows, key),
        forall|row: T| key(#[trigger] change(row)) == key(row),
    ensures
        distinct(rewrite(rows, accept, change), key),
    decreases rows.len(),
{
    if rows.len() > 0 {
        let front = rows.drop_last();
        lemma_rewrite_distinct(front, accept, change, key);
        lemma_rewrite_occurs(front, accept, change, key, key(rows.last()));
        assert(rewrite(rows, accept, change).drop_last() =~= rewrite(front, accept, change));
    }
}

/// A row added under a key that does not occur creates no duplicate.
pub proof fn lemma_push_distinct<T, K>(rows: Seq<T>, row: T, key: spec_fn(T) -> K)
    requires
        distinct(rows, key),
        !occurs(rows, key, key(row)),
    ensures
        distinct(rows.push(row), key),
{
    assert(rows.push(row).drop_last() =~= rows);
}

/// The first `i + 1` rows are the first `i` rows and the row at `i`.
pub proof fn lemma_take_next<T>(rows: Seq<T>, i: int)
    requires
        0 <= i < rows.len(),
    ensures
        rows.take(i + 1).drop_last() == rows.take(i),
        rows.take(i + 1).last() == rows[i],
        rows.take(i + 1).len() == i + 1,
{
    assert(rows.take(i + 1).drop_last() =~= rows.take(i));
}

/// Placing a row puts it at the position in front of which every rank is at
/// least its own and behind which every rank is lower.
pub proof fn lemma_place_at<T>(sorted: Seq<T>, row: T, rank: spec_fn(T) -> int, at: int)
    requires
        0 <= at <= sorted.len(),
        forall|j: int| at <= j < sorted.len() ==> rank(#[trigger] sorted[j]) < rank(row),
        at > 0 ==> rank(sorted[at - 1]) >= rank(row),
    ensures
        place(sorted, row, rank) == sorted.insert(at, row),
    decreases sorted.len(),
{
    if sorted.len() == 0 {
        assert(seq![row] =~= sorted.insert(at, row));
    } else if at == sorted.len() {
        assert(sorted.push(row) =~= sorted.insert(at, row));
    } else {
        assert(rank(sorted[sorted.len() - 1]) < rank(row));
        let front = sorted.drop_last();
        assert forall|j: int| at <= j < front.len() implies rank(#[trigger] front[j]) < rank(
            row,
        ) by {
            assert(front[j] == sorted[j]);
        }
        if at > 0 {
            assert(front[at - 1] == sorted[at - 1]);
        }
        lemma_place_at(front, row, rank, at);
        assert(front.insert(at, row).push(sorted.last()) =~= sorted.insert(at, row));
    }
}

/// A search finds in a rewritten table the rewritten form of what it finds
/// in the table, if the change keeps each row on its side of the search.
pub proof fn lemma_find_rewrite<T>(rows: Seq<T>, accept: spec_fn(T) -> bool, change: spec_fn(T) -> T)
    requires
        forall|row: T| accept(#[trigger] change(row)) == accept(row),
    ensures
        find(rewrite(rows, accept, change), accept) == match find(rows, accept) {
            Some(row) => Some(change(row)),
            None => None,
        },
    decreases rows.len(),
{
    if rows.len() > 0 {
        let front = rows.drop_last();
        lemma_find_rewrite(front, accept, change);
        assert(rewrite(rows, accept, change).drop_last() =~= rewrite(front, accept, change));
    }
}

/// Rewriting the rows that a search does not find changes nothing.
pub proof fn lemma_rewrite_none<T>(rows: Seq<T>, accept: spec_fn(T) -> bool, change: spec_fn(T) -> T)
    requires
        find(rows, accept) is None,
    ensures
        rewrite(rows, accept, change) == rows,
    decreases rows.len(),
{
    if rows.len() > 0 {
        lemma_rewrite_none(rows.drop_last(), accept, change);
        assert(rows.drop_last().push(rows.last()) =~= rows);
    } else {
        assert(rewrite(rows, accept, change) =~= rows);
    }
}

/// What was rejected is not found afterwards.
pub proof fn lemma_find_reject<T>(rows: Seq<T>, accept: spec_fn(T) -> bool)
    ensures
        find(reject(rows, accept), accept) is None,
    decreases rows.len(),
{
    if rows.len() > 0 {
        let front = rows.drop_last();
        lemma_find_reject(front, accept);
        if !accept(rows.last()) {
            assert(reject(rows, accept).drop_last() =~= reject(front, accept));
        }
    }
}

/// What a search finds is a row of the table that the search accepts.
pub proof fn lemma_find_accepts<T>(rows: Seq<T>, accept: spec_fn(T) -> bool)
    ensures
        find(rows, accept) matches Some(row) ==> accept(row) && rows.contains(row),
    decreases rows.len(),
{
    if rows.len() > 0 {
        if accept(rows.last()) {
            assert(rows[rows.len() - 1] == rows.last());
        } else {
            lemma_find_accepts(rows.drop_last(), accept);
            if let Some(row) = find(rows.drop_last(), accept) {
                let i = choose|i: int| 0 <= i < rows.drop_last().len() && rows.drop_last()[i] == row;
                assert(rows[i] == row);
            }
        }
    }
}

/// A search that accepts no row of the table finds nothing.
pub proof fn lemma_find_none<T>(rows: Seq<T>, accept: spec_fn(T) -> bool)
    requires
        forall|i: int| 0 <= i < rows.len() ==> !accept(#[trigger] rows[i]),
    ensures
        find(rows, accept) is None,
    decreases rows.len(),
{
    if rows.len() > 0 {
        assert(rows.last() == rows[rows.len() - 1]);
        assert forall|i: int| 0 <= i < rows.drop_last().len() implies !accept(
            #[trigger] rows.drop_last()[i],
        ) by {
            assert(rows.drop_last()[i] == rows[i]);
        }
        lemma_find_none(rows.drop_last(), accept);
    }
}

/// Every row that is kept is accepted, and is a row of the table.
pub proof fn lemma_keep_accepts<T>(rows: Seq<T>, accept: spec_fn(T) -> bool)
    ensures
        forall|i: int|
            0 <= i < keep(rows, accept).len() ==> accept(#[trigger] keep(rows, accept)[i])
                && rows.contains(keep(rows, accept)[i]),
    decreases rows.len(),
{
    if rows.len() > 0 {
        let front = rows.drop_last();
        lemma_keep_accepts(front, accept);
        let kept = keep(rows, accept);
        assert forall|i: int| 0 <= i < kept.len() implies accept(#[trigger] kept[i])
            && rows.contains(kept[i]) by {
            if i < keep(front, accept).len() {
                assert(kept[i] == keep(front, accept)[i]);
                let j = choose|j: int| 0 <= j < front.len() && front[j] == kept[i];
                assert(rows[j] == kept[i]);
            } else {
                assert(kept[i] == rows[rows.len() - 1]);
            }
        }
    }
}

/// Keeping from two tables in a row keeps from each.
pub proof fn lemma_keep_concat<T>(head: Seq<T>, tail: Seq<T>, accept: spec_fn(T) -> bool)
    ensures
        keep(head + tail, accept) == keep(head, accept) + keep(tail, accept),
    decreases tail.len(),
{
    if tail.len() == 0 {
        assert(head + tail =~= head);
        assert(keep(head, accept) + keep(tail, accept) =~= keep(head, accept));
    } else {
        lemma_keep_concat(head, tail.drop_last(), accept);
        assert((head + tail).drop_last() =~= head + tail.drop_last());
        assert((head + tail).last() == tail.last());
        if accept(tail.last()) {
            assert((keep(head, accept) + keep(tail.drop_last(), accept)).push(tail.last())
                =~= keep(head, accept) + keep(tail, accept));
        }
    }
}

/// A table of which every row is accepted is kept whole.
pub proof fn lemma_keep_all<T>(rows: Seq<T>, accept: spec_fn(T) -> bool)
    requires
        forall|i: int| 0 <= i < rows.len() ==> accept(#[trigger] rows[i]),
    ensures
        keep(rows, accept) == rows,
    decreases rows.len(),
{
    if rows.len() > 0 {
        assert(rows.last() == rows[rows.len() - 1]);
        assert forall|i: int| 0 <= i < rows.drop_last().len() implies accept(
            #[trigger] rows.drop_last()[i],
        ) by {
            assert(rows.drop_last()[i] == rows[i]);
        }
        lemma_keep_all(rows.drop_last(), accept);
        assert(rows.drop_last().push(rows.last()) =~= rows);
    } else {
        assert(keep(rows, accept) =~= rows);
    }
}

/// Of what a thinning rejected nothing is kept.
pub proof fn lemma_keep_rejected<T>(rows: Seq<T>, accept: spec_fn(T) -> bool)
    ensures
        keep(reject(rows, accept), accept) == Seq::<T>::empty(),
    decreases rows.len(),
{
    if rows.len() > 0 {
        let front = rows.drop_last();
        lemma_keep_rejected(front, accept);
        if !accept(rows.last()) {
            assert(reject(rows, accept).drop_last() =~= reject(front, accept));
        }
    }
}

/// A thinning leaves alone what another search keeps, if the two accept no
/// row in common.
pub proof fn lemma_keep_apart<T>(
    rows: Seq<T>,
    accept: spec_fn(T) -> bool,
    thinned: spec_fn(T) -> bool,
)
    requires
        forall|row: T| #[trigger] accept(row) ==> !thinned(row),
    ensures
        keep(reject(rows, thinned), accept) == keep(rows, accept),
    decreases rows.len(),
{
    if rows.len() > 0 {
        let front = rows.drop_last();
        lemma_keep_apart(front, accept, thinned);
        if !thinned(rows.last()) {
            assert(reject(rows, thinned).drop_last() =~= reject(front, thinned));
        } else {
            assert(!accept(rows.last()));
        }
    }
}

/// Where nothing is kept, no narrower search finds a row.
pub proof fn lemma_kept_none_found_none<T>(
    rows: Seq<T>,
    kept: spec_fn(T) -> bool,
    sought: spec_fn(T) -> bool,
)
    requires
        keep(rows, kept).len() == 0,
        forall|row: T| #[trigger] sought(row) ==> kept(row),
    ensures
        find(rows, sought) is None,
    decreases rows.len(),
{
    if rows.len() > 0 {
        if kept(rows.last()) {
            assert(keep(rows, kept).len() > 0);
        } else {
            lemma_kept_none_found_none(rows.drop_last(), kept, sought);
        }
    }
}

/// In an ascending table no row has a rank at or above the bound.
pub proof fn lemma_find_beyond<T>(
    rows: Seq<T>,
    accept: spec_fn(T) -> bool,
    rank: spec_fn(T) -> int,
    bound: int,
    sought: int,
)
    requires
        ascending(rows, rank, bound),
        sought >= bound,
        forall|row: T| #[trigger] accept(row) ==> rank(row) == sought,
    ensures
        find(rows, accept) is None,
    decreases rows.len(),
{
    if rows.len() > 0 {
        lemma_ascending_bound(rows.drop_last(), rank, rank(rows.last()), bound);
        lemma_find_beyond(rows.drop_last(), accept, rank, bound, sought);
    }
}

/// The ranks fall, or stay, from each row to the next.
pub open spec fn falling<T>(rows: Seq<T>, rank: spec_fn(T) -> int) -> bool {
    forall|i: int, j: int|
        0 <= i < j < rows.len() ==> rank(#[trigger] rows[i]) >= rank(#[trigger] rows[j])
}

/// The ranks fall strictly from each row to the next.
pub open spec fn strictly_falling<T>(rows: Seq<T>, rank: spec_fn(T) -> int) -> bool {
    forall|i: int, j: int|
        0 <= i < j < rows.len() ==> rank(#[trigger] rows[i]) > rank(#[trigger] rows[j])
}

/// An ascending table read backwards falls strictly.
pub proof fn lemma_reversed_falls<T>(rows: Seq<T>, rank: spec_fn(T) -> int, bound: int)
    requires
        ascending(rows, rank, bound),
    ensures
        strictly_falling(reversed(rows), rank),
        reversed(rows).len() == rows.len(),
{
    lemma_ascending_index(rows, rank, bound);
    let back = reversed(rows);
    assert forall|i: int, j: int| 0 <= i < j < back.len() implies rank(#[trigger] back[i]) > rank(
        #[trigger] back[j],
    ) by {
        assert(back[i] == rows[rows.len() - 1 - i]);
        assert(back[j] == rows[rows.len() - 1 - j]);
    }
}

/// Placing a row in a falling table leaves it falling and adds that row and
/// no other.
pub proof fn lemma_place_falls<T>(sorted: Seq<T>, row: T, rank: spec_fn(T) -> int)
    requires
        falling(sorted, rank),
    ensures
        falling(place(sorted, row, rank), rank),
        place(sorted, row, rank).to_multiset() == sorted.to_multiset().insert(row),
        place(sorted, row, rank).len() == sorted.len() + 1,
    decreases sorted.len(),
{
    broadcast use vstd::seq_lib::group_to_multiset_ensures;

    if sorted.len() == 0 {
        assert(seq![row] =~= sorted.push(row));
    } else if rank(sorted.last()) >= rank(row) {
        let placed = sorted.push(row);
        assert forall|i: int, j: int| 0 <= i < j < placed.len() implies rank(
            #[trigger] placed[i],
        ) >= rank(#[trigger] placed[j]) by {
            assert(placed[i] == sorted[i]);
            if j < sorted.len() {
                assert(placed[j] == sorted[j]);
            } else {
                assert(sorted[sorted.len() - 1] == sorted.last());
                if i < sorted.len() - 1 {
                    assert(rank(sorted[i]) >= rank(sorted[sorted.len() - 1]));
                }
            }
        }
    } else {
        let front = sorted.drop_last();
        assert forall|i: int, j: int| 0 <= i < j < front.len() implies rank(#[trigger] front[i])
            >= rank(#[trigger] front[j]) by {
            assert(front[i] == sorted[i] && front[j] == sorted[j]);
        }
        lemma_place_falls(front, row, rank);
        let inner = place(front, row, rank);
        let placed = inner.push(sorted.last());
        assert(front.push(sorted.last()) =~= sorted);
        assert forall|k: int| 0 <= k < inner.len() implies rank(#[trigger] inner[k]) >= rank(
            sorted.last(),
        ) by {
            assert(inner.to_multiset().count(inner[k]) > 0);
            if inner[k] != row {
                assert(front.to_multiset().count(inner[k]) > 0);
                assert(front.contains(inner[k]));
                let m = choose|m: int| 0 <= m < front.len() && front[m] == inner[k];
                assert(sorted[m] == inner[k]);
                assert(sorted[sorted.len() - 1] == sorted.last());
            }
        }
        assert forall|i: int, j: int| 0 <= i < j < placed.len() implies rank(
            #[trigger] placed[i],
        ) >= rank(#[trigger] placed[j]) by {
            assert(placed[i] == inner[i]);
            if j < inner.len() {
                assert(placed[j] == inner[j]);
            }
        }
        assert(placed.to_multiset() =~= sorted.to_multiset().insert(row));
    }
}

/// Ordering a table by falling rank yields a falling table of the same rows.
pub proof fn lemma_descending_falls<T>(rows: Seq<T>, rank: spec_fn(T) -> int)
    ensures
        falling(descending(rows, rank), rank),
        descending(rows, rank).to_multiset() == rows.to_multiset(),
        descending(rows, rank).len() == rows.len(),
    decreases rows.len(),
{
    broadcast use vstd::seq_lib::group_to_multiset_ensures;

    if rows.len() > 0 {
        lemma_descending_falls(rows.drop_last(), rank);
        lemma_place_falls(descending(rows.drop_last(), rank), rows.last(), rank);
        assert(rows.drop_last().push(rows.last()) =~= rows);
    } else {
        assert(rows =~= Seq::<T>::empty());
    }
}

/// A key occurs in a table exactly if some row has it.
pub proof fn lemma_occurs_index<T, K>(rows: Seq<T>, key: spec_fn(T) -> K, k: K)
    ensures
        occurs(rows, key, k) <==> exists|i: int| 0 <= i < rows.len() && key(#[trigger] rows[i]) == k,
    decreases rows.len(),
{
    if rows.len() > 0 {
        let front = rows.drop_last();
        lemma_occurs_index(front, key, k);
        if occurs(rows, key, k) {
            if key(rows.last()) == k {
                assert(key(rows[rows.len() - 1]) == k);
            } else {
                let i = choose|i: int| 0 <= i < front.len() && key(#[trigger] front[i]) == k;
                assert(key(rows[i]) == k);
            }
        }
        if exists|i: int| 0 <= i < rows.len() && key(#[trigger] rows[i]) == k {
            let i = choose|i: int| 0 <= i < rows.len() && key(#[trigger] rows[i]) == k;
            if i < front.len() {
                assert(key(front[i]) == k);
            }
        }
    }
}

/// In a table without duplicates the rows at two positions differ in their
/// keys.
pub proof fn lemma_distinct_index<T, K>(rows: Seq<T>, key: spec_fn(T) -> K)
    requires
        distinct(rows, key),
    ensures
        forall|i: int, j: int|
            0 <= i < j < rows.len() ==> key(#[trigger] rows[i]) != key(#[trigger] rows[j]),
    decreases rows.len(),
{
    if rows.len() > 0 {
        let front = rows.drop_last();
        lemma_distinct_index(front, key);
        lemma_occurs_index(front, key, key(rows.last()));
        assert forall|i: int, j: int| 0 <= i < j < rows.len() implies key(#[trigger] rows[i])
            != key(#[trigger] rows[j]) by {
            assert(rows[i] == front[i]);
            if j < front.len() {
                assert(rows[j] == front[j]);
            } else {
                assert(rows[j] == rows.last());
            }
        }
    }
}

/// A search that finds nothing accepts no row.
pub proof fn lemma_find_none_at<T>(rows: Seq<T>, accept: spec_fn(T) -> bool, i: int)
    requires
        find(rows, accept) is None,
        0 <= i < rows.len(),
    ensures
        !accept(rows[i]),
    decreases rows.len(),
{
    if i < rows.len() - 1 {
        lemma_find_none_at(rows.drop_last(), accept, i);
    }
}

} // verus!
