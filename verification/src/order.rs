//! Facts about the order of a listing and about sequences in general.

use vstd::prelude::*;
use crate::database::{newest_first, place};
use crate::row::HistoryRowView;

verus! {

/// The place of a row lies within the sequence or at its end; the rows before
/// it are at least as recent as the row, and the row at it, if any, is older.
pub proof fn lemma_place(sorted: Seq<HistoryRowView>, row: HistoryRowView)
    ensures
        0 <= place(sorted, row) <= sorted.len(),
        forall|j: int| 0 <= j < place(sorted, row) ==> (#[trigger] sorted[j]).date >= row.date,
        place(sorted, row) < sorted.len() ==> sorted[place(sorted, row)].date < row.date,
    decreases sorted.len(),
{
    if !(sorted.len() == 0 || sorted[0].date < row.date) {
        let rest = sorted.drop_first();
        lemma_place(rest, row);
        assert forall|j: int| 0 <= j < place(sorted, row) implies (#[trigger] sorted[j]).date
            >= row.date by {
            if j > 0 {
                assert(sorted[j] == rest[j - 1]);
            }
        }
        if place(sorted, row) < sorted.len() {
            assert(sorted[place(sorted, row)] == rest[place(rest, row)]);
        }
    }
}

/// Ordering the rows neither adds nor drops one.
pub proof fn lemma_newest_first_len(history: Seq<HistoryRowView>)
    ensures
        newest_first(history).len() == history.len(),
    decreases history.len(),
{
    if history.len() > 0 {
        let earlier = newest_first(history.drop_last());
        lemma_newest_first_len(history.drop_last());
        lemma_place(earlier, history.last());
    }
}

/// Whether the rows stand most recent first.
pub open spec fn descending(rows: Seq<HistoryRowView>) -> bool {
    forall|i: int, j: int|
        0 <= i < j < rows.len() ==> (#[trigger] rows[i]).date >= (#[trigger] rows[j]).date
}

/// The ordered rows stand most recent first.
pub proof fn lemma_newest_first_descending(history: Seq<HistoryRowView>)
    ensures
        descending(newest_first(history)),
    decreases history.len(),
{
    if history.len() > 0 {
        let earlier = newest_first(history.drop_last());
        let row = history.last();
        let p = place(earlier, row);
        let all = newest_first(history);
        lemma_newest_first_descending(history.drop_last());
        lemma_place(earlier, row);
        assert forall|i: int, j: int| 0 <= i < j < all.len() implies (#[trigger] all[i]).date >= (
        #[trigger] all[j]).date by {
            if i < p && j > p {
                assert(all[i] == earlier[i]);
                assert(all[j] == earlier[j - 1]);
            } else if i < p && j == p {
                assert(all[i] == earlier[i]);
            } else if i < p {
                assert(all[i] == earlier[i]);
                assert(all[j] == earlier[j]);
            } else if i == p {
                assert(all[j] == earlier[j - 1]);
                assert(earlier[p].date < row.date);
                if j - 1 > p {
                    assert(earlier[p].date >= earlier[j - 1].date);
                }
            } else {
                assert(all[i] == earlier[i - 1]);
                assert(all[j] == earlier[j - 1]);
            }
        }
    }
}

/// The ordered rows are the stored rows, each as often as it is stored.
pub proof fn lemma_newest_first_permutes(history: Seq<HistoryRowView>)
    ensures
        newest_first(history).to_multiset() == history.to_multiset(),
    decreases history.len(),
{
    broadcast use vstd::seq_lib::group_to_multiset_ensures;

    if history.len() > 0 {
        let earlier = newest_first(history.drop_last());
        let row = history.last();
        lemma_newest_first_permutes(history.drop_last());
        lemma_place(earlier, row);
        vstd::seq_lib::to_multiset_insert(earlier, place(earlier, row), row);
        assert(history.drop_last().push(row) =~= history);
    } else {
        assert(newest_first(history) =~= history);
    }
}

/// A filter that every item passes keeps the sequence as it is.
pub proof fn lemma_filter_keeps<A>(items: Seq<A>, pred: spec_fn(A) -> bool)
    requires
        forall|i: int| 0 <= i < items.len() ==> pred(#[trigger] items[i]),
    ensures
        items.filter(pred) == items,
    decreases items.len(),
{
    reveal(Seq::filter);
    if items.len() > 0 {
        lemma_filter_keeps(items.drop_last(), pred);
        assert(items.drop_last().push(items.last()) =~= items);
    }
}

/// A filter that no item passes leaves nothing.
pub proof fn lemma_filter_drops<A>(items: Seq<A>, pred: spec_fn(A) -> bool)
    requires
        forall|i: int| 0 <= i < items.len() ==> !pred(#[trigger] items[i]),
    ensures
        items.filter(pred) == Seq::<A>::empty(),
    decreases items.len(),
{
    reveal(Seq::filter);
    if items.len() > 0 {
        lemma_filter_drops(items.drop_last(), pred);
    } else {
        assert(items =~= Seq::<A>::empty());
    }
}

/// Two sequences that hold the same items equally often still do so after
/// the same function has been applied to every item.
pub proof fn lemma_map_keeps_multiset<A, B>(left: Seq<A>, right: Seq<A>, f: spec_fn(A) -> B)
    requires
        left.to_multiset() == right.to_multiset(),
    ensures
        left.map_values(f).to_multiset() == right.map_values(f).to_multiset(),
    decreases left.len(),
{
    broadcast use vstd::seq_lib::group_to_multiset_ensures;

    assert(left.len() == right.len()) by {
        assert(left.to_multiset().len() == left.len());
        assert(right.to_multiset().len() == right.len());
    }
    if left.len() == 0 {
        assert(left.map_values(f) =~= right.map_values(f));
    } else {
        let x = left.last();
        assert(left.drop_last().push(x) =~= left);
        assert(left.to_multiset().count(x) > 0);
        assert(right.contains(x));
        let j = choose|j: int| 0 <= j < right.len() && right[j] == x;
        let rest = right.remove(j);
        vstd::seq_lib::to_multiset_remove(right, j);
        assert(left.drop_last() =~= left.remove(left.len() - 1));
        vstd::seq_lib::to_multiset_remove(left, left.len() - 1);
        lemma_map_keeps_multiset(left.drop_last(), rest, f);
        assert(left.map_values(f) =~= left.drop_last().map_values(f).push(f(x)));
        assert(right.map_values(f) =~= rest.map_values(f).insert(j, f(x)));
        vstd::seq_lib::to_multiset_insert(rest.map_values(f), j, f(x));
    }
}

/// Whether `first` stands before `second` somewhere in `rows`.
pub open spec fn stands_before<A>(rows: Seq<A>, first: A, second: A) -> bool {
    exists|p: int, q: int|
        0 <= p < q < rows.len() && #[trigger] rows[p] == first && #[trigger] rows[q] == second
}

/// A row that was inserted before another and is at least as recent stands
/// before it in the ordered rows. So rows of one date keep the order of their
/// insertion.
pub proof fn lemma_newest_first_stable(history: Seq<HistoryRowView>, i: int, j: int)
    requires
        0 <= i < j < history.len(),
        history[i].date >= history[j].date,
    ensures
        stands_before(newest_first(history), history[i], history[j]),
    decreases history.len(),
{
    broadcast use vstd::seq_lib::group_to_multiset_ensures;

    let before = history.drop_last();
    let row = history.last();
    let earlier = newest_first(before);
    let k = place(earlier, row);
    let all = newest_first(history);
    lemma_place(earlier, row);
    lemma_newest_first_len(before);
    if j < history.len() - 1 {
        lemma_newest_first_stable(before, i, j);
        let (p, q) = choose|p: int, q: int|
            0 <= p < q < earlier.len() && #[trigger] earlier[p] == before[i]
                && #[trigger] earlier[q] == before[j];
        let shifted_p = if p < k {
            p
        } else {
            p + 1
        };
        let shifted_q = if q < k {
            q
        } else {
            q + 1
        };
        assert(all[shifted_p] == history[i]);
        assert(all[shifted_q] == history[j]);
    } else {
        lemma_newest_first_permutes(before);
        lemma_newest_first_descending(before);
        assert(before.contains(before[i]));
        assert(before.to_multiset().count(history[i]) > 0);
        assert(earlier.contains(history[i]));
        let p = choose|p: int| 0 <= p < earlier.len() && earlier[p] == history[i];
        if p >= k {
            assert(earlier[k].date < row.date);
            assert(earlier[k].date >= earlier[p].date);
        }
        assert(all[p] == history[i]);
        assert(all[k] == history[j]);
    }
}

} // verus!
