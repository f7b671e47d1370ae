//! What the store guarantees, proved of every operation carried out against
//! the model of the database.
//!
//! Each law speaks of `save`, `list` and `clear`: an operation begun as
//! `save_quiz_history`, `get_quiz_history` and `clear_quiz_history` begin it,
//! and carried out statement by statement as `Session::advance` directs. A
//! law that asks for a quiet environment holds when no statement fails for
//! reasons of its own; the others hold whatever fails and whenever.

use vstd::prelude::*;
use crate::conduct::{
    clear, emptied, keeps_objects, lemma_clear, lemma_list, lemma_save, list, record_at, records,
    save, stored, with_schema,
};
use crate::database::{Database, Environment, Tables, as_held, newest_first, place};
use crate::error::ErrorKind;
use crate::order::{
    lemma_filter_drops, lemma_filter_keeps, lemma_map_keeps_multiset,
    lemma_newest_first_descending, lemma_newest_first_len, lemma_newest_first_permutes,
    lemma_newest_first_stable, lemma_place,
};
use crate::record::{QuizHistoryView, is_nan};
use crate::row::{
    ResultRowView, encodable, history_row_of, record_of, result_of, result_rows_of, results_of,
};
use crate::session::OutcomeView;

verus! {

/// Saving is all or nothing, whatever fails and whenever.
///
/// On a database at rest a save ends in one of two ways. Either it reports
/// success: then the identifier was not stored before, the whole schema
/// exists, and the row of the record and all its result rows stand behind the
/// rows that were there. Or it reports an error: then both tables hold the
/// rows they held before, so that no part of the record can be seen. Either
/// way no transaction is left open, no schema object is lost, and none is
/// there that is not of the schema or was not there before.
pub proof fn law_save_all_or_nothing(history: QuizHistoryView, db: Database, env: Environment)
    requires
        db.idle(),
    ensures
        ({
            let (outcome, end) = save(history, db, env);
            &&& end.idle()
            &&& keeps_objects(db.tables, end.tables)
            &&& keeps_objects(end.tables, with_schema(db.tables))
            &&& {
                ||| {
                    &&& outcome is Saved
                    &&& end.tables == stored(db.tables, history)
                    &&& !db.tables.has_id(history.id)
                }
                ||| outcome is Failed && end.tables.same_rows(db.tables)
            }
        }),
{
    lemma_save(history_row_of(history), result_rows_of(history), db, env);
}

/// A save succeeds where nothing stands in its way: on a database at rest in
/// which the identifier is not stored, for a record whose name lists can be
/// encoded and whose accuracy is a number, when no statement fails for
/// reasons of its own.
pub proof fn law_save_succeeds(history: QuizHistoryView, db: Database, env: Environment)
    requires
        db.idle(),
        env.quiet(),
        encodable(history),
        !is_nan(history.accuracy_bits),
        !db.tables.has_id(history.id),
    ensures
        save(history, db, env).0 is Saved,
{
    lemma_save(history_row_of(history), result_rows_of(history), db, env);
}

/// An identifier is stored once: a save of a record whose identifier is
/// stored already fails with a constraint error and leaves every row as it
/// was, when no statement fails for reasons of its own.
pub proof fn law_save_refuses_stored_identifier(
    history: QuizHistoryView,
    db: Database,
    env: Environment,
)
    requires
        db.idle(),
        env.quiet(),
        db.tables.has_id(history.id),
    ensures
        ({
            let (outcome, end) = save(history, db, env);
            &&& outcome.failed_with(ErrorKind::Constraint)
            &&& end.tables.same_rows(db.tables)
            &&& end.idle()
        }),
{
    lemma_save(history_row_of(history), result_rows_of(history), db, env);
}

/// An accuracy that is no number is not stored: a save of such a record fails
/// with a constraint error and leaves every row as it was, when no statement
/// fails for reasons of its own.
pub proof fn law_save_refuses_what_is_no_number(
    history: QuizHistoryView,
    db: Database,
    env: Environment,
)
    requires
        db.idle(),
        env.quiet(),
        is_nan(history.accuracy_bits),
    ensures
        ({
            let (outcome, end) = save(history, db, env);
            &&& outcome.failed_with(ErrorKind::Constraint)
            &&& end.tables.same_rows(db.tables)
            &&& end.idle()
        }),
{
    lemma_save(history_row_of(history), result_rows_of(history), db, env);
}

/// Listing changes no row, whatever fails and whenever. It ends with the
/// records of the tables, most recent first, or with an error; with the
/// records when no statement fails for reasons of its own.
pub proof fn law_list_reads(db: Database, env: Environment)
    requires
        db.idle(),
    ensures
        ({
            let (outcome, end) = list(db, env);
            &&& end.idle()
            &&& end.tables.same_rows(db.tables)
            &&& keeps_objects(db.tables, end.tables)
            &&& keeps_objects(end.tables, with_schema(db.tables))
            &&& outcome == OutcomeView::Listed(records(db.tables, env)) || outcome is Failed
            &&& outcome is Listed ==> end.tables == with_schema(db.tables)
            &&& env.quiet() ==> outcome is Listed
        }),
{
    lemma_list(db, env);
}

/// Clearing is all or nothing, whatever fails and whenever: it ends with the
/// whole schema and both tables empty, or with an error and every row as it
/// was. It ends with both tables empty when no statement fails for reasons of
/// its own, also where they were empty before.
pub proof fn law_clear_all_or_nothing(db: Database, env: Environment)
    requires
        db.idle(),
    ensures
        ({
            let (outcome, end) = clear(db, env);
            &&& end.idle()
            &&& keeps_objects(db.tables, end.tables)
            &&& keeps_objects(end.tables, with_schema(db.tables))
            &&& {
                ||| outcome is Cleared && end.tables == emptied(db.tables)
                ||| outcome is Failed && end.tables.same_rows(db.tables)
            }
            &&& env.quiet() ==> outcome is Cleared
        }),
{
    lemma_clear(db, env);
}

/// Whether a listing holds `history`: one record is the same quiz as
/// `history`, and no other record has its identifier.
pub open spec fn holds(listed: Seq<QuizHistoryView>, history: QuizHistoryView) -> bool {
    exists|k: int|
        {
            &&& 0 <= k < listed.len()
            &&& (#[trigger] listed[k]).same_quiz(history)
            &&& forall|j: int|
                0 <= j < listed.len() && j != k ==> (#[trigger] listed[j]).id != history.id
        }
}

/// Whether an operation ended with a listing that holds `history`.
pub open spec fn lists(outcome: OutcomeView, history: QuizHistoryView) -> bool {
    outcome matches OutcomeView::Listed(listed) && holds(listed, history)
}

/// Every ordered row is a stored row.
proof fn lemma_newest_first_has_id(tables: Tables, j: int)
    requires
        0 <= j < newest_first(tables.history).len(),
    ensures
        tables.has_id(newest_first(tables.history)[j].id),
{
    broadcast use vstd::seq_lib::group_to_multiset_ensures;

    let ordered = newest_first(tables.history);
    lemma_newest_first_permutes(tables.history);
    assert(ordered.contains(ordered[j]));
    assert(ordered.to_multiset().count(ordered[j]) > 0);
    assert(tables.history.contains(ordered[j]));
    let i = choose|i: int| 0 <= i < tables.history.len() && tables.history[i] == ordered[j];
    assert(tables.history[i].id == ordered[j].id);
}

/// The result rows of a record that has just been stored are the rows of its
/// results, in their order.
proof fn lemma_stored_results(tables: Tables, history: QuizHistoryView)
    requires
        tables.intact(),
        !tables.has_id(history.id),
    ensures
        stored(tables, history).results_for(history.id) == result_rows_of(history),
{
    let children = result_rows_of(history);
    let pred = |r: ResultRowView| r.quiz_id == history.id;
    assert forall|i: int| 0 <= i < tables.results.len() implies !pred(
        #[trigger] tables.results[i],
    ) by {
        assert(tables.has_id(tables.results[i].quiz_id));
    }
    lemma_filter_drops(tables.results, pred);
    lemma_filter_keeps(children, pred);
    Seq::filter_distributes_over_add(tables.results, children, pred);
    assert(Seq::<ResultRowView>::empty() + children =~= children);
}

/// The row of a record, as the table holds it, and its result rows, in
/// whatever order, stand for the same quiz.
proof fn lemma_rows_round_trip(history: QuizHistoryView, back: Seq<ResultRowView>)
    requires
        encodable(history),
        !is_nan(history.accuracy_bits),
        back.to_multiset() == result_rows_of(history).to_multiset(),
    ensures
        record_of(as_held(history_row_of(history)), back).same_quiz(history),
{
    let children = result_rows_of(history);
    lemma_map_keeps_multiset(back, children, |r: ResultRowView| result_of(r));
    assert(results_of(children) =~= history.results);
}

/// The records of tables in which a record has just been stored hold it.
proof fn lemma_stored_is_listed(tables: Tables, history: QuizHistoryView, env: Environment)
    requires
        tables.intact(),
        env.fair(),
        encodable(history),
        !is_nan(history.accuracy_bits),
        !tables.has_id(history.id),
    ensures
        holds(records(stored(tables, history), env), history),
{
    let after = stored(tables, history);
    let parent = as_held(history_row_of(history));
    let earlier = newest_first(tables.history);
    let ordered = newest_first(after.history);
    let all = records(after, env);
    let k = place(earlier, parent);
    assert(after.history.drop_last() =~= tables.history);
    assert(ordered == earlier.insert(k, parent));
    lemma_place(earlier, parent);
    lemma_newest_first_len(tables.history);
    assert(ordered[k] == parent);
    assert(all[k].same_quiz(history)) by {
        lemma_stored_results(tables, history);
        lemma_rows_round_trip(history, (env.order)(result_rows_of(history)));
        assert(all[k] == record_at(after, env, parent));
    }
    assert forall|j: int| 0 <= j < all.len() && j != k implies (#[trigger] all[j]).id
        != history.id by {
        let i = if j < k {
            j
        } else {
            j - 1
        };
        assert(ordered[j] == earlier[i]);
        lemma_newest_first_has_id(tables, i);
    }
}

/// What is saved is listed.
///
/// Take a database at rest with intact tables in which the identifier of
/// `history` is not stored, a record whose accuracy is a number and whose
/// name lists can be encoded, and let no statement fail for reasons of its
/// own. Then the save succeeds, and a
/// listing that follows holds the record: one listed record has all the
/// fields of `history`, the accuracy as a number, the two name lists in their
/// order and the same results as a multiset, and no other listed record has
/// its identifier. This holds in whatever order the result rows come back.
pub proof fn law_round_trip(
    history: QuizHistoryView,
    db: Database,
    env_save: Environment,
    env_list: Environment,
)
    requires
        db.sound(),
        env_save.quiet(),
        env_list.quiet(),
        env_list.fair(),
        encodable(history),
        !is_nan(history.accuracy_bits),
        !db.tables.has_id(history.id),
    ensures
        ({
            let (saved, mid) = save(history, db, env_save);
            let (listed, end) = list(mid, env_list);
            saved is Saved && lists(listed, history)
        }),
{
    let mid = save(history, db, env_save).1;
    law_save_succeeds(history, db, env_save);
    law_save_all_or_nothing(history, db, env_save);
    law_list_reads(mid, env_list);
    lemma_stored_is_listed(db.tables, history, env_list);
}

/// A listing gives one record for each stored quiz.
pub proof fn law_list_gives_every_quiz(db: Database, env: Environment)
    requires
        db.idle(),
    ensures
        list(db, env).0 matches OutcomeView::Listed(listed) ==> listed.len()
            == db.tables.history.len(),
{
    law_list_reads(db, env);
    lemma_newest_first_len(db.tables.history);
}

/// A save leaves the other records as they are: the record that a listing
/// assembles for a quiz row that was there before is the same after the save
/// as before it, however the save ended.
pub proof fn law_save_keeps_other_records(
    history: QuizHistoryView,
    db: Database,
    env_save: Environment,
    env_list: Environment,
    i: int,
)
    requires
        db.idle(),
        0 <= i < db.tables.history.len(),
    ensures
        ({
            let end = save(history, db, env_save).1;
            let row = db.tables.history[i];
            &&& end.tables.history[i] == row
            &&& record_at(end.tables, env_list, row) == record_at(db.tables, env_list, row)
        }),
{
    let end = save(history, db, env_save).1;
    let row = db.tables.history[i];
    law_save_all_or_nothing(history, db, env_save);
    if save(history, db, env_save).0 is Saved {
        let children = result_rows_of(history);
        let pred = |r: ResultRowView| r.quiz_id == row.id;
        assert(row.id != history.id);
        lemma_filter_drops(children, pred);
        Seq::filter_distributes_over_add(db.tables.results, children, pred);
        assert(db.tables.results.filter(pred) + Seq::<ResultRowView>::empty()
            =~= db.tables.results.filter(pred));
    }
}

/// A second save under a stored identifier is refused.
///
/// When a record has been saved, a save of a record with the same identifier
/// fails with a constraint error, and both tables hold the rows that the
/// first save left: the first record's data, and nothing of the second.
pub proof fn law_second_save_refused(
    first: QuizHistoryView,
    second: QuizHistoryView,
    db: Database,
    env_first: Environment,
    env_second: Environment,
)
    requires
        db.idle(),
        env_second.quiet(),
        first.id == second.id,
        save(first, db, env_first).0 is Saved,
    ensures
        ({
            let (saved, mid) = save(first, db, env_first);
            let (refused, end) = save(second, mid, env_second);
            &&& refused.failed_with(ErrorKind::Constraint)
            &&& end.tables.same_rows(mid.tables)
            &&& mid.tables == stored(db.tables, first)
        }),
{
    let mid = save(first, db, env_first).1;
    law_save_all_or_nothing(first, db, env_first);
    assert(mid.tables.has_id(second.id)) by {
        assert(mid.tables.history[db.tables.history.len() as int].id == second.id);
    }
    law_save_refuses_stored_identifier(second, mid, env_second);
}

/// Tables without rows have no records.
proof fn lemma_no_rows_no_records(tables: Tables, env: Environment)
    requires
        tables.history.len() == 0,
    ensures
        records(tables, env) == Seq::<QuizHistoryView>::empty(),
{
    assert(records(tables, env) =~= Seq::<QuizHistoryView>::empty());
}

/// After a clearing nothing is left.
///
/// Whatever was saved before, and however that save ended: when no statement
/// of the clearing fails for reasons of its own, the clearing succeeds, both
/// tables are empty afterwards, so that no result row is left without its
/// quiz, and a listing that follows gives no record.
pub proof fn law_clear_after_save(
    history: QuizHistoryView,
    db: Database,
    env_save: Environment,
    env_clear: Environment,
    env_list: Environment,
)
    requires
        db.idle(),
        env_clear.quiet(),
        env_list.quiet(),
    ensures
        ({
            let (saved, mid) = save(history, db, env_save);
            let (cleared, after) = clear(mid, env_clear);
            let (listed, end) = list(after, env_list);
            &&& cleared is Cleared
            &&& after.tables.is_empty()
            &&& listed == OutcomeView::Listed(Seq::empty())
        }),
{
    let mid = save(history, db, env_save).1;
    let after = clear(mid, env_clear).1;
    law_save_all_or_nothing(history, db, env_save);
    law_clear_all_or_nothing(mid, env_clear);
    law_list_reads(after, env_list);
    lemma_no_rows_no_records(after.tables, env_list);
}

/// Clearing twice is clearing once.
///
/// However a first clearing ended: a second one, of which no statement fails
/// for reasons of its own, succeeds and leaves both tables empty, and a
/// listing that follows gives no record. Where the first succeeded, the
/// second changes nothing.
pub proof fn law_clear_twice(
    db: Database,
    env_first: Environment,
    env_second: Environment,
    env_list: Environment,
)
    requires
        db.idle(),
        env_second.quiet(),
        env_list.quiet(),
    ensures
        ({
            let (first, mid) = clear(db, env_first);
            let (second, after) = clear(mid, env_second);
            let (listed, end) = list(after, env_list);
            &&& second is Cleared
            &&& after.tables.is_empty()
            &&& listed == OutcomeView::Listed(Seq::empty())
            &&& first is Cleared ==> after == mid
        }),
{
    let mid = clear(db, env_first).1;
    let after = clear(mid, env_second).1;
    law_clear_all_or_nothing(db, env_first);
    law_clear_all_or_nothing(mid, env_second);
    law_list_reads(after, env_list);
    lemma_no_rows_no_records(after.tables, env_list);
    if clear(db, env_first).0 is Cleared {
        assert(with_schema(mid.tables).objects =~= mid.tables.objects);
    }
}

/// A failed save shows nothing.
///
/// When a save fails, at whatever statement and for whatever reason, a
/// listing that follows gives the records that were there before the save,
/// and none of them has the identifier of the record that was not saved,
/// unless it was stored before.
pub proof fn law_failed_save_is_not_listed(
    history: QuizHistoryView,
    db: Database,
    env_save: Environment,
    env_list: Environment,
)
    requires
        db.idle(),
        env_list.quiet(),
        save(history, db, env_save).0 is Failed,
    ensures
        ({
            let (failed, mid) = save(history, db, env_save);
            let (listed, end) = list(mid, env_list);
            let before = records(db.tables, env_list);
            &&& listed == OutcomeView::Listed(before)
            &&& !db.tables.has_id(history.id) ==> forall|j: int|
                0 <= j < before.len() ==> (#[trigger] before[j]).id != history.id
        }),
{
    let mid = save(history, db, env_save).1;
    let before = records(db.tables, env_list);
    law_save_all_or_nothing(history, db, env_save);
    law_list_reads(mid, env_list);
    assert(records(mid.tables, env_list) == before);
    lemma_newest_first_len(db.tables.history);
    assert forall|j: int|
        0 <= j < before.len() && !db.tables.has_id(history.id) implies (#[trigger] before[j]).id
        != history.id by {
        lemma_newest_first_has_id(db.tables, j);
    }
}

/// Whether the records stand most recent first.
pub open spec fn most_recent_first(listed: Seq<QuizHistoryView>) -> bool {
    forall|i: int, j: int|
        0 <= i < listed.len() && 0 <= j < listed.len() && (#[trigger] listed[i]).date > (
        #[trigger] listed[j]).date ==> i < j
}

/// A listing gives the records most recent first: of two listed records with
/// different dates the more recent one stands before the other.
pub proof fn law_list_most_recent_first(db: Database, env: Environment)
    requires
        db.idle(),
    ensures
        list(db, env).0 matches OutcomeView::Listed(listed) ==> most_recent_first(listed),
{
    law_list_reads(db, env);
    lemma_newest_first_descending(db.tables.history);
    lemma_newest_first_len(db.tables.history);
    let ordered = newest_first(db.tables.history);
    let all = records(db.tables, env);
    assert forall|i: int, j: int|
        0 <= i < all.len() && 0 <= j < all.len() && (#[trigger] all[i]).date > (
        #[trigger] all[j]).date implies i < j by {
        assert(all[i].date == ordered[i].date);
        assert(all[j].date == ordered[j].date);
    }
}

/// Whether a record with the identifier `first` stands before one with the
/// identifier `second` somewhere in the listing.
pub open spec fn listed_before(
    listed: Seq<QuizHistoryView>,
    first: Seq<char>,
    second: Seq<char>,
) -> bool {
    exists|p: int, q: int|
        0 <= p < q < listed.len() && (#[trigger] listed[p]).id == first && (
        #[trigger] listed[q]).id == second
}

/// Records of one date are listed in the order in which they were saved: of
/// two stored quizzes, the one that was stored first stands first in a
/// listing unless the other is more recent.
pub proof fn law_list_keeps_order_of_saving(db: Database, env: Environment, i: int, j: int)
    requires
        db.idle(),
        0 <= i < j < db.tables.history.len(),
        db.tables.history[i].date >= db.tables.history[j].date,
    ensures
        list(db, env).0 matches OutcomeView::Listed(listed) ==> listed_before(
            listed,
            db.tables.history[i].id,
            db.tables.history[j].id,
        ),
{
    law_list_reads(db, env);
    lemma_newest_first_stable(db.tables.history, i, j);
    lemma_newest_first_len(db.tables.history);
    let ordered = newest_first(db.tables.history);
    let all = records(db.tables, env);
    let (p, q) = choose|p: int, q: int|
        0 <= p < q < ordered.len() && #[trigger] ordered[p] == db.tables.history[i]
            && #[trigger] ordered[q] == db.tables.history[j];
    assert(all[p].id == ordered[p].id);
    assert(all[q].id == ordered[q].id);
}

/// Storing a record under a new identifier keeps the tables intact.
proof fn lemma_stored_intact(tables: Tables, history: QuizHistoryView)
    requires
        tables.intact(),
        !tables.has_id(history.id),
    ensures
        stored(tables, history).intact(),
{
    let after = stored(tables, history);
    let last = tables.history.len() as int;
    assert forall|k: int| 0 <= k < after.results.len() implies after.has_id(
        (#[trigger] after.results[k]).quiz_id,
    ) by {
        if k < tables.results.len() {
            assert(tables.has_id(tables.results[k].quiz_id));
            let w = choose|w: int|
                0 <= w < tables.history.len() && #[trigger] tables.history[w].id
                    == tables.results[k].quiz_id;
            assert(after.history[w].id == after.results[k].quiz_id);
        } else {
            assert(after.history[last].id == after.results[k].quiz_id);
        }
    }
    assert forall|a: int, b: int| 0 <= a < b < after.history.len() implies (
    #[trigger] after.history[a]).id != (#[trigger] after.history[b]).id by {
        if b == last {
            assert(tables.history[a].id != history.id);
        } else {
            assert(after.history[a] == tables.history[a]);
            assert(after.history[b] == tables.history[b]);
        }
    }
}

/// Integrity is a matter of the rows alone.
proof fn lemma_same_rows_intact(before: Tables, after: Tables)
    requires
        before.intact(),
        after.same_rows(before),
    ensures
        after.intact(),
{
    assert forall|k: int| 0 <= k < after.results.len() implies after.has_id(
        (#[trigger] after.results[k]).quiz_id,
    ) by {
        assert(before.has_id(before.results[k].quiz_id));
    }
}

/// The integrity of the tables is kept by every operation, however it ends:
/// after a save, a listing or a clearing of a database at rest with intact
/// tables, the database is at rest with intact tables again.
pub proof fn law_integrity_is_kept(history: QuizHistoryView, db: Database, env: Environment)
    requires
        db.sound(),
    ensures
        save(history, db, env).1.sound(),
        list(db, env).1.sound(),
        clear(db, env).1.sound(),
{
    law_save_all_or_nothing(history, db, env);
    law_list_reads(db, env);
    law_clear_all_or_nothing(db, env);
    if save(history, db, env).0 is Saved {
        lemma_stored_intact(db.tables, history);
    } else {
        lemma_same_rows_intact(db.tables, save(history, db, env).1.tables);
    }
    lemma_same_rows_intact(db.tables, list(db, env).1.tables);
    if clear(db, env).0 is Failed {
        lemma_same_rows_intact(db.tables, clear(db, env).1.tables);
    }
}

/// The schema is created once.
///
/// Every operation begins by creating what is missing of the schema. Where
/// the whole schema exists already this changes nothing: a listing, however
/// it ends, then leaves the database exactly as it was.
pub proof fn law_schema_is_created_once(db: Database, env: Environment)
    requires
        db.idle(),
        db.tables.has_schema(),
    ensures
        list(db, env).1 == db,
{
    law_list_reads(db, env);
    let end = list(db, env).1;
    assert(with_schema(db.tables).objects =~= db.tables.objects);
    assert(end.tables.objects =~= db.tables.objects);
}

} // verus!
