//! How an operation unfolds against the model of the database, phase by
//! phase: what it leaves behind, and how it may end.

use vstd::prelude::*;
use crate::database::{
    Database, Environment, SchemaObject, Tables, as_held, carry_out, newest_first, storable,
};
use crate::error::{ErrorKind, StoreErrorView};
use crate::order::lemma_newest_first_len;
use crate::record::QuizHistoryView;
use crate::row::{HistoryRowView, ResultRowView, history_row_of, record_of, result_rows_of};
use crate::session::{OutcomeView, PhaseView, SessionView, StepView, WorkView, first_step};
use crate::statement::{ReplyView, StatementView};

verus! {

/// The work of saving a quiz row with its result rows.
pub open spec fn save_work(parent: HistoryRowView, children: Seq<ResultRowView>) -> WorkView {
    WorkView::Save { parent, children }
}

/// The work of listing, before any row has been fetched.
pub open spec fn list_work() -> WorkView {
    WorkView::List { parents: Seq::empty(), listed: Seq::empty() }
}

/// Saving `history` into the database `db`: how it ends, and the database
/// after it.
pub open spec fn save(history: QuizHistoryView, db: Database, env: Environment) -> (
    OutcomeView,
    Database,
) {
    carry_out(
        first_step(save_work(history_row_of(history), result_rows_of(history))),
        db,
        env,
        0,
    )
}

/// Listing the records of the database `db`: how it ends, and the database
/// after it.
pub open spec fn list(db: Database, env: Environment) -> (OutcomeView, Database) {
    carry_out(first_step(list_work()), db, env, 0)
}

/// Clearing the database `db`: how it ends, and the database after it.
pub open spec fn clear(db: Database, env: Environment) -> (OutcomeView, Database) {
    carry_out(first_step(WorkView::Clear), db, env, 0)
}

/// The tables with the whole schema.
pub open spec fn with_schema(tables: Tables) -> Tables {
    Tables {
        objects: tables.objects.insert(SchemaObject::HistoryTable).insert(
            SchemaObject::DateIndex,
        ).insert(SchemaObject::DifficultyIndex).insert(SchemaObject::ResultsTable).insert(
            SchemaObject::PortIndex,
        ),
        ..tables
    }
}

/// Whether every schema object of `before` is one of `after`.
pub open spec fn keeps_objects(before: Tables, after: Tables) -> bool {
    before.objects.subset_of(after.objects)
}

/// The tables with the whole schema, and with a quiz row and its result rows
/// behind the rows that were there. The quiz row is as the table holds it.
pub open spec fn holding(tables: Tables, parent: HistoryRowView, children: Seq<ResultRowView>) -> Tables {
    Tables {
        objects: with_schema(tables).objects,
        history: tables.history.push(as_held(parent)),
        results: tables.results + children,
    }
}

/// The tables with the whole schema and with `history` stored behind what was
/// there: its row in the table of quizzes, its result rows in the table of
/// results.
pub open spec fn stored(tables: Tables, history: QuizHistoryView) -> Tables {
    holding(tables, history_row_of(history), result_rows_of(history))
}

/// The tables with the whole schema and no row in either of them.
pub open spec fn emptied(tables: Tables) -> Tables {
    Tables {
        objects: with_schema(tables).objects,
        history: Seq::empty(),
        results: Seq::empty(),
    }
}

/// The record that listing assembles for a quiz row: the row with the result
/// rows of its quiz, in the order in which they come back.
pub open spec fn record_at(tables: Tables, env: Environment, row: HistoryRowView) -> QuizHistoryView {
    record_of(row, (env.order)(tables.results_for(row.id)))
}

/// The records that the tables hold: one for each quiz row, most recent first.
pub open spec fn records(tables: Tables, env: Environment) -> Seq<QuizHistoryView> {
    newest_first(tables.history).map_values(|row: HistoryRowView| record_at(tables, env, row))
}

/// Whether every result row names the quiz row as its quiz.
pub open spec fn well_keyed(parent: HistoryRowView, children: Seq<ResultRowView>) -> bool {
    forall|j: int| 0 <= j < children.len() ==> (#[trigger] children[j]).quiz_id == parent.id
}

/// The step of a session with the given work in the given phase.
spec fn step_at(work: WorkView, phase: PhaseView) -> StepView {
    (SessionView { work, phase }).step()
}

/// The database with an open transaction that began with `base` and whose
/// content is now `tables`.
spec fn within(base: Tables, tables: Tables) -> Database {
    Database { tables, snapshot: Some(base) }
}

/// How an operation ends that fails before its transaction is open: with an
/// error, the rows untouched, and no schema object lost or made up. This
/// takes a statement that fails for reasons of its own.
spec fn stopped_early(result: (OutcomeView, Database), db: Database, env: Environment) -> bool {
    let (outcome, end) = result;
    &&& outcome is Failed
    &&& end.idle()
    &&& end.tables.same_rows(db.tables)
    &&& keeps_objects(db.tables, end.tables)
    &&& keeps_objects(end.tables, with_schema(db.tables))
    &&& !env.quiet()
}

/// Whether the operation comes to the first statement of its work, inside a
/// transaction that begins with the whole schema and the rows untouched, and
/// ends as it ends from there.
spec fn comes_to_work(
    result: (OutcomeView, Database),
    work: WorkView,
    db: Database,
    env: Environment,
) -> bool {
    let base = with_schema(db.tables);
    exists|m: nat|
        result == #[trigger] carry_out(step_at(work, PhaseView::Head), within(base, base), env, m)
}

/// A rollback ends the operation with the error that caused it and leaves
/// the content that the transaction began with.
proof fn lemma_rollback(work: WorkView, error: StoreErrorView, db: Database, env: Environment, n: nat)
    ensures
        carry_out(step_at(work, PhaseView::Rollback(error)), db, env, n) == (
            OutcomeView::Failed(error),
            db.rolled_back(),
        ),
{
    reveal_with_fuel(carry_out, 2);
}

/// From the commit on: the operation ends with its result and the content as
/// it stands, or with an error and the content that the transaction began
/// with.
proof fn lemma_commit(work: WorkView, db: Database, env: Environment, n: nat)
    requires
        db.snapshot.is_some(),
    ensures
        ({
            let (outcome, end) = carry_out(step_at(work, PhaseView::Commit), db, env, n);
            &&& end.idle()
            &&& if (env.fault)(n) {
                outcome is Failed && end.tables == db.snapshot.unwrap()
            } else {
                outcome == work.outcome() && end.tables == db.tables
            }
        }),
{
    reveal_with_fuel(carry_out, 3);
}

/// A failure inside the transaction: the operation rolls back and ends with
/// an error and the content that the transaction began with.
proof fn lemma_failure(
    work: WorkView,
    phase: PhaseView,
    reply: ReplyView,
    base: Tables,
    now: Tables,
    env: Environment,
    n: nat,
)
    requires
        phase is Head || phase is Tail,
        reply is Failed,
    ensures
        ({
            let session = SessionView { work, phase };
            let (outcome, end) = carry_out(session.advance(reply), within(base, now), env, n);
            &&& outcome == OutcomeView::Failed(session.blame(reply).unwrap())
            &&& end == Database { tables: base, snapshot: None }
        }),
{
    let session = SessionView { work, phase };
    let error = session.blame(reply).unwrap();
    assert(session.advance(reply) == step_at(work, PhaseView::Rollback(error)));
    lemma_rollback(work, error, within(base, now), env, n);
}

/// From a schema statement on, up to the first statement of the work.
proof fn lemma_schema(work: WorkView, k: nat, db: Database, env: Environment, n: nat)
    requires
        k < 5,
        db.idle(),
        k >= 1 ==> db.tables.objects.contains(SchemaObject::HistoryTable),
        k >= 2 ==> db.tables.objects.contains(SchemaObject::DateIndex),
        k >= 3 ==> db.tables.objects.contains(SchemaObject::DifficultyIndex),
        k >= 4 ==> db.tables.objects.contains(SchemaObject::ResultsTable),
    ensures
        ({
            let result = carry_out(step_at(work, PhaseView::Schema(k)), db, env, n);
            stopped_early(result, db, env) || comes_to_work(result, work, db, env)
        }),
    decreases 5 - k,
{
    reveal_with_fuel(carry_out, 2);
    let session = SessionView { work, phase: PhaseView::Schema(k) };
    let (next, reply) = db.respond(session.current(), env, n);
    let base = with_schema(db.tables);
    let result = carry_out(session.step(), db, env, n);
    assert(result == carry_out(session.advance(reply), next, env, n + 1));
    if (env.fault)(n) {
        assert(session.advance(reply) is Finished);
        assert(result.1 == db);
    } else {
        assert(reply is Done);
        if k + 1 < 5 {
            assert(session.advance(reply) == step_at(work, PhaseView::Schema(k + 1)));
            lemma_schema(work, k + 1, next, env, n + 1);
            assert(with_schema(next.tables) == base) by {
                assert(with_schema(next.tables).objects =~= base.objects);
            }
        } else {
            assert(next.tables == base) by {
                assert(next.tables.objects =~= base.objects);
            }
            assert(session.advance(reply) == step_at(work, PhaseView::Begin));
            if !(env.fault)(n + 1) {
                assert(next.respond(StatementView::Begin, env, n + 1).0 == within(base, base));
                assert(result == carry_out(
                    step_at(work, PhaseView::Head),
                    within(base, base),
                    env,
                    n + 2,
                ));
            }
        }
    }
}

/// The tables with the whole schema have it, and have the rows that were
/// there.
proof fn lemma_with_schema(tables: Tables)
    ensures
        with_schema(tables).has_schema(),
        with_schema(tables).same_rows(tables),
        keeps_objects(tables, with_schema(tables)),
        with_schema(with_schema(tables)) == with_schema(tables),
        tables.has_schema() ==> with_schema(tables) == tables,
{
    assert(with_schema(with_schema(tables)).objects =~= with_schema(tables).objects);
    if tables.has_schema() {
        assert(with_schema(tables).objects =~= tables.objects);
    }
}

/// The content once the quiz row and the first `i` result rows are in.
spec fn inserting(
    base: Tables,
    parent: HistoryRowView,
    children: Seq<ResultRowView>,
    i: nat,
) -> Tables {
    Tables {
        objects: base.objects,
        history: base.history.push(as_held(parent)),
        results: base.results + children.take(i as int),
    }
}

/// How a save that has come to its work may end: saved with every row in, or
/// failed with the content that the transaction began with.
spec fn save_settled(
    result: (OutcomeView, Database),
    base: Tables,
    parent: HistoryRowView,
    children: Seq<ResultRowView>,
) -> bool {
    let (outcome, end) = result;
    &&& end.idle()
    &&& {
        ||| outcome is Saved && end.tables == inserting(base, parent, children, children.len())
        ||| outcome is Failed && end.tables == base
    }
}

/// A save from the insertion of result row `i` on.
proof fn lemma_save_tail(
    parent: HistoryRowView,
    children: Seq<ResultRowView>,
    i: nat,
    base: Tables,
    env: Environment,
    n: nat,
)
    requires
        i < children.len(),
        base.has_schema(),
    ensures
        ({
            let result = carry_out(
                step_at(save_work(parent, children), PhaseView::Tail(i)),
                within(base, inserting(base, parent, children, i)),
                env,
                n,
            );
            &&& save_settled(result, base, parent, children)
            &&& env.quiet() && well_keyed(parent, children) ==> result.0 is Saved
        }),
    decreases children.len() - i,
{
    reveal_with_fuel(carry_out, 2);
    let work = save_work(parent, children);
    let session = SessionView { work, phase: PhaseView::Tail(i) };
    let now = inserting(base, parent, children, i);
    let db = within(base, now);
    let (next, reply) = db.respond(session.current(), env, n);
    let result = carry_out(session.step(), db, env, n);
    assert(result == carry_out(session.advance(reply), next, env, n + 1));
    assert(session.current() == StatementView::InsertResult(children[i as int]));
    assert(now.has_id(parent.id)) by {
        assert(now.history[base.history.len() as int].id == parent.id);
    }
    if reply is Failed {
        lemma_failure(work, session.phase, reply, base, now, env, n + 1);
        assert(!(env.quiet() && well_keyed(parent, children))) by {
            if env.quiet() && well_keyed(parent, children) {
                assert(!(env.fault)(n));
                assert(children[i as int].quiz_id == parent.id);
            }
        }
    } else {
        assert(next == within(base, inserting(base, parent, children, i + 1))) by {
            assert(children.take(i as int).push(children[i as int]) =~= children.take(
                (i + 1) as int,
            ));
            assert(next.tables.results =~= base.results + children.take((i + 1) as int));
        }
        if i + 1 < children.len() {
            assert(session.advance(reply) == step_at(work, PhaseView::Tail(i + 1)));
            lemma_save_tail(parent, children, i + 1, base, env, n + 1);
        } else {
            assert(session.advance(reply) == step_at(work, PhaseView::Commit));
            lemma_commit(work, next, env, n + 1);
        }
    }
}

/// A save from the insertion of the quiz row on.
proof fn lemma_save_head(
    parent: HistoryRowView,
    children: Seq<ResultRowView>,
    base: Tables,
    env: Environment,
    n: nat,
)
    requires
        base.has_schema(),
    ensures
        ({
            let result = carry_out(
                step_at(save_work(parent, children), PhaseView::Head),
                within(base, base),
                env,
                n,
            );
            &&& save_settled(result, base, parent, children)
            &&& result.0 is Saved ==> !base.has_id(parent.id) && storable(parent)
            &&& env.quiet() && well_keyed(parent, children) && storable(parent) && !base.has_id(
                parent.id,
            ) ==> result.0 is Saved
            &&& env.quiet() && (base.has_id(parent.id) || !storable(parent))
                ==> result.0.failed_with(ErrorKind::Constraint)
        }),
{
    reveal_with_fuel(carry_out, 2);
    let work = save_work(parent, children);
    let session = SessionView { work, phase: PhaseView::Head };
    let db = within(base, base);
    let (next, reply) = db.respond(session.current(), env, n);
    let result = carry_out(session.step(), db, env, n);
    assert(result == carry_out(session.advance(reply), next, env, n + 1));
    assert(session.current() == StatementView::InsertHistory(parent));
    if reply is Failed {
        lemma_failure(work, session.phase, reply, base, base, env, n + 1);
        if env.quiet() {
            assert(!(env.fault)(n));
        }
    } else {
        assert(next == within(base, inserting(base, parent, children, 0))) by {
            assert(next.tables.results =~= base.results + children.take(0));
        }
        if 0 < children.len() {
            assert(session.advance(reply) == step_at(work, PhaseView::Tail(0)));
            lemma_save_tail(parent, children, 0, base, env, n + 1);
        } else {
            assert(session.advance(reply) == step_at(work, PhaseView::Commit));
            lemma_commit(work, next, env, n + 1);
            if env.quiet() {
                assert(!(env.fault)(n + 1));
            }
        }
    }
}

/// The work of listing when the quiz rows are in and `i` records are
/// assembled.
spec fn listing_work(base: Tables, env: Environment, i: nat) -> WorkView {
    WorkView::List {
        parents: newest_first(base.history),
        listed: records(base, env).take(i as int),
    }
}

/// How a listing that has come to its work may end: with the records of the
/// tables, or failed; the content is what the transaction began with.
spec fn list_settled(result: (OutcomeView, Database), base: Tables, env: Environment) -> bool {
    let (outcome, end) = result;
    &&& end.idle()
    &&& end.tables == base
    &&& outcome == OutcomeView::Listed(records(base, env)) || outcome is Failed
}

/// A listing from the fetching of the results of quiz row `i` on.
proof fn lemma_list_tail(i: nat, base: Tables, env: Environment, n: nat)
    requires
        i < base.history.len(),
        base.has_schema(),
    ensures
        ({
            let result = carry_out(
                step_at(listing_work(base, env, i), PhaseView::Tail(i)),
                within(base, base),
                env,
                n,
            );
            &&& list_settled(result, base, env)
            &&& env.quiet() ==> result.0 is Listed
        }),
    decreases base.history.len() - i,
{
    reveal_with_fuel(carry_out, 2);
    lemma_newest_first_len(base.history);
    let work = listing_work(base, env, i);
    let parents = newest_first(base.history);
    let all = records(base, env);
    let session = SessionView { work, phase: PhaseView::Tail(i) };
    let db = within(base, base);
    let (next, reply) = db.respond(session.current(), env, n);
    let result = carry_out(session.step(), db, env, n);
    assert(result == carry_out(session.advance(reply), next, env, n + 1));
    assert(session.current() == StatementView::SelectResults(parents[i as int].id));
    assert(next == db);
    if reply is Failed {
        lemma_failure(work, session.phase, reply, base, base, env, n + 1);
        if env.quiet() {
            assert(!(env.fault)(n));
        }
    } else {
        let after = work.absorb(session.phase, reply).unwrap();
        assert(after == listing_work(base, env, i + 1)) by {
            assert(all.take(i as int).push(all[i as int]) =~= all.take((i + 1) as int));
        }
        if i + 1 < parents.len() {
            assert(session.advance(reply) == step_at(after, PhaseView::Tail(i + 1)));
            lemma_list_tail(i + 1, base, env, n + 1);
        } else {
            assert(session.advance(reply) == step_at(after, PhaseView::Commit));
            assert(all.take((i + 1) as int) =~= all);
            lemma_commit(after, next, env, n + 1);
            if env.quiet() {
                assert(!(env.fault)(n + 1));
            }
        }
    }
}

/// A listing from the fetching of the quiz rows on.
proof fn lemma_list_head(base: Tables, env: Environment, n: nat)
    requires
        base.has_schema(),
    ensures
        ({
            let result = carry_out(
                step_at(list_work(), PhaseView::Head),
                within(base, base),
                env,
                n,
            );
            &&& list_settled(result, base, env)
            &&& env.quiet() ==> result.0 is Listed
        }),
{
    reveal_with_fuel(carry_out, 2);
    lemma_newest_first_len(base.history);
    let work = list_work();
    let session = SessionView { work, phase: PhaseView::Head };
    let db = within(base, base);
    let (next, reply) = db.respond(session.current(), env, n);
    let result = carry_out(session.step(), db, env, n);
    assert(result == carry_out(session.advance(reply), next, env, n + 1));
    assert(session.current() == StatementView::SelectHistory);
    assert(next == db);
    if reply is Failed {
        lemma_failure(work, session.phase, reply, base, base, env, n + 1);
        if env.quiet() {
            assert(!(env.fault)(n));
        }
    } else {
        let after = work.absorb(session.phase, reply).unwrap();
        assert(after == listing_work(base, env, 0)) by {
            assert(records(base, env).take(0) =~= Seq::empty());
        }
        if 0 < base.history.len() {
            assert(session.advance(reply) == step_at(after, PhaseView::Tail(0)));
            lemma_list_tail(0, base, env, n + 1);
        } else {
            assert(session.advance(reply) == step_at(after, PhaseView::Commit));
            assert(records(base, env) =~= Seq::empty());
            lemma_commit(after, next, env, n + 1);
            if env.quiet() {
                assert(!(env.fault)(n + 1));
            }
        }
    }
}

/// How a clearing that has come to its work may end: cleared with both tables
/// empty, or failed with the content that the transaction began with.
spec fn clear_settled(result: (OutcomeView, Database), base: Tables) -> bool {
    let (outcome, end) = result;
    &&& end.idle()
    &&& {
        ||| outcome is Cleared && end.tables == emptied(base)
        ||| outcome is Failed && end.tables == base
    }
}

/// A clearing from its second statement on.
proof fn lemma_clear_tail(base: Tables, env: Environment, n: nat)
    requires
        base.has_schema(),
    ensures
        ({
            let result = carry_out(
                step_at(WorkView::Clear, PhaseView::Tail(0)),
                within(base, Tables { results: Seq::empty(), ..base }),
                env,
                n,
            );
            &&& clear_settled(result, base)
            &&& env.quiet() ==> result.0 is Cleared
        }),
{
    reveal_with_fuel(carry_out, 2);
    let work = WorkView::Clear;
    let session = SessionView { work, phase: PhaseView::Tail(0) };
    let now = Tables { results: Seq::empty(), ..base };
    let db = within(base, now);
    let (next, reply) = db.respond(session.current(), env, n);
    let result = carry_out(session.step(), db, env, n);
    assert(result == carry_out(session.advance(reply), next, env, n + 1));
    assert(session.current() == StatementView::DeleteHistory);
    if reply is Failed {
        lemma_failure(work, session.phase, reply, base, now, env, n + 1);
        if env.quiet() {
            assert(!(env.fault)(n));
        }
    } else {
        assert(next.tables == emptied(base)) by {
            assert(next.tables.results =~= Seq::empty());
            assert(with_schema(base).objects =~= base.objects);
        }
        assert(session.advance(reply) == step_at(work, PhaseView::Commit));
        lemma_commit(work, next, env, n + 1);
        if env.quiet() {
            assert(!(env.fault)(n + 1));
        }
    }
}

/// A clearing from its first statement on.
proof fn lemma_clear_head(base: Tables, env: Environment, n: nat)
    requires
        base.has_schema(),
    ensures
        ({
            let result = carry_out(
                step_at(WorkView::Clear, PhaseView::Head),
                within(base, base),
                env,
                n,
            );
            &&& clear_settled(result, base)
            &&& env.quiet() ==> result.0 is Cleared
        }),
{
    reveal_with_fuel(carry_out, 2);
    let work = WorkView::Clear;
    let session = SessionView { work, phase: PhaseView::Head };
    let db = within(base, base);
    let (next, reply) = db.respond(session.current(), env, n);
    let result = carry_out(session.step(), db, env, n);
    assert(result == carry_out(session.advance(reply), next, env, n + 1));
    assert(session.current() == StatementView::DeleteResults);
    if reply is Failed {
        lemma_failure(work, session.phase, reply, base, base, env, n + 1);
        if env.quiet() {
            assert(!(env.fault)(n));
        }
    } else {
        assert(session.advance(reply) == step_at(work, PhaseView::Tail(0)));
        lemma_clear_tail(base, env, n + 1);
    }
}

/// What a save of a quiz row with its result rows comes to, on a database at
/// rest.
///
/// It leaves no transaction open, loses no schema object and makes none up.
/// It ends saved, with the rows behind those that were there, which takes an
/// identifier that was not stored and a row that the table takes; or it ends
/// failed, with the rows untouched. When no statement fails for reasons of
/// its own, it ends saved where the identifier is new, the table takes the
/// row and every result row names the quiz row; and it ends with a
/// constraint error where the identifier is stored or the table does not
/// take the row.
pub proof fn lemma_save(
    parent: HistoryRowView,
    children: Seq<ResultRowView>,
    db: Database,
    env: Environment,
)
    requires
        db.idle(),
    ensures
        ({
            let (outcome, end) = carry_out(first_step(save_work(parent, children)), db, env, 0);
            &&& end.idle()
            &&& keeps_objects(db.tables, end.tables)
            &&& keeps_objects(end.tables, with_schema(db.tables))
            &&& {
                ||| {
                    &&& outcome is Saved
                    &&& end.tables == holding(db.tables, parent, children)
                    &&& !db.tables.has_id(parent.id)
                    &&& storable(parent)
                }
                ||| outcome is Failed && end.tables.same_rows(db.tables)
            }
            &&& env.quiet() && well_keyed(parent, children) && storable(parent)
                && !db.tables.has_id(parent.id) ==> outcome is Saved
            &&& env.quiet() && (db.tables.has_id(parent.id) || !storable(parent))
                ==> outcome.failed_with(ErrorKind::Constraint)
        }),
{
    let work = save_work(parent, children);
    let base = with_schema(db.tables);
    let result = carry_out(first_step(work), db, env, 0);
    lemma_schema(work, 0, db, env, 0);
    lemma_with_schema(db.tables);
    if comes_to_work(result, work, db, env) {
        let m = choose|m: nat|
            result == #[trigger] carry_out(
                step_at(work, PhaseView::Head),
                within(base, base),
                env,
                m,
            );
        lemma_save_head(parent, children, base, env, m);
        assert(inserting(base, parent, children, children.len()) == holding(
            db.tables,
            parent,
            children,
        )) by {
            assert(children.take(children.len() as int) =~= children);
        }
    }
}

/// What a listing comes to, on a database at rest.
///
/// It leaves no transaction open, changes no row, loses no schema object and
/// makes none up. It ends with the records of the tables, and then the whole
/// schema exists; or it ends failed. When no statement fails for reasons of
/// its own, it ends with the records.
pub proof fn lemma_list(db: Database, env: Environment)
    requires
        db.idle(),
    ensures
        ({
            let (outcome, end) = list(db, env);
            &&& end.idle()
            &&& end.tables.same_rows(db.tables)
            &&& keeps_objects(db.tables, end.tables)
            &&& keeps_objects(end.tables, with_schema(db.tables))
            &&& {
                ||| outcome == OutcomeView::Listed(records(db.tables, env)) && end.tables
                    == with_schema(db.tables)
                ||| outcome is Failed
            }
            &&& env.quiet() ==> outcome is Listed
        }),
{
    let work = list_work();
    let base = with_schema(db.tables);
    let result = list(db, env);
    lemma_schema(work, 0, db, env, 0);
    lemma_with_schema(db.tables);
    if comes_to_work(result, work, db, env) {
        let m = choose|m: nat|
            result == #[trigger] carry_out(
                step_at(work, PhaseView::Head),
                within(base, base),
                env,
                m,
            );
        lemma_list_head(base, env, m);
        assert(records(base, env) == records(db.tables, env));
    }
}

/// What a clearing comes to, on a database at rest.
///
/// It leaves no transaction open, loses no schema object and makes none up.
/// It ends cleared, with the whole schema and both tables empty; or it ends
/// failed, with the rows untouched. When no statement fails for reasons of
/// its own, it ends cleared.
pub proof fn lemma_clear(db: Database, env: Environment)
    requires
        db.idle(),
    ensures
        ({
            let (outcome, end) = clear(db, env);
            &&& end.idle()
            &&& keeps_objects(db.tables, end.tables)
            &&& keeps_objects(end.tables, with_schema(db.tables))
            &&& {
                ||| outcome is Cleared && end.tables == emptied(db.tables)
                ||| outcome is Failed && end.tables.same_rows(db.tables)
            }
            &&& env.quiet() ==> outcome is Cleared
        }),
{
    let work = WorkView::Clear;
    let base = with_schema(db.tables);
    let result = clear(db, env);
    lemma_schema(work, 0, db, env, 0);
    lemma_with_schema(db.tables);
    if comes_to_work(result, work, db, env) {
        let m = choose|m: nat|
            result == #[trigger] carry_out(
                step_at(work, PhaseView::Head),
                within(base, base),
                env,
                m,
            );
        lemma_clear_head(base, env, m);
        assert(emptied(base) == emptied(db.tables));
    }
}

} // verus!
