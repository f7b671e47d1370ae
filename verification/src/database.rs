//! A relational model of the database: what its two tables hold, what each
//! statement does to them, and what it answers.
//!
//! The model is mathematics only. It states what the laws of the store assume
//! of the database; nothing here runs.

use vstd::prelude::*;
use crate::error::{Cause, FailureView};
use crate::record::{as_stored, is_nan};
use crate::row::{HistoryRowView, ResultRowView};
use crate::session::{OutcomeView, PhaseView, StepView};
use crate::statement::{ReplyView, StatementView};

verus! {

/// A table or an index of the schema.
pub enum SchemaObject {
    HistoryTable,
    DateIndex,
    DifficultyIndex,
    ResultsTable,
    PortIndex,
}

/// The content of the database: the schema objects that exist, and the rows of
/// the two tables in the order in which they were inserted.
pub struct Tables {
    pub objects: Set<SchemaObject>,
    pub history: Seq<HistoryRowView>,
    pub results: Seq<ResultRowView>,
}

/// The database: its content, and, while a transaction is open, the content
/// at the time the transaction began.
pub struct Database {
    pub tables: Tables,
    pub snapshot: Option<Tables>,
}

/// What the store does not control: which statements fail for reasons of
/// their own, what the database says when a statement does not run, and in
/// which order the result rows of a quiz come back.
pub struct Environment {
    pub fault: spec_fn(nat) -> bool,
    pub words: spec_fn(nat) -> Seq<char>,
    pub order: spec_fn(Seq<ResultRowView>) -> Seq<ResultRowView>,
}

/// The place of `row` among rows that stand most recent first: behind every
/// row that is as recent as `row` or more recent, before the first that is
/// older.
pub open spec fn place(sorted: Seq<HistoryRowView>, row: HistoryRowView) -> int
    decreases sorted.len(),
{
    if sorted.len() == 0 || sorted[0].date < row.date {
        0
    } else {
        1 + place(sorted.drop_first(), row)
    }
}

/// The rows most recent first; rows of one date in the order of insertion.
pub open spec fn newest_first(history: Seq<HistoryRowView>) -> Seq<HistoryRowView>
    decreases history.len(),
{
    if history.len() == 0 {
        Seq::empty()
    } else {
        let earlier = newest_first(history.drop_last());
        earlier.insert(place(earlier, history.last()), history.last())
    }
}

/// Whether the table of quizzes takes the row: none of its columns may be
/// empty, which the two texts are where they are missing, and the accuracy
/// where it is no number.
pub open spec fn storable(row: HistoryRowView) -> bool {
    row.regions.is_some() && row.countries.is_some() && !is_nan(row.accuracy_bits)
}

/// The row as the table of quizzes holds it and gives it back.
pub open spec fn as_held(row: HistoryRowView) -> HistoryRowView {
    HistoryRowView { accuracy_bits: as_stored(row.accuracy_bits), ..row }
}

impl Tables {
    /// Whether a quiz with this identifier is stored.
    pub open spec fn has_id(self, id: Seq<char>) -> bool {
        exists|i: int| 0 <= i < self.history.len() && #[trigger] self.history[i].id == id
    }

    /// The result rows of the quiz with this identifier, in the order of
    /// insertion.
    pub open spec fn results_for(self, id: Seq<char>) -> Seq<ResultRowView> {
        self.results.filter(|r: ResultRowView| r.quiz_id == id)
    }

    /// Whether both tables are empty.
    pub open spec fn is_empty(self) -> bool {
        self.history.len() == 0 && self.results.len() == 0
    }

    /// The same content with one more schema object.
    pub open spec fn with_object(self, object: SchemaObject) -> Tables {
        Tables { objects: self.objects.insert(object), ..self }
    }

    /// Whether the whole schema exists.
    pub open spec fn has_schema(self) -> bool {
        &&& self.objects.contains(SchemaObject::HistoryTable)
        &&& self.objects.contains(SchemaObject::DateIndex)
        &&& self.objects.contains(SchemaObject::DifficultyIndex)
        &&& self.objects.contains(SchemaObject::ResultsTable)
        &&& self.objects.contains(SchemaObject::PortIndex)
    }

    /// Whether the rows are the same as those of `other`.
    pub open spec fn same_rows(self, other: Tables) -> bool {
        self.history == other.history && self.results == other.results
    }

    /// The integrity that the schema maintains: no identifier is stored
    /// twice, and every result row belongs to a stored quiz.
    pub open spec fn intact(self) -> bool {
        &&& forall|i: int, j: int|
            0 <= i < j < self.history.len() ==> (#[trigger] self.history[i]).id
                != (#[trigger] self.history[j]).id
        &&& forall|k: int|
            0 <= k < self.results.len() ==> self.has_id((#[trigger] self.results[k]).quiz_id)
    }

    /// The content after a statement other than those that open and close a
    /// transaction, or `None` where the database refuses the statement.
    ///
    /// Creating a table or an index that exists changes nothing; an index
    /// needs its table. A quiz row is refused where its identifier is stored
    /// already or the table does not take it; a result row is refused where
    /// no quiz with its identifier is stored. Emptying the table of quizzes
    /// takes along the result rows of every quiz that goes.
    pub open spec fn after(self, statement: StatementView) -> Option<Tables> {
        let has_history = self.objects.contains(SchemaObject::HistoryTable);
        let has_results = self.objects.contains(SchemaObject::ResultsTable);
        match statement {
            StatementView::CreateHistoryTable => Some(self.with_object(SchemaObject::HistoryTable)),
            StatementView::CreateDateIndex => if has_history {
                Some(self.with_object(SchemaObject::DateIndex))
            } else {
                None
            },
            StatementView::CreateDifficultyIndex => if has_history {
                Some(self.with_object(SchemaObject::DifficultyIndex))
            } else {
                None
            },
            StatementView::CreateResultsTable => Some(self.with_object(SchemaObject::ResultsTable)),
            StatementView::CreatePortIndex => if has_results {
                Some(self.with_object(SchemaObject::PortIndex))
            } else {
                None
            },
            StatementView::InsertHistory(row) => if has_history && !self.has_id(row.id)
                && storable(row) {
                Some(Tables { history: self.history.push(as_held(row)), ..self })
            } else {
                None
            },
            StatementView::InsertResult(row) => if has_results && self.has_id(row.quiz_id) {
                Some(Tables { results: self.results.push(row), ..self })
            } else {
                None
            },
            StatementView::SelectHistory => if has_history {
                Some(self)
            } else {
                None
            },
            StatementView::SelectResults(_) => if has_results {
                Some(self)
            } else {
                None
            },
            StatementView::DeleteResults => if has_results {
                Some(Tables { results: Seq::empty(), ..self })
            } else {
                None
            },
            StatementView::DeleteHistory => if has_history {
                Some(
                    Tables {
                        history: Seq::empty(),
                        results: self.results.filter(|r: ResultRowView| !self.has_id(r.quiz_id)),
                        ..self
                    },
                )
            } else {
                None
            },
            StatementView::Begin => None,
            StatementView::Commit => None,
            StatementView::Rollback => None,
        }
    }

    /// Why the database refuses a statement that it refuses. A quiz row that
    /// the table does not take lacks a value; one that it would take has an
    /// identifier that is stored. A result row names a quiz that is not
    /// there. Any statement is refused for another reason where its table
    /// does not exist.
    pub open spec fn refusal(self, statement: StatementView) -> Cause {
        match statement {
            StatementView::InsertHistory(row) => if !self.objects.contains(
                SchemaObject::HistoryTable,
            ) {
                Cause::Other
            } else if !storable(row) {
                Cause::NotNull
            } else {
                Cause::Unique
            },
            StatementView::InsertResult(_) => if self.objects.contains(
                SchemaObject::ResultsTable,
            ) {
                Cause::ForeignKey
            } else {
                Cause::Other
            },
            _ => Cause::Other,
        }
    }

    /// What the database answers to a statement that it runs: the rows asked
    /// for, or that the statement is done. The quizzes come most recent
    /// first; the result rows of a quiz come in the order that the
    /// environment picks.
    pub open spec fn answer(self, statement: StatementView, env: Environment) -> ReplyView {
        match statement {
            StatementView::SelectHistory => ReplyView::HistoryRows(newest_first(self.history)),
            StatementView::SelectResults(id) => ReplyView::ResultRows(
                (env.order)(self.results_for(id)),
            ),
            _ => ReplyView::Done,
        }
    }
}

impl Environment {
    /// Whether the environment only reorders result rows: what comes back is
    /// what is stored, each row as often as it is stored.
    pub open spec fn fair(self) -> bool {
        forall|rows: Seq<ResultRowView>|
            (#[trigger] (self.order)(rows)).to_multiset() == rows.to_multiset()
    }

    /// Whether no statement at all fails for reasons of its own.
    pub open spec fn quiet(self) -> bool {
        forall|n: nat| !#[trigger] (self.fault)(n)
    }
}

impl Database {
    /// Whether no transaction is open.
    pub open spec fn idle(self) -> bool {
        self.snapshot.is_none()
    }

    /// A database at rest whose tables are intact.
    pub open spec fn sound(self) -> bool {
        self.idle() && self.tables.intact()
    }

    /// The database after a rollback: the content is what it was when the
    /// transaction began. Without a transaction nothing changes.
    pub open spec fn rolled_back(self) -> Database {
        match self.snapshot {
            Some(tables) => Database { tables, snapshot: None },
            None => self,
        }
    }

    /// The failure that the database reports for statement number `n`.
    pub open spec fn failure(cause: Cause, env: Environment, n: nat) -> ReplyView {
        ReplyView::Failed(FailureView { cause, message: (env.words)(n) })
    }

    /// The database after statement number `n`, and its reply.
    ///
    /// A statement that fails changes nothing, with one exception: after a
    /// rollback the transaction is gone, whatever the reply. A transaction
    /// cannot begin inside another, and cannot be committed or rolled back
    /// before it began.
    pub open spec fn respond(self, statement: StatementView, env: Environment, n: nat) -> (
        Database,
        ReplyView,
    ) {
        if statement is Rollback {
            (
                self.rolled_back(),
                if (env.fault)(n) || self.idle() {
                    Self::failure(Cause::Other, env, n)
                } else {
                    ReplyView::Done
                },
            )
        } else if (env.fault)(n) {
            (self, Self::failure(Cause::Other, env, n))
        } else if statement is Begin {
            if self.idle() {
                (Database { tables: self.tables, snapshot: Some(self.tables) }, ReplyView::Done)
            } else {
                (self, Self::failure(Cause::Other, env, n))
            }
        } else if statement is Commit {
            if self.idle() {
                (self, Self::failure(Cause::Other, env, n))
            } else {
                (Database { tables: self.tables, snapshot: None }, ReplyView::Done)
            }
        } else {
            match self.tables.after(statement) {
                Some(tables) => (
                    Database { tables, snapshot: self.snapshot },
                    self.tables.answer(statement, env),
                ),
                None => (
                    self,
                    Self::failure(self.tables.refusal(statement), env, n),
                ),
            }
        }
    }
}

impl StepView {
    /// The rank of the phase of a step: later phases have lower ranks.
    pub open spec fn rank(self) -> nat {
        match self {
            StepView::Finished(_) => 0,
            StepView::Run(session, _) => match session.phase {
                PhaseView::Rollback(_) => 1,
                PhaseView::Commit => 2,
                PhaseView::Tail(_) => 3,
                PhaseView::Head => 4,
                PhaseView::Begin => 5,
                PhaseView::Schema(_) => 6,
            },
        }
    }

    /// The number of statements that are left in the phase of a step.
    pub open spec fn left(self) -> nat {
        match self {
            StepView::Finished(_) => 0,
            StepView::Run(session, _) => match session.phase {
                PhaseView::Schema(k) => if k < 5 {
                    (5 - k) as nat
                } else {
                    0
                },
                PhaseView::Tail(i) => if i < session.work.tail_len() {
                    (session.work.tail_len() - i) as nat
                } else {
                    0
                },
                _ => 0,
            },
        }
    }
}

/// Carries an operation out against the database, from the given step on:
/// the database runs each statement that a step asks for, numbered from `n`,
/// and the session takes the reply in, until the operation is over. The
/// result is how the operation ended and what the database is then.
pub open spec fn carry_out(step: StepView, db: Database, env: Environment, n: nat) -> (
    OutcomeView,
    Database,
)
    decreases step.rank(), step.left(),
{
    match step {
        StepView::Finished(outcome) => (outcome, db),
        StepView::Run(session, statement) => {
            let (next, reply) = db.respond(statement, env, n);
            carry_out(session.advance(reply), next, env, n + 1)
        },
    }
}

} // verus!
