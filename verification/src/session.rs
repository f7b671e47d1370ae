//! One operation of the store as a dialogue with the database.
//!
//! An operation is carried out step by step. The store names the statement to
//! run; the caller runs it and hands back the database's reply; the store then
//! names the next statement, or says how the operation ended. Every operation
//! first creates what is missing of the schema, then opens a transaction, does
//! its work, and commits. A failure inside the transaction is answered by a
//! rollback before the error is reported.

use vstd::prelude::*;
use crate::error::{Cause, ErrorKind, FailureView, StoreError, StoreErrorView};
use crate::record::{QuizHistory, QuizHistoryView, histories_view};
use crate::row::{
    HistoryRow, HistoryRowView, ResultRow, ResultRowView, assemble, encodable,
    history_row_of, history_rows_view, record_of, result_rows_of, result_rows_view,
    to_history_row, to_result_rows,
};
use crate::statement::{Reply, ReplyView, Statement, StatementView};

verus! {

/// The number of statements that create the schema.
pub const SCHEMA_STEPS: usize = 5;

/// The words that open the message of an error, one for each statement that
/// can fail: the message is these words followed by the database's own.
pub const CONTEXT_HISTORY_TABLE: &'static str = "Failed to create quiz_history table: ";

/// See [`CONTEXT_HISTORY_TABLE`].
pub const CONTEXT_DATE_INDEX: &'static str = "Failed to create date index: ";

/// See [`CONTEXT_HISTORY_TABLE`].
pub const CONTEXT_DIFFICULTY_INDEX: &'static str = "Failed to create difficulty index: ";

/// See [`CONTEXT_HISTORY_TABLE`].
pub const CONTEXT_RESULTS_TABLE: &'static str = "Failed to create quiz_results table: ";

/// See [`CONTEXT_HISTORY_TABLE`].
pub const CONTEXT_PORT_INDEX: &'static str = "Failed to create port index: ";

/// See [`CONTEXT_HISTORY_TABLE`].
pub const CONTEXT_BEGIN: &'static str = "Failed to begin transaction: ";

/// See [`CONTEXT_HISTORY_TABLE`].
pub const CONTEXT_COMMIT: &'static str = "Failed to commit transaction: ";

/// See [`CONTEXT_HISTORY_TABLE`].
pub const CONTEXT_ROLLBACK: &'static str = "Failed to roll back transaction: ";

/// See [`CONTEXT_HISTORY_TABLE`].
pub const CONTEXT_INSERT_HISTORY: &'static str = "Failed to insert quiz history: ";

/// See [`CONTEXT_HISTORY_TABLE`].
pub const CONTEXT_INSERT_RESULT: &'static str = "Failed to insert quiz result: ";

/// See [`CONTEXT_HISTORY_TABLE`].
pub const CONTEXT_SELECT_HISTORY: &'static str = "Failed to fetch quiz history: ";

/// See [`CONTEXT_HISTORY_TABLE`].
pub const CONTEXT_SELECT_RESULTS: &'static str = "Failed to fetch quiz results: ";

/// See [`CONTEXT_HISTORY_TABLE`].
pub const CONTEXT_DELETE_RESULTS: &'static str = "Failed to clear quiz results: ";

/// See [`CONTEXT_HISTORY_TABLE`].
pub const CONTEXT_DELETE_HISTORY: &'static str = "Failed to clear quiz history: ";

/// The cause named in an error when the reply was not of the kind that the
/// statement asks for.
pub const OUT_OF_TURN: &'static str = "the database answered out of turn";

/// What an operation works on.
#[derive(Debug)]
enum Work {
    /// Saving: the quiz row and the result rows to insert.
    Save { parent: HistoryRow, children: Vec<ResultRow> },
    /// Listing: the quiz rows that were fetched, and the records assembled so
    /// far, one for each of the first quiz rows.
    List { parents: Vec<HistoryRow>, listed: Vec<QuizHistory> },
    /// Clearing.
    Clear,
}

/// The mathematical value of what an operation works on.
pub enum WorkView {
    Save { parent: HistoryRowView, children: Seq<ResultRowView> },
    List { parents: Seq<HistoryRowView>, listed: Seq<QuizHistoryView> },
    Clear,
}

impl View for Work {
    type V = WorkView;

    closed spec fn view(&self) -> WorkView {
        match self {
            Work::Save { parent, children } => WorkView::Save {
                parent: parent@,
                children: result_rows_view(children@),
            },
            Work::List { parents, listed } => WorkView::List {
                parents: history_rows_view(parents@),
                listed: histories_view(listed@),
            },
            Work::Clear => WorkView::Clear,
        }
    }
}

/// Where an operation stands: the statement whose reply it waits for.
#[derive(Debug)]
enum Phase {
    /// The schema statement of this number.
    Schema(usize),
    /// The opening of the transaction.
    Begin,
    /// The first statement of the work.
    Head,
    /// The further statement of this number of the work.
    Tail(usize),
    /// The commit.
    Commit,
    /// The rollback, after which this error is reported.
    Rollback(StoreError),
}

/// The mathematical value of a phase.
pub enum PhaseView {
    Schema(nat),
    Begin,
    Head,
    Tail(nat),
    Commit,
    Rollback(StoreErrorView),
}

impl View for Phase {
    type V = PhaseView;

    closed spec fn view(&self) -> PhaseView {
        match self {
            Phase::Schema(k) => PhaseView::Schema(*k as nat),
            Phase::Begin => PhaseView::Begin,
            Phase::Head => PhaseView::Head,
            Phase::Tail(i) => PhaseView::Tail(*i as nat),
            Phase::Commit => PhaseView::Commit,
            Phase::Rollback(error) => PhaseView::Rollback(error@),
        }
    }
}

/// How an operation ended.
#[derive(Debug, Clone, PartialEq, Eq)]
pub enum Outcome {
    /// The record was saved with all its results.
    Saved,
    /// The stored records, most recent first.
    Listed(Vec<QuizHistory>),
    /// All records were removed.
    Cleared,
    /// The operation failed and left the stored records as they were.
    Failed(StoreError),
}

/// The mathematical value of an [`Outcome`].
pub enum OutcomeView {
    Saved,
    Listed(Seq<QuizHistoryView>),
    Cleared,
    Failed(StoreErrorView),
}

impl OutcomeView {
    /// Whether the operation failed with an error of the given kind.
    pub open spec fn failed_with(self, kind: ErrorKind) -> bool {
        self matches OutcomeView::Failed(error) && error.kind == kind
    }
}

impl OutcomeView {
    /// The outcome as a result: the listed records, if any, of an operation
    /// that succeeded, or the error of one that failed.
    pub open spec fn result(self) -> Result<Option<Seq<QuizHistoryView>>, StoreErrorView> {
        match self {
            OutcomeView::Saved => Ok(None),
            OutcomeView::Listed(listed) => Ok(Some(listed)),
            OutcomeView::Cleared => Ok(None),
            OutcomeView::Failed(error) => Err(error),
        }
    }
}

impl View for Outcome {
    type V = OutcomeView;

    open spec fn view(&self) -> OutcomeView {
        match self {
            Outcome::Saved => OutcomeView::Saved,
            Outcome::Listed(histories) => OutcomeView::Listed(histories_view(histories@)),
            Outcome::Cleared => OutcomeView::Cleared,
            Outcome::Failed(error) => OutcomeView::Failed(error@),
        }
    }
}

/// An operation under way.
#[derive(Debug)]
pub struct Session {
    work: Work,
    phase: Phase,
}

/// The mathematical value of a [`Session`].
pub struct SessionView {
    pub work: WorkView,
    pub phase: PhaseView,
}

/// What the caller is to do next.
#[derive(Debug)]
pub enum Step {
    /// Run the statement and hand the reply to [`Session::advance`].
    Run(Session, Statement),
    /// The operation is over.
    Finished(Outcome),
}

/// The mathematical value of a [`Step`].
pub enum StepView {
    Run(SessionView, StatementView),
    Finished(OutcomeView),
}

/// The schema statement of the given number: each table before its indexes,
/// the table of quizzes first.
pub open spec fn schema_statement(k: nat) -> StatementView {
    if k == 0 {
        StatementView::CreateHistoryTable
    } else if k == 1 {
        StatementView::CreateDateIndex
    } else if k == 2 {
        StatementView::CreateDifficultyIndex
    } else if k == 3 {
        StatementView::CreateResultsTable
    } else {
        StatementView::CreatePortIndex
    }
}

/// The words that open the message of an error of the schema statement of the
/// given number.
pub open spec fn schema_context(k: nat) -> Seq<char> {
    if k == 0 {
        CONTEXT_HISTORY_TABLE@
    } else if k == 1 {
        CONTEXT_DATE_INDEX@
    } else if k == 2 {
        CONTEXT_DIFFICULTY_INDEX@
    } else if k == 3 {
        CONTEXT_RESULTS_TABLE@
    } else {
        CONTEXT_PORT_INDEX@
    }
}

impl WorkView {
    /// The first statement of the work.
    pub open spec fn head(self) -> StatementView {
        match self {
            WorkView::Save { parent, .. } => StatementView::InsertHistory(parent),
            WorkView::List { .. } => StatementView::SelectHistory,
            WorkView::Clear => StatementView::DeleteResults,
        }
    }

    /// The number of statements that follow the first.
    pub open spec fn tail_len(self) -> nat {
        match self {
            WorkView::Save { children, .. } => children.len(),
            WorkView::List { parents, .. } => parents.len(),
            WorkView::Clear => 1,
        }
    }

    /// The further statement of the given number: saving inserts the result
    /// rows in their order, listing asks for the results of each quiz row in
    /// turn, clearing empties the table of quizzes.
    pub open spec fn tail(self, i: nat) -> StatementView {
        match self {
            WorkView::Save { children, .. } => StatementView::InsertResult(children[i as int]),
            WorkView::List { parents, .. } => StatementView::SelectResults(parents[i as int].id),
            WorkView::Clear => StatementView::DeleteHistory,
        }
    }

    /// The work after a reply has been taken in, or `None` where the reply is
    /// not of the kind that the statement asks for. Listing keeps the quiz
    /// rows that come back, and then assembles one record from each quiz row
    /// and the result rows that come back for it.
    pub open spec fn absorb(self, phase: PhaseView, reply: ReplyView) -> Option<WorkView> {
        match (self, phase, reply) {
            (WorkView::List { .. }, PhaseView::Head, ReplyView::HistoryRows(rows)) => Some(
                WorkView::List { parents: rows, listed: Seq::empty() },
            ),
            (WorkView::List { .. }, PhaseView::Head, _) => None,
            (WorkView::List { parents, listed }, PhaseView::Tail(i), ReplyView::ResultRows(rows)) => Some(
                WorkView::List {
                    parents,
                    listed: listed.push(record_of(parents[i as int], rows)),
                },
            ),
            (WorkView::List { .. }, PhaseView::Tail(_), _) => None,
            (_, _, ReplyView::Done) => Some(self),
            _ => None,
        }
    }

    /// What a committed operation reports.
    pub open spec fn outcome(self) -> OutcomeView {
        match self {
            WorkView::Save { .. } => OutcomeView::Saved,
            WorkView::List { listed, .. } => OutcomeView::Listed(listed),
            WorkView::Clear => OutcomeView::Cleared,
        }
    }

    /// The phase that follows `phase` when its statement has run, or `None`
    /// after the commit and after a rollback.
    pub open spec fn next_phase(self, phase: PhaseView) -> Option<PhaseView> {
        match phase {
            PhaseView::Schema(k) => if k + 1 < SCHEMA_STEPS {
                Some(PhaseView::Schema(k + 1))
            } else {
                Some(PhaseView::Begin)
            },
            PhaseView::Begin => Some(PhaseView::Head),
            PhaseView::Head => if 0 < self.tail_len() {
                Some(PhaseView::Tail(0))
            } else {
                Some(PhaseView::Commit)
            },
            PhaseView::Tail(i) => if i + 1 < self.tail_len() {
                Some(PhaseView::Tail(i + 1))
            } else {
                Some(PhaseView::Commit)
            },
            PhaseView::Commit => None,
            PhaseView::Rollback(_) => None,
        }
    }
}

impl PhaseView {
    /// Whether a transaction is open while the phase lasts.
    pub open spec fn in_transaction(self) -> bool {
        !(self is Schema || self is Begin)
    }
}

impl SessionView {
    /// The statement whose reply the session waits for.
    pub open spec fn current(self) -> StatementView {
        match self.phase {
            PhaseView::Schema(k) => schema_statement(k),
            PhaseView::Begin => StatementView::Begin,
            PhaseView::Head => self.work.head(),
            PhaseView::Tail(i) => self.work.tail(i),
            PhaseView::Commit => StatementView::Commit,
            PhaseView::Rollback(_) => StatementView::Rollback,
        }
    }

    /// The words that open the message of an error of the current statement.
    pub open spec fn context(self) -> Seq<char> {
        match self.phase {
            PhaseView::Schema(k) => schema_context(k),
            PhaseView::Begin => CONTEXT_BEGIN@,
            PhaseView::Head => match self.work {
                WorkView::Save { .. } => CONTEXT_INSERT_HISTORY@,
                WorkView::List { .. } => CONTEXT_SELECT_HISTORY@,
                WorkView::Clear => CONTEXT_DELETE_RESULTS@,
            },
            PhaseView::Tail(_) => match self.work {
                WorkView::Save { .. } => CONTEXT_INSERT_RESULT@,
                WorkView::List { .. } => CONTEXT_SELECT_RESULTS@,
                WorkView::Clear => CONTEXT_DELETE_HISTORY@,
            },
            PhaseView::Commit => CONTEXT_COMMIT@,
            PhaseView::Rollback(_) => CONTEXT_ROLLBACK@,
        }
    }

    /// The kind of the error that a failure of the current statement becomes:
    /// a failure to create the schema is an initialization error; elsewhere a
    /// refusal by a constraint is a constraint error, and any other failure
    /// an I/O error.
    pub open spec fn kind_of(self, failure: FailureView) -> ErrorKind {
        if self.phase is Schema {
            ErrorKind::Initialization
        } else if failure.cause.is_constraint() {
            ErrorKind::Constraint
        } else {
            ErrorKind::Io
        }
    }

    /// The error that a reply gives rise to, or `None` where the reply is a
    /// success of the kind that the current statement asks for. A success of
    /// another kind counts as a failure that is no refusal by a constraint.
    pub open spec fn blame(self, reply: ReplyView) -> Option<StoreErrorView> {
        match reply {
            ReplyView::Failed(failure) => Some(
                StoreErrorView {
                    kind: self.kind_of(failure),
                    message: self.context() + failure.message,
                },
            ),
            _ => if self.work.absorb(self.phase, reply).is_none() {
                Some(
                    StoreErrorView {
                        kind: self.kind_of(FailureView { cause: Cause::Other, message: OUT_OF_TURN@ }),
                        message: self.context() + OUT_OF_TURN@,
                    },
                )
            } else {
                None
            },
        }
    }

    /// The step that asks for the session's current statement.
    pub open spec fn step(self) -> StepView {
        StepView::Run(self, self.current())
    }

    /// The step that follows a reply to the current statement.
    ///
    /// The reply to a rollback is not looked at: the error that caused the
    /// rollback is reported. A reply that gives rise to an error ends the
    /// operation at once while no transaction is open, and is answered by a
    /// rollback otherwise. After any other reply the next statement is asked
    /// for; after the commit the operation ends with its result.
    pub open spec fn advance(self, reply: ReplyView) -> StepView {
        match self.phase {
            PhaseView::Rollback(error) => StepView::Finished(OutcomeView::Failed(error)),
            _ => match self.blame(reply) {
                Some(error) => if self.phase.in_transaction() {
                    (SessionView { work: self.work, phase: PhaseView::Rollback(error) }).step()
                } else {
                    StepView::Finished(OutcomeView::Failed(error))
                },
                None => {
                    let work = self.work.absorb(self.phase, reply).unwrap();
                    match work.next_phase(self.phase) {
                        Some(phase) => (SessionView { work, phase }).step(),
                        None => StepView::Finished(work.outcome()),
                    }
                },
            },
        }
    }
}

/// The first step of an operation with the given work: the first schema
/// statement.
pub open spec fn first_step(work: WorkView) -> StepView {
    (SessionView { work, phase: PhaseView::Schema(0) }).step()
}

impl View for Session {
    type V = SessionView;

    closed spec fn view(&self) -> SessionView {
        SessionView { work: self.work@, phase: self.phase@ }
    }
}

impl View for Step {
    type V = StepView;

    open spec fn view(&self) -> StepView {
        match self {
            Step::Run(session, statement) => StepView::Run(session@, statement@),
            Step::Finished(outcome) => StepView::Finished(outcome@),
        }
    }
}

/// Whether a phase names a statement that the work has.
spec fn in_range(work: WorkView, phase: PhaseView) -> bool {
    match phase {
        PhaseView::Schema(k) => k < SCHEMA_STEPS,
        PhaseView::Tail(i) => i < work.tail_len(),
        _ => true,
    }
}

fn schema_statement_at(k: usize) -> (statement: Statement)
    ensures
        statement@ == schema_statement(k as nat),
{
    if k == 0 {
        Statement::CreateHistoryTable
    } else if k == 1 {
        Statement::CreateDateIndex
    } else if k == 2 {
        Statement::CreateDifficultyIndex
    } else if k == 3 {
        Statement::CreateResultsTable
    } else {
        Statement::CreatePortIndex
    }
}

/// The statements that create the schema, in the order in which every
/// operation runs them.
pub fn schema_statements() -> (statements: Vec<Statement>)
    ensures
        statements.len() == SCHEMA_STEPS,
        forall|k: int|
            0 <= k < SCHEMA_STEPS ==> (#[trigger] statements[k])@ == schema_statement(k as nat),
{
    let mut statements: Vec<Statement> = Vec::new();
    let mut k: usize = 0;
    while k < SCHEMA_STEPS
        invariant
            k <= SCHEMA_STEPS,
            statements.len() == k,
            forall|i: int| 0 <= i < k ==> (#[trigger] statements[i])@ == schema_statement(i as nat),
        decreases SCHEMA_STEPS - k,
    {
        statements.push(schema_statement_at(k));
        k += 1;
    }
    statements
}

fn schema_context_at(k: usize) -> (context: &'static str)
    ensures
        context@ == schema_context(k as nat),
{
    if k == 0 {
        CONTEXT_HISTORY_TABLE
    } else if k == 1 {
        CONTEXT_DATE_INDEX
    } else if k == 2 {
        CONTEXT_DIFFICULTY_INDEX
    } else if k == 3 {
        CONTEXT_RESULTS_TABLE
    } else {
        CONTEXT_PORT_INDEX
    }
}

impl Work {
    fn tail_len(&self) -> (n: usize)
        ensures
            n == self@.tail_len(),
    {
        match self {
            Work::Save { children, .. } => children.len(),
            Work::List { parents, .. } => parents.len(),
            Work::Clear => 1,
        }
    }

    fn head(&self) -> (statement: Statement)
        ensures
            statement@ == self@.head(),
    {
        match self {
            Work::Save { parent, .. } => Statement::InsertHistory(parent.duplicate()),
            Work::List { .. } => Statement::SelectHistory,
            Work::Clear => Statement::DeleteResults,
        }
    }

    fn tail(&self, i: usize) -> (statement: Statement)
        requires
            i < self@.tail_len(),
        ensures
            statement@ == self@.tail(i as nat),
    {
        match self {
            Work::Save { children, .. } => Statement::InsertResult(children[i].duplicate()),
            Work::List { parents, .. } => Statement::SelectResults(parents[i].id.clone()),
            Work::Clear => Statement::DeleteHistory,
        }
    }

    /// Takes in a reply. Where the reply is not of the kind asked for, the
    /// work comes back unchanged as the `Err`.
    fn absorb(self, phase: &Phase, reply: Reply) -> (r: Result<Work, Work>)
        requires
            in_range(self@, phase@),
        ensures
            match r {
                Ok(work) => self@.absorb(phase@, reply@) == Some(work@),
                Err(work) => self@.absorb(phase@, reply@).is_none() && work@ == self@,
            },
    {
        match self {
            Work::List { parents, listed } => match phase {
                Phase::Head => match reply {
                    Reply::HistoryRows(rows) => {
                        let listed: Vec<QuizHistory> = Vec::new();
                        assert(histories_view(listed@) =~= Seq::empty());
                        Ok(Work::List { parents: rows, listed })
                    },
                    _ => Err(Work::List { parents, listed }),
                },
                Phase::Tail(i) => match reply {
                    Reply::ResultRows(rows) => {
                        let mut listed = listed;
                        let ghost before = listed@;
                        let record = assemble(&parents[*i], &rows);
                        listed.push(record);
                        assert(histories_view(listed@) =~= histories_view(before).push(record@));
                        Ok(Work::List { parents, listed })
                    },
                    _ => Err(Work::List { parents, listed }),
                },
                _ => match reply {
                    Reply::Done => Ok(Work::List { parents, listed }),
                    _ => Err(Work::List { parents, listed }),
                },
            },
            other => match reply {
                Reply::Done => Ok(other),
                _ => Err(other),
            },
        }
    }

    fn outcome(self) -> (outcome: Outcome)
        ensures
            outcome@ == self@.outcome(),
    {
        match self {
            Work::Save { .. } => Outcome::Saved,
            Work::List { listed, .. } => Outcome::Listed(listed),
            Work::Clear => Outcome::Cleared,
        }
    }

    fn next_phase(&self, phase: &Phase) -> (next: Option<Phase>)
        requires
            in_range(self@, phase@),
        ensures
            match next {
                Some(p) => self@.next_phase(phase@) == Some(p@) && in_range(self@, p@),
                None => self@.next_phase(phase@).is_none(),
            },
    {
        let tail_len = self.tail_len();
        match phase {
            Phase::Schema(k) => if *k + 1 < SCHEMA_STEPS {
                Some(Phase::Schema(*k + 1))
            } else {
                Some(Phase::Begin)
            },
            Phase::Begin => Some(Phase::Head),
            Phase::Head => if 0 < tail_len {
                Some(Phase::Tail(0))
            } else {
                Some(Phase::Commit)
            },
            Phase::Tail(i) => if *i + 1 < tail_len {
                Some(Phase::Tail(*i + 1))
            } else {
                Some(Phase::Commit)
            },
            Phase::Commit => None,
            Phase::Rollback(_) => None,
        }
    }
}

impl Session {
    #[verifier::type_invariant]
    spec fn well_formed(self) -> bool {
        in_range(self.work@, self.phase@)
    }

    /// The step that asks for the statement of `phase`.
    fn enter(work: Work, phase: Phase) -> (step: Step)
        requires
            in_range(work@, phase@),
        ensures
            step@ == (SessionView { work: work@, phase: phase@ }).step(),
    {
        let statement = match &phase {
            Phase::Schema(k) => schema_statement_at(*k),
            Phase::Begin => Statement::Begin,
            Phase::Head => work.head(),
            Phase::Tail(i) => work.tail(*i),
            Phase::Commit => Statement::Commit,
            Phase::Rollback(_) => Statement::Rollback,
        };
        Step::Run(Session { work, phase }, statement)
    }

    fn context(work: &Work, phase: &Phase) -> (context: &'static str)
        ensures
            context@ == (SessionView { work: work@, phase: phase@ }).context(),
    {
        match phase {
            Phase::Schema(k) => schema_context_at(*k),
            Phase::Begin => CONTEXT_BEGIN,
            Phase::Head => match work {
                Work::Save { .. } => CONTEXT_INSERT_HISTORY,
                Work::List { .. } => CONTEXT_SELECT_HISTORY,
                Work::Clear => CONTEXT_DELETE_RESULTS,
            },
            Phase::Tail(_) => match work {
                Work::Save { .. } => CONTEXT_INSERT_RESULT,
                Work::List { .. } => CONTEXT_SELECT_RESULTS,
                Work::Clear => CONTEXT_DELETE_HISTORY,
            },
            Phase::Commit => CONTEXT_COMMIT,
            Phase::Rollback(_) => CONTEXT_ROLLBACK,
        }
    }

    /// The step after an error: the end while no transaction is open, a
    /// rollback otherwise.
    fn fail(work: Work, phase: Phase, error: StoreError) -> (step: Step)
        ensures
            step@ == if phase@.in_transaction() {
                (SessionView { work: work@, phase: PhaseView::Rollback(error@) }).step()
            } else {
                StepView::Finished(OutcomeView::Failed(error@))
            },
    {
        match phase {
            Phase::Schema(_) => Step::Finished(Outcome::Failed(error)),
            Phase::Begin => Step::Finished(Outcome::Failed(error)),
            _ => Session::enter(work, Phase::Rollback(error)),
        }
    }

    /// Takes in the reply to the statement that the last step asked for, and
    /// gives the next step.
    pub fn advance(self, reply: Reply) -> (step: Step)
        ensures
            step@ == self@.advance(reply@),
    {
        proof {
            use_type_invariant(&self);
        }
        let Session { work, phase } = self;
        match phase {
            Phase::Rollback(error) => Step::Finished(Outcome::Failed(error)),
            phase => match reply {
                Reply::Failed(failure) => {
                    let kind = match &phase {
                        Phase::Schema(_) => ErrorKind::Initialization,
                        _ => if failure.cause.constraint() {
                            ErrorKind::Constraint
                        } else {
                            ErrorKind::Io
                        },
                    };
                    let error = StoreError::new(
                        kind,
                        Session::context(&work, &phase),
                        failure.message.as_str(),
                    );
                    Session::fail(work, phase, error)
                },
                reply => {
                    let ghost before = work@;
                    match work.absorb(&phase, reply) {
                        Err(work) => {
                            let kind = match &phase {
                                Phase::Schema(_) => ErrorKind::Initialization,
                                _ => ErrorKind::Io,
                            };
                            let error = StoreError::new(
                                kind,
                                Session::context(&work, &phase),
                                OUT_OF_TURN,
                            );
                            Session::fail(work, phase, error)
                        },
                        Ok(work) => {
                            assert(work@.tail_len() == before.tail_len() || phase@ is Head);
                            match work.next_phase(&phase) {
                                Some(next) => Session::enter(work, next),
                                None => Step::Finished(work.outcome()),
                            }
                        },
                    }
                },
            },
        }
    }
}

impl Outcome {
    /// The outcome as a result: the listed records, if any, of an operation
    /// that succeeded, or the error of one that failed.
    pub fn into_result(self) -> (r: Result<Option<Vec<QuizHistory>>, StoreError>)
        ensures
            match r {
                Ok(Some(listed)) => self@.result() == Ok::<
                    Option<Seq<QuizHistoryView>>,
                    StoreErrorView,
                >(Some(histories_view(listed@))),
                Ok(None) => self@.result() == Ok::<Option<Seq<QuizHistoryView>>, StoreErrorView>(
                    None,
                ),
                Err(error) => self@.result() == Err::<
                    Option<Seq<QuizHistoryView>>,
                    StoreErrorView,
                >(error@),
            },
    {
        match self {
            Outcome::Saved => Ok(None),
            Outcome::Listed(listed) => Ok(Some(listed)),
            Outcome::Cleared => Ok(None),
            Outcome::Failed(error) => Err(error),
        }
    }
}

/// Begins an operation with the given work.
fn begin(work: Work) -> (step: Step)
    ensures
        step@ == first_step(work@),
{
    Session::enter(work, Phase::Schema(0))
}

/// Begins the saving of one record with all its results.
///
/// Where a name list cannot be encoded, the operation ends at once with a
/// serialization error and nothing is asked of the database. Otherwise the
/// work is to insert the row of the record and then one row for each result.
pub fn save_quiz_history(history: &QuizHistory) -> (step: Step)
    ensures
        if encodable(history@) {
            step@ == first_step(
                WorkView::Save {
                    parent: history_row_of(history@),
                    children: result_rows_of(history@),
                },
            )
        } else {
            step@ matches StepView::Finished(OutcomeView::Failed(error)) && error.kind
                == ErrorKind::Serialization
        },
{
    match to_history_row(history) {
        Ok(parent) => begin(Work::Save { parent, children: to_result_rows(history) }),
        Err(error) => Step::Finished(Outcome::Failed(error)),
    }
}

/// Begins the listing of all stored records, most recent first.
pub fn get_quiz_history() -> (step: Step)
    ensures
        step@ == first_step(WorkView::List { parents: Seq::empty(), listed: Seq::empty() }),
{
    let parents: Vec<HistoryRow> = Vec::new();
    let listed: Vec<QuizHistory> = Vec::new();
    assert(history_rows_view(parents@) =~= Seq::empty());
    assert(histories_view(listed@) =~= Seq::empty());
    begin(Work::List { parents, listed })
}

/// Begins the removal of all stored records.
pub fn clear_quiz_history() -> (step: Step)
    ensures
        step@ == first_step(WorkView::Clear),
{
    begin(Work::Clear)
}

} // verus!
