//! The statements that the store sends to the database, and the replies.

use vstd::prelude::*;
use crate::error::{Failure, FailureView};
use crate::row::{
    HistoryRow, HistoryRowView, ResultRow, ResultRowView, history_rows_view, result_rows_view,
};

verus! {

/// A statement for the database. The rows and the identifier are the values to
/// bind to the placeholders of the statement's text, in the order of the
/// columns that the text names.
#[derive(Debug, Clone, PartialEq, Eq)]
pub enum Statement {
    CreateHistoryTable,
    CreateDateIndex,
    CreateDifficultyIndex,
    CreateResultsTable,
    CreatePortIndex,
    Begin,
    Commit,
    Rollback,
    InsertHistory(HistoryRow),
    InsertResult(ResultRow),
    SelectHistory,
    SelectResults(String),
    DeleteResults,
    DeleteHistory,
}

/// The mathematical value of a [`Statement`].
pub enum StatementView {
    CreateHistoryTable,
    CreateDateIndex,
    CreateDifficultyIndex,
    CreateResultsTable,
    CreatePortIndex,
    Begin,
    Commit,
    Rollback,
    InsertHistory(HistoryRowView),
    InsertResult(ResultRowView),
    SelectHistory,
    SelectResults(Seq<char>),
    DeleteResults,
    DeleteHistory,
}

impl View for Statement {
    type V = StatementView;

    open spec fn view(&self) -> StatementView {
        match self {
            Statement::CreateHistoryTable => StatementView::CreateHistoryTable,
            Statement::CreateDateIndex => StatementView::CreateDateIndex,
            Statement::CreateDifficultyIndex => StatementView::CreateDifficultyIndex,
            Statement::CreateResultsTable => StatementView::CreateResultsTable,
            Statement::CreatePortIndex => StatementView::CreatePortIndex,
            Statement::Begin => StatementView::Begin,
            Statement::Commit => StatementView::Commit,
            Statement::Rollback => StatementView::Rollback,
            Statement::InsertHistory(row) => StatementView::InsertHistory(row@),
            Statement::InsertResult(row) => StatementView::InsertResult(row@),
            Statement::SelectHistory => StatementView::SelectHistory,
            Statement::SelectResults(id) => StatementView::SelectResults(id@),
            Statement::DeleteResults => StatementView::DeleteResults,
            Statement::DeleteHistory => StatementView::DeleteHistory,
        }
    }
}

/// The text of each statement. A `?` stands for a value to bind.
pub const CREATE_HISTORY_TABLE: &'static str =
    "CREATE TABLE IF NOT EXISTS quiz_history (id TEXT PRIMARY KEY, date INTEGER NOT NULL, score INTEGER NOT NULL, total INTEGER NOT NULL, accuracy REAL NOT NULL, duration INTEGER NOT NULL, difficulty TEXT NOT NULL, regions TEXT NOT NULL, countries TEXT NOT NULL)";

/// See [`CREATE_HISTORY_TABLE`].
pub const CREATE_DATE_INDEX: &'static str =
    "CREATE INDEX IF NOT EXISTS idx_quiz_history_date ON quiz_history(date DESC)";

/// See [`CREATE_HISTORY_TABLE`].
pub const CREATE_DIFFICULTY_INDEX: &'static str =
    "CREATE INDEX IF NOT EXISTS idx_quiz_history_difficulty ON quiz_history(difficulty)";

/// See [`CREATE_HISTORY_TABLE`].
pub const CREATE_RESULTS_TABLE: &'static str =
    "CREATE TABLE IF NOT EXISTS quiz_results (id INTEGER PRIMARY KEY AUTOINCREMENT, quiz_id TEXT NOT NULL, port TEXT NOT NULL, is_correct INTEGER NOT NULL, FOREIGN KEY (quiz_id) REFERENCES quiz_history(id) ON DELETE CASCADE)";

/// See [`CREATE_HISTORY_TABLE`].
pub const CREATE_PORT_INDEX: &'static str =
    "CREATE INDEX IF NOT EXISTS idx_quiz_results_port_correct ON quiz_results(port, is_correct)";

/// See [`CREATE_HISTORY_TABLE`].
pub const BEGIN: &'static str = "BEGIN IMMEDIATE";

/// See [`CREATE_HISTORY_TABLE`].
pub const COMMIT: &'static str = "COMMIT";

/// See [`CREATE_HISTORY_TABLE`].
pub const ROLLBACK: &'static str = "ROLLBACK";

/// See [`CREATE_HISTORY_TABLE`].
pub const INSERT_HISTORY: &'static str =
    "INSERT INTO quiz_history (id, date, score, total, accuracy, duration, difficulty, regions, countries) VALUES (?, ?, ?, ?, ?, ?, ?, ?, ?)";

/// See [`CREATE_HISTORY_TABLE`].
pub const INSERT_RESULT: &'static str =
    "INSERT INTO quiz_results (quiz_id, port, is_correct) VALUES (?, ?, ?)";

/// See [`CREATE_HISTORY_TABLE`].
pub const SELECT_HISTORY: &'static str =
    "SELECT id, date, score, total, accuracy, duration, difficulty, regions, countries FROM quiz_history ORDER BY date DESC";

/// See [`CREATE_HISTORY_TABLE`].
pub const SELECT_RESULTS: &'static str =
    "SELECT port, is_correct FROM quiz_results WHERE quiz_id = ?";

/// See [`CREATE_HISTORY_TABLE`].
pub const DELETE_RESULTS: &'static str = "DELETE FROM quiz_results";

/// See [`CREATE_HISTORY_TABLE`].
pub const DELETE_HISTORY: &'static str = "DELETE FROM quiz_history";

impl StatementView {
    /// The text of the statement, with `?` for each value to bind.
    pub open spec fn sql(self) -> Seq<char> {
        match self {
            StatementView::CreateHistoryTable => CREATE_HISTORY_TABLE@,
            StatementView::CreateDateIndex => CREATE_DATE_INDEX@,
            StatementView::CreateDifficultyIndex => CREATE_DIFFICULTY_INDEX@,
            StatementView::CreateResultsTable => CREATE_RESULTS_TABLE@,
            StatementView::CreatePortIndex => CREATE_PORT_INDEX@,
            StatementView::Begin => BEGIN@,
            StatementView::Commit => COMMIT@,
            StatementView::Rollback => ROLLBACK@,
            StatementView::InsertHistory(_) => INSERT_HISTORY@,
            StatementView::InsertResult(_) => INSERT_RESULT@,
            StatementView::SelectHistory => SELECT_HISTORY@,
            StatementView::SelectResults(_) => SELECT_RESULTS@,
            StatementView::DeleteResults => DELETE_RESULTS@,
            StatementView::DeleteHistory => DELETE_HISTORY@,
        }
    }
}

impl Statement {
    /// The text of the statement, with `?` for each value to bind.
    pub fn sql(&self) -> (text: &'static str)
        ensures
            text@ == self@.sql(),
    {
        match self {
            Statement::CreateHistoryTable => CREATE_HISTORY_TABLE,
            Statement::CreateDateIndex => CREATE_DATE_INDEX,
            Statement::CreateDifficultyIndex => CREATE_DIFFICULTY_INDEX,
            Statement::CreateResultsTable => CREATE_RESULTS_TABLE,
            Statement::CreatePortIndex => CREATE_PORT_INDEX,
            Statement::Begin => BEGIN,
            Statement::Commit => COMMIT,
            Statement::Rollback => ROLLBACK,
            Statement::InsertHistory(_) => INSERT_HISTORY,
            Statement::InsertResult(_) => INSERT_RESULT,
            Statement::SelectHistory => SELECT_HISTORY,
            Statement::SelectResults(_) => SELECT_RESULTS,
            Statement::DeleteResults => DELETE_RESULTS,
            Statement::DeleteHistory => DELETE_HISTORY,
        }
    }
}

/// What the database answered to a statement.
#[derive(Debug, Clone, PartialEq, Eq)]
pub enum Reply {
    /// The statement ran; it asked for no rows.
    Done,
    /// The rows of the table of quizzes that were asked for, in the order in
    /// which the database gave them.
    HistoryRows(Vec<HistoryRow>),
    /// The rows of the table of results that were asked for.
    ResultRows(Vec<ResultRow>),
    /// The statement did not run.
    Failed(Failure),
}

/// The mathematical value of a [`Reply`].
pub enum ReplyView {
    Done,
    HistoryRows(Seq<HistoryRowView>),
    ResultRows(Seq<ResultRowView>),
    Failed(FailureView),
}

impl View for Reply {
    type V = ReplyView;

    open spec fn view(&self) -> ReplyView {
        match self {
            Reply::Done => ReplyView::Done,
            Reply::HistoryRows(rows) => ReplyView::HistoryRows(history_rows_view(rows@)),
            Reply::ResultRows(rows) => ReplyView::ResultRows(result_rows_view(rows@)),
            Reply::Failed(failure) => ReplyView::Failed(failure@),
        }
    }
}

} // verus!
