//! The dialogue of each operation, replayed with replies written by hand.

use quiz_history::session::{
    CONTEXT_BEGIN, CONTEXT_COMMIT, CONTEXT_DATE_INDEX, CONTEXT_DELETE_HISTORY,
    CONTEXT_DELETE_RESULTS, CONTEXT_DIFFICULTY_INDEX, CONTEXT_HISTORY_TABLE,
    CONTEXT_INSERT_HISTORY, CONTEXT_INSERT_RESULT, CONTEXT_PORT_INDEX, CONTEXT_RESULTS_TABLE,
    CONTEXT_SELECT_HISTORY, CONTEXT_SELECT_RESULTS, OUT_OF_TURN,
};
use quiz_history::{
    clear_quiz_history, get_quiz_history, save_quiz_history, Cause, ErrorKind, Failure, HistoryRow,
    Outcome, QuizHistory, QuizResult, Reply, ResultRow, Statement, Step, StoreError,
};

fn quiz() -> QuizHistory {
    QuizHistory {
        id: "q1".to_string(),
        date: 1000,
        score: 4,
        total: 5,
        accuracy_bits: 0.8f64.to_bits(),
        duration: 60,
        difficulty: "hard".to_string(),
        regions: vec!["Europe".to_string()],
        countries: vec!["France".to_string(), "Spain".to_string()],
        results: vec![
            QuizResult { port: "FR-001".to_string(), is_correct: true },
            QuizResult { port: "ES-002".to_string(), is_correct: false },
        ],
    }
}

fn quiz_row() -> HistoryRow {
    HistoryRow {
        id: "q1".to_string(),
        date: 1000,
        score: 4,
        total: 5,
        accuracy_bits: 0.8f64.to_bits(),
        duration: 60,
        difficulty: "hard".to_string(),
        regions: Some("[\"Europe\"]".to_string()),
        countries: Some("[\"France\",\"Spain\"]".to_string()),
    }
}

fn result_row(port: &str, is_correct: i32) -> ResultRow {
    ResultRow { quiz_id: "q1".to_string(), port: port.to_string(), is_correct }
}

fn schema() -> Vec<Statement> {
    vec![
        Statement::CreateHistoryTable,
        Statement::CreateDateIndex,
        Statement::CreateDifficultyIndex,
        Statement::CreateResultsTable,
        Statement::CreatePortIndex,
    ]
}

fn broke(message: &str) -> Reply {
    Reply::Failed(Failure { cause: Cause::Other, message: message.to_string() })
}

/// Replays an operation: each statement asked for is recorded and answered
/// with the next reply. Returns the statements and the outcome.
fn replay(first: Step, replies: Vec<Reply>) -> (Vec<Statement>, Outcome) {
    let mut asked = Vec::new();
    let mut replies = replies.into_iter();
    let mut step = first;
    loop {
        match step {
            Step::Finished(outcome) => {
                assert!(replies.next().is_none(), "replies left over");
                return (asked, outcome);
            }
            Step::Run(session, statement) => {
                asked.push(statement);
                let reply = replies.next().expect("the operation asks for more");
                step = session.advance(reply);
            }
        }
    }
}

fn done(n: usize) -> Vec<Reply> {
    vec![Reply::Done; n]
}

fn failed(kind: ErrorKind, message: String) -> Outcome {
    Outcome::Failed(StoreError { kind, message })
}

#[test]
fn save_asks_for_schema_transaction_and_every_row() {
    let (asked, outcome) = replay(save_quiz_history(&quiz()), done(10));
    let mut expected = schema();
    expected.push(Statement::Begin);
    expected.push(Statement::InsertHistory(quiz_row()));
    expected.push(Statement::InsertResult(result_row("FR-001", 1)));
    expected.push(Statement::InsertResult(result_row("ES-002", 0)));
    expected.push(Statement::Commit);
    assert_eq!(asked, expected);
    assert_eq!(outcome, Outcome::Saved);
}

#[test]
fn save_without_results_inserts_one_row() {
    let mut record = quiz();
    record.results.clear();
    let (asked, outcome) = replay(save_quiz_history(&record), done(8));
    assert_eq!(asked[5], Statement::Begin);
    assert_eq!(asked[6], Statement::InsertHistory(quiz_row()));
    assert_eq!(asked[7], Statement::Commit);
    assert_eq!(outcome, Outcome::Saved);
}

#[test]
fn clear_empties_results_before_quizzes() {
    let (asked, outcome) = replay(clear_quiz_history(), done(9));
    let mut expected = schema();
    expected.push(Statement::Begin);
    expected.push(Statement::DeleteResults);
    expected.push(Statement::DeleteHistory);
    expected.push(Statement::Commit);
    assert_eq!(asked, expected);
    assert_eq!(outcome, Outcome::Cleared);
}

#[test]
fn list_of_empty_table_asks_for_no_results() {
    let mut replies = done(6);
    replies.push(Reply::HistoryRows(vec![]));
    replies.push(Reply::Done);
    let (asked, outcome) = replay(get_quiz_history(), replies);
    let mut expected = schema();
    expected.push(Statement::Begin);
    expected.push(Statement::SelectHistory);
    expected.push(Statement::Commit);
    assert_eq!(asked, expected);
    assert_eq!(outcome, Outcome::Listed(vec![]));
}

#[test]
fn list_assembles_one_record_per_quiz_row_in_the_order_given() {
    let mut second = quiz_row();
    second.id = "q0".to_string();
    second.date = 10;
    second.regions = Some("not json".to_string());
    second.countries = None;
    let mut replies = done(6);
    replies.push(Reply::HistoryRows(vec![quiz_row(), second]));
    replies.push(Reply::ResultRows(vec![result_row("ES-002", 0), result_row("FR-001", 7)]));
    replies.push(Reply::ResultRows(vec![]));
    replies.push(Reply::Done);
    let (asked, outcome) = replay(get_quiz_history(), replies);
    assert_eq!(asked[6], Statement::SelectHistory);
    assert_eq!(asked[7], Statement::SelectResults("q1".to_string()));
    assert_eq!(asked[8], Statement::SelectResults("q0".to_string()));
    assert_eq!(asked[9], Statement::Commit);
    assert_eq!(asked.len(), 10);
    let mut first = quiz();
    first.results.reverse();
    let mut other = quiz();
    other.id = "q0".to_string();
    other.date = 10;
    other.regions.clear();
    other.countries.clear();
    other.results.clear();
    assert_eq!(outcome, Outcome::Listed(vec![first, other]));
}

#[test]
fn schema_failure_is_an_initialization_error_without_rollback() {
    let contexts = [
        CONTEXT_HISTORY_TABLE,
        CONTEXT_DATE_INDEX,
        CONTEXT_DIFFICULTY_INDEX,
        CONTEXT_RESULTS_TABLE,
        CONTEXT_PORT_INDEX,
    ];
    for k in 0..5 {
        let mut replies = done(k);
        replies.push(Reply::Failed(Failure { cause: Cause::Unique, message: "no space".to_string() }));
        let (asked, outcome) = replay(get_quiz_history(), replies);
        assert_eq!(asked, schema()[..=k].to_vec());
        assert_eq!(outcome, failed(ErrorKind::Initialization, format!("{}no space", contexts[k])));
    }
    assert_eq!(CONTEXT_HISTORY_TABLE, "Failed to create quiz_history table: ");
    assert_eq!(CONTEXT_DATE_INDEX, "Failed to create date index: ");
    assert_eq!(CONTEXT_DIFFICULTY_INDEX, "Failed to create difficulty index: ");
    assert_eq!(CONTEXT_RESULTS_TABLE, "Failed to create quiz_results table: ");
    assert_eq!(CONTEXT_PORT_INDEX, "Failed to create port index: ");
}

#[test]
fn begin_failure_ends_the_operation_without_rollback() {
    let mut replies = done(5);
    replies.push(broke("locked"));
    let (asked, outcome) = replay(clear_quiz_history(), replies);
    assert_eq!(asked.len(), 6);
    assert_eq!(asked[5], Statement::Begin);
    assert_eq!(outcome, failed(ErrorKind::Io, format!("{}locked", CONTEXT_BEGIN)));
    assert_eq!(CONTEXT_BEGIN, "Failed to begin transaction: ");
}

#[test]
fn failure_inside_the_transaction_is_rolled_back_then_reported() {
    // (replies after begin, context of the failing statement)
    let cases: Vec<(Step, usize, &str)> = vec![
        (save_quiz_history(&quiz()), 0, CONTEXT_INSERT_HISTORY),
        (save_quiz_history(&quiz()), 1, CONTEXT_INSERT_RESULT),
        (save_quiz_history(&quiz()), 2, CONTEXT_INSERT_RESULT),
        (save_quiz_history(&quiz()), 3, CONTEXT_COMMIT),
        (clear_quiz_history(), 0, CONTEXT_DELETE_RESULTS),
        (clear_quiz_history(), 1, CONTEXT_DELETE_HISTORY),
        (clear_quiz_history(), 2, CONTEXT_COMMIT),
        (get_quiz_history(), 0, CONTEXT_SELECT_HISTORY),
    ];
    for (first, good, context) in cases {
        let mut replies = done(6 + good);
        replies.push(broke("disk I/O error"));
        replies.push(broke("cannot roll back"));
        let (asked, outcome) = replay(first, replies);
        assert_eq!(asked.len(), 6 + good + 2);
        assert_eq!(asked.last(), Some(&Statement::Rollback));
        assert_eq!(outcome, failed(ErrorKind::Io, format!("{}disk I/O error", context)));
    }
    assert_eq!(CONTEXT_INSERT_HISTORY, "Failed to insert quiz history: ");
    assert_eq!(CONTEXT_INSERT_RESULT, "Failed to insert quiz result: ");
    assert_eq!(CONTEXT_COMMIT, "Failed to commit transaction: ");
    assert_eq!(CONTEXT_DELETE_RESULTS, "Failed to clear quiz results: ");
    assert_eq!(CONTEXT_DELETE_HISTORY, "Failed to clear quiz history: ");
    assert_eq!(CONTEXT_SELECT_HISTORY, "Failed to fetch quiz history: ");
}

#[test]
fn failure_while_fetching_results_discards_the_partial_listing() {
    let mut replies = done(6);
    replies.push(Reply::HistoryRows(vec![quiz_row(), quiz_row()]));
    replies.push(Reply::ResultRows(vec![result_row("FR-001", 1)]));
    replies.push(broke("gone"));
    replies.push(Reply::Done);
    let (asked, outcome) = replay(get_quiz_history(), replies);
    assert_eq!(asked.last(), Some(&Statement::Rollback));
    assert_eq!(outcome, failed(ErrorKind::Io, format!("{}gone", CONTEXT_SELECT_RESULTS)));
    assert_eq!(CONTEXT_SELECT_RESULTS, "Failed to fetch quiz results: ");
}

#[test]
fn refusal_by_a_constraint_is_a_constraint_error() {
    let mut replies = done(6);
    replies.push(Reply::Failed(Failure {
        cause: Cause::Unique,
        message: "UNIQUE constraint failed: quiz_history.id".to_string(),
    }));
    replies.push(Reply::Done);
    let (asked, outcome) = replay(save_quiz_history(&quiz()), replies);
    assert_eq!(asked.len(), 8);
    assert_eq!(asked[7], Statement::Rollback);
    assert_eq!(
        outcome,
        failed(
            ErrorKind::Constraint,
            "Failed to insert quiz history: UNIQUE constraint failed: quiz_history.id".to_string()
        )
    );
}

#[test]
fn reply_of_the_wrong_kind_is_an_error() {
    // Rows where none were asked for.
    let mut replies = done(6);
    replies.push(Reply::HistoryRows(vec![]));
    replies.push(Reply::Done);
    let (asked, outcome) = replay(save_quiz_history(&quiz()), replies);
    assert_eq!(asked.last(), Some(&Statement::Rollback));
    assert_eq!(outcome, failed(ErrorKind::Io, format!("{}{}", CONTEXT_INSERT_HISTORY, OUT_OF_TURN)));
    // No rows where quiz rows were asked for.
    let (_, outcome) = replay(get_quiz_history(), done(8));
    assert_eq!(outcome, failed(ErrorKind::Io, format!("{}{}", CONTEXT_SELECT_HISTORY, OUT_OF_TURN)));
    // Quiz rows where result rows were asked for.
    let mut replies = done(6);
    replies.push(Reply::HistoryRows(vec![quiz_row()]));
    replies.push(Reply::HistoryRows(vec![quiz_row()]));
    replies.push(Reply::Done);
    let (_, outcome) = replay(get_quiz_history(), replies);
    assert_eq!(outcome, failed(ErrorKind::Io, format!("{}{}", CONTEXT_SELECT_RESULTS, OUT_OF_TURN)));
    // Rows in answer to a schema statement: no transaction yet, so no rollback.
    let (asked, outcome) = replay(clear_quiz_history(), vec![Reply::ResultRows(vec![])]);
    assert_eq!(asked, vec![Statement::CreateHistoryTable]);
    assert_eq!(
        outcome,
        failed(ErrorKind::Initialization, format!("{}{}", CONTEXT_HISTORY_TABLE, OUT_OF_TURN))
    );
    assert_eq!(OUT_OF_TURN, "the database answered out of turn");
}

#[test]
fn outcome_as_result() {
    assert_eq!(Outcome::Saved.into_result(), Ok(None));
    assert_eq!(Outcome::Cleared.into_result(), Ok(None));
    assert_eq!(Outcome::Listed(vec![quiz()]).into_result(), Ok(Some(vec![quiz()])));
    let error = StoreError { kind: ErrorKind::Io, message: "x".to_string() };
    assert_eq!(Outcome::Failed(error.clone()).into_result(), Err(error.clone()));
    assert_eq!(error.to_text(), "x");
}

#[test]
fn every_constraint_gives_a_constraint_error() {
    for (cause, kind) in [
        (Cause::Unique, ErrorKind::Constraint),
        (Cause::ForeignKey, ErrorKind::Constraint),
        (Cause::NotNull, ErrorKind::Constraint),
        (Cause::Check, ErrorKind::Constraint),
        (Cause::Other, ErrorKind::Io),
    ] {
        assert_eq!(cause.constraint(), kind == ErrorKind::Constraint);
        for good in 5..10 {
            let mut replies = done(good);
            replies.push(Reply::Failed(Failure { cause, message: "x".to_string() }));
            if good > 5 {
                replies.push(Reply::Done);
            }
            match replay(save_quiz_history(&quiz()), replies).1 {
                Outcome::Failed(error) => assert_eq!(error.kind, kind),
                other => panic!("{:?}", other),
            }
        }
    }
}
