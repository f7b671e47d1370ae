//! The store carried out against a real SQLite database in memory.

use quiz_history::{
    clear_quiz_history, get_quiz_history, save_quiz_history, Cause, ErrorKind, Failure, HistoryRow,
    Outcome, QuizHistory, QuizResult, Reply, ResultRow, Statement, Step,
};
use sqlx::{Connection, Row, SqliteConnection};
use tokio::runtime::{Builder, Runtime};

fn open() -> (Runtime, SqliteConnection) {
    let runtime = Builder::new_current_thread().enable_all().build().unwrap();
    let connection = runtime.block_on(SqliteConnection::connect("sqlite::memory:")).unwrap();
    (runtime, connection)
}

fn failure(error: sqlx::Error) -> Reply {
    let cause = match &error {
        sqlx::Error::Database(refusal) => match refusal.kind() {
            sqlx::error::ErrorKind::UniqueViolation => Cause::Unique,
            sqlx::error::ErrorKind::ForeignKeyViolation => Cause::ForeignKey,
            sqlx::error::ErrorKind::NotNullViolation => Cause::NotNull,
            sqlx::error::ErrorKind::CheckViolation => Cause::Check,
            _ => Cause::Other,
        },
        _ => Cause::Other,
    };
    Reply::Failed(Failure { cause, message: error.to_string() })
}

fn history_row(row: &sqlx::sqlite::SqliteRow) -> Result<HistoryRow, sqlx::Error> {
    Ok(HistoryRow {
        id: row.try_get("id")?,
        date: row.try_get("date")?,
        score: row.try_get("score")?,
        total: row.try_get("total")?,
        accuracy_bits: row.try_get::<f64, _>("accuracy")?.to_bits(),
        duration: row.try_get("duration")?,
        difficulty: row.try_get("difficulty")?,
        regions: row.try_get("regions")?,
        countries: row.try_get("countries")?,
    })
}

fn result_row(id: &str, row: &sqlx::sqlite::SqliteRow) -> Result<ResultRow, sqlx::Error> {
    Ok(ResultRow {
        quiz_id: id.to_string(),
        port: row.try_get("port")?,
        is_correct: row.try_get("is_correct")?,
    })
}

async fn answer(connection: &mut SqliteConnection, statement: &Statement) -> Reply {
    let query = sqlx::query(statement.sql());
    match statement {
        Statement::InsertHistory(row) => {
            let done = query
                .bind(&row.id)
                .bind(row.date)
                .bind(row.score)
                .bind(row.total)
                .bind(f64::from_bits(row.accuracy_bits))
                .bind(row.duration)
                .bind(&row.difficulty)
                .bind(&row.regions)
                .bind(&row.countries)
                .execute(connection)
                .await;
            done.map_or_else(failure, |_| Reply::Done)
        }
        Statement::InsertResult(row) => {
            let done = query
                .bind(&row.quiz_id)
                .bind(&row.port)
                .bind(row.is_correct)
                .execute(connection)
                .await;
            done.map_or_else(failure, |_| Reply::Done)
        }
        Statement::SelectHistory => match query.fetch_all(connection).await {
            Ok(rows) => rows
                .iter()
                .map(history_row)
                .collect::<Result<Vec<_>, _>>()
                .map_or_else(failure, Reply::HistoryRows),
            Err(error) => failure(error),
        },
        Statement::SelectResults(id) => match query.bind(id).fetch_all(connection).await {
            Ok(rows) => rows
                .iter()
                .map(|row| result_row(id, row))
                .collect::<Result<Vec<_>, _>>()
                .map_or_else(failure, Reply::ResultRows),
            Err(error) => failure(error),
        },
        _ => query.execute(connection).await.map_or_else(failure, |_| Reply::Done),
    }
}

/// Carries the operation out; the statement of number `fault`, if any, is not
/// run and is answered with a failure.
fn conduct(
    runtime: &Runtime,
    connection: &mut SqliteConnection,
    first: Step,
    fault: Option<usize>,
) -> Outcome {
    let mut step = first;
    let mut number = 0;
    loop {
        match step {
            Step::Finished(outcome) => return outcome,
            Step::Run(session, statement) => {
                let reply = if fault == Some(number) {
                    Reply::Failed(Failure { cause: Cause::Other, message: "disk I/O error".into() })
                } else {
                    runtime.block_on(answer(connection, &statement))
                };
                number += 1;
                step = session.advance(reply);
            }
        }
    }
}

fn count(runtime: &Runtime, connection: &mut SqliteConnection, table: &str) -> i64 {
    let sql = format!("SELECT COUNT(*) FROM {}", table);
    let row = runtime.block_on(sqlx::query(&sql).fetch_one(connection)).unwrap();
    row.get(0)
}

fn quiz(id: &str, date: i64) -> QuizHistory {
    QuizHistory {
        id: id.to_string(),
        date,
        score: 4,
        total: 5,
        accuracy_bits: 0.8f64.to_bits(),
        duration: 60,
        difficulty: "hard".to_string(),
        regions: vec!["Europe".to_string()],
        countries: vec!["France".to_string(), "Spain".to_string()],
        results: vec![
            QuizResult { port: "FR-001".to_string(), is_correct: true },
            QuizResult { port: "ES-002".to_string(), is_correct: false },
        ],
    }
}

fn listed(outcome: Outcome) -> Vec<QuizHistory> {
    match outcome {
        Outcome::Listed(histories) => histories,
        other => panic!("not a listing: {:?}", other),
    }
}

#[test]
fn sqlite_example_scenario() {
    let (runtime, mut connection) = open();
    let record = quiz("q1", 1000);
    let saved = conduct(&runtime, &mut connection, save_quiz_history(&record), None);
    assert_eq!(saved, Outcome::Saved);
    let mut all = listed(conduct(&runtime, &mut connection, get_quiz_history(), None));
    assert_eq!(all.len(), 1);
    let mut found = all.remove(0);
    found.results.sort_by(|a, b| b.port.cmp(&a.port));
    assert_eq!(found, record);
    assert_eq!(f64::from_bits(found.accuracy_bits), 0.8);
}

#[test]
fn sqlite_second_save_under_same_identifier_is_refused() {
    let (runtime, mut connection) = open();
    let first = quiz("q1", 1000);
    let mut second = quiz("q1", 2000);
    second.difficulty = "easy".to_string();
    assert_eq!(conduct(&runtime, &mut connection, save_quiz_history(&first), None), Outcome::Saved);
    match conduct(&runtime, &mut connection, save_quiz_history(&second), None) {
        Outcome::Failed(error) => {
            assert_eq!(error.kind, ErrorKind::Constraint);
            assert!(error.message.starts_with("Failed to insert quiz history: "));
        }
        other => panic!("not refused: {:?}", other),
    }
    let all = listed(conduct(&runtime, &mut connection, get_quiz_history(), None));
    assert_eq!(all.len(), 1);
    assert_eq!(all[0].date, 1000);
    assert_eq!(all[0].difficulty, "hard");
    assert_eq!(count(&runtime, &mut connection, "quiz_results"), 2);
}

#[test]
fn sqlite_clear_leaves_no_rows() {
    let (runtime, mut connection) = open();
    assert_eq!(conduct(&runtime, &mut connection, save_quiz_history(&quiz("q1", 1)), None), Outcome::Saved);
    assert_eq!(conduct(&runtime, &mut connection, clear_quiz_history(), None), Outcome::Cleared);
    assert_eq!(listed(conduct(&runtime, &mut connection, get_quiz_history(), None)), vec![]);
    assert_eq!(count(&runtime, &mut connection, "quiz_history"), 0);
    assert_eq!(count(&runtime, &mut connection, "quiz_results"), 0);
}

#[test]
fn sqlite_clear_twice_succeeds() {
    let (runtime, mut connection) = open();
    assert_eq!(conduct(&runtime, &mut connection, save_quiz_history(&quiz("q1", 1)), None), Outcome::Saved);
    assert_eq!(conduct(&runtime, &mut connection, clear_quiz_history(), None), Outcome::Cleared);
    assert_eq!(conduct(&runtime, &mut connection, clear_quiz_history(), None), Outcome::Cleared);
    assert_eq!(listed(conduct(&runtime, &mut connection, get_quiz_history(), None)), vec![]);
}

#[test]
fn sqlite_clear_of_fresh_database_succeeds() {
    let (runtime, mut connection) = open();
    assert_eq!(conduct(&runtime, &mut connection, clear_quiz_history(), None), Outcome::Cleared);
    assert_eq!(listed(conduct(&runtime, &mut connection, get_quiz_history(), None)), vec![]);
}

#[test]
fn sqlite_interrupted_save_is_rolled_back() {
    // Statements 0 to 4 create the schema, 5 begins, 6 inserts the quiz row,
    // 7 and 8 insert the result rows, 9 commits.
    for fault in 0..10 {
        let (runtime, mut connection) = open();
        assert_eq!(
            conduct(&runtime, &mut connection, save_quiz_history(&quiz("q0", 5)), None),
            Outcome::Saved
        );
        let outcome = conduct(&runtime, &mut connection, save_quiz_history(&quiz("q1", 7)), Some(fault));
        match outcome {
            Outcome::Failed(error) => {
                let kind = if fault < 5 { ErrorKind::Initialization } else { ErrorKind::Io };
                assert_eq!(error.kind, kind, "fault at {}", fault);
                assert!(error.message.ends_with("disk I/O error"));
            }
            other => panic!("fault at {} gave {:?}", fault, other),
        }
        let all = listed(conduct(&runtime, &mut connection, get_quiz_history(), None));
        assert_eq!(all.len(), 1, "fault at {}", fault);
        assert_eq!(all[0].id, "q0");
        assert_eq!(count(&runtime, &mut connection, "quiz_results"), 2, "fault at {}", fault);
    }
}

#[test]
fn sqlite_lists_most_recent_first() {
    let (runtime, mut connection) = open();
    for (id, date) in [("b", 200), ("c", 300), ("a", 100)] {
        assert_eq!(
            conduct(&runtime, &mut connection, save_quiz_history(&quiz(id, date)), None),
            Outcome::Saved
        );
    }
    let all = listed(conduct(&runtime, &mut connection, get_quiz_history(), None));
    let dates: Vec<i64> = all.iter().map(|h| h.date).collect();
    assert_eq!(dates, vec![300, 200, 100]);
}

#[test]
fn sqlite_equal_dates_come_in_order_of_insertion() {
    let (runtime, mut connection) = open();
    for (id, date) in [("x", 5), ("m", 9), ("a", 5), ("k", 5)] {
        assert_eq!(
            conduct(&runtime, &mut connection, save_quiz_history(&quiz(id, date)), None),
            Outcome::Saved
        );
    }
    let all = listed(conduct(&runtime, &mut connection, get_quiz_history(), None));
    let ids: Vec<&str> = all.iter().map(|h| h.id.as_str()).collect();
    assert_eq!(ids, vec!["m", "x", "a", "k"]);
}

#[test]
fn sqlite_record_without_results_round_trips() {
    let (runtime, mut connection) = open();
    let mut record = quiz("empty", 3);
    record.results.clear();
    record.regions.clear();
    record.countries = vec!["C\u{f4}te d'Ivoire \"quoted\" \\ \n".to_string(), String::new()];
    assert_eq!(conduct(&runtime, &mut connection, save_quiz_history(&record), None), Outcome::Saved);
    let all = listed(conduct(&runtime, &mut connection, get_quiz_history(), None));
    assert_eq!(all, vec![record]);
}

#[test]
fn sqlite_malformed_name_list_reads_as_empty() {
    let (runtime, mut connection) = open();
    assert_eq!(conduct(&runtime, &mut connection, save_quiz_history(&quiz("q1", 1)), None), Outcome::Saved);
    runtime
        .block_on(sqlx::query("UPDATE quiz_history SET regions = 'not json'").execute(&mut connection))
        .unwrap();
    let all = listed(conduct(&runtime, &mut connection, get_quiz_history(), None));
    assert_eq!(all.len(), 1);
    assert_eq!(all[0].regions, Vec::<String>::new());
    assert_eq!(all[0].countries, vec!["France".to_string(), "Spain".to_string()]);
}

#[test]
fn sqlite_accuracy_that_is_no_number_is_refused() {
    for bits in [f64::NAN.to_bits(), 0xfff8_0000_0000_0001, 0x7ff0_0000_0000_0001, u64::MAX] {
        let (runtime, mut connection) = open();
        let mut record = quiz("q1", 1);
        record.accuracy_bits = bits;
        match conduct(&runtime, &mut connection, save_quiz_history(&record), None) {
            Outcome::Failed(error) => assert_eq!(error.kind, ErrorKind::Constraint),
            other => panic!("{:x} gave {:?}", bits, other),
        }
        assert_eq!(listed(conduct(&runtime, &mut connection, get_quiz_history(), None)), vec![]);
        assert_eq!(count(&runtime, &mut connection, "quiz_results"), 0);
    }
}

#[test]
fn sqlite_numbers_come_back_bit_for_bit_but_for_negative_zero() {
    let values = [
        0.0,
        1.0,
        0.8,
        3.0,
        -2.5,
        1e300,
        f64::MIN_POSITIVE,
        f64::from_bits(1),
        f64::MAX,
        f64::INFINITY,
        f64::NEG_INFINITY,
        9007199254740993.0,
    ];
    for value in values {
        let (runtime, mut connection) = open();
        let mut record = quiz("q1", 1);
        record.accuracy_bits = value.to_bits();
        assert_eq!(conduct(&runtime, &mut connection, save_quiz_history(&record), None), Outcome::Saved);
        let all = listed(conduct(&runtime, &mut connection, get_quiz_history(), None));
        assert_eq!(all[0].accuracy_bits, value.to_bits(), "{}", value);
    }
    let (runtime, mut connection) = open();
    let mut record = quiz("q1", 1);
    record.accuracy_bits = (-0.0f64).to_bits();
    assert_eq!(record.accuracy_bits, 0x8000_0000_0000_0000);
    assert_eq!(conduct(&runtime, &mut connection, save_quiz_history(&record), None), Outcome::Saved);
    let all = listed(conduct(&runtime, &mut connection, get_quiz_history(), None));
    assert_eq!(all[0].accuracy_bits, 0);
}

#[test]
fn sqlite_strings_keep_every_character() {
    let (runtime, mut connection) = open();
    let mut record = quiz("a\0b \u{1f600} '\"", 1);
    record.difficulty = "\0".to_string();
    record.results = vec![
        QuizResult { port: "p\0q".to_string(), is_correct: true },
        QuizResult { port: String::new(), is_correct: true },
    ];
    record.regions = vec!["r\0s".to_string(), "\u{7f}".to_string()];
    assert_eq!(conduct(&runtime, &mut connection, save_quiz_history(&record), None), Outcome::Saved);
    let all = listed(conduct(&runtime, &mut connection, get_quiz_history(), None));
    assert_eq!(all, vec![record]);
}

#[test]
fn sqlite_results_of_one_quiz_are_not_listed_under_another() {
    let (runtime, mut connection) = open();
    let mut first = quiz("q1", 1);
    first.results.truncate(1);
    let mut second = quiz("q2", 2);
    second.results = vec![QuizResult { port: "XX".to_string(), is_correct: false }];
    assert_eq!(conduct(&runtime, &mut connection, save_quiz_history(&first), None), Outcome::Saved);
    assert_eq!(conduct(&runtime, &mut connection, save_quiz_history(&second), None), Outcome::Saved);
    let all = listed(conduct(&runtime, &mut connection, get_quiz_history(), None));
    assert_eq!(all, vec![second, first]);
}

#[test]
fn sqlite_schema_statements_can_be_run_again() {
    let (runtime, mut connection) = open();
    for _ in 0..3 {
        assert_eq!(listed(conduct(&runtime, &mut connection, get_quiz_history(), None)), vec![]);
    }
    let objects: i64 = runtime
        .block_on(
            sqlx::query("SELECT COUNT(*) FROM sqlite_master WHERE name LIKE '%quiz_%' AND name NOT LIKE 'sqlite_%'")
                .fetch_one(&mut connection),
        )
        .unwrap()
        .get(0);
    assert_eq!(objects, 5);
}

#[test]
fn sqlite_interrupted_clear_keeps_every_row() {
    for fault in 0..9 {
        let (runtime, mut connection) = open();
        assert_eq!(conduct(&runtime, &mut connection, save_quiz_history(&quiz("q1", 1)), None), Outcome::Saved);
        match conduct(&runtime, &mut connection, clear_quiz_history(), Some(fault)) {
            Outcome::Failed(_) => {}
            other => panic!("fault at {} gave {:?}", fault, other),
        }
        assert_eq!(count(&runtime, &mut connection, "quiz_history"), 1, "fault at {}", fault);
        assert_eq!(count(&runtime, &mut connection, "quiz_results"), 2, "fault at {}", fault);
    }
}

#[test]
fn sqlite_result_row_without_its_quiz_is_refused() {
    let (runtime, mut connection) = open();
    assert_eq!(listed(conduct(&runtime, &mut connection, get_quiz_history(), None)), vec![]);
    let orphan = Statement::InsertResult(ResultRow {
        quiz_id: "nobody".to_string(),
        port: "p".to_string(),
        is_correct: 1,
    });
    match runtime.block_on(answer(&mut connection, &orphan)) {
        Reply::Failed(failure) => assert_eq!(failure.cause, Cause::ForeignKey),
        other => panic!("not refused: {:?}", other),
    }
}

#[test]
fn sqlite_quiz_row_without_a_text_is_refused() {
    let (runtime, mut connection) = open();
    assert_eq!(listed(conduct(&runtime, &mut connection, get_quiz_history(), None)), vec![]);
    let mut row = quiz_history::row::to_history_row(&quiz("q1", 1)).unwrap();
    row.regions = None;
    match runtime.block_on(answer(&mut connection, &Statement::InsertHistory(row))) {
        Reply::Failed(failure) => assert_eq!(failure.cause, Cause::NotNull),
        other => panic!("not refused: {:?}", other),
    }
}

#[test]
fn sqlite_clearing_quizzes_takes_their_results_along() {
    let (runtime, mut connection) = open();
    assert_eq!(conduct(&runtime, &mut connection, save_quiz_history(&quiz("q1", 1)), None), Outcome::Saved);
    assert_eq!(count(&runtime, &mut connection, "quiz_results"), 2);
    assert_eq!(runtime.block_on(answer(&mut connection, &Statement::DeleteHistory)), Reply::Done);
    assert_eq!(count(&runtime, &mut connection, "quiz_results"), 0);
}

#[test]
fn sqlite_names_the_constraint_that_refuses_a_quiz_row() {
    let (runtime, mut connection) = open();
    assert_eq!(conduct(&runtime, &mut connection, save_quiz_history(&quiz("q1", 1)), None), Outcome::Saved);
    let stored = quiz_history::row::to_history_row(&quiz("q1", 1)).unwrap();
    let mut no_number = stored.clone();
    no_number.accuracy_bits = f64::NAN.to_bits();
    let mut no_text = stored.clone();
    no_text.countries = None;
    let mut fresh_no_number = no_number.clone();
    fresh_no_number.id = "q2".to_string();
    for (row, cause) in [
        (stored, Cause::Unique),
        (no_number, Cause::NotNull),
        (no_text, Cause::NotNull),
        (fresh_no_number, Cause::NotNull),
    ] {
        match runtime.block_on(answer(&mut connection, &Statement::InsertHistory(row))) {
            Reply::Failed(failure) => assert_eq!(failure.cause, cause),
            other => panic!("not refused: {:?}", other),
        }
    }
}

#[test]
fn sqlite_statement_on_a_missing_table_fails_for_another_reason() {
    let (runtime, mut connection) = open();
    let row = quiz_history::row::to_history_row(&quiz("q1", 1)).unwrap();
    let child = ResultRow { quiz_id: "q1".to_string(), port: "p".to_string(), is_correct: 1 };
    for statement in [
        Statement::InsertHistory(row),
        Statement::InsertResult(child),
        Statement::SelectHistory,
        Statement::SelectResults("q1".to_string()),
        Statement::DeleteResults,
        Statement::DeleteHistory,
        Statement::CreateDateIndex,
        Statement::CreateDifficultyIndex,
        Statement::CreatePortIndex,
        Statement::Commit,
        Statement::Rollback,
    ] {
        match runtime.block_on(answer(&mut connection, &statement)) {
            Reply::Failed(failure) => assert_eq!(failure.cause, Cause::Other, "{:?}", statement),
            other => panic!("{:?} gave {:?}", statement, other),
        }
    }
    assert_eq!(runtime.block_on(answer(&mut connection, &Statement::Begin)), Reply::Done);
    match runtime.block_on(answer(&mut connection, &Statement::Begin)) {
        Reply::Failed(failure) => assert_eq!(failure.cause, Cause::Other),
        other => panic!("a second begin gave {:?}", other),
    }
    assert_eq!(runtime.block_on(answer(&mut connection, &Statement::Rollback)), Reply::Done);
}
