//! Table rows, and the conversion between quiz records and rows.

use vstd::prelude::*;
use crate::error::{ErrorKind, StoreError};
use crate::json::{decode_names, encode_names, encoding, names_in};
use crate::record::{QuizHistory, QuizHistoryView, QuizResult, QuizResultView, results_view};

verus! {

/// A row of the table of quizzes. `regions` and `countries` hold the encoded
/// name lists; `None` stands for a column that came back empty.
#[derive(Debug, Clone, PartialEq, Eq)]
pub struct HistoryRow {
    pub id: String,
    pub date: i64,
    pub score: i32,
    pub total: i32,
    pub accuracy_bits: u64,
    pub duration: i32,
    pub difficulty: String,
    pub regions: Option<String>,
    pub countries: Option<String>,
}

/// The mathematical value of a [`HistoryRow`].
pub struct HistoryRowView {
    pub id: Seq<char>,
    pub date: i64,
    pub score: i32,
    pub total: i32,
    pub accuracy_bits: u64,
    pub duration: i32,
    pub difficulty: Seq<char>,
    pub regions: Option<Seq<char>>,
    pub countries: Option<Seq<char>>,
}

/// The value of a text that may be missing.
pub open spec fn text_view(text: Option<String>) -> Option<Seq<char>> {
    match text {
        Some(t) => Some(t@),
        None => None,
    }
}

impl View for HistoryRow {
    type V = HistoryRowView;

    open spec fn view(&self) -> HistoryRowView {
        HistoryRowView {
            id: self.id@,
            date: self.date,
            score: self.score,
            total: self.total,
            accuracy_bits: self.accuracy_bits,
            duration: self.duration,
            difficulty: self.difficulty@,
            regions: text_view(self.regions),
            countries: text_view(self.countries),
        }
    }
}

/// A row of the table of results: the quiz it belongs to, the port, and the
/// correctness flag as the integer that is stored.
#[derive(Debug, Clone, PartialEq, Eq)]
pub struct ResultRow {
    pub quiz_id: String,
    pub port: String,
    pub is_correct: i32,
}

/// The mathematical value of a [`ResultRow`].
pub struct ResultRowView {
    pub quiz_id: Seq<char>,
    pub port: Seq<char>,
    pub is_correct: i32,
}

impl View for ResultRow {
    type V = ResultRowView;

    open spec fn view(&self) -> ResultRowView {
        ResultRowView { quiz_id: self.quiz_id@, port: self.port@, is_correct: self.is_correct }
    }
}

/// The values of a sequence of quiz rows, row by row.
pub open spec fn history_rows_view(rows: Seq<HistoryRow>) -> Seq<HistoryRowView> {
    rows.map_values(|r: HistoryRow| r@)
}

/// The values of a sequence of result rows, row by row.
pub open spec fn result_rows_view(rows: Seq<ResultRow>) -> Seq<ResultRowView> {
    rows.map_values(|r: ResultRow| r@)
}

/// The integer that is stored for a correctness flag: 1 for right, 0 for wrong.
pub open spec fn flag_of(is_correct: bool) -> i32 {
    if is_correct {
        1
    } else {
        0
    }
}

/// The row that stores one result of the quiz `id`.
pub open spec fn result_row_of(id: Seq<char>, result: QuizResultView) -> ResultRowView {
    ResultRowView { quiz_id: id, port: result.port, is_correct: flag_of(result.is_correct) }
}

/// The rows that store the results of a quiz, in the order of the results.
pub open spec fn result_rows_of(history: QuizHistoryView) -> Seq<ResultRowView> {
    history.results.map_values(|r: QuizResultView| result_row_of(history.id, r))
}

/// The result that a row stands for: any stored integer but 0 means right.
pub open spec fn result_of(row: ResultRowView) -> QuizResultView {
    QuizResultView { port: row.port, is_correct: row.is_correct != 0 }
}

/// The results that a sequence of rows stands for, in the order of the rows.
pub open spec fn results_of(rows: Seq<ResultRowView>) -> Seq<QuizResultView> {
    rows.map_values(|r: ResultRowView| result_of(r))
}

/// The row that stores the summary of `history`: the plain fields are copied,
/// and each name list is replaced by its encoding, which is missing where the
/// list cannot be encoded.
pub open spec fn history_row_of(history: QuizHistoryView) -> HistoryRowView {
    HistoryRowView {
        id: history.id,
        date: history.date,
        score: history.score,
        total: history.total,
        accuracy_bits: history.accuracy_bits,
        duration: history.duration,
        difficulty: history.difficulty,
        regions: encoding(history.regions),
        countries: encoding(history.countries),
    }
}

/// Whether both name lists of `history` can be encoded.
pub open spec fn encodable(history: QuizHistoryView) -> bool {
    encoding(history.regions).is_some() && encoding(history.countries).is_some()
}

/// The record that a quiz row and its result rows stand for.
pub open spec fn record_of(row: HistoryRowView, results: Seq<ResultRowView>) -> QuizHistoryView {
    QuizHistoryView {
        id: row.id,
        date: row.date,
        score: row.score,
        total: row.total,
        accuracy_bits: row.accuracy_bits,
        duration: row.duration,
        difficulty: row.difficulty,
        regions: names_in(row.regions),
        countries: names_in(row.countries),
        results: results_of(results),
    }
}

impl HistoryRow {
    /// A copy of the row.
    pub fn duplicate(&self) -> (copy: HistoryRow)
        ensures
            copy@ == self@,
    {
        HistoryRow {
            id: self.id.clone(),
            date: self.date,
            score: self.score,
            total: self.total,
            accuracy_bits: self.accuracy_bits,
            duration: self.duration,
            difficulty: self.difficulty.clone(),
            regions: match &self.regions {
                Some(t) => Some(t.clone()),
                None => None,
            },
            countries: match &self.countries {
                Some(t) => Some(t.clone()),
                None => None,
            },
        }
    }
}

impl ResultRow {
    /// A copy of the row.
    pub fn duplicate(&self) -> (copy: ResultRow)
        ensures
            copy@ == self@,
    {
        ResultRow {
            quiz_id: self.quiz_id.clone(),
            port: self.port.clone(),
            is_correct: self.is_correct,
        }
    }
}

/// The quiz row of `history`, given the two encoded name lists.
pub fn history_row_from(history: &QuizHistory, regions: String, countries: String) -> (row:
    HistoryRow)
    ensures
        row@ == (HistoryRowView {
            id: history@.id,
            date: history@.date,
            score: history@.score,
            total: history@.total,
            accuracy_bits: history@.accuracy_bits,
            duration: history@.duration,
            difficulty: history@.difficulty,
            regions: Some(regions@),
            countries: Some(countries@),
        }),
{
    HistoryRow {
        id: history.id.clone(),
        date: history.date,
        score: history.score,
        total: history.total,
        accuracy_bits: history.accuracy_bits,
        duration: history.duration,
        difficulty: history.difficulty.clone(),
        regions: Some(regions),
        countries: Some(countries),
    }
}

/// The quiz row that stores the summary of `history`.
///
/// Fails with a serialization error exactly when one of the two name lists
/// cannot be encoded; the regions are encoded first.
pub fn to_history_row(history: &QuizHistory) -> (r: Result<HistoryRow, StoreError>)
    ensures
        match r {
            Ok(row) => row@ == history_row_of(history@) && encodable(history@),
            Err(e) => e@.kind == ErrorKind::Serialization && !encodable(history@),
        },
{
    let regions = match encode_names(&history.regions) {
        Ok(text) => text,
        Err(words) => {
            return Err(StoreError { kind: ErrorKind::Serialization, message: words });
        },
    };
    let countries = match encode_names(&history.countries) {
        Ok(text) => text,
        Err(words) => {
            return Err(StoreError { kind: ErrorKind::Serialization, message: words });
        },
    };
    Ok(history_row_from(history, regions, countries))
}

/// The rows that store the results of `history`, one per result and in the
/// same order, each with the identifier of the quiz.
pub fn to_result_rows(history: &QuizHistory) -> (rows: Vec<ResultRow>)
    ensures
        result_rows_view(rows@) == result_rows_of(history@),
{
    let mut rows: Vec<ResultRow> = Vec::new();
    let mut i: usize = 0;
    while i < history.results.len()
        invariant
            i <= history.results.len(),
            rows.len() == i,
            forall|j: int|
                0 <= j < i ==> #[trigger] rows[j]@ == result_row_of(
                    history@.id,
                    history.results[j]@,
                ),
        decreases history.results.len() - i,
    {
        let result = &history.results[i];
        let is_correct: i32 = if result.is_correct {
            1
        } else {
            0
        };
        rows.push(ResultRow { quiz_id: history.id.clone(), port: result.port.clone(), is_correct });
        i += 1;
    }
    assert(result_rows_view(rows@) =~= result_rows_of(history@));
    rows
}

/// The results that `rows` stand for, one per row and in the same order.
pub fn to_results(rows: &Vec<ResultRow>) -> (results: Vec<QuizResult>)
    ensures
        results_view(results@) == results_of(result_rows_view(rows@)),
{
    let mut results: Vec<QuizResult> = Vec::new();
    let mut i: usize = 0;
    while i < rows.len()
        invariant
            i <= rows.len(),
            results.len() == i,
            forall|j: int| 0 <= j < i ==> #[trigger] results[j]@ == result_of(rows[j]@),
        decreases rows.len() - i,
    {
        let row = &rows[i];
        results.push(QuizResult { port: row.port.clone(), is_correct: row.is_correct != 0 });
        i += 1;
    }
    assert(results_view(results@) =~= results_of(result_rows_view(rows@)));
    results
}

/// The record that a quiz row and its result rows stand for. A name list that
/// is missing or malformed comes out empty.
pub fn assemble(row: &HistoryRow, results: &Vec<ResultRow>) -> (history: QuizHistory)
    ensures
        history@ == record_of(row@, result_rows_view(results@)),
{
    QuizHistory {
        id: row.id.clone(),
        date: row.date,
        score: row.score,
        total: row.total,
        accuracy_bits: row.accuracy_bits,
        duration: row.duration,
        difficulty: row.difficulty.clone(),
        regions: decode_names(&row.regions),
        countries: decode_names(&row.countries),
        results: to_results(results),
    }
}

} // verus!
