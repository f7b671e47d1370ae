//! The records that callers hand in and get back.

use vstd::prelude::*;

verus! {

/// One answered item of a quiz: the port that was asked for and whether the
/// answer was right.
#[derive(Debug, Clone, PartialEq, Eq)]
pub struct QuizResult {
    pub port: String,
    pub is_correct: bool,
}

/// The mathematical value of a [`QuizResult`].
pub struct QuizResultView {
    pub port: Seq<char>,
    pub is_correct: bool,
}

impl View for QuizResult {
    type V = QuizResultView;

    open spec fn view(&self) -> QuizResultView {
        QuizResultView { port: self.port@, is_correct: self.is_correct }
    }
}

/// One completed quiz with its per-item results.
///
/// `accuracy_bits` holds the accuracy as the bit pattern of an IEEE 754
/// double, so that the value passes through the library unchanged.
#[derive(Debug, Clone, PartialEq, Eq)]
pub struct QuizHistory {
    pub id: String,
    pub date: i64,
    pub score: i32,
    pub total: i32,
    pub accuracy_bits: u64,
    pub duration: i32,
    pub difficulty: String,
    pub regions: Vec<String>,
    pub countries: Vec<String>,
    pub results: Vec<QuizResult>,
}

/// The mathematical value of a [`QuizHistory`].
pub struct QuizHistoryView {
    pub id: Seq<char>,
    pub date: i64,
    pub score: i32,
    pub total: i32,
    pub accuracy_bits: u64,
    pub duration: i32,
    pub difficulty: Seq<char>,
    pub regions: Seq<Seq<char>>,
    pub countries: Seq<Seq<char>>,
    pub results: Seq<QuizResultView>,
}

/// The bit pattern of negative zero.
pub const NEGATIVE_ZERO: u64 = 0x8000_0000_0000_0000;

/// The bit pattern of positive infinity: every pattern whose lower 63 bits are
/// greater stands for no number.
pub const POSITIVE_INFINITY: u64 = 0x7ff0_0000_0000_0000;

/// Whether the bit pattern of a double stands for no number.
pub open spec fn is_nan(bits: u64) -> bool {
    if bits >= NEGATIVE_ZERO {
        bits - NEGATIVE_ZERO > POSITIVE_INFINITY
    } else {
        bits > POSITIVE_INFINITY
    }
}

/// The bit pattern that the database gives back for a number that it has
/// stored: the same pattern, but for negative zero, which comes back as zero.
pub open spec fn as_stored(bits: u64) -> u64 {
    if bits == NEGATIVE_ZERO {
        0
    } else {
        bits
    }
}

/// Whether two bit patterns stand for equal numbers: both are numbers, and
/// they are the same pattern or both zero.
pub open spec fn same_number(left: u64, right: u64) -> bool {
    !is_nan(left) && !is_nan(right) && as_stored(left) == as_stored(right)
}

/// The values of a sequence of results, item by item.
pub open spec fn results_view(results: Seq<QuizResult>) -> Seq<QuizResultView> {
    results.map_values(|r: QuizResult| r@)
}

/// The values of a sequence of records, item by item.
pub open spec fn histories_view(histories: Seq<QuizHistory>) -> Seq<QuizHistoryView> {
    histories.map_values(|h: QuizHistory| h@)
}

impl View for QuizHistory {
    type V = QuizHistoryView;

    open spec fn view(&self) -> QuizHistoryView {
        QuizHistoryView {
            id: self.id@,
            date: self.date,
            score: self.score,
            total: self.total,
            accuracy_bits: self.accuracy_bits,
            duration: self.duration,
            difficulty: self.difficulty@,
            regions: self.regions.deep_view(),
            countries: self.countries.deep_view(),
            results: results_view(self.results@),
        }
    }
}

impl QuizHistory {
    /// Whether the accuracy is a number. A record whose accuracy is no number
    /// cannot be stored.
    pub fn accuracy_is_number(&self) -> (b: bool)
        ensures
            b == !is_nan(self@.accuracy_bits),
    {
        if self.accuracy_bits >= NEGATIVE_ZERO {
            self.accuracy_bits - NEGATIVE_ZERO <= POSITIVE_INFINITY
        } else {
            self.accuracy_bits <= POSITIVE_INFINITY
        }
    }
}

impl QuizHistoryView {
    /// Two records are the same quiz when all fields agree, the accuracies as
    /// numbers and the results as multisets: the order of the results carries
    /// no meaning.
    pub open spec fn same_quiz(self, other: QuizHistoryView) -> bool {
        &&& self.id == other.id
        &&& self.date == other.date
        &&& self.score == other.score
        &&& self.total == other.total
        &&& same_number(self.accuracy_bits, other.accuracy_bits)
        &&& self.duration == other.duration
        &&& self.difficulty == other.difficulty
        &&& self.regions == other.regions
        &&& self.countries == other.countries
        &&& self.results.to_multiset() == other.results.to_multiset()
    }
}

} // verus!
