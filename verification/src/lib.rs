//! A verified core for a quiz history kept in an embedded SQL database.
//!
//! The library never touches the database itself. It converts quiz records to
//! and from table rows, decides which statement is to be run next, and takes
//! in what the database answered; the caller runs the statements.
//!
//! - [`record`], [`row`], [`json`]: the records, the rows that store them, and
//!   the encoding of name lists.
//! - [`statement`], [`session`], [`setup`], [`error`]: the statements, the
//!   dialogue of each operation, the opening of the database, and the errors.
//! - [`database`]: a relational model of the two tables, against which an
//!   operation can be carried out in mathematics.
//! - [`conduct`], [`order`], [`laws`]: what each operation comes to against
//!   that model, and the laws of the store that follow.

pub mod conduct;
pub mod database;
pub mod error;
pub mod json;
pub mod laws;
pub mod order;
pub mod record;
pub mod row;
pub mod session;
pub mod setup;
pub mod statement;

pub use error::{Cause, ErrorKind, Failure, StoreError};
pub use record::{QuizHistory, QuizResult};
pub use row::{HistoryRow, ResultRow};
pub use session::{
    clear_quiz_history, get_quiz_history, save_quiz_history, Outcome, Session, Step,
};
pub use statement::{Reply, Statement};
