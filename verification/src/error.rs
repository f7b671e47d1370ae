//! Errors of the store and failures reported by the database.

use vstd::prelude::*;
use vstd::string::StringExecFns;

verus! {

/// The four kinds of error that an operation of the store can end in.
#[derive(Debug, Clone, Copy, PartialEq, Eq, Structural)]
pub enum ErrorKind {
    /// The schema could not be created.
    Initialization,
    /// The database refused a row: an identifier was stored twice, or a
    /// result row named a quiz that is not there.
    Constraint,
    /// A value could not be encoded for storage.
    Serialization,
    /// The database could not be reached, or answered out of turn.
    Io,
}

/// An error of the store: its kind and a message for the user.
#[derive(Debug, Clone, PartialEq, Eq)]
pub struct StoreError {
    pub kind: ErrorKind,
    pub message: String,
}

/// The mathematical value of a [`StoreError`].
pub struct StoreErrorView {
    pub kind: ErrorKind,
    pub message: Seq<char>,
}

impl View for StoreError {
    type V = StoreErrorView;

    open spec fn view(&self) -> StoreErrorView {
        StoreErrorView { kind: self.kind, message: self.message@ }
    }
}

/// Why the database did not run a statement.
#[derive(Debug, Clone, Copy, PartialEq, Eq, Structural)]
pub enum Cause {
    /// A value that must be stored once was there already.
    Unique,
    /// A row named a row of another table that is not there.
    ForeignKey,
    /// A column that must hold a value was given none.
    NotNull,
    /// A value did not pass a check of the schema.
    Check,
    /// Anything else: the database could not be reached, read or written,
    /// or did not understand the statement.
    Other,
}

impl Cause {
    /// Whether the cause is a constraint of the schema.
    pub open spec fn is_constraint(self) -> bool {
        !(self is Other)
    }

    /// Whether the cause is a constraint of the schema.
    pub fn constraint(self) -> (b: bool)
        ensures
            b == self.is_constraint(),
    {
        match self {
            Cause::Other => false,
            _ => true,
        }
    }
}

/// What the database reported when it could not run a statement.
#[derive(Debug, Clone, PartialEq, Eq)]
pub struct Failure {
    /// Why the statement did not run.
    pub cause: Cause,
    /// The database's own words.
    pub message: String,
}

/// The mathematical value of a [`Failure`].
pub struct FailureView {
    pub cause: Cause,
    pub message: Seq<char>,
}

impl View for Failure {
    type V = FailureView;

    open spec fn view(&self) -> FailureView {
        FailureView { cause: self.cause, message: self.message@ }
    }
}

impl StoreError {
    /// An error whose message is `context` followed by `cause`.
    pub fn new(kind: ErrorKind, context: &str, cause: &str) -> (error: StoreError)
        ensures
            error@ == (StoreErrorView { kind, message: context@ + cause@ }),
    {
        StoreError { kind, message: String::from_str(context).concat(cause) }
    }

    /// The message, for a caller that reports errors as text.
    pub fn to_text(&self) -> (text: String)
        ensures
            text@ == self@.message,
    {
        self.message.clone()
    }
}

} // verus!
