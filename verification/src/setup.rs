//! Where the database lives and how it is opened: the text of its address,
//! the script that creates its schema in one go, and the errors of opening.

use vstd::prelude::*;
use vstd::string::StringExecFns;
use crate::error::{ErrorKind, StoreError, StoreErrorView};
use crate::session::{SCHEMA_STEPS, schema_statement, schema_statements};

verus! {

/// The name of the database file in the directory of the application's data.
pub const DATABASE_FILE: &'static str = "quintry.db";

/// What stands before the path in the address of the database.
pub const URL_SCHEME: &'static str = "sqlite:";

/// What stands behind the path: the file is opened for reading and writing
/// and created where it is missing.
pub const URL_MODE: &'static str = "?mode=rwc";

/// What stands between two statements of the schema script.
pub const SCRIPT_SEPARATOR: &'static str = ";\n";

/// The words that describe the schema script.
pub const SCRIPT_DESCRIPTION: &'static str = "create quiz_history and quiz_results tables";

/// The words that open the message of an error of finding the directory.
pub const CONTEXT_LOCATE: &'static str = "Failed to get app data dir: ";

/// The words that open the message of an error of creating the directory.
pub const CONTEXT_PREPARE: &'static str = "Failed to create app data dir: ";

/// The words that open the message of an error of connecting.
pub const CONTEXT_CONNECT: &'static str = "Failed to connect to database: ";

/// A stage of opening the database.
#[derive(Debug, Clone, Copy, PartialEq, Eq, Structural)]
pub enum Opening {
    /// Finding the directory of the application's data.
    Locate,
    /// Creating that directory.
    Prepare,
    /// Connecting to the database file in it.
    Connect,
}

impl Opening {
    /// The words that open the message of an error of the stage.
    pub open spec fn context(self) -> Seq<char> {
        match self {
            Opening::Locate => CONTEXT_LOCATE@,
            Opening::Prepare => CONTEXT_PREPARE@,
            Opening::Connect => CONTEXT_CONNECT@,
        }
    }
}

/// The address of the database file at `path`.
pub fn database_url(path: &str) -> (url: String)
    ensures
        url@ == URL_SCHEME@ + path@ + URL_MODE@,
{
    String::from_str(URL_SCHEME).concat(path).concat(URL_MODE)
}

/// The initialization error for a stage of opening that failed with `cause`.
pub fn opening_failed(stage: Opening, cause: &str) -> (error: StoreError)
    ensures
        error@ == (StoreErrorView {
            kind: ErrorKind::Initialization,
            message: stage.context() + cause@,
        }),
{
    let context = match stage {
        Opening::Locate => CONTEXT_LOCATE,
        Opening::Prepare => CONTEXT_PREPARE,
        Opening::Connect => CONTEXT_CONNECT,
    };
    StoreError::new(ErrorKind::Initialization, context, cause)
}

/// The text of the first `k` schema statements, each followed by the
/// separator.
pub open spec fn script(k: nat) -> Seq<char>
    decreases k,
{
    if k == 0 {
        Seq::empty()
    } else {
        script((k - 1) as nat) + schema_statement((k - 1) as nat).sql() + SCRIPT_SEPARATOR@
    }
}

/// The script that creates the whole schema: the schema statements in their
/// order, each followed by the separator.
pub fn schema_script() -> (text: String)
    ensures
        text@ == script(SCHEMA_STEPS as nat),
{
    let statements = schema_statements();
    let mut text = String::new();
    let mut k: usize = 0;
    while k < statements.len()
        invariant
            k <= statements.len(),
            statements.len() == SCHEMA_STEPS,
            forall|i: int| 0 <= i < SCHEMA_STEPS ==> (#[trigger] statements[i])@ == schema_statement(
                i as nat,
            ),
            text@ == script(k as nat),
        decreases statements.len() - k,
    {
        text.append(statements[k].sql());
        text.append(SCRIPT_SEPARATOR);
        k += 1;
    }
    text
}

} // verus!
