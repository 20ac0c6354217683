//! The failure a pool operation ends in.

use vstd::prelude::*;
use vstd::string::to_string_from_display_ensures;

verus! {

/// An error that can occur during Oracle database connection pool operations.
///
/// There are exactly two kinds, so that a caller can treat a failure of the
/// database differently from an offloaded call that never finished.
#[derive(Debug)]
pub enum PoolError {
    /// An error that occurred during database communication.
    Database(oracle::Error),
    /// An error that occurred because a pool operation panicked.
    Panic(tokio::task::JoinError),
}

/// Whether `text` describes a failure of the database layer: the words
/// `database error: `, then what the driver's failure displays as.
pub open spec fn describes_database_failure(failure: oracle::Error, text: Seq<char>) -> bool {
    exists|detail: String|
        #[trigger] to_string_from_display_ensures::<oracle::Error>(&failure, detail) && text
            == "database error: "@ + detail@
}

/// Whether `text` describes an offloaded call that did not finish: the words
/// `operation panicked: `, then what the task's failure displays as.
pub open spec fn describes_panic(fault: tokio::task::JoinError, text: Seq<char>) -> bool {
    exists|detail: String|
        #[trigger] to_string_from_display_ensures::<tokio::task::JoinError>(&fault, detail)
            && text == "operation panicked: "@ + detail@
}

/// Describes a failure of the database layer.
pub fn database_message(failure: &oracle::Error) -> (text: String)
    ensures
        describes_database_failure(*failure, text@),
{
    let detail = failure.to_string();
    let text = String::from_str("database error: ").concat(detail.as_str());
    text
}

/// Describes an offloaded call that did not finish.
pub fn panic_message(fault: &tokio::task::JoinError) -> (text: String)
    ensures
        describes_panic(*fault, text@),
{
    let detail = fault.to_string();
    let text = String::from_str("operation panicked: ").concat(detail.as_str());
    text
}

impl PoolError {
    /// Whether `text` is a description of this error: the words for its kind,
    /// then what the failure it carries displays as.
    pub open spec fn described_by(self, text: Seq<char>) -> bool {
        match self {
            PoolError::Database(failure) => describes_database_failure(failure, text),
            PoolError::Panic(fault) => describes_panic(fault, text),
        }
    }

    /// Describes the error for a reader.
    pub fn message(&self) -> (text: String)
        ensures
            self.described_by(text@),
    {
        match self {
            PoolError::Database(failure) => database_message(failure),
            PoolError::Panic(fault) => panic_message(fault),
        }
    }
}

} // verus!
