//! What becomes of a driver call that was handed to a blocking task.
//!
//! The driver blocks, so a pool runs each of its calls on a task of its own
//! and waits for that task. Such a call can end in three ways: it returns a
//! value, the driver reports a failure, or the task itself does not finish.
//! This module says how each of the three is reported to the pool.

use crate::error::PoolError;
use vstd::prelude::*;

verus! {

/// What an offloaded driver call came to: the call's own result, or the
/// failure of the task that was to run it.
pub type Offloaded<T> = Result<Result<T, oracle::Error>, tokio::task::JoinError>;

/// The pool's reading of an offloaded call: the value if the call returned
/// one, a database error that carries the driver's failure if the call
/// failed, and a panic error that carries the task's failure if the task did
/// not finish.
pub open spec fn settled<T>(outcome: Offloaded<T>) -> Result<T, PoolError> {
    match outcome {
        Ok(Ok(value)) => Ok(value),
        Ok(Err(failure)) => Err(PoolError::Database(failure)),
        Err(fault) => Err(PoolError::Panic(fault)),
    }
}

/// Turns the outcome of an offloaded call into the pool's result. Nothing is
/// retried and nothing is dropped: each failure is passed on as it came.
pub fn settle<T>(outcome: Offloaded<T>) -> (result: Result<T, PoolError>)
    ensures
        result == settled(outcome),
{
    match outcome {
        Ok(Ok(value)) => Ok(value),
        Ok(Err(failure)) => Err(PoolError::Database(failure)),
        Err(fault) => Err(PoolError::Panic(fault)),
    }
}

/// The kind of the error tells which layer failed: the result is a panic error
/// exactly when the task did not finish, a database error exactly when the
/// task finished and the driver call failed, and a success exactly when the
/// call returned a value.
pub proof fn lemma_error_kind_tells_the_layer<T>(outcome: Offloaded<T>)
    ensures
        settled(outcome) is Ok <==> outcome matches Ok(Ok(_)),
        settled(outcome) matches Err(PoolError::Database(_)) <==> outcome matches Ok(Err(_)),
        settled(outcome) matches Err(PoolError::Panic(_)) <==> outcome is Err,
{
}

/// While the task that runs the call finishes, a failed call is reported as a
/// database error that carries the driver's own failure, and never as a panic
/// error.
pub proof fn lemma_failure_of_finished_task_is_database_error<T>(
    outcome: Offloaded<T>,
    failure: oracle::Error,
)
    requires
        outcome == Ok::<Result<T, oracle::Error>, tokio::task::JoinError>(Err(failure)),
    ensures
        settled(outcome) == Err::<T, PoolError>(PoolError::Database(failure)),
        !(settled(outcome) matches Err(PoolError::Panic(_))),
{
}

} // verus!
