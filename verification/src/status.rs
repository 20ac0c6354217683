//! What the driver reports about a session, and when that means the session
//! is broken.

use vstd::prelude::*;

verus! {

/// The condition of a session, as the driver reports it.
#[derive(Debug, Clone, Copy, PartialEq, Eq, Structural)]
pub enum SessionStatus {
    /// The session is alive.
    Normal,
    /// The session has been terminated.
    NotConnected,
    /// The session has been closed.
    Closed,
}

/// A status reading: the status, or the failure to read it.
pub type StatusReading = Result<SessionStatus, oracle::Error>;

/// A reading shows a broken session unless it is exactly `Normal`: a session
/// that is not connected, one that is closed, and one whose status cannot be
/// read are all broken.
pub open spec fn reading_shows_broken(reading: StatusReading) -> bool {
    !(reading matches Ok(status) && status == SessionStatus::Normal)
}

/// Decides from a status reading whether the session is broken.
pub fn is_broken(reading: &StatusReading) -> (broken: bool)
    ensures
        broken == reading_shows_broken(*reading),
{
    match reading {
        Ok(SessionStatus::Normal) => false,
        _ => true,
    }
}

/// A session counts as healthy on one reading only: a status that was read
/// and is `Normal`. Every other reading shows a broken session, a status that
/// could not be read included.
pub proof fn lemma_only_normal_reading_is_healthy(reading: StatusReading)
    ensures
        !reading_shows_broken(reading) <==> reading == Ok::<SessionStatus, oracle::Error>(
            SessionStatus::Normal,
        ),
        reading is Err ==> reading_shows_broken(reading),
{
}

} // verus!
