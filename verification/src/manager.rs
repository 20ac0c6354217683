//! The connection manager: the settings new sessions are opened with, and the
//! three decisions a pool asks of it.

use crate::driver::{new_connector, plain_connector, read_status};
use crate::error::PoolError;
use crate::offload::{settle, settled, Offloaded};
use crate::status::{is_broken, reading_shows_broken, StatusReading};
use std::sync::Arc;
use vstd::prelude::*;

verus! {

/// A connection manager for sessions of the Oracle driver.
///
/// It holds the settings every new session is opened with. They are fixed
/// when the manager is made.
#[derive(Debug)]
pub struct OracleConnectionManager {
    connector: oracle::Connector,
}

impl View for OracleConnectionManager {
    type V = oracle::Connector;

    /// The settings that sessions are opened with.
    closed spec fn view(&self) -> oracle::Connector {
        self.connector
    }
}

impl OracleConnectionManager {
    /// Initialises the manager for sessions that need no more than a user
    /// name, a password and a connect string, each given as anything that
    /// converts into a `String`. The texts are taken as they are: wrong
    /// credentials show only when a session is opened.
    pub fn new<U: Into<String>, P: Into<String>, C: Into<String>>(
        username: U,
        password: P,
        connect_string: C,
    ) -> (manager: OracleConnectionManager)
        ensures
            exists|u: String, p: String, c: String|
                call_ensures(<U as Into<String>>::into, (username,), u)
                    && call_ensures(<P as Into<String>>::into, (password,), p)
                    && call_ensures(<C as Into<String>>::into, (connect_string,), c)
                    && manager@ == #[trigger] plain_connector(u@, p@, c@),
    {
        let u: String = username.into();
        let p: String = password.into();
        let c: String = connect_string.into();
        OracleConnectionManager::from_connector(new_connector(u, p, c))
    }

    /// Initialises the manager with a connector that the caller has set up,
    /// for sessions that need more than `new` can express, such as a
    /// privileged one.
    pub fn from_connector(connector: oracle::Connector) -> (manager: OracleConnectionManager)
        ensures
            manager@ == connector,
    {
        OracleConnectionManager { connector }
    }

    /// A copy of the settings, for one attempt to open a session.
    pub fn connector(&self) -> (copy: oracle::Connector)
        ensures
            copy == self@,
    {
        self.connector.clone()
    }

    /// The result of opening a session, given what the offloaded attempt came
    /// to. A session that was opened is handed out behind a shared handle.
    pub fn connected(attempt: Offloaded<oracle::Connection>) -> (result: Result<
        Arc<oracle::Connection>,
        PoolError,
    >)
        ensures
            settled(attempt) matches Ok(session) ==> result matches Ok(handle) && *handle
                == session,
            settled(attempt) matches Err(error) ==> result == Err::<
                Arc<oracle::Connection>,
                PoolError,
            >(error),
    {
        match settle(attempt) {
            Ok(session) => Ok(Arc::new(session)),
            Err(error) => Err(error),
        }
    }

    /// The result of validating a session, given what the offloaded probe came
    /// to.
    pub fn validated(probe: Offloaded<()>) -> (result: Result<(), PoolError>)
        ensures
            result == settled(probe),
    {
        settle(probe)
    }

    /// Whether `reading` is what a read of the status of `conn` came to. Two
    /// reads of one session may come to different readings.
    pub closed spec fn status_read(conn: &Arc<oracle::Connection>, reading: StatusReading) -> bool {
        call_ensures(read_status, (conn,), reading)
    }

    /// Whether a session is broken, by its status at the time of the call: the
    /// status of `conn` is read once, and the session is broken unless that
    /// reading is exactly `Normal`. This makes no round trip to the server.
    pub fn has_broken(&self, conn: &Arc<oracle::Connection>) -> (broken: bool)
        ensures
            exists|reading: StatusReading| #[trigger]
                Self::status_read(conn, reading) && broken == reading_shows_broken(reading),
    {
        let reading = read_status(conn);
        let broken = is_broken(&reading);
        assert(Self::status_read(conn, reading));
        broken
    }
}

} // verus!
