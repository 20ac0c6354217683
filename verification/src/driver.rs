//! The boundary to the Oracle driver, to the task runtime, and to one
//! conversion of the standard library.
//!
//! Everything in this module is taken on trust: the types are opaque, and the
//! contracts of the calls restate what the driver's source shows. The rest of
//! the crate is proved against these contracts.

use crate::status::SessionStatus;
use std::sync::Arc;
use vstd::prelude::*;

verus! {

/// `oracle::Connector`: the settings one database session is opened with.
#[verifier::external_type_specification]
#[verifier::external_body]
pub struct ExConnector(oracle::Connector);

/// `oracle::Connection`: a live database session.
#[verifier::external_type_specification]
#[verifier::external_body]
pub struct ExConnection(oracle::Connection);

/// `oracle::Error`: a failure reported by the driver.
#[verifier::external_type_specification]
#[verifier::external_body]
pub struct ExDriverError(oracle::Error);

/// `tokio::task::JoinError`: an offloaded task that did not run to completion.
#[verifier::external_type_specification]
#[verifier::external_body]
pub struct ExJoinError(tokio::task::JoinError);

/// The connector that `oracle::Connector::new` builds from a user name, a
/// password and a connect string: those three texts, and every other setting
/// at the driver's default.
pub uninterp spec fn plain_connector(
    username: Seq<char>,
    password: Seq<char>,
    connect_string: Seq<char>,
) -> oracle::Connector;

/// Calls `oracle::Connector::new`. The driver stores the three texts and fills
/// in its defaults, so the result depends on the three texts alone.
#[verifier::external_body]
pub(crate) fn new_connector(
    username: String,
    password: String,
    connect_string: String,
) -> (connector: oracle::Connector)
    ensures
        connector == plain_connector(username@, password@, connect_string@),
{
    oracle::Connector::new(username, password, connect_string)
}

/// `<oracle::Connector as Clone>::clone`. The driver derives the impl, so the
/// copy holds the settings of the original.
pub assume_specification[ <oracle::Connector as Clone>::clone ](
    connector: &oracle::Connector,
) -> (copy: oracle::Connector)
    ensures
        copy == *connector,
;

/// `<A as From<A>>::from`, the conversion of a value into its own type. The
/// standard library documents that it returns the argument unchanged.
pub assume_specification<A>[ <A as From<A>>::from ](value: A) -> (same: A)
    ensures
        same == value,
;

/// Calls `oracle::Connection::status` and names the variant that came back.
/// The reading depends on the session at the time of the call, so nothing is
/// promised of it.
#[verifier::external_body]
pub(crate) fn read_status(conn: &Arc<oracle::Connection>) -> Result<SessionStatus, oracle::Error> {
    match conn.status() {
        Ok(oracle::ConnStatus::Normal) => Ok(SessionStatus::Normal),
        Ok(oracle::ConnStatus::NotConnected) => Ok(SessionStatus::NotConnected),
        Ok(oracle::ConnStatus::Closed) => Ok(SessionStatus::Closed),
        Err(e) => Err(e),
    }
}

} // verus!
