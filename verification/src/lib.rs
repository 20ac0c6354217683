//! Oracle support for the bb8 connection pool.
//!
//! The driver's connection object is blocking, so a pool has to run every
//! driver call on a blocking-capable executor. This crate holds everything
//! about that arrangement that is not itself a blocking call: the settings a
//! pool opens its sessions with, the way the outcome of an offloaded driver
//! call becomes the pool's result, and the rule that decides from a status
//! reading whether a session is broken.

pub mod driver;
pub mod error;
pub mod manager;
pub mod offload;
pub mod status;

pub use crate::error::{database_message, panic_message, PoolError};
pub use crate::manager::OracleConnectionManager;
pub use crate::offload::{settle, Offloaded};
pub use crate::status::{is_broken, SessionStatus, StatusReading};
pub use oracle;
