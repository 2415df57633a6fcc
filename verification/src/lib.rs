//! Core of a dynamic-DNS agent: it keeps one remote `A` record pointed at the
//! public IPv4 address of the machine it runs on.
//!
//! The crate holds the decisions of the agent and proves them: how an address
//! is read from text, when a record has to be pushed, what happens to the
//! record when a push fails, and how long to wait before the next cycle.
//! Network and file access belong to the caller, which feeds the results in as
//! events and carries out the steps it gets back.

pub mod configure;
pub mod ddns;
pub mod duration;
pub mod error;
pub mod ipv4;
pub mod resolver;
pub mod schedule;

pub use configure::{ClientConf, ConfRead, LoadStep};
pub use ddns::{DDnsRecord, RecordContent, SyncOutcome, SyncStep};
pub use error::{AppError, AppResult, ErrorKind};
pub use ipv4::Ipv4;
pub use resolver::resolve;
pub use schedule::ScheduleState;
