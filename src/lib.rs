//! Reading and replacing the active nftables ruleset by driving the `nft`
//! command-line tool.
//!
//! The library holds the decisions of an exchange with the tool: which
//! arguments it is given, in which order the steps of an exchange come, and
//! how a finished process is turned into a result or an [`ExchangeError`].
//! Spawning the process and moving bytes through its pipes is left to the
//! caller's runtime, which reports each step back as an event.

pub mod command;
pub mod error;
pub mod exchange;
pub mod laws;
pub mod ruleset;
pub mod session;
pub mod util;

pub use error::{ExchangeError, ExchangeErrorView};
pub use exchange::{read, ProcessOutcome};
