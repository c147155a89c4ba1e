//! Mirador: watch a configured mail account's mailbox for newly arrived
//! messages and run a notification hook when one lands.
//!
//! The verified core is the watch orchestrator: it resolves which account to
//! watch, selects the backend, and coordinates the watch activity with an
//! operator-interrupt listener through a two-phase shutdown handshake, so
//! that backend resources are released before the process exits. Everything
//! that performs I/O (signal delivery, the mail sessions themselves, the
//! terminal) lives outside the library and drives it through plain events.

pub mod account;
pub mod backend;
pub mod cli;
pub mod config;
pub mod error;
pub mod handshake;
pub mod watch;
