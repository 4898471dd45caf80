//! Establishing connections with peers: the events that are reported, the
//! errors, the upgrade chain of one inbound connection and the listener that
//! runs it for each connection it accepts.

pub mod attempt;
pub mod error;
pub mod event;
pub mod guarantees;
pub mod listener;
pub mod peer_connection;
pub mod runs;
pub mod upgrade;
