//! A tick-driven lifecycle manager for a multiplexed, connection-oriented
//! transport.
//!
//! The transport engine itself (handshake, encryption, congestion control) is
//! an external collaborator; this crate owns the state machine built on top of
//! it: session records advancing through `Connecting` and `Connected`, a
//! per-connection stream cycle that opens one bidirectional stream at a time
//! and reads it to completion, a server-side accept loop that re-arms itself
//! after every inbound attempt, and an ordered queue of lifecycle events for
//! downstream consumers.
//!
//! All transitions are evaluated serially, once per scheduler tick, and never
//! block: background work is surfaced to the manager only as completed
//! results ([`manager::Input`]), and the manager answers with the follow-up
//! operations the host must spawn ([`manager::Action`]).

pub mod addr;
pub mod laws;
pub mod manager;
pub mod message;
pub mod reader;
pub mod record;
