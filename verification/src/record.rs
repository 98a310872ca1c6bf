//! Session records: one logical peer relationship and its lifecycle state.

use vstd::prelude::*;

use crate::addr::PeerAddr;

verus! {

/// How a session record came to exist: originated locally by an outbound
/// connect (client role), or accepted from a remote inbound attempt (server
/// role). The origin decides whether the record's stream cycle opens or
/// accepts the bidirectional stream.
#[derive(Clone, Copy, Debug, PartialEq, Eq, Structural)]
pub enum Origin {
    /// Created by an outbound connect call.
    Local,
    /// Created by the accept loop for an inbound attempt.
    Remote,
}

/// The stream sub-cycle of an established connection. One stream is driven
/// at a time: the record leaves `Idle` by spawning a stream open, then reads
/// the stream to completion, then returns to `Idle` for the next message.
#[derive(Clone, Copy, Debug, PartialEq, Eq, Structural)]
pub enum StreamState {
    /// No stream operation is in flight.
    Idle,
    /// A stream open (or accept) operation is in flight.
    Opening,
    /// A read-to-completion operation is in flight.
    Reading,
}

/// The lifecycle state of a session record. Records advance monotonically
/// from `Connecting` to `Connected` and are destroyed, never recycled, on any
/// failure.
#[derive(Clone, Copy, Debug, PartialEq, Eq, Structural)]
pub enum ConnState {
    /// The connect (or inbound handshake) operation is still in flight.
    Connecting,
    /// The connection is established; the field is the stream sub-cycle.
    Connected(StreamState),
}

/// One logical peer relationship: its remote address, the peer name supplied
/// to an outbound connect (absent for accepted records), its origin, and its
/// current lifecycle state.
#[derive(Clone, Debug)]
pub struct SessionRecord {
    /// The remote address the record was created with.
    pub addr: PeerAddr,
    /// The server name handed to an outbound connect; `None` for records the
    /// accept loop created.
    pub peer_name: Option<String>,
    /// Whether the record was originated locally or accepted.
    pub origin: Origin,
    /// The current lifecycle state.
    pub state: ConnState,
}

/// How many pending operations a record in the given state has attached:
/// every state but `Connected(Idle)` is backed by exactly one in-flight
/// background operation.
pub open spec fn pending_ops(s: ConnState) -> nat {
    match s {
        ConnState::Connecting => 1,
        ConnState::Connected(StreamState::Idle) => 0,
        ConnState::Connected(StreamState::Opening) => 1,
        ConnState::Connected(StreamState::Reading) => 1,
    }
}

/// Single pending operation invariant: whatever state a session record is
/// in, it has zero or one pending operations attached, never more.
pub proof fn lemma_single_pending_operation(s: ConnState)
    ensures
        pending_ops(s) <= 1,
{
}

} // verus!
