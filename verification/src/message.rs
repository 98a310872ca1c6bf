//! Results of one stream read cycle, and the per-role message enums that
//! carry them to downstream consumers.

use vstd::prelude::*;

verus! {

/// The resolution of one stream read cycle: the whole accumulated message
/// when the peer signalled end-of-stream, or the reason the cycle ended
/// without one.
#[derive(Clone, Debug)]
pub enum ReadResult {
    /// End-of-stream was reached; carries every byte read during the cycle
    /// (possibly none).
    Data(Vec<u8>),
    /// The stream was closed before a message completed.
    Closed,
    /// A transport error interrupted the read.
    Error,
}

/// What a client observes from the server on its data stream.
#[derive(Clone, Debug)]
pub enum ServerMessage {
    /// One complete message from the server.
    Data(Vec<u8>),
    /// The server closed the stream.
    Closed,
    /// A transport error interrupted the stream.
    Error,
}

/// What a server observes from one client on its data stream.
#[derive(Clone, Debug)]
pub enum ClientMessage {
    /// One complete message from the client.
    Data(Vec<u8>),
    /// The client closed the stream.
    Closed,
    /// A transport error interrupted the stream.
    Error,
}

} // verus!
