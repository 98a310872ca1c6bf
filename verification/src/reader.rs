//! The stream read cycle: accumulate successive chunks into one message.
//!
//! On an established connection, a background operation reads chunks from the
//! receive half of a stream until the peer signals end-of-stream, at which
//! point the whole accumulated buffer resolves as one message — or until a
//! read error interrupts the cycle, in which case the partial buffer is
//! discarded. The decisions of that loop are the functions here; the host
//! feeds them one [`ChunkEvent`] per transport read.

use vstd::prelude::*;

use crate::message::ReadResult;

verus! {

/// How many bytes one transport read call requests at most: chunks handed to
/// the reader are never longer than this.
pub const READ_CHUNK_LEN: usize = 1024;

/// What one transport read of the receive half produced.
#[derive(Clone, Debug)]
pub enum ChunkEvent {
    /// A chunk of bytes arrived; the cycle continues.
    Chunk(Vec<u8>),
    /// The peer signalled end-of-stream: the message is complete.
    EndOfStream,
    /// A transport error interrupted the read.
    ReadError,
}

/// The ghost resolution of a read cycle: the full message payload, or
/// failure with the partial buffer discarded.
pub enum CycleOutcome {
    /// End-of-stream was reached; carries every byte of the message.
    Payload(Seq<u8>),
    /// A read error ended the cycle.
    Failed,
}

/// Resolution of a read cycle that starts with `buf` already accumulated and
/// then sees `events`, in order: chunks extend the buffer, the first
/// terminator decides, and a cycle that never sees a terminator never
/// resolves.
pub open spec fn cycle_outcome(buf: Seq<u8>, events: Seq<ChunkEvent>) -> Option<CycleOutcome>
    decreases events.len(),
{
    if events.len() == 0 {
        None
    } else {
        match events[0] {
            ChunkEvent::Chunk(c) => cycle_outcome(buf + c@, events.skip(1)),
            ChunkEvent::EndOfStream => Some(CycleOutcome::Payload(buf)),
            ChunkEvent::ReadError => Some(CycleOutcome::Failed),
        }
    }
}

/// The in-progress buffer of one read cycle. Owned exclusively by that
/// cycle; a fresh reader is made for every stream.
#[derive(Debug)]
pub struct StreamReader {
    buf: Vec<u8>,
}

impl StreamReader {
    /// The bytes accumulated so far.
    pub closed spec fn buffered(self) -> Seq<u8> {
        self.buf@
    }

    /// Starts a cycle with an empty buffer.
    pub fn new() -> (r: StreamReader)
        ensures
            r.buffered() == Seq::<u8>::empty(),
    {
        StreamReader { buf: Vec::new() }
    }

    /// Appends one chunk to the accumulating buffer.
    pub fn push_chunk(&mut self, chunk: Vec<u8>)
        ensures
            final(self).buffered() == old(self).buffered() + chunk@,
    {
        let mut chunk = chunk;
        self.buf.append(&mut chunk);
    }

    /// Hands the accumulated buffer out, ending the cycle.
    pub fn into_bytes(self) -> (r: Vec<u8>)
        ensures
            r@ == self.buffered(),
    {
        self.buf
    }

    /// Consumes one transport read. A chunk keeps the cycle going with the
    /// buffer extended; end-of-stream resolves the cycle with the whole
    /// buffer as the message, even an empty one; a read error resolves it
    /// with the buffer discarded.
    pub fn step(self, ev: ChunkEvent) -> (r: Result<StreamReader, ReadResult>)
        ensures
            match ev {
                ChunkEvent::Chunk(c) => (r matches Ok(next) && next.buffered()
                    == self.buffered() + c@),
                ChunkEvent::EndOfStream => (r matches Err(ReadResult::Data(b)) && b@
                    == self.buffered()),
                ChunkEvent::ReadError => r matches Err(ReadResult::Error),
            },
    {
        match ev {
            ChunkEvent::Chunk(c) => {
                let mut next = self;
                next.push_chunk(c);
                Ok(next)
            },
            ChunkEvent::EndOfStream => Err(ReadResult::Data(self.buf)),
            ChunkEvent::ReadError => Err(ReadResult::Error),
        }
    }
}

/// Runs one whole read cycle over an already-collected sequence of transport
/// reads. Returns `None` when the cycle never reached a terminator, and
/// otherwise exactly the resolution that [`cycle_outcome`] gives the
/// sequence: the message bytes on end-of-stream, the error otherwise.
#[verifier::loop_isolation(false)]
pub fn run_read_cycle(events: Vec<ChunkEvent>) -> (r: Option<ReadResult>)
    ensures
        match r {
            None => cycle_outcome(Seq::empty(), events@) is None,
            Some(rr) => match rr {
                ReadResult::Data(b) => cycle_outcome(Seq::empty(), events@) == Some(
                    CycleOutcome::Payload(b@),
                ),
                ReadResult::Error => cycle_outcome(Seq::empty(), events@) == Some(
                    CycleOutcome::Failed,
                ),
                ReadResult::Closed => false,
            },
        },
{
    let ghost whole = events@;
    let mut events = events;
    let mut reader = StreamReader::new();
    while events.len() > 0
        invariant
            cycle_outcome(Seq::empty(), whole) == cycle_outcome(reader.buffered(), events@),
        decreases events@.len(),
    {
        let ghost pending = events@;
        let ev = events.remove(0);
        proof {
            assert(events@ =~= pending.skip(1));
        }
        match StreamReader::step(reader, ev) {
            Ok(next) => {
                reader = next;
            },
            Err(rr) => {
                return Some(rr);
            },
        }
    }
    None
}

} // verus!
