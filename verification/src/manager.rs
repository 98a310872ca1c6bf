//! The connection/stream lifecycle manager.
//!
//! The manager owns every session record, the server-side accept state and
//! the ordered queue of lifecycle events. It is driven once per scheduler
//! tick by the host, which feeds it one [`Input`] per completed background
//! operation (or per-tick visit) and receives back the [`Action`]s it must
//! spawn on the worker pool. The manager itself never blocks and never
//! performs transport work; every transition is the pure function
//! [`ManagerModel::step`], which the executable [`LifecycleManager::step`]
//! implements exactly.

use std::collections::HashMap;

use vstd::prelude::*;

use crate::addr::PeerAddr;
use crate::message::ReadResult;
use crate::record::{ConnState, Origin, SessionRecord, StreamState};

verus! {

broadcast use vstd::std_specs::hash::group_hash_axioms;

/// The accept half of the endpoint resource, tracked for the server role.
/// `Accepting` means exactly one "await next inbound attempt" operation is
/// armed; `Exhausted` is terminal and never re-armed.
#[derive(Clone, Copy, Debug, PartialEq, Eq, Structural)]
pub enum AcceptState {
    /// No endpoint in accept mode exists (client role, or before listen).
    Unbound,
    /// The endpoint is accepting and one accept operation is armed.
    Accepting,
    /// The endpoint reported that no more attempts will ever arrive.
    Exhausted,
}

/// One completed background operation, or one per-tick visit, handed to the
/// manager by the host.
#[derive(Clone, Debug)]
pub enum Input {
    /// A client-side connect call: create a record for the attempt.
    StartConnect {
        /// The remote address to connect to.
        addr: PeerAddr,
        /// The server name presented during the handshake.
        server_name: String,
    },
    /// A server-side listen call: the endpoint starts accepting.
    OpenEndpoint,
    /// The armed accept operation surfaced one inbound attempt.
    Incoming {
        /// The remote address of the attempt.
        addr: PeerAddr,
    },
    /// The armed accept operation reported that the endpoint is closed.
    EndpointClosed,
    /// The connect (or inbound handshake) operation of a record resolved.
    ConnectResult {
        /// The record whose operation resolved.
        session: u64,
        /// Whether an open connection was obtained.
        success: bool,
    },
    /// The per-tick visit of the stream system to one record.
    StreamTick {
        /// The record being visited.
        session: u64,
    },
    /// The stream open (or accept) operation of a record resolved.
    StreamOpenResult {
        /// The record whose operation resolved.
        session: u64,
        /// Whether a send/receive pair was obtained.
        success: bool,
    },
    /// The read-to-completion operation of a record resolved.
    ReadDone {
        /// The record whose operation resolved.
        session: u64,
        /// How the read cycle ended.
        outcome: ReadResult,
    },
}

/// A background operation the host must spawn (or a handle it must drop) in
/// answer to an input.
#[derive(Clone, Copy, Debug, PartialEq, Eq, Structural)]
pub enum Action {
    /// Spawn the outbound connect operation for a new record.
    SpawnConnect {
        /// The record the operation belongs to.
        session: u64,
    },
    /// Spawn the operation awaiting the inbound handshake of a new record.
    SpawnHandshake {
        /// The record the operation belongs to.
        session: u64,
    },
    /// Re-arm the "await next inbound attempt" operation on the endpoint.
    RearmAccept,
    /// Spawn the stream open (`initiate` true) or stream accept operation.
    SpawnStreamOpen {
        /// The record the operation belongs to.
        session: u64,
        /// True when the record originated locally and must open the stream;
        /// false when it was accepted and must await the peer's stream.
        initiate: bool,
    },
    /// Spawn the read-to-completion operation on the just-obtained stream.
    SpawnRead {
        /// The record the operation belongs to.
        session: u64,
    },
    /// The record is gone: drop every handle still held for it.
    Teardown {
        /// The removed record.
        session: u64,
    },
}

/// A typed lifecycle event published to downstream consumers. Events are
/// queued in transition order and flushed once per tick.
#[derive(Clone, Debug, PartialEq)]
pub enum Event {
    /// The record's connection was established.
    Connected {
        /// The record the event is about.
        session: u64,
    },
    /// One complete message arrived on the record's stream.
    DataReceived {
        /// The record the event is about.
        session: u64,
        /// The whole accumulated message (possibly empty).
        bytes: Vec<u8>,
    },
    /// The record was removed after its connection had been established.
    Disconnected {
        /// The removed record.
        session: u64,
    },
}

/// The mathematical state of the manager: the records keyed by session id,
/// the queued events in order, the accept state, and the next fresh id.
#[verifier::ext_equal]
pub struct ManagerModel {
    /// Every live session record, keyed by its id.
    pub records: Map<u64, SessionRecord>,
    /// Events queued since the last flush, oldest first.
    pub events: Seq<Event>,
    /// The accept half of the endpoint resource.
    pub accept: AcceptState,
    /// The id the next created record will get; ids are never reused.
    pub next_id: u64,
}

impl ManagerModel {
    /// The lifecycle state of a record, or `None` if no record with that id
    /// is live.
    pub open spec fn state_of(self, session: u64) -> Option<ConnState> {
        if self.records.dom().contains(session) {
            Some(self.records[session].state)
        } else {
            None
        }
    }

    /// Well-formedness: the record table is finite and every live id was
    /// allocated below the fresh-id counter, so removed ids never come back.
    pub open spec fn wf(self) -> bool {
        &&& self.records.dom().finite()
        &&& forall|id: u64| self.records.dom().contains(id) ==> id < self.next_id
    }

    /// The model a freshly constructed manager has.
    pub open spec fn init() -> ManagerModel {
        ManagerModel {
            records: Map::empty(),
            events: Seq::empty(),
            accept: AcceptState::Unbound,
            next_id: 0,
        }
    }

    /// The state after consuming one input: the transition function of the
    /// whole lifecycle state machine.
    ///
    /// A result for a session that is gone, or not in the state that kind of
    /// result belongs to, is a stale completion of an abandoned operation and
    /// is discarded. Record creation is refused only when the id space is
    /// exhausted.
    pub open spec fn step(self, input: Input) -> ManagerModel {
        match input {
            Input::StartConnect { addr, server_name } => {
                if self.next_id < u64::MAX {
                    ManagerModel {
                        records: self.records.insert(
                            self.next_id,
                            SessionRecord {
                                addr,
                                peer_name: Some(server_name),
                                origin: Origin::Local,
                                state: ConnState::Connecting,
                            },
                        ),
                        events: self.events,
                        accept: self.accept,
                        next_id: (self.next_id + 1) as u64,
                    }
                } else {
                    self
                }
            },
            Input::OpenEndpoint => {
                if self.accept is Unbound {
                    ManagerModel {
                        records: self.records,
                        events: self.events,
                        accept: AcceptState::Accepting,
                        next_id: self.next_id,
                    }
                } else {
                    self
                }
            },
            Input::Incoming { addr } => {
                if self.accept is Accepting && self.next_id < u64::MAX {
                    ManagerModel {
                        records: self.records.insert(
                            self.next_id,
                            SessionRecord {
                                addr,
                                peer_name: None,
                                origin: Origin::Remote,
                                state: ConnState::Connecting,
                            },
                        ),
                        events: self.events,
                        accept: self.accept,
                        next_id: (self.next_id + 1) as u64,
                    }
                } else {
                    self
                }
            },
            Input::EndpointClosed => {
                if self.accept is Accepting {
                    ManagerModel {
                        records: self.records,
                        events: self.events,
                        accept: AcceptState::Exhausted,
                        next_id: self.next_id,
                    }
                } else {
                    self
                }
            },
            Input::ConnectResult { session, success } => {
                if self.state_of(session) == Some(ConnState::Connecting) {
                    if success {
                        ManagerModel {
                            records: self.records.insert(
                                session,
                                SessionRecord {
                                    state: ConnState::Connected(StreamState::Idle),
                                    ..self.records[session]
                                },
                            ),
                            events: self.events.push(Event::Connected { session }),
                            accept: self.accept,
                            next_id: self.next_id,
                        }
                    } else {
                        // A failed connect attempt is discarded without an
                        // event: consumers never observed the record.
                        ManagerModel {
                            records: self.records.remove(session),
                            events: self.events,
                            accept: self.accept,
                            next_id: self.next_id,
                        }
                    }
                } else {
                    self
                }
            },
            Input::StreamTick { session } => {
                if self.state_of(session) == Some(ConnState::Connected(StreamState::Idle)) {
                    ManagerModel {
                        records: self.records.insert(
                            session,
                            SessionRecord {
                                state: ConnState::Connected(StreamState::Opening),
                                ..self.records[session]
                            },
                        ),
                        events: self.events,
                        accept: self.accept,
                        next_id: self.next_id,
                    }
                } else {
                    self
                }
            },
            Input::StreamOpenResult { session, success } => {
                if self.state_of(session) == Some(ConnState::Connected(StreamState::Opening)) {
                    if success {
                        ManagerModel {
                            records: self.records.insert(
                                session,
                                SessionRecord {
                                    state: ConnState::Connected(StreamState::Reading),
                                    ..self.records[session]
                                },
                            ),
                            events: self.events,
                            accept: self.accept,
                            next_id: self.next_id,
                        }
                    } else {
                        // Consumers already observed `Connected`, so the
                        // teardown is announced.
                        ManagerModel {
                            records: self.records.remove(session),
                            events: self.events.push(Event::Disconnected { session }),
                            accept: self.accept,
                            next_id: self.next_id,
                        }
                    }
                } else {
                    self
                }
            },
            Input::ReadDone { session, outcome } => {
                if self.state_of(session) == Some(ConnState::Connected(StreamState::Reading)) {
                    match outcome {
                        ReadResult::Data(bytes) => ManagerModel {
                            records: self.records.insert(
                                session,
                                SessionRecord {
                                    state: ConnState::Connected(StreamState::Idle),
                                    ..self.records[session]
                                },
                            ),
                            events: self.events.push(Event::DataReceived { session, bytes }),
                            accept: self.accept,
                            next_id: self.next_id,
                        },
                        ReadResult::Closed => self.drop_after_read(session),
                        ReadResult::Error => self.drop_after_read(session),
                    }
                } else {
                    self
                }
            },
        }
    }

    /// Removal of a record whose read cycle ended without a message: a close
    /// and a transport error are treated identically at the event boundary.
    pub open spec fn drop_after_read(self, session: u64) -> ManagerModel {
        ManagerModel {
            records: self.records.remove(session),
            events: self.events.push(Event::Disconnected { session }),
            accept: self.accept,
            next_id: self.next_id,
        }
    }

    /// The operations the host must spawn in answer to one input, in order.
    pub open spec fn actions(self, input: Input) -> Seq<Action> {
        match input {
            Input::StartConnect { .. } => {
                if self.next_id < u64::MAX {
                    seq![Action::SpawnConnect { session: self.next_id }]
                } else {
                    Seq::empty()
                }
            },
            Input::OpenEndpoint => {
                if self.accept is Unbound {
                    seq![Action::RearmAccept]
                } else {
                    Seq::empty()
                }
            },
            Input::Incoming { .. } => {
                if self.accept is Accepting {
                    if self.next_id < u64::MAX {
                        seq![
                            Action::SpawnHandshake { session: self.next_id },
                            Action::RearmAccept,
                        ]
                    } else {
                        seq![Action::RearmAccept]
                    }
                } else {
                    Seq::empty()
                }
            },
            Input::EndpointClosed => Seq::empty(),
            Input::ConnectResult { session, success } => {
                if self.state_of(session) == Some(ConnState::Connecting) && !success {
                    seq![Action::Teardown { session }]
                } else {
                    Seq::empty()
                }
            },
            Input::StreamTick { session } => {
                if self.state_of(session) == Some(ConnState::Connected(StreamState::Idle)) {
                    seq![
                        Action::SpawnStreamOpen {
                            session,
                            initiate: self.records[session].origin is Local,
                        },
                    ]
                } else {
                    Seq::empty()
                }
            },
            Input::StreamOpenResult { session, success } => {
                if self.state_of(session) == Some(ConnState::Connected(StreamState::Opening)) {
                    if success {
                        seq![Action::SpawnRead { session }]
                    } else {
                        seq![Action::Teardown { session }]
                    }
                } else {
                    Seq::empty()
                }
            },
            Input::ReadDone { session, outcome } => {
                if self.state_of(session) == Some(ConnState::Connected(StreamState::Reading)) {
                    match outcome {
                        ReadResult::Data(_) => Seq::empty(),
                        ReadResult::Closed => seq![Action::Teardown { session }],
                        ReadResult::Error => seq![Action::Teardown { session }],
                    }
                } else {
                    Seq::empty()
                }
            },
        }
    }
}

/// The executable lifecycle manager. Its abstract state is a
/// [`ManagerModel`]; every method's contract is exact with respect to that
/// model, so two managers with equal models behave identically.
#[derive(Debug)]
pub struct LifecycleManager {
    records: HashMap<u64, SessionRecord>,
    events: Vec<Event>,
    accept: AcceptState,
    next_id: u64,
}

impl View for LifecycleManager {
    type V = ManagerModel;

    closed spec fn view(&self) -> ManagerModel {
        ManagerModel {
            records: self.records@,
            events: self.events@,
            accept: self.accept,
            next_id: self.next_id,
        }
    }
}

impl LifecycleManager {
    /// A manager with no records, no queued events and no endpoint.
    pub fn new() -> (r: LifecycleManager)
        ensures
            r@ == ManagerModel::init(),
            r@.wf(),
    {
        let r = LifecycleManager {
            records: HashMap::new(),
            events: Vec::new(),
            accept: AcceptState::Unbound,
            next_id: 0,
        };
        proof {
            assert(r@ =~= ManagerModel::init());
        }
        r
    }

    /// Consumes one input and returns, in order, the operations the host
    /// must spawn. The new state is exactly [`ManagerModel::step`] of the
    /// old one, and the returned actions exactly [`ManagerModel::actions`].
    #[verifier::rlimit(60)]
    pub fn step(&mut self, input: Input) -> (actions: Vec<Action>)
        ensures
            final(self)@ == old(self)@.step(input),
            actions@ == old(self)@.actions(input),
    {
        let mut out: Vec<Action> = Vec::new();
        match input {
            Input::StartConnect { addr, server_name } => {
                if self.next_id < u64::MAX {
                    let id = self.next_id;
                    self.records.insert(
                        id,
                        SessionRecord {
                            addr,
                            peer_name: Some(server_name),
                            origin: Origin::Local,
                            state: ConnState::Connecting,
                        },
                    );
                    self.next_id = id + 1;
                    out.push(Action::SpawnConnect { session: id });
                    proof {
                        assert(out@ =~= seq![Action::SpawnConnect { session: id }]);
                        assert(self@ =~= old(self)@.step(input));
                    }
                }
            },
            Input::OpenEndpoint => {
                if self.accept == AcceptState::Unbound {
                    self.accept = AcceptState::Accepting;
                    out.push(Action::RearmAccept);
                    proof {
                        assert(out@ =~= seq![Action::RearmAccept]);
                        assert(self@ =~= old(self)@.step(input));
                    }
                }
            },
            Input::Incoming { addr } => {
                if self.accept == AcceptState::Accepting {
                    if self.next_id < u64::MAX {
                        let id = self.next_id;
                        self.records.insert(
                            id,
                            SessionRecord {
                                addr,
                                peer_name: None,
                                origin: Origin::Remote,
                                state: ConnState::Connecting,
                            },
                        );
                        self.next_id = id + 1;
                        out.push(Action::SpawnHandshake { session: id });
                        out.push(Action::RearmAccept);
                        proof {
                            assert(out@ =~= seq![
                                Action::SpawnHandshake { session: id },
                                Action::RearmAccept,
                            ]);
                            assert(self@ =~= old(self)@.step(input));
                        }
                    } else {
                        out.push(Action::RearmAccept);
                        proof {
                            assert(out@ =~= seq![Action::RearmAccept]);
                            assert(self@ =~= old(self)@.step(input));
                        }
                    }
                }
            },
            Input::EndpointClosed => {
                if self.accept == AcceptState::Accepting {
                    self.accept = AcceptState::Exhausted;
                    proof {
                        assert(self@ =~= old(self)@.step(input));
                    }
                }
            },
            Input::ConnectResult { session, success } => {
                match self.records.remove(&session) {
                    Some(rec) => {
                        if rec.state == ConnState::Connecting {
                            if success {
                                self.records.insert(
                                    session,
                                    SessionRecord {
                                        state: ConnState::Connected(StreamState::Idle),
                                        ..rec
                                    },
                                );
                                self.events.push(Event::Connected { session });
                            } else {
                                out.push(Action::Teardown { session });
                            }
                        } else {
                            // A stale completion: the record has moved on.
                            self.records.insert(session, rec);
                        }
                    },
                    None => {},
                }
                proof {
                    assert(self.records@ =~= old(self)@.step(input).records);
                    assert(self@ =~= old(self)@.step(input));
                    assert(out@ =~= old(self)@.actions(input));
                }
            },
            Input::StreamTick { session } => {
                match self.records.remove(&session) {
                    Some(rec) => {
                        if rec.state == ConnState::Connected(StreamState::Idle) {
                            let initiate = rec.origin == Origin::Local;
                            self.records.insert(
                                session,
                                SessionRecord {
                                    state: ConnState::Connected(StreamState::Opening),
                                    ..rec
                                },
                            );
                            out.push(Action::SpawnStreamOpen { session, initiate });
                        } else {
                            self.records.insert(session, rec);
                        }
                    },
                    None => {},
                }
                proof {
                    assert(self.records@ =~= old(self)@.step(input).records);
                    assert(self@ =~= old(self)@.step(input));
                    assert(out@ =~= old(self)@.actions(input));
                }
            },
            Input::StreamOpenResult { session, success } => {
                match self.records.remove(&session) {
                    Some(rec) => {
                        if rec.state == ConnState::Connected(StreamState::Opening) {
                            if success {
                                self.records.insert(
                                    session,
                                    SessionRecord {
                                        state: ConnState::Connected(StreamState::Reading),
                                        ..rec
                                    },
                                );
                                out.push(Action::SpawnRead { session });
                            } else {
                                self.events.push(Event::Disconnected { session });
                                out.push(Action::Teardown { session });
                            }
                        } else {
                            self.records.insert(session, rec);
                        }
                    },
                    None => {},
                }
                proof {
                    assert(self.records@ =~= old(self)@.step(input).records);
                    assert(self@ =~= old(self)@.step(input));
                    assert(out@ =~= old(self)@.actions(input));
                }
            },
            Input::ReadDone { session, outcome } => {
                match self.records.remove(&session) {
                    Some(rec) => {
                        if rec.state == ConnState::Connected(StreamState::Reading) {
                            match outcome {
                                ReadResult::Data(bytes) => {
                                    self.records.insert(
                                        session,
                                        SessionRecord {
                                            state: ConnState::Connected(StreamState::Idle),
                                            ..rec
                                        },
                                    );
                                    self.events.push(Event::DataReceived { session, bytes });
                                },
                                ReadResult::Closed => {
                                    self.events.push(Event::Disconnected { session });
                                    out.push(Action::Teardown { session });
                                },
                                ReadResult::Error => {
                                    self.events.push(Event::Disconnected { session });
                                    out.push(Action::Teardown { session });
                                },
                            }
                        } else {
                            self.records.insert(session, rec);
                        }
                    },
                    None => {},
                }
                proof {
                    assert(self.records@ =~= old(self)@.step(input).records);
                    assert(self@ =~= old(self)@.step(input));
                    assert(out@ =~= old(self)@.actions(input));
                }
            },
        }
        out
    }

    /// Flushes the event queue: returns every queued event, oldest first,
    /// leaving the queue empty and everything else untouched.
    pub fn take_events(&mut self) -> (events: Vec<Event>)
        ensures
            events@ == old(self)@.events,
            final(self)@ == (ManagerModel { events: Seq::empty(), ..old(self)@ }),
    {
        let mut out: Vec<Event> = Vec::new();
        std::mem::swap(&mut out, &mut self.events);
        proof {
            assert(self@ =~= (ManagerModel { events: Seq::empty(), ..old(self)@ }));
        }
        out
    }

    /// The lifecycle state of a record, or `None` if no record with that id
    /// is live.
    pub fn record_state(&self, session: u64) -> (r: Option<ConnState>)
        ensures
            r == self@.state_of(session),
    {
        match self.records.get(&session) {
            Some(rec) => Some(rec.state),
            None => None,
        }
    }

    /// The whole record for a session, if it is live.
    pub fn record(&self, session: u64) -> (r: Option<&SessionRecord>)
        ensures
            match r {
                Some(rec) => self@.records.dom().contains(session)
                    && *rec == self@.records[session],
                None => !self@.records.dom().contains(session),
            },
    {
        self.records.get(&session)
    }

    /// How many session records are live.
    pub fn record_count(&self) -> (n: usize)
        ensures
            n == self@.records.dom().len(),
    {
        self.records.len()
    }

    /// The accept half of the endpoint resource.
    pub fn accept_state(&self) -> (r: AcceptState)
        ensures
            r == self@.accept,
    {
        self.accept
    }
}

} // verus!
