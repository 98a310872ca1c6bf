//! The guarantees of the lifecycle state machine, proved over the model.
//!
//! Every executable transition equals [`ManagerModel::step`] exactly, so a
//! property proved here of the model holds of every run of the executable
//! manager. The single-pending-operation invariant is structural and lives
//! with the record type ([`crate::record::lemma_single_pending_operation`]).

use vstd::prelude::*;

use crate::addr::PeerAddr;
use crate::manager::{Action, Event, Input, ManagerModel};
use crate::message::ReadResult;
use crate::record::{ConnState, StreamState};

verus! {

/// The model after consuming a whole sequence of inputs, in order.
pub open spec fn run_steps(m: ManagerModel, inputs: Seq<Input>) -> ManagerModel
    decreases inputs.len(),
{
    if inputs.len() == 0 {
        m
    } else {
        run_steps(m.step(inputs[0]), inputs.skip(1))
    }
}

/// Consuming an input keeps the model well formed: record ids stay below the
/// fresh-id counter, so an id is never reused.
pub proof fn lemma_step_preserves_wf(m: ManagerModel, input: Input)
    requires
        m.wf(),
    ensures
        m.step(input).wf(),
{
}

/// One consumed input moves every single record forward, never back: a
/// record that was `Connected` is afterwards still `Connected` (its stream
/// sub-state may differ) or gone; a record that was gone, and whose id is
/// spent, stays gone; and the fresh-id counter never shrinks.
pub proof fn lemma_step_monotonic(m: ManagerModel, input: Input, session: u64)
    requires
        m.wf(),
    ensures
        ({
            let m2 = m.step(input);
            &&& (m.state_of(session) matches Some(ConnState::Connected(_)) ==> (m2.state_of(
                session,
            ) is None || m2.state_of(session) matches Some(ConnState::Connected(_))))
            &&& (m.state_of(session) is None && session < m.next_id ==> m2.state_of(
                session,
            ) is None)
            &&& m.next_id <= m2.next_id
        }),
{
}

/// A removed record never comes back: its id was spent, and fresh records
/// only ever take unspent ids.
pub proof fn lemma_stays_removed(m: ManagerModel, inputs: Seq<Input>, session: u64)
    requires
        m.wf(),
        m.state_of(session) is None,
        session < m.next_id,
    ensures
        run_steps(m, inputs).state_of(session) is None,
    decreases inputs.len(),
{
    if inputs.len() > 0 {
        lemma_step_preserves_wf(m, inputs[0]);
        lemma_step_monotonic(m, inputs[0], session);
        lemma_stays_removed(m.step(inputs[0]), inputs.skip(1), session);
    }
}

/// Monotonic progression: a record observed in state `Connected` is never
/// observed in state `Connecting` after any further sequence of inputs — it
/// is still `Connected`, or it has been removed for good.
pub proof fn lemma_monotonic_progression(m: ManagerModel, inputs: Seq<Input>, session: u64)
    requires
        m.wf(),
        m.state_of(session) matches Some(ConnState::Connected(_)),
    ensures
        !(run_steps(m, inputs).state_of(session) matches Some(ConnState::Connecting)),
    decreases inputs.len(),
{
    if inputs.len() > 0 {
        let m2 = m.step(inputs[0]);
        lemma_step_preserves_wf(m, inputs[0]);
        lemma_step_monotonic(m, inputs[0], session);
        if m2.state_of(session) is None {
            lemma_stays_removed(m2, inputs.skip(1), session);
        } else {
            lemma_monotonic_progression(m2, inputs.skip(1), session);
        }
    }
}

/// At-most-once event per stream read cycle: consuming the completion of a
/// read cycle queues exactly one event — `DataReceived` with the whole
/// message when end-of-stream was reached, `Disconnected` otherwise — never
/// both, never neither.
pub proof fn lemma_one_event_per_read_completion(
    m: ManagerModel,
    session: u64,
    outcome: ReadResult,
)
    requires
        m.state_of(session) == Some(ConnState::Connected(StreamState::Reading)),
    ensures
        ({
            let m2 = m.step(Input::ReadDone { session, outcome });
            &&& m2.events.len() == m.events.len() + 1
            &&& (outcome matches ReadResult::Data(bytes) ==> m2.events == m.events.push(
                Event::DataReceived { session, bytes },
            ))
            &&& (!(outcome is Data) ==> m2.events == m.events.push(
                Event::Disconnected { session },
            ))
        }),
{
}

/// The event queue is append-only: consuming an input never reorders or
/// drops queued events, so the order in which a tick's flush hands events to
/// consumers is exactly the order the transitions occurred.
pub proof fn lemma_events_append_only(m: ManagerModel, input: Input)
    ensures
        m.step(input).events.len() >= m.events.len(),
        m.step(input).events.take(m.events.len() as int) == m.events,
{
    assert(m.step(input).events.take(m.events.len() as int) =~= m.events);
}

/// Re-arm liveness: when the accept loop consumes one inbound attempt, the
/// endpoint is still accepting afterwards and the answered actions instruct
/// the host to arm the next "await inbound attempt" operation — there is no
/// window in which an open endpoint has no accept operation.
pub proof fn lemma_accept_rearmed(m: ManagerModel, addr: PeerAddr)
    requires
        m.accept is Accepting,
    ensures
        m.step(Input::Incoming { addr }).accept is Accepting,
        m.actions(Input::Incoming { addr }).contains(Action::RearmAccept),
{
    let acts = m.actions(Input::Incoming { addr });
    if m.next_id < u64::MAX {
        assert(acts[1] == Action::RearmAccept);
    } else {
        assert(acts[0] == Action::RearmAccept);
    }
}

/// One error-free stream cycle of a `Connected`, idle record: the stream
/// system opens a stream, the open succeeds, and the read resolves with a
/// complete message.
pub open spec fn run_one_cycle(m: ManagerModel, session: u64, payload: Vec<u8>) -> ManagerModel {
    m.step(Input::StreamTick { session }).step(
        Input::StreamOpenResult { session, success: true },
    ).step(Input::ReadDone { session, outcome: ReadResult::Data(payload) })
}

/// A run of successive error-free cycles, one per payload.
pub open spec fn run_cycles(m: ManagerModel, session: u64, payloads: Seq<Vec<u8>>) -> ManagerModel
    decreases payloads.len(),
{
    if payloads.len() == 0 {
        m
    } else {
        run_cycles(run_one_cycle(m, session, payloads[0]), session, payloads.skip(1))
    }
}

/// The events a run of error-free cycles queues: one `DataReceived` per
/// payload, in order.
pub open spec fn data_events(session: u64, payloads: Seq<Vec<u8>>) -> Seq<Event> {
    Seq::new(payloads.len(), |i: int| Event::DataReceived { session, bytes: payloads[i] })
}

/// Idempotent idle cycling: a connection that completes N successive stream
/// read cycles without an error queues exactly N `DataReceived` events, in
/// payload order, and is afterwards exactly as it was — still `Connected`
/// and idle, with every record, the accept state and the id counter
/// untouched. (Within each cycle the record only moves through the stream
/// sub-states of `Connected`, as [`run_one_cycle`] spells out.)
pub proof fn lemma_idle_cycling(m: ManagerModel, session: u64, payloads: Seq<Vec<u8>>)
    requires
        m.state_of(session) == Some(ConnState::Connected(StreamState::Idle)),
    ensures
        run_cycles(m, session, payloads) == (ManagerModel {
            events: m.events + data_events(session, payloads),
            ..m
        }),
    decreases payloads.len(),
{
    if payloads.len() == 0 {
        assert(m.events + data_events(session, payloads) =~= m.events);
        assert(run_cycles(m, session, payloads) =~= (ManagerModel {
            events: m.events + data_events(session, payloads),
            ..m
        }));
    } else {
        let m1 = run_one_cycle(m, session, payloads[0]);
        assert(m1.records =~= m.records);
        assert(m1.state_of(session) == Some(ConnState::Connected(StreamState::Idle)));
        lemma_idle_cycling(m1, session, payloads.skip(1));
        assert(m1.events + data_events(session, payloads.skip(1)) =~= m.events + data_events(
            session,
            payloads,
        ));
        assert(run_cycles(m, session, payloads) =~= (ManagerModel {
            events: m.events + data_events(session, payloads),
            ..m
        }));
    }
}

} // verus!
