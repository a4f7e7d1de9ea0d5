//! The per-session dispatch step and the liveness supervisor's decision.
//!
//! The surrounding process runs one loop per accepted connection, waiting on
//! two sources at once: the client's frames and the shared fan-out bus. For
//! each arrival it calls `handle_client_frame` or `handle_bus_event` and
//! performs the action handed back; after a delivery that was sent
//! successfully it retires the trace with `Registry::retire_trace` (a failed
//! send retires nothing). It stops when a step says to terminate, when a
//! delivery was handed out, or when both sources are exhausted, and then
//! closes the connection and unregisters the session. Alongside, the
//! supervisor task calls `supervisor_tick` on every ping interval with the
//! shared liveness clock's reading.

use vstd::prelude::*;

use crate::bytes::{bytes_clone, bytes_eq};
use crate::registry::Registry;
use crate::tunnel::ClientFrame;
use crate::wire::{
    event_json, lit_enqueued_open, lit_event_payload, lit_event_trace, lit_event_user,
    parse_client, parse_client_message, merged_event_json, serialize_delivery, ClientMessage,
    Event, EventPayload, MessageKind,
};

verus! {

/// A client is counted dead after this much silence, measured from the last
/// liveness signal, independent of the ping cadence.
pub const LIVENESS_TIMEOUT_MS: u64 = 30000;

/// How often the supervisor pings the client.
pub const PING_INTERVAL_MS: u64 = 10000;

/// Routing state (correlations and cached queries) left untouched.
pub open spec fn same_routing<S>(a: Registry<S>, b: Registry<S>) -> bool {
    a.traces() == b.traces() && a.queries() == b.queries()
}

/// What the loop must do after a client frame.
#[derive(Debug, PartialEq)]
pub enum ClientAction {
    /// Reply with a pong carrying the ping's payload.
    SendPong { payload: Vec<u8> },
    /// Echo the close frame, reason and all.
    EchoClose { reason: Option<Vec<u8>> },
    /// Close bare: continuation fragments are not supported.
    CloseBare,
    /// A pong arrived: set the liveness clock to now.
    RecordLiveness,
    /// Nothing.
    Idle,
}

/// One client-frame step: the action to perform, and whether the loop stops.
#[derive(Debug, PartialEq)]
pub struct ClientStep {
    pub action: ClientAction,
    pub terminate: bool,
}

/// Reacts to one frame from this session's client.
///
/// A recognized text frame registers its trace under this session's request
/// id and, for a search declaration, caches the query; an unrecognized text
/// frame is dropped and changes nothing, and the connection stays open. A
/// ping asks for a pong, a pong records liveness, a close is echoed and
/// terminal, a continuation closes bare and is terminal; anything else is
/// ignored.
pub fn handle_client_frame<S>(
    reg: &mut Registry<S>,
    request_id: &Vec<u8>,
    frame: ClientFrame,
) -> (r: ClientStep)
    ensures
        final(reg).sessions() == old(reg).sessions(),
        match frame {
            ClientFrame::Ping { payload } => same_routing(*old(reg), *final(reg)) && r == (
            ClientStep { action: ClientAction::SendPong { payload }, terminate: false }),
            ClientFrame::Pong { .. } => same_routing(*old(reg), *final(reg)) && r == (ClientStep {
                action: ClientAction::RecordLiveness,
                terminate: false,
            }),
            ClientFrame::Close { reason } => same_routing(*old(reg), *final(reg)) && r == (
            ClientStep { action: ClientAction::EchoClose { reason }, terminate: true }),
            ClientFrame::Continuation => same_routing(*old(reg), *final(reg)) && r == (ClientStep {
                action: ClientAction::CloseBare,
                terminate: true,
            }),
            ClientFrame::Binary { .. } => same_routing(*old(reg), *final(reg)) && r == (ClientStep {
                action: ClientAction::Idle,
                terminate: false,
            }),
            ClientFrame::Nop => same_routing(*old(reg), *final(reg)) && r == (ClientStep {
                action: ClientAction::Idle,
                terminate: false,
            }),
            ClientFrame::Text { payload } => match parse_client_message(payload@) {
                Some(m) => final(reg).traces() == old(reg).traces().insert(m.trace_id, request_id@)
                    && final(reg).queries() == (match m.query {
                    Some(q) => old(reg).queries().insert(m.trace_id, q),
                    None => old(reg).queries(),
                }) && r == (ClientStep { action: ClientAction::Idle, terminate: false }),
                None => same_routing(*old(reg), *final(reg)) && r == (ClientStep {
                    action: ClientAction::Idle,
                    terminate: false,
                }),
            },
        },
{
    match frame {
        ClientFrame::Ping { payload } => ClientStep {
            action: ClientAction::SendPong { payload },
            terminate: false,
        },
        ClientFrame::Pong { .. } => ClientStep {
            action: ClientAction::RecordLiveness,
            terminate: false,
        },
        ClientFrame::Close { reason } => ClientStep {
            action: ClientAction::EchoClose { reason },
            terminate: true,
        },
        ClientFrame::Continuation => ClientStep {
            action: ClientAction::CloseBare,
            terminate: true,
        },
        ClientFrame::Binary { .. } => ClientStep { action: ClientAction::Idle, terminate: false },
        ClientFrame::Nop => ClientStep { action: ClientAction::Idle, terminate: false },
        ClientFrame::Text { payload } => {
            match parse_client(&payload) {
                Some(m) => {
                    let req = bytes_clone(request_id);
                    match m {
                        ClientMessage { trace_id, kind: MessageKind::Search { query } } => {
                            let tid = bytes_clone(&trace_id);
                            reg.register_trace(trace_id, req);
                            reg.cache_query(tid, query);
                        },
                        ClientMessage { trace_id, kind: MessageKind::Other } => {
                            reg.register_trace(trace_id, req);
                        },
                    }
                    ClientStep { action: ClientAction::Idle, terminate: false }
                },
                None => ClientStep { action: ClientAction::Idle, terminate: false },
            }
        },
    }
}

/// The event is addressed to this session: its trace resolves to this
/// session's request id, and a live session is registered under it.
pub open spec fn event_matches<S>(reg: Registry<S>, request_id: Seq<u8>, e: Event) -> bool {
    &&& reg.traces().contains_key(e.trace_id@)
    &&& reg.traces()[e.trace_id@] == request_id
    &&& reg.sessions().contains_key(request_id)
}

/// The cached query an enqueued event picks up on delivery, if any.
pub open spec fn expected_cache<S>(reg: Registry<S>, e: Event) -> Option<Seq<u8>> {
    match e.payload {
        EventPayload::QueryEnqueued { .. } => if reg.queries().contains_key(e.trace_id@) {
            Some(reg.queries()[e.trace_id@])
        } else {
            None
        },
        EventPayload::Raw { .. } => None,
    }
}

/// What the loop must do after a bus event.
#[derive(Debug, PartialEq)]
pub enum BusAction {
    /// Send this text to the session's client; the loop then stops — one
    /// connection serves exactly one delivery in its lifetime. On a
    /// successful send the loop retires the trace (`Registry::retire_trace`);
    /// a failed send leaves the correlation in place.
    Deliver { text: Vec<u8> },
    /// Not addressed to this session: drop the event, keep looping.
    Skip,
}

/// Reacts to one bus event.
///
/// An event addressed to this session is serialized (an enqueued payload
/// merged with its cached query, which the merge consumes before the send)
/// and handed out for delivery. The trace correlation is *not* retired here:
/// retirement belongs to the send's outcome. On a successful send the loop
/// calls `Registry::retire_trace`, after which a re-broadcast of the same
/// trace matches nothing; on a send failure the loop stops without retiring,
/// and the correlation survives for a later connection. Every event not
/// addressed to this session is dropped unchanged.
pub fn handle_bus_event<S>(reg: &mut Registry<S>, request_id: &Vec<u8>, event: &Event) -> (r:
    BusAction)
    ensures
        final(reg).sessions() == old(reg).sessions(),
        final(reg).traces() == old(reg).traces(),
        if event_matches(*old(reg), request_id@, *event) {
            &&& final(reg).queries() == (match event.payload {
                EventPayload::QueryEnqueued { .. } => old(reg).queries().remove(event.trace_id@),
                EventPayload::Raw { .. } => old(reg).queries(),
            })
            &&& match r {
                BusAction::Deliver { text } => text@ == merged_event_json(
                    *event,
                    expected_cache(*old(reg), *event),
                ),
                BusAction::Skip => false,
            }
        } else {
            &&& final(reg).queries() == old(reg).queries()
            &&& r == BusAction::Skip
        },
{
    let addressed: bool = match reg.resolve_trace(&event.trace_id) {
        Some(rid) => {
            if bytes_eq(rid, request_id) {
                match reg.lookup_session(request_id) {
                    Some(_) => true,
                    None => false,
                }
            } else {
                false
            }
        },
        None => false,
    };
    if !addressed {
        return BusAction::Skip;
    }
    let cached: Option<Vec<u8>> = match &event.payload {
        EventPayload::QueryEnqueued { .. } => reg.take_query(&event.trace_id),
        EventPayload::Raw { .. } => None,
    };
    let text = serialize_delivery(event, cached);
    BusAction::Deliver { text }
}

/// At-most-once delivery: once a confirmed send has retired a matched
/// event's trace (`Registry::retire_trace` after the delivery succeeded), no
/// event with that trace id is addressed to any session until the trace is
/// registered again.
pub proof fn lemma_at_most_once<S>(
    reg0: Registry<S>,
    reg1: Registry<S>,
    request_id: Seq<u8>,
    e1: Event,
    e2: Event,
)
    requires
        event_matches(reg0, request_id, e1),
        reg1.traces() == reg0.traces().remove(e1.trace_id@),
        e2.trace_id@ == e1.trace_id@,
    ensures
        forall|rid: Seq<u8>| !event_matches(reg1, rid, e2),
{
}

/// Query merge correctness: an enqueued event whose trace has a cached query
/// is delivered as the event merged with that query; one without a cache
/// entry is delivered unmodified.
pub proof fn lemma_query_merge<S>(reg: Registry<S>, e: Event)
    requires
        e.payload matches EventPayload::QueryEnqueued { query: None },
    ensures
        reg.queries().contains_key(e.trace_id@) ==> merged_event_json(e, expected_cache(reg, e))
            == lit_event_user() + e.user_id@ + lit_event_trace() + e.trace_id@
            + lit_event_payload() + (lit_enqueued_open() + reg.queries()[e.trace_id@]
            + seq![125u8]) + seq![125u8],
        !reg.queries().contains_key(e.trace_id@) ==> merged_event_json(e, expected_cache(reg, e))
            == event_json(e),
{
}

/// What the supervisor does on one tick.
#[derive(Clone, Copy, Debug, PartialEq, Eq, Structural)]
pub enum SupervisorAction {
    /// Keep the session: send a ping (a ping failure alone is not terminal).
    Ping,
    /// The client timed out: close the connection (best effort), the session
    /// is already unregistered, stop the supervisor.
    Terminate,
}

/// The client has been silent longer than the liveness window.
pub open spec fn timed_out(last_seen_ms: u64, now_ms: u64) -> bool {
    now_ms - last_seen_ms > LIVENESS_TIMEOUT_MS
}

/// One supervisor tick: reads the shared liveness clock (`last_seen_ms`,
/// written by the read loop on every pong) against `now_ms` and decides.
/// Exactly on a timeout the session is unregistered and the verdict is
/// terminal; otherwise nothing changes and another ping goes out.
pub fn supervisor_tick<S>(
    reg: &mut Registry<S>,
    request_id: &Vec<u8>,
    last_seen_ms: u64,
    now_ms: u64,
) -> (r: SupervisorAction)
    requires
        last_seen_ms <= now_ms,
    ensures
        (r == SupervisorAction::Terminate) == timed_out(last_seen_ms, now_ms),
        r == SupervisorAction::Terminate ==> final(reg).sessions() == old(reg).sessions().remove(
            request_id@,
        ) && same_routing(*old(reg), *final(reg)),
        r == SupervisorAction::Ping ==> final(reg).sessions() == old(reg).sessions()
            && same_routing(*old(reg), *final(reg)),
{
    if now_ms - last_seen_ms > LIVENESS_TIMEOUT_MS {
        reg.unregister_session(request_id);
        SupervisorAction::Terminate
    } else {
        SupervisorAction::Ping
    }
}

/// Liveness window: a client that answered within the window is never timed
/// out; one silent beyond it always is.
pub proof fn lemma_liveness_window(last_seen_ms: u64, now_ms: u64)
    requires
        last_seen_ms <= now_ms,
    ensures
        now_ms - last_seen_ms <= LIVENESS_TIMEOUT_MS ==> !timed_out(last_seen_ms, now_ms),
        now_ms - last_seen_ms > LIVENESS_TIMEOUT_MS ==> timed_out(last_seen_ms, now_ms),
{
}

} // verus!
