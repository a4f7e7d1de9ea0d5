//! A verified core for a WebSocket notification router and tunnel.
//!
//! The library holds the logic of two coupled subsystems:
//!
//! * a session/correlation router: a registry of live client sessions keyed
//!   by request id, a correlation map from trace ids to request ids, a cache
//!   of in-flight query payloads, the per-session dispatch step that reacts
//!   to client frames and fan-out bus events, and the liveness supervisor's
//!   timeout decision;
//! * a WebSocket tunnel: frame-type translation between the client-facing
//!   and the upstream frame representations, and the tunnel's state machine.
//!
//! All identifiers and payloads are byte strings. The surrounding process
//! owns the connections and the clock; it feeds frames, bus events and
//! timestamps to the step functions here and performs the actions they
//! return.

pub mod bytes;
pub mod registry;
pub mod session;
pub mod tunnel;
pub mod wire;

use vstd::prelude::*;

verus! {

/// Query parameters of the connect endpoint: the client names the request id
/// under which its session is registered.
pub struct WSQueryParam {
    pub request_id: String,
}

} // verus!
