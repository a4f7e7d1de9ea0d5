//! The WebSocket tunnel.
//!
//! One tunnel pairs an accepted client-facing connection with an outbound
//! upstream connection. The two sides speak different frame representations;
//! the tunnel translates by frame kind, payload verbatim. Frame kinds outside
//! the supported set — continuation fragments, raw protocol frames, a close
//! carrying a reason — are translated to a bare close and tear the tunnel
//! down. The surrounding process owns the sockets; it feeds events to
//! `Tunnel::step` and performs the actions handed back.

use vstd::prelude::*;

verus! {

/// A frame in the client-facing representation.
#[derive(Debug, PartialEq)]
pub enum ClientFrame {
    Text { payload: Vec<u8> },
    Binary { payload: Vec<u8> },
    Ping { payload: Vec<u8> },
    Pong { payload: Vec<u8> },
    /// A close frame; a reason, when attached, rides as an opaque encoding.
    Close { reason: Option<Vec<u8>> },
    /// A continuation fragment; not transported.
    Continuation,
    /// A frame with nothing in it; not transported.
    Nop,
}

/// A frame in the upstream representation.
#[derive(Debug, PartialEq)]
pub enum UpstreamFrame {
    Text { payload: Vec<u8> },
    Binary { payload: Vec<u8> },
    Ping { payload: Vec<u8> },
    Pong { payload: Vec<u8> },
    /// A close frame; a reason, when attached, rides as an opaque encoding.
    Close { reason: Option<Vec<u8>> },
    /// A raw protocol frame; not transported.
    Frame,
}

/// The frame kinds the tunnel transports: text, binary, ping, pong, and a
/// bare close.
pub open spec fn client_frame_supported(f: ClientFrame) -> bool {
    match f {
        ClientFrame::Text { .. } => true,
        ClientFrame::Binary { .. } => true,
        ClientFrame::Ping { .. } => true,
        ClientFrame::Pong { .. } => true,
        ClientFrame::Close { reason } => reason is None,
        ClientFrame::Continuation => false,
        ClientFrame::Nop => false,
    }
}

/// The frame kinds the tunnel transports back from upstream.
pub open spec fn upstream_frame_supported(f: UpstreamFrame) -> bool {
    match f {
        UpstreamFrame::Text { .. } => true,
        UpstreamFrame::Binary { .. } => true,
        UpstreamFrame::Ping { .. } => true,
        UpstreamFrame::Pong { .. } => true,
        UpstreamFrame::Close { reason } => reason is None,
        UpstreamFrame::Frame => false,
    }
}

/// Translation towards upstream: kind for kind, payload verbatim; an
/// unsupported frame becomes a bare close.
pub open spec fn spec_to_upstream(f: ClientFrame) -> UpstreamFrame {
    match f {
        ClientFrame::Text { payload } => UpstreamFrame::Text { payload },
        ClientFrame::Binary { payload } => UpstreamFrame::Binary { payload },
        ClientFrame::Ping { payload } => UpstreamFrame::Ping { payload },
        ClientFrame::Pong { payload } => UpstreamFrame::Pong { payload },
        ClientFrame::Close { .. } => UpstreamFrame::Close { reason: None },
        ClientFrame::Continuation => UpstreamFrame::Close { reason: None },
        ClientFrame::Nop => UpstreamFrame::Close { reason: None },
    }
}

/// Translation towards the client: kind for kind, payload verbatim; an
/// unsupported frame becomes a bare close.
pub open spec fn spec_to_client(f: UpstreamFrame) -> ClientFrame {
    match f {
        UpstreamFrame::Text { payload } => ClientFrame::Text { payload },
        UpstreamFrame::Binary { payload } => ClientFrame::Binary { payload },
        UpstreamFrame::Ping { payload } => ClientFrame::Ping { payload },
        UpstreamFrame::Pong { payload } => ClientFrame::Pong { payload },
        UpstreamFrame::Close { .. } => ClientFrame::Close { reason: None },
        UpstreamFrame::Frame => ClientFrame::Close { reason: None },
    }
}

/// Translates a client frame to its upstream equivalent.
pub fn to_upstream(f: ClientFrame) -> (r: UpstreamFrame)
    ensures
        r == spec_to_upstream(f),
{
    match f {
        ClientFrame::Text { payload } => UpstreamFrame::Text { payload },
        ClientFrame::Binary { payload } => UpstreamFrame::Binary { payload },
        ClientFrame::Ping { payload } => UpstreamFrame::Ping { payload },
        ClientFrame::Pong { payload } => UpstreamFrame::Pong { payload },
        ClientFrame::Close { reason: None } => UpstreamFrame::Close { reason: None },
        ClientFrame::Close { reason: Some(_) } => UpstreamFrame::Close { reason: None },
        ClientFrame::Continuation => UpstreamFrame::Close { reason: None },
        ClientFrame::Nop => UpstreamFrame::Close { reason: None },
    }
}

/// Translates an upstream frame to its client-facing equivalent.
pub fn to_client(f: UpstreamFrame) -> (r: ClientFrame)
    ensures
        r == spec_to_client(f),
{
    match f {
        UpstreamFrame::Text { payload } => ClientFrame::Text { payload },
        UpstreamFrame::Binary { payload } => ClientFrame::Binary { payload },
        UpstreamFrame::Ping { payload } => ClientFrame::Ping { payload },
        UpstreamFrame::Pong { payload } => ClientFrame::Pong { payload },
        UpstreamFrame::Close { reason: None } => ClientFrame::Close { reason: None },
        UpstreamFrame::Close { reason: Some(_) } => ClientFrame::Close { reason: None },
        UpstreamFrame::Frame => ClientFrame::Close { reason: None },
    }
}

/// Tunnel round-trip: every supported frame crosses to the other
/// representation and back unchanged, payload verbatim; every unsupported
/// frame is translated to a bare close.
pub proof fn lemma_tunnel_round_trip(f: ClientFrame, g: UpstreamFrame)
    ensures
        client_frame_supported(f) ==> spec_to_client(spec_to_upstream(f)) == f,
        upstream_frame_supported(g) ==> spec_to_upstream(spec_to_client(g)) == g,
        !client_frame_supported(f) ==> spec_to_upstream(f) == (UpstreamFrame::Close {
            reason: None,
        }),
        !upstream_frame_supported(g) ==> spec_to_client(g) == (ClientFrame::Close {
            reason: None,
        }),
{
}

/// Where the tunnel stands.
#[derive(Clone, Copy, Debug, PartialEq, Eq, Structural)]
pub enum TunnelState {
    /// The outbound connection is being established.
    Connecting,
    /// Both sides are up; frames flow.
    Active,
    /// Torn down; nothing flows any more.
    Closed,
}

/// What the surrounding process reports to the tunnel.
#[derive(Debug, PartialEq)]
pub enum TunnelEvent {
    /// The outbound connection came up.
    Connected,
    /// The outbound connection could not be established.
    ConnectFailed,
    /// A frame arrived from the client.
    FromClient { frame: ClientFrame },
    /// A frame arrived from upstream.
    FromUpstream { frame: UpstreamFrame },
    /// A write towards the client failed.
    ClientWriteFailed,
    /// A write towards upstream failed.
    UpstreamWriteFailed,
}

/// What the surrounding process must do next.
#[derive(Debug, PartialEq)]
pub enum TunnelAction {
    /// Nothing.
    Idle,
    /// Write the frame to the upstream connection.
    SendUpstream { frame: UpstreamFrame },
    /// Write the frame to the client connection.
    SendClient { frame: ClientFrame },
    /// Tell the caller that setting the tunnel up failed; the failure is
    /// reported, never allowed to take the process down.
    ReportSetupFailure,
}

/// The state after an event. Any write failure, a setup failure, or an
/// unsupported frame from either side closes the tunnel; frames reported
/// while still connecting are left to the caller's queue and change nothing.
pub open spec fn tunnel_next(s: TunnelState, ev: TunnelEvent) -> TunnelState {
    match s {
        TunnelState::Connecting => match ev {
            TunnelEvent::Connected => TunnelState::Active,
            TunnelEvent::ConnectFailed => TunnelState::Closed,
            TunnelEvent::ClientWriteFailed => TunnelState::Closed,
            TunnelEvent::UpstreamWriteFailed => TunnelState::Closed,
            _ => TunnelState::Connecting,
        },
        TunnelState::Active => match ev {
            TunnelEvent::FromClient { frame } => if client_frame_supported(frame) {
                TunnelState::Active
            } else {
                TunnelState::Closed
            },
            TunnelEvent::FromUpstream { frame } => if upstream_frame_supported(frame) {
                TunnelState::Active
            } else {
                TunnelState::Closed
            },
            TunnelEvent::ClientWriteFailed => TunnelState::Closed,
            TunnelEvent::UpstreamWriteFailed => TunnelState::Closed,
            _ => TunnelState::Active,
        },
        TunnelState::Closed => TunnelState::Closed,
    }
}

/// The action an event calls for.
pub open spec fn tunnel_action(s: TunnelState, ev: TunnelEvent) -> TunnelAction {
    match s {
        TunnelState::Connecting => match ev {
            TunnelEvent::ConnectFailed => TunnelAction::ReportSetupFailure,
            _ => TunnelAction::Idle,
        },
        TunnelState::Active => match ev {
            TunnelEvent::FromClient { frame } => TunnelAction::SendUpstream {
                frame: spec_to_upstream(frame),
            },
            TunnelEvent::FromUpstream { frame } => TunnelAction::SendClient {
                frame: spec_to_client(frame),
            },
            _ => TunnelAction::Idle,
        },
        TunnelState::Closed => TunnelAction::Idle,
    }
}

/// A connection-scoped tunnel instance.
pub struct Tunnel {
    state: TunnelState,
}

impl Tunnel {
    /// Where the tunnel stands.
    pub closed spec fn state(&self) -> TunnelState {
        self.state
    }

    /// A fresh tunnel, waiting for its outbound connection.
    pub fn new() -> (t: Tunnel)
        ensures
            t.state() == TunnelState::Connecting,
    {
        Tunnel { state: TunnelState::Connecting }
    }

    /// Reads the current state.
    pub fn current_state(&self) -> (s: TunnelState)
        ensures
            s == self.state(),
    {
        self.state
    }

    /// Reacts to one event: moves to the next state and hands back the
    /// action the surrounding process must perform.
    pub fn step(&mut self, ev: TunnelEvent) -> (a: TunnelAction)
        ensures
            final(self).state() == tunnel_next(old(self).state(), ev),
            a == tunnel_action(old(self).state(), ev),
    {
        match self.state {
            TunnelState::Connecting => match ev {
                TunnelEvent::Connected => {
                    self.state = TunnelState::Active;
                    TunnelAction::Idle
                },
                TunnelEvent::ConnectFailed => {
                    self.state = TunnelState::Closed;
                    TunnelAction::ReportSetupFailure
                },
                TunnelEvent::ClientWriteFailed => {
                    self.state = TunnelState::Closed;
                    TunnelAction::Idle
                },
                TunnelEvent::UpstreamWriteFailed => {
                    self.state = TunnelState::Closed;
                    TunnelAction::Idle
                },
                _ => TunnelAction::Idle,
            },
            TunnelState::Active => match ev {
                TunnelEvent::FromClient { frame } => {
                    let supported = match &frame {
                        ClientFrame::Text { .. } => true,
                        ClientFrame::Binary { .. } => true,
                        ClientFrame::Ping { .. } => true,
                        ClientFrame::Pong { .. } => true,
                        ClientFrame::Close { reason: None } => true,
                        _ => false,
                    };
                    if !supported {
                        self.state = TunnelState::Closed;
                    }
                    TunnelAction::SendUpstream { frame: to_upstream(frame) }
                },
                TunnelEvent::FromUpstream { frame } => {
                    let supported = match &frame {
                        UpstreamFrame::Text { .. } => true,
                        UpstreamFrame::Binary { .. } => true,
                        UpstreamFrame::Ping { .. } => true,
                        UpstreamFrame::Pong { .. } => true,
                        UpstreamFrame::Close { reason: None } => true,
                        _ => false,
                    };
                    if !supported {
                        self.state = TunnelState::Closed;
                    }
                    TunnelAction::SendClient { frame: to_client(frame) }
                },
                TunnelEvent::ClientWriteFailed => {
                    self.state = TunnelState::Closed;
                    TunnelAction::Idle
                },
                TunnelEvent::UpstreamWriteFailed => {
                    self.state = TunnelState::Closed;
                    TunnelAction::Idle
                },
                _ => TunnelAction::Idle,
            },
            TunnelState::Closed => TunnelAction::Idle,
        }
    }
}

} // verus!
