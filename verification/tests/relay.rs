use ws_relay::registry::Registry;
use ws_relay::session::{
    handle_bus_event, handle_client_frame, supervisor_tick, BusAction, ClientAction, ClientStep,
    SupervisorAction,
};
use ws_relay::tunnel::{
    to_client, to_upstream, ClientFrame, Tunnel, TunnelAction, TunnelEvent, TunnelState,
    UpstreamFrame,
};
use ws_relay::wire::{event_to_json, parse_client, Event, EventPayload, MessageKind};

#[test]
fn registry_lookup_follows_register_and_unregister() {
    let mut reg: Registry<u64> = Registry::new();
    assert!(reg.lookup_session(&b"r1".to_vec()).is_none());
    reg.register_session(b"r1".to_vec(), 7);
    reg.register_session(b"r2".to_vec(), 8);
    assert_eq!(reg.lookup_session(&b"r1".to_vec()), Some(&7));
    assert_eq!(reg.lookup_session(&b"r2".to_vec()), Some(&8));
    reg.unregister_session(&b"r2".to_vec());
    assert_eq!(reg.lookup_session(&b"r1".to_vec()), Some(&7));
    assert!(reg.lookup_session(&b"r2".to_vec()).is_none());
    reg.unregister_session(&b"r1".to_vec());
    assert!(reg.lookup_session(&b"r1".to_vec()).is_none());
}

#[test]
fn registry_register_overwrites_same_request_id() {
    let mut reg: Registry<u64> = Registry::new();
    reg.register_session(b"r1".to_vec(), 7);
    reg.register_session(b"r1".to_vec(), 9);
    assert_eq!(reg.lookup_session(&b"r1".to_vec()), Some(&9));
}

#[test]
fn trace_and_query_tables_work() {
    let mut reg: Registry<u64> = Registry::new();
    assert!(reg.resolve_trace(&b"t1".to_vec()).is_none());
    reg.register_trace(b"t1".to_vec(), b"r1".to_vec());
    assert_eq!(reg.resolve_trace(&b"t1".to_vec()), Some(&b"r1".to_vec()));
    reg.retire_trace(&b"t1".to_vec());
    assert!(reg.resolve_trace(&b"t1".to_vec()).is_none());

    reg.cache_query(b"t1".to_vec(), b"{\"q\":\"x\"}".to_vec());
    assert_eq!(reg.take_query(&b"t1".to_vec()), Some(b"{\"q\":\"x\"}".to_vec()));
    // the read consumes: a second take finds nothing
    assert!(reg.take_query(&b"t1".to_vec()).is_none());
}

#[test]
fn parse_accepts_search_declaration() {
    let m = parse_client(&b"{\"trace_id\":\"t1\",\"type\":\"search\",\"query\":{\"q\":\"x\"}}".to_vec())
        .expect("recognized");
    assert_eq!(m.trace_id, b"t1".to_vec());
    assert_eq!(m.kind, MessageKind::Search { query: b"{\"q\":\"x\"}".to_vec() });
}

#[test]
fn parse_accepts_other_declaration() {
    let m = parse_client(&b"{\"trace_id\":\"t9\",\"type\":\"values\"}".to_vec()).expect("recognized");
    assert_eq!(m.trace_id, b"t9".to_vec());
    assert_eq!(m.kind, MessageKind::Other);
}

#[test]
fn parse_query_tracks_nesting_and_strings() {
    // braces inside a string must not end the value early
    let m = parse_client(
        &b"{\"trace_id\":\"t1\",\"type\":\"search\",\"query\":{\"a\":[1,2],\"b\":\"}\"}}".to_vec(),
    )
    .expect("recognized");
    assert_eq!(m.kind, MessageKind::Search { query: b"{\"a\":[1,2],\"b\":\"}\"}".to_vec() });
}

#[test]
fn parse_rejects_malformed_frames() {
    assert!(parse_client(&b"not json".to_vec()).is_none());
    assert!(parse_client(&b"{\"trace_id\":\"t1\"}".to_vec()).is_none());
    // a search declaration must carry a query
    assert!(parse_client(&b"{\"trace_id\":\"t1\",\"type\":\"search\"}".to_vec()).is_none());
    // a non-search declaration carries none
    assert!(parse_client(&b"{\"trace_id\":\"t1\",\"type\":\"values\",\"query\":1}".to_vec()).is_none());
    // unbalanced query value
    assert!(parse_client(&b"{\"trace_id\":\"t1\",\"type\":\"search\",\"query\":{\"q\":1}".to_vec())
        .is_none());
    // trailing garbage after the object
    assert!(parse_client(&b"{\"trace_id\":\"t1\",\"type\":\"values\"}x".to_vec()).is_none());
}

#[test]
fn unparseable_text_frame_is_dropped_and_mutates_nothing() {
    let mut reg: Registry<u64> = Registry::new();
    reg.register_session(b"r1".to_vec(), 1);
    let step = handle_client_frame(
        &mut reg,
        &b"r1".to_vec(),
        ClientFrame::Text { payload: b"{\"broken\":".to_vec() },
    );
    // the connection stays open and no table gained an entry
    assert_eq!(step, ClientStep { action: ClientAction::Idle, terminate: false });
    assert!(reg.resolve_trace(&b"broken".to_vec()).is_none());
    assert!(reg.take_query(&b"broken".to_vec()).is_none());
    assert_eq!(reg.lookup_session(&b"r1".to_vec()), Some(&1));
}

#[test]
fn ping_asks_for_pong_and_close_echoes() {
    let mut reg: Registry<u64> = Registry::new();
    let step = handle_client_frame(&mut reg, &b"r1".to_vec(), ClientFrame::Ping {
        payload: b"hb".to_vec(),
    });
    assert_eq!(step, ClientStep {
        action: ClientAction::SendPong { payload: b"hb".to_vec() },
        terminate: false,
    });
    let step = handle_client_frame(&mut reg, &b"r1".to_vec(), ClientFrame::Close {
        reason: Some(b"done".to_vec()),
    });
    assert_eq!(step, ClientStep {
        action: ClientAction::EchoClose { reason: Some(b"done".to_vec()) },
        terminate: true,
    });
    let step = handle_client_frame(&mut reg, &b"r1".to_vec(), ClientFrame::Continuation);
    assert_eq!(step, ClientStep { action: ClientAction::CloseBare, terminate: true });
    let step = handle_client_frame(&mut reg, &b"r1".to_vec(), ClientFrame::Pong {
        payload: Vec::new(),
    });
    assert_eq!(step, ClientStep { action: ClientAction::RecordLiveness, terminate: false });
}

#[test]
fn matched_event_is_delivered_once_and_rebroadcast_is_dropped() {
    let mut reg: Registry<u64> = Registry::new();
    reg.register_session(b"r1".to_vec(), 1);
    reg.register_trace(b"t1".to_vec(), b"r1".to_vec());
    let event = Event {
        user_id: b"u1".to_vec(),
        trace_id: b"t1".to_vec(),
        payload: EventPayload::Raw { body: b"{\"type\":\"Done\"}".to_vec() },
    };
    let first = handle_bus_event(&mut reg, &b"r1".to_vec(), &event);
    assert_eq!(
        first,
        BusAction::Deliver {
            text: b"{\"user_id\":\"u1\",\"trace_id\":\"t1\",\"payload\":{\"type\":\"Done\"}}".to_vec(),
        }
    );
    // the send succeeded, so the loop retires the correlation; the same
    // event broadcast again then matches nothing
    reg.retire_trace(&b"t1".to_vec());
    let second = handle_bus_event(&mut reg, &b"r1".to_vec(), &event);
    assert_eq!(second, BusAction::Skip);
}

#[test]
fn failed_send_keeps_the_correlation_for_a_later_connection() {
    let mut reg: Registry<u64> = Registry::new();
    reg.register_session(b"r1".to_vec(), 1);
    reg.register_trace(b"t1".to_vec(), b"r1".to_vec());
    let event = Event {
        user_id: b"u1".to_vec(),
        trace_id: b"t1".to_vec(),
        payload: EventPayload::Raw { body: b"1".to_vec() },
    };
    let first = handle_bus_event(&mut reg, &b"r1".to_vec(), &event);
    assert!(matches!(first, BusAction::Deliver { .. }));
    // the send failed: nothing is retired, and a re-broadcast still matches
    assert_eq!(reg.resolve_trace(&b"t1".to_vec()), Some(&b"r1".to_vec()));
    let again = handle_bus_event(&mut reg, &b"r1".to_vec(), &event);
    assert!(matches!(again, BusAction::Deliver { .. }));
    // once a send goes through, the retired trace matches nothing
    reg.retire_trace(&b"t1".to_vec());
    assert_eq!(handle_bus_event(&mut reg, &b"r1".to_vec(), &event), BusAction::Skip);
}

#[test]
fn event_for_another_session_is_skipped_unchanged() {
    let mut reg: Registry<u64> = Registry::new();
    reg.register_session(b"r1".to_vec(), 1);
    reg.register_trace(b"t1".to_vec(), b"other".to_vec());
    let event = Event {
        user_id: b"u1".to_vec(),
        trace_id: b"t1".to_vec(),
        payload: EventPayload::Raw { body: b"1".to_vec() },
    };
    assert_eq!(handle_bus_event(&mut reg, &b"r1".to_vec(), &event), BusAction::Skip);
    // nothing was retired
    assert_eq!(reg.resolve_trace(&b"t1".to_vec()), Some(&b"other".to_vec()));
}

#[test]
fn enqueued_event_merges_cached_query() {
    let mut reg: Registry<u64> = Registry::new();
    reg.register_session(b"r1".to_vec(), 1);
    reg.register_trace(b"t1".to_vec(), b"r1".to_vec());
    reg.cache_query(b"t1".to_vec(), b"{\"q\":\"x\"}".to_vec());
    let event = Event {
        user_id: b"u1".to_vec(),
        trace_id: b"t1".to_vec(),
        payload: EventPayload::QueryEnqueued { query: None },
    };
    let action = handle_bus_event(&mut reg, &b"r1".to_vec(), &event);
    assert_eq!(
        action,
        BusAction::Deliver {
            text: b"{\"user_id\":\"u1\",\"trace_id\":\"t1\",\"payload\":{\"type\":\"QueryEnqueued\",\"query\":{\"q\":\"x\"}}}"
                .to_vec(),
        }
    );
    // the merge consumed the cache entry
    assert!(reg.take_query(&b"t1".to_vec()).is_none());
}

#[test]
fn enqueued_event_without_cache_goes_out_unmodified() {
    let mut reg: Registry<u64> = Registry::new();
    reg.register_session(b"r1".to_vec(), 1);
    reg.register_trace(b"t1".to_vec(), b"r1".to_vec());
    let event = Event {
        user_id: b"u1".to_vec(),
        trace_id: b"t1".to_vec(),
        payload: EventPayload::QueryEnqueued { query: None },
    };
    let expected = event_to_json(&event);
    assert_eq!(
        expected,
        b"{\"user_id\":\"u1\",\"trace_id\":\"t1\",\"payload\":{\"type\":\"QueryEnqueued\"}}".to_vec()
    );
    let action = handle_bus_event(&mut reg, &b"r1".to_vec(), &event);
    assert_eq!(action, BusAction::Deliver { text: expected });
}

#[test]
fn supervisor_terminates_exactly_after_the_window() {
    let mut reg: Registry<u64> = Registry::new();
    reg.register_session(b"r1".to_vec(), 1);
    // silence of exactly the window is still tolerated
    assert_eq!(supervisor_tick(&mut reg, &b"r1".to_vec(), 1000, 31000), SupervisorAction::Ping);
    assert_eq!(reg.lookup_session(&b"r1".to_vec()), Some(&1));
    // one millisecond beyond it is not
    assert_eq!(
        supervisor_tick(&mut reg, &b"r1".to_vec(), 1000, 31001),
        SupervisorAction::Terminate
    );
    assert!(reg.lookup_session(&b"r1".to_vec()).is_none());
}

#[test]
fn supervisor_spares_a_client_that_answered() {
    let mut reg: Registry<u64> = Registry::new();
    reg.register_session(b"r1".to_vec(), 1);
    // a pong at 40000 moves the clock; a tick at 50000 sees 10s of silence
    assert_eq!(supervisor_tick(&mut reg, &b"r1".to_vec(), 40000, 50000), SupervisorAction::Ping);
    assert_eq!(reg.lookup_session(&b"r1".to_vec()), Some(&1));
}

#[test]
fn tunnel_translation_round_trips_each_supported_kind() {
    let frames = vec![
        ClientFrame::Text { payload: b"hello".to_vec() },
        ClientFrame::Binary { payload: vec![0u8, 1, 2, 255] },
        ClientFrame::Ping { payload: b"p".to_vec() },
        ClientFrame::Pong { payload: b"q".to_vec() },
        ClientFrame::Close { reason: None },
    ];
    for f in frames {
        let expected = match &f {
            ClientFrame::Text { payload } => ClientFrame::Text { payload: payload.clone() },
            ClientFrame::Binary { payload } => ClientFrame::Binary { payload: payload.clone() },
            ClientFrame::Ping { payload } => ClientFrame::Ping { payload: payload.clone() },
            ClientFrame::Pong { payload } => ClientFrame::Pong { payload: payload.clone() },
            ClientFrame::Close { .. } => ClientFrame::Close { reason: None },
            _ => unreachable!(),
        };
        assert_eq!(to_client(to_upstream(f)), expected);
    }
    let upstream = vec![
        UpstreamFrame::Text { payload: b"hi".to_vec() },
        UpstreamFrame::Binary { payload: vec![9u8] },
        UpstreamFrame::Ping { payload: Vec::new() },
        UpstreamFrame::Pong { payload: Vec::new() },
        UpstreamFrame::Close { reason: None },
    ];
    for g in upstream {
        let expected = match &g {
            UpstreamFrame::Text { payload } => UpstreamFrame::Text { payload: payload.clone() },
            UpstreamFrame::Binary { payload } => UpstreamFrame::Binary { payload: payload.clone() },
            UpstreamFrame::Ping { payload } => UpstreamFrame::Ping { payload: payload.clone() },
            UpstreamFrame::Pong { payload } => UpstreamFrame::Pong { payload: payload.clone() },
            UpstreamFrame::Close { .. } => UpstreamFrame::Close { reason: None },
            _ => unreachable!(),
        };
        assert_eq!(to_upstream(to_client(g)), expected);
    }
}

#[test]
fn close_with_reason_tears_the_tunnel_down_with_a_bare_close() {
    let mut t = Tunnel::new();
    assert_eq!(t.step(TunnelEvent::Connected), TunnelAction::Idle);
    let a = t.step(TunnelEvent::FromClient {
        frame: ClientFrame::Close { reason: Some(b"going away".to_vec()) },
    });
    assert_eq!(a, TunnelAction::SendUpstream { frame: UpstreamFrame::Close { reason: None } });
    assert_eq!(t.current_state(), TunnelState::Closed);
    // nothing flows once closed
    assert_eq!(
        t.step(TunnelEvent::FromUpstream { frame: UpstreamFrame::Text { payload: b"x".to_vec() } }),
        TunnelAction::Idle
    );
}

#[test]
fn tunnel_forwards_supported_frames_both_ways() {
    let mut t = Tunnel::new();
    t.step(TunnelEvent::Connected);
    assert_eq!(
        t.step(TunnelEvent::FromClient { frame: ClientFrame::Text { payload: b"ask".to_vec() } }),
        TunnelAction::SendUpstream { frame: UpstreamFrame::Text { payload: b"ask".to_vec() } }
    );
    assert_eq!(
        t.step(TunnelEvent::FromUpstream {
            frame: UpstreamFrame::Binary { payload: vec![1u8, 2] },
        }),
        TunnelAction::SendClient { frame: ClientFrame::Binary { payload: vec![1u8, 2] } }
    );
    assert_eq!(t.current_state(), TunnelState::Active);
}

#[test]
fn tunnel_setup_failure_is_reported_not_fatal() {
    let mut t = Tunnel::new();
    assert_eq!(t.step(TunnelEvent::ConnectFailed), TunnelAction::ReportSetupFailure);
    assert_eq!(t.current_state(), TunnelState::Closed);
}

#[test]
fn tunnel_write_failure_closes_both_ways() {
    let mut t = Tunnel::new();
    t.step(TunnelEvent::Connected);
    assert_eq!(t.step(TunnelEvent::UpstreamWriteFailed), TunnelAction::Idle);
    assert_eq!(t.current_state(), TunnelState::Closed);
}

#[test]
fn end_to_end_search_scenario() {
    let mut reg: Registry<u64> = Registry::new();
    // client connects with request_id "r1"
    reg.register_session(b"r1".to_vec(), 1);
    // client declares a search for trace "t1"
    let step = handle_client_frame(&mut reg, &b"r1".to_vec(), ClientFrame::Text {
        payload: b"{\"trace_id\":\"t1\",\"type\":\"search\",\"query\":{\"q\":\"x\"}}".to_vec(),
    });
    assert_eq!(step, ClientStep { action: ClientAction::Idle, terminate: false });
    assert_eq!(reg.resolve_trace(&b"t1".to_vec()), Some(&b"r1".to_vec()));
    // the enqueued event arrives on the bus
    let event = Event {
        user_id: b"u1".to_vec(),
        trace_id: b"t1".to_vec(),
        payload: EventPayload::QueryEnqueued { query: None },
    };
    let action = handle_bus_event(&mut reg, &b"r1".to_vec(), &event);
    assert_eq!(
        action,
        BusAction::Deliver {
            text: b"{\"user_id\":\"u1\",\"trace_id\":\"t1\",\"payload\":{\"type\":\"QueryEnqueued\",\"query\":{\"q\":\"x\"}}}"
                .to_vec(),
        }
    );
    // the send succeeded: the loop retires the trace, stops, and the
    // connection closes
    reg.retire_trace(&b"t1".to_vec());
    assert!(reg.resolve_trace(&b"t1".to_vec()).is_none());
    reg.unregister_session(&b"r1".to_vec());
    assert!(reg.lookup_session(&b"r1".to_vec()).is_none());
}
