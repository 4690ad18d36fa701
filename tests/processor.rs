use dawn_gateway::{
    Action, Config, DispatchEvent, Error, EventType, Frame, GatewayEvent, HeartbeatError, Payload,
    Session, ShardProcessor, Stage,
};

fn processor() -> ShardProcessor {
    let config = Config {
        token: "token-xyz".to_string(),
        shard_index: 1,
        shard_count: 4,
    };
    ShardProcessor::new(config, "linux".to_string())
}

fn ready(seq: u64, id: &str) -> GatewayEvent {
    GatewayEvent::Dispatch(
        seq,
        DispatchEvent::Ready {
            session_id: id.to_string(),
        },
    )
}

#[test]
fn new_processor_is_fresh() {
    let p = processor();
    assert_eq!(p.session.stage(), Stage::Identifying);
    assert_eq!(p.session.seq(), 0);
    assert_eq!(p.session.id(), None);
    assert!(!p.session.awaiting_ack);
    assert_eq!(p.properties.browser, "dawn.rs");
    assert_eq!(p.properties.device, "dawn.rs");
    assert_eq!(p.properties.os, "linux");
    assert_eq!(p.properties.referrer, "");
    assert_eq!(p.config.shard(), (1, 4));
    assert!(p.listeners.listeners.is_empty());
}

#[test]
fn hello_identifies_with_configured_shard_and_token() {
    let mut p = processor();
    p.session.set_stage(Stage::Connected);
    let actions = p.process(&GatewayEvent::Hello(41250));
    assert_eq!(p.session.stage(), Stage::Identifying);
    assert_eq!(p.session.heartbeat_interval, 41250);
    assert_eq!(actions.len(), 2);
    assert!(matches!(actions[0], Action::StartHeartbeater(41250)));
    match &actions[1] {
        Action::Send(Payload::Identify(info)) => {
            assert_eq!(info.shard, (1, 4));
            assert_eq!(info.token, "token-xyz");
            assert!(!info.compression);
            assert!(info.guild_subscriptions);
            assert_eq!(info.large_threshold, 250);
            assert_eq!(info.v, 6);
            assert_eq!(info.properties.os, "linux");
        }
        other => panic!("expected an identify, got {:?}", other),
    }
}

#[test]
fn hello_without_interval_starts_no_heartbeater() {
    let mut p = processor();
    let actions = p.process(&GatewayEvent::Hello(0));
    assert_eq!(actions.len(), 1);
    assert!(matches!(actions[0], Action::Send(Payload::Identify(_))));
    assert_eq!(p.session.heartbeat_interval, 0);
}

#[test]
fn identify_sets_stage() {
    let mut p = processor();
    p.session.set_stage(Stage::Resuming);
    let payload = p.identify();
    assert_eq!(p.session.stage(), Stage::Identifying);
    assert!(matches!(payload, Payload::Identify(_)));
}

#[test]
fn ready_connects_and_records_identifier() {
    let mut p = processor();
    let actions = p.process(&ready(5, "abc"));
    assert!(actions.is_empty());
    assert_eq!(p.session.stage(), Stage::Connected);
    assert_eq!(p.session.id(), Some("abc".to_string()));
    assert_eq!(p.session.seq(), 5);
}

#[test]
fn resumed_connects_keeps_identifier_and_clears_ack() {
    let mut p = processor();
    p.process(&ready(1, "abc"));
    p.session.set_stage(Stage::Resuming);
    p.session.awaiting_ack = true;
    let actions = p.process(&GatewayEvent::Dispatch(9, DispatchEvent::Resumed));
    assert!(actions.is_empty());
    assert_eq!(p.session.stage(), Stage::Connected);
    assert_eq!(p.session.id(), Some("abc".to_string()));
    assert!(!p.session.awaiting_ack);
    assert_eq!(p.session.seq(), 9);
}

#[test]
fn sequence_follows_last_dispatch() {
    let mut p = processor();
    for seq in [3u64, 8, 2] {
        p.process(&GatewayEvent::Dispatch(
            seq,
            DispatchEvent::Other {
                name: "MESSAGE_CREATE".to_string(),
            },
        ));
    }
    assert_eq!(p.session.seq(), 2);
    p.process(&GatewayEvent::Heartbeat(1));
    assert_eq!(p.session.seq(), 2);
    p.process(&GatewayEvent::Heartbeat(3));
    assert_eq!(p.session.seq(), 2);
}

#[test]
fn heartbeat_gap_resumes() {
    let mut p = processor();
    p.process(&ready(5, "abc"));
    let actions = p.process(&GatewayEvent::Heartbeat(7));
    assert_eq!(p.session.stage(), Stage::Resuming);
    assert_eq!(actions.len(), 1);
    match &actions[0] {
        Action::Send(Payload::Resume(r)) => {
            assert_eq!(r.seq, 5);
            assert_eq!(r.session_id, "abc");
            assert_eq!(r.token, "token-xyz");
        }
        other => panic!("expected a resume, got {:?}", other),
    }
}

#[test]
fn heartbeat_gap_without_identifier_reconnects() {
    let mut p = processor();
    p.session.set_seq(5);
    let actions = p.process(&GatewayEvent::Heartbeat(7));
    assert_eq!(p.session.stage(), Stage::Resuming);
    assert_eq!(actions.len(), 1);
    assert!(matches!(actions[0], Action::Reconnect));
}

#[test]
fn heartbeat_within_window_sends_heartbeat() {
    let mut p = processor();
    p.session.set_seq(5);
    let actions = p.process(&GatewayEvent::Heartbeat(6));
    assert_eq!(actions.len(), 1);
    assert!(matches!(actions[0], Action::Send(Payload::Heartbeat(5))));
    assert!(p.session.awaiting_ack);
    let again = p.process(&GatewayEvent::Heartbeat(6));
    assert_eq!(again.len(), 1);
    assert!(matches!(again[0], Action::Reconnect));
    p.process(&GatewayEvent::HeartbeatAck);
    assert!(!p.session.awaiting_ack);
}

#[test]
fn session_heartbeat_fails_while_awaiting_ack() {
    let mut s = Session::new();
    s.set_seq(11);
    assert_eq!(s.heartbeat(), Ok(11));
    assert_eq!(s.heartbeat(), Err(HeartbeatError::AwaitingAck));
    s.receive_ack();
    assert_eq!(s.heartbeat(), Ok(11));
}

#[test]
fn invalidate_resumable_resumes() {
    let mut p = processor();
    p.process(&ready(4, "sess"));
    let actions = p.process(&GatewayEvent::InvalidateSession(true));
    assert_eq!(p.session.stage(), Stage::Resuming);
    assert!(matches!(actions[0], Action::Send(Payload::Resume(_))));
}

#[test]
fn resume_without_identifier_falls_back_to_reconnect() {
    let mut p = processor();
    let actions = p.resume();
    assert_eq!(actions.len(), 1);
    assert!(matches!(actions[0], Action::Reconnect));
}

#[test]
fn invalidate_and_reconnect_force_reconnect() {
    let mut p = processor();
    p.process(&ready(4, "sess"));
    for e in [GatewayEvent::InvalidateSession(false), GatewayEvent::Reconnect] {
        let actions = p.process(&e);
        assert_eq!(actions.len(), 1);
        assert!(matches!(actions[0], Action::Reconnect));
        assert_eq!(p.session.stage(), Stage::Connected);
    }
}

#[test]
fn send_to_dead_path_reconnects_and_succeeds() {
    let p = processor();
    match p.send(Err(Error::SendingMessage)) {
        Ok(actions) => {
            assert_eq!(actions.len(), 1);
            assert!(matches!(actions[0], Action::Reconnect));
        }
        Err(e) => panic!("expected success, got {:?}", e),
    }
}

#[test]
fn send_serialization_failure_is_surfaced() {
    let p = processor();
    assert!(matches!(
        p.send(Err(Error::PayloadSerialization)),
        Err(Error::PayloadSerialization)
    ));
    assert!(matches!(p.send(Ok(())), Ok(ref a) if a.is_empty()));
}

#[test]
fn reconnect_builds_fresh_session_and_keeps_listeners() {
    let mut p = processor();
    let id = p.listeners.subscribe(vec![EventType::Dispatch]);
    p.process(&ready(5, "abc"));
    assert!(p.reconnect(false));
    assert_eq!(p.session.id(), Some("abc".to_string()));
    assert!(!p.reconnect(true));
    assert_eq!(p.session.id(), None);
    assert_eq!(p.session.seq(), 0);
    assert_eq!(p.session.stage(), Stage::Identifying);
    assert_eq!(p.listeners.listeners.len(), 1);
    assert_eq!(Some(p.listeners.listeners[0].id), id);
}

#[test]
fn frames_close_ping_pong() {
    let mut p = processor();
    let close = p.handle_frame(Frame::Close);
    assert_eq!(close.len(), 1);
    assert!(matches!(close[0], Action::Reconnect));
    assert!(p.handle_frame(Frame::Ping).is_empty());
    assert!(p.handle_frame(Frame::Pong).is_empty());
}

#[test]
fn frame_payload_processes_then_delivers() {
    let mut p = processor();
    let a = p.listeners.subscribe(vec![EventType::Hello]).unwrap();
    let _b = p.listeners.subscribe(vec![EventType::Dispatch]).unwrap();
    let actions = p.handle_frame(Frame::Payload(GatewayEvent::Hello(100)));
    assert_eq!(actions.len(), 3);
    assert!(matches!(actions[0], Action::StartHeartbeater(100)));
    assert!(matches!(actions[1], Action::Send(Payload::Identify(_))));
    match &actions[2] {
        Action::Deliver(ids, event) => {
            assert_eq!(ids, &vec![a]);
            assert_eq!(event.event_type(), EventType::Hello);
            assert_eq!(event.gateway, GatewayEvent::Hello(100));
        }
        other => panic!("expected a delivery, got {:?}", other),
    }
}

fn envelope(op: u8) -> dawn_gateway::Envelope {
    dawn_gateway::Envelope {
        op,
        s: None,
        t: None,
        d_number: None,
        d_bool: None,
        session_id: None,
        heartbeat_interval: None,
    }
}

#[test]
fn envelope_decodes_each_op() {
    let mut ready = envelope(0);
    ready.s = Some(5);
    ready.t = Some("READY".to_string());
    ready.session_id = Some("abc".to_string());
    assert_eq!(ready.into_event(), Some(ready_event()));

    let mut resumed = envelope(0);
    resumed.s = Some(6);
    resumed.t = Some("RESUMED".to_string());
    assert_eq!(
        resumed.into_event(),
        Some(GatewayEvent::Dispatch(6, DispatchEvent::Resumed))
    );

    let mut other = envelope(0);
    other.s = Some(7);
    other.t = Some("GUILD_CREATE".to_string());
    assert_eq!(
        other.into_event(),
        Some(GatewayEvent::Dispatch(
            7,
            DispatchEvent::Other {
                name: "GUILD_CREATE".to_string()
            }
        ))
    );

    let mut heartbeat = envelope(1);
    heartbeat.d_number = Some(9);
    assert_eq!(heartbeat.into_event(), Some(GatewayEvent::Heartbeat(9)));
    assert_eq!(envelope(7).into_event(), Some(GatewayEvent::Reconnect));
    let mut invalid = envelope(9);
    invalid.d_bool = Some(true);
    assert_eq!(invalid.into_event(), Some(GatewayEvent::InvalidateSession(true)));
    let mut hello = envelope(10);
    hello.heartbeat_interval = Some(41250);
    assert_eq!(hello.into_event(), Some(GatewayEvent::Hello(41250)));
    assert_eq!(envelope(11).into_event(), Some(GatewayEvent::HeartbeatAck));
}

fn ready_event() -> GatewayEvent {
    ready(5, "abc")
}

#[test]
fn envelope_rejects_unknown_op_and_missing_fields() {
    assert_eq!(envelope(3).into_event(), None);
    assert_eq!(envelope(10).into_event(), None);
    assert_eq!(envelope(9).into_event(), None);
    let mut ready = envelope(0);
    ready.s = Some(1);
    ready.t = Some("READY".to_string());
    assert_eq!(ready.into_event(), None);
    let mut unnumbered = envelope(0);
    unnumbered.t = Some("RESUMED".to_string());
    assert_eq!(unnumbered.into_event(), None);
}

#[test]
fn payload_ops() {
    let mut p = processor();
    assert_eq!(p.identify().op(), 2);
    p.process(&ready(3, "x"));
    match p.resume().pop() {
        Some(Action::Send(payload)) => assert_eq!(payload.op(), 6),
        other => panic!("expected a resume, got {:?}", other),
    }
    assert_eq!(Payload::Heartbeat(3).op(), 1);
}
