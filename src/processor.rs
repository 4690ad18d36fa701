use vstd::prelude::*;
use crate::error::Error;
use crate::event::{kind_of, DispatchEvent, Event, GatewayEvent};
use crate::listener::{targets_of, Listeners};
use crate::payload::{IdentifyInfo, IdentifyProperties, Payload, ResumeInfo};
use crate::session::{fresh_session, HeartbeatError, Session};
use crate::stage::Stage;

verus! {

/// The large-guild threshold sent in every Identify.
pub const LARGE_THRESHOLD: u64 = 250;

/// The protocol version sent in every Identify.
pub const PROTOCOL_VERSION: u64 = 6;

/// What a shard is configured with.
#[derive(Debug)]
pub struct Config {
    pub token: String,
    pub shard_index: u64,
    pub shard_count: u64,
}

impl Config {
    /// The shard index and the shard count.
    pub fn shard(&self) -> (r: (u64, u64))
        ensures
            r == (self.shard_index, self.shard_count),
    {
        (self.shard_index, self.shard_count)
    }
}

/// One inbound frame, as the transport delivered it. A text or binary
/// frame arrives decoded; the end of the inbound stream counts as a close.
#[derive(Debug)]
pub enum Frame {
    Payload(GatewayEvent),
    Close,
    Ping,
    Pong,
}

/// Work that the caller carries out, in order, after a step.
#[derive(Debug)]
pub enum Action {
    /// Encode and send a payload, then report the outcome to `send`.
    Send(Payload),
    /// Start the periodic heartbeater of the current session with this interval.
    StartHeartbeater(u64),
    /// Drop the connection and its session and build new ones: take a slot
    /// of the admission queue, connect, and report each attempt to `reconnect`.
    Reconnect,
    /// Hand the event to the listeners with these identifiers, then remove
    /// those whose channel turned out closed.
    Deliver(Vec<u64>, Event),
}

/// The Identify that a shard sends.
pub open spec fn identify_payload(config: Config, properties: IdentifyProperties) -> IdentifyInfo {
    IdentifyInfo {
        compression: false,
        guild_subscriptions: true,
        large_threshold: LARGE_THRESHOLD,
        properties,
        shard: (config.shard_index, config.shard_count),
        token: config.token,
        v: PROTOCOL_VERSION,
    }
}

/// A resume: the stage becomes resuming, then a Resume is sent if a session
/// identifier is known, else a full reconnect is owed.
pub open spec fn resume_step(s: Session, config: Config) -> (Session, Seq<Action>) {
    let next = Session { stage: Stage::Resuming, ..s };
    match s.id {
        Some(id) => (
            next,
            seq![Action::Send(Payload::Resume(ResumeInfo { seq: s.seq, session_id: id, token: config.token }))],
        ),
        None => (next, seq![Action::Reconnect]),
    }
}

/// A heartbeat due now: sent, arming the wait for its acknowledgement,
/// unless the previous one is unacknowledged, in which case the connection
/// is presumed dead and a reconnect is owed.
pub open spec fn heartbeat_step(s: Session) -> (Session, Seq<Action>) {
    if s.awaiting_ack {
        (s, seq![Action::Reconnect])
    } else {
        (Session { awaiting_ack: true, ..s }, seq![Action::Send(Payload::Heartbeat(s.seq))])
    }
}

/// The protocol state machine: the next session and the actions owed, for
/// one inbound control event.
pub open spec fn process_step(
    s: Session,
    config: Config,
    properties: IdentifyProperties,
    e: GatewayEvent,
) -> (Session, Seq<Action>) {
    match e {
        GatewayEvent::Dispatch(seq, d) => {
            let next = Session { seq, ..s };
            match d {
                DispatchEvent::Ready { session_id } => (
                    Session { stage: Stage::Connected, id: Some(session_id), ..next },
                    seq![],
                ),
                DispatchEvent::Resumed => (
                    Session { stage: Stage::Connected, awaiting_ack: false, ..next },
                    seq![],
                ),
                DispatchEvent::Other { .. } => (next, seq![]),
            }
        },
        GatewayEvent::Heartbeat(seq) => {
            if seq > s.seq + 1 {
                resume_step(s, config)
            } else {
                heartbeat_step(s)
            }
        },
        GatewayEvent::Hello(interval) => {
            let identify = Action::Send(Payload::Identify(identify_payload(config, properties)));
            let next = Session { stage: Stage::Identifying, ..s };
            if interval > 0 {
                (
                    Session { heartbeat_interval: interval, ..next },
                    seq![Action::StartHeartbeater(interval), identify],
                )
            } else {
                (next, seq![identify])
            }
        },
        GatewayEvent::HeartbeatAck => (Session { awaiting_ack: false, ..s }, seq![]),
        GatewayEvent::InvalidateSession(resumable) => {
            if resumable {
                resume_step(s, config)
            } else {
                (s, seq![Action::Reconnect])
            }
        },
        GatewayEvent::Reconnect => (s, seq![Action::Reconnect]),
    }
}

/// The session after processing `events` in order, starting from `s`.
pub open spec fn process_all(
    s: Session,
    config: Config,
    properties: IdentifyProperties,
    events: Seq<GatewayEvent>,
) -> Session
    decreases events.len(),
{
    if events.len() == 0 {
        s
    } else {
        process_step(
            process_all(s, config, properties, events.drop_last()),
            config,
            properties,
            events.last(),
        ).0
    }
}

/// After any non-empty run of dispatches, the stored sequence number is that
/// of the last dispatch; a heartbeat that follows never changes it.
pub proof fn lemma_sequence_follows_dispatches(
    s: Session,
    config: Config,
    properties: IdentifyProperties,
    events: Seq<GatewayEvent>,
    heartbeat_seq: u64,
)
    requires
        events.len() > 0,
        forall|i: int| 0 <= i < events.len() ==> events[i] is Dispatch,
    ensures
        process_all(s, config, properties, events).seq == events.last()->Dispatch_0,
        process_step(
            process_all(s, config, properties, events),
            config,
            properties,
            GatewayEvent::Heartbeat(heartbeat_seq),
        ).0.seq == events.last()->Dispatch_0,
{
    let before = process_all(s, config, properties, events.drop_last());
    assert(events.last() is Dispatch);
}

/// A resume sends a Resume exactly when a session identifier is known, and
/// otherwise calls for a full reconnect and sends nothing.
pub proof fn lemma_resume_eligibility(s: Session, config: Config)
    ensures
        resume_step(s, config).1.len() == 1,
        (resume_step(s, config).1[0] matches Action::Send(Payload::Resume(_))) == (s.id is Some),
        s.id is Some ==> resume_step(s, config).1[0] == Action::Send(
            Payload::Resume(ResumeInfo { seq: s.seq, session_id: s.id->Some_0, token: config.token }),
        ),
        s.id is None ==> resume_step(s, config).1 == seq![Action::Reconnect],
        resume_step(s, config).0.stage == Stage::Resuming,
{
}

/// The stage table of the state machine.
pub proof fn lemma_stage_table(
    s: Session,
    config: Config,
    properties: IdentifyProperties,
    e: GatewayEvent,
)
    ensures
        e is Hello ==> process_step(s, config, properties, e).0.stage == Stage::Identifying,
        forall|i: int|
            0 <= i < process_step(s, config, properties, e).1.len() && (#[trigger] process_step(
                s,
                config,
                properties,
                e,
            ).1[i] matches Action::Send(Payload::Identify(_))) ==> process_step(
                s,
                config,
                properties,
                e,
            ).0.stage == Stage::Identifying,
        e matches GatewayEvent::Dispatch(_, DispatchEvent::Ready { session_id }) ==> {
            &&& process_step(s, config, properties, e).0.stage == Stage::Connected
            &&& process_step(s, config, properties, e).0.id == Some(session_id)
        },
        e matches GatewayEvent::Dispatch(_, DispatchEvent::Resumed) ==> {
            &&& process_step(s, config, properties, e).0.stage == Stage::Connected
            &&& process_step(s, config, properties, e).0.id == s.id
        },
        e == GatewayEvent::InvalidateSession(true) ==> {
            &&& process_step(s, config, properties, e).0.stage == Stage::Resuming
            &&& s.id is None ==> process_step(s, config, properties, e).1 == seq![Action::Reconnect]
        },
        e == GatewayEvent::InvalidateSession(false) || e == GatewayEvent::Reconnect ==> {
            &&& process_step(s, config, properties, e).1 == seq![Action::Reconnect]
            &&& process_step(s, config, properties, e).0 == s
        },
{
}

/// An acknowledgement always clears the wait for one; a heartbeat request
/// that comes while the previous heartbeat is unacknowledged sends no
/// heartbeat and calls for a reconnect instead.
pub proof fn lemma_heartbeat_liveness(
    s: Session,
    config: Config,
    properties: IdentifyProperties,
    heartbeat_seq: u64,
)
    ensures
        !process_step(s, config, properties, GatewayEvent::HeartbeatAck).0.awaiting_ack,
        s.awaiting_ack && heartbeat_seq <= s.seq + 1 ==> process_step(
            s,
            config,
            properties,
            GatewayEvent::Heartbeat(heartbeat_seq),
        ).1 == seq![Action::Reconnect],
        !s.awaiting_ack && heartbeat_seq <= s.seq + 1 ==> process_step(
            s,
            config,
            properties,
            GatewayEvent::Heartbeat(heartbeat_seq),
        ).0.awaiting_ack,
{
}

/// Drives one shard: holds its configuration, the current connection's
/// session and the listener registry, and decides what each inbound frame
/// calls for.
#[derive(Debug)]
pub struct ShardProcessor {
    pub config: Config,
    pub listeners: Listeners,
    pub properties: IdentifyProperties,
    pub session: Session,
}

impl ShardProcessor {
    /// The listener registry is well formed.
    pub open spec fn wf(&self) -> bool {
        self.listeners.wf()
    }

    /// A processor for a connection that was just opened: a fresh session
    /// and an empty listener registry. `os` names the operating system.
    pub fn new(config: Config, os: String) -> (r: ShardProcessor)
        ensures
            r.wf(),
            r.config == config,
            r.properties.browser@ == "dawn.rs"@,
            r.properties.device@ == "dawn.rs"@,
            r.properties.os == os,
            r.properties.referrer@.len() == 0,
            r.properties.referring_domain@.len() == 0,
            fresh_session(r.session),
            r.listeners.listeners@.len() == 0,
    {
        let properties = IdentifyProperties::new(
            String::from_str("dawn.rs"),
            String::from_str("dawn.rs"),
            os,
            String::new(),
            String::new(),
        );
        ShardProcessor { config, listeners: Listeners::new(), properties, session: Session::new() }
    }

    /// Sets the stage to identifying and returns the Identify to send.
    pub fn identify(&mut self) -> (r: Payload)
        ensures
            final(self).session == (Session { stage: Stage::Identifying, ..old(self).session }),
            final(self).config == old(self).config,
            final(self).properties == old(self).properties,
            final(self).listeners == old(self).listeners,
            r == Payload::Identify(identify_payload(old(self).config, old(self).properties)),
    {
        self.session.set_stage(Stage::Identifying);
        Payload::Identify(
            IdentifyInfo {
                compression: false,
                guild_subscriptions: true,
                large_threshold: LARGE_THRESHOLD,
                properties: self.properties.duplicate(),
                shard: self.config.shard(),
                token: self.config.token.clone(),
                v: PROTOCOL_VERSION,
            },
        )
    }

    /// Sets the stage to resuming and returns what a resume calls for: a
    /// Resume carrying the stored sequence, session identifier and token,
    /// or, with no identifier known, a full reconnect.
    pub fn resume(&mut self) -> (r: Vec<Action>)
        ensures
            (final(self).session, r@) == resume_step(old(self).session, old(self).config),
            final(self).config == old(self).config,
            final(self).properties == old(self).properties,
            final(self).listeners == old(self).listeners,
    {
        self.session.set_stage(Stage::Resuming);
        match self.session.id() {
            Some(session_id) => {
                let payload = ResumeInfo {
                    seq: self.session.seq(),
                    session_id,
                    token: self.config.token.clone(),
                };
                vec![Action::Send(Payload::Resume(payload))]
            },
            None => vec![Action::Reconnect],
        }
    }

    /// What a heartbeat due now calls for: from the periodic heartbeater, or
    /// asked for by the server.
    pub fn heartbeat(&mut self) -> (r: Vec<Action>)
        ensures
            (final(self).session, r@) == heartbeat_step(old(self).session),
            final(self).config == old(self).config,
            final(self).properties == old(self).properties,
            final(self).listeners == old(self).listeners,
    {
        match self.session.heartbeat() {
            Ok(last) => vec![Action::Send(Payload::Heartbeat(last))],
            Err(HeartbeatError::AwaitingAck) => vec![Action::Reconnect],
        }
    }

    /// Advances the protocol state machine by one inbound control event and
    /// returns the actions it calls for.
    pub fn process(&mut self, event: &GatewayEvent) -> (r: Vec<Action>)
        ensures
            (final(self).session, r@) == process_step(
                old(self).session,
                old(self).config,
                old(self).properties,
                *event,
            ),
            final(self).config == old(self).config,
            final(self).properties == old(self).properties,
            final(self).listeners == old(self).listeners,
    {
        match event {
            GatewayEvent::Dispatch(seq, dispatch) => {
                self.session.set_seq(*seq);
                match dispatch {
                    DispatchEvent::Ready { session_id } => {
                        self.session.set_stage(Stage::Connected);
                        self.session.set_id(session_id.clone());
                    },
                    DispatchEvent::Resumed => {
                        self.session.set_stage(Stage::Connected);
                        self.session.receive_ack();
                    },
                    DispatchEvent::Other { .. } => {},
                }
                Vec::new()
            },
            GatewayEvent::Heartbeat(seq) => {
                if *seq > 0 && *seq - 1 > self.session.seq() {
                    self.resume()
                } else {
                    self.heartbeat()
                }
            },
            GatewayEvent::Hello(interval) => {
                self.session.set_stage(Stage::Identifying);
                let mut actions: Vec<Action> = Vec::new();
                if *interval > 0 {
                    self.session.set_heartbeat_interval(*interval);
                    actions.push(Action::StartHeartbeater(*interval));
                }
                let identify = self.identify();
                actions.push(Action::Send(identify));
                actions
            },
            GatewayEvent::HeartbeatAck => {
                self.session.receive_ack();
                Vec::new()
            },
            GatewayEvent::InvalidateSession(resumable) => {
                if *resumable {
                    self.resume()
                } else {
                    vec![Action::Reconnect]
                }
            },
            GatewayEvent::Reconnect => vec![Action::Reconnect],
        }
    }
    /// Decides what the outcome of sending a payload calls for. An encoding
    /// failure goes back to the caller unchanged; a closed outbound path
    /// means the connection is dead: a reconnect is owed and the send
    /// counts as done.
    pub fn send(&self, outcome: Result<(), Error>) -> (r: Result<Vec<Action>, Error>)
        ensures
            outcome is Ok ==> r is Ok && r.unwrap()@.len() == 0,
            outcome == Err::<(), Error>(Error::SendingMessage) ==> r is Ok && r.unwrap()@
                == seq![Action::Reconnect],
            outcome == Err::<(), Error>(Error::PayloadSerialization) ==> r == Err::<
                Vec<Action>,
                Error,
            >(Error::PayloadSerialization),
    {
        match outcome {
            Ok(()) => Ok(Vec::new()),
            Err(Error::SendingMessage) => Ok(vec![Action::Reconnect]),
            Err(Error::PayloadSerialization) => Err(Error::PayloadSerialization),
        }
    }

    /// Takes the outcome of one attempt to open a new connection. On success
    /// the session is replaced by a fresh one, while configuration and
    /// listeners stay; on failure nothing changes and another attempt is
    /// owed. Returns whether to try again.
    pub fn reconnect(&mut self, connected: bool) -> (retry: bool)
        ensures
            retry == !connected,
            connected ==> fresh_session(final(self).session),
            !connected ==> final(self).session == old(self).session,
            final(self).config == old(self).config,
            final(self).properties == old(self).properties,
            final(self).listeners == old(self).listeners,
    {
        if connected {
            self.session = Session::new();
            false
        } else {
            true
        }
    }

    /// Handles one inbound frame. A decoded event runs through the state
    /// machine, and its domain event is then handed to every listener whose
    /// filter holds its classifier; a close calls for a reconnect; pings and
    /// pongs are ignored.
    pub fn handle_frame(&mut self, frame: Frame) -> (r: Vec<Action>)
        ensures
            final(self).config == old(self).config,
            final(self).properties == old(self).properties,
            final(self).listeners == old(self).listeners,
            match frame {
                Frame::Payload(e) => {
                    let (next, actions) = process_step(
                        old(self).session,
                        old(self).config,
                        old(self).properties,
                        e,
                    );
                    &&& final(self).session == next
                    &&& r@.len() == actions.len() + 1
                    &&& r@.drop_last() == actions
                    &&& match r@.last() {
                        Action::Deliver(ids, event) => ids@ == targets_of(
                            old(self).listeners.listeners@,
                            kind_of(e),
                        ) && event == (Event { kind: kind_of(e), gateway: e }),
                        _ => false,
                    }
                },
                Frame::Close => final(self).session == old(self).session && r@ == seq![
                    Action::Reconnect,
                ],
                _ => final(self).session == old(self).session && r@.len() == 0,
            },
    {
        match frame {
            Frame::Payload(e) => {
                let mut actions = self.process(&e);
                let ghost before = actions@;
                let ids = self.listeners.targets(e.event_type());
                actions.push(Action::Deliver(ids, Event::from_gateway(e)));
                assert(actions@.drop_last() =~= before);
                actions
            },
            Frame::Close => vec![Action::Reconnect],
            Frame::Ping | Frame::Pong => Vec::new(),
        }
    }
}

} // verus!
