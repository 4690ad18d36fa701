use vstd::prelude::*;

verus! {

/// The domain payload carried by a Dispatch.
#[derive(Clone, Debug, PartialEq, Eq)]
pub enum DispatchEvent {
    /// The handshake completed; carries the resumable session identifier.
    Ready { session_id: String },
    /// A resume completed.
    Resumed,
    /// Any other dispatch, by its event name.
    Other { name: String },
}

/// An inbound control event, decoded from one frame.
#[derive(Clone, Debug, PartialEq, Eq)]
pub enum GatewayEvent {
    /// A dispatch with its sequence number.
    Dispatch(u64, DispatchEvent),
    /// The server asks for a heartbeat; carries its sequence number.
    Heartbeat(u64),
    /// The first frame of a connection; carries the heartbeat interval.
    Hello(u64),
    /// The server acknowledged our heartbeat.
    HeartbeatAck,
    /// The session was invalidated; `true` when it may be resumed.
    InvalidateSession(bool),
    /// The server asks us to reconnect.
    Reconnect,
}

/// The classifier of an event, used by listeners to filter what they receive.
#[derive(Clone, Copy, Debug, PartialEq, Eq, Hash, Structural)]
pub enum EventType {
    Dispatch,
    Heartbeat,
    Hello,
    HeartbeatAck,
    InvalidateSession,
    Reconnect,
}

/// The classifier that an inbound control event carries.
pub open spec fn kind_of(e: GatewayEvent) -> EventType {
    match e {
        GatewayEvent::Dispatch(..) => EventType::Dispatch,
        GatewayEvent::Heartbeat(..) => EventType::Heartbeat,
        GatewayEvent::Hello(..) => EventType::Hello,
        GatewayEvent::HeartbeatAck => EventType::HeartbeatAck,
        GatewayEvent::InvalidateSession(..) => EventType::InvalidateSession,
        GatewayEvent::Reconnect => EventType::Reconnect,
    }
}

impl GatewayEvent {
    /// The classifier of this event.
    pub fn event_type(&self) -> (r: EventType)
        ensures
            r == kind_of(*self),
    {
        match self {
            GatewayEvent::Dispatch(..) => EventType::Dispatch,
            GatewayEvent::Heartbeat(..) => EventType::Heartbeat,
            GatewayEvent::Hello(..) => EventType::Hello,
            GatewayEvent::HeartbeatAck => EventType::HeartbeatAck,
            GatewayEvent::InvalidateSession(..) => EventType::InvalidateSession,
            GatewayEvent::Reconnect => EventType::Reconnect,
        }
    }
}

/// A domain event handed to listeners: one per inbound control event,
/// tagged with its classifier.
#[derive(Clone, Debug, PartialEq, Eq)]
pub struct Event {
    pub kind: EventType,
    pub gateway: GatewayEvent,
}

impl Event {
    /// The domain event derived from an inbound control event.
    pub fn from_gateway(gateway: GatewayEvent) -> (r: Event)
        ensures
            r.kind == kind_of(gateway),
            r.gateway == gateway,
    {
        let kind = gateway.event_type();
        Event { kind, gateway }
    }

    /// The classifier of this event.
    pub fn event_type(&self) -> (r: EventType)
        ensures
            r == self.kind,
    {
        self.kind
    }
}

} // verus!
