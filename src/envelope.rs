use vstd::prelude::*;
use crate::event::{DispatchEvent, GatewayEvent};
use crate::payload::Payload;

verus! {

pub const OP_DISPATCH: u8 = 0;
pub const OP_HEARTBEAT: u8 = 1;
pub const OP_IDENTIFY: u8 = 2;
pub const OP_RESUME: u8 = 6;
pub const OP_RECONNECT: u8 = 7;
pub const OP_INVALIDATE_SESSION: u8 = 9;
pub const OP_HELLO: u8 = 10;
pub const OP_HEARTBEAT_ACK: u8 = 11;

/// The fields of an inbound envelope `{op, d, s, t}` that the protocol
/// reads, as they were found in the frame.
#[derive(Debug)]
pub struct Envelope {
    pub op: u8,
    /// The sequence number `s`.
    pub s: Option<u64>,
    /// The dispatch name `t`.
    pub t: Option<String>,
    /// `d`, when it is an unsigned integer.
    pub d_number: Option<u64>,
    /// `d`, when it is a boolean.
    pub d_bool: Option<bool>,
    /// `d.session_id`, when `d` holds it.
    pub session_id: Option<String>,
    /// `d.heartbeat_interval`, when `d` holds it.
    pub heartbeat_interval: Option<u64>,
}

/// The control event that an envelope carries, if its op is modelled and
/// the fields that op needs are there.
pub open spec fn event_of(e: Envelope) -> Option<GatewayEvent> {
    if e.op == OP_DISPATCH {
        match (e.s, e.t) {
            (Some(seq), Some(name)) => if name@ == "READY"@ {
                match e.session_id {
                    Some(session_id) => Some(
                        GatewayEvent::Dispatch(seq, DispatchEvent::Ready { session_id }),
                    ),
                    None => None,
                }
            } else if name@ == "RESUMED"@ {
                Some(GatewayEvent::Dispatch(seq, DispatchEvent::Resumed))
            } else {
                Some(GatewayEvent::Dispatch(seq, DispatchEvent::Other { name }))
            },
            _ => None,
        }
    } else if e.op == OP_HEARTBEAT {
        match e.d_number {
            Some(seq) => Some(GatewayEvent::Heartbeat(seq)),
            None => None,
        }
    } else if e.op == OP_RECONNECT {
        Some(GatewayEvent::Reconnect)
    } else if e.op == OP_INVALIDATE_SESSION {
        match e.d_bool {
            Some(resumable) => Some(GatewayEvent::InvalidateSession(resumable)),
            None => None,
        }
    } else if e.op == OP_HELLO {
        match e.heartbeat_interval {
            Some(interval) => Some(GatewayEvent::Hello(interval)),
            None => None,
        }
    } else if e.op == OP_HEARTBEAT_ACK {
        Some(GatewayEvent::HeartbeatAck)
    } else {
        None
    }
}

impl Envelope {
    /// The control event this envelope carries; `None` for an op that is
    /// not modelled or a missing field.
    pub fn into_event(self) -> (r: Option<GatewayEvent>)
        ensures
            r == event_of(self),
    {
        let ghost whole = self;
        let Envelope { op, s, t, d_number, d_bool, session_id, heartbeat_interval } = self;
        if op == OP_DISPATCH {
            match (s, t) {
                (Some(seq), Some(name)) => {
                    let ready = String::from_str("READY");
                    let resumed = String::from_str("RESUMED");
                    if name == ready {
                        match session_id {
                            Some(session_id) => Some(
                                GatewayEvent::Dispatch(seq, DispatchEvent::Ready { session_id }),
                            ),
                            None => None,
                        }
                    } else if name == resumed {
                        Some(GatewayEvent::Dispatch(seq, DispatchEvent::Resumed))
                    } else {
                        Some(GatewayEvent::Dispatch(seq, DispatchEvent::Other { name }))
                    }
                },
                _ => None,
            }
        } else if op == OP_HEARTBEAT {
            match d_number {
                Some(seq) => Some(GatewayEvent::Heartbeat(seq)),
                None => None,
            }
        } else if op == OP_RECONNECT {
            Some(GatewayEvent::Reconnect)
        } else if op == OP_INVALIDATE_SESSION {
            match d_bool {
                Some(resumable) => Some(GatewayEvent::InvalidateSession(resumable)),
                None => None,
            }
        } else if op == OP_HELLO {
            match heartbeat_interval {
                Some(interval) => Some(GatewayEvent::Hello(interval)),
                None => None,
            }
        } else if op == OP_HEARTBEAT_ACK {
            Some(GatewayEvent::HeartbeatAck)
        } else {
            None
        }
    }
}

/// The op under which a payload goes out.
pub open spec fn op_of(p: Payload) -> u8 {
    match p {
        Payload::Identify(_) => OP_IDENTIFY,
        Payload::Resume(_) => OP_RESUME,
        Payload::Heartbeat(_) => OP_HEARTBEAT,
    }
}

impl Payload {
    /// The op under which this payload goes out.
    pub fn op(&self) -> (r: u8)
        ensures
            r == op_of(*self),
    {
        match self {
            Payload::Identify(_) => OP_IDENTIFY,
            Payload::Resume(_) => OP_RESUME,
            Payload::Heartbeat(_) => OP_HEARTBEAT,
        }
    }
}

} // verus!
