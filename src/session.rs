use vstd::prelude::*;
use crate::stage::Stage;

verus! {

/// The state of one physical connection: handshake stage, last sequence
/// number, resumable session identifier and heartbeat liveness.
///
/// A session is never carried over to another connection: a reconnect
/// builds a fresh one.
#[derive(Debug)]
pub struct Session {
    pub stage: Stage,
    /// The last sequence number observed on this connection.
    pub seq: u64,
    /// The resumable session identifier, set by a Ready.
    pub id: Option<String>,
    /// The heartbeat interval announced by Hello, zero until then.
    pub heartbeat_interval: u64,
    /// A heartbeat was sent and its acknowledgement has not come yet.
    pub awaiting_ack: bool,
}

/// Why a heartbeat could not be sent now.
#[derive(Clone, Copy, Debug, PartialEq, Eq, Structural)]
pub enum HeartbeatError {
    /// The previous heartbeat is still unacknowledged: the connection is
    /// presumed dead.
    AwaitingAck,
}

/// The state of a session built for a new connection.
pub open spec fn fresh_session(s: Session) -> bool {
    &&& s.stage == Stage::Identifying
    &&& s.seq == 0
    &&& s.id is None
    &&& s.heartbeat_interval == 0
    &&& !s.awaiting_ack
}

impl Session {
    /// A session for a new connection, pending identification.
    pub fn new() -> (r: Session)
        ensures
            fresh_session(r),
    {
        Session {
            stage: Stage::Identifying,
            seq: 0,
            id: None,
            heartbeat_interval: 0,
            awaiting_ack: false,
        }
    }

    pub fn stage(&self) -> (r: Stage)
        ensures
            r == self.stage,
    {
        self.stage
    }

    pub fn set_stage(&mut self, stage: Stage)
        ensures
            *final(self) == (Session { stage, ..*old(self) }),
    {
        self.stage = stage;
    }

    pub fn seq(&self) -> (r: u64)
        ensures
            r == self.seq,
    {
        self.seq
    }

    /// Records the latest observed sequence number.
    pub fn set_seq(&mut self, seq: u64)
        ensures
            *final(self) == (Session { seq, ..*old(self) }),
    {
        self.seq = seq;
    }

    /// A copy of the resumable session identifier, if one is known.
    pub fn id(&self) -> (r: Option<String>)
        ensures
            r == self.id,
    {
        match &self.id {
            Some(id) => Some(id.clone()),
            None => None,
        }
    }

    pub fn set_id(&mut self, id: String)
        ensures
            *final(self) == (Session { id: Some(id), ..*old(self) }),
    {
        self.id = Some(id);
    }

    pub fn set_heartbeat_interval(&mut self, interval: u64)
        ensures
            *final(self) == (Session { heartbeat_interval: interval, ..*old(self) }),
    {
        self.heartbeat_interval = interval;
    }

    /// Arms the liveness flag for a heartbeat to be sent now, and returns
    /// the sequence number it carries. Fails, changing nothing, while the
    /// previous heartbeat is unacknowledged.
    pub fn heartbeat(&mut self) -> (r: Result<u64, HeartbeatError>)
        ensures
            old(self).awaiting_ack ==> r == Err::<u64, HeartbeatError>(HeartbeatError::AwaitingAck)
                && *final(self) == *old(self),
            !old(self).awaiting_ack ==> r == Ok::<u64, HeartbeatError>(old(self).seq)
                && *final(self) == (Session { awaiting_ack: true, ..*old(self) }),
    {
        if self.awaiting_ack {
            Err(HeartbeatError::AwaitingAck)
        } else {
            self.awaiting_ack = true;
            Ok(self.seq)
        }
    }

    /// Records that the last heartbeat was acknowledged.
    pub fn receive_ack(&mut self)
        ensures
            *final(self) == (Session { awaiting_ack: false, ..*old(self) }),
    {
        self.awaiting_ack = false;
    }
}

} // verus!
