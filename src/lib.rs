//! Connection lifecycle of one gateway shard: the protocol state machine,
//! session bookkeeping, heartbeat liveness, recovery decisions and the
//! fan-out of decoded events to subscribed listeners.
//!
//! The library decides; the caller performs. Every step returns the
//! actions to carry out (frames to send, a heartbeater to start, a
//! reconnect to run), and the caller reports back what happened.

mod envelope;
mod error;
mod event;
mod listener;
mod payload;
mod processor;
mod role_colors;
mod session;
mod stage;

pub use envelope::Envelope;
pub use error::Error;
pub use event::{DispatchEvent, Event, EventType, GatewayEvent};
pub use listener::{Listener, Listeners};
pub use payload::{IdentifyInfo, IdentifyProperties, Payload, ResumeInfo};
pub use processor::{Action, Config, Frame, ShardProcessor};
pub use role_colors::RoleColors;
pub use session::{HeartbeatError, Session};
pub use stage::Stage;
