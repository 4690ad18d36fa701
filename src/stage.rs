use vstd::prelude::*;

verus! {

/// The shard's phase in the handshake and session lifecycle.
#[derive(Clone, Copy, Debug, PartialEq, Eq, Structural)]
pub enum Stage {
    /// A new connection has reached Hello and is identifying.
    Identifying,
    /// A prior session is being continued.
    Resuming,
    /// Ready or Resumed has been received.
    Connected,
}

} // verus!
