use vstd::prelude::*;

verus! {

/// Failures of handing a payload to the outbound path.
#[derive(Clone, Copy, Debug, PartialEq, Eq, Structural)]
pub enum Error {
    /// The payload could not be encoded; the caller of a send sees it.
    PayloadSerialization,
    /// The outbound path is closed: the connection is gone.
    SendingMessage,
}

} // verus!
