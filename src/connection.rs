use vstd::prelude::*;

verus! {

/// What the connection stage does with a device.
#[derive(Clone, Copy, Debug, PartialEq, Eq, Structural)]
pub enum ConnectAction {
    /// The link is up already: nothing to do.
    Skip,
    /// Ask for a connection, once, and wait for it.
    Connect,
}

/// Seconds to let the link stack settle after pairing.
pub const SETTLE_BEFORE_CONNECT_SECS: u64 = 5;

/// Seconds to let the link stack settle before capture.
pub const SETTLE_BEFORE_CAPTURE_SECS: u64 = 3;

/// Connects only a device that is not connected yet.
pub fn connect_action(connected: bool) -> (r: ConnectAction)
    ensures
        r == (if connected { ConnectAction::Skip } else { ConnectAction::Connect }),
{
    if connected {
        ConnectAction::Skip
    } else {
        ConnectAction::Connect
    }
}

} // verus!
