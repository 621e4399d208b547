//! The failures the balancer distinguishes.
use vstd::prelude::*;

verus! {

/// What went wrong, and so how far the failure reaches.
///
/// `Configuration`, `ListenerSetup` and `ListenerClosed` end the whole
/// process; `BackendUnavailable` and `Transfer` end one connection only.
#[derive(Debug, Clone, Copy, PartialEq, Eq, Structural)]
pub enum BalancerError {
    /// The backend list is missing or empty, or the listen address is malformed.
    Configuration,
    /// The listen socket could not be created, configured, bound or put to listen.
    ListenerSetup,
    /// Accepting failed: no new connection can come in.
    ListenerClosed,
    /// Dialing the chosen backend failed.
    BackendUnavailable,
    /// Copying bytes failed on one of the two legs of a relay.
    Transfer,
}

} // verus!
