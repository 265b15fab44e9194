//! Notifications that the session lifecycle sends to the user interface.

use vstd::prelude::*;

verus! {

/// An outward notification. Sending is fire-and-forget: a receiver that is
/// gone is ignored.
#[derive(Debug, Clone, PartialEq, Eq)]
pub enum UserEvent {
    /// A connection attempt failed; the next one follows after `wait` seconds.
    ReconnectStart { address: String, wait: u64 },
    /// A connection attempt succeeded.
    ReconnectStop,
    /// The session has ended. Terminal.
    NeovimExited,
    /// The window should be drawn again.
    RedrawRequested,
}

} // verus!
