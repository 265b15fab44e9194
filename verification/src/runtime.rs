//! How a launch is carried out: inline for a backend of its own, in the
//! background for a server.

use vstd::prelude::*;

verus! {

/// The way a session is brought up and supervised.
#[derive(Debug, Clone, PartialEq, Eq)]
pub enum LaunchMode {
    /// A child process is started. The first launch is awaited, so that its
    /// failure reaches the caller, and the session is then watched until it
    /// ends. Nothing is retried.
    Embedded,
    /// The server at `address` is dialled in the background, again and
    /// again until it answers. The caller gets no error: failures show up
    /// as reconnect events only.
    Reconnecting { address: String },
}

impl LaunchMode {
    /// A failed launch is reported to the caller of the launch.
    pub open spec fn reports_launch_failure(self) -> bool {
        self is Embedded
    }

    /// Whether a failed launch is reported to the caller of the launch.
    pub fn reports_failure(&self) -> (reports: bool)
        ensures
            reports == self.reports_launch_failure(),
    {
        match self {
            LaunchMode::Embedded => true,
            LaunchMode::Reconnecting { .. } => false,
        }
    }
}

/// The way to launch for a configuration: reconnecting to the server where
/// one is configured, and embedded otherwise.
pub fn launch_mode(server: Option<String>) -> (mode: LaunchMode)
    ensures
        mode == match server {
            Some(address) => LaunchMode::Reconnecting { address },
            None => LaunchMode::Embedded,
        },
{
    match server {
        Some(address) => LaunchMode::Reconnecting { address },
        None => LaunchMode::Embedded,
    }
}

} // verus!
