//! Which backend a session talks to: a process that is started for it, or a
//! server that is already running.

use vstd::prelude::*;

verus! {

/// What it takes to start the backend as a child process.
#[derive(Debug, Clone, PartialEq, Eq)]
pub struct NeovimCommand {
    pub program: String,
    pub args: Vec<String>,
}

/// The backend of a session. It does not change once it is made.
#[derive(Debug, Clone, PartialEq, Eq)]
pub enum NeovimInstance {
    /// A child process, started with this command and spoken to over its
    /// standard streams.
    Embedded(NeovimCommand),
    /// A server, reached over a stream connection to this address.
    Server { address: String },
}

impl NeovimInstance {
    /// The backend is a server.
    pub open spec fn is_server(self) -> bool {
        self is Server
    }

    /// Whether the backend is a server.
    pub fn connects_to_server(&self) -> (server: bool)
        ensures
            server == self.is_server(),
    {
        match self {
            NeovimInstance::Embedded(_) => false,
            NeovimInstance::Server { .. } => true,
        }
    }
}

/// The backend that the configuration asks for: the server where an address
/// is configured, and otherwise a child process started with `command`.
pub fn neovim_instance(server: Option<String>, command: NeovimCommand) -> (instance:
    NeovimInstance)
    ensures
        instance == match server {
            Some(address) => NeovimInstance::Server { address },
            None => NeovimInstance::Embedded(command),
        },
{
    match server {
        Some(address) => NeovimInstance::Server { address },
        None => NeovimInstance::Embedded(command),
    }
}

} // verus!
