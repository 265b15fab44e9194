//! Why a launch failed.

use vstd::prelude::*;
use vstd::string::StringExecFns;

verus! {

/// The oldest backend version that is supported, as it is shown to the user.
pub const NEOVIM_REQUIRED_VERSION: &'static str = "0.10.0";

/// The step at which a launch failed. Each ends the launch it happened in
/// and none ends the process.
#[derive(Debug, Clone, Copy, PartialEq, Eq)]
pub enum LaunchError {
    /// The child process could not be started.
    SpawnError,
    /// The server could not be reached.
    ConnectError,
    /// No attempt of the version check found a supported version.
    IncompatibleVersion,
    /// The client could not register itself with the backend.
    SetupError,
    /// The configured values could not be sent to the backend.
    SettingsSyncError,
    /// The user interface could not be attached.
    AttachError,
}

impl LaunchError {
    /// The text that is shown for this error.
    pub open spec fn text(self) -> Seq<char> {
        match self {
            LaunchError::SpawnError => "Could not locate or start neovim process"@,
            LaunchError::ConnectError => "Could not connect to the neovim server"@,
            LaunchError::IncompatibleVersion => "Neovide requires nvim version "@
                + NEOVIM_REQUIRED_VERSION@ + " or higher"@,
            LaunchError::SetupError => "Could not set up the neovim process"@,
            LaunchError::SettingsSyncError => "Could not send the settings to neovim"@,
            LaunchError::AttachError => "Could not attach ui to neovim process"@,
        }
    }

    /// The text to show for this error. That of an unsupported version names
    /// the version that is required.
    pub fn message(&self) -> (message: String)
        ensures
            message@ == self.text(),
    {
        match self {
            LaunchError::SpawnError => "Could not locate or start neovim process".to_owned(),
            LaunchError::ConnectError => "Could not connect to the neovim server".to_owned(),
            LaunchError::IncompatibleVersion => {
                let mut message = "Neovide requires nvim version ".to_owned();
                message.append(NEOVIM_REQUIRED_VERSION);
                message.append(" or higher");
                message
            },
            LaunchError::SetupError => "Could not set up the neovim process".to_owned(),
            LaunchError::SettingsSyncError => "Could not send the settings to neovim".to_owned(),
            LaunchError::AttachError => "Could not attach ui to neovim process".to_owned(),
        }
    }
}

} // verus!
