//! The launch of a session: create it, check the backend's version, set the
//! backend up, send it the settings and attach the user interface, each
//! step after the one before has succeeded.
//!
//! Every step is a call to the backend, which the caller makes.
//! [`Handshake::step`] takes each outcome and [`Handshake::action`] names the
//! call to make next, or the end: a session that is ready, or the error
//! with which it has to be thrown away.

use crate::api_info::ApiInformation;
use crate::attach::{attach_request, attach_request_for, AttachRequest, GridSize};
use crate::error::LaunchError;
use crate::instance::NeovimInstance;
use crate::version_check::{
    is_refusal,
    lemma_five_refusals_reject,
    lemma_next_well_formed,
    with_pauses,
    VersionAction,
    VersionCheck,
    VersionCheckPhase,
    VersionReply,
};
use vstd::prelude::*;

verus! {

/// The step that a launch is at.
#[derive(Debug, Clone, Copy, PartialEq, Eq)]
pub enum HandshakePhase {
    /// The session is being created.
    Creating,
    /// The backend is asked for its version.
    CheckingVersion,
    /// The client registers itself with the backend.
    SettingUp,
    /// The configured values are sent.
    SyncingSettings,
    /// The user interface is being attached.
    Attaching,
    /// The session is attached. Terminal.
    Ready,
    /// The launch failed with this error. Terminal.
    Failed(LaunchError),
}

/// What the caller reports back.
#[derive(Debug, Clone, Copy, PartialEq, Eq)]
pub enum HandshakeInput {
    /// The process runs, or the connection stands, and the read loop is
    /// started.
    SessionCreated,
    /// The process could not be started, or the server not be reached.
    SessionFailed,
    /// Something happened in the version check.
    Version(VersionReply),
    SetupDone,
    SetupFailed,
    SettingsSynced,
    SettingsFailed,
    UiAttached,
    UiAttachFailed,
}

/// The one thing the caller has to do next.
#[derive(Debug, Clone, Copy, PartialEq, Eq)]
pub enum HandshakeAction {
    /// Create the session for the instance of this launch.
    CreateSession,
    /// Ask the backend for its version and channel.
    QueryVersion,
    /// Wait `millis` milliseconds.
    Sleep { millis: u64 },
    /// Register the client with the backend, and the clipboard with it
    /// where `should_handle_clipboard` says so.
    Setup { should_handle_clipboard: bool, api_information: ApiInformation },
    /// Send the configured values to the backend.
    SyncSettings,
    /// Attach the user interface.
    Attach(AttachRequest),
    /// Hand the session on: it is ready.
    Done,
    /// Throw the session away, if there is one, and report the error.
    Abandon(LaunchError),
}

/// The state of one launch.
pub struct Handshake {
    /// The backend to talk to.
    pub instance: NeovimInstance,
    /// The client runs across the border of a remote file system.
    pub wsl: bool,
    /// The client leaves the layout of the windows to the backend.
    pub no_multi_grid: bool,
    /// The grid that the caller would like.
    pub grid_size: Option<GridSize>,
    pub phase: HandshakePhase,
    pub version_check: VersionCheck,
}

impl Handshake {
    /// The state a launch starts in.
    pub open spec fn initial(
        instance: NeovimInstance,
        wsl: bool,
        no_multi_grid: bool,
        grid_size: Option<GridSize>,
    ) -> Self {
        Handshake {
            instance,
            wsl,
            no_multi_grid,
            grid_size,
            phase: HandshakePhase::Creating,
            version_check: VersionCheck::initial(),
        }
    }

    /// The clipboard is handled by the client: across a remote file system
    /// and on every server connection.
    pub open spec fn should_handle_clipboard(self) -> bool {
        self.wsl || self.instance.is_server()
    }

    /// The error of a session that could not be created.
    pub open spec fn creation_error(self) -> LaunchError {
        if self.instance.is_server() {
            LaunchError::ConnectError
        } else {
            LaunchError::SpawnError
        }
    }

    /// The version check has accepted an answer.
    pub open spec fn version_accepted(self) -> bool {
        &&& self.version_check.phase is Accepted
        &&& self.version_check.accepted is Some
        &&& self.version_check.accepted->0.version.is_supported()
    }

    /// What holds of every state that a launch can reach.
    pub open spec fn well_formed(self) -> bool {
        &&& self.version_check.well_formed()
        &&& self.phase is Creating ==> self.version_check == VersionCheck::initial()
        &&& self.phase is CheckingVersion ==> !self.version_check.is_terminal()
        &&& (self.phase is SettingUp || self.phase is SyncingSettings || self.phase is Attaching
            || self.phase is Ready) ==> self.version_accepted()
        &&& self.phase matches HandshakePhase::Failed(error) ==> {
            &&& error is IncompatibleVersion <==> self.version_check.phase is Rejected
            &&& (error is SpawnError || error is ConnectError) ==> self.version_check
                == VersionCheck::initial()
            &&& (error is SetupError || error is SettingsSyncError || error is AttachError)
                ==> self.version_accepted()
        }
    }

    /// The launch is over.
    pub open spec fn is_terminal(self) -> bool {
        self.phase is Ready || self.phase is Failed
    }

    /// The state after `reply` was taken by the version check.
    pub open spec fn after_version_reply(self, reply: VersionReply) -> Self {
        let check = self.version_check.next(reply);
        Handshake {
            phase: match check.phase {
                VersionCheckPhase::Accepted => HandshakePhase::SettingUp,
                VersionCheckPhase::Rejected => HandshakePhase::Failed(
                    LaunchError::IncompatibleVersion,
                ),
                _ => HandshakePhase::CheckingVersion,
            },
            version_check: check,
            ..self
        }
    }

    /// The state that follows `self` on `input`. An input that does not
    /// answer the pending action leaves the state as it is.
    pub open spec fn next(self, input: HandshakeInput) -> Self {
        match (self.phase, input) {
            (HandshakePhase::Creating, HandshakeInput::SessionCreated) => {
                Handshake { phase: HandshakePhase::CheckingVersion, ..self }
            },
            (HandshakePhase::Creating, HandshakeInput::SessionFailed) => {
                Handshake { phase: HandshakePhase::Failed(self.creation_error()), ..self }
            },
            (HandshakePhase::CheckingVersion, HandshakeInput::Version(reply)) => {
                self.after_version_reply(reply)
            },
            (HandshakePhase::SettingUp, HandshakeInput::SetupDone) => {
                Handshake { phase: HandshakePhase::SyncingSettings, ..self }
            },
            (HandshakePhase::SettingUp, HandshakeInput::SetupFailed) => {
                Handshake { phase: HandshakePhase::Failed(LaunchError::SetupError), ..self }
            },
            (HandshakePhase::SyncingSettings, HandshakeInput::SettingsSynced) => {
                Handshake { phase: HandshakePhase::Attaching, ..self }
            },
            (HandshakePhase::SyncingSettings, HandshakeInput::SettingsFailed) => {
                Handshake { phase: HandshakePhase::Failed(LaunchError::SettingsSyncError), ..self }
            },
            (HandshakePhase::Attaching, HandshakeInput::UiAttached) => {
                Handshake { phase: HandshakePhase::Ready, ..self }
            },
            (HandshakePhase::Attaching, HandshakeInput::UiAttachFailed) => {
                Handshake { phase: HandshakePhase::Failed(LaunchError::AttachError), ..self }
            },
            _ => self,
        }
    }

    /// The action that the state is waiting on.
    pub open spec fn pending(self) -> HandshakeAction {
        match self.phase {
            HandshakePhase::Creating => HandshakeAction::CreateSession,
            HandshakePhase::CheckingVersion => match self.version_check.pending() {
                VersionAction::Query => HandshakeAction::QueryVersion,
                VersionAction::Sleep { millis } => HandshakeAction::Sleep { millis },
                VersionAction::Accept(api_information) => HandshakeAction::Setup {
                    should_handle_clipboard: self.should_handle_clipboard(),
                    api_information,
                },
                VersionAction::Reject => HandshakeAction::Abandon(
                    LaunchError::IncompatibleVersion,
                ),
            },
            HandshakePhase::SettingUp => match self.version_check.accepted {
                Some(api_information) => HandshakeAction::Setup {
                    should_handle_clipboard: self.should_handle_clipboard(),
                    api_information,
                },
                None => HandshakeAction::Abandon(LaunchError::IncompatibleVersion),
            },
            HandshakePhase::SyncingSettings => HandshakeAction::SyncSettings,
            HandshakePhase::Attaching => HandshakeAction::Attach(
                attach_request_for(self.grid_size, self.no_multi_grid),
            ),
            HandshakePhase::Ready => HandshakeAction::Done,
            HandshakePhase::Failed(error) => HandshakeAction::Abandon(error),
        }
    }

    /// The state after the inputs of `inputs` were taken one by one.
    pub open spec fn run(self, inputs: Seq<HandshakeInput>) -> Self
        decreases inputs.len(),
    {
        if inputs.len() == 0 {
            self
        } else {
            self.next(inputs.first()).run(inputs.drop_first())
        }
    }

    /// A launch that is about to create its session.
    pub fn new(
        instance: NeovimInstance,
        wsl: bool,
        no_multi_grid: bool,
        grid_size: Option<GridSize>,
    ) -> (handshake: Self)
        ensures
            handshake == Self::initial(instance, wsl, no_multi_grid, grid_size),
            handshake.well_formed(),
    {
        Handshake {
            instance,
            wsl,
            no_multi_grid,
            grid_size,
            phase: HandshakePhase::Creating,
            version_check: VersionCheck::new(),
        }
    }

    /// What the caller has to do next.
    pub fn action(&self) -> (action: HandshakeAction)
        ensures
            action == self.pending(),
    {
        match self.phase {
            HandshakePhase::Creating => HandshakeAction::CreateSession,
            HandshakePhase::CheckingVersion => match self.version_check.action() {
                VersionAction::Query => HandshakeAction::QueryVersion,
                VersionAction::Sleep { millis } => HandshakeAction::Sleep { millis },
                VersionAction::Accept(api_information) => HandshakeAction::Setup {
                    should_handle_clipboard: self.handles_clipboard(),
                    api_information,
                },
                VersionAction::Reject => HandshakeAction::Abandon(
                    LaunchError::IncompatibleVersion,
                ),
            },
            HandshakePhase::SettingUp => match self.version_check.accepted {
                Some(api_information) => HandshakeAction::Setup {
                    should_handle_clipboard: self.handles_clipboard(),
                    api_information,
                },
                None => HandshakeAction::Abandon(LaunchError::IncompatibleVersion),
            },
            HandshakePhase::SyncingSettings => HandshakeAction::SyncSettings,
            HandshakePhase::Attaching => HandshakeAction::Attach(
                attach_request(self.grid_size, self.no_multi_grid),
            ),
            HandshakePhase::Ready => HandshakeAction::Done,
            HandshakePhase::Failed(error) => HandshakeAction::Abandon(error),
        }
    }

    /// Whether the client handles the clipboard for this session.
    pub fn handles_clipboard(&self) -> (handles: bool)
        ensures
            handles == self.should_handle_clipboard(),
    {
        self.wsl || self.instance.connects_to_server()
    }

    /// Takes `input`.
    pub fn step(&mut self, input: HandshakeInput)
        ensures
            *final(self) == old(self).next(input),
            old(self).well_formed() ==> final(self).well_formed(),
    {
        proof {
            if let HandshakeInput::Version(reply) = input {
                if old(self).version_check.well_formed() {
                    lemma_next_well_formed(old(self).version_check, reply);
                }
            }
        }
        match (self.phase, input) {
            (HandshakePhase::Creating, HandshakeInput::SessionCreated) => {
                self.phase = HandshakePhase::CheckingVersion;
            },
            (HandshakePhase::Creating, HandshakeInput::SessionFailed) => {
                if self.instance.connects_to_server() {
                    self.phase = HandshakePhase::Failed(LaunchError::ConnectError);
                } else {
                    self.phase = HandshakePhase::Failed(LaunchError::SpawnError);
                }
            },
            (HandshakePhase::CheckingVersion, HandshakeInput::Version(reply)) => {
                self.version_check.step(reply);
                match self.version_check.phase {
                    VersionCheckPhase::Accepted => {
                        self.phase = HandshakePhase::SettingUp;
                    },
                    VersionCheckPhase::Rejected => {
                        self.phase = HandshakePhase::Failed(LaunchError::IncompatibleVersion);
                    },
                    _ => {},
                }
            },
            (HandshakePhase::SettingUp, HandshakeInput::SetupDone) => {
                self.phase = HandshakePhase::SyncingSettings;
            },
            (HandshakePhase::SettingUp, HandshakeInput::SetupFailed) => {
                self.phase = HandshakePhase::Failed(LaunchError::SetupError);
            },
            (HandshakePhase::SyncingSettings, HandshakeInput::SettingsSynced) => {
                self.phase = HandshakePhase::Attaching;
            },
            (HandshakePhase::SyncingSettings, HandshakeInput::SettingsFailed) => {
                self.phase = HandshakePhase::Failed(LaunchError::SettingsSyncError);
            },
            (HandshakePhase::Attaching, HandshakeInput::UiAttached) => {
                self.phase = HandshakePhase::Ready;
            },
            (HandshakePhase::Attaching, HandshakeInput::UiAttachFailed) => {
                self.phase = HandshakePhase::Failed(LaunchError::AttachError);
            },
            _ => {},
        }
    }
}

/// `replies` as inputs of the launch.
pub open spec fn version_inputs(replies: Seq<VersionReply>) -> Seq<HandshakeInput> {
    Seq::new(replies.len(), |i: int| HandshakeInput::Version(replies[i]))
}

/// The phase that the launch is in for a phase of its version check.
pub open spec fn phase_for(check: VersionCheckPhase) -> HandshakePhase {
    match check {
        VersionCheckPhase::Accepted => HandshakePhase::SettingUp,
        VersionCheckPhase::Rejected => HandshakePhase::Failed(LaunchError::IncompatibleVersion),
        _ => HandshakePhase::CheckingVersion,
    }
}

/// No input leads out of the states that a launch can reach.
pub proof fn lemma_step_well_formed(state: Handshake, input: HandshakeInput)
    requires
        state.well_formed(),
    ensures
        state.next(input).well_formed(),
{
    if let HandshakeInput::Version(reply) = input {
        lemma_next_well_formed(state.version_check, reply);
    }
}

/// Whatever is reported, and in whatever order: a launch that ends ready
/// has accepted a backend of version 0.10.0 or newer, and the user
/// interface is attached only to such a backend.
pub proof fn lemma_ready_means_supported(state: Handshake, inputs: Seq<HandshakeInput>)
    requires
        state.well_formed(),
    ensures
        state.run(inputs).well_formed(),
        state.run(inputs).phase is Ready || state.run(inputs).pending() is Attach ==> {
            &&& state.run(inputs).version_check.accepted is Some
            &&& state.run(inputs).version_check.accepted->0.version.at_least(0, 10, 0)
        },
    decreases inputs.len(),
{
    if inputs.len() > 0 {
        lemma_step_well_formed(state, inputs.first());
        lemma_ready_means_supported(state.next(inputs.first()), inputs.drop_first());
    }
}

/// Every launch starts in a state that it can reach, so what holds of
/// those states holds of it from its first step to its last: it ends ready
/// only with a backend of version 0.10.0 or newer.
pub proof fn lemma_launch_accepts_only_supported(
    instance: NeovimInstance,
    wsl: bool,
    no_multi_grid: bool,
    grid_size: Option<GridSize>,
    inputs: Seq<HandshakeInput>,
)
    ensures
        ({
            let end = Handshake::initial(instance, wsl, no_multi_grid, grid_size).run(inputs);
            end.phase is Ready ==> {
                &&& end.version_check.accepted is Some
                &&& end.version_check.accepted->0.version.at_least(0, 10, 0)
            }
        }),
{
    lemma_ready_means_supported(
        Handshake::initial(instance, wsl, no_multi_grid, grid_size),
        inputs,
    );
}

/// The steps come one after the other: a launch enters a step only from
/// the step before it, and only when that one has succeeded.
pub proof fn lemma_steps_are_sequential(state: Handshake, input: HandshakeInput)
    requires
        state.well_formed(),
        state.next(input).phase != state.phase,
    ensures
        state.next(input).phase is CheckingVersion ==> state.phase is Creating && input
            is SessionCreated,
        state.next(input).phase is SettingUp ==> state.phase is CheckingVersion && input
            is Version,
        state.next(input).phase is SyncingSettings ==> state.phase is SettingUp && input
            is SetupDone,
        state.next(input).phase is Attaching ==> state.phase is SyncingSettings && input
            is SettingsSynced,
        state.next(input).phase is Ready ==> state.phase is Attaching && input is UiAttached,
{
}

/// Each step fails with an error of its own, and a session that cannot be
/// created tells a process that did not start from a server that was not
/// reached.
pub proof fn lemma_failures_are_told_apart(state: Handshake)
    ensures
        state.phase is Creating ==> state.next(HandshakeInput::SessionFailed).pending() == (
        if state.instance is Server {
            HandshakeAction::Abandon(LaunchError::ConnectError)
        } else {
            HandshakeAction::Abandon(LaunchError::SpawnError)
        }),
        state.phase is SettingUp ==> state.next(HandshakeInput::SetupFailed).pending()
            == HandshakeAction::Abandon(LaunchError::SetupError),
        state.phase is SyncingSettings ==> state.next(HandshakeInput::SettingsFailed).pending()
            == HandshakeAction::Abandon(LaunchError::SettingsSyncError),
        state.phase is Attaching ==> state.next(HandshakeInput::UiAttachFailed).pending()
            == HandshakeAction::Abandon(LaunchError::AttachError),
{
}

/// A launch that is over stays as it is, whatever is reported to it.
pub proof fn lemma_terminal_absorbs(state: Handshake, inputs: Seq<HandshakeInput>)
    requires
        state.is_terminal(),
    ensures
        state.run(inputs) == state,
    decreases inputs.len(),
{
    if inputs.len() > 0 {
        lemma_terminal_absorbs(state, inputs.drop_first());
    }
}

/// Where every step succeeds, the calls are made in their order: create the
/// session, ask for the version, set up, send the settings, attach, done.
/// The setup gets the accepted answer, and the attach call the clamped grid
/// and the fixed options.
pub proof fn lemma_successful_launch(
    instance: NeovimInstance,
    wsl: bool,
    no_multi_grid: bool,
    grid_size: Option<GridSize>,
    info: ApiInformation,
)
    requires
        info.version.is_supported(),
    ensures
        ({
            let creating = Handshake::initial(instance, wsl, no_multi_grid, grid_size);
            let checking = creating.next(HandshakeInput::SessionCreated);
            let setting_up = checking.next(
                HandshakeInput::Version(VersionReply::Answered(info)),
            );
            let syncing = setting_up.next(HandshakeInput::SetupDone);
            let attaching = syncing.next(HandshakeInput::SettingsSynced);
            let ready = attaching.next(HandshakeInput::UiAttached);
            &&& creating.pending() == HandshakeAction::CreateSession
            &&& checking.pending() == HandshakeAction::QueryVersion
            &&& setting_up.pending() == (HandshakeAction::Setup {
                should_handle_clipboard: wsl || instance is Server,
                api_information: info,
            })
            &&& syncing.pending() == HandshakeAction::SyncSettings
            &&& attaching.pending() == HandshakeAction::Attach(
                AttachRequest {
                    width: attach_request_for(grid_size, no_multi_grid).width,
                    height: attach_request_for(grid_size, no_multi_grid).height,
                    linegrid_external: true,
                    multigrid_external: !no_multi_grid,
                    rgb: true,
                },
            )
            &&& ready.pending() == HandshakeAction::Done
            &&& ready.phase is Ready
        }),
{
}

/// Inputs of the version check reach a launch only while it checks the
/// version.
pub proof fn lemma_version_inputs_ignored(state: Handshake, replies: Seq<VersionReply>)
    requires
        !(state.phase is CheckingVersion),
    ensures
        state.run(version_inputs(replies)) == state,
    decreases replies.len(),
{
    if replies.len() > 0 {
        let inputs = version_inputs(replies);
        assert(inputs.first() == HandshakeInput::Version(replies.first()));
        assert(inputs.drop_first() =~= version_inputs(replies.drop_first()));
        lemma_version_inputs_ignored(state, replies.drop_first());
    }
}

/// While a launch checks the version it does what its version check does:
/// after any replies it holds the check that has taken them, and it has
/// moved on to the setup, or failed, exactly when the check has accepted,
/// or rejected.
pub proof fn lemma_version_check_drives(state: Handshake, replies: Seq<VersionReply>)
    requires
        state.phase is CheckingVersion,
        !state.version_check.is_terminal(),
    ensures
        state.run(version_inputs(replies)) == (Handshake {
            phase: phase_for(state.version_check.run(replies).phase),
            version_check: state.version_check.run(replies),
            ..state
        }),
    decreases replies.len(),
{
    if replies.len() > 0 {
        let inputs = version_inputs(replies);
        assert(inputs.first() == HandshakeInput::Version(replies.first()));
        assert(inputs.drop_first() =~= version_inputs(replies.drop_first()));
        let after = state.next(inputs.first());
        if after.phase is CheckingVersion {
            lemma_version_check_drives(after, replies.drop_first());
        } else {
            lemma_version_inputs_ignored(after, replies.drop_first());
            crate::version_check::lemma_terminal_absorbs(
                after.version_check,
                replies.drop_first(),
            );
        }
    }
}

/// A backend that gives no supported version in five attempts fails the
/// launch as incompatible. Up to then the launch has only asked and
/// waited, and afterwards nothing moves it: no setup, no settings and no
/// attach call is ever made.
pub proof fn lemma_unsupported_backend_never_attaches(
    state: Handshake,
    refusals: Seq<VersionReply>,
    later: Seq<HandshakeInput>,
)
    requires
        state.phase is Creating,
        state.version_check == VersionCheck::initial(),
        refusals.len() == 5,
        forall|i: int| 0 <= i < refusals.len() ==> is_refusal(#[trigger] refusals[i]),
    ensures
        ({
            let checking = state.next(HandshakeInput::SessionCreated);
            let failed = checking.run(version_inputs(with_pauses(refusals)));
            &&& failed.phase == HandshakePhase::Failed(LaunchError::IncompatibleVersion)
            &&& failed.version_check.attempts == 5
            &&& failed.pending() == HandshakeAction::Abandon(LaunchError::IncompatibleVersion)
            &&& failed.run(later) == failed
        }),
{
    let checking = state.next(HandshakeInput::SessionCreated);
    lemma_five_refusals_reject(refusals, Seq::empty());
    lemma_version_check_drives(checking, with_pauses(refusals));
    let failed = checking.run(version_inputs(with_pauses(refusals)));
    lemma_terminal_absorbs(failed, later);
}

/// While the version is checked the launch only asks and waits.
pub proof fn lemma_checking_only_asks_and_waits(state: Handshake)
    requires
        state.well_formed(),
        state.phase is CheckingVersion,
    ensures
        state.pending() == HandshakeAction::QueryVersion || state.pending() == (
        HandshakeAction::Sleep { millis: 500 }),
{
}

} // verus!
