use nvim_bridge::api_info::{ApiInformation, ApiVersion};
use nvim_bridge::attach::{AttachRequest, GridSize};
use nvim_bridge::error::LaunchError;
use nvim_bridge::handshake::{Handshake, HandshakeAction, HandshakeInput, HandshakePhase};
use nvim_bridge::instance::{neovim_instance, NeovimCommand, NeovimInstance};
use nvim_bridge::version_check::{
    VersionAction, VersionCheck, VersionCheckPhase, VersionReply,
};

fn info(major: u64, minor: u64, patch: u64) -> ApiInformation {
    ApiInformation { channel: 3, version: ApiVersion { major, minor, patch } }
}

fn embedded() -> NeovimInstance {
    NeovimInstance::Embedded(NeovimCommand {
        program: "nvim".to_string(),
        args: vec!["--embed".to_string()],
    })
}

fn server() -> NeovimInstance {
    NeovimInstance::Server { address: "127.0.0.1:6666".to_string() }
}

#[test]
fn version_order_is_by_major_then_minor_then_patch() {
    let version = ApiVersion { major: 0, minor: 10, patch: 2 };
    assert!(version.has_version(0, 10, 2));
    assert!(version.has_version(0, 10, 1));
    assert!(version.has_version(0, 9, 9));
    assert!(version.has_version(0, 0, 0));
    assert!(!version.has_version(0, 10, 3));
    assert!(!version.has_version(0, 11, 0));
    assert!(!version.has_version(1, 0, 0));
    assert!(ApiVersion { major: 1, minor: 0, patch: 0 }.has_version(0, 99, 99));
    assert!(ApiVersion { major: 2, minor: 3, patch: 0 }.has_version(2, 2, 9));
}

#[test]
fn supported_versions_start_at_0_10_0() {
    assert!(info(0, 10, 0).version.supported());
    assert!(info(0, 10, 4).version.supported());
    assert!(info(0, 11, 0).version.supported());
    assert!(info(1, 0, 0).version.supported());
    assert!(!info(0, 9, 9).version.supported());
    assert!(!info(0, 9, 5).version.supported());
    assert!(!info(0, 0, 0).version.supported());
    assert!(!info(0, 9, u64::MAX).version.supported());
}

#[test]
fn first_supported_answer_is_accepted_at_once() {
    let mut check = VersionCheck::new();
    assert_eq!(check.action(), VersionAction::Query);
    check.step(VersionReply::Answered(info(0, 10, 0)));
    assert_eq!(check.phase, VersionCheckPhase::Accepted);
    assert_eq!(check.attempts, 1);
    assert_eq!(check.action(), VersionAction::Accept(info(0, 10, 0)));
}

#[test]
fn success_after_failures_skips_the_remaining_attempts() {
    let mut check = VersionCheck::new();
    let mut queries = 0;
    let mut slept = 0;
    let replies = [
        VersionReply::Errored,
        VersionReply::Answered(info(0, 9, 5)),
        VersionReply::Answered(info(0, 11, 1)),
    ];
    let mut next_reply = replies.iter();
    loop {
        match check.action() {
            VersionAction::Query => {
                queries += 1;
                check.step(*next_reply.next().unwrap());
            }
            VersionAction::Sleep { millis } => {
                slept += millis;
                check.step(VersionReply::DelayElapsed);
            }
            VersionAction::Accept(accepted) => {
                assert_eq!(accepted, info(0, 11, 1));
                break;
            }
            VersionAction::Reject => panic!("the check gave up"),
        }
    }
    assert_eq!(queries, 3);
    assert_eq!(slept, 1000);
    assert_eq!(check.attempts, 3);
}

#[test]
fn five_failures_reject_after_four_pauses() {
    let mut check = VersionCheck::new();
    let mut queries = 0;
    let mut slept = 0;
    loop {
        match check.action() {
            VersionAction::Query => {
                queries += 1;
                if queries % 2 == 0 {
                    check.step(VersionReply::Errored);
                } else {
                    check.step(VersionReply::Answered(info(0, 9, 9)));
                }
            }
            VersionAction::Sleep { millis } => {
                assert_eq!(millis, 500);
                slept += millis;
                check.step(VersionReply::DelayElapsed);
            }
            VersionAction::Accept(_) => panic!("an old version was accepted"),
            VersionAction::Reject => break,
        }
    }
    assert_eq!(queries, 5);
    assert_eq!(slept, 2000);
    assert_eq!(check.attempts, 5);
    assert_eq!(check.phase, VersionCheckPhase::Rejected);
    check.step(VersionReply::Answered(info(0, 10, 0)));
    check.step(VersionReply::DelayElapsed);
    assert_eq!(check.phase, VersionCheckPhase::Rejected);
    assert_eq!(check.action(), VersionAction::Reject);
}

#[test]
fn version_replies_out_of_turn_are_ignored() {
    let mut check = VersionCheck::new();
    check.step(VersionReply::DelayElapsed);
    assert_eq!(check.phase, VersionCheckPhase::Querying);
    assert_eq!(check.attempts, 0);
    check.step(VersionReply::Errored);
    assert_eq!(check.phase, VersionCheckPhase::Waiting);
    check.step(VersionReply::Answered(info(1, 0, 0)));
    check.step(VersionReply::Errored);
    assert_eq!(check.phase, VersionCheckPhase::Waiting);
    assert_eq!(check.attempts, 1);
    assert_eq!(check.accepted, None);
}

#[test]
fn embedded_backend_with_old_version_fails_and_never_attaches() {
    let mut handshake = Handshake::new(embedded(), false, false, None);
    let mut queries = 0;
    let mut slept = 0;
    let mut calls = Vec::new();
    let error = loop {
        let action = handshake.action();
        match action {
            HandshakeAction::CreateSession => handshake.step(HandshakeInput::SessionCreated),
            HandshakeAction::QueryVersion => {
                queries += 1;
                handshake.step(HandshakeInput::Version(VersionReply::Answered(info(0, 9, 9))));
            }
            HandshakeAction::Sleep { millis } => {
                slept += millis;
                handshake.step(HandshakeInput::Version(VersionReply::DelayElapsed));
            }
            HandshakeAction::Abandon(error) => break error,
            other => {
                calls.push(other);
                panic!("unexpected call {:?}", other);
            }
        }
    };
    assert_eq!(error, LaunchError::IncompatibleVersion);
    assert_eq!(queries, 5);
    assert_eq!(slept, 2000);
    assert!(calls.is_empty());
    assert_eq!(handshake.phase, HandshakePhase::Failed(LaunchError::IncompatibleVersion));
    for input in [
        HandshakeInput::SetupDone,
        HandshakeInput::SettingsSynced,
        HandshakeInput::UiAttached,
        HandshakeInput::SessionCreated,
        HandshakeInput::Version(VersionReply::Answered(info(0, 10, 0))),
    ] {
        handshake.step(input);
        assert_eq!(
            handshake.action(),
            HandshakeAction::Abandon(LaunchError::IncompatibleVersion)
        );
    }
    assert_eq!(
        error.message(),
        "Neovide requires nvim version 0.10.0 or higher"
    );
}

#[test]
fn successful_launch_makes_the_calls_in_order() {
    let requested = Some(GridSize { width: 120, height: 40 });
    let mut handshake = Handshake::new(embedded(), false, false, requested);
    assert_eq!(handshake.action(), HandshakeAction::CreateSession);
    handshake.step(HandshakeInput::SessionCreated);
    assert_eq!(handshake.action(), HandshakeAction::QueryVersion);
    handshake.step(HandshakeInput::Version(VersionReply::Answered(info(0, 10, 4))));
    assert_eq!(
        handshake.action(),
        HandshakeAction::Setup { should_handle_clipboard: false, api_information: info(0, 10, 4) }
    );
    handshake.step(HandshakeInput::SetupDone);
    assert_eq!(handshake.action(), HandshakeAction::SyncSettings);
    handshake.step(HandshakeInput::SettingsSynced);
    assert_eq!(
        handshake.action(),
        HandshakeAction::Attach(AttachRequest {
            width: 120,
            height: 40,
            linegrid_external: true,
            multigrid_external: true,
            rgb: true,
        })
    );
    handshake.step(HandshakeInput::UiAttached);
    assert_eq!(handshake.action(), HandshakeAction::Done);
    assert_eq!(handshake.phase, HandshakePhase::Ready);
    assert!(handshake.version_check.accepted.unwrap().version.has_version(0, 10, 0));
}

#[test]
fn clipboard_is_handled_for_servers_and_remote_file_systems() {
    assert!(!Handshake::new(embedded(), false, false, None).handles_clipboard());
    assert!(Handshake::new(embedded(), true, false, None).handles_clipboard());
    assert!(Handshake::new(server(), false, false, None).handles_clipboard());
    assert!(Handshake::new(server(), true, false, None).handles_clipboard());
    let mut handshake = Handshake::new(server(), false, true, None);
    handshake.step(HandshakeInput::SessionCreated);
    handshake.step(HandshakeInput::Version(VersionReply::Answered(info(0, 11, 0))));
    assert_eq!(
        handshake.action(),
        HandshakeAction::Setup { should_handle_clipboard: true, api_information: info(0, 11, 0) }
    );
}

#[test]
fn each_step_fails_with_its_own_error() {
    let mut spawn = Handshake::new(embedded(), false, false, None);
    spawn.step(HandshakeInput::SessionFailed);
    assert_eq!(spawn.action(), HandshakeAction::Abandon(LaunchError::SpawnError));

    let mut connect = Handshake::new(server(), false, false, None);
    connect.step(HandshakeInput::SessionFailed);
    assert_eq!(connect.action(), HandshakeAction::Abandon(LaunchError::ConnectError));

    let mut setup = Handshake::new(embedded(), false, false, None);
    setup.step(HandshakeInput::SessionCreated);
    setup.step(HandshakeInput::Version(VersionReply::Answered(info(0, 10, 0))));
    setup.step(HandshakeInput::SetupFailed);
    assert_eq!(setup.action(), HandshakeAction::Abandon(LaunchError::SetupError));

    let mut settings = Handshake::new(embedded(), false, false, None);
    settings.step(HandshakeInput::SessionCreated);
    settings.step(HandshakeInput::Version(VersionReply::Answered(info(0, 10, 0))));
    settings.step(HandshakeInput::SetupDone);
    settings.step(HandshakeInput::SettingsFailed);
    assert_eq!(settings.action(), HandshakeAction::Abandon(LaunchError::SettingsSyncError));

    let mut attach = Handshake::new(embedded(), false, false, None);
    attach.step(HandshakeInput::SessionCreated);
    attach.step(HandshakeInput::Version(VersionReply::Answered(info(0, 10, 0))));
    attach.step(HandshakeInput::SetupDone);
    attach.step(HandshakeInput::SettingsSynced);
    attach.step(HandshakeInput::UiAttachFailed);
    assert_eq!(attach.action(), HandshakeAction::Abandon(LaunchError::AttachError));
    attach.step(HandshakeInput::UiAttached);
    assert_eq!(attach.phase, HandshakePhase::Failed(LaunchError::AttachError));
}

#[test]
fn handshake_inputs_out_of_turn_are_ignored() {
    let mut handshake = Handshake::new(embedded(), false, false, None);
    for input in [
        HandshakeInput::Version(VersionReply::Answered(info(0, 10, 0))),
        HandshakeInput::SetupDone,
        HandshakeInput::SettingsSynced,
        HandshakeInput::UiAttached,
        HandshakeInput::UiAttachFailed,
    ] {
        handshake.step(input);
        assert_eq!(handshake.phase, HandshakePhase::Creating);
    }
    handshake.step(HandshakeInput::SessionCreated);
    handshake.step(HandshakeInput::UiAttached);
    handshake.step(HandshakeInput::SessionFailed);
    assert_eq!(handshake.phase, HandshakePhase::CheckingVersion);
    assert_eq!(handshake.version_check.attempts, 0);
}

#[test]
fn error_messages_name_the_step() {
    assert_eq!(LaunchError::SpawnError.message(), "Could not locate or start neovim process");
    assert_eq!(LaunchError::ConnectError.message(), "Could not connect to the neovim server");
    assert_eq!(
        LaunchError::IncompatibleVersion.message(),
        "Neovide requires nvim version 0.10.0 or higher"
    );
    assert_eq!(LaunchError::SetupError.message(), "Could not set up the neovim process");
    assert_eq!(
        LaunchError::SettingsSyncError.message(),
        "Could not send the settings to neovim"
    );
    assert_eq!(LaunchError::AttachError.message(), "Could not attach ui to neovim process");
}

#[test]
fn instance_is_the_server_where_one_is_configured() {
    let command = NeovimCommand { program: "nvim".to_string(), args: vec!["--embed".to_string()] };
    assert_eq!(
        neovim_instance(Some("127.0.0.1:6666".to_string()), command.clone()),
        NeovimInstance::Server { address: "127.0.0.1:6666".to_string() }
    );
    assert_eq!(neovim_instance(None, command.clone()), NeovimInstance::Embedded(command));
    assert!(server().connects_to_server());
    assert!(!embedded().connects_to_server());
    assert_eq!(
        neovim_instance(Some(String::new()), NeovimCommand { program: String::new(), args: vec![] }),
        NeovimInstance::Server { address: String::new() }
    );
}
