use hop_server::bridge::{
    bridge_end_notice, on_target_event, picker_outcome, tui_reopen_failure_notice, BridgeAction, PickerOutcome,
    TargetEvent, TARGET_ENDED_NOTICE,
};
use hop_server::model::{Asset, ASSET_PROTOCOL_SSH, ASSET_PROTOCOL_TCP};
use hop_server::relay::{relay_error_message, session_finish, RelayDirection, RelayIoError, RelayOperation, RelayPeer, RelayStep};
use hop_server::session_registry::{ActiveSessionRegistry, TerminateSessionResult, TERMINATED_BY_MANAGEMENT};
use hop_server::ssh::{
    accepts_sftp_request, authentication_banner, check_direct_asset, is_client_disconnect, managed_session_mode,
    parse_direct_username, parse_exec_command, ssh_keepalive_interval, unsupported_exec_command_message,
    channel_step, ChannelAction, ChannelEvent, ChannelKind, ExecCommand, ExecCommandError, ManagedSessionMode,
    PtySize, SshSettings,
};
use hop_server::target_auth::{
    check_host_key_type, host_key_accepted, host_key_decision, secret_aad, target_sign_in, HostKeyDecision,
    SignInError, TargetSignIn,
};
use hop_server::tui::TuiAction;

fn asset(name: &str) -> Asset {
    Asset {
        id: name.to_string(),
        name: name.to_string(),
        protocol: ASSET_PROTOCOL_SSH.to_string(),
        preset: None,
        hostname: "10.0.0.10".to_string(),
        port: 22,
        description: None,
        tags: Vec::new(),
        credential_id: Some("cred-1".to_string()),
        created_at: None,
        updated_at: None,
    }
}

#[test]
fn managed_session_mode_distinguishes_tui_connects() {
    assert_eq!(managed_session_mode(ManagedSessionMode::Tui), "tui-connect");
    assert_eq!(managed_session_mode(ManagedSessionMode::Exec), "exec-connect");
    assert_eq!(managed_session_mode(ManagedSessionMode::Direct), "direct");
}

#[test]
fn relay_error_message_names_failing_side_and_byte_totals() {
    let err = RelayIoError::new(
        RelayPeer::Target,
        RelayOperation::Read,
        0,
        std::io::Error::new(std::io::ErrorKind::ConnectionReset, "reset by peer"),
    );

    let message = relay_error_message(&err, 19, 0);

    assert_eq!(
        message,
        "target read failed after 0 bytes: reset by peer; totals client->target=19 bytes, target->client=0 bytes"
    );
}

#[test]
fn relay_direction_counts_bytes_written() {
    let mut direction = RelayDirection::new(RelayPeer::Client, RelayPeer::Target);
    assert_eq!(direction.after_read(21), RelayStep::Forward(21));
    direction.after_write(21);
    assert_eq!(direction.after_read(0), RelayStep::Finished(21));
    let err = direction.write_failed(std::io::Error::new(std::io::ErrorKind::BrokenPipe, "pipe"));
    assert_eq!(err.message(), "target write failed after 21 bytes: pipe");
}

#[test]
fn relayed_session_end_is_recorded_by_outcome() {
    let terminated = session_finish(true, None);
    assert_eq!(terminated.status, "terminated");
    assert_eq!(terminated.error.as_deref(), Some(TERMINATED_BY_MANAGEMENT));
    assert_eq!(session_finish(false, None).status, "ok");
    let failed = session_finish(false, Some("connect failed"));
    assert_eq!(failed.status, "failed");
    assert_eq!(failed.error.as_deref(), Some("connect failed"));
}

#[test]
fn parses_supported_exec_commands_only() {
    assert_eq!(parse_exec_command(b"hop-version").unwrap(), ExecCommand::Version);
    assert_eq!(parse_exec_command(b"hop-list-assets").unwrap(), ExecCommand::ListAssets);
    assert_eq!(
        parse_exec_command(b"hop-connect web-prod-01").unwrap(),
        ExecCommand::Connect { asset: "web-prod-01".to_string() }
    );
    assert!(parse_exec_command(b"admin-delete-all").is_err());
    assert!(parse_exec_command(b"hop-connect web prod").is_err());
}

#[test]
fn exec_commands_refuse_invalid_utf8() {
    assert_eq!(parse_exec_command(&[0xff, 0xfe]), Err(ExecCommandError::InvalidUtf8));
    assert_eq!(parse_exec_command(b"  hop-version \n").unwrap(), ExecCommand::Version);
    assert_eq!(parse_exec_command(b"hop-connect   "), Err(ExecCommandError::Unsupported));
    assert_eq!(parse_exec_command(b"hop-connect  a b"), Err(ExecCommandError::SingleAssetRequired));
}

#[test]
fn ssh_keepalive_interval_uses_config_value() {
    let mut config = SshSettings::new();
    assert_eq!(ssh_keepalive_interval(&config), Some(30));

    config.keepalive_interval = 0;
    assert_eq!(ssh_keepalive_interval(&config), None);
}

#[test]
fn authentication_banner_adds_newline_for_openssh_prompts() {
    let mut config = SshSettings::new();
    config.banner = "Welcome to Hop".to_string();

    assert_eq!(authentication_banner(&config).as_deref(), Some("Welcome to Hop\r\n"));
}

#[test]
fn empty_authentication_banner_is_disabled() {
    let mut config = SshSettings::new();
    config.banner = String::new();

    assert!(authentication_banner(&config).is_none());
}

#[test]
fn unsupported_exec_message_points_to_supported_ssh_paths() {
    assert_eq!(
        unsupported_exec_command_message(),
        "Hop does not support SSH remote commands. Open an interactive TUI session or connect directly with <asset>@host.\n"
    );
}

#[test]
fn connection_reset_is_treated_as_client_disconnect() {
    let error = anyhow::Error::new(std::io::Error::from(std::io::ErrorKind::ConnectionReset));

    assert!(is_client_disconnect(&error));
}

#[test]
fn other_errors_are_not_client_disconnects() {
    let error = anyhow::Error::new(std::io::Error::from(std::io::ErrorKind::PermissionDenied));
    assert!(!is_client_disconnect(&error));
    assert!(!is_client_disconnect(&anyhow::Error::msg("plain failure")));
}

#[test]
fn direct_username_uses_asset_name_as_target() {
    let request = parse_direct_username("web-prod-01").unwrap().unwrap();

    assert_eq!(request.target, "web-prod-01");
    assert!(parse_direct_username("alice@web-prod-01").is_err());
    assert!(parse_direct_username("").is_err());
}

#[test]
fn sftp_is_only_accepted_for_managed_ssh_assets() {
    let mut asset = asset("web-prod-01");

    assert!(accepts_sftp_request("sftp", Some(&asset)));
    assert!(!accepts_sftp_request("shell", Some(&asset)));
    assert!(!accepts_sftp_request("sftp", None));

    asset.credential_id = None;
    assert!(!accepts_sftp_request("sftp", Some(&asset)));
    asset.protocol = ASSET_PROTOCOL_TCP.to_string();
    asset.credential_id = Some("cred-1".to_string());
    assert!(!accepts_sftp_request("sftp", Some(&asset)));
}

#[test]
fn direct_asset_without_credential_is_refused() {
    assert!(check_direct_asset(None).unwrap().is_none());
    assert_eq!(check_direct_asset(Some(asset("web"))).unwrap().unwrap().name, "web");
    let mut bare = asset("bare");
    bare.credential_id = None;
    let err = check_direct_asset(Some(bare)).unwrap_err();
    assert_eq!(err.message(), "direct target has no managed credential");
}

#[test]
fn pty_requests_keep_low_sixteen_bits() {
    assert_eq!(PtySize::from_request(120, 40), PtySize { width: 120, height: 40 });
    assert_eq!(PtySize::from_request(65_536 + 80, 24), PtySize { width: 80, height: 24 });
    assert_eq!(PtySize::default(), PtySize { width: 80, height: 24 });
}

#[test]
fn registry_signals_registered_session() {
    let mut registry = ActiveSessionRegistry::new();
    let (tx, mut rx) = tokio::sync::mpsc::unbounded_channel();
    registry.register("session-1".to_string(), tx);

    assert_eq!(registry.terminate("session-1"), TerminateSessionResult::Signaled);
    assert_eq!(rx.try_recv().ok(), Some(()));
}

#[test]
fn registry_reports_missing_session() {
    let mut registry = ActiveSessionRegistry::new();

    assert_eq!(registry.terminate("missing"), TerminateSessionResult::NotFound);
}

#[test]
fn unregistered_session_is_not_found() {
    let mut registry = ActiveSessionRegistry::new();
    let (tx, _rx) = tokio::sync::mpsc::unbounded_channel();
    registry.register("session-1".to_string(), tx);
    registry.unregister("session-1");
    assert_eq!(registry.terminate("session-1"), TerminateSessionResult::NotFound);
}

#[test]
fn target_events_forward_output_and_end_the_session() {
    assert_eq!(on_target_event(TargetEvent::Data(vec![1, 2]), false), BridgeAction::Forward(vec![1, 2]));
    assert_eq!(
        on_target_event(TargetEvent::ExtendedData { data: vec![3], ext: 1 }, false),
        BridgeAction::ForwardStderr(vec![3])
    );
    assert_eq!(on_target_event(TargetEvent::ExtendedData { data: vec![3], ext: 2 }, false), BridgeAction::Ignore);
    assert_eq!(on_target_event(TargetEvent::ExitStatus(7), false), BridgeAction::Stop { exit_status: Some(7) });
    assert_eq!(on_target_event(TargetEvent::ExitStatus(7), true), BridgeAction::Stop { exit_status: None });
    assert_eq!(on_target_event(TargetEvent::Eof, true), BridgeAction::Stop { exit_status: None });
    assert_eq!(on_target_event(TargetEvent::Other, true), BridgeAction::Ignore);
}

#[test]
fn managed_session_end_notices() {
    assert_eq!(bridge_end_notice(true, None).as_deref(), Some(TARGET_ENDED_NOTICE));
    assert_eq!(
        bridge_end_notice(true, Some("timeout")).as_deref(),
        Some("\r\nTarget connection failed: timeout\r\nReturning to Hop...\r\n")
    );
    assert_eq!(bridge_end_notice(false, Some("timeout")).as_deref(), Some("\r\nhop-connect failed: timeout\r\n"));
    assert_eq!(bridge_end_notice(false, None), None);
    assert_eq!(tui_reopen_failure_notice("gone"), "\r\nFailed to reopen Hop TUI: gone\r\n");
}

#[test]
fn picker_actions_drive_the_channel() {
    assert!(matches!(picker_outcome(TuiAction::Idle), PickerOutcome::Stay));
    assert!(matches!(picker_outcome(TuiAction::Quit), PickerOutcome::Close));
    assert!(matches!(picker_outcome(TuiAction::Connect(asset("web"))), PickerOutcome::Connect(a) if a.name == "web"));
    let mut bare = asset("bare");
    bare.credential_id = None;
    assert!(matches!(picker_outcome(TuiAction::Connect(bare)), PickerOutcome::NeedsCredential));
}

#[test]
fn target_host_keys_are_trusted_on_first_use() {
    assert_eq!(host_key_decision(None, "SHA256:a"), HostKeyDecision::Learn);
    assert_eq!(host_key_decision(Some("SHA256:a"), "SHA256:a"), HostKeyDecision::Trusted);
    assert_eq!(host_key_decision(Some("SHA256:a"), "SHA256:b"), HostKeyDecision::Mismatch);
    assert!(host_key_accepted(HostKeyDecision::Learn));
    assert!(!host_key_accepted(HostKeyDecision::Mismatch));
}

#[test]
fn only_ed25519_host_keys_are_generated() {
    assert!(check_host_key_type("ed25519").is_ok());
    let err = check_host_key_type("rsa").unwrap_err();
    assert_eq!(err.message(), "MVP only supports ed25519 hop host keys");
}

#[test]
fn credentials_sign_in_with_their_own_secrets() {
    let mut credential = hop_server::model::Credential {
        id: "cred-1".to_string(),
        name: "deploy".to_string(),
        username: "deploy".to_string(),
        auth_type: "password".to_string(),
        password_enc: Some("sealed-password".to_string()),
        private_key_enc: None,
        passphrase_enc: None,
        created_at: None,
    };
    assert_eq!(
        target_sign_in(&credential).unwrap(),
        TargetSignIn::Password { password: "sealed-password".to_string() }
    );
    credential.auth_type = "key+passphrase".to_string();
    assert_eq!(
        target_sign_in(&credential).unwrap_err().message(),
        "credential missing private_key"
    );
    credential.private_key_enc = Some("sealed-key".to_string());
    credential.passphrase_enc = Some("sealed-pass".to_string());
    assert_eq!(
        target_sign_in(&credential).unwrap(),
        TargetSignIn::PublicKey { private_key: "sealed-key".to_string(), passphrase: Some("sealed-pass".to_string()) }
    );
    credential.auth_type = "token".to_string();
    assert!(matches!(target_sign_in(&credential), Err(SignInError::AuthType(_))));
    assert_eq!(secret_aad("cred-1", "password"), "cred-1:password");
}

#[test]
fn secret_contexts_name_the_field() {
    assert_ne!(secret_aad("cred-1", "password"), secret_aad("cred-1", "passphrase"));
    assert_eq!(secret_aad("cred-1", "private_key"), "cred-1:private_key");
}

#[test]
fn shell_on_direct_login_bridges_else_opens_the_picker() {
    let managed = asset("db");
    assert_eq!(
        channel_step(None, Some(&managed), &ChannelEvent::Shell),
        (ChannelAction::StartBridge(ManagedSessionMode::Direct), Some(ChannelKind::Bridge))
    );
    assert_eq!(channel_step(None, None, &ChannelEvent::Shell), (ChannelAction::OpenPicker, Some(ChannelKind::Picker)));
    assert_eq!(
        channel_step(None, Some(&managed), &ChannelEvent::Subsystem("sftp".to_string())),
        (ChannelAction::StartBridge(ManagedSessionMode::Sftp), Some(ChannelKind::Bridge))
    );
    assert_eq!(
        channel_step(None, None, &ChannelEvent::Subsystem("sftp".to_string())),
        (ChannelAction::RefuseSubsystem, None)
    );
    assert_eq!(channel_step(Some(ChannelKind::Picker), None, &ChannelEvent::Exec), (ChannelAction::RefuseExec, Some(ChannelKind::Picker)));
}

#[test]
fn channel_events_go_to_what_the_channel_runs() {
    let picker = Some(ChannelKind::Picker);
    let bridge = Some(ChannelKind::Bridge);
    assert_eq!(channel_step(picker, None, &ChannelEvent::Data), (ChannelAction::FeedPicker, picker));
    assert_eq!(channel_step(bridge, None, &ChannelEvent::Data), (ChannelAction::ForwardToBridge, bridge));
    assert_eq!(channel_step(picker, None, &ChannelEvent::Eof), (ChannelAction::ClosePicker, None));
    assert_eq!(channel_step(bridge, None, &ChannelEvent::Eof), (ChannelAction::ForwardToBridge, bridge));
    assert_eq!(channel_step(bridge, None, &ChannelEvent::Close), (ChannelAction::Nothing, None));
    assert_eq!(channel_step(picker, None, &ChannelEvent::WindowChange), (ChannelAction::ResizePicker, picker));
    assert_eq!(channel_step(None, None, &ChannelEvent::WindowChange), (ChannelAction::Nothing, None));
}

#[test]
fn whitespace_around_a_remote_command_changes_nothing() {
    assert_eq!(parse_exec_command(b" \t hop-version \r\n"), parse_exec_command(b"hop-version"));
    assert_eq!(parse_exec_command(b"  hop-connect db  "), parse_exec_command(b"hop-connect db"));
}
