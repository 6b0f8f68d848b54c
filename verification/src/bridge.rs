//! The decisions of a managed session: what is forwarded from the target to
//! the client, when the session ends, and what the client is told at the end.
use vstd::prelude::*;

use crate::model::Asset;
use crate::text::{extend_str, from_chars};
use crate::tui::TuiAction;

verus! {

/// Written to the client while the target connection is being set up.
pub const CONNECTING_NOTICE: &'static str = "\r\n\u{1b}[2J\u{1b}[HConnecting to target...\r\n";

/// Written when a managed session over the TUI has ended normally.
pub const TARGET_ENDED_NOTICE: &'static str = "\r\nTarget session ended. Returning to Hop...\r\n";

/// The error recorded when the client channel closed before the TUI came back.
pub const CHANNEL_CLOSED_WHILE_REOPENING: &'static str = "ssh channel closed while reopening Hop TUI";

/// The exit status reported for refused remote commands.
pub const UNSUPPORTED_EXEC_EXIT_STATUS: u32 = 127;

/// What the target side of a managed session delivered.
#[derive(Debug, Clone, PartialEq, Eq)]
pub enum TargetEvent {
    /// Output on the standard stream.
    Data(Vec<u8>),
    /// Output on an extended stream (1 is standard error).
    ExtendedData { data: Vec<u8>, ext: u32 },
    /// The remote command exited.
    ExitStatus(u32),
    /// The target sent end of file.
    Eof,
    /// The target closed the channel.
    Close,
    /// The channel is gone.
    Closed,
    /// A message the bridge does not act on.
    Other,
}

/// What the bridge does with a target event.
#[derive(Debug, Clone, PartialEq, Eq)]
pub enum BridgeAction {
    /// Write to the client's standard stream.
    Forward(Vec<u8>),
    /// Write to the client's standard error stream.
    ForwardStderr(Vec<u8>),
    /// End the session, reporting the exit status to the client when given.
    Stop { exit_status: Option<u32> },
    /// Nothing to do.
    Ignore,
}

/// Forwards output, passes standard error on, ends the session when the
/// target exits or closes; the exit status reaches the client only when the
/// client is not going back to the TUI.
pub fn on_target_event(event: TargetEvent, return_to_tui: bool) -> (r: BridgeAction)
    ensures
        match event {
            TargetEvent::Data(d) => r == BridgeAction::Forward(d),
            TargetEvent::ExtendedData { data, ext } => if ext == 1 {
                r == BridgeAction::ForwardStderr(data)
            } else {
                r == BridgeAction::Ignore
            },
            TargetEvent::ExitStatus(s) => r == (BridgeAction::Stop {
                exit_status: if return_to_tui { None } else { Some(s) },
            }),
            TargetEvent::Eof | TargetEvent::Close | TargetEvent::Closed => r == (BridgeAction::Stop { exit_status: None }),
            TargetEvent::Other => r == BridgeAction::Ignore,
        },
{
    match event {
        TargetEvent::Data(d) => BridgeAction::Forward(d),
        TargetEvent::ExtendedData { data, ext } => {
            if ext == 1 {
                BridgeAction::ForwardStderr(data)
            } else {
                BridgeAction::Ignore
            }
        },
        TargetEvent::ExitStatus(s) => BridgeAction::Stop { exit_status: if return_to_tui { None } else { Some(s) } },
        TargetEvent::Eof | TargetEvent::Close | TargetEvent::Closed => BridgeAction::Stop { exit_status: None },
        TargetEvent::Other => BridgeAction::Ignore,
    }
}

/// What the client is told when a managed session ends: back to the TUI it
/// hears that the session ended or why the connection failed; otherwise it
/// hears only of a failure.
pub open spec fn end_notice(return_to_tui: bool, error: Option<Seq<char>>) -> Option<Seq<char>> {
    match (return_to_tui, error) {
        (true, None) => Some(TARGET_ENDED_NOTICE@),
        (true, Some(e)) => Some("\r\nTarget connection failed: "@ + e + "\r\nReturning to Hop...\r\n"@),
        (false, Some(e)) => Some("\r\nhop-connect failed: "@ + e + "\r\n"@),
        (false, None) => None,
    }
}

/// The notice for the end of a managed session (see `end_notice`).
pub fn bridge_end_notice(return_to_tui: bool, error: Option<&str>) -> (r: Option<String>)
    ensures
        crate::model::opt_view(r) == end_notice(return_to_tui, match error { Some(e) => Some(e@), None => None::<Seq<char>> }),
{
    match (return_to_tui, error) {
        (true, None) => Some(TARGET_ENDED_NOTICE.to_string()),
        (true, Some(e)) => {
            let mut out: Vec<char> = Vec::new();
            extend_str(&mut out, "\r\nTarget connection failed: ");
            extend_str(&mut out, e);
            extend_str(&mut out, "\r\nReturning to Hop...\r\n");
            Some(from_chars(&out))
        },
        (false, Some(e)) => {
            let mut out: Vec<char> = Vec::new();
            extend_str(&mut out, "\r\nhop-connect failed: ");
            extend_str(&mut out, e);
            extend_str(&mut out, "\r\n");
            Some(from_chars(&out))
        },
        (false, None) => None,
    }
}

/// The notice when the TUI could not be reopened after a session.
pub fn tui_reopen_failure_notice(error: &str) -> (r: String)
    ensures
        r@ == "\r\nFailed to reopen Hop TUI: "@ + error@ + "\r\n"@,
{
    let mut out: Vec<char> = Vec::new();
    extend_str(&mut out, "\r\nFailed to reopen Hop TUI: ");
    extend_str(&mut out, error);
    extend_str(&mut out, "\r\n");
    from_chars(&out)
}

/// Written when the chosen asset can only be reached by forwarding.
pub const NO_MANAGED_CREDENTIAL_NOTICE: &'static str = "\r\nAsset has no managed credential; use ProxyJump instead.\r\n";

/// What the SSH channel does after the picker handled a key.
#[derive(Debug)]
pub enum PickerOutcome {
    /// Keep the picker open.
    Stay,
    /// Leave the picker, record its session as `ok`, close the channel with
    /// exit status 0.
    Close,
    /// Stay in the picker and write `NO_MANAGED_CREDENTIAL_NOTICE`.
    NeedsCredential,
    /// Leave the picker, record its session as `connected`, and start a
    /// managed session to the asset.
    Connect(Asset),
}

/// The channel's step after a picker action.
pub fn picker_outcome(action: TuiAction) -> (r: PickerOutcome)
    ensures
        match action {
            TuiAction::Idle => r is Stay,
            TuiAction::Quit => r is Close,
            TuiAction::Connect(a) => if a.credential_id is Some {
                r matches PickerOutcome::Connect(b) && b == a
            } else {
                r is NeedsCredential
            },
        },
{
    match action {
        TuiAction::Idle => PickerOutcome::Stay,
        TuiAction::Quit => PickerOutcome::Close,
        TuiAction::Connect(a) => {
            if a.credential_id.is_none() {
                PickerOutcome::NeedsCredential
            } else {
                PickerOutcome::Connect(a)
            }
        },
    }
}

} // verus!
