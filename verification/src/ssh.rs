//! Decisions of the SSH front end: which remote commands and direct-login
//! usernames are accepted, the authentication banner, keep-alives, which
//! channels may carry SFTP, and how a session mode is recorded.
use vstd::prelude::*;

use crate::model::{Asset, ASSET_PROTOCOL_SSH};
use crate::text::{
    chars_eq_str, from_chars, has_char, has_whitespace, is_ws, slice_chars, starts_with,
    starts_with_chars, to_chars, trim, trim_chars,
};

verus! {

// ---------------------------------------------------------------------------
// Remote commands
// ---------------------------------------------------------------------------

/// A remote command the gateway understands.
#[derive(Debug, Clone, PartialEq, Eq)]
pub enum ExecCommand {
    Version,
    ListAssets,
    Connect { asset: String },
}

/// Why a remote command was refused.
#[derive(Debug, Clone, Copy, PartialEq, Eq, Structural)]
pub enum ExecCommandError {
    /// The command bytes are not UTF-8.
    InvalidUtf8,
    /// The command is not one the gateway understands.
    Unsupported,
    /// `hop-connect` without exactly one asset name.
    SingleAssetRequired,
}

/// What a remote command names, as mathematical values.
pub enum ExecCommandView {
    Version,
    ListAssets,
    Connect(Seq<char>),
}

/// The view of a parse result.
pub open spec fn exec_result_view(r: Result<ExecCommand, ExecCommandError>) -> Result<ExecCommandView, ExecCommandError> {
    match r {
        Ok(ExecCommand::Version) => Ok(ExecCommandView::Version),
        Ok(ExecCommand::ListAssets) => Ok(ExecCommandView::ListAssets),
        Ok(ExecCommand::Connect { asset }) => Ok(ExecCommandView::Connect(asset@)),
        Err(e) => Err(e),
    }
}

/// A text holding a whitespace character.
pub open spec fn holds_ws(s: Seq<char>) -> bool {
    exists|i: int| 0 <= i < s.len() && is_ws(#[trigger] s[i])
}

/// The command a decoded command line names.
pub open spec fn exec_command_of(text: Seq<char>) -> Result<ExecCommandView, ExecCommandError> {
    let raw = trim(text);
    if raw == "hop-version"@ {
        Ok(ExecCommandView::Version)
    } else if raw == "hop-list-assets"@ {
        Ok(ExecCommandView::ListAssets)
    } else if starts_with(raw, "hop-connect "@) {
        let asset = trim(raw.skip(12));
        if asset.len() == 0 || holds_ws(asset) {
            Err(ExecCommandError::SingleAssetRequired)
        } else {
            Ok(ExecCommandView::Connect(asset))
        }
    } else {
        Err(ExecCommandError::Unsupported)
    }
}

/// Whitespace around a remote command does not change what it names.
pub proof fn lemma_exec_command_ignores_padding(w1: Seq<char>, text: Seq<char>, w2: Seq<char>)
    requires
        crate::text::all_ws(w1),
        crate::text::all_ws(w2),
    ensures
        exec_command_of(w1 + text + w2) == exec_command_of(text),
{
    crate::text::lemma_trim_ignores_padding(w1, text, w2);
}

/// `std::str::from_utf8`, as an owned string. The contract claims what the
/// standard library documents: the bytes are accepted exactly when they are
/// valid UTF-8, and then the string holds the characters they encode.
#[verifier::external_body]
fn decode_utf8_bytes(bytes: &[u8]) -> (r: Option<String>)
    ensures
        r is Some <==> vstd::utf8::valid_utf8(bytes@),
        r matches Some(s) ==> s@ == vstd::utf8::decode_utf8(bytes@),
{
    std::str::from_utf8(bytes).ok().map(|text| text.to_string())
}

/// Reads a remote command: `hop-version`, `hop-list-assets` or
/// `hop-connect <asset>`, with surrounding whitespace ignored.
pub fn parse_exec_command(bytes: &[u8]) -> (r: Result<ExecCommand, ExecCommandError>)
    ensures
        !vstd::utf8::valid_utf8(bytes@) ==> r == Err::<ExecCommand, ExecCommandError>(ExecCommandError::InvalidUtf8),
        vstd::utf8::valid_utf8(bytes@) ==> exec_result_view(r) == exec_command_of(vstd::utf8::decode_utf8(bytes@)),
{
    let text = match decode_utf8_bytes(bytes) {
        Some(text) => text,
        None => return Err(ExecCommandError::InvalidUtf8),
    };
    let v = to_chars(text.as_str());
    let raw = trim_chars(&v);
    if chars_eq_str(&raw, "hop-version") {
        return Ok(ExecCommand::Version);
    }
    if chars_eq_str(&raw, "hop-list-assets") {
        return Ok(ExecCommand::ListAssets);
    }
    let prefix = to_chars("hop-connect ");
    proof {
        reveal_strlit("hop-connect ");
    }
    if !starts_with_chars(&raw, &prefix) {
        return Err(ExecCommandError::Unsupported);
    }
    let rest = slice_chars(&raw, 12, raw.len());
    assert(rest@ == raw@.skip(12));
    let asset = trim_chars(&rest);
    if asset.len() == 0 || has_whitespace(&asset) {
        return Err(ExecCommandError::SingleAssetRequired);
    }
    Ok(ExecCommand::Connect { asset: from_chars(&asset) })
}

/// The reply to any remote command: the gateway serves interactive and
/// direct sessions only.
pub fn unsupported_exec_command_message() -> (r: &'static str)
    ensures
        r@ == "Hop does not support SSH remote commands. Open an interactive TUI session or connect directly with <asset>@host.\n"@,
{
    "Hop does not support SSH remote commands. Open an interactive TUI session or connect directly with <asset>@host.\n"
}

// ---------------------------------------------------------------------------
// Direct login
// ---------------------------------------------------------------------------

/// Reason given when a key may not reach a target.
pub const AUTHORIZATION_DENIED: &'static str = "target not authorized or not found";

/// A request to connect straight to one asset, named as the SSH username.
#[derive(Debug, Clone, PartialEq, Eq)]
pub struct DirectLoginRequest {
    pub target: String,
}

/// Why a direct-login username was refused.
#[derive(Debug, Clone, Copy, PartialEq, Eq, Structural)]
pub enum DirectUsernameError {
    /// The username is blank.
    Empty,
    /// The username holds `@`.
    HasAt,
    /// The username holds whitespace inside.
    HasWhitespace,
}

/// Reads an SSH username as the name of the asset to connect to.
pub fn parse_direct_username(user: &str) -> (r: Result<Option<DirectLoginRequest>, DirectUsernameError>)
    ensures
        trim(user@).len() == 0 ==> r == Err::<Option<DirectLoginRequest>, DirectUsernameError>(DirectUsernameError::Empty),
        trim(user@).len() > 0 && trim(user@).contains('@') ==> r == Err::<Option<DirectLoginRequest>, DirectUsernameError>(
            DirectUsernameError::HasAt,
        ),
        trim(user@).len() > 0 && !trim(user@).contains('@') && holds_ws(trim(user@)) ==> r == Err::<
            Option<DirectLoginRequest>,
            DirectUsernameError,
        >(DirectUsernameError::HasWhitespace),
        trim(user@).len() > 0 && !trim(user@).contains('@') && !holds_ws(trim(user@)) ==> (r matches Ok(Some(req))
            && req.target@ == trim(user@)),
{
    let v = to_chars(user);
    let target = trim_chars(&v);
    if target.len() == 0 {
        return Err(DirectUsernameError::Empty);
    }
    if has_char(&target, '@') {
        return Err(DirectUsernameError::HasAt);
    }
    if has_whitespace(&target) {
        return Err(DirectUsernameError::HasWhitespace);
    }
    Ok(Some(DirectLoginRequest { target: from_chars(&target) }))
}

// ---------------------------------------------------------------------------
// Settings of the SSH listener
// ---------------------------------------------------------------------------

/// The settings of the SSH listener that its decisions read.
#[derive(Debug, Clone)]
pub struct SshSettings {
    /// Text shown before authentication; empty for none.
    pub banner: String,
    /// Seconds between keep-alive probes; zero turns them off.
    pub keepalive_interval: u64,
}

impl SshSettings {
    /// The defaults: no banner and a keep-alive every thirty seconds.
    pub fn new() -> (r: SshSettings)
        ensures
            r.banner@.len() == 0,
            r.keepalive_interval == 30,
    {
        SshSettings { banner: String::new(), keepalive_interval: 30 }
    }
}

/// The keep-alive period in seconds, or none when turned off.
pub fn ssh_keepalive_interval(config: &SshSettings) -> (r: Option<u64>)
    ensures
        config.keepalive_interval == 0 ==> r is None,
        config.keepalive_interval != 0 ==> r == Some(config.keepalive_interval),
{
    if config.keepalive_interval == 0 {
        None
    } else {
        Some(config.keepalive_interval)
    }
}

/// The banner sent before authentication: none when empty, and ending with
/// `\r\n` unless it already ends with a newline.
pub fn authentication_banner(config: &SshSettings) -> (r: Option<String>)
    ensures
        config.banner@.len() == 0 ==> r is None,
        config.banner@.len() > 0 && config.banner@.last() == '\n' ==> (r matches Some(b) && b@ == config.banner@),
        config.banner@.len() > 0 && config.banner@.last() != '\n' ==> (r matches Some(b) && b@ == config.banner@
            + seq!['\r', '\n']),
{
    let v = to_chars(config.banner.as_str());
    if v.len() == 0 {
        return None;
    }
    if v[v.len() - 1] == '\n' {
        return Some(config.banner.clone());
    }
    let mut out = v;
    out.push('\r');
    out.push('\n');
    Some(from_chars(&out))
}

// ---------------------------------------------------------------------------
// Sessions
// ---------------------------------------------------------------------------

/// The identity of an authenticated SSH key.
#[derive(Debug, Clone)]
pub struct AuthInfo {
    pub key_id: String,
    pub fingerprint: String,
    pub name: String,
}

/// Size of a pseudo-terminal, in columns and rows.
#[derive(Debug, Clone, Copy, PartialEq, Eq, Structural)]
pub struct PtySize {
    pub width: u16,
    pub height: u16,
}

impl Default for PtySize {
    fn default() -> (r: PtySize)
        ensures
            r.width == 80,
            r.height == 24,
    {
        PtySize { width: 80, height: 24 }
    }
}

impl PtySize {
    /// The size a pseudo-terminal request asks for; each dimension keeps its
    /// low sixteen bits.
    pub fn from_request(col_width: u32, row_height: u32) -> (r: PtySize)
        ensures
            r.width == col_width as u16,
            r.height == row_height as u16,
    {
        PtySize { width: col_width as u16, height: row_height as u16 }
    }
}

/// The asset a direct login found for the key may only be used when it has a
/// managed credential.
#[derive(Debug, Clone, Copy, PartialEq, Eq, Structural)]
pub struct DirectTargetWithoutCredential;

impl DirectTargetWithoutCredential {
    /// The error text.
    pub fn message(&self) -> (r: &'static str)
        ensures
            r@ == "direct target has no managed credential"@,
    {
        "direct target has no managed credential"
    }
}

/// Checks the asset a direct login resolved to: none is no direct login; one
/// without a managed credential is refused.
pub fn check_direct_asset(found: Option<Asset>) -> (r: Result<Option<Asset>, DirectTargetWithoutCredential>)
    ensures
        match found {
            None => r == Ok::<Option<Asset>, DirectTargetWithoutCredential>(None),
            Some(a) => if a.credential_id is Some {
                r matches Ok(Some(b)) && b == a
            } else {
                r == Err::<Option<Asset>, DirectTargetWithoutCredential>(DirectTargetWithoutCredential)
            },
        },
{
    match found {
        None => Ok(None),
        Some(a) => {
            if a.credential_id.is_none() {
                Err(DirectTargetWithoutCredential)
            } else {
                Ok(Some(a))
            }
        },
    }
}

/// How a managed session to a target was started.
#[derive(Debug, Clone, Copy, PartialEq, Eq, Structural)]
pub enum ManagedSessionMode {
    /// Chosen in the interactive asset picker.
    Tui,
    /// Requested by a remote command.
    Exec,
    /// Requested by logging in with the asset's name.
    Direct,
    /// An SFTP subsystem on a direct login.
    Sftp,
}

/// The name a session mode is recorded under.
pub open spec fn mode_name(mode: ManagedSessionMode) -> Seq<char> {
    match mode {
        ManagedSessionMode::Tui => "tui-connect"@,
        ManagedSessionMode::Exec => "exec-connect"@,
        ManagedSessionMode::Direct => "direct"@,
        ManagedSessionMode::Sftp => "sftp"@,
    }
}

/// The name a session mode is recorded under in the session log.
pub fn managed_session_mode(mode: ManagedSessionMode) -> (r: &'static str)
    ensures
        r@ == mode_name(mode),
{
    match mode {
        ManagedSessionMode::Tui => "tui-connect",
        ManagedSessionMode::Exec => "exec-connect",
        ManagedSessionMode::Direct => "direct",
        ManagedSessionMode::Sftp => "sftp",
    }
}

/// The name a session mode is recorded under when an attempt is denied.
pub fn managed_session_mode_name(mode: ManagedSessionMode) -> (r: &'static str)
    ensures
        r@ == mode_name(mode),
{
    managed_session_mode(mode)
}

/// An SFTP subsystem is accepted only on a direct login to an SSH asset
/// with a managed credential.
pub fn accepts_sftp_request(name: &str, asset: Option<&Asset>) -> (r: bool)
    ensures
        r == (name@ == "sftp"@ && (asset matches Some(a) && a.protocol@ == ASSET_PROTOCOL_SSH@ && a.credential_id is Some)),
{
    if !crate::text::str_eq(name, "sftp") {
        return false;
    }
    match asset {
        Some(a) => crate::text::str_eq(a.protocol.as_str(), ASSET_PROTOCOL_SSH) && a.credential_id.is_some(),
        None => false,
    }
}

// ---------------------------------------------------------------------------
// Requests on a session channel
// ---------------------------------------------------------------------------

/// What a session channel is running.
#[derive(Debug, Clone, Copy, PartialEq, Eq, Structural)]
pub enum ChannelKind {
    /// The asset picker.
    Picker,
    /// A managed session bridged to a target.
    Bridge,
}

/// A request or event from the client on a session channel.
#[derive(Debug, Clone, PartialEq, Eq)]
pub enum ChannelEvent {
    Shell,
    Exec,
    Subsystem(String),
    Data,
    Eof,
    Close,
    WindowChange,
}

/// What the gateway does about it.
#[derive(Debug, Clone, Copy, PartialEq, Eq, Structural)]
pub enum ChannelAction {
    /// Open a managed session to the asset of the direct login, in this mode.
    StartBridge(ManagedSessionMode),
    /// Show the asset picker.
    OpenPicker,
    /// Answer that remote commands are not supported, with exit status 127,
    /// and close the channel.
    RefuseExec,
    /// Refuse the subsystem.
    RefuseSubsystem,
    /// Hand the client's bytes to the picker.
    FeedPicker,
    /// Hand the client's bytes, or its end of input, to the target.
    ForwardToBridge,
    /// Leave the picker's screen and record its session as ended.
    ClosePicker,
    /// Redraw the picker at the new size.
    ResizePicker,
    /// Pass the new size to the target.
    ResizeBridge,
    Nothing,
}

/// The gateway's answer to an event on a channel, and what the channel
/// runs afterwards. A shell on a direct login opens a managed session to
/// its asset, else the picker; remote commands are refused; an SFTP
/// subsystem needs a direct login to a managed SSH asset; data, the end of
/// input and a new size go to what the channel runs; the end of input or
/// the close of the channel ends a picker.
pub open spec fn channel_outcome(
    current: Option<ChannelKind>,
    direct_asset: Option<crate::model::AssetView>,
    event: ChannelEvent,
) -> (ChannelAction, Option<ChannelKind>) {
    match event {
        ChannelEvent::Shell => match direct_asset {
            Some(_) => (ChannelAction::StartBridge(ManagedSessionMode::Direct), Some(ChannelKind::Bridge)),
            None => (ChannelAction::OpenPicker, Some(ChannelKind::Picker)),
        },
        ChannelEvent::Exec => (ChannelAction::RefuseExec, current),
        ChannelEvent::Subsystem(name) => if (name@ == "sftp"@ && (direct_asset matches Some(a) && a.protocol
            == ASSET_PROTOCOL_SSH@ && a.credential_id is Some)) {
            (ChannelAction::StartBridge(ManagedSessionMode::Sftp), Some(ChannelKind::Bridge))
        } else {
            (ChannelAction::RefuseSubsystem, current)
        },
        ChannelEvent::Data => match current {
            Some(ChannelKind::Picker) => (ChannelAction::FeedPicker, current),
            Some(ChannelKind::Bridge) => (ChannelAction::ForwardToBridge, current),
            None => (ChannelAction::Nothing, current),
        },
        ChannelEvent::Eof => match current {
            Some(ChannelKind::Picker) => (ChannelAction::ClosePicker, None),
            Some(ChannelKind::Bridge) => (ChannelAction::ForwardToBridge, current),
            None => (ChannelAction::Nothing, current),
        },
        ChannelEvent::Close => match current {
            Some(ChannelKind::Picker) => (ChannelAction::ClosePicker, None),
            _ => (ChannelAction::Nothing, None),
        },
        ChannelEvent::WindowChange => match current {
            Some(ChannelKind::Picker) => (ChannelAction::ResizePicker, current),
            Some(ChannelKind::Bridge) => (ChannelAction::ResizeBridge, current),
            None => (ChannelAction::Nothing, current),
        },
    }
}

/// Decides an event on a session channel (see `channel_outcome`).
pub fn channel_step(current: Option<ChannelKind>, direct_asset: Option<&Asset>, event: &ChannelEvent) -> (r: (
    ChannelAction,
    Option<ChannelKind>,
))
    ensures
        r == channel_outcome(current, match direct_asset {
            Some(a) => Some(a@),
            None => None,
        }, *event),
{
    match event {
        ChannelEvent::Shell => match direct_asset {
            Some(_) => (ChannelAction::StartBridge(ManagedSessionMode::Direct), Some(ChannelKind::Bridge)),
            None => (ChannelAction::OpenPicker, Some(ChannelKind::Picker)),
        },
        ChannelEvent::Exec => (ChannelAction::RefuseExec, current),
        ChannelEvent::Subsystem(name) => {
            if accepts_sftp_request(name.as_str(), direct_asset) {
                (ChannelAction::StartBridge(ManagedSessionMode::Sftp), Some(ChannelKind::Bridge))
            } else {
                (ChannelAction::RefuseSubsystem, current)
            }
        },
        ChannelEvent::Data => match current {
            Some(ChannelKind::Picker) => (ChannelAction::FeedPicker, current),
            Some(ChannelKind::Bridge) => (ChannelAction::ForwardToBridge, current),
            None => (ChannelAction::Nothing, current),
        },
        ChannelEvent::Eof => match current {
            Some(ChannelKind::Picker) => (ChannelAction::ClosePicker, None),
            Some(ChannelKind::Bridge) => (ChannelAction::ForwardToBridge, current),
            None => (ChannelAction::Nothing, current),
        },
        ChannelEvent::Close => match current {
            Some(ChannelKind::Picker) => (ChannelAction::ClosePicker, None),
            _ => (ChannelAction::Nothing, None),
        },
        ChannelEvent::WindowChange => match current {
            Some(ChannelKind::Picker) => (ChannelAction::ResizePicker, current),
            Some(ChannelKind::Bridge) => (ChannelAction::ResizeBridge, current),
            None => (ChannelAction::Nothing, current),
        },
    }
}

// ---------------------------------------------------------------------------
// Client disconnects
// ---------------------------------------------------------------------------

/// The kinds of I/O failure that a session error is told apart by.
#[derive(Debug, Clone, Copy, PartialEq, Eq, Structural)]
pub enum IoFailureKind {
    ConnectionReset,
    BrokenPipe,
    UnexpectedEof,
    Other,
}

/// An I/O failure: its kind and the operating system's error code, if any.
#[derive(Debug, Clone, Copy, PartialEq, Eq, Structural)]
pub struct IoFailure {
    pub kind: IoFailureKind,
    pub raw_os_error: Option<i32>,
}

/// An I/O failure that means the client went away: a reset, a broken pipe,
/// an unexpected end of stream, or the reset codes of Windows (10054) and
/// Linux (104).
pub open spec fn client_went_away(f: IoFailure) -> bool {
    f.kind == IoFailureKind::ConnectionReset || f.kind == IoFailureKind::BrokenPipe || f.kind
        == IoFailureKind::UnexpectedEof || f.raw_os_error == Some(10054i32) || f.raw_os_error == Some(104i32)
}

/// Whether a session error caused by the given I/O failure (if it was one)
/// is the client disconnecting.
pub fn failure_is_client_disconnect(failure: Option<IoFailure>) -> (r: bool)
    ensures
        r == (failure matches Some(f) && client_went_away(f)),
{
    match failure {
        Some(f) => {
            let kind_matches = match f.kind {
                IoFailureKind::ConnectionReset | IoFailureKind::BrokenPipe | IoFailureKind::UnexpectedEof => true,
                IoFailureKind::Other => false,
            };
            kind_matches || f.raw_os_error == Some(10054i32) || f.raw_os_error == Some(104i32)
        },
        None => false,
    }
}

/// An error of the `anyhow` crate, carried through opaquely.
#[verifier::external_type_specification]
#[verifier::external_body]
pub struct ExAnyhowError(anyhow::Error);

/// `anyhow::Error::downcast_ref::<std::io::Error>`, converted to the
/// library's view of an I/O failure. Nothing is stated of the result: what
/// an `anyhow` error wraps is not visible to the library.
#[verifier::external_body]
fn io_failure_of(error: &anyhow::Error) -> Option<IoFailure> {
    error.downcast_ref::<std::io::Error>().map(|err| IoFailure {
        kind: match err.kind() {
            std::io::ErrorKind::ConnectionReset => IoFailureKind::ConnectionReset,
            std::io::ErrorKind::BrokenPipe => IoFailureKind::BrokenPipe,
            std::io::ErrorKind::UnexpectedEof => IoFailureKind::UnexpectedEof,
            _ => IoFailureKind::Other,
        },
        raw_os_error: err.raw_os_error(),
    })
}

/// Whether a session error is the client disconnecting (logged as a
/// warning rather than an error).
pub fn is_client_disconnect(error: &anyhow::Error) -> (r: bool) {
    let failure = io_failure_of(error);
    failure_is_client_disconnect(failure)
}

} // verus!
