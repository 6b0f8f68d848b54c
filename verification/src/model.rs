//! The catalog records that the gateway's logic reads: assets (SSH or TCP
//! targets), stored credentials and trusted host keys, with the protocol and
//! preset names that assets carry.
use vstd::prelude::*;

verus! {

/// Protocol of an asset reached through a managed SSH session.
pub const ASSET_PROTOCOL_SSH: &'static str = "ssh";
/// Protocol of an asset reached only through TCP forwarding.
pub const ASSET_PROTOCOL_TCP: &'static str = "tcp";
/// Preset of a TCP asset that serves the Remote Desktop Protocol.
pub const ASSET_PRESET_RDP: &'static str = "rdp";
/// Preset of a TCP asset that serves VNC.
pub const ASSET_PRESET_VNC: &'static str = "vnc";
/// Preset of a TCP asset that serves MySQL.
pub const ASSET_PRESET_MYSQL: &'static str = "mysql";
/// Preset of a TCP asset that serves PostgreSQL.
pub const ASSET_PRESET_POSTGRES: &'static str = "postgres";
/// Preset of a TCP asset that serves Redis.
pub const ASSET_PRESET_REDIS: &'static str = "redis";

/// An asset of the catalog.
#[derive(Debug)]
pub struct Asset {
    pub id: String,
    pub name: String,
    pub protocol: String,
    pub preset: Option<String>,
    pub hostname: String,
    pub port: i64,
    pub description: Option<String>,
    pub tags: Vec<String>,
    pub credential_id: Option<String>,
    pub created_at: Option<String>,
    pub updated_at: Option<String>,
}

/// The fields of an asset to create or to write over an existing one.
#[derive(Debug)]
pub struct NewAsset {
    pub name: String,
    pub protocol: String,
    pub preset: Option<String>,
    pub hostname: String,
    pub port: i64,
    pub description: Option<String>,
    pub tags: Vec<String>,
    pub credential_id: Option<String>,
}

/// A stored credential; the secret fields hold encrypted envelopes.
#[derive(Debug)]
pub struct Credential {
    pub id: String,
    pub name: String,
    pub username: String,
    pub auth_type: String,
    pub password_enc: Option<String>,
    pub private_key_enc: Option<String>,
    pub passphrase_enc: Option<String>,
    pub created_at: Option<String>,
}

/// A host key trusted for a target.
#[derive(Debug)]
pub struct KnownHost {
    pub hostname: String,
    pub port: i64,
    pub key_type: String,
    pub fingerprint: String,
    pub first_seen: Option<String>,
}

/// The character view of an optional string.
pub open spec fn opt_view(o: Option<String>) -> Option<Seq<char>> {
    match o {
        Some(s) => Some(s@),
        None => None,
    }
}

/// The character view of a list of strings.
pub open spec fn strings_view(v: Seq<String>) -> Seq<Seq<char>> {
    v.map_values(|s: String| s@)
}

/// What an asset holds, as mathematical values.
pub struct AssetView {
    pub id: Seq<char>,
    pub name: Seq<char>,
    pub protocol: Seq<char>,
    pub preset: Option<Seq<char>>,
    pub hostname: Seq<char>,
    pub port: i64,
    pub description: Option<Seq<char>>,
    pub tags: Seq<Seq<char>>,
    pub credential_id: Option<Seq<char>>,
    pub created_at: Option<Seq<char>>,
    pub updated_at: Option<Seq<char>>,
}

impl View for Asset {
    type V = AssetView;

    open spec fn view(&self) -> AssetView {
        AssetView {
            id: self.id@,
            name: self.name@,
            protocol: self.protocol@,
            preset: opt_view(self.preset),
            hostname: self.hostname@,
            port: self.port,
            description: opt_view(self.description),
            tags: strings_view(self.tags@),
            credential_id: opt_view(self.credential_id),
            created_at: opt_view(self.created_at),
            updated_at: opt_view(self.updated_at),
        }
    }
}

/// What the fields of a new asset hold.
pub struct NewAssetView {
    pub name: Seq<char>,
    pub protocol: Seq<char>,
    pub preset: Option<Seq<char>>,
    pub hostname: Seq<char>,
    pub port: i64,
    pub description: Option<Seq<char>>,
    pub tags: Seq<Seq<char>>,
    pub credential_id: Option<Seq<char>>,
}

impl View for NewAsset {
    type V = NewAssetView;

    open spec fn view(&self) -> NewAssetView {
        NewAssetView {
            name: self.name@,
            protocol: self.protocol@,
            preset: opt_view(self.preset),
            hostname: self.hostname@,
            port: self.port,
            description: opt_view(self.description),
            tags: strings_view(self.tags@),
            credential_id: opt_view(self.credential_id),
        }
    }
}

/// What a credential holds.
pub struct CredentialView {
    pub id: Seq<char>,
    pub name: Seq<char>,
    pub username: Seq<char>,
    pub auth_type: Seq<char>,
    pub password_enc: Option<Seq<char>>,
    pub private_key_enc: Option<Seq<char>>,
    pub passphrase_enc: Option<Seq<char>>,
    pub created_at: Option<Seq<char>>,
}

impl View for Credential {
    type V = CredentialView;

    open spec fn view(&self) -> CredentialView {
        CredentialView {
            id: self.id@,
            name: self.name@,
            username: self.username@,
            auth_type: self.auth_type@,
            password_enc: opt_view(self.password_enc),
            private_key_enc: opt_view(self.private_key_enc),
            passphrase_enc: opt_view(self.passphrase_enc),
            created_at: opt_view(self.created_at),
        }
    }
}

/// A copy of an optional string.
pub fn clone_opt(o: &Option<String>) -> (r: Option<String>)
    ensures
        r == *o,
{
    match o {
        Some(s) => Some(s.clone()),
        None => None,
    }
}

/// A copy of a list of strings.
pub fn clone_strings(v: &Vec<String>) -> (r: Vec<String>)
    ensures
        r@ == v@,
{
    let mut r: Vec<String> = Vec::new();
    let mut i: usize = 0;
    while i < v.len()
        invariant
            i <= v.len(),
            r@ == v@.take(i as int),
        decreases v.len() - i,
    {
        r.push(v[i].clone());
        assert(v@.take(i as int).push(v@[i as int]) =~= v@.take(i + 1));
        i += 1;
    }
    assert(v@.take(v.len() as int) =~= v@);
    r
}

impl Clone for Asset {
    fn clone(&self) -> (r: Self)
        ensures
            r@ == self@,
    {
        Asset {
            id: self.id.clone(),
            name: self.name.clone(),
            protocol: self.protocol.clone(),
            preset: clone_opt(&self.preset),
            hostname: self.hostname.clone(),
            port: self.port,
            description: clone_opt(&self.description),
            tags: clone_strings(&self.tags),
            credential_id: clone_opt(&self.credential_id),
            created_at: clone_opt(&self.created_at),
            updated_at: clone_opt(&self.updated_at),
        }
    }
}

impl Clone for Credential {
    fn clone(&self) -> (r: Self)
        ensures
            r@ == self@,
    {
        Credential {
            id: self.id.clone(),
            name: self.name.clone(),
            username: self.username.clone(),
            auth_type: self.auth_type.clone(),
            password_enc: clone_opt(&self.password_enc),
            private_key_enc: clone_opt(&self.private_key_enc),
            passphrase_enc: clone_opt(&self.passphrase_enc),
            created_at: clone_opt(&self.created_at),
        }
    }
}

impl NewAsset {
    /// An SSH asset with the given name, host and port and nothing else set.
    pub fn new(name: &str, hostname: &str, port: i64) -> (r: NewAsset)
        ensures
            r.name@ == name@,
            r.hostname@ == hostname@,
            r.port == port,
            r.protocol@ == ASSET_PROTOCOL_SSH@,
            r.preset.is_none(),
            r.description.is_none(),
            r.tags@.len() == 0,
            r.credential_id.is_none(),
    {
        NewAsset {
            name: name.to_string(),
            protocol: ASSET_PROTOCOL_SSH.to_string(),
            preset: None,
            hostname: hostname.to_string(),
            port,
            description: None,
            tags: Vec::new(),
            credential_id: None,
        }
    }
}

// ---------------------------------------------------------------------------
// Catalog rules for asset fields
// ---------------------------------------------------------------------------

/// Why asset fields were refused.
#[derive(Debug, Clone, Copy, PartialEq, Eq, Structural)]
pub enum CatalogRuleError {
    UnsupportedProtocol,
    UnsupportedPreset,
    InvalidPort,
}

/// A TCP port: 1 to 65535.
pub open spec fn tcp_port_ok(port: i64) -> bool {
    1 <= port <= 65535
}

/// The port as a `u16`, when it is a TCP port.
pub fn validate_tcp_port(port: i64) -> (r: Result<u16, CatalogRuleError>)
    ensures
        tcp_port_ok(port) ==> r == Ok::<u16, CatalogRuleError>(port as u16),
        !tcp_port_ok(port) ==> r == Err::<u16, CatalogRuleError>(CatalogRuleError::InvalidPort),
{
    if 1 <= port && port <= 65535 {
        Ok(port as u16)
    } else {
        Err(CatalogRuleError::InvalidPort)
    }
}

/// One of the TCP presets.
pub open spec fn is_preset(p: Seq<char>) -> bool {
    p == ASSET_PRESET_RDP@ || p == ASSET_PRESET_VNC@ || p == ASSET_PRESET_MYSQL@ || p == ASSET_PRESET_POSTGRES@
        || p == ASSET_PRESET_REDIS@
}

fn is_preset_exec(p: &str) -> (r: bool)
    ensures
        r == is_preset(p@),
{
    crate::text::str_eq(p, ASSET_PRESET_RDP) || crate::text::str_eq(p, ASSET_PRESET_VNC) || crate::text::str_eq(
        p,
        ASSET_PRESET_MYSQL,
    ) || crate::text::str_eq(p, ASSET_PRESET_POSTGRES) || crate::text::str_eq(p, ASSET_PRESET_REDIS)
}

/// The stored protocol and preset for a submitted protocol and preset: SSH
/// carries no preset; plain TCP keeps a known preset (a blank one is none);
/// a preset named as the protocol is TCP with that preset; anything else is
/// refused.
pub open spec fn protocol_rule(protocol: Seq<char>, preset: Option<Seq<char>>) -> Result<(Seq<char>, Option<Seq<char>>), CatalogRuleError> {
    if protocol == ASSET_PROTOCOL_SSH@ {
        Ok((ASSET_PROTOCOL_SSH@, None))
    } else if protocol == ASSET_PROTOCOL_TCP@ {
        match preset {
            None => Ok((ASSET_PROTOCOL_TCP@, None)),
            Some(p) => if crate::text::trim(p).len() == 0 {
                Ok((ASSET_PROTOCOL_TCP@, None))
            } else if is_preset(p) {
                Ok((ASSET_PROTOCOL_TCP@, Some(p)))
            } else {
                Err(CatalogRuleError::UnsupportedPreset)
            },
        }
    } else if is_preset(protocol) {
        Ok((ASSET_PROTOCOL_TCP@, Some(protocol)))
    } else {
        Err(CatalogRuleError::UnsupportedProtocol)
    }
}

/// The view of a protocol and preset pair.
pub open spec fn protocol_pair_view(r: Result<(String, Option<String>), CatalogRuleError>) -> Result<(Seq<char>, Option<Seq<char>>), CatalogRuleError> {
    match r {
        Ok((p, q)) => Ok((p@, opt_view(q))),
        Err(e) => Err(e),
    }
}

/// Applies `protocol_rule`.
pub fn normalize_asset_protocol(protocol: &str, preset: Option<&str>) -> (r: Result<(String, Option<String>), CatalogRuleError>)
    ensures
        protocol_pair_view(r) == protocol_rule(protocol@, match preset { Some(p) => Some(p@), None => None::<Seq<char>> }),
{
    if crate::text::str_eq(protocol, ASSET_PROTOCOL_SSH) {
        Ok((ASSET_PROTOCOL_SSH.to_string(), None))
    } else if crate::text::str_eq(protocol, ASSET_PROTOCOL_TCP) {
        match preset {
            None => Ok((ASSET_PROTOCOL_TCP.to_string(), None)),
            Some(p) => {
                if crate::text::is_blank(&crate::text::to_chars(p)) {
                    Ok((ASSET_PROTOCOL_TCP.to_string(), None))
                } else if is_preset_exec(p) {
                    Ok((ASSET_PROTOCOL_TCP.to_string(), Some(p.to_string())))
                } else {
                    Err(CatalogRuleError::UnsupportedPreset)
                }
            },
        }
    } else if is_preset_exec(protocol) {
        Ok((ASSET_PROTOCOL_TCP.to_string(), Some(protocol.to_string())))
    } else {
        Err(CatalogRuleError::UnsupportedProtocol)
    }
}

/// Only SSH assets are reached with a managed credential.
pub fn protocol_supports_managed_credentials(protocol: &str) -> (r: bool)
    ensures
        r == (protocol@ == ASSET_PROTOCOL_SSH@),
{
    crate::text::str_eq(protocol, ASSET_PROTOCOL_SSH)
}

// ---------------------------------------------------------------------------
// Sessions and asset health
// ---------------------------------------------------------------------------

/// A recorded gateway session.
#[derive(Debug, Clone, PartialEq, Eq)]
pub struct Session {
    pub id: String,
    pub key_finger: String,
    pub key_name: Option<String>,
    pub mode: String,
    pub asset_name: Option<String>,
    pub target_host: Option<String>,
    pub target_port: Option<i64>,
    pub client_ip: Option<String>,
    pub status: String,
    pub error: Option<String>,
    pub started_at: Option<String>,
    pub ended_at: Option<String>,
}

/// A recorded administrator action, as the audit log shows it.
pub struct AuditEvent {
    pub occurred_at: Option<String>,
    pub actor_label: String,
    pub source_ip: Option<String>,
    pub action: String,
    pub target_type: String,
    pub target_id: Option<String>,
    pub target_label: Option<String>,
    pub details_json: Option<String>,
    pub result: String,
}

/// Health status of an asset whose last probe succeeded.
pub const ASSET_HEALTH_HEALTHY: &'static str = "healthy";
/// Health status of an asset whose last probe failed.
pub const ASSET_HEALTH_FAILED: &'static str = "failed";
/// Health status of an asset that was never probed.
pub const ASSET_HEALTH_UNKNOWN: &'static str = "unknown";

/// The last probe result of an asset.
#[derive(Debug, Clone, PartialEq, Eq)]
pub struct AssetHealth {
    pub asset_id: String,
    pub status: String,
    pub checked_at: Option<String>,
    pub error: Option<String>,
}

// ---------------------------------------------------------------------------
// How a credential authenticates
// ---------------------------------------------------------------------------

/// How a stored credential signs in to a target.
#[derive(Debug, Clone, Copy, PartialEq, Eq, Structural)]
pub enum AuthType {
    Password,
    Key,
    KeyWithPassphrase,
}

/// The stored name of an auth type.
pub open spec fn auth_type_name(t: AuthType) -> Seq<char> {
    match t {
        AuthType::Password => "password"@,
        AuthType::Key => "key"@,
        AuthType::KeyWithPassphrase => "key+passphrase"@,
    }
}

impl AuthType {
    /// `password`, `key` or `key+passphrase`.
    pub fn as_str(&self) -> (r: &'static str)
        ensures
            r@ == auth_type_name(*self),
    {
        match self {
            AuthType::Password => "password",
            AuthType::Key => "key",
            AuthType::KeyWithPassphrase => "key+passphrase",
        }
    }

    /// The auth type a stored name names; other names are refused with the
    /// name itself.
    pub fn parse(value: &str) -> (r: Result<AuthType, String>)
        ensures
            match r {
                Ok(t) => auth_type_name(t) == value@,
                Err(e) => e@ == "unsupported auth type: "@ + value@ && value@ != auth_type_name(AuthType::Password)
                    && value@ != auth_type_name(AuthType::Key) && value@ != auth_type_name(AuthType::KeyWithPassphrase),
            },
    {
        if crate::text::str_eq(value, "password") {
            Ok(AuthType::Password)
        } else if crate::text::str_eq(value, "key") {
            Ok(AuthType::Key)
        } else if crate::text::str_eq(value, "key+passphrase") {
            Ok(AuthType::KeyWithPassphrase)
        } else {
            let mut out: Vec<char> = Vec::new();
            crate::text::extend_str(&mut out, "unsupported auth type: ");
            crate::text::extend_str(&mut out, value);
            Err(crate::text::from_chars(&out))
        }
    }
}

// ---------------------------------------------------------------------------
// Access keys
// ---------------------------------------------------------------------------

/// Which assets an access key reaches.
#[derive(Debug, Clone, Copy, PartialEq, Eq, Structural)]
pub enum AssetAccessMode {
    All,
    Restricted,
}

/// The stored name of an access mode.
pub open spec fn access_mode_name(m: AssetAccessMode) -> Seq<char> {
    match m {
        AssetAccessMode::All => "all"@,
        AssetAccessMode::Restricted => "restricted"@,
    }
}

impl AssetAccessMode {
    /// `all` or `restricted`.
    pub fn as_str(&self) -> (r: &'static str)
        ensures
            r@ == access_mode_name(*self),
    {
        match self {
            AssetAccessMode::All => "all",
            AssetAccessMode::Restricted => "restricted",
        }
    }
}

/// An SSH identity that may sign in to the gateway.
#[derive(Debug, Clone, PartialEq, Eq)]
pub struct AuthorizedKey {
    pub id: String,
    pub name: String,
    pub public_key: String,
    pub fingerprint: String,
    pub is_active: bool,
    pub asset_access_mode: AssetAccessMode,
    pub created_at: Option<String>,
}

} // verus!
