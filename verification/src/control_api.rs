//! Decisions of the Control API: the single management token, the CORS
//! allow list, which credential secrets a write seals or keeps, the access
//! scope of an access key, and the error bodies the API answers with.
use vstd::prelude::*;

use sha2::Digest;
use subtle::ConstantTimeEq;

use crate::pages::{BindAddress, IpAddress};
use crate::model::{auth_type_name, opt_view, strings_view, AssetAccessMode, AuthType, Credential, CredentialView};
use crate::text::{starts_with, str_eq, to_chars, trim, trim_str};

verus! {

// ---------------------------------------------------------------------------
// The management token
// ---------------------------------------------------------------------------

/// The SHA-256 digest `sha2` computes for a byte string.
pub uninterp spec fn sha256_of(bytes: Seq<u8>) -> Seq<u8>;

/// `sha2::Sha256::digest`. The contract claims that the digest is a function
/// of the bytes alone, named `sha256_of`.
#[verifier::external_body]
fn sha256_digest(bytes: &[u8]) -> (r: [u8; 32])
    ensures
        r@ == sha256_of(bytes@),
{
    sha2::Sha256::digest(bytes).into()
}

/// `subtle::ConstantTimeEq::ct_eq` on two digests, as a `bool`: true exactly
/// when they are equal, compared in time that does not depend on where they
/// differ.
#[verifier::external_body]
fn digests_equal(a: &[u8; 32], b: &[u8; 32]) -> (r: bool)
    ensures
        r == (a@ == b@),
{
    bool::from(a.ct_eq(b))
}

/// Why the Control API could not be set up.
#[derive(Debug, Clone, PartialEq, Eq)]
pub enum ControlApiError {
    /// The configured token is blank.
    EmptyToken,
    /// `*` was listed beside explicit origins.
    WildcardMixedWithOrigins,
}

impl ControlApiError {
    /// The error text.
    pub fn message(&self) -> (r: &'static str)
        ensures
            r@ == match self {
                ControlApiError::EmptyToken => "Control API token must not be empty"@,
                ControlApiError::WildcardMixedWithOrigins => "api.cors_allowlist wildcard '*' must be the only entry"@,
            },
    {
        match self {
            ControlApiError::EmptyToken => "Control API token must not be empty",
            ControlApiError::WildcardMixedWithOrigins => "api.cors_allowlist wildcard '*' must be the only entry",
        }
    }
}

/// The token the Control API accepts, kept only as the digest of its
/// trimmed text.
pub struct ManagementToken {
    hash: [u8; 32],
}

impl ManagementToken {
    /// The digest the token is kept as.
    pub closed spec fn digest(&self) -> Seq<u8> {
        self.hash@
    }

    /// Keeps a configured token; a blank one is refused.
    pub fn new(token: &str) -> (r: Result<ManagementToken, ControlApiError>)
        ensures
            trim(token@).len() == 0 ==> r == Err::<ManagementToken, ControlApiError>(ControlApiError::EmptyToken),
            trim(token@).len() > 0 ==> (r matches Ok(t) && t.digest() == sha256_of(vstd::utf8::encode_utf8(trim(token@)))),
    {
        let trimmed = trim_str(token);
        if trimmed.as_str().is_empty() {
            return Err(ControlApiError::EmptyToken);
        }
        let hash = sha256_digest(trimmed.as_str().as_bytes());
        Ok(ManagementToken { hash })
    }

    /// Whether a request's `Authorization` header carries the token: the
    /// text after `Bearer ` is hashed and compared with the kept digest in
    /// constant time; a missing or other header is taken as an empty token.
    pub fn authenticate(&self, authorization: Option<&str>) -> (r: bool)
        ensures
            r == (sha256_of(vstd::utf8::encode_utf8(bearer_token(match authorization { Some(a) => Some(a@), None => None::<Seq<char>> })))
                == self.digest()),
    {
        let supplied: String = match authorization {
            Some(value) => {
                let v = to_chars(value);
                let prefix = to_chars("Bearer ");
                if crate::text::starts_with_chars(&v, &prefix) {
                    proof {
                        reveal_strlit("Bearer ");
                    }
                    let rest = crate::text::slice_chars(&v, 7, v.len());
                    crate::text::from_chars(&rest)
                } else {
                    String::new()
                }
            },
            None => String::new(),
        };
        let digest = sha256_digest(supplied.as_str().as_bytes());
        digests_equal(&self.hash, &digest)
    }
}

/// The token a header carries: what follows `Bearer `, else nothing.
pub open spec fn bearer_token(header: Option<Seq<char>>) -> Seq<char> {
    match header {
        Some(h) => if starts_with(h, "Bearer "@) { h.skip(7) } else { Seq::empty() },
        None => Seq::empty(),
    }
}

/// A token made from a configured text accepts a request that presents the
/// trimmed text after `Bearer `.
pub proof fn lemma_configured_token_accepted(configured: Seq<char>, t: ManagementToken)
    requires
        t.digest() == sha256_of(vstd::utf8::encode_utf8(trim(configured))),
    ensures
        sha256_of(vstd::utf8::encode_utf8(bearer_token(Some("Bearer "@ + trim(configured))))) == t.digest(),
{
    reveal_strlit("Bearer ");
    let h = "Bearer "@ + trim(configured);
    assert(h.subrange(0, 7) =~= "Bearer "@);
    assert(h.skip(7) =~= trim(configured));
}

// ---------------------------------------------------------------------------
// CORS
// ---------------------------------------------------------------------------

/// Which browser origins may call the API.
#[derive(Debug, Clone, PartialEq, Eq)]
pub enum CorsPlan {
    /// No cross-origin access.
    NoOrigins,
    /// Any origin (`*` alone).
    AnyOrigin,
    /// Exactly these origins.
    Origins(Vec<String>),
}

/// The CORS plan for an allow list: empty is none, `*` alone is any, `*`
/// beside other entries is refused, else the list as given.
pub fn cors_plan(allowlist: &Vec<String>) -> (r: Result<CorsPlan, ControlApiError>)
    ensures
        allowlist@.len() == 0 ==> r == Ok::<CorsPlan, ControlApiError>(CorsPlan::NoOrigins),
        allowlist@.len() == 1 && allowlist@[0]@ == "*"@ ==> r == Ok::<CorsPlan, ControlApiError>(CorsPlan::AnyOrigin),
        !(allowlist@.len() == 0) && !(allowlist@.len() == 1 && allowlist@[0]@ == "*"@) ==> if strings_view(allowlist@).contains("*"@) {
            r == Err::<CorsPlan, ControlApiError>(ControlApiError::WildcardMixedWithOrigins)
        } else {
            r matches Ok(CorsPlan::Origins(o)) && strings_view(o@) == strings_view(allowlist@)
        },
{
    if allowlist.len() == 0 {
        return Ok(CorsPlan::NoOrigins);
    }
    if allowlist.len() == 1 && str_eq(allowlist[0].as_str(), "*") {
        return Ok(CorsPlan::AnyOrigin);
    }
    let mut i: usize = 0;
    while i < allowlist.len()
        invariant
            i <= allowlist.len(),
            allowlist@.len() > 0,
            !(allowlist@.len() == 1 && allowlist@[0]@ == "*"@),
            forall|j: int| 0 <= j < i ==> strings_view(allowlist@)[j] != "*"@,
        decreases allowlist.len() - i,
    {
        if str_eq(allowlist[i].as_str(), "*") {
            assert(strings_view(allowlist@)[i as int] == "*"@);
            return Err(ControlApiError::WildcardMixedWithOrigins);
        }
        i += 1;
    }
    let mut origins: Vec<String> = Vec::new();
    let mut k: usize = 0;
    while k < allowlist.len()
        invariant
            k <= allowlist.len(),
            allowlist@.len() > 0,
            !(allowlist@.len() == 1 && allowlist@[0]@ == "*"@),
            !strings_view(allowlist@).contains("*"@),
            strings_view(origins@) == strings_view(allowlist@).take(k as int),
        decreases allowlist.len() - k,
    {
        let ghost before = origins@;
        origins.push(allowlist[k].clone());
        assert(strings_view(origins@) =~= strings_view(before).push(allowlist@[k as int]@));
        assert(strings_view(allowlist@).take(k + 1) =~= strings_view(allowlist@).take(k as int).push(allowlist@[k as int]@));
        k += 1;
    }
    assert(strings_view(allowlist@).take(allowlist.len() as int) =~= strings_view(allowlist@));
    Ok(CorsPlan::Origins(origins))
}

// ---------------------------------------------------------------------------
// Credential writes
// ---------------------------------------------------------------------------

/// Where a stored secret of a credential write comes from.
#[derive(Debug, Clone, PartialEq, Eq)]
pub enum SecretSource {
    /// Seal this new value.
    Seal(String),
    /// Keep this sealed value of the credential being replaced.
    Keep(String),
    /// Store nothing.
    Absent,
}

/// What a secret source holds, as mathematical values.
pub enum SecretSourceView {
    Seal(Seq<char>),
    Keep(Seq<char>),
    Absent,
}

/// The view of a secret source.
pub open spec fn source_view(s: SecretSource) -> SecretSourceView {
    match s {
        SecretSource::Seal(v) => SecretSourceView::Seal(v@),
        SecretSource::Keep(v) => SecretSourceView::Keep(v@),
        SecretSource::Absent => SecretSourceView::Absent,
    }
}

/// The three secrets of a credential write.
#[derive(Debug, Clone, PartialEq, Eq)]
pub struct CredentialSecretPlan {
    pub password: SecretSource,
    pub private_key: SecretSource,
    pub passphrase: SecretSource,
}

/// One secret: not used by the auth type, nothing; else a new value is
/// sealed; else the old sealed value is kept when the old credential used
/// this secret too.
pub open spec fn secret_plan(used: bool, new_value: Option<Seq<char>>, kept: Option<Seq<char>>) -> SecretSourceView {
    if !used {
        SecretSourceView::Absent
    } else {
        match new_value {
            Some(v) => SecretSourceView::Seal(v),
            None => match kept {
                Some(k) => SecretSourceView::Keep(k),
                None => SecretSourceView::Absent,
            },
        }
    }
}

/// Whether an auth type name uses a password.
pub open spec fn uses_password_name(t: Seq<char>) -> bool {
    t == "password"@
}

/// Whether an auth type name uses a private key.
pub open spec fn uses_key_name(t: Seq<char>) -> bool {
    t != "password"@
}

/// Whether an auth type name uses a passphrase.
pub open spec fn uses_passphrase_name(t: Seq<char>) -> bool {
    t == "key+passphrase"@
}

fn keep_if(existing: Option<&Credential>, used: bool, value: &Option<String>) -> (r: Option<String>)
    ensures
        opt_view(r) == if used && existing is Some { opt_view(*value) } else { None::<Seq<char>> },
{
    if used && existing.is_some() {
        crate::model::clone_opt(value)
    } else {
        None
    }
}

fn plan_one(used: bool, new_value: Option<String>, kept: Option<String>) -> (r: SecretSource)
    ensures
        source_view(r) == secret_plan(used, opt_view(new_value), opt_view(kept)),
{
    if !used {
        SecretSource::Absent
    } else {
        match new_value {
            Some(v) => SecretSource::Seal(v),
            None => match kept {
                Some(k) => SecretSource::Keep(k),
                None => SecretSource::Absent,
            },
        }
    }
}

/// Which secrets a credential write seals, keeps or drops: the password for
/// password credentials, the private key for key credentials, the
/// passphrase for key-with-passphrase credentials; a secret not sent keeps
/// the replaced credential's sealed value when that credential used it.
pub fn plan_credential_secrets(
    auth_type: AuthType,
    password: Option<String>,
    private_key: Option<String>,
    passphrase: Option<String>,
    existing: Option<&Credential>,
) -> (r: CredentialSecretPlan)
    ensures
        source_view(r.password) == secret_plan(
            auth_type == AuthType::Password,
            opt_view(password),
            match existing { Some(c) => if uses_password_name(c@.auth_type) { c@.password_enc } else { None }, None => None },
        ),
        source_view(r.private_key) == secret_plan(
            auth_type != AuthType::Password,
            opt_view(private_key),
            match existing { Some(c) => if uses_key_name(c@.auth_type) { c@.private_key_enc } else { None }, None => None },
        ),
        source_view(r.passphrase) == secret_plan(
            auth_type == AuthType::KeyWithPassphrase,
            opt_view(passphrase),
            match existing { Some(c) => if uses_passphrase_name(c@.auth_type) { c@.passphrase_enc } else { None }, None => None },
        ),
{
    let (old_password, old_key, old_passphrase) = match existing {
        Some(c) => {
            let t = c.auth_type.as_str();
            let is_password = str_eq(t, "password");
            let is_key_pass = str_eq(t, "key+passphrase");
            (
                keep_if(existing, is_password, &c.password_enc),
                keep_if(existing, !is_password, &c.private_key_enc),
                keep_if(existing, is_key_pass, &c.passphrase_enc),
            )
        },
        None => (None, None, None),
    };
    let uses_password = match auth_type {
        AuthType::Password => true,
        _ => false,
    };
    let uses_passphrase = match auth_type {
        AuthType::KeyWithPassphrase => true,
        _ => false,
    };
    CredentialSecretPlan {
        password: plan_one(uses_password, password, old_password),
        private_key: plan_one(!uses_password, private_key, old_key),
        passphrase: plan_one(uses_passphrase, passphrase, old_passphrase),
    }
}

// ---------------------------------------------------------------------------
// Access keys
// ---------------------------------------------------------------------------

/// The scope an API request gives a key: no asset list means every asset,
/// a list (even an empty one) means exactly those.
pub fn access_scope(assets: Option<Vec<String>>) -> (r: (AssetAccessMode, Vec<String>))
    ensures
        match assets {
            None => r.0 == AssetAccessMode::All && r.1@.len() == 0,
            Some(a) => r.0 == AssetAccessMode::Restricted && r.1@ == a@,
        },
{
    match assets {
        None => (AssetAccessMode::All, Vec::new()),
        Some(a) => (AssetAccessMode::Restricted, a),
    }
}

/// Whether a secret is stored, as the API reports it.
#[derive(Debug, Clone, Copy, PartialEq, Eq, Structural)]
pub enum SecretStatus {
    Configured,
    Missing,
}

impl SecretStatus {
    /// `Configured` for a stored secret, else `Missing`.
    pub fn from_configured(configured: bool) -> (r: SecretStatus)
        ensures
            r == if configured { SecretStatus::Configured } else { SecretStatus::Missing },
    {
        if configured { SecretStatus::Configured } else { SecretStatus::Missing }
    }

    /// `configured` or `missing`.
    pub fn as_str(&self) -> (r: &'static str)
        ensures
            r@ == match self { SecretStatus::Configured => "configured"@, SecretStatus::Missing => "missing"@ },
    {
        match self {
            SecretStatus::Configured => "configured",
            SecretStatus::Missing => "missing",
        }
    }
}

/// The protocol an asset written through the API gets when none is sent.
pub fn default_asset_protocol() -> (r: String)
    ensures
        r@ == "ssh"@,
{
    "ssh".to_string()
}

// ---------------------------------------------------------------------------
// Error answers
// ---------------------------------------------------------------------------

/// An error answer of the API: HTTP status, code, the offending path if
/// any, and a message.
#[derive(Debug, Clone, PartialEq, Eq)]
pub struct ApiError {
    pub status: u16,
    pub code: String,
    pub path: Option<String>,
    pub message: String,
}

/// A failure of the catalog store, as the API tells them apart.
#[derive(Debug, Clone, PartialEq, Eq)]
pub enum CoreFailure {
    /// A write the catalog refused, with its message.
    Validation(String),
    /// The database refused the write (a constraint conflict).
    Database,
    /// Any other failure; its cause is not disclosed.
    Other,
}

impl ApiError {
    /// 401 for a request without the management token.
    pub fn unauthorized() -> (r: ApiError)
        ensures
            r.status == 401,
            r.code@ == "unauthorized"@,
            r.path is None,
            r.message@ == "a valid Bearer management token is required"@,
    {
        ApiError {
            status: 401,
            code: "unauthorized".to_string(),
            path: None,
            message: "a valid Bearer management token is required".to_string(),
        }
    }

    /// 500 for an internal failure; its cause is not disclosed.
    pub fn internal() -> (r: ApiError)
        ensures
            r.status == 500,
            r.code@ == "internal_error"@,
            r.path is None,
            r.message@ == "Control API operation failed"@,
    {
        ApiError {
            status: 500,
            code: "internal_error".to_string(),
            path: None,
            message: "Control API operation failed".to_string(),
        }
    }

    /// 422 for a request that fails validation, with its message.
    pub fn validation(message: String) -> (r: ApiError)
        ensures
            r.status == 422,
            r.code@ == "validation_failed"@,
            r.path is None,
            r.message@ == message@,
    {
        ApiError { status: 422, code: "validation_failed".to_string(), path: None, message }
    }

    /// 404 for a missing resource.
    pub fn not_found() -> (r: ApiError)
        ensures
            r.status == 404,
            r.code@ == "not_found"@,
            r.path is None,
            r.message@ == "catalog resource was not found"@,
    {
        ApiError { status: 404, code: "not_found".to_string(), path: None, message: "catalog resource was not found".to_string() }
    }

    /// 409 for a write that conflicted with an existing or referenced
    /// resource.
    pub fn catalog_conflict() -> (r: ApiError)
        ensures
            r.status == 409,
            r.code@ == "catalog_conflict"@,
            r.path is None,
            r.message@ == "catalog write conflicted with an existing or referenced resource"@,
    {
        ApiError {
            status: 409,
            code: "catalog_conflict".to_string(),
            path: None,
            message: "catalog write conflicted with an existing or referenced resource".to_string(),
        }
    }

    /// The answer to a refused catalog write: 409 `managed_by_source` when the
    /// resource belongs to a declarative source (its message starts with
    /// `managed_by_source:`), else 422 with the message.
    pub fn from_validation_failure(message: String) -> (r: ApiError)
        ensures
            starts_with(message@, "managed_by_source:"@) ==> r.status == 409 && r.code@ == "managed_by_source"@ && r.path is None
                && r.message@ == message@,
            !starts_with(message@, "managed_by_source:"@) ==> r.status == 422 && r.code@ == "validation_failed"@ && r.path is None
                && r.message@ == message@,
    {
        let v = to_chars(message.as_str());
        let prefix = to_chars("managed_by_source:");
        if crate::text::starts_with_chars(&v, &prefix) {
            ApiError { status: 409, code: "managed_by_source".to_string(), path: None, message }
        } else {
            ApiError::validation(message)
        }
    }

    /// The answer to a failure of the catalog store: a refused write as
    /// `from_validation_failure` says, a database conflict as 409
    /// `catalog_conflict`, anything else as 500.
    pub fn from_core(failure: CoreFailure) -> (r: ApiError)
        ensures
            match failure {
                CoreFailure::Validation(m) => if starts_with(m@, "managed_by_source:"@) {
                    r.status == 409 && r.code@ == "managed_by_source"@ && r.path is None && r.message@ == m@
                } else {
                    r.status == 422 && r.code@ == "validation_failed"@ && r.path is None && r.message@ == m@
                },
                CoreFailure::Database => r.status == 409 && r.code@ == "catalog_conflict"@ && r.path is None
                    && r.message@ == "catalog write conflicted with an existing or referenced resource"@,
                CoreFailure::Other => r.status == 500 && r.code@ == "internal_error"@ && r.path is None
                    && r.message@ == "Control API operation failed"@,
            },
    {
        match failure {
            CoreFailure::Validation(m) => ApiError::from_validation_failure(m),
            CoreFailure::Database => ApiError::catalog_conflict(),
            CoreFailure::Other => ApiError::internal(),
        }
    }
}


// ---------------------------------------------------------------------------
// Where the API may listen
// ---------------------------------------------------------------------------

/// The loopback addresses: `127.0.0.0/8` and `::1`.
pub open spec fn is_loopback(ip: IpAddress) -> bool {
    match ip {
        IpAddress::V4(a, _, _, _) => a == 127,
        IpAddress::V6(a, b, c, d, e, f, g, h) => a == 0 && b == 0 && c == 0 && d == 0 && e == 0 && f == 0 && g == 0 && h == 1,
    }
}

/// An API listener reachable from other hosts without an explicit CORS
/// allow list.
#[derive(Debug, Clone, Copy, PartialEq, Eq, Structural)]
pub struct ApiExposureError;

impl ApiExposureError {
    /// The error text.
    pub fn message(&self) -> (r: &'static str)
        ensures
            r@ == "api.cors_allowlist must be explicit when api.listen is not loopback"@,
    {
        "api.cors_allowlist must be explicit when api.listen is not loopback"
    }
}

/// The API may listen on a loopback address as it is; elsewhere it needs
/// an explicit CORS allow list.
pub fn check_api_exposure(bind: BindAddress, cors_allowlist: &Vec<String>) -> (r: Result<(), ApiExposureError>)
    ensures
        r is Err <==> (!is_loopback(bind.ip) && cors_allowlist.len() == 0),
{
    let loopback = match bind.ip {
        IpAddress::V4(a, _, _, _) => a == 127,
        IpAddress::V6(a, b, c, d, e, f, g, h) => a == 0 && b == 0 && c == 0 && d == 0 && e == 0 && f == 0 && g == 0 && h == 1,
    };
    if !loopback && cors_allowlist.len() == 0 {
        Err(ApiExposureError)
    } else {
        Ok(())
    }
}

} // verus!
