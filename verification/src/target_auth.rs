//! Signing in to targets: trust on first use of target host keys, the key
//! type of the gateway's own host key, and which stored secrets a
//! credential needs to sign in.
use vstd::prelude::*;

use crate::model::{auth_type_name, opt_view, AuthType, Credential};
use crate::text::{extend_str, from_chars, str_eq};

verus! {

// ---------------------------------------------------------------------------
// Target host keys
// ---------------------------------------------------------------------------

/// What to do with the host key a target presents.
#[derive(Debug, Clone, Copy, PartialEq, Eq, Structural)]
pub enum HostKeyDecision {
    /// The key matches the one trusted for this target and key type.
    Trusted,
    /// A different key was trusted: the connection is refused.
    Mismatch,
    /// Nothing was trusted yet: the key is recorded and accepted.
    Learn,
}

/// Trust on first use: the first key seen for a target is learned; later
/// only the same fingerprint is accepted.
pub open spec fn host_key_outcome(known: Option<Seq<char>>, presented: Seq<char>) -> HostKeyDecision {
    match known {
        None => HostKeyDecision::Learn,
        Some(k) => if k == presented { HostKeyDecision::Trusted } else { HostKeyDecision::Mismatch },
    }
}

/// Decides on a presented host key, given the fingerprint trusted for the
/// target and key type, if any.
pub fn host_key_decision(known_fingerprint: Option<&str>, presented_fingerprint: &str) -> (r: HostKeyDecision)
    ensures
        r == host_key_outcome(match known_fingerprint { Some(k) => Some(k@), None => None::<Seq<char>> }, presented_fingerprint@),
{
    match known_fingerprint {
        None => HostKeyDecision::Learn,
        Some(k) => if str_eq(k, presented_fingerprint) { HostKeyDecision::Trusted } else { HostKeyDecision::Mismatch },
    }
}

/// Whether the connection goes on: a trusted or a newly learned key.
pub fn host_key_accepted(decision: HostKeyDecision) -> (r: bool)
    ensures
        r == (decision != HostKeyDecision::Mismatch),
{
    match decision {
        HostKeyDecision::Mismatch => false,
        _ => true,
    }
}

/// Once a key is learned for a target, the same key is trusted and any other
/// key is refused.
pub proof fn lemma_learned_key_is_pinned(first: Seq<char>, later: Seq<char>)
    ensures
        host_key_outcome(None, first) == HostKeyDecision::Learn,
        host_key_outcome(Some(first), first) == HostKeyDecision::Trusted,
        later != first ==> host_key_outcome(Some(first), later) == HostKeyDecision::Mismatch,
{
}

/// The only key type the gateway generates for itself.
pub const HOST_KEY_TYPE: &'static str = "ed25519";

/// A host key type other than ed25519 was configured.
#[derive(Debug, Clone, Copy, PartialEq, Eq, Structural)]
pub struct UnsupportedHostKeyType;

impl UnsupportedHostKeyType {
    /// The error text.
    pub fn message(&self) -> (r: &'static str)
        ensures
            r@ == "MVP only supports ed25519 hop host keys"@,
    {
        "MVP only supports ed25519 hop host keys"
    }
}

/// A missing host key can only be generated as ed25519.
pub fn check_host_key_type(key_type: &str) -> (r: Result<(), UnsupportedHostKeyType>)
    ensures
        r is Ok <==> key_type@ == HOST_KEY_TYPE@,
{
    if str_eq(key_type, HOST_KEY_TYPE) {
        Ok(())
    } else {
        Err(UnsupportedHostKeyType)
    }
}

// ---------------------------------------------------------------------------
// Credential secrets
// ---------------------------------------------------------------------------

/// The associated data a credential secret is sealed with: `<id>:<field>`,
/// so that a sealed secret cannot be moved to another credential or field.
pub open spec fn secret_context(credential_id: Seq<char>, field: Seq<char>) -> Seq<char> {
    credential_id + ":"@ + field
}

/// The secrets of one credential are sealed under different contexts: the
/// context names the field.
pub proof fn lemma_secret_contexts_differ_by_field(credential_id: Seq<char>, a: Seq<char>, b: Seq<char>)
    requires
        a != b,
    ensures
        secret_context(credential_id, a) != secret_context(credential_id, b),
{
    reveal_strlit(":");
    let n: int = credential_id.len() as int + 1;
    if secret_context(credential_id, a) == secret_context(credential_id, b) {
        assert(secret_context(credential_id, a).len() == n + a.len());
        assert(secret_context(credential_id, b).len() == n + b.len());
        assert(a =~= secret_context(credential_id, a).skip(n));
        assert(b =~= secret_context(credential_id, b).skip(n));
    }
}

/// `<credential id>:<field>`.
pub fn secret_aad(credential_id: &str, field: &str) -> (r: String)
    ensures
        r@ == secret_context(credential_id@, field@),
{
    let mut out: Vec<char> = Vec::new();
    extend_str(&mut out, credential_id);
    extend_str(&mut out, ":");
    extend_str(&mut out, field);
    from_chars(&out)
}

/// The sealed secrets a sign-in opens.
#[derive(Debug, Clone, PartialEq, Eq)]
pub enum TargetSignIn {
    /// Password authentication with the sealed password.
    Password { password: String },
    /// Public-key authentication with the sealed private key and, when one
    /// is stored, the sealed passphrase.
    PublicKey { private_key: String, passphrase: Option<String> },
}

/// Why a credential cannot sign in.
#[derive(Debug, Clone, PartialEq, Eq)]
pub enum SignInError {
    /// The stored auth type is unknown; its error text.
    AuthType(String),
    /// The credential lacks the named secret.
    MissingSecret(String),
}

impl SignInError {
    /// The error text.
    pub fn message(&self) -> (r: String)
        ensures
            r@ == match self {
                SignInError::AuthType(e) => e@,
                SignInError::MissingSecret(f) => "credential missing "@ + f@,
            },
    {
        match self {
            SignInError::AuthType(e) => e.clone(),
            SignInError::MissingSecret(f) => {
                let mut out: Vec<char> = Vec::new();
                extend_str(&mut out, "credential missing ");
                extend_str(&mut out, f.as_str());
                from_chars(&out)
            },
        }
    }
}

/// What a credential's sign-in needs, as mathematical values.
pub enum SignInNeed {
    UnknownAuthType,
    Missing(Seq<char>),
    Password(Seq<char>),
    PublicKey(Seq<char>, Option<Seq<char>>),
}

/// How a credential signs in: a password credential needs its password; a
/// key credential needs its private key and brings its passphrase when one
/// is stored.
pub open spec fn sign_in_of(c: crate::model::CredentialView) -> SignInNeed {
    if c.auth_type == auth_type_name(AuthType::Password) {
        match c.password_enc {
            Some(p) => SignInNeed::Password(p),
            None => SignInNeed::Missing("password"@),
        }
    } else if c.auth_type == auth_type_name(AuthType::Key) || c.auth_type == auth_type_name(AuthType::KeyWithPassphrase) {
        match c.private_key_enc {
            Some(k) => SignInNeed::PublicKey(k, c.passphrase_enc),
            None => SignInNeed::Missing("private_key"@),
        }
    } else {
        SignInNeed::UnknownAuthType
    }
}

/// The sealed secrets a credential signs in with (see `sign_in_of`).
pub fn target_sign_in(credential: &Credential) -> (r: Result<TargetSignIn, SignInError>)
    ensures
        match sign_in_of(credential@) {
            SignInNeed::UnknownAuthType => r matches Err(e) && e is AuthType,
            SignInNeed::Missing(field) => r matches Err(e) && (e matches SignInError::MissingSecret(f) && f@ == field),
            SignInNeed::Password(secret) => r matches Ok(s) && (s matches TargetSignIn::Password { password } && password@ == secret),
            SignInNeed::PublicKey(secret, pass) => r matches Ok(s) && (s matches TargetSignIn::PublicKey { private_key, passphrase }
                && private_key@ == secret && opt_view(passphrase) == pass),
        },
{
    proof {
        reveal_strlit("password");
        reveal_strlit("key");
        reveal_strlit("key+passphrase");
    }
    let auth_type = match AuthType::parse(credential.auth_type.as_str()) {
        Ok(t) => t,
        Err(e) => return Err(SignInError::AuthType(e)),
    };
    assert(auth_type_name(auth_type) == credential@.auth_type);
    match auth_type {
        AuthType::Password => match &credential.password_enc {
            Some(p) => {
                assert(sign_in_of(credential@) == SignInNeed::Password(p@));
                Ok(TargetSignIn::Password { password: p.clone() })
            },
            None => Err(SignInError::MissingSecret("password".to_string())),
        },
        AuthType::Key | AuthType::KeyWithPassphrase => match &credential.private_key_enc {
            Some(k) => Ok(TargetSignIn::PublicKey { private_key: k.clone(), passphrase: crate::model::clone_opt(&credential.passphrase_enc) }),
            None => Err(SignInError::MissingSecret("private_key".to_string())),
        },
    }
}

} // verus!
