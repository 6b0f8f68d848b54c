//! The credential form of the console: which secrets a submission carries,
//! how they combine with the stored ones, and when a submission is refused.
use vstd::prelude::*;

use crate::cli::check_credential_material;
use crate::model::{auth_type_name, opt_view, AuthType};
use crate::text::{trim, trim_str};

verus! {

/// What a secret field submits: its trimmed text, or nothing when it is
/// blank or absent.
pub open spec fn submitted_secret(v: Option<Seq<char>>) -> Option<Seq<char>> {
    match v {
        Some(s) => if trim(s).len() > 0 { Some(trim(s)) } else { None },
        None => None,
    }
}

/// The text of a secret field that is to be sealed, if any.
pub fn submitted_secret_value(value: Option<String>) -> (r: Option<String>)
    ensures
        opt_view(r) == submitted_secret(opt_view(value)),
{
    match value {
        Some(v) => {
            let t = trim_str(v.as_str());
            if t.as_str().is_empty() {
                proof {
                    assert(t@.len() == 0);
                }
                None
            } else {
                Some(t)
            }
        },
        None => None,
    }
}

/// The sealed secrets of a credential.
pub struct SealedSecrets {
    pub password: Option<String>,
    pub private_key: Option<String>,
    pub passphrase: Option<String>,
}

/// Why a credential submission was refused; the reason the audit records.
#[derive(Debug, Clone, Copy, PartialEq, Eq, Structural)]
pub enum CredentialFormRefusal {
    InvalidAuthType,
    InvalidSecretMaterial,
}

impl CredentialFormRefusal {
    /// `invalid_auth_type` or `invalid_secret_material`.
    pub fn audit_reason(&self) -> (r: &'static str)
        ensures
            r@ == match self {
                CredentialFormRefusal::InvalidAuthType => "invalid_auth_type"@,
                CredentialFormRefusal::InvalidSecretMaterial => "invalid_secret_material"@,
            },
    {
        match self {
            CredentialFormRefusal::InvalidAuthType => "invalid_auth_type",
            CredentialFormRefusal::InvalidSecretMaterial => "invalid_secret_material",
        }
    }
}

/// The auth type a name names, if any.
pub open spec fn auth_type_named(v: Seq<char>) -> Option<AuthType> {
    if v == auth_type_name(AuthType::Password) {
        Some(AuthType::Password)
    } else if v == auth_type_name(AuthType::Key) {
        Some(AuthType::Key)
    } else if v == auth_type_name(AuthType::KeyWithPassphrase) {
        Some(AuthType::KeyWithPassphrase)
    } else {
        None
    }
}

/// The secrets an auth type needs: a password; a private key; a private
/// key and a passphrase.
pub open spec fn material_suits(t: AuthType, password: bool, private_key: bool, passphrase: bool) -> bool {
    match t {
        AuthType::Password => password,
        AuthType::Key => private_key,
        AuthType::KeyWithPassphrase => private_key && passphrase,
    }
}

/// The first secret if there is one, else the second.
pub open spec fn either(a: Option<Seq<char>>, b: Option<Seq<char>>) -> Option<Seq<char>> {
    match a {
        Some(x) => Some(x),
        None => b,
    }
}

/// A credential as a submission settles it.
pub struct SettledCredential {
    pub auth_type: AuthType,
    pub secrets: SealedSecrets,
}

fn either_exec(a: Option<String>, b: Option<String>) -> (r: Option<String>)
    ensures
        opt_view(r) == either(opt_view(a), opt_view(b)),
{
    match a {
        Some(x) => Some(x),
        None => b,
    }
}

/// Settles a submission of the credential form: the auth type must name
/// one; each secret is the one sealed from the form, else the stored one
/// (none when creating); and the secrets must suit the auth type.
pub fn settle_credential_form(auth_type: &str, sealed: SealedSecrets, stored: Option<SealedSecrets>) -> (r: Result<SettledCredential, CredentialFormRefusal>)
    ensures
        ({
            let (sp, sk, ss) = match stored {
                Some(s) => (opt_view(s.password), opt_view(s.private_key), opt_view(s.passphrase)),
                None => (None, None, None),
            };
            let p = either(opt_view(sealed.password), sp);
            let k = either(opt_view(sealed.private_key), sk);
            let f = either(opt_view(sealed.passphrase), ss);
            match auth_type_named(auth_type@) {
                None => r == Err::<SettledCredential, CredentialFormRefusal>(CredentialFormRefusal::InvalidAuthType),
                Some(t) => if material_suits(t, p is Some, k is Some, f is Some) {
                    r matches Ok(c) && c.auth_type == t && opt_view(c.secrets.password) == p
                        && opt_view(c.secrets.private_key) == k && opt_view(c.secrets.passphrase) == f
                } else {
                    r == Err::<SettledCredential, CredentialFormRefusal>(CredentialFormRefusal::InvalidSecretMaterial)
                },
            }
        }),
{
    proof {
        reveal_strlit("password");
        reveal_strlit("key");
        reveal_strlit("key+passphrase");
        assert("key"@.len() != "password"@.len());
        assert("key+passphrase"@.len() != "password"@.len());
        assert("key+passphrase"@.len() != "key"@.len());
    }
    let t = match AuthType::parse(auth_type) {
        Ok(t) => t,
        Err(_) => {
            return Err(CredentialFormRefusal::InvalidAuthType);
        },
    };
    let (sp, sk, ss) = match stored {
        Some(s) => (s.password, s.private_key, s.passphrase),
        None => (None, None, None),
    };
    let password = either_exec(sealed.password, sp);
    let private_key = either_exec(sealed.private_key, sk);
    let passphrase = either_exec(sealed.passphrase, ss);
    match check_credential_material(t, password.is_some(), private_key.is_some(), passphrase.is_some()) {
        Ok(()) => Ok(SettledCredential { auth_type: t, secrets: SealedSecrets { password, private_key, passphrase } }),
        Err(_) => Err(CredentialFormRefusal::InvalidSecretMaterial),
    }
}

} // verus!
