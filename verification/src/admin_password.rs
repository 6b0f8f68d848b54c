//! Administrator passwords: Argon2 hashing and checking, generated first-run
//! passwords, and the rules of a password change.
use vstd::prelude::*;

use argon2::password_hash::rand_core::OsRng;
use argon2::password_hash::{PasswordHash, PasswordHasher, PasswordVerifier, SaltString};
use argon2::Argon2;

use crate::admin_auth::{is_alphanumeric, random_alphanumeric};
use crate::text::{extend_str, from_chars, str_eq, to_chars};

verus! {

/// Settings key of the password hash kept from single-administrator setups.
pub const ADMIN_PASSWORD_HASH: &'static str = "admin_password_hash";
/// Settings key recording that the first-run setup is done.
pub const FIRST_RUN_COMPLETED: &'static str = "first_run_completed";
/// The id of the built-in administrator.
pub const LOCAL_ADMIN_ID: &'static str = "local-admin";
/// The fewest characters a new administrator password may have.
pub const MIN_ADMIN_PASSWORD_CHARS: usize = 12;

/// Why a password change was refused.
#[derive(Debug, Clone, Copy, PartialEq, Eq, Structural)]
pub enum AdminPasswordChangeError {
    CurrentPasswordInvalid,
    NewPasswordEmpty,
    NewPasswordTooShort,
    ConfirmationMismatch,
}

#[verifier::external_type_specification]
#[verifier::external_body]
pub struct ExPasswordHashError(argon2::password_hash::Error);

/// A failure of the hashing library.
#[derive(Debug, Clone, PartialEq, Eq)]
pub enum PasswordError {
    /// Hashing a password failed; the library's explanation.
    Hash(String),
    /// A stored hash is not a PHC string the library can read.
    MalformedHash(String),
}

impl PasswordError {
    /// The error text, as the console logs it.
    pub fn message(&self) -> (r: String)
        ensures
            r@ == match self {
                PasswordError::Hash(d) => "hash admin password: "@ + d@,
                PasswordError::MalformedHash(d) => "parse admin password hash: "@ + d@,
            },
    {
        let mut out: Vec<char> = Vec::new();
        match self {
            PasswordError::Hash(d) => {
                extend_str(&mut out, "hash admin password: ");
                extend_str(&mut out, d.as_str());
            },
            PasswordError::MalformedHash(d) => {
                extend_str(&mut out, "parse admin password hash: ");
                extend_str(&mut out, d.as_str());
            },
        }
        from_chars(&out)
    }
}

/// What Argon2 (default parameters) answers when `password` is checked
/// against the PHC string `hash`: `None` when the string cannot be read,
/// else whether the password matches.
pub uninterp spec fn argon2_verdict(hash: Seq<char>, password: Seq<char>) -> Option<bool>;

/// `PasswordHash::new` on `hash`, then `Argon2::default().verify_password`.
/// The contract claims that the answer is a function of the two strings
/// alone, named `argon2_verdict`.
#[verifier::external_body]
fn argon2_check(hash: &str, password: &str) -> (r: Result<bool, argon2::password_hash::Error>)
    ensures
        match r {
            Ok(b) => argon2_verdict(hash@, password@) == Some(b),
            Err(_) => argon2_verdict(hash@, password@) is None,
        },
{
    let parsed = PasswordHash::new(hash)?;
    Ok(Argon2::default().verify_password(password.as_bytes(), &parsed).is_ok())
}

/// `Argon2::default().hash_password` with a fresh salt from `OsRng`, as a
/// PHC string. The salt is chance, so the string is not stated; what is
/// claimed is what the library is built for: checking the same password
/// against the string it produced succeeds.
#[verifier::external_body]
fn argon2_hash(password: &str) -> (r: Result<String, argon2::password_hash::Error>)
    ensures
        r matches Ok(h) ==> argon2_verdict(h@, password@) == Some(true),
{
    let salt = SaltString::generate(&mut OsRng);
    Ok(Argon2::default().hash_password(password.as_bytes(), &salt)?.to_string())
}

/// The library's explanation of a failure (its `Display` text).
#[verifier::external_body]
fn password_error_text(err: &argon2::password_hash::Error) -> (r: String) {
    format!("{err}")
}

/// Hashes a password for storage.
pub fn hash_password(password: &str) -> (r: Result<String, PasswordError>)
    ensures
        r matches Ok(h) ==> argon2_verdict(h@, password@) == Some(true),
        r matches Err(e) ==> e is Hash,
{
    match argon2_hash(password) {
        Ok(h) => Ok(h),
        Err(e) => Err(PasswordError::Hash(password_error_text(&e))),
    }
}

/// Checks a password against a stored hash; a hash that cannot be read is an
/// error, a wrong password is `Ok(false)`.
pub fn verify_password(hash: &str, password: &str) -> (r: Result<bool, PasswordError>)
    ensures
        match argon2_verdict(hash@, password@) {
            Some(b) => r == Ok::<bool, PasswordError>(b),
            None => r matches Err(e) && e is MalformedHash,
        },
{
    match argon2_check(hash, password) {
        Ok(b) => Ok(b),
        Err(e) => Err(PasswordError::MalformedHash(password_error_text(&e))),
    }
}

/// A generated administrator password: 24 random ASCII letters and digits.
pub fn generate_password() -> (r: String)
    ensures
        r@.len() == 24,
        forall|i: int| 0 <= i < r@.len() ==> is_alphanumeric(#[trigger] r@[i]),
{
    random_alphanumeric(24)
}

/// The hash an administrator signs in with: the account's own, or, for the
/// built-in administrator only, the one kept from single-administrator setups.
pub open spec fn effective_hash(admin_id: Seq<char>, own: Option<Seq<char>>, legacy: Option<Seq<char>>) -> Option<Seq<char>> {
    match own {
        Some(h) => Some(h),
        None => if admin_id == LOCAL_ADMIN_ID@ { legacy } else { None },
    }
}

/// The view of an optional string slice.
pub open spec fn opt_str(s: Option<&str>) -> Option<Seq<char>> {
    match s {
        Some(x) => Some(x@),
        None => None,
    }
}

/// Checks an administrator's password, given the account's stored hash
/// (`own_hash`) and the kept single-administrator hash (`legacy_hash`).
/// An account without a hash accepts no password.
pub fn verify_admin_user_password(
    admin_id: &str,
    password: &str,
    own_hash: Option<&str>,
    legacy_hash: Option<&str>,
) -> (r: Result<bool, PasswordError>)
    ensures
        match effective_hash(admin_id@, opt_str(own_hash), opt_str(legacy_hash)) {
            None => r == Ok::<bool, PasswordError>(false),
            Some(h) => match argon2_verdict(h, password@) {
                Some(b) => r == Ok::<bool, PasswordError>(b),
                None => r matches Err(e) && e is MalformedHash,
            },
        },
{
    let hash = match own_hash {
        Some(h) => Some(h),
        None => if str_eq(admin_id, LOCAL_ADMIN_ID) { legacy_hash } else { None },
    };
    match hash {
        None => Ok(false),
        Some(h) => verify_password(h, password),
    }
}

/// A password change that passed every check: the new hash to store for the
/// administrator, and whether the kept single-administrator hash is
/// replaced too (for the built-in administrator).
#[derive(Debug, Clone, PartialEq, Eq)]
pub struct PasswordUpdate {
    pub hash: String,
    pub update_legacy_setting: bool,
}

/// The first rule a new password breaks, if any: it is empty, shorter than
/// twelve characters, or differs from its confirmation.
pub open spec fn new_password_problem(new_password: Seq<char>, confirm: Seq<char>) -> Option<AdminPasswordChangeError> {
    if new_password.len() == 0 {
        Some(AdminPasswordChangeError::NewPasswordEmpty)
    } else if new_password.len() < MIN_ADMIN_PASSWORD_CHARS {
        Some(AdminPasswordChangeError::NewPasswordTooShort)
    } else if new_password != confirm {
        Some(AdminPasswordChangeError::ConfirmationMismatch)
    } else {
        None
    }
}

/// Changes an administrator's password. The new password is checked first
/// (empty, too short, confirmation), then the current password against the
/// stored hashes; only then is the new password hashed. The caller stores
/// the returned update.
pub fn change_admin_user_password(
    admin_id: &str,
    current_password: &str,
    new_password: &str,
    confirm_password: &str,
    own_hash: Option<&str>,
    legacy_hash: Option<&str>,
) -> (r: Result<Result<PasswordUpdate, AdminPasswordChangeError>, PasswordError>)
    ensures
        new_password_problem(new_password@, confirm_password@) matches Some(p) ==> r == Ok::<Result<PasswordUpdate, AdminPasswordChangeError>, PasswordError>(Err(p)),
        new_password_problem(new_password@, confirm_password@) is None ==> match effective_hash(admin_id@, opt_str(own_hash), opt_str(legacy_hash)) {
            None => r == Ok::<Result<PasswordUpdate, AdminPasswordChangeError>, PasswordError>(Err(AdminPasswordChangeError::CurrentPasswordInvalid)),
            Some(h) => match argon2_verdict(h, current_password@) {
                None => r matches Err(e) && e is MalformedHash,
                Some(false) => r == Ok::<Result<PasswordUpdate, AdminPasswordChangeError>, PasswordError>(Err(AdminPasswordChangeError::CurrentPasswordInvalid)),
                Some(true) => match r {
                    Ok(Ok(u)) => argon2_verdict(u.hash@, new_password@) == Some(true)
                        && u.update_legacy_setting == (admin_id@ == LOCAL_ADMIN_ID@),
                    Ok(Err(_)) => false,
                    Err(e) => e is Hash,
                },
            },
        },
{
    let chars = to_chars(new_password);
    if chars.len() == 0 {
        return Ok(Err(AdminPasswordChangeError::NewPasswordEmpty));
    }
    if chars.len() < MIN_ADMIN_PASSWORD_CHARS {
        return Ok(Err(AdminPasswordChangeError::NewPasswordTooShort));
    }
    if !str_eq(new_password, confirm_password) {
        return Ok(Err(AdminPasswordChangeError::ConfirmationMismatch));
    }
    let current_ok = match verify_admin_user_password(admin_id, current_password, own_hash, legacy_hash) {
        Ok(b) => b,
        Err(e) => return Err(e),
    };
    if !current_ok {
        return Ok(Err(AdminPasswordChangeError::CurrentPasswordInvalid));
    }
    let hash = match hash_password(new_password) {
        Ok(h) => h,
        Err(e) => return Err(e),
    };
    let update_legacy_setting = str_eq(admin_id, LOCAL_ADMIN_ID);
    Ok(Ok(PasswordUpdate { hash, update_legacy_setting }))
}

} // verus!
