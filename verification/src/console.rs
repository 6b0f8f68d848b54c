//! Decisions of the admin web console: who may do what, which administrator
//! a sign-in names, where a request may redirect to, how the asset list is
//! searched and filtered, and how submitted forms are read.
use vstd::prelude::*;

use crate::admin_auth::{profile_allows, profile_has_capability, AdminCapability};
use crate::admin_password::AdminPasswordChangeError;
use crate::i18n::{L10n, LOCALE_COOKIE};
use crate::asset_search::filter_value;
use crate::model::opt_view;
use crate::text::{
    chars_eq, chars_eq_str, extend_str, from_chars, has_char, has_substring, lower, lower_chars,
    starts_with, starts_with_chars, str_eq, to_chars, trim, trim_chars, contains_chars,
};

verus! {

// ---------------------------------------------------------------------------
// Access to console pages
// ---------------------------------------------------------------------------

/// The part of the console a refused request belonged to, named on the
/// refusal page.
#[derive(Debug, Clone, Copy, PartialEq, Eq, Structural)]
pub enum ConsoleTask {
    Assets,
    Credentials,
    Keys,
    Sessions,
    Settings,
}

/// What a capability check decides.
#[derive(Debug, Clone, Copy, PartialEq, Eq, Structural)]
pub enum CapabilityCheck {
    /// The request may go on.
    Allowed,
    /// The administrator must change the temporary password first.
    ChangePasswordFirst,
    /// The profile lacks the capability; the page names the task.
    Denied(ConsoleTask),
}

/// The task a capability belongs to.
pub open spec fn task_of(capability: AdminCapability) -> ConsoleTask {
    match capability {
        AdminCapability::InventoryRead | AdminCapability::AssetsManage => ConsoleTask::Assets,
        AdminCapability::CredentialsManage => ConsoleTask::Credentials,
        AdminCapability::AccessManage => ConsoleTask::Keys,
        AdminCapability::SessionsRead => ConsoleTask::Sessions,
        AdminCapability::AdminsManage => ConsoleTask::Settings,
    }
}

/// Capabilities that remain open while a password change is pending.
pub open spec fn read_only(capability: AdminCapability) -> bool {
    capability == AdminCapability::InventoryRead || capability == AdminCapability::SessionsRead
}

/// An administrator with a temporary password may only read; otherwise the
/// profile decides.
pub open spec fn capability_outcome(must_change_password: bool, profile: Seq<char>, capability: AdminCapability) -> CapabilityCheck {
    if must_change_password && !read_only(capability) {
        CapabilityCheck::ChangePasswordFirst
    } else if profile_allows(profile, capability) {
        CapabilityCheck::Allowed
    } else {
        CapabilityCheck::Denied(task_of(capability))
    }
}

/// Whether a signed-in administrator may use a capability.
pub fn capability_check(must_change_password: bool, access_profile: &str, capability: AdminCapability) -> (r: CapabilityCheck)
    ensures
        r == capability_outcome(must_change_password, access_profile@, capability),
{
    let read = match capability {
        AdminCapability::InventoryRead | AdminCapability::SessionsRead => true,
        _ => false,
    };
    if must_change_password && !read {
        return CapabilityCheck::ChangePasswordFirst;
    }
    if profile_has_capability(access_profile, capability) {
        return CapabilityCheck::Allowed;
    }
    let task = match capability {
        AdminCapability::InventoryRead | AdminCapability::AssetsManage => ConsoleTask::Assets,
        AdminCapability::CredentialsManage => ConsoleTask::Credentials,
        AdminCapability::AccessManage => ConsoleTask::Keys,
        AdminCapability::SessionsRead => ConsoleTask::Sessions,
        AdminCapability::AdminsManage => ConsoleTask::Settings,
    };
    CapabilityCheck::Denied(task)
}

/// The navigation label of a task, in the request's language.
pub fn task_label(t: &L10n, task: ConsoleTask) -> (r: &'static str)
    ensures
        r == match task {
            ConsoleTask::Assets => t.nav_assets,
            ConsoleTask::Credentials => t.nav_credentials,
            ConsoleTask::Keys => t.nav_keys,
            ConsoleTask::Sessions => t.nav_sessions,
            ConsoleTask::Settings => t.nav_settings,
        },
{
    match task {
        ConsoleTask::Assets => t.nav_assets,
        ConsoleTask::Credentials => t.nav_credentials,
        ConsoleTask::Keys => t.nav_keys,
        ConsoleTask::Sessions => t.nav_sessions,
        ConsoleTask::Settings => t.nav_settings,
    }
}

// ---------------------------------------------------------------------------
// Redirects and cookies
// ---------------------------------------------------------------------------

/// A redirect target is kept only when it is a path on this site: it starts
/// with one `/` and not with `//`.
pub fn safe_redirect(value: Option<&str>) -> (r: Option<&str>)
    ensures
        match value {
            None => r is None,
            Some(v) => if starts_with(v@, "/"@) && !starts_with(v@, "//"@) {
                r == Some(v)
            } else {
                r is None
            },
        },
{
    let v = match value {
        Some(v) => v,
        None => return None,
    };
    let chars = to_chars(v);
    let one = to_chars("/");
    let two = to_chars("//");
    if starts_with_chars(&chars, &one) && !starts_with_chars(&chars, &two) {
        Some(v)
    } else {
        None
    }
}

/// The `Set-Cookie` value that remembers the console language for a year.
pub open spec fn language_cookie_text(value: Seq<char>) -> Seq<char> {
    LOCALE_COOKIE@ + "="@ + value + "; Max-Age=31536000; Path=/; SameSite=Lax; HttpOnly"@
}

/// `<cookie>=<value>; Max-Age=31536000; Path=/; SameSite=Lax; HttpOnly`.
pub fn language_cookie(value: &str) -> (r: String)
    ensures
        r@ == language_cookie_text(value@),
{
    let mut out: Vec<char> = Vec::new();
    extend_str(&mut out, LOCALE_COOKIE);
    extend_str(&mut out, "=");
    extend_str(&mut out, value);
    extend_str(&mut out, "; Max-Age=31536000; Path=/; SameSite=Lax; HttpOnly");
    from_chars(&out)
}

/// Whether a form confirmed a destructive reset: only the exact value `yes`.
pub fn trust_reset_confirmed(value: Option<&str>) -> (r: bool)
    ensures
        r == (value matches Some(v) && v@ == "yes"@),
{
    match value {
        Some(v) => str_eq(v, "yes"),
        None => false,
    }
}

/// Whether a text holds a carriage return or a line feed.
pub open spec fn has_line_break(s: Seq<char>) -> bool {
    s.contains('\r') || s.contains('\n')
}

/// The page to return to after an asset change: the trimmed submitted
/// location when it is the asset list (`/assets` or `/assets?...`) and holds
/// no line break, else `/assets`.
pub open spec fn assets_return_target(value: Option<Seq<char>>) -> Seq<char> {
    match value {
        Some(v) => {
            let t = trim(v);
            if (t == "/assets"@ || starts_with(t, "/assets?"@)) && !has_line_break(t) {
                t
            } else {
                "/assets"@
            }
        },
        None => "/assets"@,
    }
}

/// Where an asset form returns to.
pub fn assets_return_to(value: Option<&str>) -> (r: String)
    ensures
        r@ == assets_return_target(match value { Some(v) => Some(v@), None => None::<Seq<char>> }),
{
    if let Some(v) = value {
        let t = trim_chars(&to_chars(v));
        let list = chars_eq_str(&t, "/assets");
        let query_prefix = to_chars("/assets?");
        let listed = list || starts_with_chars(&t, &query_prefix);
        let broken = has_char(&t, '\r') || has_char(&t, '\n');
        if listed && !broken {
            return from_chars(&t);
        }
    }
    "/assets".to_string()
}

// ---------------------------------------------------------------------------
// Password change messages
// ---------------------------------------------------------------------------

/// The message a refused password change is shown with.
pub fn settings_password_error_message(t: &L10n, err: AdminPasswordChangeError) -> (r: &'static str)
    ensures
        r == match err {
            AdminPasswordChangeError::CurrentPasswordInvalid => t.settings_current_password_invalid,
            AdminPasswordChangeError::NewPasswordEmpty => t.settings_new_password_empty,
            AdminPasswordChangeError::NewPasswordTooShort => t.settings_new_password_too_short,
            AdminPasswordChangeError::ConfirmationMismatch => t.settings_password_confirmation_mismatch,
        },
{
    match err {
        AdminPasswordChangeError::CurrentPasswordInvalid => t.settings_current_password_invalid,
        AdminPasswordChangeError::NewPasswordEmpty => t.settings_new_password_empty,
        AdminPasswordChangeError::NewPasswordTooShort => t.settings_new_password_too_short,
        AdminPasswordChangeError::ConfirmationMismatch => t.settings_password_confirmation_mismatch,
    }
}

/// The reason code a refused password change is audited with.
pub open spec fn password_error_code(err: AdminPasswordChangeError) -> Seq<char> {
    match err {
        AdminPasswordChangeError::CurrentPasswordInvalid => "current_password_invalid"@,
        AdminPasswordChangeError::NewPasswordEmpty => "new_password_empty"@,
        AdminPasswordChangeError::NewPasswordTooShort => "new_password_too_short"@,
        AdminPasswordChangeError::ConfirmationMismatch => "confirmation_mismatch"@,
    }
}

/// The audit reason code of a refused password change.
pub fn settings_password_error_code(err: AdminPasswordChangeError) -> (r: &'static str)
    ensures
        r@ == password_error_code(err),
{
    match err {
        AdminPasswordChangeError::CurrentPasswordInvalid => "current_password_invalid",
        AdminPasswordChangeError::NewPasswordEmpty => "new_password_empty",
        AdminPasswordChangeError::NewPasswordTooShort => "new_password_too_short",
        AdminPasswordChangeError::ConfirmationMismatch => "confirmation_mismatch",
    }
}

// ---------------------------------------------------------------------------
// Signing in
// ---------------------------------------------------------------------------

/// An administrator account as the sign-in reads it.
#[derive(Debug, Clone, PartialEq, Eq)]
pub struct AdminAccount {
    pub id: String,
    pub username: String,
    pub display_name: String,
    pub access_profile: String,
    pub is_active: bool,
    pub must_change_password: bool,
    pub last_login_at: Option<String>,
}

/// The number of active accounts.
pub open spec fn count_active(s: Seq<AdminAccount>) -> nat
    decreases s.len(),
{
    if s.len() == 0 {
        0
    } else {
        count_active(s.drop_last()) + if s.last().is_active { 1nat } else { 0nat }
    }
}

/// Whether an account is the one a sign-in names: it is active and, when
/// usernames are asked for, its username equals the submitted one ignoring
/// ASCII case.
pub open spec fn names_account(a: AdminAccount, ask_username: bool, submitted: Option<Seq<char>>) -> bool {
    a.is_active && (ask_username ==> (submitted matches Some(u) && lower(a.username@) == lower(u)))
}

/// What the sign-in form decides before the password is checked.
#[derive(Debug, Clone, PartialEq, Eq)]
pub struct LoginChoice {
    /// Usernames are asked for once more than one account is active.
    pub ask_username: bool,
    /// The submitted username, trimmed, when not blank.
    pub submitted_username: Option<String>,
    /// The position of the account to check the password against.
    pub account: Option<usize>,
}

/// Picks the account a sign-in names: with one active account the password
/// alone signs in; with several, the first active account whose username
/// matches the submitted one (ignoring ASCII case).
pub fn choose_login_account(accounts: &[AdminAccount], username: Option<&str>) -> (r: LoginChoice)
    ensures
        r.ask_username == (count_active(accounts@) > 1),
        opt_view(r.submitted_username) == filter_value(match username { Some(u) => Some(u@), None => None::<Seq<char>> }),
        match r.account {
            Some(i) => i < accounts@.len() && names_account(accounts@[i as int], r.ask_username, opt_view(r.submitted_username))
                && forall|j: int| 0 <= j < i ==> !names_account(#[trigger] accounts@[j], r.ask_username, opt_view(r.submitted_username)),
            None => forall|j: int| 0 <= j < accounts@.len() ==> !names_account(#[trigger] accounts@[j], r.ask_username, opt_view(r.submitted_username)),
        },
{
    let mut active: usize = 0;
    let mut i: usize = 0;
    while i < accounts.len()
        invariant
            i <= accounts.len(),
            active == count_active(accounts@.take(i as int)),
            active <= i,
        decreases accounts.len() - i,
    {
        assert(accounts@.take(i + 1).drop_last() =~= accounts@.take(i as int));
        if accounts[i].is_active {
            active = active + 1;
        }
        i += 1;
    }
    assert(accounts@.take(accounts.len() as int) =~= accounts@);
    let ask_username = active > 1;
    let submitted: Option<Vec<char>> = match username {
        Some(u) => {
            let t = trim_chars(&to_chars(u));
            if t.len() > 0 { Some(t) } else { None }
        },
        None => None,
    };
    let submitted_username: Option<String> = match &submitted {
        Some(t) => Some(from_chars(t)),
        None => None,
    };
    let wanted: Option<Vec<char>> = match &submitted {
        Some(t) => Some(lower_chars(t)),
        None => None,
    };
    let ghost sub = opt_view(submitted_username);
    let mut k: usize = 0;
    while k < accounts.len()
        invariant
            k <= accounts.len(),
            match wanted { Some(w) => sub matches Some(u) && w@ == lower(u), None => sub is None },
            ask_username == (count_active(accounts@) > 1),
            sub == opt_view(submitted_username),
            sub == filter_value(match username { Some(u) => Some(u@), None => None::<Seq<char>> }),
            forall|j: int| 0 <= j < k ==> !names_account(#[trigger] accounts@[j], ask_username, sub),
        decreases accounts.len() - k,
    {
        let a = &accounts[k];
        if a.is_active {
            let hit = if !ask_username {
                true
            } else {
                match &wanted {
                    Some(w) => {
                        let name = lower_chars(&to_chars(a.username.as_str()));
                        chars_eq(&name, w)
                    },
                    None => false,
                }
            };
            if hit {
                return LoginChoice { ask_username, submitted_username, account: Some(k) };
            }
        }
        k += 1;
    }
    LoginChoice { ask_username, submitted_username, account: None }
}

/// Where a successful sign-in goes: to the settings while a temporary
/// password must be changed, else to the overview.
pub fn login_location(must_change_password: bool) -> (r: &'static str)
    ensures
        r@ == if must_change_password { "/settings"@ } else { "/"@ },
{
    if must_change_password { "/settings" } else { "/" }
}

/// The label a failed sign-in is audited under: the submitted username, or
/// `password-only` when none was given.
pub fn login_failure_label(submitted_username: Option<&str>) -> (r: &str)
    ensures
        r@ == match submitted_username { Some(u) => u@, None => "password-only"@ },
{
    match submitted_username {
        Some(u) => u,
        None => "password-only",
    }
}

// ---------------------------------------------------------------------------
// Administrator management
// ---------------------------------------------------------------------------

/// A temporary password for a new administrator has at least twelve
/// characters.
pub fn temporary_password_long_enough(password: &str) -> (r: bool)
    ensures
        r == (password@.len() >= 12),
{
    to_chars(password).len() >= 12
}

/// A checkbox of an administrator form is on only when it sent `yes`.
pub fn checkbox_on(value: Option<&str>) -> (r: bool)
    ensures
        r == (value matches Some(v) && v@ == "yes"@),
{
    trust_reset_confirmed(value)
}

/// After an access change: an administrator who changed their own access
/// is signed out; otherwise the settings page is shown again.
pub fn signs_out_after_access_change(changed_admin_id: &str, session_admin_id: &str) -> (r: bool)
    ensures
        r == (changed_admin_id@ == session_admin_id@),
{
    str_eq(changed_admin_id, session_admin_id)
}

/// The message shown when an access change was refused: the note about the
/// last full-control administrator when the refusal was that guard, else
/// the refusal itself.
pub fn access_change_error_message<'a>(t: &L10n, error: &'a str) -> (r: &'a str)
    ensures
        has_substring(error@, "last full-control admin"@) ==> r == t.admin_last_owner_note,
        !has_substring(error@, "last full-control admin"@) ==> r == error,
{
    let e = to_chars(error);
    let guard = to_chars("last full-control admin");
    if contains_chars(&e, &guard) {
        t.admin_last_owner_note
    } else {
        error
    }
}

// ---------------------------------------------------------------------------
// Dashboard data
// ---------------------------------------------------------------------------

/// A dashboard data source's value; a failed source is recorded by name in
/// `errors` and shows its empty default.
pub fn dashboard_value<T: Default, E>(result: Result<T, E>, source: &str, errors: &mut Vec<String>) -> (r: T)
    ensures
        result matches Ok(v) ==> r == v && final(errors)@ == old(errors)@,
        result is Err ==> final(errors)@.len() == old(errors)@.len() + 1
            && final(errors)@.take(old(errors)@.len() as int) == old(errors)@
            && final(errors)@.last()@ == source@,
{
    match result {
        Ok(value) => value,
        Err(_) => {
            errors.push(source.to_string());
            T::default()
        },
    }
}

} // verus!
