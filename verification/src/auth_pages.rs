//! The markup of the sign-in page and of the page that refuses an action.
use crate::layout::{layout, layout_html};
use vstd::prelude::*;

use crate::admin_auth::{ADMIN_PROFILE_OPERATOR, ADMIN_PROFILE_OWNER, ADMIN_PROFILE_VIEWER};
use crate::console_pages::{esc, opt_text, panel_head_html, push_escaped, push_panel_head};
use crate::i18n::{L10n, Locale};
use crate::pages::admin_profile_label;
use crate::text::{extend_str, from_chars};

verus! {

/// The error of a refused sign-in, announced to assistive technology.
pub open spec fn login_error_html(error: Option<Seq<char>>) -> Seq<char> {
    match error {
        Some(e) => "<p class=\"error-message\" id=\"login-error\" role=\"alert\">"@ + esc(e) + "</p>"@,
        None => Seq::empty(),
    }
}

/// The username field, shown when accounts have names; it holds the name
/// tried last and takes the focus.
pub open spec fn login_username_html(t: L10n, show_username: bool, username: Option<Seq<char>>) -> Seq<char> {
    if show_username {
        "<label class=\"field\">"@ + esc(t.login_username@)
            + "<input id=\"login-username\" name=\"username\" value=\""@ + esc(match username {
            Some(u) => u,
            None => Seq::empty(),
        }) + "\" autocomplete=\"username\" autofocus required></label>"@
    } else {
        Seq::empty()
    }
}

/// The password field: marked invalid and tied to the error after a refused
/// attempt, and focused when there is no username field.
pub open spec fn login_password_html(t: L10n, failed: bool, show_username: bool) -> Seq<char> {
    "<label class=\"field\">"@ + esc(t.login_password@)
        + "<input id=\"login-password\" type=\"password\" name=\"password\" autocomplete=\"current-password\""@
        + (if failed { " aria-describedby=\"login-error\" aria-invalid=\"true\""@ } else { Seq::empty() })
        + (if show_username { Seq::empty() } else { " autofocus"@ }) + " required></label>"@
}

/// The content of the sign-in page.
pub open spec fn login_html(t: L10n, error: Option<Seq<char>>, show_username: bool, username: Option<Seq<char>>) -> Seq<char> {
    "<div class=\"login-wrap\">"@ + panel_head_html(
        t.login_heading@,
        if show_username { t.login_team_intro@ } else { t.login_intro@ },
    ) + login_error_html(error) + "<form method=\"post\" action=\"/login\">"@
        + login_username_html(t, show_username, username) + login_password_html(t, error is Some, show_username)
        + "<div class=\"button-row\"><button type=\"submit\">"@ + esc(t.login_button@) + "</button></div></form></section></div>"@
}

#[verifier::rlimit(100)]
fn push_login_username(out: &mut Vec<char>, t: &L10n, show_username: bool, username: Option<&str>)
    ensures
        final(out)@ == old(out)@ + login_username_html(*t, show_username, opt_text(username)),
{
    let ghost start = out@;
    if show_username {
        extend_str(out, "<label class=\"field\">");
        push_escaped(out, t.login_username);
        extend_str(out, "<input id=\"login-username\" name=\"username\" value=\"");
        let name: &str = match username {
            Some(u) => u,
            None => "",
        };
        proof {
            reveal_strlit("");
        }
        push_escaped(out, name);
        extend_str(out, "\" autocomplete=\"username\" autofocus required></label>");
    }
    assert(out@ =~= start + login_username_html(*t, show_username, opt_text(username)));
}

#[verifier::rlimit(100)]
fn push_login_password(out: &mut Vec<char>, t: &L10n, failed: bool, show_username: bool)
    ensures
        final(out)@ == old(out)@ + login_password_html(*t, failed, show_username),
{
    let ghost start = out@;
    extend_str(out, "<label class=\"field\">");
    push_escaped(out, t.login_password);
    extend_str(out, "<input id=\"login-password\" type=\"password\" name=\"password\" autocomplete=\"current-password\"");
    let ghost m1 = out@;
    if failed {
        extend_str(out, " aria-describedby=\"login-error\" aria-invalid=\"true\"");
    } else {
        assert(m1 + Seq::<char>::empty() =~= m1);
    }
    let ghost m2 = out@;
    if !show_username {
        extend_str(out, " autofocus");
    } else {
        assert(m2 + Seq::<char>::empty() =~= m2);
    }
    extend_str(out, " required></label>");
    assert(out@ =~= start + login_password_html(*t, failed, show_username));
}

/// The content of the sign-in page, as the console layout frames it: the
/// error of a refused attempt, the username field when accounts have names,
/// and the password field.
#[verifier::rlimit(100)]
fn login_content(t: &L10n, error: Option<&str>, show_username: bool, username: Option<&str>) -> (r: String)
    ensures
        r@ == login_html(*t, opt_text(error), show_username, opt_text(username)),
{
    let mut out: Vec<char> = Vec::new();
    extend_str(&mut out, "<div class=\"login-wrap\">");
    let intro = if show_username { t.login_team_intro } else { t.login_intro };
    push_panel_head(&mut out, t.login_heading, intro);
    let ghost m = out@;
    match error {
        Some(e) => {
            extend_str(&mut out, "<p class=\"error-message\" id=\"login-error\" role=\"alert\">");
            push_escaped(&mut out, e);
            extend_str(&mut out, "</p>");
        },
        None => {},
    }
    assert(out@ =~= m + login_error_html(opt_text(error)));
    extend_str(&mut out, "<form method=\"post\" action=\"/login\">");
    push_login_username(&mut out, t, show_username, username);
    push_login_password(&mut out, t, error.is_some(), show_username);
    extend_str(&mut out, "<div class=\"button-row\"><button type=\"submit\">");
    push_escaped(&mut out, t.login_button);
    extend_str(&mut out, "</button></div></form></section></div>");
    assert(out@ =~= login_html(*t, opt_text(error), show_username, opt_text(username)));
    from_chars(&out)
}

/// The sign-in page: the content above in the sign-in frame, under its title.
#[verifier::rlimit(100)]
pub fn login(t: &L10n, error: Option<&str>, show_username: bool, username: Option<&str>) -> (r: String)
    ensures
        r@ == layout_html(*t, t.login_title@, "login"@, login_html(*t, opt_text(error), show_username, opt_text(username))),
{
    let content = login_content(t, error, show_username, username);
    layout(t.login_title, "login", t, content.as_str())
}

/// The label of an administrator profile; unknown profiles show `none`.
pub open spec fn profile_label(t: L10n, profile: Seq<char>) -> Seq<char> {
    if profile == ADMIN_PROFILE_OWNER@ {
        t.admin_profile_owner@
    } else if profile == ADMIN_PROFILE_OPERATOR@ {
        t.admin_profile_operator@
    } else if profile == ADMIN_PROFILE_VIEWER@ {
        t.admin_profile_viewer@
    } else {
        t.none@
    }
}

/// The request an administrator can send to an owner, in the page's
/// language.
pub open spec fn permission_request(t: L10n, task: Seq<char>) -> Seq<char> {
    match t.locale {
        Locale::En => esc(t.permission_request_prefix@) + " "@ + esc(task) + "."@,
        Locale::Zh => esc(t.permission_request_prefix@) + esc(task) + "。"@,
    }
}

/// The content of the page that refuses an action to a profile without the
/// right to it.
pub open spec fn permission_denied_html(t: L10n, task: Seq<char>, profile: Seq<char>) -> Seq<char> {
    "<div class=\"page-intro\"><h2>"@ + esc(t.permission_denied_heading@) + "</h2><p>"@ + esc(t.permission_denied_intro@)
        + "</p></div><section class=\"panel\"><div class=\"posture-list\"><div class=\"posture-item\"><span class=\"status-dot warn\"></span><b>"@
        + esc(t.permission_current_access@) + "</b><span>"@ + esc(profile_label(t, profile))
        + "</span></div><div class=\"posture-item\"><span class=\"status-dot good\"></span><b>"@
        + esc(t.permission_owner_action@) + "</b><a class=\"dashboard-panel-link\" href=\"/settings\">"@
        + esc(t.nav_settings@) + "</a></div></div><pre>"@ + permission_request(t, task) + "</pre></section>"@
}

/// The content of the page that refuses an action, as the console layout
/// frames it: the profile the administrator has, where an owner changes
/// it, and a request naming the task.
#[verifier::rlimit(100)]
fn permission_denied_content(t: &L10n, task: &str, access_profile: &str) -> (r: String)
    ensures
        r@ == permission_denied_html(*t, task@, access_profile@),
{
    let mut out: Vec<char> = Vec::new();
    extend_str(&mut out, "<div class=\"page-intro\"><h2>");
    push_escaped(&mut out, t.permission_denied_heading);
    extend_str(&mut out, "</h2><p>");
    push_escaped(&mut out, t.permission_denied_intro);
    extend_str(&mut out, "</p></div><section class=\"panel\"><div class=\"posture-list\"><div class=\"posture-item\"><span class=\"status-dot warn\"></span><b>");
    push_escaped(&mut out, t.permission_current_access);
    extend_str(&mut out, "</b><span>");
    push_escaped(&mut out, admin_profile_label(t, access_profile));
    extend_str(&mut out, "</span></div><div class=\"posture-item\"><span class=\"status-dot good\"></span><b>");
    push_escaped(&mut out, t.permission_owner_action);
    extend_str(&mut out, "</b><a class=\"dashboard-panel-link\" href=\"/settings\">");
    push_escaped(&mut out, t.nav_settings);
    extend_str(&mut out, "</a></div></div><pre>");
    let ghost m = out@;
    match t.locale {
        Locale::En => {
            push_escaped(&mut out, t.permission_request_prefix);
            extend_str(&mut out, " ");
            push_escaped(&mut out, task);
            extend_str(&mut out, ".");
        },
        Locale::Zh => {
            push_escaped(&mut out, t.permission_request_prefix);
            push_escaped(&mut out, task);
            extend_str(&mut out, "。");
        },
    }
    assert(out@ =~= m + permission_request(*t, task@));
    extend_str(&mut out, "</pre></section>");
    assert(out@ =~= permission_denied_html(*t, task@, access_profile@));
    from_chars(&out)
}

/// The page that explains a refused request: the content above in the console frame, under its title.
#[verifier::rlimit(100)]
pub fn permission_denied(t: &L10n, task: &str, access_profile: &str) -> (r: String)
    ensures
        r@ == layout_html(*t, t.permission_denied_title@, ""@, permission_denied_html(*t, task@, access_profile@)),
{
    let content = permission_denied_content(t, task, access_profile);
    layout(t.permission_denied_title, "", t, content.as_str())
}

} // verus!
