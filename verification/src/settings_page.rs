//! The markup of the settings page: the password form and the
//! administrator accounts.
use crate::layout::{layout, layout_html};
use vstd::prelude::*;

use crate::admin_auth::{ADMIN_PROFILE_OPERATOR, ADMIN_PROFILE_OWNER, ADMIN_PROFILE_VIEWER};
use crate::auth_pages::profile_label;
use crate::console::{count_active, AdminAccount};
use crate::console_pages::{csrf_html, esc, form_error_html, opt_text, panel_head_html, push_csrf_field, push_escaped, push_form_error, push_panel_head, push_path};
use crate::i18n::L10n;
use crate::pages::admin_profile_label;
use crate::sessions_page::or_dash;
use crate::text::{dec, extend_str, from_chars, push_dec, str_eq};

verus! {

/// The number of active owner accounts.
pub open spec fn count_active_owners(s: Seq<AdminAccount>) -> nat
    decreases s.len(),
{
    if s.len() == 0 {
        0
    } else {
        count_active_owners(s.drop_last()) + if s.last().is_active && s.last().access_profile@ == ADMIN_PROFILE_OWNER@ {
            1nat
        } else {
            0nat
        }
    }
}

/// An account is the last active owner: taking its access away would leave
/// nobody in full control.
pub open spec fn is_last_owner(a: AdminAccount, owners: nat) -> bool {
    a.is_active && a.access_profile@ == ADMIN_PROFILE_OWNER@ && owners == 1
}

/// What a profile allows; unknown profiles show `none`.
pub open spec fn profile_intro(t: L10n, profile: Seq<char>) -> Seq<char> {
    if profile == ADMIN_PROFILE_OWNER@ {
        t.admin_profile_owner_intro@
    } else if profile == ADMIN_PROFILE_OPERATOR@ {
        t.admin_profile_operator_intro@
    } else if profile == ADMIN_PROFILE_VIEWER@ {
        t.admin_profile_viewer_intro@
    } else {
        t.none@
    }
}

#[verifier::rlimit(100)]
fn count_accounts(admins: &[AdminAccount]) -> (r: (usize, usize))
    ensures
        r.0 == count_active(admins@),
        r.1 == count_active_owners(admins@),
{
    let mut active: usize = 0;
    let mut owners: usize = 0;
    let mut i: usize = 0;
    assert(admins@.take(0) =~= Seq::<AdminAccount>::empty());
    while i < admins.len()
        invariant
            i <= admins.len(),
            active == count_active(admins@.take(i as int)),
            owners == count_active_owners(admins@.take(i as int)),
            active <= i,
            owners <= i,
        decreases admins.len() - i,
    {
        assert(admins@.take(i + 1).drop_last() =~= admins@.take(i as int));
        assert(admins@.take(i + 1).last() == admins@[i as int]);
        if admins[i].is_active {
            active = active + 1;
            if str_eq(admins[i].access_profile.as_str(), ADMIN_PROFILE_OWNER) {
                owners = owners + 1;
            }
        }
        i += 1;
    }
    assert(admins@.take(admins.len() as int) =~= admins@);
    (active, owners)
}

#[verifier::rlimit(100)]
fn admin_profile_intro(t: &L10n, profile: &str) -> (r: &'static str)
    ensures
        r@ == profile_intro(*t, profile@),
{
    if str_eq(profile, ADMIN_PROFILE_OWNER) {
        t.admin_profile_owner_intro
    } else if str_eq(profile, ADMIN_PROFILE_OPERATOR) {
        t.admin_profile_operator_intro
    } else if str_eq(profile, ADMIN_PROFILE_VIEWER) {
        t.admin_profile_viewer_intro
    } else {
        t.none
    }
}

// ---------------------------------------------------------------------------
// The password form
// ---------------------------------------------------------------------------

/// The heading, the error of a refused change, and the reminder to change a
/// temporary password.
pub open spec fn settings_top_html(t: L10n, error: Option<Seq<char>>, must_change: bool) -> Seq<char> {
    "<div class=\"page-intro\"><h2>"@ + esc(t.settings_heading@) + "</h2><p>"@ + esc(t.settings_intro@) + "</p></div>"@
        + form_error_html(error, true) + (if must_change {
        "<p class=\"error-message\" role=\"status\">"@ + esc(t.admin_must_change_password@) + "</p>"@
    } else {
        Seq::empty()
    })
}

/// The form that changes one's own password.
#[verifier::opaque]
pub open spec fn password_panel_html(t: L10n, csrf: Seq<char>) -> Seq<char> {
    panel_head_html(t.admin_password_heading@, t.admin_password_intro@) + "<form method=\"post\" action=\"/settings\">"@
        + csrf_html(csrf) + "<div class=\"grid\"><label class=\"field\">"@ + esc(t.current_password@)
        + "<input type=\"password\" name=\"current_password\" autocomplete=\"current-password\" required></label><label class=\"field\">"@
        + esc(t.new_password@)
        + "<input type=\"password\" name=\"new_password\" autocomplete=\"new-password\" minlength=\"12\" required></label><label class=\"field\">"@
        + esc(t.confirm_password@)
        + "<input type=\"password\" name=\"confirm_password\" autocomplete=\"new-password\" minlength=\"12\" required></label></div><div class=\"button-row\"><button type=\"submit\">"@
        + esc(t.change_password@) + "</button></div></form></section>"@
}

#[verifier::rlimit(100)]
fn push_settings_top(out: &mut Vec<char>, t: &L10n, error: Option<&str>, must_change: bool)
    ensures
        final(out)@ == old(out)@ + settings_top_html(*t, opt_text(error), must_change),
{
    let ghost start = out@;
    extend_str(out, "<div class=\"page-intro\"><h2>");
    push_escaped(out, t.settings_heading);
    extend_str(out, "</h2><p>");
    push_escaped(out, t.settings_intro);
    extend_str(out, "</p></div>");
    push_form_error(out, error, true);
    let ghost m = out@;
    if must_change {
        extend_str(out, "<p class=\"error-message\" role=\"status\">");
        push_escaped(out, t.admin_must_change_password);
        extend_str(out, "</p>");
    } else {
        assert(m + Seq::<char>::empty() =~= m);
    }
    assert(out@ =~= start + settings_top_html(*t, opt_text(error), must_change));
}

#[verifier::rlimit(100)]
fn push_password_panel(out: &mut Vec<char>, t: &L10n, csrf: &str)
    ensures
        final(out)@ == old(out)@ + password_panel_html(*t, csrf@),
{
    proof {
        reveal(password_panel_html);
    }
    let ghost start = out@;
    push_panel_head(out, t.admin_password_heading, t.admin_password_intro);
    extend_str(out, "<form method=\"post\" action=\"/settings\">");
    push_csrf_field(out, csrf);
    extend_str(out, "<div class=\"grid\"><label class=\"field\">");
    push_escaped(out, t.current_password);
    extend_str(out, "<input type=\"password\" name=\"current_password\" autocomplete=\"current-password\" required></label><label class=\"field\">");
    push_escaped(out, t.new_password);
    extend_str(out, "<input type=\"password\" name=\"new_password\" autocomplete=\"new-password\" minlength=\"12\" required></label><label class=\"field\">");
    push_escaped(out, t.confirm_password);
    extend_str(out, "<input type=\"password\" name=\"confirm_password\" autocomplete=\"new-password\" minlength=\"12\" required></label></div><div class=\"button-row\"><button type=\"submit\">");
    push_escaped(out, t.change_password);
    extend_str(out, "</button></div></form></section>");
    assert(out@ =~= start + password_panel_html(*t, csrf@));
}

// ---------------------------------------------------------------------------
// The administrator accounts
// ---------------------------------------------------------------------------

/// The head of the accounts panel up to the count of active accounts.
pub open spec fn accounts_chip_html(t: L10n, active: nat) -> Seq<char> {
    "<section class=\"panel\"><div class=\"panel-header\"><div><h2>"@ + esc(t.admin_access_heading@) + "</h2><p>"@
        + esc(t.admin_access_intro@) + "</p></div><div class=\"status-row\"><span class=\"status-chip\">"@ + dec(active)
        + " · "@ + esc(t.admin_access_heading@) + "</span>"@
}

/// The button that opens the dialog adding an account, for those who
/// manage administrators.
pub open spec fn add_admin_button_html(t: L10n, can_manage: bool) -> Seq<char> {
    if can_manage {
        "<button id=\"open-add-admin\" type=\"button\" aria-haspopup=\"dialog\" aria-controls=\"add-admin-dialog\" onclick=\"document.getElementById('add-admin-dialog').showModal()\">"@
            + esc(t.admin_add_action@) + "</button>"@
    } else {
        Seq::empty()
    }
}

/// Whether sign-in asks for usernames, and the heading of the list.
pub open spec fn accounts_intro_html(t: L10n, active: nat) -> Seq<char> {
    "</div></div><p class=\"fine-print\">"@ + esc(if active == 1 { t.admin_single_mode@ } else { t.admin_team_mode@ })
        + "</p><div class=\"panel-header\"><div><h3>"@ + esc(t.admin_existing_heading@) + "</h3><p>"@
        + esc(t.admin_existing_intro@) + "</p></div></div><div class=\"admin-access-list\">"@
}

/// The head of the accounts panel: how many are active, the button that
/// adds one (for those who manage administrators), and whether sign-in asks
/// for usernames.
pub open spec fn accounts_head_html(t: L10n, active: nat, can_manage: bool) -> Seq<char> {
    accounts_chip_html(t, active) + add_admin_button_html(t, can_manage) + accounts_intro_html(t, active)
}

/// An account's name, marked when it is one's own.
pub open spec fn person_name_html(t: L10n, a: AdminAccount, is_current: bool) -> Seq<char> {
    "<div class=\"admin-access-item\"><div class=\"admin-person\"><b>"@ + esc(a.display_name@)
        + (if is_current { " · "@ + esc(t.admin_current_user@) } else { Seq::empty() }) + "</b>"@
}

/// An account's username, last sign-in, and whether it must change its
/// password.
pub open spec fn person_detail_html(t: L10n, a: AdminAccount) -> Seq<char> {
    "<span class=\"mono\">@"@ + esc(a.username@) + "</span><span class=\"subtle\">"@ + esc(t.admin_last_login@) + ": "@
        + esc(or_dash(a.last_login_at)) + "</span>"@ + (if a.must_change_password {
        "<span class=\"status-chip warn\">"@ + esc(t.admin_must_change_password@) + "</span>"@
    } else {
        Seq::empty()
    }) + "</div>"@
}

/// Who an account is: its name (marked when it is one's own), username,
/// last sign-in, and whether it must change its password.
pub open spec fn person_html(t: L10n, a: AdminAccount, is_current: bool) -> Seq<char> {
    person_name_html(t, a, is_current) + person_detail_html(t, a)
}

/// An option of the access level, selected when it is the account's.
pub open spec fn profile_option_html(value: Seq<char>, label: Seq<char>, selected: bool) -> Seq<char> {
    "<option value=\""@ + esc(value) + "\""@ + (if selected { " selected"@ } else { Seq::empty() }) + ">"@ + esc(label)
        + "</option>"@
}

/// The access levels, the account's own selected.
pub open spec fn profile_options_html(t: L10n, selected: Seq<char>) -> Seq<char> {
    profile_option_html(ADMIN_PROFILE_OPERATOR@, t.admin_profile_operator@, selected == ADMIN_PROFILE_OPERATOR@)
        + profile_option_html(ADMIN_PROFILE_VIEWER@, t.admin_profile_viewer@, selected == ADMIN_PROFILE_VIEWER@)
        + profile_option_html(ADMIN_PROFILE_OWNER@, t.admin_profile_owner@, selected == ADMIN_PROFILE_OWNER@)
}

/// The start of the form that changes an account's access: the levels.
pub open spec fn access_form_start_html(t: L10n, a: AdminAccount, csrf: Seq<char>) -> Seq<char> {
    "<form method=\"post\" action=\""@ + esc("/settings/admins/"@ + a.id@ + "/access"@) + "\">"@ + csrf_html(csrf)
        + "<label class=\"field\">"@ + esc(t.admin_access_level@) + "<select name=\"access_profile\">"@
        + profile_options_html(t, a.access_profile@)
}

/// The end of the form that changes an account's access: whether it may
/// sign in, and the button.
pub open spec fn access_form_end_html(t: L10n, a: AdminAccount) -> Seq<char> {
    "</select></label><label class=\"checkbox-line\"><input type=\"checkbox\" name=\"is_active\" value=\"yes\""@
        + (if a.is_active { " checked"@ } else { Seq::empty() }) + ">"@ + esc(t.admin_login_active@)
        + "</label><button type=\"submit\">"@ + esc(t.admin_save_access@) + "</button></form>"@
}

/// The form that changes an account's access level and turns its sign-in
/// on or off.
pub open spec fn access_form_html(t: L10n, a: AdminAccount, csrf: Seq<char>) -> Seq<char> {
    access_form_start_html(t, a, csrf) + access_form_end_html(t, a)
}

/// An account's access as text, with the note that protects the last
/// owner.
#[verifier::opaque]
pub open spec fn access_summary_html(t: L10n, a: AdminAccount, last_owner: bool) -> Seq<char> {
    "<div class=\"primary-cell\"><span class=\"status-pill\">"@ + esc(profile_label(t, a.access_profile@))
        + "</span><span class=\"subtle\">"@ + esc(profile_intro(t, a.access_profile@)) + "</span>"@ + (if last_owner {
        "<span class=\"subtle\">"@ + esc(t.admin_last_owner_note@) + "</span>"@
    } else {
        Seq::empty()
    }) + "</div>"@
}

/// An account of the list: the form that changes its access for those who
/// manage administrators, unless it is the last active owner; else its
/// access as text.
pub open spec fn account_html(t: L10n, a: AdminAccount, current_id: Seq<char>, owners: nat, csrf: Seq<char>, can_manage: bool) -> Seq<char> {
    person_html(t, a, a.id@ == current_id) + (if can_manage && !is_last_owner(a, owners) {
        access_form_html(t, a, csrf)
    } else {
        access_summary_html(t, a, is_last_owner(a, owners))
    }) + "</div>"@
}

/// The accounts of the list, in order.
pub open spec fn accounts_html(t: L10n, admins: Seq<AdminAccount>, current_id: Seq<char>, owners: nat, csrf: Seq<char>, can_manage: bool) -> Seq<char>
    decreases admins.len(),
{
    if admins.len() == 0 {
        Seq::empty()
    } else {
        accounts_html(t, admins.drop_last(), current_id, owners, csrf, can_manage)
            + account_html(t, admins.last(), current_id, owners, csrf, can_manage)
    }
}

#[verifier::rlimit(100)]
fn push_accounts_head(out: &mut Vec<char>, t: &L10n, active: usize, can_manage: bool)
    ensures
        final(out)@ == old(out)@ + accounts_head_html(*t, active as nat, can_manage),
{
    let ghost start = out@;
    extend_str(out, "<section class=\"panel\"><div class=\"panel-header\"><div><h2>");
    push_escaped(out, t.admin_access_heading);
    extend_str(out, "</h2><p>");
    push_escaped(out, t.admin_access_intro);
    extend_str(out, "</p></div><div class=\"status-row\"><span class=\"status-chip\">");
    push_dec(out, active as u64);
    extend_str(out, " · ");
    push_escaped(out, t.admin_access_heading);
    extend_str(out, "</span>");
    let ghost p1 = accounts_chip_html(*t, active as nat);
    assert(out@ =~= start + p1);
    let ghost m = out@;
    if can_manage {
        extend_str(out, "<button id=\"open-add-admin\" type=\"button\" aria-haspopup=\"dialog\" aria-controls=\"add-admin-dialog\" onclick=\"document.getElementById('add-admin-dialog').showModal()\">");
        push_escaped(out, t.admin_add_action);
        extend_str(out, "</button>");
    }
    let ghost p2 = add_admin_button_html(*t, can_manage);
    assert(out@ =~= m + p2);
    let ghost m2 = out@;
    extend_str(out, "</div></div><p class=\"fine-print\">");
    let mode = if active == 1 { t.admin_single_mode } else { t.admin_team_mode };
    push_escaped(out, mode);
    extend_str(out, "</p><div class=\"panel-header\"><div><h3>");
    push_escaped(out, t.admin_existing_heading);
    extend_str(out, "</h3><p>");
    push_escaped(out, t.admin_existing_intro);
    extend_str(out, "</p></div></div><div class=\"admin-access-list\">");
    let ghost p3 = accounts_intro_html(*t, active as nat);
    assert(out@ =~= m2 + p3);
    assert(out@ =~= start + (p1 + p2 + p3));
}

#[verifier::rlimit(100)]
fn push_person_name(out: &mut Vec<char>, t: &L10n, a: &AdminAccount, is_current: bool)
    ensures
        final(out)@ == old(out)@ + person_name_html(*t, *a, is_current),
{
    let ghost start = out@;
    extend_str(out, "<div class=\"admin-access-item\"><div class=\"admin-person\"><b>");
    push_escaped(out, a.display_name.as_str());
    let ghost m1 = out@;
    if is_current {
        extend_str(out, " · ");
        push_escaped(out, t.admin_current_user);
    } else {
        assert(m1 + Seq::<char>::empty() =~= m1);
    }
    extend_str(out, "</b>");
    assert(out@ =~= start + person_name_html(*t, *a, is_current));
}

#[verifier::rlimit(100)]
fn push_person_detail(out: &mut Vec<char>, t: &L10n, a: &AdminAccount)
    ensures
        final(out)@ == old(out)@ + person_detail_html(*t, *a),
{
    let ghost start = out@;
    extend_str(out, "<span class=\"mono\">@");
    push_escaped(out, a.username.as_str());
    extend_str(out, "</span><span class=\"subtle\">");
    push_escaped(out, t.admin_last_login);
    extend_str(out, ": ");
    let last: &str = match &a.last_login_at {
        Some(s) => s.as_str(),
        None => "-",
    };
    push_escaped(out, last);
    extend_str(out, "</span>");
    let ghost m2 = out@;
    if a.must_change_password {
        extend_str(out, "<span class=\"status-chip warn\">");
        push_escaped(out, t.admin_must_change_password);
        extend_str(out, "</span>");
    } else {
        assert(m2 + Seq::<char>::empty() =~= m2);
    }
    extend_str(out, "</div>");
    assert(out@ =~= start + person_detail_html(*t, *a));
}

#[verifier::rlimit(100)]
fn push_person(out: &mut Vec<char>, t: &L10n, a: &AdminAccount, is_current: bool)
    ensures
        final(out)@ == old(out)@ + person_html(*t, *a, is_current),
{
    let ghost start = out@;
    push_person_name(out, t, a, is_current);
    push_person_detail(out, t, a);
    assert(out@ =~= start + person_html(*t, *a, is_current));
}

#[verifier::rlimit(100)]
pub(crate) fn push_profile_option(out: &mut Vec<char>, value: &str, label: &str, selected: bool)
    ensures
        final(out)@ == old(out)@ + profile_option_html(value@, label@, selected),
{
    let ghost start = out@;
    extend_str(out, "<option value=\"");
    push_escaped(out, value);
    extend_str(out, "\"");
    let ghost m = out@;
    if selected {
        extend_str(out, " selected");
    } else {
        assert(m + Seq::<char>::empty() =~= m);
    }
    extend_str(out, ">");
    push_escaped(out, label);
    extend_str(out, "</option>");
    assert(out@ =~= start + profile_option_html(value@, label@, selected));
}

#[verifier::rlimit(100)]
fn push_access_form_start(out: &mut Vec<char>, t: &L10n, a: &AdminAccount, csrf: &str)
    ensures
        final(out)@ == old(out)@ + access_form_start_html(*t, *a, csrf@),
{
    let ghost start = out@;
    extend_str(out, "<form method=\"post\" action=\"");
    push_path(out, "/settings/admins/", a.id.as_str(), "/access");
    extend_str(out, "\">");
    push_csrf_field(out, csrf);
    extend_str(out, "<label class=\"field\">");
    push_escaped(out, t.admin_access_level);
    extend_str(out, "<select name=\"access_profile\">");
    let ghost m = out@;
    let p = a.access_profile.as_str();
    push_profile_option(out, ADMIN_PROFILE_OPERATOR, t.admin_profile_operator, str_eq(p, ADMIN_PROFILE_OPERATOR));
    push_profile_option(out, ADMIN_PROFILE_VIEWER, t.admin_profile_viewer, str_eq(p, ADMIN_PROFILE_VIEWER));
    push_profile_option(out, ADMIN_PROFILE_OWNER, t.admin_profile_owner, str_eq(p, ADMIN_PROFILE_OWNER));
    let ghost opts = profile_options_html(*t, a.access_profile@);
    assert(out@ =~= m + opts);
    assert(out@ =~= start + access_form_start_html(*t, *a, csrf@));
}

#[verifier::rlimit(100)]
fn push_access_form_end(out: &mut Vec<char>, t: &L10n, a: &AdminAccount)
    ensures
        final(out)@ == old(out)@ + access_form_end_html(*t, *a),
{
    let ghost start = out@;
    extend_str(out, "</select></label><label class=\"checkbox-line\"><input type=\"checkbox\" name=\"is_active\" value=\"yes\"");
    let ghost m2 = out@;
    if a.is_active {
        extend_str(out, " checked");
    } else {
        assert(m2 + Seq::<char>::empty() =~= m2);
    }
    extend_str(out, ">");
    push_escaped(out, t.admin_login_active);
    extend_str(out, "</label><button type=\"submit\">");
    push_escaped(out, t.admin_save_access);
    extend_str(out, "</button></form>");
    assert(out@ =~= start + access_form_end_html(*t, *a));
}

#[verifier::rlimit(100)]
fn push_access_form(out: &mut Vec<char>, t: &L10n, a: &AdminAccount, csrf: &str)
    ensures
        final(out)@ == old(out)@ + access_form_html(*t, *a, csrf@),
{
    let ghost start = out@;
    push_access_form_start(out, t, a, csrf);
    push_access_form_end(out, t, a);
    assert(out@ =~= start + access_form_html(*t, *a, csrf@));
}

#[verifier::rlimit(100)]
fn push_access_summary(out: &mut Vec<char>, t: &L10n, a: &AdminAccount, last_owner: bool)
    ensures
        final(out)@ == old(out)@ + access_summary_html(*t, *a, last_owner),
{
    proof {
        reveal(access_summary_html);
    }
    let ghost start = out@;
    extend_str(out, "<div class=\"primary-cell\"><span class=\"status-pill\">");
    push_escaped(out, admin_profile_label(t, a.access_profile.as_str()));
    extend_str(out, "</span><span class=\"subtle\">");
    push_escaped(out, admin_profile_intro(t, a.access_profile.as_str()));
    extend_str(out, "</span>");
    let ghost m = out@;
    if last_owner {
        extend_str(out, "<span class=\"subtle\">");
        push_escaped(out, t.admin_last_owner_note);
        extend_str(out, "</span>");
    } else {
        assert(m + Seq::<char>::empty() =~= m);
    }
    extend_str(out, "</div>");
    assert(out@ =~= start + access_summary_html(*t, *a, last_owner));
}

#[verifier::rlimit(100)]
fn push_account(out: &mut Vec<char>, t: &L10n, a: &AdminAccount, current_id: &str, owners: usize, csrf: &str, can_manage: bool)
    ensures
        final(out)@ == old(out)@ + account_html(*t, *a, current_id@, owners as nat, csrf@, can_manage),
{
    let ghost start = out@;
    let is_current = str_eq(a.id.as_str(), current_id);
    let last_owner = a.is_active && str_eq(a.access_profile.as_str(), ADMIN_PROFILE_OWNER) && owners == 1;
    assert(last_owner == is_last_owner(*a, owners as nat));
    push_person(out, t, a, is_current);
    let ghost m = out@;
    if can_manage && !last_owner {
        push_access_form(out, t, a, csrf);
    } else {
        push_access_summary(out, t, a, last_owner);
    }
    extend_str(out, "</div>");
    assert(out@ =~= start + account_html(*t, *a, current_id@, owners as nat, csrf@, can_manage));
}

#[verifier::rlimit(100)]
fn push_accounts(out: &mut Vec<char>, t: &L10n, admins: &[AdminAccount], current_id: &str, owners: usize, csrf: &str, can_manage: bool)
    ensures
        final(out)@ == old(out)@ + accounts_html(*t, admins@, current_id@, owners as nat, csrf@, can_manage),
{
    let ghost start = out@;
    let mut i: usize = 0;
    assert(admins@.take(0) =~= Seq::<AdminAccount>::empty());
    assert(start + Seq::<char>::empty() =~= start);
    while i < admins.len()
        invariant
            i <= admins.len(),
            out@ == start + accounts_html(*t, admins@.take(i as int), current_id@, owners as nat, csrf@, can_manage),
        decreases admins.len() - i,
    {
        push_account(out, t, &admins[i], current_id, owners, csrf, can_manage);
        assert(admins@.take(i + 1).drop_last() =~= admins@.take(i as int));
        assert(admins@.take(i + 1).last() == admins@[i as int]);
        assert(out@ =~= start + accounts_html(*t, admins@.take(i + 1), current_id@, owners as nat, csrf@, can_manage));
        i += 1;
    }
    assert(admins@.take(admins.len() as int) =~= admins@);
}


// ---------------------------------------------------------------------------
// The dialog that adds an administrator
// ---------------------------------------------------------------------------

/// The head of the dialog that adds an account.
#[verifier::opaque]
pub open spec fn add_dialog_head_html(t: L10n) -> Seq<char> {
    "<dialog class=\"asset-drawer\" id=\"add-admin-dialog\" aria-labelledby=\"add-admin-title\" onclose=\"document.getElementById('open-add-admin').focus()\"><div class=\"drawer-frame\"><div class=\"drawer-header\"><div><span class=\"status-chip\">"@
        + esc(t.admin_add_action@) + "</span><h2 id=\"add-admin-title\">"@ + esc(t.admin_add_heading@) + "</h2><p>"@
        + esc(t.admin_add_intro@) + "</p></div><form method=\"dialog\"><button class=\"ghost-button\" type=\"submit\">"@
        + esc(t.close@) + "</button></form></div>"@
}

/// The name, username and temporary password fields of a new account.
#[verifier::opaque]
pub open spec fn add_fields_html(t: L10n, csrf: Seq<char>) -> Seq<char> {
    "<form method=\"post\" action=\"/settings/admins\">"@ + csrf_html(csrf) + "<div class=\"grid\"><label class=\"field\">"@
        + esc(t.admin_display_name@)
        + "<input name=\"display_name\" autocomplete=\"name\" required autofocus></label><label class=\"field\">"@
        + esc(t.admin_username@)
        + "<input name=\"username\" autocomplete=\"off\" pattern=\"[A-Za-z0-9_.-]+\" required></label><label class=\"field field-wide\">"@
        + esc(t.admin_temporary_password@)
        + "<input type=\"password\" name=\"temporary_password\" autocomplete=\"new-password\" minlength=\"12\" required><span class=\"subtle\">"@
        + esc(t.admin_temporary_password_note@) + "</span></label>"@
}

/// The access level of a new account, operator by default.
#[verifier::opaque]
pub open spec fn add_profile_html(t: L10n) -> Seq<char> {
    "<label class=\"field field-wide\">"@ + esc(t.admin_access_level@) + "<select name=\"access_profile\"><option value=\""@
        + esc(ADMIN_PROFILE_OPERATOR@) + "\" selected>"@ + esc(t.admin_profile_operator@) + " · "@
        + esc(t.admin_recommended@) + "</option><option value=\""@ + esc(ADMIN_PROFILE_VIEWER@) + "\">"@
        + esc(t.admin_profile_viewer@) + "</option><option value=\""@ + esc(ADMIN_PROFILE_OWNER@) + "\">"@
        + esc(t.admin_profile_owner@) + "</option></select></label></div>"@
}

/// What each access level allows, and the button.
#[verifier::opaque]
pub open spec fn add_end_html(t: L10n) -> Seq<char> {
    "<details><summary>"@ + esc(t.admin_access_level@) + "</summary><p><b>"@ + esc(t.admin_profile_operator@) + "</b> — "@
        + esc(t.admin_profile_operator_intro@) + "</p><p><b>"@ + esc(t.admin_profile_viewer@) + "</b> — "@
        + esc(t.admin_profile_viewer_intro@) + "</p><p><b>"@ + esc(t.admin_profile_owner@) + "</b> — "@
        + esc(t.admin_profile_owner_intro@) + "</p></details><div class=\"button-row\"><button type=\"submit\">"@
        + esc(t.admin_add_action@) + "</button></div></form></div></dialog>"@
}

/// The dialog that adds an administrator account.
pub open spec fn add_dialog_html(t: L10n, csrf: Seq<char>) -> Seq<char> {
    add_dialog_head_html(t) + add_fields_html(t, csrf) + add_profile_html(t) + add_end_html(t)
}

#[verifier::rlimit(100)]
fn push_add_dialog_head(out: &mut Vec<char>, t: &L10n)
    ensures
        final(out)@ == old(out)@ + add_dialog_head_html(*t),
{
    proof {
        reveal(add_dialog_head_html);
    }
    let ghost start = out@;
    extend_str(out, "<dialog class=\"asset-drawer\" id=\"add-admin-dialog\" aria-labelledby=\"add-admin-title\" onclose=\"document.getElementById('open-add-admin').focus()\"><div class=\"drawer-frame\"><div class=\"drawer-header\"><div><span class=\"status-chip\">");
    push_escaped(out, t.admin_add_action);
    extend_str(out, "</span><h2 id=\"add-admin-title\">");
    push_escaped(out, t.admin_add_heading);
    extend_str(out, "</h2><p>");
    push_escaped(out, t.admin_add_intro);
    extend_str(out, "</p></div><form method=\"dialog\"><button class=\"ghost-button\" type=\"submit\">");
    push_escaped(out, t.close);
    extend_str(out, "</button></form></div>");
    assert(out@ =~= start + add_dialog_head_html(*t));
}

#[verifier::rlimit(100)]
fn push_add_fields(out: &mut Vec<char>, t: &L10n, csrf: &str)
    ensures
        final(out)@ == old(out)@ + add_fields_html(*t, csrf@),
{
    proof {
        reveal(add_fields_html);
    }
    let ghost start = out@;
    extend_str(out, "<form method=\"post\" action=\"/settings/admins\">");
    push_csrf_field(out, csrf);
    extend_str(out, "<div class=\"grid\"><label class=\"field\">");
    push_escaped(out, t.admin_display_name);
    extend_str(out, "<input name=\"display_name\" autocomplete=\"name\" required autofocus></label><label class=\"field\">");
    push_escaped(out, t.admin_username);
    extend_str(out, "<input name=\"username\" autocomplete=\"off\" pattern=\"[A-Za-z0-9_.-]+\" required></label><label class=\"field field-wide\">");
    push_escaped(out, t.admin_temporary_password);
    extend_str(out, "<input type=\"password\" name=\"temporary_password\" autocomplete=\"new-password\" minlength=\"12\" required><span class=\"subtle\">");
    push_escaped(out, t.admin_temporary_password_note);
    extend_str(out, "</span></label>");
    assert(out@ =~= start + add_fields_html(*t, csrf@));
}

#[verifier::rlimit(100)]
fn push_add_profile(out: &mut Vec<char>, t: &L10n)
    ensures
        final(out)@ == old(out)@ + add_profile_html(*t),
{
    proof {
        reveal(add_profile_html);
    }
    let ghost start = out@;
    extend_str(out, "<label class=\"field field-wide\">");
    push_escaped(out, t.admin_access_level);
    extend_str(out, "<select name=\"access_profile\"><option value=\"");
    push_escaped(out, ADMIN_PROFILE_OPERATOR);
    extend_str(out, "\" selected>");
    push_escaped(out, t.admin_profile_operator);
    extend_str(out, " · ");
    push_escaped(out, t.admin_recommended);
    extend_str(out, "</option><option value=\"");
    push_escaped(out, ADMIN_PROFILE_VIEWER);
    extend_str(out, "\">");
    push_escaped(out, t.admin_profile_viewer);
    extend_str(out, "</option><option value=\"");
    push_escaped(out, ADMIN_PROFILE_OWNER);
    extend_str(out, "\">");
    push_escaped(out, t.admin_profile_owner);
    extend_str(out, "</option></select></label></div>");
    assert(out@ =~= start + add_profile_html(*t));
}

#[verifier::rlimit(100)]
fn push_add_end(out: &mut Vec<char>, t: &L10n)
    ensures
        final(out)@ == old(out)@ + add_end_html(*t),
{
    proof {
        reveal(add_end_html);
    }
    let ghost start = out@;
    extend_str(out, "<details><summary>");
    push_escaped(out, t.admin_access_level);
    extend_str(out, "</summary><p><b>");
    push_escaped(out, t.admin_profile_operator);
    extend_str(out, "</b> — ");
    push_escaped(out, t.admin_profile_operator_intro);
    extend_str(out, "</p><p><b>");
    push_escaped(out, t.admin_profile_viewer);
    extend_str(out, "</b> — ");
    push_escaped(out, t.admin_profile_viewer_intro);
    extend_str(out, "</p><p><b>");
    push_escaped(out, t.admin_profile_owner);
    extend_str(out, "</b> — ");
    push_escaped(out, t.admin_profile_owner_intro);
    extend_str(out, "</p></details><div class=\"button-row\"><button type=\"submit\">");
    push_escaped(out, t.admin_add_action);
    extend_str(out, "</button></div></form></div></dialog>");
    assert(out@ =~= start + add_end_html(*t));
}

/// The content of the settings page.
pub open spec fn settings_html(
    t: L10n,
    current: AdminAccount,
    admins: Seq<AdminAccount>,
    csrf: Seq<char>,
    error: Option<Seq<char>>,
    can_manage: bool,
) -> Seq<char> {
    settings_top_html(t, error, current.must_change_password) + password_panel_html(t, csrf)
        + accounts_head_html(t, count_active(admins), can_manage)
        + accounts_html(t, admins, current.id@, count_active_owners(admins), csrf, can_manage) + "</div></section>"@
        + (if can_manage { add_dialog_html(t, csrf) } else { Seq::empty() })
}

/// The content of the settings page, as the console layout frames it: the
/// form that changes one's password, the administrator accounts, and for
/// those who manage administrators the forms that change each account's
/// access (never the last active owner's) and the dialog that adds one.
#[verifier::rlimit(100)]
fn settings_content(
    t: &L10n,
    current_admin: &AdminAccount,
    admins: &[AdminAccount],
    csrf_token: &str,
    error: Option<&str>,
    can_manage_admins: bool,
) -> (r: String)
    ensures
        r@ == settings_html(*t, *current_admin, admins@, csrf_token@, opt_text(error), can_manage_admins),
{
    let (active, owners) = count_accounts(admins);
    let ghost a = settings_top_html(*t, opt_text(error), current_admin.must_change_password);
    let ghost b = password_panel_html(*t, csrf_token@);
    let ghost c = accounts_head_html(*t, count_active(admins@), can_manage_admins);
    let ghost d = accounts_html(*t, admins@, current_admin.id@, count_active_owners(admins@), csrf_token@, can_manage_admins);
    let ghost e = if can_manage_admins { add_dialog_html(*t, csrf_token@) } else { Seq::<char>::empty() };
    let mut out: Vec<char> = Vec::new();
    push_settings_top(&mut out, t, error, current_admin.must_change_password);
    push_password_panel(&mut out, t, csrf_token);
    push_accounts_head(&mut out, t, active, can_manage_admins);
    push_accounts(&mut out, t, admins, current_admin.id.as_str(), owners, csrf_token, can_manage_admins);
    extend_str(&mut out, "</div></section>");
    let ghost m = out@;
    if can_manage_admins {
        push_add_dialog_head(&mut out, t);
        push_add_fields(&mut out, t, csrf_token);
        push_add_profile(&mut out, t);
        push_add_end(&mut out, t);
    }
    assert(out@ =~= m + e);
    assert(out@ =~= a + b + c + d + "</div></section>"@ + e);
    from_chars(&out)
}

/// The settings page: the content above in the console frame, under its title.
#[verifier::rlimit(100)]
pub fn settings(
    t: &L10n,
    current_admin: &AdminAccount,
    admins: &[AdminAccount],
    csrf_token: &str,
    error: Option<&str>,
    can_manage_admins: bool,
) -> (r: String)
    ensures
        r@ == layout_html(*t, t.settings_title@, "settings"@, settings_html(*t, *current_admin, admins@, csrf_token@, opt_text(error), can_manage_admins)),
{
    let content = settings_content(t, current_admin, admins, csrf_token, error, can_manage_admins);
    layout(t.settings_title, "settings", t, content.as_str())
}

/// The last active owner's entry is the same whether or not the page lets
/// its reader manage administrators: nobody is offered the form that would
/// take the last full control away.
pub proof fn lemma_last_owner_keeps_control(t: L10n, a: AdminAccount, current_id: Seq<char>, csrf: Seq<char>)
    requires
        a.is_active,
        a.access_profile@ == ADMIN_PROFILE_OWNER@,
    ensures
        account_html(t, a, current_id, 1, csrf, true) == account_html(t, a, current_id, 1, csrf, false),
{
}

proof fn lemma_read_only_accounts(t: L10n, admins: Seq<AdminAccount>, current_id: Seq<char>, owners: nat, csrf1: Seq<char>, csrf2: Seq<char>)
    ensures
        accounts_html(t, admins, current_id, owners, csrf1, false) == accounts_html(t, admins, current_id, owners, csrf2, false),
    decreases admins.len(),
{
    if admins.len() > 0 {
        lemma_read_only_accounts(t, admins.drop_last(), current_id, owners, csrf1, csrf2);
    }
}

/// For those who may not manage administrators, the account list does not
/// depend on the CSRF token that every form changing an account carries.
pub proof fn lemma_read_only_account_list(t: L10n, admins: Seq<AdminAccount>, current_id: Seq<char>, csrf1: Seq<char>, csrf2: Seq<char>)
    ensures
        accounts_html(t, admins, current_id, count_active_owners(admins), csrf1, false)
            == accounts_html(t, admins, current_id, count_active_owners(admins), csrf2, false),
{
    lemma_read_only_accounts(t, admins, current_id, count_active_owners(admins), csrf1, csrf2);
}

} // verus!
