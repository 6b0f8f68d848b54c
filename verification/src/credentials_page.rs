//! The markup of the credential pages: the credential form, the list of
//! credentials, and the page that edits one.
use crate::layout::{layout, layout_html};
use vstd::prelude::*;

use crate::asset_search::assets_view;
use crate::console_pages::{csrf_html, esc, form_error_html, join_strings, opt_text, panel_head_html, push_csrf_field, push_escaped, push_escaped_chars, push_form_error, push_panel_head, push_path};
use crate::i18n::L10n;
use crate::model::{strings_view, Asset, AssetView, Credential};
use crate::page_scripts::CREDENTIAL_DRAWER_SCRIPT;
use crate::pages::{credential_assets, names_where, uses_credential};
use crate::text::{dec, extend_str, from_chars, push_dec, str_eq};
use crate::tui_view::join_text;

verus! {

// ---------------------------------------------------------------------------
// The credential form
// ---------------------------------------------------------------------------

/// What the form holds for a credential, or for a new one: its name,
/// username and auth type (`password` for a new one), and which secrets are
/// stored.
pub open spec fn form_name(c: Option<Credential>) -> Seq<char> {
    match c {
        Some(c) => c.name@,
        None => Seq::empty(),
    }
}

/// The username the form holds.
pub open spec fn form_username(c: Option<Credential>) -> Seq<char> {
    match c {
        Some(c) => c.username@,
        None => Seq::empty(),
    }
}

/// The auth type the form holds; `password` for a new credential.
pub open spec fn form_auth_type(c: Option<Credential>) -> Seq<char> {
    match c {
        Some(c) => c.auth_type@,
        None => "password"@,
    }
}

/// The name and username fields.
#[verifier::opaque]
pub open spec fn basics_html(t: L10n, name: Seq<char>, username: Seq<char>) -> Seq<char> {
    "<div class=\"grid\"><label class=\"field\">"@ + esc(t.field_name@) + "<input name=\"name\" value=\""@ + esc(name)
        + "\" required autofocus></label><label class=\"field\">"@ + esc(t.field_username@) + "<input name=\"username\" value=\""@
        + esc(username) + "\" autocomplete=\"off\" required></label>"@
}

/// An auth type option, selected when it is the form's.
pub open spec fn auth_option_html(value: Seq<char>, auth: Seq<char>) -> Seq<char> {
    "<option value=\""@ + value + "\""@ + (if auth == value { " selected"@ } else { Seq::empty() }) + ">"@ + value
        + "</option>"@
}

/// The auth type selector.
#[verifier::opaque]
pub open spec fn auth_select_html(t: L10n, auth: Seq<char>) -> Seq<char> {
    "<label class=\"field field-wide\">"@ + esc(t.field_auth_type@)
        + "<select name=\"auth_type\" data-credential-auth-type onchange=\"window.hopToggleCredentialSecrets(this.closest('[data-credential-form]'))\">"@
        + auth_option_html("password"@, auth) + auth_option_html("key"@, auth) + auth_option_html("key+passphrase"@, auth)
        + "</select></label>"@
}

/// Whether a secret is stored, when editing.
pub open spec fn secret_state_html(t: L10n, state: Seq<char>, editing: bool, stored: bool) -> Seq<char> {
    if editing {
        "<span class=\""@ + (if stored { "secret-state stored"@ } else { "secret-state"@ }) + "\" data-secret-state=\""@ + state
            + "\">"@ + esc(if stored { t.credential_secret_stored@ } else { t.credential_secret_missing@ }) + "</span>"@
    } else {
        Seq::empty()
    }
}

/// A secret field: shown, enabled and (for a new credential) required only
/// for the auth types that use it, with whether it is stored when editing.
pub open spec fn secret_field_html(
    t: L10n,
    secret_for: Seq<char>,
    shown: bool,
    label: Seq<char>,
    open: Seq<char>,
    close: Seq<char>,
    editing: bool,
    state: Seq<char>,
    stored: bool,
) -> Seq<char> {
    "<label class=\"field field-wide credential-secret-field\" data-secret-for=\""@ + secret_for + "\""@
        + (if shown { Seq::empty() } else { " hidden"@ }) + ">"@ + esc(label) + open
        + (if shown { Seq::empty() } else { " disabled"@ }) + (if !editing && shown { " required"@ } else { Seq::empty() })
        + close + secret_state_html(t, state, editing, stored) + "</label>"@
}

/// The password field.
pub open spec fn password_field_html(t: L10n, auth: Seq<char>, editing: bool, stored: bool) -> Seq<char> {
    secret_field_html(
        t,
        "password"@,
        auth == "password"@,
        if editing { t.replace_password@ } else { t.field_password@ },
        "<input type=\"password\" name=\"password\" autocomplete=\"new-password\""@,
        ">"@,
        editing,
        "password"@,
        stored,
    )
}

/// The private key field.
pub open spec fn private_key_field_html(t: L10n, auth: Seq<char>, editing: bool, stored: bool) -> Seq<char> {
    secret_field_html(
        t,
        "key key+passphrase"@,
        auth != "password"@,
        if editing { t.replace_private_key@ } else { t.field_private_key@ },
        "<textarea name=\"private_key\" rows=\"8\" autocomplete=\"off\" spellcheck=\"false\""@,
        "></textarea>"@,
        editing,
        "private-key"@,
        stored,
    )
}

/// The passphrase field.
pub open spec fn passphrase_field_html(t: L10n, auth: Seq<char>, editing: bool, stored: bool) -> Seq<char> {
    secret_field_html(
        t,
        "key+passphrase"@,
        auth == "key+passphrase"@,
        if editing { t.replace_passphrase@ } else { t.field_passphrase@ },
        "<input type=\"password\" name=\"passphrase\" autocomplete=\"new-password\""@,
        ">"@,
        editing,
        "passphrase"@,
        stored,
    )
}

/// The fields of the credential form, filled from a credential when there
/// is one, with the note on how secrets are kept.
pub open spec fn credential_fields_html(t: L10n, c: Option<Credential>, editing: bool) -> Seq<char> {
    basics_html(t, form_name(c), form_username(c)) + auth_select_html(t, form_auth_type(c))
        + secret_fields_html(
        t,
        form_auth_type(c),
        editing,
        c matches Some(x) && x.password_enc is Some,
        c matches Some(x) && x.private_key_enc is Some,
        c matches Some(x) && x.passphrase_enc is Some,
    ) + "</div><p class=\"fine-print\">"@ + esc(if editing { t.secret_keep_note@ } else { t.secret_storage_note@ })
        + "</p>"@
}

#[verifier::rlimit(100)]
fn push_basics(out: &mut Vec<char>, t: &L10n, name: &str, username: &str)
    ensures
        final(out)@ == old(out)@ + basics_html(*t, name@, username@),
{
    proof {
        reveal(basics_html);
    }
    let ghost start = out@;
    extend_str(out, "<div class=\"grid\"><label class=\"field\">");
    push_escaped(out, t.field_name);
    extend_str(out, "<input name=\"name\" value=\"");
    push_escaped(out, name);
    extend_str(out, "\" required autofocus></label><label class=\"field\">");
    push_escaped(out, t.field_username);
    extend_str(out, "<input name=\"username\" value=\"");
    push_escaped(out, username);
    extend_str(out, "\" autocomplete=\"off\" required></label>");
    assert(out@ =~= start + basics_html(*t, name@, username@));
}

#[verifier::rlimit(100)]
fn push_auth_option(out: &mut Vec<char>, value: &str, auth: &str)
    ensures
        final(out)@ == old(out)@ + auth_option_html(value@, auth@),
{
    let ghost start = out@;
    extend_str(out, "<option value=\"");
    extend_str(out, value);
    extend_str(out, "\"");
    let ghost m = out@;
    if str_eq(auth, value) {
        extend_str(out, " selected");
    } else {
        assert(m + Seq::<char>::empty() =~= m);
    }
    extend_str(out, ">");
    extend_str(out, value);
    extend_str(out, "</option>");
    assert(out@ =~= start + auth_option_html(value@, auth@));
}

#[verifier::rlimit(100)]
fn push_auth_select(out: &mut Vec<char>, t: &L10n, auth: &str)
    ensures
        final(out)@ == old(out)@ + auth_select_html(*t, auth@),
{
    proof {
        reveal(auth_select_html);
    }
    let ghost start = out@;
    extend_str(out, "<label class=\"field field-wide\">");
    push_escaped(out, t.field_auth_type);
    extend_str(out, "<select name=\"auth_type\" data-credential-auth-type onchange=\"window.hopToggleCredentialSecrets(this.closest('[data-credential-form]'))\">");
    push_auth_option(out, "password", auth);
    push_auth_option(out, "key", auth);
    push_auth_option(out, "key+passphrase", auth);
    extend_str(out, "</select></label>");
    assert(out@ =~= start + auth_select_html(*t, auth@));
}

#[verifier::rlimit(100)]
fn push_secret_state(out: &mut Vec<char>, t: &L10n, state: &str, editing: bool, stored: bool)
    ensures
        final(out)@ == old(out)@ + secret_state_html(*t, state@, editing, stored),
{
    let ghost start = out@;
    if editing {
        extend_str(out, "<span class=\"");
        if stored {
            extend_str(out, "secret-state stored");
        } else {
            extend_str(out, "secret-state");
        }
        extend_str(out, "\" data-secret-state=\"");
        extend_str(out, state);
        extend_str(out, "\">");
        let text = if stored { t.credential_secret_stored } else { t.credential_secret_missing };
        push_escaped(out, text);
        extend_str(out, "</span>");
    }
    assert(out@ =~= start + secret_state_html(*t, state@, editing, stored));
}

#[verifier::rlimit(100)]
fn push_secret_field(
    out: &mut Vec<char>,
    t: &L10n,
    secret_for: &str,
    shown: bool,
    label: &str,
    open: &str,
    close: &str,
    editing: bool,
    state: &str,
    stored: bool,
)
    ensures
        final(out)@ == old(out)@ + secret_field_html(*t, secret_for@, shown, label@, open@, close@, editing, state@, stored),
{
    let ghost start = out@;
    extend_str(out, "<label class=\"field field-wide credential-secret-field\" data-secret-for=\"");
    extend_str(out, secret_for);
    extend_str(out, "\"");
    let ghost m1 = out@;
    if !shown {
        extend_str(out, " hidden");
    } else {
        assert(m1 + Seq::<char>::empty() =~= m1);
    }
    extend_str(out, ">");
    push_escaped(out, label);
    extend_str(out, open);
    let ghost m2 = out@;
    if !shown {
        extend_str(out, " disabled");
    } else {
        assert(m2 + Seq::<char>::empty() =~= m2);
    }
    let ghost m3 = out@;
    if !editing && shown {
        extend_str(out, " required");
    } else {
        assert(m3 + Seq::<char>::empty() =~= m3);
    }
    extend_str(out, close);
    push_secret_state(out, t, state, editing, stored);
    extend_str(out, "</label>");
    assert(out@ =~= start + secret_field_html(*t, secret_for@, shown, label@, open@, close@, editing, state@, stored));
}

/// The three secret fields.
#[verifier::opaque]
pub open spec fn secret_fields_html(t: L10n, auth: Seq<char>, editing: bool, pw: bool, key: bool, pp: bool) -> Seq<char> {
    password_field_html(t, auth, editing, pw) + private_key_field_html(t, auth, editing, key)
        + passphrase_field_html(t, auth, editing, pp)
}

#[verifier::rlimit(100)]
fn push_secret_fields(out: &mut Vec<char>, t: &L10n, auth: &str, editing: bool, has_pw: bool, has_key: bool, has_pp: bool)
    ensures
        final(out)@ == old(out)@ + secret_fields_html(*t, auth@, editing, has_pw, has_key, has_pp),
{
    proof {
        reveal(secret_fields_html);
    }
    let ghost start = out@;
    let is_password = str_eq(auth, "password");
    push_secret_field(
        out,
        t,
        "password",
        is_password,
        if editing { t.replace_password } else { t.field_password },
        "<input type=\"password\" name=\"password\" autocomplete=\"new-password\"",
        ">",
        editing,
        "password",
        has_pw,
    );
    let ghost m1 = out@;
    push_secret_field(
        out,
        t,
        "key key+passphrase",
        !is_password,
        if editing { t.replace_private_key } else { t.field_private_key },
        "<textarea name=\"private_key\" rows=\"8\" autocomplete=\"off\" spellcheck=\"false\"",
        "></textarea>",
        editing,
        "private-key",
        has_key,
    );
    let ghost m2 = out@;
    push_secret_field(
        out,
        t,
        "key+passphrase",
        str_eq(auth, "key+passphrase"),
        if editing { t.replace_passphrase } else { t.field_passphrase },
        "<input type=\"password\" name=\"passphrase\" autocomplete=\"new-password\"",
        ">",
        editing,
        "passphrase",
        has_pp,
    );
    let ghost p = password_field_html(*t, auth@, editing, has_pw);
    let ghost k = private_key_field_html(*t, auth@, editing, has_key);
    let ghost q = passphrase_field_html(*t, auth@, editing, has_pp);
    assert(m1 == start + p);
    assert(m2 == m1 + k);
    assert(out@ == m2 + q);
    assert(out@ =~= start + (p + k + q));
}

/// The value a credential reference stands for.
pub open spec fn deref_credential(c: Option<&Credential>) -> Option<Credential> {
    match c {
        Some(x) => Some(*x),
        None => None,
    }
}

/// Appends the fields of the credential form.
#[verifier::rlimit(100)]
fn push_credential_fields(out: &mut Vec<char>, t: &L10n, c: Option<&Credential>, editing: bool)
    ensures
        final(out)@ == old(out)@ + credential_fields_html(*t, deref_credential(c), editing),
{
    let ghost cv = deref_credential(c);
    let ghost start = out@;
    let (name, username, auth, has_pw, has_key, has_pp): (&str, &str, &str, bool, bool, bool) = match c {
        Some(x) => (
            x.name.as_str(),
            x.username.as_str(),
            x.auth_type.as_str(),
            x.password_enc.is_some(),
            x.private_key_enc.is_some(),
            x.passphrase_enc.is_some(),
        ),
        None => ("", "", "password", false, false, false),
    };
    proof {
        reveal_strlit("");
    }
    assert(name@ == form_name(cv) && username@ == form_username(cv) && auth@ == form_auth_type(cv));
    assert(has_pw == (cv matches Some(x) && x.password_enc is Some));
    assert(has_key == (cv matches Some(x) && x.private_key_enc is Some));
    assert(has_pp == (cv matches Some(x) && x.passphrase_enc is Some));
    push_basics(out, t, name, username);
    push_auth_select(out, t, auth);
    push_secret_fields(out, t, auth, editing, has_pw, has_key, has_pp);
    let ghost m = out@;
    extend_str(out, "</div><p class=\"fine-print\">");
    let note = if editing { t.secret_keep_note } else { t.secret_storage_note };
    push_escaped(out, note);
    extend_str(out, "</p>");
    let ghost a = basics_html(*t, name@, username@);
    let ghost b = auth_select_html(*t, auth@);
    let ghost c2 = secret_fields_html(*t, auth@, editing, has_pw, has_key, has_pp);
    let ghost d = "</div><p class=\"fine-print\">"@ + esc(if editing { t.secret_keep_note@ } else { t.secret_storage_note@ }) + "</p>"@;
    assert(out@ =~= start + (a + b + c2 + d));
}


// ---------------------------------------------------------------------------
// The list of credentials
// ---------------------------------------------------------------------------

/// The names of the assets that use a credential.
pub open spec fn credential_asset_names(assets: Seq<AssetView>, id: Seq<char>) -> Seq<Seq<char>> {
    names_where(assets, uses_credential(id))
}

/// `true` or `false`, as an attribute value.
pub open spec fn bool_text(b: bool) -> Seq<char> {
    if b { "true"@ } else { "false"@ }
}

/// The head of the page: how many credentials, the button that adds one
/// (for those who manage credentials), and the error of a refused change.
#[verifier::opaque]
pub open spec fn credentials_hero_html(t: L10n, count: nat, error: Option<Seq<char>>, can_manage: bool) -> Seq<char> {
    "<div class=\"credentials-page\"><div class=\"console-hero\"><div><p>"@ + esc(t.credentials_intro@)
        + "</p></div><div class=\"console-actions\"><span class=\"status-chip good\"><span class=\"status-dot good\"></span>"@
        + dec(count) + " "@ + esc(t.credentials_title@) + "</span>"@ + (if can_manage {
        "<button id=\"open-add-credential\" type=\"button\" aria-haspopup=\"dialog\" aria-controls=\"add-credential-dialog\" onclick=\"document.getElementById('add-credential-dialog').showModal()\">"@
            + esc(t.credentials_add_heading@) + "</button>"@
    } else {
        Seq::empty()
    }) + "</div></div>"@ + form_error_html(error, true)
}

/// The export links, and the import link for those who manage credentials.
#[verifier::opaque]
pub open spec fn credentials_toolbar_html(t: L10n, can_manage: bool) -> Seq<char> {
    "<section class=\"panel credentials-toolbar\"><div><strong>"@ + esc(t.credentials_export_heading@)
        + "</strong><p class=\"fine-print\">"@ + esc(t.credentials_export_intro@)
        + "</p></div><div class=\"button-row\"><a class=\"ghost-button\" href=\"/credentials/export?format=csv\">"@
        + esc(t.export_csv@) + "</a><a class=\"ghost-button\" href=\"/credentials/export?format=json\">"@ + esc(t.export_json@)
        + "</a>"@ + (if can_manage {
        "<a class=\"ghost-button\" href=\"/import\">"@ + esc(t.import_open@) + "</a>"@
    } else {
        Seq::empty()
    }) + "</div></section>"@
}

/// The heading of the credentials table, with how many there are.
#[verifier::opaque]
pub open spec fn credentials_panel_top_html(t: L10n, count: nat) -> Seq<char> {
    "<section class=\"panel credentials-inventory\"><div class=\"panel-header\"><div><h2>"@
        + esc(t.credentials_existing_heading@) + "</h2><p>"@ + esc(t.credentials_existing_intro@)
        + "</p></div><span class=\"status-chip\">"@ + dec(count) + " "@ + esc(t.credentials_title@) + "</span></div>"@
}

/// The header row of the credentials table; the action column only for
/// those who manage credentials.
#[verifier::opaque]
pub open spec fn credentials_columns_html(t: L10n, can_manage: bool) -> Seq<char> {
    "<div class=\"table-wrap\"><table class=\"data-table\"><thead><tr><th>"@ + esc(t.field_name@)
        + "</th><th>"@ + esc(t.field_username@) + "</th><th>"@ + esc(t.field_auth_type@) + "</th><th>"@
        + esc(t.secrets_label@) + "</th><th>"@ + esc(t.credential_usage_heading@) + "</th>"@
        + (if can_manage { "<th>"@ + esc(t.field_action@) + "</th>"@ } else { Seq::empty() }) + "</tr></thead><tbody>"@
}

/// The heading and header row of the credentials table.
pub open spec fn credentials_table_head_html(t: L10n, count: nat, can_manage: bool) -> Seq<char> {
    credentials_panel_top_html(t, count) + credentials_columns_html(t, can_manage)
}

/// The row shown when no credential is stored.
#[verifier::opaque]
pub open spec fn credentials_empty_html(t: L10n, can_manage: bool) -> Seq<char> {
    "<tr class=\"empty-row\"><td colspan=\""@ + (if can_manage { "6"@ } else { "5"@ })
        + "\"><div class=\"assets-empty-state\"><strong>"@ + esc(t.no_credentials@) + "</strong>"@ + (if can_manage {
        "<button type=\"button\" onclick=\"document.getElementById('open-add-credential').click()\">"@
            + esc(t.credentials_add_heading@) + "</button>"@
    } else {
        Seq::empty()
    }) + "</div></td></tr>"@
}

/// The name, username and auth type of a credential, and which secrets it
/// stores.
#[verifier::opaque]
pub open spec fn credential_lead_html(t: L10n, c: Credential) -> Seq<char> {
    "<tr><td><div class=\"primary-cell\">"@ + esc(c.name@) + "<span class=\"subtle mono\">"@ + esc(c.id@)
        + "</span></div></td><td>"@ + esc(c.username@) + "</td><td><span class=\"status-pill\">"@ + esc(c.auth_type@)
        + "</span></td><td><div class=\"secret-list\">"@
        + (if c.password_enc is None && c.private_key_enc is None && c.passphrase_enc is None {
        "<span class=\"status-pill neutral\">"@ + esc(t.none@) + "</span>"@
    } else {
        Seq::empty()
    }) + (if c.password_enc is Some { "<span class=\"tag\">password</span>"@ } else { Seq::empty() })
        + (if c.private_key_enc is Some { "<span class=\"tag\">private key</span>"@ } else { Seq::empty() })
        + (if c.passphrase_enc is Some { "<span class=\"tag\">passphrase</span>"@ } else { Seq::empty() })
        + "</div></td>"@
}

/// How many assets use a credential, and which.
#[verifier::opaque]
pub open spec fn credential_usage_html(t: L10n, names: Seq<Seq<char>>) -> Seq<char> {
    if names.len() == 0 {
        "<td><span class=\"status-pill neutral\">"@ + esc(t.credential_unused@) + "</span></td>"@
    } else {
        "<td><div class=\"primary-cell\"><span class=\"status-pill\">"@ + dec(names.len()) + " "@
            + esc(t.credential_used_by_suffix@) + "</span><span class=\"subtle\">"@ + esc(join_text(names, ", "@))
            + "</span></div></td>"@
    }
}

/// The start of the link that opens the credential editor: where it leads
/// and what the credential is.
#[verifier::opaque]
pub open spec fn edit_link_start_html(c: Credential) -> Seq<char> {
    "<td><div class=\"action-row\"><a id=\""@ + esc("edit-credential-"@ + c.id@) + "\" class=\"ghost-button\" href=\""@
        + esc("/credentials/"@ + c.id@ + "/edit"@)
        + "\" aria-haspopup=\"dialog\" aria-controls=\"edit-credential-dialog\" data-credential-id=\""@ + esc(c.id@)
        + "\" data-credential-name=\""@ + esc(c.name@) + "\" data-credential-username=\""@ + esc(c.username@)
        + "\" data-credential-auth-type=\""@ + esc(c.auth_type@)
}

/// The end of the link that opens the credential editor: which secrets are
/// stored.
#[verifier::opaque]
pub open spec fn edit_link_end_html(t: L10n, c: Credential) -> Seq<char> {
    "\" data-has-password=\""@ + bool_text(c.password_enc is Some) + "\" data-has-private-key=\""@
        + bool_text(c.private_key_enc is Some) + "\" data-has-passphrase=\""@ + bool_text(c.passphrase_enc is Some)
        + "\" onclick=\"window.openCredentialEditor(this);return false\">"@ + esc(t.edit@) + "</a>"@
}

/// The link that opens the credential editor, carrying what the editor
/// shows.
pub open spec fn credential_edit_link_html(t: L10n, c: Credential) -> Seq<char> {
    edit_link_start_html(c) + edit_link_end_html(t, c)
}

/// The form that deletes a credential; its button is disabled while an
/// asset uses the credential.
#[verifier::opaque]
pub open spec fn credential_delete_html(t: L10n, c: Credential, used: nat, csrf: Seq<char>) -> Seq<char> {
    "<form method=\"post\" action=\""@ + esc("/credentials/"@ + c.id@ + "/delete"@) + "\" data-confirm=\""@
        + esc(t.credential_delete_confirm@) + "\" onsubmit=\"return window.confirm(this.dataset.confirm)\">"@ + csrf_html(csrf)
        + "<button class=\"danger\" type=\"submit\""@ + (if used > 0 { " disabled"@ } else { Seq::empty() }) + " title=\""@
        + esc(if used > 0 { t.credential_delete_in_use@ } else { t.credential_delete_confirm@ }) + "\">"@ + esc(t.delete@)
        + "</button></form></div></td>"@
}

/// A row of the credentials table; the edit and delete controls only for
/// those who manage credentials.
pub open spec fn credential_row_html(t: L10n, c: Credential, assets: Seq<AssetView>, csrf: Seq<char>, can_manage: bool) -> Seq<char> {
    credential_lead_html(t, c) + credential_usage_html(t, credential_asset_names(assets, c.id@)) + (if can_manage {
        credential_edit_link_html(t, c) + credential_delete_html(t, c, credential_asset_names(assets, c.id@).len(), csrf)
    } else {
        Seq::empty()
    }) + "</tr>"@
}

/// The rows of the credentials table, in order.
pub open spec fn credential_rows_html(t: L10n, items: Seq<Credential>, assets: Seq<AssetView>, csrf: Seq<char>, can_manage: bool) -> Seq<char>
    decreases items.len(),
{
    if items.len() == 0 {
        Seq::empty()
    } else {
        credential_rows_html(t, items.drop_last(), assets, csrf, can_manage)
            + credential_row_html(t, items.last(), assets, csrf, can_manage)
    }
}

#[verifier::rlimit(100)]
fn push_credentials_hero(out: &mut Vec<char>, t: &L10n, count: usize, error: Option<&str>, can_manage: bool)
    ensures
        final(out)@ == old(out)@ + credentials_hero_html(*t, count as nat, opt_text(error), can_manage),
{
    proof {
        reveal(credentials_hero_html);
    }
    let ghost start = out@;
    extend_str(out, "<div class=\"credentials-page\"><div class=\"console-hero\"><div><p>");
    push_escaped(out, t.credentials_intro);
    extend_str(out, "</p></div><div class=\"console-actions\"><span class=\"status-chip good\"><span class=\"status-dot good\"></span>");
    push_dec(out, count as u64);
    extend_str(out, " ");
    push_escaped(out, t.credentials_title);
    extend_str(out, "</span>");
    let ghost m = out@;
    if can_manage {
        extend_str(out, "<button id=\"open-add-credential\" type=\"button\" aria-haspopup=\"dialog\" aria-controls=\"add-credential-dialog\" onclick=\"document.getElementById('add-credential-dialog').showModal()\">");
        push_escaped(out, t.credentials_add_heading);
        extend_str(out, "</button>");
    } else {
        assert(m + Seq::<char>::empty() =~= m);
    }
    extend_str(out, "</div></div>");
    push_form_error(out, error, true);
    assert(out@ =~= start + credentials_hero_html(*t, count as nat, opt_text(error), can_manage));
}

#[verifier::rlimit(100)]
fn push_credentials_toolbar(out: &mut Vec<char>, t: &L10n, can_manage: bool)
    ensures
        final(out)@ == old(out)@ + credentials_toolbar_html(*t, can_manage),
{
    proof {
        reveal(credentials_toolbar_html);
    }
    let ghost start = out@;
    extend_str(out, "<section class=\"panel credentials-toolbar\"><div><strong>");
    push_escaped(out, t.credentials_export_heading);
    extend_str(out, "</strong><p class=\"fine-print\">");
    push_escaped(out, t.credentials_export_intro);
    extend_str(out, "</p></div><div class=\"button-row\"><a class=\"ghost-button\" href=\"/credentials/export?format=csv\">");
    push_escaped(out, t.export_csv);
    extend_str(out, "</a><a class=\"ghost-button\" href=\"/credentials/export?format=json\">");
    push_escaped(out, t.export_json);
    extend_str(out, "</a>");
    let ghost m = out@;
    if can_manage {
        extend_str(out, "<a class=\"ghost-button\" href=\"/import\">");
        push_escaped(out, t.import_open);
        extend_str(out, "</a>");
    } else {
        assert(m + Seq::<char>::empty() =~= m);
    }
    extend_str(out, "</div></section>");
    assert(out@ =~= start + credentials_toolbar_html(*t, can_manage));
}

#[verifier::rlimit(100)]
fn push_credentials_panel_top(out: &mut Vec<char>, t: &L10n, count: usize)
    ensures
        final(out)@ == old(out)@ + credentials_panel_top_html(*t, count as nat),
{
    proof {
        reveal(credentials_panel_top_html);
    }
    let ghost start = out@;
    extend_str(out, "<section class=\"panel credentials-inventory\"><div class=\"panel-header\"><div><h2>");
    push_escaped(out, t.credentials_existing_heading);
    extend_str(out, "</h2><p>");
    push_escaped(out, t.credentials_existing_intro);
    extend_str(out, "</p></div><span class=\"status-chip\">");
    push_dec(out, count as u64);
    extend_str(out, " ");
    push_escaped(out, t.credentials_title);
    extend_str(out, "</span></div>");
    assert(out@ =~= start + credentials_panel_top_html(*t, count as nat));
}

#[verifier::rlimit(100)]
fn push_credentials_columns(out: &mut Vec<char>, t: &L10n, can_manage: bool)
    ensures
        final(out)@ == old(out)@ + credentials_columns_html(*t, can_manage),
{
    proof {
        reveal(credentials_columns_html);
    }
    let ghost start = out@;
    extend_str(out, "<div class=\"table-wrap\"><table class=\"data-table\"><thead><tr><th>");
    push_escaped(out, t.field_name);
    extend_str(out, "</th><th>");
    push_escaped(out, t.field_username);
    extend_str(out, "</th><th>");
    push_escaped(out, t.field_auth_type);
    extend_str(out, "</th><th>");
    push_escaped(out, t.secrets_label);
    extend_str(out, "</th><th>");
    push_escaped(out, t.credential_usage_heading);
    extend_str(out, "</th>");
    let ghost m = out@;
    if can_manage {
        extend_str(out, "<th>");
        push_escaped(out, t.field_action);
        extend_str(out, "</th>");
    } else {
        assert(m + Seq::<char>::empty() =~= m);
    }
    extend_str(out, "</tr></thead><tbody>");
    assert(out@ =~= start + credentials_columns_html(*t, can_manage));
}

#[verifier::rlimit(100)]
fn push_credentials_table_head(out: &mut Vec<char>, t: &L10n, count: usize, can_manage: bool)
    ensures
        final(out)@ == old(out)@ + credentials_table_head_html(*t, count as nat, can_manage),
{
    let ghost start = out@;
    push_credentials_panel_top(out, t, count);
    push_credentials_columns(out, t, can_manage);
    assert(out@ =~= start + credentials_table_head_html(*t, count as nat, can_manage));
}

#[verifier::rlimit(100)]
fn push_credentials_empty(out: &mut Vec<char>, t: &L10n, can_manage: bool)
    ensures
        final(out)@ == old(out)@ + credentials_empty_html(*t, can_manage),
{
    proof {
        reveal(credentials_empty_html);
    }
    let ghost start = out@;
    extend_str(out, "<tr class=\"empty-row\"><td colspan=\"");
    if can_manage {
        extend_str(out, "6");
    } else {
        extend_str(out, "5");
    }
    extend_str(out, "\"><div class=\"assets-empty-state\"><strong>");
    push_escaped(out, t.no_credentials);
    extend_str(out, "</strong>");
    let ghost m = out@;
    if can_manage {
        extend_str(out, "<button type=\"button\" onclick=\"document.getElementById('open-add-credential').click()\">");
        push_escaped(out, t.credentials_add_heading);
        extend_str(out, "</button>");
    } else {
        assert(m + Seq::<char>::empty() =~= m);
    }
    extend_str(out, "</div></td></tr>");
    assert(out@ =~= start + credentials_empty_html(*t, can_manage));
}

#[verifier::rlimit(100)]
fn push_tag_if(out: &mut Vec<char>, shown: bool, tag: &str)
    ensures
        final(out)@ == old(out)@ + (if shown { tag@ } else { Seq::empty() }),
{
    let ghost start = out@;
    if shown {
        extend_str(out, tag);
    } else {
        assert(start + Seq::<char>::empty() =~= start);
    }
}

#[verifier::rlimit(100)]
fn push_credential_lead(out: &mut Vec<char>, t: &L10n, c: &Credential)
    ensures
        final(out)@ == old(out)@ + credential_lead_html(*t, *c),
{
    proof {
        reveal(credential_lead_html);
    }
    let ghost start = out@;
    extend_str(out, "<tr><td><div class=\"primary-cell\">");
    push_escaped(out, c.name.as_str());
    extend_str(out, "<span class=\"subtle mono\">");
    push_escaped(out, c.id.as_str());
    extend_str(out, "</span></div></td><td>");
    push_escaped(out, c.username.as_str());
    extend_str(out, "</td><td><span class=\"status-pill\">");
    push_escaped(out, c.auth_type.as_str());
    extend_str(out, "</span></td><td><div class=\"secret-list\">");
    let ghost m = out@;
    if c.password_enc.is_none() && c.private_key_enc.is_none() && c.passphrase_enc.is_none() {
        extend_str(out, "<span class=\"status-pill neutral\">");
        push_escaped(out, t.none);
        extend_str(out, "</span>");
    } else {
        assert(m + Seq::<char>::empty() =~= m);
    }
    push_tag_if(out, c.password_enc.is_some(), "<span class=\"tag\">password</span>");
    push_tag_if(out, c.private_key_enc.is_some(), "<span class=\"tag\">private key</span>");
    push_tag_if(out, c.passphrase_enc.is_some(), "<span class=\"tag\">passphrase</span>");
    extend_str(out, "</div></td>");
    assert(out@ =~= start + credential_lead_html(*t, *c));
}

#[verifier::rlimit(100)]
fn push_credential_usage(out: &mut Vec<char>, t: &L10n, names: &Vec<String>)
    ensures
        final(out)@ == old(out)@ + credential_usage_html(*t, strings_view(names@)),
{
    proof {
        reveal(credential_usage_html);
    }
    let ghost start = out@;
    if names.len() == 0 {
        extend_str(out, "<td><span class=\"status-pill neutral\">");
        push_escaped(out, t.credential_unused);
        extend_str(out, "</span></td>");
    } else {
        extend_str(out, "<td><div class=\"primary-cell\"><span class=\"status-pill\">");
        push_dec(out, names.len() as u64);
        extend_str(out, " ");
        push_escaped(out, t.credential_used_by_suffix);
        extend_str(out, "</span><span class=\"subtle\">");
        let joined = join_strings(names, ", ");
        push_escaped_chars(out, &joined);
        extend_str(out, "</span></div></td>");
    }
    assert(out@ =~= start + credential_usage_html(*t, strings_view(names@)));
}

#[verifier::rlimit(100)]
fn push_bool(out: &mut Vec<char>, b: bool)
    ensures
        final(out)@ == old(out)@ + bool_text(b),
{
    if b {
        extend_str(out, "true");
    } else {
        extend_str(out, "false");
    }
}

#[verifier::rlimit(100)]
fn push_edit_link_start(out: &mut Vec<char>, c: &Credential)
    ensures
        final(out)@ == old(out)@ + edit_link_start_html(*c),
{
    proof {
        reveal(edit_link_start_html);
        reveal_strlit("");
    }
    let ghost start = out@;
    extend_str(out, "<td><div class=\"action-row\"><a id=\"");
    push_path(out, "edit-credential-", c.id.as_str(), "");
    assert(("edit-credential-"@ + c.id@ + ""@) =~= ("edit-credential-"@ + c.id@));
    extend_str(out, "\" class=\"ghost-button\" href=\"");
    push_path(out, "/credentials/", c.id.as_str(), "/edit");
    extend_str(out, "\" aria-haspopup=\"dialog\" aria-controls=\"edit-credential-dialog\" data-credential-id=\"");
    push_escaped(out, c.id.as_str());
    extend_str(out, "\" data-credential-name=\"");
    push_escaped(out, c.name.as_str());
    extend_str(out, "\" data-credential-username=\"");
    push_escaped(out, c.username.as_str());
    extend_str(out, "\" data-credential-auth-type=\"");
    push_escaped(out, c.auth_type.as_str());
    assert(out@ =~= start + edit_link_start_html(*c));
}

#[verifier::rlimit(100)]
fn push_edit_link_end(out: &mut Vec<char>, t: &L10n, c: &Credential)
    ensures
        final(out)@ == old(out)@ + edit_link_end_html(*t, *c),
{
    proof {
        reveal(edit_link_end_html);
    }
    let ghost start = out@;
    extend_str(out, "\" data-has-password=\"");
    push_bool(out, c.password_enc.is_some());
    extend_str(out, "\" data-has-private-key=\"");
    push_bool(out, c.private_key_enc.is_some());
    extend_str(out, "\" data-has-passphrase=\"");
    push_bool(out, c.passphrase_enc.is_some());
    extend_str(out, "\" onclick=\"window.openCredentialEditor(this);return false\">");
    push_escaped(out, t.edit);
    extend_str(out, "</a>");
    assert(out@ =~= start + edit_link_end_html(*t, *c));
}

#[verifier::rlimit(100)]
fn push_credential_edit_link(out: &mut Vec<char>, t: &L10n, c: &Credential)
    ensures
        final(out)@ == old(out)@ + credential_edit_link_html(*t, *c),
{
    let ghost start = out@;
    push_edit_link_start(out, c);
    push_edit_link_end(out, t, c);
    assert(out@ =~= start + credential_edit_link_html(*t, *c));
}

#[verifier::rlimit(100)]
fn push_credential_delete(out: &mut Vec<char>, t: &L10n, c: &Credential, used: usize, csrf: &str)
    ensures
        final(out)@ == old(out)@ + credential_delete_html(*t, *c, used as nat, csrf@),
{
    proof {
        reveal(credential_delete_html);
    }
    let ghost start = out@;
    extend_str(out, "<form method=\"post\" action=\"");
    push_path(out, "/credentials/", c.id.as_str(), "/delete");
    extend_str(out, "\" data-confirm=\"");
    push_escaped(out, t.credential_delete_confirm);
    extend_str(out, "\" onsubmit=\"return window.confirm(this.dataset.confirm)\">");
    push_csrf_field(out, csrf);
    extend_str(out, "<button class=\"danger\" type=\"submit\"");
    let ghost m = out@;
    if used > 0 {
        extend_str(out, " disabled");
    } else {
        assert(m + Seq::<char>::empty() =~= m);
    }
    extend_str(out, " title=\"");
    let title = if used > 0 { t.credential_delete_in_use } else { t.credential_delete_confirm };
    push_escaped(out, title);
    extend_str(out, "\">");
    push_escaped(out, t.delete);
    extend_str(out, "</button></form></div></td>");
    assert(out@ =~= start + credential_delete_html(*t, *c, used as nat, csrf@));
}

#[verifier::rlimit(100)]
fn push_credential_row(out: &mut Vec<char>, t: &L10n, c: &Credential, assets: &[Asset], csrf: &str, can_manage: bool)
    ensures
        final(out)@ == old(out)@ + credential_row_html(*t, *c, assets_view(assets@), csrf@, can_manage),
{
    let ghost start = out@;
    let used = credential_assets(assets, c.id.as_str());
    let ghost names = credential_asset_names(assets_view(assets@), c.id@);
    assert(strings_view(used@) == names);
    assert(strings_view(used@).len() == used@.len());
    push_credential_lead(out, t, c);
    push_credential_usage(out, t, &used);
    let ghost m = out@;
    if can_manage {
        push_credential_edit_link(out, t, c);
        push_credential_delete(out, t, c, used.len(), csrf);
    } else {
        assert(m + Seq::<char>::empty() =~= m);
    }
    extend_str(out, "</tr>");
    assert(out@ =~= start + credential_row_html(*t, *c, assets_view(assets@), csrf@, can_manage));
}

#[verifier::rlimit(100)]
fn push_credential_rows(out: &mut Vec<char>, t: &L10n, items: &[Credential], assets: &[Asset], csrf: &str, can_manage: bool)
    ensures
        final(out)@ == old(out)@ + credential_rows_html(*t, items@, assets_view(assets@), csrf@, can_manage),
{
    let ghost start = out@;
    let ghost av = assets_view(assets@);
    let mut i: usize = 0;
    assert(items@.take(0) =~= Seq::<Credential>::empty());
    assert(start + Seq::<char>::empty() =~= start);
    while i < items.len()
        invariant
            i <= items.len(),
            av == assets_view(assets@),
            out@ == start + credential_rows_html(*t, items@.take(i as int), av, csrf@, can_manage),
        decreases items.len() - i,
    {
        push_credential_row(out, t, &items[i], assets, csrf, can_manage);
        assert(items@.take(i + 1).drop_last() =~= items@.take(i as int));
        assert(items@.take(i + 1).last() == items@[i as int]);
        assert(out@ =~= start + credential_rows_html(*t, items@.take(i + 1), av, csrf@, can_manage));
        i += 1;
    }
    assert(items@.take(items.len() as int) =~= items@);
}


// ---------------------------------------------------------------------------
// The drawers and the page
// ---------------------------------------------------------------------------

/// The head of a drawer dialog: its title, intro and status, and the button
/// that closes it.
#[verifier::opaque]
pub open spec fn drawer_head_html(
    t: L10n,
    dialog_id: Seq<char>,
    onclose: Seq<char>,
    title: Seq<char>,
    intro: Seq<char>,
    status: Seq<char>,
) -> Seq<char> {
    "<dialog class=\"admin-drawer-dialog\" id=\""@ + dialog_id + "-dialog\" aria-labelledby=\""@ + dialog_id
        + "-title\" onclick=\"if(event.target===this)this.close()\" onkeydown=\"if(event.key==='Escape'){event.preventDefault();this.close()}\" onclose=\""@
        + onclose + "\"><div class=\"admin-drawer\"><div class=\"admin-drawer-header\"><div><h2 id=\""@ + dialog_id + "-title\">"@
        + esc(title) + "</h2><p>"@ + esc(intro) + "</p></div><div class=\"admin-drawer-header-actions\"><span class=\"status-chip\">"@
        + esc(status) + "</span><button class=\"drawer-close ghost-button\" type=\"button\" aria-label=\""@ + esc(t.close@)
        + "\" onclick=\"this.closest('dialog').close()\">×</button></div></div>"@
}

/// The buttons of a drawer's form, and its end.
#[verifier::opaque]
pub open spec fn drawer_end_html(t: L10n, submit: Seq<char>) -> Seq<char> {
    "<div class=\"button-row admin-drawer-actions\"><button type=\"submit\">"@ + esc(submit)
        + "</button><button class=\"ghost-button\" type=\"button\" onclick=\"this.closest('dialog').close()\">"@ + esc(t.close@)
        + "</button></div></form></div></dialog>"@
}

/// The attributes that tell the credential script what stored and missing
/// secrets are called.
pub open spec fn secret_words_html(t: L10n) -> Seq<char> {
    " data-secret-stored=\""@ + esc(t.credential_secret_stored@) + "\" data-secret-missing=\""@
        + esc(t.credential_secret_missing@) + "\">"@
}

/// The drawer that adds a credential.
pub open spec fn add_drawer_html(t: L10n, csrf: Seq<char>) -> Seq<char> {
    drawer_head_html(t, "add-credential"@, "document.getElementById('open-add-credential').focus()"@,
        t.credentials_add_heading@, t.credentials_add_intro@, t.credential_add_status@)
        + "<form method=\"post\" action=\"/credentials\" data-credential-form data-mode=\"create\">"@ + csrf_html(csrf)
        + credential_fields_html(t, None, false) + drawer_end_html(t, t.save_credential@)
}

/// The drawer that edits a credential; the script fills it in.
pub open spec fn edit_drawer_html(t: L10n, csrf: Seq<char>) -> Seq<char> {
    drawer_head_html(t, "edit-credential"@,
        "const target=document.getElementById(this.dataset.returnFocusId);if(target)target.focus()"@,
        t.edit_credential_title@, t.edit_credential_intro@, t.credential_edit_status@)
        + "<form method=\"post\" action=\"/credentials\" data-credential-form data-mode=\"edit\""@ + secret_words_html(t)
        + csrf_html(csrf) + credential_fields_html(t, None, true) + drawer_end_html(t, t.save_changes@)
}

/// The credentials table.
pub open spec fn credentials_table_html(t: L10n, items: Seq<Credential>, assets: Seq<AssetView>, csrf: Seq<char>, can_manage: bool) -> Seq<char> {
    credentials_table_head_html(t, items.len(), can_manage)
        + (if items.len() == 0 { credentials_empty_html(t, can_manage) } else { Seq::empty() })
        + credential_rows_html(t, items, assets, csrf, can_manage) + "</tbody></table></div></section>"@
}

/// The content of the credentials page.
pub open spec fn credentials_html(
    t: L10n,
    items: Seq<Credential>,
    assets: Seq<AssetView>,
    csrf: Seq<char>,
    error: Option<Seq<char>>,
    can_manage: bool,
) -> Seq<char> {
    credentials_hero_html(t, items.len(), error, can_manage) + credentials_toolbar_html(t, can_manage)
        + credentials_table_html(t, items, assets, csrf, can_manage) + add_drawer_html(t, csrf) + edit_drawer_html(t, csrf)
        + "<script>"@ + CREDENTIAL_DRAWER_SCRIPT@ + "</script></div>"@
}

#[verifier::rlimit(100)]
fn push_drawer_head(out: &mut Vec<char>, t: &L10n, dialog_id: &str, onclose: &str, title: &str, intro: &str, status: &str)
    ensures
        final(out)@ == old(out)@ + drawer_head_html(*t, dialog_id@, onclose@, title@, intro@, status@),
{
    proof {
        reveal(drawer_head_html);
    }
    let ghost start = out@;
    extend_str(out, "<dialog class=\"admin-drawer-dialog\" id=\"");
    extend_str(out, dialog_id);
    extend_str(out, "-dialog\" aria-labelledby=\"");
    extend_str(out, dialog_id);
    extend_str(out, "-title\" onclick=\"if(event.target===this)this.close()\" onkeydown=\"if(event.key==='Escape'){event.preventDefault();this.close()}\" onclose=\"");
    extend_str(out, onclose);
    extend_str(out, "\"><div class=\"admin-drawer\"><div class=\"admin-drawer-header\"><div><h2 id=\"");
    extend_str(out, dialog_id);
    extend_str(out, "-title\">");
    push_escaped(out, title);
    extend_str(out, "</h2><p>");
    push_escaped(out, intro);
    extend_str(out, "</p></div><div class=\"admin-drawer-header-actions\"><span class=\"status-chip\">");
    push_escaped(out, status);
    extend_str(out, "</span><button class=\"drawer-close ghost-button\" type=\"button\" aria-label=\"");
    push_escaped(out, t.close);
    extend_str(out, "\" onclick=\"this.closest('dialog').close()\">×</button></div></div>");
    assert(out@ =~= start + drawer_head_html(*t, dialog_id@, onclose@, title@, intro@, status@));
}

#[verifier::rlimit(100)]
fn push_drawer_end(out: &mut Vec<char>, t: &L10n, submit: &str)
    ensures
        final(out)@ == old(out)@ + drawer_end_html(*t, submit@),
{
    proof {
        reveal(drawer_end_html);
    }
    let ghost start = out@;
    extend_str(out, "<div class=\"button-row admin-drawer-actions\"><button type=\"submit\">");
    push_escaped(out, submit);
    extend_str(out, "</button><button class=\"ghost-button\" type=\"button\" onclick=\"this.closest('dialog').close()\">");
    push_escaped(out, t.close);
    extend_str(out, "</button></div></form></div></dialog>");
    assert(out@ =~= start + drawer_end_html(*t, submit@));
}

#[verifier::rlimit(100)]
fn push_secret_words(out: &mut Vec<char>, t: &L10n)
    ensures
        final(out)@ == old(out)@ + secret_words_html(*t),
{
    let ghost start = out@;
    extend_str(out, " data-secret-stored=\"");
    push_escaped(out, t.credential_secret_stored);
    extend_str(out, "\" data-secret-missing=\"");
    push_escaped(out, t.credential_secret_missing);
    extend_str(out, "\">");
    assert(out@ =~= start + secret_words_html(*t));
}

#[verifier::rlimit(100)]
fn push_add_drawer(out: &mut Vec<char>, t: &L10n, csrf: &str)
    ensures
        final(out)@ == old(out)@ + add_drawer_html(*t, csrf@),
{
    let ghost start = out@;
    push_drawer_head(out, t, "add-credential", "document.getElementById('open-add-credential').focus()",
        t.credentials_add_heading, t.credentials_add_intro, t.credential_add_status);
    extend_str(out, "<form method=\"post\" action=\"/credentials\" data-credential-form data-mode=\"create\">");
    push_csrf_field(out, csrf);
    push_credential_fields(out, t, None, false);
    push_drawer_end(out, t, t.save_credential);
    assert(deref_credential(None) == None::<Credential>);
    assert(out@ =~= start + add_drawer_html(*t, csrf@));
}

#[verifier::rlimit(100)]
fn push_edit_drawer(out: &mut Vec<char>, t: &L10n, csrf: &str)
    ensures
        final(out)@ == old(out)@ + edit_drawer_html(*t, csrf@),
{
    let ghost start = out@;
    push_drawer_head(out, t, "edit-credential",
        "const target=document.getElementById(this.dataset.returnFocusId);if(target)target.focus()",
        t.edit_credential_title, t.edit_credential_intro, t.credential_edit_status);
    extend_str(out, "<form method=\"post\" action=\"/credentials\" data-credential-form data-mode=\"edit\"");
    push_secret_words(out, t);
    push_csrf_field(out, csrf);
    push_credential_fields(out, t, None, true);
    push_drawer_end(out, t, t.save_changes);
    assert(deref_credential(None) == None::<Credential>);
    assert(out@ =~= start + edit_drawer_html(*t, csrf@));
}

#[verifier::rlimit(100)]
fn push_credentials_table(out: &mut Vec<char>, t: &L10n, items: &[Credential], assets: &[Asset], csrf: &str, can_manage: bool)
    ensures
        final(out)@ == old(out)@ + credentials_table_html(*t, items@, assets_view(assets@), csrf@, can_manage),
{
    let ghost start = out@;
    push_credentials_table_head(out, t, items.len(), can_manage);
    let ghost m = out@;
    if items.len() == 0 {
        push_credentials_empty(out, t, can_manage);
    } else {
        assert(m + Seq::<char>::empty() =~= m);
    }
    push_credential_rows(out, t, items, assets, csrf, can_manage);
    extend_str(out, "</tbody></table></div></section>");
    assert(out@ =~= start + credentials_table_html(*t, items@, assets_view(assets@), csrf@, can_manage));
}

/// The content of the credentials page, as the console layout frames it:
/// each credential with the secrets it stores and the assets that use it;
/// for those who manage credentials the button that adds one, the import
/// link and each row's edit link and delete form (disabled while assets use
/// the credential); and the drawers that add and edit credentials.
#[verifier::rlimit(100)]
fn credentials_content(
    t: &L10n,
    items: &[Credential],
    assets: &[Asset],
    csrf_token: &str,
    error: Option<&str>,
    can_manage: bool,
) -> (r: String)
    ensures
        r@ == credentials_html(*t, items@, assets_view(assets@), csrf_token@, opt_text(error), can_manage),
{
    let ghost a = credentials_hero_html(*t, items@.len(), opt_text(error), can_manage);
    let ghost b = credentials_toolbar_html(*t, can_manage);
    let ghost c = credentials_table_html(*t, items@, assets_view(assets@), csrf_token@, can_manage);
    let ghost d = add_drawer_html(*t, csrf_token@);
    let ghost e = edit_drawer_html(*t, csrf_token@);
    let mut out: Vec<char> = Vec::new();
    push_credentials_hero(&mut out, t, items.len(), error, can_manage);
    push_credentials_toolbar(&mut out, t, can_manage);
    push_credentials_table(&mut out, t, items, assets, csrf_token, can_manage);
    push_add_drawer(&mut out, t, csrf_token);
    push_edit_drawer(&mut out, t, csrf_token);
    extend_str(&mut out, "<script>");
    extend_str(&mut out, CREDENTIAL_DRAWER_SCRIPT);
    extend_str(&mut out, "</script></div>");
    assert(out@ =~= a + b + c + d + e + ("<script>"@ + CREDENTIAL_DRAWER_SCRIPT@ + "</script></div>"@));
    from_chars(&out)
}

/// The credentials page: the content above in the console frame, under its title.
#[verifier::rlimit(100)]
pub fn credentials(
    t: &L10n,
    items: &[Credential],
    assets: &[Asset],
    csrf_token: &str,
    error: Option<&str>,
    can_manage: bool,
) -> (r: String)
    ensures
        r@ == layout_html(*t, t.credentials_title@, "credentials"@, credentials_html(*t, items@, assets_view(assets@), csrf_token@, opt_text(error), can_manage)),
{
    let content = credentials_content(t, items, assets, csrf_token, error, can_manage);
    layout(t.credentials_title, "credentials", t, content.as_str())
}

proof fn lemma_read_only_credential_rows(t: L10n, items: Seq<Credential>, assets: Seq<AssetView>, csrf1: Seq<char>, csrf2: Seq<char>)
    ensures
        credential_rows_html(t, items, assets, csrf1, false) == credential_rows_html(t, items, assets, csrf2, false),
    decreases items.len(),
{
    if items.len() > 0 {
        lemma_read_only_credential_rows(t, items.drop_last(), assets, csrf1, csrf2);
    }
}

/// For those who may not manage credentials, the credentials table does not
/// depend on the CSRF token that every delete form carries.
pub proof fn lemma_read_only_credentials_table(
    t: L10n,
    items: Seq<Credential>,
    assets: Seq<AssetView>,
    csrf1: Seq<char>,
    csrf2: Seq<char>,
)
    ensures
        credentials_table_html(t, items, assets, csrf1, false) == credentials_table_html(t, items, assets, csrf2, false),
{
    lemma_read_only_credential_rows(t, items, assets, csrf1, csrf2);
}

// ---------------------------------------------------------------------------
// The page that edits a credential
// ---------------------------------------------------------------------------

/// What the edit page says of the assets that use the credential.
pub open spec fn usage_text(t: L10n, names: Seq<Seq<char>>) -> Seq<char> {
    if names.len() == 0 {
        esc(t.credential_unused@)
    } else {
        dec(names.len()) + " "@ + esc(t.credential_used_by_suffix@) + ": "@ + esc(join_text(names, ", "@))
    }
}

/// The start of the edit page: the heading and the start of the form.
#[verifier::opaque]
pub open spec fn edit_credential_start_html(t: L10n, c: Credential, csrf: Seq<char>) -> Seq<char> {
    "<div class=\"page-intro\"><h2>"@ + esc(c.name@) + "</h2><p>"@ + esc(t.edit_credential_intro@) + "</p></div>"@
        + panel_head_html(t.credential_details_heading@, t.credential_details_intro@) + "<form method=\"post\" action=\""@
        + esc("/credentials/"@ + c.id@) + "\">"@ + csrf_html(csrf) + "<div data-credential-form data-mode=\"edit\""@
        + secret_words_html(t)
}

/// The end of the edit page: its buttons, the assets that use the
/// credential, and the script.
#[verifier::opaque]
pub open spec fn edit_credential_end_html(t: L10n, names: Seq<Seq<char>>) -> Seq<char> {
    "</div><div class=\"button-row\"><button type=\"submit\">"@ + esc(t.save_changes@)
        + "</button><a class=\"ghost-button\" href=\"/credentials\">"@ + esc(t.back_to_credentials@)
        + "</a></div></form></section><section class=\"panel\"><div class=\"panel-header\"><div><h2>"@
        + esc(t.credential_usage_heading@) + "</h2><p>"@ + usage_text(t, names) + "</p></div></div></section><script>"@
        + CREDENTIAL_DRAWER_SCRIPT@ + "</script>"@
}

/// The content of the page that edits a credential.
pub open spec fn edit_credential_html(t: L10n, c: Credential, assets: Seq<AssetView>, csrf: Seq<char>) -> Seq<char> {
    edit_credential_start_html(t, c, csrf) + credential_fields_html(t, Some(c), true)
        + edit_credential_end_html(t, credential_asset_names(assets, c.id@))
}

#[verifier::rlimit(100)]
fn push_edit_credential_start(out: &mut Vec<char>, t: &L10n, c: &Credential, csrf: &str)
    ensures
        final(out)@ == old(out)@ + edit_credential_start_html(*t, *c, csrf@),
{
    proof {
        reveal(edit_credential_start_html);
        reveal_strlit("");
    }
    let ghost start = out@;
    extend_str(out, "<div class=\"page-intro\"><h2>");
    push_escaped(out, c.name.as_str());
    extend_str(out, "</h2><p>");
    push_escaped(out, t.edit_credential_intro);
    extend_str(out, "</p></div>");
    push_panel_head(out, t.credential_details_heading, t.credential_details_intro);
    extend_str(out, "<form method=\"post\" action=\"");
    push_path(out, "/credentials/", c.id.as_str(), "");
    assert(("/credentials/"@ + c.id@ + ""@) =~= ("/credentials/"@ + c.id@));
    extend_str(out, "\">");
    push_csrf_field(out, csrf);
    extend_str(out, "<div data-credential-form data-mode=\"edit\"");
    push_secret_words(out, t);
    assert(out@ =~= start + edit_credential_start_html(*t, *c, csrf@));
}

#[verifier::rlimit(100)]
fn push_edit_credential_end(out: &mut Vec<char>, t: &L10n, names: &Vec<String>)
    ensures
        final(out)@ == old(out)@ + edit_credential_end_html(*t, strings_view(names@)),
{
    proof {
        reveal(edit_credential_end_html);
    }
    let ghost start = out@;
    extend_str(out, "</div><div class=\"button-row\"><button type=\"submit\">");
    push_escaped(out, t.save_changes);
    extend_str(out, "</button><a class=\"ghost-button\" href=\"/credentials\">");
    push_escaped(out, t.back_to_credentials);
    extend_str(out, "</a></div></form></section><section class=\"panel\"><div class=\"panel-header\"><div><h2>");
    push_escaped(out, t.credential_usage_heading);
    extend_str(out, "</h2><p>");
    let ghost m = out@;
    if names.len() == 0 {
        push_escaped(out, t.credential_unused);
    } else {
        push_dec(out, names.len() as u64);
        extend_str(out, " ");
        push_escaped(out, t.credential_used_by_suffix);
        extend_str(out, ": ");
        let joined = join_strings(names, ", ");
        push_escaped_chars(out, &joined);
    }
    assert(out@ =~= m + usage_text(*t, strings_view(names@)));
    extend_str(out, "</p></div></div></section><script>");
    extend_str(out, CREDENTIAL_DRAWER_SCRIPT);
    extend_str(out, "</script>");
    assert(out@ =~= start + edit_credential_end_html(*t, strings_view(names@)));
}

/// The content of the page that edits a credential, as the console layout
/// frames it: the form filled with the credential (its secrets never shown,
/// only whether each is stored), and the assets that use it.
#[verifier::rlimit(100)]
fn edit_credential_content(t: &L10n, credential: &Credential, assets: &[Asset], csrf_token: &str) -> (r: String)
    ensures
        r@ == edit_credential_html(*t, *credential, assets_view(assets@), csrf_token@),
{
    let used = credential_assets(assets, credential.id.as_str());
    let ghost a = edit_credential_start_html(*t, *credential, csrf_token@);
    let ghost b = credential_fields_html(*t, Some(*credential), true);
    let ghost c = edit_credential_end_html(*t, credential_asset_names(assets_view(assets@), credential.id@));
    let mut out: Vec<char> = Vec::new();
    push_edit_credential_start(&mut out, t, credential, csrf_token);
    push_credential_fields(&mut out, t, Some(credential), true);
    assert(deref_credential(Some(credential)) == Some(*credential));
    push_edit_credential_end(&mut out, t, &used);
    assert(out@ =~= a + b + c);
    from_chars(&out)
}

/// The page that edits one credential: the content above in the console frame, under its title.
#[verifier::rlimit(100)]
pub fn edit_credential(t: &L10n, credential: &Credential, assets: &[Asset], csrf_token: &str) -> (r: String)
    ensures
        r@ == layout_html(*t, t.edit_credential_title@, "credentials"@, edit_credential_html(*t, *credential, assets_view(assets@), csrf_token@)),
{
    let content = edit_credential_content(t, credential, assets, csrf_token);
    layout(t.edit_credential_title, "credentials", t, content.as_str())
}

} // verus!
