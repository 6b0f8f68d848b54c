//! The markup of the asset form and of the page that edits an asset.
use crate::layout::{layout, layout_html};
use vstd::prelude::*;

use crate::console_pages::{csrf_html, esc, join_strings, kind_of, panel_head_html, push_csrf_field, push_escaped, push_escaped_chars, push_panel_head, push_path};
use crate::i18n::L10n;
use crate::model::{opt_view, strings_view, Asset, AssetView, Credential, ASSET_PRESET_MYSQL, ASSET_PRESET_POSTGRES, ASSET_PRESET_RDP, ASSET_PRESET_REDIS, ASSET_PRESET_VNC, ASSET_PROTOCOL_SSH, ASSET_PROTOCOL_TCP};
use crate::page_scripts::{ASSETS_PAGE_SCRIPT, ASSET_PROTOCOL_ONCHANGE};
use crate::asset_search::{assets_view, filter_value};
use crate::console_pages::protocol_label;
use crate::pages::{asset_kind, asset_protocol_label, asset_tunnel_command, assets_filter_href, assets_filter_link, encoded_bytes, tunnel_command, url_query_value};
use crate::text::{dec, push_dec, trim_str};
use crate::settings_page::{profile_option_html, push_profile_option};
use crate::text::{dec_int, extend_str, from_chars, push_dec_i64, str_eq};
use crate::tui_view::join_text;

verus! {

/// What the asset form holds: an asset's values, or those of a new SSH
/// asset on port 22.
pub open spec fn asset_form_protocol(a: Option<AssetView>) -> Seq<char> {
    match a {
        Some(a) => kind_of(a),
        None => ASSET_PROTOCOL_SSH@,
    }
}

/// The protocols an asset can use, the form's own selected.
#[verifier::opaque]
pub open spec fn protocol_options_ssh_html(t: L10n, selected: Seq<char>) -> Seq<char> {
    profile_option_html(ASSET_PROTOCOL_SSH@, t.protocol_ssh@, selected == ASSET_PROTOCOL_SSH@)
        + profile_option_html(ASSET_PROTOCOL_TCP@, t.protocol_tcp@, selected == ASSET_PROTOCOL_TCP@)
        + profile_option_html(ASSET_PRESET_RDP@, t.protocol_rdp@, selected == ASSET_PRESET_RDP@)
}

/// The presets an asset can use, the form's own selected.
#[verifier::opaque]
pub open spec fn protocol_options_presets_html(t: L10n, selected: Seq<char>) -> Seq<char> {
    profile_option_html(ASSET_PRESET_VNC@, t.protocol_vnc@, selected == ASSET_PRESET_VNC@)
        + profile_option_html(ASSET_PRESET_MYSQL@, t.protocol_mysql@, selected == ASSET_PRESET_MYSQL@)
        + profile_option_html(ASSET_PRESET_POSTGRES@, t.protocol_postgres@, selected == ASSET_PRESET_POSTGRES@)
        + profile_option_html(ASSET_PRESET_REDIS@, t.protocol_redis@, selected == ASSET_PRESET_REDIS@)
}

/// The kinds an asset can be, the form's own selected.
pub open spec fn protocol_options_html(t: L10n, selected: Seq<char>) -> Seq<char> {
    protocol_options_ssh_html(t, selected) + protocol_options_presets_html(t, selected)
}

/// The name and protocol fields.
#[verifier::opaque]
pub open spec fn asset_kind_fields_html(t: L10n, name: Seq<char>, protocol: Seq<char>, autofocus: bool) -> Seq<char> {
    "<div class=\"grid\"><label class=\"field\">"@ + esc(t.field_name@) + "<input name=\"name\" value=\""@ + esc(name) + "\" required"@
        + (if autofocus { " autofocus"@ } else { Seq::empty() }) + "></label><label class=\"field\">"@ + esc(t.field_protocol@)
        + "<select name=\"protocol\" onchange=\""@ + esc(ASSET_PROTOCOL_ONCHANGE@) + "\">"@ + protocol_options_html(t, protocol)
        + "</select></label>"@
}

/// The host and port fields, and the RDP hint shown for RDP.
#[verifier::opaque]
pub open spec fn asset_target_fields_html(t: L10n, protocol: Seq<char>, hostname: Seq<char>, port: int) -> Seq<char> {
    "<label class=\"field\">"@ + esc(t.field_hostname@) + "<input name=\"hostname\" value=\""@ + esc(hostname)
        + "\" required></label><label class=\"field\">"@ + esc(t.field_port@) + "<input name=\"port\" type=\"number\" value=\""@
        + dec_int(port) + "\" required></label><p class=\"fine-print field-wide\" data-rdp-port-hint"@
        + (if protocol != ASSET_PRESET_RDP@ { " hidden"@ } else { Seq::empty() }) + ">"@ + esc(t.rdp_port_hint@) + "</p>"@
}

/// The name, protocol, host and port fields, and the RDP hint shown for
/// RDP.
pub open spec fn asset_address_html(t: L10n, name: Seq<char>, protocol: Seq<char>, hostname: Seq<char>, port: int, autofocus: bool) -> Seq<char> {
    asset_kind_fields_html(t, name, protocol, autofocus) + asset_target_fields_html(t, protocol, hostname, port)
}

/// A credential to choose, selected when the asset uses it.
pub open spec fn credential_option_html(c: Credential, selected: Option<Seq<char>>) -> Seq<char> {
    "<option value=\""@ + esc(c.id@) + "\""@ + (if selected == Some(c.id@) { " selected"@ } else { Seq::empty() }) + ">"@
        + esc(c.name@) + " ("@ + esc(c.username@) + ")</option>"@
}

/// The credentials to choose from, in order.
pub open spec fn credential_options_html(creds: Seq<Credential>, selected: Option<Seq<char>>) -> Seq<char>
    decreases creds.len(),
{
    if creds.len() == 0 {
        Seq::empty()
    } else {
        credential_options_html(creds.drop_last(), selected) + credential_option_html(creds.last(), selected)
    }
}

/// The tags, credential and description fields.
pub open spec fn asset_details_html(
    t: L10n,
    tags: Seq<char>,
    creds: Seq<Credential>,
    credential_id: Option<Seq<char>>,
    description: Seq<char>,
) -> Seq<char> {
    "<label class=\"field\">"@ + esc(t.field_tags@) + "<input name=\"tags\" value=\""@ + esc(tags)
        + "\" placeholder=\"prod, web\" list=\"asset-tags-list\"></label><label class=\"field\">"@ + esc(t.field_credential@)
        + "<select name=\"credential_id\"><option value=\"\""@ + (if credential_id is None { " selected"@ } else { Seq::empty() })
        + ">"@ + esc(t.proxy_only@) + "</option>"@ + credential_options_html(creds, credential_id)
        + "</select></label><label class=\"field field-wide\">"@ + esc(t.field_description@) + "<textarea name=\"description\">"@
        + esc(description) + "</textarea></label></div>"@
}

/// The fields of the asset form, filled from an asset when there is one.
pub open spec fn asset_fields_html(t: L10n, a: Option<AssetView>, creds: Seq<Credential>, autofocus: bool) -> Seq<char> {
    asset_address_html(
        t,
        match a { Some(a) => a.name, None => Seq::empty() },
        asset_form_protocol(a),
        match a { Some(a) => a.hostname, None => Seq::empty() },
        match a { Some(a) => a.port as int, None => 22 },
        autofocus,
    ) + asset_details_html(
        t,
        match a { Some(a) => join_text(a.tags, ", "@), None => Seq::empty() },
        creds,
        match a { Some(a) => a.credential_id, None => None },
        match a { Some(a) => match a.description { Some(d) => d, None => Seq::empty() }, None => Seq::empty() },
    )
}

#[verifier::rlimit(100)]
fn push_protocol_options_ssh(out: &mut Vec<char>, t: &L10n, selected: &str)
    ensures
        final(out)@ == old(out)@ + protocol_options_ssh_html(*t, selected@),
{
    proof {
        reveal(protocol_options_ssh_html);
    }
    let ghost start = out@;
    push_profile_option(out, ASSET_PROTOCOL_SSH, t.protocol_ssh, str_eq(selected, ASSET_PROTOCOL_SSH));
    push_profile_option(out, ASSET_PROTOCOL_TCP, t.protocol_tcp, str_eq(selected, ASSET_PROTOCOL_TCP));
    push_profile_option(out, ASSET_PRESET_RDP, t.protocol_rdp, str_eq(selected, ASSET_PRESET_RDP));
    assert(out@ =~= start + protocol_options_ssh_html(*t, selected@));
}

#[verifier::rlimit(100)]
fn push_protocol_options_presets(out: &mut Vec<char>, t: &L10n, selected: &str)
    ensures
        final(out)@ == old(out)@ + protocol_options_presets_html(*t, selected@),
{
    proof {
        reveal(protocol_options_presets_html);
    }
    let ghost start = out@;
    push_profile_option(out, ASSET_PRESET_VNC, t.protocol_vnc, str_eq(selected, ASSET_PRESET_VNC));
    push_profile_option(out, ASSET_PRESET_MYSQL, t.protocol_mysql, str_eq(selected, ASSET_PRESET_MYSQL));
    let ghost m = out@;
    push_profile_option(out, ASSET_PRESET_POSTGRES, t.protocol_postgres, str_eq(selected, ASSET_PRESET_POSTGRES));
    push_profile_option(out, ASSET_PRESET_REDIS, t.protocol_redis, str_eq(selected, ASSET_PRESET_REDIS));
    assert(out@ =~= start + protocol_options_presets_html(*t, selected@));
}

#[verifier::rlimit(100)]
fn push_protocol_options(out: &mut Vec<char>, t: &L10n, selected: &str)
    ensures
        final(out)@ == old(out)@ + protocol_options_html(*t, selected@),
{
    let ghost start = out@;
    push_protocol_options_ssh(out, t, selected);
    push_protocol_options_presets(out, t, selected);
    assert(out@ =~= start + protocol_options_html(*t, selected@));
}

#[verifier::rlimit(100)]
fn push_asset_kind_fields(out: &mut Vec<char>, t: &L10n, name: &str, protocol: &str, autofocus: bool)
    ensures
        final(out)@ == old(out)@ + asset_kind_fields_html(*t, name@, protocol@, autofocus),
{
    proof {
        reveal(asset_kind_fields_html);
    }
    let ghost start = out@;
    extend_str(out, "<div class=\"grid\"><label class=\"field\">");
    push_escaped(out, t.field_name);
    extend_str(out, "<input name=\"name\" value=\"");
    push_escaped(out, name);
    extend_str(out, "\" required");
    let ghost m1 = out@;
    if autofocus {
        extend_str(out, " autofocus");
    } else {
        assert(m1 + Seq::<char>::empty() =~= m1);
    }
    extend_str(out, "></label><label class=\"field\">");
    push_escaped(out, t.field_protocol);
    extend_str(out, "<select name=\"protocol\" onchange=\"");
    push_escaped(out, ASSET_PROTOCOL_ONCHANGE);
    extend_str(out, "\">");
    push_protocol_options(out, t, protocol);
    extend_str(out, "</select></label>");
    assert(out@ =~= start + asset_kind_fields_html(*t, name@, protocol@, autofocus));
}

#[verifier::rlimit(100)]
fn push_asset_target_fields(out: &mut Vec<char>, t: &L10n, protocol: &str, hostname: &str, port: i64)
    ensures
        final(out)@ == old(out)@ + asset_target_fields_html(*t, protocol@, hostname@, port as int),
{
    proof {
        reveal(asset_target_fields_html);
    }
    let ghost start = out@;
    extend_str(out, "<label class=\"field\">");
    push_escaped(out, t.field_hostname);
    extend_str(out, "<input name=\"hostname\" value=\"");
    push_escaped(out, hostname);
    extend_str(out, "\" required></label><label class=\"field\">");
    push_escaped(out, t.field_port);
    extend_str(out, "<input name=\"port\" type=\"number\" value=\"");
    push_dec_i64(out, port);
    extend_str(out, "\" required></label><p class=\"fine-print field-wide\" data-rdp-port-hint");
    let ghost m2 = out@;
    if !str_eq(protocol, ASSET_PRESET_RDP) {
        extend_str(out, " hidden");
    } else {
        assert(m2 + Seq::<char>::empty() =~= m2);
    }
    extend_str(out, ">");
    push_escaped(out, t.rdp_port_hint);
    extend_str(out, "</p>");
    assert(out@ =~= start + asset_target_fields_html(*t, protocol@, hostname@, port as int));
}

#[verifier::rlimit(100)]
fn push_asset_address(out: &mut Vec<char>, t: &L10n, name: &str, protocol: &str, hostname: &str, port: i64, autofocus: bool)
    ensures
        final(out)@ == old(out)@ + asset_address_html(*t, name@, protocol@, hostname@, port as int, autofocus),
{
    let ghost start = out@;
    push_asset_kind_fields(out, t, name, protocol, autofocus);
    push_asset_target_fields(out, t, protocol, hostname, port);
    assert(out@ =~= start + asset_address_html(*t, name@, protocol@, hostname@, port as int, autofocus));
}

#[verifier::rlimit(100)]
fn push_credential_options(out: &mut Vec<char>, creds: &[Credential], selected: &Option<String>)
    ensures
        final(out)@ == old(out)@ + credential_options_html(creds@, opt_view(*selected)),
{
    let ghost start = out@;
    let ghost sel = opt_view(*selected);
    let mut i: usize = 0;
    assert(creds@.take(0) =~= Seq::<Credential>::empty());
    assert(start + Seq::<char>::empty() =~= start);
    while i < creds.len()
        invariant
            i <= creds.len(),
            sel == opt_view(*selected),
            out@ == start + credential_options_html(creds@.take(i as int), sel),
        decreases creds.len() - i,
    {
        let ghost before = out@;
        let c = &creds[i];
        let chosen = match selected {
            Some(id) => str_eq(id.as_str(), c.id.as_str()),
            None => false,
        };
        assert(chosen == (sel == Some(c.id@)));
        extend_str(out, "<option value=\"");
        push_escaped(out, c.id.as_str());
        extend_str(out, "\"");
        let ghost m = out@;
        if chosen {
            extend_str(out, " selected");
        } else {
            assert(m + Seq::<char>::empty() =~= m);
        }
        extend_str(out, ">");
        push_escaped(out, c.name.as_str());
        extend_str(out, " (");
        push_escaped(out, c.username.as_str());
        extend_str(out, ")</option>");
        assert(out@ =~= before + credential_option_html(*c, sel));
        assert(creds@.take(i + 1).drop_last() =~= creds@.take(i as int));
        assert(creds@.take(i + 1).last() == creds@[i as int]);
        assert(out@ =~= start + credential_options_html(creds@.take(i + 1), sel));
        i += 1;
    }
    assert(creds@.take(creds.len() as int) =~= creds@);
}

#[verifier::rlimit(100)]
fn push_asset_details(out: &mut Vec<char>, t: &L10n, tags: &Vec<char>, creds: &[Credential], credential_id: &Option<String>, description: &str)
    ensures
        final(out)@ == old(out)@ + asset_details_html(*t, tags@, creds@, opt_view(*credential_id), description@),
{
    let ghost start = out@;
    extend_str(out, "<label class=\"field\">");
    push_escaped(out, t.field_tags);
    extend_str(out, "<input name=\"tags\" value=\"");
    push_escaped_chars(out, tags);
    extend_str(out, "\" placeholder=\"prod, web\" list=\"asset-tags-list\"></label><label class=\"field\">");
    push_escaped(out, t.field_credential);
    extend_str(out, "<select name=\"credential_id\"><option value=\"\"");
    let ghost m = out@;
    if credential_id.is_none() {
        extend_str(out, " selected");
    } else {
        assert(m + Seq::<char>::empty() =~= m);
    }
    extend_str(out, ">");
    push_escaped(out, t.proxy_only);
    extend_str(out, "</option>");
    push_credential_options(out, creds, credential_id);
    extend_str(out, "</select></label><label class=\"field field-wide\">");
    push_escaped(out, t.field_description);
    extend_str(out, "<textarea name=\"description\">");
    push_escaped(out, description);
    extend_str(out, "</textarea></label></div>");
    assert(out@ =~= start + asset_details_html(*t, tags@, creds@, opt_view(*credential_id), description@));
}

/// The view of an optional asset.
pub open spec fn asset_opt_view(a: Option<&Asset>) -> Option<AssetView> {
    match a {
        Some(x) => Some(x@),
        None => None,
    }
}

/// Appends the fields of the asset form.
#[verifier::rlimit(100)]
fn push_asset_fields(out: &mut Vec<char>, t: &L10n, a: Option<&Asset>, creds: &[Credential], autofocus: bool)
    ensures
        final(out)@ == old(out)@ + asset_fields_html(*t, asset_opt_view(a), creds@, autofocus),
{
    let ghost start = out@;
    proof {
        reveal_strlit("");
    }
    assert(""@ =~= Seq::<char>::empty());
    let none: Option<String> = None;
    match a {
        Some(x) => {
            push_asset_address(out, t, x.name.as_str(), asset_kind(x), x.hostname.as_str(), x.port, autofocus);
            let tags = join_strings(&x.tags, ", ");
            let description: &str = match &x.description {
                Some(d) => d.as_str(),
                None => "",
            };
            push_asset_details(out, t, &tags, creds, &x.credential_id, description);
            assert(asset_form_protocol(asset_opt_view(a)) == kind_of(x@));
            assert(out@ =~= start + asset_fields_html(*t, asset_opt_view(a), creds@, autofocus));
        },
        None => {
            push_asset_address(out, t, "", ASSET_PROTOCOL_SSH, "", 22, autofocus);
            let tags: Vec<char> = Vec::new();
            assert(tags@ =~= Seq::<char>::empty());
            push_asset_details(out, t, &tags, creds, &none, "");
            assert(out@ =~= start + asset_fields_html(*t, asset_opt_view(a), creds@, autofocus));
        },
    }
    assert(out@ =~= start + asset_fields_html(*t, asset_opt_view(a), creds@, autofocus));
}

// ---------------------------------------------------------------------------
// The page that edits an asset
// ---------------------------------------------------------------------------

/// The start of the edit page: the heading and the start of the form, which
/// returns to where the administrator came from.
#[verifier::opaque]
pub open spec fn edit_asset_start_html(t: L10n, a: AssetView, csrf: Seq<char>, return_to: Seq<char>) -> Seq<char> {
    "<div class=\"page-intro\"><h2>"@ + esc(a.name) + "</h2><p>"@ + esc(t.edit_asset_intro@) + "</p></div>"@
        + panel_head_html(t.asset_details_heading@, t.asset_details_intro@) + "<form method=\"post\" action=\""@
        + esc("/assets/"@ + a.id) + "\">"@ + csrf_html(csrf) + "<input type=\"hidden\" name=\"return_to\" value=\""@
        + esc(return_to) + "\">"@
}

/// The known tags, offered while typing.
pub open spec fn tag_options_html(tags: Seq<Seq<char>>) -> Seq<char>
    decreases tags.len(),
{
    if tags.len() == 0 {
        Seq::empty()
    } else {
        tag_options_html(tags.drop_last()) + "<option value=\""@ + esc(tags.last()) + "\"></option>"@
    }
}

/// The end of the edit form: the known tags and the buttons.
pub open spec fn edit_asset_end_html(t: L10n, all_tags: Seq<Seq<char>>, return_to: Seq<char>) -> Seq<char> {
    "<datalist id=\"asset-tags-list\">"@ + tag_options_html(all_tags)
        + "</datalist><div class=\"button-row\"><button type=\"submit\">"@ + esc(t.save_changes@)
        + "</button><a class=\"ghost-button\" href=\""@ + esc(return_to) + "\">"@ + esc(t.back_to_assets@)
        + "</a></div></form></section>"@
}

/// The tunnel command of an asset that is not reached over SSH.
pub open spec fn tunnel_panel_html(t: L10n, command: Option<Seq<char>>) -> Seq<char> {
    match command {
        Some(c) => panel_head_html(t.tunnel_command_heading@, t.tunnel_command_intro@)
            + "<div class=\"command-block\"><input class=\"command-input\" readonly value=\""@ + esc(c) + "\"></div></section>"@,
        None => Seq::empty(),
    }
}

/// The content of the page that edits an asset.
pub open spec fn edit_asset_html(
    t: L10n,
    a: AssetView,
    creds: Seq<Credential>,
    csrf: Seq<char>,
    all_tags: Seq<Seq<char>>,
    ssh_port: u16,
    return_to: Seq<char>,
) -> Seq<char> {
    edit_asset_start_html(t, a, csrf, return_to) + asset_fields_html(t, Some(a), creds, true)
        + edit_asset_end_html(t, all_tags, return_to) + tunnel_panel_html(t, tunnel_command(a, ssh_port))
}

#[verifier::rlimit(100)]
fn push_edit_asset_start(out: &mut Vec<char>, t: &L10n, a: &Asset, csrf: &str, return_to: &str)
    ensures
        final(out)@ == old(out)@ + edit_asset_start_html(*t, a@, csrf@, return_to@),
{
    proof {
        reveal(edit_asset_start_html);
        reveal_strlit("");
    }
    let ghost start = out@;
    extend_str(out, "<div class=\"page-intro\"><h2>");
    push_escaped(out, a.name.as_str());
    extend_str(out, "</h2><p>");
    push_escaped(out, t.edit_asset_intro);
    extend_str(out, "</p></div>");
    push_panel_head(out, t.asset_details_heading, t.asset_details_intro);
    extend_str(out, "<form method=\"post\" action=\"");
    push_path(out, "/assets/", a.id.as_str(), "");
    assert(("/assets/"@ + a.id@ + ""@) =~= ("/assets/"@ + a.id@));
    extend_str(out, "\">");
    push_csrf_field(out, csrf);
    extend_str(out, "<input type=\"hidden\" name=\"return_to\" value=\"");
    push_escaped(out, return_to);
    extend_str(out, "\">");
    assert(out@ =~= start + edit_asset_start_html(*t, a@, csrf@, return_to@));
}

#[verifier::rlimit(100)]
fn push_edit_asset_end(out: &mut Vec<char>, t: &L10n, all_tags: &[String], return_to: &str)
    ensures
        final(out)@ == old(out)@ + edit_asset_end_html(*t, strings_view(all_tags@), return_to@),
{
    let ghost start = out@;
    let ghost ts = strings_view(all_tags@);
    extend_str(out, "<datalist id=\"asset-tags-list\">");
    let ghost m = out@;
    let mut i: usize = 0;
    assert(ts.take(0) =~= Seq::<Seq<char>>::empty());
    assert(m + Seq::<char>::empty() =~= m);
    while i < all_tags.len()
        invariant
            i <= all_tags.len(),
            ts == strings_view(all_tags@),
            out@ == m + tag_options_html(ts.take(i as int)),
        decreases all_tags.len() - i,
    {
        extend_str(out, "<option value=\"");
        push_escaped(out, all_tags[i].as_str());
        extend_str(out, "\"></option>");
        assert(ts.take(i + 1).drop_last() =~= ts.take(i as int));
        assert(ts.take(i + 1).last() == all_tags@[i as int]@);
        assert(out@ =~= m + tag_options_html(ts.take(i + 1)));
        i += 1;
    }
    assert(ts.take(all_tags.len() as int) =~= ts);
    extend_str(out, "</datalist><div class=\"button-row\"><button type=\"submit\">");
    push_escaped(out, t.save_changes);
    extend_str(out, "</button><a class=\"ghost-button\" href=\"");
    push_escaped(out, return_to);
    extend_str(out, "\">");
    push_escaped(out, t.back_to_assets);
    extend_str(out, "</a></div></form></section>");
    assert(out@ =~= start + edit_asset_end_html(*t, ts, return_to@));
}

/// The content of the page that edits an asset, as the console layout
/// frames it: the form filled with the asset (its credential selected among
/// `credentials`, the known tags offered), returning to `return_to`, and
/// the tunnel command of an asset not reached over SSH.
#[verifier::rlimit(100)]
fn edit_asset_content(
    t: &L10n,
    asset: &Asset,
    credentials: &[Credential],
    csrf_token: &str,
    all_tags: &[String],
    ssh_port: u16,
    return_to: &str,
) -> (r: String)
    ensures
        r@ == edit_asset_html(*t, asset@, credentials@, csrf_token@, strings_view(all_tags@), ssh_port, return_to@),
{
    let ghost a = edit_asset_start_html(*t, asset@, csrf_token@, return_to@);
    let ghost b = asset_fields_html(*t, Some(asset@), credentials@, true);
    let ghost c = edit_asset_end_html(*t, strings_view(all_tags@), return_to@);
    let ghost d = tunnel_panel_html(*t, tunnel_command(asset@, ssh_port));
    let mut out: Vec<char> = Vec::new();
    push_edit_asset_start(&mut out, t, asset, csrf_token, return_to);
    push_asset_fields(&mut out, t, Some(asset), credentials, true);
    assert(asset_opt_view(Some(asset)) == Some(asset@));
    push_edit_asset_end(&mut out, t, all_tags, return_to);
    let ghost m = out@;
    match asset_tunnel_command(asset, ssh_port) {
        Some(command) => {
            push_panel_head(&mut out, t.tunnel_command_heading, t.tunnel_command_intro);
            extend_str(&mut out, "<div class=\"command-block\"><input class=\"command-input\" readonly value=\"");
            push_escaped(&mut out, command.as_str());
            extend_str(&mut out, "\"></div></section>");
        },
        None => {},
    }
    assert(out@ =~= m + d);
    assert(out@ =~= a + b + c + d);
    from_chars(&out)
}

/// The page that edits one asset: the content above in the console frame, under its title.
#[verifier::rlimit(100)]
pub fn edit_asset(
    t: &L10n,
    asset: &Asset,
    credentials: &[Credential],
    csrf_token: &str,
    all_tags: &[String],
    ssh_port: u16,
    return_to: &str,
) -> (r: String)
    ensures
        r@ == layout_html(*t, t.edit_asset_title@, "assets"@, edit_asset_html(*t, asset@, credentials@, csrf_token@, strings_view(all_tags@), ssh_port, return_to@)),
{
    let content = edit_asset_content(t, asset, credentials, csrf_token, all_tags, ssh_port, return_to);
    layout(t.edit_asset_title, "assets", t, content.as_str())
}


// ---------------------------------------------------------------------------
// The asset list
// ---------------------------------------------------------------------------

/// A text slice as an optional text.
pub open spec fn opt_str(o: Option<&str>) -> Option<Seq<char>> {
    match o {
        Some(s) => Some(s@),
        None => None,
    }
}

/// A text, or the empty text.
pub open spec fn or_blank(o: Option<Seq<char>>) -> Seq<char> {
    match o {
        Some(s) => s,
        None => Seq::empty(),
    }
}

/// The head of the list: how many assets, and the button that adds one.
#[verifier::opaque]
pub open spec fn assets_hero_html(t: L10n, count: nat, can_manage: bool) -> Seq<char> {
    "<div class=\"assets-page\"><div class=\"console-hero\"><div><p>"@ + esc(t.assets_intro@)
        + "</p></div><div class=\"console-actions\"><span class=\"status-chip good\"><span class=\"status-dot good\"></span>"@
        + dec(count) + " "@ + esc(t.assets_count_suffix@) + "</span>"@ + (if can_manage {
        "<button id=\"open-add-asset\" type=\"button\" aria-haspopup=\"dialog\" aria-controls=\"add-asset-dialog\" onclick=\"document.getElementById('add-asset-dialog').showModal()\">"@
            + esc(t.assets_add_heading@) + "</button>"@
    } else {
        Seq::empty()
    }) + "</div></div>"@
}

/// The start of the search form, which keeps the selected tag.
#[verifier::opaque]
pub open spec fn assets_search_start_html(t: L10n, tag: Option<Seq<char>>) -> Seq<char> {
    "<section class=\"panel assets-toolbar\" aria-label=\""@ + esc(t.assets_filter_heading@)
        + "\"><div class=\"assets-toolbar-main\"><form class=\"assets-search\" method=\"get\" action=\"/assets\">"@ + (match tag {
        Some(g) => "<input type=\"hidden\" name=\"tag\" value=\""@ + esc(g) + "\">"@,
        None => Seq::empty(),
    })
}

/// The query field, and the link that clears the filters when any is set.
#[verifier::opaque]
pub open spec fn assets_search_row_html(t: L10n, filtered: bool, query: Option<Seq<char>>) -> Seq<char> {
    "<div class=\"assets-search-field\"><label class=\"field\" for=\"asset-search-query\">"@ + esc(t.assets_search_label@)
        + "</label><div class=\"assets-search-row\"><input id=\"asset-search-query\" type=\"search\" name=\"q\" value=\""@
        + esc(or_blank(query)) + "\" placeholder=\""@ + esc(t.assets_search_label@) + "\"><button type=\"submit\">"@
        + esc(t.assets_search_action@) + "</button>"@ + (if filtered {
        "<a class=\"ghost-button\" href=\"/assets\">"@ + esc(t.assets_clear_filters@) + "</a>"@
    } else {
        Seq::empty()
    }) + "</div></div></form>"@
}

/// The search form: it keeps the selected tag, holds the query, and offers
/// to clear the filters when any is set.
pub open spec fn assets_search_html(t: L10n, tag: Option<Seq<char>>, query: Option<Seq<char>>) -> Seq<char> {
    assets_search_start_html(t, tag) + assets_search_row_html(t, tag is Some || query is Some, query)
}

/// The link that shows the assets with a tag, highlighted when selected.
pub open spec fn tag_filter_html(tag: Seq<char>, selected: Option<Seq<char>>, query: Option<Seq<char>>) -> Seq<char> {
    "<a class=\""@ + (if selected == Some(tag) { "button"@ } else { "ghost-button"@ }) + "\" href=\""@
        + esc(assets_filter_link(Some(tag), query)) + "\">"@ + esc(tag) + "</a>"@
}

/// The links of every known tag, in order.
pub open spec fn tag_filters_html(tags: Seq<Seq<char>>, selected: Option<Seq<char>>, query: Option<Seq<char>>) -> Seq<char>
    decreases tags.len(),
{
    if tags.len() == 0 {
        Seq::empty()
    } else {
        tag_filters_html(tags.drop_last(), selected, query) + tag_filter_html(tags.last(), selected, query)
    }
}

/// The tag filters: all assets, and each known tag.
pub open spec fn assets_filters_html(t: L10n, tag: Option<Seq<char>>, query: Option<Seq<char>>, all_tags: Seq<Seq<char>>) -> Seq<char> {
    "<div class=\"assets-filter-group\"><div><strong>"@ + esc(t.assets_filter_heading@) + "</strong><p class=\"fine-print\">"@
        + esc(t.assets_filter_intro@) + "</p></div><div class=\"filter-row\"><a class=\""@
        + (if tag is None { "button"@ } else { "ghost-button"@ }) + "\" href=\""@ + esc(assets_filter_link(None, query)) + "\">"@
        + esc(t.assets_filter_all@) + "</a>"@ + tag_filters_html(all_tags, tag, query) + "</div></div></div>"@
}

/// The export links, and the import link for those who manage assets.
#[verifier::opaque]
pub open spec fn assets_exports_html(t: L10n, can_manage: bool) -> Seq<char> {
    "<div class=\"assets-secondary-actions\"><span class=\"fine-print\">"@ + esc(t.assets_export_intro@)
        + "</span><span class=\"command-chip\">"@ + esc(t.assets_export_heading@)
        + "</span><a class=\"ghost-button\" href=\"/assets/export?format=csv\">"@ + esc(t.export_csv@)
        + "</a><a class=\"ghost-button\" href=\"/assets/export?format=json\">"@ + esc(t.export_json@) + "</a>"@
        + (if can_manage { "<a class=\"ghost-button\" href=\"/import\">"@ + esc(t.import_open@) + "</a>"@ } else { Seq::empty() })
        + "</div></section>"@
}

#[verifier::rlimit(100)]
fn push_assets_hero(out: &mut Vec<char>, t: &L10n, count: usize, can_manage: bool)
    ensures
        final(out)@ == old(out)@ + assets_hero_html(*t, count as nat, can_manage),
{
    proof {
        reveal(assets_hero_html);
    }
    let ghost start = out@;
    extend_str(out, "<div class=\"assets-page\"><div class=\"console-hero\"><div><p>");
    push_escaped(out, t.assets_intro);
    extend_str(out, "</p></div><div class=\"console-actions\"><span class=\"status-chip good\"><span class=\"status-dot good\"></span>");
    push_dec(out, count as u64);
    extend_str(out, " ");
    push_escaped(out, t.assets_count_suffix);
    extend_str(out, "</span>");
    let ghost m = out@;
    if can_manage {
        extend_str(out, "<button id=\"open-add-asset\" type=\"button\" aria-haspopup=\"dialog\" aria-controls=\"add-asset-dialog\" onclick=\"document.getElementById('add-asset-dialog').showModal()\">");
        push_escaped(out, t.assets_add_heading);
        extend_str(out, "</button>");
    } else {
        assert(m + Seq::<char>::empty() =~= m);
    }
    extend_str(out, "</div></div>");
    assert(out@ =~= start + assets_hero_html(*t, count as nat, can_manage));
}

#[verifier::rlimit(100)]
fn push_assets_search_start(out: &mut Vec<char>, t: &L10n, tag: Option<&str>)
    ensures
        final(out)@ == old(out)@ + assets_search_start_html(*t, opt_str(tag)),
{
    proof {
        reveal(assets_search_start_html);
    }
    let ghost start = out@;
    extend_str(out, "<section class=\"panel assets-toolbar\" aria-label=\"");
    push_escaped(out, t.assets_filter_heading);
    extend_str(out, "\"><div class=\"assets-toolbar-main\"><form class=\"assets-search\" method=\"get\" action=\"/assets\">");
    let ghost m = out@;
    match tag {
        Some(g) => {
            extend_str(out, "<input type=\"hidden\" name=\"tag\" value=\"");
            push_escaped(out, g);
            extend_str(out, "\">");
        },
        None => {
            assert(m + Seq::<char>::empty() =~= m);
        },
    }
    assert(out@ =~= start + assets_search_start_html(*t, opt_str(tag)));
}

#[verifier::rlimit(100)]
fn push_assets_search_row(out: &mut Vec<char>, t: &L10n, filtered: bool, query: Option<&str>)
    ensures
        final(out)@ == old(out)@ + assets_search_row_html(*t, filtered, opt_str(query)),
{
    proof {
        reveal(assets_search_row_html);
        reveal_strlit("");
    }
    let ghost start = out@;
    extend_str(out, "<div class=\"assets-search-field\"><label class=\"field\" for=\"asset-search-query\">");
    push_escaped(out, t.assets_search_label);
    extend_str(out, "</label><div class=\"assets-search-row\"><input id=\"asset-search-query\" type=\"search\" name=\"q\" value=\"");
    let q: &str = match query {
        Some(q) => q,
        None => "",
    };
    assert(""@ =~= Seq::<char>::empty());
    push_escaped(out, q);
    extend_str(out, "\" placeholder=\"");
    push_escaped(out, t.assets_search_label);
    extend_str(out, "\"><button type=\"submit\">");
    push_escaped(out, t.assets_search_action);
    extend_str(out, "</button>");
    let ghost m2 = out@;
    if filtered {
        extend_str(out, "<a class=\"ghost-button\" href=\"/assets\">");
        push_escaped(out, t.assets_clear_filters);
        extend_str(out, "</a>");
    } else {
        assert(m2 + Seq::<char>::empty() =~= m2);
    }
    extend_str(out, "</div></div></form>");
    assert(out@ =~= start + assets_search_row_html(*t, filtered, opt_str(query)));
}

#[verifier::rlimit(100)]
fn push_assets_search(out: &mut Vec<char>, t: &L10n, tag: Option<&str>, query: Option<&str>)
    ensures
        final(out)@ == old(out)@ + assets_search_html(*t, opt_str(tag), opt_str(query)),
{
    let ghost start = out@;
    push_assets_search_start(out, t, tag);
    push_assets_search_row(out, t, tag.is_some() || query.is_some(), query);
    assert(out@ =~= start + assets_search_html(*t, opt_str(tag), opt_str(query)));
}

#[verifier::rlimit(100)]
fn push_tag_filter(out: &mut Vec<char>, tag: &str, selected: Option<&str>, query: Option<&str>)
    ensures
        final(out)@ == old(out)@ + tag_filter_html(tag@, opt_str(selected), opt_str(query)),
{
    let ghost start = out@;
    let chosen = match selected {
        Some(s) => str_eq(s, tag),
        None => false,
    };
    extend_str(out, "<a class=\"");
    if chosen {
        extend_str(out, "button");
    } else {
        extend_str(out, "ghost-button");
    }
    extend_str(out, "\" href=\"");
    let href = assets_filter_href(Some(tag), query);
    push_escaped(out, href.as_str());
    extend_str(out, "\">");
    push_escaped(out, tag);
    extend_str(out, "</a>");
    assert(out@ =~= start + tag_filter_html(tag@, opt_str(selected), opt_str(query)));
}

#[verifier::rlimit(100)]
fn push_assets_filters(out: &mut Vec<char>, t: &L10n, tag: Option<&str>, query: Option<&str>, all_tags: &[String])
    ensures
        final(out)@ == old(out)@ + assets_filters_html(*t, opt_str(tag), opt_str(query), strings_view(all_tags@)),
{
    let ghost start = out@;
    let ghost ts = strings_view(all_tags@);
    extend_str(out, "<div class=\"assets-filter-group\"><div><strong>");
    push_escaped(out, t.assets_filter_heading);
    extend_str(out, "</strong><p class=\"fine-print\">");
    push_escaped(out, t.assets_filter_intro);
    extend_str(out, "</p></div><div class=\"filter-row\"><a class=\"");
    if tag.is_none() {
        extend_str(out, "button");
    } else {
        extend_str(out, "ghost-button");
    }
    extend_str(out, "\" href=\"");
    let all = assets_filter_href(None, query);
    push_escaped(out, all.as_str());
    extend_str(out, "\">");
    push_escaped(out, t.assets_filter_all);
    extend_str(out, "</a>");
    let ghost m = out@;
    let mut i: usize = 0;
    assert(ts.take(0) =~= Seq::<Seq<char>>::empty());
    assert(m + Seq::<char>::empty() =~= m);
    while i < all_tags.len()
        invariant
            i <= all_tags.len(),
            ts == strings_view(all_tags@),
            out@ == m + tag_filters_html(ts.take(i as int), opt_str(tag), opt_str(query)),
        decreases all_tags.len() - i,
    {
        push_tag_filter(out, all_tags[i].as_str(), tag, query);
        assert(ts.take(i + 1).drop_last() =~= ts.take(i as int));
        assert(ts.take(i + 1).last() == all_tags@[i as int]@);
        assert(out@ =~= m + tag_filters_html(ts.take(i + 1), opt_str(tag), opt_str(query)));
        i += 1;
    }
    assert(ts.take(all_tags.len() as int) =~= ts);
    extend_str(out, "</div></div></div>");
    assert(out@ =~= start + assets_filters_html(*t, opt_str(tag), opt_str(query), ts));
}

#[verifier::rlimit(100)]
fn push_assets_exports(out: &mut Vec<char>, t: &L10n, can_manage: bool)
    ensures
        final(out)@ == old(out)@ + assets_exports_html(*t, can_manage),
{
    proof {
        reveal(assets_exports_html);
    }
    let ghost start = out@;
    extend_str(out, "<div class=\"assets-secondary-actions\"><span class=\"fine-print\">");
    push_escaped(out, t.assets_export_intro);
    extend_str(out, "</span><span class=\"command-chip\">");
    push_escaped(out, t.assets_export_heading);
    extend_str(out, "</span><a class=\"ghost-button\" href=\"/assets/export?format=csv\">");
    push_escaped(out, t.export_csv);
    extend_str(out, "</a><a class=\"ghost-button\" href=\"/assets/export?format=json\">");
    push_escaped(out, t.export_json);
    extend_str(out, "</a>");
    let ghost m = out@;
    if can_manage {
        extend_str(out, "<a class=\"ghost-button\" href=\"/import\">");
        push_escaped(out, t.import_open);
        extend_str(out, "</a>");
    } else {
        assert(m + Seq::<char>::empty() =~= m);
    }
    extend_str(out, "</div></section>");
    assert(out@ =~= start + assets_exports_html(*t, can_manage));
}


/// The heading of the inventory and the start of the bulk tag form.
#[verifier::opaque]
pub open spec fn inventory_title_html(t: L10n, count: nat, csrf: Seq<char>) -> Seq<char> {
    "<section class=\"panel assets-inventory\"><div class=\"panel-header\"><div><h2>"@ + esc(t.assets_existing_heading@)
        + "</h2><p>"@ + esc(t.assets_existing_intro@) + "</p></div><span class=\"status-chip good\">"@ + dec(count) + " "@
        + esc(t.assets_count_suffix@)
        + "</span></div><form method=\"post\" action=\"/assets/bulk-tags\" data-assets-form onchange=\"if(event.target.matches('input[name=asset_ids]'))window.syncAssetBulkControls?.()\">"@
        + csrf_html(csrf)
}

/// The header row of the inventory; the selection and action columns only
/// for those who manage assets.
#[verifier::opaque]
pub open spec fn inventory_columns_html(t: L10n, can_manage: bool) -> Seq<char> {
    "<div class=\"table-wrap\"><table class=\"data-table\"><thead><tr>"@
        + (if can_manage { "<th class=\"checkbox-cell\"></th>"@ } else { Seq::empty() }) + "<th>"@ + esc(t.field_hostname@)
        + "</th><th>"@ + esc(t.field_protocol@) + "</th><th>"@ + esc(t.target_column@) + "</th><th>"@ + esc(t.field_tags@)
        + "</th><th>"@ + esc(t.field_credential@) + "</th>"@
        + (if can_manage { "<th>"@ + esc(t.field_action@) + "</th>"@ } else { Seq::empty() }) + "</tr></thead><tbody>"@
}

/// The head of the inventory: how many assets, the start of the bulk tag
/// form, and the header row.
pub open spec fn inventory_head_html(t: L10n, count: nat, csrf: Seq<char>, can_manage: bool) -> Seq<char> {
    inventory_title_html(t, count, csrf) + inventory_columns_html(t, can_manage)
}

/// The row shown when no asset is listed: with filters set, that they hide
/// every asset; else that there is none, with the add button for those who
/// manage assets.
#[verifier::opaque]
pub open spec fn assets_empty_html(t: L10n, filtered: bool, can_manage: bool) -> Seq<char> {
    "<tr class=\"empty-row\"><td colspan=\""@ + (if can_manage { "7"@ } else { "5"@ }) + "\"><div class=\"assets-empty-state\">"@
        + (if filtered {
        "<strong>"@ + esc(t.assets_filter_heading@) + "</strong><span>"@ + esc(t.assets_filter_intro@)
            + "</span><a class=\"ghost-button\" href=\"/assets\">"@ + esc(t.assets_filter_all@) + "</a>"@
    } else {
        "<strong>"@ + esc(t.no_assets@) + "</strong>"@ + (if can_manage {
            "<button type=\"button\" onclick=\"document.getElementById('open-add-asset').click()\">"@ + esc(t.assets_add_heading@)
                + "</button>"@
        } else {
            Seq::empty()
        })
    }) + "</div></td></tr>"@
}

/// The selection box of a row, for those who manage assets.
pub open spec fn row_select_html(t: L10n, a: AssetView, can_manage: bool) -> Seq<char> {
    if can_manage {
        "<td class=\"checkbox-cell\"><input type=\"checkbox\" name=\"asset_ids\" value=\""@ + esc(a.id) + "\" aria-label=\""@
            + esc(t.assets_bulk_heading@ + ": "@ + a.name) + "\"></td>"@
    } else {
        Seq::empty()
    }
}

/// The name of a row with its description and tunnel command, and its
/// protocol.
#[verifier::opaque]
pub open spec fn row_name_html(t: L10n, a: AssetView, ssh_port: u16) -> Seq<char> {
    "<td><div class=\"primary-cell\">"@ + esc(a.name) + "<span class=\"subtle\">"@ + esc(match a.description {
        Some(d) => d,
        None => t.asset_activity_placeholder@,
    }) + "</span>"@ + (match tunnel_command(a, ssh_port) {
        Some(c) => "<span class=\"subtle mono\">"@ + esc(c) + "</span>"@,
        None => Seq::empty(),
    }) + "</div></td><td><span class=\"os-badge\">"@ + esc(protocol_label(t, kind_of(a))) + "</span></td>"@
}

/// The start of a row: its selection box, name and protocol.
pub open spec fn asset_row_lead_html(t: L10n, a: AssetView, ssh_port: u16, can_manage: bool) -> Seq<char> {
    "<tr>"@ + row_select_html(t, a, can_manage) + row_name_html(t, a, ssh_port)
}

/// Where an asset is, with the button that copies it.
#[verifier::opaque]
pub open spec fn asset_target_html(t: L10n, target: Seq<char>) -> Seq<char> {
    "<td class=\"target-cell\"><div class=\"target-copy-group\"><code class=\"target-address\" tabindex=\"0\" title=\""@
        + esc(target) + "\">"@ + esc(target)
        + "</code><button class=\"target-copy-button ghost-button\" type=\"button\" data-copy-value=\""@ + esc(target)
        + "\" data-copy-default=\""@ + esc(t.asset_copy_target@) + "\" data-copy-success=\""@ + esc(t.asset_copy_success@)
        + "\" data-copy-failed=\""@ + esc(t.asset_copy_failed@) + "\" aria-label=\""@ + esc(t.asset_copy_target@ + ": "@ + target)
        + "\" aria-live=\"polite\" onclick=\"window.copyAssetTarget(this)\">"@ + esc(t.asset_copy_target@) + "</button></div></td>"@
}

/// A tag of a row, linking to the assets with it.
pub open spec fn row_tag_html(tag: Seq<char>, query: Option<Seq<char>>) -> Seq<char> {
    "<a class=\"tag\" href=\""@ + esc(assets_filter_link(Some(tag), query)) + "\">"@ + esc(tag) + "</a>"@
}

/// The tags of a row, in order.
pub open spec fn row_tags_html(tags: Seq<Seq<char>>, query: Option<Seq<char>>) -> Seq<char>
    decreases tags.len(),
{
    if tags.len() == 0 {
        Seq::empty()
    } else {
        row_tags_html(tags.drop_last(), query) + row_tag_html(tags.last(), query)
    }
}

/// The tags cell and the credential cell of a row.
#[verifier::opaque]
pub open spec fn asset_tags_cells_html(t: L10n, a: AssetView, query: Option<Seq<char>>) -> Seq<char> {
    "<td><div class=\"tag-list\">"@ + (if a.tags.len() == 0 {
        "<span class=\"status-pill neutral\">"@ + esc(t.untagged@) + "</span>"@
    } else {
        Seq::empty()
    }) + row_tags_html(a.tags, query) + "</div></td><td>"@ + (match a.credential_id {
        Some(c) => "<span class=\"status-pill\">"@ + esc(c) + "</span>"@,
        None => "<span class=\"status-pill neutral\">"@ + esc(t.proxy_only@) + "</span>"@,
    }) + "</td>"@
}

/// The start of the link that opens the asset editor: where it leads, back
/// to the list as filtered.
#[verifier::opaque]
pub open spec fn asset_edit_link_html(a: AssetView, return_to: Seq<char>) -> Seq<char> {
    "<td><div class=\"action-row\"><a id=\""@ + esc("edit-asset-"@ + a.id) + "\" class=\"ghost-button\" href=\""@
        + esc("/assets/"@ + a.id + "/edit?return_to="@ + encoded_bytes(vstd::utf8::encode_utf8(return_to)))
        + "\" aria-haspopup=\"dialog\" aria-controls=\"edit-asset-dialog\" data-asset-id=\""@ + esc(a.id)
        + "\" data-asset-name=\""@ + esc(a.name) + "\" data-asset-protocol=\""@ + esc(kind_of(a))
        + "\" data-asset-hostname=\""@ + esc(a.hostname) + "\" data-asset-port=\""@ + dec_int(a.port as int) + "\""@
}

/// What the editor is filled with, and the delete button.
#[verifier::opaque]
pub open spec fn asset_edit_data_html(t: L10n, a: AssetView, return_to: Seq<char>) -> Seq<char> {
    " data-asset-tags=\""@ + esc(join_text(a.tags, ", "@)) + "\" data-asset-credential=\""@ + esc(or_blank(a.credential_id))
        + "\" data-asset-description=\""@ + esc(or_blank(a.description)) + "\" data-return-to=\""@ + esc(return_to)
        + "\" onclick=\"window.openAssetEditor(this);return false\">"@ + esc(t.edit@)
        + "</a><button class=\"danger\" type=\"submit\" formaction=\""@ + esc("/assets/"@ + a.id + "/delete"@) + "\">"@
        + esc(t.delete@) + "</button></div></td>"@
}

/// A row of the inventory; the selection box, edit link and delete button
/// only for those who manage assets.
pub open spec fn asset_row_html(
    t: L10n,
    a: AssetView,
    query: Option<Seq<char>>,
    return_to: Seq<char>,
    ssh_port: u16,
    can_manage: bool,
) -> Seq<char> {
    asset_row_lead_html(t, a, ssh_port, can_manage) + asset_target_html(t, a.hostname + ":"@ + dec_int(a.port as int))
        + asset_tags_cells_html(t, a, query) + (if can_manage {
        asset_edit_link_html(a, return_to) + asset_edit_data_html(t, a, return_to)
    } else {
        Seq::empty()
    }) + "</tr>"@
}

/// The rows of the inventory, in order.
pub open spec fn asset_rows_html(
    t: L10n,
    assets: Seq<AssetView>,
    query: Option<Seq<char>>,
    return_to: Seq<char>,
    ssh_port: u16,
    can_manage: bool,
) -> Seq<char>
    decreases assets.len(),
{
    if assets.len() == 0 {
        Seq::empty()
    } else {
        asset_rows_html(t, assets.drop_last(), query, return_to, ssh_port, can_manage)
            + asset_row_html(t, assets.last(), query, return_to, ssh_port, can_manage)
    }
}

#[verifier::rlimit(100)]
fn push_inventory_title(out: &mut Vec<char>, t: &L10n, count: usize, csrf: &str)
    ensures
        final(out)@ == old(out)@ + inventory_title_html(*t, count as nat, csrf@),
{
    proof {
        reveal(inventory_title_html);
    }
    let ghost start = out@;
    extend_str(out, "<section class=\"panel assets-inventory\"><div class=\"panel-header\"><div><h2>");
    push_escaped(out, t.assets_existing_heading);
    extend_str(out, "</h2><p>");
    push_escaped(out, t.assets_existing_intro);
    extend_str(out, "</p></div><span class=\"status-chip good\">");
    push_dec(out, count as u64);
    extend_str(out, " ");
    push_escaped(out, t.assets_count_suffix);
    extend_str(out, "</span></div><form method=\"post\" action=\"/assets/bulk-tags\" data-assets-form onchange=\"if(event.target.matches('input[name=asset_ids]'))window.syncAssetBulkControls?.()\">");
    push_csrf_field(out, csrf);
    assert(out@ =~= start + inventory_title_html(*t, count as nat, csrf@));
}

#[verifier::rlimit(100)]
fn push_inventory_columns(out: &mut Vec<char>, t: &L10n, can_manage: bool)
    ensures
        final(out)@ == old(out)@ + inventory_columns_html(*t, can_manage),
{
    proof {
        reveal(inventory_columns_html);
    }
    let ghost start = out@;
    extend_str(out, "<div class=\"table-wrap\"><table class=\"data-table\"><thead><tr>");
    let ghost m1 = out@;
    if can_manage {
        extend_str(out, "<th class=\"checkbox-cell\"></th>");
    } else {
        assert(m1 + Seq::<char>::empty() =~= m1);
    }
    extend_str(out, "<th>");
    push_escaped(out, t.field_hostname);
    extend_str(out, "</th><th>");
    push_escaped(out, t.field_protocol);
    extend_str(out, "</th><th>");
    push_escaped(out, t.target_column);
    extend_str(out, "</th><th>");
    push_escaped(out, t.field_tags);
    extend_str(out, "</th><th>");
    push_escaped(out, t.field_credential);
    extend_str(out, "</th>");
    let ghost m2 = out@;
    if can_manage {
        extend_str(out, "<th>");
        push_escaped(out, t.field_action);
        extend_str(out, "</th>");
    } else {
        assert(m2 + Seq::<char>::empty() =~= m2);
    }
    extend_str(out, "</tr></thead><tbody>");
    assert(out@ =~= start + inventory_columns_html(*t, can_manage));
}

#[verifier::rlimit(100)]
fn push_inventory_head(out: &mut Vec<char>, t: &L10n, count: usize, csrf: &str, can_manage: bool)
    ensures
        final(out)@ == old(out)@ + inventory_head_html(*t, count as nat, csrf@, can_manage),
{
    let ghost start = out@;
    push_inventory_title(out, t, count, csrf);
    push_inventory_columns(out, t, can_manage);
    assert(out@ =~= start + inventory_head_html(*t, count as nat, csrf@, can_manage));
}

#[verifier::rlimit(100)]
fn push_assets_empty(out: &mut Vec<char>, t: &L10n, filtered: bool, can_manage: bool)
    ensures
        final(out)@ == old(out)@ + assets_empty_html(*t, filtered, can_manage),
{
    proof {
        reveal(assets_empty_html);
    }
    let ghost start = out@;
    extend_str(out, "<tr class=\"empty-row\"><td colspan=\"");
    if can_manage {
        extend_str(out, "7");
    } else {
        extend_str(out, "5");
    }
    extend_str(out, "\"><div class=\"assets-empty-state\">");
    let ghost m = out@;
    if filtered {
        extend_str(out, "<strong>");
        push_escaped(out, t.assets_filter_heading);
        extend_str(out, "</strong><span>");
        push_escaped(out, t.assets_filter_intro);
        extend_str(out, "</span><a class=\"ghost-button\" href=\"/assets\">");
        push_escaped(out, t.assets_filter_all);
        extend_str(out, "</a>");
    } else {
        extend_str(out, "<strong>");
        push_escaped(out, t.no_assets);
        extend_str(out, "</strong>");
        let ghost m2 = out@;
        if can_manage {
            extend_str(out, "<button type=\"button\" onclick=\"document.getElementById('open-add-asset').click()\">");
            push_escaped(out, t.assets_add_heading);
            extend_str(out, "</button>");
        } else {
            assert(m2 + Seq::<char>::empty() =~= m2);
        }
    }
    extend_str(out, "</div></td></tr>");
    assert(out@ =~= start + assets_empty_html(*t, filtered, can_manage));
}

#[verifier::rlimit(100)]
fn push_row_select(out: &mut Vec<char>, t: &L10n, a: &Asset, can_manage: bool)
    ensures
        final(out)@ == old(out)@ + row_select_html(*t, a@, can_manage),
{
    let ghost start = out@;
    if can_manage {
        extend_str(out, "<td class=\"checkbox-cell\"><input type=\"checkbox\" name=\"asset_ids\" value=\"");
        push_escaped(out, a.id.as_str());
        extend_str(out, "\" aria-label=\"");
        let mut label: Vec<char> = Vec::new();
        extend_str(&mut label, t.assets_bulk_heading);
        extend_str(&mut label, ": ");
        extend_str(&mut label, a.name.as_str());
        push_escaped_chars(out, &label);
        extend_str(out, "\"></td>");
    } else {
        assert(start + Seq::<char>::empty() =~= start);
    }
    assert(out@ =~= start + row_select_html(*t, a@, can_manage));
}

#[verifier::rlimit(100)]
fn push_row_name(out: &mut Vec<char>, t: &L10n, a: &Asset, ssh_port: u16)
    ensures
        final(out)@ == old(out)@ + row_name_html(*t, a@, ssh_port),
{
    proof {
        reveal(row_name_html);
    }
    let ghost start = out@;
    extend_str(out, "<td><div class=\"primary-cell\">");
    push_escaped(out, a.name.as_str());
    extend_str(out, "<span class=\"subtle\">");
    let description: &str = match &a.description {
        Some(d) => d.as_str(),
        None => t.asset_activity_placeholder,
    };
    push_escaped(out, description);
    extend_str(out, "</span>");
    let ghost m2 = out@;
    match asset_tunnel_command(a, ssh_port) {
        Some(c) => {
            extend_str(out, "<span class=\"subtle mono\">");
            push_escaped(out, c.as_str());
            extend_str(out, "</span>");
        },
        None => {
            assert(m2 + Seq::<char>::empty() =~= m2);
        },
    }
    extend_str(out, "</div></td><td><span class=\"os-badge\">");
    push_escaped(out, asset_protocol_label(t, asset_kind(a)));
    extend_str(out, "</span></td>");
    assert(out@ =~= start + row_name_html(*t, a@, ssh_port));
}

#[verifier::rlimit(100)]
fn push_asset_row_lead(out: &mut Vec<char>, t: &L10n, a: &Asset, ssh_port: u16, can_manage: bool)
    ensures
        final(out)@ == old(out)@ + asset_row_lead_html(*t, a@, ssh_port, can_manage),
{
    let ghost start = out@;
    extend_str(out, "<tr>");
    push_row_select(out, t, a, can_manage);
    push_row_name(out, t, a, ssh_port);
    assert(out@ =~= start + asset_row_lead_html(*t, a@, ssh_port, can_manage));
}

#[verifier::rlimit(100)]
fn push_asset_target(out: &mut Vec<char>, t: &L10n, target: &Vec<char>)
    ensures
        final(out)@ == old(out)@ + asset_target_html(*t, target@),
{
    proof {
        reveal(asset_target_html);
    }
    let ghost start = out@;
    extend_str(out, "<td class=\"target-cell\"><div class=\"target-copy-group\"><code class=\"target-address\" tabindex=\"0\" title=\"");
    push_escaped_chars(out, target);
    extend_str(out, "\">");
    push_escaped_chars(out, target);
    extend_str(out, "</code><button class=\"target-copy-button ghost-button\" type=\"button\" data-copy-value=\"");
    push_escaped_chars(out, target);
    extend_str(out, "\" data-copy-default=\"");
    push_escaped(out, t.asset_copy_target);
    extend_str(out, "\" data-copy-success=\"");
    push_escaped(out, t.asset_copy_success);
    extend_str(out, "\" data-copy-failed=\"");
    push_escaped(out, t.asset_copy_failed);
    extend_str(out, "\" aria-label=\"");
    let mut label: Vec<char> = Vec::new();
    extend_str(&mut label, t.asset_copy_target);
    extend_str(&mut label, ": ");
    crate::text::extend_chars(&mut label, target);
    push_escaped_chars(out, &label);
    extend_str(out, "\" aria-live=\"polite\" onclick=\"window.copyAssetTarget(this)\">");
    push_escaped(out, t.asset_copy_target);
    extend_str(out, "</button></div></td>");
    assert(out@ =~= start + asset_target_html(*t, target@));
}


#[verifier::rlimit(100)]
fn push_row_tags(out: &mut Vec<char>, tags: &Vec<String>, query: Option<&str>)
    ensures
        final(out)@ == old(out)@ + row_tags_html(strings_view(tags@), opt_str(query)),
{
    let ghost start = out@;
    let ghost ts = strings_view(tags@);
    let mut i: usize = 0;
    assert(ts.take(0) =~= Seq::<Seq<char>>::empty());
    assert(start + Seq::<char>::empty() =~= start);
    while i < tags.len()
        invariant
            i <= tags.len(),
            ts == strings_view(tags@),
            out@ == start + row_tags_html(ts.take(i as int), opt_str(query)),
        decreases tags.len() - i,
    {
        let ghost before = out@;
        extend_str(out, "<a class=\"tag\" href=\"");
        let href = assets_filter_href(Some(tags[i].as_str()), query);
        push_escaped(out, href.as_str());
        extend_str(out, "\">");
        push_escaped(out, tags[i].as_str());
        extend_str(out, "</a>");
        assert(out@ =~= before + row_tag_html(tags@[i as int]@, opt_str(query)));
        assert(ts.take(i + 1).drop_last() =~= ts.take(i as int));
        assert(ts.take(i + 1).last() == tags@[i as int]@);
        assert(out@ =~= start + row_tags_html(ts.take(i + 1), opt_str(query)));
        i += 1;
    }
    assert(ts.take(tags.len() as int) =~= ts);
}

#[verifier::rlimit(100)]
fn push_asset_tags_cells(out: &mut Vec<char>, t: &L10n, a: &Asset, query: Option<&str>)
    ensures
        final(out)@ == old(out)@ + asset_tags_cells_html(*t, a@, opt_str(query)),
{
    proof {
        reveal(asset_tags_cells_html);
    }
    let ghost start = out@;
    extend_str(out, "<td><div class=\"tag-list\">");
    let ghost m = out@;
    if a.tags.len() == 0 {
        extend_str(out, "<span class=\"status-pill neutral\">");
        push_escaped(out, t.untagged);
        extend_str(out, "</span>");
    } else {
        assert(m + Seq::<char>::empty() =~= m);
    }
    push_row_tags(out, &a.tags, query);
    extend_str(out, "</div></td><td>");
    match &a.credential_id {
        Some(c) => {
            extend_str(out, "<span class=\"status-pill\">");
            push_escaped(out, c.as_str());
            extend_str(out, "</span>");
        },
        None => {
            extend_str(out, "<span class=\"status-pill neutral\">");
            push_escaped(out, t.proxy_only);
            extend_str(out, "</span>");
        },
    }
    extend_str(out, "</td>");
    assert(out@ =~= start + asset_tags_cells_html(*t, a@, opt_str(query)));
}

#[verifier::rlimit(100)]
fn push_asset_edit_link(out: &mut Vec<char>, a: &Asset, return_to: &str)
    ensures
        final(out)@ == old(out)@ + asset_edit_link_html(a@, return_to@),
{
    proof {
        reveal(asset_edit_link_html);
        reveal_strlit("");
    }
    let ghost start = out@;
    extend_str(out, "<td><div class=\"action-row\"><a id=\"");
    push_path(out, "edit-asset-", a.id.as_str(), "");
    assert(("edit-asset-"@ + a.id@ + ""@) =~= ("edit-asset-"@ + a.id@));
    extend_str(out, "\" class=\"ghost-button\" href=\"");
    let encoded = url_query_value(return_to);
    let mut href: Vec<char> = Vec::new();
    extend_str(&mut href, "/assets/");
    extend_str(&mut href, a.id.as_str());
    extend_str(&mut href, "/edit?return_to=");
    extend_str(&mut href, encoded.as_str());
    assert(href@ =~= "/assets/"@ + a.id@ + "/edit?return_to="@ + encoded_bytes(vstd::utf8::encode_utf8(return_to@)));
    push_escaped_chars(out, &href);
    extend_str(out, "\" aria-haspopup=\"dialog\" aria-controls=\"edit-asset-dialog\" data-asset-id=\"");
    push_escaped(out, a.id.as_str());
    extend_str(out, "\" data-asset-name=\"");
    push_escaped(out, a.name.as_str());
    extend_str(out, "\" data-asset-protocol=\"");
    push_escaped(out, asset_kind(a));
    extend_str(out, "\" data-asset-hostname=\"");
    push_escaped(out, a.hostname.as_str());
    extend_str(out, "\" data-asset-port=\"");
    push_dec_i64(out, a.port);
    extend_str(out, "\"");
    assert(out@ =~= start + asset_edit_link_html(a@, return_to@));
}

#[verifier::rlimit(100)]
fn push_asset_edit_data(out: &mut Vec<char>, t: &L10n, a: &Asset, return_to: &str)
    ensures
        final(out)@ == old(out)@ + asset_edit_data_html(*t, a@, return_to@),
{
    proof {
        reveal(asset_edit_data_html);
        reveal_strlit("");
    }
    let ghost start = out@;
    extend_str(out, " data-asset-tags=\"");
    let tags = join_strings(&a.tags, ", ");
    push_escaped_chars(out, &tags);
    extend_str(out, "\" data-asset-credential=\"");
    let credential: &str = match &a.credential_id {
        Some(c) => c.as_str(),
        None => "",
    };
    assert(""@ =~= Seq::<char>::empty());
    push_escaped(out, credential);
    extend_str(out, "\" data-asset-description=\"");
    let description: &str = match &a.description {
        Some(d) => d.as_str(),
        None => "",
    };
    push_escaped(out, description);
    extend_str(out, "\" data-return-to=\"");
    push_escaped(out, return_to);
    extend_str(out, "\" onclick=\"window.openAssetEditor(this);return false\">");
    push_escaped(out, t.edit);
    extend_str(out, "</a><button class=\"danger\" type=\"submit\" formaction=\"");
    push_path(out, "/assets/", a.id.as_str(), "/delete");
    extend_str(out, "\">");
    push_escaped(out, t.delete);
    extend_str(out, "</button></div></td>");
    assert(out@ =~= start + asset_edit_data_html(*t, a@, return_to@));
}

#[verifier::rlimit(100)]
fn push_asset_row(out: &mut Vec<char>, t: &L10n, a: &Asset, query: Option<&str>, return_to: &str, ssh_port: u16, can_manage: bool)
    ensures
        final(out)@ == old(out)@ + asset_row_html(*t, a@, opt_str(query), return_to@, ssh_port, can_manage),
{
    let ghost start = out@;
    push_asset_row_lead(out, t, a, ssh_port, can_manage);
    let mut target: Vec<char> = Vec::new();
    extend_str(&mut target, a.hostname.as_str());
    extend_str(&mut target, ":");
    push_dec_i64(&mut target, a.port);
    push_asset_target(out, t, &target);
    push_asset_tags_cells(out, t, a, query);
    let ghost m = out@;
    if can_manage {
        push_asset_edit_link(out, a, return_to);
        push_asset_edit_data(out, t, a, return_to);
    } else {
        assert(m + Seq::<char>::empty() =~= m);
    }
    extend_str(out, "</tr>");
    assert(out@ =~= start + asset_row_html(*t, a@, opt_str(query), return_to@, ssh_port, can_manage));
}

#[verifier::rlimit(100)]
fn push_asset_rows(out: &mut Vec<char>, t: &L10n, items: &[Asset], query: Option<&str>, return_to: &str, ssh_port: u16, can_manage: bool)
    ensures
        final(out)@ == old(out)@ + asset_rows_html(*t, assets_view(items@), opt_str(query), return_to@, ssh_port, can_manage),
{
    let ghost start = out@;
    let ghost av = assets_view(items@);
    let mut i: usize = 0;
    assert(av.take(0) =~= Seq::<AssetView>::empty());
    assert(start + Seq::<char>::empty() =~= start);
    while i < items.len()
        invariant
            i <= items.len(),
            av == assets_view(items@),
            out@ == start + asset_rows_html(*t, av.take(i as int), opt_str(query), return_to@, ssh_port, can_manage),
        decreases items.len() - i,
    {
        push_asset_row(out, t, &items[i], query, return_to, ssh_port, can_manage);
        assert(av.take(i + 1).drop_last() =~= av.take(i as int));
        assert(av.take(i + 1).last() == items@[i as int]@);
        assert(out@ =~= start + asset_rows_html(*t, av.take(i + 1), opt_str(query), return_to@, ssh_port, can_manage));
        i += 1;
    }
    assert(av.take(items.len() as int) =~= av);
}


/// The bulk tag controls, hidden until rows are selected.
#[verifier::opaque]
pub open spec fn bulk_bar_html(t: L10n) -> Seq<char> {
    "<div class=\"assets-bulk-bar\" data-assets-bulk-controls hidden><div class=\"assets-bulk-copy\"><strong>"@
        + esc(t.assets_bulk_heading@) + "</strong><span class=\"status-chip\" data-assets-selected-count data-suffix=\""@
        + esc(t.assets_count_suffix@) + "\" aria-live=\"polite\"></span><p class=\"fine-print\">"@ + esc(t.assets_bulk_intro@)
        + "</p></div><label class=\"field\">"@ + esc(t.assets_bulk_tags_label@)
        + "<input name=\"tags\" placeholder=\"prod, web\" list=\"asset-tags-list\" disabled></label><button type=\"submit\" disabled>"@
        + esc(t.assets_bulk_apply@) + "</button></div>"@
}

/// The head of an asset drawer: its title, intro and status, and the button
/// that closes it.
#[verifier::opaque]
pub open spec fn asset_drawer_head_html(
    t: L10n,
    dialog_id: Seq<char>,
    onclose: Seq<char>,
    title: Seq<char>,
    intro: Seq<char>,
    status: Seq<char>,
) -> Seq<char> {
    "<dialog class=\"asset-dialog\" id=\""@ + dialog_id + "-dialog\" aria-labelledby=\""@ + dialog_id
        + "-title\" onclick=\"if(event.target===this)this.close()\" onkeydown=\"if(event.key==='Escape'){event.preventDefault();this.close()}\" onclose=\""@
        + onclose + "\"><div class=\"asset-drawer\"><div class=\"asset-drawer-header\"><div><h2 id=\""@ + dialog_id + "-title\">"@
        + esc(title) + "</h2><p>"@ + esc(intro) + "</p></div><div class=\"asset-drawer-header-actions\"><span class=\"status-chip\">"@
        + esc(status) + "</span><button class=\"drawer-close ghost-button\" type=\"button\" aria-label=\""@
        + esc(t.assets_close_drawer@) + "\" onclick=\"this.closest('dialog').close()\">×</button></div></div>"@
}

/// The start of an asset drawer's form: the CSRF field and where to return.
pub open spec fn asset_drawer_form_html(form_open: Seq<char>, csrf: Seq<char>, return_to: Seq<char>) -> Seq<char> {
    form_open + csrf_html(csrf) + "<input type=\"hidden\" name=\"return_to\" value=\""@ + esc(return_to) + "\">"@
}

/// The buttons of an asset drawer, and its end.
#[verifier::opaque]
pub open spec fn asset_drawer_end_html(t: L10n, submit: Seq<char>) -> Seq<char> {
    "<div class=\"button-row asset-drawer-actions\"><button type=\"submit\">"@ + esc(submit)
        + "</button><button class=\"ghost-button\" type=\"button\" onclick=\"this.closest('dialog').close()\">"@
        + esc(t.assets_close_drawer@) + "</button></div></form></div></dialog>"@
}

/// The drawer that adds an asset.
pub open spec fn add_asset_drawer_html(t: L10n, creds: Seq<Credential>, csrf: Seq<char>, return_to: Seq<char>) -> Seq<char> {
    asset_drawer_head_html(t, "add-asset"@, "document.getElementById('open-add-asset').focus()"@, t.assets_add_heading@,
        t.assets_add_intro@, t.draft_status@)
        + asset_drawer_form_html("<form method=\"post\" action=\"/assets\">"@, csrf, return_to)
        + asset_fields_html(t, None, creds, true)
        + "<div class=\"terminal-strip\"><span>$</span><span>ssh -p 22 hop@target.internal</span></div>"@
        + asset_drawer_end_html(t, t.save_asset@)
}

/// The drawer that edits an asset; the script fills it in from a row.
pub open spec fn edit_asset_drawer_html(t: L10n, creds: Seq<Credential>, csrf: Seq<char>, return_to: Seq<char>) -> Seq<char> {
    asset_drawer_head_html(t, "edit-asset"@,
        "const target=document.getElementById(this.dataset.returnFocusId);if(target)target.focus()"@, t.edit_asset_title@,
        t.edit_asset_intro@, t.assets_edit_status@)
        + asset_drawer_form_html("<form method=\"post\" action=\"/assets\" data-edit-asset-form>"@, csrf, return_to)
        + asset_fields_html(t, None, creds, true) + asset_drawer_end_html(t, t.save_changes@)
}

#[verifier::rlimit(100)]
fn push_bulk_bar(out: &mut Vec<char>, t: &L10n)
    ensures
        final(out)@ == old(out)@ + bulk_bar_html(*t),
{
    proof {
        reveal(bulk_bar_html);
    }
    let ghost start = out@;
    extend_str(out, "<div class=\"assets-bulk-bar\" data-assets-bulk-controls hidden><div class=\"assets-bulk-copy\"><strong>");
    push_escaped(out, t.assets_bulk_heading);
    extend_str(out, "</strong><span class=\"status-chip\" data-assets-selected-count data-suffix=\"");
    push_escaped(out, t.assets_count_suffix);
    extend_str(out, "\" aria-live=\"polite\"></span><p class=\"fine-print\">");
    push_escaped(out, t.assets_bulk_intro);
    extend_str(out, "</p></div><label class=\"field\">");
    push_escaped(out, t.assets_bulk_tags_label);
    extend_str(out, "<input name=\"tags\" placeholder=\"prod, web\" list=\"asset-tags-list\" disabled></label><button type=\"submit\" disabled>");
    push_escaped(out, t.assets_bulk_apply);
    extend_str(out, "</button></div>");
    assert(out@ =~= start + bulk_bar_html(*t));
}

#[verifier::rlimit(100)]
fn push_asset_drawer_head(out: &mut Vec<char>, t: &L10n, dialog_id: &str, onclose: &str, title: &str, intro: &str, status: &str)
    ensures
        final(out)@ == old(out)@ + asset_drawer_head_html(*t, dialog_id@, onclose@, title@, intro@, status@),
{
    proof {
        reveal(asset_drawer_head_html);
    }
    let ghost start = out@;
    extend_str(out, "<dialog class=\"asset-dialog\" id=\"");
    extend_str(out, dialog_id);
    extend_str(out, "-dialog\" aria-labelledby=\"");
    extend_str(out, dialog_id);
    extend_str(out, "-title\" onclick=\"if(event.target===this)this.close()\" onkeydown=\"if(event.key==='Escape'){event.preventDefault();this.close()}\" onclose=\"");
    extend_str(out, onclose);
    extend_str(out, "\"><div class=\"asset-drawer\"><div class=\"asset-drawer-header\"><div><h2 id=\"");
    extend_str(out, dialog_id);
    extend_str(out, "-title\">");
    push_escaped(out, title);
    extend_str(out, "</h2><p>");
    push_escaped(out, intro);
    extend_str(out, "</p></div><div class=\"asset-drawer-header-actions\"><span class=\"status-chip\">");
    push_escaped(out, status);
    extend_str(out, "</span><button class=\"drawer-close ghost-button\" type=\"button\" aria-label=\"");
    push_escaped(out, t.assets_close_drawer);
    extend_str(out, "\" onclick=\"this.closest('dialog').close()\">×</button></div></div>");
    assert(out@ =~= start + asset_drawer_head_html(*t, dialog_id@, onclose@, title@, intro@, status@));
}

#[verifier::rlimit(100)]
fn push_asset_drawer_form(out: &mut Vec<char>, form_open: &str, csrf: &str, return_to: &str)
    ensures
        final(out)@ == old(out)@ + asset_drawer_form_html(form_open@, csrf@, return_to@),
{
    let ghost start = out@;
    extend_str(out, form_open);
    push_csrf_field(out, csrf);
    extend_str(out, "<input type=\"hidden\" name=\"return_to\" value=\"");
    push_escaped(out, return_to);
    extend_str(out, "\">");
    assert(out@ =~= start + asset_drawer_form_html(form_open@, csrf@, return_to@));
}

#[verifier::rlimit(100)]
fn push_asset_drawer_end(out: &mut Vec<char>, t: &L10n, submit: &str)
    ensures
        final(out)@ == old(out)@ + asset_drawer_end_html(*t, submit@),
{
    proof {
        reveal(asset_drawer_end_html);
    }
    let ghost start = out@;
    extend_str(out, "<div class=\"button-row asset-drawer-actions\"><button type=\"submit\">");
    push_escaped(out, submit);
    extend_str(out, "</button><button class=\"ghost-button\" type=\"button\" onclick=\"this.closest('dialog').close()\">");
    push_escaped(out, t.assets_close_drawer);
    extend_str(out, "</button></div></form></div></dialog>");
    assert(out@ =~= start + asset_drawer_end_html(*t, submit@));
}

#[verifier::rlimit(100)]
fn push_add_asset_drawer(out: &mut Vec<char>, t: &L10n, creds: &[Credential], csrf: &str, return_to: &str)
    ensures
        final(out)@ == old(out)@ + add_asset_drawer_html(*t, creds@, csrf@, return_to@),
{
    let ghost start = out@;
    push_asset_drawer_head(out, t, "add-asset", "document.getElementById('open-add-asset').focus()", t.assets_add_heading,
        t.assets_add_intro, t.draft_status);
    push_asset_drawer_form(out, "<form method=\"post\" action=\"/assets\">", csrf, return_to);
    push_asset_fields(out, t, None, creds, true);
    assert(asset_opt_view(None) == None::<AssetView>);
    extend_str(out, "<div class=\"terminal-strip\"><span>$</span><span>ssh -p 22 hop@target.internal</span></div>");
    push_asset_drawer_end(out, t, t.save_asset);
    assert(out@ =~= start + add_asset_drawer_html(*t, creds@, csrf@, return_to@));
}

#[verifier::rlimit(100)]
fn push_edit_asset_drawer(out: &mut Vec<char>, t: &L10n, creds: &[Credential], csrf: &str, return_to: &str)
    ensures
        final(out)@ == old(out)@ + edit_asset_drawer_html(*t, creds@, csrf@, return_to@),
{
    let ghost start = out@;
    push_asset_drawer_head(out, t, "edit-asset",
        "const target=document.getElementById(this.dataset.returnFocusId);if(target)target.focus()", t.edit_asset_title,
        t.edit_asset_intro, t.assets_edit_status);
    push_asset_drawer_form(out, "<form method=\"post\" action=\"/assets\" data-edit-asset-form>", csrf, return_to);
    push_asset_fields(out, t, None, creds, true);
    assert(asset_opt_view(None) == None::<AssetView>);
    push_asset_drawer_end(out, t, t.save_changes);
    assert(out@ =~= start + edit_asset_drawer_html(*t, creds@, csrf@, return_to@));
}

/// The inventory: its head, the empty row, the rows, and (for those who
/// manage assets) the bulk tag controls.
pub open spec fn inventory_html(
    t: L10n,
    items: Seq<AssetView>,
    csrf: Seq<char>,
    query: Option<Seq<char>>,
    return_to: Seq<char>,
    filtered: bool,
    ssh_port: u16,
    can_manage: bool,
) -> Seq<char> {
    inventory_head_html(t, items.len(), csrf, can_manage) + (if items.len() == 0 {
        assets_empty_html(t, filtered, can_manage)
    } else {
        Seq::empty()
    }) + asset_rows_html(t, items, query, return_to, ssh_port, can_manage) + "</tbody></table></div>"@
        + (if can_manage { bulk_bar_html(t) } else { Seq::empty() }) + "</form></section>"@
}

/// The content of the asset list: its head, the search and tag filters,
/// the exports, the inventory, the known tags, and the drawers that add and
/// edit assets. The query is taken trimmed, and only when not blank; the
/// list returns to itself as filtered.
pub open spec fn assets_html(
    t: L10n,
    items: Seq<AssetView>,
    creds: Seq<Credential>,
    csrf: Seq<char>,
    tag: Option<Seq<char>>,
    search: Option<Seq<char>>,
    all_tags: Seq<Seq<char>>,
    ssh_port: u16,
    can_manage: bool,
) -> Seq<char> {
    let query = filter_value(search);
    let return_to = assets_filter_link(tag, query);
    assets_hero_html(t, items.len(), can_manage) + assets_search_html(t, tag, query)
        + assets_filters_html(t, tag, query, all_tags) + assets_exports_html(t, can_manage)
        + inventory_html(t, items, csrf, query, return_to, tag is Some || query is Some, ssh_port, can_manage)
        + "<datalist id=\"asset-tags-list\">"@ + tag_options_html(all_tags) + "</datalist>"@
        + add_asset_drawer_html(t, creds, csrf, return_to) + edit_asset_drawer_html(t, creds, csrf, return_to)
        + "<script>"@ + ASSETS_PAGE_SCRIPT@ + "</script></div>"@
}

#[verifier::rlimit(100)]
fn push_inventory(
    out: &mut Vec<char>,
    t: &L10n,
    items: &[Asset],
    csrf: &str,
    query: Option<&str>,
    return_to: &str,
    filtered: bool,
    ssh_port: u16,
    can_manage: bool,
)
    ensures
        final(out)@ == old(out)@ + inventory_html(*t, assets_view(items@), csrf@, opt_str(query), return_to@, filtered, ssh_port, can_manage),
{
    let ghost start = out@;
    push_inventory_head(out, t, items.len(), csrf, can_manage);
    let ghost m = out@;
    if items.len() == 0 {
        push_assets_empty(out, t, filtered, can_manage);
    } else {
        assert(m + Seq::<char>::empty() =~= m);
    }
    push_asset_rows(out, t, items, query, return_to, ssh_port, can_manage);
    extend_str(out, "</tbody></table></div>");
    let ghost m2 = out@;
    if can_manage {
        push_bulk_bar(out, t);
    } else {
        assert(m2 + Seq::<char>::empty() =~= m2);
    }
    extend_str(out, "</form></section>");
    assert(out@ =~= start + inventory_html(*t, assets_view(items@), csrf@, opt_str(query), return_to@, filtered, ssh_port, can_manage));
}

#[verifier::rlimit(100)]
fn push_tag_options(out: &mut Vec<char>, all_tags: &[String])
    ensures
        final(out)@ == old(out)@ + tag_options_html(strings_view(all_tags@)),
{
    let ghost start = out@;
    let ghost ts = strings_view(all_tags@);
    let mut i: usize = 0;
    assert(ts.take(0) =~= Seq::<Seq<char>>::empty());
    assert(start + Seq::<char>::empty() =~= start);
    while i < all_tags.len()
        invariant
            i <= all_tags.len(),
            ts == strings_view(all_tags@),
            out@ == start + tag_options_html(ts.take(i as int)),
        decreases all_tags.len() - i,
    {
        extend_str(out, "<option value=\"");
        push_escaped(out, all_tags[i].as_str());
        extend_str(out, "\"></option>");
        assert(ts.take(i + 1).drop_last() =~= ts.take(i as int));
        assert(ts.take(i + 1).last() == all_tags@[i as int]@);
        assert(out@ =~= start + tag_options_html(ts.take(i + 1)));
        i += 1;
    }
    assert(ts.take(all_tags.len() as int) =~= ts);
}

/// The search query, trimmed, when it is not blank.
#[verifier::rlimit(100)]
fn trimmed_query(search: Option<&str>) -> (r: Option<String>)
    ensures
        opt_view(r) == filter_value(opt_str(search)),
{
    match search {
        Some(q) => {
            let t = trim_str(q);
            if t.as_str().is_empty() {
                None
            } else {
                Some(t)
            }
        },
        None => None,
    }
}

/// The content of the asset list, as the console layout frames it: the
/// assets with their targets, tags and credentials; the search and the tag
/// filters (the query taken trimmed and only when not blank); and for those
/// who manage assets the add button, the import link, each row's selection
/// box, edit link and delete button, and the bulk tag controls.
#[verifier::rlimit(100)]
fn assets_content(
    t: &L10n,
    items: &[Asset],
    credentials: &[Credential],
    csrf_token: &str,
    selected_tag: Option<&str>,
    search_query: Option<&str>,
    all_tags: &[String],
    ssh_port: u16,
    can_manage: bool,
) -> (r: String)
    ensures
        r@ == assets_html(*t, assets_view(items@), credentials@, csrf_token@, opt_str(selected_tag), opt_str(search_query),
            strings_view(all_tags@), ssh_port, can_manage),
{
    let trimmed = trimmed_query(search_query);
    let query: Option<&str> = match &trimmed {
        Some(q) => Some(q.as_str()),
        None => None,
    };
    assert(opt_str(query) == filter_value(opt_str(search_query)));
    let filtered = selected_tag.is_some() || query.is_some();
    let return_to = assets_filter_href(selected_tag, query);
    let ghost q = opt_str(query);
    let ghost rt = return_to@;
    let ghost a = assets_hero_html(*t, items@.len(), can_manage);
    let ghost b = assets_search_html(*t, opt_str(selected_tag), q);
    let ghost c = assets_filters_html(*t, opt_str(selected_tag), q, strings_view(all_tags@));
    let ghost d = assets_exports_html(*t, can_manage);
    let ghost e = inventory_html(*t, assets_view(items@), csrf_token@, q, rt, filtered, ssh_port, can_manage);
    let ghost f = "<datalist id=\"asset-tags-list\">"@ + tag_options_html(strings_view(all_tags@)) + "</datalist>"@;
    let ghost g = add_asset_drawer_html(*t, credentials@, csrf_token@, rt);
    let ghost h = edit_asset_drawer_html(*t, credentials@, csrf_token@, rt);
    let mut out: Vec<char> = Vec::new();
    push_assets_hero(&mut out, t, items.len(), can_manage);
    push_assets_search(&mut out, t, selected_tag, query);
    push_assets_filters(&mut out, t, selected_tag, query, all_tags);
    push_assets_exports(&mut out, t, can_manage);
    push_inventory(&mut out, t, items, csrf_token, query, return_to.as_str(), filtered, ssh_port, can_manage);
    let ghost m = out@;
    extend_str(&mut out, "<datalist id=\"asset-tags-list\">");
    push_tag_options(&mut out, all_tags);
    extend_str(&mut out, "</datalist>");
    assert(out@ =~= m + f);
    push_add_asset_drawer(&mut out, t, credentials, csrf_token, return_to.as_str());
    push_edit_asset_drawer(&mut out, t, credentials, csrf_token, return_to.as_str());
    let ghost m2 = out@;
    extend_str(&mut out, "<script>");
    extend_str(&mut out, ASSETS_PAGE_SCRIPT);
    extend_str(&mut out, "</script></div>");
    assert(out@ =~= m2 + ("<script>"@ + ASSETS_PAGE_SCRIPT@ + "</script></div>"@));
    assert(out@ =~= a + b + c + d + e + f + g + h + ("<script>"@ + ASSETS_PAGE_SCRIPT@ + "</script></div>"@));
    from_chars(&out)
}

/// The assets page: the content above in the console frame, under its title.
#[verifier::rlimit(100)]
pub fn assets(
    t: &L10n,
    items: &[Asset],
    credentials: &[Credential],
    csrf_token: &str,
    selected_tag: Option<&str>,
    search_query: Option<&str>,
    all_tags: &[String],
    ssh_port: u16,
    can_manage: bool,
) -> (r: String)
    ensures
        r@ == layout_html(*t, t.assets_title@, "assets"@, assets_html(*t, assets_view(items@), credentials@, csrf_token@, opt_str(selected_tag), opt_str(search_query),
            strings_view(all_tags@), ssh_port, can_manage)),
{
    let content = assets_content(t, items, credentials, csrf_token, selected_tag, search_query, all_tags, ssh_port, can_manage);
    layout(t.assets_title, "assets", t, content.as_str())
}

proof fn lemma_read_only_rows(t: L10n, items: Seq<AssetView>, query: Option<Seq<char>>, r1: Seq<char>, r2: Seq<char>, ssh_port: u16)
    ensures
        asset_rows_html(t, items, query, r1, ssh_port, false) == asset_rows_html(t, items, query, r2, ssh_port, false),
    decreases items.len(),
{
    if items.len() > 0 {
        lemma_read_only_rows(t, items.drop_last(), query, r1, r2, ssh_port);
    }
}

/// For those who may not manage assets, the inventory's rows carry no edit
/// link: they do not depend on where an edit would return to.
pub proof fn lemma_read_only_asset_rows(
    t: L10n,
    items: Seq<AssetView>,
    query: Option<Seq<char>>,
    return1: Seq<char>,
    return2: Seq<char>,
    ssh_port: u16,
)
    ensures
        asset_rows_html(t, items, query, return1, ssh_port, false) == asset_rows_html(t, items, query, return2, ssh_port, false),
{
    lemma_read_only_rows(t, items, query, return1, return2, ssh_port);
}

} // verus!
