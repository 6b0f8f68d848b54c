//! The markup of the console's pages: HTML escaping, and the content of
//! the SSH identities page with its asset access selector.
use crate::layout::{layout, layout_html};
use vstd::prelude::*;

use crate::i18n::L10n;
use crate::model::{AssetAccessMode, AuthorizedKey, Asset, AssetView};
use crate::text::{dec, dec_int, extend_chars, extend_str, from_chars, lower, lower_chars, push_dec, push_dec_i64, str_eq, to_chars};
use crate::tui_view::join_text;
use crate::asset_search::assets_view;
use crate::model::{strings_view, ASSET_PRESET_MYSQL, ASSET_PRESET_POSTGRES, ASSET_PRESET_RDP, ASSET_PRESET_REDIS, ASSET_PRESET_VNC, ASSET_PROTOCOL_SSH, ASSET_PROTOCOL_TCP};
use crate::page_scripts::{KEY_ACCESS_MODE_ONCHANGE, KEY_ACCESS_SCRIPT, KEY_ASSET_FILTER_ONINPUT};

verus! {

// ---------------------------------------------------------------------------
// Escaping
// ---------------------------------------------------------------------------

/// How a character is written in HTML text or a quoted attribute value:
/// `&`, `<`, `>` and `"` as entities, others as they are.
pub open spec fn escape_char(c: char) -> Seq<char> {
    if c == '&' {
        "&amp;"@
    } else if c == '<' {
        "&lt;"@
    } else if c == '>' {
        "&gt;"@
    } else if c == '"' {
        "&quot;"@
    } else {
        seq![c]
    }
}

/// A text as HTML writes it.
pub open spec fn esc(s: Seq<char>) -> Seq<char>
    decreases s.len(),
{
    if s.len() == 0 {
        Seq::empty()
    } else {
        esc(s.drop_last()) + escape_char(s.last())
    }
}

/// No character of an escaped character opens or closes a tag or a quoted
/// attribute value.
proof fn lemma_escape_char_inert(c: char)
    ensures
        forall|i: int| 0 <= i < escape_char(c).len() ==> {
            let d = #[trigger] escape_char(c)[i];
            d != '<' && d != '>' && d != '"'
        },
{
    reveal_strlit("&amp;");
    reveal_strlit("&lt;");
    reveal_strlit("&gt;");
    reveal_strlit("&quot;");
}

/// Escaped text holds no `<`, `>` or `"`: whatever a user typed, it can
/// neither open nor close a tag, nor end the attribute value it stands in.
pub proof fn lemma_escaped_text_is_inert(s: Seq<char>)
    ensures
        forall|i: int| 0 <= i < esc(s).len() ==> {
            let d = #[trigger] esc(s)[i];
            d != '<' && d != '>' && d != '"'
        },
    decreases s.len(),
{
    if s.len() > 0 {
        lemma_escaped_text_is_inert(s.drop_last());
        lemma_escape_char_inert(s.last());
        let a = esc(s.drop_last());
        let b = escape_char(s.last());
        assert forall|i: int| 0 <= i < esc(s).len() implies {
            let d = #[trigger] esc(s)[i];
            d != '<' && d != '>' && d != '"'
        } by {
            if i < a.len() {
                assert(esc(s)[i] == a[i]);
            } else {
                assert(esc(s)[i] == b[i - a.len()]);
            }
        }
    }
}

/// Appends characters, escaped.
#[verifier::rlimit(100)]
pub fn push_escaped_chars(out: &mut Vec<char>, v: &Vec<char>)
    ensures
        final(out)@ == old(out)@ + esc(v@),
{
    let ghost start = out@;
    let mut i: usize = 0;
    assert(v@.take(0) =~= Seq::<char>::empty());
    assert(start + Seq::<char>::empty() =~= start);
    while i < v.len()
        invariant
            i <= v.len(),
            out@ == start + esc(v@.take(i as int)),
        decreases v.len() - i,
    {
        let ghost before = out@;
        let c = v[i];
        if c == '&' {
            extend_str(out, "&amp;");
        } else if c == '<' {
            extend_str(out, "&lt;");
        } else if c == '>' {
            extend_str(out, "&gt;");
        } else if c == '"' {
            extend_str(out, "&quot;");
        } else {
            out.push(c);
            assert(out@ =~= before + seq![c]);
        }
        assert(v@.take(i + 1).drop_last() =~= v@.take(i as int));
        assert(v@.take(i + 1).last() == c);
        assert(out@ =~= start + esc(v@.take(i + 1)));
        i += 1;
    }
    assert(v@.take(v.len() as int) =~= v@);
}

/// Appends a text, escaped.
#[verifier::rlimit(100)]
pub fn push_escaped(out: &mut Vec<char>, s: &str)
    ensures
        final(out)@ == old(out)@ + esc(s@),
{
    let v = to_chars(s);
    push_escaped_chars(out, &v);
}

/// The hidden field that carries a form's CSRF token.
pub open spec fn csrf_html(token: Seq<char>) -> Seq<char> {
    "<input type=\"hidden\" name=\"csrf_token\" value=\""@ + esc(token) + "\">"@
}

/// Appends the CSRF field.
#[verifier::rlimit(100)]
pub fn push_csrf_field(out: &mut Vec<char>, token: &str)
    ensures
        final(out)@ == old(out)@ + csrf_html(token@),
{
    let ghost start = out@;
    extend_str(out, "<input type=\"hidden\" name=\"csrf_token\" value=\"");
    push_escaped(out, token);
    extend_str(out, "\">");
    assert(out@ =~= start + csrf_html(token@));
}


// ---------------------------------------------------------------------------
// The SSH identities page
// ---------------------------------------------------------------------------

/// The form that deactivates an active identity, or activates an inactive
/// one.
pub open spec fn key_toggle_html(t: L10n, k: AuthorizedKey, csrf: Seq<char>) -> Seq<char> {
    if k.is_active {
        "<form method=\"post\" action=\""@ + esc("/keys/"@ + k.id@ + "/deactivate"@) + "\">"@ + csrf_html(csrf)
            + "<button class=\"danger\" type=\"submit\">"@ + esc(t.deactivate@) + "</button></form>"@
    } else {
        "<form method=\"post\" action=\""@ + esc("/keys/"@ + k.id@ + "/activate"@) + "\">"@ + csrf_html(csrf)
            + "<button type=\"submit\">"@ + esc(t.activate@) + "</button></form>"@
    }
}

/// The edit, deactivate or activate controls of an identity row.
pub open spec fn key_actions_html(t: L10n, k: AuthorizedKey, csrf: Seq<char>) -> Seq<char> {
    "<td><div class=\"action-row\"><a class=\"button\" href=\""@ + esc("/keys/"@ + k.id@ + "/edit"@) + "\">"@
        + esc(t.edit@) + "</a>"@ + key_toggle_html(t, k, csrf) + "</div></td>"@
}

/// The name cell of an identity row, with when it was added.
pub open spec fn key_name_html(t: L10n, k: AuthorizedKey) -> Seq<char> {
    "<tr><td><div class=\"primary-cell\">"@ + esc(k.name@) + (match k.created_at {
        Some(c) => "<span class=\"subtle\">"@ + esc(t.key_added_prefix@) + " "@ + esc(c@) + "</span>"@,
        None => Seq::empty(),
    }) + "</div></td>"@
}

/// The fingerprint, access mode and state cells of an identity row.
pub open spec fn key_info_html(t: L10n, k: AuthorizedKey) -> Seq<char> {
    "<td class=\"mono\">"@ + esc(k.fingerprint@) + "</td><td><span class=\"status-pill neutral\">"@
        + esc(if k.asset_access_mode == AssetAccessMode::Restricted { t.key_access_restricted@ } else { t.key_access_all@ })
        + "</span></td><td>"@ + (if k.is_active {
        "<span class=\"status-pill\">"@ + esc(t.active@) + "</span>"@
    } else {
        "<span class=\"status-pill neutral\">"@ + esc(t.inactive@) + "</span>"@
    }) + "</td>"@
}

/// A row of the identities table; the controls only for those who manage
/// access.
pub open spec fn key_row_html(t: L10n, k: AuthorizedKey, csrf: Seq<char>, can_manage: bool) -> Seq<char> {
    key_name_html(t, k) + key_info_html(t, k) + (if can_manage { key_actions_html(t, k, csrf) } else { Seq::empty() })
        + "</tr>"@
}

/// The rows of the identities table, in order.
pub open spec fn key_rows_html(t: L10n, items: Seq<AuthorizedKey>, csrf: Seq<char>, can_manage: bool) -> Seq<char>
    decreases items.len(),
{
    if items.len() == 0 {
        Seq::empty()
    } else {
        key_rows_html(t, items.drop_last(), csrf, can_manage) + key_row_html(t, items.last(), csrf, can_manage)
    }
}

#[verifier::rlimit(100)]
pub(crate) fn push_path(out: &mut Vec<char>, head: &str, id: &str, tail: &str)
    ensures
        final(out)@ == old(out)@ + esc(head@ + id@ + tail@),
{
    let mut v: Vec<char> = Vec::new();
    extend_str(&mut v, head);
    extend_str(&mut v, id);
    extend_str(&mut v, tail);
    assert(v@ =~= head@ + id@ + tail@);
    push_escaped_chars(out, &v);
}

#[verifier::rlimit(100)]
fn push_key_toggle(out: &mut Vec<char>, t: &L10n, k: &AuthorizedKey, csrf: &str)
    ensures
        final(out)@ == old(out)@ + key_toggle_html(*t, *k, csrf@),
{
    let ghost start = out@;
    extend_str(out, "<form method=\"post\" action=\"");
    if k.is_active {
        push_path(out, "/keys/", k.id.as_str(), "/deactivate");
        extend_str(out, "\">");
        push_csrf_field(out, csrf);
        extend_str(out, "<button class=\"danger\" type=\"submit\">");
        push_escaped(out, t.deactivate);
    } else {
        push_path(out, "/keys/", k.id.as_str(), "/activate");
        extend_str(out, "\">");
        push_csrf_field(out, csrf);
        extend_str(out, "<button type=\"submit\">");
        push_escaped(out, t.activate);
    }
    extend_str(out, "</button></form>");
    assert(out@ =~= start + key_toggle_html(*t, *k, csrf@));
}

#[verifier::rlimit(100)]
fn push_key_actions(out: &mut Vec<char>, t: &L10n, k: &AuthorizedKey, csrf: &str)
    ensures
        final(out)@ == old(out)@ + key_actions_html(*t, *k, csrf@),
{
    let ghost start = out@;
    extend_str(out, "<td><div class=\"action-row\"><a class=\"button\" href=\"");
    push_path(out, "/keys/", k.id.as_str(), "/edit");
    extend_str(out, "\">");
    push_escaped(out, t.edit);
    extend_str(out, "</a>");
    push_key_toggle(out, t, k, csrf);
    extend_str(out, "</div></td>");
    assert(out@ =~= start + key_actions_html(*t, *k, csrf@));
}

#[verifier::rlimit(100)]
fn push_key_name(out: &mut Vec<char>, t: &L10n, k: &AuthorizedKey)
    ensures
        final(out)@ == old(out)@ + key_name_html(*t, *k),
{
    let ghost start = out@;
    extend_str(out, "<tr><td><div class=\"primary-cell\">");
    push_escaped(out, k.name.as_str());
    let ghost mid = out@;
    match &k.created_at {
        Some(c) => {
            extend_str(out, "<span class=\"subtle\">");
            push_escaped(out, t.key_added_prefix);
            extend_str(out, " ");
            push_escaped(out, c.as_str());
            extend_str(out, "</span>");
        },
        None => {
            assert(mid + Seq::<char>::empty() =~= mid);
        },
    }
    extend_str(out, "</div></td>");
    assert(out@ =~= start + key_name_html(*t, *k));
}

#[verifier::rlimit(100)]
fn push_key_info(out: &mut Vec<char>, t: &L10n, k: &AuthorizedKey)
    ensures
        final(out)@ == old(out)@ + key_info_html(*t, *k),
{
    let ghost start = out@;
    extend_str(out, "<td class=\"mono\">");
    push_escaped(out, k.fingerprint.as_str());
    extend_str(out, "</td><td><span class=\"status-pill neutral\">");
    let mode_label = match k.asset_access_mode {
        AssetAccessMode::Restricted => t.key_access_restricted,
        AssetAccessMode::All => t.key_access_all,
    };
    push_escaped(out, mode_label);
    extend_str(out, "</span></td><td>");
    if k.is_active {
        extend_str(out, "<span class=\"status-pill\">");
        push_escaped(out, t.active);
        extend_str(out, "</span>");
    } else {
        extend_str(out, "<span class=\"status-pill neutral\">");
        push_escaped(out, t.inactive);
        extend_str(out, "</span>");
    }
    extend_str(out, "</td>");
    assert(out@ =~= start + key_info_html(*t, *k));
}

#[verifier::rlimit(100)]
fn push_key_row(out: &mut Vec<char>, t: &L10n, k: &AuthorizedKey, csrf: &str, can_manage: bool)
    ensures
        final(out)@ == old(out)@ + key_row_html(*t, *k, csrf@, can_manage),
{
    let ghost start = out@;
    push_key_name(out, t, k);
    push_key_info(out, t, k);
    let ghost mid = out@;
    if can_manage {
        push_key_actions(out, t, k, csrf);
    } else {
        assert(mid + Seq::<char>::empty() =~= mid);
    }
    extend_str(out, "</tr>");
    assert(out@ =~= start + key_row_html(*t, *k, csrf@, can_manage));
}


// ---------------------------------------------------------------------------
// The asset access selector
// ---------------------------------------------------------------------------

/// The kind an asset is shown as: its preset, else its protocol.
pub open spec fn kind_of(a: AssetView) -> Seq<char> {
    match a.preset {
        Some(p) => p,
        None => a.protocol,
    }
}

/// The label of a protocol or preset (see `pages::asset_protocol_label`).
pub open spec fn protocol_label(t: L10n, kind: Seq<char>) -> Seq<char> {
    if kind == ASSET_PROTOCOL_SSH@ {
        t.protocol_ssh@
    } else if kind == ASSET_PROTOCOL_TCP@ {
        t.protocol_tcp@
    } else if kind == ASSET_PRESET_RDP@ {
        t.protocol_rdp@
    } else if kind == ASSET_PRESET_VNC@ {
        t.protocol_vnc@
    } else if kind == ASSET_PRESET_MYSQL@ {
        t.protocol_mysql@
    } else if kind == ASSET_PRESET_POSTGRES@ {
        t.protocol_postgres@
    } else if kind == ASSET_PRESET_REDIS@ {
        t.protocol_redis@
    } else {
        kind
    }
}

/// The text an asset row is searched in: name, kind, host, port and tags,
/// lower-cased.
pub open spec fn asset_search_text(a: AssetView) -> Seq<char> {
    lower(a.name + " "@ + kind_of(a) + " "@ + a.hostname + " "@ + dec_int(a.port as int) + " "@ + join_text(a.tags, " "@))
}

/// The tags of an asset, each in a tag chip.
pub open spec fn tag_chips_html(tags: Seq<Seq<char>>) -> Seq<char>
    decreases tags.len(),
{
    if tags.len() == 0 {
        Seq::empty()
    } else {
        tag_chips_html(tags.drop_last()) + "<span class=\"tag\">"@ + esc(tags.last()) + "</span>"@
    }
}

/// The checkbox of an asset: checked when the identity is assigned to it,
/// disabled unless access is restricted.
pub open spec fn asset_checkbox_html(a: AssetView, restricted: bool, assigned: bool) -> Seq<char> {
    "<input type=\"checkbox\" name=\"asset_id\" value=\""@ + esc(a.id) + "\""@ + (if assigned { " checked"@ } else { Seq::empty() })
        + (if !restricted { " disabled"@ } else { Seq::empty() }) + ">"@
}

/// The description of an asset: name, kind, address and tags.
pub open spec fn asset_cell_html(t: L10n, a: AssetView) -> Seq<char> {
    "<div class=\"primary-cell\"><span>"@ + esc(a.name) + "</span><span class=\"subtle\">"@ + esc(protocol_label(t, kind_of(a)))
        + " · "@ + esc(a.hostname) + ":"@ + dec_int(a.port as int) + "</span>"@ + (if a.tags.len() > 0 {
        "<div class=\"tag-list\">"@ + tag_chips_html(a.tags) + "</div>"@
    } else {
        Seq::empty()
    }) + "</div>"@
}

/// The selector item of an asset.
pub open spec fn asset_item_html(t: L10n, a: AssetView, restricted: bool, assigned: bool) -> Seq<char> {
    "<label class=\"asset-access-item\" data-asset-search=\""@ + esc(asset_search_text(a)) + "\">"@
        + asset_checkbox_html(a, restricted, assigned) + asset_cell_html(t, a) + "</label>"@
}

/// The identity is assigned to the asset.
pub open spec fn is_assigned(assigned: Seq<Seq<char>>, id: Seq<char>) -> bool {
    assigned.contains(id)
}

/// The selector items of the assets, in order.
pub open spec fn asset_items_html(t: L10n, assets: Seq<AssetView>, restricted: bool, assigned: Seq<Seq<char>>) -> Seq<char>
    decreases assets.len(),
{
    if assets.len() == 0 {
        Seq::empty()
    } else {
        asset_items_html(t, assets.drop_last(), restricted, assigned)
            + asset_item_html(t, assets.last(), restricted, is_assigned(assigned, assets.last().id))
    }
}

#[verifier::rlimit(100)]
fn push_tag_chips(out: &mut Vec<char>, tags: &Vec<String>)
    ensures
        final(out)@ == old(out)@ + tag_chips_html(strings_view(tags@)),
{
    let ghost start = out@;
    let ghost ts = strings_view(tags@);
    let mut i: usize = 0;
    assert(ts.take(0) =~= Seq::<Seq<char>>::empty());
    assert(start + Seq::<char>::empty() =~= start);
    while i < tags.len()
        invariant
            i <= tags.len(),
            ts == strings_view(tags@),
            out@ == start + tag_chips_html(ts.take(i as int)),
        decreases tags.len() - i,
    {
        let ghost before = out@;
        extend_str(out, "<span class=\"tag\">");
        push_escaped(out, tags[i].as_str());
        extend_str(out, "</span>");
        assert(ts.take(i + 1).drop_last() =~= ts.take(i as int));
        assert(ts.take(i + 1).last() == tags@[i as int]@);
        assert(out@ =~= start + tag_chips_html(ts.take(i + 1)));
        i += 1;
    }
    assert(ts.take(tags.len() as int) =~= ts);
}

/// The texts joined by a separator.
#[verifier::rlimit(100)]
pub(crate) fn join_strings(items: &Vec<String>, sep: &str) -> (r: Vec<char>)
    ensures
        r@ == join_text(strings_view(items@), sep@),
{
    let ghost ts = strings_view(items@);
    let mut out: Vec<char> = Vec::new();
    let mut i: usize = 0;
    assert(ts.take(0) =~= Seq::<Seq<char>>::empty());
    while i < items.len()
        invariant
            i <= items.len(),
            ts == strings_view(items@),
            out@ == join_text(ts.take(i as int), sep@),
        decreases items.len() - i,
    {
        if i > 0 {
            extend_str(&mut out, sep);
        }
        extend_str(&mut out, items[i].as_str());
        assert(ts.take(i + 1).drop_last() =~= ts.take(i as int));
        assert(ts.take(i + 1).last() == items@[i as int]@);
        if i == 0 {
            assert(out@ =~= ts.take(1)[0]);
        } else {
            assert(out@ =~= join_text(ts.take(i as int), sep@) + sep@ + ts.take(i + 1).last());
        }
        i += 1;
    }
    assert(ts.take(items.len() as int) =~= ts);
    out
}

#[verifier::rlimit(100)]
fn push_asset_search(out: &mut Vec<char>, a: &Asset)
    ensures
        final(out)@ == old(out)@ + esc(asset_search_text(a@)),
{
    let mut v: Vec<char> = Vec::new();
    extend_str(&mut v, a.name.as_str());
    extend_str(&mut v, " ");
    extend_str(&mut v, crate::pages::asset_kind(a));
    extend_str(&mut v, " ");
    extend_str(&mut v, a.hostname.as_str());
    extend_str(&mut v, " ");
    push_dec_i64(&mut v, a.port);
    extend_str(&mut v, " ");
    let joined = join_strings(&a.tags, " ");
    extend_chars(&mut v, &joined);
    assert(v@ =~= a@.name + " "@ + kind_of(a@) + " "@ + a@.hostname + " "@ + dec_int(a@.port as int) + " "@ + join_text(a@.tags, " "@));
    let low = lower_chars(&v);
    push_escaped_chars(out, &low);
}

#[verifier::rlimit(100)]
fn push_asset_checkbox(out: &mut Vec<char>, a: &Asset, restricted: bool, assigned: bool)
    ensures
        final(out)@ == old(out)@ + asset_checkbox_html(a@, restricted, assigned),
{
    let ghost start = out@;
    extend_str(out, "<input type=\"checkbox\" name=\"asset_id\" value=\"");
    push_escaped(out, a.id.as_str());
    extend_str(out, "\"");
    let ghost m1 = out@;
    if assigned {
        extend_str(out, " checked");
    } else {
        assert(m1 + Seq::<char>::empty() =~= m1);
    }
    let ghost m2 = out@;
    if !restricted {
        extend_str(out, " disabled");
    } else {
        assert(m2 + Seq::<char>::empty() =~= m2);
    }
    extend_str(out, ">");
    assert(out@ =~= start + asset_checkbox_html(a@, restricted, assigned));
}

#[verifier::rlimit(100)]
fn push_asset_cell(out: &mut Vec<char>, t: &L10n, a: &Asset)
    ensures
        final(out)@ == old(out)@ + asset_cell_html(*t, a@),
{
    let ghost start = out@;
    extend_str(out, "<div class=\"primary-cell\"><span>");
    push_escaped(out, a.name.as_str());
    extend_str(out, "</span><span class=\"subtle\">");
    let label = crate::pages::asset_protocol_label(t, crate::pages::asset_kind(a));
    push_escaped(out, label);
    extend_str(out, " · ");
    push_escaped(out, a.hostname.as_str());
    extend_str(out, ":");
    push_dec_i64(out, a.port);
    extend_str(out, "</span>");
    let ghost m = out@;
    if a.tags.len() > 0 {
        extend_str(out, "<div class=\"tag-list\">");
        push_tag_chips(out, &a.tags);
        extend_str(out, "</div>");
    } else {
        assert(m + Seq::<char>::empty() =~= m);
    }
    extend_str(out, "</div>");
    assert(out@ =~= start + asset_cell_html(*t, a@));
}

#[verifier::rlimit(100)]
fn push_asset_item(out: &mut Vec<char>, t: &L10n, a: &Asset, restricted: bool, assigned: bool)
    ensures
        final(out)@ == old(out)@ + asset_item_html(*t, a@, restricted, assigned),
{
    let ghost start = out@;
    extend_str(out, "<label class=\"asset-access-item\" data-asset-search=\"");
    push_asset_search(out, a);
    extend_str(out, "\">");
    push_asset_checkbox(out, a, restricted, assigned);
    push_asset_cell(out, t, a);
    extend_str(out, "</label>");
    assert(out@ =~= start + asset_item_html(*t, a@, restricted, assigned));
}


#[verifier::rlimit(100)]
fn push_key_rows(out: &mut Vec<char>, t: &L10n, items: &[AuthorizedKey], csrf: &str, can_manage: bool)
    ensures
        final(out)@ == old(out)@ + key_rows_html(*t, items@, csrf@, can_manage),
{
    let ghost start = out@;
    let mut i: usize = 0;
    assert(items@.take(0) =~= Seq::<AuthorizedKey>::empty());
    assert(start + Seq::<char>::empty() =~= start);
    while i < items.len()
        invariant
            i <= items.len(),
            out@ == start + key_rows_html(*t, items@.take(i as int), csrf@, can_manage),
        decreases items.len() - i,
    {
        push_key_row(out, t, &items[i], csrf, can_manage);
        assert(items@.take(i + 1).drop_last() =~= items@.take(i as int));
        assert(items@.take(i + 1).last() == items@[i as int]);
        assert(out@ =~= start + key_rows_html(*t, items@.take(i + 1), csrf@, can_manage));
        i += 1;
    }
    assert(items@.take(items.len() as int) =~= items@);
}

/// Whether an asset's id is among the assigned ones.
#[verifier::rlimit(100)]
pub(crate) fn assigned_to(assigned_ids: &[String], id: &str) -> (r: bool)
    ensures
        r == is_assigned(strings_view(assigned_ids@), id@),
{
    let ghost ids = strings_view(assigned_ids@);
    let mut i: usize = 0;
    while i < assigned_ids.len()
        invariant
            i <= assigned_ids.len(),
            ids == strings_view(assigned_ids@),
            forall|j: int| 0 <= j < i ==> ids[j] != id@,
        decreases assigned_ids.len() - i,
    {
        if str_eq(assigned_ids[i].as_str(), id) {
            assert(ids[i as int] == id@);
            return true;
        }
        i += 1;
    }
    false
}

#[verifier::rlimit(100)]
fn push_asset_items(out: &mut Vec<char>, t: &L10n, assets: &[Asset], restricted: bool, assigned_ids: &[String])
    ensures
        final(out)@ == old(out)@ + asset_items_html(*t, assets_view(assets@), restricted, strings_view(assigned_ids@)),
{
    let ghost start = out@;
    let ghost av = assets_view(assets@);
    let ghost ids = strings_view(assigned_ids@);
    let mut i: usize = 0;
    assert(av.take(0) =~= Seq::<AssetView>::empty());
    assert(start + Seq::<char>::empty() =~= start);
    while i < assets.len()
        invariant
            i <= assets.len(),
            av == assets_view(assets@),
            ids == strings_view(assigned_ids@),
            out@ == start + asset_items_html(*t, av.take(i as int), restricted, ids),
        decreases assets.len() - i,
    {
        let assigned = assigned_to(assigned_ids, assets[i].id.as_str());
        push_asset_item(out, t, &assets[i], restricted, assigned);
        assert(av.take(i + 1).drop_last() =~= av.take(i as int));
        assert(av.take(i + 1).last() == assets@[i as int]@);
        assert(out@ =~= start + asset_items_html(*t, av.take(i + 1), restricted, ids));
        i += 1;
    }
    assert(av.take(assets.len() as int) =~= av);
}

/// The heading of the selector, with how many of the assets the identity
/// reaches.
pub open spec fn access_head_html(t: L10n, reached: nat, total: nat) -> Seq<char> {
    "<section class=\"asset-access-list\"><div class=\"panel-header\"><div><h2>"@ + esc(t.key_access_heading@) + "</h2><p>"@
        + esc(t.key_access_intro@) + "</p></div><span class=\"status-pill\">"@ + dec(reached) + " / "@ + dec(total) + " "@
        + esc(t.key_assets_suffix@) + "</span></div>"@
}

/// The access mode field.
pub open spec fn access_select_html(t: L10n, restricted: bool) -> Seq<char> {
    "<label class=\"field\">"@ + esc(t.key_access_mode@)
        + "<select name=\"asset_access_mode\" data-asset-access-mode onchange=\""@ + esc(KEY_ACCESS_MODE_ONCHANGE@) + "\">"@
        + "<option value=\"all\""@ + (if restricted { Seq::empty() } else { " selected"@ }) + ">"@ + esc(t.key_access_all@)
        + "</option><option value=\"restricted\""@ + (if restricted { " selected"@ } else { Seq::empty() }) + ">"@
        + esc(t.key_access_restricted@) + "</option></select></label>"@
}

/// The note shown when every asset is reached.
pub open spec fn access_note_html(t: L10n, restricted: bool) -> Seq<char> {
    "<p class=\"fine-print\" data-access-all-note"@ + (if restricted { " hidden"@ } else { Seq::empty() }) + ">"@
        + esc(t.key_access_all_intro@) + "</p>"@
}

/// The access mode field, with the note shown when every asset is reached.
pub open spec fn access_mode_html(t: L10n, restricted: bool) -> Seq<char> {
    access_select_html(t, restricted) + access_note_html(t, restricted)
}

/// The list of assets to choose from, hidden unless access is restricted.
pub open spec fn access_list_html(t: L10n, assets: Seq<AssetView>, restricted: bool, assigned: Seq<Seq<char>>) -> Seq<char> {
    "<div data-asset-access-list"@ + (if restricted { Seq::empty() } else { " hidden"@ }) + "><p class=\"fine-print\">"@
        + esc(t.key_access_restricted_intro@) + "</p><label class=\"field\">"@ + esc(t.key_asset_search@)
        + "<input type=\"search\" data-asset-filter oninput=\""@ + esc(KEY_ASSET_FILTER_ONINPUT@)
        + "\"></label><div class=\"asset-access-list\">"@ + asset_items_html(t, assets, restricted, assigned)
        + "</div></div></section>"@
}

/// The asset access selector of an identity: the count it reaches (the
/// assigned assets when restricted, else all), the mode, and the assets.
pub open spec fn access_selector_html(t: L10n, assets: Seq<AssetView>, restricted: bool, assigned: Seq<Seq<char>>) -> Seq<char> {
    access_head_html(t, if restricted { assigned.len() } else { assets.len() }, assets.len())
        + access_mode_html(t, restricted) + access_list_html(t, assets, restricted, assigned)
}

#[verifier::rlimit(100)]
fn push_access_head(out: &mut Vec<char>, t: &L10n, reached: usize, total: usize)
    ensures
        final(out)@ == old(out)@ + access_head_html(*t, reached as nat, total as nat),
{
    let ghost start = out@;
    extend_str(out, "<section class=\"asset-access-list\"><div class=\"panel-header\"><div><h2>");
    push_escaped(out, t.key_access_heading);
    extend_str(out, "</h2><p>");
    push_escaped(out, t.key_access_intro);
    extend_str(out, "</p></div><span class=\"status-pill\">");
    push_dec(out, reached as u64);
    extend_str(out, " / ");
    push_dec(out, total as u64);
    extend_str(out, " ");
    push_escaped(out, t.key_assets_suffix);
    extend_str(out, "</span></div>");
    assert(out@ =~= start + access_head_html(*t, reached as nat, total as nat));
}

#[verifier::rlimit(100)]
fn push_access_select(out: &mut Vec<char>, t: &L10n, restricted: bool)
    ensures
        final(out)@ == old(out)@ + access_select_html(*t, restricted),
{
    let ghost start = out@;
    extend_str(out, "<label class=\"field\">");
    push_escaped(out, t.key_access_mode);
    extend_str(out, "<select name=\"asset_access_mode\" data-asset-access-mode onchange=\"");
    push_escaped(out, KEY_ACCESS_MODE_ONCHANGE);
    extend_str(out, "\">");
    extend_str(out, "<option value=\"all\"");
    let ghost m1 = out@;
    if restricted {
        assert(m1 + Seq::<char>::empty() =~= m1);
    } else {
        extend_str(out, " selected");
    }
    extend_str(out, ">");
    push_escaped(out, t.key_access_all);
    extend_str(out, "</option><option value=\"restricted\"");
    let ghost m2 = out@;
    if restricted {
        extend_str(out, " selected");
    } else {
        assert(m2 + Seq::<char>::empty() =~= m2);
    }
    extend_str(out, ">");
    push_escaped(out, t.key_access_restricted);
    extend_str(out, "</option></select></label>");
    assert(out@ =~= start + access_select_html(*t, restricted));
}

#[verifier::rlimit(100)]
fn push_access_mode(out: &mut Vec<char>, t: &L10n, restricted: bool)
    ensures
        final(out)@ == old(out)@ + access_mode_html(*t, restricted),
{
    let ghost start = out@;
    push_access_select(out, t, restricted);
    extend_str(out, "<p class=\"fine-print\" data-access-all-note");
    let ghost m3 = out@;
    if restricted {
        extend_str(out, " hidden");
    } else {
        assert(m3 + Seq::<char>::empty() =~= m3);
    }
    extend_str(out, ">");
    push_escaped(out, t.key_access_all_intro);
    extend_str(out, "</p>");
    assert(out@ =~= start + access_mode_html(*t, restricted));
}

#[verifier::rlimit(100)]
fn push_access_list(out: &mut Vec<char>, t: &L10n, assets: &[Asset], restricted: bool, assigned_ids: &[String])
    ensures
        final(out)@ == old(out)@ + access_list_html(*t, assets_view(assets@), restricted, strings_view(assigned_ids@)),
{
    let ghost start = out@;
    extend_str(out, "<div data-asset-access-list");
    let ghost m1 = out@;
    if restricted {
        assert(m1 + Seq::<char>::empty() =~= m1);
    } else {
        extend_str(out, " hidden");
    }
    extend_str(out, "><p class=\"fine-print\">");
    push_escaped(out, t.key_access_restricted_intro);
    extend_str(out, "</p><label class=\"field\">");
    push_escaped(out, t.key_asset_search);
    extend_str(out, "<input type=\"search\" data-asset-filter oninput=\"");
    push_escaped(out, KEY_ASSET_FILTER_ONINPUT);
    extend_str(out, "\"></label><div class=\"asset-access-list\">");
    push_asset_items(out, t, assets, restricted, assigned_ids);
    extend_str(out, "</div></div></section>");
    assert(out@ =~= start + access_list_html(*t, assets_view(assets@), restricted, strings_view(assigned_ids@)));
}

/// Appends the asset access selector.
#[verifier::rlimit(100)]
fn push_access_selector(out: &mut Vec<char>, t: &L10n, assets: &[Asset], restricted: bool, assigned_ids: &[String])
    ensures
        final(out)@ == old(out)@ + access_selector_html(*t, assets_view(assets@), restricted, strings_view(assigned_ids@)),
{
    let ghost start = out@;
    let reached = if restricted { assigned_ids.len() } else { assets.len() };
    push_access_head(out, t, reached, assets.len());
    push_access_mode(out, t, restricted);
    push_access_list(out, t, assets, restricted, assigned_ids);
    assert(out@ =~= start + access_selector_html(*t, assets_view(assets@), restricted, strings_view(assigned_ids@)));
}


// ---------------------------------------------------------------------------
// The SSH identities page
// ---------------------------------------------------------------------------

/// An optional text slice as a text.
pub open spec fn opt_text(o: Option<&str>) -> Option<Seq<char>> {
    match o {
        Some(e) => Some(e@),
        None => None,
    }
}

/// The heading of a panel.
pub open spec fn panel_head_html(title: Seq<char>, intro: Seq<char>) -> Seq<char> {
    "<section class=\"panel\"><div class=\"panel-header\"><div><h2>"@ + esc(title) + "</h2><p>"@ + esc(intro)
        + "</p></div></div>"@
}

/// The error shown above a form, if any.
pub open spec fn form_error_html(error: Option<Seq<char>>, alert: bool) -> Seq<char> {
    match error {
        Some(e) => (if alert { "<p class=\"error-message\" role=\"alert\">"@ } else { "<p class=\"error-message\">"@ })
            + esc(e) + "</p>"@,
        None => Seq::empty(),
    }
}

/// The name and public key fields of the form that adds an identity.
pub open spec fn key_fields_html(t: L10n) -> Seq<char> {
    "<div class=\"grid\"><label class=\"field\">"@ + esc(t.field_name@)
        + "<input name=\"name\" required></label><label class=\"field field-wide\">"@ + esc(t.field_public_key@)
        + "<textarea name=\"public_key\" rows=\"4\" required></textarea></label></div>"@
}

/// The start of the panel that adds an identity: its heading, the CSRF
/// field, the error of a refused attempt and the fields.
pub open spec fn key_form_start_html(t: L10n, csrf: Seq<char>, error: Option<Seq<char>>) -> Seq<char> {
    panel_head_html(t.keys_add_heading@, t.keys_add_intro@) + "<form method=\"post\" action=\"/keys\">"@ + csrf_html(csrf)
        + form_error_html(error, true) + key_fields_html(t)
}

/// The end of the panel that adds an identity: its button and the script
/// of the access selector.
pub open spec fn key_form_end_html(t: L10n) -> Seq<char> {
    "<div class=\"button-row\"><button type=\"submit\">"@ + esc(t.save_key@) + "</button></div></form><script>"@
        + KEY_ACCESS_SCRIPT@ + "</script></section>"@
}

/// The panel that adds an identity: its fields, the access selector with
/// every asset reached, and the selector's script.
pub open spec fn key_add_html(t: L10n, assets: Seq<AssetView>, csrf: Seq<char>, error: Option<Seq<char>>) -> Seq<char> {
    key_form_start_html(t, csrf, error) + access_selector_html(t, assets, false, Seq::empty()) + key_form_end_html(t)
}

/// The header row of the identities table; the action column only for
/// those who manage access.
#[verifier::opaque]
pub open spec fn keys_table_head_html(t: L10n, can_manage: bool) -> Seq<char> {
    "<div class=\"table-wrap\"><table class=\"data-table\"><thead><tr><th>"@ + esc(t.field_name@) + "</th><th>"@
        + esc(t.field_fingerprint@) + "</th><th>"@ + esc(t.key_access_mode@) + "</th><th>"@ + esc(t.field_status@) + "</th>"@
        + (if can_manage { "<th>"@ + esc(t.field_action@) + "</th>"@ } else { Seq::empty() }) + "</tr></thead><tbody>"@
}

/// The row shown when no identity is registered.
#[verifier::opaque]
pub open spec fn keys_empty_html(t: L10n, can_manage: bool) -> Seq<char> {
    "<tr class=\"empty-row\"><td colspan=\""@ + (if can_manage { "5"@ } else { "4"@ }) + "\">"@ + esc(t.no_keys@)
        + "</td></tr>"@
}

/// The panel that lists the registered identities.
pub open spec fn keys_table_html(t: L10n, items: Seq<AuthorizedKey>, csrf: Seq<char>, can_manage: bool) -> Seq<char> {
    panel_head_html(t.keys_existing_heading@, t.keys_existing_intro@) + keys_table_head_html(t, can_manage)
        + (if items.len() == 0 { keys_empty_html(t, can_manage) } else { Seq::empty() })
        + key_rows_html(t, items, csrf, can_manage) + "</tbody></table></div></section>"@
}

/// The content of the SSH identities page: its heading, the panel that adds
/// an identity (only for those who manage access), and the table.
pub open spec fn keys_html(
    t: L10n,
    items: Seq<AuthorizedKey>,
    assets: Seq<AssetView>,
    csrf: Seq<char>,
    error: Option<Seq<char>>,
    can_manage: bool,
) -> Seq<char> {
    "<div class=\"page-intro\"><h2>"@ + esc(t.keys_heading@) + "</h2><p>"@ + esc(t.keys_intro@) + "</p></div>"@
        + (if can_manage { key_add_html(t, assets, csrf, error) } else { Seq::empty() })
        + keys_table_html(t, items, csrf, can_manage)
}

#[verifier::rlimit(100)]
pub(crate) fn push_panel_head(out: &mut Vec<char>, title: &str, intro: &str)
    ensures
        final(out)@ == old(out)@ + panel_head_html(title@, intro@),
{
    let ghost start = out@;
    extend_str(out, "<section class=\"panel\"><div class=\"panel-header\"><div><h2>");
    push_escaped(out, title);
    extend_str(out, "</h2><p>");
    push_escaped(out, intro);
    extend_str(out, "</p></div></div>");
    assert(out@ =~= start + panel_head_html(title@, intro@));
}

#[verifier::rlimit(100)]
pub(crate) fn push_form_error(out: &mut Vec<char>, error: Option<&str>, alert: bool)
    ensures
        final(out)@ == old(out)@ + form_error_html(opt_text(error), alert),
{
    let ghost start = out@;
    match error {
        Some(e) => {
            if alert {
                extend_str(out, "<p class=\"error-message\" role=\"alert\">");
            } else {
                extend_str(out, "<p class=\"error-message\">");
            }
            push_escaped(out, e);
            extend_str(out, "</p>");
        },
        None => {},
    }
    assert(out@ =~= start + form_error_html(opt_text(error), alert));
}

#[verifier::rlimit(100)]
fn push_key_form_start(out: &mut Vec<char>, t: &L10n, csrf: &str, error: Option<&str>)
    ensures
        final(out)@ == old(out)@ + key_form_start_html(*t, csrf@, opt_text(error)),
{
    let ghost start = out@;
    push_panel_head(out, t.keys_add_heading, t.keys_add_intro);
    extend_str(out, "<form method=\"post\" action=\"/keys\">");
    push_csrf_field(out, csrf);
    push_form_error(out, error, true);
    let ghost m1 = out@;
    extend_str(out, "<div class=\"grid\"><label class=\"field\">");
    push_escaped(out, t.field_name);
    extend_str(out, "<input name=\"name\" required></label><label class=\"field field-wide\">");
    push_escaped(out, t.field_public_key);
    extend_str(out, "<textarea name=\"public_key\" rows=\"4\" required></textarea></label></div>");
    assert(out@ =~= m1 + key_fields_html(*t));
    assert(out@ =~= start + key_form_start_html(*t, csrf@, opt_text(error)));
}

#[verifier::rlimit(100)]
fn push_key_add(out: &mut Vec<char>, t: &L10n, assets: &[Asset], csrf: &str, error: Option<&str>)
    ensures
        final(out)@ == old(out)@ + key_add_html(*t, assets_view(assets@), csrf@, opt_text(error)),
{
    let ghost start = out@;
    let ghost head = key_form_start_html(*t, csrf@, opt_text(error));
    let ghost sel = access_selector_html(*t, assets_view(assets@), false, Seq::empty());
    let ghost end = key_form_end_html(*t);
    push_key_form_start(out, t, csrf, error);
    let none: Vec<String> = Vec::new();
    assert(strings_view(none@) =~= Seq::<Seq<char>>::empty());
    push_access_selector(out, t, assets, false, none.as_slice());
    let ghost m2 = out@;
    extend_str(out, "<div class=\"button-row\"><button type=\"submit\">");
    push_escaped(out, t.save_key);
    extend_str(out, "</button></div></form><script>");
    extend_str(out, KEY_ACCESS_SCRIPT);
    extend_str(out, "</script></section>");
    assert(out@ =~= m2 + end);
    assert(out@ =~= start + (head + sel + end));
}

#[verifier::rlimit(100)]
fn push_keys_table_head(out: &mut Vec<char>, t: &L10n, can_manage: bool)
    ensures
        final(out)@ == old(out)@ + keys_table_head_html(*t, can_manage),
{
    proof {
        reveal(keys_table_head_html);
    }
    let ghost start = out@;
    extend_str(out, "<div class=\"table-wrap\"><table class=\"data-table\"><thead><tr><th>");
    push_escaped(out, t.field_name);
    extend_str(out, "</th><th>");
    push_escaped(out, t.field_fingerprint);
    extend_str(out, "</th><th>");
    push_escaped(out, t.key_access_mode);
    extend_str(out, "</th><th>");
    push_escaped(out, t.field_status);
    extend_str(out, "</th>");
    let ghost m = out@;
    if can_manage {
        extend_str(out, "<th>");
        push_escaped(out, t.field_action);
        extend_str(out, "</th>");
    } else {
        assert(m + Seq::<char>::empty() =~= m);
    }
    extend_str(out, "</tr></thead><tbody>");
    assert(out@ =~= start + keys_table_head_html(*t, can_manage));
}

#[verifier::rlimit(100)]
fn push_keys_table(out: &mut Vec<char>, t: &L10n, items: &[AuthorizedKey], csrf: &str, can_manage: bool)
    ensures
        final(out)@ == old(out)@ + keys_table_html(*t, items@, csrf@, can_manage),
{
    proof {
        reveal(keys_empty_html);
    }
    let ghost start = out@;
    push_panel_head(out, t.keys_existing_heading, t.keys_existing_intro);
    push_keys_table_head(out, t, can_manage);
    let ghost m = out@;
    if items.len() == 0 {
        extend_str(out, "<tr class=\"empty-row\"><td colspan=\"");
        if can_manage {
            extend_str(out, "5");
        } else {
            extend_str(out, "4");
        }
        extend_str(out, "\">");
        push_escaped(out, t.no_keys);
        extend_str(out, "</td></tr>");
        assert(out@ =~= m + keys_empty_html(*t, can_manage));
    } else {
        assert(m + Seq::<char>::empty() =~= m);
    }
    push_key_rows(out, t, items, csrf, can_manage);
    extend_str(out, "</tbody></table></div></section>");
    assert(out@ =~= start + keys_table_html(*t, items@, csrf@, can_manage));
}

/// The content of the SSH identities page, as the console layout frames it:
/// the registered identities, and for those who manage access the form that
/// adds one (with the error of a refused attempt) and each row's controls.
#[verifier::rlimit(100)]
fn keys_content(
    t: &L10n,
    items: &[AuthorizedKey],
    assets: &[Asset],
    csrf_token: &str,
    error: Option<&str>,
    can_manage: bool,
) -> (r: String)
    ensures
        r@ == keys_html(*t, items@, assets_view(assets@), csrf_token@, opt_text(error), can_manage),
{
    let mut out: Vec<char> = Vec::new();
    extend_str(&mut out, "<div class=\"page-intro\"><h2>");
    push_escaped(&mut out, t.keys_heading);
    extend_str(&mut out, "</h2><p>");
    push_escaped(&mut out, t.keys_intro);
    extend_str(&mut out, "</p></div>");
    let ghost m = out@;
    if can_manage {
        push_key_add(&mut out, t, assets, csrf_token, error);
    } else {
        assert(m + Seq::<char>::empty() =~= m);
    }
    push_keys_table(&mut out, t, items, csrf_token, can_manage);
    assert(out@ =~= keys_html(*t, items@, assets_view(assets@), csrf_token@, opt_text(error), can_manage));
    from_chars(&out)
}

/// The SSH access page: the content above in the console frame, under its title.
#[verifier::rlimit(100)]
pub fn keys(
    t: &L10n,
    items: &[AuthorizedKey],
    assets: &[Asset],
    csrf_token: &str,
    error: Option<&str>,
    can_manage: bool,
) -> (r: String)
    ensures
        r@ == layout_html(*t, t.keys_title@, "keys"@, keys_html(*t, items@, assets_view(assets@), csrf_token@, opt_text(error), can_manage)),
{
    let content = keys_content(t, items, assets, csrf_token, error, can_manage);
    layout(t.keys_title, "keys", t, content.as_str())
}


proof fn lemma_read_only_rows(t: L10n, items: Seq<AuthorizedKey>, csrf1: Seq<char>, csrf2: Seq<char>)
    ensures
        key_rows_html(t, items, csrf1, false) == key_rows_html(t, items, csrf2, false),
    decreases items.len(),
{
    if items.len() > 0 {
        lemma_read_only_rows(t, items.drop_last(), csrf1, csrf2);
    }
}

/// A read-only profile's SSH identities page depends on the identities
/// alone: the CSRF token that every form of the console carries, the assets
/// that the form adding an identity offers, and the error it shows, leave
/// it unchanged.
pub proof fn lemma_read_only_keys_page(
    t: L10n,
    items: Seq<AuthorizedKey>,
    assets1: Seq<AssetView>,
    assets2: Seq<AssetView>,
    csrf1: Seq<char>,
    csrf2: Seq<char>,
    error1: Option<Seq<char>>,
    error2: Option<Seq<char>>,
)
    ensures
        keys_html(t, items, assets1, csrf1, error1, false) == keys_html(t, items, assets2, csrf2, error2, false),
{
    lemma_read_only_rows(t, items, csrf1, csrf2);
}

// ---------------------------------------------------------------------------
// The page that edits an SSH identity
// ---------------------------------------------------------------------------

/// The heading of the edit page and the start of its form: the CSRF field,
/// the error of a refused change, and the fields filled with the identity.
pub open spec fn edit_key_start_html(t: L10n, k: AuthorizedKey, csrf: Seq<char>, error: Option<Seq<char>>) -> Seq<char> {
    "<div class=\"page-intro\"><h2>"@ + esc(k.name@) + "</h2><p>"@ + esc(t.edit_key_intro@) + "</p></div>"@
        + panel_head_html(t.key_details_heading@, t.key_details_intro@) + "<form method=\"post\" action=\""@
        + esc("/keys/"@ + k.id@) + "\">"@ + csrf_html(csrf) + form_error_html(error, false)
}

/// The fields of the edit form, filled with the identity's name and key.
pub open spec fn edit_key_fields_html(t: L10n, k: AuthorizedKey) -> Seq<char> {
    "<div class=\"grid\"><label class=\"field\">"@ + esc(t.field_name@) + "<input name=\"name\" value=\""@ + esc(k.name@)
        + "\" required></label><label class=\"field field-wide\">"@ + esc(t.field_public_key@)
        + "<textarea name=\"public_key\" rows=\"4\" required>"@ + esc(k.public_key@) + "</textarea></label></div>"@
}

/// The end of the edit page: its buttons, the selector's script, and the
/// form that deletes the identity.
pub open spec fn edit_key_end_html(t: L10n, k: AuthorizedKey, csrf: Seq<char>) -> Seq<char> {
    "<div class=\"button-row\"><button type=\"submit\">"@ + esc(t.save_changes@)
        + "</button><a class=\"ghost-button\" href=\"/keys\">"@ + esc(t.back_to_keys@) + "</a></div></form></section><script>"@
        + KEY_ACCESS_SCRIPT@ + "</script>"@ + panel_head_html(t.danger_zone@, t.delete_key_intro@)
        + "<form method=\"post\" action=\""@ + esc("/keys/"@ + k.id@ + "/delete"@) + "\">"@ + csrf_html(csrf)
        + "<button class=\"danger\" type=\"submit\">"@ + esc(t.delete_key@) + "</button></form></section>"@
}

/// The content of the page that edits an identity: its form, with the
/// access selector restricted as the identity is and the assigned assets
/// checked, and the form that deletes it.
pub open spec fn edit_key_html(
    t: L10n,
    k: AuthorizedKey,
    assets: Seq<AssetView>,
    assigned: Seq<Seq<char>>,
    csrf: Seq<char>,
    error: Option<Seq<char>>,
) -> Seq<char> {
    edit_key_start_html(t, k, csrf, error) + edit_key_fields_html(t, k)
        + access_selector_html(t, assets, k.asset_access_mode == AssetAccessMode::Restricted, assigned)
        + edit_key_end_html(t, k, csrf)
}

#[verifier::rlimit(100)]
fn push_edit_key_start(out: &mut Vec<char>, t: &L10n, k: &AuthorizedKey, csrf: &str, error: Option<&str>)
    ensures
        final(out)@ == old(out)@ + edit_key_start_html(*t, *k, csrf@, opt_text(error)),
{
    let ghost start = out@;
    extend_str(out, "<div class=\"page-intro\"><h2>");
    push_escaped(out, k.name.as_str());
    extend_str(out, "</h2><p>");
    push_escaped(out, t.edit_key_intro);
    extend_str(out, "</p></div>");
    push_panel_head(out, t.key_details_heading, t.key_details_intro);
    extend_str(out, "<form method=\"post\" action=\"");
    push_path(out, "/keys/", k.id.as_str(), "");
    proof {
        reveal_strlit("");
    }
    assert(("/keys/"@ + k.id@ + ""@) =~= ("/keys/"@ + k.id@));
    extend_str(out, "\">");
    push_csrf_field(out, csrf);
    push_form_error(out, error, false);
    assert(out@ =~= start + edit_key_start_html(*t, *k, csrf@, opt_text(error)));
}

#[verifier::rlimit(100)]
fn push_edit_key_fields(out: &mut Vec<char>, t: &L10n, k: &AuthorizedKey)
    ensures
        final(out)@ == old(out)@ + edit_key_fields_html(*t, *k),
{
    let ghost start = out@;
    extend_str(out, "<div class=\"grid\"><label class=\"field\">");
    push_escaped(out, t.field_name);
    extend_str(out, "<input name=\"name\" value=\"");
    push_escaped(out, k.name.as_str());
    extend_str(out, "\" required></label><label class=\"field field-wide\">");
    push_escaped(out, t.field_public_key);
    extend_str(out, "<textarea name=\"public_key\" rows=\"4\" required>");
    push_escaped(out, k.public_key.as_str());
    extend_str(out, "</textarea></label></div>");
    assert(out@ =~= start + edit_key_fields_html(*t, *k));
}

#[verifier::rlimit(100)]
fn push_edit_key_end(out: &mut Vec<char>, t: &L10n, k: &AuthorizedKey, csrf: &str)
    ensures
        final(out)@ == old(out)@ + edit_key_end_html(*t, *k, csrf@),
{
    let ghost start = out@;
    extend_str(out, "<div class=\"button-row\"><button type=\"submit\">");
    push_escaped(out, t.save_changes);
    extend_str(out, "</button><a class=\"ghost-button\" href=\"/keys\">");
    push_escaped(out, t.back_to_keys);
    extend_str(out, "</a></div></form></section><script>");
    extend_str(out, KEY_ACCESS_SCRIPT);
    extend_str(out, "</script>");
    let ghost m = out@;
    push_panel_head(out, t.danger_zone, t.delete_key_intro);
    extend_str(out, "<form method=\"post\" action=\"");
    push_path(out, "/keys/", k.id.as_str(), "/delete");
    extend_str(out, "\">");
    push_csrf_field(out, csrf);
    extend_str(out, "<button class=\"danger\" type=\"submit\">");
    push_escaped(out, t.delete_key);
    extend_str(out, "</button></form></section>");
    assert(out@ =~= start + edit_key_end_html(*t, *k, csrf@));
}

/// The content of the page that edits an SSH identity, as the console
/// layout frames it: the form filled with the identity (with the error of a
/// refused change), its asset access selector with `assigned_ids` checked,
/// and the form that deletes it.
#[verifier::rlimit(100)]
fn edit_key_content(
    t: &L10n,
    key: &AuthorizedKey,
    assets: &[Asset],
    assigned_ids: &[String],
    csrf_token: &str,
    error: Option<&str>,
) -> (r: String)
    ensures
        r@ == edit_key_html(*t, *key, assets_view(assets@), strings_view(assigned_ids@), csrf_token@, opt_text(error)),
{
    let restricted = match key.asset_access_mode {
        AssetAccessMode::Restricted => true,
        AssetAccessMode::All => false,
    };
    let ghost a = edit_key_start_html(*t, *key, csrf_token@, opt_text(error));
    let ghost b = edit_key_fields_html(*t, *key);
    let ghost c = access_selector_html(*t, assets_view(assets@), restricted, strings_view(assigned_ids@));
    let ghost d = edit_key_end_html(*t, *key, csrf_token@);
    let mut out: Vec<char> = Vec::new();
    push_edit_key_start(&mut out, t, key, csrf_token, error);
    push_edit_key_fields(&mut out, t, key);
    push_access_selector(&mut out, t, assets, restricted, assigned_ids);
    push_edit_key_end(&mut out, t, key, csrf_token);
    assert(out@ =~= a + b + c + d);
    from_chars(&out)
}

/// The page that edits one SSH identity: the content above in the console frame, under its title.
#[verifier::rlimit(100)]
pub fn edit_key(
    t: &L10n,
    key: &AuthorizedKey,
    assets: &[Asset],
    assigned_ids: &[String],
    csrf_token: &str,
    error: Option<&str>,
) -> (r: String)
    ensures
        r@ == layout_html(*t, t.edit_key_title@, "keys"@, edit_key_html(*t, *key, assets_view(assets@), strings_view(assigned_ids@), csrf_token@, opt_text(error))),
{
    let content = edit_key_content(t, key, assets, assigned_ids, csrf_token, error);
    layout(t.edit_key_title, "keys", t, content.as_str())
}

} // verus!
