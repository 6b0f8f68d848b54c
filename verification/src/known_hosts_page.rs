//! The markup of the trusted host keys page.
use crate::layout::{layout, layout_html};
use vstd::prelude::*;

use crate::asset_search::assets_view;
use crate::console_pages::{csrf_html, esc, join_strings, push_csrf_field, push_escaped, push_escaped_chars};
use crate::i18n::L10n;
use crate::model::{strings_view, Asset, AssetView, KnownHost};
use crate::page_scripts::KNOWN_HOST_SCRIPT;
use crate::pages::{at_host, known_host_assets, names_where};
use crate::text::{dec, dec_int, extend_str, from_chars, push_dec, push_dec_i64};
use crate::tui_view::join_text;

verus! {

/// The names of the assets that reach a host at its port.
pub open spec fn host_asset_names(assets: Seq<AssetView>, h: KnownHost) -> Seq<Seq<char>> {
    names_where(assets, at_host(h.hostname@, h.port))
}

/// The host cell: the host name with its port.
#[verifier::opaque]
pub open spec fn host_cell_html(h: KnownHost) -> Seq<char> {
    "<tr><td><div class=\"primary-cell\">"@ + esc(h.hostname@) + "<span class=\"subtle mono\">:"@ + dec_int(h.port as int)
        + "</span></div></td><td><span class=\"status-pill neutral\">"@ + esc(h.key_type@) + "</span></td>"@
}

/// The fingerprint cell, with the button that copies it.
#[verifier::opaque]
pub open spec fn fingerprint_cell_html(t: L10n, h: KnownHost) -> Seq<char> {
    "<td><div class=\"fingerprint-copy-group\"><code class=\"fingerprint-value\">"@ + esc(h.fingerprint@)
        + "</code><button class=\"target-copy-button ghost-button\" type=\"button\" data-copy-value=\""@ + esc(h.fingerprint@)
        + "\" data-copy-default=\""@ + esc(t.known_host_copy_fingerprint@) + "\" data-copy-success=\""@
        + esc(t.asset_copy_success@) + "\" data-copy-failed=\""@ + esc(t.asset_copy_failed@) + "\" aria-label=\""@
        + esc(t.known_host_copy_fingerprint@ + ": "@ + h.fingerprint@)
        + "\" aria-live=\"polite\" onclick=\"window.copyKnownHostFingerprint(this)\">"@ + esc(t.known_host_copy_fingerprint@)
        + "</button></div></td>"@
}

/// When the key was first seen, or `-`.
pub open spec fn first_seen_text(h: KnownHost) -> Seq<char> {
    match h.first_seen {
        Some(s) => s@,
        None => "-"@,
    }
}

/// The trust cell and the cell of the assets that use the host: how many,
/// and their names joined by commas, or that none does.
#[verifier::opaque]
pub open spec fn usage_cells_html(t: L10n, names: Seq<Seq<char>>, first_seen: Seq<char>) -> Seq<char> {
    "<td><div class=\"primary-cell\"><span class=\"status-pill\">"@ + esc(t.known_hosts_trusted@)
        + "</span><span class=\"subtle\">"@ + esc(first_seen) + "</span></div></td>"@ + (if names.len() == 0 {
        "<td><span class=\"status-pill neutral\">"@ + esc(t.known_hosts_unused@) + "</span></td>"@
    } else {
        "<td><div class=\"primary-cell\"><span class=\"status-pill\">"@ + dec(names.len()) + " "@
            + esc(t.known_hosts_assets_suffix@) + "</span><span class=\"subtle\">"@ + esc(join_text(names, ", "@))
            + "</span></div></td>"@
    })
}

/// The button that opens the dialog resetting the trust in a host key.
#[verifier::opaque]
pub open spec fn reset_button_html(t: L10n, h: KnownHost) -> Seq<char> {
    "<td><button id=\""@ + esc("reset-known-host-"@ + h.hostname@ + "-"@ + dec_int(h.port as int) + "-"@ + h.key_type@)
        + "\" class=\"danger\" type=\"button\" aria-haspopup=\"dialog\" aria-controls=\"reset-known-host-dialog\" data-hostname=\""@
        + esc(h.hostname@) + "\" data-port=\""@ + dec_int(h.port as int) + "\" data-key-type=\""@ + esc(h.key_type@)
        + "\" data-fingerprint=\""@ + esc(h.fingerprint@) + "\" onclick=\"window.openKnownHostReset(this)\">"@
        + esc(t.known_host_reset_action@) + "</button></td>"@
}

/// A row of the host keys table; the reset button only for those who
/// manage access.
pub open spec fn host_row_html(t: L10n, h: KnownHost, assets: Seq<AssetView>, can_manage: bool) -> Seq<char> {
    host_cell_html(h) + fingerprint_cell_html(t, h) + usage_cells_html(t, host_asset_names(assets, h), first_seen_text(h))
        + (if can_manage { reset_button_html(t, h) } else { Seq::empty() }) + "</tr>"@
}

/// The rows of the host keys table, in order.
pub open spec fn host_rows_html(t: L10n, items: Seq<KnownHost>, assets: Seq<AssetView>, can_manage: bool) -> Seq<char>
    decreases items.len(),
{
    if items.len() == 0 {
        Seq::empty()
    } else {
        host_rows_html(t, items.drop_last(), assets, can_manage) + host_row_html(t, items.last(), assets, can_manage)
    }
}

#[verifier::rlimit(100)]
fn push_host_cell(out: &mut Vec<char>, h: &KnownHost)
    ensures
        final(out)@ == old(out)@ + host_cell_html(*h),
{
    proof {
        reveal(host_cell_html);
    }
    let ghost start = out@;
    extend_str(out, "<tr><td><div class=\"primary-cell\">");
    push_escaped(out, h.hostname.as_str());
    extend_str(out, "<span class=\"subtle mono\">:");
    push_dec_i64(out, h.port);
    extend_str(out, "</span></div></td><td><span class=\"status-pill neutral\">");
    push_escaped(out, h.key_type.as_str());
    extend_str(out, "</span></td>");
    assert(out@ =~= start + host_cell_html(*h));
}

#[verifier::rlimit(100)]
fn push_fingerprint_cell(out: &mut Vec<char>, t: &L10n, h: &KnownHost)
    ensures
        final(out)@ == old(out)@ + fingerprint_cell_html(*t, *h),
{
    proof {
        reveal(fingerprint_cell_html);
    }
    let ghost start = out@;
    extend_str(out, "<td><div class=\"fingerprint-copy-group\"><code class=\"fingerprint-value\">");
    push_escaped(out, h.fingerprint.as_str());
    extend_str(out, "</code><button class=\"target-copy-button ghost-button\" type=\"button\" data-copy-value=\"");
    push_escaped(out, h.fingerprint.as_str());
    extend_str(out, "\" data-copy-default=\"");
    push_escaped(out, t.known_host_copy_fingerprint);
    extend_str(out, "\" data-copy-success=\"");
    push_escaped(out, t.asset_copy_success);
    extend_str(out, "\" data-copy-failed=\"");
    push_escaped(out, t.asset_copy_failed);
    extend_str(out, "\" aria-label=\"");
    let ghost m = out@;
    let mut label: Vec<char> = Vec::new();
    extend_str(&mut label, t.known_host_copy_fingerprint);
    extend_str(&mut label, ": ");
    extend_str(&mut label, h.fingerprint.as_str());
    push_escaped_chars(out, &label);
    assert(label@ =~= t.known_host_copy_fingerprint@ + ": "@ + h.fingerprint@);
    extend_str(out, "\" aria-live=\"polite\" onclick=\"window.copyKnownHostFingerprint(this)\">");
    push_escaped(out, t.known_host_copy_fingerprint);
    extend_str(out, "</button></div></td>");
    assert(out@ =~= start + fingerprint_cell_html(*t, *h));
}

#[verifier::rlimit(100)]
fn push_usage_cells(out: &mut Vec<char>, t: &L10n, names: &Vec<String>, first_seen: &str)
    ensures
        final(out)@ == old(out)@ + usage_cells_html(*t, strings_view(names@), first_seen@),
{
    proof {
        reveal(usage_cells_html);
    }
    let ghost start = out@;
    extend_str(out, "<td><div class=\"primary-cell\"><span class=\"status-pill\">");
    push_escaped(out, t.known_hosts_trusted);
    extend_str(out, "</span><span class=\"subtle\">");
    push_escaped(out, first_seen);
    extend_str(out, "</span></div></td>");
    let ghost m = out@;
    if names.len() == 0 {
        extend_str(out, "<td><span class=\"status-pill neutral\">");
        push_escaped(out, t.known_hosts_unused);
        extend_str(out, "</span></td>");
    } else {
        extend_str(out, "<td><div class=\"primary-cell\"><span class=\"status-pill\">");
        push_dec(out, names.len() as u64);
        extend_str(out, " ");
        push_escaped(out, t.known_hosts_assets_suffix);
        extend_str(out, "</span><span class=\"subtle\">");
        let joined = join_strings(names, ", ");
        push_escaped_chars(out, &joined);
        extend_str(out, "</span></div></td>");
    }
    assert(out@ =~= start + usage_cells_html(*t, strings_view(names@), first_seen@));
}

#[verifier::rlimit(100)]
fn push_reset_button(out: &mut Vec<char>, t: &L10n, h: &KnownHost)
    ensures
        final(out)@ == old(out)@ + reset_button_html(*t, *h),
{
    proof {
        reveal(reset_button_html);
    }
    let ghost start = out@;
    extend_str(out, "<td><button id=\"");
    let mut id: Vec<char> = Vec::new();
    extend_str(&mut id, "reset-known-host-");
    extend_str(&mut id, h.hostname.as_str());
    extend_str(&mut id, "-");
    push_dec_i64(&mut id, h.port);
    extend_str(&mut id, "-");
    extend_str(&mut id, h.key_type.as_str());
    assert(id@ =~= "reset-known-host-"@ + h.hostname@ + "-"@ + dec_int(h.port as int) + "-"@ + h.key_type@);
    push_escaped_chars(out, &id);
    extend_str(out, "\" class=\"danger\" type=\"button\" aria-haspopup=\"dialog\" aria-controls=\"reset-known-host-dialog\" data-hostname=\"");
    push_escaped(out, h.hostname.as_str());
    extend_str(out, "\" data-port=\"");
    push_dec_i64(out, h.port);
    extend_str(out, "\" data-key-type=\"");
    push_escaped(out, h.key_type.as_str());
    extend_str(out, "\" data-fingerprint=\"");
    push_escaped(out, h.fingerprint.as_str());
    extend_str(out, "\" onclick=\"window.openKnownHostReset(this)\">");
    push_escaped(out, t.known_host_reset_action);
    extend_str(out, "</button></td>");
    assert(out@ =~= start + reset_button_html(*t, *h));
}

#[verifier::rlimit(100)]
fn push_host_row(out: &mut Vec<char>, t: &L10n, h: &KnownHost, assets: &[Asset], can_manage: bool)
    ensures
        final(out)@ == old(out)@ + host_row_html(*t, *h, assets_view(assets@), can_manage),
{
    let ghost start = out@;
    let ghost a = host_cell_html(*h);
    let ghost b = fingerprint_cell_html(*t, *h);
    let ghost c = usage_cells_html(*t, host_asset_names(assets_view(assets@), *h), first_seen_text(*h));
    push_host_cell(out, h);
    push_fingerprint_cell(out, t, h);
    let used = known_host_assets(assets, h);
    let first_seen: &str = match &h.first_seen {
        Some(s) => s.as_str(),
        None => "-",
    };
    push_usage_cells(out, t, &used, first_seen);
    let ghost m = out@;
    if can_manage {
        push_reset_button(out, t, h);
    } else {
        assert(m + Seq::<char>::empty() =~= m);
    }
    let ghost d = if can_manage { reset_button_html(*t, *h) } else { Seq::<char>::empty() };
    extend_str(out, "</tr>");
    assert(out@ =~= start + (a + b + c + d + "</tr>"@));
}

#[verifier::rlimit(100)]
fn push_host_rows(out: &mut Vec<char>, t: &L10n, items: &[KnownHost], assets: &[Asset], can_manage: bool)
    ensures
        final(out)@ == old(out)@ + host_rows_html(*t, items@, assets_view(assets@), can_manage),
{
    let ghost start = out@;
    let ghost av = assets_view(assets@);
    let mut i: usize = 0;
    assert(items@.take(0) =~= Seq::<KnownHost>::empty());
    assert(start + Seq::<char>::empty() =~= start);
    while i < items.len()
        invariant
            i <= items.len(),
            av == assets_view(assets@),
            out@ == start + host_rows_html(*t, items@.take(i as int), av, can_manage),
        decreases items.len() - i,
    {
        push_host_row(out, t, &items[i], assets, can_manage);
        assert(items@.take(i + 1).drop_last() =~= items@.take(i as int));
        assert(items@.take(i + 1).last() == items@[i as int]);
        assert(out@ =~= start + host_rows_html(*t, items@.take(i + 1), av, can_manage));
        i += 1;
    }
    assert(items@.take(items.len() as int) =~= items@);
}


/// The head of the page: how many host keys are trusted, and what a reset
/// means.
pub open spec fn hosts_intro_html(t: L10n, count: nat) -> Seq<char> {
    "<div class=\"known-hosts-page\"><div class=\"console-hero\"><div><p>"@ + esc(t.known_hosts_intro@)
        + "</p></div><div class=\"console-actions\"><span class=\"status-chip good\"><span class=\"status-dot good\"></span>"@
        + dec(count) + " "@ + esc(t.known_hosts_trusted@)
        + "</span></div></div><section class=\"panel trust-reset-note\"><div><strong>"@ + esc(t.known_hosts_trusted@)
        + "</strong><p>"@ + esc(t.known_hosts_panel_intro@) + "</p></div><p class=\"fine-print\">"@
        + esc(t.known_hosts_reset_note@) + "</p></section>"@
}

/// The heading and header row of the host keys table; the action column
/// only for those who manage access.
#[verifier::opaque]
pub open spec fn hosts_table_head_html(t: L10n, can_manage: bool) -> Seq<char> {
    "<section class=\"panel known-hosts-inventory\"><div class=\"panel-header\"><div><h2>"@
        + esc(t.known_hosts_panel_heading@) + "</h2><p>"@ + esc(t.known_hosts_panel_intro@)
        + "</p></div></div><div class=\"table-wrap\"><table class=\"data-table\"><thead><tr><th>"@ + esc(t.host_column@)
        + "</th><th>"@ + esc(t.key_type_column@) + "</th><th>"@ + esc(t.field_fingerprint@) + "</th><th>"@
        + esc(t.first_seen_column@) + "</th><th>"@ + esc(t.known_hosts_asset_usage@) + "</th>"@
        + (if can_manage { "<th>"@ + esc(t.field_action@) + "</th>"@ } else { Seq::empty() }) + "</tr></thead><tbody>"@
}

/// The host keys table.
pub open spec fn hosts_table_html(t: L10n, items: Seq<KnownHost>, assets: Seq<AssetView>, can_manage: bool) -> Seq<char> {
    hosts_table_head_html(t, can_manage) + (if items.len() == 0 {
        "<tr class=\"empty-row\"><td colspan=\""@ + (if can_manage { "6"@ } else { "5"@ }) + "\">"@ + esc(t.no_known_hosts@)
            + "</td></tr>"@
    } else {
        Seq::empty()
    }) + host_rows_html(t, items, assets, can_manage) + "</tbody></table></div></section>"@
}

/// The head of the dialog that resets the trust in a host key.
pub open spec fn reset_dialog_head_html(t: L10n) -> Seq<char> {
    "<dialog class=\"confirm-dialog\" id=\"reset-known-host-dialog\" aria-labelledby=\"reset-known-host-title\" onclick=\"if(event.target===this)this.close()\" onkeydown=\"if(event.key==='Escape'){event.preventDefault();this.close()}\" onclose=\"const target=document.getElementById(this.dataset.returnFocusId);if(target)target.focus()\"><div class=\"confirm-dialog-card\"><div class=\"confirm-dialog-header\"><div><p class=\"eyebrow\">"@
        + esc(t.known_host_reset_action@) + "</p><h2 id=\"reset-known-host-title\">"@ + esc(t.known_host_reset_heading@)
        + "</h2></div><button class=\"drawer-close ghost-button\" type=\"button\" aria-label=\""@ + esc(t.close@)
        + "\" onclick=\"this.closest('dialog').close()\">×</button></div><p>"@ + esc(t.known_host_reset_intro@)
        + "</p><div class=\"trust-reset-target\"><strong data-reset-host></strong><code data-reset-fingerprint></code></div><p class=\"warning-message\">"@
        + esc(t.known_host_reset_warning@) + "</p>"@
}

/// The form of the reset dialog: the CSRF field, the confirmation the
/// submit button waits for, and the buttons.
pub open spec fn reset_form_html(t: L10n, csrf: Seq<char>) -> Seq<char> {
    "<form method=\"post\" action=\"/known-hosts\" data-known-host-reset-form>"@ + csrf_html(csrf)
        + "<input type=\"hidden\" name=\"key_type\"><label class=\"confirm-check\"><input type=\"checkbox\" name=\"confirm_reset\" value=\"yes\" onchange=\"this.form.querySelector('[data-reset-submit]').disabled=!this.checked\"><span>"@
        + esc(t.known_host_reset_confirm@)
        + "</span></label><div class=\"button-row\"><button class=\"danger\" type=\"submit\" data-reset-submit disabled>"@
        + esc(t.known_host_reset_submit@)
        + "</button><button class=\"ghost-button\" type=\"button\" onclick=\"this.closest('dialog').close()\">"@
        + esc(t.close@) + "</button></div></form></div></dialog>"@
}

/// The content of the trusted host keys page: the trusted keys with the
/// assets that use each, the reset buttons for those who manage access, the
/// reset dialog and its script.
pub open spec fn known_hosts_html(
    t: L10n,
    items: Seq<KnownHost>,
    assets: Seq<AssetView>,
    csrf: Seq<char>,
    can_manage: bool,
) -> Seq<char> {
    hosts_intro_html(t, items.len()) + hosts_table_html(t, items, assets, can_manage) + reset_dialog_head_html(t)
        + reset_form_html(t, csrf) + "<script>"@ + KNOWN_HOST_SCRIPT@ + "</script></div>"@
}

#[verifier::rlimit(100)]
fn push_hosts_intro(out: &mut Vec<char>, t: &L10n, count: usize)
    ensures
        final(out)@ == old(out)@ + hosts_intro_html(*t, count as nat),
{
    let ghost start = out@;
    extend_str(out, "<div class=\"known-hosts-page\"><div class=\"console-hero\"><div><p>");
    push_escaped(out, t.known_hosts_intro);
    extend_str(out, "</p></div><div class=\"console-actions\"><span class=\"status-chip good\"><span class=\"status-dot good\"></span>");
    push_dec(out, count as u64);
    extend_str(out, " ");
    push_escaped(out, t.known_hosts_trusted);
    extend_str(out, "</span></div></div><section class=\"panel trust-reset-note\"><div><strong>");
    push_escaped(out, t.known_hosts_trusted);
    extend_str(out, "</strong><p>");
    push_escaped(out, t.known_hosts_panel_intro);
    extend_str(out, "</p></div><p class=\"fine-print\">");
    push_escaped(out, t.known_hosts_reset_note);
    extend_str(out, "</p></section>");
    assert(out@ =~= start + hosts_intro_html(*t, count as nat));
}

#[verifier::rlimit(100)]
fn push_hosts_table_head(out: &mut Vec<char>, t: &L10n, can_manage: bool)
    ensures
        final(out)@ == old(out)@ + hosts_table_head_html(*t, can_manage),
{
    proof {
        reveal(hosts_table_head_html);
    }
    let ghost start = out@;
    extend_str(out, "<section class=\"panel known-hosts-inventory\"><div class=\"panel-header\"><div><h2>");
    push_escaped(out, t.known_hosts_panel_heading);
    extend_str(out, "</h2><p>");
    push_escaped(out, t.known_hosts_panel_intro);
    extend_str(out, "</p></div></div><div class=\"table-wrap\"><table class=\"data-table\"><thead><tr><th>");
    push_escaped(out, t.host_column);
    extend_str(out, "</th><th>");
    push_escaped(out, t.key_type_column);
    extend_str(out, "</th><th>");
    push_escaped(out, t.field_fingerprint);
    extend_str(out, "</th><th>");
    push_escaped(out, t.first_seen_column);
    extend_str(out, "</th><th>");
    push_escaped(out, t.known_hosts_asset_usage);
    extend_str(out, "</th>");
    let ghost m = out@;
    assert(m =~= start + ("<section class=\"panel known-hosts-inventory\"><div class=\"panel-header\"><div><h2>"@
        + esc(t.known_hosts_panel_heading@) + "</h2><p>"@ + esc(t.known_hosts_panel_intro@)
        + "</p></div></div><div class=\"table-wrap\"><table class=\"data-table\"><thead><tr><th>"@ + esc(t.host_column@)
        + "</th><th>"@ + esc(t.key_type_column@) + "</th><th>"@ + esc(t.field_fingerprint@) + "</th><th>"@
        + esc(t.first_seen_column@) + "</th><th>"@ + esc(t.known_hosts_asset_usage@) + "</th>"@));
    if can_manage {
        extend_str(out, "<th>");
        push_escaped(out, t.field_action);
        extend_str(out, "</th>");
    } else {
        assert(m + Seq::<char>::empty() =~= m);
    }
    extend_str(out, "</tr></thead><tbody>");
    assert(out@ =~= start + hosts_table_head_html(*t, can_manage));
}

#[verifier::rlimit(100)]
fn push_hosts_table(out: &mut Vec<char>, t: &L10n, items: &[KnownHost], assets: &[Asset], can_manage: bool)
    ensures
        final(out)@ == old(out)@ + hosts_table_html(*t, items@, assets_view(assets@), can_manage),
{
    let ghost start = out@;
    push_hosts_table_head(out, t, can_manage);
    let ghost m = out@;
    if items.len() == 0 {
        extend_str(out, "<tr class=\"empty-row\"><td colspan=\"");
        if can_manage {
            extend_str(out, "6");
        } else {
            extend_str(out, "5");
        }
        extend_str(out, "\">");
        push_escaped(out, t.no_known_hosts);
        extend_str(out, "</td></tr>");
    } else {
        assert(m + Seq::<char>::empty() =~= m);
    }
    let ghost m2 = out@;
    push_host_rows(out, t, items, assets, can_manage);
    extend_str(out, "</tbody></table></div></section>");
    assert(out@ =~= start + hosts_table_html(*t, items@, assets_view(assets@), can_manage));
}

#[verifier::rlimit(100)]
fn push_reset_dialog_head(out: &mut Vec<char>, t: &L10n)
    ensures
        final(out)@ == old(out)@ + reset_dialog_head_html(*t),
{
    let ghost start = out@;
    extend_str(out, "<dialog class=\"confirm-dialog\" id=\"reset-known-host-dialog\" aria-labelledby=\"reset-known-host-title\" onclick=\"if(event.target===this)this.close()\" onkeydown=\"if(event.key==='Escape'){event.preventDefault();this.close()}\" onclose=\"const target=document.getElementById(this.dataset.returnFocusId);if(target)target.focus()\"><div class=\"confirm-dialog-card\"><div class=\"confirm-dialog-header\"><div><p class=\"eyebrow\">");
    push_escaped(out, t.known_host_reset_action);
    extend_str(out, "</p><h2 id=\"reset-known-host-title\">");
    push_escaped(out, t.known_host_reset_heading);
    extend_str(out, "</h2></div><button class=\"drawer-close ghost-button\" type=\"button\" aria-label=\"");
    push_escaped(out, t.close);
    extend_str(out, "\" onclick=\"this.closest('dialog').close()\">×</button></div><p>");
    push_escaped(out, t.known_host_reset_intro);
    extend_str(out, "</p><div class=\"trust-reset-target\"><strong data-reset-host></strong><code data-reset-fingerprint></code></div><p class=\"warning-message\">");
    push_escaped(out, t.known_host_reset_warning);
    extend_str(out, "</p>");
    assert(out@ =~= start + reset_dialog_head_html(*t));
}

#[verifier::rlimit(100)]
fn push_reset_form(out: &mut Vec<char>, t: &L10n, csrf: &str)
    ensures
        final(out)@ == old(out)@ + reset_form_html(*t, csrf@),
{
    let ghost start = out@;
    extend_str(out, "<form method=\"post\" action=\"/known-hosts\" data-known-host-reset-form>");
    push_csrf_field(out, csrf);
    extend_str(out, "<input type=\"hidden\" name=\"key_type\"><label class=\"confirm-check\"><input type=\"checkbox\" name=\"confirm_reset\" value=\"yes\" onchange=\"this.form.querySelector('[data-reset-submit]').disabled=!this.checked\"><span>");
    push_escaped(out, t.known_host_reset_confirm);
    extend_str(out, "</span></label><div class=\"button-row\"><button class=\"danger\" type=\"submit\" data-reset-submit disabled>");
    push_escaped(out, t.known_host_reset_submit);
    extend_str(out, "</button><button class=\"ghost-button\" type=\"button\" onclick=\"this.closest('dialog').close()\">");
    push_escaped(out, t.close);
    extend_str(out, "</button></div></form></div></dialog>");
    assert(out@ =~= start + reset_form_html(*t, csrf@));
}

/// The content of the trusted host keys page, as the console layout frames
/// it: each trusted key with the assets that use its host and port, the
/// reset buttons only for those who manage access, and the reset dialog.
#[verifier::rlimit(100)]
fn known_hosts_content(t: &L10n, items: &[KnownHost], assets: &[Asset], csrf_token: &str, can_manage: bool) -> (r: String)
    ensures
        r@ == known_hosts_html(*t, items@, assets_view(assets@), csrf_token@, can_manage),
{
    let ghost a = hosts_intro_html(*t, items@.len());
    let ghost b = hosts_table_html(*t, items@, assets_view(assets@), can_manage);
    let ghost c = reset_dialog_head_html(*t);
    let ghost d = reset_form_html(*t, csrf_token@);
    let mut out: Vec<char> = Vec::new();
    push_hosts_intro(&mut out, t, items.len());
    push_hosts_table(&mut out, t, items, assets, can_manage);
    push_reset_dialog_head(&mut out, t);
    push_reset_form(&mut out, t, csrf_token);
    let ghost m = out@;
    extend_str(&mut out, "<script>");
    extend_str(&mut out, KNOWN_HOST_SCRIPT);
    extend_str(&mut out, "</script></div>");
    assert(out@ =~= a + b + c + d + ("<script>"@ + KNOWN_HOST_SCRIPT@ + "</script></div>"@));
    from_chars(&out)
}

/// The known hosts page: the content above in the console frame, under its title.
#[verifier::rlimit(100)]
pub fn known_hosts(t: &L10n, items: &[KnownHost], assets: &[Asset], csrf_token: &str, can_manage: bool) -> (r: String)
    ensures
        r@ == layout_html(*t, t.known_hosts_title@, "known-hosts"@, known_hosts_html(*t, items@, assets_view(assets@), csrf_token@, can_manage)),
{
    let content = known_hosts_content(t, items, assets, csrf_token, can_manage);
    layout(t.known_hosts_title, "known-hosts", t, content.as_str())
}

} // verus!
