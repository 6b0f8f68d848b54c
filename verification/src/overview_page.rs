//! The markup of the overview page.
use crate::layout::{layout, layout_html};
use vstd::prelude::*;

use crate::console_pages::{esc, join_strings, push_escaped, push_escaped_chars};
use crate::i18n::L10n;
use crate::model::{opt_view, strings_view, AuditEvent, Session};
use crate::pages::{metrics_of, session_duration_label, session_duration_text, uptime_label, uptime_text, DashboardData, GatewayHealth, OverviewMetrics};
use crate::sessions_page::{or_dash, target_address};
use crate::text::{dec, dec_int, extend_str, from_chars, push_dec, push_dec_i64, str_eq};
use crate::tui_view::join_text;

verus! {

/// The figures of the overview for its data.
pub open spec fn data_metrics(d: DashboardData) -> OverviewMetrics {
    metrics_of(
        d.assets@,
        d.keys@,
        d.known_hosts@,
        d.asset_health@,
        d.source_errors@.len(),
        GatewayHealth {
            admin_reachable: d.gateway.admin_reachable,
            ssh_reachable: d.gateway.ssh_reachable,
            database_healthy: d.gateway.database_healthy,
        },
    )
}

// ---------------------------------------------------------------------------
// The head and the figures
// ---------------------------------------------------------------------------

/// The heading, and whether the gateway is operational.
#[verifier::opaque]
pub open spec fn overview_hero_html(t: L10n, operational: bool) -> Seq<char> {
    "<div class=\"dashboard-page\"><div class=\"console-hero\"><div><h2>"@ + esc(t.overview_heading@) + "</h2><p>"@
        + esc(t.overview_intro@) + "</p></div><div class=\"console-actions\">"@ + (if operational {
        "<span class=\"status-chip good\"><span class=\"status-dot good\"></span>"@ + esc(t.overview_status_operational@)
            + "</span>"@
    } else {
        "<span class=\"status-chip warn\"><span class=\"status-dot warn\"></span>"@ + esc(t.overview_status_attention@)
            + "</span>"@
    }) + "<a class=\"button\" href=\"/assets\">"@ + esc(t.assets_add_heading@) + "</a></div></div>"@
}

/// A figure: its label, value and note.
pub open spec fn metric_html(label: Seq<char>, value: Seq<char>, note: Seq<char>) -> Seq<char> {
    "<div class=\"metric\"><span class=\"metric-label\">"@ + esc(label) + "</span><strong class=\"metric-value\">"@ + value
        + "</strong><span class=\"metric-note\">"@ + note + "</span></div>"@
}

/// How the assets' probes went.
pub open spec fn health_note(t: L10n, m: OverviewMetrics) -> Seq<char> {
    dec(m.healthy_assets as nat) + " "@ + esc(t.overview_health_healthy@) + " · "@ + dec(m.failed_assets as nat) + " "@
        + esc(t.overview_health_failed@) + " · "@ + dec(m.unknown_assets as nat) + " "@ + esc(t.overview_health_unknown@)
}

/// The four figures.
#[verifier::opaque]
pub open spec fn metric_grid_html(t: L10n, assets: nat, sessions_24h: int, m: OverviewMetrics) -> Seq<char> {
    "<div class=\"metric-grid\">"@ + metric_html(t.overview_assets_label@, dec(assets), health_note(t, m))
        + metric_html(t.overview_sessions_24h_label@, dec_int(sessions_24h), esc(t.overview_sessions_24h_note@))
        + metric_html(t.overview_active_keys_label@, dec(m.active_keys as nat), esc(t.overview_active_keys_note@))
        + metric_html(
        t.overview_managed_coverage_label@,
        dec(m.managed_coverage as nat) + "%"@,
        dec(m.managed_ssh_assets as nat) + " / "@ + dec(m.ssh_assets as nat) + " "@ + esc(t.overview_managed_coverage_suffix@),
    ) + "</div>"@
}

#[verifier::rlimit(100)]
fn push_overview_hero(out: &mut Vec<char>, t: &L10n, operational: bool)
    ensures
        final(out)@ == old(out)@ + overview_hero_html(*t, operational),
{
    proof {
        reveal(overview_hero_html);
    }
    let ghost start = out@;
    extend_str(out, "<div class=\"dashboard-page\"><div class=\"console-hero\"><div><h2>");
    push_escaped(out, t.overview_heading);
    extend_str(out, "</h2><p>");
    push_escaped(out, t.overview_intro);
    extend_str(out, "</p></div><div class=\"console-actions\">");
    if operational {
        extend_str(out, "<span class=\"status-chip good\"><span class=\"status-dot good\"></span>");
        push_escaped(out, t.overview_status_operational);
        extend_str(out, "</span>");
    } else {
        extend_str(out, "<span class=\"status-chip warn\"><span class=\"status-dot warn\"></span>");
        push_escaped(out, t.overview_status_attention);
        extend_str(out, "</span>");
    }
    extend_str(out, "<a class=\"button\" href=\"/assets\">");
    push_escaped(out, t.assets_add_heading);
    extend_str(out, "</a></div></div>");
    assert(out@ =~= start + overview_hero_html(*t, operational));
}

#[verifier::rlimit(100)]
fn push_metric(out: &mut Vec<char>, label: &str, value: &Vec<char>, note: &Vec<char>)
    ensures
        final(out)@ == old(out)@ + metric_html(label@, value@, note@),
{
    let ghost start = out@;
    extend_str(out, "<div class=\"metric\"><span class=\"metric-label\">");
    push_escaped(out, label);
    extend_str(out, "</span><strong class=\"metric-value\">");
    crate::text::extend_chars(out, value);
    extend_str(out, "</strong><span class=\"metric-note\">");
    crate::text::extend_chars(out, note);
    extend_str(out, "</span></div>");
    assert(out@ =~= start + metric_html(label@, value@, note@));
}

#[verifier::rlimit(100)]
fn dec_chars(n: usize) -> (r: Vec<char>)
    ensures
        r@ == dec(n as nat),
{
    let mut v: Vec<char> = Vec::new();
    push_dec(&mut v, n as u64);
    v
}

#[verifier::rlimit(100)]
fn escaped(s: &str) -> (r: Vec<char>)
    ensures
        r@ == esc(s@),
{
    let mut v: Vec<char> = Vec::new();
    push_escaped(&mut v, s);
    assert(v@ =~= esc(s@));
    v
}

#[verifier::rlimit(100)]
fn health_note_chars(t: &L10n, m: &OverviewMetrics) -> (r: Vec<char>)
    ensures
        r@ == health_note(*t, *m),
{
    let mut v: Vec<char> = Vec::new();
    push_dec(&mut v, m.healthy_assets as u64);
    extend_str(&mut v, " ");
    push_escaped(&mut v, t.overview_health_healthy);
    extend_str(&mut v, " · ");
    push_dec(&mut v, m.failed_assets as u64);
    extend_str(&mut v, " ");
    push_escaped(&mut v, t.overview_health_failed);
    extend_str(&mut v, " · ");
    push_dec(&mut v, m.unknown_assets as u64);
    extend_str(&mut v, " ");
    push_escaped(&mut v, t.overview_health_unknown);
    assert(v@ =~= health_note(*t, *m));
    v
}

#[verifier::rlimit(100)]
fn push_metric_grid(out: &mut Vec<char>, t: &L10n, assets: usize, sessions_24h: i64, m: &OverviewMetrics)
    ensures
        final(out)@ == old(out)@ + metric_grid_html(*t, assets as nat, sessions_24h as int, *m),
{
    proof {
        reveal(metric_grid_html);
    }
    let ghost start = out@;
    extend_str(out, "<div class=\"metric-grid\">");
    let v1 = dec_chars(assets);
    let n1 = health_note_chars(t, m);
    push_metric(out, t.overview_assets_label, &v1, &n1);
    let mut v2: Vec<char> = Vec::new();
    push_dec_i64(&mut v2, sessions_24h);
    let n2 = escaped(t.overview_sessions_24h_note);
    push_metric(out, t.overview_sessions_24h_label, &v2, &n2);
    let v3 = dec_chars(m.active_keys);
    let n3 = escaped(t.overview_active_keys_note);
    push_metric(out, t.overview_active_keys_label, &v3, &n3);
    let mut v4 = dec_chars(m.managed_coverage);
    extend_str(&mut v4, "%");
    let mut n4 = dec_chars(m.managed_ssh_assets);
    extend_str(&mut n4, " / ");
    push_dec(&mut n4, m.ssh_assets as u64);
    extend_str(&mut n4, " ");
    push_escaped(&mut n4, t.overview_managed_coverage_suffix);
    push_metric(out, t.overview_managed_coverage_label, &v4, &n4);
    extend_str(out, "</div>");
    assert(out@ =~= start + metric_grid_html(*t, assets as nat, sessions_24h as int, *m));
}

// ---------------------------------------------------------------------------
// Recent access
// ---------------------------------------------------------------------------

/// The dot of a session's status.
pub open spec fn status_dot(status: Seq<char>) -> Seq<char> {
    if status == "failed"@ {
        "<span class=\"status-dot danger\"></span>"@
    } else if status == "ok"@ {
        "<span class=\"status-dot good\"></span>"@
    } else {
        "<span class=\"status-dot warn\"></span>"@
    }
}

/// The pill of a session's status.
pub open spec fn status_pill(status: Seq<char>) -> Seq<char> {
    (if status == "failed"@ {
        "<span class=\"status-pill danger\">"@
    } else if status == "ok"@ {
        "<span class=\"status-pill\">"@
    } else {
        "<span class=\"status-pill neutral\">"@
    }) + esc(status) + "</span>"@
}

/// A recent session: who, to what and when, where it went, its status and
/// how long it lasted.
#[verifier::opaque]
pub open spec fn activity_item_html(s: Session) -> Seq<char> {
    "<div class=\"dashboard-activity-item\">"@ + status_dot(s.status@) + "<div><b>"@ + esc(or_dash(s.key_name)) + "</b><small>"@
        + esc(or_dash(s.asset_name)) + (match s.started_at {
        Some(st) => " · "@ + esc(st@),
        None => Seq::empty(),
    }) + "</small></div><div><b class=\"mono\">"@ + esc(s.mode@) + "</b><small class=\"mono\">"@ + target_address(s)
        + "</small></div><div class=\"dashboard-result\">"@ + status_pill(s.status@) + "<small class=\"mono\">"@
        + esc(session_duration_text(opt_view(s.started_at), opt_view(s.ended_at))) + "</small></div></div>"@
}

/// The recent sessions, in order.
pub open spec fn activity_items_html(items: Seq<Session>) -> Seq<char>
    decreases items.len(),
{
    if items.len() == 0 {
        Seq::empty()
    } else {
        activity_items_html(items.drop_last()) + activity_item_html(items.last())
    }
}

/// The panel of recent access.
pub open spec fn activity_panel_html(t: L10n, items: Seq<Session>) -> Seq<char> {
    "<div class=\"dashboard-grid\"><div class=\"panel-stack\"><section class=\"panel\"><div class=\"panel-header\"><div><h2>"@
        + esc(t.overview_recent_access_heading@) + "</h2><p>"@ + esc(t.overview_recent_access_intro@)
        + "</p></div><a class=\"dashboard-panel-link\" href=\"/sessions\">"@ + esc(t.overview_view_all@)
        + "</a></div><div class=\"dashboard-activity-list\">"@ + (if items.len() == 0 {
        "<p class=\"fine-print\">"@ + esc(t.overview_no_recent_access@) + "</p>"@
    } else {
        Seq::empty()
    }) + activity_items_html(items) + "</div></section></div>"@
}

#[verifier::rlimit(100)]
fn push_status_dot(out: &mut Vec<char>, status: &str)
    ensures
        final(out)@ == old(out)@ + status_dot(status@),
{
    if str_eq(status, "failed") {
        extend_str(out, "<span class=\"status-dot danger\"></span>");
    } else if str_eq(status, "ok") {
        extend_str(out, "<span class=\"status-dot good\"></span>");
    } else {
        extend_str(out, "<span class=\"status-dot warn\"></span>");
    }
}

#[verifier::rlimit(100)]
fn push_status_pill(out: &mut Vec<char>, status: &str)
    ensures
        final(out)@ == old(out)@ + status_pill(status@),
{
    let ghost start = out@;
    if str_eq(status, "failed") {
        extend_str(out, "<span class=\"status-pill danger\">");
    } else if str_eq(status, "ok") {
        extend_str(out, "<span class=\"status-pill\">");
    } else {
        extend_str(out, "<span class=\"status-pill neutral\">");
    }
    push_escaped(out, status);
    extend_str(out, "</span>");
    assert(out@ =~= start + status_pill(status@));
}

#[verifier::rlimit(100)]
fn push_target_address(out: &mut Vec<char>, s: &Session)
    ensures
        final(out)@ == old(out)@ + target_address(*s),
{
    let ghost start = out@;
    match &s.target_host {
        Some(h) => {
            push_escaped(out, h.as_str());
            extend_str(out, ":");
            let port: i64 = match s.target_port {
                Some(p) => p,
                None => 0,
            };
            push_dec_i64(out, port);
        },
        None => {
            extend_str(out, "-");
        },
    }
    assert(out@ =~= start + target_address(*s));
}

#[verifier::rlimit(100)]
fn or_dash_str(o: &Option<String>) -> (r: &str)
    ensures
        r@ == or_dash(*o),
{
    match o {
        Some(s) => s.as_str(),
        None => "-",
    }
}

#[verifier::rlimit(100)]
fn push_activity_item(out: &mut Vec<char>, s: &Session)
    ensures
        final(out)@ == old(out)@ + activity_item_html(*s),
{
    proof {
        reveal(activity_item_html);
    }
    let ghost start = out@;
    extend_str(out, "<div class=\"dashboard-activity-item\">");
    push_status_dot(out, s.status.as_str());
    extend_str(out, "<div><b>");
    push_escaped(out, or_dash_str(&s.key_name));
    extend_str(out, "</b><small>");
    push_escaped(out, or_dash_str(&s.asset_name));
    let ghost m = out@;
    match &s.started_at {
        Some(st) => {
            extend_str(out, " · ");
            push_escaped(out, st.as_str());
        },
        None => {
            assert(m + Seq::<char>::empty() =~= m);
        },
    }
    extend_str(out, "</small></div><div><b class=\"mono\">");
    push_escaped(out, s.mode.as_str());
    extend_str(out, "</b><small class=\"mono\">");
    push_target_address(out, s);
    extend_str(out, "</small></div><div class=\"dashboard-result\">");
    push_status_pill(out, s.status.as_str());
    extend_str(out, "<small class=\"mono\">");
    let duration = session_duration_label(s);
    push_escaped(out, duration.as_str());
    extend_str(out, "</small></div></div>");
    assert(out@ =~= start + activity_item_html(*s));
}

#[verifier::rlimit(100)]
fn push_activity_panel(out: &mut Vec<char>, t: &L10n, items: &Vec<Session>)
    ensures
        final(out)@ == old(out)@ + activity_panel_html(*t, items@),
{
    let ghost start = out@;
    extend_str(out, "<div class=\"dashboard-grid\"><div class=\"panel-stack\"><section class=\"panel\"><div class=\"panel-header\"><div><h2>");
    push_escaped(out, t.overview_recent_access_heading);
    extend_str(out, "</h2><p>");
    push_escaped(out, t.overview_recent_access_intro);
    extend_str(out, "</p></div><a class=\"dashboard-panel-link\" href=\"/sessions\">");
    push_escaped(out, t.overview_view_all);
    extend_str(out, "</a></div><div class=\"dashboard-activity-list\">");
    if items.len() == 0 {
        extend_str(out, "<p class=\"fine-print\">");
        push_escaped(out, t.overview_no_recent_access);
        extend_str(out, "</p>");
    }
    let ghost m = out@;
    let mut i: usize = 0;
    assert(items@.take(0) =~= Seq::<Session>::empty());
    assert(m + Seq::<char>::empty() =~= m);
    while i < items.len()
        invariant
            i <= items.len(),
            out@ == m + activity_items_html(items@.take(i as int)),
        decreases items.len() - i,
    {
        push_activity_item(out, &items[i]);
        assert(items@.take(i + 1).drop_last() =~= items@.take(i as int));
        assert(items@.take(i + 1).last() == items@[i as int]);
        assert(out@ =~= m + activity_items_html(items@.take(i + 1)));
        i += 1;
    }
    assert(items@.take(items.len() as int) =~= items@);
    extend_str(out, "</div></section></div>");
    assert(out@ =~= start + activity_panel_html(*t, items@));
}


// ---------------------------------------------------------------------------
// Risks
// ---------------------------------------------------------------------------

/// A risk that links to where it is dealt with.
pub open spec fn risk_link_html(dot: Seq<char>, label: Seq<char>, href: Seq<char>, text: Seq<char>) -> Seq<char> {
    "<div class=\"incident-item\"><span class=\"status-dot "@ + dot + "\"></span><b>"@ + esc(label)
        + "</b><a class=\"dashboard-panel-link\" href=\""@ + href + "\">"@ + text + "</a></div>"@
}

/// The head of the risks panel, with how many risks are open.
#[verifier::opaque]
pub open spec fn risks_head_html(t: L10n, risks: nat) -> Seq<char> {
    "<div class=\"panel-stack\"><section class=\"panel\"><div class=\"panel-header\"><div><h2>"@ + esc(t.overview_risk_heading@)
        + "</h2><p>"@ + esc(t.overview_risk_intro@) + "</p></div>"@ + (if risks > 0 {
        "<span class=\"status-chip warn\">"@ + dec(risks) + "</span>"@
    } else {
        Seq::empty()
    }) + "</div><div class=\"incident-list\">"@
}

/// The configuration sources that failed, if any.
pub open spec fn source_risk_html(t: L10n, errors: Seq<Seq<char>>) -> Seq<char> {
    if errors.len() > 0 {
        "<div class=\"incident-item\"><span class=\"status-dot danger\"></span><b>"@ + esc(t.overview_source_unavailable@)
            + "</b><span>"@ + esc(join_text(errors, ", "@)) + "</span></div>"@
    } else {
        Seq::empty()
    }
}

/// The risks about assets and identities, each only when it holds.
#[verifier::opaque]
pub open spec fn asset_risks_html(t: L10n, m: OverviewMetrics, has_assets: bool) -> Seq<char> {
    (if m.failed_assets > 0 {
        risk_link_html("danger"@, t.overview_failed_assets_risk@, "/assets"@, dec(m.failed_assets as nat))
    } else {
        Seq::empty()
    }) + (if m.unknown_assets > 0 {
        risk_link_html("warn"@, t.overview_unknown_assets_risk@, "/assets"@, dec(m.unknown_assets as nat))
    } else {
        Seq::empty()
    }) + (if m.unmanaged_ssh_assets > 0 {
        risk_link_html("warn"@, t.overview_unmanaged_assets_risk@, "/credentials"@, dec(m.unmanaged_ssh_assets as nat))
    } else {
        Seq::empty()
    }) + (if has_assets && m.active_keys == 0 {
        risk_link_html("warn"@, t.overview_no_active_keys_risk@, "/keys"@, esc(t.nav_keys@))
    } else {
        Seq::empty()
    })
}

/// The risks panel: every open risk, or that there is none.
pub open spec fn risks_panel_html(t: L10n, m: OverviewMetrics, errors: Seq<Seq<char>>, has_assets: bool) -> Seq<char> {
    risks_head_html(t, m.risk_count as nat) + source_risk_html(t, errors) + asset_risks_html(t, m, has_assets)
        + (if m.risk_count == 0 {
        "<div class=\"incident-item\"><span class=\"status-dot good\"></span><b>"@ + esc(t.overview_no_risks@)
            + "</b><span>✓</span></div>"@
    } else {
        Seq::empty()
    }) + "</div></section></div></div>"@
}

#[verifier::rlimit(100)]
fn push_risks_head(out: &mut Vec<char>, t: &L10n, risks: usize)
    ensures
        final(out)@ == old(out)@ + risks_head_html(*t, risks as nat),
{
    proof {
        reveal(risks_head_html);
    }
    let ghost start = out@;
    extend_str(out, "<div class=\"panel-stack\"><section class=\"panel\"><div class=\"panel-header\"><div><h2>");
    push_escaped(out, t.overview_risk_heading);
    extend_str(out, "</h2><p>");
    push_escaped(out, t.overview_risk_intro);
    extend_str(out, "</p></div>");
    let ghost m = out@;
    if risks > 0 {
        extend_str(out, "<span class=\"status-chip warn\">");
        push_dec(out, risks as u64);
        extend_str(out, "</span>");
    } else {
        assert(m + Seq::<char>::empty() =~= m);
    }
    extend_str(out, "</div><div class=\"incident-list\">");
    assert(out@ =~= start + risks_head_html(*t, risks as nat));
}

#[verifier::rlimit(100)]
fn push_risk_link(out: &mut Vec<char>, dot: &str, label: &str, href: &str, text: &Vec<char>)
    ensures
        final(out)@ == old(out)@ + risk_link_html(dot@, label@, href@, text@),
{
    let ghost start = out@;
    extend_str(out, "<div class=\"incident-item\"><span class=\"status-dot ");
    extend_str(out, dot);
    extend_str(out, "\"></span><b>");
    push_escaped(out, label);
    extend_str(out, "</b><a class=\"dashboard-panel-link\" href=\"");
    extend_str(out, href);
    extend_str(out, "\">");
    crate::text::extend_chars(out, text);
    extend_str(out, "</a></div>");
    assert(out@ =~= start + risk_link_html(dot@, label@, href@, text@));
}

#[verifier::rlimit(100)]
fn push_asset_risks(out: &mut Vec<char>, t: &L10n, m: &OverviewMetrics, has_assets: bool)
    ensures
        final(out)@ == old(out)@ + asset_risks_html(*t, *m, has_assets),
{
    proof {
        reveal(asset_risks_html);
    }
    let ghost start = out@;
    let ghost m0 = out@;
    if m.failed_assets > 0 {
        push_risk_link(out, "danger", t.overview_failed_assets_risk, "/assets", &dec_chars(m.failed_assets));
    } else {
        assert(m0 + Seq::<char>::empty() =~= m0);
    }
    let ghost m1 = out@;
    if m.unknown_assets > 0 {
        push_risk_link(out, "warn", t.overview_unknown_assets_risk, "/assets", &dec_chars(m.unknown_assets));
    } else {
        assert(m1 + Seq::<char>::empty() =~= m1);
    }
    let ghost m2 = out@;
    if m.unmanaged_ssh_assets > 0 {
        push_risk_link(out, "warn", t.overview_unmanaged_assets_risk, "/credentials", &dec_chars(m.unmanaged_ssh_assets));
    } else {
        assert(m2 + Seq::<char>::empty() =~= m2);
    }
    let ghost m3 = out@;
    if has_assets && m.active_keys == 0 {
        push_risk_link(out, "warn", t.overview_no_active_keys_risk, "/keys", &escaped(t.nav_keys));
    } else {
        assert(m3 + Seq::<char>::empty() =~= m3);
    }
    assert(out@ =~= start + asset_risks_html(*t, *m, has_assets));
}

#[verifier::rlimit(100)]
fn push_risks_panel(out: &mut Vec<char>, t: &L10n, m: &OverviewMetrics, errors: &Vec<String>, has_assets: bool)
    ensures
        final(out)@ == old(out)@ + risks_panel_html(*t, *m, strings_view(errors@), has_assets),
{
    let ghost start = out@;
    push_risks_head(out, t, m.risk_count);
    let ghost m1 = out@;
    if errors.len() > 0 {
        extend_str(out, "<div class=\"incident-item\"><span class=\"status-dot danger\"></span><b>");
        push_escaped(out, t.overview_source_unavailable);
        extend_str(out, "</b><span>");
        let joined = join_strings(errors, ", ");
        push_escaped_chars(out, &joined);
        extend_str(out, "</span></div>");
    }
    assert(out@ =~= m1 + source_risk_html(*t, strings_view(errors@)));
    push_asset_risks(out, t, m, has_assets);
    let ghost m2 = out@;
    if m.risk_count == 0 {
        extend_str(out, "<div class=\"incident-item\"><span class=\"status-dot good\"></span><b>");
        push_escaped(out, t.overview_no_risks);
        extend_str(out, "</b><span>✓</span></div>");
    } else {
        assert(m2 + Seq::<char>::empty() =~= m2);
    }
    extend_str(out, "</div></section></div></div>");
    assert(out@ =~= start + risks_panel_html(*t, *m, strings_view(errors@), has_assets));
}

// ---------------------------------------------------------------------------
// The gateway, the coverage and the recent changes
// ---------------------------------------------------------------------------

/// An endpoint or store of the gateway, and whether it is reachable.
pub open spec fn posture_html(t: L10n, label: Seq<char>, detail: Seq<char>, healthy: bool) -> Seq<char> {
    "<div class=\"posture-item\">"@ + (if healthy {
        "<span class=\"status-dot good\"></span>"@
    } else {
        "<span class=\"status-dot danger\"></span>"@
    }) + "<b>"@ + esc(label) + "</b><span><span class=\"mono\">"@ + esc(detail) + "</span> · "@
        + esc(if healthy { t.overview_reachable@ } else { t.overview_unreachable@ }) + "</span></div>"@
}

/// A fact about the gateway.
pub open spec fn fact_html(label: Seq<char>, text: Seq<char>) -> Seq<char> {
    "<div class=\"posture-item\"><span class=\"status-dot good\"></span><b>"@ + esc(label) + "</b><span class=\"mono\">"@ + text
        + "</span></div>"@
}

/// The endpoints and the database of the gateway.
#[verifier::opaque]
pub open spec fn gateway_postures_html(t: L10n, d: DashboardData) -> Seq<char> {
    posture_html(t, t.overview_admin_endpoint@, d.gateway.admin_bind@, d.gateway.admin_reachable)
        + posture_html(t, t.overview_ssh_endpoint@, d.gateway.ssh_bind@, d.gateway.ssh_reachable)
        + posture_html(t, t.overview_database@, "SQLite"@, d.gateway.database_healthy)
}

/// The version, start and uptime of the gateway.
#[verifier::opaque]
pub open spec fn gateway_facts_html(t: L10n, d: DashboardData) -> Seq<char> {
    fact_html(t.overview_version@, "v"@ + esc(d.gateway.version@)) + fact_html(t.overview_started@, esc(d.gateway.started_at@))
        + fact_html(t.overview_uptime@, esc(uptime_text(d.gateway.uptime_seconds as nat)))
}

/// The gateway panel: its endpoints, database, version, start and uptime.
pub open spec fn gateway_panel_html(t: L10n, d: DashboardData) -> Seq<char> {
    "<div class=\"dashboard-grid\"><section class=\"panel\"><div class=\"panel-header\"><div><h2>"@
        + esc(t.overview_gateway_heading@) + "</h2><p>"@ + esc(t.overview_gateway_intro@)
        + "</p></div></div><div class=\"posture-list\">"@ + gateway_postures_html(t, d) + gateway_facts_html(t, d)
        + "</div></section>"@
}

/// A coverage figure: its percentage, bar and counts.
pub open spec fn coverage_item_html(label: Seq<char>, numerator: nat, denominator: nat, percent: nat) -> Seq<char> {
    "<div class=\"coverage-item\"><div class=\"coverage-label\"><span>"@ + esc(label) + "</span><strong>"@ + dec(percent)
        + "%</strong></div><div class=\"coverage-track\" aria-hidden=\"true\"><span style=\"width: "@ + dec(percent)
        + "%\"></span></div><small>"@ + dec(numerator) + " / "@ + dec(denominator) + "</small></div>"@
}

/// The coverage panel.
#[verifier::opaque]
pub open spec fn coverage_panel_html(t: L10n, credentials: nat, m: OverviewMetrics) -> Seq<char> {
    "<section class=\"panel\"><div class=\"panel-header\"><div><h2>"@ + esc(t.overview_coverage_heading@) + "</h2><p>"@
        + esc(t.overview_coverage_intro@) + "</p></div><span class=\"status-chip\">"@ + dec(credentials) + " "@
        + esc(t.credentials_title@) + "</span></div><div class=\"coverage-list\">"@
        + coverage_item_html(t.overview_credential_coverage@, m.managed_ssh_assets as nat, m.ssh_assets as nat, m.managed_coverage as nat)
        + coverage_item_html(t.overview_restricted_coverage@, m.restricted_keys as nat, m.active_keys as nat, m.restricted_coverage as nat)
        + coverage_item_html(t.overview_trust_coverage@, m.trusted_ssh_assets as nat, m.ssh_assets as nat, m.trust_coverage as nat)
        + "</div></section></div>"@
}

#[verifier::rlimit(100)]
fn push_posture(out: &mut Vec<char>, t: &L10n, label: &str, detail: &str, healthy: bool)
    ensures
        final(out)@ == old(out)@ + posture_html(*t, label@, detail@, healthy),
{
    let ghost start = out@;
    extend_str(out, "<div class=\"posture-item\">");
    if healthy {
        extend_str(out, "<span class=\"status-dot good\"></span>");
    } else {
        extend_str(out, "<span class=\"status-dot danger\"></span>");
    }
    extend_str(out, "<b>");
    push_escaped(out, label);
    extend_str(out, "</b><span><span class=\"mono\">");
    push_escaped(out, detail);
    extend_str(out, "</span> · ");
    push_escaped(out, if healthy { t.overview_reachable } else { t.overview_unreachable });
    extend_str(out, "</span></div>");
    assert(out@ =~= start + posture_html(*t, label@, detail@, healthy));
}

#[verifier::rlimit(100)]
fn push_fact(out: &mut Vec<char>, label: &str, text: &Vec<char>)
    ensures
        final(out)@ == old(out)@ + fact_html(label@, text@),
{
    let ghost start = out@;
    extend_str(out, "<div class=\"posture-item\"><span class=\"status-dot good\"></span><b>");
    push_escaped(out, label);
    extend_str(out, "</b><span class=\"mono\">");
    crate::text::extend_chars(out, text);
    extend_str(out, "</span></div>");
    assert(out@ =~= start + fact_html(label@, text@));
}

#[verifier::rlimit(100)]
fn push_gateway_postures(out: &mut Vec<char>, t: &L10n, d: &DashboardData)
    ensures
        final(out)@ == old(out)@ + gateway_postures_html(*t, *d),
{
    proof {
        reveal(gateway_postures_html);
    }
    let ghost start = out@;
    push_posture(out, t, t.overview_admin_endpoint, d.gateway.admin_bind.as_str(), d.gateway.admin_reachable);
    push_posture(out, t, t.overview_ssh_endpoint, d.gateway.ssh_bind.as_str(), d.gateway.ssh_reachable);
    push_posture(out, t, t.overview_database, "SQLite", d.gateway.database_healthy);
    assert(out@ =~= start + gateway_postures_html(*t, *d));
}

#[verifier::rlimit(100)]
fn push_gateway_facts(out: &mut Vec<char>, t: &L10n, d: &DashboardData)
    ensures
        final(out)@ == old(out)@ + gateway_facts_html(*t, *d),
{
    proof {
        reveal(gateway_facts_html);
    }
    let ghost start = out@;
    let mut version: Vec<char> = Vec::new();
    extend_str(&mut version, "v");
    push_escaped(&mut version, d.gateway.version.as_str());
    push_fact(out, t.overview_version, &version);
    push_fact(out, t.overview_started, &escaped(d.gateway.started_at.as_str()));
    let uptime = uptime_label(d.gateway.uptime_seconds);
    push_fact(out, t.overview_uptime, &escaped(uptime.as_str()));
    assert(out@ =~= start + gateway_facts_html(*t, *d));
}

#[verifier::rlimit(100)]
fn push_gateway_panel(out: &mut Vec<char>, t: &L10n, d: &DashboardData)
    ensures
        final(out)@ == old(out)@ + gateway_panel_html(*t, *d),
{
    let ghost start = out@;
    extend_str(out, "<div class=\"dashboard-grid\"><section class=\"panel\"><div class=\"panel-header\"><div><h2>");
    push_escaped(out, t.overview_gateway_heading);
    extend_str(out, "</h2><p>");
    push_escaped(out, t.overview_gateway_intro);
    extend_str(out, "</p></div></div><div class=\"posture-list\">");
    push_gateway_postures(out, t, d);
    push_gateway_facts(out, t, d);
    extend_str(out, "</div></section>");
    assert(out@ =~= start + gateway_panel_html(*t, *d));
}

#[verifier::rlimit(100)]
fn push_coverage_item(out: &mut Vec<char>, label: &str, numerator: usize, denominator: usize, percent: usize)
    ensures
        final(out)@ == old(out)@ + coverage_item_html(label@, numerator as nat, denominator as nat, percent as nat),
{
    let ghost start = out@;
    extend_str(out, "<div class=\"coverage-item\"><div class=\"coverage-label\"><span>");
    push_escaped(out, label);
    extend_str(out, "</span><strong>");
    push_dec(out, percent as u64);
    extend_str(out, "%</strong></div><div class=\"coverage-track\" aria-hidden=\"true\"><span style=\"width: ");
    push_dec(out, percent as u64);
    extend_str(out, "%\"></span></div><small>");
    push_dec(out, numerator as u64);
    extend_str(out, " / ");
    push_dec(out, denominator as u64);
    extend_str(out, "</small></div>");
    assert(out@ =~= start + coverage_item_html(label@, numerator as nat, denominator as nat, percent as nat));
}

#[verifier::rlimit(100)]
fn push_coverage_panel(out: &mut Vec<char>, t: &L10n, credentials: usize, m: &OverviewMetrics)
    ensures
        final(out)@ == old(out)@ + coverage_panel_html(*t, credentials as nat, *m),
{
    proof {
        reveal(coverage_panel_html);
    }
    let ghost start = out@;
    extend_str(out, "<section class=\"panel\"><div class=\"panel-header\"><div><h2>");
    push_escaped(out, t.overview_coverage_heading);
    extend_str(out, "</h2><p>");
    push_escaped(out, t.overview_coverage_intro);
    extend_str(out, "</p></div><span class=\"status-chip\">");
    push_dec(out, credentials as u64);
    extend_str(out, " ");
    push_escaped(out, t.credentials_title);
    extend_str(out, "</span></div><div class=\"coverage-list\">");
    push_coverage_item(out, t.overview_credential_coverage, m.managed_ssh_assets, m.ssh_assets, m.managed_coverage);
    push_coverage_item(out, t.overview_restricted_coverage, m.restricted_keys, m.active_keys, m.restricted_coverage);
    push_coverage_item(out, t.overview_trust_coverage, m.trusted_ssh_assets, m.ssh_assets, m.trust_coverage);
    extend_str(out, "</div></section></div>");
    assert(out@ =~= start + coverage_panel_html(*t, credentials as nat, *m));
}

/// A recent administrator action: who and when, what, and its result.
#[verifier::opaque]
pub open spec fn change_item_html(e: AuditEvent) -> Seq<char> {
    "<div class=\"dashboard-event-item\">"@ + (if e.result@ == "failure"@ {
        "<span class=\"status-dot danger\"></span>"@
    } else {
        "<span class=\"status-dot good\"></span>"@
    }) + "<div><b>"@ + esc(e.actor_label@) + "</b><small>"@ + esc(or_dash(e.occurred_at))
        + "</small></div><div><b class=\"mono\">"@ + esc(e.action@) + "</b><small>"@ + esc(match e.target_label {
        Some(l) => l@,
        None => e.target_type@,
    }) + "</small></div><div class=\"dashboard-result\">"@ + (if e.result@ == "failure"@ {
        "<span class=\"status-pill danger\">"@
    } else {
        "<span class=\"status-pill\">"@
    }) + esc(e.result@) + "</span></div></div>"@
}

/// The recent administrator actions, in order.
pub open spec fn change_items_html(events: Seq<AuditEvent>) -> Seq<char>
    decreases events.len(),
{
    if events.len() == 0 {
        Seq::empty()
    } else {
        change_items_html(events.drop_last()) + change_item_html(events.last())
    }
}

/// The panel of recent changes, and the end of the page.
pub open spec fn changes_panel_html(t: L10n, events: Seq<AuditEvent>) -> Seq<char> {
    "<section class=\"panel\"><div class=\"panel-header\"><div><h2>"@ + esc(t.overview_recent_changes_heading@) + "</h2><p>"@
        + esc(t.overview_recent_changes_intro@) + "</p></div><a class=\"dashboard-panel-link\" href=\"/sessions\">"@
        + esc(t.overview_view_all@) + "</a></div><div class=\"dashboard-event-list\">"@ + (if events.len() == 0 {
        "<p class=\"fine-print\">"@ + esc(t.overview_no_recent_changes@) + "</p>"@
    } else {
        Seq::empty()
    }) + change_items_html(events) + "</div></section></div>"@
}

#[verifier::rlimit(100)]
fn push_change_item(out: &mut Vec<char>, e: &AuditEvent)
    ensures
        final(out)@ == old(out)@ + change_item_html(*e),
{
    proof {
        reveal(change_item_html);
    }
    let ghost start = out@;
    let failed = str_eq(e.result.as_str(), "failure");
    extend_str(out, "<div class=\"dashboard-event-item\">");
    if failed {
        extend_str(out, "<span class=\"status-dot danger\"></span>");
    } else {
        extend_str(out, "<span class=\"status-dot good\"></span>");
    }
    extend_str(out, "<div><b>");
    push_escaped(out, e.actor_label.as_str());
    extend_str(out, "</b><small>");
    push_escaped(out, or_dash_str(&e.occurred_at));
    extend_str(out, "</small></div><div><b class=\"mono\">");
    push_escaped(out, e.action.as_str());
    extend_str(out, "</b><small>");
    let target: &str = match &e.target_label {
        Some(l) => l.as_str(),
        None => e.target_type.as_str(),
    };
    push_escaped(out, target);
    extend_str(out, "</small></div><div class=\"dashboard-result\">");
    if failed {
        extend_str(out, "<span class=\"status-pill danger\">");
    } else {
        extend_str(out, "<span class=\"status-pill\">");
    }
    push_escaped(out, e.result.as_str());
    extend_str(out, "</span></div></div>");
    assert(out@ =~= start + change_item_html(*e));
}

#[verifier::rlimit(100)]
fn push_changes_panel(out: &mut Vec<char>, t: &L10n, events: &Vec<AuditEvent>)
    ensures
        final(out)@ == old(out)@ + changes_panel_html(*t, events@),
{
    let ghost start = out@;
    extend_str(out, "<section class=\"panel\"><div class=\"panel-header\"><div><h2>");
    push_escaped(out, t.overview_recent_changes_heading);
    extend_str(out, "</h2><p>");
    push_escaped(out, t.overview_recent_changes_intro);
    extend_str(out, "</p></div><a class=\"dashboard-panel-link\" href=\"/sessions\">");
    push_escaped(out, t.overview_view_all);
    extend_str(out, "</a></div><div class=\"dashboard-event-list\">");
    if events.len() == 0 {
        extend_str(out, "<p class=\"fine-print\">");
        push_escaped(out, t.overview_no_recent_changes);
        extend_str(out, "</p>");
    }
    let ghost m = out@;
    let mut i: usize = 0;
    assert(events@.take(0) =~= Seq::<AuditEvent>::empty());
    assert(m + Seq::<char>::empty() =~= m);
    while i < events.len()
        invariant
            i <= events.len(),
            out@ == m + change_items_html(events@.take(i as int)),
        decreases events.len() - i,
    {
        push_change_item(out, &events[i]);
        assert(events@.take(i + 1).drop_last() =~= events@.take(i as int));
        assert(events@.take(i + 1).last() == events@[i as int]);
        assert(out@ =~= m + change_items_html(events@.take(i + 1)));
        i += 1;
    }
    assert(events@.take(events.len() as int) =~= events@);
    extend_str(out, "</div></section></div>");
    assert(out@ =~= start + changes_panel_html(*t, events@));
}

// ---------------------------------------------------------------------------
// The page
// ---------------------------------------------------------------------------

/// The content of the overview page.
pub open spec fn overview_html(t: L10n, d: DashboardData) -> Seq<char> {
    overview_hero_html(t, data_metrics(d).gateway_operational)
        + metric_grid_html(t, d.assets@.len(), d.sessions_24h as int, data_metrics(d))
        + activity_panel_html(t, d.recent_sessions@)
        + risks_panel_html(t, data_metrics(d), strings_view(d.source_errors@), d.assets@.len() > 0)
        + gateway_panel_html(t, d) + coverage_panel_html(t, d.credentials@.len(), data_metrics(d))
        + changes_panel_html(t, d.recent_admin_events@)
}

/// The content of the overview page, as the console layout frames it:
/// whether the gateway is operational, its figures, the recent access, the
/// open risks, the gateway's own state, the coverage, and the recent
/// administrator actions.
#[verifier::rlimit(100)]
fn overview_content(t: &L10n, data: &DashboardData) -> (r: String)
    ensures
        r@ == overview_html(*t, *data),
{
    let m = data.metrics();
    let ghost a = overview_hero_html(*t, m.gateway_operational);
    let ghost b = metric_grid_html(*t, data.assets@.len(), data.sessions_24h as int, m);
    let ghost c = activity_panel_html(*t, data.recent_sessions@);
    let ghost d = risks_panel_html(*t, m, strings_view(data.source_errors@), data.assets@.len() > 0);
    let ghost e = gateway_panel_html(*t, *data);
    let ghost f = coverage_panel_html(*t, data.credentials@.len(), m);
    let ghost g = changes_panel_html(*t, data.recent_admin_events@);
    let mut out: Vec<char> = Vec::new();
    push_overview_hero(&mut out, t, m.gateway_operational);
    push_metric_grid(&mut out, t, data.assets.len(), data.sessions_24h, &m);
    push_activity_panel(&mut out, t, &data.recent_sessions);
    push_risks_panel(&mut out, t, &m, &data.source_errors, data.assets.len() > 0);
    push_gateway_panel(&mut out, t, data);
    push_coverage_panel(&mut out, t, data.credentials.len(), &m);
    push_changes_panel(&mut out, t, &data.recent_admin_events);
    assert(out@ =~= a + b + c + d + e + f + g);
    from_chars(&out)
}

/// The overview page: the content above in the console frame, under its title.
#[verifier::rlimit(100)]
pub fn overview(t: &L10n, data: &DashboardData) -> (r: String)
    ensures
        r@ == layout_html(*t, t.overview_title@, "overview"@, overview_html(*t, *data)),
{
    let content = overview_content(t, data);
    layout(t.overview_title, "overview", t, content.as_str())
}

} // verus!
