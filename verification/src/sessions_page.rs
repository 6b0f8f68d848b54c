//! The markup of the sessions and audit page.
use crate::layout::{layout, layout_html};
use vstd::prelude::*;

use crate::console_pages::{assigned_to, csrf_html, esc, is_assigned, panel_head_html, push_csrf_field, push_escaped, push_panel_head, push_path};
use crate::i18n::L10n;
use crate::model::{strings_view, AuditEvent, Session};
use crate::text::{dec, dec_int, extend_str, from_chars, push_dec, push_dec_i64, str_eq};

verus! {

/// An optional text, or `-`.
pub open spec fn or_dash(o: Option<String>) -> Seq<char> {
    match o {
        Some(s) => s@,
        None => "-"@,
    }
}

/// How many of the sessions have the given status.
pub open spec fn count_status(items: Seq<Session>, status: Seq<char>) -> nat
    decreases items.len(),
{
    if items.len() == 0 {
        0
    } else {
        count_status(items.drop_last(), status) + (if items.last().status@ == status { 1nat } else { 0nat })
    }
}

/// How many of the sessions ran in the given mode.
pub open spec fn count_mode(items: Seq<Session>, mode: Seq<char>) -> nat
    decreases items.len(),
{
    if items.len() == 0 {
        0
    } else {
        count_mode(items.drop_last(), mode) + (if items.last().mode@ == mode { 1nat } else { 0nat })
    }
}

/// How many of the sessions have ended.
pub open spec fn count_ended(items: Seq<Session>) -> nat
    decreases items.len(),
{
    if items.len() == 0 {
        0
    } else {
        count_ended(items.drop_last()) + (if items.last().ended_at is Some { 1nat } else { 0nat })
    }
}

/// Which of the three counts a loop takes.
pub enum SessionCount {
    Status,
    Mode,
    Ended,
}

/// The count of the sessions that match.
pub open spec fn count_of(items: Seq<Session>, which: SessionCount, text: Seq<char>) -> nat {
    match which {
        SessionCount::Status => count_status(items, text),
        SessionCount::Mode => count_mode(items, text),
        SessionCount::Ended => count_ended(items),
    }
}

#[verifier::rlimit(100)]
fn count_sessions(items: &[Session], which: SessionCount, text: &str) -> (r: u64)
    ensures
        r == count_of(items@, which, text@),
{
    let mut n: u64 = 0;
    let mut i: usize = 0;
    assert(items@.take(0) =~= Seq::<Session>::empty());
    while i < items.len()
        invariant
            i <= items.len(),
            n == count_of(items@.take(i as int), which, text@),
            n <= i,
        decreases items.len() - i,
    {
        let hit = match which {
            SessionCount::Status => str_eq(items[i].status.as_str(), text),
            SessionCount::Mode => str_eq(items[i].mode.as_str(), text),
            SessionCount::Ended => items[i].ended_at.is_some(),
        };
        assert(items@.take(i + 1).drop_last() =~= items@.take(i as int));
        assert(items@.take(i + 1).last() == items@[i as int]);
        if hit {
            n = n + 1;
        }
        i += 1;
    }
    assert(items@.take(items.len() as int) =~= items@);
    n
}

// ---------------------------------------------------------------------------
// The head of the page
// ---------------------------------------------------------------------------

/// A count chip of the heading.
pub open spec fn chip_html(class: Seq<char>, n: nat, label: Seq<char>) -> Seq<char> {
    "<span class=\"status-chip "@ + class + "\">"@ + dec(n) + " "@ + esc(label) + "</span>"@
}

/// The heading with the counts: live sessions, failed ones, administrator
/// events and sessions recorded.
pub open spec fn sessions_counts_html(t: L10n, live: nat, failed: nat, events: nat, total: nat) -> Seq<char> {
    "<div class=\"audit-page\"><div class=\"console-hero\"><div><h2>"@ + esc(t.sessions_heading@) + "</h2><p>"@
        + esc(t.sessions_intro@) + "</p></div><div class=\"console-actions\">"@ + chip_html("good"@, live, t.sessions_active_heading@)
        + chip_html("danger"@, failed, t.sessions_failed_suffix@)
        + chip_html("neutral"@, events, t.sessions_admin_recorded_suffix@)
        + chip_html("good"@, total, t.sessions_recorded_suffix@)
}

/// The form that terminates every live session, when shown.
pub open spec fn terminate_all_html(t: L10n, csrf: Seq<char>, shown: bool) -> Seq<char> {
    if shown {
        "<form method=\"post\" action=\"/sessions/terminate-all\">"@ + csrf_html(csrf)
            + "<button class=\"danger\" type=\"submit\">"@ + esc(t.sessions_terminate_all@) + "</button></form>"@
    } else {
        Seq::empty()
    }
}

/// The end of the heading, and the toolbar.
#[verifier::opaque]
pub open spec fn sessions_toolbar_html(t: L10n) -> Seq<char> {
    "<a class=\"ghost-button\" href=\"/sessions\">"@ + esc(t.sessions_live_tail@)
        + "</a></div></div><div class=\"audit-toolbar\"><div class=\"terminal-strip\"><span>hop admin sessions --limit 100</span></div><div class=\"status-row\"><span class=\"command-chip\">"@
        + esc(t.sessions_range_latest@) + "</span><span class=\"command-chip\">"@ + esc(t.sessions_user_all@)
        + "</span><span class=\"command-chip\">"@ + esc(t.sessions_event_all@) + "</span></div></div>"@
}

#[verifier::rlimit(100)]
fn push_chip(out: &mut Vec<char>, class: &str, n: u64, label: &str)
    ensures
        final(out)@ == old(out)@ + chip_html(class@, n as nat, label@),
{
    let ghost start = out@;
    extend_str(out, "<span class=\"status-chip ");
    extend_str(out, class);
    extend_str(out, "\">");
    push_dec(out, n);
    extend_str(out, " ");
    push_escaped(out, label);
    extend_str(out, "</span>");
    assert(out@ =~= start + chip_html(class@, n as nat, label@));
}

#[verifier::rlimit(100)]
fn push_sessions_counts(out: &mut Vec<char>, t: &L10n, live: usize, failed: u64, events: usize, total: usize)
    ensures
        final(out)@ == old(out)@ + sessions_counts_html(*t, live as nat, failed as nat, events as nat, total as nat),
{
    let ghost start = out@;
    extend_str(out, "<div class=\"audit-page\"><div class=\"console-hero\"><div><h2>");
    push_escaped(out, t.sessions_heading);
    extend_str(out, "</h2><p>");
    push_escaped(out, t.sessions_intro);
    extend_str(out, "</p></div><div class=\"console-actions\">");
    let ghost m = out@;
    push_chip(out, "good", live as u64, t.sessions_active_heading);
    push_chip(out, "danger", failed, t.sessions_failed_suffix);
    push_chip(out, "neutral", events as u64, t.sessions_admin_recorded_suffix);
    push_chip(out, "good", total as u64, t.sessions_recorded_suffix);
    let ghost c1 = chip_html("good"@, live as nat, t.sessions_active_heading@);
    let ghost c2 = chip_html("danger"@, failed as nat, t.sessions_failed_suffix@);
    let ghost c3 = chip_html("neutral"@, events as nat, t.sessions_admin_recorded_suffix@);
    let ghost c4 = chip_html("good"@, total as nat, t.sessions_recorded_suffix@);
    assert(out@ =~= m + (c1 + c2 + c3 + c4));
    assert(out@ =~= start + sessions_counts_html(*t, live as nat, failed as nat, events as nat, total as nat));
}

#[verifier::rlimit(100)]
fn push_terminate_all(out: &mut Vec<char>, t: &L10n, csrf: &str, shown: bool)
    ensures
        final(out)@ == old(out)@ + terminate_all_html(*t, csrf@, shown),
{
    let ghost start = out@;
    if shown {
        extend_str(out, "<form method=\"post\" action=\"/sessions/terminate-all\">");
        push_csrf_field(out, csrf);
        extend_str(out, "<button class=\"danger\" type=\"submit\">");
        push_escaped(out, t.sessions_terminate_all);
        extend_str(out, "</button></form>");
    }
    assert(out@ =~= start + terminate_all_html(*t, csrf@, shown));
}

#[verifier::rlimit(100)]
fn push_sessions_toolbar(out: &mut Vec<char>, t: &L10n)
    ensures
        final(out)@ == old(out)@ + sessions_toolbar_html(*t),
{
    proof {
        reveal(sessions_toolbar_html);
    }
    let ghost start = out@;
    extend_str(out, "<a class=\"ghost-button\" href=\"/sessions\">");
    push_escaped(out, t.sessions_live_tail);
    extend_str(out, "</a></div></div><div class=\"audit-toolbar\"><div class=\"terminal-strip\"><span>hop admin sessions --limit 100</span></div><div class=\"status-row\"><span class=\"command-chip\">");
    push_escaped(out, t.sessions_range_latest);
    extend_str(out, "</span><span class=\"command-chip\">");
    push_escaped(out, t.sessions_user_all);
    extend_str(out, "</span><span class=\"command-chip\">");
    push_escaped(out, t.sessions_event_all);
    extend_str(out, "</span></div></div>");
    assert(out@ =~= start + sessions_toolbar_html(*t));
}

// ---------------------------------------------------------------------------
// The administrator actions
// ---------------------------------------------------------------------------

/// When an administrator event happened, who did it (and from where) and
/// what.
#[verifier::opaque]
pub open spec fn event_lead_html(t: L10n, e: AuditEvent) -> Seq<char> {
    "<tr><td class=\"mono\">"@ + esc(or_dash(e.occurred_at)) + "</td><td><div class=\"primary-cell\">"@ + esc(e.actor_label@)
        + (match e.source_ip {
        Some(ip) => "<span class=\"subtle\">"@ + esc(t.sessions_source_prefix@) + " "@ + esc(ip@) + "</span>"@,
        None => Seq::empty(),
    }) + "</div></td><td><span class=\"audit-event\">"@ + esc(e.action@) + "</span></td>"@
}

/// What an administrator event touched, its details and its result.
#[verifier::opaque]
pub open spec fn event_tail_html(e: AuditEvent) -> Seq<char> {
    "<td><div class=\"primary-cell\">"@ + esc(match e.target_label {
        Some(l) => l@,
        None => e.target_type@,
    }) + (match e.target_id {
        Some(id) => "<span class=\"subtle mono\">"@ + esc(id@) + "</span>"@,
        None => Seq::empty(),
    }) + "</div></td><td><span class=\"subtle mono\">"@ + esc(or_dash(e.details_json)) + "</span></td><td>"@
        + (if e.result@ == "failure"@ { "<span class=\"status-pill danger\">"@ } else { "<span class=\"status-pill\">"@ })
        + esc(e.result@) + "</span></td></tr>"@
}

/// The rows of the administrator actions, in order.
pub open spec fn event_rows_html(t: L10n, events: Seq<AuditEvent>) -> Seq<char>
    decreases events.len(),
{
    if events.len() == 0 {
        Seq::empty()
    } else {
        event_rows_html(t, events.drop_last()) + event_lead_html(t, events.last()) + event_tail_html(events.last())
    }
}

/// The panel of administrator actions.
#[verifier::opaque]
pub open spec fn events_head_html(t: L10n) -> Seq<char> {
    panel_head_html(t.sessions_admin_heading@, t.sessions_admin_intro@)
        + "<div class=\"table-wrap\"><table class=\"data-table\"><thead><tr><th>"@ + esc(t.started_column@) + "</th><th>"@
        + esc(t.sessions_actor_column@) + "</th><th>"@ + esc(t.field_action@) + "</th><th>"@ + esc(t.target_column@)
        + "</th><th>"@ + esc(t.error_column@) + "</th><th>"@ + esc(t.field_status@) + "</th></tr></thead><tbody>"@
}

/// The panel of administrator actions, with its rows.
pub open spec fn events_html(t: L10n, events: Seq<AuditEvent>) -> Seq<char> {
    events_head_html(t) + (if events.len() == 0 {
        "<tr class=\"empty-row\"><td colspan=\"6\">"@ + esc(t.sessions_no_admin_events@) + "</td></tr>"@
    } else {
        Seq::empty()
    }) + event_rows_html(t, events) + "</tbody></table></div></section>"@
}

#[verifier::rlimit(100)]
fn push_opt_suffix(out: &mut Vec<char>, head: &str, o: &Option<String>, tail: &str)
    ensures
        final(out)@ == old(out)@ + (match *o {
            Some(s) => head@ + esc(s@) + tail@,
            None => Seq::empty(),
        }),
{
    let ghost start = out@;
    match o {
        Some(s) => {
            extend_str(out, head);
            push_escaped(out, s.as_str());
            extend_str(out, tail);
        },
        None => {},
    }
    assert(out@ =~= start + (match *o {
        Some(s) => head@ + esc(s@) + tail@,
        None => Seq::empty(),
    }));
}

#[verifier::rlimit(100)]
fn or_dash_str(o: &Option<String>) -> (r: &str)
    ensures
        r@ == or_dash(*o),
{
    match o {
        Some(s) => s.as_str(),
        None => "-",
    }
}

#[verifier::rlimit(100)]
fn push_event_lead(out: &mut Vec<char>, t: &L10n, e: &AuditEvent)
    ensures
        final(out)@ == old(out)@ + event_lead_html(*t, *e),
{
    proof {
        reveal(event_lead_html);
    }
    let ghost start = out@;
    extend_str(out, "<tr><td class=\"mono\">");
    push_escaped(out, or_dash_str(&e.occurred_at));
    extend_str(out, "</td><td><div class=\"primary-cell\">");
    push_escaped(out, e.actor_label.as_str());
    let ghost m = out@;
    match &e.source_ip {
        Some(ip) => {
            extend_str(out, "<span class=\"subtle\">");
            push_escaped(out, t.sessions_source_prefix);
            extend_str(out, " ");
            push_escaped(out, ip.as_str());
            extend_str(out, "</span>");
        },
        None => {},
    }
    extend_str(out, "</div></td><td><span class=\"audit-event\">");
    push_escaped(out, e.action.as_str());
    extend_str(out, "</span></td>");
    assert(out@ =~= start + event_lead_html(*t, *e));
}

#[verifier::rlimit(100)]
fn push_event_tail(out: &mut Vec<char>, e: &AuditEvent)
    ensures
        final(out)@ == old(out)@ + event_tail_html(*e),
{
    proof {
        reveal(event_tail_html);
    }
    let ghost start = out@;
    extend_str(out, "<td><div class=\"primary-cell\">");
    let target: &str = match &e.target_label {
        Some(l) => l.as_str(),
        None => e.target_type.as_str(),
    };
    push_escaped(out, target);
    push_opt_suffix(out, "<span class=\"subtle mono\">", &e.target_id, "</span>");
    extend_str(out, "</div></td><td><span class=\"subtle mono\">");
    push_escaped(out, or_dash_str(&e.details_json));
    extend_str(out, "</span></td><td>");
    if str_eq(e.result.as_str(), "failure") {
        extend_str(out, "<span class=\"status-pill danger\">");
    } else {
        extend_str(out, "<span class=\"status-pill\">");
    }
    push_escaped(out, e.result.as_str());
    extend_str(out, "</span></td></tr>");
    assert(out@ =~= start + event_tail_html(*e));
}

#[verifier::rlimit(100)]
fn push_events_head(out: &mut Vec<char>, t: &L10n)
    ensures
        final(out)@ == old(out)@ + events_head_html(*t),
{
    proof {
        reveal(events_head_html);
    }
    let ghost start = out@;
    push_panel_head(out, t.sessions_admin_heading, t.sessions_admin_intro);
    extend_str(out, "<div class=\"table-wrap\"><table class=\"data-table\"><thead><tr><th>");
    push_escaped(out, t.started_column);
    extend_str(out, "</th><th>");
    push_escaped(out, t.sessions_actor_column);
    extend_str(out, "</th><th>");
    push_escaped(out, t.field_action);
    extend_str(out, "</th><th>");
    push_escaped(out, t.target_column);
    extend_str(out, "</th><th>");
    push_escaped(out, t.error_column);
    extend_str(out, "</th><th>");
    push_escaped(out, t.field_status);
    extend_str(out, "</th></tr></thead><tbody>");
    assert(out@ =~= start + events_head_html(*t));
}

#[verifier::rlimit(100)]
fn push_events(out: &mut Vec<char>, t: &L10n, events: &[AuditEvent])
    ensures
        final(out)@ == old(out)@ + events_html(*t, events@),
{
    let ghost start = out@;
    push_events_head(out, t);
    let ghost m = out@;
    if events.len() == 0 {
        extend_str(out, "<tr class=\"empty-row\"><td colspan=\"6\">");
        push_escaped(out, t.sessions_no_admin_events);
        extend_str(out, "</td></tr>");
    }
    let ghost m2 = out@;
    let mut i: usize = 0;
    assert(events@.take(0) =~= Seq::<AuditEvent>::empty());
    assert(m2 + Seq::<char>::empty() =~= m2);
    while i < events.len()
        invariant
            i <= events.len(),
            out@ == m2 + event_rows_html(*t, events@.take(i as int)),
        decreases events.len() - i,
    {
        push_event_lead(out, t, &events[i]);
        push_event_tail(out, &events[i]);
        assert(events@.take(i + 1).drop_last() =~= events@.take(i as int));
        assert(events@.take(i + 1).last() == events@[i as int]);
        assert(out@ =~= m2 + event_rows_html(*t, events@.take(i + 1)));
        i += 1;
    }
    assert(events@.take(events.len() as int) =~= events@);
    extend_str(out, "</tbody></table></div></section>");
    assert(out@ =~= start + events_html(*t, events@));
}


// ---------------------------------------------------------------------------
// The recent sessions
// ---------------------------------------------------------------------------

/// When a session started, the identity it used, the asset and the mode.
#[verifier::opaque]
pub open spec fn session_lead_html(s: Session) -> Seq<char> {
    "<tr><td class=\"mono\">"@ + esc(or_dash(s.started_at)) + "</td><td><div class=\"primary-cell\">"@ + esc(or_dash(s.key_name))
        + "<span class=\"subtle mono\">"@ + esc(s.key_finger@) + "</span></div></td><td>"@ + esc(or_dash(s.asset_name))
        + "</td><td><span class=\"audit-event\">"@ + esc(s.mode@) + "</span></td>"@
}

/// Where a session went: host and port, or `-`.
pub open spec fn target_address(s: Session) -> Seq<char> {
    match s.target_host {
        Some(h) => esc(h@) + ":"@ + dec_int(match s.target_port {
            Some(p) => p as int,
            None => 0,
        }),
        None => "-"@,
    }
}

/// Where a session went, where it came from, and its error.
#[verifier::opaque]
pub open spec fn session_target_html(t: L10n, s: Session) -> Seq<char> {
    "<td><div class=\"primary-cell\"><span class=\"mono\">"@ + target_address(s) + "</span>"@ + (match s.client_ip {
        Some(ip) => "<span class=\"subtle\">"@ + esc(t.sessions_source_prefix@) + " "@ + esc(ip@) + "</span>"@,
        None => Seq::empty(),
    }) + (match s.error {
        Some(e) => "<span class=\"subtle\">"@ + esc(e@) + "</span>"@,
        None => Seq::empty(),
    }) + "</div></td>"@
}

/// The state of a session: live, or its recorded status.
#[verifier::opaque]
pub open spec fn session_status_html(t: L10n, s: Session, live: bool) -> Seq<char> {
    "<td>"@ + (if live {
        "<span class=\"status-pill\">"@ + esc(t.sessions_active_heading@)
    } else if s.status@ == "failed"@ {
        "<span class=\"status-pill danger\">"@ + esc(s.status@)
    } else if s.status@ == "ok"@ {
        "<span class=\"status-pill\">"@ + esc(s.status@)
    } else {
        "<span class=\"status-pill neutral\">"@ + esc(s.status@)
    }) + "</span></td>"@
}

/// The action cell of a session: the form that terminates it, only when it
/// is live and the profile may terminate sessions.
pub open spec fn session_action_html(t: L10n, s: Session, live: bool, csrf: Seq<char>, can_terminate: bool) -> Seq<char> {
    "<td class=\"table-action\">"@ + (if can_terminate && live {
        "<form method=\"post\" action=\""@ + esc("/sessions/"@ + s.id@ + "/terminate"@) + "\">"@ + csrf_html(csrf)
            + "<button class=\"danger\" type=\"submit\">"@ + esc(t.sessions_terminate@) + "</button></form>"@
    } else {
        "<span class=\"subtle\">-</span>"@
    }) + "</td></tr>"@
}

/// A row of the recent sessions; a session is live when its id is among
/// the live ones.
pub open spec fn session_row_html(t: L10n, s: Session, live_ids: Seq<Seq<char>>, csrf: Seq<char>, can_terminate: bool) -> Seq<char> {
    session_lead_html(s) + session_target_html(t, s) + session_status_html(t, s, is_assigned(live_ids, s.id@))
        + session_action_html(t, s, is_assigned(live_ids, s.id@), csrf, can_terminate)
}

/// The rows of the recent sessions, in order.
pub open spec fn session_rows_html(t: L10n, items: Seq<Session>, live_ids: Seq<Seq<char>>, csrf: Seq<char>, can_terminate: bool) -> Seq<char>
    decreases items.len(),
{
    if items.len() == 0 {
        Seq::empty()
    } else {
        session_rows_html(t, items.drop_last(), live_ids, csrf, can_terminate)
            + session_row_html(t, items.last(), live_ids, csrf, can_terminate)
    }
}

/// The heading and header row of the recent sessions.
#[verifier::opaque]
pub open spec fn recent_head_html(t: L10n) -> Seq<char> {
    "<div class=\"audit-grid\"><section class=\"panel\"><div class=\"panel-header\"><div><h2>"@ + esc(t.sessions_recent_heading@)
        + "</h2><p>"@ + esc(t.sessions_recent_intro@) + " "@ + esc(t.sessions_active_intro@)
        + "</p></div></div><div class=\"table-wrap\"><table class=\"data-table\"><thead><tr><th>"@ + esc(t.started_column@)
        + "</th><th>"@ + esc(t.key_column@) + "</th><th>"@ + esc(t.asset_column@) + "</th><th>"@ + esc(t.mode_column@)
        + "</th><th>"@ + esc(t.error_column@) + "</th><th>"@ + esc(t.field_status@) + "</th><th>"@
        + esc(t.sessions_action_column@) + "</th></tr></thead><tbody>"@
}

/// The panel of recent sessions.
pub open spec fn recent_html(t: L10n, items: Seq<Session>, live_ids: Seq<Seq<char>>, csrf: Seq<char>, can_terminate: bool) -> Seq<char> {
    recent_head_html(t) + (if items.len() == 0 {
        "<tr class=\"empty-row\"><td colspan=\"7\">"@ + esc(t.no_sessions@) + "</td></tr>"@
    } else {
        Seq::empty()
    }) + session_rows_html(t, items, live_ids, csrf, can_terminate) + "</tbody></table></div></section>"@
}

/// A line of the summary.
pub open spec fn incident_html(dot: Seq<char>, label: Seq<char>, n: nat) -> Seq<char> {
    "<div class=\"incident-item\"><span class=\"status-dot "@ + dot + "\"></span><b>"@ + esc(label) + "</b><span>"@ + dec(n)
        + "</span></div>"@
}

/// The summary: failed, direct and completed sessions.
pub open spec fn summary_html(t: L10n, items: Seq<Session>) -> Seq<char> {
    "<div class=\"panel-stack\">"@ + panel_head_html(t.sessions_summary_heading@, t.sessions_summary_intro@)
        + "<div class=\"incident-list\">"@ + incident_html("danger"@, t.sessions_failed_heading@, count_status(items, "failed"@))
        + incident_html("warn"@, t.sessions_direct_heading@, count_mode(items, "direct"@))
        + incident_html("good"@, t.sessions_completed_heading@, count_ended(items))
        + "</div></section></div></div></div>"@
}

/// The content of the sessions and audit page.
pub open spec fn sessions_html(
    t: L10n,
    items: Seq<Session>,
    events: Seq<AuditEvent>,
    live_ids: Seq<Seq<char>>,
    csrf: Seq<char>,
    can_terminate: bool,
) -> Seq<char> {
    sessions_counts_html(t, live_ids.len(), count_status(items, "failed"@), events.len(), items.len())
        + terminate_all_html(t, csrf, can_terminate && live_ids.len() > 0) + sessions_toolbar_html(t) + events_html(t, events)
        + recent_html(t, items, live_ids, csrf, can_terminate) + summary_html(t, items)
}

#[verifier::rlimit(100)]
fn push_session_lead(out: &mut Vec<char>, s: &Session)
    ensures
        final(out)@ == old(out)@ + session_lead_html(*s),
{
    proof {
        reveal(session_lead_html);
    }
    let ghost start = out@;
    extend_str(out, "<tr><td class=\"mono\">");
    push_escaped(out, or_dash_str(&s.started_at));
    extend_str(out, "</td><td><div class=\"primary-cell\">");
    push_escaped(out, or_dash_str(&s.key_name));
    extend_str(out, "<span class=\"subtle mono\">");
    push_escaped(out, s.key_finger.as_str());
    extend_str(out, "</span></div></td><td>");
    push_escaped(out, or_dash_str(&s.asset_name));
    extend_str(out, "</td><td><span class=\"audit-event\">");
    push_escaped(out, s.mode.as_str());
    extend_str(out, "</span></td>");
    assert(out@ =~= start + session_lead_html(*s));
}

#[verifier::rlimit(100)]
fn push_session_target(out: &mut Vec<char>, t: &L10n, s: &Session)
    ensures
        final(out)@ == old(out)@ + session_target_html(*t, *s),
{
    proof {
        reveal(session_target_html);
    }
    let ghost start = out@;
    extend_str(out, "<td><div class=\"primary-cell\"><span class=\"mono\">");
    match &s.target_host {
        Some(h) => {
            push_escaped(out, h.as_str());
            extend_str(out, ":");
            let port: i64 = match s.target_port {
                Some(p) => p,
                None => 0,
            };
            push_dec_i64(out, port);
        },
        None => {
            extend_str(out, "-");
        },
    }
    assert(out@ =~= start + ("<td><div class=\"primary-cell\"><span class=\"mono\">"@ + target_address(*s)));
    extend_str(out, "</span>");
    let ghost m = out@;
    match &s.client_ip {
        Some(ip) => {
            extend_str(out, "<span class=\"subtle\">");
            push_escaped(out, t.sessions_source_prefix);
            extend_str(out, " ");
            push_escaped(out, ip.as_str());
            extend_str(out, "</span>");
        },
        None => {},
    }
    push_opt_suffix(out, "<span class=\"subtle\">", &s.error, "</span>");
    extend_str(out, "</div></td>");
    assert(out@ =~= start + session_target_html(*t, *s));
}

#[verifier::rlimit(100)]
fn push_session_status(out: &mut Vec<char>, t: &L10n, s: &Session, live: bool)
    ensures
        final(out)@ == old(out)@ + session_status_html(*t, *s, live),
{
    proof {
        reveal(session_status_html);
    }
    let ghost start = out@;
    extend_str(out, "<td>");
    if live {
        extend_str(out, "<span class=\"status-pill\">");
        push_escaped(out, t.sessions_active_heading);
    } else if str_eq(s.status.as_str(), "failed") {
        extend_str(out, "<span class=\"status-pill danger\">");
        push_escaped(out, s.status.as_str());
    } else if str_eq(s.status.as_str(), "ok") {
        extend_str(out, "<span class=\"status-pill\">");
        push_escaped(out, s.status.as_str());
    } else {
        extend_str(out, "<span class=\"status-pill neutral\">");
        push_escaped(out, s.status.as_str());
    }
    extend_str(out, "</span></td>");
    assert(out@ =~= start + session_status_html(*t, *s, live));
}

#[verifier::rlimit(100)]
fn push_session_action(out: &mut Vec<char>, t: &L10n, s: &Session, live: bool, csrf: &str, can_terminate: bool)
    ensures
        final(out)@ == old(out)@ + session_action_html(*t, *s, live, csrf@, can_terminate),
{
    let ghost start = out@;
    extend_str(out, "<td class=\"table-action\">");
    if can_terminate && live {
        extend_str(out, "<form method=\"post\" action=\"");
        push_path(out, "/sessions/", s.id.as_str(), "/terminate");
        extend_str(out, "\">");
        push_csrf_field(out, csrf);
        extend_str(out, "<button class=\"danger\" type=\"submit\">");
        push_escaped(out, t.sessions_terminate);
        extend_str(out, "</button></form>");
    } else {
        extend_str(out, "<span class=\"subtle\">-</span>");
    }
    extend_str(out, "</td></tr>");
    assert(out@ =~= start + session_action_html(*t, *s, live, csrf@, can_terminate));
}

#[verifier::rlimit(100)]
fn push_session_rows(out: &mut Vec<char>, t: &L10n, items: &[Session], live_ids: &[String], csrf: &str, can_terminate: bool)
    ensures
        final(out)@ == old(out)@ + session_rows_html(*t, items@, strings_view(live_ids@), csrf@, can_terminate),
{
    let ghost start = out@;
    let ghost ids = strings_view(live_ids@);
    let mut i: usize = 0;
    assert(items@.take(0) =~= Seq::<Session>::empty());
    assert(start + Seq::<char>::empty() =~= start);
    while i < items.len()
        invariant
            i <= items.len(),
            ids == strings_view(live_ids@),
            out@ == start + session_rows_html(*t, items@.take(i as int), ids, csrf@, can_terminate),
        decreases items.len() - i,
    {
        let ghost before = out@;
        let s = &items[i];
        let live = assigned_to(live_ids, s.id.as_str());
        push_session_lead(out, s);
        push_session_target(out, t, s);
        push_session_status(out, t, s, live);
        push_session_action(out, t, s, live, csrf, can_terminate);
        assert(out@ =~= before + session_row_html(*t, *s, ids, csrf@, can_terminate));
        assert(items@.take(i + 1).drop_last() =~= items@.take(i as int));
        assert(items@.take(i + 1).last() == items@[i as int]);
        assert(out@ =~= start + session_rows_html(*t, items@.take(i + 1), ids, csrf@, can_terminate));
        i += 1;
    }
    assert(items@.take(items.len() as int) =~= items@);
}

#[verifier::rlimit(100)]
fn push_recent_head(out: &mut Vec<char>, t: &L10n)
    ensures
        final(out)@ == old(out)@ + recent_head_html(*t),
{
    proof {
        reveal(recent_head_html);
    }
    let ghost start = out@;
    extend_str(out, "<div class=\"audit-grid\"><section class=\"panel\"><div class=\"panel-header\"><div><h2>");
    push_escaped(out, t.sessions_recent_heading);
    extend_str(out, "</h2><p>");
    push_escaped(out, t.sessions_recent_intro);
    extend_str(out, " ");
    push_escaped(out, t.sessions_active_intro);
    extend_str(out, "</p></div></div><div class=\"table-wrap\"><table class=\"data-table\"><thead><tr><th>");
    push_escaped(out, t.started_column);
    extend_str(out, "</th><th>");
    push_escaped(out, t.key_column);
    extend_str(out, "</th><th>");
    push_escaped(out, t.asset_column);
    extend_str(out, "</th><th>");
    push_escaped(out, t.mode_column);
    extend_str(out, "</th><th>");
    push_escaped(out, t.error_column);
    extend_str(out, "</th><th>");
    push_escaped(out, t.field_status);
    extend_str(out, "</th><th>");
    push_escaped(out, t.sessions_action_column);
    extend_str(out, "</th></tr></thead><tbody>");
    assert(out@ =~= start + recent_head_html(*t));
}

#[verifier::rlimit(100)]
fn push_recent(out: &mut Vec<char>, t: &L10n, items: &[Session], live_ids: &[String], csrf: &str, can_terminate: bool)
    ensures
        final(out)@ == old(out)@ + recent_html(*t, items@, strings_view(live_ids@), csrf@, can_terminate),
{
    let ghost start = out@;
    push_recent_head(out, t);
    let ghost m = out@;
    if items.len() == 0 {
        extend_str(out, "<tr class=\"empty-row\"><td colspan=\"7\">");
        push_escaped(out, t.no_sessions);
        extend_str(out, "</td></tr>");
    } else {
        assert(m + Seq::<char>::empty() =~= m);
    }
    push_session_rows(out, t, items, live_ids, csrf, can_terminate);
    extend_str(out, "</tbody></table></div></section>");
    assert(out@ =~= start + recent_html(*t, items@, strings_view(live_ids@), csrf@, can_terminate));
}

#[verifier::rlimit(100)]
fn push_incident(out: &mut Vec<char>, dot: &str, label: &str, n: u64)
    ensures
        final(out)@ == old(out)@ + incident_html(dot@, label@, n as nat),
{
    let ghost start = out@;
    extend_str(out, "<div class=\"incident-item\"><span class=\"status-dot ");
    extend_str(out, dot);
    extend_str(out, "\"></span><b>");
    push_escaped(out, label);
    extend_str(out, "</b><span>");
    push_dec(out, n);
    extend_str(out, "</span></div>");
    assert(out@ =~= start + incident_html(dot@, label@, n as nat));
}

#[verifier::rlimit(100)]
fn push_summary(out: &mut Vec<char>, t: &L10n, items: &[Session])
    ensures
        final(out)@ == old(out)@ + summary_html(*t, items@),
{
    let ghost start = out@;
    extend_str(out, "<div class=\"panel-stack\">");
    push_panel_head(out, t.sessions_summary_heading, t.sessions_summary_intro);
    extend_str(out, "<div class=\"incident-list\">");
    let ghost m = out@;
    let failed = count_sessions(items, SessionCount::Status, "failed");
    let direct = count_sessions(items, SessionCount::Mode, "direct");
    let ended = count_sessions(items, SessionCount::Ended, "");
    push_incident(out, "danger", t.sessions_failed_heading, failed);
    push_incident(out, "warn", t.sessions_direct_heading, direct);
    push_incident(out, "good", t.sessions_completed_heading, ended);
    extend_str(out, "</div></section></div></div></div>");
    assert(out@ =~= start + summary_html(*t, items@));
}

/// The content of the sessions and audit page, as the console layout frames
/// it: the counts, the administrator actions, the recent sessions (live
/// when their id is among `active_session_ids`) and a summary; the forms
/// that terminate sessions only for a profile that may terminate them.
#[verifier::rlimit(100)]
fn sessions_content(
    t: &L10n,
    items: &[Session],
    admin_events: &[AuditEvent],
    active_session_ids: &[String],
    csrf_token: &str,
    can_terminate: bool,
) -> (r: String)
    ensures
        r@ == sessions_html(*t, items@, admin_events@, strings_view(active_session_ids@), csrf_token@, can_terminate),
{
    let ghost ids = strings_view(active_session_ids@);
    let ghost a = sessions_counts_html(*t, ids.len(), count_status(items@, "failed"@), admin_events@.len(), items@.len());
    let ghost b = terminate_all_html(*t, csrf_token@, can_terminate && ids.len() > 0);
    let ghost c = sessions_toolbar_html(*t);
    let ghost d = events_html(*t, admin_events@);
    let ghost e = recent_html(*t, items@, ids, csrf_token@, can_terminate);
    let ghost f = summary_html(*t, items@);
    let mut out: Vec<char> = Vec::new();
    let failed = count_sessions(items, SessionCount::Status, "failed");
    push_sessions_counts(&mut out, t, active_session_ids.len(), failed, admin_events.len(), items.len());
    push_terminate_all(&mut out, t, csrf_token, can_terminate && active_session_ids.len() > 0);
    push_sessions_toolbar(&mut out, t);
    push_events(&mut out, t, admin_events);
    push_recent(&mut out, t, items, active_session_ids, csrf_token, can_terminate);
    push_summary(&mut out, t, items);
    assert(out@ =~= a + b + c + d + e + f);
    from_chars(&out)
}

/// The audit log page: the content above in the console frame, under its title.
#[verifier::rlimit(100)]
pub fn sessions(
    t: &L10n,
    items: &[Session],
    admin_events: &[AuditEvent],
    active_session_ids: &[String],
    csrf_token: &str,
    can_terminate: bool,
) -> (r: String)
    ensures
        r@ == layout_html(*t, t.sessions_title@, "sessions"@, sessions_html(*t, items@, admin_events@, strings_view(active_session_ids@), csrf_token@, can_terminate)),
{
    let content = sessions_content(t, items, admin_events, active_session_ids, csrf_token, can_terminate);
    layout(t.sessions_title, "sessions", t, content.as_str())
}

proof fn lemma_rows_without_terminate(t: L10n, items: Seq<Session>, live_ids: Seq<Seq<char>>, csrf1: Seq<char>, csrf2: Seq<char>)
    ensures
        session_rows_html(t, items, live_ids, csrf1, false) == session_rows_html(t, items, live_ids, csrf2, false),
    decreases items.len(),
{
    if items.len() > 0 {
        lemma_rows_without_terminate(t, items.drop_last(), live_ids, csrf1, csrf2);
    }
}

/// For a profile that may not terminate sessions, the sessions page does
/// not depend on the CSRF token that every terminating form carries.
pub proof fn lemma_sessions_page_without_terminate(
    t: L10n,
    items: Seq<Session>,
    events: Seq<AuditEvent>,
    live_ids: Seq<Seq<char>>,
    csrf1: Seq<char>,
    csrf2: Seq<char>,
)
    ensures
        sessions_html(t, items, events, live_ids, csrf1, false) == sessions_html(t, items, events, live_ids, csrf2, false),
{
    lemma_rows_without_terminate(t, items, live_ids, csrf1, csrf2);
}

} // verus!
