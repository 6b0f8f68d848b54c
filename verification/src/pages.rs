//! What the console pages compute before they lay out markup: coverage
//! figures, uptime and session durations, links, the labels of profiles and
//! protocols, the tunnel command offered for TCP assets, and which assets a
//! credential or a trusted host key belongs to.
use vstd::prelude::*;

use crate::admin_auth::{ADMIN_PROFILE_OPERATOR, ADMIN_PROFILE_OWNER, ADMIN_PROFILE_VIEWER};
use crate::asset_search::assets_view;
use crate::i18n::{locale_code, L10n, Locale};
use crate::model::{
    opt_view, Asset, AssetAccessMode, AssetHealth, AssetView, AuditEvent, AuthorizedKey, Credential, KnownHost, Session,
    ASSET_HEALTH_FAILED, ASSET_HEALTH_HEALTHY, ASSET_HEALTH_UNKNOWN, ASSET_PRESET_MYSQL, ASSET_PRESET_POSTGRES,
    ASSET_PRESET_RDP, ASSET_PRESET_REDIS, ASSET_PRESET_VNC, ASSET_PROTOCOL_SSH, ASSET_PROTOCOL_TCP,
};
use crate::text::{dec, dec_int, digit_char, extend_chars, extend_str, from_chars, push_char, push_dec, push_dec_i64, push_dec_u128, str_eq, to_chars};

verus! {

// ---------------------------------------------------------------------------
// Figures
// ---------------------------------------------------------------------------

/// `numerator * 100 / denominator`, the product saturating at the largest
/// `usize`; zero when there is nothing to cover.
pub open spec fn coverage_of(numerator: nat, denominator: nat) -> nat {
    if denominator == 0 {
        0
    } else {
        let p = numerator * 100;
        let p = if p > usize::MAX { usize::MAX as nat } else { p };
        p / denominator
    }
}

/// The share of `denominator` that `numerator` covers, in whole percent.
pub fn coverage_percent(numerator: usize, denominator: usize) -> (r: usize)
    ensures
        r == coverage_of(numerator as nat, denominator as nat),
{
    let p: usize = if numerator > usize::MAX / 100 { usize::MAX } else { numerator * 100 };
    if denominator == 0 {
        0
    } else {
        p / denominator
    }
}

/// `<days>d <hours>h` from a day on, `<hours>h <minutes>m` from an hour on,
/// else `<minutes>m`.
pub open spec fn uptime_text(seconds: nat) -> Seq<char> {
    let days = seconds / 86400;
    let hours = seconds % 86400 / 3600;
    let minutes = seconds % 3600 / 60;
    if days > 0 {
        dec(days) + "d "@ + dec(hours) + "h"@
    } else if hours > 0 {
        dec(hours) + "h "@ + dec(minutes) + "m"@
    } else {
        dec(minutes) + "m"@
    }
}

/// How long the gateway has been up.
pub fn uptime_label(seconds: u64) -> (r: String)
    ensures
        r@ == uptime_text(seconds as nat),
{
    let days = seconds / 86400;
    let hours = seconds % 86400 / 3600;
    let minutes = seconds % 3600 / 60;
    let mut out: Vec<char> = Vec::new();
    if days > 0 {
        push_dec(&mut out, days);
        extend_str(&mut out, "d ");
        push_dec(&mut out, hours);
        extend_str(&mut out, "h");
    } else if hours > 0 {
        push_dec(&mut out, hours);
        extend_str(&mut out, "h ");
        push_dec(&mut out, minutes);
        extend_str(&mut out, "m");
    } else {
        push_dec(&mut out, minutes);
        extend_str(&mut out, "m");
    }
    from_chars(&out)
}

// ---------------------------------------------------------------------------
// Timestamps and session durations
// ---------------------------------------------------------------------------

/// The instant (Unix seconds, nanoseconds) that `chrono` reads from an
/// RFC 3339 timestamp, converted to UTC; `None` when it cannot read it.
pub uninterp spec fn rfc3339_instant(value: Seq<char>) -> Option<(i64, u32)>;

/// The instant `chrono` reads from a `%Y-%m-%d %H:%M:%S` timestamp taken as
/// UTC; `None` when it cannot read it.
pub uninterp spec fn naive_utc_instant(value: Seq<char>) -> Option<(i64, u32)>;

/// `chrono::DateTime::parse_from_rfc3339`, converted to UTC, as Unix
/// seconds and nanoseconds. The contract claims that the instant is a
/// function of the text alone, named `rfc3339_instant`.
#[verifier::external_body]
fn parse_rfc3339(value: &str) -> (r: Option<(i64, u32)>)
    ensures
        r == rfc3339_instant(value@),
{
    chrono::DateTime::parse_from_rfc3339(value).ok().map(|t| {
        let t = t.with_timezone(&chrono::Utc);
        (t.timestamp(), t.timestamp_subsec_nanos())
    })
}

/// `chrono::NaiveDateTime::parse_from_str` with `%Y-%m-%d %H:%M:%S`, taken
/// as UTC, as Unix seconds and nanoseconds. The contract claims that the
/// instant is a function of the text alone, named `naive_utc_instant`.
#[verifier::external_body]
fn parse_naive_utc(value: &str) -> (r: Option<(i64, u32)>)
    ensures
        r == naive_utc_instant(value@),
{
    chrono::NaiveDateTime::parse_from_str(value, "%Y-%m-%d %H:%M:%S").ok().map(|t| {
        let t = t.and_utc();
        (t.timestamp(), t.timestamp_subsec_nanos())
    })
}

/// A stored timestamp: RFC 3339, or else the database's
/// `YYYY-MM-DD HH:MM:SS` in UTC.
pub open spec fn timestamp_of(value: Seq<char>) -> Option<(i64, u32)> {
    match rfc3339_instant(value) {
        Some(t) => Some(t),
        None => naive_utc_instant(value),
    }
}

/// Reads a stored timestamp (see `timestamp_of`).
pub fn parse_timestamp(value: &str) -> (r: Option<(i64, u32)>)
    ensures
        r == timestamp_of(value@),
{
    match parse_rfc3339(value) {
        Some(t) => Some(t),
        None => parse_naive_utc(value),
    }
}

/// The whole seconds from one instant to another, truncated toward zero,
/// never below zero.
pub open spec fn elapsed_seconds(start: (i64, u32), end: (i64, u32)) -> int {
    let ns = (end.0 - start.0) * 1_000_000_000 + (end.1 - start.1);
    let s = if ns >= 0 { ns / 1_000_000_000 } else { -((-ns) / 1_000_000_000) };
    if s < 0 { 0 } else { s }
}

/// `<h>h <m>m` from an hour on, `<m>m <s>s` from a minute on, else `<s>s`.
pub open spec fn duration_text(seconds: nat) -> Seq<char> {
    if seconds >= 3600 {
        dec(seconds / 3600) + "h "@ + dec(seconds % 3600 / 60) + "m"@
    } else if seconds >= 60 {
        dec(seconds / 60) + "m "@ + dec(seconds % 60) + "s"@
    } else {
        dec(seconds) + "s"@
    }
}

/// A session's duration, or `—` while it has not ended or when a
/// timestamp cannot be read.
pub open spec fn session_duration_text(started_at: Option<Seq<char>>, ended_at: Option<Seq<char>>) -> Seq<char> {
    match (started_at, ended_at) {
        (Some(s), Some(e)) => match (timestamp_of(s), timestamp_of(e)) {
            (Some(a), Some(b)) => duration_text(elapsed_seconds(a, b) as nat),
            _ => "—"@,
        },
        _ => "—"@,
    }
}

/// The duration label of a session.
pub fn session_duration_label(session: &Session) -> (r: String)
    ensures
        r@ == session_duration_text(opt_view(session.started_at), opt_view(session.ended_at)),
{
    let (s, e) = match (&session.started_at, &session.ended_at) {
        (Some(s), Some(e)) => (s.as_str(), e.as_str()),
        _ => return "—".to_string(),
    };
    let (a, b) = match (parse_timestamp(s), parse_timestamp(e)) {
        (Some(a), Some(b)) => (a, b),
        _ => return "—".to_string(),
    };
    let ns: i128 = ((b.0 as i128) - (a.0 as i128)) * 1_000_000_000 + ((b.1 as i128) - (a.1 as i128));
    let secs: i128 = if ns >= 0 { ns / 1_000_000_000 } else { -((-ns) / 1_000_000_000) };
    let secs: i128 = if secs < 0 { 0 } else { secs };
    assert(secs == elapsed_seconds(a, b));
    let seconds = secs as u128;
    let mut out: Vec<char> = Vec::new();
    if seconds >= 3600 {
        push_dec_u128(&mut out, seconds / 3600);
        extend_str(&mut out, "h ");
        push_dec_u128(&mut out, seconds % 3600 / 60);
        extend_str(&mut out, "m");
    } else if seconds >= 60 {
        push_dec_u128(&mut out, seconds / 60);
        extend_str(&mut out, "m ");
        push_dec_u128(&mut out, seconds % 60);
        extend_str(&mut out, "s");
    } else {
        push_dec_u128(&mut out, seconds);
        extend_str(&mut out, "s");
    }
    from_chars(&out)
}

// ---------------------------------------------------------------------------
// Links
// ---------------------------------------------------------------------------

/// A byte that a query value carries as it is: ASCII letters and digits and
/// `-`, `_`, `.`, `~`.
pub open spec fn unreserved(b: u8) -> bool {
    (65 <= b <= 90) || (97 <= b <= 122) || (48 <= b <= 57) || b == 45 || b == 95 || b == 46 || b == 126
}

/// An upper-case hexadecimal digit.
pub open spec fn hex_digit(d: nat) -> char {
    if d < 10 {
        ((d + 48) as u32) as char
    } else {
        ((d + 55) as u32) as char
    }
}

/// How one byte is written in a query value: as itself when unreserved,
/// else as `%` and two upper-case hexadecimal digits.
pub open spec fn encoded_byte(b: u8) -> Seq<char> {
    if unreserved(b) {
        seq![b as char]
    } else {
        seq!['%', hex_digit((b / 16) as nat), hex_digit((b % 16) as nat)]
    }
}

/// The query-value form of a sequence of bytes.
pub open spec fn encoded_bytes(bytes: Seq<u8>) -> Seq<char>
    decreases bytes.len(),
{
    if bytes.len() == 0 {
        Seq::empty()
    } else {
        encoded_bytes(bytes.drop_last()) + encoded_byte(bytes.last())
    }
}

fn hex_digit_exec(d: u8) -> (c: char)
    requires
        d < 16,
    ensures
        c == hex_digit(d as nat),
{
    if d < 10 {
        (d + 48) as char
    } else {
        (d + 55) as char
    }
}

/// Percent-encodes the UTF-8 bytes of a text for a URL query.
pub fn url_query_value(value: &str) -> (r: String)
    ensures
        r@ == encoded_bytes(vstd::utf8::encode_utf8(value@)),
{
    let bytes = value.as_bytes();
    let mut out: Vec<char> = Vec::new();
    let mut i: usize = 0;
    while i < bytes.len()
        invariant
            i <= bytes.len(),
            bytes@ == vstd::utf8::encode_utf8(value@),
            out@ == encoded_bytes(bytes@.take(i as int)),
        decreases bytes.len() - i,
    {
        let b = bytes[i];
        assert(bytes@.take(i + 1).drop_last() =~= bytes@.take(i as int));
        if (65 <= b && b <= 90) || (97 <= b && b <= 122) || (48 <= b && b <= 57) || b == 45 || b == 95 || b == 46 || b == 126 {
            out.push(b as char);
        } else {
            out.push('%');
            out.push(hex_digit_exec(b / 16));
            out.push(hex_digit_exec(b % 16));
        }
        assert(out@ =~= encoded_bytes(bytes@.take(i as int)) + encoded_byte(b));
        i += 1;
    }
    assert(bytes@.take(bytes.len() as int) =~= bytes@);
    from_chars(&out)
}

/// The asset list link for a tag and a search query.
pub open spec fn assets_filter_link(tag: Option<Seq<char>>, query: Option<Seq<char>>) -> Seq<char> {
    match (tag, query) {
        (None, None) => "/assets"@,
        (Some(t), None) => "/assets?"@ + "tag="@ + encoded_bytes(vstd::utf8::encode_utf8(t)),
        (None, Some(q)) => "/assets?"@ + "q="@ + encoded_bytes(vstd::utf8::encode_utf8(q)),
        (Some(t), Some(q)) => "/assets?"@ + "tag="@ + encoded_bytes(vstd::utf8::encode_utf8(t)) + "&"@ + "q="@
            + encoded_bytes(vstd::utf8::encode_utf8(q)),
    }
}

/// `/assets`, with `tag=` and `q=` parameters for what is given.
pub fn assets_filter_href(tag: Option<&str>, search_query: Option<&str>) -> (r: String)
    ensures
        r@ == assets_filter_link(
            match tag { Some(t) => Some(t@), None => None::<Seq<char>> },
            match search_query { Some(q) => Some(q@), None => None::<Seq<char>> },
        ),
{
    if tag.is_none() && search_query.is_none() {
        return "/assets".to_string();
    }
    let mut out: Vec<char> = Vec::new();
    extend_str(&mut out, "/assets?");
    if let Some(t) = tag {
        extend_str(&mut out, "tag=");
        let v = url_query_value(t);
        extend_str(&mut out, v.as_str());
        if search_query.is_some() {
            extend_str(&mut out, "&");
        }
    }
    if let Some(q) = search_query {
        extend_str(&mut out, "q=");
        let v = url_query_value(q);
        extend_str(&mut out, v.as_str());
    }
    from_chars(&out)
}

/// The path of a console page, by the name the layout marks it active with.
pub open spec fn page_path(active: Seq<char>) -> Seq<char> {
    if active == "overview"@ {
        "/"@
    } else if active == "assets"@ {
        "/assets"@
    } else if active == "credentials"@ {
        "/credentials"@
    } else if active == "keys"@ {
        "/keys"@
    } else if active == "known-hosts"@ {
        "/known-hosts"@
    } else if active == "sessions"@ {
        "/sessions"@
    } else if active == "import"@ {
        "/import"@
    } else if active == "settings"@ {
        "/settings"@
    } else if active == "login"@ {
        "/login"@
    } else {
        "/"@
    }
}

/// The path of the active page; unknown names lead to the overview.
pub fn active_path(active: &str) -> (r: &'static str)
    ensures
        r@ == page_path(active@),
{
    if str_eq(active, "overview") {
        "/"
    } else if str_eq(active, "assets") {
        "/assets"
    } else if str_eq(active, "credentials") {
        "/credentials"
    } else if str_eq(active, "keys") {
        "/keys"
    } else if str_eq(active, "known-hosts") {
        "/known-hosts"
    } else if str_eq(active, "sessions") {
        "/sessions"
    } else if str_eq(active, "import") {
        "/import"
    } else if str_eq(active, "settings") {
        "/settings"
    } else if str_eq(active, "login") {
        "/login"
    } else {
        "/"
    }
}

/// The link that switches the console to a language and returns to the page.
pub fn language_switch_href(locale: Locale, active: &str) -> (r: String)
    ensures
        r@ == "/set-language?lang="@ + locale_code(locale) + "&redirect="@ + encoded_bytes(
            vstd::utf8::encode_utf8(page_path(active@)),
        ),
{
    let mut out: Vec<char> = Vec::new();
    extend_str(&mut out, "/set-language?lang=");
    extend_str(&mut out, locale.cookie_value());
    extend_str(&mut out, "&redirect=");
    let v = url_query_value(active_path(active));
    extend_str(&mut out, v.as_str());
    from_chars(&out)
}

// ---------------------------------------------------------------------------
// Labels
// ---------------------------------------------------------------------------

/// The label of an administrator profile; unknown profiles show `none`.
pub fn admin_profile_label(t: &L10n, profile: &str) -> (r: &'static str)
    ensures
        r == if profile@ == ADMIN_PROFILE_OWNER@ {
            t.admin_profile_owner
        } else if profile@ == ADMIN_PROFILE_OPERATOR@ {
            t.admin_profile_operator
        } else if profile@ == ADMIN_PROFILE_VIEWER@ {
            t.admin_profile_viewer
        } else {
            t.none
        },
{
    if str_eq(profile, ADMIN_PROFILE_OWNER) {
        t.admin_profile_owner
    } else if str_eq(profile, ADMIN_PROFILE_OPERATOR) {
        t.admin_profile_operator
    } else if str_eq(profile, ADMIN_PROFILE_VIEWER) {
        t.admin_profile_viewer
    } else {
        t.none
    }
}

/// The label of a protocol or preset; unknown ones show as they are.
pub fn asset_protocol_label<'a>(t: &L10n, protocol: &'a str) -> (r: &'a str)
    ensures
        r == if protocol@ == ASSET_PROTOCOL_SSH@ {
            t.protocol_ssh
        } else if protocol@ == ASSET_PROTOCOL_TCP@ {
            t.protocol_tcp
        } else if protocol@ == ASSET_PRESET_RDP@ {
            t.protocol_rdp
        } else if protocol@ == ASSET_PRESET_VNC@ {
            t.protocol_vnc
        } else if protocol@ == ASSET_PRESET_MYSQL@ {
            t.protocol_mysql
        } else if protocol@ == ASSET_PRESET_POSTGRES@ {
            t.protocol_postgres
        } else if protocol@ == ASSET_PRESET_REDIS@ {
            t.protocol_redis
        } else {
            protocol
        },
{
    if str_eq(protocol, ASSET_PROTOCOL_SSH) {
        t.protocol_ssh
    } else if str_eq(protocol, ASSET_PROTOCOL_TCP) {
        t.protocol_tcp
    } else if str_eq(protocol, ASSET_PRESET_RDP) {
        t.protocol_rdp
    } else if str_eq(protocol, ASSET_PRESET_VNC) {
        t.protocol_vnc
    } else if str_eq(protocol, ASSET_PRESET_MYSQL) {
        t.protocol_mysql
    } else if str_eq(protocol, ASSET_PRESET_POSTGRES) {
        t.protocol_postgres
    } else if str_eq(protocol, ASSET_PRESET_REDIS) {
        t.protocol_redis
    } else {
        protocol
    }
}

/// What an asset is shown as: its preset, else its protocol.
pub fn asset_kind(asset: &Asset) -> (r: &str)
    ensures
        r@ == match asset@.preset { Some(p) => p, None => asset@.protocol },
{
    match &asset.preset {
        Some(p) => p.as_str(),
        None => asset.protocol.as_str(),
    }
}

// ---------------------------------------------------------------------------
// Tunnel commands
// ---------------------------------------------------------------------------

/// A name that can stand in a host name: ASCII letters, digits, `-`, `_`, `.`.
pub open spec fn host_safe(name: Seq<char>) -> bool {
    forall|i: int| 0 <= i < name.len() ==> {
        let c = #[trigger] name[i];
        ('a' <= c && c <= 'z') || ('A' <= c && c <= 'Z') || ('0' <= c && c <= '9') || c == '-' || c == '_' || c == '.'
    }
}

/// The host a tunnel names: `<name>.hop` when the name is host-safe, else
/// the asset's host name.
pub open spec fn tunnel_target(a: AssetView) -> Seq<char> {
    if host_safe(a.name) {
        a.name + ".hop"@
    } else {
        a.hostname
    }
}

/// The host a tunnel to the asset names.
pub fn asset_tunnel_target(asset: &Asset) -> (r: String)
    ensures
        r@ == tunnel_target(asset@),
{
    let name = to_chars(asset.name.as_str());
    let mut i: usize = 0;
    let mut safe = true;
    while i < name.len()
        invariant
            i <= name.len(),
            safe == host_safe(name@.take(i as int)),
        decreases name.len() - i,
    {
        let c = name[i];
        let ok = ('a' <= c && c <= 'z') || ('A' <= c && c <= 'Z') || ('0' <= c && c <= '9') || c == '-' || c == '_' || c == '.';
        proof {
            let t1 = name@.take(i + 1);
            let t0 = name@.take(i as int);
            assert forall|k: int| 0 <= k < i implies #[trigger] t1[k] == t0[k] by {}
            assert(t1[i as int] == c);
            if !ok {
                assert(!host_safe(t1));
            }
            if !safe {
                let k = choose|k: int| 0 <= k < t0.len() && !({
                    let c = #[trigger] t0[k];
                    ('a' <= c && c <= 'z') || ('A' <= c && c <= 'Z') || ('0' <= c && c <= '9') || c == '-' || c == '_' || c == '.'
                });
                assert(t1[k] == t0[k]);
            }
        }
        safe = safe && ok;
        i += 1;
    }
    assert(name@.take(name.len() as int) =~= name@);
    if safe {
        let mut out = name;
        extend_str(&mut out, ".hop");
        from_chars(&out)
    } else {
        asset.hostname.clone()
    }
}

/// The local port a tunnel offers for a preset: a high port that recalls the
/// service's own, else the asset's port.
pub open spec fn tunnel_local_port(a: AssetView) -> int {
    match a.preset {
        Some(p) => if p == ASSET_PRESET_RDP@ {
            13389
        } else if p == ASSET_PRESET_VNC@ {
            15900
        } else if p == ASSET_PRESET_MYSQL@ {
            13306
        } else if p == ASSET_PRESET_POSTGRES@ {
            15432
        } else if p == ASSET_PRESET_REDIS@ {
            16379
        } else {
            a.port as int
        },
        None => a.port as int,
    }
}

/// The `ssh -L` command that reaches a TCP asset through the gateway; SSH
/// assets get none.
pub open spec fn tunnel_command(a: AssetView, ssh_port: u16) -> Option<Seq<char>> {
    if a.protocol == ASSET_PROTOCOL_SSH@ {
        None
    } else {
        Some("ssh -p "@ + dec(ssh_port as nat) + " -N -T -L 127.0.0.1:"@ + dec_int(tunnel_local_port(a)) + ":"@
            + tunnel_target(a) + ":"@ + dec_int(a.port as int) + " hop-host"@)
    }
}

/// The tunnel command offered for an asset.
pub fn asset_tunnel_command(asset: &Asset, ssh_port: u16) -> (r: Option<String>)
    ensures
        opt_view(r) == tunnel_command(asset@, ssh_port),
{
    if str_eq(asset.protocol.as_str(), ASSET_PROTOCOL_SSH) {
        return None;
    }
    let local_port: i64 = match &asset.preset {
        Some(p) => {
            if str_eq(p.as_str(), ASSET_PRESET_RDP) {
                13389
            } else if str_eq(p.as_str(), ASSET_PRESET_VNC) {
                15900
            } else if str_eq(p.as_str(), ASSET_PRESET_MYSQL) {
                13306
            } else if str_eq(p.as_str(), ASSET_PRESET_POSTGRES) {
                15432
            } else if str_eq(p.as_str(), ASSET_PRESET_REDIS) {
                16379
            } else {
                asset.port
            }
        },
        None => asset.port,
    };
    let mut out: Vec<char> = Vec::new();
    extend_str(&mut out, "ssh -p ");
    push_dec(&mut out, ssh_port as u64);
    extend_str(&mut out, " -N -T -L 127.0.0.1:");
    push_dec_i64(&mut out, local_port);
    extend_str(&mut out, ":");
    let target = asset_tunnel_target(asset);
    extend_str(&mut out, target.as_str());
    extend_str(&mut out, ":");
    push_dec_i64(&mut out, asset.port);
    extend_str(&mut out, " hop-host");
    Some(from_chars(&out))
}

// ---------------------------------------------------------------------------
// What belongs to what
// ---------------------------------------------------------------------------

/// The names of the assets that pass a test, in list order.
pub open spec fn names_where(s: Seq<AssetView>, keep: spec_fn(AssetView) -> bool) -> Seq<Seq<char>>
    decreases s.len(),
{
    if s.len() == 0 {
        Seq::empty()
    } else {
        let r = names_where(s.drop_last(), keep);
        if keep(s.last()) {
            r.push(s.last().name)
        } else {
            r
        }
    }
}

/// The test "uses this credential".
pub open spec fn uses_credential(id: Seq<char>) -> spec_fn(AssetView) -> bool {
    |a: AssetView| a.credential_id == Some(id)
}

/// The names of the assets that use a credential.
pub fn credential_assets(assets: &[Asset], credential_id: &str) -> (r: Vec<String>)
    ensures
        crate::model::strings_view(r@) == names_where(assets_view(assets@), uses_credential(credential_id@)),
{
    let mut out: Vec<String> = Vec::new();
    let mut i: usize = 0;
    while i < assets.len()
        invariant
            i <= assets.len(),
            crate::model::strings_view(out@) == names_where(assets_view(assets@).take(i as int), uses_credential(credential_id@)),
        decreases assets.len() - i,
    {
        let a = &assets[i];
        assert(assets_view(assets@).take(i + 1).drop_last() =~= assets_view(assets@).take(i as int));
        assert(assets_view(assets@).take(i + 1).last() == a@);
        let uses = match &a.credential_id {
            Some(c) => str_eq(c.as_str(), credential_id),
            None => false,
        };
        let ghost before = out@;
        if uses {
            out.push(a.name.clone());
            assert(crate::model::strings_view(out@) =~= crate::model::strings_view(before).push(a@.name));
        }
        i += 1;
    }
    assert(assets_view(assets@).take(assets.len() as int) =~= assets_view(assets@));
    out
}

/// The test "is reached at this host and port".
pub open spec fn at_host(hostname: Seq<char>, port: i64) -> spec_fn(AssetView) -> bool {
    |a: AssetView| a.hostname == hostname && a.port == port
}

/// The names of the assets a trusted host key belongs to.
pub fn known_host_assets(assets: &[Asset], host: &KnownHost) -> (r: Vec<String>)
    ensures
        crate::model::strings_view(r@) == names_where(assets_view(assets@), at_host(host.hostname@, host.port)),
{
    let mut out: Vec<String> = Vec::new();
    let mut i: usize = 0;
    while i < assets.len()
        invariant
            i <= assets.len(),
            crate::model::strings_view(out@) == names_where(assets_view(assets@).take(i as int), at_host(host.hostname@, host.port)),
        decreases assets.len() - i,
    {
        let a = &assets[i];
        assert(assets_view(assets@).take(i + 1).drop_last() =~= assets_view(assets@).take(i as int));
        assert(assets_view(assets@).take(i + 1).last() == a@);
        let here = str_eq(a.hostname.as_str(), host.hostname.as_str()) && a.port == host.port;
        let ghost before = out@;
        if here {
            out.push(a.name.clone());
            assert(crate::model::strings_view(out@) =~= crate::model::strings_view(before).push(a@.name));
        }
        i += 1;
    }
    assert(assets_view(assets@).take(assets.len() as int) =~= assets_view(assets@));
    out
}

/// The health status the overview shows for an asset: that of its first
/// probe record, else `unknown`.
pub open spec fn health_status_of(health: Seq<AssetHealth>, asset_id: Seq<char>) -> Seq<char>
    decreases health.len(),
{
    if health.len() == 0 {
        ASSET_HEALTH_UNKNOWN@
    } else if health[0].asset_id@ == asset_id {
        health[0].status@
    } else {
        health_status_of(health.drop_first(), asset_id)
    }
}

/// The health status of an asset.
pub fn asset_health_status<'a>(health: &'a [AssetHealth], asset_id: &str) -> (r: &'a str)
    ensures
        r@ == health_status_of(health@, asset_id@),
{
    let mut i: usize = 0;
    assert(health@.skip(0) =~= health@);
    while i < health.len()
        invariant
            i <= health.len(),
            health_status_of(health@, asset_id@) == health_status_of(health@.skip(i as int), asset_id@),
        decreases health.len() - i,
    {
        assert(health@.skip(i as int)[0] == health@[i as int]);
        if str_eq(health[i].asset_id.as_str(), asset_id) {
            return health[i].status.as_str();
        }
        assert(health@.skip(i as int).drop_first() =~= health@.skip(i + 1));
        i += 1;
    }
    ASSET_HEALTH_UNKNOWN
}

// ---------------------------------------------------------------------------
// Downloads and probes
// ---------------------------------------------------------------------------

/// `attachment; filename="<name>.<extension>"`.
pub fn download_disposition(name: &str, extension: &str) -> (r: String)
    ensures
        r@ == "attachment; filename=\""@ + name@ + "."@ + extension@ + "\""@,
{
    let mut out: Vec<char> = Vec::new();
    extend_str(&mut out, "attachment; filename=\"");
    extend_str(&mut out, name);
    extend_str(&mut out, ".");
    extend_str(&mut out, extension);
    extend_str(&mut out, "\"");
    from_chars(&out)
}

/// An IP address of a listener.
#[derive(Debug, Clone, Copy, PartialEq, Eq, Structural)]
pub enum IpAddress {
    V4(u8, u8, u8, u8),
    V6(u16, u16, u16, u16, u16, u16, u16, u16),
}

/// The address a listener is bound to.
#[derive(Debug, Clone, Copy, PartialEq, Eq, Structural)]
pub struct BindAddress {
    pub ip: IpAddress,
    pub port: u16,
}

/// The address that reaches a listener: the loopback address of the same
/// family when it listens on the unspecified address, else its own.
pub open spec fn probe_target(bind: BindAddress) -> BindAddress {
    match bind.ip {
        IpAddress::V4(0, 0, 0, 0) => BindAddress { ip: IpAddress::V4(127, 0, 0, 1), port: bind.port },
        IpAddress::V6(0, 0, 0, 0, 0, 0, 0, 0) => BindAddress { ip: IpAddress::V6(0, 0, 0, 0, 0, 0, 0, 1), port: bind.port },
        _ => bind,
    }
}

/// Where the overview probes a listener.
pub fn probe_address(bind: BindAddress) -> (r: BindAddress)
    ensures
        r == probe_target(bind),
{
    match bind.ip {
        IpAddress::V4(0, 0, 0, 0) => BindAddress { ip: IpAddress::V4(127, 0, 0, 1), port: bind.port },
        IpAddress::V6(0, 0, 0, 0, 0, 0, 0, 0) => BindAddress { ip: IpAddress::V6(0, 0, 0, 0, 0, 0, 0, 1), port: bind.port },
        _ => bind,
    }
}

// ---------------------------------------------------------------------------
// Overview figures
// ---------------------------------------------------------------------------

/// The number of members of a list that pass a test.
pub open spec fn count_where<T>(s: Seq<T>, keep: spec_fn(T) -> bool) -> nat
    decreases s.len(),
{
    if s.len() == 0 {
        0
    } else {
        count_where(s.drop_last(), keep) + if keep(s.last()) { 1nat } else { 0nat }
    }
}

proof fn lemma_count_where_bound<T>(s: Seq<T>, keep: spec_fn(T) -> bool)
    ensures
        count_where(s, keep) <= s.len(),
    decreases s.len(),
{
    if s.len() > 0 {
        lemma_count_where_bound(s.drop_last(), keep);
    }
}

proof fn lemma_count_where_disjoint<T>(s: Seq<T>, a: spec_fn(T) -> bool, b: spec_fn(T) -> bool)
    requires
        forall|x: T| !(#[trigger] a(x) && b(x)),
    ensures
        count_where(s, a) + count_where(s, b) <= s.len(),
    decreases s.len(),
{
    if s.len() > 0 {
        lemma_count_where_disjoint(s.drop_last(), a, b);
    }
}

proof fn lemma_count_where_sub<T>(s: Seq<T>, a: spec_fn(T) -> bool, b: spec_fn(T) -> bool)
    requires
        forall|x: T| #[trigger] a(x) ==> b(x),
    ensures
        count_where(s, a) <= count_where(s, b),
    decreases s.len(),
{
    if s.len() > 0 {
        lemma_count_where_sub(s.drop_last(), a, b);
    }
}

/// The gateway's own health, as probed for the overview.
#[derive(Debug, Clone, Copy, PartialEq, Eq, Structural)]
pub struct GatewayHealth {
    pub admin_reachable: bool,
    pub ssh_reachable: bool,
    pub database_healthy: bool,
}

/// The figures of the overview.
#[derive(Debug, Clone, Copy, PartialEq, Eq, Structural)]
pub struct OverviewMetrics {
    pub ssh_assets: usize,
    pub managed_ssh_assets: usize,
    pub active_keys: usize,
    pub restricted_keys: usize,
    pub trusted_ssh_assets: usize,
    pub healthy_assets: usize,
    pub failed_assets: usize,
    pub unknown_assets: usize,
    pub unmanaged_ssh_assets: usize,
    pub risk_count: usize,
    pub gateway_operational: bool,
    pub managed_coverage: usize,
    pub restricted_coverage: usize,
    pub trust_coverage: usize,
}

/// An SSH asset.
pub open spec fn is_ssh(a: Asset) -> bool {
    a@.protocol == ASSET_PROTOCOL_SSH@
}

/// An SSH asset with a managed credential.
pub open spec fn is_managed_ssh(a: Asset) -> bool {
    is_ssh(a) && a@.credential_id is Some
}

/// An active key.
pub open spec fn is_active_key(k: AuthorizedKey) -> bool {
    k.is_active
}

/// An active key restricted to chosen assets.
pub open spec fn is_restricted_key(k: AuthorizedKey) -> bool {
    k.is_active && k.asset_access_mode == AssetAccessMode::Restricted
}

/// Some trusted host key matches the asset's host and port.
pub open spec fn host_trusted(hosts: Seq<KnownHost>, a: Asset) -> bool {
    exists|i: int| 0 <= i < hosts.len() && (#[trigger] hosts[i]).hostname@ == a@.hostname && hosts[i].port == a@.port
}

/// The overview's figures, as the page computes them: SSH assets with and
/// without managed credentials and with a trusted host key, active and
/// restricted keys, asset health, the number of risks (failed sources,
/// failed or unknown health, unmanaged SSH assets, assets without any active
/// key) and whether the gateway is operational.
pub open spec fn metrics_of(
    assets: Seq<Asset>,
    keys: Seq<AuthorizedKey>,
    hosts: Seq<KnownHost>,
    health: Seq<AssetHealth>,
    source_errors: nat,
    gateway: GatewayHealth,
) -> OverviewMetrics {
    let ssh = count_where(assets, |a: Asset| is_ssh(a));
    let managed = count_where(assets, |a: Asset| is_managed_ssh(a));
    let active = count_where(keys, |k: AuthorizedKey| is_active_key(k));
    let restricted = count_where(keys, |k: AuthorizedKey| is_restricted_key(k));
    let trusted = count_where(assets, |a: Asset| is_ssh(a) && host_trusted(hosts, a));
    let healthy = count_where(assets, |a: Asset| health_status_of(health, a@.id) == ASSET_HEALTH_HEALTHY@);
    let failed = count_where(assets, |a: Asset| health_status_of(health, a@.id) == ASSET_HEALTH_FAILED@);
    let unknown = (assets.len() - healthy - failed) as nat;
    let unmanaged = sat_sub_nat(ssh, managed);
    let risk = (if source_errors > 0 { 1nat } else { 0nat }) + (if failed > 0 { 1nat } else { 0nat })
        + (if unknown > 0 { 1nat } else { 0nat }) + (if unmanaged > 0 { 1nat } else { 0nat })
        + (if assets.len() > 0 && active == 0 { 1nat } else { 0nat });
    OverviewMetrics {
        ssh_assets: ssh as usize,
        managed_ssh_assets: managed as usize,
        active_keys: active as usize,
        restricted_keys: restricted as usize,
        trusted_ssh_assets: trusted as usize,
        healthy_assets: healthy as usize,
        failed_assets: failed as usize,
        unknown_assets: unknown as usize,
        unmanaged_ssh_assets: unmanaged as usize,
        risk_count: risk as usize,
        gateway_operational: gateway.admin_reachable && gateway.ssh_reachable && gateway.database_healthy && source_errors == 0
            && failed == 0,
        managed_coverage: coverage_of(managed, ssh) as usize,
        restricted_coverage: coverage_of(restricted, active) as usize,
        trust_coverage: coverage_of(trusted, ssh) as usize,
    }
}

/// `a - b`, or zero.
pub open spec fn sat_sub_nat(a: nat, b: nat) -> nat {
    if a >= b { (a - b) as nat } else { 0 }
}

fn trusted_exec(hosts: &[KnownHost], a: &Asset) -> (r: bool)
    ensures
        r == host_trusted(hosts@, *a),
{
    let mut i: usize = 0;
    while i < hosts.len()
        invariant
            i <= hosts.len(),
            forall|j: int| 0 <= j < i ==> !((#[trigger] hosts@[j]).hostname@ == a@.hostname && hosts@[j].port == a@.port),
        decreases hosts.len() - i,
    {
        if str_eq(hosts[i].hostname.as_str(), a.hostname.as_str()) && hosts[i].port == a.port {
            assert(hosts@[i as int].hostname@ == a@.hostname && hosts@[i as int].port == a@.port);
            return true;
        }
        i += 1;
    }
    false
}

/// Computes the overview's figures (see `metrics_of`).
pub fn overview_metrics(
    assets: &[Asset],
    keys: &[AuthorizedKey],
    known_hosts: &[KnownHost],
    health: &[AssetHealth],
    source_error_count: usize,
    gateway: GatewayHealth,
) -> (r: OverviewMetrics)
    ensures
        r == metrics_of(assets@, keys@, known_hosts@, health@, source_error_count as nat, gateway),
{
    let ghost f_ssh = |a: Asset| is_ssh(a);
    let ghost f_managed = |a: Asset| is_managed_ssh(a);
    let ghost f_trusted = |a: Asset| is_ssh(a) && host_trusted(known_hosts@, a);
    let ghost f_healthy = |a: Asset| health_status_of(health@, a@.id) == ASSET_HEALTH_HEALTHY@;
    let ghost f_failed = |a: Asset| health_status_of(health@, a@.id) == ASSET_HEALTH_FAILED@;
    let mut ssh: usize = 0;
    let mut managed: usize = 0;
    let mut trusted: usize = 0;
    let mut healthy: usize = 0;
    let mut failed: usize = 0;
    let mut i: usize = 0;
    while i < assets.len()
        invariant
            i <= assets.len(),
            ssh == count_where(assets@.take(i as int), f_ssh),
            managed == count_where(assets@.take(i as int), f_managed),
            trusted == count_where(assets@.take(i as int), f_trusted),
            healthy == count_where(assets@.take(i as int), f_healthy),
            failed == count_where(assets@.take(i as int), f_failed),
            f_ssh == (|a: Asset| is_ssh(a)),
            f_managed == (|a: Asset| is_managed_ssh(a)),
            f_trusted == (|a: Asset| is_ssh(a) && host_trusted(known_hosts@, a)),
            f_healthy == (|a: Asset| health_status_of(health@, a@.id) == ASSET_HEALTH_HEALTHY@),
            f_failed == (|a: Asset| health_status_of(health@, a@.id) == ASSET_HEALTH_FAILED@),
        decreases assets.len() - i,
    {
        let ghost pre = assets@.take(i as int);
        assert(assets@.take(i + 1).drop_last() =~= pre);
        assert(assets@.take(i + 1).last() == assets@[i as int]);
        proof {
            lemma_count_where_bound(pre, f_ssh);
            lemma_count_where_bound(pre, f_managed);
            lemma_count_where_bound(pre, f_trusted);
            lemma_count_where_bound(pre, f_healthy);
            lemma_count_where_bound(pre, f_failed);
        }
        let a = &assets[i];
        let is_ssh_asset = str_eq(a.protocol.as_str(), ASSET_PROTOCOL_SSH);
        if is_ssh_asset {
            ssh = ssh + 1;
            if a.credential_id.is_some() {
                managed = managed + 1;
            }
            if trusted_exec(known_hosts, a) {
                trusted = trusted + 1;
            }
        }
        let status = asset_health_status(health, a.id.as_str());
        if str_eq(status, ASSET_HEALTH_HEALTHY) {
            healthy = healthy + 1;
        }
        if str_eq(status, ASSET_HEALTH_FAILED) {
            failed = failed + 1;
        }
        i += 1;
    }
    assert(assets@.take(assets.len() as int) =~= assets@);
    let mut active: usize = 0;
    let mut restricted: usize = 0;
    let ghost f_active = |k: AuthorizedKey| is_active_key(k);
    let ghost f_restricted = |k: AuthorizedKey| is_restricted_key(k);
    let mut j: usize = 0;
    while j < keys.len()
        invariant
            j <= keys.len(),
            active == count_where(keys@.take(j as int), f_active),
            restricted == count_where(keys@.take(j as int), f_restricted),
            f_active == (|k: AuthorizedKey| is_active_key(k)),
            f_restricted == (|k: AuthorizedKey| is_restricted_key(k)),
        decreases keys.len() - j,
    {
        let ghost pre = keys@.take(j as int);
        assert(keys@.take(j + 1).drop_last() =~= pre);
        assert(keys@.take(j + 1).last() == keys@[j as int]);
        proof {
            lemma_count_where_bound(pre, f_active);
            lemma_count_where_bound(pre, f_restricted);
        }
        let k = &keys[j];
        if k.is_active {
            active = active + 1;
            match k.asset_access_mode {
                AssetAccessMode::Restricted => {
                    restricted = restricted + 1;
                },
                AssetAccessMode::All => {},
            }
        }
        j += 1;
    }
    assert(keys@.take(keys.len() as int) =~= keys@);
    proof {
        reveal_strlit("healthy");
        reveal_strlit("failed");
        assert(ASSET_HEALTH_HEALTHY@ == "healthy"@);
        assert(ASSET_HEALTH_FAILED@ == "failed"@);
        assert(ASSET_HEALTH_HEALTHY@.len() == 7);
        assert(ASSET_HEALTH_FAILED@.len() == 6);
        assert forall|x: Asset| !(#[trigger] f_healthy(x) && f_failed(x)) by {}
        lemma_count_where_disjoint(assets@, f_healthy, f_failed);
        lemma_count_where_sub(assets@, f_managed, f_ssh);
        lemma_count_where_sub(assets@, f_trusted, f_ssh);
        lemma_count_where_sub(keys@, f_restricted, f_active);
    }
    let unknown = assets.len() - healthy - failed;
    let unmanaged = if ssh >= managed { ssh - managed } else { 0 };
    let risk: usize = (if source_error_count > 0 { 1 } else { 0 }) + (if failed > 0 { 1 } else { 0 })
        + (if unknown > 0 { 1 } else { 0 }) + (if unmanaged > 0 { 1 } else { 0 })
        + (if assets.len() > 0 && active == 0 { 1 } else { 0 });
    OverviewMetrics {
        ssh_assets: ssh,
        managed_ssh_assets: managed,
        active_keys: active,
        restricted_keys: restricted,
        trusted_ssh_assets: trusted,
        healthy_assets: healthy,
        failed_assets: failed,
        unknown_assets: unknown,
        unmanaged_ssh_assets: unmanaged,
        risk_count: risk,
        gateway_operational: gateway.admin_reachable && gateway.ssh_reachable && gateway.database_healthy
            && source_error_count == 0 && failed == 0,
        managed_coverage: coverage_percent(managed, ssh),
        restricted_coverage: coverage_percent(restricted, active),
        trust_coverage: coverage_percent(trusted, ssh),
    }
}


// ---------------------------------------------------------------------------
// The sessions page
// ---------------------------------------------------------------------------

/// The status pill of a session row.
#[derive(Debug, Clone, Copy, PartialEq, Eq, Structural)]
pub enum SessionPill {
    /// The session is registered as running.
    Live,
    /// The session ended with status `failed`.
    Failed,
    /// The session ended with status `ok`.
    Finished,
    /// Any other recorded status.
    Other,
}

/// A running session shows as live whatever its record says; else its
/// status decides.
pub fn session_pill(is_active: bool, status: &str) -> (r: SessionPill)
    ensures
        r == if is_active {
            SessionPill::Live
        } else if status@ == "failed"@ {
            SessionPill::Failed
        } else if status@ == "ok"@ {
            SessionPill::Finished
        } else {
            SessionPill::Other
        },
{
    if is_active {
        SessionPill::Live
    } else if str_eq(status, "failed") {
        SessionPill::Failed
    } else if str_eq(status, "ok") {
        SessionPill::Finished
    } else {
        SessionPill::Other
    }
}

/// Whether a session is among those registered as running.
pub fn session_is_live(active_session_ids: &[String], session_id: &str) -> (r: bool)
    ensures
        r == exists|i: int| 0 <= i < active_session_ids@.len() && (#[trigger] active_session_ids@[i])@ == session_id@,
{
    let mut i: usize = 0;
    while i < active_session_ids.len()
        invariant
            i <= active_session_ids.len(),
            forall|j: int| 0 <= j < i ==> (#[trigger] active_session_ids@[j])@ != session_id@,
        decreases active_session_ids.len() - i,
    {
        if str_eq(active_session_ids[i].as_str(), session_id) {
            return true;
        }
        i += 1;
    }
    false
}

/// The target column of a session row: `host:port` (port 0 when none was
/// recorded), or `-` without a host.
pub fn session_target_text(target_host: Option<&str>, target_port: Option<i64>) -> (r: String)
    ensures
        r@ == match target_host {
            Some(h) => h@ + ":"@ + dec_int(match target_port { Some(p) => p as int, None => 0 }),
            None => "-"@,
        },
{
    match target_host {
        Some(h) => {
            let mut out: Vec<char> = Vec::new();
            extend_str(&mut out, h);
            extend_str(&mut out, ":");
            let port: i64 = match target_port {
                Some(p) => p,
                None => 0,
            };
            push_dec_i64(&mut out, port);
            from_chars(&out)
        },
        None => crate::text::owned("-"),
    }
}


// ---------------------------------------------------------------------------
// The assets page
// ---------------------------------------------------------------------------

/// The asset list is filtered: a tag is selected or the search query holds
/// more than whitespace. An empty filtered list offers to clear the
/// filters; an empty unfiltered one says the inventory is empty.
pub fn assets_filters_active(selected_tag: Option<&str>, search_query: Option<&str>) -> (r: bool)
    ensures
        r == (selected_tag is Some || crate::asset_search::filter_value(match search_query {
            Some(q) => Some(q@),
            None => None::<Seq<char>>,
        }) is Some),
{
    if selected_tag.is_some() {
        return true;
    }
    match search_query {
        Some(q) => {
            let t = crate::text::trim_str(q);
            !t.as_str().is_empty()
        },
        None => false,
    }
}


/// What the overview shows of the gateway itself.
pub struct DashboardGateway {
    pub admin_bind: String,
    pub ssh_bind: String,
    pub version: String,
    pub started_at: String,
    pub uptime_seconds: u64,
    pub admin_reachable: bool,
    pub ssh_reachable: bool,
    pub database_healthy: bool,
}

impl DashboardGateway {
    /// The probes of the gateway's own health.
    pub fn health(&self) -> (r: GatewayHealth)
        ensures
            r == (GatewayHealth {
                admin_reachable: self.admin_reachable,
                ssh_reachable: self.ssh_reachable,
                database_healthy: self.database_healthy,
            }),
    {
        GatewayHealth {
            admin_reachable: self.admin_reachable,
            ssh_reachable: self.ssh_reachable,
            database_healthy: self.database_healthy,
        }
    }
}

/// Everything the overview is drawn from.
pub struct DashboardData {
    pub gateway: DashboardGateway,
    pub assets: Vec<Asset>,
    pub credentials: Vec<Credential>,
    pub keys: Vec<AuthorizedKey>,
    pub known_hosts: Vec<KnownHost>,
    pub asset_health: Vec<AssetHealth>,
    pub recent_sessions: Vec<Session>,
    pub sessions_24h: i64,
    pub recent_admin_events: Vec<AuditEvent>,
    pub source_errors: Vec<String>,
}

impl DashboardData {
    /// The overview's figures for this data (see `metrics_of`).
    pub fn metrics(&self) -> (r: OverviewMetrics)
        ensures
            r == metrics_of(
                self.assets@,
                self.keys@,
                self.known_hosts@,
                self.asset_health@,
                self.source_errors@.len(),
                GatewayHealth {
                    admin_reachable: self.gateway.admin_reachable,
                    ssh_reachable: self.gateway.ssh_reachable,
                    database_healthy: self.gateway.database_healthy,
                },
            ),
    {
        overview_metrics(
            self.assets.as_slice(),
            self.keys.as_slice(),
            self.known_hosts.as_slice(),
            self.asset_health.as_slice(),
            self.source_errors.len(),
            self.gateway.health(),
        )
    }
}

} // verus!
