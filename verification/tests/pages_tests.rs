use hop_server::i18n::{en, Locale};
use hop_server::model::{Asset, AssetAccessMode, AssetHealth, AuthorizedKey, KnownHost, Session};
use hop_server::page_scripts::{asset_protocol_onchange, key_access_mode_onchange, ASSET_PROTOCOL_ONCHANGE};
use hop_server::pages::{
    active_path, admin_profile_label, assets_filters_active, asset_health_status, asset_kind, asset_protocol_label, asset_tunnel_command,
    asset_tunnel_target, assets_filter_href, coverage_percent, credential_assets, download_disposition,
    known_host_assets, language_switch_href, overview_metrics, session_duration_label, session_is_live, session_pill,
    session_target_text, uptime_label, url_query_value, DashboardData, DashboardGateway, GatewayHealth, SessionPill,
};

fn asset(name: &str, protocol: &str, preset: Option<&str>, port: i64) -> Asset {
    Asset {
        id: name.to_string(),
        name: name.to_string(),
        protocol: protocol.to_string(),
        preset: preset.map(str::to_string),
        hostname: "10.0.0.8".to_string(),
        port,
        description: None,
        tags: vec![],
        credential_id: None,
        created_at: None,
        updated_at: None,
    }
}

fn session(started_at: Option<&str>, ended_at: Option<&str>) -> Session {
    Session {
        id: "session-duration".to_string(),
        key_finger: "SHA256:test".to_string(),
        key_name: Some("alice".to_string()),
        mode: "direct".to_string(),
        asset_name: Some("prod-api".to_string()),
        target_host: Some("10.0.0.8".to_string()),
        target_port: Some(22),
        client_ip: None,
        status: "ok".to_string(),
        error: None,
        started_at: started_at.map(str::to_string),
        ended_at: ended_at.map(str::to_string),
    }
}

#[test]
fn dashboard_helpers_keep_zero_denominators_and_durations_explainable() {
    assert_eq!(coverage_percent(0, 0), 0);
    assert_eq!(coverage_percent(1, 3), 33);
    assert_eq!(uptime_label(3_661), "1h 1m");
    let session = session(Some("2026-07-28 10:00:00"), Some("2026-07-28 10:02:05"));
    assert_eq!(session_duration_label(&session), "2m 5s");
}

#[test]
fn durations_cover_hours_rfc3339_and_unfinished_sessions() {
    assert_eq!(session_duration_label(&session(Some("2026-07-28T10:00:00Z"), Some("2026-07-28T12:30:10+00:00"))), "2h 30m");
    assert_eq!(session_duration_label(&session(Some("2026-07-28 10:00:00"), None)), "—");
    assert_eq!(session_duration_label(&session(Some("garbage"), Some("2026-07-28 10:00:00"))), "—");
    assert_eq!(session_duration_label(&session(Some("2026-07-28 10:00:09"), Some("2026-07-28 10:00:00"))), "0s");
    assert_eq!(uptime_label(90_000), "1d 1h");
    assert_eq!(uptime_label(59), "0m");
}

#[test]
fn links_encode_query_values() {
    assert_eq!(url_query_value("api east/ü~"), "api%20east%2F%C3%BC~");
    assert_eq!(assets_filter_href(None, None), "/assets");
    assert_eq!(assets_filter_href(Some("prod"), Some("api east")), "/assets?tag=prod&q=api%20east");
    assert_eq!(assets_filter_href(None, Some("x")), "/assets?q=x");
    assert_eq!(active_path("known-hosts"), "/known-hosts");
    assert_eq!(active_path("unknown"), "/");
    assert_eq!(language_switch_href(Locale::Zh, "assets"), "/set-language?lang=zh&redirect=%2Fassets");
    assert_eq!(download_disposition("assets", "csv"), "attachment; filename=\"assets.csv\"");
}

#[test]
fn tunnels_name_the_asset_or_its_host() {
    let rdp = asset("win-01", "tcp", Some("rdp"), 3389);
    assert_eq!(
        asset_tunnel_command(&rdp, 2222).as_deref(),
        Some("ssh -p 2222 -N -T -L 127.0.0.1:13389:win-01.hop:3389 hop-host")
    );
    let odd = asset("Reporting database", "tcp", None, 5432);
    assert_eq!(asset_tunnel_target(&odd), "10.0.0.8");
    assert_eq!(
        asset_tunnel_command(&odd, 22).as_deref(),
        Some("ssh -p 22 -N -T -L 127.0.0.1:5432:10.0.0.8:5432 hop-host")
    );
    assert!(asset_tunnel_command(&asset("web", "ssh", None, 22), 22).is_none());
    assert_eq!(asset_kind(&rdp), "rdp");
}

#[test]
fn labels_follow_the_language() {
    let t = en();
    assert_eq!(admin_profile_label(&t, "viewer"), t.admin_profile_viewer);
    assert_eq!(admin_profile_label(&t, "custom"), t.none);
    assert_eq!(asset_protocol_label(&t, "postgres"), t.protocol_postgres);
    assert_eq!(asset_protocol_label(&t, "gopher"), "gopher");
}

#[test]
fn ownership_lists_name_the_assets() {
    let mut a = asset("a", "ssh", None, 22);
    a.credential_id = Some("cred-1".to_string());
    let b = asset("b", "ssh", None, 2222);
    let assets = vec![a, b];
    assert_eq!(credential_assets(&assets, "cred-1"), vec!["a"]);
    let host = KnownHost {
        hostname: "10.0.0.8".to_string(),
        port: 2222,
        key_type: "ssh-ed25519".to_string(),
        fingerprint: "SHA256:x".to_string(),
        first_seen: None,
    };
    assert_eq!(known_host_assets(&assets, &host), vec!["b"]);
}

#[test]
fn overview_figures_count_coverage_and_risks() {
    let mut managed = asset("a", "ssh", None, 22);
    managed.credential_id = Some("cred-1".to_string());
    let unmanaged = asset("b", "ssh", None, 2222);
    let tcp = asset("c", "tcp", Some("rdp"), 3389);
    let assets = vec![managed, unmanaged, tcp];
    let keys = vec![
        AuthorizedKey {
            id: "k1".to_string(),
            name: "laptop".to_string(),
            public_key: "ssh-ed25519 AAAA".to_string(),
            fingerprint: "SHA256:k1".to_string(),
            is_active: true,
            asset_access_mode: AssetAccessMode::Restricted,
            created_at: None,
        },
        AuthorizedKey {
            id: "k2".to_string(),
            name: "old".to_string(),
            public_key: "ssh-ed25519 BBBB".to_string(),
            fingerprint: "SHA256:k2".to_string(),
            is_active: false,
            asset_access_mode: AssetAccessMode::All,
            created_at: None,
        },
    ];
    let hosts = vec![KnownHost {
        hostname: "10.0.0.8".to_string(),
        port: 22,
        key_type: "ssh-ed25519".to_string(),
        fingerprint: "SHA256:h".to_string(),
        first_seen: None,
    }];
    let health = vec![
        AssetHealth { asset_id: "a".to_string(), status: "healthy".to_string(), checked_at: None, error: None },
        AssetHealth { asset_id: "b".to_string(), status: "failed".to_string(), checked_at: None, error: None },
    ];
    let gateway = GatewayHealth { admin_reachable: true, ssh_reachable: true, database_healthy: true };
    let m = overview_metrics(&assets, &keys, &hosts, &health, 0, gateway);
    assert_eq!(m.ssh_assets, 2);
    assert_eq!(m.managed_ssh_assets, 1);
    assert_eq!(m.active_keys, 1);
    assert_eq!(m.restricted_keys, 1);
    assert_eq!(m.trusted_ssh_assets, 1);
    assert_eq!((m.healthy_assets, m.failed_assets, m.unknown_assets), (1, 1, 1));
    assert_eq!(m.unmanaged_ssh_assets, 1);
    assert_eq!(m.risk_count, 3);
    assert!(!m.gateway_operational);
    assert_eq!((m.managed_coverage, m.restricted_coverage, m.trust_coverage), (50, 100, 50));
    assert_eq!(asset_health_status(&health, "c"), "unknown");
}

#[test]
fn dashboard_data_yields_the_overview_figures_of_its_parts() {
    let mut managed = asset("a", "ssh", None, 22);
    managed.credential_id = Some("cred-1".to_string());
    let assets = vec![managed, asset("b", "ssh", None, 2222)];
    let health = vec![AssetHealth { asset_id: "b".to_string(), status: "failed".to_string(), checked_at: None, error: None }];
    let data = DashboardData {
        gateway: DashboardGateway {
            admin_bind: "127.0.0.1:8080".to_string(),
            ssh_bind: "0.0.0.0:2222".to_string(),
            version: "0.1.0".to_string(),
            started_at: "2024-01-01T00:00:00Z".to_string(),
            uptime_seconds: 90,
            admin_reachable: true,
            ssh_reachable: false,
            database_healthy: true,
        },
        assets: assets.clone(),
        credentials: vec![],
        keys: vec![],
        known_hosts: vec![],
        asset_health: health.clone(),
        recent_sessions: vec![],
        sessions_24h: 3,
        recent_admin_events: vec![],
        source_errors: vec!["manifest.toml: bad port".to_string()],
    };
    let gateway = data.gateway.health();
    assert_eq!(gateway, GatewayHealth { admin_reachable: true, ssh_reachable: false, database_healthy: true });
    let m = data.metrics();
    assert_eq!(m, overview_metrics(&assets, &[], &[], &health, 1, gateway));
    assert!(!m.gateway_operational);
    assert_eq!((m.failed_assets, m.unknown_assets, m.unmanaged_ssh_assets), (1, 1, 1));
    assert_eq!(m.risk_count, 5);
}

#[test]
fn page_scripts_are_served_verbatim() {
    assert_eq!(asset_protocol_onchange(), ASSET_PROTOCOL_ONCHANGE);
    assert_eq!(key_access_mode_onchange(), "window.hopToggleKeyAccess(this.form)");
}

#[test]
fn session_rows_show_live_sessions_first_then_their_status() {
    let live = vec!["s-1".to_string(), "s-2".to_string()];
    assert!(session_is_live(&live, "s-2"));
    assert!(!session_is_live(&live, "s-3"));
    assert_eq!(session_pill(true, "failed"), SessionPill::Live);
    assert_eq!(session_pill(false, "failed"), SessionPill::Failed);
    assert_eq!(session_pill(false, "ok"), SessionPill::Finished);
    assert_eq!(session_pill(false, "running"), SessionPill::Other);
    assert_eq!(session_target_text(Some("10.0.0.5"), Some(2222)), "10.0.0.5:2222");
    assert_eq!(session_target_text(Some("db"), None), "db:0");
    assert_eq!(session_target_text(None, Some(22)), "-");
}

#[test]
fn blank_search_is_no_filter_for_the_empty_state() {
    assert!(!assets_filters_active(None, None));
    assert!(!assets_filters_active(None, Some("   ")));
    assert!(assets_filters_active(None, Some(" web ")));
    assert!(assets_filters_active(Some("prod"), None));
}
