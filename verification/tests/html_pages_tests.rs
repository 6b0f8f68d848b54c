use hop_server::admin_auth::{ADMIN_PROFILE_OWNER, ADMIN_PROFILE_VIEWER};
use hop_server::asset_pages::{assets, edit_asset};
use hop_server::auth_pages::{login, permission_denied};
use hop_server::console::AdminAccount;
use hop_server::console_pages::{edit_key, keys};
use hop_server::credentials_page::{credentials, edit_credential};
use hop_server::i18n::{en, zh};
use hop_server::import_page::import_export;
use hop_server::known_hosts_page::known_hosts;
use hop_server::layout::layout;
use hop_server::model::{
    Asset, AssetAccessMode, AssetHealth, AuditEvent, AuthorizedKey, Credential, KnownHost, Session, ASSET_HEALTH_HEALTHY,
    ASSET_HEALTH_UNKNOWN, ASSET_PRESET_MYSQL, ASSET_PRESET_POSTGRES, ASSET_PRESET_RDP, ASSET_PRESET_REDIS,
    ASSET_PRESET_VNC, ASSET_PROTOCOL_SSH, ASSET_PROTOCOL_TCP,
};
use hop_server::overview_page::overview;
use hop_server::pages::{DashboardData, DashboardGateway};
use hop_server::sessions_page::sessions;
use hop_server::settings_page::settings;

#[test]
fn mutating_forms_include_csrf_token() {
    let rendered = assets(&en(), &[], &[], "csrf-123", None, None, &[], 2222, true);

    assert!(rendered.contains(r#"name="csrf_token""#));
    assert!(rendered.contains(r#"value="csrf-123""#));
}

#[test]
fn layout_renders_admin_shell_and_active_navigation() {
    let t = en();
    let rendered = layout(t.assets_title, "assets", &t, "<p>content</p>");

    assert!(rendered.contains(r#"class="admin-shell""#));
    assert!(rendered.contains(r#"aria-current="page""#));
    assert!(rendered.contains(r#"href="/assets""#));
    assert!(rendered.contains(r#"href="/settings""#));
    assert!(rendered.contains("/set-language?lang=zh"));
}

#[test]
fn layout_uses_operator_console_theme_tokens() {
    let t = en();
    let rendered = layout(t.assets_title, "assets", &t, "<p>content</p>");

    assert!(rendered.contains(r#"data-theme="operator""#));
    assert!(rendered.contains("--canvas: #0d1117"));
    assert!(rendered.contains("--sidebar: #0a0f16"));
    assert!(rendered.contains("--control: #3b82f6"));
    assert!(rendered.contains("--console-green: #22c55e"));
    assert!(rendered.contains("font-family: Inter, system-ui"));
    assert!(rendered.contains(".mobile-tabbar"));
    assert!(rendered.contains("min-width: 0"));
    assert!(rendered.contains("max-width: 100%"));
    assert!(rendered.contains("@media (prefers-reduced-motion: reduce)"));
}

#[test]
fn layout_css_does_not_emit_html_escaped_quotes() {
    let t = en();
    let rendered = layout(t.assets_title, "assets", &t, "<p>content</p>");

    assert!(!rendered.contains("&quot;"));
}

#[test]
fn layout_localizes_mobile_navigation_labels() {
    let t = zh();
    let rendered = layout(t.assets_title, "assets", &t, "<p>content</p>");

    assert!(rendered.contains("概览"));
    assert!(rendered.contains("资产"));
    assert!(rendered.contains("审计日志"));
    assert!(rendered.contains("设置"));
    assert!(!rendered.contains(">Dash<"));
    assert!(!rendered.contains(">Assets<"));
    assert!(!rendered.contains(">Audit<"));
    assert!(!rendered.contains(">Admin<"));
}

#[test]
fn login_uses_a_dedicated_shell_without_internal_navigation() {
    let rendered = login(&en(), None, false, None);

    assert!(rendered.contains(r#"class="admin-shell login-shell""#));
    assert!(rendered.contains(r#"class="login-brand""#));
    assert!(rendered.contains("Loopback admin"));
    assert!(rendered.contains("/set-language?lang=zh&amp;redirect=%2Flogin"));
    assert!(!rendered.contains(r#"class="sidebar""#));
    assert!(!rendered.contains(r#"class="mobile-tabbar""#));
    assert!(!rendered.contains(r#"href="/""#));
    assert!(!rendered.contains(r#"href="/assets""#));
    assert!(!rendered.contains(r#"href="/credentials""#));
    assert!(!rendered.contains(r#"href="/keys""#));
    assert!(!rendered.contains(r#"href="/known-hosts""#));
    assert!(!rendered.contains(r#"href="/sessions""#));
    assert!(!rendered.contains(r#"href="/import""#));
    assert!(!rendered.contains(r#"href="/settings""#));
}

#[test]
fn login_password_field_supports_password_managers_and_accessible_errors() {
    let rendered = login(&en(), Some("Invalid password"), false, None);

    assert!(rendered.contains(r#"id="login-password""#));
    assert!(rendered.contains(r#"autocomplete="current-password""#));
    assert!(rendered.contains("autofocus"));
    assert!(rendered.contains(r#"id="login-error" role="alert""#));
    assert!(rendered.contains(r#"aria-describedby="login-error""#));
    assert!(rendered.contains(r#"aria-invalid="true""#));

    let without_error = login(&en(), None, false, None);
    assert!(!without_error.contains(r#"id="login-error""#));
    assert!(!without_error.contains(r#"aria-describedby="login-error""#));
    assert_eq!(without_error.matches(r#"aria-invalid="true""#).count(), 1);
    assert_eq!(rendered.matches(r#"aria-invalid="true""#).count(), 2);
}

#[test]
fn login_adds_account_name_only_after_team_mode_is_enabled() {
    let single = login(&en(), None, false, None);
    let team = login(&en(), None, true, Some("alice"));

    assert!(!single.contains(r#"name="username""#));
    assert!(team.contains(r#"name="username""#));
    assert!(team.contains(r#"value="alice""#));
    assert!(team.contains(r#"autocomplete="username""#));
    assert!(team.contains(en().login_team_intro));
}

#[test]
fn overview_renders_metric_tiles_with_labels() {
    let rendered = overview(&en(), &dashboard_data());

    assert!(rendered.contains(r#"class="dashboard-page""#));
    assert!(rendered.contains(r#"class="metric-grid""#));
    assert!(rendered.contains(r#"class="metric-value""#));
    assert!(rendered.contains("Bastion posture"));
    assert!(rendered.contains("Total servers"));
    assert!(rendered.contains("Sessions · 24h"));
    assert!(rendered.contains("Managed SSH coverage"));
    assert!(rendered.contains("Gateway posture"));
    assert!(rendered.contains("Recent SSH access"));
    assert!(rendered.contains("Recent admin changes"));
    assert!(rendered.contains("asset.update"));
    assert!(rendered.contains("50%"));
    assert!(rendered.contains("1 / 2"));
    assert!(!rendered.contains("Admin Web available"));
    assert!(!rendered.contains("Live Sessions"));
    assert!(!rendered.contains("Activity Heatmap"));
    assert!(!rendered.contains("JIT approvals pending"));
    assert!(!rendered.contains("Failed login watch"));
}

#[test]
fn assets_page_renders_tag_filters_and_bulk_editor() {
    let tags = vec!["prod".to_string(), "web".to_string()];
    let rendered = assets(&en(), &[], &[], "csrf-123", Some("prod"), Some("api east"), &tags, 2222, true);

    assert!(rendered.contains(r#"class="assets-page""#));
    assert!(rendered.contains("Inventory, connectivity, and assigned access tags."));
    assert!(rendered.contains("Server inventory"));
    assert!(rendered.contains("Add Asset"));
    assert!(!rendered.contains("<h2>Assets / Servers</h2>"));
    assert!(rendered.contains(r#"method="get" action="/assets""#));
    assert!(rendered.contains(r#"<label class="field" for="asset-search-query">Search assets</label>"#));
    assert!(rendered.contains(r#"type="search" name="q" value="api east""#));
    assert!(rendered.contains(">Search</button>"));
    assert!(rendered.contains(">Clear filters</a>"));
    assert!(rendered.contains(r#"type="hidden" name="tag" value="prod""#));
    assert!(rendered.contains(r#"href="/assets?q=api%20east""#));
    assert!(rendered.contains(r#"href="/assets?tag=prod&amp;q=api%20east""#));
    assert!(rendered.contains(r#"action="/assets/bulk-tags""#));
    assert!(rendered.contains(r#"data-assets-bulk-controls hidden"#));
    assert!(rendered.contains(r#"list="asset-tags-list""#));
}

#[test]
fn assets_page_uses_an_accessible_on_demand_drawer() {
    let rendered = assets(&en(), &[], &[], "csrf-123", None, None, &[], 2222, true);

    assert!(rendered.contains(r#"aria-haspopup="dialog""#));
    assert!(rendered.contains(r#"aria-controls="add-asset-dialog""#));
    assert!(rendered.contains(r#"<dialog class="asset-dialog" id="add-asset-dialog""#));
    assert!(rendered.contains(r#"aria-labelledby="add-asset-title""#));
    assert!(rendered.contains("showModal()"));
    assert!(rendered.contains("event.target===this"));
    assert!(rendered.contains("event.key==='Escape'"));
    assert!(rendered.contains(r#"onclose="document.getElementById('open-add-asset').focus()""#));
    assert!(rendered.contains(r#"aria-label="Close""#));
    assert!(!rendered.contains(r#"class="panel asset-form-panel""#));
}

#[test]
fn assets_page_keeps_targets_intact_and_bulk_controls_progressive() {
    let item = asset("api", "api.internal.example", &["prod"]);
    let rendered = assets(&en(), &[item], &[], "csrf-123", None, None, &[], 2222, true);

    assert!(rendered.contains(r#"class="target-address""#));
    assert!(rendered.contains("api.internal.example:22"));
    assert!(rendered.contains(r#"class="target-copy-button ghost-button""#));
    assert!(rendered.contains(r#"data-copy-value="api.internal.example:22""#));
    assert!(rendered.contains(r#"aria-label="Copy target: api.internal.example:22""#));
    assert!(rendered.contains("window.copyAssetTarget"));
    assert!(rendered.contains(r#"data-assets-bulk-controls hidden"#));
    assert!(rendered.contains(r#"name="tags" placeholder="prod, web" list="asset-tags-list" disabled"#));
    assert!(rendered.contains(r#"type="submit" disabled"#));
    assert!(rendered.contains("syncAssetBulkControls"));
}

#[test]
fn assets_page_opens_edit_drawer_with_current_asset_and_filter_state() {
    let mut item = asset("api", "api.internal.example", &["prod", "web"]);
    item.description = Some("Primary API".to_string());
    let rendered = assets(&en(), &[item], &[], "csrf-123", Some("prod"), Some("api"), &[], 2222, true);

    assert!(rendered.contains(r#"aria-controls="edit-asset-dialog""#));
    assert!(rendered.contains(r#"data-asset-name="api""#));
    assert!(rendered.contains(r#"data-asset-hostname="api.internal.example""#));
    assert!(rendered.contains(r#"data-asset-tags="prod, web""#));
    assert!(rendered.contains(r#"data-asset-description="Primary API""#));
    assert!(rendered.contains(r#"href="/assets/api/edit?return_to=%2Fassets%3Ftag%3Dprod%26q%3Dapi""#));
    assert!(rendered.contains(r#"<dialog class="asset-dialog" id="edit-asset-dialog""#));
    assert!(rendered.contains(r#"data-edit-asset-form"#));
    assert!(rendered.contains(r#"name="return_to" value="/assets?tag=prod&amp;q=api""#));
    assert!(rendered.contains("window.openAssetEditor"));
    assert!(rendered.contains("returnFocusId"));
}

#[test]
fn standalone_asset_edit_keeps_return_location_and_reuses_form_fields() {
    let item = asset("api", "api.internal.example", &["prod"]);
    let rendered = edit_asset(&en(), &item, &[], "csrf-123", &["prod".to_string()], 2222, "/assets?tag=prod");

    assert!(rendered.contains(r#"name="return_to" value="/assets?tag=prod""#));
    assert!(rendered.contains(r#"href="/assets?tag=prod""#));
    assert!(rendered.contains(r#"name="name" value="api""#));
    assert!(rendered.contains(r#"name="hostname" value="api.internal.example""#));
}

#[test]
fn assets_page_distinguishes_inventory_and_filter_empty_states() {
    let t = en();
    let no_assets = assets(&t, &[], &[], "csrf-123", None, None, &[], 2222, true);
    let no_matches = assets(&t, &[], &[], "csrf-123", Some("prod"), Some("missing"), &[], 2222, true);

    assert!(no_assets.contains(t.no_assets));
    assert!(!no_matches.contains(t.no_assets));
    assert!(no_matches.contains(t.assets_filter_heading));
    assert!(no_matches.contains(t.assets_filter_intro));
}

#[test]
fn credentials_page_uses_drawers_secret_states_and_usage_guards() {
    let credential = credential("cred-1", "prod-root", "root", "password");
    let mut assigned_asset = asset("api", "api.internal", &["prod"]);
    assigned_asset.credential_id = Some("cred-1".to_string());
    let rendered = credentials(&en(), &[credential], &[assigned_asset], "csrf-123", None, true);

    assert!(rendered.contains(r#"aria-controls="add-credential-dialog""#));
    assert!(rendered.contains(r#"aria-controls="edit-credential-dialog""#));
    assert!(rendered.contains(r#"<dialog class="admin-drawer-dialog" id="add-credential-dialog""#));
    assert!(rendered.contains(r#"<dialog class="admin-drawer-dialog" id="edit-credential-dialog""#));
    assert!(rendered.contains(r#"autocomplete="new-password""#));
    assert!(rendered.contains(r#"data-secret-for="key key+passphrase" hidden"#));
    assert!(rendered.contains(r#"data-has-password="true""#));
    assert!(rendered.contains("1 assets"));
    assert!(rendered.contains("api"));
    assert!(rendered.contains(r#"class="danger" type="submit" disabled"#));
    assert!(rendered.contains("window.openCredentialEditor"));
    assert!(rendered.contains("window.hopToggleCredentialSecrets"));
}

#[test]
fn credential_fallback_edit_never_renders_existing_secrets() {
    let credential = credential("cred-1", "prod-root", "root", "password");
    let rendered = edit_credential(&en(), &credential, &[], "csrf-123");

    assert!(rendered.contains("Encrypted value stored"));
    assert!(rendered.contains(r#"name="password" autocomplete="new-password""#));
    assert!(!rendered.contains("encrypted-password"));
    assert!(rendered.contains(en().secret_keep_note));
}

#[test]
fn known_hosts_page_explains_and_confirms_trust_reset() {
    let host = KnownHost {
        hostname: "api.internal".to_string(),
        port: 22,
        key_type: "ssh-ed25519".to_string(),
        fingerprint: "SHA256:trusted".to_string(),
        first_seen: Some("2026-07-28 10:00:00".to_string()),
    };
    let assigned_asset = asset("api", "api.internal", &["prod"]);
    let rendered = known_hosts(&en(), &[host], &[assigned_asset], "csrf-123", true);

    assert!(rendered.contains(en().known_hosts_reset_note));
    assert!(rendered.contains("1 assets"));
    assert!(rendered.contains(r#"data-copy-value="SHA256:trusted""#));
    assert!(rendered.contains(r#"aria-controls="reset-known-host-dialog""#));
    assert!(rendered.contains(r#"<dialog class="confirm-dialog" id="reset-known-host-dialog""#));
    assert!(rendered.contains(r#"name="confirm_reset" value="yes""#));
    assert!(rendered.contains(r#"data-reset-submit disabled"#));
    assert!(rendered.contains("window.openKnownHostReset"));
    assert!(rendered.contains("window.copyKnownHostFingerprint"));
}

#[test]
fn sessions_page_renders_as_audit_replay_console() {
    let session_items = vec![Session {
        id: "session-1".to_string(),
        key_finger: "SHA256:test".to_string(),
        key_name: Some("alice".to_string()),
        mode: "direct".to_string(),
        asset_name: Some("prod-api-01".to_string()),
        target_host: Some("10.42.1.12".to_string()),
        target_port: Some(22),
        client_ip: Some("10.42.0.18".to_string()),
        status: "failed".to_string(),
        error: Some("password rejected".to_string()),
        started_at: Some("2026-06-17T14:39:12Z".to_string()),
        ended_at: None,
    }];
    let admin_events = vec![AuditEvent {
        occurred_at: Some("2026-06-17T14:40:00Z".to_string()),
        actor_label: "Local admin".to_string(),
        action: "asset.update".to_string(),
        target_type: "asset".to_string(),
        target_id: Some("prod-api-01".to_string()),
        target_label: Some("prod-api-01".to_string()),
        result: "success".to_string(),
        source_ip: Some("127.0.0.1".to_string()),
        details_json: Some(r#"{"protocol":"ssh"}"#.to_string()),
    }];
    let rendered = sessions(&en(), &session_items, &admin_events, &[], "csrf-123", false);

    assert!(rendered.contains(r#"class="audit-page""#));
    assert!(rendered.contains("Audit Logs"));
    assert!(rendered.contains("Administrative changes and SSH access"));
    assert!(rendered.contains("hop admin sessions --limit 100"));
    assert!(rendered.contains("direct"));
    assert!(rendered.contains("asset.update"));
    assert!(rendered.contains("Local admin"));
    assert!(rendered.contains("password rejected"));
    assert!(!rendered.contains("AUTH_FAIL"));
    assert!(!rendered.contains("Replay: latest SSH trace"));
    assert!(!rendered.contains("sudo systemctl reload postgres"));
    assert!(!rendered.contains("Policy Feed"));
}

#[test]
fn sessions_page_exposes_controls_for_registered_live_sessions() {
    let session_items = vec![Session {
        id: "session-live".to_string(),
        key_finger: "SHA256:test".to_string(),
        key_name: Some("alice".to_string()),
        mode: "exec".to_string(),
        asset_name: Some("prod-api-01".to_string()),
        target_host: Some("10.42.1.12".to_string()),
        target_port: Some(22),
        client_ip: Some("10.42.0.18".to_string()),
        status: "started".to_string(),
        error: None,
        started_at: Some("2026-06-17T14:39:12Z".to_string()),
        ended_at: None,
    }];
    let rendered = sessions(&en(), &session_items, &[], &["session-live".to_string()], "csrf-123", true);

    assert!(rendered.contains(r#"action="/sessions/terminate-all""#));
    assert!(rendered.contains(r#"action="/sessions/session-live/terminate""#));
    assert!(rendered.contains(r#"name="csrf_token" value="csrf-123""#));
    assert!(rendered.contains(en().sessions_terminate));
}

#[test]
fn assets_page_renders_protocol_controls_and_rdp_tunnel_hint() {
    let mut rdp = asset("win-rdp", "10.0.2.20", &["windows"]);
    rdp.protocol = ASSET_PROTOCOL_TCP.to_string();
    rdp.preset = Some(ASSET_PRESET_RDP.to_string());
    rdp.port = 3389;

    let rendered = assets(&en(), &[rdp], &[], "csrf-123", None, None, &[], 2222, true);

    assert!(rendered.contains(r#"name="protocol""#));
    assert!(rendered.contains(r#"value="rdp""#));
    assert!(rendered.contains("RDP"));
    assert!(rendered.contains(r#"data-rdp-port-hint"#));
    assert!(rendered.contains("3390"));
    assert!(rendered.contains("ssh -p 2222 -N -T -L 127.0.0.1:13389:win-rdp.hop:3389 hop-host"));
}

#[test]
fn assets_page_renders_generic_tcp_presets_with_shared_tunnel_transport() {
    let cases = [
        (ASSET_PRESET_VNC, 5900, 15900),
        (ASSET_PRESET_MYSQL, 3306, 13306),
        (ASSET_PRESET_POSTGRES, 5432, 15432),
        (ASSET_PRESET_REDIS, 6379, 16379),
    ];

    for (preset, remote_port, local_port) in cases {
        let mut item = asset(preset, "10.0.0.20", &[]);
        item.protocol = ASSET_PROTOCOL_TCP.to_string();
        item.preset = Some(preset.to_string());
        item.port = remote_port;
        let rendered = assets(&en(), &[item], &[], "csrf-123", None, None, &[], 2222, true);

        assert!(rendered.contains(&format!(r#"value="{preset}""#)));
        assert!(rendered.contains(&format!(
            "ssh -p 2222 -N -T -L 127.0.0.1:{local_port}:{preset}.hop:{remote_port} hop-host"
        )));
    }
}

#[test]
fn settings_page_renders_admin_password_form() {
    let current = admin_user("local-admin", "admin", ADMIN_PROFILE_OWNER, true);
    let rendered = settings(&en(), &current, std::slice::from_ref(&current), "csrf-123", Some("problem"), true);

    assert!(rendered.contains(r#"action="/settings""#));
    assert!(rendered.contains(r#"name="current_password""#));
    assert!(rendered.contains(r#"name="new_password""#));
    assert!(rendered.contains(r#"name="confirm_password""#));
    assert!(rendered.contains(r#"value="csrf-123""#));
    assert!(rendered.contains("problem"));
    assert!(rendered.contains(r#"id="add-admin-dialog""#));
    assert!(rendered.contains(en().admin_single_mode));
    assert!(rendered.contains(r#"name="access_profile""#));
    assert!(!rendered.contains("RBAC"));
}

#[test]
fn settings_progressively_shows_team_accounts_and_hides_management_for_viewers() {
    let owner = admin_user("local-admin", "admin", ADMIN_PROFILE_OWNER, true);
    let viewer = admin_user("viewer-1", "auditor", ADMIN_PROFILE_VIEWER, true);
    let rendered = settings(&en(), &viewer, &[owner, viewer.clone()], "csrf-123", None, false);

    assert!(rendered.contains(en().admin_team_mode));
    assert!(rendered.contains("@auditor"));
    assert!(rendered.contains(en().admin_profile_viewer));
    assert!(!rendered.contains(r#"id="add-admin-dialog""#));
    assert!(!rendered.contains(r#"action="/settings/admins""#));
}

#[test]
fn access_page_creates_scope_in_the_same_lightweight_flow() {
    let first = asset("first", "10.0.0.1", &["prod"]);
    let rendered = keys(&en(), &[], &[first], "csrf-123", None, true);

    assert!(rendered.contains("People &amp; SSH access"));
    assert!(rendered.contains(r#"name="asset_access_mode""#));
    assert!(rendered.contains(r#"name="asset_id""#));
    assert!(rendered.contains(en().key_access_all));
    assert!(rendered.contains(en().key_access_restricted));
    assert!(!rendered.contains("RBAC"));
}

#[test]
fn read_only_pages_hide_mutating_affordances_but_keep_safe_actions() {
    let t = en();
    let item = asset("first", "10.0.0.1", &["prod"]);
    let asset_page = assets(&t, std::slice::from_ref(&item), &[], "csrf-123", None, None, &["prod".to_string()], 2222, false);
    assert!(asset_page.contains(t.asset_copy_target));
    assert!(asset_page.contains(t.export_csv));
    assert!(!asset_page.contains(r#"id="open-add-asset""#));
    assert!(!asset_page.contains(r#"type="checkbox" name="asset_ids""#));
    assert!(!asset_page.contains(r#"id="edit-asset-first""#));
    assert!(!asset_page.contains(r#"formaction="/assets/first/delete""#));
    assert!(!asset_page.contains(r#"class="ghost-button" href="/import""#));

    let credential_page =
        credentials(&t, &[credential("cred-1", "prod-root", "root", "password")], &[], "csrf-123", None, false);
    assert!(credential_page.contains(t.export_csv));
    assert!(!credential_page.contains(r#"id="open-add-credential""#));
    assert!(!credential_page.contains(r#"id="edit-credential-cred-1""#));
    assert!(!credential_page.contains(r#"/credentials/cred-1/delete"#));

    let key_page = keys(&t, &[authorized_key(AssetAccessMode::All)], &[item], "csrf-123", None, false);
    assert!(key_page.contains(t.keys_existing_heading));
    assert!(!key_page.contains(r#"action="/keys""#));
    assert!(!key_page.contains("/edit"));
    assert!(!key_page.contains("/deactivate"));

    let host = KnownHost {
        hostname: "10.0.0.1".to_string(),
        port: 22,
        key_type: "ssh-ed25519".to_string(),
        fingerprint: "SHA256:trusted".to_string(),
        first_seen: None,
    };
    let host_page = known_hosts(&t, &[host], &[], "csrf-123", false);
    assert!(host_page.contains(t.known_host_copy_fingerprint));
    assert!(!host_page.contains(r#"aria-controls="reset-known-host-dialog""#));
}

#[test]
fn permission_request_copy_uses_locale_appropriate_spacing_and_punctuation() {
    let english = permission_denied(&en(), en().nav_assets, ADMIN_PROFILE_VIEWER);
    let chinese = permission_denied(&zh(), zh().nav_assets, ADMIN_PROFILE_VIEWER);

    assert!(english.contains("Request: please allow me to manage Assets."));
    assert!(chinese.contains("请求文案：请允许我管理资产。"));
}

#[test]
fn key_edit_page_renders_access_modes_search_and_assignments() {
    let mut key = authorized_key(AssetAccessMode::Restricted);
    let first = asset("first", "10.0.0.1", &["prod"]);
    let second = asset("second", "10.0.0.2", &[]);
    let rendered = edit_key(
        &en(),
        &key,
        &[first.clone(), second],
        std::slice::from_ref(&first.id),
        "csrf-123",
        Some("validation failed"),
    );

    assert!(rendered.contains(r#"name="asset_access_mode""#));
    assert!(rendered.contains(r#"value="all""#));
    assert!(rendered.contains(r#"value="restricted" selected"#));
    assert!(rendered.contains(r#"type="search""#));
    assert!(rendered.contains(&format!(r#"value="{}" checked"#, first.id)));
    assert!(rendered.contains("1 / 2 assets"));
    assert!(rendered.contains("validation failed"));
    assert!(rendered.contains(r#"name="csrf_token" value="csrf-123""#));

    key.asset_access_mode = AssetAccessMode::All;
    let all_rendered = edit_key(&en(), &key, &[first], &[], "csrf-123", None);
    assert!(all_rendered.contains(r#"value="all" selected"#));
    assert!(all_rendered.contains("1 / 1 assets"));
    assert!(all_rendered.contains("Current and future assets are automatically accessible."));
}

#[test]
fn import_page_uses_multipart_upload_form() {
    let rendered = import_export(&en(), "csrf-123", None);

    assert!(rendered.contains(r#"enctype="multipart/form-data""#));
    assert!(rendered.contains(r#"type="file""#));
}

fn asset(name: &str, hostname: &str, tags: &[&str]) -> Asset {
    Asset {
        id: name.to_string(),
        name: name.to_string(),
        protocol: ASSET_PROTOCOL_SSH.to_string(),
        preset: None,
        hostname: hostname.to_string(),
        port: 22,
        description: None,
        tags: tags.iter().map(|tag| tag.to_string()).collect(),
        credential_id: None,
        created_at: None,
        updated_at: None,
    }
}

fn credential(id: &str, name: &str, username: &str, auth_type: &str) -> Credential {
    Credential {
        id: id.to_string(),
        name: name.to_string(),
        username: username.to_string(),
        auth_type: auth_type.to_string(),
        password_enc: Some("encrypted-password".to_string()),
        private_key_enc: None,
        passphrase_enc: None,
        created_at: None,
    }
}

fn authorized_key(mode: AssetAccessMode) -> AuthorizedKey {
    AuthorizedKey {
        id: "key-1".to_string(),
        name: "laptop".to_string(),
        public_key: "ssh-ed25519 AAAA".to_string(),
        fingerprint: "SHA256:test".to_string(),
        is_active: true,
        asset_access_mode: mode,
        created_at: None,
    }
}

fn admin_user(id: &str, username: &str, access_profile: &str, is_active: bool) -> AdminAccount {
    AdminAccount {
        id: id.to_string(),
        username: username.to_string(),
        display_name: if id == "local-admin" { "Local admin".to_string() } else { username.to_string() },
        is_active,
        access_profile: access_profile.to_string(),
        must_change_password: false,
        last_login_at: None,
    }
}

fn dashboard_data() -> DashboardData {
    let mut managed = asset("managed-prod", "managed.prod.internal", &["prod"]);
    managed.credential_id = Some("credential-1".to_string());
    let unmanaged = asset("unmanaged-stage", "stage.internal", &["stage"]);
    DashboardData {
        gateway: DashboardGateway {
            admin_bind: "127.0.0.1:8080".to_string(),
            ssh_bind: "127.0.0.1:2222".to_string(),
            version: "0.1.5".to_string(),
            started_at: "2026-07-28T10:00:00Z".to_string(),
            uptime_seconds: 3_661,
            admin_reachable: true,
            ssh_reachable: true,
            database_healthy: true,
        },
        assets: vec![managed.clone(), unmanaged.clone()],
        credentials: vec![credential("credential-1", "production", "root", "password")],
        keys: vec![AuthorizedKey {
            id: "key-1".to_string(),
            name: "Alice laptop".to_string(),
            public_key: "ssh-ed25519 AAAA".to_string(),
            fingerprint: "SHA256:alice".to_string(),
            is_active: true,
            asset_access_mode: AssetAccessMode::Restricted,
            created_at: Some("2026-07-28 10:00:00".to_string()),
        }],
        known_hosts: vec![KnownHost {
            hostname: managed.hostname.clone(),
            port: managed.port,
            key_type: "ssh-ed25519".to_string(),
            fingerprint: "SHA256:managed".to_string(),
            first_seen: Some("2026-07-28 10:00:00".to_string()),
        }],
        asset_health: vec![
            AssetHealth {
                asset_id: managed.id.clone(),
                status: ASSET_HEALTH_HEALTHY.to_string(),
                checked_at: Some("2026-07-28 10:00:00".to_string()),
                error: None,
            },
            AssetHealth {
                asset_id: unmanaged.id.clone(),
                status: ASSET_HEALTH_UNKNOWN.to_string(),
                checked_at: None,
                error: None,
            },
        ],
        recent_sessions: vec![Session {
            id: "session-1".to_string(),
            key_finger: "SHA256:alice".to_string(),
            key_name: Some("Alice laptop".to_string()),
            mode: "direct".to_string(),
            asset_name: Some(managed.name.clone()),
            target_host: Some(managed.hostname.clone()),
            target_port: Some(managed.port),
            client_ip: Some("127.0.0.1".to_string()),
            status: "ok".to_string(),
            error: None,
            started_at: Some("2026-07-28 10:00:00".to_string()),
            ended_at: Some("2026-07-28 10:00:08".to_string()),
        }],
        sessions_24h: 5,
        recent_admin_events: vec![AuditEvent {
            occurred_at: Some("2026-07-28 10:01:00".to_string()),
            actor_label: "Local admin".to_string(),
            action: "asset.update".to_string(),
            target_type: "asset".to_string(),
            target_id: Some(managed.id.clone()),
            target_label: Some(managed.name.clone()),
            result: "success".to_string(),
            source_ip: Some("127.0.0.1".to_string()),
            details_json: None,
        }],
        source_errors: Vec::new(),
    }
}
