use hop_server::admin_auth::AdminCapability;
use hop_server::admin_password::AdminPasswordChangeError;
use hop_server::asset_search::{
    asset_matches_query, collect_tags, credential_is_in_use, filter_assets, parse_tags,
};
use hop_server::console::{
    access_change_error_message, assets_return_to, capability_check, checkbox_on, choose_login_account,
    dashboard_value, language_cookie, login_failure_label, login_location, safe_redirect,
    settings_password_error_code, settings_password_error_message, signs_out_after_access_change, task_label,
    temporary_password_long_enough, trust_reset_confirmed, AdminAccount, CapabilityCheck, ConsoleTask,
};
use hop_server::forms::{new_asset_from_form, parse_bulk_tags_body, parse_key_access_form, AssetForm, FormError};
use hop_server::i18n::{en, locale_from_code, zh, Locale, LOCALE_COOKIE};
use hop_server::model::{Asset, ASSET_PROTOCOL_SSH};
use hop_server::pages::{probe_address, BindAddress, IpAddress};

fn test_assets() -> Vec<Asset> {
    vec![
        Asset {
            id: "web-prod".to_string(),
            name: "web-prod-01".to_string(),
            protocol: "ssh".to_string(),
            preset: None,
            hostname: "app01.internal".to_string(),
            port: 22,
            description: Some("Primary frontend".to_string()),
            tags: vec!["prod".to_string(), "web".to_string()],
            credential_id: None,
            created_at: None,
            updated_at: None,
        },
        Asset {
            id: "windows-ops".to_string(),
            name: "Operations desktop".to_string(),
            protocol: "tcp".to_string(),
            preset: Some("rdp".to_string()),
            hostname: "10.0.2.20".to_string(),
            port: 3389,
            description: Some("Remote desktop".to_string()),
            tags: vec!["prod".to_string(), "windows".to_string()],
            credential_id: None,
            created_at: None,
            updated_at: None,
        },
        Asset {
            id: "database-stage".to_string(),
            name: "Reporting database".to_string(),
            protocol: "tcp".to_string(),
            preset: Some("postgresql".to_string()),
            hostname: "db.stage.internal".to_string(),
            port: 5432,
            description: None,
            tags: vec!["staging".to_string(), "database".to_string()],
            credential_id: None,
            created_at: None,
            updated_at: None,
        },
    ]
}

fn filtered_asset_ids(tag: Option<&str>, query: Option<&str>) -> Vec<String> {
    filter_assets(&test_assets(), tag, query).into_iter().map(|asset| asset.id).collect()
}

#[test]
fn asset_filter_supports_query_only() {
    assert_eq!(filtered_asset_ids(None, Some("remote desktop")), vec!["windows-ops"]);
}

#[test]
fn asset_filter_searches_every_supported_field() {
    for (query, expected_id) in [
        ("Web-PROD-01", "web-prod"),
        ("app01.internal", "web-prod"),
        ("22", "web-prod"),
        ("Primary frontend", "web-prod"),
        ("frontend", "web-prod"),
        ("ssh", "web-prod"),
        ("postgresql", "database-stage"),
    ] {
        assert_eq!(
            filtered_asset_ids(None, Some(query)),
            vec![expected_id],
            "query {query:?} did not match the expected field"
        );
    }
}

#[test]
fn asset_filter_supports_tag_only() {
    assert_eq!(filtered_asset_ids(Some("prod"), None), vec!["web-prod", "windows-ops"]);
}

#[test]
fn asset_filter_combines_query_and_tag() {
    assert_eq!(filtered_asset_ids(Some("prod"), Some("rdp")), vec!["windows-ops"]);
    assert!(filtered_asset_ids(Some("staging"), Some("rdp")).is_empty());
}

#[test]
fn asset_filter_treats_blank_query_as_no_query() {
    assert_eq!(filtered_asset_ids(None, Some(" \t ")), vec!["web-prod", "windows-ops", "database-stage"]);
}

#[test]
fn asset_filter_trims_query_and_ignores_ascii_case() {
    assert_eq!(filtered_asset_ids(None, Some("  wEb-PrOd  ")), vec!["web-prod"]);
}

#[test]
fn asset_query_matches_the_port_digits() {
    let assets = test_assets();
    assert!(asset_matches_query(&assets[1], "338"));
    assert!(!asset_matches_query(&assets[1], "22"));
}

#[test]
fn asset_return_location_accepts_only_asset_list_urls() {
    assert_eq!(assets_return_to(Some("/assets?tag=prod&q=api")), "/assets?tag=prod&q=api");
    assert_eq!(assets_return_to(Some("/credentials")), "/assets");
    assert_eq!(assets_return_to(Some("//example.com")), "/assets");
    assert_eq!(assets_return_to(Some("/assets\r\nLocation: /")), "/assets");
}

#[test]
fn credential_usage_guard_detects_assigned_assets() {
    let mut assets = test_assets();
    assets[1].credential_id = Some("cred-1".to_string());

    assert!(credential_is_in_use(&assets, "cred-1"));
    assert!(!credential_is_in_use(&assets, "cred-2"));
}

#[test]
fn known_host_reset_requires_explicit_confirmation() {
    assert!(trust_reset_confirmed(Some("yes")));
    assert!(!trust_reset_confirmed(None));
    assert!(!trust_reset_confirmed(Some("true")));
}

#[test]
fn dashboard_probe_uses_loopback_for_wildcard_listeners() {
    assert_eq!(
        probe_address(BindAddress { ip: IpAddress::V4(0, 0, 0, 0), port: 2222 }),
        BindAddress { ip: IpAddress::V4(127, 0, 0, 1), port: 2222 }
    );
    assert_eq!(
        probe_address(BindAddress { ip: IpAddress::V6(0, 0, 0, 0, 0, 0, 0, 0), port: 2222 }),
        BindAddress { ip: IpAddress::V6(0, 0, 0, 0, 0, 0, 0, 1), port: 2222 }
    );
    assert_eq!(
        probe_address(BindAddress { ip: IpAddress::V4(10, 0, 0, 8), port: 2222 }),
        BindAddress { ip: IpAddress::V4(10, 0, 0, 8), port: 2222 }
    );
}

#[test]
fn dashboard_source_failure_isolated_to_named_source() {
    let mut errors = Vec::new();
    let value: Vec<String> =
        dashboard_value::<Vec<String>, _>(Err(std::io::Error::other("database busy")), "recent sessions", &mut errors);

    assert!(value.is_empty());
    assert_eq!(errors, vec!["recent sessions"]);
}

#[test]
fn dashboard_value_passes_successful_sources_through() {
    let mut errors: Vec<String> = Vec::new();
    let value = dashboard_value::<i64, String>(Ok(42), "24 hour session count", &mut errors);
    assert_eq!(value, 42);
    assert!(errors.is_empty());
}

#[test]
fn bulk_tags_form_parses_repeated_asset_ids() {
    let form =
        parse_bulk_tags_body(b"csrf_token=csrf-123&asset_ids=asset-1&asset_ids=asset-2&tags=prod%2Cweb").unwrap();

    assert_eq!(form.csrf_token, "csrf-123");
    assert_eq!(form.asset_ids, vec!["asset-1", "asset-2"]);
    assert_eq!(form.tags.as_deref(), Some("prod,web"));
}

#[test]
fn bulk_tags_form_requires_a_csrf_token() {
    assert_eq!(parse_bulk_tags_body(b"asset_ids=a").unwrap_err(), FormError::MissingCsrfToken);
    assert_eq!(FormError::MissingCsrfToken.message(), "missing CSRF token");
}

#[test]
fn key_access_form_parses_repeated_asset_ids_and_empty_selection() {
    let form = parse_key_access_form(
        b"csrf_token=csrf-123&name=laptop&public_key=ssh-ed25519+AAAA&asset_access_mode=restricted&asset_id=asset-1&asset_id=asset-2",
    )
    .unwrap();
    assert_eq!(form.csrf_token, "csrf-123");
    assert_eq!(form.asset_access_mode, "restricted");
    assert_eq!(form.asset_ids, vec!["asset-1", "asset-2"]);

    let empty = parse_key_access_form(
        b"csrf_token=csrf-123&name=laptop&public_key=ssh-ed25519+AAAA&asset_access_mode=restricted",
    )
    .unwrap();
    assert!(empty.asset_ids.is_empty());
}

#[test]
fn key_access_form_checks_required_fields_in_order() {
    assert_eq!(
        parse_key_access_form(b"csrf_token=x&name=+&public_key=k&asset_access_mode=all").unwrap_err(),
        FormError::KeyNameRequired
    );
    assert_eq!(
        parse_key_access_form(b"csrf_token=x&name=n&asset_access_mode=all").unwrap_err(),
        FormError::PublicKeyRequired
    );
    assert_eq!(
        parse_key_access_form(b"csrf_token=x&name=n&public_key=k").unwrap_err(),
        FormError::AccessModeRequired
    );
}

#[test]
fn asset_form_clears_credentials_for_rdp_protocol() {
    let asset = new_asset_from_form(AssetForm {
        csrf_token: "csrf-123".to_string(),
        return_to: None,
        name: "win-rdp".to_string(),
        protocol: Some("rdp".to_string()),
        preset: None,
        hostname: "10.0.2.20".to_string(),
        port: 3389,
        description: None,
        tags: Some("windows,rdp".to_string()),
        credential_id: Some("cred-1".to_string()),
    })
    .unwrap();

    assert_eq!(asset.protocol, "tcp");
    assert_eq!(asset.preset.as_deref(), Some("rdp"));
    assert_eq!(asset.tags, vec!["windows", "rdp"]);
    assert!(asset.credential_id.is_none());
}

#[test]
fn asset_form_keeps_credentials_for_ssh_and_refuses_bad_ports() {
    let form = AssetForm {
        csrf_token: "c".to_string(),
        return_to: None,
        name: "web".to_string(),
        protocol: None,
        preset: None,
        hostname: "10.0.0.1".to_string(),
        port: 22,
        description: Some("  ".to_string()),
        tags: None,
        credential_id: Some("cred-1".to_string()),
    };
    let asset = new_asset_from_form(form.clone()).unwrap();
    assert_eq!(asset.protocol, ASSET_PROTOCOL_SSH);
    assert_eq!(asset.credential_id.as_deref(), Some("cred-1"));
    assert!(asset.description.is_none());
    assert!(asset.tags.is_empty());
    let mut bad = form;
    bad.port = 70_000;
    assert!(new_asset_from_form(bad).is_none());
}

#[test]
fn settings_password_errors_map_to_localized_messages() {
    let t = en();
    assert_eq!(
        settings_password_error_message(&t, AdminPasswordChangeError::CurrentPasswordInvalid),
        t.settings_current_password_invalid
    );
    assert_eq!(
        settings_password_error_message(&t, AdminPasswordChangeError::NewPasswordEmpty),
        t.settings_new_password_empty
    );
    assert_eq!(
        settings_password_error_message(&t, AdminPasswordChangeError::NewPasswordTooShort),
        t.settings_new_password_too_short
    );
    assert_eq!(
        settings_password_error_message(&t, AdminPasswordChangeError::ConfirmationMismatch),
        t.settings_password_confirmation_mismatch
    );
}

#[test]
fn settings_password_errors_have_audit_codes() {
    assert_eq!(settings_password_error_code(AdminPasswordChangeError::CurrentPasswordInvalid), "current_password_invalid");
    assert_eq!(settings_password_error_code(AdminPasswordChangeError::ConfirmationMismatch), "confirmation_mismatch");
}

#[test]
fn redirects_stay_on_this_site() {
    assert_eq!(safe_redirect(Some("/assets")), Some("/assets"));
    assert_eq!(safe_redirect(Some("//evil.example")), None);
    assert_eq!(safe_redirect(Some("https://evil.example")), None);
    assert_eq!(safe_redirect(None), None);
}

#[test]
fn language_cookie_lasts_a_year() {
    assert_eq!(
        language_cookie("zh"),
        format!("{LOCALE_COOKIE}=zh; Max-Age=31536000; Path=/; SameSite=Lax; HttpOnly")
    );
    assert_eq!(locale_from_code("zh"), Some(Locale::Zh));
    assert_eq!(locale_from_code("fr"), None);
    assert_eq!(zh().locale, Locale::Zh);
}

#[test]
fn denied_mutations_explain_the_required_task_access() {
    assert_eq!(capability_check(false, "viewer", AdminCapability::AssetsManage), CapabilityCheck::Denied(ConsoleTask::Assets));
    assert_eq!(capability_check(false, "viewer", AdminCapability::InventoryRead), CapabilityCheck::Allowed);
    assert_eq!(capability_check(true, "owner", AdminCapability::AssetsManage), CapabilityCheck::ChangePasswordFirst);
    assert_eq!(capability_check(true, "owner", AdminCapability::SessionsRead), CapabilityCheck::Allowed);
    assert_eq!(task_label(&en(), ConsoleTask::Settings), en().nav_settings);
}

#[test]
fn login_stays_password_only_until_a_second_admin_is_added() {
    let admin = |id: &str, username: &str, active: bool| AdminAccount {
        id: id.to_string(),
        username: username.to_string(),
        display_name: id.to_string(),
        access_profile: "owner".to_string(),
        is_active: active,
        must_change_password: false,
        last_login_at: None,
    };
    let solo = vec![admin("local-admin", "admin", true), admin("old", "old", false)];
    let choice = choose_login_account(&solo, Some("whoever"));
    assert!(!choice.ask_username);
    assert_eq!(choice.account, Some(0));

    let team = vec![admin("local-admin", "admin", true), admin("ops", "Ops", true)];
    let choice = choose_login_account(&team, Some("  OPS "));
    assert!(choice.ask_username);
    assert_eq!(choice.submitted_username.as_deref(), Some("OPS"));
    assert_eq!(choice.account, Some(1));
    assert_eq!(choose_login_account(&team, None).account, None);
    assert_eq!(login_failure_label(None), "password-only");
    assert_eq!(login_location(true), "/settings");
    assert_eq!(login_location(false), "/");
}

#[test]
fn administrator_forms_follow_their_rules() {
    assert!(!temporary_password_long_enough("short"));
    assert!(temporary_password_long_enough("twelve chars"));
    assert!(checkbox_on(Some("yes")));
    assert!(!checkbox_on(Some("on")));
    assert!(signs_out_after_access_change("a", "a"));
    assert!(!signs_out_after_access_change("a", "b"));
    let t = en();
    assert_eq!(
        access_change_error_message(&t, "refused: last full-control admin must stay"),
        t.admin_last_owner_note
    );
    assert_eq!(access_change_error_message(&t, "database locked"), "database locked");
}

#[test]
fn tags_are_collected_sorted_and_unique() {
    assert_eq!(collect_tags(&test_assets()), vec!["database", "prod", "staging", "web", "windows"]);
    assert_eq!(parse_tags(Some(" a, ,b ,".to_string())), vec!["a", "b"]);
    assert!(parse_tags(None).is_empty());
}

#[test]
fn filtering_again_with_the_same_filters_changes_nothing() {
    let once = filter_assets(&test_assets(), Some("prod"), Some("web"));
    let twice = filter_assets(&once, Some("prod"), Some("web"));
    let ids = |list: &[Asset]| list.iter().map(|asset| asset.id.clone()).collect::<Vec<_>>();
    assert_eq!(ids(&twice), ids(&once));
    let all = filter_assets(&test_assets(), None, None);
    assert_eq!(ids(&all), ids(&test_assets()));
}
