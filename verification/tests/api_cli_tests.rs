use hop_server::control_api::check_api_exposure;
use hop_server::pages::{BindAddress, IpAddress};
use hop_server::cli::{
    asset_list_line, check_credential_material, credential_list_line, key_list_line, key_state_message,
    key_line_from, normalize_stdin_secret, parse_public_key_line, public_key_source, split_public_key_line, CredentialMaterialError, KeyAddError,
    PublicKeySource,
};
use hop_server::control_api::{
    access_scope, cors_plan, default_asset_protocol, plan_credential_secrets, ApiError, ControlApiError, CoreFailure, CorsPlan,
    ManagementToken, SecretSource, SecretStatus,
};
use hop_server::model::{Asset, AssetAccessMode, AuthType, Credential};
use hop_server::watcher::{SourceWatch, WatchStep};

#[test]
fn stdin_secret_strips_trailing_newlines_only() {
    assert_eq!(normalize_stdin_secret(" secret \r\n"), " secret ");
}

#[test]
fn cors_wildcard_cannot_be_mixed_with_explicit_origins() {
    let error = cors_plan(&vec!["*".to_string(), "https://panel.example".to_string()]).unwrap_err();
    assert!(error.message().contains("must be the only entry"));
}

#[test]
fn cors_plans_cover_none_any_and_lists() {
    assert_eq!(cors_plan(&vec![]).unwrap(), CorsPlan::NoOrigins);
    assert_eq!(cors_plan(&vec!["*".to_string()]).unwrap(), CorsPlan::AnyOrigin);
    assert_eq!(
        cors_plan(&vec!["https://a.example".to_string()]).unwrap(),
        CorsPlan::Origins(vec!["https://a.example".to_string()])
    );
}

#[test]
fn api_requires_the_single_management_token() {
    let token = ManagementToken::new(" test-token\n").unwrap();
    assert!(!token.authenticate(None));
    assert!(!token.authenticate(Some("Bearer wrong")));
    assert!(!token.authenticate(Some("test-token")));
    assert!(token.authenticate(Some("Bearer test-token")));
    assert_eq!(ManagementToken::new("  ").err(), Some(ControlApiError::EmptyToken));
    assert_eq!(ControlApiError::EmptyToken.message(), "Control API token must not be empty");
}

#[test]
fn credential_writes_keep_secrets_of_the_same_kind() {
    let existing = Credential {
        id: "cred-1".to_string(),
        name: "deploy".to_string(),
        username: "deploy".to_string(),
        auth_type: "password".to_string(),
        password_enc: Some("sealed-password".to_string()),
        private_key_enc: Some("sealed-key".to_string()),
        passphrase_enc: None,
        created_at: None,
    };
    let plan = plan_credential_secrets(AuthType::Password, None, Some("k".to_string()), None, Some(&existing));
    assert_eq!(plan.password, SecretSource::Keep("sealed-password".to_string()));
    assert_eq!(plan.private_key, SecretSource::Absent);
    assert_eq!(plan.passphrase, SecretSource::Absent);

    let plan = plan_credential_secrets(AuthType::KeyWithPassphrase, None, None, Some("p".to_string()), Some(&existing));
    assert_eq!(plan.password, SecretSource::Absent);
    assert_eq!(plan.private_key, SecretSource::Absent);
    assert_eq!(plan.passphrase, SecretSource::Seal("p".to_string()));
}

#[test]
fn access_scope_and_statuses() {
    let (mode, assets) = access_scope(None);
    assert_eq!(mode, AssetAccessMode::All);
    assert!(assets.is_empty());
    let (mode, assets) = access_scope(Some(vec!["a".to_string()]));
    assert_eq!(mode, AssetAccessMode::Restricted);
    assert_eq!(assets, vec!["a"]);
    assert_eq!(SecretStatus::from_configured(true).as_str(), "configured");
    assert_eq!(default_asset_protocol(), "ssh");
    assert_eq!(AssetAccessMode::Restricted.as_str(), "restricted");
}

#[test]
fn api_errors_carry_status_and_code() {
    assert_eq!(ApiError::unauthorized().status, 401);
    let managed = ApiError::from_validation_failure("managed_by_source: asset web".to_string());
    assert_eq!((managed.status, managed.code.as_str()), (409, "managed_by_source"));
    let invalid = ApiError::from_validation_failure("port out of range".to_string());
    assert_eq!((invalid.status, invalid.code.as_str()), (422, "validation_failed"));
    assert_eq!(ApiError::not_found().status, 404);
}

#[test]
fn key_add_takes_exactly_one_source() {
    assert_eq!(public_key_source(Some("k".to_string()), None).unwrap(), PublicKeySource::Text("k".to_string()));
    assert_eq!(public_key_source(None, None).unwrap_err(), KeyAddError::NoSource);
    assert_eq!(
        public_key_source(Some("k".to_string()), Some("f".to_string())).unwrap_err().message(),
        "choose either --public-key or --public-key-file, not both"
    );
}

#[test]
fn public_key_lines_split_into_type_and_blob() {
    let (key_type, blob) = split_public_key_line("  ssh-ed25519 AAAAC3Nza test\n").unwrap();
    assert_eq!(key_type, "ssh-ed25519");
    assert_eq!(blob, "AAAAC3Nza");
    assert_eq!(split_public_key_line(" \n").unwrap_err(), KeyAddError::EmptyKey);
    assert_eq!(split_public_key_line("ssh-ed25519").unwrap_err(), KeyAddError::NotOpenSshFormat);
}

#[test]
fn credential_add_requires_the_secrets_of_its_type() {
    assert!(check_credential_material(AuthType::Password, true, false, false).is_ok());
    assert_eq!(
        check_credential_material(AuthType::KeyWithPassphrase, false, true, false).unwrap_err(),
        CredentialMaterialError::PrivateKeyAndPassphraseRequired
    );
    assert_eq!(
        CredentialMaterialError::PasswordRequired.message(),
        "password auth requires --password"
    );
}

#[test]
fn list_lines_are_tab_separated() {
    assert_eq!(key_list_line("k1", false, "SHA256:x", "laptop"), "k1\tinactive\tSHA256:x\tlaptop");
    assert_eq!(key_state_message("k1", true), "key k1 activated");
    assert_eq!(credential_list_line("c1", "password", "root", "prod"), "c1\tpassword\troot\tprod");
    let asset = Asset {
        id: "a1".to_string(),
        name: "web".to_string(),
        protocol: "ssh".to_string(),
        preset: None,
        hostname: "10.0.0.1".to_string(),
        port: 22,
        description: None,
        tags: vec!["prod".to_string(), "web".to_string()],
        credential_id: None,
        created_at: None,
        updated_at: None,
    };
    assert_eq!(asset_list_line(&asset), "a1\tweb\t10.0.0.1:22\tprod,web\t-");
}

#[test]
fn watcher_applies_only_stable_changes_once() {
    let scan = |s: &str| Some(vec![s.to_string()]);
    let mut watch = SourceWatch::start(scan("v1"));
    assert_eq!(watch.observe(scan("v1")), WatchStep::Wait);
    assert_eq!(watch.observe(scan("v2")), WatchStep::Wait);
    assert_eq!(watch.observe(scan("v2")), WatchStep::Apply);
    assert_eq!(watch.observe(scan("v2")), WatchStep::Wait);
    assert_eq!(watch.observe(None), WatchStep::RecordScanFailure);
    assert_eq!(watch.observe(scan("v2")), WatchStep::Wait);
    assert_eq!(watch.observe(scan("v2")), WatchStep::Wait);
    assert_eq!(watch.observe(scan("v3")), WatchStep::Wait);
    assert_eq!(watch.observe(scan("v3")), WatchStep::Apply);
}

#[test]
fn api_outside_loopback_needs_an_explicit_cors_allowlist() {
    let loopback = BindAddress { ip: IpAddress::V4(127, 0, 0, 1), port: 8080 };
    let loopback6 = BindAddress { ip: IpAddress::V6(0, 0, 0, 0, 0, 0, 0, 1), port: 8080 };
    let public = BindAddress { ip: IpAddress::V4(0, 0, 0, 0), port: 8080 };
    assert!(check_api_exposure(loopback, &vec![]).is_ok());
    assert!(check_api_exposure(loopback6, &vec![]).is_ok());
    let refused = check_api_exposure(public, &vec![]).unwrap_err();
    assert_eq!(refused.message(), "api.cors_allowlist must be explicit when api.listen is not loopback");
    assert!(check_api_exposure(public, &vec!["https://panel.example".to_string()]).is_ok());
}

#[test]
fn parse_public_key_line_returns_sha256_fingerprint() {
    let key = "ssh-ed25519 AAAAC3NzaC1lZDI1NTE5AAAAIJdD7y3aLq454yWBdwLWbieU1ebz9/cu7/QEXn9OIeZJ test";
    let (canonical, fingerprint) = parse_public_key_line(key).unwrap();
    assert!(canonical.starts_with("ssh-ed25519 "));
    assert!(fingerprint.starts_with("SHA256:"));
}

#[test]
fn public_key_lines_are_stored_without_their_comment() {
    let key = "  ssh-ed25519   AAAAC3NzaC1lZDI1NTE5AAAAIJdD7y3aLq454yWBdwLWbieU1ebz9/cu7/QEXn9OIeZJ laptop\n";
    let (canonical, _) = parse_public_key_line(key).unwrap();
    assert_eq!(canonical, "ssh-ed25519 AAAAC3NzaC1lZDI1NTE5AAAAIJdD7y3aLq454yWBdwLWbieU1ebz9/cu7/QEXn9OIeZJ");
    assert_eq!(parse_public_key_line("   ").unwrap_err(), KeyAddError::EmptyKey);
    assert_eq!(parse_public_key_line("ssh-ed25519").unwrap_err(), KeyAddError::NotOpenSshFormat);
    let unreadable = parse_public_key_line("ssh-ed25519 not-base64!").unwrap_err();
    assert_eq!(unreadable, KeyAddError::UnreadableKey);
    assert_eq!(unreadable.message(), "parse OpenSSH public key");
}

#[test]
fn stored_key_line_joins_type_and_blob() {
    let (line, fp) = key_line_from("ssh-rsa", Some(("AAAA".to_string(), "SHA256:x".to_string()))).unwrap();
    assert_eq!(line, "ssh-rsa AAAA");
    assert_eq!(fp, "SHA256:x");
    assert_eq!(key_line_from("ssh-rsa", None).unwrap_err(), KeyAddError::UnreadableKey);
}

#[test]
fn cleaning_a_cleaned_secret_changes_nothing() {
    let once = normalize_stdin_secret("s3cret\r\n\n");
    assert_eq!(once, "s3cret");
    assert_eq!(normalize_stdin_secret(&once), once);
}

#[test]
fn core_failures_map_to_api_answers() {
    let managed = ApiError::from_core(CoreFailure::Validation("managed_by_source: asset web".to_string()));
    assert_eq!((managed.status, managed.code.as_str()), (409, "managed_by_source"));
    assert_eq!(managed.message, "managed_by_source: asset web");
    let invalid = ApiError::from_core(CoreFailure::Validation("port out of range".to_string()));
    assert_eq!((invalid.status, invalid.code.as_str()), (422, "validation_failed"));
    let conflict = ApiError::from_core(CoreFailure::Database);
    assert_eq!((conflict.status, conflict.code.as_str()), (409, "catalog_conflict"));
    let other = ApiError::from_core(CoreFailure::Other);
    assert_eq!((other.status, other.code.as_str()), (500, "internal_error"));
}

#[test]
fn scroll_offset_without_visible_rows_scrolls_past_the_selection() {
    assert_eq!(hop_server::tui_view::scroll_offset(5, 0), 6);
    assert_eq!(hop_server::tui_view::scroll_offset(5, 3), 3);
    assert_eq!(hop_server::tui_view::scroll_offset(1, 3), 0);
}
