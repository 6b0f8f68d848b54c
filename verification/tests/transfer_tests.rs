use hop_server::cli::{export_done_message, export_kind_name, import_error_line, import_outcome, import_report};
use hop_server::model::{Asset, AuthType, Credential, NewAsset};
use hop_server::transfer::{
    credential_from_row, credential_overwrite, find_existing_credential, note_step, plan_asset_row,
    plan_credential_row, AssetTransferRow, ConflictPolicy, CredentialTransferRow, ImportStep, ImportSummary,
    TransferFormat, TransferKind,
};
use hop_server::transfer_csv::{
    export_assets_csv, export_credentials_csv, read_asset_csv, read_credential_csv, write_asset_csv,
};

fn asset(name: &str, hostname: &str, tags: &[&str]) -> Asset {
    Asset {
        id: name.to_string(),
        name: name.to_string(),
        protocol: "ssh".to_string(),
        preset: None,
        hostname: hostname.to_string(),
        port: 22,
        description: None,
        tags: tags.iter().map(|tag| tag.to_string()).collect(),
        credential_id: None,
        created_at: None,
        updated_at: None,
    }
}

fn credential() -> Credential {
    Credential {
        id: "cred-1".to_string(),
        name: "deploy".to_string(),
        username: "deploy".to_string(),
        auth_type: AuthType::Password.as_str().to_string(),
        password_enc: Some("secret".to_string()),
        private_key_enc: Some("secret".to_string()),
        passphrase_enc: Some("secret".to_string()),
        created_at: None,
    }
}

#[test]
fn exports_assets_to_csv_with_escaped_tags() {
    let asset = asset("web", "10.0.0.1", &["prod", "web"]);

    let csv = export_assets_csv(&[asset]);

    assert!(csv.starts_with("name,hostname,port,description,tags,credential_id\n"));
    assert!(csv.contains("web,10.0.0.1,22,,prod|web,"));
}

#[test]
fn credential_export_omits_encrypted_secret_fields() {
    let csv = export_credentials_csv(&[credential()]);

    assert!(csv.contains("deploy,deploy,password"));
    assert!(!csv.contains("password_enc"));
    assert!(!csv.contains("secret"));
}

#[test]
fn import_summary_counts_skips_and_overwrites() {
    let mut summary = ImportSummary::default();
    summary.record_imported();
    summary.record_skipped();
    summary.record_overwritten();

    assert_eq!(summary.imported, 1);
    assert_eq!(summary.skipped, 1);
    assert_eq!(summary.overwritten, 1);
}

#[test]
fn asset_rows_convert_to_new_assets() {
    let row = AssetTransferRow {
        name: "web".to_string(),
        hostname: "10.0.0.1".to_string(),
        port: 22,
        description: Some("prod web".to_string()),
        tags: vec!["prod".to_string()],
        credential_id: None,
    };

    let new_asset: NewAsset = row.into();

    assert_eq!(new_asset.name, "web");
    assert_eq!(new_asset.tags, vec!["prod"]);
}

#[test]
fn asset_csv_round_trips() {
    let rows = vec![
        AssetTransferRow {
            name: "web, \"prod\"".to_string(),
            hostname: "10.0.0.1".to_string(),
            port: 2222,
            description: Some("line one\nline two".to_string()),
            tags: vec!["prod".to_string(), "web".to_string()],
            credential_id: Some("cred-1".to_string()),
        },
        AssetTransferRow {
            name: "db".to_string(),
            hostname: "10.0.0.2".to_string(),
            port: 5432,
            description: None,
            tags: vec![],
            credential_id: None,
        },
    ];
    let text = write_asset_csv(&rows);
    assert_eq!(read_asset_csv(&text).unwrap(), rows);
}

#[test]
fn credential_csv_reads_rows() {
    let rows = read_credential_csv("name,username,auth_type\ndeploy,deploy,password\n").unwrap();
    assert_eq!(rows.len(), 1);
    assert_eq!(rows[0].auth_type, "password");
}

#[test]
fn import_steps_follow_the_conflict_policy() {
    let row = AssetTransferRow {
        name: "web".to_string(),
        hostname: "10.0.0.2".to_string(),
        port: 22,
        description: None,
        tags: vec![],
        credential_id: None,
    };
    assert_eq!(plan_asset_row(&row, false, ConflictPolicy::Error), ImportStep::Insert);
    assert_eq!(plan_asset_row(&row, true, ConflictPolicy::Skip), ImportStep::Skip);
    assert_eq!(plan_asset_row(&row, true, ConflictPolicy::Overwrite), ImportStep::Overwrite);
    let step = plan_asset_row(&row, true, ConflictPolicy::Error);
    assert_eq!(step, ImportStep::Fail("asset already exists: web".to_string()));
    let mut summary = ImportSummary::default();
    note_step(&mut summary, &step);
    note_step(&mut summary, &ImportStep::Skip);
    assert_eq!(summary.skipped, 1);
    assert_eq!(summary.errors, vec!["asset already exists: web"]);
    assert_eq!(import_outcome(&summary).unwrap_err(), "import completed with 1 error(s)");
    assert_eq!(import_report(&summary), "imported=0 skipped=1 overwritten=0 errors=1");
    assert_eq!(import_error_line("asset already exists: web"), "import error: asset already exists: web");

    let credential_row = CredentialTransferRow {
        name: "deploy".to_string(),
        username: "deploy".to_string(),
        auth_type: "password".to_string(),
    };
    assert_eq!(
        plan_credential_row(&credential_row, true, ConflictPolicy::Error),
        ImportStep::Fail("credential already exists: deploy".to_string())
    );
}

#[test]
fn credential_metadata_overwrite_preserves_existing_secret_fields() {
    let existing = vec![credential()];
    let row = CredentialTransferRow {
        name: "deploy".to_string(),
        username: "deploy".to_string(),
        auth_type: "password".to_string(),
    };
    let found = find_existing_credential(&existing, &row).unwrap();
    let updated = credential_overwrite(&existing[found], &row).unwrap();
    assert_eq!(updated.id.as_deref(), Some("cred-1"));
    assert_eq!(updated.password_enc.as_deref(), Some("secret"));
    assert_eq!(updated.private_key_enc.as_deref(), Some("secret"));
    assert_eq!(updated.passphrase_enc.as_deref(), Some("secret"));

    let fresh = credential_from_row(&row).unwrap();
    assert!(fresh.password_enc.is_none());
    let bad = CredentialTransferRow { auth_type: "token".to_string(), ..row };
    assert_eq!(credential_from_row(&bad).unwrap_err(), "unsupported auth type: token");
}

#[test]
fn export_messages_name_the_kind() {
    assert_eq!(export_kind_name(TransferKind::Credentials), "credentials");
    assert_eq!(export_done_message(TransferKind::Assets, "out.csv"), "exported assets to out.csv");
}

#[test]
fn import_format_follows_the_file_extension_in_any_case() {
    assert_eq!(TransferFormat::from_path("backup/assets.CSV"), Some(TransferFormat::Csv));
    assert_eq!(TransferFormat::from_path("assets.json"), Some(TransferFormat::Json));
    assert_eq!(TransferFormat::from_path("assets.yaml"), None);
    assert_eq!(TransferFormat::from_path(".json"), None);
    assert_eq!(TransferFormat::from_path("dir.csv/"), Some(TransferFormat::Csv));
    assert_eq!(TransferFormat::from_path("assets"), None);
}

#[test]
fn option_names_read_back_in_any_case_with_padding() {
    for kind in [TransferKind::Assets, TransferKind::Credentials] {
        let name = hop_server::cli::export_kind_name(kind);
        assert_eq!(TransferKind::parse(name), Ok(kind));
        assert_eq!(TransferKind::parse(&format!(" {} ", name.to_ascii_uppercase())), Ok(kind));
    }
    for format in [TransferFormat::Csv, TransferFormat::Json] {
        assert_eq!(TransferFormat::parse(format.extension()), Ok(format));
        assert_eq!(TransferFormat::parse(&format!("\t{}\n", format.extension().to_ascii_uppercase())), Ok(format));
        assert_eq!(TransferFormat::from_path(&format!("export.{}", format.extension())), Some(format));
    }
}

#[test]
fn credential_rows_with_a_known_auth_type_are_accepted() {
    for auth_type in ["password", "key", "key+passphrase"] {
        let row = CredentialTransferRow {
            name: "deploy".to_string(),
            username: "deploy".to_string(),
            auth_type: auth_type.to_string(),
        };
        assert!(credential_from_row(&row).is_ok());
    }
}
