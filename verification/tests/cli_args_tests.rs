use hop_server::cli_args::{
    parse_cli, AssetAccessModeArg, AssetCommand, Cli, CliError, CliErrorKind, Command, ConfigCommand,
    ConflictPolicyArg, CredentialCommand, KeyAccessCommand, KeyCommand, TransferFormatArg, TransferKindArg,
};
use hop_server::model::ASSET_PROTOCOL_TCP;

fn try_parse_from(args: &[&str]) -> Result<Cli, CliError> {
    let owned: Vec<String> = args.iter().map(|a| a.to_string()).collect();
    parse_cli(&owned)
}

#[test]
fn config_and_apply_commands_parse_v0_2_contract() {
    let validate = try_parse_from(&[
        "hop-server",
        "config",
        "validate",
        "-f",
        "resources.yaml",
        "--offline",
        "--json",
    ])
    .unwrap();
    assert!(matches!(
        validate.command,
        Some(Command::Config {
            command: ConfigCommand::Validate {
                offline: true,
                json: true,
                ..
            }
        })
    ));

    let apply = try_parse_from(&[
        "hop-server",
        "apply",
        "-f",
        "resources.toml",
        "--source",
        "home",
        "--dry-run",
        "--prune",
        "--base-revision",
        "4",
        "--json",
    ])
    .unwrap();
    assert!(matches!(
        apply.command,
        Some(Command::Apply {
            dry_run: true,
            prune: true,
            base_revision: Some(4),
            json: true,
            ..
        })
    ));
}

#[test]
fn credential_add_accepts_password_stdin_flag() {
    let cli = try_parse_from(&[
        "hop-server",
        "credential",
        "add",
        "--name",
        "deploy",
        "--username",
        "deploy",
        "--auth-type",
        "password",
        "--password-stdin",
    ])
    .unwrap();

    let Some(Command::Credential {
        command: CredentialCommand::Add {
            password,
            password_stdin,
            ..
        },
    }) = cli.command
    else {
        panic!("expected credential add");
    };

    assert!(password.is_none());
    assert!(password_stdin);
}

#[test]
fn import_and_export_commands_parse_bulk_options() {
    let export_cli = try_parse_from(&["hop-server", "export", "--format", "csv", "--output", "assets.csv"]).unwrap();
    assert!(matches!(
        export_cli.command,
        Some(Command::Export {
            format: TransferFormatArg::Csv,
            output: Some(_),
            ..
        })
    ));

    let import_cli =
        try_parse_from(&["hop-server", "import", "--file", "assets.csv", "--on-conflict", "skip"]).unwrap();
    assert!(matches!(
        import_cli.command,
        Some(Command::Import {
            on_conflict: ConflictPolicyArg::Skip,
            ..
        })
    ));
}

#[test]
fn asset_add_accepts_only_ssh_and_tcp_protocol_options() {
    let cli = try_parse_from(&[
        "hop-server",
        "asset",
        "add",
        "--name",
        "desktop",
        "--protocol",
        "tcp",
        "--hostname",
        "10.0.2.20",
        "--port",
        "3389",
    ])
    .unwrap();

    let Some(Command::Asset {
        command: AssetCommand::Add { protocol, port, .. },
    }) = cli.command
    else {
        panic!("expected asset add");
    };

    assert_eq!(protocol.as_str(), ASSET_PROTOCOL_TCP);
    assert_eq!(port, 3389);

    assert!(try_parse_from(&[
        "hop-server",
        "asset",
        "add",
        "--name",
        "desktop",
        "--protocol",
        "rdp",
        "--hostname",
        "10.0.2.20",
        "--port",
        "3389",
    ])
    .is_err());
}

#[test]
fn key_access_commands_parse_repeated_asset_ids() {
    let cli = try_parse_from(&[
        "hop-server",
        "key",
        "access",
        "set",
        "key-1",
        "--mode",
        "restricted",
        "--asset-id",
        "asset-1",
        "--asset-id",
        "asset-2",
    ])
    .unwrap();

    let Some(Command::Key {
        command: KeyCommand::Access {
            command: KeyAccessCommand::SetAccess { mode, asset_ids, .. },
        },
    }) = cli.command
    else {
        panic!("expected key access set");
    };
    assert!(matches!(mode, AssetAccessModeArg::Restricted));
    assert_eq!(asset_ids, vec!["asset-1", "asset-2"]);
}

#[test]
fn no_arguments_give_no_command() {
    let cli = try_parse_from(&["hop-server"]).unwrap();
    assert!(cli.command.is_none());
    assert!(cli.config.is_none());
}

#[test]
fn global_config_is_read_before_or_after_the_command() {
    let before = try_parse_from(&["hop-server", "--config", "a.toml", "serve"]).unwrap();
    assert_eq!(before.config.as_deref(), Some("a.toml"));
    assert!(matches!(before.command, Some(Command::Serve)));
    let after = try_parse_from(&["hop-server", "key", "list", "--config=b.toml"]).unwrap();
    assert_eq!(after.config.as_deref(), Some("b.toml"));
    assert!(matches!(after.command, Some(Command::Key { command: KeyCommand::List })));
    let twice = try_parse_from(&["hop-server", "--config", "a", "--config", "b"]).unwrap_err();
    assert_eq!(twice.kind, CliErrorKind::ArgumentConflict);
}

#[test]
fn export_defaults_to_assets_as_json() {
    let cli = try_parse_from(&["hop-server", "export"]).unwrap();
    assert!(matches!(
        cli.command,
        Some(Command::Export { kind: TransferKindArg::Assets, format: TransferFormatArg::Json, output: None })
    ));
}

#[test]
fn import_requires_a_file_and_defaults_to_skip() {
    let missing = try_parse_from(&["hop-server", "import"]).unwrap_err();
    assert_eq!(missing.kind, CliErrorKind::MissingRequired);
    assert_eq!(missing.argument, "file");
    let cli = try_parse_from(&["hop-server", "import", "--kind", "credentials", "--file", "c.json"]).unwrap();
    assert!(matches!(
        cli.command,
        Some(Command::Import {
            kind: TransferKindArg::Credentials,
            format: None,
            on_conflict: ConflictPolicyArg::Skip,
            ..
        })
    ));
}

#[test]
fn asset_add_defaults_and_splits_tags() {
    let cli = try_parse_from(&[
        "hop-server", "asset", "add", "--name", "web", "--hostname", "10.0.0.1", "--tags", "prod,db", "--tags", "eu",
    ])
    .unwrap();
    let Some(Command::Asset {
        command: AssetCommand::Add { protocol, port, tags, credential_id, .. },
    }) = cli.command
    else {
        panic!("expected asset add");
    };
    assert_eq!(protocol.as_str(), "ssh");
    assert_eq!(port, 22);
    assert_eq!(tags, vec!["prod", "db", "eu"]);
    assert!(credential_id.is_none());
}

#[test]
fn password_and_password_stdin_conflict() {
    let err = try_parse_from(&[
        "hop-server", "credential", "add", "--name", "n", "--username", "u", "--auth-type", "password",
        "--password", "p", "--password-stdin",
    ])
    .unwrap_err();
    assert_eq!(err.kind, CliErrorKind::ArgumentConflict);
}

#[test]
fn refusals_name_their_argument() {
    let unknown = try_parse_from(&["hop-server", "frobnicate"]).unwrap_err();
    assert_eq!(unknown.kind, CliErrorKind::UnrecognizedSubcommand);
    assert_eq!(unknown.argument, "frobnicate");
    let group = try_parse_from(&["hop-server", "key"]).unwrap_err();
    assert_eq!(group.kind, CliErrorKind::MissingSubcommand);
    let value = try_parse_from(&["hop-server", "apply", "--source"]).unwrap_err();
    assert_eq!(value.kind, CliErrorKind::MissingValue);
    let extra = try_parse_from(&["hop-server", "key", "list", "x"]).unwrap_err();
    assert_eq!(extra.kind, CliErrorKind::UnexpectedArgument);
    let id = try_parse_from(&["hop-server", "asset", "delete"]).unwrap_err();
    assert_eq!(id.kind, CliErrorKind::MissingRequired);
    let repeated = try_parse_from(&["hop-server", "key", "add", "--name", "a", "--name", "b"]).unwrap_err();
    assert_eq!(repeated.kind, CliErrorKind::ArgumentConflict);
    assert_eq!(repeated.argument, "name");
    let number = try_parse_from(&["hop-server", "asset", "add", "--name", "a", "--hostname", "h", "--port", "x"]).unwrap_err();
    assert_eq!(number.kind, CliErrorKind::InvalidValue);
    let flag = try_parse_from(&["hop-server", "config", "status", "--json=yes"]).unwrap_err();
    assert_eq!(flag.kind, CliErrorKind::UnexpectedValue);
    let help = try_parse_from(&["hop-server", "asset", "--help"]).unwrap_err();
    assert_eq!(help.kind, CliErrorKind::HelpRequested);
    let version = try_parse_from(&["hop-server", "-V"]).unwrap_err();
    assert_eq!(version.kind, CliErrorKind::VersionRequested);
}

#[test]
fn ids_follow_their_command() {
    let cli = try_parse_from(&["hop-server", "key", "deactivate", "k-9"]).unwrap();
    let Some(Command::Key { command: KeyCommand::Deactivate { id } }) = cli.command else {
        panic!("expected key deactivate");
    };
    assert_eq!(id, "k-9");
}
