//! The languages of the admin console and the messages that the library's
//! own decisions produce.
use vstd::prelude::*;

verus! {

/// Name of the cookie that remembers the console language.
pub const LOCALE_COOKIE: &'static str = "hop_locale";

/// A language of the console.
#[derive(Debug, Clone, Copy, PartialEq, Eq, Structural)]
pub enum Locale {
    En,
    Zh,
}

/// The code of a language, as URLs and cookies carry it.
pub open spec fn locale_code(l: Locale) -> Seq<char> {
    match l {
        Locale::En => "en"@,
        Locale::Zh => "zh"@,
    }
}

/// The name of a language, in that language.
pub open spec fn locale_label(l: Locale) -> Seq<char> {
    match l {
        Locale::En => "English"@,
        Locale::Zh => "中文"@,
    }
}

impl Locale {
    /// `en` or `zh`.
    pub fn code(&self) -> (r: &'static str)
        ensures
            r@ == locale_code(*self),
    {
        match self {
            Locale::En => "en",
            Locale::Zh => "zh",
        }
    }

    /// The value stored in the language cookie: the language code.
    pub fn cookie_value(&self) -> (r: &'static str)
        ensures
            r@ == locale_code(*self),
    {
        self.code()
    }

    /// The name of the language, in that language.
    pub fn label(&self) -> (r: &'static str)
        ensures
            r@ == locale_label(*self),
    {
        match self {
            Locale::En => "English",
            Locale::Zh => "中文",
        }
    }

    /// The other language, offered by the language switch.
    pub fn alternate(&self) -> (r: Locale)
        ensures
            r != *self,
    {
        match self {
            Locale::En => Locale::Zh,
            Locale::Zh => Locale::En,
        }
    }
}

/// The language a code names, if any.
pub fn locale_from_code(code: &str) -> (r: Option<Locale>)
    ensures
        r matches Some(l) ==> locale_code(l) == code@,
        r is None ==> code@ != locale_code(Locale::En) && code@ != locale_code(Locale::Zh),
{
    if crate::text::str_eq(code, "en") {
        Some(Locale::En)
    } else if crate::text::str_eq(code, "zh") {
        Some(Locale::Zh)
    } else {
        None
    }
}

/// The console messages that the library chooses between.
#[derive(Debug, Clone, Copy, PartialEq, Eq)]
pub struct L10n {
    pub locale: Locale,
    pub app_title: &'static str,
    pub admin_console: &'static str,
    pub nav_primary: &'static str,
    pub nav_overview: &'static str,
    pub nav_known_hosts: &'static str,
    pub nav_import_export: &'static str,
    pub loopback_admin: &'static str,
    pub loopback_note: &'static str,
    pub language_label: &'static str,
    pub switch_language_to: &'static str,
    pub admin_web: &'static str,
    pub logout: &'static str,
    pub assets_title: &'static str,
    pub overview_title: &'static str,
    pub keys_title: &'static str,
    pub edit_key_title: &'static str,
    pub known_hosts_title: &'static str,
    pub sessions_title: &'static str,
    pub settings_title: &'static str,
    pub login_title: &'static str,
    pub permission_denied_title: &'static str,
    pub import_title: &'static str,
    pub nav_assets: &'static str,
    pub nav_credentials: &'static str,
    pub nav_keys: &'static str,
    pub nav_sessions: &'static str,
    pub nav_settings: &'static str,
    pub none: &'static str,
    pub admin_profile_owner: &'static str,
    pub admin_profile_operator: &'static str,
    pub admin_profile_viewer: &'static str,
    pub admin_last_owner_note: &'static str,
    pub admin_temporary_password_too_short: &'static str,
    pub settings_current_password_invalid: &'static str,
    pub settings_new_password_empty: &'static str,
    pub settings_new_password_too_short: &'static str,
    pub settings_password_confirmation_mismatch: &'static str,
    pub protocol_ssh: &'static str,
    pub protocol_tcp: &'static str,
    pub protocol_rdp: &'static str,
    pub protocol_vnc: &'static str,
    pub protocol_mysql: &'static str,
    pub protocol_postgres: &'static str,
    pub protocol_redis: &'static str,
    pub keys_heading: &'static str,
    pub keys_intro: &'static str,
    pub keys_add_heading: &'static str,
    pub keys_add_intro: &'static str,
    pub field_name: &'static str,
    pub field_public_key: &'static str,
    pub save_key: &'static str,
    pub keys_existing_heading: &'static str,
    pub keys_existing_intro: &'static str,
    pub field_fingerprint: &'static str,
    pub key_access_mode: &'static str,
    pub field_status: &'static str,
    pub field_action: &'static str,
    pub no_keys: &'static str,
    pub key_added_prefix: &'static str,
    pub key_access_restricted: &'static str,
    pub key_access_all: &'static str,
    pub active: &'static str,
    pub inactive: &'static str,
    pub edit: &'static str,
    pub deactivate: &'static str,
    pub activate: &'static str,
    pub key_access_heading: &'static str,
    pub key_access_intro: &'static str,
    pub key_assets_suffix: &'static str,
    pub key_access_all_intro: &'static str,
    pub key_access_restricted_intro: &'static str,
    pub key_asset_search: &'static str,
    pub edit_key_intro: &'static str,
    pub key_details_heading: &'static str,
    pub key_details_intro: &'static str,
    pub save_changes: &'static str,
    pub back_to_keys: &'static str,
    pub danger_zone: &'static str,
    pub delete_key_intro: &'static str,
    pub delete_key: &'static str,
    pub known_hosts_intro: &'static str,
    pub known_hosts_trusted: &'static str,
    pub known_hosts_panel_intro: &'static str,
    pub known_hosts_reset_note: &'static str,
    pub known_hosts_panel_heading: &'static str,
    pub host_column: &'static str,
    pub key_type_column: &'static str,
    pub first_seen_column: &'static str,
    pub known_hosts_asset_usage: &'static str,
    pub no_known_hosts: &'static str,
    pub known_host_copy_fingerprint: &'static str,
    pub asset_copy_success: &'static str,
    pub asset_copy_failed: &'static str,
    pub known_hosts_unused: &'static str,
    pub known_hosts_assets_suffix: &'static str,
    pub known_host_reset_action: &'static str,
    pub known_host_reset_heading: &'static str,
    pub close: &'static str,
    pub known_host_reset_intro: &'static str,
    pub known_host_reset_warning: &'static str,
    pub known_host_reset_confirm: &'static str,
    pub known_host_reset_submit: &'static str,
    pub sessions_heading: &'static str,
    pub sessions_intro: &'static str,
    pub sessions_active_heading: &'static str,
    pub sessions_failed_suffix: &'static str,
    pub sessions_admin_recorded_suffix: &'static str,
    pub sessions_recorded_suffix: &'static str,
    pub sessions_terminate_all: &'static str,
    pub sessions_live_tail: &'static str,
    pub sessions_range_latest: &'static str,
    pub sessions_user_all: &'static str,
    pub sessions_event_all: &'static str,
    pub sessions_admin_heading: &'static str,
    pub sessions_admin_intro: &'static str,
    pub started_column: &'static str,
    pub sessions_actor_column: &'static str,
    pub target_column: &'static str,
    pub error_column: &'static str,
    pub sessions_no_admin_events: &'static str,
    pub sessions_source_prefix: &'static str,
    pub sessions_recent_heading: &'static str,
    pub sessions_recent_intro: &'static str,
    pub sessions_active_intro: &'static str,
    pub key_column: &'static str,
    pub asset_column: &'static str,
    pub mode_column: &'static str,
    pub sessions_action_column: &'static str,
    pub no_sessions: &'static str,
    pub sessions_terminate: &'static str,
    pub sessions_summary_heading: &'static str,
    pub sessions_summary_intro: &'static str,
    pub sessions_failed_heading: &'static str,
    pub sessions_direct_heading: &'static str,
    pub sessions_completed_heading: &'static str,
    pub login_heading: &'static str,
    pub login_team_intro: &'static str,
    pub login_intro: &'static str,
    pub login_username: &'static str,
    pub login_password: &'static str,
    pub login_button: &'static str,
    pub permission_denied_heading: &'static str,
    pub permission_denied_intro: &'static str,
    pub permission_current_access: &'static str,
    pub permission_owner_action: &'static str,
    pub permission_request_prefix: &'static str,
    pub settings_heading: &'static str,
    pub settings_intro: &'static str,
    pub admin_must_change_password: &'static str,
    pub admin_password_heading: &'static str,
    pub admin_password_intro: &'static str,
    pub current_password: &'static str,
    pub new_password: &'static str,
    pub confirm_password: &'static str,
    pub change_password: &'static str,
    pub admin_access_heading: &'static str,
    pub admin_access_intro: &'static str,
    pub admin_add_action: &'static str,
    pub admin_single_mode: &'static str,
    pub admin_team_mode: &'static str,
    pub admin_existing_heading: &'static str,
    pub admin_existing_intro: &'static str,
    pub admin_current_user: &'static str,
    pub admin_last_login: &'static str,
    pub admin_access_level: &'static str,
    pub admin_login_active: &'static str,
    pub admin_save_access: &'static str,
    pub admin_add_heading: &'static str,
    pub admin_add_intro: &'static str,
    pub admin_display_name: &'static str,
    pub admin_username: &'static str,
    pub admin_temporary_password: &'static str,
    pub admin_temporary_password_note: &'static str,
    pub admin_recommended: &'static str,
    pub admin_profile_owner_intro: &'static str,
    pub admin_profile_operator_intro: &'static str,
    pub admin_profile_viewer_intro: &'static str,
    pub credentials_intro: &'static str,
    pub credentials_title: &'static str,
    pub credentials_add_heading: &'static str,
    pub credentials_export_heading: &'static str,
    pub credentials_export_intro: &'static str,
    pub export_csv: &'static str,
    pub export_json: &'static str,
    pub import_open: &'static str,
    pub credentials_existing_heading: &'static str,
    pub credentials_existing_intro: &'static str,
    pub field_username: &'static str,
    pub field_auth_type: &'static str,
    pub secrets_label: &'static str,
    pub credential_usage_heading: &'static str,
    pub no_credentials: &'static str,
    pub credential_unused: &'static str,
    pub credential_used_by_suffix: &'static str,
    pub credential_delete_confirm: &'static str,
    pub credential_delete_in_use: &'static str,
    pub delete: &'static str,
    pub credentials_add_intro: &'static str,
    pub credential_add_status: &'static str,
    pub save_credential: &'static str,
    pub edit_credential_title: &'static str,
    pub edit_credential_intro: &'static str,
    pub credential_edit_status: &'static str,
    pub credential_secret_stored: &'static str,
    pub credential_secret_missing: &'static str,
    pub replace_password: &'static str,
    pub field_password: &'static str,
    pub replace_private_key: &'static str,
    pub field_private_key: &'static str,
    pub replace_passphrase: &'static str,
    pub field_passphrase: &'static str,
    pub secret_keep_note: &'static str,
    pub secret_storage_note: &'static str,
    pub credential_details_heading: &'static str,
    pub credential_details_intro: &'static str,
    pub back_to_credentials: &'static str,
    pub overview_heading: &'static str,
    pub overview_intro: &'static str,
    pub overview_status_operational: &'static str,
    pub overview_status_attention: &'static str,
    pub assets_add_heading: &'static str,
    pub overview_assets_label: &'static str,
    pub overview_health_healthy: &'static str,
    pub overview_health_failed: &'static str,
    pub overview_health_unknown: &'static str,
    pub overview_sessions_24h_label: &'static str,
    pub overview_sessions_24h_note: &'static str,
    pub overview_active_keys_label: &'static str,
    pub overview_active_keys_note: &'static str,
    pub overview_managed_coverage_label: &'static str,
    pub overview_managed_coverage_suffix: &'static str,
    pub overview_recent_access_heading: &'static str,
    pub overview_recent_access_intro: &'static str,
    pub overview_view_all: &'static str,
    pub overview_no_recent_access: &'static str,
    pub overview_risk_heading: &'static str,
    pub overview_risk_intro: &'static str,
    pub overview_source_unavailable: &'static str,
    pub overview_failed_assets_risk: &'static str,
    pub overview_unknown_assets_risk: &'static str,
    pub overview_unmanaged_assets_risk: &'static str,
    pub overview_no_active_keys_risk: &'static str,
    pub overview_no_risks: &'static str,
    pub overview_gateway_heading: &'static str,
    pub overview_gateway_intro: &'static str,
    pub overview_admin_endpoint: &'static str,
    pub overview_ssh_endpoint: &'static str,
    pub overview_database: &'static str,
    pub overview_version: &'static str,
    pub overview_started: &'static str,
    pub overview_uptime: &'static str,
    pub overview_reachable: &'static str,
    pub overview_unreachable: &'static str,
    pub overview_coverage_heading: &'static str,
    pub overview_coverage_intro: &'static str,
    pub overview_credential_coverage: &'static str,
    pub overview_restricted_coverage: &'static str,
    pub overview_trust_coverage: &'static str,
    pub overview_recent_changes_heading: &'static str,
    pub overview_recent_changes_intro: &'static str,
    pub overview_no_recent_changes: &'static str,
    pub import_heading: &'static str,
    pub import_intro: &'static str,
    pub import_form_heading: &'static str,
    pub import_form_intro: &'static str,
    pub import_kind: &'static str,
    pub kind_assets: &'static str,
    pub kind_credentials: &'static str,
    pub import_format: &'static str,
    pub import_conflict: &'static str,
    pub conflict_skip: &'static str,
    pub conflict_overwrite: &'static str,
    pub conflict_error: &'static str,
    pub import_file: &'static str,
    pub import_submit: &'static str,
    pub import_summary: &'static str,
    pub imported: &'static str,
    pub skipped: &'static str,
    pub overwritten: &'static str,
    pub errors: &'static str,
    pub field_protocol: &'static str,
    pub field_hostname: &'static str,
    pub field_port: &'static str,
    pub rdp_port_hint: &'static str,
    pub field_tags: &'static str,
    pub field_credential: &'static str,
    pub proxy_only: &'static str,
    pub field_description: &'static str,
    pub edit_asset_intro: &'static str,
    pub asset_details_heading: &'static str,
    pub asset_details_intro: &'static str,
    pub back_to_assets: &'static str,
    pub tunnel_command_heading: &'static str,
    pub tunnel_command_intro: &'static str,
    pub assets_intro: &'static str,
    pub assets_count_suffix: &'static str,
    pub assets_filter_heading: &'static str,
    pub assets_search_label: &'static str,
    pub assets_search_action: &'static str,
    pub assets_clear_filters: &'static str,
    pub assets_filter_intro: &'static str,
    pub assets_filter_all: &'static str,
    pub assets_export_intro: &'static str,
    pub assets_export_heading: &'static str,
    pub assets_existing_heading: &'static str,
    pub assets_existing_intro: &'static str,
    pub no_assets: &'static str,
    pub assets_bulk_heading: &'static str,
    pub asset_activity_placeholder: &'static str,
    pub asset_copy_target: &'static str,
    pub untagged: &'static str,
    pub assets_bulk_intro: &'static str,
    pub assets_bulk_tags_label: &'static str,
    pub assets_bulk_apply: &'static str,
    pub assets_add_intro: &'static str,
    pub draft_status: &'static str,
    pub assets_close_drawer: &'static str,
    pub save_asset: &'static str,
    pub edit_asset_title: &'static str,
    pub assets_edit_status: &'static str,
}

/// The English messages.
pub fn en() -> (t: L10n)
    ensures
        t.locale == Locale::En,
{
    L10n {
        locale: Locale::En,
        app_title: "Hop Admin",
        admin_console: "Admin console",
        nav_primary: "Primary navigation",
        nav_overview: "Overview",
        nav_known_hosts: "Known hosts",
        nav_import_export: "Import / Export",
        loopback_admin: "Loopback admin",
        loopback_note: "Reachable from this machine only.",
        language_label: "Language",
        switch_language_to: "Switch to",
        admin_web: "Admin Web",
        logout: "Sign out",
        assets_title: "Assets",
        overview_title: "Overview",
        keys_title: "SSH access",
        edit_key_title: "Edit SSH identity",
        known_hosts_title: "Known hosts",
        sessions_title: "Audit Logs",
        settings_title: "Settings",
        login_title: "Sign in",
        permission_denied_title: "Permission required",
        import_title: "Import / Export",
        nav_assets: "Assets",
        nav_credentials: "Credentials",
        nav_keys: "SSH identities",
        nav_sessions: "Audit Logs",
        nav_settings: "Settings",
        none: "None",
        admin_profile_owner: "Owner",
        admin_profile_operator: "Operator",
        admin_profile_viewer: "Viewer",
        admin_last_owner_note: "At least one active administrator must keep full control.",
        admin_temporary_password_too_short: "The temporary password must have at least 12 characters.",
        settings_current_password_invalid: "The current password is incorrect.",
        settings_new_password_empty: "Enter a new password.",
        settings_new_password_too_short: "The new password must have at least 12 characters.",
        settings_password_confirmation_mismatch: "The new password and its confirmation differ.",
        protocol_ssh: "SSH",
        protocol_tcp: "TCP",
        protocol_rdp: "Remote Desktop (RDP)",
        protocol_vnc: "VNC",
        protocol_mysql: "MySQL",
        protocol_postgres: "PostgreSQL",
        protocol_redis: "Redis",
        keys_heading: "People & SSH access",
        keys_intro: "Public keys allowed to sign in to the gateway, and the assets each may reach.",
        keys_add_heading: "Add an SSH identity",
        keys_add_intro: "Paste an OpenSSH public key and choose the assets it may reach.",
        field_name: "Name",
        field_public_key: "Public key",
        save_key: "Save identity",
        keys_existing_heading: "Registered identities",
        keys_existing_intro: "Deactivate an identity to refuse its sign-ins without deleting it.",
        field_fingerprint: "Fingerprint",
        key_access_mode: "Asset access",
        field_status: "Status",
        field_action: "Action",
        no_keys: "No SSH identities registered yet.",
        key_added_prefix: "Added",
        key_access_restricted: "Selected assets",
        key_access_all: "All assets",
        active: "Active",
        inactive: "Inactive",
        edit: "Edit",
        deactivate: "Deactivate",
        activate: "Activate",
        key_access_heading: "Reachable assets",
        key_access_intro: "Choose whether this identity reaches every asset or only selected ones.",
        key_assets_suffix: "assets",
        key_access_all_intro: "Current and future assets are automatically accessible.",
        key_access_restricted_intro: "This identity may reach only the assets checked below.",
        key_asset_search: "Search assets",
        edit_key_intro: "Change the name, the public key or the assets this identity may reach.",
        key_details_heading: "Identity details",
        key_details_intro: "A changed public key takes effect at the next sign-in.",
        save_changes: "Save changes",
        back_to_keys: "Back to SSH identities",
        danger_zone: "Danger zone",
        delete_key_intro: "Deleting an identity refuses its sign-ins and cannot be undone.",
        delete_key: "Delete identity",
        known_hosts_intro: "Host keys the gateway has trusted on first connection to each target.",
        known_hosts_trusted: "trusted",
        known_hosts_panel_intro: "Connections are refused when a target presents a different key.",
        known_hosts_reset_note: "Reset a host key only after confirming the target was legitimately reinstalled.",
        known_hosts_panel_heading: "Trusted host keys",
        host_column: "Host",
        key_type_column: "Key type",
        first_seen_column: "First seen",
        known_hosts_asset_usage: "Used by",
        no_known_hosts: "No host keys trusted yet.",
        known_host_copy_fingerprint: "Copy fingerprint",
        asset_copy_success: "Copied",
        asset_copy_failed: "Copy failed",
        known_hosts_unused: "Unused",
        known_hosts_assets_suffix: "assets",
        known_host_reset_action: "Reset trust",
        known_host_reset_heading: "Reset a trusted host key",
        close: "Close",
        known_host_reset_intro: "The next connection to this host will trust the key it presents.",
        known_host_reset_warning: "Resetting trust for a compromised host exposes its sessions.",
        known_host_reset_confirm: "I confirmed the new host key with the target's owner.",
        known_host_reset_submit: "Reset host key",
        sessions_heading: "Audit Logs",
        sessions_intro: "Administrative changes and SSH access",
        sessions_active_heading: "Live",
        sessions_failed_suffix: "failed",
        sessions_admin_recorded_suffix: "admin events",
        sessions_recorded_suffix: "sessions",
        sessions_terminate_all: "Terminate all",
        sessions_live_tail: "Refresh",
        sessions_range_latest: "Latest 100",
        sessions_user_all: "All users",
        sessions_event_all: "All events",
        sessions_admin_heading: "Administrator actions",
        sessions_admin_intro: "Changes made in the console and through the control API.",
        started_column: "Started",
        sessions_actor_column: "Actor",
        target_column: "Target",
        error_column: "Details",
        sessions_no_admin_events: "No administrator actions recorded yet.",
        sessions_source_prefix: "from",
        sessions_recent_heading: "Recent sessions",
        sessions_recent_intro: "Sessions through the gateway.",
        sessions_active_intro: "Live sessions can be terminated.",
        key_column: "Identity",
        asset_column: "Asset",
        mode_column: "Mode",
        sessions_action_column: "Action",
        no_sessions: "No sessions recorded yet.",
        sessions_terminate: "Terminate",
        sessions_summary_heading: "Summary",
        sessions_summary_intro: "Counts over the sessions shown.",
        sessions_failed_heading: "Failed",
        sessions_direct_heading: "Direct",
        sessions_completed_heading: "Completed",
        login_heading: "Sign in",
        login_team_intro: "Sign in with your administrator account.",
        login_intro: "Enter the console password to continue.",
        login_username: "Username",
        login_password: "Password",
        login_button: "Sign in",
        permission_denied_heading: "Permission required",
        permission_denied_intro: "Your access profile does not allow this action.",
        permission_current_access: "Current access",
        permission_owner_action: "Ask an owner to change your access",
        permission_request_prefix: "Request: please allow me to manage",
        settings_heading: "Settings",
        settings_intro: "Your password and who may administer the gateway.",
        admin_must_change_password: "Change your temporary password before continuing.",
        admin_password_heading: "Password",
        admin_password_intro: "Change the password you sign in with.",
        current_password: "Current password",
        new_password: "New password",
        confirm_password: "Confirm new password",
        change_password: "Change password",
        admin_access_heading: "Administrators",
        admin_access_intro: "Accounts that may sign in to this console.",
        admin_add_action: "Add administrator",
        admin_single_mode: "One active account: the password alone signs in.",
        admin_team_mode: "Several active accounts: sign-in asks for a username.",
        admin_existing_heading: "Accounts",
        admin_existing_intro: "Change an account's access level or turn its sign-in off.",
        admin_current_user: "you",
        admin_last_login: "Last sign-in",
        admin_access_level: "Access level",
        admin_login_active: "Sign-in enabled",
        admin_save_access: "Save access",
        admin_add_heading: "New administrator",
        admin_add_intro: "The account signs in with a temporary password it must change.",
        admin_display_name: "Display name",
        admin_username: "Username",
        admin_temporary_password: "Temporary password",
        admin_temporary_password_note: "At least 12 characters; share it out of band.",
        admin_recommended: "recommended",
        admin_profile_owner_intro: "Full control, including administrators.",
        admin_profile_operator_intro: "Manages assets, credentials and sessions.",
        admin_profile_viewer_intro: "Reads everything and changes nothing.",
        credentials_intro: "Accounts and secrets the gateway signs in to targets with.",
        credentials_title: "Credentials",
        credentials_add_heading: "Add credential",
        credentials_export_heading: "Export",
        credentials_export_intro: "Exports hold metadata only, never secrets.",
        export_csv: "Export CSV",
        export_json: "Export JSON",
        import_open: "Import",
        credentials_existing_heading: "Stored credentials",
        credentials_existing_intro: "A credential in use by an asset cannot be deleted.",
        field_username: "Username",
        field_auth_type: "Auth type",
        secrets_label: "Secrets",
        credential_usage_heading: "Used by",
        no_credentials: "No credentials stored yet.",
        credential_unused: "Unused",
        credential_used_by_suffix: "assets",
        credential_delete_confirm: "Delete this credential?",
        credential_delete_in_use: "Detach it from its assets first.",
        delete: "Delete",
        credentials_add_intro: "Secrets are encrypted before they are stored.",
        credential_add_status: "New",
        save_credential: "Save credential",
        edit_credential_title: "Edit credential",
        edit_credential_intro: "Leave a secret empty to keep the stored one.",
        credential_edit_status: "Editing",
        credential_secret_stored: "Encrypted value stored",
        credential_secret_missing: "Not stored",
        replace_password: "Replace password",
        field_password: "Password",
        replace_private_key: "Replace private key",
        field_private_key: "Private key",
        replace_passphrase: "Replace passphrase",
        field_passphrase: "Passphrase",
        secret_keep_note: "Empty secret fields keep what is stored.",
        secret_storage_note: "Secrets are encrypted at rest and never shown again.",
        credential_details_heading: "Credential details",
        credential_details_intro: "Change the account or replace its secrets.",
        back_to_credentials: "Back to credentials",
        overview_heading: "Bastion posture",
        overview_intro: "The state of the gateway and of what it protects.",
        overview_status_operational: "Operational",
        overview_status_attention: "Needs attention",
        assets_add_heading: "Add Asset",
        overview_assets_label: "Total servers",
        overview_health_healthy: "healthy",
        overview_health_failed: "failed",
        overview_health_unknown: "unknown",
        overview_sessions_24h_label: "Sessions · 24h",
        overview_sessions_24h_note: "through the gateway",
        overview_active_keys_label: "Active identities",
        overview_active_keys_note: "may sign in",
        overview_managed_coverage_label: "Managed SSH coverage",
        overview_managed_coverage_suffix: "SSH assets",
        overview_recent_access_heading: "Recent SSH access",
        overview_recent_access_intro: "The latest sessions through the gateway.",
        overview_view_all: "View all",
        overview_no_recent_access: "No recent access.",
        overview_risk_heading: "Risks",
        overview_risk_intro: "What needs an administrator's attention.",
        overview_source_unavailable: "Configuration source unavailable",
        overview_failed_assets_risk: "Assets failing their probe",
        overview_unknown_assets_risk: "Assets never probed",
        overview_unmanaged_assets_risk: "SSH assets without a credential",
        overview_no_active_keys_risk: "No identity may sign in",
        overview_no_risks: "No open risks",
        overview_gateway_heading: "Gateway posture",
        overview_gateway_intro: "Endpoints and storage of this gateway.",
        overview_admin_endpoint: "Console",
        overview_ssh_endpoint: "SSH",
        overview_database: "Database",
        overview_version: "Version",
        overview_started: "Started",
        overview_uptime: "Uptime",
        overview_reachable: "reachable",
        overview_unreachable: "unreachable",
        overview_coverage_heading: "Coverage",
        overview_coverage_intro: "How much of the estate the gateway governs.",
        overview_credential_coverage: "SSH assets with a credential",
        overview_restricted_coverage: "Identities with restricted access",
        overview_trust_coverage: "SSH assets with a trusted host key",
        overview_recent_changes_heading: "Recent admin changes",
        overview_recent_changes_intro: "The latest administrator actions.",
        overview_no_recent_changes: "No recent changes.",
        import_heading: "Import and export",
        import_intro: "Move assets and credential metadata between gateways.",
        import_form_heading: "Import a file",
        import_form_intro: "CSV or JSON, as the export writes it.",
        import_kind: "What",
        kind_assets: "Assets",
        kind_credentials: "Credentials",
        import_format: "Format",
        import_conflict: "On conflict",
        conflict_skip: "Skip",
        conflict_overwrite: "Overwrite",
        conflict_error: "Stop with an error",
        import_file: "File",
        import_submit: "Import",
        import_summary: "Import result",
        imported: "Imported",
        skipped: "Skipped",
        overwritten: "Overwritten",
        errors: "Errors",
        field_protocol: "Protocol",
        field_hostname: "Host",
        field_port: "Port",
        rdp_port_hint: "RDP listens on 3389; if that port is busy on your machine, forward a free local port such as 3390.",
        field_tags: "Tags",
        field_credential: "Credential",
        proxy_only: "Proxy only",
        field_description: "Description",
        edit_asset_intro: "Change where the asset is and how the gateway signs in.",
        asset_details_heading: "Asset details",
        asset_details_intro: "Name, address, tags and credential.",
        back_to_assets: "Back to assets",
        tunnel_command_heading: "Tunnel command",
        tunnel_command_intro: "Forward a local port to this asset through the gateway.",
        assets_intro: "Inventory, connectivity, and assigned access tags.",
        assets_count_suffix: "assets",
        assets_filter_heading: "Filter",
        assets_search_label: "Search assets",
        assets_search_action: "Search",
        assets_clear_filters: "Clear filters",
        assets_filter_intro: "Show the assets with a tag.",
        assets_filter_all: "All",
        assets_export_intro: "Exports hold no secrets.",
        assets_export_heading: "Export",
        assets_existing_heading: "Server inventory",
        assets_existing_intro: "Select rows to tag them together.",
        no_assets: "No assets yet.",
        assets_bulk_heading: "Selected",
        asset_activity_placeholder: "No description",
        asset_copy_target: "Copy target",
        untagged: "Untagged",
        assets_bulk_intro: "Add tags to every selected asset.",
        assets_bulk_tags_label: "Tags to add",
        assets_bulk_apply: "Apply tags",
        assets_add_intro: "Where the asset is and how the gateway signs in.",
        draft_status: "Draft",
        assets_close_drawer: "Close",
        save_asset: "Save asset",
        edit_asset_title: "Edit asset",
        assets_edit_status: "Editing",
    }
}

/// The Chinese messages.
pub fn zh() -> (t: L10n)
    ensures
        t.locale == Locale::Zh,
{
    L10n {
        locale: Locale::Zh,
        app_title: "Hop 管理台",
        admin_console: "管理控制台",
        nav_primary: "主导航",
        nav_overview: "概览",
        nav_known_hosts: "已知主机",
        nav_import_export: "导入 / 导出",
        loopback_admin: "本机管理",
        loopback_note: "仅限本机访问。",
        language_label: "语言",
        switch_language_to: "切换到",
        admin_web: "管理后台",
        logout: "退出登录",
        assets_title: "资产",
        overview_title: "概览",
        keys_title: "SSH 访问",
        edit_key_title: "编辑 SSH 身份",
        known_hosts_title: "已知主机",
        sessions_title: "审计日志",
        settings_title: "设置",
        login_title: "登录",
        permission_denied_title: "需要权限",
        import_title: "导入 / 导出",
        nav_assets: "资产",
        nav_credentials: "凭据",
        nav_keys: "SSH 身份",
        nav_sessions: "审计日志",
        nav_settings: "设置",
        none: "无",
        admin_profile_owner: "所有者",
        admin_profile_operator: "操作员",
        admin_profile_viewer: "只读",
        admin_last_owner_note: "至少需要保留一名拥有完全控制权的活跃管理员。",
        admin_temporary_password_too_short: "临时密码至少需要 12 个字符。",
        settings_current_password_invalid: "当前密码不正确。",
        settings_new_password_empty: "请输入新密码。",
        settings_new_password_too_short: "新密码至少需要 12 个字符。",
        settings_password_confirmation_mismatch: "两次输入的新密码不一致。",
        protocol_ssh: "SSH",
        protocol_tcp: "TCP",
        protocol_rdp: "远程桌面 (RDP)",
        protocol_vnc: "VNC",
        protocol_mysql: "MySQL",
        protocol_postgres: "PostgreSQL",
        protocol_redis: "Redis",
        keys_heading: "人员与 SSH 访问",
        keys_intro: "允许登录跳板机的公钥，以及每个公钥可访问的资产。",
        keys_add_heading: "添加 SSH 身份",
        keys_add_intro: "粘贴 OpenSSH 公钥，并选择它可访问的资产。",
        field_name: "名称",
        field_public_key: "公钥",
        save_key: "保存身份",
        keys_existing_heading: "已登记的身份",
        keys_existing_intro: "停用身份即可拒绝其登录，而无需删除。",
        field_fingerprint: "指纹",
        key_access_mode: "资产访问",
        field_status: "状态",
        field_action: "操作",
        no_keys: "尚未登记任何 SSH 身份。",
        key_added_prefix: "添加于",
        key_access_restricted: "指定资产",
        key_access_all: "全部资产",
        active: "启用",
        inactive: "停用",
        edit: "编辑",
        deactivate: "停用",
        activate: "启用",
        key_access_heading: "可访问的资产",
        key_access_intro: "选择此身份可访问全部资产还是仅指定资产。",
        key_assets_suffix: "个资产",
        key_access_all_intro: "当前及以后添加的资产均自动可访问。",
        key_access_restricted_intro: "此身份只能访问下面勾选的资产。",
        key_asset_search: "搜索资产",
        edit_key_intro: "修改名称、公钥或此身份可访问的资产。",
        key_details_heading: "身份详情",
        key_details_intro: "更换的公钥在下次登录时生效。",
        save_changes: "保存修改",
        back_to_keys: "返回 SSH 身份",
        danger_zone: "危险操作",
        delete_key_intro: "删除身份将拒绝其登录，且无法撤销。",
        delete_key: "删除身份",
        known_hosts_intro: "跳板机在首次连接各目标时信任的主机密钥。",
        known_hosts_trusted: "已信任",
        known_hosts_panel_intro: "目标出示不同的密钥时，连接将被拒绝。",
        known_hosts_reset_note: "仅在确认目标确实已重装后再重置主机密钥。",
        known_hosts_panel_heading: "已信任的主机密钥",
        host_column: "主机",
        key_type_column: "密钥类型",
        first_seen_column: "首次出现",
        known_hosts_asset_usage: "使用者",
        no_known_hosts: "尚未信任任何主机密钥。",
        known_host_copy_fingerprint: "复制指纹",
        asset_copy_success: "已复制",
        asset_copy_failed: "复制失败",
        known_hosts_unused: "未使用",
        known_hosts_assets_suffix: "个资产",
        known_host_reset_action: "重置信任",
        known_host_reset_heading: "重置已信任的主机密钥",
        close: "关闭",
        known_host_reset_intro: "下次连接该主机时将信任其出示的密钥。",
        known_host_reset_warning: "重置已被入侵主机的信任会暴露其会话。",
        known_host_reset_confirm: "我已与目标负责人确认新的主机密钥。",
        known_host_reset_submit: "重置主机密钥",
        sessions_heading: "审计日志",
        sessions_intro: "管理变更与 SSH 访问",
        sessions_active_heading: "进行中",
        sessions_failed_suffix: "失败",
        sessions_admin_recorded_suffix: "管理事件",
        sessions_recorded_suffix: "会话",
        sessions_terminate_all: "全部终止",
        sessions_live_tail: "刷新",
        sessions_range_latest: "最近 100 条",
        sessions_user_all: "所有用户",
        sessions_event_all: "所有事件",
        sessions_admin_heading: "管理员操作",
        sessions_admin_intro: "通过控制台和控制 API 进行的修改。",
        started_column: "开始时间",
        sessions_actor_column: "操作者",
        target_column: "目标",
        error_column: "详情",
        sessions_no_admin_events: "尚未记录任何管理员操作。",
        sessions_source_prefix: "来自",
        sessions_recent_heading: "最近会话",
        sessions_recent_intro: "经由跳板机的会话。",
        sessions_active_intro: "进行中的会话可被终止。",
        key_column: "身份",
        asset_column: "资产",
        mode_column: "模式",
        sessions_action_column: "操作",
        no_sessions: "尚未记录任何会话。",
        sessions_terminate: "终止",
        sessions_summary_heading: "摘要",
        sessions_summary_intro: "所示会话的统计。",
        sessions_failed_heading: "失败",
        sessions_direct_heading: "直连",
        sessions_completed_heading: "已结束",
        login_heading: "登录",
        login_team_intro: "使用管理员账号登录。",
        login_intro: "输入控制台密码以继续。",
        login_username: "用户名",
        login_password: "密码",
        login_button: "登录",
        permission_denied_heading: "需要权限",
        permission_denied_intro: "你的访问级别不允许此操作。",
        permission_current_access: "当前访问级别",
        permission_owner_action: "请所有者调整你的访问级别",
        permission_request_prefix: "请求文案：请允许我管理",
        settings_heading: "设置",
        settings_intro: "你的密码，以及谁可以管理跳板机。",
        admin_must_change_password: "请先修改临时密码再继续。",
        admin_password_heading: "密码",
        admin_password_intro: "修改你的登录密码。",
        current_password: "当前密码",
        new_password: "新密码",
        confirm_password: "确认新密码",
        change_password: "修改密码",
        admin_access_heading: "管理员",
        admin_access_intro: "可登录此控制台的账号。",
        admin_add_action: "添加管理员",
        admin_single_mode: "只有一个启用的账号：仅凭密码即可登录。",
        admin_team_mode: "有多个启用的账号：登录时需要用户名。",
        admin_existing_heading: "账号",
        admin_existing_intro: "修改账号的访问级别或停用其登录。",
        admin_current_user: "你",
        admin_last_login: "上次登录",
        admin_access_level: "访问级别",
        admin_login_active: "允许登录",
        admin_save_access: "保存访问设置",
        admin_add_heading: "新管理员",
        admin_add_intro: "该账号使用临时密码登录，并须修改。",
        admin_display_name: "显示名称",
        admin_username: "用户名",
        admin_temporary_password: "临时密码",
        admin_temporary_password_note: "至少 12 个字符；请通过其他渠道告知。",
        admin_recommended: "推荐",
        admin_profile_owner_intro: "完全控制，包括管理员。",
        admin_profile_operator_intro: "管理资产、凭据和会话。",
        admin_profile_viewer_intro: "可查看全部内容，不能修改。",
        credentials_intro: "跳板机登录目标时使用的账号与密钥。",
        credentials_title: "凭据",
        credentials_add_heading: "添加凭据",
        credentials_export_heading: "导出",
        credentials_export_intro: "导出只包含元数据，不含密钥。",
        export_csv: "导出 CSV",
        export_json: "导出 JSON",
        import_open: "导入",
        credentials_existing_heading: "已保存的凭据",
        credentials_existing_intro: "被资产使用的凭据无法删除。",
        field_username: "用户名",
        field_auth_type: "认证方式",
        secrets_label: "密钥",
        credential_usage_heading: "使用者",
        no_credentials: "尚未保存任何凭据。",
        credential_unused: "未使用",
        credential_used_by_suffix: "个资产",
        credential_delete_confirm: "删除此凭据？",
        credential_delete_in_use: "请先将其从资产上解除。",
        delete: "删除",
        credentials_add_intro: "密钥在保存前会被加密。",
        credential_add_status: "新建",
        save_credential: "保存凭据",
        edit_credential_title: "编辑凭据",
        edit_credential_intro: "密钥留空即保留已保存的值。",
        credential_edit_status: "编辑中",
        credential_secret_stored: "已保存加密值",
        credential_secret_missing: "未保存",
        replace_password: "替换密码",
        field_password: "密码",
        replace_private_key: "替换私钥",
        field_private_key: "私钥",
        replace_passphrase: "替换口令",
        field_passphrase: "口令",
        secret_keep_note: "留空的密钥字段将保留已保存的值。",
        secret_storage_note: "密钥加密保存，且不会再次显示。",
        credential_details_heading: "凭据详情",
        credential_details_intro: "修改账号或替换其密钥。",
        back_to_credentials: "返回凭据",
        overview_heading: "堡垒机态势",
        overview_intro: "跳板机及其所保护资源的状态。",
        overview_status_operational: "运行正常",
        overview_status_attention: "需要关注",
        assets_add_heading: "添加资产",
        overview_assets_label: "资产",
        overview_health_healthy: "健康",
        overview_health_failed: "失败",
        overview_health_unknown: "未知",
        overview_sessions_24h_label: "会话（24 小时）",
        overview_sessions_24h_note: "经由跳板机",
        overview_active_keys_label: "启用的身份",
        overview_active_keys_note: "可登录",
        overview_managed_coverage_label: "托管凭据",
        overview_managed_coverage_suffix: "SSH 资产",
        overview_recent_access_heading: "最近访问",
        overview_recent_access_intro: "经由跳板机的最新会话。",
        overview_view_all: "查看全部",
        overview_no_recent_access: "最近没有访问。",
        overview_risk_heading: "风险",
        overview_risk_intro: "需要管理员关注的事项。",
        overview_source_unavailable: "配置来源不可用",
        overview_failed_assets_risk: "探测失败的资产",
        overview_unknown_assets_risk: "从未探测的资产",
        overview_unmanaged_assets_risk: "没有凭据的 SSH 资产",
        overview_no_active_keys_risk: "没有可登录的身份",
        overview_no_risks: "没有未处理的风险",
        overview_gateway_heading: "跳板机",
        overview_gateway_intro: "本跳板机的端点与存储。",
        overview_admin_endpoint: "控制台",
        overview_ssh_endpoint: "SSH",
        overview_database: "数据库",
        overview_version: "版本",
        overview_started: "启动时间",
        overview_uptime: "运行时长",
        overview_reachable: "可达",
        overview_unreachable: "不可达",
        overview_coverage_heading: "覆盖率",
        overview_coverage_intro: "跳板机管控的资源比例。",
        overview_credential_coverage: "有凭据的 SSH 资产",
        overview_restricted_coverage: "访问受限的身份",
        overview_trust_coverage: "主机密钥已信任的 SSH 资产",
        overview_recent_changes_heading: "最近变更",
        overview_recent_changes_intro: "最新的管理员操作。",
        overview_no_recent_changes: "最近没有变更。",
        import_heading: "导入与导出",
        import_intro: "在跳板机之间迁移资产与凭据元数据。",
        import_form_heading: "导入文件",
        import_form_intro: "CSV 或 JSON，格式与导出一致。",
        import_kind: "类型",
        kind_assets: "资产",
        kind_credentials: "凭据",
        import_format: "格式",
        import_conflict: "冲突时",
        conflict_skip: "跳过",
        conflict_overwrite: "覆盖",
        conflict_error: "报错并停止",
        import_file: "文件",
        import_submit: "导入",
        import_summary: "导入结果",
        imported: "已导入",
        skipped: "已跳过",
        overwritten: "已覆盖",
        errors: "错误",
        field_protocol: "协议",
        field_hostname: "主机",
        field_port: "端口",
        rdp_port_hint: "RDP 监听 3389 端口；若本机该端口已占用，请转发到空闲端口，例如 3390。",
        field_tags: "标签",
        field_credential: "凭据",
        proxy_only: "仅代理",
        field_description: "描述",
        edit_asset_intro: "修改资产的位置以及跳板机的登录方式。",
        asset_details_heading: "资产详情",
        asset_details_intro: "名称、地址、标签与凭据。",
        back_to_assets: "返回资产",
        tunnel_command_heading: "隧道命令",
        tunnel_command_intro: "通过跳板机将本地端口转发到此资产。",
        assets_intro: "跳板机可达的目标，以及登录各目标的方式。",
        assets_count_suffix: "个资产",
        assets_filter_heading: "筛选",
        assets_search_label: "搜索资产",
        assets_search_action: "搜索",
        assets_clear_filters: "清除",
        assets_filter_intro: "显示带有某标签的资产。",
        assets_filter_all: "全部",
        assets_export_intro: "导出不包含密钥。",
        assets_export_heading: "导出",
        assets_existing_heading: "服务器清单",
        assets_existing_intro: "选择多行以批量添加标签。",
        no_assets: "尚无资产。",
        assets_bulk_heading: "已选择",
        asset_activity_placeholder: "无描述",
        asset_copy_target: "复制目标",
        untagged: "无标签",
        assets_bulk_intro: "为所有选中的资产添加标签。",
        assets_bulk_tags_label: "要添加的标签",
        assets_bulk_apply: "应用标签",
        assets_add_intro: "资产的位置以及跳板机的登录方式。",
        draft_status: "草稿",
        assets_close_drawer: "关闭",
        save_asset: "保存资产",
        edit_asset_title: "编辑资产",
        assets_edit_status: "编辑中",
    }
}

/// The messages of a language.
pub fn l10n(locale: Locale) -> (t: L10n)
    ensures
        t.locale == locale,
{
    match locale {
        Locale::En => en(),
        Locale::Zh => zh(),
    }
}

} // verus!
