use hop_server::asset_pages::{assets, edit_asset};
use hop_server::auth_pages::{login, permission_denied};
use hop_server::console::AdminAccount;
use hop_server::settings_page::settings;
use hop_server::console_pages::{edit_key, keys};
use hop_server::credentials_page::{credentials, edit_credential};
use hop_server::i18n::{en, zh};
use hop_server::known_hosts_page::known_hosts;
use hop_server::model::{Asset, AssetAccessMode, AssetHealth, AuditEvent, AuthorizedKey, Credential, KnownHost, Session};
use hop_server::overview_page::overview;
use hop_server::import_page::import_export;
use hop_server::transfer::ImportSummary;
use hop_server::pages::{url_query_value, DashboardData, DashboardGateway};
use hop_server::sessions_page::sessions;

fn key(id: &str, name: &str, active: bool, mode: AssetAccessMode) -> AuthorizedKey {
    AuthorizedKey {
        id: id.to_string(),
        name: name.to_string(),
        public_key: "ssh-ed25519 AAAA".to_string(),
        fingerprint: format!("SHA256:{id}"),
        is_active: active,
        asset_access_mode: mode,
        created_at: Some("2024-05-01".to_string()),
    }
}

fn asset(id: &str, name: &str, tags: &[&str]) -> Asset {
    Asset {
        id: id.to_string(),
        name: name.to_string(),
        protocol: "ssh".to_string(),
        preset: None,
        hostname: "10.0.0.8".to_string(),
        port: 22,
        description: None,
        tags: tags.iter().map(|t| t.to_string()).collect(),
        credential_id: None,
        created_at: None,
        updated_at: None,
    }
}

#[test]
fn keys_page_escapes_names_and_lists_rows_in_order() {
    let t = en();
    let items = vec![
        key("k1", "<script>&", true, AssetAccessMode::Restricted),
        key("k2", "old \"laptop\"", false, AssetAccessMode::All),
    ];
    let page = keys(&t, &items, &[], "tok", None, true);
    assert!(page.contains("<div class=\"primary-cell\">&lt;script&gt;&amp;<span class=\"subtle\">Added 2024-05-01</span></div>"));
    assert!(page.contains("old &quot;laptop&quot;"));
    assert!(!page.contains("<script>&"));
    let first = page.find("SHA256:k1").unwrap();
    let second = page.find("SHA256:k2").unwrap();
    assert!(first < second);
    assert!(page.contains("<form method=\"post\" action=\"/keys/k1/deactivate\">"));
    assert!(page.contains("<form method=\"post\" action=\"/keys/k2/activate\">"));
    assert!(page.contains("<span class=\"status-pill neutral\">Selected assets</span>"));
    assert!(page.contains("<span class=\"status-pill neutral\">All assets</span>"));
    assert!(page.contains("<input type=\"hidden\" name=\"csrf_token\" value=\"tok\">"));
}

#[test]
fn read_only_keys_page_shows_no_forms_and_no_action_column() {
    let t = en();
    let items = vec![key("k1", "laptop", true, AssetAccessMode::All)];
    let assets = vec![asset("a1", "db", &[])];
    let page = keys(&t, &items, &assets, "tok", Some("bad key"), false);
    assert!(!page.contains("<form"));
    assert!(!page.contains("tok"));
    assert!(!page.contains("bad key"));
    assert!(!page.contains("<th>Action</th>"));
    assert!(page.contains("laptop"));
    let other = keys(&t, &items, &[], "other", None, false);
    assert_eq!(page, other);
}

#[test]
fn keys_page_without_identities_shows_the_empty_row() {
    let t = en();
    let managed = keys(&t, &[], &[], "tok", None, true);
    assert!(managed.contains("<tr class=\"empty-row\"><td colspan=\"5\">No SSH identities registered yet.</td></tr>"));
    let read_only = keys(&t, &[], &[], "tok", None, false);
    assert!(read_only.contains("<tr class=\"empty-row\"><td colspan=\"4\">No SSH identities registered yet.</td></tr>"));
}

#[test]
fn add_form_shows_the_error_and_offers_every_asset_unselected() {
    let t = en();
    let assets = vec![asset("a1", "Web <1>", &["prod", "eu"]), asset("a2", "db", &[])];
    let page = keys(&t, &[], &assets, "tok", Some("invalid public key"), true);
    assert!(page.contains("<p class=\"error-message\" role=\"alert\">invalid public key</p>"));
    assert!(page.contains("<span class=\"status-pill\">2 / 2 assets</span>"));
    assert!(page.contains("<option value=\"all\" selected>All assets</option>"));
    assert!(page.contains("<div data-asset-access-list hidden>"));
    assert!(page.contains("<input type=\"checkbox\" name=\"asset_id\" value=\"a1\" disabled>"));
    assert!(page.contains("data-asset-search=\"web &lt;1&gt; ssh 10.0.0.8 22 prod eu\""));
    assert!(page.contains("<div class=\"tag-list\"><span class=\"tag\">prod</span><span class=\"tag\">eu</span></div>"));
    assert!(page.contains("=&gt;row.hidden"));
}

#[test]
fn edit_key_page_checks_the_assigned_assets_of_a_restricted_identity() {
    let t = en();
    let k = key("k9", "ops", true, AssetAccessMode::Restricted);
    let assets = vec![asset("a1", "web", &[]), asset("a2", "db", &[])];
    let assigned = vec!["a2".to_string()];
    let page = edit_key(&t, &k, &assets, &assigned, "tok", Some("name taken"));
    assert!(page.contains("<form method=\"post\" action=\"/keys/k9\">"));
    assert!(page.contains("<p class=\"error-message\">name taken</p>"));
    assert!(page.contains("<input name=\"name\" value=\"ops\" required>"));
    assert!(page.contains("<textarea name=\"public_key\" rows=\"4\" required>ssh-ed25519 AAAA</textarea>"));
    assert!(page.contains("<span class=\"status-pill\">1 / 2 assets</span>"));
    assert!(page.contains("<option value=\"restricted\" selected>"));
    assert!(page.contains("<input type=\"checkbox\" name=\"asset_id\" value=\"a1\">"));
    assert!(page.contains("<input type=\"checkbox\" name=\"asset_id\" value=\"a2\" checked>"));
    assert!(page.contains("<div data-asset-access-list>"));
    assert!(page.contains("data-access-all-note hidden>"));
    assert!(page.contains("<form method=\"post\" action=\"/keys/k9/delete\">"));
}

fn host(hostname: &str, port: i64, first_seen: Option<&str>) -> KnownHost {
    KnownHost {
        hostname: hostname.to_string(),
        port,
        key_type: "ssh-ed25519".to_string(),
        fingerprint: "SHA256:f<p>".to_string(),
        first_seen: first_seen.map(str::to_string),
    }
}

#[test]
fn known_hosts_page_lists_the_assets_using_each_host() {
    let t = en();
    let mut web = asset("a1", "web", &[]);
    web.hostname = "10.0.0.9".to_string();
    let mut other_port = asset("a2", "web-alt", &[]);
    other_port.hostname = "10.0.0.9".to_string();
    other_port.port = 2222;
    let mut api = asset("a3", "api", &[]);
    api.hostname = "10.0.0.9".to_string();
    let assets = vec![web, other_port, api];
    let hosts = vec![host("10.0.0.9", 22, Some("2024-01-02")), host("10.0.0.7", 22, None)];
    let page = known_hosts(&t, &hosts, &assets, "tok", true);
    assert!(page.contains("<span class=\"status-dot good\"></span>2 trusted</span>"));
    assert!(page.contains("<span class=\"status-pill\">2 assets</span><span class=\"subtle\">web, api</span>"));
    assert!(page.contains("<span class=\"status-pill neutral\">Unused</span>"));
    assert!(page.contains("<span class=\"subtle\">2024-01-02</span>"));
    assert!(page.contains("<span class=\"subtle\">-</span>"));
    assert!(page.contains("<code class=\"fingerprint-value\">SHA256:f&lt;p&gt;</code>"));
    assert!(page.contains("aria-label=\"Copy fingerprint: SHA256:f&lt;p&gt;\""));
    assert!(page.contains("id=\"reset-known-host-10.0.0.9-22-ssh-ed25519\""));
    assert!(page.contains("data-port=\"22\""));
    assert!(page.contains("<input type=\"hidden\" name=\"csrf_token\" value=\"tok\">"));
}

#[test]
fn read_only_known_hosts_page_has_no_reset_buttons() {
    let t = en();
    let page = known_hosts(&t, &[host("h", 22, None)], &[], "tok", false);
    assert!(!page.contains("window.openKnownHostReset(this)"));
    assert!(!page.contains("<th>Action</th>"));
    let empty = known_hosts(&t, &[], &[], "tok", false);
    assert!(empty.contains("<tr class=\"empty-row\"><td colspan=\"5\">No host keys trusted yet.</td></tr>"));
    let managed = known_hosts(&t, &[], &[], "tok", true);
    assert!(managed.contains("<td colspan=\"6\">"));
}

fn recorded(id: &str, status: &str, mode: &str, ended: bool) -> Session {
    Session {
        id: id.to_string(),
        key_finger: "SHA256:kf".to_string(),
        key_name: Some("laptop".to_string()),
        mode: mode.to_string(),
        asset_name: None,
        target_host: Some("10.0.0.5".to_string()),
        target_port: None,
        client_ip: Some("192.0.2.1".to_string()),
        status: status.to_string(),
        error: Some("refused <x>".to_string()),
        started_at: Some("2024-05-01T10:00:00Z".to_string()),
        ended_at: if ended { Some("2024-05-01T11:00:00Z".to_string()) } else { None },
    }
}

fn event(result: &str) -> AuditEvent {
    AuditEvent {
        occurred_at: None,
        actor_label: "admin".to_string(),
        source_ip: Some("198.51.100.4".to_string()),
        action: "asset.update".to_string(),
        target_type: "asset".to_string(),
        target_id: Some("a1".to_string()),
        target_label: None,
        details_json: Some("{\"port\":22}".to_string()),
        result: result.to_string(),
    }
}

#[test]
fn sessions_page_counts_marks_live_sessions_and_offers_termination() {
    let t = en();
    let items = vec![
        recorded("s1", "failed", "direct", true),
        recorded("s2", "ok", "managed", false),
        recorded("s3", "running", "direct", false),
    ];
    let events = vec![event("failure"), event("success")];
    let live = vec!["s3".to_string()];
    let page = sessions(&t, &items, &events, &live, "tok", true);
    assert!(page.contains("<span class=\"status-chip good\">1 Live</span>"));
    assert!(page.contains("<span class=\"status-chip danger\">1 failed</span>"));
    assert!(page.contains("<span class=\"status-chip neutral\">2 admin events</span>"));
    assert!(page.contains("<span class=\"status-chip good\">3 sessions</span>"));
    assert!(page.contains("<form method=\"post\" action=\"/sessions/terminate-all\">"));
    assert!(page.contains("<form method=\"post\" action=\"/sessions/s3/terminate\">"));
    assert!(!page.contains("/sessions/s2/terminate"));
    assert!(page.contains("<span class=\"status-pill danger\">failed</span>"));
    assert!(page.contains("<span class=\"status-pill\">ok</span>"));
    assert!(page.contains("<td><span class=\"status-pill\">Live</span></td>"));
    assert!(page.contains("<span class=\"mono\">10.0.0.5:0</span><span class=\"subtle\">from 192.0.2.1</span><span class=\"subtle\">refused &lt;x&gt;</span>"));
    assert!(page.contains("<span class=\"status-pill danger\">failure</span>"));
    assert!(page.contains("<span class=\"subtle mono\">{&quot;port&quot;:22}</span>"));
    assert!(page.contains("<td class=\"mono\">-</td>"));
    assert!(page.contains("<b>Failed</b><span>1</span>"));
    assert!(page.contains("<b>Direct</b><span>2</span>"));
    assert!(page.contains("<b>Completed</b><span>1</span>"));
}

#[test]
fn sessions_page_without_terminate_right_has_no_forms() {
    let t = en();
    let items = vec![recorded("s1", "running", "managed", false)];
    let live = vec!["s1".to_string()];
    let page = sessions(&t, &items, &[], &live, "tok", false);
    assert!(!page.contains("<form"));
    assert!(page.contains("<td class=\"table-action\"><span class=\"subtle\">-</span></td>"));
    assert_eq!(page, sessions(&t, &items, &[], &live, "other", false));
    let quiet = sessions(&t, &[], &[], &[], "tok", true);
    assert!(!quiet.contains("terminate-all"));
    assert!(quiet.contains("<td colspan=\"7\">No sessions recorded yet.</td>"));
    assert!(quiet.contains("<td colspan=\"6\">No administrator actions recorded yet.</td>"));
}

#[test]
fn login_page_after_a_refused_attempt_marks_the_password_invalid() {
    let t = en();
    let page = login(&t, Some("Invalid <credentials>"), true, Some("ops\"1"));
    assert!(page.contains("<p class=\"error-message\" id=\"login-error\" role=\"alert\">Invalid &lt;credentials&gt;</p>"));
    assert!(page.contains("<input id=\"login-username\" name=\"username\" value=\"ops&quot;1\" autocomplete=\"username\" autofocus required>"));
    assert!(page.contains("autocomplete=\"current-password\" aria-describedby=\"login-error\" aria-invalid=\"true\" required>"));
    assert!(page.contains("<p>Sign in with your administrator account.</p>"));
}

#[test]
fn password_only_login_focuses_the_password() {
    let t = en();
    let page = login(&t, None, false, None);
    assert!(!page.contains("login-username"));
    assert!(!page.contains("aria-invalid=\"true\" required"));
    assert!(page.contains("autocomplete=\"current-password\" autofocus required>"));
    assert!(page.contains("<p>Enter the console password to continue.</p>"));
    let named = login(&t, None, true, None);
    assert!(named.contains("name=\"username\" value=\"\""));
    assert!(named.contains("autocomplete=\"current-password\" required>"));
}

#[test]
fn permission_denied_names_the_profile_and_the_task_in_each_language() {
    let page = permission_denied(&en(), "credentials", "viewer");
    assert!(page.contains("<b>Current access</b><span>Viewer</span>"));
    assert!(page.contains("<pre>Request: please allow me to manage credentials.</pre>"));
    let unknown = permission_denied(&en(), "x", "root");
    assert!(unknown.contains(&format!("<b>Current access</b><span>{}</span>", en().none)));
    let chinese = permission_denied(&zh(), "凭据", "owner");
    assert!(chinese.contains("<pre>请求文案：请允许我管理凭据。</pre>"));
    assert!(chinese.contains(&format!("<span>{}</span>", zh().admin_profile_owner)));
}

fn account(id: &str, profile: &str, active: bool) -> AdminAccount {
    AdminAccount {
        id: id.to_string(),
        username: format!("{id}-user"),
        display_name: format!("Admin {id}"),
        access_profile: profile.to_string(),
        is_active: active,
        must_change_password: false,
        last_login_at: None,
    }
}

#[test]
fn settings_page_never_offers_to_change_the_last_active_owner() {
    let t = en();
    let owner = account("o1", "owner", true);
    let admins = vec![owner.clone(), account("v1", "viewer", true), account("o2", "owner", false)];
    let page = settings(&t, &owner, &admins, "tok", None, true);
    assert!(!page.contains("/settings/admins/o1/access"));
    assert!(page.contains("At least one active administrator must keep full control."));
    assert!(page.contains("<form method=\"post\" action=\"/settings/admins/v1/access\">"));
    assert!(page.contains("<form method=\"post\" action=\"/settings/admins/o2/access\">"));
    assert!(page.contains("<option value=\"viewer\" selected>Viewer</option>"));
    assert!(page.contains("<b>Admin o1 · you</b>"));
    assert!(page.contains("<span class=\"status-chip\">2 · Administrators</span>"));
    assert!(page.contains("Several active accounts: sign-in asks for a username."));
    assert!(page.contains("id=\"add-admin-dialog\""));
    assert!(page.contains("<option value=\"operator\" selected>Operator · recommended</option>"));
}

#[test]
fn settings_page_with_two_owners_lets_either_be_changed() {
    let t = en();
    let first = account("o1", "owner", true);
    let admins = vec![first.clone(), account("o2", "owner", true)];
    let page = settings(&t, &first, &admins, "tok", None, true);
    assert!(page.contains("/settings/admins/o1/access"));
    assert!(page.contains("/settings/admins/o2/access"));
    assert!(page.contains("value=\"yes\" checked>"));
}

#[test]
fn settings_page_for_a_viewer_shows_access_as_text() {
    let t = en();
    let mut me = account("v1", "viewer", true);
    me.must_change_password = true;
    me.last_login_at = Some("2024-06-01".to_string());
    let admins = vec![me.clone()];
    let page = settings(&t, &me, &admins, "tok", Some("wrong <password>"), false);
    assert!(page.contains("<p class=\"error-message\" role=\"alert\">wrong &lt;password&gt;</p>"));
    assert!(page.contains("<p class=\"error-message\" role=\"status\">Change your temporary password before continuing.</p>"));
    assert!(page.contains("<form method=\"post\" action=\"/settings\">"));
    assert!(!page.contains("/access"));
    assert!(!page.contains("add-admin-dialog\""));
    assert!(page.contains("<span class=\"status-pill\">Viewer</span><span class=\"subtle\">Reads everything and changes nothing.</span>"));
    assert!(page.contains("<span class=\"subtle\">Last sign-in: 2024-06-01</span>"));
    assert!(page.contains("One active account: the password alone signs in."));
}

fn credential(id: &str, auth: &str, password: bool, key: bool, passphrase: bool) -> Credential {
    Credential {
        id: id.to_string(),
        name: format!("cred {id}"),
        username: "deploy".to_string(),
        auth_type: auth.to_string(),
        password_enc: if password { Some("enc".to_string()) } else { None },
        private_key_enc: if key { Some("enc".to_string()) } else { None },
        passphrase_enc: if passphrase { Some("enc".to_string()) } else { None },
        created_at: None,
    }
}

#[test]
fn credentials_page_disables_deleting_a_credential_in_use() {
    let t = en();
    let mut web = asset("a1", "web", &[]);
    web.credential_id = Some("c1".to_string());
    let mut db = asset("a2", "db", &[]);
    db.credential_id = Some("c1".to_string());
    let items = vec![credential("c1", "password", true, false, false), credential("c2", "key", false, false, false)];
    let page = credentials(&t, &items, &[web, db], "tok", None, true);
    assert!(page.contains("<span class=\"status-pill\">2 assets</span><span class=\"subtle\">web, db</span>"));
    assert!(page.contains("<button class=\"danger\" type=\"submit\" disabled title=\"Detach it from its assets first.\">Delete</button>"));
    assert!(page.contains("<button class=\"danger\" type=\"submit\" title=\"Delete this credential?\">Delete</button>"));
    assert!(page.contains("<span class=\"tag\">password</span>"));
    assert!(page.contains("<div class=\"secret-list\"><span class=\"status-pill neutral\">None</span></div>"));
    assert!(page.contains("data-has-password=\"true\" data-has-private-key=\"false\" data-has-passphrase=\"false\""));
    assert!(page.contains("<a id=\"edit-credential-c1\" class=\"ghost-button\" href=\"/credentials/c1/edit\""));
    assert!(page.contains("<a class=\"ghost-button\" href=\"/import\">Import</a>"));
    assert!(page.contains("id=\"add-credential-dialog\""));
    assert!(page.contains("<form method=\"post\" action=\"/credentials\" data-credential-form data-mode=\"create\">"));
}

#[test]
fn new_credential_form_requires_only_the_password() {
    let t = en();
    let page = credentials(&t, &[], &[], "tok", None, true);
    assert!(page.contains("<option value=\"password\" selected>password</option><option value=\"key\">key</option>"));
    assert!(page.contains("data-secret-for=\"password\">Password<input type=\"password\" name=\"password\" autocomplete=\"new-password\" required></label>"));
    assert!(page.contains("data-secret-for=\"key key+passphrase\" hidden>Private key<textarea name=\"private_key\" rows=\"8\" autocomplete=\"off\" spellcheck=\"false\" disabled></textarea>"));
    assert!(page.contains("data-secret-for=\"key+passphrase\" hidden>Passphrase<input type=\"password\" name=\"passphrase\" autocomplete=\"new-password\" disabled>"));
    assert!(page.contains("<td colspan=\"6\"><div class=\"assets-empty-state\"><strong>No credentials stored yet.</strong><button"));
}

#[test]
fn read_only_credentials_page_hides_the_controls() {
    let t = en();
    let items = vec![credential("c1", "key", false, true, false)];
    let page = credentials(&t, &items, &[], "tok", Some("bad <x>"), false);
    assert!(!page.contains("edit-credential-c1"));
    assert!(!page.contains("/credentials/c1/delete"));
    assert!(!page.contains("class=\"ghost-button\" href=\"/import\""));
    assert!(!page.contains("id=\"open-add-credential\""));
    assert!(page.contains("<p class=\"error-message\" role=\"alert\">bad &lt;x&gt;</p>"));
    assert!(page.contains("<span class=\"tag\">private key</span>"));
    assert!(page.contains("<span class=\"status-pill neutral\">Unused</span>"));
}

#[test]
fn edit_credential_page_shows_which_secrets_are_stored() {
    let t = en();
    let c = credential("c7", "key+passphrase", false, true, true);
    let mut web = asset("a1", "web", &[]);
    web.credential_id = Some("c7".to_string());
    let page = edit_credential(&t, &c, &[web], "tok");
    assert!(page.contains("<form method=\"post\" action=\"/credentials/c7\">"));
    assert!(page.contains("<input name=\"name\" value=\"cred c7\" required autofocus>"));
    assert!(page.contains("<option value=\"key+passphrase\" selected>key+passphrase</option>"));
    assert!(page.contains("data-secret-for=\"password\" hidden>Replace password<input type=\"password\" name=\"password\" autocomplete=\"new-password\" disabled><span class=\"secret-state\" data-secret-state=\"password\">Not stored</span></label>"));
    assert!(page.contains("<span class=\"secret-state stored\" data-secret-state=\"private-key\">Encrypted value stored</span>"));
    assert!(page.contains("data-secret-for=\"key+passphrase\">Replace passphrase<input type=\"password\" name=\"passphrase\" autocomplete=\"new-password\"><span class=\"secret-state stored\""));
    assert!(page.contains("<p>1 assets: web</p>"));
    assert!(page.contains("Empty secret fields keep what is stored."));
}

fn dashboard(ssh_reachable: bool) -> DashboardData {
    let mut web = asset("a1", "web", &[]);
    web.credential_id = Some("c1".to_string());
    let db = asset("a2", "db", &[]);
    DashboardData {
        gateway: DashboardGateway {
            admin_bind: "127.0.0.1:8080".to_string(),
            ssh_bind: "0.0.0.0:2222".to_string(),
            version: "0.3.1".to_string(),
            started_at: "2024-05-01T00:00:00Z".to_string(),
            uptime_seconds: 93_784,
            admin_reachable: true,
            ssh_reachable,
            database_healthy: true,
        },
        assets: vec![web, db],
        credentials: vec![credential("c1", "password", true, false, false)],
        keys: vec![key("k1", "laptop", true, AssetAccessMode::Restricted)],
        known_hosts: vec![host("10.0.0.8", 22, None)],
        asset_health: vec![
            AssetHealth { asset_id: "a1".to_string(), status: "healthy".to_string(), checked_at: None, error: None },
            AssetHealth { asset_id: "a2".to_string(), status: "healthy".to_string(), checked_at: None, error: None },
        ],
        recent_sessions: vec![recorded("s1", "ok", "managed", true)],
        sessions_24h: 12,
        recent_admin_events: vec![event("failure")],
        source_errors: vec![],
    }
}

#[test]
fn overview_page_shows_figures_coverage_and_no_risks() {
    let t = en();
    let page = overview(&t, &dashboard(true));
    assert!(page.contains("<span class=\"status-chip good\"><span class=\"status-dot good\"></span>Operational</span>"));
    assert!(page.contains("<strong class=\"metric-value\">2</strong><span class=\"metric-note\">2 healthy · 0 failed · 0 unknown</span>"));
    assert!(page.contains("<strong class=\"metric-value\">12</strong>"));
    assert!(page.contains("<strong class=\"metric-value\">50%</strong><span class=\"metric-note\">1 / 2 SSH assets</span>"));
    assert!(page.contains("<b>SSH assets without a credential</b><a class=\"dashboard-panel-link\" href=\"/credentials\">1</a>"));
    assert!(page.contains("<span class=\"status-chip warn\">1</span>"));
    assert!(page.contains("<b>Uptime</b><span class=\"mono\">1d 2h</span>"));
    assert!(page.contains("<b>Version</b><span class=\"mono\">v0.3.1</span>"));
    assert!(page.contains("<span><span class=\"mono\">0.0.0.0:2222</span> · reachable</span>"));
    assert!(page.contains("<strong>100%</strong></div><div class=\"coverage-track\" aria-hidden=\"true\"><span style=\"width: 100%\"></span></div><small>1 / 1</small>"));
    assert!(page.contains("<b>laptop</b><small>- · 2024-05-01T10:00:00Z</small>"));
    assert!(page.contains("<small class=\"mono\">10.0.0.5:0</small>"));
    assert!(page.contains("<span class=\"status-pill danger\">failure</span>"));
}

#[test]
fn overview_page_needs_attention_when_a_probe_fails() {
    let t = en();
    let mut data = dashboard(false);
    data.source_errors = vec!["manifest <a>".to_string(), "env".to_string()];
    data.keys = vec![];
    data.recent_sessions = vec![];
    data.recent_admin_events = vec![];
    let page = overview(&t, &data);
    assert!(page.contains("<span class=\"status-chip warn\"><span class=\"status-dot warn\"></span>Needs attention</span>"));
    assert!(page.contains("<b>Configuration source unavailable</b><span>manifest &lt;a&gt;, env</span>"));
    assert!(page.contains("<b>No identity may sign in</b><a class=\"dashboard-panel-link\" href=\"/keys\">"));
    assert!(page.contains("<span class=\"status-dot danger\"></span><b>SSH</b><span><span class=\"mono\">0.0.0.0:2222</span> · unreachable</span>"));
    assert!(page.contains("<p class=\"fine-print\">No recent access.</p>"));
    assert!(page.contains("<p class=\"fine-print\">No recent changes.</p>"));
    assert!(!page.contains("No open risks"));
}

#[test]
fn import_page_reports_counts_and_each_error() {
    let t = en();
    let summary = ImportSummary { imported: 3, skipped: 1, overwritten: 2, errors: vec!["row 4: <bad>".to_string(), "row 9: x".to_string()] };
    let page = import_export(&t, "tok", Some(&summary));
    assert!(page.contains("<form method=\"post\" action=\"/import\" enctype=\"multipart/form-data\"><input type=\"hidden\" name=\"csrf_token\" value=\"tok\">"));
    assert!(page.contains("<p>Imported: 3</p><p>Skipped: 1</p><p>Overwritten: 2</p><p>Errors:</p><ul><li>row 4: &lt;bad&gt;</li><li>row 9: x</li></ul>"));
    let clean = ImportSummary { imported: 0, skipped: 0, overwritten: 0, errors: vec![] };
    let quiet = import_export(&t, "tok", Some(&clean));
    assert!(quiet.contains("<p>Overwritten: 0</p></div></section>"));
    let fresh = import_export(&t, "tok", None);
    assert!(!fresh.contains("Import result"));
    assert!(fresh.contains("<option value=\"overwrite\">Overwrite</option>"));
}

#[test]
fn edit_asset_page_fills_the_form_and_shows_the_tunnel_command() {
    let t = en();
    let mut desktop = asset("a5", "desk", &["prod", "eu"]);
    desktop.protocol = "tcp".to_string();
    desktop.preset = Some("rdp".to_string());
    desktop.port = 3389;
    desktop.credential_id = Some("c2".to_string());
    desktop.description = Some("<office>".to_string());
    let creds = vec![credential("c1", "password", true, false, false), credential("c2", "key", false, true, false)];
    let tags = vec!["prod".to_string(), "lab".to_string()];
    let page = edit_asset(&t, &desktop, &creds, "tok", &tags, 2222, "/assets?tag=prod");
    assert!(page.contains("<form method=\"post\" action=\"/assets/a5\"><input type=\"hidden\" name=\"csrf_token\" value=\"tok\"><input type=\"hidden\" name=\"return_to\" value=\"/assets?tag=prod\">"));
    assert!(page.contains("<input name=\"name\" value=\"desk\" required autofocus>"));
    assert!(page.contains("<option value=\"rdp\" selected>"));
    assert!(page.contains("<option value=\"ssh\">"));
    assert!(page.contains("<input name=\"port\" type=\"number\" value=\"3389\" required>"));
    assert!(page.contains("<p class=\"fine-print field-wide\" data-rdp-port-hint>"));
    assert!(page.contains("<input name=\"tags\" value=\"prod, eu\" placeholder=\"prod, web\" list=\"asset-tags-list\">"));
    assert!(page.contains("<option value=\"\">Proxy only</option><option value=\"c1\">cred c1 (deploy)</option><option value=\"c2\" selected>cred c2 (deploy)</option>"));
    assert!(page.contains("<textarea name=\"description\">&lt;office&gt;</textarea>"));
    assert!(page.contains("<datalist id=\"asset-tags-list\"><option value=\"prod\"></option><option value=\"lab\"></option></datalist>"));
    assert!(page.contains("<a class=\"ghost-button\" href=\"/assets?tag=prod\">Back to assets</a>"));
    assert!(page.contains("value=\"ssh -p 2222 -N -T -L 127.0.0.1:13389:desk.hop:3389 hop-host\""));
}

#[test]
fn edit_asset_page_for_ssh_has_no_tunnel_and_hides_the_rdp_hint() {
    let t = en();
    let server = asset("a1", "web", &[]);
    let page = edit_asset(&t, &server, &[], "tok", &[], 2222, "/assets");
    assert!(page.contains("<option value=\"ssh\" selected>"));
    assert!(page.contains("data-rdp-port-hint hidden>"));
    assert!(page.contains("<option value=\"\" selected>Proxy only</option></select>"));
    assert!(!page.contains("class=\"command-block"));
}

#[test]
fn asset_list_keeps_filters_and_offers_controls_to_managers() {
    let t = en();
    let mut web = asset("a1", "web", &["prod"]);
    web.credential_id = Some("c1".to_string());
    let mut rdp = asset("a2", "desk", &[]);
    rdp.protocol = "tcp".to_string();
    rdp.preset = Some("rdp".to_string());
    rdp.port = 3389;
    let tags = vec!["prod".to_string(), "lab".to_string()];
    let page = assets(&t, &[web, rdp], &[], "tok", Some("prod"), Some("  web  "), &tags, 2222, true);
    assert!(page.contains("<input type=\"hidden\" name=\"tag\" value=\"prod\">"));
    assert!(page.contains("name=\"q\" value=\"web\""));
    assert!(page.contains("<a class=\"ghost-button\" href=\"/assets\">Clear filters</a>"));
    assert!(page.contains("<a class=\"button\" href=\"/assets?tag=prod&amp;q=web\">prod</a>"));
    assert!(page.contains("<a class=\"ghost-button\" href=\"/assets?tag=lab&amp;q=web\">lab</a>"));
    assert!(page.contains("<a class=\"ghost-button\" href=\"/assets?q=web\">All</a>"));
    let encoded = url_query_value("/assets?tag=prod&q=web");
    assert!(page.contains(&format!("href=\"/assets/a1/edit?return_to={}\"", encoded)));
    assert!(page.contains("data-return-to=\"/assets?tag=prod&amp;q=web\""));
    assert!(page.contains("<td class=\"checkbox-cell\"><input type=\"checkbox\" name=\"asset_ids\" value=\"a1\" aria-label=\"Selected: web\"></td>"));
    assert!(page.contains("<code class=\"target-address\" tabindex=\"0\" title=\"10.0.0.8:22\">10.0.0.8:22</code>"));
    assert!(page.contains("<span class=\"status-pill\">c1</span>"));
    assert!(page.contains("<span class=\"status-pill neutral\">Untagged</span>"));
    assert!(page.contains("<span class=\"subtle mono\">ssh -p 2222 -N -T -L 127.0.0.1:13389:desk.hop:3389 hop-host</span>"));
    assert!(page.contains("formaction=\"/assets/a2/delete\""));
    assert!(page.contains("data-assets-bulk-controls hidden"));
    assert!(page.contains("<datalist id=\"asset-tags-list\"><option value=\"prod\"></option><option value=\"lab\"></option></datalist>"));
    assert!(page.contains("id=\"add-asset-dialog\""));
    assert!(page.contains("<form method=\"post\" action=\"/assets\" data-edit-asset-form>"));
}

#[test]
fn read_only_asset_list_hides_every_control() {
    let t = en();
    let page = assets(&t, &[asset("a1", "web", &[])], &[], "tok", None, Some("   "), &[], 2222, false);
    assert!(!page.contains("class=\"checkbox-cell"));
    assert!(!page.contains("edit-asset-a1"));
    assert!(!page.contains("formaction"));
    assert!(!page.contains("<div class=\"assets-bulk-bar\""));
    assert!(!page.contains("id=\"open-add-asset\""));
    assert!(!page.contains("class=\"ghost-button\" href=\"/import\""));
    assert!(!page.contains("Clear filters</a>"));
    assert!(page.contains("name=\"q\" value=\"\""));
    let empty = assets(&t, &[], &[], "tok", Some("prod"), None, &[], 2222, false);
    assert!(empty.contains("<td colspan=\"5\"><div class=\"assets-empty-state\"><strong>Filter</strong>"));
    let none = assets(&t, &[], &[], "tok", None, None, &[], 2222, true);
    assert!(none.contains("<td colspan=\"7\"><div class=\"assets-empty-state\"><strong>No assets yet.</strong><button"));
}
