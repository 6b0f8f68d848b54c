use hop_server::admin_auth::{
    clear_cookie, cookie_token, profile_has_capability, session_cookie, AdminCapability, AdminSessions,
    ADMIN_PROFILE_OPERATOR, ADMIN_PROFILE_OWNER, ADMIN_PROFILE_VIEWER,
};
use hop_server::admin_password::{
    change_admin_user_password, generate_password, hash_password, verify_admin_user_password, verify_password,
    AdminPasswordChangeError, PasswordError, LOCAL_ADMIN_ID,
};

#[test]
fn sessions_expire_after_ttl() {
    let mut sessions = AdminSessions::with_ttl(5);
    let token = sessions.create("local-admin", "Local admin", ADMIN_PROFILE_OWNER, false, 1_000);

    assert!(sessions.authenticate(&token, 1_003).is_some());
    assert!(sessions.authenticate(&token, 1_003 + 15).is_none());
}

#[test]
fn csrf_token_must_match_authenticated_session() {
    let mut sessions = AdminSessions::new();
    let token = sessions.create("local-admin", "Local admin", ADMIN_PROFILE_OWNER, false, 0);
    let session = sessions.authenticate(&token, 1).unwrap();

    assert_eq!(session.admin_id, "local-admin");
    assert_eq!(session.admin_label, "Local admin");
    assert_eq!(session.access_profile, ADMIN_PROFILE_OWNER);
    assert!(!session.must_change_password);
    assert!(sessions.validate_csrf(&token, &session.csrf_token, 2));
    assert!(!sessions.validate_csrf(&token, "wrong", 3));
}

#[test]
fn disabling_an_admin_revokes_only_their_sessions() {
    let mut sessions = AdminSessions::new();
    let alice = sessions.create("alice", "Alice", ADMIN_PROFILE_OPERATOR, true, 0);
    let bob = sessions.create("bob", "Bob", ADMIN_PROFILE_VIEWER, false, 0);

    sessions.remove_admin("alice");

    assert!(sessions.authenticate(&alice, 1).is_none());
    assert!(sessions.authenticate(&bob, 1).is_some());
}

#[test]
fn fixed_profiles_map_to_capabilities_without_custom_policy() {
    assert!(profile_has_capability(ADMIN_PROFILE_OWNER, AdminCapability::AdminsManage));
    assert!(profile_has_capability(ADMIN_PROFILE_OPERATOR, AdminCapability::CredentialsManage));
    assert!(!profile_has_capability(ADMIN_PROFILE_OPERATOR, AdminCapability::AdminsManage));
    assert!(profile_has_capability(ADMIN_PROFILE_VIEWER, AdminCapability::SessionsRead));
    assert!(!profile_has_capability(ADMIN_PROFILE_VIEWER, AdminCapability::AssetsManage));
}

#[test]
fn session_cookie_secure_flag_is_configurable() {
    assert!(!session_cookie("token", false).contains("Secure"));
    assert!(session_cookie("token", true).contains("Secure"));
    assert!(clear_cookie(true).contains("Secure"));
}

#[test]
fn session_cookie_round_trips_through_the_cookie_header() {
    let header = session_cookie("abc123", false);
    let pair = header.split(';').next().unwrap().to_string();
    assert_eq!(cookie_token(Some(&format!("theme=dark; {pair}"))), Some("abc123".to_string()));
    assert_eq!(cookie_token(Some("theme=dark")), None);
    assert_eq!(cookie_token(None), None);
}

#[test]
fn removed_session_token_is_refused() {
    let mut sessions = AdminSessions::new();
    let token = sessions.create("local-admin", "Local admin", ADMIN_PROFILE_OWNER, false, 0);
    sessions.remove(&token);
    assert!(sessions.authenticate(&token, 1).is_none());
}

#[test]
fn use_of_a_session_extends_its_lifetime() {
    let mut sessions = AdminSessions::with_ttl(10);
    let token = sessions.create("local-admin", "Local admin", ADMIN_PROFILE_OWNER, false, 0);
    assert!(sessions.authenticate(&token, 8).is_some());
    assert!(sessions.authenticate(&token, 16).is_some());
    assert!(sessions.authenticate(&token, 30).is_none());
}

#[test]
fn password_hash_verifies_and_rejects_wrong_password() {
    let hash = hash_password("correct horse").unwrap();
    assert!(verify_password(&hash, "correct horse").unwrap());
    assert!(!verify_password(&hash, "wrong horse").unwrap());
    assert!(!hash.contains("correct horse"));
}

#[test]
fn malformed_password_hash_is_an_error() {
    let err = verify_password("not a phc string", "x").unwrap_err();
    assert!(matches!(err, PasswordError::MalformedHash(_)));
    assert!(err.message().starts_with("parse admin password hash: "));
}

#[test]
fn change_admin_password_requires_current_password_and_confirmation() {
    let old_hash = hash_password("old-pass").unwrap();
    let own = Some(old_hash.as_str());

    assert_eq!(
        change_admin_user_password(LOCAL_ADMIN_ID, "wrong-pass", "new-password-2026", "new-password-2026", own, None)
            .unwrap(),
        Err(AdminPasswordChangeError::CurrentPasswordInvalid)
    );
    assert_eq!(
        change_admin_user_password(LOCAL_ADMIN_ID, "old-pass", "new-password", "different", own, None).unwrap(),
        Err(AdminPasswordChangeError::ConfirmationMismatch)
    );
    assert_eq!(
        change_admin_user_password(LOCAL_ADMIN_ID, "old-pass", "", "", own, None).unwrap(),
        Err(AdminPasswordChangeError::NewPasswordEmpty)
    );
    assert_eq!(
        change_admin_user_password(LOCAL_ADMIN_ID, "old-pass", "short", "short", own, None).unwrap(),
        Err(AdminPasswordChangeError::NewPasswordTooShort)
    );
    let update = change_admin_user_password(
        LOCAL_ADMIN_ID,
        "old-pass",
        "new-password-2026",
        "new-password-2026",
        own,
        None,
    )
    .unwrap()
    .unwrap();
    assert!(update.update_legacy_setting);
    assert!(!verify_password(&update.hash, "old-pass").unwrap());
    assert!(verify_password(&update.hash, "new-password-2026").unwrap());
}

#[test]
fn each_admin_has_an_independent_password_and_first_change_clears_temporary_state() {
    let local = hash_password("local-password-2026").unwrap();
    let teammate = hash_password("temporary-password-2026").unwrap();

    assert!(verify_admin_user_password(LOCAL_ADMIN_ID, "local-password-2026", Some(&local), None).unwrap());
    assert!(!verify_admin_user_password("ops-1", "local-password-2026", Some(&teammate), None).unwrap());
    assert!(verify_admin_user_password("ops-1", "temporary-password-2026", Some(&teammate), None).unwrap());

    let update = change_admin_user_password(
        "ops-1",
        "temporary-password-2026",
        "operations-password-2026",
        "operations-password-2026",
        Some(&teammate),
        None,
    )
    .unwrap()
    .unwrap();
    assert!(!update.update_legacy_setting);
    assert!(verify_admin_user_password("ops-1", "operations-password-2026", Some(&update.hash), None).unwrap());
}

#[test]
fn built_in_admin_falls_back_to_the_kept_single_admin_hash() {
    let legacy = hash_password("legacy-password").unwrap();
    assert!(verify_admin_user_password(LOCAL_ADMIN_ID, "legacy-password", None, Some(&legacy)).unwrap());
    assert!(!verify_admin_user_password("other", "legacy-password", None, Some(&legacy)).unwrap());
}

#[test]
fn generated_passwords_are_long_and_alphanumeric() {
    let a = generate_password();
    assert_eq!(a.chars().count(), 24);
    assert!(a.chars().all(|c| c.is_ascii_alphanumeric()));
}
