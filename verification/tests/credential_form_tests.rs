use hop_server::credential_form::{
    settle_credential_form, submitted_secret_value, CredentialFormRefusal, SealedSecrets,
};
use hop_server::model::AuthType;

fn sealed(password: Option<&str>, private_key: Option<&str>, passphrase: Option<&str>) -> SealedSecrets {
    SealedSecrets {
        password: password.map(str::to_string),
        private_key: private_key.map(str::to_string),
        passphrase: passphrase.map(str::to_string),
    }
}

#[test]
fn blank_secret_fields_submit_nothing() {
    assert_eq!(submitted_secret_value(Some("  hunter2 \n".to_string())).as_deref(), Some("hunter2"));
    assert_eq!(submitted_secret_value(Some(" \t ".to_string())), None);
    assert_eq!(submitted_secret_value(None), None);
}

#[test]
fn creating_requires_the_secrets_of_the_auth_type() {
    let settled = settle_credential_form("password", sealed(Some("enc-pw"), None, None), None).unwrap();
    assert_eq!(settled.auth_type, AuthType::Password);
    assert_eq!(settled.secrets.password.as_deref(), Some("enc-pw"));
    let refused = settle_credential_form("key", sealed(Some("enc-pw"), None, None), None);
    assert!(matches!(refused, Err(CredentialFormRefusal::InvalidSecretMaterial)));
    let refused = settle_credential_form("key+passphrase", sealed(None, Some("enc-key"), None), None);
    assert!(matches!(refused, Err(CredentialFormRefusal::InvalidSecretMaterial)));
}

#[test]
fn updating_keeps_stored_secrets_for_blank_fields() {
    let stored = sealed(Some("old-pw"), Some("old-key"), None);
    let settled = settle_credential_form("key", sealed(None, None, Some("new-pass")), Some(stored)).unwrap();
    assert_eq!(settled.auth_type, AuthType::Key);
    assert_eq!(settled.secrets.password.as_deref(), Some("old-pw"));
    assert_eq!(settled.secrets.private_key.as_deref(), Some("old-key"));
    assert_eq!(settled.secrets.passphrase.as_deref(), Some("new-pass"));
    let replaced = settle_credential_form("password", sealed(Some("new-pw"), None, None), Some(sealed(Some("old-pw"), None, None))).unwrap();
    assert_eq!(replaced.secrets.password.as_deref(), Some("new-pw"));
}

#[test]
fn unknown_auth_type_is_refused_first() {
    let refused = settle_credential_form("token", sealed(None, None, None), None);
    assert!(matches!(refused, Err(CredentialFormRefusal::InvalidAuthType)));
    assert_eq!(CredentialFormRefusal::InvalidAuthType.audit_reason(), "invalid_auth_type");
    assert_eq!(CredentialFormRefusal::InvalidSecretMaterial.audit_reason(), "invalid_secret_material");
}
