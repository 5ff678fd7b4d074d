use zocli::runtime_context::{login_client_id, refresh_client_id};
use zocli::credential_store::{
    configured_secret_backend, supported_keyring_backend, CredentialStore, CredentialsFile,
    SecretBackendKind, StoredAppPasswordCredential, StoredCredential, StoredOauthCredential,
};
use zocli::error::ZocliError;

fn oauth(token: &str) -> StoredOauthCredential {
    StoredOauthCredential {
        kind: "oauth_pkce".to_string(),
        access_token: token.to_string(),
        refresh_token: None,
        token_type: "Bearer".to_string(),
        expires_at_epoch_secs: 10,
        scope: vec!["ZohoMail.messages.ALL".to_string()],
        client_id: "c".to_string(),
        api_domain: None,
    }
}

#[test]
fn stored_credentials_are_read_back() {
    let mut store = CredentialStore::load(SecretBackendKind::File, CredentialsFile::default());
    store.set_oauth("work".to_string(), "mail".to_string(), oauth("t1"));
    let got = store.get_oauth("work", "mail", None).unwrap();
    assert_eq!(got.access_token, "t1");
    assert!(store.get_app_password("work", "mail", None).is_none());
    store.set_app_password(
        "work".to_string(),
        "drive".to_string(),
        StoredAppPasswordCredential { kind: "app_password".into(), secret: "s".into() },
    );
    assert_eq!(store.get_app_password("work", "drive", None).unwrap().secret, "s");
    assert!(store.get_oauth("home", "mail", None).is_none());
}

#[test]
fn removal_hides_credentials_and_reports_whether_one_existed() {
    let mut store = CredentialStore::load(SecretBackendKind::Keyring, CredentialsFile::default());
    store.set_oauth("work".to_string(), "mail".to_string(), oauth("t1"));
    assert!(store.remove_service("work", "mail", None));
    assert!(store.get_service("work", "mail", Some(StoredCredential::Oauth(oauth("kr")))).is_none());
    assert_eq!(store.removed_services().len(), 1);
    assert!(!store.remove_service("work", "calendar", None));
    store.set_oauth("work".to_string(), "mail".to_string(), oauth("t2"));
    assert_eq!(store.get_oauth("work", "mail", None).unwrap().access_token, "t2");
    assert_eq!(store.removed_services().len(), 0);
}

#[test]
fn keyring_backend_falls_back_to_the_keyring() {
    let store = CredentialStore::load(SecretBackendKind::Keyring, CredentialsFile::default());
    let from_keyring = store.get_oauth("work", "mail", Some(StoredCredential::Oauth(oauth("kr"))));
    assert_eq!(from_keyring.unwrap().access_token, "kr");
    let file_store = CredentialStore::load(SecretBackendKind::File, CredentialsFile::default());
    assert!(file_store.get_oauth("work", "mail", Some(StoredCredential::Oauth(oauth("kr")))).is_none());
}

#[test]
fn keyring_save_clears_memory() {
    let mut store = CredentialStore::load(SecretBackendKind::Keyring, CredentialsFile::default());
    store.set_oauth("work".to_string(), "mail".to_string(), oauth("t1"));
    store.finish_keyring_save();
    assert!(store.file.accounts.is_empty());
    assert_eq!(store.backend(), SecretBackendKind::Keyring);
}

#[test]
fn secret_backend_setting_is_parsed() {
    assert_eq!(configured_secret_backend(Some(" FILE "), true).unwrap(), SecretBackendKind::File);
    assert_eq!(configured_secret_backend(Some("keyring"), true).unwrap(), SecretBackendKind::Keyring);
    assert_eq!(configured_secret_backend(Some(""), true).unwrap(), SecretBackendKind::Keyring);
    assert_eq!(configured_secret_backend(None, true).unwrap(), SecretBackendKind::Keyring);
    match configured_secret_backend(Some("Vault"), true).unwrap_err() {
        ZocliError::Config(m) => assert_eq!(m, "unsupported secret backend `vault`; expected `keyring` or `file`"),
        other => panic!("unexpected {:?}", other),
    }
    assert!(matches!(supported_keyring_backend(false).unwrap_err(), ZocliError::UnsupportedOperation(_)));
}

#[test]
fn removal_drops_an_account_left_without_services() {
    let mut store = CredentialStore::load(SecretBackendKind::File, CredentialsFile::default());
    store.set_oauth("work".to_string(), "mail".to_string(), oauth("t1"));
    store.set_oauth("work".to_string(), "drive".to_string(), oauth("t2"));
    assert!(store.remove_service("work", "mail", None));
    assert_eq!(store.file.accounts.len(), 1);
    assert_eq!(store.file.accounts[0].1.services.len(), 1);
    assert_eq!(store.file.accounts[0].1.services[0].0, "drive");
    assert!(store.remove_service("work", "drive", None));
    assert!(store.file.accounts.is_empty());
    assert!(store.removed_services().is_empty());
}

#[test]
fn keyring_removal_records_exactly_the_pair() {
    let mut store = CredentialStore::load(SecretBackendKind::Keyring, CredentialsFile::default());
    assert!(store.remove_service("work", "oauth", Some(StoredCredential::Oauth(oauth("kr")))));
    assert_eq!(store.removed_services(), &vec![("work".to_string(), "oauth".to_string())]);
    assert!(!store.remove_service("work", "oauth", Some(StoredCredential::Oauth(oauth("kr")))));
    assert_eq!(store.removed_services().len(), 1);
}

#[test]
fn token_refresh_and_login_need_a_client_id() {
    let with = zocli::model::AccountConfig::new(zocli::model::NewAccountInput {
        email: "a@b.c".to_string(),
        default: true,
        datacenter: "com".to_string(),
        account_id: "1".to_string(),
        org_id: None,
        client_id: "cid".to_string(),
        client_secret: None,
    });
    assert_eq!(refresh_client_id("work", &with).unwrap(), "cid");
    assert_eq!(login_client_id(&with).unwrap(), "cid");
    let mut without = with.duplicate();
    without.client_id = String::new();
    assert!(matches!(refresh_client_id("work", &without), Err(ZocliError::Config(ref m))
        if m == "no OAuth client is configured for account work; configure the shared/default zocli OAuth app or re-run `zocli add --client-id ...`"));
    assert!(matches!(login_client_id(&without), Err(ZocliError::Config(ref m))
        if m.starts_with("no OAuth client is configured for this account.")));
}
