use zocli::account_store::{validate_account, AccountStore};
use zocli::error::ZocliError;
use zocli::model::{
    datacenter_auth_url, default_version, validate_datacenter, AccountConfig, AccountsFile,
    NewAccountInput,
};

fn account(email: &str, default: bool) -> AccountConfig {
    AccountConfig::new(NewAccountInput {
        email: email.to_string(),
        default,
        datacenter: "eu".to_string(),
        account_id: "123".to_string(),
        org_id: None,
        client_id: "client".to_string(),
        client_secret: None,
    })
}

fn empty_store() -> AccountStore {
    AccountStore { file: AccountsFile { version: default_version(), accounts: Vec::new() } }
}

#[test]
fn first_account_becomes_current() {
    let mut store = empty_store();
    store.add_account("work".to_string(), account("w@x.com", false)).unwrap();
    assert_eq!(store.current_account_name().unwrap(), "work");
    assert!(store.get_account("work").unwrap().default);
    assert!(store.is_current_account("work"));
}

#[test]
fn adding_a_default_account_moves_the_default() {
    let mut store = empty_store();
    store.add_account("b".to_string(), account("b@x.com", false)).unwrap();
    store.add_account("a".to_string(), account("a@x.com", false)).unwrap();
    assert_eq!(store.current_account_name().unwrap(), "b");
    store.add_account("c".to_string(), account("c@x.com", true)).unwrap();
    assert_eq!(store.current_account_name().unwrap(), "c");
    assert!(!store.get_account("b").unwrap().default);
    let names: Vec<String> = store.summaries().into_iter().map(|(n, _)| n).collect();
    assert_eq!(names, vec!["a", "b", "c"]);
    assert!(store.is_well_formed());
}

#[test]
fn duplicate_names_are_rejected_and_leave_the_store_unchanged() {
    let mut store = empty_store();
    store.add_account("work".to_string(), account("w@x.com", false)).unwrap();
    let err = store.add_account("work".to_string(), account("other@x.com", true)).unwrap_err();
    assert!(matches!(err, ZocliError::AccountExists(ref n) if n == "work"));
    assert_eq!(store.get_account("work").unwrap().email, "w@x.com");
}

#[test]
fn set_current_switches_and_rejects_unknown_names() {
    let mut store = empty_store();
    store.add_account("a".to_string(), account("a@x.com", false)).unwrap();
    store.add_account("b".to_string(), account("b@x.com", false)).unwrap();
    store.set_current("b").unwrap();
    assert_eq!(store.current_account_name().unwrap(), "b");
    assert!(!store.get_account("a").unwrap().default);
    let err = store.set_current("zzz").unwrap_err();
    assert!(matches!(err, ZocliError::AccountNotFound(ref n) if n == "zzz"));
}

#[test]
fn resolved_account_name_prefers_the_request() {
    let mut store = empty_store();
    assert!(matches!(store.current_account_name().unwrap_err(), ZocliError::CurrentAccountMissing));
    store.add_account("a".to_string(), account("a@x.com", false)).unwrap();
    store.add_account("b".to_string(), account("b@x.com", false)).unwrap();
    assert_eq!(store.resolved_account_name(Some("b")).unwrap(), "b");
    assert!(store.resolved_account_name(Some("c")).is_err());
    assert_eq!(store.resolved_account_name(None).unwrap(), "a");
}

#[test]
fn setters_update_one_account() {
    let mut store = empty_store();
    store.add_account("a".to_string(), account("a@x.com", false)).unwrap();
    store.set_account_id("a", "999").unwrap();
    store.set_zuid("a", "777").unwrap();
    store.set_credential_ref("a", Some("env:TOKEN".to_string())).unwrap();
    let a = store.get_account("a").unwrap();
    assert_eq!(a.account_id, "999");
    assert_eq!(a.zuid.as_deref(), Some("777"));
    assert_eq!(a.credential_ref.as_deref(), Some("env:TOKEN"));
    assert!(store.set_zuid("missing", "1").is_err());
}

#[test]
fn validation_reports_every_problem() {
    let mut bad = account("nobody", false);
    bad.datacenter = "mars".to_string();
    bad.account_id = " ".to_string();
    bad.credential_ref = Some("file:x".to_string());
    let report = validate_account("  ", &bad);
    assert!(!report.valid);
    assert_eq!(
        report.errors,
        vec![
            "account name must not be empty".to_string(),
            "email must contain @".to_string(),
            "datacenter 'mars' is not valid; expected one of: com, eu, in, com.au, jp, zohocloud.ca, sa, uk".to_string(),
            "account_id must not be empty".to_string(),
            "credential_ref must use env:NAME or store:SERVICE".to_string(),
        ]
    );
    let ok = validate_account("work", &account("w@x.com", false));
    assert!(ok.valid);
    assert!(ok.errors.is_empty());
}

#[test]
fn model_urls_follow_the_datacenter() {
    let a = account("a@x.com", false);
    assert_eq!(a.auth_base_url(), "https://accounts.zoho.eu");
    assert_eq!(a.mail_api_url(), "https://mail.zoho.eu");
    assert_eq!(a.calendar_api_url(), "https://calendar.zoho.eu");
    assert_eq!(a.drive_api_url(), "https://www.zohoapis.eu/workdrive");
    assert_eq!(a.drive_upload_url(), "https://upload.zoho.eu/workdrive-api/v1/upload");
    assert_eq!(a.drive_download_url("f1"), "https://download.zoho.eu/v1/workdrive/download/f1");
    assert_eq!(a.credential_ref.as_deref(), Some("store:oauth"));
    assert!(a.zuid.is_none());
    assert_eq!(datacenter_auth_url("com.au"), "https://accounts.zoho.com.au");
    assert!(validate_datacenter("zohocloud.ca"));
    assert!(!validate_datacenter("COM"));
}
