use zocli::cli::AuthServiceArg;
use zocli::commands::{
    discovery_updates, drive_user_id, logout_service_name, logout_services, mail_content,
    ok_payload, render_account_list_table, render_auth_status_table, render_logout_table,
};
use zocli::error::ZocliError;
use zocli::json::{to_json_text, Json};
use zocli::paths::{accounts_path, config_dir, credentials_path};
use zocli::runtime_context::auth_guidance;

#[test]
fn ok_payload_marks_the_operation() {
    let payload = Json::Object(vec![
        ("account".to_string(), Json::Str("work".to_string())),
        ("ok".to_string(), Json::Bool(false)),
    ]);
    let out = ok_payload(payload, "account.use").unwrap();
    assert_eq!(
        to_json_text(&out),
        "{\"account\":\"work\",\"ok\":true,\"operation\":\"account.use\"}"
    );
    match ok_payload(Json::Array(Vec::new()), "x") {
        Err(ZocliError::Serialization(m)) => assert_eq!(m, "expected object payload"),
        other => panic!("unexpected {other:?}"),
    }
}

#[test]
fn mail_content_prefers_html_and_detects_markup() {
    assert_eq!(
        mail_content(Some("<p>hi</p>".to_string()), Some("hi".to_string())),
        ("<p>hi</p>".to_string(), "html")
    );
    assert_eq!(
        mail_content(None, Some("plain words".to_string())),
        ("plain words".to_string(), "plaintext")
    );
    assert_eq!(mail_content(None, None), (String::new(), "plaintext"));
}

#[test]
fn account_list_table_lists_each_account() {
    assert_eq!(render_account_list_table(&Vec::new()), "No accounts configured");
    let rows = vec![
        ("personal".to_string(), "me@example.com".to_string(), "eu".to_string(), true),
        ("work".to_string(), "me@corp.example".to_string(), "com".to_string(), false),
    ];
    assert_eq!(
        render_account_list_table(&rows),
        "NAME\tEMAIL\tDATACENTER\tCURRENT\npersonal\tme@example.com\teu\ttrue\nwork\tme@corp.example\tcom\tfalse"
    );
}

#[test]
fn auth_status_table_has_five_lines() {
    assert_eq!(
        render_auth_status_table("work", "me@corp.example", "com", "Connected", "token valid"),
        "ACCOUNT\twork\nEMAIL\tme@corp.example\nDATACENTER\tcom\nSTATUS\tDETAIL\nConnected\ttoken valid"
    );
}

#[test]
fn logout_covers_all_services_by_default() {
    assert_eq!(
        logout_services(None),
        vec![AuthServiceArg::Mail, AuthServiceArg::Calendar, AuthServiceArg::Drive]
    );
    assert_eq!(logout_services(Some(AuthServiceArg::Drive)), vec![AuthServiceArg::Drive]);
    assert_eq!(logout_service_name(Some(AuthServiceArg::Calendar)).unwrap(), "calendar");
    assert!(matches!(logout_service_name(None), Err(ZocliError::Validation(_))));
    assert_eq!(render_logout_table(&Vec::new()), "No services logged out");
    assert_eq!(
        render_logout_table(&vec![("mail".to_string(), true), ("drive".to_string(), false)]),
        "SERVICE\tREMOVED\nmail\ttrue\ndrive\tfalse"
    );
}

#[test]
fn discovery_fills_missing_account_ids_only() {
    assert_eq!(
        discovery_updates("0", "123".to_string(), Some("z9".to_string())),
        (Some("123".to_string()), Some("z9".to_string()))
    );
    assert_eq!(discovery_updates("", "123".to_string(), None), (Some("123".to_string()), None));
    assert_eq!(discovery_updates("555", "123".to_string(), None), (None, None));
    assert_eq!(drive_user_id(&Some("z9".to_string()), "555"), "z9");
    assert_eq!(drive_user_id(&None, "555"), "555");
}

#[test]
fn configuration_paths() {
    assert_eq!(config_dir(Some("/tmp/cfg".to_string()), Some("/home/me/.config")).unwrap(), "/tmp/cfg");
    assert_eq!(config_dir(None, Some("/home/me/.config")).unwrap(), "/home/me/.config/zocli");
    assert!(matches!(config_dir(None, None), Err(ZocliError::Config(_))));
    assert_eq!(accounts_path("/home/me/.config/zocli"), "/home/me/.config/zocli/accounts.toml");
    assert_eq!(credentials_path("/cfg/"), "/cfg/credentials.toml");
}

#[test]
fn auth_guidance_names_the_next_step() {
    assert_eq!(
        auth_guidance("store_missing", "work"),
        "Account is configured but not logged in. Run `zocli login` to authenticate with Zoho."
    );
    assert_eq!(
        auth_guidance("something_else", "work"),
        "Unknown auth state. Run `zocli auth status` for details."
    );
}
