use zocli::cli::{AuthServiceArg, GuideTopicArg, McpTransportArg, OutputFormat};
use zocli::commands::{
    all_guide_commands, all_guide_workflows, credential_state_label, derive_account_name_from_email,
    display_account_identity, guide_commands, guide_topic_name, guide_workflows,
    oauth_login_services, render_account_validation_table, render_key_value_table,
    render_mail_folders_table, render_mail_read_table, sanitize_table_cell,
};
use zocli::mail::{MailFolder, MailMessage};
use zocli::oauth::OauthService;
use zocli::output::effective_output_format;

#[test]
fn sanitize_table_cell_collapses_newlines_tabs_and_empty_values() {
    assert_eq!(sanitize_table_cell("one\ttwo\nthree"), "one two three");
    assert_eq!(sanitize_table_cell("   \r\n\t  "), "-");
}

#[test]
fn auto_format_uses_table_for_terminals_and_json_for_pipes() {
    assert_eq!(effective_output_format(OutputFormat::Auto, true), OutputFormat::Table);
    assert_eq!(effective_output_format(OutputFormat::Auto, false), OutputFormat::Json);
    assert_eq!(effective_output_format(OutputFormat::Json, true), OutputFormat::Json);
}

#[test]
fn account_names_are_derived_from_email() {
    assert_eq!(derive_account_name_from_email("John.Doe+News@x.com"), "john.doe-news");
    assert_eq!(derive_account_name_from_email("--!!--@x.com"), "account");
    assert_eq!(derive_account_name_from_email("a__b"), "a__b");
    assert_eq!(derive_account_name_from_email("x  y"), "x-y");
}

#[test]
fn labels_and_identities() {
    assert_eq!(credential_state_label("store_present"), "Connected");
    assert_eq!(credential_state_label("store_expired"), "Login required");
    assert_eq!(credential_state_label("weird"), "weird");
    assert_eq!(display_account_identity("  ", "fallback"), "fallback");
    assert_eq!(display_account_identity(" 12 ", "fallback"), "12");
    assert_eq!(McpTransportArg::Http.label(), "http");
    assert_eq!(guide_topic_name(GuideTopicArg::Calendar), "calendar");
}

#[test]
fn login_services_default_to_all() {
    assert_eq!(oauth_login_services(None).unwrap(), vec![OauthService::Mail, OauthService::Calendar, OauthService::Drive]);
    assert_eq!(oauth_login_services(Some(AuthServiceArg::Drive)).unwrap(), vec![OauthService::Drive]);
}

#[test]
fn guide_is_filtered_by_topic() {
    assert_eq!(all_guide_commands().len(), 23);
    assert_eq!(all_guide_workflows().len(), 11);
    let mail: Vec<&str> = guide_commands(GuideTopicArg::Mail).iter().map(|c| c.path).collect();
    assert_eq!(mail, vec!["mail folders", "mail list", "mail search", "mail read", "mail send", "mail reply", "mail forward"]);
    assert_eq!(guide_commands(GuideTopicArg::All).len(), 23);
    let drive: Vec<&str> = guide_workflows(GuideTopicArg::Drive).iter().map(|w| w.id).collect();
    assert_eq!(drive, vec!["drive_browse_flow", "drive_upload_flow", "drive_download_flow"]);
}

#[test]
fn tables_are_tab_separated() {
    assert_eq!(render_key_value_table(&[("a", "1".to_string()), ("b", "2".to_string())]), "a\t1\nb\t2");
    let folders = vec![MailFolder { folder_id: "1".into(), folder_name: "In\tbox".into(), message_count: 3, unread_count: 0 }];
    assert_eq!(
        render_mail_folders_table("work", &folders),
        "account\twork\ncount\t1\nFOLDER_ID\tNAME\tMESSAGES\tUNREAD\n1\tIn box\t3\t0"
    );
    assert_eq!(
        render_account_validation_table("w", &["bad".to_string()]),
        "account\tw\nvalid\tfalse\nerrors\n- bad"
    );
    assert_eq!(render_account_validation_table("w", &[]), "account\tw\nvalid\ttrue");
    let m = MailMessage {
        message_id: "m".into(),
        folder_id: "f".into(),
        sender: "s".into(),
        to_address: "t".into(),
        subject: "j".into(),
        received_time: "r".into(),
        content: "hello \n\n".into(),
    };
    assert!(render_mail_read_table("w", &m).ends_with("\ncontent\nhello"));
}

#[test]
fn guide_entries_carry_their_summaries_examples_and_steps() {
    let commands = all_guide_commands();
    assert_eq!(commands[0].summary, "Add a Zoho account and set it as current.");
    assert_eq!(commands[0].examples[1], "zocli add user@company.com --datacenter eu");
    let workflows = all_guide_workflows();
    assert_eq!(workflows[0].summary, "Full flow from account setup to reading a message by ID.");
    assert_eq!(workflows[0].steps.len(), 4);
    assert_eq!(workflows[0].steps[3], "zocli mail read <message-id> --folder-id <folder-id>");
}
