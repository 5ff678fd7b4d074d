use zocli::mail::{send_from_address, tool_mail_content};
use zocli::error::ZocliError;
use zocli::mail::{
    auth_header, bool_from_zoho_text, check_zoho_error, checked_response_text,
    discover_mail_account, forward_mail_message, message_list_query, mime_from_filename,
    search_query, zoho_list, zoho_required, MailForwardRequest, MailMessage, UploadedAttachment,
    ZohoStatus,
};

#[test]
fn check_zoho_error_passes_on_success_code() {
    let status = Some(ZohoStatus { code: 200, description: "OK".to_string() });
    assert!(check_zoho_error(&status, "test").is_ok());
}

#[test]
fn check_zoho_error_fails_on_error_code() {
    let status = Some(ZohoStatus { code: 400, description: "Bad request".to_string() });
    let result = check_zoho_error(&status, "test");
    assert!(result.is_err());
    assert!(result.unwrap_err().message().contains("Bad request"));
}

#[test]
fn check_zoho_error_passes_on_none() {
    assert!(check_zoho_error(&None, "test").is_ok());
}

#[test]
fn check_zoho_error_message_shows_negative_codes() {
    let status = Some(ZohoStatus { code: -5, description: "odd".to_string() });
    match check_zoho_error(&status, "ctx").unwrap_err() {
        ZocliError::Api(m) => assert_eq!(m, "ctx: Zoho error -5: odd"),
        other => panic!("unexpected {:?}", other),
    }
    let zero = Some(ZohoStatus { code: 0, description: String::new() });
    assert!(check_zoho_error(&zero, "ctx").is_ok());
}

#[test]
fn search_rejects_empty_query() {
    let result = search_query("", 10);
    assert!(result.is_err());
    assert!(result.unwrap_err().message().contains("must not be empty"));
    let q = search_query("invoice", 10).unwrap();
    assert_eq!(q[0], ("searchKey", "invoice".to_string()));
    assert_eq!(q[1], ("limit", "10".to_string()));
    assert_eq!(q[2], ("start", "0".to_string()));
}

#[test]
fn message_list_query_adds_folder_and_unread_filter() {
    let q = message_list_query(Some("f1"), true, 20);
    assert_eq!(
        q,
        vec![
            ("limit", "20".to_string()),
            ("start", "0".to_string()),
            ("folderId", "f1".to_string()),
            ("status", "unread".to_string()),
        ]
    );
    assert_eq!(message_list_query(None, false, 5).len(), 2);
}

#[test]
fn zoho_bool_text_values() {
    assert!(!bool_from_zoho_text("0"));
    assert!(!bool_from_zoho_text(""));
    assert!(!bool_from_zoho_text("false"));
    assert!(bool_from_zoho_text("1"));
    assert!(bool_from_zoho_text("true"));
}

#[test]
fn mime_types_follow_the_extension() {
    assert_eq!(mime_from_filename("report.PDF"), "application/pdf");
    assert_eq!(mime_from_filename("photo.jpeg"), "image/jpeg");
    assert_eq!(mime_from_filename("archive.tar.gz"), "application/gzip");
    assert_eq!(mime_from_filename("noext"), "application/octet-stream");
    assert_eq!(mime_from_filename("page.HTM"), "text/html");
}

#[test]
fn auth_header_carries_the_token() {
    assert_eq!(auth_header("abc"), "Zoho-oauthtoken abc");
}

#[test]
fn responses_without_data_are_errors() {
    let none: Option<Vec<u8>> = None;
    assert_eq!(zoho_list(&None, none, "ctx").unwrap(), Vec::<u8>::new());
    match zoho_required::<u8>(&None, None, "read_mail_message").unwrap_err() {
        ZocliError::Api(m) => assert_eq!(m, "read_mail_message: response contained no data"),
        other => panic!("unexpected {:?}", other),
    }
    assert_eq!(zoho_required(&None, Some(3u8), "ctx").unwrap(), 3);
    match checked_response_text(false, "404 Not Found", "nope".to_string(), "ctx").unwrap_err() {
        ZocliError::Api(m) => assert_eq!(m, "ctx: HTTP 404 Not Found \u{2014} nope"),
        other => panic!("unexpected {:?}", other),
    }
}

#[test]
fn discovery_takes_the_first_account() {
    let found = discover_mail_account(vec![("111".into(), Some(42)), ("222".into(), None)]).unwrap();
    assert_eq!(found.account_id, "111");
    assert_eq!(found.zuid.as_deref(), Some("42"));
    assert!(discover_mail_account(vec![]).is_err());
}

#[test]
fn forward_builds_quoted_html_and_subject() {
    let original = MailMessage {
        message_id: "m1".into(),
        folder_id: "f1".into(),
        sender: "a@x.com".into(),
        to_address: "b@x.com".into(),
        subject: "Hello".into(),
        received_time: "123".into(),
        content: "<p>body</p>".into(),
    };
    let req = MailForwardRequest {
        message_id: "m1".into(),
        folder_id: "f1".into(),
        from_address: "me@x.com".into(),
        to_address: "c@x.com".into(),
        content: "FYI".into(),
        cc_address: String::new(),
        bcc_address: String::new(),
    };
    let att = UploadedAttachment {
        store_name: "s".into(),
        attachment_path: "p".into(),
        attachment_name: "n".into(),
    };
    let send = forward_mail_message(req, &original, vec![att]);
    assert_eq!(send.subject, "Fwd: Hello");
    assert_eq!(send.mail_format, "html");
    assert_eq!(send.attachments.len(), 1);
    assert_eq!(
        send.content,
        "<p>FYI</p><br/><p>---------- Forwarded message ----------</p><p><b>From:</b> a@x.com</p><p><b>Date:</b> 123</p><p><b>Subject:</b> Hello</p><p><b>To:</b> b@x.com</p><br/><p>body</p>"
    );
    let again = MailMessage { subject: "FWD: Hello".into(), ..original };
    let req2 = MailForwardRequest {
        message_id: "m1".into(),
        folder_id: "f1".into(),
        from_address: "me@x.com".into(),
        to_address: "c@x.com".into(),
        content: String::new(),
        cc_address: String::new(),
        bcc_address: String::new(),
    };
    let send2 = forward_mail_message(req2, &again, vec![]);
    assert_eq!(send2.subject, "FWD: Hello");
    assert!(send2.content.starts_with("<p>---------- Forwarded message"));
}

#[test]
fn send_tool_defaults_the_sender_and_picks_the_format() {
    assert_eq!(send_from_address(String::new(), "me@x.com"), "me@x.com");
    assert_eq!(send_from_address("other@x.com".to_string(), "me@x.com"), "other@x.com");
    assert_eq!(tool_mail_content(Some("<b>hi</b>".to_string()), Some("hi".to_string())), ("<b>hi</b>".to_string(), "html"));
    assert_eq!(tool_mail_content(None, Some("a < b".to_string())), ("a < b".to_string(), "plaintext"));
    assert_eq!(tool_mail_content(None, None), (String::new(), "plaintext"));
}
