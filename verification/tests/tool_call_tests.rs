use zocli::error::ZocliError;
use zocli::json::{get, to_json_text, Json};
use zocli::tool_calls::{parse_tool_arguments, parse_tool_call, tool_response, ToolCall};

fn s(text: &str) -> Json {
    Json::Str(text.to_string())
}

fn obj(members: Vec<(&str, Json)>) -> Json {
    Json::Object(
        members
            .into_iter()
            .map(|(k, v)| (k.to_string(), v))
            .collect(),
    )
}

#[test]
fn mail_list_defaults_apply() {
    let args = obj(vec![("account", s("work"))]);
    match parse_tool_arguments("zocli.mail.list", Some(&args)).unwrap() {
        ToolCall::MailList { account, folder_id, unread_only, limit } => {
            assert_eq!(account, Some("work".to_string()));
            assert_eq!(folder_id, None);
            assert!(!unread_only);
            assert_eq!(limit, 20);
        }
        other => panic!("unexpected {other:?}"),
    }
    let args = obj(vec![
        ("unread_only", Json::Bool(true)),
        ("limit", Json::Number("5".to_string())),
    ]);
    match parse_tool_arguments("zocli.mail.list", Some(&args)).unwrap() {
        ToolCall::MailList { unread_only, limit, .. } => {
            assert!(unread_only);
            assert_eq!(limit, 5);
        }
        other => panic!("unexpected {other:?}"),
    }
}

#[test]
fn required_arguments_are_reported_in_order() {
    let args = obj(vec![("message_id", s("m1"))]);
    match parse_tool_arguments("zocli.mail.read", Some(&args)) {
        Err(ZocliError::Validation(m)) => assert_eq!(m, "`folder_id` is required"),
        other => panic!("unexpected {other:?}"),
    }
    match parse_tool_arguments("zocli.mail.search", None) {
        Err(ZocliError::Validation(m)) => assert_eq!(m, "`query` is required"),
        other => panic!("unexpected {other:?}"),
    }
}

#[test]
fn list_arguments_must_hold_strings() {
    let args = obj(vec![
        ("to", s("a@example.com")),
        ("subject", s("hi")),
        ("cc", Json::Array(vec![s("b@example.com"), Json::Number("3".to_string())])),
    ]);
    match parse_tool_arguments("zocli.mail.send", Some(&args)) {
        Err(ZocliError::Validation(m)) => assert_eq!(m, "`cc` must be an array of strings"),
        other => panic!("unexpected {other:?}"),
    }
    let args = obj(vec![
        ("to", s("a@example.com")),
        ("subject", s("hi")),
        ("cc", Json::Array(vec![s("b@example.com")])),
        ("html", s("<p>x</p>")),
    ]);
    match parse_tool_arguments("zocli.mail.send", Some(&args)).unwrap() {
        ToolCall::MailSend { from_address, to, cc, bcc, subject, text, html, attachments, .. } => {
            assert_eq!(from_address, "");
            assert_eq!(to, "a@example.com");
            assert_eq!(cc, vec!["b@example.com".to_string()]);
            assert!(bcc.is_empty());
            assert_eq!(subject, "hi");
            assert_eq!(text, None);
            assert_eq!(html, Some("<p>x</p>".to_string()));
            assert!(attachments.is_empty());
        }
        other => panic!("unexpected {other:?}"),
    }
}

#[test]
fn reply_content_prefers_text_over_html() {
    let args = obj(vec![
        ("folder_id", s("f")),
        ("message_id", s("m")),
        ("text", s("plain")),
        ("html", s("<b>rich</b>")),
    ]);
    match parse_tool_arguments("zocli.mail.reply", Some(&args)).unwrap() {
        ToolCall::MailReply { content, .. } => assert_eq!(content, Some("plain".to_string())),
        other => panic!("unexpected {other:?}"),
    }
}

#[test]
fn calendar_and_drive_defaults_apply() {
    match parse_tool_arguments("zocli.calendar.events", None).unwrap() {
        ToolCall::CalendarEvents { calendar, from, to, limit, .. } => {
            assert_eq!(calendar, "default");
            assert_eq!(from, None);
            assert_eq!(to, None);
            assert_eq!(limit, 20);
        }
        other => panic!("unexpected {other:?}"),
    }
    let args = obj(vec![("folder_id", s("root"))]);
    match parse_tool_arguments("zocli.drive.list", Some(&args)).unwrap() {
        ToolCall::DriveList { folder_id, limit, offset, .. } => {
            assert_eq!(folder_id, "root");
            assert_eq!(limit, 100);
            assert_eq!(offset, 0);
        }
        other => panic!("unexpected {other:?}"),
    }
}

#[test]
fn unknown_tools_and_missing_names_are_refused() {
    match parse_tool_arguments("zocli.nope", None) {
        Err(ZocliError::UnsupportedOperation(m)) => assert_eq!(m, "unsupported MCP tool: zocli.nope"),
        other => panic!("unexpected {other:?}"),
    }
    match parse_tool_call(None) {
        Err(ZocliError::Validation(m)) => assert_eq!(m, "tools/call requires `name`"),
        other => panic!("unexpected {other:?}"),
    }
    let params = obj(vec![
        ("name", s("zocli.auth.status")),
        ("arguments", obj(vec![("account", s("personal"))])),
    ]);
    match parse_tool_call(Some(&params)).unwrap() {
        (name, ToolCall::AuthStatus { account }) => {
            assert_eq!(name, "zocli.auth.status");
            assert_eq!(account, Some("personal".to_string()));
        }
        other => panic!("unexpected {other:?}"),
    }
}

#[test]
fn tool_response_stamps_schema_version() {
    let result = obj(vec![("accounts", Json::Array(Vec::new()))]);
    let response = tool_response("zocli.account.list", result, false).unwrap();
    let structured = get(&response, "structuredContent").expect("structured");
    assert_eq!(
        to_json_text(structured),
        "{\"accounts\":[],\"schemaVersion\":\"1.0\"}"
    );
    let content = get(&response, "content").expect("content");
    match content {
        Json::Array(items) => {
            assert_eq!(items.len(), 1);
            let text = get(&items[0], "text").expect("text");
            match text {
                Json::Str(t) => assert!(t.contains("\"schemaVersion\": \"1.0\"")),
                other => panic!("unexpected {other:?}"),
            }
        }
        other => panic!("unexpected {other:?}"),
    }
    assert!(get(&response, "_meta").is_none());
    let with_ui = tool_response("zocli.mail.list", obj(vec![]), true).unwrap();
    assert!(get(&with_ui, "_meta").is_some());
    let replaced = tool_response(
        "zocli.account.list",
        obj(vec![("schemaVersion", s("2.0"))]),
        false,
    )
    .unwrap();
    assert_eq!(
        to_json_text(get(&replaced, "structuredContent").unwrap()),
        "{\"schemaVersion\":\"1.0\"}"
    );
}
