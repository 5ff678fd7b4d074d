use zocli::framing::{parse_usize, stdio_line, StdioLine};
use zocli::session::{begin_http_roots_request, begin_roots_request, http_roots_accepts, roots_answer, roots_tool_response, roots_wait_event, HttpRootsStart, RootsStart, RootsWaitEvent};
use zocli::error::{error_code, ZocliError};
use zocli::json::{as_str, get, to_json_text, Json};
use zocli::session::{
    client_supports_roots, client_supports_roots_list_changed, client_supports_ui,
    handle_notification, is_client_response_message, jsonrpc_response, message_method,
    normalize_messages, parse_roots_list_response, record_subscription, route_request,
    validate_root, RequestAction, SessionState,
};
use zocli::tools::{
    message_requires_http_auth, needs_http_auth, tool_definitions, tool_requires_http_auth,
    tool_scope, tool_surface, tool_visibility,
};

fn s(text: &str) -> Json {
    Json::Str(text.to_string())
}

fn obj(members: Vec<(&str, Json)>) -> Json {
    Json::Object(
        members
            .into_iter()
            .map(|(k, v)| (k.to_string(), v))
            .collect(),
    )
}

fn reply(action: Result<RequestAction, ZocliError>) -> Json {
    match action.expect("action") {
        RequestAction::Reply(j) => j,
        other => panic!("expected a reply, got {other:?}"),
    }
}

fn ui_params() -> Json {
    obj(vec![(
        "capabilities",
        obj(vec![
            (
                "extensions",
                obj(vec![(
                    "io.modelcontextprotocol/ui",
                    obj(vec![(
                        "mimeTypes",
                        Json::Array(vec![s("text/html;profile=mcp-app")]),
                    )]),
                )]),
            ),
            ("roots", obj(vec![("listChanged", Json::Bool(true))])),
        ]),
    )])
}

#[test]
fn requests_before_initialize_are_refused() {
    let mut session = SessionState::stdio();
    match route_request("tools/list", None, &mut session, "0.2.1") {
        Err(ZocliError::Validation(m)) => {
            assert_eq!(m, "MCP session is not initialized; call `initialize` first")
        }
        other => panic!("unexpected {other:?}"),
    }
    let pong = reply(route_request("ping", None, &mut session, "0.2.1"));
    assert_eq!(to_json_text(&pong), "{}");
}

#[test]
fn initialize_records_client_capabilities() {
    let mut session = SessionState::http();
    let params = ui_params();
    let result = reply(route_request("initialize", Some(&params), &mut session, "0.2.1"));
    assert!(session.initialized);
    assert!(session.ui_enabled);
    assert!(session.supports_roots_requests);
    assert!(session.roots_list_changed_supported);
    assert!(session.roots_dirty);
    assert_eq!(
        as_str(get(&result, "protocolVersion").expect("version")),
        Some("2025-11-25")
    );
    let info = get(&result, "serverInfo").expect("server info");
    assert_eq!(as_str(get(info, "version").expect("v")), Some("0.2.1"));
    let tools = reply(route_request("tools/list", None, &mut session, "0.2.1"));
    match get(&tools, "tools").expect("tools") {
        Json::Array(items) => assert_eq!(items.len(), 22),
        _ => panic!("tools is not an array"),
    }
}

#[test]
fn capability_detection() {
    let params = ui_params();
    assert!(client_supports_ui(Some(&params)));
    assert!(client_supports_roots(Some(&params)));
    assert!(client_supports_roots_list_changed(Some(&params)));
    assert!(!client_supports_ui(None));
    assert!(!client_supports_roots(Some(&obj(vec![]))));
}

#[test]
fn tool_listing_depends_on_session() {
    assert_eq!(tool_definitions(false, false).len(), 20);
    assert_eq!(tool_definitions(true, false).len(), 21);
    let all = tool_definitions(true, true);
    assert_eq!(as_str(get(&all[0], "name").expect("name")), Some("zocli.app.snapshot"));
    assert_eq!(as_str(get(&all[1], "name").expect("name")), Some("zocli.roots.list"));
    assert!(get(&all[0], "_meta").is_some());
    assert!(get(&tool_definitions(false, false)[0], "_meta").is_none());
    let search = tool_definitions(false, false)
        .into_iter()
        .find(|t| as_str(get(t, "name").unwrap()) == Some("zocli.mail.search"))
        .expect("search tool");
    assert_eq!(
        to_json_text(get(&search, "inputSchema").expect("schema")),
        r#"{"additionalProperties":false,"properties":{"account":{"type":"string"},"limit":{"minimum":1,"type":"integer"},"query":{"type":"string"}},"required":["query"],"type":"object"}"#
    );
}

#[test]
fn tool_surfaces_scopes_and_auth() {
    assert_eq!(tool_surface("zocli.mail.list"), "ui://zocli/mail");
    assert_eq!(tool_surface("zocli.account.current"), "ui://zocli/account");
    assert_eq!(tool_surface("zocli.update.check"), "ui://zocli/dashboard");
    assert_eq!(tool_visibility("zocli.app.snapshot"), vec!["app"]);
    assert_eq!(tool_visibility("zocli.drive.list"), vec!["model", "app"]);
    assert_eq!(tool_scope("zocli.mail.send"), Some("zocli.mail.write"));
    assert_eq!(tool_scope("zocli.drive.download"), Some("zocli.drive.read"));
    assert_eq!(tool_scope("zocli.account.list"), None);
    assert!(tool_requires_http_auth("zocli.calendar.events"));
    assert!(!tool_requires_http_auth("zocli.account.list"));
    let call = obj(vec![
        ("method", s("tools/call")),
        ("params", obj(vec![("name", s("zocli.mail.read"))])),
    ]);
    assert!(message_requires_http_auth(&call));
    assert!(needs_http_auth(&vec![obj(vec![("method", s("ping"))]), call]));
}

#[test]
fn notifications_update_the_session() {
    let mut session = SessionState::stdio();
    handle_notification("notifications/initialized", None, &mut session);
    assert!(session.initialized);
    let params = obj(vec![("resourceUri", s("ui://zocli/mail"))]);
    handle_notification("ui/notifications/initialized", Some(&params), &mut session);
    assert!(session.ui_initialized);
    assert_eq!(session.ui_active_resource.as_deref(), Some("ui://zocli/mail"));
    session.roots_dirty = false;
    handle_notification("notifications/roots/list_changed", None, &mut session);
    assert!(session.roots_dirty);
}

#[test]
fn app_methods_need_ui_initialize() {
    let mut session = SessionState::stdio();
    reply(route_request("initialize", None, &mut session, "0.2.1"));
    match route_request("ui/message", None, &mut session, "0.2.1") {
        Err(ZocliError::UnsupportedOperation(m)) => {
            assert_eq!(m, "ui/initialize must be called before other ui/* methods")
        }
        other => panic!("unexpected {other:?}"),
    }
    reply(route_request("ui/initialize", None, &mut session, "0.2.1"));
    let params = obj(vec![("mode", s("sideways"))]);
    let mode = reply(route_request(
        "ui/request-display-mode",
        Some(&params),
        &mut session,
        "0.2.1",
    ));
    assert_eq!(to_json_text(&mode), r#"{"mode":"inline"}"#);
    reply(route_request("ui/resource-teardown", None, &mut session, "0.2.1"));
    assert!(!session.ui_initialized);
    assert!(matches!(
        route_request("nope", None, &mut session, "0.2.1"),
        Err(ZocliError::UnsupportedOperation(_))
    ));
}

#[test]
fn subscriptions_are_checked_and_kept_sorted() {
    let mut session = SessionState::stdio();
    reply(route_request("initialize", None, &mut session, "0.2.1"));
    let bad = obj(vec![("uri", s("resource://zocli/skills"))]);
    assert!(matches!(
        route_request("resources/subscribe", Some(&bad), &mut session, "0.2.1"),
        Err(ZocliError::UnsupportedOperation(_))
    ));
    let good = obj(vec![("uri", s("resource://zocli/auth/work"))]);
    match route_request("resources/subscribe", Some(&good), &mut session, "0.2.1") {
        Ok(RequestAction::Subscribe(uri)) => record_subscription(&mut session, uri),
        other => panic!("unexpected {other:?}"),
    }
    record_subscription(&mut session, "resource://zocli/account/home".to_string());
    record_subscription(&mut session, "resource://zocli/auth/work".to_string());
    assert_eq!(
        session.resource_subscriptions,
        vec![
            "resource://zocli/account/home".to_string(),
            "resource://zocli/auth/work".to_string()
        ]
    );
    match route_request("resources/unsubscribe", Some(&good), &mut session, "0.2.1") {
        Ok(RequestAction::Unsubscribed(uri)) => assert_eq!(uri, "resource://zocli/auth/work"),
        other => panic!("unexpected {other:?}"),
    }
    assert_eq!(
        session.resource_subscriptions,
        vec!["resource://zocli/account/home".to_string()]
    );
}

#[test]
fn responses_and_errors_are_wrapped() {
    let ok = jsonrpc_response(Json::Number("7".to_string()), Ok(obj(vec![])));
    assert_eq!(to_json_text(&ok), r#"{"id":7,"jsonrpc":"2.0","result":{}}"#);
    let err = jsonrpc_response(
        Json::Number("8".to_string()),
        Err(ZocliError::Validation("bad".to_string())),
    );
    assert_eq!(
        to_json_text(&err),
        r#"{"error":{"code":-32602,"data":{"code":"VALIDATION_ERROR","message":"Validation error: bad","ok":false},"message":"Validation error: bad"},"id":8,"jsonrpc":"2.0"}"#
    );
    assert_eq!(error_code(&ZocliError::UnsupportedOperation(String::new())), -32601);
    assert_eq!(error_code(&ZocliError::Io(String::new())), -32000);
}

#[test]
fn batches_and_client_responses() {
    assert!(matches!(
        normalize_messages(Json::Array(vec![])),
        Err(ZocliError::Validation(_))
    ));
    assert_eq!(normalize_messages(obj(vec![])).expect("one").len(), 1);
    let response = obj(vec![("id", Json::Number("1".to_string())), ("result", obj(vec![]))]);
    assert!(is_client_response_message(&response));
    assert!(!is_client_response_message(&obj(vec![("method", s("ping"))])));
    assert!(matches!(message_method(&response), Ok(None)));
    assert!(matches!(
        message_method(&obj(vec![("method", Json::Bool(true))])),
        Err(ZocliError::Serialization(_))
    ));
}

#[test]
fn roots_are_validated() {
    let root = obj(vec![("uri", s("file:///home/me")), ("name", s("home"))]);
    assert_eq!(
        to_json_text(&validate_root(&root).expect("root")),
        r#"{"name":"home","uri":"file:///home/me"}"#
    );
    match validate_root(&obj(vec![("uri", s("https://x"))])) {
        Err(ZocliError::Validation(m)) => {
            assert_eq!(m, "roots/list item `uri` must be a file:// URI, got `https://x`")
        }
        other => panic!("unexpected {other:?}"),
    }
    let message = obj(vec![(
        "result",
        obj(vec![("roots", Json::Array(vec![root]))]),
    )]);
    assert_eq!(parse_roots_list_response(&message).expect("roots").len(), 1);
    assert!(matches!(
        parse_roots_list_response(&obj(vec![])),
        Err(ZocliError::Serialization(_))
    ));
}

#[test]
fn roots_requests_need_the_capability_and_use_the_cache() {
    let mut session = SessionState::http();
    match begin_roots_request(&mut session) {
        Err(ZocliError::UnsupportedOperation(m)) => assert_eq!(
            m,
            "zocli.roots.list requires stdio transport with client roots capability"
        ),
        other => panic!("unexpected {other:?}"),
    }
    let mut session = SessionState::stdio();
    session.supports_roots_requests = true;
    session.roots_dirty = true;
    let first = session.next_outbound_request_id;
    match begin_roots_request(&mut session).unwrap() {
        RootsStart::Ask { request_id, request } => {
            assert_eq!(request_id, first);
            assert_eq!(
                to_json_text(&request),
                format!("{{\"id\":{first},\"jsonrpc\":\"2.0\",\"method\":\"roots/list\"}}")
            );
        }
        other => panic!("unexpected {other:?}"),
    }
    assert_eq!(session.next_outbound_request_id, first + 1);
    session.cached_roots = Some(Vec::new());
    session.roots_dirty = false;
    assert!(matches!(begin_roots_request(&mut session).unwrap(), RootsStart::UseCache));
    assert_eq!(session.next_outbound_request_id, first + 1);
}

#[test]
fn waiting_for_roots_sorts_incoming_messages() {
    let answer = obj(vec![("id", Json::Number("4".to_string())), ("result", obj(vec![]))]);
    assert_eq!(roots_wait_event(&answer, 4), RootsWaitEvent::Answer);
    assert_eq!(roots_wait_event(&answer, 5), RootsWaitEvent::OtherResponse);
    let note = obj(vec![("method", s("notifications/initialized"))]);
    assert_eq!(roots_wait_event(&note, 4), RootsWaitEvent::Notification);
    let req = obj(vec![("method", s("ping")), ("id", Json::Number("9".to_string()))]);
    assert_eq!(roots_wait_event(&req, 4), RootsWaitEvent::Request);
}

#[test]
fn roots_answers_become_roots_or_errors() {
    let unsupported = obj(vec![(
        "error",
        obj(vec![
            ("code", Json::Number("-32601".to_string())),
            ("message", s("no roots here")),
        ]),
    )]);
    match roots_answer(&unsupported) {
        Err(ZocliError::UnsupportedOperation(m)) => assert_eq!(m, "no roots here"),
        other => panic!("unexpected {other:?}"),
    }
    let failed = obj(vec![("error", obj(vec![("code", Json::Number("-1".to_string()))]))]);
    match roots_answer(&failed) {
        Err(ZocliError::Validation(m)) => assert_eq!(m, "roots/list failed"),
        other => panic!("unexpected {other:?}"),
    }
    let ok = obj(vec![(
        "result",
        obj(vec![(
            "roots",
            Json::Array(vec![obj(vec![("uri", s("file:///home/me/project"))])]),
        )]),
    )]);
    let roots = roots_answer(&ok).expect("roots");
    assert_eq!(roots.len(), 1);
    let response = roots_tool_response(roots, false).expect("response");
    assert_eq!(
        to_json_text(get(&response, "structuredContent").unwrap()),
        "{\"roots\":[{\"uri\":\"file:///home/me/project\"}],\"schemaVersion\":\"1.0\"}"
    );
}

#[test]
fn parse_usize_reads_like_str_parse() {
    assert_eq!(parse_usize("42"), Ok(42));
    assert_eq!(parse_usize("+7"), Ok(7));
    assert_eq!(parse_usize(""), Err("cannot parse integer from empty string".to_string()));
    assert_eq!(parse_usize("+"), Err("invalid digit found in string".to_string()));
    assert_eq!(parse_usize("-1"), Err("invalid digit found in string".to_string()));
    assert_eq!(parse_usize("12a"), Err("invalid digit found in string".to_string()));
    assert_eq!(
        parse_usize("99999999999999999999999"),
        Err("number too large to fit in target type".to_string())
    );
    for text in ["0", "18", "+3", "", "x", "-", "340282366920938463463374607431768211456"] {
        let ours = parse_usize(text).map_err(|_| ());
        let std_parse = text.parse::<usize>().map_err(|_| ());
        assert_eq!(ours, std_parse, "{text}");
    }
}

#[test]
fn stdio_line_reads_headers_json_lines_and_the_blank_line() {
    assert!(matches!(stdio_line(None, "  {\"jsonrpc\":\"2.0\"}\n"), Ok(StdioLine::JsonLine)));
    assert!(matches!(stdio_line(None, "[1]"), Ok(StdioLine::JsonLine)));
    assert!(matches!(stdio_line(None, "content-length: 17\r\n"), Ok(StdioLine::Header(Some(17)))));
    assert!(matches!(stdio_line(Some(17), "Content-Type: application/json"), Ok(StdioLine::Header(Some(17)))));
    assert!(matches!(stdio_line(Some(5), "{"), Ok(StdioLine::Header(Some(5)))));
    assert!(matches!(stdio_line(Some(17), "\r\n"), Ok(StdioLine::BodyFollows(17))));
    assert!(matches!(stdio_line(None, "\n"), Err(ZocliError::Serialization(ref m)) if m == "missing Content-Length header"));
    assert!(matches!(stdio_line(None, "Content-Length: ten"),
        Err(ZocliError::Serialization(ref m)) if m == "invalid Content-Length header: invalid digit found in string"));
}

#[test]
fn http_roots_calls_need_an_event_stream() {
    assert!(http_roots_accepts(Some("application/json, text/event-stream")).is_ok());
    let (status, message) = http_roots_accepts(Some("application/json")).unwrap_err();
    assert_eq!(status, 406);
    assert_eq!(message, "zocli.roots.list over HTTP requires Accept: text/event-stream");
    assert!(http_roots_accepts(None).is_err());
}

#[test]
fn http_roots_calls_refuse_uninitialized_sessions_and_missing_capability() {
    let mut session = SessionState::http();
    match begin_http_roots_request(&mut session, Json::Number("7".to_string())) {
        HttpRootsStart::Refuse { status, message } => {
            assert_eq!(status, 400);
            assert_eq!(message, "MCP session is not initialized; call initialize first");
        }
        other => panic!("unexpected {other:?}"),
    }
    session.initialized = true;
    match begin_http_roots_request(&mut session, Json::Number("7".to_string())) {
        HttpRootsStart::Reply(payload) => {
            let text = to_json_text(&payload);
            assert!(text.contains("\"id\":7"));
            assert!(text.contains("zocli.roots.list requires client roots capability"));
        }
        other => panic!("unexpected {other:?}"),
    }
}

#[test]
fn http_roots_calls_ask_the_client_with_a_fresh_id() {
    let mut session = SessionState::http();
    session.initialized = true;
    session.supports_roots_requests = true;
    let first = session.next_outbound_request_id;
    match begin_http_roots_request(&mut session, Json::Null) {
        HttpRootsStart::Ask { request_id, request } => {
            assert_eq!(request_id, first);
            assert_eq!(
                to_json_text(&request),
                format!("{{\"id\":{first},\"jsonrpc\":\"2.0\",\"method\":\"roots/list\"}}")
            );
        }
        other => panic!("unexpected {other:?}"),
    }
    assert_eq!(session.next_outbound_request_id, first + 1);
}
