use zocli::error::ZocliError;
use zocli::http::{
    app_auth_discovery, auth_discovery, bearer_authorized, canonical_base_url,
    canonical_server_url, client_response_id, configured_bearer_token, http_error_payload,
    http_post_payload, plan_http_post, plan_stream_request, protected_resource_metadata,
    request_origin_allowed, required_scopes, unauthorized_response, HttpPostPlan,
};
use zocli::json::{get, to_json_text, Json};

fn s(text: &str) -> Json {
    Json::Str(text.to_string())
}

fn obj(members: Vec<(&str, Json)>) -> Json {
    Json::Object(
        members
            .into_iter()
            .map(|(k, v)| (k.to_string(), v))
            .collect(),
    )
}

fn call(id: u64, tool: &str) -> Json {
    obj(vec![
        ("jsonrpc", s("2.0")),
        ("id", Json::Number(id.to_string())),
        ("method", s("tools/call")),
        ("params", obj(vec![("name", s(tool))])),
    ])
}

#[test]
fn local_origins_pass_and_others_are_refused() {
    assert!(request_origin_allowed(None).is_ok());
    assert!(request_origin_allowed(Some("http://localhost:3000")).is_ok());
    assert!(request_origin_allowed(Some("http://127.0.0.1:8787")).is_ok());
    match request_origin_allowed(Some("https://evil.example")) {
        Err(ZocliError::Validation(m)) => {
            assert_eq!(m, "origin is not allowed for local MCP HTTP transport")
        }
        other => panic!("unexpected {other:?}"),
    }
    match request_origin_allowed(Some("not a url")) {
        Err(ZocliError::Validation(m)) => {
            assert!(m.starts_with("invalid Origin header `not a url`: "))
        }
        other => panic!("unexpected {other:?}"),
    }
}

#[test]
fn bearer_token_is_trimmed_and_blank_means_none() {
    assert_eq!(
        configured_bearer_token(Some("  secret \n".to_string())),
        Some("secret".to_string())
    );
    assert_eq!(configured_bearer_token(Some("   ".to_string())), None);
    assert_eq!(configured_bearer_token(None), None);
}

#[test]
fn bearer_authorization_matches_exactly() {
    assert!(bearer_authorized(None, None));
    assert!(bearer_authorized(Some("tok"), Some("Bearer tok")));
    assert!(!bearer_authorized(Some("tok"), Some("Bearer tok2")));
    assert!(!bearer_authorized(Some("tok"), Some("bearer tok")));
    assert!(!bearer_authorized(Some("tok"), None));
}

#[test]
fn required_scopes_are_sorted_and_unique() {
    let messages = vec![
        call(1, "zocli.mail.send"),
        call(2, "zocli.calendar.events"),
        call(3, "zocli.mail.send"),
        call(4, "zocli.app.snapshot"),
    ];
    assert_eq!(
        required_scopes(&messages),
        vec!["zocli.calendar.read".to_string(), "zocli.mail.write".to_string()]
    );
}

#[test]
fn server_urls_are_normalised() {
    assert_eq!(
        canonical_server_url("127.0.0.1:8787", None).unwrap(),
        "http://127.0.0.1:8787/mcp"
    );
    assert_eq!(
        canonical_server_url("ignored", Some("https://mcp.example.com/zocli/")).unwrap(),
        "https://mcp.example.com/zocli"
    );
    match canonical_server_url("ignored", Some("ftp://files.example.com/mcp")) {
        Err(ZocliError::Config(m)) => {
            assert_eq!(m, "public MCP URL must use http or https: ftp://files.example.com/mcp")
        }
        other => panic!("unexpected {other:?}"),
    }
    match canonical_server_url("ignored", Some("::nope")) {
        Err(ZocliError::Config(m)) => assert!(m.starts_with("invalid public MCP URL `::nope`: ")),
        other => panic!("unexpected {other:?}"),
    }
    assert_eq!(
        canonical_base_url("https://mcp.example.com/zocli?x=1").unwrap(),
        "https://mcp.example.com"
    );
}

#[test]
fn discovery_needs_a_token_and_an_issuer() {
    assert!(auth_discovery("127.0.0.1:8787", None, false, Some("https://id".to_string()))
        .unwrap()
        .is_none());
    assert!(auth_discovery("127.0.0.1:8787", None, true, Some("  ".to_string()))
        .unwrap()
        .is_none());
    let d = auth_discovery(
        "127.0.0.1:8787",
        Some("https://mcp.example.com/mcp"),
        true,
        Some(" https://accounts.example.com ".to_string()),
    )
    .unwrap()
    .expect("discovery");
    assert_eq!(d.authorization_servers, vec!["https://accounts.example.com".to_string()]);
    assert_eq!(d.canonical_server_url, "https://mcp.example.com/mcp");
    assert_eq!(
        d.protected_resource_metadata_url,
        "https://mcp.example.com/.well-known/oauth-protected-resource/mcp"
    );
    let meta = protected_resource_metadata(&d);
    assert_eq!(
        to_json_text(&meta),
        "{\"authorization_servers\":[\"https://accounts.example.com\"],\"bearer_methods_supported\":[\"header\"],\"resource\":\"https://mcp.example.com/mcp\",\"scopes_supported\":[\"zocli.auth.read\",\"zocli.mail.read\",\"zocli.mail.write\",\"zocli.calendar.read\",\"zocli.calendar.write\",\"zocli.drive.read\",\"zocli.drive.write\"]}"
    );
    let app = app_auth_discovery(&Some(d));
    assert!(matches!(get(&app, "enabled"), Some(Json::Bool(true))));
    assert_eq!(to_json_text(&app_auth_discovery(&None)), "{\"enabled\":false}");
}

#[test]
fn unauthorized_answer_names_metadata_and_scopes() {
    let scopes = vec!["zocli.mail.read".to_string(), "zocli.mail.write".to_string()];
    let (payload, challenge) = unauthorized_response(&scopes, Some("https://m.example/meta"));
    assert_eq!(
        challenge,
        "Bearer error=\"invalid_token\", resource_metadata=\"https://m.example/meta\", scope=\"zocli.mail.read zocli.mail.write\""
    );
    assert_eq!(
        to_json_text(&payload),
        "{\"error\":\"invalid_token\",\"error_description\":\"protected MCP tool requires Authorization: Bearer\",\"ok\":false,\"resource_metadata\":\"https://m.example/meta\",\"scope\":\"zocli.mail.read zocli.mail.write\"}"
    );
    let (bare, bare_challenge) = unauthorized_response(&Vec::new(), None);
    assert_eq!(bare_challenge, "Bearer error=\"invalid_token\"");
    assert_eq!(
        to_json_text(&bare),
        "{\"error\":\"invalid_token\",\"error_description\":\"protected MCP tool requires Authorization: Bearer\",\"ok\":false}"
    );
    assert_eq!(
        to_json_text(&http_error_payload("boom")),
        "{\"error\":\"boom\",\"ok\":false}"
    );
}

#[test]
fn posted_payloads_are_planned() {
    match plan_http_post(Some("https://evil.example"), call(1, "zocli.app.snapshot"), true, None) {
        HttpPostPlan::Refuse { status, .. } => assert_eq!(status, 403),
        other => panic!("unexpected {other:?}"),
    }
    match plan_http_post(None, Json::Array(Vec::new()), true, None) {
        HttpPostPlan::Refuse { status, .. } => assert_eq!(status, 400),
        other => panic!("unexpected {other:?}"),
    }
    match plan_http_post(None, call(1, "zocli.mail.list"), false, Some("sid".to_string())) {
        HttpPostPlan::Unauthorized(scopes) => assert_eq!(scopes, vec!["zocli.mail.read".to_string()]),
        other => panic!("unexpected {other:?}"),
    }
    let init = obj(vec![
        ("jsonrpc", s("2.0")),
        ("id", Json::Number("1".to_string())),
        ("method", s("initialize")),
    ]);
    match plan_http_post(None, init, false, None) {
        HttpPostPlan::Execute { session_id, messages } => {
            assert_eq!(session_id, None);
            assert_eq!(messages.len(), 1);
        }
        other => panic!("unexpected {other:?}"),
    }
    match plan_http_post(None, call(2, "zocli.app.snapshot"), false, None) {
        HttpPostPlan::Refuse { status, message, .. } => {
            assert_eq!(status, 400);
            assert_eq!(message, "missing Mcp-Session-Id header; call initialize first");
        }
        other => panic!("unexpected {other:?}"),
    }
    match plan_http_post(None, call(3, "zocli.roots.list"), true, Some("sid".to_string())) {
        HttpPostPlan::RootsCall { session_id, .. } => assert_eq!(session_id, "sid"),
        other => panic!("unexpected {other:?}"),
    }
    let batch = Json::Array(vec![call(4, "zocli.roots.list"), call(5, "zocli.app.snapshot")]);
    match plan_http_post(None, batch, true, Some("sid".to_string())) {
        HttpPostPlan::Refuse { status, message, session_id } => {
            assert_eq!(status, 400);
            assert_eq!(
                message,
                "zocli.roots.list must be called as a single JSON-RPC request over HTTP"
            );
            assert_eq!(session_id, Some("sid".to_string()));
        }
        other => panic!("unexpected {other:?}"),
    }
    let response = obj(vec![
        ("jsonrpc", s("2.0")),
        ("id", Json::Number("7".to_string())),
        ("result", obj(vec![])),
    ]);
    let mixed = Json::Array(vec![response, call(6, "zocli.app.snapshot")]);
    match plan_http_post(None, mixed, true, Some("sid".to_string())) {
        HttpPostPlan::Refuse { message, .. } => assert_eq!(
            message,
            "JSON-RPC responses cannot be mixed with requests in the same HTTP payload"
        ),
        other => panic!("unexpected {other:?}"),
    }
}

#[test]
fn post_answers_and_response_ids() {
    assert!(http_post_payload(Vec::new()).is_none());
    assert_eq!(to_json_text(&http_post_payload(vec![s("a")]).unwrap()), "\"a\"");
    assert_eq!(
        to_json_text(&http_post_payload(vec![s("a"), s("b")]).unwrap()),
        "[\"a\",\"b\"]"
    );
    let response = obj(vec![("id", Json::Number("12".to_string()))]);
    assert_eq!(client_response_id(&response), Some(12));
    assert_eq!(client_response_id(&obj(vec![("id", s("12"))])), None);
}

#[test]
fn stream_requests_need_session_and_accept() {
    assert_eq!(
        plan_stream_request(None, None, None),
        Err((400, "missing Mcp-Session-Id header; call initialize first".to_string()))
    );
    assert_eq!(
        plan_stream_request(None, Some("sid".to_string()), Some(Some("application/json"))),
        Err((406, "SSE stream requires Accept: text/event-stream".to_string()))
    );
    assert_eq!(
        plan_stream_request(None, Some("sid".to_string()), Some(Some("text/event-stream"))),
        Ok("sid".to_string())
    );
    assert_eq!(
        plan_stream_request(None, Some("sid".to_string()), None),
        Ok("sid".to_string())
    );
    assert_eq!(
        plan_stream_request(Some("https://evil.example"), Some("sid".to_string()), None),
        Err((
            403,
            "Validation error: origin is not allowed for local MCP HTTP transport".to_string()
        ))
    );
}
