//! The MCP session: what a client's notifications change, how each request is answered or
//! handed on, and the JSON-RPC envelopes around them.
use vstd::prelude::*;
use crate::error::{ZocliError, spec_error_code, error_code, spec_code, spec_message};
use crate::json::{
    Json, member, get, opt_ref_is, is_text, text_json, fields, is_object, key_at, val_at, text_at,
    bool_at, text_member, member_of, object, as_str,
};
use crate::text::{str_eq, starts_with, has_prefix, cat, text_views, i64_to_string, decimal, seq_lt};
use crate::prompts::{
    opt_json, spec_get_prompt, prompt_reply, get_prompt, prompt_definitions, definition_is,
    spec_prompt_defs, is_text_list, text_order, insert_text, contains_text,
};
use crate::calendar::ins;
use crate::tools::{tool_definitions, listed_tools, tool_json_is, spec_tool, meta_is, app_meta, tool_surface, tool_visibility, spec_tool_surface, spec_tool_visibility};
use crate::json::{to_json_pretty_text, json_pretty_text};
use crate::resources::{
    resource_definitions, resource_templates, spec_resource_defs, spec_resource_templates,
    listing_is, check_subscribable_uri,
};

verus! {

broadcast use vstd::string::group_string_axioms;

/// How messages are framed on stdio.
#[derive(PartialEq, Eq, Structural, Clone, Copy, Debug)]
pub enum StdioMessageFormat {
    /// `Content-Length` headers before each body.
    ContentLength,
    /// One JSON document per line.
    Lines,
}

/// What the server remembers of one client session.
#[derive(Debug)]
pub struct SessionState {
    pub initialized: bool,
    pub ui_enabled: bool,
    pub ui_initialized: bool,
    pub ui_active_resource: Option<String>,
    pub supports_resource_subscriptions: bool,
    pub supports_roots_requests: bool,
    pub roots_list_changed_supported: bool,
    pub roots_dirty: bool,
    pub cached_roots: Option<Vec<Json>>,
    pub next_outbound_request_id: u64,
    /// The subscribed resource addresses, each once.
    pub resource_subscriptions: Vec<String>,
    pub stdio_message_format: StdioMessageFormat,
}

/// A session before the client's `initialize`: nothing enabled, subscriptions supported.
pub open spec fn fresh_session(s: SessionState) -> bool {
    &&& !s.initialized
    &&& !s.ui_enabled
    &&& !s.ui_initialized
    &&& s.ui_active_resource is None
    &&& s.supports_resource_subscriptions
    &&& !s.supports_roots_requests
    &&& !s.roots_list_changed_supported
    &&& !s.roots_dirty
    &&& s.cached_roots is None
    &&& s.next_outbound_request_id == 1
    &&& s.resource_subscriptions@.len() == 0
    &&& s.stdio_message_format == StdioMessageFormat::ContentLength
}

impl SessionState {
    /// A new session on stdio.
    pub fn stdio() -> (r: Self)
        ensures
            fresh_session(r),
    {
        SessionState {
            initialized: false,
            ui_enabled: false,
            ui_initialized: false,
            ui_active_resource: None,
            supports_resource_subscriptions: true,
            supports_roots_requests: false,
            roots_list_changed_supported: false,
            roots_dirty: false,
            cached_roots: None,
            next_outbound_request_id: 1,
            resource_subscriptions: Vec::new(),
            stdio_message_format: StdioMessageFormat::ContentLength,
        }
    }

    /// A new session over HTTP; it starts as a stdio one does.
    pub fn http() -> (r: Self)
        ensures
            fresh_session(r),
    {
        SessionState::stdio()
    }
}

/// The string member `key` of an optional JSON value.
pub open spec fn text_member_of(j: Option<Json>, key: Seq<char>) -> Option<String> {
    match j {
        Some(v) => match member(v, key) {
            Some(Json::Str(s)) => Some(s),
            _ => None,
        },
        None => None,
    }
}

/// The session after a notification: `notifications/initialized` marks it initialized; a
/// change of the client's roots drops the cached roots; the app's `initialized` marks the
/// app initialized, with the resource it shows when the notification names one. Any other
/// notification changes nothing.
pub open spec fn after_notification(method: Seq<char>, params: Option<Json>, s: SessionState) -> SessionState {
    if method == "notifications/initialized"@ {
        SessionState { initialized: true, ..s }
    } else if method == "notifications/roots/list_changed"@ {
        SessionState { roots_dirty: true, cached_roots: None, ..s }
    } else if method == "ui/notifications/initialized"@ {
        SessionState {
            ui_initialized: true,
            ui_active_resource: match text_member_of(params, "resourceUri"@) {
                Some(u) => Some(u),
                None => s.ui_active_resource,
            },
            ..s
        }
    } else {
        s
    }
}

pub fn handle_notification(method: &str, params: Option<&Json>, session: &mut SessionState)
    ensures
        *final(session) == after_notification(method@, opt_json(params), *old(session)),
{
    if str_eq(method, "notifications/initialized") {
        session.initialized = true;
    } else if str_eq(method, "notifications/roots/list_changed") {
        session.roots_dirty = true;
        session.cached_roots = None;
    } else if str_eq(method, "ui/notifications/initialized") {
        session.ui_initialized = true;
        match params {
            Some(p) => match get(p, "resourceUri") {
                Some(Json::Str(u)) => {
                    session.ui_active_resource = Some(u.clone());
                },
                _ => {},
            },
            None => {},
        }
    }
}

/// The MIME types a client lists for the app extension under `capabilities.<branch>`.
pub open spec fn capability_mime_types(params: Option<Json>, branch: Seq<char>) -> Seq<Json> {
    match params {
        Some(p) => match member(p, "capabilities"@) {
            Some(c) => match member(c, branch) {
                Some(b) => match member(b, "io.modelcontextprotocol/ui"@) {
                    Some(ui) => match member(ui, "mimeTypes"@) {
                        Some(Json::Array(values)) => values@,
                        _ => Seq::empty(),
                    },
                    None => Seq::empty(),
                },
                None => Seq::empty(),
            },
            None => Seq::empty(),
        },
        None => Seq::empty(),
    }
}

pub open spec fn lists_app_mime(values: Seq<Json>) -> bool {
    exists|i: int| 0 <= i < values.len() && is_text(#[trigger] values[i], "text/html;profile=mcp-app"@)
}

/// The client can show MCP apps: it lists the app MIME type under `extensions` or
/// `experimental`.
pub open spec fn spec_supports_ui(params: Option<Json>) -> bool {
    lists_app_mime(capability_mime_types(params, "extensions"@)) || lists_app_mime(
        capability_mime_types(params, "experimental"@),
    )
}

fn mime_list<'a>(params: Option<&'a Json>, branch: &str) -> (r: Option<&'a Vec<Json>>)
    ensures
        match r {
            Some(v) => v@ == capability_mime_types(opt_json(params), branch@),
            None => capability_mime_types(opt_json(params), branch@).len() == 0,
        },
{
    let p = params?;
    let c = get(p, "capabilities")?;
    let b = get(c, branch)?;
    let ui = get(b, "io.modelcontextprotocol/ui")?;
    match get(ui, "mimeTypes") {
        Some(Json::Array(values)) => Some(values),
        _ => None,
    }
}

fn has_app_mime(values: Option<&Vec<Json>>) -> (r: bool)
    ensures
        r == (match values {
            Some(v) => lists_app_mime(v@),
            None => false,
        }),
{
    match values {
        None => false,
        Some(v) => {
            let mut i: usize = 0;
            while i < v.len()
                invariant
                    values == Some(v),
                    i <= v@.len(),
                    forall|j: int| 0 <= j < i ==> !is_text(#[trigger] v@[j], "text/html;profile=mcp-app"@),
                decreases v@.len() - i,
            {
                match &v[i] {
                    Json::Str(s) => {
                        if str_eq(s.as_str(), "text/html;profile=mcp-app") {
                            proof {
                                assert(v@[i as int] == Json::Str(*s));
                                assert(is_text(v@[i as int], "text/html;profile=mcp-app"@));
                                assert(lists_app_mime(v@));
                            }
                            return true;
                        }
                    },
                    _ => {},
                }
                i = i + 1;
            }
            false
        },
    }
}

pub fn client_supports_ui(params: Option<&Json>) -> (r: bool)
    ensures
        r == spec_supports_ui(opt_json(params)),
{
    let a = has_app_mime(mime_list(params, "extensions"));
    let b = has_app_mime(mime_list(params, "experimental"));
    a || b
}

/// The client's `capabilities.roots`, if it declares one.
pub open spec fn roots_capability(params: Option<Json>) -> Option<Json> {
    match params {
        Some(p) => match member(p, "capabilities"@) {
            Some(c) => member(c, "roots"@),
            None => None,
        },
        None => None,
    }
}

fn roots_of<'a>(params: Option<&'a Json>) -> (r: Option<&'a Json>)
    ensures
        opt_ref_is(r, roots_capability(opt_json(params))),
{
    let p = params?;
    let c = get(p, "capabilities")?;
    get(c, "roots")
}

/// The client can be asked for its filesystem roots.
pub fn client_supports_roots(params: Option<&Json>) -> (r: bool)
    ensures
        r == roots_capability(opt_json(params)) is Some,
{
    roots_of(params).is_some()
}

/// The client announces changes of its roots: `capabilities.roots.listChanged` is `true`.
pub open spec fn spec_roots_list_changed(params: Option<Json>) -> bool {
    match roots_capability(params) {
        Some(r) => member(r, "listChanged"@) == Some(Json::Bool(true)),
        None => false,
    }
}

pub fn client_supports_roots_list_changed(params: Option<&Json>) -> (r: bool)
    ensures
        r == spec_roots_list_changed(opt_json(params)),
{
    match roots_of(params) {
        Some(r) => match get(r, "listChanged") {
            Some(Json::Bool(b)) => *b,
            _ => false,
        },
        None => false,
    }
}

/// A batch must not be empty; a single message is a batch of one.
pub fn normalize_messages(payload: Json) -> (r: Result<Vec<Json>, ZocliError>)
    ensures
        match payload {
            Json::Array(messages) => if messages@.len() == 0 {
                r matches Err(ZocliError::Validation(m)) && m@
                    == "JSON-RPC batch payload must not be empty"@
            } else {
                r matches Ok(v) && v@ == messages@
            },
            _ => r matches Ok(v) && v@ == seq![payload],
        },
{
    match payload {
        Json::Array(messages) => {
            if messages.len() == 0 {
                return Err(
                    ZocliError::Validation(
                        String::from_str("JSON-RPC batch payload must not be empty"),
                    ),
                );
            }
            Ok(messages)
        },
        single => {
            let v = vec![single];
            Ok(v)
        },
    }
}

/// A message is a client's response to a request of the server: no method, an id, and a
/// result or an error.
pub open spec fn spec_is_client_response(m: Json) -> bool {
    member(m, "method"@) is None && member(m, "id"@) is Some && (member(m, "result"@) is Some
        || member(m, "error"@) is Some)
}

pub fn is_client_response_message(message: &Json) -> (r: bool)
    ensures
        r == spec_is_client_response(*message),
{
    get(message, "method").is_none() && get(message, "id").is_some() && (get(
        message,
        "result",
    ).is_some() || get(message, "error").is_some())
}

/// The method of a JSON-RPC message: None when it has none (a response, to be ignored); an
/// error when its method is not a string.
pub fn message_method(message: &Json) -> (r: Result<Option<&str>, ZocliError>)
    ensures
        match member(*message, "method"@) {
            None => r matches Ok(None),
            Some(Json::Str(m)) => r matches Ok(Some(x)) && x@ == m@,
            Some(_) => r matches Err(ZocliError::Serialization(e)) && e@
                == "missing JSON-RPC method"@,
        },
{
    match get(message, "method") {
        None => Ok(None),
        Some(Json::Str(m)) => Ok(Some(m.as_str())),
        Some(_) => Err(ZocliError::Serialization(String::from_str("missing JSON-RPC method"))),
    }
}

/// The JSON-RPC response to a request with this id: its result, or its error with the code,
/// the message and the error's JSON form.
pub open spec fn response_is(r: Json, id: Json, outcome: Result<Json, ZocliError>) -> bool {
    &&& is_object(r, 3)
    &&& text_at(r, 0, "jsonrpc"@, "2.0"@)
    &&& key_at(r, 1, "id"@) && val_at(r, 1) == id
    &&& match outcome {
        Ok(v) => key_at(r, 2, "result"@) && val_at(r, 2) == v,
        Err(e) => key_at(r, 2, "error"@) && error_object(val_at(r, 2), e),
    }
}

/// The `error` member of a JSON-RPC response for `e`.
pub open spec fn error_object(j: Json, e: ZocliError) -> bool {
    &&& is_object(j, 3)
    &&& key_at(j, 0, "code"@) && (val_at(j, 0) matches Json::Number(t) && t@ == signed_decimal(
        spec_error_code(e),
    ))
    &&& text_at(j, 1, "message"@, spec_message(e))
    &&& key_at(j, 2, "data"@) && is_object(val_at(j, 2), 3) && text_at(
        val_at(j, 2),
        0,
        "code"@,
        spec_code(e),
    ) && text_at(val_at(j, 2), 1, "message"@, spec_message(e)) && bool_at(
        val_at(j, 2),
        2,
        "ok"@,
        false,
    )
}

/// An integer as `i64::to_string` writes it.
pub open spec fn signed_decimal(n: int) -> Seq<char> {
    if n < 0 {
        seq!['-'] + decimal((-n) as nat)
    } else {
        decimal(n as nat)
    }
}

pub fn jsonrpc_error_payload(id: Json, err: &ZocliError) -> (r: Json)
    ensures
        response_is(r, id, Err(*err)),
{
    let code = error_code(err);
    let mut e: Vec<(String, Json)> = Vec::new();
    e.push(member_of("code", Json::Number(crate::text::i64_to_string(code))));
    e.push(member_of("message", Json::Str(err.message())));
    e.push(member_of("data", err.as_json()));
    let mut ms: Vec<(String, Json)> = Vec::new();
    ms.push(text_member("jsonrpc", "2.0"));
    ms.push(member_of("id", id));
    ms.push(member_of("error", object(e)));
    object(ms)
}

/// The response to a request: its result or its error.
pub fn jsonrpc_response(id: Json, outcome: Result<Json, ZocliError>) -> (r: Json)
    ensures
        response_is(r, id, outcome),
{
    match outcome {
        Ok(v) => {
            let mut ms: Vec<(String, Json)> = Vec::new();
            ms.push(text_member("jsonrpc", "2.0"));
            ms.push(member_of("id", id));
            ms.push(member_of("result", v));
            object(ms)
        },
        Err(e) => jsonrpc_error_payload(id, &e),
    }
}

/// The notification that a subscribed resource changed.
pub fn resource_updated_notification(uri: &str) -> (r: Json)
    ensures
        is_object(r, 3),
        text_at(r, 0, "jsonrpc"@, "2.0"@),
        text_at(r, 1, "method"@, "notifications/resources/updated"@),
        key_at(r, 2, "params"@) && is_object(val_at(r, 2), 1) && text_at(
            val_at(r, 2),
            0,
            "uri"@,
            uri@,
        ),
{
    let mut p: Vec<(String, Json)> = Vec::new();
    p.push(text_member("uri", uri));
    let mut ms: Vec<(String, Json)> = Vec::new();
    ms.push(text_member("jsonrpc", "2.0"));
    ms.push(text_member("method", "notifications/resources/updated"));
    ms.push(member_of("params", object(p)));
    object(ms)
}

/// A root of the client, as kept: a `file://` address and its name when it has one.
pub open spec fn root_outcome(root: Json, r: Result<Json, ZocliError>) -> bool {
    match member(root, "uri"@) {
        Some(Json::Str(u)) => if has_prefix(u@, "file://"@) {
            r matches Ok(j) && j is Object && key_at(j, 0, "uri"@) && is_text(val_at(j, 0), u@)
                && match member(root, "name"@) {
                Some(Json::Str(n)) => fields(j).len() == 2 && text_at(j, 1, "name"@, n@),
                _ => fields(j).len() == 1,
            }
        } else {
            r matches Err(ZocliError::Validation(m)) && m@
                == "roots/list item `uri` must be a file:// URI, got `"@ + u@ + "`"@
        },
        _ => r matches Err(ZocliError::Validation(m)) && m@ == "roots/list item requires `uri`"@,
    }
}

pub fn validate_root(root: &Json) -> (r: Result<Json, ZocliError>)
    ensures
        root_outcome(*root, r),
{
    let uri = match get(root, "uri") {
        Some(Json::Str(u)) => u.as_str(),
        _ => {
            return Err(ZocliError::Validation(String::from_str("roots/list item requires `uri`")));
        },
    };
    if !starts_with(uri, "file://") {
        let mut m = cat("roots/list item `uri` must be a file:// URI, got `", uri);
        m.append("`");
        return Err(ZocliError::Validation(m));
    }
    let mut ms: Vec<(String, Json)> = Vec::new();
    ms.push(text_member("uri", uri));
    match get(root, "name") {
        Some(Json::Str(n)) => {
            ms.push(text_member("name", n.as_str()));
        },
        _ => {},
    }
    Ok(object(ms))
}

/// A root the server keeps: its address is a `file://` one.
pub open spec fn root_ok(root: Json) -> bool {
    member(root, "uri"@) matches Some(Json::Str(u)) && has_prefix(u@, "file://"@)
}

/// The roots of a `roots/list` response: each root kept as `validate_root` keeps it; the
/// first refused one refuses the whole list.
pub open spec fn roots_outcome(message: Json, r: Result<Vec<Json>, ZocliError>) -> bool {
    match member(message, "result"@) {
        Some(res) => match member(res, "roots"@) {
            Some(Json::Array(roots)) => match r {
                Ok(v) => v@.len() == roots@.len() && kept_roots(roots@, v@, roots@.len() as int),
                Err(e) => exists|i: int|
                    0 <= i < roots@.len() && (forall|j: int| 0 <= j < i ==> root_ok(#[trigger] roots@[j]))
                        && !root_ok(roots@[i]) && root_outcome(#[trigger] roots@[i], Err(e)),
            },
            _ => r matches Err(ZocliError::Serialization(m)) && m@
                == "roots/list response missing `result.roots`"@,
        },
        None => r matches Err(ZocliError::Serialization(m)) && m@
            == "roots/list response missing `result.roots`"@,
    }
}

pub open spec fn kept_root(roots: Seq<Json>, out: Seq<Json>, j: int) -> bool {
    root_ok(roots[j]) && root_outcome(roots[j], Ok(out[j]))
}

pub open spec fn kept_roots(roots: Seq<Json>, out: Seq<Json>, n: int) -> bool {
    forall|j: int| 0 <= j < n ==> #[trigger] kept_root(roots, out, j)
}

pub fn parse_roots_list_response(message: &Json) -> (r: Result<Vec<Json>, ZocliError>)
    ensures
        roots_outcome(*message, r),
{
    let missing = "roots/list response missing `result.roots`";
    let roots = match get(message, "result") {
        Some(res) => match get(res, "roots") {
            Some(Json::Array(roots)) => roots,
            _ => {
                return Err(ZocliError::Serialization(String::from_str(missing)));
            },
        },
        None => {
            return Err(ZocliError::Serialization(String::from_str(missing)));
        },
    };
    let mut out: Vec<Json> = Vec::new();
    let mut i: usize = 0;
    let ghost res = member(*message, "result"@)->0;
    assert(member(*message, "result"@) == Some(res));
    assert(member(res, "roots"@) == Some(Json::Array(*roots)));
    while i < roots.len()
        invariant
            member(*message, "result"@) == Some(res),
            member(res, "roots"@) == Some(Json::Array(*roots)),
            i <= roots@.len(),
            out@.len() == i,
            kept_roots(roots@, out@, i as int),
        decreases roots@.len() - i,
    {
        match validate_root(&roots[i]) {
            Ok(v) => {
                assert(root_ok(roots@[i as int]));
                let ghost vv = v;
                let ghost before = out@;
                out.push(v);
                assert(out@[i as int] == vv);
                assert forall|j: int| 0 <= j < i + 1 implies kept_root(roots@, out@, j) by {
                    if j < i {
                        assert(out@[j] == before[j]);
                        assert(kept_root(roots@, before, j));
                    }
                }
            },
            Err(e) => {
                proof {
                    assert forall|j: int| 0 <= j < i implies root_ok(#[trigger] roots@[j]) by {
                        assert(kept_root(roots@, out@, j));
                    }
                    assert(!root_ok(roots@[i as int]));
                    assert(root_outcome(roots@[i as int], Err(e)));
                    let k = i as int;
                    assert(0 <= k < roots@.len() && (forall|j: int|
                        0 <= j < k ==> root_ok(#[trigger] roots@[j])) && !root_ok(roots@[k])
                        && root_outcome(roots@[k], Err(e)));
                    assert(member(res, "roots"@) == Some(Json::Array(*roots)));
                    assert(exists|q: int|
                        0 <= q < roots@.len() && (forall|j: int|
                            0 <= j < q ==> root_ok(#[trigger] roots@[j])) && !root_ok(roots@[q])
                            && root_outcome(#[trigger] roots@[q], Err(e)));
                    match member(*message, "result"@) {
                        Some(res2) => {
                            assert(res2 == res);
                            match member(res2, "roots"@) {
                                Some(Json::Array(rs)) => {
                                    assert(rs == *roots);
                                    assert(rs@ == roots@);
                                },
                                _ => {
                                    assert(false);
                                },
                            }
                        },
                        None => {
                            assert(false);
                        },
                    }
                    assert(roots_outcome(*message, Err(e)));
                }
                return Err(e);
            },
        }
        i = i + 1;
    }
    proof {
        match member(*message, "result"@) {
            Some(res2) => {
                assert(res2 == res);
                match member(res2, "roots"@) {
                    Some(Json::Array(rs)) => {
                        assert(rs == *roots);
                    },
                    _ => {},
                }
            },
            None => {},
        }
    }
    Ok(out)
}

/// What the server does with a request once the session is consulted.
#[derive(Debug)]
pub enum RequestAction {
    /// Answer with this result.
    Reply(Json),
    /// Run the tool the parameters name.
    CallTool,
    /// Complete an argument value (needs the configured accounts).
    Complete,
    /// Read this resource.
    ReadResource(String),
    /// Subscribe to this resource once its contents can be read.
    Subscribe(String),
    /// This resource was unsubscribed.
    Unsubscribed(String),
}

pub open spec fn server_info_is(j: Json, version: Seq<char>) -> bool {
    is_object(j, 2) && text_at(j, 0, "name"@, "zocli"@) && text_at(j, 1, "version"@, version)
}

pub open spec fn not_changing(j: Json) -> bool {
    is_object(j, 1) && bool_at(j, 0, "listChanged"@, false)
}

/// The capabilities announced to the client.
pub open spec fn capabilities_is(c: Json, subscribe: bool) -> bool {
    &&& is_object(c, 5)
    &&& key_at(c, 0, "completions"@) && is_object(val_at(c, 0), 0)
    &&& key_at(c, 1, "prompts"@) && not_changing(val_at(c, 1))
    &&& key_at(c, 2, "tools"@) && not_changing(val_at(c, 2))
    &&& key_at(c, 3, "resources"@) && is_object(val_at(c, 3), 2) && bool_at(
        val_at(c, 3),
        0,
        "listChanged"@,
        false,
    ) && bool_at(val_at(c, 3), 1, "subscribe"@, subscribe)
    &&& key_at(c, 4, "experimental"@) && is_object(val_at(c, 4), 1) && key_at(
        val_at(c, 4),
        0,
        "io.modelcontextprotocol/ui"@,
    ) && app_extension_is(val_at(val_at(c, 4), 0))
}

pub open spec fn app_extension_is(j: Json) -> bool {
    is_object(j, 2) && key_at(j, 0, "mimeTypes"@) && is_text_list(
        val_at(j, 0),
        seq!["text/html;profile=mcp-app"@],
    ) && bool_at(j, 1, "resourceTemplates"@, true)
}

/// The answer to `initialize`.
pub open spec fn initialize_reply_is(j: Json, subscribe: bool, version: Seq<char>) -> bool {
    &&& is_object(j, 3)
    &&& text_at(j, 0, "protocolVersion"@, "2025-11-25"@)
    &&& key_at(j, 1, "capabilities"@) && capabilities_is(val_at(j, 1), subscribe)
    &&& key_at(j, 2, "serverInfo"@) && server_info_is(val_at(j, 2), version)
}

/// The answer to the app's `ui/initialize`.
pub open spec fn ui_initialize_reply_is(j: Json, version: Seq<char>) -> bool {
    &&& is_object(j, 3)
    &&& text_at(j, 0, "protocolVersion"@, "2025-11-25"@)
    &&& key_at(j, 1, "serverInfo"@) && server_info_is(val_at(j, 1), version)
    &&& key_at(j, 2, "capabilities"@) && is_object(val_at(j, 2), 2) && key_at(
        val_at(j, 2),
        0,
        "tools"@,
    ) && not_changing(val_at(val_at(j, 2), 0)) && key_at(val_at(j, 2), 1, "resources"@)
        && not_changing(val_at(val_at(j, 2), 1))
}

pub open spec fn accepted_is(j: Json) -> bool {
    is_object(j, 1) && bool_at(j, 0, "accepted"@, true)
}

/// A one-member object whose member `key` is an array.
pub open spec fn list_reply(j: Json, key: Seq<char>) -> Option<Seq<Json>> {
    if is_object(j, 1) && key_at(j, 0, key) {
        match val_at(j, 0) {
            Json::Array(v) => Some(v@),
            _ => None,
        }
    } else {
        None
    }
}

pub open spec fn prompts_list_is(j: Json) -> bool {
    list_reply(j, "prompts"@) matches Some(v) && v.len() == spec_prompt_defs().len() && forall|i: int|
        0 <= i < v.len() ==> definition_is(#[trigger] v[i], spec_prompt_defs()[i])
}

pub open spec fn tools_list_is(j: Json, ui: bool, roots: bool) -> bool {
    list_reply(j, "tools"@) matches Some(v) && v.len() == listed_tools(ui, roots).len() && forall|
        i: int,
    |
        0 <= i < v.len() ==> tool_json_is(#[trigger] v[i], spec_tool(listed_tools(ui, roots)[i]), ui)
}

pub open spec fn resources_list_is(j: Json, ui: bool) -> bool {
    list_reply(j, "resources"@) matches Some(v) && v.len() == spec_resource_defs(ui).len()
        && forall|i: int| 0 <= i < v.len() ==> listing_is(#[trigger] v[i], "uri"@, spec_resource_defs(ui)[i])
}

pub open spec fn templates_list_is(j: Json, ui: bool) -> bool {
    list_reply(j, "resourceTemplates"@) matches Some(v) && v.len() == spec_resource_templates(ui).len()
        && forall|i: int|
        0 <= i < v.len() ==> listing_is(
            #[trigger] v[i],
            "uriTemplate"@,
            spec_resource_templates(ui)[i],
        )
}

/// The string parameter `key` of a request.
pub open spec fn param_text(params: Option<Json>, key: Seq<char>) -> Option<Seq<char>> {
    match text_member_of(params, key) {
        Some(s) => Some(s@),
        None => None,
    }
}

pub open spec fn params_or_null(params: Option<Json>) -> Json {
    match params {
        Some(p) => p,
        None => Json::Null,
    }
}

/// The app's display mode: `inline`, `floating` or `full-window`; anything else is inline.
pub open spec fn display_mode(params: Option<Json>) -> Seq<char> {
    match param_text(params, "mode"@) {
        Some(m) => if m == "inline"@ || m == "floating"@ || m == "full-window"@ {
            m
        } else {
            "inline"@
        },
        None => "inline"@,
    }
}

pub open spec fn is_app_method(m: Seq<char>) -> bool {
    m == "ui/update-model-context"@ || m == "ui/message"@ || m == "ui/request-display-mode"@ || m
        == "ui/open-link"@ || m == "ui/resource-teardown"@
}

/// The subscribed addresses without `u`.
pub open spec fn without(v: Seq<Seq<char>>, u: Seq<char>) -> Seq<Seq<char>>
    decreases v.len(),
{
    if v.len() == 0 {
        v
    } else if v.last() == u {
        without(v.drop_last(), u)
    } else {
        without(v.drop_last(), u).push(v.last())
    }
}

/// `t` is `s` with only its subscriptions (possibly) changed.
pub open spec fn same_but_subscriptions(s: SessionState, t: SessionState) -> bool {
    t == SessionState { resource_subscriptions: t.resource_subscriptions, ..s }
}

pub open spec fn reply_is(r: Result<RequestAction, ZocliError>, p: spec_fn(Json) -> bool) -> bool {
    r matches Ok(RequestAction::Reply(j)) && p(j)
}

pub open spec fn fails(r: Result<RequestAction, ZocliError>, validation: bool, m: Seq<char>) -> bool {
    if validation {
        r matches Err(ZocliError::Validation(x)) && x@ == m
    } else {
        r matches Err(ZocliError::UnsupportedOperation(x)) && x@ == m
    }
}

/// How a request is handled: the session after it (`t`) and the action, for each method.
pub open spec fn route_is(
    method: Seq<char>,
    params: Option<Json>,
    s: SessionState,
    t: SessionState,
    r: Result<RequestAction, ZocliError>,
    version: Seq<char>,
) -> bool {
    if method != "initialize"@ && method != "ping"@ && !s.initialized {
        t == s && fails(r, true, "MCP session is not initialized; call `initialize` first"@)
    } else if method == "initialize"@ {
        &&& t == SessionState {
            ui_enabled: spec_supports_ui(params),
            roots_list_changed_supported: spec_roots_list_changed(params),
            supports_roots_requests: roots_capability(params) is Some,
            roots_dirty: roots_capability(params) is Some,
            cached_roots: None,
            initialized: true,
            ..s
        }
        &&& reply_is(r, |j: Json| initialize_reply_is(j, s.supports_resource_subscriptions, version))
    } else if method == "ping"@ {
        t == s && reply_is(r, |j: Json| is_object(j, 0))
    } else if method == "completion/complete"@ {
        t == s && r matches Ok(RequestAction::Complete)
    } else if method == "prompts/list"@ {
        t == s && reply_is(r, |j: Json| prompts_list_is(j))
    } else if method == "prompts/get"@ {
        t == s && match spec_get_prompt(params_or_null(params)) {
            Ok((d, text)) => reply_is(r, |j: Json| prompt_reply(j, d, text)),
            Err(m) => fails(r, true, m),
        }
    } else if method == "tools/list"@ {
        t == s && reply_is(
            r,
            |j: Json| tools_list_is(j, s.ui_enabled, s.supports_roots_requests),
        )
    } else if method == "tools/call"@ {
        t == s && if param_text(params, "name"@) == Some("zocli.roots.list"@) {
            fails(
                r,
                false,
                "zocli.roots.list requires stdio transport with client roots capability"@,
            )
        } else {
            r matches Ok(RequestAction::CallTool)
        }
    } else if method == "resources/list"@ {
        t == s && reply_is(r, |j: Json| resources_list_is(j, s.ui_enabled))
    } else if method == "resources/templates/list"@ {
        t == s && reply_is(r, |j: Json| templates_list_is(j, s.ui_enabled))
    } else if method == "resources/subscribe"@ {
        t == s && if !s.supports_resource_subscriptions {
            fails(r, false, "resource subscriptions are not available on this transport"@)
        } else {
            match param_text(params, "uri"@) {
                None => fails(r, true, "resources/subscribe requires `uri`"@),
                Some(u) => if has_prefix(u, "resource://zocli/account/"@) || has_prefix(
                    u,
                    "resource://zocli/auth/"@,
                ) {
                    r matches Ok(RequestAction::Subscribe(x)) && x@ == u
                } else {
                    fails(r, false, "resource does not support subscriptions: "@ + u)
                },
            }
        }
    } else if method == "resources/unsubscribe"@ {
        if !s.supports_resource_subscriptions {
            t == s && fails(r, false, "resource subscriptions are not available on this transport"@)
        } else {
            match param_text(params, "uri"@) {
                None => t == s && fails(r, true, "resources/unsubscribe requires `uri`"@),
                Some(u) => same_but_subscriptions(s, t) && text_views(t.resource_subscriptions@)
                    == without(text_views(s.resource_subscriptions@), u) && (r matches Ok(
                    RequestAction::Unsubscribed(x),
                ) && x@ == u),
            }
        }
    } else if method == "resources/read"@ {
        t == s && match param_text(params, "uri"@) {
            None => fails(r, true, "resources/read requires `uri`"@),
            Some(u) => r matches Ok(RequestAction::ReadResource(x)) && x@ == u,
        }
    } else if method == "ui/initialize"@ {
        t == SessionState { ui_initialized: true, ..s } && reply_is(
            r,
            |j: Json| ui_initialize_reply_is(j, version),
        )
    } else if is_app_method(method) && !s.ui_initialized {
        t == s && fails(r, false, "ui/initialize must be called before other ui/* methods"@)
    } else if method == "ui/update-model-context"@ || method == "ui/message"@ || method
        == "ui/open-link"@ {
        t == s && reply_is(r, |j: Json| accepted_is(j))
    } else if method == "ui/request-display-mode"@ {
        t == s && reply_is(
            r,
            |j: Json| is_object(j, 1) && text_at(j, 0, "mode"@, display_mode(params)),
        )
    } else if method == "ui/resource-teardown"@ {
        t == SessionState { ui_active_resource: None, ui_initialized: false, ..s } && reply_is(
            r,
            |j: Json| accepted_is(j),
        )
    } else {
        t == s && fails(r, false, "unsupported MCP method: "@ + method)
    }
}

fn reply_object(members: Vec<(String, Json)>) -> (r: Result<RequestAction, ZocliError>)
    ensures
        r matches Ok(RequestAction::Reply(j)) && j is Object && fields(j) == members@,
{
    Ok(RequestAction::Reply(object(members)))
}

fn no_change() -> (r: (String, Json))
    ensures
        r.1 is Object && not_changing(r.1),
{
    let mut ms: Vec<(String, Json)> = Vec::new();
    ms.push(member_of("listChanged", Json::Bool(false)));
    (String::new(), object(ms))
}

fn named(key: &str, j: (String, Json)) -> (r: (String, Json))
    ensures
        r.0@ == key@,
        r.1 == j.1,
{
    (String::from_str(key), j.1)
}

fn server_info(version: &str) -> (r: Json)
    ensures
        server_info_is(r, version@),
{
    let mut ms: Vec<(String, Json)> = Vec::new();
    ms.push(text_member("name", "zocli"));
    ms.push(text_member("version", version));
    object(ms)
}

fn initialize_reply(subscribe: bool, version: &str) -> (r: Json)
    ensures
        initialize_reply_is(r, subscribe, version@),
{
    let mut mimes: Vec<Json> = Vec::new();
    mimes.push(text_json("text/html;profile=mcp-app"));
    let mut ext: Vec<(String, Json)> = Vec::new();
    ext.push(member_of("mimeTypes", Json::Array(mimes)));
    ext.push(member_of("resourceTemplates", Json::Bool(true)));
    let mut experimental: Vec<(String, Json)> = Vec::new();
    experimental.push(member_of("io.modelcontextprotocol/ui", object(ext)));
    let mut resources: Vec<(String, Json)> = Vec::new();
    resources.push(member_of("listChanged", Json::Bool(false)));
    resources.push(member_of("subscribe", Json::Bool(subscribe)));
    let mut caps: Vec<(String, Json)> = Vec::new();
    caps.push(member_of("completions", object(Vec::new())));
    caps.push(named("prompts", no_change()));
    caps.push(named("tools", no_change()));
    caps.push(member_of("resources", object(resources)));
    caps.push(member_of("experimental", object(experimental)));
    let mut ms: Vec<(String, Json)> = Vec::new();
    ms.push(text_member("protocolVersion", "2025-11-25"));
    ms.push(member_of("capabilities", object(caps)));
    ms.push(member_of("serverInfo", server_info(version)));
    object(ms)
}

fn ui_initialize_reply(version: &str) -> (r: Json)
    ensures
        ui_initialize_reply_is(r, version@),
{
    let mut caps: Vec<(String, Json)> = Vec::new();
    caps.push(named("tools", no_change()));
    caps.push(named("resources", no_change()));
    let mut ms: Vec<(String, Json)> = Vec::new();
    ms.push(text_member("protocolVersion", "2025-11-25"));
    ms.push(member_of("serverInfo", server_info(version)));
    ms.push(member_of("capabilities", object(caps)));
    object(ms)
}

fn accepted() -> (r: Result<RequestAction, ZocliError>)
    ensures
        reply_is(r, |j: Json| accepted_is(j)),
{
    let mut ms: Vec<(String, Json)> = Vec::new();
    ms.push(member_of("accepted", Json::Bool(true)));
    Ok(RequestAction::Reply(object(ms)))
}

fn list_of(key: &str, items: Vec<Json>) -> (r: Json)
    ensures
        list_reply(r, key@) == Some(items@),
{
    let mut ms: Vec<(String, Json)> = Vec::new();
    ms.push(member_of(key, Json::Array(items)));
    object(ms)
}

fn param_str<'a>(params: Option<&'a Json>, key: &str) -> (r: Option<&'a str>)
    ensures
        match r {
            Some(x) => param_text(opt_json(params), key@) == Some(x@),
            None => param_text(opt_json(params), key@) is None,
        },
{
    match params {
        Some(p) => match get(p, key) {
            Some(Json::Str(s)) => Some(s.as_str()),
            _ => None,
        },
        None => None,
    }
}

fn unsupported(m: &str) -> (r: Result<RequestAction, ZocliError>)
    ensures
        fails(r, false, m@),
{
    Err(ZocliError::UnsupportedOperation(String::from_str(m)))
}

fn invalid(m: &str) -> (r: Result<RequestAction, ZocliError>)
    ensures
        fails(r, true, m@),
{
    Err(ZocliError::Validation(String::from_str(m)))
}

/// Removes `u` from the subscriptions.
fn remove_subscription(v: &mut Vec<String>, u: &str)
    ensures
        text_views(final(v)@) == without(text_views(old(v)@), u@),
{
    let ghost orig = text_views(v@);
    let mut kept: Vec<String> = Vec::new();
    let mut i: usize = 0;
    assert(orig.take(0) =~= Seq::<Seq<char>>::empty());
    while i < v.len()
        invariant
            orig == text_views(v@),
            i <= v@.len(),
            text_views(kept@) == without(orig.take(i as int), u@),
        decreases v@.len() - i,
    {
        proof {
            assert(orig.take(i + 1).drop_last() =~= orig.take(i as int));
            assert(orig.take(i + 1).last() == v@[i as int]@);
        }
        if !str_eq(v[i].as_str(), u) {
            let ghost before = text_views(kept@);
            kept.push(v[i].clone());
            assert(text_views(kept@) =~= before.push(v@[i as int]@));
        }
        i = i + 1;
    }
    assert(orig.take(v@.len() as int) =~= orig);
    *v = kept;
}

/// Records a subscription: the address joins the set, which stays in ascending order.
pub fn record_subscription(session: &mut SessionState, uri: String)
    ensures
        same_but_subscriptions(*old(session), *final(session)),
        text_views(final(session).resource_subscriptions@) == with_subscription(
            text_views(old(session).resource_subscriptions@),
            uri@,
        ),
{
    if !contains_text(&session.resource_subscriptions, uri.as_str()) {
        insert_text(&mut session.resource_subscriptions, uri);
    }
}

/// Each text precedes the next: ascending, so none occurs twice.
pub open spec fn strictly_ascending(v: Seq<Seq<char>>) -> bool {
    forall|i: int, j: int| 0 <= i < j < v.len() ==> seq_lt(#[trigger] v[i], #[trigger] v[j])
}

pub(crate) proof fn lemma_ins_ascending(v: Seq<Seq<char>>, u: Seq<char>)
    requires
        strictly_ascending(v),
        !v.contains(u),
    ensures
        strictly_ascending(ins(v, u, text_order())),
        forall|x: Seq<char>| #[trigger] ins(v, u, text_order()).contains(x) <==> v.contains(x) || x == u,
    decreases v.len(),
{
    let r = ins(v, u, text_order());
    if v.len() == 0 {
        assert(r =~= seq![u]);
        assert forall|x: Seq<char>| #[trigger] r.contains(x) <==> v.contains(x) || x == u by {
            if r.contains(x) {
                let k = choose|k: int| 0 <= k < r.len() && r[k] == x;
                assert(k == 0);
            }
            if x == u {
                assert(r[0] == u);
            }
        }
    } else {
        let d = v.drop_last();
        let l = v.last();
        assert(strictly_ascending(d)) by {
            assert forall|i: int, j: int| 0 <= i < j < d.len() implies seq_lt(
                #[trigger] d[i],
                #[trigger] d[j],
            ) by {
                assert(d[i] == v[i] && d[j] == v[j]);
            }
        }
        assert(!d.contains(u)) by {
            if d.contains(u) {
                let k = choose|k: int| 0 <= k < d.len() && d[k] == u;
                assert(v[k] == u);
            }
        }
        assert forall|x: Seq<char>| #[trigger] v.contains(x) <==> d.contains(x) || x == l by {
            if v.contains(x) {
                let k = choose|k: int| 0 <= k < v.len() && v[k] == x;
                if k < d.len() {
                    assert(d[k] == x);
                }
            }
            if d.contains(x) {
                let k = choose|k: int| 0 <= k < d.len() && d[k] == x;
                assert(v[k] == x);
            }
            if x == l {
                assert(v[v.len() - 1] == l);
            }
        }
        assert forall|y: Seq<char>| #[trigger] d.contains(y) implies seq_lt(y, l) by {
            let k = choose|k: int| 0 <= k < d.len() && d[k] == y;
            assert(v[k] == y && v[v.len() - 1] == l);
        }
        if seq_lt(u, l) {
            lemma_ins_ascending(d, u);
            let e = ins(d, u, text_order());
            assert(r == e.push(l));
            assert forall|i: int, j: int| 0 <= i < j < r.len() implies seq_lt(
                #[trigger] r[i],
                #[trigger] r[j],
            ) by {
                assert(r[i] == e[i]);
                if j == e.len() {
                    assert(e.contains(e[i]));
                } else {
                    assert(r[j] == e[j]);
                }
            }
            assert forall|x: Seq<char>| #[trigger] r.contains(x) <==> v.contains(x) || x == u by {
                if r.contains(x) {
                    let k = choose|k: int| 0 <= k < r.len() && r[k] == x;
                    if k < e.len() {
                        assert(e[k] == x && e.contains(x));
                    }
                }
                if e.contains(x) {
                    let k = choose|k: int| 0 <= k < e.len() && e[k] == x;
                    assert(r[k] == x);
                }
                if x == l {
                    assert(r[r.len() - 1] == l);
                }
            }
        } else {
            crate::text::lemma_seq_lt_total(u, l);
            assert(u != l) by {
                assert(v[v.len() - 1] == l);
            }
            assert(r == v.push(u));
            assert forall|i: int, j: int| 0 <= i < j < r.len() implies seq_lt(
                #[trigger] r[i],
                #[trigger] r[j],
            ) by {
                assert(r[i] == v[i]);
                if j == v.len() {
                    if i < v.len() - 1 {
                        assert(seq_lt(v[i], v[v.len() - 1]));
                        crate::text::lemma_seq_lt_transitive(v[i], l, u);
                    }
                } else {
                    assert(r[j] == v[j]);
                }
            }
            assert forall|x: Seq<char>| #[trigger] r.contains(x) <==> v.contains(x) || x == u by {
                if r.contains(x) {
                    let k = choose|k: int| 0 <= k < r.len() && r[k] == x;
                    if k < v.len() {
                        assert(v[k] == x);
                    }
                }
                if v.contains(x) {
                    let k = choose|k: int| 0 <= k < v.len() && v[k] == x;
                    assert(r[k] == x);
                }
                if x == u {
                    assert(r[v.len() as int] == u);
                }
            }
        }
    }
}

proof fn lemma_without(v: Seq<Seq<char>>, u: Seq<char>)
    ensures
        forall|x: Seq<char>| #[trigger] without(v, u).contains(x) <==> v.contains(x) && x != u,
        strictly_ascending(v) ==> strictly_ascending(without(v, u)),
    decreases v.len(),
{
    let w = without(v, u);
    if v.len() == 0 {
    } else {
        let d = v.drop_last();
        let l = v.last();
        lemma_without(d, u);
        let e = without(d, u);
        assert forall|x: Seq<char>| #[trigger] v.contains(x) <==> d.contains(x) || x == l by {
            if v.contains(x) {
                let k = choose|k: int| 0 <= k < v.len() && v[k] == x;
                if k < d.len() {
                    assert(d[k] == x);
                }
            }
            if d.contains(x) {
                let k = choose|k: int| 0 <= k < d.len() && d[k] == x;
                assert(v[k] == x);
            }
            if x == l {
                assert(v[v.len() - 1] == l);
            }
        }
        if l != u {
            assert(w == e.push(l));
            assert forall|x: Seq<char>| #[trigger] w.contains(x) <==> v.contains(x) && x != u by {
                if w.contains(x) {
                    let k = choose|k: int| 0 <= k < w.len() && w[k] == x;
                    if k < e.len() {
                        assert(e[k] == x && e.contains(x));
                    }
                }
                if e.contains(x) {
                    let k = choose|k: int| 0 <= k < e.len() && e[k] == x;
                    assert(w[k] == x);
                }
                if x == l {
                    assert(w[w.len() - 1] == l);
                }
            }
            if strictly_ascending(v) {
                assert(strictly_ascending(d)) by {
                    assert forall|i: int, j: int| 0 <= i < j < d.len() implies seq_lt(
                        #[trigger] d[i],
                        #[trigger] d[j],
                    ) by {
                        assert(d[i] == v[i] && d[j] == v[j]);
                    }
                }
                assert forall|i: int, j: int| 0 <= i < j < w.len() implies seq_lt(
                    #[trigger] w[i],
                    #[trigger] w[j],
                ) by {
                    assert(w[i] == e[i]);
                    if j == e.len() {
                        assert(e.contains(e[i]));
                        let k = choose|k: int| 0 <= k < d.len() && d[k] == e[i];
                        assert(v[k] == e[i] && v[v.len() - 1] == l);
                    } else {
                        assert(w[j] == e[j]);
                    }
                }
            }
        } else {
            if strictly_ascending(v) {
                assert(strictly_ascending(d)) by {
                    assert forall|i: int, j: int| 0 <= i < j < d.len() implies seq_lt(
                        #[trigger] d[i],
                        #[trigger] d[j],
                    ) by {
                        assert(d[i] == v[i] && d[j] == v[j]);
                    }
                }
            }
        }
    }
}

/// The subscriptions after subscribing to `uri`: unchanged when it is already there, else
/// with it inserted in order.
pub open spec fn with_subscription(v: Seq<Seq<char>>, uri: Seq<char>) -> Seq<Seq<char>> {
    if v.contains(uri) {
        v
    } else {
        ins(v, uri, text_order())
    }
}

/// Subscribing keeps the subscriptions a set held in ascending order: the address is then
/// subscribed, every earlier one stays, and nothing else is added.
pub proof fn law_subscribe_keeps_a_set(subscriptions: Seq<Seq<char>>, uri: Seq<char>)
    requires
        strictly_ascending(subscriptions),
    ensures
        strictly_ascending(with_subscription(subscriptions, uri)),
        forall|x: Seq<char>| #[trigger] with_subscription(subscriptions, uri).contains(x)
            <==> subscriptions.contains(x) || x == uri,
{
    if !subscriptions.contains(uri) {
        lemma_ins_ascending(subscriptions, uri);
    }
}

/// Unsubscribing removes exactly that address and keeps the rest in ascending order.
pub proof fn law_unsubscribe_removes(subscriptions: Seq<Seq<char>>, uri: Seq<char>)
    requires
        strictly_ascending(subscriptions),
    ensures
        strictly_ascending(without(subscriptions, uri)),
        forall|x: Seq<char>| #[trigger] without(subscriptions, uri).contains(x) <==> subscriptions.contains(x)
            && x != uri,
{
    lemma_without(subscriptions, uri);
}

/// Subscribing to a new address and unsubscribing from it again leaves the subscriptions as
/// they were.
pub proof fn law_subscribe_then_unsubscribe(subscriptions: Seq<Seq<char>>, uri: Seq<char>)
    requires
        strictly_ascending(subscriptions),
        !subscriptions.contains(uri),
    ensures
        without(ins(subscriptions, uri, text_order()), uri) == subscriptions,
{
    lemma_ins_ascending(subscriptions, uri);
    lemma_without(ins(subscriptions, uri, text_order()), uri);
    lemma_ascending_same_members(without(ins(subscriptions, uri, text_order()), uri), subscriptions);
}

proof fn lemma_ascending_same_members(a: Seq<Seq<char>>, b: Seq<Seq<char>>)
    requires
        strictly_ascending(a),
        strictly_ascending(b),
        forall|x: Seq<char>| #[trigger] a.contains(x) <==> b.contains(x),
    ensures
        a == b,
    decreases a.len() + b.len(),
{
    if a.len() == 0 || b.len() == 0 {
        if b.len() > 0 {
            assert(b.contains(b[0]));
            assert(a.contains(b[0]));
        }
        if a.len() > 0 {
            assert(a.contains(a[0]));
            assert(b.contains(a[0]));
        }
        assert(a =~= b);
    } else {
        let la = a.last();
        let lb = b.last();
        assert(a.contains(la) && b.contains(lb));
        assert(a.contains(lb) && b.contains(la));
        let ka = choose|k: int| 0 <= k < b.len() && b[k] == la;
        let kb = choose|k: int| 0 <= k < a.len() && a[k] == lb;
        if la != lb {
            crate::text::lemma_seq_lt_total(la, lb);
            assert(ka != b.len() - 1);
            assert(kb != a.len() - 1);
            assert(seq_lt(b[ka], b[b.len() - 1]));
            assert(seq_lt(a[kb], a[a.len() - 1]));
            crate::text::lemma_seq_lt_asymmetric(la, lb);
        }
        assert(la == lb);
        let da = a.drop_last();
        let db = b.drop_last();
        assert(strictly_ascending(da)) by {
            assert forall|i: int, j: int| 0 <= i < j < da.len() implies seq_lt(
                #[trigger] da[i],
                #[trigger] da[j],
            ) by {
                assert(da[i] == a[i] && da[j] == a[j]);
            }
        }
        assert(strictly_ascending(db)) by {
            assert forall|i: int, j: int| 0 <= i < j < db.len() implies seq_lt(
                #[trigger] db[i],
                #[trigger] db[j],
            ) by {
                assert(db[i] == b[i] && db[j] == b[j]);
            }
        }
        assert forall|x: Seq<char>| #[trigger] da.contains(x) <==> db.contains(x) by {
            if da.contains(x) {
                let k = choose|k: int| 0 <= k < da.len() && da[k] == x;
                assert(a[k] == x && a.contains(x));
                assert(seq_lt(a[k], a[a.len() - 1]));
                crate::text::lemma_seq_lt_irreflexive(x);
                assert(b.contains(x));
                let m = choose|m: int| 0 <= m < b.len() && b[m] == x;
                assert(m != b.len() - 1);
                assert(db[m] == x);
            }
            if db.contains(x) {
                let k = choose|k: int| 0 <= k < db.len() && db[k] == x;
                assert(b[k] == x && b.contains(x));
                assert(seq_lt(b[k], b[b.len() - 1]));
                crate::text::lemma_seq_lt_irreflexive(x);
                assert(a.contains(x));
                let m = choose|m: int| 0 <= m < a.len() && a[m] == x;
                assert(m != a.len() - 1);
                assert(da[m] == x);
            }
        }
        lemma_ascending_same_members(da, db);
        assert(a =~= da.push(la));
        assert(b =~= db.push(lb));
    }
}

/// A session that is not initialized refuses every request but `initialize` and `ping`,
/// and stays as it was.
pub proof fn law_uninitialized_session_refuses(
    method: Seq<char>,
    params: Option<Json>,
    s: SessionState,
    t: SessionState,
    r: Result<RequestAction, ZocliError>,
    version: Seq<char>,
)
    requires
        route_is(method, params, s, t, r, version),
        !s.initialized,
        method != "initialize"@,
        method != "ping"@,
    ensures
        t == s,
        r matches Err(ZocliError::Validation(m)) && m@
            == "MCP session is not initialized; call `initialize` first"@,
{
}

/// After `initialize` the session is initialized, so later requests are served.
pub proof fn law_initialize_initializes(
    params: Option<Json>,
    s: SessionState,
    t: SessionState,
    r: Result<RequestAction, ZocliError>,
    version: Seq<char>,
)
    requires
        route_is("initialize"@, params, s, t, r, version),
    ensures
        t.initialized,
        r is Ok,
{
}

/// Handles a request: checks the session, updates it, and answers or says what to run.
/// `version` is the server's version, announced to the client.
pub fn route_request(
    method: &str,
    params: Option<&Json>,
    session: &mut SessionState,
    version: &str,
) -> (r: Result<RequestAction, ZocliError>)
    ensures
        route_is(method@, opt_json(params), *old(session), *final(session), r, version@),
{
    let ghost p = opt_json(params);
    proof {
        reveal_strlit("initialize");
        reveal_strlit("ping");
    }
    if !str_eq(method, "initialize") && !str_eq(method, "ping") && !session.initialized {
        return invalid("MCP session is not initialized; call `initialize` first");
    }
    if str_eq(method, "initialize") {
        session.ui_enabled = client_supports_ui(params);
        session.roots_list_changed_supported = client_supports_roots_list_changed(params);
        session.supports_roots_requests = client_supports_roots(params);
        session.roots_dirty = session.supports_roots_requests;
        session.cached_roots = None;
        session.initialized = true;
        return Ok(
            RequestAction::Reply(initialize_reply(session.supports_resource_subscriptions, version)),
        );
    }
    if str_eq(method, "ping") {
        return reply_object(Vec::new());
    }
    if str_eq(method, "completion/complete") {
        return Ok(RequestAction::Complete);
    }
    if str_eq(method, "prompts/list") {
        let defs = prompt_definitions();
        return Ok(RequestAction::Reply(list_of("prompts", defs)));
    }
    if str_eq(method, "prompts/get") {
        let reply = match params {
            Some(j) => get_prompt(j),
            None => get_prompt(&Json::Null),
        };
        return match reply {
            Ok(j) => Ok(RequestAction::Reply(j)),
            Err(e) => Err(e),
        };
    }
    if str_eq(method, "tools/list") {
        let tools = tool_definitions(session.ui_enabled, session.supports_roots_requests);
        return Ok(RequestAction::Reply(list_of("tools", tools)));
    }
    if str_eq(method, "tools/call") {
        match param_str(params, "name") {
            Some(n) => {
                if str_eq(n, "zocli.roots.list") {
                    return unsupported(
                        "zocli.roots.list requires stdio transport with client roots capability",
                    );
                }
            },
            None => {},
        }
        return Ok(RequestAction::CallTool);
    }
    if str_eq(method, "resources/list") {
        let defs = resource_definitions(session.ui_enabled);
        return Ok(RequestAction::Reply(list_of("resources", defs)));
    }
    if str_eq(method, "resources/templates/list") {
        let defs = resource_templates(session.ui_enabled);
        return Ok(RequestAction::Reply(list_of("resourceTemplates", defs)));
    }
    if str_eq(method, "resources/subscribe") {
        if !session.supports_resource_subscriptions {
            return unsupported("resource subscriptions are not available on this transport");
        }
        let uri = match param_str(params, "uri") {
            Some(u) => u,
            None => {
                return invalid("resources/subscribe requires `uri`");
            },
        };
        return match check_subscribable_uri(uri) {
            Ok(()) => Ok(RequestAction::Subscribe(String::from_str(uri))),
            Err(e) => Err(e),
        };
    }
    if str_eq(method, "resources/unsubscribe") {
        if !session.supports_resource_subscriptions {
            return unsupported("resource subscriptions are not available on this transport");
        }
        let uri = match param_str(params, "uri") {
            Some(u) => u,
            None => {
                return invalid("resources/unsubscribe requires `uri`");
            },
        };
        remove_subscription(&mut session.resource_subscriptions, uri);
        return Ok(RequestAction::Unsubscribed(String::from_str(uri)));
    }
    if str_eq(method, "resources/read") {
        return match param_str(params, "uri") {
            Some(u) => Ok(RequestAction::ReadResource(String::from_str(u))),
            None => invalid("resources/read requires `uri`"),
        };
    }
    if str_eq(method, "ui/initialize") {
        session.ui_initialized = true;
        return Ok(RequestAction::Reply(ui_initialize_reply(version)));
    }
    let app_method = str_eq(method, "ui/update-model-context") || str_eq(method, "ui/message")
        || str_eq(method, "ui/request-display-mode") || str_eq(method, "ui/open-link") || str_eq(
        method,
        "ui/resource-teardown",
    );
    if app_method && !session.ui_initialized {
        return unsupported("ui/initialize must be called before other ui/* methods");
    }
    if str_eq(method, "ui/update-model-context") || str_eq(method, "ui/message") || str_eq(
        method,
        "ui/open-link",
    ) {
        return accepted();
    }
    if str_eq(method, "ui/request-display-mode") {
        let mode = match param_str(params, "mode") {
            Some(m) => {
                if str_eq(m, "inline") || str_eq(m, "floating") || str_eq(m, "full-window") {
                    m
                } else {
                    "inline"
                }
            },
            None => "inline",
        };
        let mut ms: Vec<(String, Json)> = Vec::new();
        ms.push(text_member("mode", mode));
        return Ok(RequestAction::Reply(object(ms)));
    }
    if str_eq(method, "ui/resource-teardown") {
        session.ui_active_resource = None;
        session.ui_initialized = false;
        return accepted();
    }
    Err(ZocliError::UnsupportedOperation(cat("unsupported MCP method: ", method)))
}

/// How a `zocli.roots.list` call starts.
#[derive(Debug)]
pub enum RootsStart {
    /// The cached roots are current: answer with them.
    UseCache,
    /// Ask the client with this request (its id already taken from the session).
    Ask { request_id: u64, request: Json },
}

/// `{"jsonrpc": "2.0", "id": id, "method": "roots/list"}`.
pub open spec fn roots_request_is(j: Json, id: u64) -> bool {
    is_object(j, 3) && text_at(j, 0, "jsonrpc"@, "2.0"@) && key_at(j, 1, "id"@) && (val_at(j, 1)
        matches Json::Number(t) && t@ == decimal(id as nat)) && text_at(j, 2, "method"@, "roots/list"@)
}

/// The start of a roots call: refused without the client's roots capability; the cache when
/// it is filled and not stale; else a new request, whose id the session then counts past.
pub fn begin_roots_request(session: &mut SessionState) -> (r: Result<RootsStart, ZocliError>)
    requires
        old(session).next_outbound_request_id < u64::MAX,
    ensures
        !old(session).supports_roots_requests ==> (r matches Err(ZocliError::UnsupportedOperation(m))
            && m@ == "zocli.roots.list requires stdio transport with client roots capability"@
            && *final(session) == *old(session)),
        old(session).supports_roots_requests && old(session).cached_roots is Some && !old(
            session,
        ).roots_dirty ==> (r matches Ok(RootsStart::UseCache) && *final(session) == *old(session)),
        old(session).supports_roots_requests && !(old(session).cached_roots is Some && !old(
            session,
        ).roots_dirty) ==> (r matches Ok(RootsStart::Ask { request_id: id, request: j }) && id
            == old(session).next_outbound_request_id && roots_request_is(j, id) && *final(session)
            == SessionState { next_outbound_request_id: (id + 1) as u64, ..*old(session) }),
{
    if !session.supports_roots_requests {
        return Err(
            ZocliError::UnsupportedOperation(
                String::from_str("zocli.roots.list requires stdio transport with client roots capability"),
            ),
        );
    }
    if session.cached_roots.is_some() && !session.roots_dirty {
        return Ok(RootsStart::UseCache);
    }
    let id = session.next_outbound_request_id;
    session.next_outbound_request_id = id + 1;
    let mut ms: Vec<(String, Json)> = Vec::new();
    ms.push(text_member("jsonrpc", "2.0"));
    ms.push(member_of("id", Json::Number(crate::text::u64_to_string(id))));
    ms.push(text_member("method", "roots/list"));
    Ok(RootsStart::Ask { request_id: id, request: object(ms) })
}

/// How a roots call over HTTP starts once its session is found.
#[derive(Debug)]
pub enum HttpRootsStart {
    /// Answer with this HTTP status and message.
    Refuse { status: u16, message: String },
    /// Answer at once with this JSON-RPC payload.
    Reply(Json),
    /// Send the client this request over the event stream and wait for its answer.
    Ask { request_id: u64, request: Json },
}

/// A roots call over HTTP answers on an event stream, so the client must accept one (406).
pub fn http_roots_accepts(accept: Option<&str>) -> (r: Result<(), (u16, String)>)
    ensures
        (match accept {
            Some(a) => crate::text::has_infix(a@, "text/event-stream"@),
            None => false,
        }) ==> r is Ok,
        !(match accept {
            Some(a) => crate::text::has_infix(a@, "text/event-stream"@),
            None => false,
        }) ==> (r matches Err((status, m)) && status == 406 && m@
            == "zocli.roots.list over HTTP requires Accept: text/event-stream"@),
{
    match accept {
        Some(a) => {
            if crate::text::contains_str(a, "text/event-stream") {
                return Ok(());
            }
        },
        None => {},
    }
    Err((406, String::from_str("zocli.roots.list over HTTP requires Accept: text/event-stream")))
}

/// The start of a roots call over HTTP: refused (400) before `initialize`; a JSON-RPC error
/// for the call's id without the client's roots capability; else a new `roots/list` request,
/// whose id the session then counts past. The cache is not used over HTTP.
pub fn begin_http_roots_request(session: &mut SessionState, call_id: Json) -> (r: HttpRootsStart)
    requires
        old(session).next_outbound_request_id < u64::MAX,
    ensures
        !old(session).initialized ==> (r matches HttpRootsStart::Refuse { status, message }
            && status == 400 && message@ == "MCP session is not initialized; call initialize first"@
            && *final(session) == *old(session)),
        old(session).initialized && !old(session).supports_roots_requests ==> (r matches HttpRootsStart::Reply(
            j,
        ) && (exists|m: String|
            m@ == "zocli.roots.list requires client roots capability"@ && #[trigger] response_is(
                j,
                call_id,
                Err(ZocliError::UnsupportedOperation(m)),
            )) && *final(session) == *old(session)),
        old(session).initialized && old(session).supports_roots_requests ==> (r matches HttpRootsStart::Ask {
            request_id: id,
            request: j,
        } && id == old(session).next_outbound_request_id && roots_request_is(j, id) && *final(session)
            == SessionState { next_outbound_request_id: (id + 1) as u64, ..*old(session) }),
{
    if !session.initialized {
        return HttpRootsStart::Refuse {
            status: 400,
            message: String::from_str("MCP session is not initialized; call initialize first"),
        };
    }
    if !session.supports_roots_requests {
        let err = ZocliError::UnsupportedOperation(
            String::from_str("zocli.roots.list requires client roots capability"),
        );
        return HttpRootsStart::Reply(jsonrpc_error_payload(call_id, &err));
    }
    let id = session.next_outbound_request_id;
    session.next_outbound_request_id = id + 1;
    let mut ms: Vec<(String, Json)> = Vec::new();
    ms.push(text_member("jsonrpc", "2.0"));
    ms.push(member_of("id", Json::Number(crate::text::u64_to_string(id))));
    ms.push(text_member("method", "roots/list"));
    HttpRootsStart::Ask { request_id: id, request: object(ms) }
}

/// What a message that arrives while the server waits for its roots request is.
#[derive(PartialEq, Eq, Structural, Clone, Copy, Debug)]
pub enum RootsWaitEvent {
    /// The client's answer to the request.
    Answer,
    /// Some other response: ignored.
    OtherResponse,
    /// A notification: handled, then waiting goes on.
    Notification,
    /// A request of the client: answered, then waiting goes on.
    Request,
}

pub open spec fn spec_wait_event(message: Json, request_id: u64) -> RootsWaitEvent {
    if member(message, "method"@) is None {
        if member(message, "id"@) matches Some(Json::Number(t)) && t@ == decimal(request_id as nat) {
            RootsWaitEvent::Answer
        } else {
            RootsWaitEvent::OtherResponse
        }
    } else if member(message, "id"@) is None {
        RootsWaitEvent::Notification
    } else {
        RootsWaitEvent::Request
    }
}

pub fn roots_wait_event(message: &Json, request_id: u64) -> (r: RootsWaitEvent)
    ensures
        r == spec_wait_event(*message, request_id),
{
    if get(message, "method").is_none() {
        let id_text = crate::text::u64_to_string(request_id);
        match get(message, "id") {
            Some(Json::Number(t)) => {
                if str_eq(t.as_str(), id_text.as_str()) {
                    return RootsWaitEvent::Answer;
                }
            },
            _ => {},
        }
        return RootsWaitEvent::OtherResponse;
    }
    if get(message, "id").is_none() {
        RootsWaitEvent::Notification
    } else {
        RootsWaitEvent::Request
    }
}

/// The error a client's error answer to the roots request becomes: its message (or
/// `roots/list failed`), as an unsupported operation when its code is -32601 and a
/// validation error otherwise.
pub open spec fn roots_error_is(error: Json, e: ZocliError) -> bool {
    let msg = match member(error, "message"@) {
        Some(Json::Str(m)) => m@,
        _ => "roots/list failed"@,
    };
    if member(error, "code"@) matches Some(Json::Number(t)) && t@ == "-32601"@ {
        e matches ZocliError::UnsupportedOperation(x) && x@ == msg
    } else {
        e matches ZocliError::Validation(x) && x@ == msg
    }
}

/// The roots a client's answer carries, or the error it reports.
pub fn roots_answer(message: &Json) -> (r: Result<Vec<Json>, ZocliError>)
    ensures
        match member(*message, "error"@) {
            Some(error) => r matches Err(e) && roots_error_is(error, e),
            None => roots_outcome(*message, r),
        },
{
    match get(message, "error") {
        Some(error) => {
            let msg = match get(error, "message") {
                Some(Json::Str(m)) => m.as_str(),
                _ => "roots/list failed",
            };
            let unsupported = match get(error, "code") {
                Some(Json::Number(t)) => str_eq(t.as_str(), "-32601"),
                _ => false,
            };
            if unsupported {
                Err(ZocliError::UnsupportedOperation(String::from_str(msg)))
            } else {
                Err(ZocliError::Validation(String::from_str(msg)))
            }
        },
        None => parse_roots_list_response(message),
    }
}

/// The answer to `zocli.roots.list`: the roots with the schema version as structured
/// content, the same pretty-printed as text, and the app metadata when the app is enabled.
pub open spec fn roots_response_is(roots: Seq<Json>, ui_enabled: bool, j: Json) -> bool {
    &&& j is Object
    &&& fields(j).len() == (if ui_enabled {
        3int
    } else {
        2int
    })
    &&& key_at(j, 0, "structuredContent"@)
    &&& is_object(val_at(j, 0), 2)
    &&& key_at(val_at(j, 0), 0, "roots"@)
    &&& (val_at(val_at(j, 0), 0) matches Json::Array(v) && v@ == roots)
    &&& text_at(val_at(j, 0), 1, "schemaVersion"@, "1.0"@)
    &&& key_at(j, 1, "content"@) && (val_at(j, 1) matches Json::Array(items) && items@.len() == 1
        && is_object(items@[0], 2) && text_at(items@[0], 0, "type"@, "text"@) && text_at(
        items@[0],
        1,
        "text"@,
        json_pretty_text(val_at(j, 0)),
    ))
    &&& (ui_enabled ==> key_at(j, 2, "_meta"@) && meta_is(
        val_at(j, 2),
        spec_tool_surface("zocli.roots.list"@),
        spec_tool_visibility("zocli.roots.list"@),
    ))
}

pub fn roots_tool_response(roots: Vec<Json>, ui_enabled: bool) -> (r: Result<Json, ZocliError>)
    ensures
        r is Ok,
        r matches Ok(j) ==> roots_response_is(roots@, ui_enabled, j),
{
    let mut st: Vec<(String, Json)> = Vec::new();
    st.push(member_of("roots", Json::Array(roots)));
    st.push(text_member("schemaVersion", "1.0"));
    let structured = object(st);
    let text = match to_json_pretty_text(&structured) {
        Ok(t) => t,
        Err(e) => {
            return Err(ZocliError::Serialization(e));
        },
    };
    let mut item: Vec<(String, Json)> = Vec::new();
    item.push(text_member("type", "text"));
    item.push(member_of("text", Json::Str(text)));
    let mut content: Vec<Json> = Vec::new();
    content.push(object(item));
    let mut ms: Vec<(String, Json)> = Vec::new();
    ms.push(member_of("structuredContent", structured));
    ms.push(member_of("content", Json::Array(content)));
    if ui_enabled {
        ms.push(
            member_of(
                "_meta",
                app_meta(tool_surface("zocli.roots.list"), tool_visibility("zocli.roots.list")),
            ),
        );
    }
    Ok(object(ms))
}

} // verus!
