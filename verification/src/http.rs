//! The decisions of the MCP HTTP transport: which origins may call, whether a caller is
//! authorized, what a protected request is answered, and what becomes of a posted payload.
use vstd::prelude::*;
use crate::error::ZocliError;
use crate::json::{
    Json, member, get, is_text, text_json, fields, is_object, key_at, val_at, text_at, bool_at,
    text_member, member_of, object,
};
use crate::text::{
    str_eq, starts_with, has_prefix, cat, cat3, text_views, trim, trim_seq, all_ws,
    is_all_whitespace, seq_lt,
};
use crate::urls::{url_parts, url_host, url_scheme, url_parse_failure, serialize_url, url_serialization, base_of_url, url_base};
use crate::update::{strip_trailing_slashes, trim_slashes};
use crate::tools::{called_tool, spec_tool_scope, tool_scope, needs_http_auth, spec_requires_http_auth};
use crate::session::{is_client_response_message, spec_is_client_response, normalize_messages, message_method};
use crate::error::spec_message;
use crate::versions::{parse_u64, spec_parse_u64};
use crate::prompts::{insert_text, contains_text, text_order};
use crate::calendar::ins;
use crate::oauth::join_with;
use crate::commands::join_strings;

verus! {

broadcast use vstd::string::group_string_axioms;

pub open spec fn origin_refused() -> Seq<char> {
    "origin is not allowed for local MCP HTTP transport"@
}

/// Browsers may call the local server only from a local origin: a request without `Origin`
/// passes; one whose origin's host is `localhost`, `127.0.0.1` or `::1` passes.
pub open spec fn origin_outcome(origin: Option<Seq<char>>, r: Result<(), ZocliError>) -> bool {
    match origin {
        None => r is Ok,
        Some(o) => match url_parse_failure(o) {
            Some(err) => r matches Err(ZocliError::Validation(m)) && m@ == "invalid Origin header `"@
                + o + "`: "@ + err,
            None => match url_host(o) {
                Some(h) => if h == "localhost"@ || h == "127.0.0.1"@ || h == "::1"@ {
                    r is Ok
                } else {
                    r matches Err(ZocliError::Validation(m)) && m@ == origin_refused()
                },
                None => r matches Err(ZocliError::Validation(m)) && m@ == origin_refused(),
            },
        },
    }
}

pub fn request_origin_allowed(origin: Option<&str>) -> (r: Result<(), ZocliError>)
    ensures
        origin_outcome(
            match origin {
                Some(o) => Some(o@),
                None => None,
            },
            r,
        ),
{
    let o = match origin {
        None => {
            return Ok(());
        },
        Some(o) => o,
    };
    let parts = match url_parts(o) {
        Ok(p) => p,
        Err(err) => {
            let mut m = cat3("invalid Origin header `", o, "`: ");
            m.append(err.as_str());
            return Err(ZocliError::Validation(m));
        },
    };
    match &parts.host {
        Some(h) => {
            if str_eq(h.as_str(), "localhost") || str_eq(h.as_str(), "127.0.0.1") || str_eq(
                h.as_str(),
                "::1",
            ) {
                Ok(())
            } else {
                Err(ZocliError::Validation(String::from_str("origin is not allowed for local MCP HTTP transport")))
            }
        },
        None => Err(ZocliError::Validation(String::from_str("origin is not allowed for local MCP HTTP transport"))),
    }
}

/// The bearer token the server expects: the configured value trimmed, unless it is blank.
pub fn configured_bearer_token(value: Option<String>) -> (r: Option<String>)
    ensures
        match value {
            Some(v) => if trim_seq(v@).len() == 0 {
                r is None
            } else {
                r matches Some(t) && t@ == trim_seq(v@)
            },
            None => r is None,
        },
{
    match value {
        Some(v) => {
            let t = trim(v.as_str());
            if t.as_str().is_empty() {
                None
            } else {
                Some(t)
            }
        },
        None => None,
    }
}

/// A caller is authorized when no token is configured, or when its `Authorization` header is
/// `Bearer ` followed by exactly the token.
pub open spec fn spec_authorized(expected: Option<Seq<char>>, authorization: Option<Seq<char>>) -> bool {
    match expected {
        None => true,
        Some(t) => match authorization {
            Some(a) => has_prefix(a, "Bearer "@) && a.subrange(7, a.len() as int) == t,
            None => false,
        },
    }
}

pub fn bearer_authorized(expected: Option<&str>, authorization: Option<&str>) -> (r: bool)
    ensures
        r == spec_authorized(
            match expected {
                Some(t) => Some(t@),
                None => None,
            },
            match authorization {
                Some(a) => Some(a@),
                None => None,
            },
        ),
{
    let t = match expected {
        None => {
            return true;
        },
        Some(t) => t,
    };
    let a = match authorization {
        None => {
            return false;
        },
        Some(a) => a,
    };
    if !starts_with(a, "Bearer ") {
        return false;
    }
    proof {
        reveal_strlit("Bearer ");
    }
    let chars = crate::text::to_chars(a);
    let rest = crate::text::from_char_range(&chars, 7, chars.len());
    str_eq(rest.as_str(), t)
}

/// The scopes a batch needs: those of the tools it calls, each once, in ascending order.
pub open spec fn scopes_of(messages: Seq<Json>, acc: Seq<Seq<char>>) -> Seq<Seq<char>>
    decreases messages.len(),
{
    if messages.len() == 0 {
        acc
    } else {
        let next = match called_tool(messages[0]) {
            Some(n) => match spec_tool_scope(n) {
                Some(s) => if acc.contains(s) {
                    acc
                } else {
                    ins(acc, s, text_order())
                },
                None => acc,
            },
            None => acc,
        };
        scopes_of(messages.drop_first(), next)
    }
}

pub fn required_scopes(messages: &Vec<Json>) -> (r: Vec<String>)
    ensures
        text_views(r@) == scopes_of(messages@, Seq::empty()),
{
    let mut out: Vec<String> = Vec::new();
    let ghost goal = scopes_of(messages@, Seq::empty());
    let mut i: usize = 0;
    assert(messages@.subrange(0, messages@.len() as int) =~= messages@);
    assert(text_views(out@) =~= Seq::<Seq<char>>::empty());
    while i < messages.len()
        invariant
            i <= messages@.len(),
            goal == scopes_of(messages@, Seq::empty()),
            scopes_of(messages@.subrange(i as int, messages@.len() as int), text_views(out@)) == goal,
        decreases messages@.len() - i,
    {
        let ghost rest = messages@.subrange(i as int, messages@.len() as int);
        assert(rest[0] == messages@[i as int]);
        assert(rest.drop_first() =~= messages@.subrange(i + 1, messages@.len() as int));
        match called_tool_of(&messages[i]) {
            Some(n) => match tool_scope(n) {
                Some(s) => {
                    if !contains_text(&out, s) {
                        insert_text(&mut out, String::from_str(s));
                    }
                },
                None => {},
            },
            None => {},
        }
        i = i + 1;
    }
    assert(messages@.subrange(messages@.len() as int, messages@.len() as int).len() == 0);
    out
}

/// The message calls a tool whose scope is `scope`.
pub open spec fn needs_scope(message: Json, scope: Seq<char>) -> bool {
    called_tool(message) matches Some(n) && spec_tool_scope(n) == Some(scope)
}

pub open spec fn scope_needed(messages: Seq<Json>, scope: Seq<char>) -> bool {
    exists|i: int| 0 <= i < messages.len() && #[trigger] needs_scope(messages[i], scope)
}

proof fn lemma_scopes_of(messages: Seq<Json>, acc: Seq<Seq<char>>)
    requires
        crate::session::strictly_ascending(acc),
    ensures
        crate::session::strictly_ascending(scopes_of(messages, acc)),
        forall|x: Seq<char>| #[trigger] scopes_of(messages, acc).contains(x) <==> acc.contains(x)
            || scope_needed(messages, x),
    decreases messages.len(),
{
    if messages.len() == 0 {
        assert forall|x: Seq<char>| #[trigger] scopes_of(messages, acc).contains(x) <==> acc.contains(x)
            || scope_needed(messages, x) by {
            if scope_needed(messages, x) {
                let i = choose|i: int| 0 <= i < messages.len() && #[trigger] needs_scope(messages[i], x);
            }
        }
    } else {
        let m = messages[0];
        let rest = messages.drop_first();
        let next = match called_tool(m) {
            Some(n) => match spec_tool_scope(n) {
                Some(sc) => if acc.contains(sc) {
                    acc
                } else {
                    ins(acc, sc, text_order())
                },
                None => acc,
            },
            None => acc,
        };
        assert(crate::session::strictly_ascending(next) && forall|x: Seq<char>| #[trigger] next.contains(x)
            <==> acc.contains(x) || needs_scope(m, x)) by {
            match called_tool(m) {
                Some(n) => match spec_tool_scope(n) {
                    Some(sc) => {
                        crate::session::law_subscribe_keeps_a_set(acc, sc);
                        let w = crate::session::with_subscription(acc, sc);
                        assert(next == w);
                        assert forall|x: Seq<char>| #[trigger] next.contains(x) <==> acc.contains(x)
                            || needs_scope(m, x) by {
                            assert(needs_scope(m, x) <==> x == sc);
                            assert(w.contains(x) <==> acc.contains(x) || x == sc);
                        }
                    },
                    None => {},
                },
                None => {},
            }
        }
        lemma_scopes_of(rest, next);
        assert forall|x: Seq<char>| #[trigger] scopes_of(messages, acc).contains(x) <==> acc.contains(x)
            || scope_needed(messages, x) by {
            assert(scopes_of(messages, acc) == scopes_of(rest, next));
            if scope_needed(rest, x) {
                let i = choose|i: int| 0 <= i < rest.len() && #[trigger] needs_scope(rest[i], x);
                assert(messages[i + 1] == rest[i]);
                assert(needs_scope(messages[i + 1], x));
            }
            if needs_scope(m, x) {
                assert(needs_scope(messages[0], x));
            }
            if scope_needed(messages, x) {
                let i = choose|i: int| 0 <= i < messages.len() && #[trigger] needs_scope(messages[i], x);
                if i > 0 {
                    assert(rest[i - 1] == messages[i]);
                    assert(needs_scope(rest[i - 1], x));
                }
            }
        }
    }
}

/// The scopes a challenge names come each once, in ascending order, and are exactly those of
/// the tools the batch calls.
pub proof fn law_required_scopes_sorted_and_complete(messages: Seq<Json>)
    ensures
        crate::session::strictly_ascending(scopes_of(messages, Seq::empty())),
        forall|x: Seq<char>| #[trigger] scopes_of(messages, Seq::empty()).contains(x) <==> scope_needed(
            messages,
            x,
        ),
{
    lemma_scopes_of(messages, Seq::empty());
}

fn called_tool_of(message: &Json) -> (r: Option<&str>)
    ensures
        match r {
            Some(n) => called_tool(*message) == Some(n@),
            None => called_tool(*message) is None,
        },
{
    match get(message, "method") {
        Some(Json::Str(m)) => {
            if !str_eq(m.as_str(), "tools/call") {
                return None;
            }
            match get(message, "params") {
                Some(p) => match get(p, "name") {
                    Some(Json::Str(n)) => Some(n.as_str()),
                    _ => None,
                },
                None => None,
            }
        },
        _ => None,
    }
}

/// The MCP endpoint's public URL: the given one, else `http://<listen>/mcp`, normalised and
/// without trailing `/`; it must parse and use `http` or `https`.
pub open spec fn server_url_outcome(listen: Seq<char>, public_url: Option<Seq<char>>, r: Result<String, ZocliError>) -> bool {
    let raw = match public_url {
        Some(u) => u,
        None => "http://"@ + listen + "/mcp"@,
    };
    match url_parse_failure(raw) {
        Some(err) => r matches Err(ZocliError::Config(m)) && m@ == "invalid public MCP URL `"@
            + raw + "`: "@ + err,
        None => if url_scheme(raw) != "http"@ && url_scheme(raw) != "https"@ {
            r matches Err(ZocliError::Config(m)) && m@ == "public MCP URL must use http or https: "@
                + raw
        } else {
            r matches Ok(u) && u@ == strip_trailing_slashes(url_serialization(raw))
        },
    }
}

fn invalid_url_error(raw: &str, err: &str) -> (r: ZocliError)
    ensures
        r matches ZocliError::Config(m) && m@ == "invalid public MCP URL `"@ + raw@ + "`: "@ + err@,
{
    let mut m = cat3("invalid public MCP URL `", raw, "`: ");
    m.append(err);
    ZocliError::Config(m)
}

pub fn canonical_server_url(listen: &str, public_url: Option<&str>) -> (r: Result<String, ZocliError>)
    ensures
        server_url_outcome(
            listen@,
            match public_url {
                Some(u) => Some(u@),
                None => None,
            },
            r,
        ),
{
    let raw = match public_url {
        Some(u) => String::from_str(u),
        None => cat3("http://", listen, "/mcp"),
    };
    let parts = match url_parts(raw.as_str()) {
        Ok(p) => p,
        Err(err) => {
            return Err(invalid_url_error(raw.as_str(), err.as_str()));
        },
    };
    if !str_eq(parts.scheme.as_str(), "http") && !str_eq(parts.scheme.as_str(), "https") {
        return Err(ZocliError::Config(cat("public MCP URL must use http or https: ", raw.as_str())));
    }
    match serialize_url(raw.as_str()) {
        Ok(t) => Ok(trim_slashes(t.as_str())),
        Err(err) => Err(invalid_url_error(raw.as_str(), err.as_str())),
    }
}

/// The origin of the endpoint's URL: its path, query and fragment removed, no trailing `/`.
pub fn canonical_base_url(server_url: &str) -> (r: Result<String, ZocliError>)
    ensures
        match url_parse_failure(server_url@) {
            Some(err) => r matches Err(ZocliError::Config(m)) && m@ == "invalid public MCP URL `"@
                + server_url@ + "`: "@ + err,
            None => r matches Ok(u) && u@ == strip_trailing_slashes(url_base(server_url@)),
        },
{
    match base_of_url(server_url) {
        Ok(t) => Ok(trim_slashes(t.as_str())),
        Err(err) => Err(invalid_url_error(server_url, err.as_str())),
    }
}

/// Where clients learn how to authenticate to the HTTP endpoint.
#[derive(Debug)]
pub struct HttpAuthDiscovery {
    pub authorization_servers: Vec<String>,
    pub canonical_server_url: String,
    pub protected_resource_metadata_url: String,
}

/// Discovery is offered only when a bearer token is configured and the issuer setting is not
/// blank; its URLs come from the endpoint's public URL.
pub open spec fn discovery_outcome(
    listen: Seq<char>,
    public_url: Option<Seq<char>>,
    token_configured: bool,
    issuer: Option<Seq<char>>,
    r: Result<Option<HttpAuthDiscovery>, ZocliError>,
) -> bool {
    if !token_configured {
        r matches Ok(None)
    } else {
        match issuer {
            None => r matches Ok(None),
            Some(i) => if trim_seq(i).len() == 0 {
                r matches Ok(None)
            } else {
                match r {
                    Ok(Some(d)) => text_views(d.authorization_servers@) == seq![trim_seq(i)]
                        && server_url_outcome(listen, public_url, Ok(d.canonical_server_url))
                        && d.protected_resource_metadata_url@ == strip_trailing_slashes(
                        url_base(d.canonical_server_url@),
                    ) + "/.well-known/oauth-protected-resource/mcp"@,
                    Ok(None) => false,
                    Err(e) => {
                        ||| server_url_outcome(listen, public_url, Err(e))
                        ||| exists|u: String|
                            server_url_outcome(listen, public_url, Ok(u)) && (url_parse_failure(u@)
                                matches Some(err) && (e matches ZocliError::Config(m) && m@
                                == "invalid public MCP URL `"@ + u@ + "`: "@ + err))
                    },
                }
            },
        }
    }
}

pub fn auth_discovery(
    listen: &str,
    public_url: Option<&str>,
    token_configured: bool,
    issuer: Option<String>,
) -> (r: Result<Option<HttpAuthDiscovery>, ZocliError>)
    ensures
        discovery_outcome(
            listen@,
            match public_url {
                Some(u) => Some(u@),
                None => None,
            },
            token_configured,
            match issuer {
                Some(i) => Some(i@),
                None => None,
            },
            r,
        ),
{
    if !token_configured {
        return Ok(None);
    }
    let server = match configured_bearer_token(issuer) {
        Some(s) => s,
        None => {
            return Ok(None);
        },
    };
    let url = canonical_server_url(listen, public_url)?;
    let base = match canonical_base_url(url.as_str()) {
        Ok(b) => b,
        Err(e) => {
            return Err(e);
        },
    };
    let metadata = cat(base.as_str(), "/.well-known/oauth-protected-resource/mcp");
    let mut servers: Vec<String> = Vec::new();
    servers.push(server);
    assert(text_views(servers@) =~= seq![servers@[0]@]);
    Ok(Some(HttpAuthDiscovery {
        authorization_servers: servers,
        canonical_server_url: url,
        protected_resource_metadata_url: metadata,
    }))
}

/// `{"ok": false, "error": message}`.
pub fn http_error_payload(message: &str) -> (r: Json)
    ensures
        is_object(r, 2),
        bool_at(r, 0, "ok"@, false),
        text_at(r, 1, "error"@, message@),
{
    let mut ms: Vec<(String, Json)> = Vec::new();
    ms.push(member_of("ok", Json::Bool(false)));
    ms.push(text_member("error", message));
    object(ms)
}

/// The answer to a protected request without the right bearer token: the JSON payload and
/// the `WWW-Authenticate` challenge, both naming the metadata URL when discovery is offered
/// and the scopes when there are any.
pub open spec fn challenge_text(metadata: Option<Seq<char>>, scopes: Seq<Seq<char>>) -> Seq<char> {
    "Bearer error=\"invalid_token\""@ + (match metadata {
        Some(m) => ", resource_metadata=\""@ + m + "\""@,
        None => Seq::empty(),
    }) + (if scopes.len() > 0 {
        ", scope=\""@ + join_with(scopes, " "@) + "\""@
    } else {
        Seq::empty()
    })
}

pub open spec fn unauthorized_payload_is(j: Json, metadata: Option<Seq<char>>, scopes: Seq<Seq<char>>) -> bool {
    &&& j is Object
    &&& bool_at(j, 0, "ok"@, false)
    &&& text_at(j, 1, "error"@, "invalid_token"@)
    &&& text_at(j, 2, "error_description"@, "protected MCP tool requires Authorization: Bearer"@)
    &&& fields(j).len() == 3 + (if metadata is Some {
        1int
    } else {
        0int
    }) + (if scopes.len() > 0 {
        1int
    } else {
        0int
    })
    &&& (metadata matches Some(m) ==> text_at(j, 3, "resource_metadata"@, m))
    &&& (scopes.len() > 0 ==> text_at(
        j,
        fields(j).len() - 1,
        "scope"@,
        join_with(scopes, " "@),
    ))
}

pub fn unauthorized_response(scopes: &Vec<String>, metadata_url: Option<&str>) -> (r: (Json, String))
    ensures
        unauthorized_payload_is(
            r.0,
            match metadata_url {
                Some(m) => Some(m@),
                None => None,
            },
            text_views(scopes@),
        ),
        r.1@ == challenge_text(
            match metadata_url {
                Some(m) => Some(m@),
                None => None,
            },
            text_views(scopes@),
        ),
{
    let mut ms: Vec<(String, Json)> = Vec::new();
    ms.push(member_of("ok", Json::Bool(false)));
    ms.push(text_member("error", "invalid_token"));
    ms.push(text_member("error_description", "protected MCP tool requires Authorization: Bearer"));
    let mut challenge = String::from_str("Bearer error=\"invalid_token\"");
    match metadata_url {
        Some(m) => {
            ms.push(text_member("resource_metadata", m));
            challenge.append(", resource_metadata=\"");
            challenge.append(m);
            challenge.append("\"");
        },
        None => {},
    }
    if scopes.len() > 0 {
        let joined = join_strings(scopes, " ");
        ms.push(text_member("scope", joined.as_str()));
        challenge.append(", scope=\"");
        challenge.append(joined.as_str());
        challenge.append("\"");
    }
    (object(ms), challenge)
}

/// The protected-resource metadata of the endpoint.
pub open spec fn metadata_is(j: Json, d: HttpAuthDiscovery) -> bool {
    &&& is_object(j, 4)
    &&& text_at(j, 0, "resource"@, d.canonical_server_url@)
    &&& key_at(j, 1, "authorization_servers"@) && crate::prompts::is_text_list(
        val_at(j, 1),
        text_views(d.authorization_servers@),
    )
    &&& key_at(j, 2, "scopes_supported"@) && crate::prompts::is_text_list(
        val_at(j, 2),
        seq![
            "zocli.auth.read"@,
            "zocli.mail.read"@,
            "zocli.mail.write"@,
            "zocli.calendar.read"@,
            "zocli.calendar.write"@,
            "zocli.drive.read"@,
            "zocli.drive.write"@,
        ],
    )
    &&& key_at(j, 3, "bearer_methods_supported"@) && crate::prompts::is_text_list(
        val_at(j, 3),
        seq!["header"@],
    )
}

fn texts_json(v: &Vec<String>) -> (r: Json)
    ensures
        crate::prompts::is_text_list(r, text_views(v@)),
{
    let mut out: Vec<Json> = Vec::new();
    let mut i: usize = 0;
    while i < v.len()
        invariant
            i <= v@.len(),
            out@.len() == i,
            forall|j: int| 0 <= j < i ==> is_text(#[trigger] out@[j], v@[j]@),
        decreases v@.len() - i,
    {
        out.push(text_json(v[i].as_str()));
        i = i + 1;
    }
    Json::Array(out)
}

pub fn protected_resource_metadata(d: &HttpAuthDiscovery) -> (r: Json)
    ensures
        metadata_is(r, *d),
{
    let scopes = crate::prompts::strings_of(
        vec![
            "zocli.auth.read",
            "zocli.mail.read",
            "zocli.mail.write",
            "zocli.calendar.read",
            "zocli.calendar.write",
            "zocli.drive.read",
            "zocli.drive.write",
        ],
    );
    let header = crate::prompts::strings_of(vec!["header"]);
    let mut ms: Vec<(String, Json)> = Vec::new();
    ms.push(text_member("resource", d.canonical_server_url.as_str()));
    ms.push(member_of("authorization_servers", texts_json(&d.authorization_servers)));
    ms.push(member_of("scopes_supported", texts_json(&scopes)));
    ms.push(member_of("bearer_methods_supported", texts_json(&header)));
    proof {
        assert(text_views(scopes@) =~= seq![
            "zocli.auth.read"@,
            "zocli.mail.read"@,
            "zocli.mail.write"@,
            "zocli.calendar.read"@,
            "zocli.calendar.write"@,
            "zocli.drive.read"@,
            "zocli.drive.write"@,
        ]);
        assert(text_views(header@) =~= seq!["header"@]);
    }
    object(ms)
}

/// What the app shows of HTTP auth: the discovery when offered, else that it is off.
pub open spec fn app_discovery_is(j: Json, d: Option<HttpAuthDiscovery>) -> bool {
    match d {
        Some(x) => is_object(j, 4) && bool_at(j, 0, "enabled"@, true) && key_at(
            j,
            1,
            "authorizationServers"@,
        ) && crate::prompts::is_text_list(val_at(j, 1), text_views(x.authorization_servers@))
            && text_at(j, 2, "resourceMetadataUrl"@, x.protected_resource_metadata_url@) && text_at(
            j,
            3,
            "serverUrl"@,
            x.canonical_server_url@,
        ),
        None => is_object(j, 1) && bool_at(j, 0, "enabled"@, false),
    }
}

pub fn app_auth_discovery(d: &Option<HttpAuthDiscovery>) -> (r: Json)
    ensures
        app_discovery_is(r, *d),
{
    let mut ms: Vec<(String, Json)> = Vec::new();
    match d {
        Some(x) => {
            ms.push(member_of("enabled", Json::Bool(true)));
            ms.push(member_of("authorizationServers", texts_json(&x.authorization_servers)));
            ms.push(text_member("resourceMetadataUrl", x.protected_resource_metadata_url.as_str()));
            ms.push(text_member("serverUrl", x.canonical_server_url.as_str()));
        },
        None => {
            ms.push(member_of("enabled", Json::Bool(false)));
        },
    }
    object(ms)
}

/// What becomes of a payload posted to the MCP endpoint.
#[derive(Debug)]
pub enum HttpPostPlan {
    /// Answer with this HTTP status and error message (and the session id when known).
    Refuse { status: u16, message: String, session_id: Option<String> },
    /// The payload holds the client's responses to the server's own requests.
    ClientResponses(Vec<Json>),
    /// A protected tool is called without authorization; these scopes are needed.
    Unauthorized(Vec<String>),
    /// A call of `zocli.roots.list`, alone in its payload.
    RootsCall { session_id: String, message: Json },
    /// Run the messages in the session; None asks for a new session (for `initialize`).
    Execute { session_id: Option<String>, messages: Vec<Json> },
}

pub open spec fn refuses(p: HttpPostPlan, status: u16, m: Seq<char>, session: Option<Seq<char>>) -> bool {
    p matches HttpPostPlan::Refuse { status: s, message: x, session_id: sid } && s == status && x@
        == m && match session {
        Some(v) => sid matches Some(y) && y@ == v,
        None => sid is None,
    }
}

pub open spec fn any_response(ms: Seq<Json>) -> bool {
    exists|i: int| 0 <= i < ms.len() && spec_is_client_response(#[trigger] ms[i])
}

pub open spec fn all_responses(ms: Seq<Json>) -> bool {
    forall|i: int| 0 <= i < ms.len() ==> spec_is_client_response(#[trigger] ms[i])
}

pub open spec fn any_protected(ms: Seq<Json>) -> bool {
    exists|i: int|
        0 <= i < ms.len() && (called_tool(#[trigger] ms[i]) matches Some(n) && spec_requires_http_auth(n))
}

/// The plan for the messages of a well-formed batch (origin and batch already checked).
pub open spec fn batch_plan_is(
    ms: Seq<Json>,
    authorized: bool,
    header: Option<Seq<char>>,
    p: HttpPostPlan,
) -> bool {
    if any_response(ms) {
        if !all_responses(ms) {
            refuses(
                p,
                400,
                "JSON-RPC responses cannot be mixed with requests in the same HTTP payload"@,
                None,
            )
        } else {
            p matches HttpPostPlan::ClientResponses(v) && v@ == ms
        }
    } else if any_protected(ms) && !authorized {
        p matches HttpPostPlan::Unauthorized(sc) && text_views(sc@) == scopes_of(ms, Seq::empty())
    } else {
        match member(ms[0], "method"@) {
            Some(Json::Str(m)) => if m@ == "initialize"@ {
                p matches HttpPostPlan::Execute { session_id: sid, messages: v } && v@ == ms
                    && match header {
                    Some(h) => sid matches Some(x) && x@ == h,
                    None => sid is None,
                }
            } else {
                match header {
                    None => refuses(p, 400, "missing Mcp-Session-Id header; call initialize first"@, None),
                    Some(h) => if called_tool(ms[0]) == Some("zocli.roots.list"@) {
                        if ms.len() != 1 {
                            refuses(
                                p,
                                400,
                                "zocli.roots.list must be called as a single JSON-RPC request over HTTP"@,
                                Some(h),
                            )
                        } else {
                            p matches HttpPostPlan::RootsCall { session_id: x, message: msg } && x@
                                == h && msg == ms[0]
                        }
                    } else {
                        p matches HttpPostPlan::Execute { session_id: sid, messages: v } && v@ == ms
                            && (sid matches Some(x) && x@ == h)
                    },
                }
            },
            _ => refuses(p, 400, "missing JSON-RPC method"@, None),
        }
    }
}

/// The plan for a posted payload: a refused origin is 403, a malformed batch 400, and a
/// well-formed batch goes as `batch_plan_is` says.
pub open spec fn post_plan_is(
    origin: Option<Seq<char>>,
    payload: Json,
    authorized: bool,
    header: Option<Seq<char>>,
    p: HttpPostPlan,
) -> bool {
    if exists|e: ZocliError| origin_outcome(origin, Err(e)) {
        exists|e: ZocliError| origin_outcome(origin, Err(e)) && refuses(p, 403, spec_message(e), None)
    } else {
        match payload {
            Json::Array(v) => if v@.len() == 0 {
                refuses(
                    p,
                    400,
                    "Validation error: "@ + "JSON-RPC batch payload must not be empty"@,
                    None,
                )
            } else {
                batch_plan_is(v@, authorized, header, p)
            },
            _ => batch_plan_is(seq![payload], authorized, header, p),
        }
    }
}

fn refuse(status: u16, message: String, session_id: Option<String>) -> (r: HttpPostPlan)
    ensures
        r matches HttpPostPlan::Refuse { status: s, message: x, session_id: sid } && s == status
            && x == message && sid == session_id,
{
    HttpPostPlan::Refuse { status, message, session_id }
}

fn has_client_response(ms: &Vec<Json>) -> (r: bool)
    ensures
        r == any_response(ms@),
{
    let mut i: usize = 0;
    while i < ms.len()
        invariant
            i <= ms@.len(),
            forall|j: int| 0 <= j < i ==> !spec_is_client_response(#[trigger] ms@[j]),
        decreases ms@.len() - i,
    {
        if is_client_response_message(&ms[i]) {
            return true;
        }
        i = i + 1;
    }
    false
}

fn all_client_responses(ms: &Vec<Json>) -> (r: bool)
    ensures
        r == all_responses(ms@),
{
    let mut i: usize = 0;
    while i < ms.len()
        invariant
            i <= ms@.len(),
            forall|j: int| 0 <= j < i ==> spec_is_client_response(#[trigger] ms@[j]),
        decreases ms@.len() - i,
    {
        if !is_client_response_message(&ms[i]) {
            return false;
        }
        i = i + 1;
    }
    true
}

/// Decides what becomes of the messages of a well-formed batch.
pub fn plan_batch(messages: Vec<Json>, authorized: bool, session_header: Option<String>) -> (r: HttpPostPlan)
    requires
        messages@.len() > 0,
    ensures
        batch_plan_is(
            messages@,
            authorized,
            match session_header {
                Some(h) => Some(h@),
                None => None,
            },
            r,
        ),
{
    if has_client_response(&messages) {
        if !all_client_responses(&messages) {
            return refuse(
                400,
                String::from_str("JSON-RPC responses cannot be mixed with requests in the same HTTP payload"),
                None,
            );
        }
        return HttpPostPlan::ClientResponses(messages);
    }
    if needs_http_auth(&messages) && !authorized {
        return HttpPostPlan::Unauthorized(required_scopes(&messages));
    }
    let is_initialize = match get(&messages[0], "method") {
        Some(Json::Str(m)) => str_eq(m.as_str(), "initialize"),
        _ => {
            return refuse(400, String::from_str("missing JSON-RPC method"), None);
        },
    };
    if is_initialize {
        return HttpPostPlan::Execute { session_id: session_header, messages };
    }
    let session_id = match session_header {
        Some(h) => h,
        None => {
            return refuse(
                400,
                String::from_str("missing Mcp-Session-Id header; call initialize first"),
                None,
            );
        },
    };
    let roots_call = match called_tool_of(&messages[0]) {
        Some(n) => str_eq(n, "zocli.roots.list"),
        None => false,
    };
    if roots_call {
        if messages.len() != 1 {
            return refuse(
                400,
                String::from_str("zocli.roots.list must be called as a single JSON-RPC request over HTTP"),
                Some(session_id),
            );
        }
        let mut messages = messages;
        let message = messages.remove(0);
        return HttpPostPlan::RootsCall { session_id, message };
    }
    HttpPostPlan::Execute { session_id: Some(session_id), messages }
}

/// Decides what becomes of a posted payload.
pub fn plan_http_post(
    origin: Option<&str>,
    payload: Json,
    authorized: bool,
    session_header: Option<String>,
) -> (r: HttpPostPlan)
    ensures
        post_plan_is(
            match origin {
                Some(o) => Some(o@),
                None => None,
            },
            payload,
            authorized,
            match session_header {
                Some(h) => Some(h@),
                None => None,
            },
            r,
        ),
{
    let ghost o = match origin {
        Some(o) => Some(o@),
        None => None,
    };
    match request_origin_allowed(origin) {
        Err(e) => {
            let m = e.message();
            return refuse(403, m, None);
        },
        Ok(()) => {
            proof {
                if exists|e: ZocliError| origin_outcome(o, Err(e)) {
                    let e = choose|e: ZocliError| origin_outcome(o, Err(e));
                    assert(origin_outcome(o, Err(e)));
                    assert(false);
                }
            }
        },
    }
    let ghost p0 = payload;
    let messages = match normalize_messages(payload) {
        Ok(m) => m,
        Err(e) => {
            let m = e.message();
            return refuse(400, m, None);
        },
    };
    proof {
        match p0 {
            Json::Array(v) => {
                assert(v@.len() > 0);
            },
            _ => {},
        }
    }
    plan_batch(messages, authorized, session_header)
}

/// The body of the answer to a posted batch: nothing when no message needed an answer, the
/// one response alone, or all of them in an array.
pub fn http_post_payload(responses: Vec<Json>) -> (r: Option<Json>)
    ensures
        responses@.len() == 0 ==> r is None,
        responses@.len() == 1 ==> r == Some(responses@[0]),
        responses@.len() > 1 ==> (r matches Some(Json::Array(v)) && v@ == responses@),
{
    if responses.len() == 0 {
        None
    } else if responses.len() == 1 {
        let mut responses = responses;
        Some(responses.remove(0))
    } else {
        Some(Json::Array(responses))
    }
}

/// The request id of a client's response, when it is a non-negative integer.
pub fn client_response_id(message: &Json) -> (r: Option<u64>)
    ensures
        r == (match member(*message, "id"@) {
            Some(Json::Number(t)) => spec_parse_u64(t@),
            _ => None,
        }),
{
    match get(message, "id") {
        Some(Json::Number(t)) => parse_u64(t.as_str()),
        _ => None,
    }
}

/// What a GET (the event stream) or DELETE request needs before the session is consulted:
/// an allowed origin (403), a session header (400), and for GET an `Accept` naming
/// `text/event-stream` (406). The session id on success.
pub open spec fn stream_plan_is(
    origin: Option<Seq<char>>,
    header: Option<Seq<char>>,
    accept: Option<Option<Seq<char>>>,
    r: Result<String, (u16, String)>,
) -> bool {
    if exists|e: ZocliError| origin_outcome(origin, Err(e)) {
        exists|e: ZocliError| origin_outcome(origin, Err(e)) && (r matches Err((s, m)) && s == 403
            && m@ == spec_message(e))
    } else {
        match header {
            None => r matches Err((s, m)) && s == 400 && m@
                == "missing Mcp-Session-Id header; call initialize first"@,
            Some(h) => match accept {
                Some(a) => if !crate::text::has_infix(
                    match a {
                        Some(x) => x,
                        None => Seq::empty(),
                    },
                    "text/event-stream"@,
                ) {
                    r matches Err((s, m)) && s == 406 && m@
                        == "SSE stream requires Accept: text/event-stream"@
                } else {
                    r matches Ok(x) && x@ == h
                },
                None => r matches Ok(x) && x@ == h,
            },
        }
    }
}

/// The checks before a GET (`accept` is `Some` with the `Accept` header) or DELETE
/// (`accept` is `None`).
pub fn plan_stream_request(
    origin: Option<&str>,
    session_header: Option<String>,
    accept: Option<Option<&str>>,
) -> (r: Result<String, (u16, String)>)
    ensures
        stream_plan_is(
            match origin {
                Some(o) => Some(o@),
                None => None,
            },
            match session_header {
                Some(h) => Some(h@),
                None => None,
            },
            match accept {
                Some(Some(a)) => Some(Some(a@)),
                Some(None) => Some(None),
                None => None,
            },
            r,
        ),
{
    let ghost o = match origin {
        Some(o) => Some(o@),
        None => None,
    };
    match request_origin_allowed(origin) {
        Err(e) => {
            return Err((403, e.message()));
        },
        Ok(()) => {
            proof {
                if exists|e: ZocliError| origin_outcome(o, Err(e)) {
                    let e = choose|e: ZocliError| origin_outcome(o, Err(e));
                    assert(origin_outcome(o, Err(e)));
                    assert(false);
                }
            }
        },
    }
    let session_id = match session_header {
        Some(h) => h,
        None => {
            return Err((400, String::from_str("missing Mcp-Session-Id header; call initialize first")));
        },
    };
    match accept {
        Some(a) => {
            let text = match a {
                Some(x) => x,
                None => {
                    proof {
                        reveal_strlit("");
                    }
                    ""
                },
            };
            let ghost av = match a {
                Some(x) => x@,
                None => Seq::<char>::empty(),
            };
            assert(text@ == av);
            if !crate::text::contains_str(text, "text/event-stream") {
                assert(!crate::text::has_infix(av, "text/event-stream"@));
                return Err((406, String::from_str("SSE stream requires Accept: text/event-stream")));
            }
            Ok(session_id)
        },
        None => Ok(session_id),
    }
}

} // verus!
