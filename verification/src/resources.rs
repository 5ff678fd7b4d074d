//! MCP resource addresses: the app surfaces under `ui://zocli/...` with the state their query
//! asks for, and the templated `resource://zocli/...` addresses.
use vstd::prelude::*;
use crate::error::ZocliError;
use crate::prompts::{is_prompt_name, spec_prompt_names};
use crate::text::{
    all_ws, cat, cat3, is_all_whitespace, str_eq, starts_with, has_prefix, to_chars,
    from_char_range, text_views,
};
use crate::json::{
    Json, is_text, text_json, fields, is_object, key_at, val_at, text_at, bool_at, text_member,
    member_of, object, to_json_pretty_text, json_pretty_text,
};
use crate::skills::{
    spec_skills, skill_names, skill_prompt_name, spec_skill_prompt, skill_description,
    description_outcome, spec_skill_content, skill_content,
};
use crate::urls::{
    UrlParts, UrlPartsView, url_parts, url_parse_failure, url_scheme, url_host, url_path,
    url_query_pairs, path_segments, url_path_segments,
};

verus! {

broadcast use vstd::string::group_string_axioms;

/// What an app surface opens on: the account, section, resource, tool, skill and prompt its
/// address asks for.
#[derive(Debug)]
pub struct DashboardResourceState {
    pub default_account: Option<String>,
    pub preferred_section: Option<String>,
    pub preferred_resource: Option<String>,
    pub preferred_tool: Option<String>,
    pub preferred_skill: Option<String>,
    pub preferred_prompt: Option<String>,
}

pub struct DashboardView {
    pub account: Option<Seq<char>>,
    pub section: Option<Seq<char>>,
    pub resource: Option<Seq<char>>,
    pub tool: Option<Seq<char>>,
    pub skill: Option<Seq<char>>,
    pub prompt: Option<Seq<char>>,
}

pub open spec fn ov(o: Option<String>) -> Option<Seq<char>> {
    match o {
        Some(s) => Some(s@),
        None => None,
    }
}

impl View for DashboardResourceState {
    type V = DashboardView;

    open spec fn view(&self) -> DashboardView {
        DashboardView {
            account: ov(self.default_account),
            section: ov(self.preferred_section),
            resource: ov(self.preferred_resource),
            tool: ov(self.preferred_tool),
            skill: ov(self.preferred_skill),
            prompt: ov(self.preferred_prompt),
        }
    }
}

/// Why an address is refused: a validation error, or an unknown resource.
pub enum Refusal {
    Invalid(Seq<char>),
    Unknown(Seq<char>),
}

pub open spec fn refused_as(e: ZocliError, f: Refusal) -> bool {
    match f {
        Refusal::Invalid(m) => e matches ZocliError::Validation(x) && x@ == m,
        Refusal::Unknown(m) => e matches ZocliError::UnsupportedOperation(x) && x@ == m,
    }
}

/// The outcome `r` is the state `v` or the refusal `f` that the spec gives.
pub open spec fn outcome_is(
    r: Result<DashboardResourceState, ZocliError>,
    s: Result<DashboardView, Refusal>,
) -> bool {
    match s {
        Ok(v) => r matches Ok(st) && st@ == v,
        Err(f) => r matches Err(e) && refused_as(e, f),
    }
}

pub open spec fn unknown_resource(uri: Seq<char>) -> Refusal {
    Refusal::Unknown("unknown MCP resource: "@ + uri)
}

pub open spec fn query_msg(key: Seq<char>, tail: Seq<char>) -> Seq<char> {
    "dashboard resource query `"@ + key + "` "@ + tail
}

pub open spec fn dup_tail() -> Seq<char> {
    "cannot appear more than once"@
}

pub open spec fn empty_tail() -> Seq<char> {
    "cannot be empty"@
}

pub open spec fn is_section(v: Seq<char>) -> bool {
    v == "tools"@ || v == "prompts"@ || v == "resources"@ || v == "auth"@
}

pub open spec fn is_resource(v: Seq<char>) -> bool {
    v == "account"@ || v == "auth"@ || v == "skills"@ || v == "skill"@
}

pub open spec fn is_dashboard_tool(v: Seq<char>) -> bool {
    v == "zocli.app.snapshot"@ || v == "zocli.account.list"@ || v == "zocli.account.current"@ || v
        == "zocli.auth.status"@
}

/// A value that must be one of a set and appear once: set it, or refuse it.
pub open spec fn choose_once(
    cur: Option<Seq<char>>,
    key: Seq<char>,
    value: Seq<char>,
    allowed: bool,
    not_allowed: Seq<char>,
) -> Result<Option<Seq<char>>, Refusal> {
    if !allowed {
        Err(Refusal::Invalid(query_msg(key, not_allowed)))
    } else if cur is Some {
        Err(Refusal::Invalid(query_msg(key, dup_tail())))
    } else {
        Ok(Some(value))
    }
}

/// A free value that must not be blank and must appear once.
pub open spec fn text_once(cur: Option<Seq<char>>, key: Seq<char>, value: Seq<char>) -> Result<
    Option<Seq<char>>,
    Refusal,
> {
    choose_once(cur, key, value, !all_ws(value), empty_tail())
}

/// One `key=value` pair of a dashboard address applied to the state read so far.
pub open spec fn dash_step(
    uri: Seq<char>,
    st: DashboardView,
    key: Seq<char>,
    value: Seq<char>,
) -> Result<DashboardView, Refusal> {
    if key == "account"@ {
        match text_once(st.account, key, value) {
            Ok(x) => Ok(DashboardView { account: x, ..st }),
            Err(f) => Err(f),
        }
    } else if key == "section"@ {
        match choose_once(
            st.section,
            key,
            value,
            is_section(value),
            "must be one of: tools, prompts, resources, auth"@,
        ) {
            Ok(x) => Ok(DashboardView { section: x, ..st }),
            Err(f) => Err(f),
        }
    } else if key == "resource"@ {
        match choose_once(
            st.resource,
            key,
            value,
            is_resource(value),
            "must be one of: account, auth, skills, skill"@,
        ) {
            Ok(x) => Ok(DashboardView { resource: x, ..st }),
            Err(f) => Err(f),
        }
    } else if key == "tool"@ {
        match choose_once(
            st.tool,
            key,
            value,
            is_dashboard_tool(value),
            "must be one of: zocli.app.snapshot, zocli.account.list, zocli.account.current, zocli.auth.status"@,
        ) {
            Ok(x) => Ok(DashboardView { tool: x, ..st }),
            Err(f) => Err(f),
        }
    } else if key == "skill"@ {
        match text_once(st.skill, key, value) {
            Ok(x) => Ok(DashboardView { skill: x, ..st }),
            Err(f) => Err(f),
        }
    } else if key == "prompt"@ {
        match choose_once(
            st.prompt,
            key,
            value,
            spec_prompt_names().contains(value),
            "must be one of the embedded MCP prompts"@,
        ) {
            Ok(x) => Ok(DashboardView { prompt: x, ..st }),
            Err(f) => Err(f),
        }
    } else {
        Err(unknown_resource(uri))
    }
}

/// The pairs applied in order, stopping at the first refusal.
pub open spec fn dash_fold(
    uri: Seq<char>,
    pairs: Seq<(Seq<char>, Seq<char>)>,
    st: DashboardView,
) -> Result<DashboardView, Refusal>
    decreases pairs.len(),
{
    if pairs.len() == 0 {
        Ok(st)
    } else {
        match dash_step(uri, st, pairs[0].0, pairs[0].1) {
            Ok(next) => dash_fold(uri, pairs.drop_first(), next),
            Err(f) => Err(f),
        }
    }
}

pub open spec fn empty_view() -> DashboardView {
    DashboardView {
        account: None,
        section: None,
        resource: None,
        tool: None,
        skill: None,
        prompt: None,
    }
}

/// The checks across pairs once all are read: `skill` goes with `resource=skill` and only
/// with it; the section defaults to that of the resource, tool or prompt named; a prompt
/// needs the prompts section.
pub open spec fn dash_finish(st: DashboardView) -> Result<DashboardView, Refusal> {
    if st.resource == Some("skill"@) && st.skill is None {
        Err(Refusal::Invalid(query_msg("skill"@, "is required when `resource=skill`"@)))
    } else if (st.resource == Some("account"@) || st.resource == Some("auth"@) || st.resource
        == Some("skills"@)) && st.skill is Some {
        Err(Refusal::Invalid(query_msg("skill"@, "is only valid when `resource=skill`"@)))
    } else if st.resource is None && st.skill is Some {
        Err(Refusal::Invalid(query_msg("skill"@, "requires `resource=skill`"@)))
    } else {
        let section = if st.section is Some {
            st.section
        } else if st.resource is Some {
            Some("resources"@)
        } else if st.tool is Some {
            Some("tools"@)
        } else if st.prompt is Some {
            Some("prompts"@)
        } else {
            None
        };
        if st.prompt is Some && section != Some("prompts"@) {
            Err(Refusal::Invalid(query_msg("prompt"@, "requires `section=prompts`"@)))
        } else {
            Ok(DashboardView { section, ..st })
        }
    }
}

/// The state a `ui://zocli/dashboard` address asks for, from the parts of its URL.
pub open spec fn spec_dashboard_state(uri: Seq<char>, parts: UrlPartsView) -> Result<
    DashboardView,
    Refusal,
> {
    if parts.scheme != "ui"@ || parts.host != Some("zocli"@) || parts.path != "/dashboard"@ {
        Err(unknown_resource(uri))
    } else {
        match dash_fold(uri, parts.query_pairs, empty_view()) {
            Ok(st) => dash_finish(st),
            Err(f) => Err(f),
        }
    }
}

fn is_one_of4(v: &str, a: &str, b: &str, c: &str, d: &str) -> (r: bool)
    ensures
        r == (v@ == a@ || v@ == b@ || v@ == c@ || v@ == d@),
{
    str_eq(v, a) || str_eq(v, b) || str_eq(v, c) || str_eq(v, d)
}

fn query_error(key: &str, tail: &str) -> (r: ZocliError)
    ensures
        refused_as(r, Refusal::Invalid(query_msg(key@, tail@))),
{
    let mut m = cat3("dashboard resource query `", key, "` ");
    m.append(tail);
    ZocliError::Validation(m)
}

fn unknown_error(uri: &str) -> (r: ZocliError)
    ensures
        refused_as(r, unknown_resource(uri@)),
{
    ZocliError::UnsupportedOperation(cat("unknown MCP resource: ", uri))
}

fn copy(s: &str) -> (r: String)
    ensures
        r@ == s@,
{
    String::from_str(s)
}

/// Applies one pair to the state, as `dash_step` says.
fn apply_dash_pair(uri: &str, st: &mut DashboardResourceState, key: &str, value: &str) -> (r:
    Result<(), ZocliError>)
    ensures
        match dash_step(uri@, old(st)@, key@, value@) {
            Ok(next) => r is Ok && final(st)@ == next,
            Err(f) => r matches Err(e) && refused_as(e, f),
        },
{
    proof {
        reveal_strlit("account");
        reveal_strlit("section");
        reveal_strlit("resource");
        reveal_strlit("tool");
        reveal_strlit("skill");
        reveal_strlit("prompt");
    }
    if str_eq(key, "account") {
        if is_all_whitespace(value) {
            return Err(query_error(key, "cannot be empty"));
        }
        if st.default_account.is_some() {
            return Err(query_error(key, "cannot appear more than once"));
        }
        st.default_account = Some(copy(value));
        Ok(())
    } else if str_eq(key, "section") {
        if !is_one_of4(value, "tools", "prompts", "resources", "auth") {
            return Err(query_error(key, "must be one of: tools, prompts, resources, auth"));
        }
        if st.preferred_section.is_some() {
            return Err(query_error(key, "cannot appear more than once"));
        }
        st.preferred_section = Some(copy(value));
        Ok(())
    } else if str_eq(key, "resource") {
        if !is_one_of4(value, "account", "auth", "skills", "skill") {
            return Err(query_error(key, "must be one of: account, auth, skills, skill"));
        }
        if st.preferred_resource.is_some() {
            return Err(query_error(key, "cannot appear more than once"));
        }
        st.preferred_resource = Some(copy(value));
        Ok(())
    } else if str_eq(key, "tool") {
        if !is_one_of4(
            value,
            "zocli.app.snapshot",
            "zocli.account.list",
            "zocli.account.current",
            "zocli.auth.status",
        ) {
            return Err(
                query_error(
                    key,
                    "must be one of: zocli.app.snapshot, zocli.account.list, zocli.account.current, zocli.auth.status",
                ),
            );
        }
        if st.preferred_tool.is_some() {
            return Err(query_error(key, "cannot appear more than once"));
        }
        st.preferred_tool = Some(copy(value));
        Ok(())
    } else if str_eq(key, "skill") {
        if is_all_whitespace(value) {
            return Err(query_error(key, "cannot be empty"));
        }
        if st.preferred_skill.is_some() {
            return Err(query_error(key, "cannot appear more than once"));
        }
        st.preferred_skill = Some(copy(value));
        Ok(())
    } else if str_eq(key, "prompt") {
        if !is_prompt_name(value) {
            return Err(query_error(key, "must be one of the embedded MCP prompts"));
        }
        if st.preferred_prompt.is_some() {
            return Err(query_error(key, "cannot appear more than once"));
        }
        st.preferred_prompt = Some(copy(value));
        Ok(())
    } else {
        Err(unknown_error(uri))
    }
}

fn opt_is(o: &Option<String>, s: &str) -> (r: bool)
    ensures
        r == (ov(*o) == Some(s@)),
{
    match o {
        Some(x) => str_eq(x.as_str(), s),
        None => false,
    }
}

/// The checks across pairs, as `dash_finish` says.
fn finish_dashboard(st: DashboardResourceState) -> (r: Result<DashboardResourceState, ZocliError>)
    ensures
        outcome_is(r, dash_finish(st@)),
{
    let mut st = st;
    if opt_is(&st.preferred_resource, "skill") && st.preferred_skill.is_none() {
        return Err(query_error("skill", "is required when `resource=skill`"));
    }
    if (opt_is(&st.preferred_resource, "account") || opt_is(&st.preferred_resource, "auth")
        || opt_is(&st.preferred_resource, "skills")) && st.preferred_skill.is_some() {
        return Err(query_error("skill", "is only valid when `resource=skill`"));
    }
    if st.preferred_resource.is_none() && st.preferred_skill.is_some() {
        return Err(query_error("skill", "requires `resource=skill`"));
    }
    if st.preferred_section.is_none() {
        if st.preferred_resource.is_some() {
            st.preferred_section = Some(copy("resources"));
        } else if st.preferred_tool.is_some() {
            st.preferred_section = Some(copy("tools"));
        } else if st.preferred_prompt.is_some() {
            st.preferred_section = Some(copy("prompts"));
        }
    }
    if st.preferred_prompt.is_some() && !opt_is(&st.preferred_section, "prompts") {
        return Err(query_error("prompt", "requires `section=prompts`"));
    }
    Ok(st)
}

/// The state of a dashboard address, from the parts its URL parsed to.
pub fn dashboard_state_from_parts(uri: &str, parts: &UrlParts) -> (r: Result<
    DashboardResourceState,
    ZocliError,
>)
    ensures
        outcome_is(r, spec_dashboard_state(uri@, parts@)),
{
    let is_zocli = match &parts.host {
        Some(h) => str_eq(h.as_str(), "zocli"),
        None => false,
    };
    if !str_eq(parts.scheme.as_str(), "ui") || !is_zocli || !str_eq(
        parts.path.as_str(),
        "/dashboard",
    ) {
        return Err(unknown_error(uri));
    }
    let mut st = DashboardResourceState {
        default_account: None,
        preferred_section: None,
        preferred_resource: None,
        preferred_tool: None,
        preferred_skill: None,
        preferred_prompt: None,
    };
    let ghost pairs = parts@.query_pairs;
    let ghost goal = dash_fold(uri@, pairs, empty_view());
    let mut i: usize = 0;
    assert(pairs.subrange(0, pairs.len() as int) =~= pairs);
    while i < parts.query_pairs.len()
        invariant
            parts@.scheme == "ui"@,
            parts@.host == Some("zocli"@),
            parts@.path == "/dashboard"@,
            pairs == parts@.query_pairs,
            goal == dash_fold(uri@, pairs, empty_view()),
            pairs.len() == parts.query_pairs@.len(),
            i <= pairs.len(),
            dash_fold(uri@, pairs.subrange(i as int, pairs.len() as int), st@) == goal,
        decreases pairs.len() - i,
    {
        let ghost rest = pairs.subrange(i as int, pairs.len() as int);
        assert(rest[0] == (parts.query_pairs@[i as int].0@, parts.query_pairs@[i as int].1@));
        assert(rest.drop_first() =~= pairs.subrange(i + 1, pairs.len() as int));
        let ghost st0 = st@;
        let res = apply_dash_pair(
            uri,
            &mut st,
            parts.query_pairs[i].0.as_str(),
            parts.query_pairs[i].1.as_str(),
        );
        match res {
            Ok(()) => {},
            Err(e) => {
                proof {
                    let s = dash_step(uri@, st0, rest[0].0, rest[0].1);
                    assert(s is Err);
                    assert(dash_fold(uri@, rest, st0) == s);
                }
                return Err(e);
            },
        }
        i = i + 1;
    }
    assert(pairs.subrange(pairs.len() as int, pairs.len() as int).len() == 0);
    finish_dashboard(st)
}

pub open spec fn invalid_uri(uri: Seq<char>, err: Seq<char>) -> Refusal {
    Refusal::Invalid("invalid resource URI `"@ + uri + "`: "@ + err)
}

/// The parts `url::Url::parse` gives a text, through the names of `url_parts`.
pub open spec fn parsed_parts(uri: Seq<char>) -> UrlPartsView {
    UrlPartsView {
        scheme: url_scheme(uri),
        host: url_host(uri),
        path: url_path(uri),
        query_pairs: url_query_pairs(uri),
    }
}

fn invalid_uri_error(uri: &str, err: &str) -> (r: ZocliError)
    ensures
        refused_as(r, invalid_uri(uri@, err@)),
{
    let mut m = cat3("invalid resource URI `", uri, "`: ");
    m.append(err);
    ZocliError::Validation(m)
}

/// Reads a `ui://zocli/dashboard` address: a text that is no URL is a validation error;
/// otherwise the outcome is that of `dashboard_state_from_parts` on its parts.
pub fn parse_dashboard_resource_state(uri: &str) -> (r: Result<DashboardResourceState, ZocliError>)
    ensures
        match url_parse_failure(uri@) {
            Some(err) => r matches Err(e) && refused_as(e, invalid_uri(uri@, err)),
            None => outcome_is(r, spec_dashboard_state(uri@, parsed_parts(uri@))),
        },
{
    match url_parts(uri) {
        Err(err) => Err(invalid_uri_error(uri, err.as_str())),
        Ok(parts) => dashboard_state_from_parts(uri, &parts),
    }
}

/// The surface an app address names: its path without the leading `/`.
pub open spec fn app_surface(path: Seq<char>) -> Seq<char> {
    if path.len() > 0 && path[0] == '/' {
        path.drop_first()
    } else {
        path
    }
}

pub open spec fn is_surface(s: Seq<char>) -> bool {
    s == "dashboard"@ || s == "mail"@ || s == "calendar"@ || s == "drive"@ || s == "auth"@ || s
        == "account"@
}

/// The query of a surface other than the dashboard: `account` only, once and not blank.
pub open spec fn surface_fold(
    uri: Seq<char>,
    surface: Seq<char>,
    pairs: Seq<(Seq<char>, Seq<char>)>,
    acc: Option<Seq<char>>,
) -> Result<Option<Seq<char>>, Refusal>
    decreases pairs.len(),
{
    if pairs.len() == 0 {
        Ok(acc)
    } else if pairs[0].0 == "account"@ {
        if all_ws(pairs[0].1) {
            Err(Refusal::Invalid(surface + " resource query `account` cannot be empty"@))
        } else if acc is Some {
            Err(
                Refusal::Invalid(
                    surface + " resource query `account` cannot appear more than once"@,
                ),
            )
        } else {
            surface_fold(uri, surface, pairs.drop_first(), Some(pairs[0].1))
        }
    } else {
        Err(unknown_resource(uri))
    }
}

/// The section and prompt a surface opens on.
pub open spec fn surface_focus(surface: Seq<char>) -> (Option<Seq<char>>, Option<Seq<char>>) {
    if surface == "mail"@ || surface == "calendar"@ || surface == "drive"@ {
        (Some("prompts"@), Some(surface))
    } else if surface == "auth"@ || surface == "account"@ {
        (Some("auth"@), None)
    } else {
        (None, None)
    }
}

/// The state any `ui://zocli/<surface>` address asks for, from the parts of its URL.
pub open spec fn spec_app_state(uri: Seq<char>, parts: UrlPartsView) -> Result<
    DashboardView,
    Refusal,
> {
    let surface = app_surface(parts.path);
    if parts.scheme != "ui"@ || parts.host != Some("zocli"@) || !is_surface(surface) {
        Err(unknown_resource(uri))
    } else if surface == "dashboard"@ {
        spec_dashboard_state(uri, parts)
    } else {
        match surface_fold(uri, surface, parts.query_pairs, None) {
            Ok(account) => Ok(
                DashboardView {
                    account,
                    section: surface_focus(surface).0,
                    resource: None,
                    tool: None,
                    skill: None,
                    prompt: surface_focus(surface).1,
                },
            ),
            Err(f) => Err(f),
        }
    }
}

fn strip_slash(path: &str) -> (r: String)
    ensures
        r@ == app_surface(path@),
{
    let v = to_chars(path);
    if v.len() > 0 && v[0] == '/' {
        let r = from_char_range(&v, 1, v.len());
        assert(r@ =~= path@.drop_first());
        r
    } else {
        String::from_str(path)
    }
}

fn copy_text(s: &str) -> (r: String)
    ensures
        r@ == s@,
{
    String::from_str(s)
}

/// The state of an app address, from the parts its URL parsed to.
pub fn app_state_from_parts(uri: &str, parts: &UrlParts) -> (r: Result<
    DashboardResourceState,
    ZocliError,
>)
    ensures
        outcome_is(r, spec_app_state(uri@, parts@)),
{
    let is_zocli = match &parts.host {
        Some(h) => str_eq(h.as_str(), "zocli"),
        None => false,
    };
    let surface = strip_slash(parts.path.as_str());
    let s = surface.as_str();
    let known = str_eq(s, "dashboard") || str_eq(s, "mail") || str_eq(s, "calendar") || str_eq(
        s,
        "drive",
    ) || str_eq(s, "auth") || str_eq(s, "account");
    if !str_eq(parts.scheme.as_str(), "ui") || !is_zocli || !known {
        return Err(unknown_error(uri));
    }
    if str_eq(s, "dashboard") {
        return dashboard_state_from_parts(uri, parts);
    }
    let ghost pairs = parts@.query_pairs;
    let ghost goal = surface_fold(uri@, s@, pairs, None);
    let mut account: Option<String> = None;
    let mut i: usize = 0;
    assert(pairs.subrange(0, pairs.len() as int) =~= pairs);
    while i < parts.query_pairs.len()
        invariant
            parts@.scheme == "ui"@,
            parts@.host == Some("zocli"@),
            s@ == app_surface(parts@.path),
            is_surface(s@),
            s@ != "dashboard"@,
            pairs == parts@.query_pairs,
            pairs.len() == parts.query_pairs@.len(),
            goal == surface_fold(uri@, s@, pairs, None),
            i <= pairs.len(),
            surface_fold(uri@, s@, pairs.subrange(i as int, pairs.len() as int), ov(account))
                == goal,
        decreases pairs.len() - i,
    {
        let ghost rest = pairs.subrange(i as int, pairs.len() as int);
        assert(rest[0] == (parts.query_pairs@[i as int].0@, parts.query_pairs@[i as int].1@));
        assert(rest.drop_first() =~= pairs.subrange(i + 1, pairs.len() as int));
        let key = parts.query_pairs[i].0.as_str();
        let value = parts.query_pairs[i].1.as_str();
        proof {
            reveal_strlit("account");
        }
        if !str_eq(key, "account") {
            return Err(unknown_error(uri));
        }
        if is_all_whitespace(value) {
            return Err(ZocliError::Validation(cat(s, " resource query `account` cannot be empty")));
        }
        if account.is_some() {
            return Err(
                ZocliError::Validation(
                    cat(s, " resource query `account` cannot appear more than once"),
                ),
            );
        }
        account = Some(copy_text(value));
        i = i + 1;
    }
    assert(pairs.subrange(pairs.len() as int, pairs.len() as int).len() == 0);
    let (section, prompt) = if str_eq(s, "mail") || str_eq(s, "calendar") || str_eq(s, "drive") {
        (Some(copy_text("prompts")), Some(copy_text(s)))
    } else if str_eq(s, "auth") || str_eq(s, "account") {
        (Some(copy_text("auth")), None)
    } else {
        (None, None)
    };
    Ok(
        DashboardResourceState {
            default_account: account,
            preferred_section: section,
            preferred_resource: None,
            preferred_tool: None,
            preferred_skill: None,
            preferred_prompt: prompt,
        },
    )
}

/// Reads any `ui://zocli/<surface>` address: a text that is no URL is a validation error;
/// otherwise the outcome is that of `app_state_from_parts` on its parts.
pub fn parse_app_resource_state(uri: &str) -> (r: Result<DashboardResourceState, ZocliError>)
    ensures
        match url_parse_failure(uri@) {
            Some(err) => r matches Err(e) && refused_as(e, invalid_uri(uri@, err)),
            None => outcome_is(r, spec_app_state(uri@, parsed_parts(uri@))),
        },
{
    match url_parts(uri) {
        Err(err) => Err(invalid_uri_error(uri, err.as_str())),
        Ok(parts) => app_state_from_parts(uri, &parts),
    }
}

/// Whether the text is the address of an app surface the server can render.
pub fn is_app_resource_uri(uri: &str) -> (r: bool)
    ensures
        r == (url_parse_failure(uri@) is None && spec_app_state(uri@, parsed_parts(uri@)) is Ok),
{
    match parse_app_resource_state(uri) {
        Ok(_) => true,
        Err(_) => false,
    }
}

/// Account and auth resources are the ones a client can subscribe to.
pub fn is_subscribable_resource_uri(uri: &str) -> (r: bool)
    ensures
        r == (has_prefix(uri@, "resource://zocli/account/"@) || has_prefix(
            uri@,
            "resource://zocli/auth/"@,
        )),
{
    starts_with(uri, "resource://zocli/account/") || starts_with(uri, "resource://zocli/auth/")
}

/// Refuses a subscription to a resource that does not support one.
pub fn check_subscribable_uri(uri: &str) -> (r: Result<(), ZocliError>)
    ensures
        match r {
            Ok(()) => has_prefix(uri@, "resource://zocli/account/"@) || has_prefix(
                uri@,
                "resource://zocli/auth/"@,
            ),
            Err(e) => !(has_prefix(uri@, "resource://zocli/account/"@) || has_prefix(
                uri@,
                "resource://zocli/auth/"@,
            )) && refused_as(
                e,
                Refusal::Unknown("resource does not support subscriptions: "@ + uri@),
            ),
        },
{
    if !is_subscribable_resource_uri(uri) {
        return Err(
            ZocliError::UnsupportedOperation(cat("resource does not support subscriptions: ", uri)),
        );
    }
    Ok(())
}

/// A subscription is accepted when the resource supports one and its digest (`digest`, what
/// reading it for change detection gave) could be taken.
pub fn validate_subscribable_resource_uri(uri: &str, digest: Result<u64, ZocliError>) -> (r: Result<
    (),
    ZocliError,
>)
    ensures
        !(has_prefix(uri@, "resource://zocli/account/"@) || has_prefix(uri@, "resource://zocli/auth/"@))
            ==> (r matches Err(e) && refused_as(
            e,
            Refusal::Unknown("resource does not support subscriptions: "@ + uri@),
        )),
        (has_prefix(uri@, "resource://zocli/account/"@) || has_prefix(uri@, "resource://zocli/auth/"@))
            ==> match digest {
            Ok(_) => r is Ok,
            Err(e) => r == Err::<(), ZocliError>(e),
        },
{
    check_subscribable_uri(uri)?;
    match digest {
        Ok(_) => Ok(()),
        Err(e) => Err(e),
    }
}

/// The account a `resource://zocli/<namespace>/<account>` address names, from the parts of
/// its URL and its path segments.
pub open spec fn spec_templated_account(
    uri: Seq<char>,
    namespace: Seq<char>,
    parts: UrlPartsView,
    segments: Option<Seq<Seq<char>>>,
) -> Result<Seq<char>, Refusal> {
    match segments {
        None => Err(Refusal::Invalid("invalid resource URI `"@ + uri + "`"@)),
        Some(segs) => if parts.scheme != "resource"@ || parts.host != Some("zocli"@) || segs.len()
            != 2 || segs[0] != namespace || all_ws(segs[1]) {
            Err(unknown_resource(uri))
        } else {
            Ok(segs[1])
        },
    }
}

pub open spec fn text_outcome_is(r: Result<String, ZocliError>, s: Result<Seq<char>, Refusal>) -> bool {
    match s {
        Ok(v) => r matches Ok(x) && x@ == v,
        Err(f) => r matches Err(e) && refused_as(e, f),
    }
}

pub fn templated_account_from(
    uri: &str,
    namespace: &str,
    parts: &UrlParts,
    segments: &Option<Vec<String>>,
) -> (r: Result<String, ZocliError>)
    ensures
        text_outcome_is(
            r,
            spec_templated_account(
                uri@,
                namespace@,
                parts@,
                match segments {
                    Some(v) => Some(text_views(v@)),
                    None => None,
                },
            ),
        ),
{
    match segments {
        None => Err(ZocliError::Validation(cat3("invalid resource URI `", uri, "`"))),
        Some(segs) => {
            let is_zocli = match &parts.host {
                Some(h) => str_eq(h.as_str(), "zocli"),
                None => false,
            };
            if !str_eq(parts.scheme.as_str(), "resource") || !is_zocli || segs.len() != 2 {
                return Err(unknown_error(uri));
            }
            assert(text_views(segs@)[0] == segs@[0]@);
            assert(text_views(segs@)[1] == segs@[1]@);
            if !str_eq(segs[0].as_str(), namespace) || is_all_whitespace(segs[1].as_str()) {
                return Err(unknown_error(uri));
            }
            Ok(copy_text(segs[1].as_str()))
        },
    }
}

/// The name a templated address `resource://zocli/<namespace>/<name>` carries.
pub open spec fn spec_templated(uri: Seq<char>, namespace: Seq<char>) -> Result<Seq<char>, Refusal> {
    match url_parse_failure(uri) {
        Some(err) => Err(invalid_uri(uri, err)),
        None => spec_templated_account(uri, namespace, parsed_parts(uri), url_path_segments(uri)),
    }
}

/// The account named by a templated resource address such as
/// `resource://zocli/account/<account>`.
pub fn templated_account_name(uri: &str, namespace: &str) -> (r: Result<String, ZocliError>)
    ensures
        text_outcome_is(r, spec_templated(uri@, namespace@)),
{
    match url_parts(uri) {
        Err(err) => Err(invalid_uri_error(uri, err.as_str())),
        Ok(parts) => {
            let segments = path_segments(uri);
            proof {
                if segments is Some {
                    let v = segments->0;
                    assert(v@.map_values(|x: String| x@) == text_views(v@));
                }
            }
            templated_account_from(uri, namespace, &parts, &segments)
        },
    }
}

/// `{"ui": {"prefersBorder": true, "csp": {...}}}` with no allowed domains.
pub open spec fn app_resource_meta_is(j: Json) -> bool {
    &&& is_object(j, 1)
    &&& key_at(j, 0, "ui"@)
    &&& is_object(val_at(j, 0), 2)
    &&& bool_at(val_at(j, 0), 0, "prefersBorder"@, true)
    &&& key_at(val_at(j, 0), 1, "csp"@)
    &&& csp_is(val_at(val_at(j, 0), 1))
}

pub open spec fn empty_list_at(j: Json, i: int, key: Seq<char>) -> bool {
    key_at(j, i, key) && (val_at(j, i) matches Json::Array(v) && v@.len() == 0)
}

pub open spec fn csp_is(j: Json) -> bool {
    is_object(j, 3) && empty_list_at(j, 0, "connectDomains"@) && empty_list_at(
        j,
        1,
        "resourceDomains"@,
    ) && empty_list_at(j, 2, "frameDomains"@)
}

fn empty_list(key: &str) -> (r: (String, Json))
    ensures
        r.0@ == key@,
        r.1 matches Json::Array(v) && v@.len() == 0,
{
    (String::from_str(key), Json::Array(Vec::new()))
}

pub fn app_resource_meta() -> (r: Json)
    ensures
        app_resource_meta_is(r),
{
    let mut csp: Vec<(String, Json)> = Vec::new();
    csp.push(empty_list("connectDomains"));
    csp.push(empty_list("resourceDomains"));
    csp.push(empty_list("frameDomains"));
    let mut ui: Vec<(String, Json)> = Vec::new();
    ui.push(member_of("prefersBorder", Json::Bool(true)));
    ui.push(member_of("csp", object(csp)));
    let mut ms: Vec<(String, Json)> = Vec::new();
    ms.push(member_of("ui", object(ui)));
    object(ms)
}

/// A listed resource or template: its address (under `key`), name, description and MIME
/// type, and the app metadata for app surfaces.
pub open spec fn listing_is(
    j: Json,
    key: Seq<char>,
    e: (Seq<char>, Seq<char>, Seq<char>, Seq<char>, bool),
) -> bool {
    &&& j is Object
    &&& fields(j).len() == (if e.4 {
        5int
    } else {
        4int
    })
    &&& text_at(j, 0, key, e.0)
    &&& text_at(j, 1, "name"@, e.1)
    &&& text_at(j, 2, "description"@, e.2)
    &&& text_at(j, 3, "mimeType"@, e.3)
    &&& (e.4 ==> key_at(j, 4, "_meta"@) && app_resource_meta_is(val_at(j, 4)))
}

fn listing(key: &str, uri: &str, name: &str, description: &str, mime: &str, app: bool) -> (r: Json)
    ensures
        listing_is(r, key@, (uri@, name@, description@, mime@, app)),
{
    let mut ms: Vec<(String, Json)> = Vec::new();
    ms.push(text_member(key, uri));
    ms.push(text_member("name", name));
    ms.push(text_member("description", description));
    ms.push(text_member("mimeType", mime));
    if app {
        ms.push(member_of("_meta", app_resource_meta()));
    }
    object(ms)
}

/// The resources the server lists: the guide and the skill catalog, and with the app
/// enabled its six surfaces.
pub open spec fn spec_resource_defs(ui_enabled: bool) -> Seq<(Seq<char>, Seq<char>, Seq<char>, Seq<char>, bool)> {
    seq![
        (
            "resource://zocli/getting-started"@,
            "zocli MCP Getting Started"@,
            "Text guide for the stable zocli MCP surface"@,
            "text/markdown"@,
            false,
        ),
        (
            "resource://zocli/skills"@,
            "zocli Embedded Skills"@,
            "Catalog of embedded zocli SKILL.md workflows mirrored into MCP resources"@,
            "application/json"@,
            false,
        ),
    ] + if ui_enabled {
        seq![
            (
                "ui://zocli/dashboard"@,
                "zocli MCP Dashboard"@,
                "Minimal MCP Apps-compatible HTML surface for zocli"@,
                "text/html;profile=mcp-app"@,
                true,
            ),
            ("ui://zocli/mail"@, "zocli Mail"@, "Mail workflow surface for Zoho Mail"@, "text/html;profile=mcp-app"@, true),
            (
                "ui://zocli/calendar"@,
                "zocli Calendar"@,
                "Calendar workflow surface for Zoho Calendar"@,
                "text/html;profile=mcp-app"@,
                true,
            ),
            ("ui://zocli/drive"@, "zocli Drive"@, "Drive workflow surface for Zoho WorkDrive"@, "text/html;profile=mcp-app"@, true),
            ("ui://zocli/auth"@, "zocli Auth"@, "Auth status and remediation surface"@, "text/html;profile=mcp-app"@, true),
            ("ui://zocli/account"@, "zocli Account"@, "Account management surface"@, "text/html;profile=mcp-app"@, true),
        ]
    } else {
        Seq::empty()
    }
}

pub fn resource_definitions(ui_enabled: bool) -> (r: Vec<Json>)
    ensures
        r@.len() == spec_resource_defs(ui_enabled).len(),
        forall|i: int|
            0 <= i < r@.len() ==> listing_is(#[trigger] r@[i], "uri"@, spec_resource_defs(ui_enabled)[i]),
{
    let mut v: Vec<Json> = Vec::new();
    let html = "text/html;profile=mcp-app";
    v.push(listing("uri", "resource://zocli/getting-started", "zocli MCP Getting Started", "Text guide for the stable zocli MCP surface", "text/markdown", false));
    v.push(listing("uri", "resource://zocli/skills", "zocli Embedded Skills", "Catalog of embedded zocli SKILL.md workflows mirrored into MCP resources", "application/json", false));
    if ui_enabled {
        v.push(listing("uri", "ui://zocli/dashboard", "zocli MCP Dashboard", "Minimal MCP Apps-compatible HTML surface for zocli", html, true));
        v.push(listing("uri", "ui://zocli/mail", "zocli Mail", "Mail workflow surface for Zoho Mail", html, true));
        v.push(listing("uri", "ui://zocli/calendar", "zocli Calendar", "Calendar workflow surface for Zoho Calendar", html, true));
        v.push(listing("uri", "ui://zocli/drive", "zocli Drive", "Drive workflow surface for Zoho WorkDrive", html, true));
        v.push(listing("uri", "ui://zocli/auth", "zocli Auth", "Auth status and remediation surface", html, true));
        v.push(listing("uri", "ui://zocli/account", "zocli Account", "Account management surface", html, true));
    }
    v
}

/// The resource templates the server lists: account, auth and skill resources, and with the
/// app enabled the dashboard and the five surfaces, each with an optional account.
pub open spec fn spec_resource_templates(ui_enabled: bool) -> Seq<(Seq<char>, Seq<char>, Seq<char>, Seq<char>, bool)> {
    seq![
        (
            "resource://zocli/account/{account}"@,
            "zocli Account Resource"@,
            "Read one configured zocli account summary as JSON"@,
            "application/json"@,
            false,
        ),
        (
            "resource://zocli/auth/{account}"@,
            "zocli Auth Resource"@,
            "Read auth posture for one configured zocli account as JSON"@,
            "application/json"@,
            false,
        ),
        (
            "resource://zocli/skill/{skill}"@,
            "zocli Embedded Skill Resource"@,
            "Read one embedded zocli SKILL.md workflow as Markdown"@,
            "text/markdown"@,
            false,
        ),
    ] + if ui_enabled {
        seq![
            (
                "ui://zocli/dashboard{?account,section,resource,tool,skill,prompt}"@,
                "zocli MCP Dashboard"@,
                "Load the hosted zocli dashboard with an optional restored account alias"@,
                "text/html;profile=mcp-app"@,
                true,
            ),
            ("ui://zocli/mail{?account}"@, "zocli Mail"@, "Load the mail workflow surface"@, "text/html;profile=mcp-app"@, true),
            ("ui://zocli/calendar{?account}"@, "zocli Calendar"@, "Load the calendar workflow surface"@, "text/html;profile=mcp-app"@, true),
            ("ui://zocli/drive{?account}"@, "zocli Drive"@, "Load the drive workflow surface"@, "text/html;profile=mcp-app"@, true),
            ("ui://zocli/auth{?account}"@, "zocli Auth"@, "Load the auth status surface"@, "text/html;profile=mcp-app"@, true),
            ("ui://zocli/account{?account}"@, "zocli Account"@, "Load the account management surface"@, "text/html;profile=mcp-app"@, true),
        ]
    } else {
        Seq::empty()
    }
}

pub fn resource_templates(ui_enabled: bool) -> (r: Vec<Json>)
    ensures
        r@.len() == spec_resource_templates(ui_enabled).len(),
        forall|i: int|
            0 <= i < r@.len() ==> listing_is(
                #[trigger] r@[i],
                "uriTemplate"@,
                spec_resource_templates(ui_enabled)[i],
            ),
{
    let mut v: Vec<Json> = Vec::new();
    let html = "text/html;profile=mcp-app";
    let k = "uriTemplate";
    v.push(listing(k, "resource://zocli/account/{account}", "zocli Account Resource", "Read one configured zocli account summary as JSON", "application/json", false));
    v.push(listing(k, "resource://zocli/auth/{account}", "zocli Auth Resource", "Read auth posture for one configured zocli account as JSON", "application/json", false));
    v.push(listing(k, "resource://zocli/skill/{skill}", "zocli Embedded Skill Resource", "Read one embedded zocli SKILL.md workflow as Markdown", "text/markdown", false));
    if ui_enabled {
        v.push(listing(k, "ui://zocli/dashboard{?account,section,resource,tool,skill,prompt}", "zocli MCP Dashboard", "Load the hosted zocli dashboard with an optional restored account alias", html, true));
        v.push(listing(k, "ui://zocli/mail{?account}", "zocli Mail", "Load the mail workflow surface", html, true));
        v.push(listing(k, "ui://zocli/calendar{?account}", "zocli Calendar", "Load the calendar workflow surface", html, true));
        v.push(listing(k, "ui://zocli/drive{?account}", "zocli Drive", "Load the drive workflow surface", html, true));
        v.push(listing(k, "ui://zocli/auth{?account}", "zocli Auth", "Load the auth status surface", html, true));
        v.push(listing(k, "ui://zocli/account{?account}", "zocli Account", "Load the account management surface", html, true));
    }
    v
}

/// The text of a skill's description as the catalog shows it: the description of its front
/// matter, or nothing.
pub open spec fn catalog_description(name: Seq<char>, d: Seq<char>) -> bool {
    match spec_skill_content(name) {
        Some(c) => exists|r: Option<String>|
            description_outcome(c, r) && d == (match r {
                Some(x) => x@,
                None => Seq::<char>::empty(),
            }),
        None => d.len() == 0,
    }
}

/// One entry of the skill catalog.
pub open spec fn catalog_item_is(j: Json, name: Seq<char>) -> bool {
    &&& is_object(j, 4)
    &&& text_at(j, 0, "name"@, name)
    &&& key_at(j, 1, "prompt"@) && match spec_skill_prompt(name) {
        Some(p) => is_text(val_at(j, 1), p),
        None => val_at(j, 1) == Json::Null,
    }
    &&& text_at(j, 2, "uri"@, "resource://zocli/skill/"@ + name)
    &&& key_at(j, 3, "description"@) && (val_at(j, 3) matches Json::Str(d) && catalog_description(
        name,
        d@,
    ))
}

/// The skill catalog: how many skills there are, and one entry per skill in order.
pub open spec fn catalog_is(j: Json) -> bool {
    &&& is_object(j, 2)
    &&& key_at(j, 0, "count"@) && (val_at(j, 0) matches Json::Number(t) && t@ == crate::text::decimal(
        spec_skills().len(),
    ))
    &&& key_at(j, 1, "items"@) && (val_at(j, 1) matches Json::Array(items) && items@.len()
        == spec_skills().len() && forall|i: int|
        0 <= i < items@.len() ==> catalog_item_is(#[trigger] items@[i], spec_skills()[i].0))
}

pub fn skills_catalog_resource() -> (r: Json)
    ensures
        catalog_is(r),
{
    let names = skill_names();
    assert(names@.len() == spec_skills().len()) by {
        assert(names@.map_values(|s: &str| s@).len() == spec_skills().map_values(
            |p: (Seq<char>, Seq<char>)| p.0,
        ).len());
    }
    let mut items: Vec<Json> = Vec::new();
    let mut i: usize = 0;
    while i < names.len()
        invariant
            names@.len() == spec_skills().len(),
            names@.map_values(|s: &str| s@) == spec_skills().map_values(
                |p: (Seq<char>, Seq<char>)| p.0,
            ),
            i <= names@.len(),
            items@.len() == i,
            forall|j: int| 0 <= j < i ==> catalog_item_is(#[trigger] items@[j], spec_skills()[j].0),
        decreases names@.len() - i,
    {
        let name = names[i];
        assert(name@ == spec_skills()[i as int].0) by {
            assert(names@.map_values(|s: &str| s@)[i as int] == name@);
            assert(spec_skills().map_values(|p: (Seq<char>, Seq<char>)| p.0)[i as int]
                == spec_skills()[i as int].0);
        }
        let prompt = match skill_prompt_name(name) {
            Some(p) => text_json(p),
            None => Json::Null,
        };
        let description = match skill_description(name) {
            Some(d) => d,
            None => String::new(),
        };
        let mut ms: Vec<(String, Json)> = Vec::new();
        ms.push(text_member("name", name));
        ms.push(member_of("prompt", prompt));
        ms.push(member_of("uri", Json::Str(cat("resource://zocli/skill/", name))));
        ms.push(member_of("description", Json::Str(description)));
        items.push(object(ms));
        i = i + 1;
    }
    proof {
        assert(names@.map_values(|s: &str| s@).len() == spec_skills().len());
    }
    let mut ms: Vec<(String, Json)> = Vec::new();
    ms.push(member_of("count", Json::Number(crate::text::u64_to_string(items.len() as u64))));
    ms.push(member_of("items", Json::Array(items)));
    object(ms)
}

/// What reading a resource takes.
#[derive(Debug)]
pub enum ResourceRead {
    /// The contents, known without outside work.
    Contents(Vec<Json>),
    /// An app surface, to be rendered with this state.
    App(DashboardResourceState),
    /// The summary of this account.
    Account(String),
    /// The auth posture of this account.
    Auth(String),
}

/// One resource content: its address, MIME type and text.
pub open spec fn content_is(j: Json, uri: Seq<char>, mime: Seq<char>, text: Seq<char>) -> bool {
    is_object(j, 3) && text_at(j, 0, "uri"@, uri) && text_at(j, 1, "mimeType"@, mime) && text_at(
        j,
        2,
        "text"@,
        text,
    )
}

pub open spec fn getting_started_text() -> Seq<char> {
    "# zocli MCP\n\nStable read-only tools are available for accounts, auth status, mail, calendar, and drive.\n\nApps-ready clients can also load `ui://zocli/dashboard`."@
}

pub open spec fn single_content(r: Result<ResourceRead, ZocliError>, uri: Seq<char>, mime: Seq<char>, text: Seq<char>) -> bool {
    r matches Ok(ResourceRead::Contents(v)) && v@.len() == 1 && content_is(v@[0], uri, mime, text)
}

/// Names an account for `Account`/`Auth` reads, or fails as the templated address does.
pub open spec fn named_read(r: Result<ResourceRead, ZocliError>, s: Result<Seq<char>, Refusal>, auth: bool) -> bool {
    match s {
        Ok(name) => if auth {
            r matches Ok(ResourceRead::Auth(n)) && n@ == name
        } else {
            r matches Ok(ResourceRead::Account(n)) && n@ == name
        },
        Err(f) => r matches Err(e) && refused_as(e, f),
    }
}

/// What reading the resource at `uri` gives, in the order the addresses are tried.
pub open spec fn resource_read_is(uri: Seq<char>, r: Result<ResourceRead, ZocliError>) -> bool {
    if uri == "resource://zocli/getting-started"@ {
        single_content(r, uri, "text/markdown"@, getting_started_text())
    } else if uri == "resource://zocli/skills"@ {
        match r {
            Ok(ResourceRead::Contents(v)) => v@.len() == 1 && exists|c: Json|
                catalog_is(c) && content_is(v@[0], uri, "application/json"@, json_pretty_text(c)),
            _ => false,
        }
    } else if url_parse_failure(uri) is None && spec_app_state(uri, parsed_parts(uri)) is Ok {
        r matches Ok(ResourceRead::App(st)) && spec_app_state(uri, parsed_parts(uri)) == Ok::<
            DashboardView,
            Refusal,
        >(st@)
    } else if has_prefix(uri, "resource://zocli/account/"@) {
        named_read(r, spec_templated(uri, "account"@), false)
    } else if has_prefix(uri, "resource://zocli/auth/"@) {
        named_read(r, spec_templated(uri, "auth"@), true)
    } else if has_prefix(uri, "resource://zocli/skill/"@) {
        match spec_templated(uri, "skill"@) {
            Ok(name) => match spec_skill_content(name) {
                Some(c) => single_content(r, uri, "text/markdown"@, c),
                None => r matches Err(e) && refused_as(
                    e,
                    Refusal::Unknown("unknown embedded skill resource: "@ + uri),
                ),
            },
            Err(f) => r matches Err(e) && refused_as(e, f),
        }
    } else {
        r matches Err(e) && refused_as(e, unknown_resource(uri))
    }
}

fn single(uri: &str, mime: &str, text: &str) -> (r: Vec<Json>)
    ensures
        r@.len() == 1,
        content_is(r@[0], uri@, mime@, text@),
{
    let mut ms: Vec<(String, Json)> = Vec::new();
    ms.push(text_member("uri", uri));
    ms.push(text_member("mimeType", mime));
    ms.push(text_member("text", text));
    let mut v: Vec<Json> = Vec::new();
    v.push(object(ms));
    v
}

/// Reads a resource as far as the library can: fixed texts, the skill catalog and skills
/// directly; app surfaces, accounts and auth postures as what the caller has to fetch.
pub fn resource_contents(uri: &str) -> (r: Result<ResourceRead, ZocliError>)
    ensures
        resource_read_is(uri@, r),
{
    if str_eq(uri, "resource://zocli/getting-started") {
        return Ok(
            ResourceRead::Contents(
                single(
                    uri,
                    "text/markdown",
                    "# zocli MCP\n\nStable read-only tools are available for accounts, auth status, mail, calendar, and drive.\n\nApps-ready clients can also load `ui://zocli/dashboard`.",
                ),
            ),
        );
    }
    if str_eq(uri, "resource://zocli/skills") {
        let catalog = skills_catalog_resource();
        return match to_json_pretty_text(&catalog) {
            Ok(text) => Ok(ResourceRead::Contents(single(uri, "application/json", text.as_str()))),
            Err(e) => Err(ZocliError::Serialization(e)),
        };
    }
    match parse_app_resource_state(uri) {
        Ok(st) => {
            return Ok(ResourceRead::App(st));
        },
        Err(_) => {},
    }
    if starts_with(uri, "resource://zocli/account/") {
        return match templated_account_name(uri, "account") {
            Ok(name) => Ok(ResourceRead::Account(name)),
            Err(e) => Err(e),
        };
    }
    if starts_with(uri, "resource://zocli/auth/") {
        return match templated_account_name(uri, "auth") {
            Ok(name) => Ok(ResourceRead::Auth(name)),
            Err(e) => Err(e),
        };
    }
    if starts_with(uri, "resource://zocli/skill/") {
        let name = templated_account_name(uri, "skill")?;
        return match skill_content(name.as_str()) {
            Some(content) => Ok(ResourceRead::Contents(single(uri, "text/markdown", content))),
            None => Err(
                ZocliError::UnsupportedOperation(cat("unknown embedded skill resource: ", uri)),
            ),
        };
    }
    Err(unknown_error(uri))
}

} // verus!
