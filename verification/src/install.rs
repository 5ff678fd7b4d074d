//! Registering the MCP server with desktop and command line clients: which clients, the
//! arguments of their native `mcp add` commands, and the report of what was done.
use vstd::prelude::*;
use crate::cli::{McpClientArg, McpTransportArg};
use crate::error::ZocliError;
use crate::text::{
    all_ws, is_all_whitespace, text_views, cat3, cat, trim, trim_seq, split_all, segments, str_eq,
    starts_with, has_prefix,
};
use crate::urls::{check_url, url_parse_failure};
use crate::json::{
    Json, json_text, to_json_text, is_text, is_text_array, is_text_object, text_json, text_array,
    text_object, first_member, first_value, member, json_values_equal, same_json,
};
use crate::commands::{put_where, set_member, lemma_first_key_found};
use crate::oauth::join_with;
use crate::commands::{bool_text, join_strings, join_lines, spec_join_lines};
use crate::text::{decimal, u64_to_string};

verus! {

broadcast use vstd::string::group_string_axioms;

/// A client the server can be registered with, in the order reports list them.
#[derive(PartialEq, Eq, Structural, Clone, Copy, Debug)]
pub enum InstallClient {
    Antigravity,
    Codex,
    Cursor,
    Gemini,
    Warp,
    Windsurf,
    Zed,
}

pub open spec fn spec_label(c: InstallClient) -> Seq<char> {
    match c {
        InstallClient::Antigravity => "antigravity"@,
        InstallClient::Codex => "codex"@,
        InstallClient::Cursor => "cursor"@,
        InstallClient::Gemini => "gemini"@,
        InstallClient::Warp => "warp"@,
        InstallClient::Windsurf => "windsurf"@,
        InstallClient::Zed => "zed"@,
    }
}

/// Clients registered through their own `mcp add` command line; the others through a JSON
/// settings file.
pub open spec fn uses_native_cli(c: InstallClient) -> bool {
    c == InstallClient::Codex || c == InstallClient::Gemini || c == InstallClient::Antigravity
}

/// The path under the home directory where a client looks for skills, if it has one.
pub open spec fn skills_subdir(c: InstallClient) -> Option<Seq<char>> {
    match c {
        InstallClient::Codex => Some(".agents/skills"@),
        InstallClient::Gemini => Some(".agents/skills"@),
        InstallClient::Cursor => Some(".cursor/skills"@),
        InstallClient::Windsurf => Some(".codeium/windsurf/skills"@),
        InstallClient::Warp => Some(".agents/skills"@),
        InstallClient::Antigravity => Some(".gemini/antigravity/skills"@),
        InstallClient::Zed => None,
    }
}

/// A relative path joined onto a base as `Path::join` does on Unix: a `/` goes between them
/// unless the base is empty or already ends with one.
pub open spec fn path_join(base: Seq<char>, rel: Seq<char>) -> Seq<char> {
    if base.len() == 0 {
        rel
    } else if base.last() == '/' {
        base + rel
    } else {
        base + "/"@ + rel
    }
}

pub fn join_path(base: &str, rel: &str) -> (r: String)
    ensures
        r@ == path_join(base@, rel@),
{
    let mut r = String::from_str(base);
    let n = base.unicode_len();
    if n > 0 && base.get_char(n - 1) != '/' {
        r.append("/");
    }
    r.append(rel);
    proof {
        if n == 0 {
            assert(r@ =~= rel@);
        }
    }
    r
}

impl InstallClient {
    pub fn label(self) -> (r: &'static str)
        ensures
            r@ == spec_label(self),
    {
        match self {
            InstallClient::Antigravity => "antigravity",
            InstallClient::Codex => "codex",
            InstallClient::Cursor => "cursor",
            InstallClient::Gemini => "gemini",
            InstallClient::Warp => "warp",
            InstallClient::Windsurf => "windsurf",
            InstallClient::Zed => "zed",
        }
    }

    /// `native_cli` or `json_file`.
    pub fn mechanism(self) -> (r: &'static str)
        ensures
            r@ == (if uses_native_cli(self) {
                "native_cli"@
            } else {
                "json_file"@
            }),
    {
        match self {
            InstallClient::Codex | InstallClient::Gemini | InstallClient::Antigravity => "native_cli",
            InstallClient::Cursor | InstallClient::Windsurf | InstallClient::Zed => "json_file",
            InstallClient::Warp => "json_file",
        }
    }

    /// Warp and Antigravity support is marked experimental.
    pub fn experimental(self) -> (r: bool)
        ensures
            r == (self == InstallClient::Warp || self == InstallClient::Antigravity),
    {
        match self {
            InstallClient::Warp | InstallClient::Antigravity => true,
            _ => false,
        }
    }

    /// Only Codex and Gemini have a known way to register an HTTP server.
    pub fn supports_http_transport(self) -> (r: bool)
        ensures
            r == (self == InstallClient::Codex || self == InstallClient::Gemini),
    {
        match self {
            InstallClient::Codex | InstallClient::Gemini => true,
            _ => false,
        }
    }

    /// Where this client reads skills from, under the home directory `home`.
    pub fn skills_dir(self, home: &str) -> (r: Option<String>)
        ensures
            match skills_subdir(self) {
                Some(rel) => r matches Some(p) && p@ == path_join(home@, rel),
                None => r is None,
            },
    {
        let rel: &str = match self {
            InstallClient::Codex => ".agents/skills",
            InstallClient::Gemini => ".agents/skills",
            InstallClient::Cursor => ".cursor/skills",
            InstallClient::Windsurf => ".codeium/windsurf/skills",
            InstallClient::Warp => ".agents/skills",
            InstallClient::Antigravity => ".gemini/antigravity/skills",
            InstallClient::Zed => {
                return None;
            },
        };
        Some(join_path(home, rel))
    }
}

/// Where under the home directory Cursor keeps its MCP settings.
pub open spec fn cursor_settings_rel() -> Seq<char> {
    ".cursor/mcp.json"@
}

/// Where under the home directory Windsurf keeps its MCP settings.
pub open spec fn windsurf_settings_rel() -> Seq<char> {
    ".codeium/mcp_config.json"@
}

/// Where under the home directory Warp keeps its MCP settings.
pub open spec fn warp_settings_rel() -> Seq<char> {
    ".warp/mcp_settings.json"@
}

/// Where under the home directory Zed keeps its settings: its application support folder on
/// macOS, else the XDG configuration folder.
pub open spec fn zed_settings_rel(macos: bool) -> Seq<char> {
    if macos {
        "Library/Application Support/Zed/settings.json"@
    } else {
        ".config/zed/settings.json"@
    }
}

/// Cursor's MCP settings, `~/.cursor/mcp.json`.
pub fn cursor_config_path(home: &str) -> (r: String)
    ensures
        r@ == path_join(home@, ".cursor/mcp.json"@),
        r@ == path_join(home@, cursor_settings_rel()),
{
    join_path(home, ".cursor/mcp.json")
}

/// Windsurf's MCP settings, `~/.codeium/mcp_config.json`.
pub fn windsurf_config_path(home: &str) -> (r: String)
    ensures
        r@ == path_join(home@, ".codeium/mcp_config.json"@),
        r@ == path_join(home@, windsurf_settings_rel()),
{
    join_path(home, ".codeium/mcp_config.json")
}

/// Where older Windsurf releases kept their MCP settings.
pub fn windsurf_legacy_config_paths(home: &str) -> (r: Vec<String>)
    ensures
        r@.len() == 1,
        r@[0]@ == path_join(home@, ".codeium/windsurf/mcp_config.json"@),
{
    let mut v: Vec<String> = Vec::new();
    v.push(join_path(home, ".codeium/windsurf/mcp_config.json"));
    v
}

/// Warp's MCP settings, `~/.warp/mcp_settings.json`.
pub fn warp_config_path(home: &str) -> (r: String)
    ensures
        r@ == path_join(home@, ".warp/mcp_settings.json"@),
        r@ == path_join(home@, warp_settings_rel()),
{
    join_path(home, ".warp/mcp_settings.json")
}

/// Zed's settings: under `Library/Application Support/Zed` on macOS, else `~/.config/zed`.
pub fn zed_settings_path(home: &str, macos: bool) -> (r: String)
    ensures
        r@ == path_join(
            home@,
            if macos {
                "Library/Application Support/Zed/settings.json"@
            } else {
                ".config/zed/settings.json"@
            },
        ),
        r@ == path_join(home@, zed_settings_rel(macos)),
{
    if macos {
        join_path(home, "Library/Application Support/Zed/settings.json")
    } else {
        join_path(home, ".config/zed/settings.json")
    }
}

/// The settings file a JSON-file client is registered in, under its home directory.
pub open spec fn primary_rel(c: InstallClient, macos: bool) -> Option<Seq<char>> {
    match c {
        InstallClient::Cursor => Some(".cursor/mcp.json"@),
        InstallClient::Windsurf => Some(".codeium/mcp_config.json"@),
        InstallClient::Warp => Some(".warp/mcp_settings.json"@),
        InstallClient::Zed => Some(
            if macos {
                "Library/Application Support/Zed/settings.json"@
            } else {
                ".config/zed/settings.json"@
            },
        ),
        _ => None,
    }
}

impl InstallClient {
    /// The settings file this client is registered in; None for clients with a command line.
    pub fn primary_path(self, home: &str, macos: bool) -> (r: Option<String>)
        ensures
            match primary_rel(self, macos) {
                Some(rel) => r matches Some(p) && p@ == path_join(home@, rel),
                None => r is None,
            },
    {
        match self {
            InstallClient::Cursor => Some(cursor_config_path(home)),
            InstallClient::Windsurf => Some(windsurf_config_path(home)),
            InstallClient::Warp => Some(warp_config_path(home)),
            InstallClient::Zed => Some(zed_settings_path(home, macos)),
            _ => None,
        }
    }
}

/// The settings file to update: the primary one if it exists, else the first fallback that
/// exists. Each path comes with whether it exists.
pub fn existing_config_path(primary: (String, bool), fallback_paths: Vec<(String, bool)>) -> (r:
    Option<String>)
    ensures
        primary.1 ==> r == Some(primary.0),
        !primary.1 ==> match r {
            Some(p) => exists|i: int|
                0 <= i < fallback_paths@.len() && (#[trigger] fallback_paths@[i]).1 && p
                    == fallback_paths@[i].0 && forall|j: int| 0 <= j < i ==> !fallback_paths@[j].1,
            None => forall|i: int| 0 <= i < fallback_paths@.len() ==> !(#[trigger] fallback_paths@[i]).1,
        },
{
    if primary.1 {
        return Some(primary.0);
    }
    let mut rest = fallback_paths;
    let ghost orig = rest@;
    let ghost mut i: int = 0;
    while rest.len() > 0
        invariant
            0 <= i,
            i + rest@.len() == orig.len(),
            rest@ == orig.skip(i),
            orig == fallback_paths@,
            !primary.1,
            forall|j: int| 0 <= j < i ==> !(#[trigger] orig[j]).1,
        decreases rest@.len(),
    {
        let candidate = rest.remove(0);
        proof {
            assert(candidate == orig[i]);
            assert(rest@ =~= orig.skip(i + 1));
        }
        if candidate.1 {
            proof {
                assert(0 <= i < fallback_paths@.len() && fallback_paths@[i].1);
            }
            return Some(candidate.0);
        }
        proof {
            i = i + 1;
        }
    }
    proof {
        assert forall|k: int| 0 <= k < fallback_paths@.len() implies !(
        #[trigger] fallback_paths@[k]).1 by {
            assert(!orig[k].1);
        }
    }
    None
}

/// Where to look for an executable, in order: each directory of the search path, and in it
/// each candidate file name.
pub open spec fn search_order(dirs: Seq<Seq<char>>, candidates: Seq<Seq<char>>) -> Seq<Seq<char>>
    decreases dirs.len(),
{
    if dirs.len() == 0 {
        Seq::empty()
    } else {
        search_order(dirs.drop_last(), candidates) + candidates.map_values(
            |c: Seq<char>| path_join(dirs.last(), c),
        )
    }
}

/// The paths to test, in order, when resolving an executable against the search path.
pub fn executable_search_paths(name: &str, dirs: &Vec<String>, pathext: Option<&str>) -> (r: Vec<
    String,
>)
    ensures
        text_views(r@) == search_order(
            text_views(dirs@),
            spec_executable_candidates(
                name@,
                match pathext {
                    Some(p) => Some(p@),
                    None => None,
                },
            ),
        ),
{
    let candidates = executable_candidates(name, pathext);
    let ghost cs = text_views(candidates@);
    let mut out: Vec<String> = Vec::new();
    let mut d: usize = 0;
    while d < dirs.len()
        invariant
            d <= dirs@.len(),
            text_views(out@) == search_order(text_views(dirs@.take(d as int)), cs),
            cs == text_views(candidates@),
        decreases dirs@.len() - d,
    {
        let ghost before = text_views(out@);
        let mut k: usize = 0;
        while k < candidates.len()
            invariant
                k <= candidates@.len(),
                d < dirs@.len(),
                text_views(out@) == before + cs.take(k as int).map_values(
                    |c: Seq<char>| path_join(dirs@[d as int]@, c),
                ),
                cs == text_views(candidates@),
            decreases candidates@.len() - k,
        {
            let ghost mid = text_views(out@);
            out.push(join_path(dirs[d].as_str(), candidates[k].as_str()));
            proof {
                assert(text_views(out@) =~= mid.push(path_join(dirs@[d as int]@, cs[k as int])));
                assert(cs.take(k + 1) =~= cs.take(k as int).push(cs[k as int]));
                assert(text_views(out@) =~= before + cs.take(k + 1).map_values(
                    |c: Seq<char>| path_join(dirs@[d as int]@, c),
                ));
            }
            k = k + 1;
        }
        proof {
            assert(cs.take(cs.len() as int) =~= cs);
            let t = text_views(dirs@.take(d + 1));
            assert(t.drop_last() =~= text_views(dirs@.take(d as int)));
            assert(t.last() == dirs@[d as int]@);
        }
        d = d + 1;
    }
    proof {
        assert(dirs@.take(dirs@.len() as int) =~= dirs@);
    }
    out
}

/// The client a command line choice names; None for the choices this library does not
/// register with.
pub open spec fn client_of(arg: McpClientArg) -> Option<InstallClient> {
    match arg {
        McpClientArg::Codex => Some(InstallClient::Codex),
        McpClientArg::Gemini => Some(InstallClient::Gemini),
        McpClientArg::Warp => Some(InstallClient::Warp),
        McpClientArg::Zed => Some(InstallClient::Zed),
        McpClientArg::Cursor => Some(InstallClient::Cursor),
        McpClientArg::Antigravity => Some(InstallClient::Antigravity),
        McpClientArg::Windsurf => Some(InstallClient::Windsurf),
        _ => None,
    }
}

pub fn client_of_arg(arg: McpClientArg) -> (r: Option<InstallClient>)
    ensures
        r == client_of(arg),
{
    match arg {
        McpClientArg::Codex => Some(InstallClient::Codex),
        McpClientArg::Gemini => Some(InstallClient::Gemini),
        McpClientArg::Warp => Some(InstallClient::Warp),
        McpClientArg::Zed => Some(InstallClient::Zed),
        McpClientArg::Cursor => Some(InstallClient::Cursor),
        McpClientArg::Antigravity => Some(InstallClient::Antigravity),
        McpClientArg::Windsurf => Some(InstallClient::Windsurf),
        _ => None,
    }
}

/// Whether `c` is among the clients to install into: every client when none was named,
/// else those named.
pub open spec fn client_chosen(selected: Seq<McpClientArg>, c: InstallClient) -> bool {
    ||| selected.len() == 0
    ||| exists|i: int| 0 <= i < selected.len() && client_of(#[trigger] selected[i]) == Some(c)
}

pub open spec fn if_chosen(selected: Seq<McpClientArg>, c: InstallClient) -> Seq<InstallClient> {
    if client_chosen(selected, c) {
        seq![c]
    } else {
        Seq::empty()
    }
}

/// The chosen clients, each once, in the order of `InstallClient`.
pub open spec fn resolved_clients(selected: Seq<McpClientArg>) -> Seq<InstallClient> {
    if_chosen(selected, InstallClient::Antigravity) + if_chosen(selected, InstallClient::Codex)
        + if_chosen(selected, InstallClient::Cursor) + if_chosen(selected, InstallClient::Gemini)
        + if_chosen(selected, InstallClient::Warp) + if_chosen(selected, InstallClient::Windsurf)
        + if_chosen(selected, InstallClient::Zed)
}

/// A client's position in the order of `InstallClient`.
pub open spec fn rank(c: InstallClient) -> int {
    match c {
        InstallClient::Antigravity => 0,
        InstallClient::Codex => 1,
        InstallClient::Cursor => 2,
        InstallClient::Gemini => 3,
        InstallClient::Warp => 4,
        InstallClient::Windsurf => 5,
        InstallClient::Zed => 6,
    }
}

pub open spec fn ranked_below(s: Seq<InstallClient>, bound: int) -> bool {
    &&& forall|i: int, j: int| 0 <= i < j < s.len() ==> rank(#[trigger] s[i]) < rank(#[trigger] s[j])
    &&& forall|i: int| 0 <= i < s.len() ==> rank(#[trigger] s[i]) < bound
}

pub open spec fn client_at(k: int) -> InstallClient {
    if k <= 0 {
        InstallClient::Antigravity
    } else if k == 1 {
        InstallClient::Codex
    } else if k == 2 {
        InstallClient::Cursor
    } else if k == 3 {
        InstallClient::Gemini
    } else if k == 4 {
        InstallClient::Warp
    } else if k == 5 {
        InstallClient::Windsurf
    } else {
        InstallClient::Zed
    }
}

/// The chosen clients among the first `k` in order.
pub open spec fn chosen_prefix(selected: Seq<McpClientArg>, k: nat) -> Seq<InstallClient>
    decreases k,
{
    if k == 0 {
        Seq::empty()
    } else {
        chosen_prefix(selected, (k - 1) as nat) + if_chosen(selected, client_at(k - 1))
    }
}

proof fn lemma_chosen_prefix(selected: Seq<McpClientArg>, k: nat)
    requires
        k <= 7,
    ensures
        ranked_below(chosen_prefix(selected, k), k as int),
        forall|c: InstallClient|
            rank(c) < k ==> (chosen_prefix(selected, k).contains(c) <==> client_chosen(
                selected,
                c,
            )),
        forall|c: InstallClient| rank(c) >= k ==> !chosen_prefix(selected, k).contains(c),
    decreases k,
{
    if k > 0 {
        let k1 = (k - 1) as nat;
        lemma_chosen_prefix(selected, k1);
        let s = chosen_prefix(selected, k1);
        let c = client_at(k - 1);
        assert(rank(c) == k - 1);
        let t = s + if_chosen(selected, c);
        assert(t == chosen_prefix(selected, k));
        assert forall|i: int, j: int| 0 <= i < j < t.len() implies rank(#[trigger] t[i]) < rank(
            #[trigger] t[j],
        ) by {
            if j >= s.len() {
                assert(t[j] == c);
            }
        }
        assert forall|i: int| 0 <= i < t.len() implies rank(#[trigger] t[i]) < k by {
            if i >= s.len() {
                assert(t[i] == c);
            }
        }
        assert forall|d: InstallClient| rank(d) < k implies (t.contains(d) <==> client_chosen(
            selected,
            d,
        )) by {
            if d == c {
                if client_chosen(selected, c) {
                    assert(t[s.len() as int] == c);
                } else {
                    assert(t =~= s);
                }
            } else {
                assert(rank(d) < k - 1);
                if t.contains(d) {
                    let i = choose|i: int| 0 <= i < t.len() && t[i] == d;
                    if i >= s.len() {
                        assert(t[i] == c);
                    }
                    assert(s[i] == d);
                }
                if s.contains(d) {
                    let i = choose|i: int| 0 <= i < s.len() && s[i] == d;
                    assert(t[i] == d);
                }
            }
        }
        assert forall|d: InstallClient| rank(d) >= k implies !t.contains(d) by {
            if t.contains(d) {
                let i = choose|i: int| 0 <= i < t.len() && t[i] == d;
                if i >= s.len() {
                    assert(t[i] == c);
                } else {
                    assert(s[i] == d);
                }
            }
        }
    }
}

/// The clients to install into come in the order of `InstallClient`, each at most once; a
/// client is there exactly when it is chosen: all of them when none is named, else every
/// named one.
pub proof fn law_resolved_clients(selected: Seq<McpClientArg>)
    ensures
        forall|i: int, j: int|
            0 <= i < j < resolved_clients(selected).len() ==> rank(
                #[trigger] resolved_clients(selected)[i],
            ) < rank(#[trigger] resolved_clients(selected)[j]),
        forall|c: InstallClient|
            resolved_clients(selected).contains(c) <==> client_chosen(selected, c),
{
    lemma_chosen_prefix(selected, 7);
    reveal_with_fuel(chosen_prefix, 8);
    assert(resolved_clients(selected) =~= chosen_prefix(selected, 7));
    assert forall|c: InstallClient| rank(c) < 7 by {}
}

fn named(selected: &Vec<McpClientArg>, c: InstallClient) -> (r: bool)
    ensures
        r == exists|i: int| 0 <= i < selected@.len() && client_of(#[trigger] selected@[i]) == Some(c),
{
    let mut i: usize = 0;
    while i < selected.len()
        invariant
            i <= selected@.len(),
            forall|j: int| 0 <= j < i ==> client_of(#[trigger] selected@[j]) != Some(c),
        decreases selected@.len() - i,
    {
        if client_of_arg(selected[i]) == Some(c) {
            return true;
        }
        i = i + 1;
    }
    false
}

fn chosen(selected: &Vec<McpClientArg>, c: InstallClient) -> (r: bool)
    ensures
        r == client_chosen(selected@, c),
{
    selected.len() == 0 || named(selected, c)
}

fn push_if_chosen(out: &mut Vec<InstallClient>, selected: &Vec<McpClientArg>, c: InstallClient)
    ensures
        final(out)@ == old(out)@ + if_chosen(selected@, c),
{
    if chosen(selected, c) {
        out.push(c);
    } else {
        assert(old(out)@ + if_chosen(selected@, c) =~= old(out)@);
    }
}

/// The clients to install into, each once and in order.
pub fn resolve_clients(selected: &Vec<McpClientArg>) -> (r: Vec<InstallClient>)
    ensures
        r@ == resolved_clients(selected@),
{
    let mut out: Vec<InstallClient> = Vec::new();
    push_if_chosen(&mut out, selected, InstallClient::Antigravity);
    push_if_chosen(&mut out, selected, InstallClient::Codex);
    push_if_chosen(&mut out, selected, InstallClient::Cursor);
    push_if_chosen(&mut out, selected, InstallClient::Gemini);
    push_if_chosen(&mut out, selected, InstallClient::Warp);
    push_if_chosen(&mut out, selected, InstallClient::Windsurf);
    push_if_chosen(&mut out, selected, InstallClient::Zed);
    assert(out@ =~= resolved_clients(selected@));
    out
}

/// How a client is told to start or reach the server. `env` is in key order, each key once.
#[derive(Debug)]
pub struct ServerRegistration {
    pub transport: McpTransportArg,
    pub command: Option<String>,
    pub args: Vec<String>,
    pub env: Vec<(String, String)>,
    pub url: Option<String>,
}

pub open spec fn opt_text(o: Option<String>) -> Seq<char> {
    match o {
        Some(s) => s@,
        None => Seq::empty(),
    }
}

/// The HTTP endpoint registered when none is given.
pub open spec fn default_http_url() -> Seq<char> {
    "http://127.0.0.1:8787/mcp"@
}

/// The registration for a transport: over HTTP the given URL (or the default) once it parses
/// as a URL; over stdio the executable `command` with argument `mcp`, passing
/// `ZOCLI_CONFIG_DIR` on when it is set to something other than blanks.
pub open spec fn registration_ok(
    transport: McpTransportArg,
    url: Option<String>,
    command: Seq<char>,
    config_dir: Option<String>,
    reg: ServerRegistration,
) -> bool {
    &&& reg.transport == transport
    &&& match transport {
        McpTransportArg::Http => {
            &&& reg.command is None
            &&& reg.args@.len() == 0
            &&& reg.env@.len() == 0
            &&& reg.url matches Some(u) && u@ == (match url {
                Some(x) => x@,
                None => default_http_url(),
            })
        },
        McpTransportArg::Stdio => {
            &&& reg.command matches Some(c) && c@ == command
            &&& text_views(reg.args@) == seq!["mcp"@]
            &&& reg.url is None
            &&& match config_dir {
                Some(v) if !all_ws(v@) => reg.env@.len() == 1 && reg.env@[0].0@
                    == "ZOCLI_CONFIG_DIR"@ && reg.env@[0].1@ == v@,
                _ => reg.env@.len() == 0,
            }
        },
    }
}

/// Builds the registration. `command` is the path of the running executable and
/// `config_dir` the value of `ZOCLI_CONFIG_DIR`, both read by the caller. An HTTP URL that
/// does not parse is a validation error naming it.
pub fn canonical_registration(
    transport: McpTransportArg,
    url: Option<String>,
    command: String,
    config_dir: Option<String>,
) -> (r: Result<ServerRegistration, ZocliError>)
    ensures
        match r {
            Ok(reg) => registration_ok(transport, url, command@, config_dir, reg) && (transport
                == McpTransportArg::Http ==> url_parse_failure(opt_text(reg.url)) is None),
            Err(e) => transport == McpTransportArg::Http && {
                let u = match url {
                    Some(x) => x@,
                    None => default_http_url(),
                };
                url_parse_failure(u) matches Some(msg) && e matches ZocliError::Validation(m)
                    && m@ == "invalid MCP HTTP URL `"@ + u + "`: "@ + msg
            },
        },
{
    match transport {
        McpTransportArg::Http => {
            let resolved = match url {
                Some(x) => x,
                None => String::from_str("http://127.0.0.1:8787/mcp"),
            };
            match check_url(resolved.as_str()) {
                Some(msg) => {
                    let head = cat3("invalid MCP HTTP URL `", resolved.as_str(), "`: ");
                    let mut m = head;
                    m.append(msg.as_str());
                    Err(ZocliError::Validation(m))
                },
                None => Ok(
                    ServerRegistration {
                        transport,
                        command: None,
                        args: Vec::new(),
                        env: Vec::new(),
                        url: Some(resolved),
                    },
                ),
            }
        },
        McpTransportArg::Stdio => {
            let mut env: Vec<(String, String)> = Vec::new();
            match config_dir {
                Some(v) => {
                    if !is_all_whitespace(v.as_str()) {
                        env.push((String::from_str("ZOCLI_CONFIG_DIR"), v));
                    }
                },
                None => {},
            }
            let mut args: Vec<String> = Vec::new();
            args.push(String::from_str("mcp"));
            assert(text_views(args@) =~= seq!["mcp"@]);
            Ok(
                ServerRegistration {
                    transport,
                    command: Some(command),
                    args,
                    env,
                    url: None,
                },
            )
        },
    }
}

/// `flag`, `KEY=value` for each environment entry, in order.
pub open spec fn env_flags(env: Seq<(String, String)>, flag: Seq<char>) -> Seq<Seq<char>>
    decreases env.len(),
{
    if env.len() == 0 {
        Seq::empty()
    } else {
        env_flags(env.drop_last(), flag) + seq![flag, env.last().0@ + "="@ + env.last().1@]
    }
}

fn push_text(out: &mut Vec<String>, s: &str)
    ensures
        text_views(final(out)@) == text_views(old(out)@).push(s@),
{
    out.push(String::from_str(s));
    assert(text_views(out@) =~= text_views(old(out)@).push(s@));
}

fn push_texts(out: &mut Vec<String>, items: &Vec<String>)
    ensures
        text_views(final(out)@) == text_views(old(out)@) + text_views(items@),
{
    let mut i: usize = 0;
    while i < items.len()
        invariant
            i <= items@.len(),
            text_views(out@) == text_views(old(out)@) + text_views(items@.take(i as int)),
        decreases items@.len() - i,
    {
        push_text(out, items[i].as_str());
        assert(text_views(items@.take(i + 1)) =~= text_views(items@.take(i as int)).push(
            items@[i as int]@,
        ));
        i = i + 1;
    }
    assert(items@.take(items@.len() as int) =~= items@);
}

fn push_env_flags(out: &mut Vec<String>, env: &Vec<(String, String)>, flag: &str)
    ensures
        text_views(final(out)@) == text_views(old(out)@) + env_flags(env@, flag@),
{
    let mut i: usize = 0;
    while i < env.len()
        invariant
            i <= env@.len(),
            text_views(out@) == text_views(old(out)@) + env_flags(env@.take(i as int), flag@),
        decreases env@.len() - i,
    {
        let ghost before = text_views(out@);
        push_text(out, flag);
        let pair = cat3(env[i].0.as_str(), "=", env[i].1.as_str());
        push_text(out, pair.as_str());
        assert(env@.take(i + 1).drop_last() =~= env@.take(i as int));
        assert(text_views(out@) =~= text_views(old(out)@) + env_flags(env@.take(i + 1), flag@));
        i = i + 1;
    }
    assert(env@.take(env@.len() as int) =~= env@);
}

fn text_of(o: &Option<String>) -> (r: &str)
    ensures
        r@ == opt_text(*o),
{
    match o {
        Some(s) => s.as_str(),
        None => {
            proof {
                reveal_strlit("");
            }
            ""
        },
    }
}

/// `codex mcp add` arguments.
pub open spec fn codex_add_args(reg: ServerRegistration) -> Seq<Seq<char>> {
    match reg.transport {
        McpTransportArg::Stdio => seq!["mcp"@, "add"@, "zocli"@] + env_flags(reg.env@, "--env"@)
            + seq!["--"@, opt_text(reg.command)] + text_views(reg.args@),
        McpTransportArg::Http => seq!["mcp"@, "add"@, "zocli"@, "--url"@, opt_text(reg.url)],
    }
}

/// `gemini mcp add` arguments, registered at user scope.
pub open spec fn gemini_add_args(reg: ServerRegistration) -> Seq<Seq<char>> {
    seq!["mcp"@, "add"@, "-s"@, "user"@] + match reg.transport {
        McpTransportArg::Stdio => seq!["zocli"@] + env_flags(reg.env@, "-e"@) + seq![
            "--"@,
            opt_text(reg.command),
        ] + text_views(reg.args@),
        McpTransportArg::Http => seq!["--transport"@, "http"@, "zocli"@, opt_text(reg.url)],
    }
}

pub fn build_codex_add_args(reg: &ServerRegistration) -> (r: Vec<String>)
    ensures
        text_views(r@) == codex_add_args(*reg),
{
    let mut out: Vec<String> = Vec::new();
    match reg.transport {
        McpTransportArg::Stdio => {
            push_text(&mut out, "mcp");
            push_text(&mut out, "add");
            push_text(&mut out, "zocli");
            push_env_flags(&mut out, &reg.env, "--env");
            push_text(&mut out, "--");
            push_text(&mut out, text_of(&reg.command));
            push_texts(&mut out, &reg.args);
        },
        McpTransportArg::Http => {
            push_text(&mut out, "mcp");
            push_text(&mut out, "add");
            push_text(&mut out, "zocli");
            push_text(&mut out, "--url");
            push_text(&mut out, text_of(&reg.url));
        },
    }
    assert(text_views(out@) =~= codex_add_args(*reg));
    out
}

pub fn build_gemini_add_args(reg: &ServerRegistration) -> (r: Vec<String>)
    ensures
        text_views(r@) == gemini_add_args(*reg),
{
    let mut out: Vec<String> = Vec::new();
    push_text(&mut out, "mcp");
    push_text(&mut out, "add");
    push_text(&mut out, "-s");
    push_text(&mut out, "user");
    match reg.transport {
        McpTransportArg::Stdio => {
            push_text(&mut out, "zocli");
            push_env_flags(&mut out, &reg.env, "-e");
            push_text(&mut out, "--");
            push_text(&mut out, text_of(&reg.command));
            push_texts(&mut out, &reg.args);
        },
        McpTransportArg::Http => {
            push_text(&mut out, "--transport");
            push_text(&mut out, "http");
            push_text(&mut out, "zocli");
            push_text(&mut out, text_of(&reg.url));
        },
    }
    assert(text_views(out@) =~= gemini_add_args(*reg));
    out
}

/// Whether `std::path::Path::extension` finds an extension in a path.
pub uninterp spec fn path_has_extension(path: Seq<char>) -> bool;

/// `Path::new(name).extension().is_some()`. Its documentation: there is no extension without
/// an embedded `.`; the rest (file name rules) is left to the name.
#[verifier::external_body]
fn has_extension(name: &str) -> (r: bool)
    ensures
        r == path_has_extension(name@),
        (forall|i: int| 0 <= i < name@.len() ==> name@[i] != '.') ==> !r,
{
    std::path::Path::new(name).extension().is_some()
}

/// An extension from `PATHEXT` with its leading dot.
pub open spec fn dotted(ext: Seq<char>) -> Seq<char> {
    if ext.len() > 0 && ext[0] == '.' {
        ext
    } else {
        "."@ + ext
    }
}

/// `acc` extended, in order, with `name` plus each non-blank trimmed extension of `exts`
/// not yet in it.
pub open spec fn add_candidates(
    name: Seq<char>,
    exts: Seq<Seq<char>>,
    acc: Seq<Seq<char>>,
) -> Seq<Seq<char>>
    decreases exts.len(),
{
    if exts.len() == 0 {
        acc
    } else {
        let e = trim_seq(exts[0]);
        let next = if e.len() == 0 {
            acc
        } else if acc.contains(name + dotted(e)) {
            acc
        } else {
            acc.push(name + dotted(e))
        };
        add_candidates(name, exts.drop_first(), next)
    }
}

/// File names to look for on `PATH`: the name itself, then, when it has no extension, the
/// name with each `;`-separated `PATHEXT` extension.
pub open spec fn spec_executable_candidates(
    name: Seq<char>,
    pathext: Option<Seq<char>>,
) -> Seq<Seq<char>> {
    if path_has_extension(name) {
        seq![name]
    } else {
        match pathext {
            Some(p) => add_candidates(name, segments(p, ';'), seq![name]),
            None => seq![name],
        }
    }
}

fn contains_text(v: &Vec<String>, s: &str) -> (r: bool)
    ensures
        r == text_views(v@).contains(s@),
{
    let mut i: usize = 0;
    while i < v.len()
        invariant
            i <= v@.len(),
            forall|j: int| 0 <= j < i ==> #[trigger] v@[j]@ != s@,
        decreases v@.len() - i,
    {
        if str_eq(v[i].as_str(), s) {
            assert(text_views(v@)[i as int] == s@);
            return true;
        }
        i = i + 1;
    }
    proof {
        if text_views(v@).contains(s@) {
            let j = choose|j: int| 0 <= j < text_views(v@).len() && text_views(v@)[j] == s@;
            assert(v@[j]@ == s@);
        }
    }
    false
}

pub fn executable_candidates(name: &str, pathext: Option<&str>) -> (r: Vec<String>)
    ensures
        text_views(r@) == spec_executable_candidates(
            name@,
            match pathext {
                Some(p) => Some(p@),
                None => None,
            },
        ),
{
    let mut out: Vec<String> = Vec::new();
    push_text(&mut out, name);
    assert(text_views(out@) =~= seq![name@]);
    if has_extension(name) {
        return out;
    }
    match pathext {
        None => out,
        Some(p) => {
            let parts = split_all(p, ';');
            let ghost segs = segments(p@, ';');
            let ghost goal = add_candidates(name@, segs, seq![name@]);
            let mut i: usize = 0;
            assert(segs.subrange(0, segs.len() as int) =~= segs);
            while i < parts.len()
                invariant
                    text_views(parts@) == segs,
                    i <= parts@.len(),
                    add_candidates(name@, segs.subrange(i as int, segs.len() as int), text_views(out@))
                        == goal,
                decreases parts@.len() - i,
            {
                let ghost rest = segs.subrange(i as int, segs.len() as int);
                assert(rest[0] == parts@[i as int]@);
                assert(rest.drop_first() =~= segs.subrange(i + 1, segs.len() as int));
                let ext = trim(parts[i].as_str());
                if !ext.as_str().is_empty() {
                    let normalized = if starts_with(ext.as_str(), ".") {
                        proof {
                            reveal_strlit(".");
                            assert(ext@.subrange(0, 1)[0] == ext@[0]);
                        }
                        ext.clone()
                    } else {
                        proof {
                            reveal_strlit(".");
                            if ext@.len() > 0 && ext@[0] == '.' {
                                assert(ext@.subrange(0, 1) =~= "."@);
                            }
                        }
                        cat(".", ext.as_str())
                    };
                    assert(normalized@ == dotted(ext@));
                    let candidate = cat(name, normalized.as_str());
                    if !contains_text(&out, candidate.as_str()) {
                        let ghost before = text_views(out@);
                        out.push(candidate);
                        assert(text_views(out@) =~= before.push(name@ + dotted(ext@)));
                    }
                } else {
                    assert(ext@.len() == 0);
                }
                i = i + 1;
            }
            assert(segs.subrange(segs.len() as int, segs.len() as int) =~= Seq::<Seq<char>>::empty());
            out
        },
    }
}

/// The JSON payload Antigravity's `--add-mcp` takes: `args`, `command`, `env` and `name`,
/// members in key order as `serde_json` keeps them.
pub open spec fn electron_payload(p: Json, reg: ServerRegistration) -> bool {
    p matches Json::Object(ms) && ms@.len() == 4 && ms@[0].0@ == "args"@ && is_text_array(
        ms@[0].1,
        text_views(reg.args@),
    ) && ms@[1].0@ == "command"@ && is_text(ms@[1].1, opt_text(reg.command)) && ms@[2].0@
        == "env"@ && is_text_object(ms@[2].1, reg.env@) && ms@[3].0@ == "name"@ && is_text(
        ms@[3].1,
        "zocli"@,
    )
}

pub fn electron_add_payload(reg: &ServerRegistration) -> (p: Json)
    ensures
        electron_payload(p, *reg),
{
    let mut ms: Vec<(String, Json)> = Vec::new();
    ms.push((String::from_str("args"), text_array(&reg.args)));
    ms.push((String::from_str("command"), text_json(text_of(&reg.command))));
    ms.push((String::from_str("env"), text_object(&reg.env)));
    ms.push((String::from_str("name"), text_json("zocli")));
    assert(reg.args@.map_values(|x: String| x@) == text_views(reg.args@));
    Json::Object(ms)
}

/// Antigravity's arguments: `--add-mcp` and the payload as compact JSON text.
pub fn build_electron_add_args(reg: &ServerRegistration) -> (r: Vec<String>)
    ensures
        r@.len() == 2,
        r@[0]@ == "--add-mcp"@,
        exists|p: Json| electron_payload(p, *reg) && r@[1]@ == json_text(p),
{
    let payload = electron_add_payload(reg);
    let mut out: Vec<String> = Vec::new();
    out.push(String::from_str("--add-mcp"));
    out.push(to_json_text(&payload));
    out
}

/// The members of the server entry written into a JSON settings file: over stdio `args`,
/// `command` (when known) and `env` (when not empty); over HTTP `url` (when known).
pub open spec fn server_members(ms: Seq<(String, Json)>, reg: ServerRegistration) -> bool {
    match reg.transport {
        McpTransportArg::Stdio => {
            let n_cmd: int = if reg.command is Some {
                1
            } else {
                0
            };
            let n_env: int = if reg.env@.len() > 0 {
                1
            } else {
                0
            };
            &&& ms.len() == 1 + n_cmd + n_env
            &&& ms[0].0@ == "args"@ && is_text_array(ms[0].1, text_views(reg.args@))
            &&& (reg.command matches Some(c) ==> ms[1].0@ == "command"@ && is_text(ms[1].1, c@))
            &&& (reg.env@.len() > 0 ==> ms[1 + n_cmd].0@ == "env"@ && is_text_object(
                ms[1 + n_cmd].1,
                reg.env@,
            ))
        },
        McpTransportArg::Http => match reg.url {
            Some(u) => ms.len() == 1 && ms[0].0@ == "url"@ && is_text(ms[0].1, u@),
            None => ms.len() == 0,
        },
    }
}

pub open spec fn server_entry(e: Json, reg: ServerRegistration) -> bool {
    e matches Json::Object(ms) && server_members(ms@, reg)
}

pub fn json_server_entry(reg: &ServerRegistration) -> (e: Json)
    ensures
        server_entry(e, *reg),
{
    let mut ms: Vec<(String, Json)> = Vec::new();
    match reg.transport {
        McpTransportArg::Stdio => {
            ms.push((String::from_str("args"), text_array(&reg.args)));
            assert(reg.args@.map_values(|x: String| x@) == text_views(reg.args@));
            match &reg.command {
                Some(c) => {
                    ms.push((String::from_str("command"), text_json(c.as_str())));
                },
                None => {},
            }
            if reg.env.len() > 0 {
                ms.push((String::from_str("env"), text_object(&reg.env)));
            }
        },
        McpTransportArg::Http => {
            match &reg.url {
                Some(u) => {
                    ms.push((String::from_str("url"), text_json(u.as_str())));
                },
                None => {},
            }
        },
    }
    Json::Object(ms)
}


/// What happened for one client.
#[derive(Debug)]
pub struct InstallItem {
    pub client: String,
    /// `installed`, `already_installed`, `skipped` or `failed`.
    pub status: String,
    pub mechanism: String,
    pub experimental: bool,
    pub detected: bool,
    pub detail: String,
    pub path: Option<String>,
    pub backup_path: Option<String>,
    pub skills_path: Option<String>,
    pub skills_count: Option<u64>,
}

pub open spec fn mechanism_text(c: InstallClient) -> Seq<char> {
    if uses_native_cli(c) {
        "native_cli"@
    } else {
        "json_file"@
    }
}

/// An item for `client` with the given status, detection, detail and path, nothing else set.
pub open spec fn item_is(
    item: InstallItem,
    client: InstallClient,
    status: Seq<char>,
    detected: bool,
    detail: Seq<char>,
    path: Option<Seq<char>>,
) -> bool {
    &&& item.client@ == spec_label(client)
    &&& item.status@ == status
    &&& item.mechanism@ == mechanism_text(client)
    &&& item.experimental == (client == InstallClient::Warp || client == InstallClient::Antigravity)
    &&& item.detected == detected
    &&& item.detail@ == detail
    &&& match path {
        Some(p) => item.path matches Some(x) && x@ == p,
        None => item.path is None,
    }
    &&& item.backup_path is None
    &&& item.skills_path is None
    &&& item.skills_count is None
}

pub open spec fn opt_view(o: Option<String>) -> Option<Seq<char>> {
    match o {
        Some(s) => Some(s@),
        None => None,
    }
}

fn new_item(
    client: InstallClient,
    status: &str,
    detected: bool,
    detail: String,
    path: Option<String>,
) -> (r: InstallItem)
    ensures
        item_is(r, client, status@, detected, detail@, opt_view(path)),
{
    InstallItem {
        client: String::from_str(client.label()),
        status: String::from_str(status),
        mechanism: String::from_str(client.mechanism()),
        experimental: client.experimental(),
        detected,
        detail,
        path,
        backup_path: None,
        skills_path: None,
        skills_count: None,
    }
}

/// A client left alone, with the reason; `primary_path` is its settings file, if it has one.
pub fn skipped_item(client: InstallClient, detail: String, primary_path: Option<String>) -> (r:
    InstallItem)
    ensures
        item_is(r, client, "skipped"@, false, detail@, opt_view(primary_path)),
{
    new_item(client, "skipped", false, detail, primary_path)
}

/// The first decision for a client: over HTTP, a client without a known HTTP registration is
/// skipped; otherwise None, and installing goes on.
pub fn transport_skip(
    client: InstallClient,
    transport: McpTransportArg,
    primary_path: Option<String>,
) -> (r: Option<InstallItem>)
    ensures
        match r {
            Some(item) => transport == McpTransportArg::Http && !(client == InstallClient::Codex
                || client == InstallClient::Gemini) && item_is(
                item,
                client,
                "skipped"@,
                false,
                spec_label(client) + " does not have a verified native HTTP registration flow yet"@,
                opt_view(primary_path),
            ),
            None => transport == McpTransportArg::Stdio || client == InstallClient::Codex || client
                == InstallClient::Gemini,
        },
{
    if transport == McpTransportArg::Http && !client.supports_http_transport() {
        let detail = cat(
            client.label(),
            " does not have a verified native HTTP registration flow yet",
        );
        Some(skipped_item(client, detail, primary_path))
    } else {
        None
    }
}

/// A client whose command line tool is not on `PATH`.
pub fn missing_executable_item(
    client: InstallClient,
    executable: &str,
    primary_path: Option<String>,
) -> (r: InstallItem)
    ensures
        item_is(
            r,
            client,
            "skipped"@,
            false,
            executable@ + " is not available on PATH"@,
            opt_view(primary_path),
        ),
{
    skipped_item(client, cat(executable, " is not available on PATH"), primary_path)
}

/// A client registered through a settings file that is not installed on this machine.
pub fn not_installed_item(client: InstallClient, primary_path: Option<String>) -> (r: InstallItem)
    ensures
        item_is(
            r,
            client,
            "skipped"@,
            false,
            spec_label(client) + " is not installed locally"@,
            opt_view(primary_path),
        ),
{
    skipped_item(client, cat(client.label(), " is not installed locally"), primary_path)
}

pub open spec fn refused_message(executable: Seq<char>) -> Seq<char> {
    executable + " refused to add the `zocli` MCP server"@
}

/// The outcome of `<tool> mcp get zocli` then, when that fails, `<tool> mcp add ...`:
/// `already` is whether `get` succeeded, `added` whether `add` did.
pub fn native_get_add_result(
    client: InstallClient,
    executable: &str,
    already: bool,
    added: bool,
) -> (r: Result<InstallItem, ZocliError>)
    ensures
        already ==> (r matches Ok(item) && item_is(
            item,
            client,
            "already_installed"@,
            true,
            executable@ + " already has a `zocli` MCP server entry"@,
            None,
        )),
        !already && added ==> (r matches Ok(item) && item_is(
            item,
            client,
            "installed"@,
            true,
            executable@ + " registered `zocli` using its native MCP CLI"@,
            None,
        )),
        !already && !added ==> (r matches Err(ZocliError::Config(m)) && m@ == refused_message(
            executable@,
        )),
{
    if already {
        Ok(
            new_item(
                client,
                "already_installed",
                true,
                cat(executable, " already has a `zocli` MCP server entry"),
                None,
            ),
        )
    } else if !added {
        Err(ZocliError::Config(cat(executable, " refused to add the `zocli` MCP server")))
    } else {
        Ok(
            new_item(
                client,
                "installed",
                true,
                cat(executable, " registered `zocli` using its native MCP CLI"),
                None,
            ),
        )
    }
}

/// The outcome of `<tool> <add arguments>` for clients without a `get` command.
pub fn native_add_only_result(client: InstallClient, executable: &str, added: bool) -> (r: Result<
    InstallItem,
    ZocliError,
>)
    ensures
        added ==> (r matches Ok(item) && item_is(
            item,
            client,
            "installed"@,
            true,
            executable@ + " accepted the `zocli` MCP registration"@,
            None,
        )),
        !added ==> (r matches Err(ZocliError::Config(m)) && m@ == refused_message(executable@)),
{
    if added {
        Ok(
            new_item(
                client,
                "installed",
                true,
                cat(executable, " accepted the `zocli` MCP registration"),
                None,
            ),
        )
    } else {
        Err(ZocliError::Config(cat(executable, " refused to add the `zocli` MCP server")))
    }
}

/// The outcome of writing the entry under `top_level_key` into the settings file at `path`:
/// `written` when it had to be written (and `backup_path` names the copy of the old file,
/// if one was made), else the file already held it.
pub fn json_file_item(
    client: InstallClient,
    written: bool,
    top_level_key: &str,
    path: String,
    backup_path: Option<String>,
) -> (r: InstallItem)
    ensures
        r.client@ == spec_label(client),
        r.status@ == (if written {
            "installed"@
        } else {
            "already_installed"@
        }),
        r.mechanism@ == mechanism_text(client),
        r.experimental == (client == InstallClient::Warp || client == InstallClient::Antigravity),
        r.detected,
        r.detail@ == (if written {
            "updated"@
        } else {
            "already contains"@
        }) + " "@ + top_level_key@ + " `zocli` in "@ + path@,
        r.path matches Some(p) && p@ == path@,
        r.backup_path == backup_path,
        r.skills_path is None,
        r.skills_count is None,
{
    let verb = if written {
        "updated"
    } else {
        "already contains"
    };
    let mut detail = cat3(verb, " ", top_level_key);
    detail.append(" `zocli` in ");
    detail.append(path.as_str());
    let mut item = new_item(
        client,
        if written {
            "installed"
        } else {
            "already_installed"
        },
        true,
        detail,
        Some(path),
    );
    item.backup_path = backup_path;
    item
}

/// Where to install skills for a client once its registration is done: nowhere when it was
/// skipped or not detected, or has no skills directory; else its directory under `home`.
pub fn skills_target(client: InstallClient, item: &InstallItem, home: &str) -> (r: Option<String>)
    ensures
        match r {
            Some(dir) => item.detected && item.status@ != "skipped"@ && (skills_subdir(client)
                matches Some(rel) && dir@ == path_join(home@, rel)),
            None => !item.detected || item.status@ == "skipped"@ || skills_subdir(client) is None,
        },
{
    if !item.detected || str_eq(item.status.as_str(), "skipped") {
        return None;
    }
    client.skills_dir(home)
}

/// Records the skills installed into `dir`: their number, or 0 when installing failed.
pub fn record_skills(item: &mut InstallItem, dir: String, installed: Option<u64>)
    ensures
        final(item).skills_path matches Some(p) && p@ == dir@,
        final(item).skills_count == Some(
            match installed {
                Some(n) => n,
                None => 0u64,
            },
        ),
        final(item).client == old(item).client,
        final(item).status == old(item).status,
        final(item).mechanism == old(item).mechanism,
        final(item).experimental == old(item).experimental,
        final(item).detected == old(item).detected,
        final(item).detail == old(item).detail,
        final(item).path == old(item).path,
        final(item).backup_path == old(item).backup_path,
{
    item.skills_path = Some(dir);
    item.skills_count = Some(
        match installed {
            Some(n) => n,
            None => 0,
        },
    );
}

pub open spec fn skills_cell(n: Option<u64>) -> Seq<char> {
    match n {
        Some(k) => decimal(k as nat),
        None => "-"@,
    }
}

pub open spec fn item_row(item: InstallItem) -> Seq<char> {
    item.client@ + "\t"@ + item.status@ + "\t"@ + item.mechanism@ + "\t"@ + bool_text(
        item.experimental,
    ) + "\t"@ + skills_cell(item.skills_count) + "\t"@ + item.detail@
}

/// The lines of the install report: the server, then one row per client.
pub open spec fn install_lines(reg: ServerRegistration, items: Seq<InstallItem>) -> Seq<
    Seq<char>,
> {
    seq![
        "SERVER\tzocli"@,
        "TRANSPORT\t"@ + (match reg.transport {
            McpTransportArg::Stdio => "stdio"@,
            McpTransportArg::Http => "http"@,
        }),
        "COMMAND\t"@ + opt_text(reg.command),
        "ARGS\t"@ + join_with(text_views(reg.args@), " "@),
        "URL\t"@ + opt_text(reg.url),
        "CLIENT\tSTATUS\tMECHANISM\tEXPERIMENTAL\tSKILLS\tDETAIL"@,
    ] + items.map_values(|i: InstallItem| item_row(i))
}

fn bool_word(b: bool) -> (r: &'static str)
    ensures
        r@ == bool_text(b),
{
    if b {
        "true"
    } else {
        "false"
    }
}

fn row_of(item: &InstallItem) -> (r: String)
    ensures
        r@ == item_row(*item),
{
    let mut r = cat3(item.client.as_str(), "\t", item.status.as_str());
    r.append("\t");
    r.append(item.mechanism.as_str());
    r.append("\t");
    r.append(bool_word(item.experimental));
    r.append("\t");
    match item.skills_count {
        Some(n) => {
            let t = u64_to_string(n);
            r.append(t.as_str());
        },
        None => {
            r.append("-");
        },
    }
    r.append("\t");
    r.append(item.detail.as_str());
    r
}

/// The text report of an install run.
pub fn render_install_table(reg: &ServerRegistration, items: &Vec<InstallItem>) -> (r: String)
    ensures
        r@ == spec_join_lines(install_lines(*reg, items@)),
{
    let l0 = String::from_str("SERVER\tzocli");
    let l1 = cat("TRANSPORT\t", reg.transport.label());
    let l2 = cat("COMMAND\t", text_of(&reg.command));
    let args = join_strings(&reg.args, " ");
    let l3 = cat("ARGS\t", args.as_str());
    let l4 = cat("URL\t", text_of(&reg.url));
    let l5 = String::from_str("CLIENT\tSTATUS\tMECHANISM\tEXPERIMENTAL\tSKILLS\tDETAIL");
    let ghost head = seq![l0@, l1@, l2@, l3@, l4@, l5@];
    let mut lines: Vec<String> = vec![l0, l1, l2, l3, l4, l5];
    assert(text_views(lines@) =~= head);
    let mut i: usize = 0;
    while i < items.len()
        invariant
            i <= items@.len(),
            text_views(lines@) == head + items@.take(i as int).map_values(
                |x: InstallItem| item_row(x),
            ),
        decreases items@.len() - i,
    {
        let row = row_of(&items[i]);
        let ghost before = text_views(lines@);
        lines.push(row);
        assert(items@.take(i + 1).map_values(|x: InstallItem| item_row(x)) =~= items@.take(
            i as int,
        ).map_values(|x: InstallItem| item_row(x)).push(item_row(items@[i as int])));
        assert(text_views(lines@) =~= before.push(item_row(items@[i as int])));
        i = i + 1;
    }
    assert(items@.take(items@.len() as int) =~= items@);
    assert(text_views(lines@) =~= install_lines(*reg, items@));
    join_lines(&lines)
}


/// Position of the first member called `key`.
fn member_index(ms: &Vec<(String, Json)>, key: &str) -> (r: Option<usize>)
    ensures
        r matches Some(i) ==> first_member(ms@, key@, i as int) && first_value(ms@, key@) == Some(
            ms@[i as int].1,
        ),
        r is None ==> first_value(ms@, key@) is None && forall|j: int|
            0 <= j < ms@.len() ==> #[trigger] ms@[j].0@ != key@,
{
    let mut i: usize = 0;
    assert(ms@.skip(0) =~= ms@);
    while i < ms.len()
        invariant
            i <= ms@.len(),
            forall|j: int| 0 <= j < i ==> #[trigger] ms@[j].0@ != key@,
            first_value(ms@, key@) == first_value(ms@.skip(i as int), key@),
        decreases ms@.len() - i,
    {
        let ghost rest = ms@.skip(i as int);
        assert(rest[0] == ms@[i as int]);
        assert(rest.drop_first() =~= ms@.skip(i + 1));
        if str_eq(ms[i].0.as_str(), key) {
            return Some(i);
        }
        i = i + 1;
    }
    assert(ms@.skip(ms@.len() as int).len() == 0);
    None
}

/// The values that hold the object `container` with the server's entry `entry` under
/// `zocli`: in place of an earlier `zocli` member, or added at the end.
pub open spec fn registered_in(container: Seq<(String, Json)>, entry: Json) -> spec_fn(Json) -> bool {
    |v: Json| v matches Json::Object(ncs) && put_where(container, "zocli"@, |x: Json| x == entry, ncs@)
}

/// Registers the server in a JSON settings document whose servers live in the object `key`
/// (the object is created when missing). Gives the new document and whether the file must be
/// written: not when the entry is already there, as `serde_json` compares values, and the
/// document was read from the file being written (`same_file`). A root that is not an object,
/// or a `key` member that is not one, is refused; `source` names the file in the message.
pub fn reconcile_json_config(root: Json, key: &str, entry: Json, same_file: bool, source: &str) -> (r:
    Result<(Json, bool), ZocliError>)
    ensures
        match root {
            Json::Object(ms) => match member(root, key@) {
                None => r matches Ok((out, w)) && w && (out matches Json::Object(oms) && put_where(
                    ms@,
                    key@,
                    registered_in(Seq::empty(), entry),
                    oms@,
                )),
                Some(Json::Object(cs)) => {
                    let present = first_value(cs@, "zocli"@) matches Some(cur) && json_values_equal(
                        cur,
                        entry,
                    );
                    &&& r matches Ok((out, w))
                    &&& w == (!present || !same_file)
                    &&& w ==> (out matches Json::Object(oms) && put_where(
                        ms@,
                        key@,
                        registered_in(cs@, entry),
                        oms@,
                    ))
                    &&& !w ==> (out matches Json::Object(oms) && oms@ == ms@)
                },
                Some(_) => r matches Err(ZocliError::Serialization(m)) && m@ == "`"@ + key@
                    + "` must be a JSON object"@,
            },
            _ => r matches Err(ZocliError::Serialization(m)) && m@ == "config root must be a JSON object: "@
                + source@,
        },
{
    let ghost orig_root = root;
    match root {
        Json::Object(mut ms) => {
            let ghost orig = ms@;
            match member_index(&ms, key) {
                None => {
                    let mut cs: Vec<(String, Json)> = Vec::new();
                    let ghost p = |x: Json| x == entry;
                    let ghost e = entry;
                    set_member(&mut cs, "zocli", entry, Ghost(p));
                    assert(registered_in(Seq::empty(), e)(Json::Object(cs)));
                    ms.push((String::from_str(key), Json::Object(cs)));
                    assert(ms@.drop_last() =~= orig);
                    Ok((Json::Object(ms), true))
                },
                Some(i) => {
                    proof {
                        lemma_first_key_found(orig, key@, i as int);
                    }
                    let (k, v) = ms.remove(i);
                    match v {
                        Json::Object(mut cs) => {
                            let ghost ocs = cs@;
                            let present = match member_index(&cs, "zocli") {
                                Some(j) => same_json(&cs[j].1, &entry),
                                None => false,
                            };
                            if present && same_file {
                                ms.insert(i, (k, Json::Object(cs)));
                                assert(ms@ =~= orig);
                                return Ok((Json::Object(ms), false));
                            }
                            let ghost e = entry;
                            set_member(&mut cs, "zocli", entry, Ghost(|x: Json| x == e));
                            assert(registered_in(ocs, e)(Json::Object(cs)));
                            ms.insert(i, (k, Json::Object(cs)));
                            assert(ms@.len() == orig.len());
                            assert forall|j: int| 0 <= j < ms@.len() && j != i implies ms@[j] == orig[j] by {
                                if j < i {
                                } else {
                                }
                            }
                            Ok((Json::Object(ms), true))
                        },
                        _ => {
                            let mut m = String::from_str("`");
                            m.append(key);
                            m.append("` must be a JSON object");
                            Err(ZocliError::Serialization(m))
                        },
                    }
                },
            }
        },
        _ => {
            let mut m = String::from_str("config root must be a JSON object: ");
            m.append(source);
            Err(ZocliError::Serialization(m))
        },
    }
}


/// The settings file of each client, as that client's own path function gives it.
pub open spec fn own_settings_rel(c: InstallClient, macos: bool) -> Option<Seq<char>> {
    match c {
        InstallClient::Cursor => Some(cursor_settings_rel()),
        InstallClient::Windsurf => Some(windsurf_settings_rel()),
        InstallClient::Warp => Some(warp_settings_rel()),
        InstallClient::Zed => Some(zed_settings_rel(macos)),
        _ => None,
    }
}

/// A client is registered in the very settings file its own path function names, so the
/// file the install writes is the one the client reads; off macOS, Zed's is under
/// `.config/zed`.
pub proof fn law_primary_path_is_the_clients_own(c: InstallClient, macos: bool)
    ensures
        primary_rel(c, macos) == own_settings_rel(c, macos),
        !macos ==> primary_rel(InstallClient::Zed, macos) == Some(".config/zed/settings.json"@),
{
}

} // verus!
