use zocli::cli::{McpClientArg, McpTransportArg};
use zocli::error::ZocliError;
use zocli::install::{
    build_codex_add_args, build_electron_add_args, build_gemini_add_args,
    canonical_registration, executable_candidates, native_get_add_result, render_install_table,
    resolve_clients, skills_target, transport_skip, InstallClient, InstallItem,
    ServerRegistration,
};

fn stdio_registration(env: Vec<(String, String)>) -> ServerRegistration {
    ServerRegistration {
        transport: McpTransportArg::Stdio,
        command: Some("/usr/local/bin/zocli".to_string()),
        args: vec!["mcp".to_string()],
        env,
        url: None,
    }
}

#[test]
fn skills_dir_returns_correct_path_per_client() {
    let home = "/home/user";

    assert_eq!(
        InstallClient::Codex.skills_dir(home),
        Some("/home/user/.agents/skills".to_string())
    );
    assert_eq!(
        InstallClient::Gemini.skills_dir(home),
        Some("/home/user/.agents/skills".to_string())
    );
    assert_eq!(
        InstallClient::Cursor.skills_dir(home),
        Some("/home/user/.cursor/skills".to_string())
    );
    assert_eq!(
        InstallClient::Windsurf.skills_dir(home),
        Some("/home/user/.codeium/windsurf/skills".to_string())
    );
    assert_eq!(
        InstallClient::Warp.skills_dir(home),
        Some("/home/user/.agents/skills".to_string())
    );
    assert_eq!(
        InstallClient::Antigravity.skills_dir(home),
        Some("/home/user/.gemini/antigravity/skills".to_string())
    );
    assert_eq!(InstallClient::Zed.skills_dir(home), None);
}

#[test]
fn gemini_add_args_include_env_overrides() {
    let registration = stdio_registration(vec![(
        "ZOCLI_CONFIG_DIR".to_string(),
        "/tmp/zocli-config".to_string(),
    )]);

    let args = build_gemini_add_args(&registration);

    assert!(args
        .windows(2)
        .any(|pair| { pair[0] == "-e" && pair[1] == "ZOCLI_CONFIG_DIR=/tmp/zocli-config" }));
}

#[test]
fn skills_dir_keeps_a_single_separator() {
    assert_eq!(
        InstallClient::Cursor.skills_dir("/home/user/"),
        Some("/home/user/.cursor/skills".to_string())
    );
    assert_eq!(InstallClient::Zed.skills_dir("/home/user/"), None);
}

#[test]
fn resolve_clients_defaults_to_every_client_in_order() {
    let all = resolve_clients(&vec![]);
    assert_eq!(
        all,
        vec![
            InstallClient::Antigravity,
            InstallClient::Codex,
            InstallClient::Cursor,
            InstallClient::Gemini,
            InstallClient::Warp,
            InstallClient::Windsurf,
            InstallClient::Zed,
        ]
    );
}

#[test]
fn resolve_clients_orders_and_dedupes() {
    let chosen = resolve_clients(&vec![
        McpClientArg::Zed,
        McpClientArg::Cursor,
        McpClientArg::Zed,
    ]);
    assert_eq!(chosen, vec![InstallClient::Cursor, InstallClient::Zed]);
    assert_eq!(
        resolve_clients(&vec![McpClientArg::Codex]),
        vec![InstallClient::Codex]
    );
}

#[test]
fn client_labels_and_mechanisms() {
    assert_eq!(InstallClient::Antigravity.label(), "antigravity");
    assert_eq!(InstallClient::Codex.mechanism(), "native_cli");
    assert_eq!(InstallClient::Warp.mechanism(), "json_file");
    assert!(InstallClient::Warp.experimental());
    assert!(!InstallClient::Cursor.experimental());
    assert!(InstallClient::Gemini.supports_http_transport());
    assert!(!InstallClient::Zed.supports_http_transport());
}

#[test]
fn codex_args_for_stdio_and_http() {
    let registration = stdio_registration(vec![("A".to_string(), "1".to_string())]);
    assert_eq!(
        build_codex_add_args(&registration),
        vec!["mcp", "add", "zocli", "--env", "A=1", "--", "/usr/local/bin/zocli", "mcp"]
    );
    let http = ServerRegistration {
        transport: McpTransportArg::Http,
        command: None,
        args: vec![],
        env: vec![],
        url: Some("http://127.0.0.1:8787/mcp".to_string()),
    };
    assert_eq!(
        build_codex_add_args(&http),
        vec!["mcp", "add", "zocli", "--url", "http://127.0.0.1:8787/mcp"]
    );
    assert_eq!(
        build_gemini_add_args(&http),
        vec!["mcp", "add", "-s", "user", "--transport", "http", "zocli", "http://127.0.0.1:8787/mcp"]
    );
}

#[test]
fn electron_args_carry_the_registration_as_json() {
    let registration = stdio_registration(vec![]);
    let args = build_electron_add_args(&registration);
    assert_eq!(args[0], "--add-mcp");
    assert_eq!(
        args[1],
        r#"{"args":["mcp"],"command":"/usr/local/bin/zocli","env":{},"name":"zocli"}"#
    );
}

#[test]
fn canonical_registration_checks_the_http_url() {
    let ok = canonical_registration(McpTransportArg::Http, None, String::new(), None)
        .expect("default url");
    assert_eq!(ok.url.as_deref(), Some("http://127.0.0.1:8787/mcp"));
    let err = canonical_registration(
        McpTransportArg::Http,
        Some("not a url".to_string()),
        String::new(),
        None,
    )
    .expect_err("bad url");
    match err {
        ZocliError::Validation(message) => {
            assert!(message.starts_with("invalid MCP HTTP URL `not a url`: "))
        }
        other => panic!("unexpected error {other:?}"),
    }
}

#[test]
fn canonical_registration_passes_config_dir_when_set() {
    let reg = canonical_registration(
        McpTransportArg::Stdio,
        None,
        "/bin/zocli".to_string(),
        Some("/cfg".to_string()),
    )
    .expect("stdio");
    assert_eq!(reg.command.as_deref(), Some("/bin/zocli"));
    assert_eq!(reg.args, vec!["mcp".to_string()]);
    assert_eq!(
        reg.env,
        vec![("ZOCLI_CONFIG_DIR".to_string(), "/cfg".to_string())]
    );
    let blank = canonical_registration(
        McpTransportArg::Stdio,
        None,
        "/bin/zocli".to_string(),
        Some("  ".to_string()),
    )
    .expect("stdio");
    assert!(blank.env.is_empty());
}

#[test]
fn executable_candidates_expand_pathext() {
    assert_eq!(
        executable_candidates("codex", Some(".COM;EXE; ;.BAT;.COM")),
        vec!["codex", "codex.COM", "codex.EXE", "codex.BAT"]
    );
    assert_eq!(executable_candidates("codex.exe", Some(".BAT")), vec!["codex.exe"]);
    assert_eq!(executable_candidates("codex", None), vec!["codex"]);
}

#[test]
fn http_only_clients_are_skipped_over_http() {
    let item = transport_skip(InstallClient::Zed, McpTransportArg::Http, None).expect("skipped");
    assert_eq!(item.status, "skipped");
    assert!(!item.detected);
    assert_eq!(
        item.detail,
        "zed does not have a verified native HTTP registration flow yet"
    );
    assert!(transport_skip(InstallClient::Codex, McpTransportArg::Http, None).is_none());
    assert!(transport_skip(InstallClient::Zed, McpTransportArg::Stdio, None).is_none());
}

#[test]
fn native_results_and_skills_target() {
    let err = native_get_add_result(InstallClient::Codex, "codex", false, false)
        .expect_err("refused");
    match err {
        ZocliError::Config(message) => {
            assert_eq!(message, "codex refused to add the `zocli` MCP server")
        }
        other => panic!("unexpected error {other:?}"),
    }
    let item = native_get_add_result(InstallClient::Codex, "codex", true, false).expect("item");
    assert_eq!(item.status, "already_installed");
    assert_eq!(
        skills_target(InstallClient::Codex, &item, "/h"),
        Some("/h/.agents/skills".to_string())
    );
}

#[test]
fn install_table_lists_server_and_clients() {
    let registration = stdio_registration(vec![]);
    let item = InstallItem {
        client: "codex".to_string(),
        status: "installed".to_string(),
        mechanism: "native_cli".to_string(),
        experimental: false,
        detected: true,
        detail: "done".to_string(),
        path: None,
        backup_path: None,
        skills_path: None,
        skills_count: Some(7),
    };
    let table = render_install_table(&registration, &vec![item]);
    assert_eq!(
        table,
        "SERVER\tzocli\nTRANSPORT\tstdio\nCOMMAND\t/usr/local/bin/zocli\nARGS\tmcp\nURL\t\nCLIENT\tSTATUS\tMECHANISM\tEXPERIMENTAL\tSKILLS\tDETAIL\ncodex\tinstalled\tnative_cli\tfalse\t7\tdone"
    );
}

#[test]
fn client_settings_paths_live_under_home() {
    use_paths();
}

fn use_paths() {
    assert_eq!(
        zocli::install::cursor_config_path("/home/me"),
        "/home/me/.cursor/mcp.json"
    );
    assert_eq!(
        zocli::install::windsurf_legacy_config_paths("/home/me"),
        vec!["/home/me/.codeium/windsurf/mcp_config.json".to_string()]
    );
    assert_eq!(
        zocli::install::zed_settings_path("/Users/me", true),
        "/Users/me/Library/Application Support/Zed/settings.json"
    );
    assert_eq!(
        InstallClient::Warp.primary_path("/home/me", false),
        Some("/home/me/.warp/mcp_settings.json".to_string())
    );
    assert_eq!(InstallClient::Codex.primary_path("/home/me", false), None);
    assert_eq!(
        zocli::install::existing_config_path(
            ("/a".to_string(), false),
            vec![("/b".to_string(), false), ("/c".to_string(), true), ("/d".to_string(), true)]
        ),
        Some("/c".to_string())
    );
    assert_eq!(
        zocli::install::existing_config_path(("/a".to_string(), true), Vec::new()),
        Some("/a".to_string())
    );
    assert_eq!(
        zocli::install::executable_search_paths(
            "codex",
            &vec!["/usr/bin".to_string(), "/opt/bin/".to_string()],
            None
        ),
        vec!["/usr/bin/codex".to_string(), "/opt/bin/codex".to_string()]
    );
}

fn text(s: &str) -> zocli::json::Json {
    zocli::json::Json::Str(s.to_string())
}

fn obj(members: Vec<(&str, zocli::json::Json)>) -> zocli::json::Json {
    zocli::json::Json::Object(members.into_iter().map(|(k, v)| (k.to_string(), v)).collect())
}

fn to_text(j: &zocli::json::Json) -> String {
    zocli::json::to_json_text(j)
}

#[test]
fn reconcile_json_config_adds_the_servers_object_when_missing() {
    let root = obj(vec![("theme", text("dark"))]);
    let (out, write) =
        zocli::install::reconcile_json_config(root, "mcpServers", text("entry"), true, "settings.json").unwrap();
    assert!(write);
    assert_eq!(to_text(&out), r#"{"mcpServers":{"zocli":"entry"},"theme":"dark"}"#);
}

#[test]
fn reconcile_json_config_leaves_a_current_entry_alone() {
    let root = obj(vec![("mcpServers", obj(vec![("zocli", obj(vec![("b", text("2")), ("a", text("1"))]))]))]);
    let entry = obj(vec![("a", text("1")), ("b", text("2"))]);
    let (out, write) =
        zocli::install::reconcile_json_config(root, "mcpServers", entry, true, "settings.json").unwrap();
    assert!(!write);
    assert_eq!(to_text(&out), r#"{"mcpServers":{"zocli":{"a":"1","b":"2"}}}"#);
}

#[test]
fn reconcile_json_config_rewrites_a_stale_entry_and_keeps_other_servers() {
    let root = obj(vec![("mcpServers", obj(vec![("other", text("x")), ("zocli", text("old"))]))]);
    let (out, write) =
        zocli::install::reconcile_json_config(root, "mcpServers", text("new"), true, "settings.json").unwrap();
    assert!(write);
    assert_eq!(to_text(&out), r#"{"mcpServers":{"other":"x","zocli":"new"}}"#);
}

#[test]
fn reconcile_json_config_writes_when_the_source_is_another_file() {
    let root = obj(vec![("mcpServers", obj(vec![("zocli", text("same"))]))]);
    let (_, write) =
        zocli::install::reconcile_json_config(root, "mcpServers", text("same"), false, "legacy.json").unwrap();
    assert!(write);
}

#[test]
fn reconcile_json_config_refuses_documents_that_are_not_objects() {
    let err = zocli::install::reconcile_json_config(text("x"), "mcpServers", text("e"), true, "settings.json")
        .unwrap_err();
    assert!(matches!(err, ZocliError::Serialization(ref m) if m == "config root must be a JSON object: settings.json"));
    let root = obj(vec![("mcpServers", text("x"))]);
    let err = zocli::install::reconcile_json_config(root, "mcpServers", text("e"), true, "settings.json")
        .unwrap_err();
    assert!(matches!(err, ZocliError::Serialization(ref m) if m == "`mcpServers` must be a JSON object"));
}
