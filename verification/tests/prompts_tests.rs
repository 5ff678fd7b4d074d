use zocli::error::ZocliError;
use zocli::json::{as_str, get, Json};
use zocli::prompts::{
    complete, date_suggestions, dedupe_preserve_order, get_prompt, prompt_definitions,
    prompt_names, rank_and_filter,
};

fn s(text: &str) -> Json {
    Json::Str(text.to_string())
}

fn obj(members: Vec<(&str, Json)>) -> Json {
    Json::Object(
        members
            .into_iter()
            .map(|(k, v)| (k.to_string(), v))
            .collect(),
    )
}

fn message(err: ZocliError) -> String {
    assert!(matches!(err, ZocliError::Validation(_)));
    err.message()
}

fn prompt_text(prompt: &Json) -> String {
    let messages = get(prompt, "messages").expect("messages");
    let first = match messages {
        Json::Array(items) => &items[0],
        _ => panic!("messages is not an array"),
    };
    let content = get(first, "content").expect("content");
    as_str(get(content, "text").expect("text"))
        .expect("prompt text")
        .to_string()
}

fn completion_values(result: &Json) -> Vec<String> {
    let completion = get(result, "completion").expect("completion");
    match get(completion, "values").expect("values") {
        Json::Array(items) => items
            .iter()
            .map(|v| as_str(v).expect("value").to_string())
            .collect(),
        _ => panic!("values is not an array"),
    }
}

fn has_more(result: &Json) -> bool {
    let completion = get(result, "completion").expect("completion");
    match get(completion, "hasMore") {
        Some(Json::Bool(b)) => *b,
        _ => panic!("hasMore missing"),
    }
}

fn run_complete(params: Json) -> Json {
    complete(&params, Ok(vec![]), &vec![]).expect("completion")
}

#[test]
fn prompt_definitions_expose_all_embedded_prompts() {
    let prompts = prompt_definitions();
    assert_eq!(prompts.len(), 7);
    let names: Vec<String> = prompts
        .iter()
        .map(|p| as_str(get(p, "name").expect("name")).expect("str").to_string())
        .collect();
    assert!(names.iter().any(|n| n == "shared"));
    assert!(names.iter().any(|n| n == "mail"));
    assert!(names.iter().any(|n| n == "calendar"));
    assert!(names.iter().any(|n| n == "drive"));
    assert!(names.iter().any(|n| n == "daily-briefing"));
    assert!(names.iter().any(|n| n == "find-and-read"));
    assert!(names.iter().any(|n| n == "reply-with-context"));
}

#[test]
fn get_prompt_requires_prompt_name() {
    let err = get_prompt(&obj(vec![])).expect_err("missing name should fail");
    assert!(message(err).contains("requires `name`"));
}

#[test]
fn get_prompt_renders_daily_briefing_prompt() {
    let prompt = get_prompt(&obj(vec![
        ("name", s("daily-briefing")),
        (
            "arguments",
            obj(vec![("account", s("work")), ("mail_limit", s("15"))]),
        ),
    ]))
    .expect("prompt");

    let text = prompt_text(&prompt);
    assert!(text.contains("Account: work"));
    assert!(text.contains("Mail limit: 15"));
    assert!(text.contains("zocli.mail.list"));
    assert!(text.contains("zocli.calendar.events"));
}

#[test]
fn get_prompt_validates_required_arguments() {
    let err = get_prompt(&obj(vec![
        ("name", s("find-and-read")),
        ("arguments", obj(vec![])),
    ]))
    .expect_err("missing query should fail");
    assert!(message(err).contains("prompt argument `query` is required"));
}

#[test]
fn reply_with_context_prompt_mentions_draft_boundary() {
    let prompt = get_prompt(&obj(vec![
        ("name", s("reply-with-context")),
        ("arguments", obj(vec![("message_id", s("42"))])),
    ]))
    .expect("prompt");

    let text = prompt_text(&prompt);
    assert!(text.contains("use `zocli.mail.reply`"));
    assert!(text.contains("only produced a draft"));
}

#[test]
fn completion_for_mail_folder_filters_by_prefix() {
    let result = run_complete(obj(vec![
        ("ref", obj(vec![("type", s("ref/prompt")), ("name", s("mail"))])),
        ("argument", obj(vec![("name", s("folder")), ("value", s("in"))])),
    ]));

    assert_eq!(completion_values(&result)[0], "INBOX");
    assert!(!has_more(&result));
}

#[test]
fn completion_for_calendar_filters_by_prefix() {
    let result = run_complete(obj(vec![
        ("ref", obj(vec![("type", s("ref/prompt")), ("name", s("calendar"))])),
        ("argument", obj(vec![("name", s("calendar")), ("value", s("de"))])),
    ]));

    let values = completion_values(&result);
    assert_eq!(values.len(), 1);
    assert_eq!(values[0], "default");
}

#[test]
fn completion_for_dashboard_resource_section_filters_by_prefix() {
    let result = run_complete(obj(vec![
        (
            "ref",
            obj(vec![
                ("type", s("ref/resource")),
                (
                    "uri",
                    s("ui://zocli/dashboard{?account,section,resource,tool}"),
                ),
            ]),
        ),
        ("argument", obj(vec![("name", s("section")), ("value", s("re"))])),
    ]));

    let values = completion_values(&result);
    assert_eq!(values.len(), 1);
    assert_eq!(values[0], "resources");
}

#[test]
fn completion_for_skill_resource_filters_by_prefix() {
    let result = run_complete(obj(vec![
        (
            "ref",
            obj(vec![
                ("type", s("ref/resource")),
                ("uri", s("resource://zocli/skill/{skill}")),
            ]),
        ),
        (
            "argument",
            obj(vec![("name", s("skill")), ("value", s("zocli-ma"))]),
        ),
    ]));

    let values = completion_values(&result);
    assert_eq!(values.len(), 1);
    assert_eq!(values[0], "zocli-mail");
}

#[test]
fn completion_for_dashboard_skill_filters_by_prefix() {
    let result = run_complete(obj(vec![
        (
            "ref",
            obj(vec![
                ("type", s("ref/resource")),
                (
                    "uri",
                    s("ui://zocli/dashboard{?account,section,resource,tool,skill}"),
                ),
            ]),
        ),
        (
            "argument",
            obj(vec![("name", s("skill")), ("value", s("zocli-ca"))]),
        ),
    ]));

    let values = completion_values(&result);
    assert_eq!(values.len(), 1);
    assert_eq!(values[0], "zocli-calendar");
}

#[test]
fn prompt_messages_include_canonical_skill_resource() {
    let prompt = get_prompt(&obj(vec![
        ("name", s("mail")),
        (
            "arguments",
            obj(vec![("request", s("reply to the latest invoice"))]),
        ),
    ]))
    .expect("prompt");
    let text = prompt_text(&prompt);
    assert!(text.contains("resource://zocli/skill/zocli-mail"));
}

#[test]
fn prompt_definitions_are_bilingual() {
    let definitions = prompt_definitions();
    for definition in definitions {
        let description = as_str(get(&definition, "description").expect("description"))
            .expect("prompt description");
        assert!(
            description
                .chars()
                .any(|c| ('\u{0400}'..='\u{04FF}').contains(&c)),
            "prompt description is missing Cyrillic text: {description}"
        );
    }
}

#[test]
fn prompt_names_list_every_prompt() {
    assert_eq!(
        prompt_names(),
        vec![
            "shared",
            "mail",
            "calendar",
            "drive",
            "daily-briefing",
            "find-and-read",
            "reply-with-context"
        ]
    );
}

#[test]
fn unknown_prompt_is_a_validation_error() {
    let err = get_prompt(&obj(vec![("name", s("nope"))])).expect_err("unknown");
    assert_eq!(message(err), "Validation error: unknown MCP prompt: nope");
}

#[test]
fn mail_prompt_uses_defaults_for_blank_arguments() {
    let prompt = get_prompt(&obj(vec![
        ("name", s("mail")),
        (
            "arguments",
            obj(vec![("request", s("triage")), ("folder", s("  "))]),
        ),
    ]))
    .expect("prompt");
    let text = prompt_text(&prompt);
    assert!(text.starts_with(
        "Help with Zoho Mail through the zocli MCP server.\nTask: triage\nAccount: current\nMailbox hint: INBOX\n"
    ));
}

#[test]
fn ranking_puts_prefix_matches_before_infix_matches() {
    let ranked = rank_and_filter(
        vec![
            "Archive".to_string(),
            "INBOX".to_string(),
            "Drafts".to_string(),
            "inbound".to_string(),
            "INBOX".to_string(),
        ],
        " In ",
    );
    assert_eq!(ranked, vec!["INBOX", "inbound"]);
    let all = rank_and_filter(
        vec!["b".to_string(), "a".to_string(), "b".to_string()],
        "",
    );
    assert_eq!(all, vec!["a", "b"]);
    let infix = rank_and_filter(vec!["xaby".to_string(), "abz".to_string()], "ab");
    assert_eq!(infix, vec!["abz", "xaby"]);
}

#[test]
fn dedupe_keeps_first_occurrences() {
    let deduped = dedupe_preserve_order(vec![
        "b".to_string(),
        "a".to_string(),
        "b".to_string(),
    ]);
    assert_eq!(deduped, vec!["b", "a"]);
}

#[test]
fn completion_errors_and_accounts() {
    let err = complete(&obj(vec![]), Ok(vec![]), &vec![]).expect_err("no ref");
    assert_eq!(
        message(err),
        "Validation error: completion/complete requires `ref`"
    );
    let params = obj(vec![
        ("ref", obj(vec![("type", s("ref/other"))])),
        ("argument", obj(vec![("name", s("x"))])),
    ]);
    let err = complete(&params, Ok(vec![]), &vec![]).expect_err("bad type");
    assert_eq!(
        message(err),
        "Validation error: unsupported completion reference type: ref/other"
    );
    let account_params = obj(vec![
        ("ref", obj(vec![("type", s("ref/prompt")), ("name", s("mail"))])),
        ("argument", obj(vec![("name", s("account")), ("value", s(""))])),
    ]);
    let result = complete(
        &account_params,
        Ok(vec!["work".to_string(), "home".to_string()]),
        &vec![],
    )
    .expect("accounts");
    assert_eq!(completion_values(&result), vec!["home", "work"]);
    let failed = complete(
        &account_params,
        Err(ZocliError::Config("unreadable".to_string())),
        &vec![],
    );
    assert!(matches!(failed, Err(ZocliError::Config(_))));
    let folder_params = obj(vec![
        ("ref", obj(vec![("type", s("ref/prompt")), ("name", s("mail"))])),
        ("argument", obj(vec![("name", s("folder")), ("value", s(""))])),
    ]);
    let folders = complete(
        &folder_params,
        Err(ZocliError::Config("unreadable".to_string())),
        &vec![],
    )
    .expect("no accounts needed");
    assert_eq!(
        completion_values(&folders),
        vec!["Archive", "Drafts", "INBOX", "Sent", "Spam", "Trash"]
    );
}

#[test]
fn date_suggestions_are_three_dates() {
    let dates = date_suggestions((0, 0));
    assert_eq!(dates, vec!["1970-01-01", "1970-01-02", "1970-01-08"]);
}
