use zocli::error::ZocliError;
use zocli::json::{as_str, get, Json};
use zocli::resources::{
    resource_contents, resource_definitions, resource_templates, skills_catalog_resource,
    ResourceRead,
    check_subscribable_uri, is_app_resource_uri, is_subscribable_resource_uri,
    parse_app_resource_state, parse_dashboard_resource_state, templated_account_name,
};

fn validation_message(err: ZocliError) -> String {
    match err {
        ZocliError::Validation(message) => message,
        other => panic!("expected a validation error, got {other:?}"),
    }
}

#[test]
fn dashboard_defaults_section_from_resource() {
    let state = parse_dashboard_resource_state(
        "ui://zocli/dashboard?account=work&resource=skill&skill=zocli-mail",
    )
    .expect("state");
    assert_eq!(state.default_account.as_deref(), Some("work"));
    assert_eq!(state.preferred_resource.as_deref(), Some("skill"));
    assert_eq!(state.preferred_skill.as_deref(), Some("zocli-mail"));
    assert_eq!(state.preferred_section.as_deref(), Some("resources"));
}

#[test]
fn dashboard_prompt_selects_prompts_section() {
    let state = parse_dashboard_resource_state("ui://zocli/dashboard?prompt=mail").expect("state");
    assert_eq!(state.preferred_section.as_deref(), Some("prompts"));
    assert_eq!(state.preferred_prompt.as_deref(), Some("mail"));
    let err = parse_dashboard_resource_state("ui://zocli/dashboard?prompt=mail&section=tools")
        .expect_err("prompt outside prompts section");
    assert_eq!(
        validation_message(err),
        "dashboard resource query `prompt` requires `section=prompts`"
    );
}

#[test]
fn dashboard_rejects_bad_and_repeated_values() {
    let err = parse_dashboard_resource_state("ui://zocli/dashboard?section=nope")
        .expect_err("bad section");
    assert_eq!(
        validation_message(err),
        "dashboard resource query `section` must be one of: tools, prompts, resources, auth"
    );
    let err = parse_dashboard_resource_state("ui://zocli/dashboard?account=a&account=b")
        .expect_err("repeated account");
    assert_eq!(
        validation_message(err),
        "dashboard resource query `account` cannot appear more than once"
    );
    let err = parse_dashboard_resource_state("ui://zocli/dashboard?account=%20")
        .expect_err("blank account");
    assert_eq!(
        validation_message(err),
        "dashboard resource query `account` cannot be empty"
    );
    let err = parse_dashboard_resource_state("ui://zocli/dashboard?skill=zocli-mail")
        .expect_err("skill without resource");
    assert_eq!(
        validation_message(err),
        "dashboard resource query `skill` requires `resource=skill`"
    );
    let err = parse_dashboard_resource_state("ui://zocli/dashboard?resource=skill")
        .expect_err("skill resource without skill");
    assert_eq!(
        validation_message(err),
        "dashboard resource query `skill` is required when `resource=skill`"
    );
}

#[test]
fn dashboard_rejects_unknown_keys_and_addresses() {
    match parse_dashboard_resource_state("ui://zocli/dashboard?color=red") {
        Err(ZocliError::UnsupportedOperation(message)) => assert_eq!(
            message,
            "unknown MCP resource: ui://zocli/dashboard?color=red"
        ),
        other => panic!("unexpected {other:?}"),
    }
    assert!(matches!(
        parse_dashboard_resource_state("ui://zocli/mail"),
        Err(ZocliError::UnsupportedOperation(_))
    ));
    let message = validation_message(
        parse_dashboard_resource_state("not a url").expect_err("not a url"),
    );
    assert!(message.starts_with("invalid resource URI `not a url`: "));
}

#[test]
fn app_surfaces_focus_their_section() {
    let mail = parse_app_resource_state("ui://zocli/mail?account=work").expect("mail");
    assert_eq!(mail.default_account.as_deref(), Some("work"));
    assert_eq!(mail.preferred_section.as_deref(), Some("prompts"));
    assert_eq!(mail.preferred_prompt.as_deref(), Some("mail"));
    let auth = parse_app_resource_state("ui://zocli/auth").expect("auth");
    assert_eq!(auth.preferred_section.as_deref(), Some("auth"));
    assert_eq!(auth.preferred_prompt, None);
    let err = parse_app_resource_state("ui://zocli/drive?account=a&account=b")
        .expect_err("repeated account");
    assert_eq!(
        validation_message(err),
        "drive resource query `account` cannot appear more than once"
    );
    assert!(is_app_resource_uri("ui://zocli/dashboard?tool=zocli.auth.status"));
    assert!(!is_app_resource_uri("ui://zocli/settings"));
    assert!(!is_app_resource_uri("ui://zocli/mail?section=tools"));
}

#[test]
fn templated_account_names() {
    assert_eq!(
        templated_account_name("resource://zocli/account/work", "account").expect("name"),
        "work"
    );
    assert!(matches!(
        templated_account_name("resource://zocli/auth/work", "account"),
        Err(ZocliError::UnsupportedOperation(_))
    ));
    assert!(matches!(
        templated_account_name("resource://zocli/account/work/extra", "account"),
        Err(ZocliError::UnsupportedOperation(_))
    ));
}

#[test]
fn subscriptions_only_for_account_and_auth() {
    assert!(is_subscribable_resource_uri("resource://zocli/auth/work"));
    assert!(!is_subscribable_resource_uri("resource://zocli/skills"));
    match check_subscribable_uri("resource://zocli/skills") {
        Err(ZocliError::UnsupportedOperation(message)) => assert_eq!(
            message,
            "resource does not support subscriptions: resource://zocli/skills"
        ),
        other => panic!("unexpected {other:?}"),
    }
}

#[test]
fn resource_listing_grows_with_the_app() {
    assert_eq!(resource_definitions(false).len(), 2);
    assert_eq!(resource_definitions(true).len(), 8);
    assert_eq!(resource_templates(false).len(), 3);
    assert_eq!(resource_templates(true).len(), 9);
    assert_eq!(
        as_str(get(&resource_templates(true)[3], "uriTemplate").expect("uri")),
        Some("ui://zocli/dashboard{?account,section,resource,tool,skill,prompt}")
    );
}

#[test]
fn skills_catalog_lists_every_skill() {
    let catalog = skills_catalog_resource();
    match get(&catalog, "items").expect("items") {
        Json::Array(items) => {
            assert_eq!(items.len(), 7);
            assert_eq!(as_str(get(&items[1], "name").unwrap()), Some("zocli-mail"));
            assert_eq!(as_str(get(&items[1], "prompt").unwrap()), Some("mail"));
            assert_eq!(
                as_str(get(&items[1], "uri").unwrap()),
                Some("resource://zocli/skill/zocli-mail")
            );
        }
        _ => panic!("items is not an array"),
    }
}

#[test]
fn resources_are_read_or_handed_on() {
    match resource_contents("resource://zocli/getting-started") {
        Ok(ResourceRead::Contents(v)) => {
            assert!(as_str(get(&v[0], "text").unwrap()).unwrap().starts_with("# zocli MCP"))
        }
        other => panic!("unexpected {other:?}"),
    }
    assert!(matches!(
        resource_contents("resource://zocli/skills"),
        Ok(ResourceRead::Contents(_))
    ));
    match resource_contents("resource://zocli/skill/zocli-mail") {
        Ok(ResourceRead::Contents(v)) => {
            assert_eq!(as_str(get(&v[0], "mimeType").unwrap()), Some("text/markdown"))
        }
        other => panic!("unexpected {other:?}"),
    }
    assert!(matches!(
        resource_contents("resource://zocli/skill/zocli-nope"),
        Err(ZocliError::UnsupportedOperation(_))
    ));
    match resource_contents("resource://zocli/account/work") {
        Ok(ResourceRead::Account(name)) => assert_eq!(name, "work"),
        other => panic!("unexpected {other:?}"),
    }
    match resource_contents("resource://zocli/auth/work") {
        Ok(ResourceRead::Auth(name)) => assert_eq!(name, "work"),
        other => panic!("unexpected {other:?}"),
    }
    assert!(matches!(
        resource_contents("ui://zocli/calendar"),
        Ok(ResourceRead::App(_))
    ));
    assert!(matches!(
        resource_contents("resource://zocli/other"),
        Err(ZocliError::UnsupportedOperation(_))
    ));
}
