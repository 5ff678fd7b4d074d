use zocli::skills::{
    parse_frontmatter_description, prompt_skill_name, skill_content, skill_description,
    skill_names, skill_prompt_name, SKILL_COUNT,
};

#[test]
fn skill_count_matches_constant() {
    assert_eq!(skill_names().len(), SKILL_COUNT);
}

#[test]
fn skill_names_returns_all_names() {
    let names = skill_names();
    assert_eq!(names.len(), SKILL_COUNT);
    assert!(names.contains(&"zocli-shared"));
    assert!(names.contains(&"zocli-mail"));
    assert!(names.contains(&"zocli-calendar"));
    assert!(names.contains(&"zocli-drive"));
    assert!(names.contains(&"zocli-daily-briefing"));
    assert!(names.contains(&"zocli-find-and-read"));
    assert!(names.contains(&"zocli-reply-with-context"));
}

#[test]
fn skill_names_are_valid_per_spec() {
    for name in skill_names() {
        assert!(name.len() <= 64, "{}: name exceeds 64 chars", name);
        assert!(
            name.chars().all(|c| c.is_ascii_lowercase() || c.is_ascii_digit() || c == '-'),
            "{}: name contains invalid characters",
            name
        );
        assert!(!name.starts_with('-') && !name.ends_with('-'), "{}: name starts or ends with hyphen", name);
        assert!(!name.contains("--"), "{}: name contains consecutive hyphens", name);
    }
}

#[test]
fn skill_content_has_valid_frontmatter() {
    for name in skill_names() {
        let content = skill_content(name).unwrap();
        assert!(content.starts_with("---\n"), "{}: missing frontmatter start", name);
        let after_first = &content[4..];
        assert!(after_first.contains("\n---\n"), "{}: missing frontmatter end", name);
        assert!(content.contains(&format!("name: {}", name)), "{}: frontmatter name does not match directory name", name);
        assert!(content.contains("description:"), "{}: missing description in frontmatter", name);
    }
}

#[test]
fn skill_content_within_size_limits() {
    for name in skill_names() {
        let line_count = skill_content(name).unwrap().lines().count();
        assert!(line_count <= 500, "{}: {} lines exceeds 500 line limit", name, line_count);
    }
}

#[test]
fn skill_description_within_spec_limit() {
    for name in skill_names() {
        let content = skill_content(name).unwrap();
        let fm_end = content[4..].find("\n---\n").unwrap() + 4;
        let frontmatter = &content[4..fm_end];
        let desc_line = frontmatter
            .lines()
            .find(|line| line.starts_with("description:"))
            .unwrap_or_else(|| panic!("{}: no description line", name));
        let desc = desc_line.trim_start_matches("description:").trim();
        let desc = desc.trim_matches('"');
        assert!(desc.len() <= 1024, "{}: description is {} chars, exceeds 1024", name, desc.len());
        assert!(!desc.is_empty(), "{}: description is empty", name);
    }
}

#[test]
fn skill_content_and_description_are_available() {
    let content = skill_content("zocli-mail").expect("skill content");
    assert!(content.contains("# zocli mail"));
    let description = skill_description("zocli-mail").expect("skill description");
    assert!(description.contains("Zoho Mail"));
}

#[test]
fn prompt_and_skill_name_mapping_is_bidirectional() {
    assert_eq!(prompt_skill_name("mail"), Some("zocli-mail"));
    assert_eq!(prompt_skill_name("daily-briefing"), Some("zocli-daily-briefing"));
    assert_eq!(skill_prompt_name("zocli-shared"), Some("shared"));
    assert_eq!(skill_prompt_name("zocli-reply-with-context"), Some("reply-with-context"));
    assert_eq!(prompt_skill_name("drive"), Some("zocli-drive"));
    assert_eq!(skill_prompt_name("zocli-drive"), Some("drive"));
}

#[test]
fn every_skill_round_trips_through_its_prompt() {
    for name in skill_names() {
        let prompt = skill_prompt_name(name).unwrap();
        assert_eq!(prompt_skill_name(prompt), Some(name));
    }
    assert_eq!(prompt_skill_name("unknown"), None);
    assert_eq!(skill_content("zocli-unknown"), None);
}

#[test]
fn frontmatter_descriptions_are_trimmed_and_unquoted() {
    assert_eq!(
        parse_frontmatter_description("---\nname: x\ndescription:  \"Hi there\" \n---\nbody").as_deref(),
        Some("Hi there")
    );
    assert_eq!(parse_frontmatter_description("no front matter"), None);
    assert_eq!(parse_frontmatter_description("---\nname: x\n---\n"), None);
    assert_eq!(parse_frontmatter_description("---\ndescription: open\nno end"), None);
}
