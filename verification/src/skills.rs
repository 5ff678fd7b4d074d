//! Agent skills shipped with the client: their names, texts and the prompts they back.
use vstd::prelude::*;
use vstd::string::*;
use crate::text::{
    first_index_of,
    from_char_range,
    has_prefix,
    lines_of,
    spec_lines,
    starts_with,
    str_eq,
    text_views,
    to_chars,
    trim,
    trim_seq,
};

verus! {

broadcast use vstd::string::group_string_axioms;

/// How many skills are shipped.
pub const SKILL_COUNT: usize = 7;

pub const SHARED_SKILL: &'static str = "---\nname: zocli-shared\ndescription: \"Shared conventions for driving zocli, the command line client for Zoho Mail, Calendar and WorkDrive: accounts, login, output formats and error codes.\"\n---\n\n# zocli shared conventions\n\nzocli talks to Zoho Mail, Zoho Calendar and Zoho WorkDrive for one configured account at a time.\n\n## Accounts\n\n- `zocli add user@zoho.com` adds an account and makes it current; `--datacenter eu` picks another Zoho datacenter.\n- `zocli accounts` lists accounts, `zocli use <alias>` switches, `zocli whoami` shows the current one.\n\n## Login\n\n- `zocli login` authorizes Mail, Calendar and WorkDrive with OAuth; `zocli login mail` limits it to one service.\n- `zocli status` shows whether each service has a usable credential.\n\n## Output\n\n- Pass `--format json` for machine-readable output and `--format table` for people.\n- Errors are JSON objects with `ok`, `code` and `message`; the exit status is 1 for usage errors, 4 for local state and 5 for remote failures.\n";

pub const MAIL_SKILL: &'static str = "---\nname: zocli-mail\ndescription: \"Read, search, send, reply to and forward Zoho Mail messages with zocli.\"\n---\n\n# zocli mail\n\nUse these commands for Zoho Mail. Run `zocli login mail` first when `zocli status` reports no mail credential.\n\n- `zocli mail folders` lists folders with their ids and unread counts.\n- `zocli mail list --limit 10` lists recent messages of the Inbox; `--folder-id <id>` picks another folder and `--unread` keeps unread ones.\n- `zocli mail search \"invoice\"` searches the whole mailbox.\n- `zocli mail read <message-id> --folder-id <folder-id>` shows a message with its content.\n- `zocli mail send person@example.com \"Subject\" \"Body text\"` sends a new message.\n- `zocli mail reply <message-id> --folder-id <folder-id> \"Reply body\"` replies to a message.\n- `zocli mail forward <message-id> --folder-id <folder-id> person@example.com` forwards a message with its attachments.\n\nConfirm recipients and content with the user before sending, replying or forwarding.\n";

pub const CALENDAR_SKILL: &'static str = "---\nname: zocli-calendar\ndescription: \"List, create and delete Zoho Calendar events with zocli.\"\n---\n\n# zocli calendar\n\n- `zocli calendar calendars` lists calendars; `default` names the default one.\n- `zocli calendar events` lists events of the next 30 days; `zocli calendar events 2026-03-12 2026-03-19 --limit 20` picks a range (dates or RFC 3339 times, at most 100 events).\n- `zocli calendar create \"Meeting\" 2026-03-12T09:00:00Z 2026-03-12T10:00:00Z` creates an event.\n- `zocli calendar delete <event-uid>` deletes an event.\n\nTimes are UTC unless an RFC 3339 offset is given.\n";

pub const DRIVE_SKILL: &'static str = "---\nname: zocli-drive\ndescription: \"Browse, upload and download Zoho WorkDrive files with zocli.\"\n---\n\n# zocli drive\n\n- `zocli drive list` lists WorkDrive teams; `zocli drive list <folder-id> --limit 50` lists a folder.\n- `zocli drive info` shows team storage quotas.\n- `zocli drive upload ./report.pdf <folder-id>` uploads a local file.\n- `zocli drive download <file-id> --output ./report.pdf` downloads a file; add `--force` to overwrite.\n";

pub const DAILY_BRIEFING_SKILL: &'static str = "---\nname: zocli-daily-briefing\ndescription: \"Build a daily briefing from unread Zoho Mail and today's Zoho Calendar events with zocli.\"\n---\n\n# zocli daily briefing\n\n1. Run `zocli mail list --unread --limit 20 --format json` for unread mail.\n2. Run `zocli calendar events <today> <tomorrow> --format json` for today's events.\n3. Summarize the meetings in time order, then the mail that needs an answer.\n\nDo not send or change anything while building the briefing.\n";

pub const FIND_AND_READ_SKILL: &'static str = "---\nname: zocli-find-and-read\ndescription: \"Find a Zoho Mail message by keyword and read it with zocli.\"\n---\n\n# zocli find and read\n\n1. Run `zocli mail search \"<keywords>\" --format json`.\n2. Pick the matching message and note its message id and folder id.\n3. Run `zocli mail read <message-id> --folder-id <folder-id>` and quote what the user asked for.\n";

pub const REPLY_WITH_CONTEXT_SKILL: &'static str = "---\nname: zocli-reply-with-context\ndescription: \"Draft a Zoho Mail reply that uses the thread and related calendar context with zocli.\"\n---\n\n# zocli reply with context\n\n1. Read the message with `zocli mail read <message-id> --folder-id <folder-id>`.\n2. Look up related events with `zocli calendar events` when the message is about a meeting.\n3. Draft the reply and show it to the user; this is a draft until the user approves it.\n4. Only then run `zocli mail reply <message-id> --folder-id <folder-id> \"<reply>\"`.\n";

/// The shipped skills: name and text, in order.
pub open spec fn spec_skills() -> Seq<(Seq<char>, Seq<char>)> {
    seq![
        ("zocli-shared"@, SHARED_SKILL@),
        ("zocli-mail"@, MAIL_SKILL@),
        ("zocli-calendar"@, CALENDAR_SKILL@),
        ("zocli-drive"@, DRIVE_SKILL@),
        ("zocli-daily-briefing"@, DAILY_BRIEFING_SKILL@),
        ("zocli-find-and-read"@, FIND_AND_READ_SKILL@),
        ("zocli-reply-with-context"@, REPLY_WITH_CONTEXT_SKILL@),
    ]
}

fn skills() -> (r: Vec<(&'static str, &'static str)>)
    ensures
        r@.map_values(|p: (&str, &str)| (p.0@, p.1@)) == spec_skills(),
{
    let r = vec![
        ("zocli-shared", SHARED_SKILL),
        ("zocli-mail", MAIL_SKILL),
        ("zocli-calendar", CALENDAR_SKILL),
        ("zocli-drive", DRIVE_SKILL),
        ("zocli-daily-briefing", DAILY_BRIEFING_SKILL),
        ("zocli-find-and-read", FIND_AND_READ_SKILL),
        ("zocli-reply-with-context", REPLY_WITH_CONTEXT_SKILL),
    ];
    assert(r@.map_values(|p: (&str, &str)| (p.0@, p.1@)) =~= spec_skills());
    r
}

/// The names of the shipped skills, in order.
pub fn skill_names() -> (r: Vec<&'static str>)
    ensures
        r@.map_values(|s: &str| s@) == spec_skills().map_values(|p: (Seq<char>, Seq<char>)| p.0),
{
    let r = vec![
        "zocli-shared",
        "zocli-mail",
        "zocli-calendar",
        "zocli-drive",
        "zocli-daily-briefing",
        "zocli-find-and-read",
        "zocli-reply-with-context",
    ];
    assert(r@.map_values(|s: &str| s@) =~= spec_skills().map_values(
        |p: (Seq<char>, Seq<char>)| p.0,
    ));
    r
}

/// The text of the first skill called `name`.
pub open spec fn spec_skill_content(name: Seq<char>) -> Option<Seq<char>> {
    if name == "zocli-shared"@ {
        Some(SHARED_SKILL@)
    } else if name == "zocli-mail"@ {
        Some(MAIL_SKILL@)
    } else if name == "zocli-calendar"@ {
        Some(CALENDAR_SKILL@)
    } else if name == "zocli-drive"@ {
        Some(DRIVE_SKILL@)
    } else if name == "zocli-daily-briefing"@ {
        Some(DAILY_BRIEFING_SKILL@)
    } else if name == "zocli-find-and-read"@ {
        Some(FIND_AND_READ_SKILL@)
    } else if name == "zocli-reply-with-context"@ {
        Some(REPLY_WITH_CONTEXT_SKILL@)
    } else {
        None
    }
}

/// The text of the skill called `name`.
pub fn skill_content(name: &str) -> (r: Option<&'static str>)
    ensures
        match r {
            Some(c) => spec_skill_content(name@) == Some(c@),
            None => spec_skill_content(name@) is None,
        },
{
    if str_eq(name, "zocli-shared") {
        Some(SHARED_SKILL)
    } else if str_eq(name, "zocli-mail") {
        Some(MAIL_SKILL)
    } else if str_eq(name, "zocli-calendar") {
        Some(CALENDAR_SKILL)
    } else if str_eq(name, "zocli-drive") {
        Some(DRIVE_SKILL)
    } else if str_eq(name, "zocli-daily-briefing") {
        Some(DAILY_BRIEFING_SKILL)
    } else if str_eq(name, "zocli-find-and-read") {
        Some(FIND_AND_READ_SKILL)
    } else if str_eq(name, "zocli-reply-with-context") {
        Some(REPLY_WITH_CONTEXT_SKILL)
    } else {
        None
    }
}

/// The text without its leading and trailing `"` (`trim_matches('"')`).
pub open spec fn strip_quotes(s: Seq<char>) -> Seq<char>
    decreases s.len(),
{
    if s.len() > 0 && s[0] == '"' {
        strip_quotes(s.drop_first())
    } else if s.len() > 0 && s.last() == '"' {
        strip_quotes(s.drop_last())
    } else {
        s
    }
}

/// Index of the first line of the front matter that starts with `description:`.
pub open spec fn description_line(lines: Seq<Seq<char>>, i: int) -> bool {
    &&& 0 <= i < lines.len()
    &&& has_prefix(lines[i], "description:"@)
    &&& forall|j: int| 0 <= j < i ==> !has_prefix(#[trigger] lines[j], "description:"@)
}

/// The front matter of a skill text: what lies between a leading `---` line and the first
/// following `---` line.
pub open spec fn front_matter(content: Seq<char>) -> Option<Seq<char>> {
    if has_prefix(content, "---\n"@) {
        let rest = content.subrange(4, content.len() as int);
        match crate::text::spec_first_index(rest, "\n---\n"@) {
            Some(k) => Some(rest.subrange(0, k)),
            None => None,
        }
    } else {
        None
    }
}

/// `r` is the description of a skill text: from the first `description:` line of its front
/// matter, trimmed and unquoted; None without front matter or such a line.
pub open spec fn description_outcome(content: Seq<char>, r: Option<String>) -> bool {
    match front_matter(content) {
        None => r is None,
        Some(fm) => description_in(fm, r),
    }
}

/// `r` is the description of a front matter (see `description_outcome`).
pub open spec fn description_in(fm: Seq<char>, r: Option<String>) -> bool {
    match r {
        Some(d) => exists|i: int| #[trigger]
            description_line(spec_lines(fm), i) && d@ == strip_quotes(
                trim_seq(spec_lines(fm)[i].subrange(12, spec_lines(fm)[i].len() as int)),
            ),
        None => forall|i: int|
            0 <= i < spec_lines(fm).len() ==> !has_prefix(#[trigger] spec_lines(fm)[i], "description:"@),
    }
}

/// The description in the front matter of a skill text, trimmed and unquoted.
pub fn parse_frontmatter_description(content: &str) -> (r: Option<String>)
    ensures
        description_outcome(content@, r),
{
    if !starts_with(content, "---\n") {
        return None;
    }
    proof {
        reveal_strlit("---\n");
    }
    let v = to_chars(content);
    let rest = from_char_range(&v, 4, v.len());
    let k = match first_index_of(rest.as_str(), "\n---\n") {
        Some(k) => k,
        None => {
            return None;
        },
    };
    let rv = to_chars(rest.as_str());
    proof {
        crate::text::lemma_first_from_found(rest@, "\n---\n"@, 0, k as int);
    }
    let fm = from_char_range(&rv, 0, k);
    proof {
        assert(rest@ == content@.subrange(4, content@.len() as int));
        assert(front_matter(content@) == Some(fm@));
    }
    let lines = lines_of(fm.as_str());
    let ghost ls = spec_lines(fm@);
    let mut i: usize = 0;
    while i < lines.len()
        invariant
            text_views(lines@) == ls,
            ls == spec_lines(fm@),
            front_matter(content@) == Some(fm@),
            i <= lines@.len(),
            forall|j: int| 0 <= j < i ==> !has_prefix(#[trigger] ls[j], "description:"@),
        decreases lines@.len() - i,
    {
        let line = &lines[i];
        proof {
            assert(ls[i as int] == line@);
        }
        if starts_with(line.as_str(), "description:") {
            proof {
                reveal_strlit("description:");
                assert(description_line(ls, i as int));
            }
            let lv = to_chars(line.as_str());
            let raw = from_char_range(&lv, 12, lv.len());
            let t = trim(raw.as_str());
            let d = strip_quote_chars(t.as_str());
            proof {
                assert(raw@ == ls[i as int].subrange(12, ls[i as int].len() as int));
                assert(d@ == strip_quotes(trim_seq(ls[i as int].subrange(12, ls[i as int].len() as int))));
                assert(description_line(spec_lines(fm@), i as int));
                let ii = i as int;
                let fmv = fm@;
                assert(front_matter(content@) == Some(fmv));
                assert(spec_lines(fmv)[ii] == ls[ii]);
                assert(description_line(spec_lines(fmv), ii) && d@ == strip_quotes(
                    trim_seq(spec_lines(fmv)[ii].subrange(12, spec_lines(fmv)[ii].len() as int))));
                assert(description_in(fmv, Some(d)));
            }
            return Some(d);
        }
        i = i + 1;
    }
    None
}

fn strip_quote_chars(s: &str) -> (r: String)
    ensures
        r@ == strip_quotes(s@),
{
    let v = to_chars(s);
    let mut lo: usize = 0;
    let mut hi: usize = v.len();
    proof {
        assert(s@.subrange(0, s@.len() as int) =~= s@);
    }
    while lo < hi && (v[lo] == '"' || v[hi - 1] == '"')
        invariant
            v@ == s@,
            lo <= hi <= v@.len(),
            strip_quotes(s@) == strip_quotes(s@.subrange(lo as int, hi as int)),
        decreases hi - lo,
    {
        let ghost t = s@.subrange(lo as int, hi as int);
        if v[lo] == '"' {
            proof {
                assert(t.drop_first() =~= s@.subrange(lo + 1, hi as int));
            }
            lo = lo + 1;
        } else {
            proof {
                assert(t.drop_last() =~= s@.subrange(lo as int, hi - 1));
            }
            hi = hi - 1;
        }
    }
    proof {
        let t = s@.subrange(lo as int, hi as int);
        if lo == hi {
            assert(t.len() == 0);
        }
    }
    from_char_range(&v, lo, hi)
}

/// The description of the skill called `name`.
pub fn skill_description(name: &str) -> (r: Option<String>)
    ensures
        match spec_skill_content(name@) {
            None => r is None,
            Some(c) => description_outcome(c, r),
        },
{
    let content = skill_content(name)?;
    parse_frontmatter_description(content)
}

/// The prompt a skill backs.
pub open spec fn spec_skill_prompt(name: Seq<char>) -> Option<Seq<char>> {
    if name == "zocli-shared"@ {
        Some("shared"@)
    } else if name == "zocli-mail"@ {
        Some("mail"@)
    } else if name == "zocli-calendar"@ {
        Some("calendar"@)
    } else if name == "zocli-drive"@ {
        Some("drive"@)
    } else if name == "zocli-daily-briefing"@ {
        Some("daily-briefing"@)
    } else if name == "zocli-find-and-read"@ {
        Some("find-and-read"@)
    } else if name == "zocli-reply-with-context"@ {
        Some("reply-with-context"@)
    } else {
        None
    }
}

pub fn skill_prompt_name(name: &str) -> (r: Option<&'static str>)
    ensures
        match r {
            Some(p) => spec_skill_prompt(name@) == Some(p@),
            None => spec_skill_prompt(name@) is None,
        },
{
    if str_eq(name, "zocli-shared") {
        Some("shared")
    } else if str_eq(name, "zocli-mail") {
        Some("mail")
    } else if str_eq(name, "zocli-calendar") {
        Some("calendar")
    } else if str_eq(name, "zocli-drive") {
        Some("drive")
    } else if str_eq(name, "zocli-daily-briefing") {
        Some("daily-briefing")
    } else if str_eq(name, "zocli-find-and-read") {
        Some("find-and-read")
    } else if str_eq(name, "zocli-reply-with-context") {
        Some("reply-with-context")
    } else {
        None
    }
}

/// The first skill, in shipping order, that backs the prompt.
pub open spec fn spec_prompt_skill(prompt: Seq<char>) -> Option<Seq<char>> {
    if spec_skill_prompt("zocli-shared"@) == Some(prompt) {
        Some("zocli-shared"@)
    } else if spec_skill_prompt("zocli-mail"@) == Some(prompt) {
        Some("zocli-mail"@)
    } else if spec_skill_prompt("zocli-calendar"@) == Some(prompt) {
        Some("zocli-calendar"@)
    } else if spec_skill_prompt("zocli-drive"@) == Some(prompt) {
        Some("zocli-drive"@)
    } else if spec_skill_prompt("zocli-daily-briefing"@) == Some(prompt) {
        Some("zocli-daily-briefing"@)
    } else if spec_skill_prompt("zocli-find-and-read"@) == Some(prompt) {
        Some("zocli-find-and-read"@)
    } else if spec_skill_prompt("zocli-reply-with-context"@) == Some(prompt) {
        Some("zocli-reply-with-context"@)
    } else {
        None
    }
}

/// The skill that backs a prompt.
pub fn prompt_skill_name(prompt_name: &str) -> (r: Option<&'static str>)
    ensures
        match r {
            Some(s) => spec_prompt_skill(prompt_name@) == Some(s@),
            None => spec_prompt_skill(prompt_name@) is None,
        },
{
    if backs("zocli-shared", prompt_name) {
        Some("zocli-shared")
    } else if backs("zocli-mail", prompt_name) {
        Some("zocli-mail")
    } else if backs("zocli-calendar", prompt_name) {
        Some("zocli-calendar")
    } else if backs("zocli-drive", prompt_name) {
        Some("zocli-drive")
    } else if backs("zocli-daily-briefing", prompt_name) {
        Some("zocli-daily-briefing")
    } else if backs("zocli-find-and-read", prompt_name) {
        Some("zocli-find-and-read")
    } else if backs("zocli-reply-with-context", prompt_name) {
        Some("zocli-reply-with-context")
    } else {
        None
    }
}

/// Whether the skill backs the prompt.
fn backs(skill: &str, prompt_name: &str) -> (r: bool)
    ensures
        r == (spec_skill_prompt(skill@) == Some(prompt_name@)),
{
    match skill_prompt_name(skill) {
        Some(p) => str_eq(p, prompt_name),
        None => false,
    }
}

/// Every shipped skill backs a prompt, and that prompt leads back to the skill.
pub proof fn law_skill_prompt_round_trip(name: Seq<char>)
    requires
        spec_skill_content(name) is Some,
    ensures
        spec_skill_prompt(name) matches Some(p) && spec_prompt_skill(p) == Some(name),
{
    reveal_strlit("zocli-shared");
    reveal_strlit("zocli-mail");
    reveal_strlit("zocli-calendar");
    reveal_strlit("zocli-drive");
    reveal_strlit("zocli-daily-briefing");
    reveal_strlit("zocli-find-and-read");
    reveal_strlit("zocli-reply-with-context");
    reveal_strlit("shared");
    reveal_strlit("mail");
    reveal_strlit("calendar");
    reveal_strlit("drive");
    reveal_strlit("daily-briefing");
    reveal_strlit("find-and-read");
    reveal_strlit("reply-with-context");
    assert("zocli-shared"@.len() == 12);
    assert("zocli-mail"@.len() == 10);
    assert("zocli-calendar"@.len() == 14);
    assert("zocli-drive"@.len() == 11);
    assert("zocli-daily-briefing"@.len() == 20);
    assert("zocli-find-and-read"@.len() == 19);
    assert("zocli-reply-with-context"@.len() == 24);
    assert("shared"@.len() == 6);
    assert("mail"@.len() == 4);
    assert("calendar"@.len() == 8);
    assert("drive"@.len() == 5);
    assert("daily-briefing"@.len() == 14);
    assert("find-and-read"@.len() == 13);
    assert("reply-with-context"@.len() == 18);
}

} // verus!
