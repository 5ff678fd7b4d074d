//! What commands show: the guide, labels, and the text tables of each result.
use vstd::prelude::*;
use vstd::string::*;
use crate::account_store::views;
use crate::calendar::{CalendarCollection, CalendarEvent, CalendarEventWindow};
use crate::cli::{AuthServiceArg, GuideTopicArg};
use crate::disk::{DownloadedFile, DriveFile, DriveTeam, UploadedFile};
use crate::error::ZocliError;
use crate::json::{Json, member_of, text_member};
use crate::mail::{ForwardedMail, MailFolder, MailMessage, MailMessageSummary, RepliedMail, SentMail};
use crate::model::AccountConfig;
use crate::oauth::{OauthService, join_with};
use crate::text::{
    all_ws,
    cat,
    cat3,
    decimal,
    segments,
    spec_words,
    split_all,
    str_eq,
    text_views,
    to_chars,
    trim,
    trim_end_seq,
    trim_end_str,
    trim_seq,
    u64_to_string,
    words_of,
    push_char,
    is_ascii_upper,
    ascii_lower,
    contains_char,
};

verus! {

broadcast use vstd::string::group_string_axioms;

/// Lines joined by newlines.
pub open spec fn spec_join_lines(lines: Seq<Seq<char>>) -> Seq<char> {
    join_with(lines, "\n"@)
}

/// Texts joined by `sep` (`[String]::join`).
pub fn join_strings(parts: &Vec<String>, sep: &str) -> (r: String)
    ensures
        r@ == join_with(text_views(parts@), sep@),
{
    let mut r = String::new();
    let mut i: usize = 0;
    while i < parts.len()
        invariant
            i <= parts@.len(),
            r@ == join_with(text_views(parts@.take(i as int)), sep@),
        decreases parts@.len() - i,
    {
        proof {
            assert(text_views(parts@.take(i + 1)).drop_last() =~= text_views(parts@.take(i as int)));
            assert(text_views(parts@.take(i + 1)).last() == parts@[i as int]@);
        }
        if i > 0 {
            r.append(sep);
        }
        r.append(parts[i].as_str());
        i = i + 1;
    }
    proof {
        assert(parts@.take(parts@.len() as int) =~= parts@);
    }
    r
}

/// Texts joined by newlines.
pub fn join_lines(lines: &Vec<String>) -> (r: String)
    ensures
        r@ == spec_join_lines(text_views(lines@)),
{
    join_strings(lines, "\n")
}

/// `key<TAB>value`.
pub open spec fn kv(key: Seq<char>, value: Seq<char>) -> Seq<char> {
    key + "\t"@ + value
}

fn kv_line(key: &str, value: &str) -> (r: String)
    ensures
        r@ == kv(key@, value@),
{
    cat3(key, "\t", value)
}

/// Key/value pairs as tab-separated lines.
pub fn render_key_value_table(items: &[(&str, String)]) -> (r: String)
    ensures
        r@ == spec_join_lines(items@.map_values(|p: (&str, String)| kv(p.0@, p.1@))),
{
    let mut lines: Vec<String> = Vec::new();
    let mut i: usize = 0;
    while i < items.len()
        invariant
            i <= items@.len(),
            text_views(lines@) == items@.take(i as int).map_values(|p: (&str, String)| kv(p.0@, p.1@)),
        decreases items@.len() - i,
    {
        let ghost before = lines@;
        lines.push(kv_line(items[i].0, items[i].1.as_str()));
        proof {
            assert(items@.take(i + 1) =~= items@.take(i as int).push(items@[i as int]));
            assert(text_views(lines@) =~= text_views(before).push(kv(items@[i as int].0@, items@[i as int].1@)));
            assert(text_views(lines@) =~= items@.take(i + 1).map_values(
                |p: (&str, String)| kv(p.0@, p.1@),
            ));
        }
        i = i + 1;
    }
    proof {
        assert(items@.take(items@.len() as int) =~= items@);
    }
    join_lines(&lines)
}

/// A table cell on one line: runs of whitespace (newlines and tabs included) become one
/// space, leading and trailing whitespace goes, and an empty cell shows `-`.
pub open spec fn spec_sanitize(value: Seq<char>) -> Seq<char> {
    if spec_words(value).len() == 0 {
        "-"@
    } else {
        join_with(spec_words(value), " "@)
    }
}

pub fn sanitize_table_cell(value: &str) -> (r: String)
    ensures
        r@ == spec_sanitize(value@),
{
    let words = words_of(value);
    if words.len() == 0 {
        return String::from_str("-");
    }
    let mut r = String::new();
    let mut i: usize = 0;
    while i < words.len()
        invariant
            i <= words@.len(),
            r@ == join_with(text_views(words@.take(i as int)), " "@),
        decreases words@.len() - i,
    {
        proof {
            assert(text_views(words@.take(i + 1)).drop_last() =~= text_views(words@.take(i as int)));
            assert(text_views(words@.take(i + 1)).last() == words@[i as int]@);
        }
        if i > 0 {
            r.append(" ");
        }
        r.append(words[i].as_str());
        i = i + 1;
    }
    proof {
        assert(words@.take(words@.len() as int) =~= words@);
    }
    r
}

/// One character of a derived account name: lower-case letters, digits and `._-` stay,
/// upper-case letters are lowered, anything else becomes `-`.
pub open spec fn name_char(c: char) -> char {
    if ('a' <= c && c <= 'z') || ('0' <= c && c <= '9') || c == '.' || c == '_' || c == '-' {
        c
    } else if is_ascii_upper(c) {
        ascii_lower(c)
    } else {
        '-'
    }
}

/// The mapped characters of `s` with runs of `-` collapsed to one.
pub open spec fn collapse_dashes(s: Seq<char>) -> Seq<char>
    decreases s.len(),
{
    if s.len() == 0 {
        s
    } else {
        let prev = collapse_dashes(s.drop_last());
        let c = name_char(s.last());
        if c == '-' && prev.len() > 0 && prev.last() == '-' {
            prev
        } else {
            prev.push(c)
        }
    }
}

/// The text without leading and trailing `-`.
pub open spec fn trim_dashes(s: Seq<char>) -> Seq<char>
    decreases s.len(),
{
    if s.len() > 0 && s[0] == '-' {
        trim_dashes(s.drop_first())
    } else if s.len() > 0 && s.last() == '-' {
        trim_dashes(s.drop_last())
    } else {
        s
    }
}

/// The account alias derived from an email address: its local part, normalized; `account`
/// when nothing is left.
pub open spec fn spec_derive_name(email: Seq<char>) -> Seq<char> {
    let t = trim_dashes(collapse_dashes(segments(email, '@')[0]));
    if t.len() == 0 {
        "account"@
    } else {
        t
    }
}

proof fn lemma_collapse_last(s: Seq<char>)
    ensures
        collapse_dashes(s).len() > 0 ==> s.len() > 0,
    decreases s.len(),
{
}

pub fn derive_account_name_from_email(email: &str) -> (r: String)
    ensures
        r@ == spec_derive_name(email@),
{
    let parts = split_all(email, '@');
    proof {
        crate::text::lemma_segments_nonempty(email@, '@');
        assert(text_views(parts@)[0] == parts@[0]@);
    }
    let local = &parts[0];
    let v = to_chars(local.as_str());
    let mut derived: Vec<char> = Vec::new();
    let mut last_was_dash = false;
    let mut i: usize = 0;
    proof {
        assert(local@.take(0) =~= Seq::<char>::empty());
    }
    while i < v.len()
        invariant
            v@ == local@,
            i <= v@.len(),
            derived@ == collapse_dashes(local@.take(i as int)),
            last_was_dash == (derived@.len() > 0 && derived@.last() == '-'),
        decreases v@.len() - i,
    {
        let c = v[i];
        let n = if ('a' <= c && c <= 'z') || ('0' <= c && c <= '9') || c == '.' || c == '_' || c
            == '-' {
            c
        } else if 'A' <= c && c <= 'Z' {
            let u = c as u32 + 32;
            (u as u8) as char
        } else {
            '-'
        };
        proof {
            assert(local@.take(i + 1).drop_last() =~= local@.take(i as int));
            assert(local@.take(i + 1).last() == c);
            assert(n == name_char(c));
        }
        if n == '-' {
            if !last_was_dash {
                derived.push(n);
            }
            last_was_dash = true;
        } else {
            derived.push(n);
            last_was_dash = false;
        }
        i = i + 1;
    }
    proof {
        assert(local@.take(v@.len() as int) =~= local@);
    }
    let mut lo: usize = 0;
    let mut hi: usize = derived.len();
    let ghost d = derived@;
    proof {
        assert(d.subrange(0, d.len() as int) =~= d);
    }
    while lo < hi && (derived[lo] == '-' || derived[hi - 1] == '-')
        invariant
            derived@ == d,
            lo <= hi <= d.len(),
            trim_dashes(d) == trim_dashes(d.subrange(lo as int, hi as int)),
        decreases hi - lo,
    {
        let ghost t = d.subrange(lo as int, hi as int);
        if derived[lo] == '-' {
            proof {
                assert(t.drop_first() =~= d.subrange(lo + 1, hi as int));
            }
            lo = lo + 1;
        } else {
            proof {
                assert(t.drop_last() =~= d.subrange(lo as int, hi - 1));
            }
            hi = hi - 1;
        }
    }
    if lo == hi {
        proof {
            assert(d.subrange(lo as int, hi as int).len() == 0);
        }
        return String::from_str("account");
    }
    crate::text::from_char_range(&derived, lo, hi)
}

/// The label shown for a credential state.
pub open spec fn spec_state_label(state: Seq<char>) -> Seq<char> {
    if state == "not_configured"@ {
        "Not configured"@
    } else if state == "env_present"@ || state == "store_present"@ {
        "Connected"@
    } else if state == "env_missing"@ || state == "store_missing"@ {
        "Not found"@
    } else if state == "store_expired"@ {
        "Login required"@
    } else if state == "store_mismatch"@ || state == "unsupported_reference"@ {
        "Config error"@
    } else {
        state
    }
}

pub fn credential_state_label(state: &str) -> (r: String)
    ensures
        r@ == spec_state_label(state@),
{
    if str_eq(state, "not_configured") {
        String::from_str("Not configured")
    } else if str_eq(state, "env_present") || str_eq(state, "store_present") {
        String::from_str("Connected")
    } else if str_eq(state, "env_missing") || str_eq(state, "store_missing") {
        String::from_str("Not found")
    } else if str_eq(state, "store_expired") {
        String::from_str("Login required")
    } else if str_eq(state, "store_mismatch") || str_eq(state, "unsupported_reference") {
        String::from_str("Config error")
    } else {
        state.to_owned()
    }
}

/// The services a login covers: the one asked for, else all three.
pub fn oauth_login_services(requested: Option<AuthServiceArg>) -> (r: Result<Vec<OauthService>, ZocliError>)
    ensures
        r matches Ok(v) && v@ == match requested {
            Some(AuthServiceArg::Mail) => seq![OauthService::Mail],
            Some(AuthServiceArg::Calendar) => seq![OauthService::Calendar],
            Some(AuthServiceArg::Drive) => seq![OauthService::Drive],
            None => seq![OauthService::Mail, OauthService::Calendar, OauthService::Drive],
        },
{
    let v = match requested {
        Some(AuthServiceArg::Mail) => vec![OauthService::Mail],
        Some(AuthServiceArg::Calendar) => vec![OauthService::Calendar],
        Some(AuthServiceArg::Drive) => vec![OauthService::Drive],
        None => vec![OauthService::Mail, OauthService::Calendar, OauthService::Drive],
    };
    proof {
        assert(v@ =~= match requested {
            Some(AuthServiceArg::Mail) => seq![OauthService::Mail],
            Some(AuthServiceArg::Calendar) => seq![OauthService::Calendar],
            Some(AuthServiceArg::Drive) => seq![OauthService::Drive],
            None => seq![OauthService::Mail, OauthService::Calendar, OauthService::Drive],
        });
    }
    Ok(v)
}

/// A command of the guide.
#[derive(Debug)]
pub struct GuideCommandEntry {
    pub path: &'static str,
    pub topic: &'static str,
    pub summary: &'static str,
    pub requires_account: bool,
    pub examples: Vec<&'static str>,
}

/// A workflow of the guide.
#[derive(Debug)]
pub struct GuideWorkflowEntry {
    pub id: &'static str,
    pub topic: &'static str,
    pub title: &'static str,
    pub summary: &'static str,
    pub steps: Vec<&'static str>,
}

pub open spec fn spec_topic_name(topic: GuideTopicArg) -> Seq<char> {
    match topic {
        GuideTopicArg::All => "all"@,
        GuideTopicArg::Account => "account"@,
        GuideTopicArg::Auth => "auth"@,
        GuideTopicArg::Mail => "mail"@,
        GuideTopicArg::Calendar => "calendar"@,
        GuideTopicArg::Drive => "drive"@,
    }
}

pub fn guide_topic_name(topic: GuideTopicArg) -> (r: &'static str)
    ensures
        r@ == spec_topic_name(topic),
{
    match topic {
        GuideTopicArg::All => "all",
        GuideTopicArg::Account => "account",
        GuideTopicArg::Auth => "auth",
        GuideTopicArg::Mail => "mail",
        GuideTopicArg::Calendar => "calendar",
        GuideTopicArg::Drive => "drive",
    }
}

/// A guide command as plain values: path, topic, then whether an account is needed, the
/// summary and the examples.
pub open spec fn command_key(e: GuideCommandEntry) -> (Seq<char>, Seq<char>, (bool, Seq<char>, Seq<Seq<char>>)) {
    (e.path@, e.topic@, (e.requires_account, e.summary@, e.examples@.map_values(|x: &str| x@)))
}

/// A guide workflow as plain values: id, topic, then title, summary and steps.
pub open spec fn workflow_key(e: GuideWorkflowEntry) -> (Seq<char>, Seq<char>, (Seq<char>, Seq<char>, Seq<Seq<char>>)) {
    (e.id@, e.topic@, (e.title@, e.summary@, e.steps@.map_values(|x: &str| x@)))
}

/// The guide's commands, in order.
pub open spec fn spec_guide_commands() -> Seq<(Seq<char>, Seq<char>, (bool, Seq<char>, Seq<Seq<char>>))> {
    seq![
        ("add"@, "account"@, (false, "Add a Zoho account and set it as current."@, seq!["zocli add user@zoho.com"@, "zocli add user@company.com --datacenter eu"@, "zocli add user@zoho.com work"@])),
        ("accounts"@, "account"@, (false, "Show all configured accounts."@, seq!["zocli accounts"@])),
        ("use"@, "account"@, (false, "Set an account as current for subsequent commands."@, seq!["zocli use work"@])),
        ("whoami"@, "account"@, (false, "Show the current active account."@, seq!["zocli whoami"@])),
        ("update"@, "account"@, (false, "Check for a new release or update the installed zocli binary."@, seq!["zocli update --check"@, "zocli update"@])),
        ("status"@, "auth"@, (true, "Show the auth status of the current account."@, seq!["zocli status"@])),
        ("login"@, "auth"@, (true, "Authenticate with Zoho OAuth2 for Mail, Calendar, and WorkDrive."@, seq!["zocli login"@, "zocli login mail"@, "zocli login drive"@])),
        ("logout"@, "auth"@, (true, "Revoke credentials for all or a specific service."@, seq!["zocli logout"@, "zocli logout mail"@])),
        ("mail folders"@, "mail"@, (true, "List available mail folders."@, seq!["zocli mail folders"@])),
        ("mail list"@, "mail"@, (true, "List messages in a folder. Defaults to Inbox."@, seq!["zocli mail list --limit 10"@])),
        ("mail search"@, "mail"@, (true, "Search messages across the mailbox."@, seq!["zocli mail search \"invoice\""@])),
        ("mail read"@, "mail"@, (true, "Read a message by its ID."@, seq!["zocli mail read <message-id> --folder-id <folder-id>"@])),
        ("mail send"@, "mail"@, (true, "Send a new message via Zoho Mail API."@, seq!["zocli mail send person@example.com \"Subject\" \"Body text\""@])),
        ("mail reply"@, "mail"@, (true, "Reply to a message by its ID."@, seq!["zocli mail reply <message-id> --folder-id <folder-id> \"Reply body\""@])),
        ("mail forward"@, "mail"@, (true, "Forward a message to another recipient."@, seq!["zocli mail forward <message-id> --folder-id <folder-id> person@example.com"@])),
        ("calendar calendars"@, "calendar"@, (true, "List available calendars."@, seq!["zocli calendar calendars"@])),
        ("calendar events"@, "calendar"@, (true, "List events in a date range. Defaults to next 30 days."@, seq!["zocli calendar events"@, "zocli calendar events 2026-03-12 2026-03-19 --limit 20"@])),
        ("calendar create"@, "calendar"@, (true, "Create a new calendar event."@, seq!["zocli calendar create \"Meeting\" 2026-03-12T09:00:00Z 2026-03-12T10:00:00Z"@])),
        ("calendar delete"@, "calendar"@, (true, "Delete a calendar event by UID."@, seq!["zocli calendar delete <event-uid>"@])),
        ("drive list"@, "drive"@, (true, "List files in a WorkDrive folder. Without folder_id, lists teams."@, seq!["zocli drive list"@, "zocli drive list <folder-id> --limit 50"@])),
        ("drive info"@, "drive"@, (true, "Show WorkDrive team info (storage quotas)."@, seq!["zocli drive info"@])),
        ("drive upload"@, "drive"@, (true, "Upload a local file to a WorkDrive folder."@, seq!["zocli drive upload ./report.pdf <folder-id>"@])),
        ("drive download"@, "drive"@, (true, "Download a WorkDrive file to a local path."@, seq!["zocli drive download <file-id> --output ./report.pdf"@])),
    ]
}

/// The guide's workflows, in order.
pub open spec fn spec_guide_workflows() -> Seq<(Seq<char>, Seq<char>, (Seq<char>, Seq<char>, Seq<Seq<char>>))> {
    seq![
        ("mail_read_flow"@, "mail"@, ("Read a message from Zoho Mail"@, "Full flow from account setup to reading a message by ID."@, seq!["zocli add user@zoho.com"@, "zocli login"@, "zocli mail list --limit 10"@, "zocli mail read <message-id> --folder-id <folder-id>"@])),
        ("mail_search_flow"@, "mail"@, ("Search for a message"@, "Flow from login to searching and reading a message."@, seq!["zocli login"@, "zocli mail search \"invoice\""@, "zocli mail read <message-id> --folder-id <folder-id>"@])),
        ("mail_reply_flow"@, "mail"@, ("Reply to a message"@, "Flow from finding a message to sending a reply."@, seq!["zocli login"@, "zocli mail search \"invoice\""@, "zocli mail reply <message-id> --folder-id <folder-id> \"Got it, thanks\""@])),
        ("mail_forward_flow"@, "mail"@, ("Forward a message"@, "Flow from finding a message to forwarding it."@, seq!["zocli login"@, "zocli mail search \"invoice\""@, "zocli mail forward <message-id> --folder-id <folder-id> person@example.com \"FYI\""@])),
        ("mail_send_flow"@, "mail"@, ("Send a new message"@, "Flow from login to composing and sending a new message."@, seq!["zocli login"@, "zocli mail send person@example.com \"Meeting\" \"See you at 3pm\""@])),
        ("calendar_read_flow"@, "calendar"@, ("Browse calendars and events"@, "Flow from login to listing calendars and events."@, seq!["zocli login"@, "zocli calendar calendars"@, "zocli calendar events"@])),
        ("calendar_write_flow"@, "calendar"@, ("Create and delete an event"@, "Flow from login to creating and removing a calendar event."@, seq!["zocli login"@, "zocli calendar create \"Meeting\" 2026-03-12T09:00:00Z 2026-03-12T10:00:00Z"@, "zocli calendar delete <event-uid>"@])),
        ("drive_browse_flow"@, "drive"@, ("Browse WorkDrive"@, "Flow from login to listing teams and folder contents."@, seq!["zocli login"@, "zocli drive info"@, "zocli drive list <folder-id>"@])),
        ("drive_upload_flow"@, "drive"@, ("Upload a file to WorkDrive"@, "Flow from login to uploading a local file."@, seq!["zocli login"@, "zocli drive upload ./report.pdf <folder-id>"@])),
        ("drive_download_flow"@, "drive"@, ("Download a file from WorkDrive"@, "Flow from login to downloading a file to disk."@, seq!["zocli login"@, "zocli drive download <file-id> --output ./report.pdf"@])),
        ("multi_account_flow"@, "mail"@, ("Work with multiple accounts"@, "Independent access to multiple mailboxes via named accounts."@, seq!["zocli add personal@zoho.com"@, "zocli add work@zoho.com"@, "zocli login"@, "zocli use work"@, "zocli login"@, "zocli use personal"@, "zocli mail list --limit 5"@, "zocli use work"@, "zocli mail list --limit 5"@])),
    ]
}

/// Every command of the guide.
pub fn all_guide_commands() -> (r: Vec<GuideCommandEntry>)
    ensures
        r@.map_values(|e: GuideCommandEntry| command_key(e)) == spec_guide_commands(),
{
    let r = vec![
        GuideCommandEntry {
            path: "add",
            topic: "account",
            summary: "Add a Zoho account and set it as current.",
            requires_account: false,
            examples: vec![
                "zocli add user@zoho.com",
                "zocli add user@company.com --datacenter eu",
                "zocli add user@zoho.com work",
            ],
        },
        GuideCommandEntry {
            path: "accounts",
            topic: "account",
            summary: "Show all configured accounts.",
            requires_account: false,
            examples: vec!["zocli accounts"],
        },
        GuideCommandEntry {
            path: "use",
            topic: "account",
            summary: "Set an account as current for subsequent commands.",
            requires_account: false,
            examples: vec!["zocli use work"],
        },
        GuideCommandEntry {
            path: "whoami",
            topic: "account",
            summary: "Show the current active account.",
            requires_account: false,
            examples: vec!["zocli whoami"],
        },
        GuideCommandEntry {
            path: "update",
            topic: "account",
            summary: "Check for a new release or update the installed zocli binary.",
            requires_account: false,
            examples: vec!["zocli update --check", "zocli update"],
        },
        GuideCommandEntry {
            path: "status",
            topic: "auth",
            summary: "Show the auth status of the current account.",
            requires_account: true,
            examples: vec!["zocli status"],
        },
        GuideCommandEntry {
            path: "login",
            topic: "auth",
            summary: "Authenticate with Zoho OAuth2 for Mail, Calendar, and WorkDrive.",
            requires_account: true,
            examples: vec!["zocli login", "zocli login mail", "zocli login drive"],
        },
        GuideCommandEntry {
            path: "logout",
            topic: "auth",
            summary: "Revoke credentials for all or a specific service.",
            requires_account: true,
            examples: vec!["zocli logout", "zocli logout mail"],
        },
        GuideCommandEntry {
            path: "mail folders",
            topic: "mail",
            summary: "List available mail folders.",
            requires_account: true,
            examples: vec!["zocli mail folders"],
        },
        GuideCommandEntry {
            path: "mail list",
            topic: "mail",
            summary: "List messages in a folder. Defaults to Inbox.",
            requires_account: true,
            examples: vec!["zocli mail list --limit 10"],
        },
        GuideCommandEntry {
            path: "mail search",
            topic: "mail",
            summary: "Search messages across the mailbox.",
            requires_account: true,
            examples: vec!["zocli mail search \"invoice\""],
        },
        GuideCommandEntry {
            path: "mail read",
            topic: "mail",
            summary: "Read a message by its ID.",
            requires_account: true,
            examples: vec!["zocli mail read <message-id> --folder-id <folder-id>"],
        },
        GuideCommandEntry {
            path: "mail send",
            topic: "mail",
            summary: "Send a new message via Zoho Mail API.",
            requires_account: true,
            examples: vec!["zocli mail send person@example.com \"Subject\" \"Body text\""],
        },
        GuideCommandEntry {
            path: "mail reply",
            topic: "mail",
            summary: "Reply to a message by its ID.",
            requires_account: true,
            examples: vec!["zocli mail reply <message-id> --folder-id <folder-id> \"Reply body\""],
        },
        GuideCommandEntry {
            path: "mail forward",
            topic: "mail",
            summary: "Forward a message to another recipient.",
            requires_account: true,
            examples: vec![
                "zocli mail forward <message-id> --folder-id <folder-id> person@example.com",
            ],
        },
        GuideCommandEntry {
            path: "calendar calendars",
            topic: "calendar",
            summary: "List available calendars.",
            requires_account: true,
            examples: vec!["zocli calendar calendars"],
        },
        GuideCommandEntry {
            path: "calendar events",
            topic: "calendar",
            summary: "List events in a date range. Defaults to next 30 days.",
            requires_account: true,
            examples: vec![
                "zocli calendar events",
                "zocli calendar events 2026-03-12 2026-03-19 --limit 20",
            ],
        },
        GuideCommandEntry {
            path: "calendar create",
            topic: "calendar",
            summary: "Create a new calendar event.",
            requires_account: true,
            examples: vec![
                "zocli calendar create \"Meeting\" 2026-03-12T09:00:00Z 2026-03-12T10:00:00Z",
            ],
        },
        GuideCommandEntry {
            path: "calendar delete",
            topic: "calendar",
            summary: "Delete a calendar event by UID.",
            requires_account: true,
            examples: vec!["zocli calendar delete <event-uid>"],
        },
        GuideCommandEntry {
            path: "drive list",
            topic: "drive",
            summary: "List files in a WorkDrive folder. Without folder_id, lists teams.",
            requires_account: true,
            examples: vec![
                "zocli drive list",
                "zocli drive list <folder-id> --limit 50",
            ],
        },
        GuideCommandEntry {
            path: "drive info",
            topic: "drive",
            summary: "Show WorkDrive team info (storage quotas).",
            requires_account: true,
            examples: vec!["zocli drive info"],
        },
        GuideCommandEntry {
            path: "drive upload",
            topic: "drive",
            summary: "Upload a local file to a WorkDrive folder.",
            requires_account: true,
            examples: vec!["zocli drive upload ./report.pdf <folder-id>"],
        },
        GuideCommandEntry {
            path: "drive download",
            topic: "drive",
            summary: "Download a WorkDrive file to a local path.",
            requires_account: true,
            examples: vec!["zocli drive download <file-id> --output ./report.pdf"],
        },
    ];
    assert(r@.map_values(|e: GuideCommandEntry| command_key(e)) =~~= spec_guide_commands());
    r
}

/// Every workflow of the guide.
pub fn all_guide_workflows() -> (r: Vec<GuideWorkflowEntry>)
    ensures
        r@.map_values(|e: GuideWorkflowEntry| workflow_key(e)) == spec_guide_workflows(),
{
    let r = vec![
        GuideWorkflowEntry {
            id: "mail_read_flow",
            topic: "mail",
            title: "Read a message from Zoho Mail",
            summary: "Full flow from account setup to reading a message by ID.",
            steps: vec![
                "zocli add user@zoho.com",
                "zocli login",
                "zocli mail list --limit 10",
                "zocli mail read <message-id> --folder-id <folder-id>",
            ],
        },
        GuideWorkflowEntry {
            id: "mail_search_flow",
            topic: "mail",
            title: "Search for a message",
            summary: "Flow from login to searching and reading a message.",
            steps: vec![
                "zocli login",
                "zocli mail search \"invoice\"",
                "zocli mail read <message-id> --folder-id <folder-id>",
            ],
        },
        GuideWorkflowEntry {
            id: "mail_reply_flow",
            topic: "mail",
            title: "Reply to a message",
            summary: "Flow from finding a message to sending a reply.",
            steps: vec![
                "zocli login",
                "zocli mail search \"invoice\"",
                "zocli mail reply <message-id> --folder-id <folder-id> \"Got it, thanks\"",
            ],
        },
        GuideWorkflowEntry {
            id: "mail_forward_flow",
            topic: "mail",
            title: "Forward a message",
            summary: "Flow from finding a message to forwarding it.",
            steps: vec![
                "zocli login",
                "zocli mail search \"invoice\"",
                "zocli mail forward <message-id> --folder-id <folder-id> person@example.com \"FYI\"",
            ],
        },
        GuideWorkflowEntry {
            id: "mail_send_flow",
            topic: "mail",
            title: "Send a new message",
            summary: "Flow from login to composing and sending a new message.",
            steps: vec![
                "zocli login",
                "zocli mail send person@example.com \"Meeting\" \"See you at 3pm\"",
            ],
        },
        GuideWorkflowEntry {
            id: "calendar_read_flow",
            topic: "calendar",
            title: "Browse calendars and events",
            summary: "Flow from login to listing calendars and events.",
            steps: vec![
                "zocli login",
                "zocli calendar calendars",
                "zocli calendar events",
            ],
        },
        GuideWorkflowEntry {
            id: "calendar_write_flow",
            topic: "calendar",
            title: "Create and delete an event",
            summary: "Flow from login to creating and removing a calendar event.",
            steps: vec![
                "zocli login",
                "zocli calendar create \"Meeting\" 2026-03-12T09:00:00Z 2026-03-12T10:00:00Z",
                "zocli calendar delete <event-uid>",
            ],
        },
        GuideWorkflowEntry {
            id: "drive_browse_flow",
            topic: "drive",
            title: "Browse WorkDrive",
            summary: "Flow from login to listing teams and folder contents.",
            steps: vec![
                "zocli login",
                "zocli drive info",
                "zocli drive list <folder-id>",
            ],
        },
        GuideWorkflowEntry {
            id: "drive_upload_flow",
            topic: "drive",
            title: "Upload a file to WorkDrive",
            summary: "Flow from login to uploading a local file.",
            steps: vec!["zocli login", "zocli drive upload ./report.pdf <folder-id>"],
        },
        GuideWorkflowEntry {
            id: "drive_download_flow",
            topic: "drive",
            title: "Download a file from WorkDrive",
            summary: "Flow from login to downloading a file to disk.",
            steps: vec![
                "zocli login",
                "zocli drive download <file-id> --output ./report.pdf",
            ],
        },
        GuideWorkflowEntry {
            id: "multi_account_flow",
            topic: "mail",
            title: "Work with multiple accounts",
            summary: "Independent access to multiple mailboxes via named accounts.",
            steps: vec![
                "zocli add personal@zoho.com",
                "zocli add work@zoho.com",
                "zocli login",
                "zocli use work",
                "zocli login",
                "zocli use personal",
                "zocli mail list --limit 5",
                "zocli use work",
                "zocli mail list --limit 5",
            ],
        },
    ];
    assert(r@.map_values(|e: GuideWorkflowEntry| workflow_key(e)) =~~= spec_guide_workflows());
    r
}

/// The entries of a topic: all of them for `all`.
pub open spec fn in_topic(topic: GuideTopicArg, entry_topic: Seq<char>) -> bool {
    topic == GuideTopicArg::All || spec_topic_name(topic) == entry_topic
}

pub open spec fn commands_of<T>(s: Seq<(Seq<char>, Seq<char>, T)>, topic: GuideTopicArg) -> Seq<
    (Seq<char>, Seq<char>, T),
>
    decreases s.len(),
{
    if s.len() == 0 {
        s
    } else if in_topic(topic, s.last().1) {
        commands_of(s.drop_last(), topic).push(s.last())
    } else {
        commands_of(s.drop_last(), topic)
    }
}

/// The guide's commands of a topic, in order.
pub fn guide_commands(topic: GuideTopicArg) -> (r: Vec<GuideCommandEntry>)
    ensures
        r@.map_values(|e: GuideCommandEntry| command_key(e)) == commands_of(
            spec_guide_commands(),
            topic,
        ),
{
    let all = all_guide_commands();
    let ghost keys = spec_guide_commands();
    let name = guide_topic_name(topic);
    let mut rest = all;
    let mut out: Vec<GuideCommandEntry> = Vec::new();
    let n = rest.len();
    let mut i: usize = 0;
    proof {
        assert(keys.take(0) =~= Seq::<(Seq<char>, Seq<char>, (bool, Seq<char>, Seq<Seq<char>>))>::empty());
        assert(rest@.map_values(|e: GuideCommandEntry| command_key(e)).skip(0) =~= rest@.map_values(
            |e: GuideCommandEntry| command_key(e),
        ));
    }
    while i < n
        invariant
            n == keys.len(),
            i <= n,
            name@ == spec_topic_name(topic),
            rest@.map_values(|e: GuideCommandEntry| command_key(e)) == keys.skip(i as int),
            out@.map_values(|e: GuideCommandEntry| command_key(e)) == commands_of(
                keys.take(i as int),
                topic,
            ),
        decreases n - i,
    {
        let ghost old_rest = rest@;
        proof {
            assert(old_rest.map_values(|e: GuideCommandEntry| command_key(e)).len() == old_rest.len());
            assert(keys.skip(i as int).len() == n - i);
            assert(old_rest.map_values(|e: GuideCommandEntry| command_key(e))[0] == command_key(old_rest[0]));
        }
        let e = rest.remove(0);
        proof {
            assert(command_key(e) == keys[i as int]);
            assert forall|j: int| 0 <= j < rest@.len() implies rest@.map_values(
                |e: GuideCommandEntry| command_key(e),
            )[j] == keys.skip(i + 1)[j] && #[trigger] rest@[j] == rest@[j] by {
                assert(rest@[j] == old_rest[j + 1]);
                assert(old_rest.map_values(|e: GuideCommandEntry| command_key(e))[j + 1] == keys.skip(i as int)[j + 1]);
            }
            assert(rest@.map_values(|e: GuideCommandEntry| command_key(e)) =~= keys.skip(i + 1));
            assert(keys.take(i + 1).drop_last() =~= keys.take(i as int));
            assert(keys.take(i + 1).last() == keys[i as int]);
        }
        if topic == GuideTopicArg::All || str_eq(name, e.topic) {
            let ghost before = out@;
            out.push(e);
            proof {
                assert(out@.map_values(|e: GuideCommandEntry| command_key(e)) =~= before.map_values(
                    |e: GuideCommandEntry| command_key(e),
                ).push(keys[i as int]));
            }
        }
        i = i + 1;
    }
    proof {
        assert(keys.take(n as int) =~= keys);
    }
    out
}

/// The guide's workflows of a topic, in order.
pub fn guide_workflows(topic: GuideTopicArg) -> (r: Vec<GuideWorkflowEntry>)
    ensures
        r@.map_values(|e: GuideWorkflowEntry| workflow_key(e)) == commands_of(
            spec_guide_workflows(),
            topic,
        ),
{
    let all = all_guide_workflows();
    let ghost keys = spec_guide_workflows();
    let name = guide_topic_name(topic);
    let mut rest = all;
    let mut out: Vec<GuideWorkflowEntry> = Vec::new();
    let n = rest.len();
    let mut i: usize = 0;
    proof {
        assert(keys.take(0) =~= Seq::<(Seq<char>, Seq<char>, (Seq<char>, Seq<char>, Seq<Seq<char>>))>::empty());
        assert(rest@.map_values(|e: GuideWorkflowEntry| workflow_key(e)).skip(0) =~= rest@.map_values(
            |e: GuideWorkflowEntry| workflow_key(e),
        ));
    }
    while i < n
        invariant
            n == keys.len(),
            i <= n,
            name@ == spec_topic_name(topic),
            rest@.map_values(|e: GuideWorkflowEntry| workflow_key(e)) == keys.skip(i as int),
            out@.map_values(|e: GuideWorkflowEntry| workflow_key(e)) == commands_of(
                keys.take(i as int),
                topic,
            ),
        decreases n - i,
    {
        let ghost old_rest = rest@;
        proof {
            assert(old_rest.map_values(|e: GuideWorkflowEntry| workflow_key(e)).len() == old_rest.len());
            assert(keys.skip(i as int).len() == n - i);
            assert(old_rest.map_values(|e: GuideWorkflowEntry| workflow_key(e))[0] == workflow_key(old_rest[0]));
        }
        let e = rest.remove(0);
        proof {
            assert(workflow_key(e) == keys[i as int]);
            assert forall|j: int| 0 <= j < rest@.len() implies rest@.map_values(
                |e: GuideWorkflowEntry| workflow_key(e),
            )[j] == keys.skip(i + 1)[j] && #[trigger] rest@[j] == rest@[j] by {
                assert(rest@[j] == old_rest[j + 1]);
                assert(old_rest.map_values(|e: GuideWorkflowEntry| workflow_key(e))[j + 1] == keys.skip(i as int)[j + 1]);
            }
            assert(rest@.map_values(|e: GuideWorkflowEntry| workflow_key(e)) =~= keys.skip(i + 1));
            assert(keys.take(i + 1).drop_last() =~= keys.take(i as int));
            assert(keys.take(i + 1).last() == keys[i as int]);
        }
        if topic == GuideTopicArg::All || str_eq(name, e.topic) {
            let ghost before = out@;
            out.push(e);
            proof {
                assert(out@.map_values(|e: GuideWorkflowEntry| workflow_key(e)) =~= before.map_values(
                    |e: GuideWorkflowEntry| workflow_key(e),
                ).push(keys[i as int]));
            }
        }
        i = i + 1;
    }
    proof {
        assert(keys.take(n as int) =~= keys);
    }
    out
}

pub open spec fn bool_text(b: bool) -> Seq<char> {
    if b {
        "true"@
    } else {
        "false"@
    }
}

fn bool_str(b: bool) -> (r: &'static str)
    ensures
        r@ == bool_text(b),
{
    if b {
        "true"
    } else {
        "false"
    }
}

/// An identity value as shown: trimmed, or the fallback when blank.
pub open spec fn spec_identity(value: Seq<char>, fallback: Seq<char>) -> Seq<char> {
    if trim_seq(value).len() == 0 {
        fallback
    } else {
        trim_seq(value)
    }
}

pub fn display_account_identity(value: &str, fallback: &str) -> (r: String)
    ensures
        r@ == spec_identity(value@, fallback@),
{
    let t = trim(value);
    if t.as_str().is_empty() {
        fallback.to_owned()
    } else {
        t
    }
}

pub open spec fn dash_or(o: Option<String>) -> Seq<char> {
    match o {
        Some(s) => s@,
        None => "-"@,
    }
}

fn dash_or_text(o: &Option<String>) -> (r: String)
    ensures
        r@ == dash_or(*o),
{
    match o {
        Some(s) => s.clone(),
        None => String::from_str("-"),
    }
}

/// The lines of an account's table.
pub open spec fn account_lines(name: Seq<char>, a: AccountConfig, current: bool) -> Seq<Seq<char>> {
    seq![
        kv("account"@, name),
        kv("email"@, a.email@),
        kv("current"@, bool_text(current)),
        kv("datacenter"@, a.datacenter@),
        kv("account_id"@, spec_identity(a.account_id@, "auto-discover after login"@)),
        kv("org_id"@, dash_or(a.org_id)),
        kv("client_id"@, spec_identity(a.client_id@, "shared/default OAuth app"@)),
        kv("credential_ref"@, dash_or(a.credential_ref)),
    ]
}

fn push_line(lines: &mut Vec<String>, line: String)
    ensures
        text_views(final(lines)@) == text_views(old(lines)@).push(line@),
{
    let ghost before = lines@;
    lines.push(line);
    assert(text_views(lines@) =~= text_views(before).push(line@));
}

pub fn render_account_table(name: &str, account: &AccountConfig, current: bool) -> (r: String)
    ensures
        r@ == spec_join_lines(account_lines(name@, *account, current)),
{
    let mut lines: Vec<String> = Vec::new();
    push_line(&mut lines, kv_line("account", name));
    push_line(&mut lines, kv_line("email", account.email.as_str()));
    push_line(&mut lines, kv_line("current", bool_str(current)));
    push_line(&mut lines, kv_line("datacenter", account.datacenter.as_str()));
    let id = display_account_identity(account.account_id.as_str(), "auto-discover after login");
    push_line(&mut lines, kv_line("account_id", id.as_str()));
    let org = dash_or_text(&account.org_id);
    push_line(&mut lines, kv_line("org_id", org.as_str()));
    let client = display_account_identity(account.client_id.as_str(), "shared/default OAuth app");
    push_line(&mut lines, kv_line("client_id", client.as_str()));
    let cref = dash_or_text(&account.credential_ref);
    push_line(&mut lines, kv_line("credential_ref", cref.as_str()));
    assert(text_views(lines@) =~= account_lines(name@, *account, current));
    join_lines(&lines)
}

/// The lines of an account check: valid, or each problem on a line of its own.
pub open spec fn validation_lines(name: Seq<char>, errors: Seq<Seq<char>>) -> Seq<Seq<char>> {
    if errors.len() == 0 {
        seq![kv("account"@, name), kv("valid"@, "true"@)]
    } else {
        seq![kv("account"@, name), "valid\tfalse"@, "errors"@] + errors.map_values(
            |e: Seq<char>| "- "@ + e,
        )
    }
}

pub fn render_account_validation_table(name: &str, errors: &[String]) -> (r: String)
    ensures
        r@ == spec_join_lines(validation_lines(name@, views(errors@))),
{
    let mut lines: Vec<String> = Vec::new();
    push_line(&mut lines, kv_line("account", name));
    if errors.len() == 0 {
        push_line(&mut lines, kv_line("valid", "true"));
        assert(text_views(lines@) =~= validation_lines(name@, views(errors@)));
        return join_lines(&lines);
    }
    push_line(&mut lines, String::from_str("valid\tfalse"));
    push_line(&mut lines, String::from_str("errors"));
    let ghost head = text_views(lines@);
    let mut i: usize = 0;
    while i < errors.len()
        invariant
            i <= errors@.len(),
            text_views(lines@) == head + views(errors@.take(i as int)).map_values(
                |e: Seq<char>| "- "@ + e,
            ),
        decreases errors@.len() - i,
    {
        push_line(&mut lines, cat("- ", errors[i].as_str()));
        proof {
            assert(views(errors@.take(i + 1)).map_values(|e: Seq<char>| "- "@ + e) =~= views(
                errors@.take(i as int),
            ).map_values(|e: Seq<char>| "- "@ + e).push("- "@ + errors@[i as int]@));
        }
        i = i + 1;
    }
    proof {
        assert(errors@.take(errors@.len() as int) =~= errors@);
        assert(text_views(lines@) =~= validation_lines(name@, views(errors@)));
    }
    join_lines(&lines)
}

/// A row of the mail folder table.
pub open spec fn folder_row(f: MailFolder) -> Seq<char> {
    spec_sanitize(f.folder_id@) + "\t"@ + spec_sanitize(f.folder_name@) + "\t"@ + decimal(
        f.message_count as nat,
    ) + "\t"@ + decimal(f.unread_count as nat)
}

fn row4(a: String, b: String, c: String, d: String) -> (r: String)
    ensures
        r@ == a@ + "\t"@ + b@ + "\t"@ + c@ + "\t"@ + d@,
{
    let mut r = a;
    r.append("\t");
    r.append(b.as_str());
    r.append("\t");
    r.append(c.as_str());
    r.append("\t");
    r.append(d.as_str());
    r
}

fn row5(a: String, b: String, c: String, d: String, e: String) -> (r: String)
    ensures
        r@ == a@ + "\t"@ + b@ + "\t"@ + c@ + "\t"@ + d@ + "\t"@ + e@,
{
    let mut r = row4(a, b, c, d);
    r.append("\t");
    r.append(e.as_str());
    r
}

fn row6(a: String, b: String, c: String, d: String, e: String, f: String) -> (r: String)
    ensures
        r@ == a@ + "\t"@ + b@ + "\t"@ + c@ + "\t"@ + d@ + "\t"@ + e@ + "\t"@ + f@,
{
    let mut r = row5(a, b, c, d, e);
    r.append("\t");
    r.append(f.as_str());
    r
}

pub open spec fn head_lines(account: Seq<char>, count: nat, header: Seq<char>) -> Seq<Seq<char>> {
    seq![kv("account"@, account), kv("count"@, decimal(count)), header]
}

fn count_text(n: usize) -> (r: String)
    ensures
        r@ == decimal(n as nat),
{
    u64_to_string(n as u64)
}

pub fn render_mail_folders_table(account: &str, folders: &[MailFolder]) -> (r: String)
    ensures
        r@ == spec_join_lines(head_lines(account@, folders@.len(), "FOLDER_ID\tNAME\tMESSAGES\tUNREAD"@)
            + folders@.map_values(|f: MailFolder| folder_row(f))),
{
    let mut lines: Vec<String> = Vec::new();
    push_line(&mut lines, kv_line("account", account));
    let count = count_text(folders.len());
    push_line(&mut lines, kv_line("count", count.as_str()));
    push_line(&mut lines, String::from_str("FOLDER_ID\tNAME\tMESSAGES\tUNREAD"));
    let ghost head = text_views(lines@);
    let mut i: usize = 0;
    while i < folders.len()
        invariant
            i <= folders@.len(),
            text_views(lines@) == head + folders@.take(i as int).map_values(|f: MailFolder| folder_row(f)),
        decreases folders@.len() - i,
    {
        let f = &folders[i];
        let line = row4(
            sanitize_table_cell(f.folder_id.as_str()),
            sanitize_table_cell(f.folder_name.as_str()),
            u64_to_string(f.message_count),
            u64_to_string(f.unread_count),
        );
        push_line(&mut lines, line);
        proof {
            assert(folders@.take(i + 1).map_values(|f: MailFolder| folder_row(f)) =~= folders@.take(
                i as int,
            ).map_values(|f: MailFolder| folder_row(f)).push(folder_row(folders@[i as int])));
        }
        i = i + 1;
    }
    proof {
        assert(folders@.take(folders@.len() as int) =~= folders@);
        assert(text_views(lines@) =~= head_lines(account@, folders@.len(), "FOLDER_ID\tNAME\tMESSAGES\tUNREAD"@)
            + folders@.map_values(|f: MailFolder| folder_row(f)));
    }
    join_lines(&lines)
}

/// A row of the message list table.
pub open spec fn message_row(m: MailMessageSummary) -> Seq<char> {
    spec_sanitize(m.message_id@) + "\t"@ + spec_sanitize(m.sender@) + "\t"@ + spec_sanitize(
        m.subject@,
    ) + "\t"@ + spec_sanitize(m.received_time@) + "\t"@ + bool_text(m.is_read) + "\t"@ + bool_text(
        m.has_attachment,
    )
}

pub fn render_mail_list_table(account: &str, messages: &[MailMessageSummary]) -> (r: String)
    ensures
        r@ == spec_join_lines(head_lines(
            account@,
            messages@.len(),
            "MESSAGE_ID\tFROM\tSUBJECT\tRECEIVED\tREAD\tATTACH"@,
        ) + messages@.map_values(|m: MailMessageSummary| message_row(m))),
{
    let mut lines: Vec<String> = Vec::new();
    push_line(&mut lines, kv_line("account", account));
    let count = count_text(messages.len());
    push_line(&mut lines, kv_line("count", count.as_str()));
    push_line(&mut lines, String::from_str("MESSAGE_ID\tFROM\tSUBJECT\tRECEIVED\tREAD\tATTACH"));
    let ghost head = text_views(lines@);
    let mut i: usize = 0;
    while i < messages.len()
        invariant
            i <= messages@.len(),
            text_views(lines@) == head + messages@.take(i as int).map_values(
                |m: MailMessageSummary| message_row(m),
            ),
        decreases messages@.len() - i,
    {
        let m = &messages[i];
        let line = row6(
            sanitize_table_cell(m.message_id.as_str()),
            sanitize_table_cell(m.sender.as_str()),
            sanitize_table_cell(m.subject.as_str()),
            sanitize_table_cell(m.received_time.as_str()),
            String::from_str(bool_str(m.is_read)),
            String::from_str(bool_str(m.has_attachment)),
        );
        push_line(&mut lines, line);
        proof {
            assert(messages@.take(i + 1).map_values(|m: MailMessageSummary| message_row(m))
                =~= messages@.take(i as int).map_values(|m: MailMessageSummary| message_row(m)).push(
                message_row(messages@[i as int]),
            ));
        }
        i = i + 1;
    }
    proof {
        assert(messages@.take(messages@.len() as int) =~= messages@);
        assert(text_views(lines@) =~= head_lines(
            account@,
            messages@.len(),
            "MESSAGE_ID\tFROM\tSUBJECT\tRECEIVED\tREAD\tATTACH"@,
        ) + messages@.map_values(|m: MailMessageSummary| message_row(m)));
    }
    join_lines(&lines)
}

/// A row of the search result table.
pub open spec fn search_row(m: MailMessageSummary) -> Seq<char> {
    spec_sanitize(m.message_id@) + "\t"@ + spec_sanitize(m.sender@) + "\t"@ + spec_sanitize(
        m.subject@,
    ) + "\t"@ + spec_sanitize(m.received_time@) + "\t"@ + bool_text(m.is_read)
}

pub fn render_mail_search_table(account: &str, query: &str, messages: &[MailMessageSummary]) -> (r:
    String)
    ensures
        r@ == spec_join_lines(seq![
            kv("account"@, account@),
            kv("query"@, query@),
            kv("count"@, decimal(messages@.len())),
            "MESSAGE_ID\tFROM\tSUBJECT\tRECEIVED\tREAD"@,
        ] + messages@.map_values(|m: MailMessageSummary| search_row(m))),
{
    let mut lines: Vec<String> = Vec::new();
    push_line(&mut lines, kv_line("account", account));
    push_line(&mut lines, kv_line("query", query));
    let count = count_text(messages.len());
    push_line(&mut lines, kv_line("count", count.as_str()));
    push_line(&mut lines, String::from_str("MESSAGE_ID\tFROM\tSUBJECT\tRECEIVED\tREAD"));
    let ghost head = text_views(lines@);
    let mut i: usize = 0;
    while i < messages.len()
        invariant
            i <= messages@.len(),
            text_views(lines@) == head + messages@.take(i as int).map_values(
                |m: MailMessageSummary| search_row(m),
            ),
        decreases messages@.len() - i,
    {
        let m = &messages[i];
        let line = row5(
            sanitize_table_cell(m.message_id.as_str()),
            sanitize_table_cell(m.sender.as_str()),
            sanitize_table_cell(m.subject.as_str()),
            sanitize_table_cell(m.received_time.as_str()),
            String::from_str(bool_str(m.is_read)),
        );
        push_line(&mut lines, line);
        proof {
            assert(messages@.take(i + 1).map_values(|m: MailMessageSummary| search_row(m))
                =~= messages@.take(i as int).map_values(|m: MailMessageSummary| search_row(m)).push(
                search_row(messages@[i as int]),
            ));
        }
        i = i + 1;
    }
    proof {
        assert(messages@.take(messages@.len() as int) =~= messages@);
        assert(text_views(lines@) =~= seq![
            kv("account"@, account@),
            kv("query"@, query@),
            kv("count"@, decimal(messages@.len())),
            "MESSAGE_ID\tFROM\tSUBJECT\tRECEIVED\tREAD"@,
        ] + messages@.map_values(|m: MailMessageSummary| search_row(m)));
    }
    join_lines(&lines)
}

pub fn render_mail_read_table(account: &str, message: &MailMessage) -> (r: String)
    ensures
        r@ == spec_join_lines(seq![
            kv("account"@, account@),
            kv("message_id"@, message.message_id@),
            kv("folder_id"@, message.folder_id@),
            kv("from"@, message.sender@),
            kv("to"@, message.to_address@),
            kv("subject"@, message.subject@),
            kv("received"@, message.received_time@),
            "content"@,
            trim_end_seq(message.content@),
        ]),
{
    let mut lines: Vec<String> = Vec::new();
    push_line(&mut lines, kv_line("account", account));
    push_line(&mut lines, kv_line("message_id", message.message_id.as_str()));
    push_line(&mut lines, kv_line("folder_id", message.folder_id.as_str()));
    push_line(&mut lines, kv_line("from", message.sender.as_str()));
    push_line(&mut lines, kv_line("to", message.to_address.as_str()));
    push_line(&mut lines, kv_line("subject", message.subject.as_str()));
    push_line(&mut lines, kv_line("received", message.received_time.as_str()));
    push_line(&mut lines, String::from_str("content"));
    push_line(&mut lines, trim_end_str(message.content.as_str()));
    proof {
        assert(text_views(lines@) =~= seq![
            kv("account"@, account@),
            kv("message_id"@, message.message_id@),
            kv("folder_id"@, message.folder_id@),
            kv("from"@, message.sender@),
            kv("to"@, message.to_address@),
            kv("subject"@, message.subject@),
            kv("received"@, message.received_time@),
            "content"@,
            trim_end_seq(message.content@),
        ]);
    }
    join_lines(&lines)
}

fn two_kv(k1: &str, v1: &str, k2: &str, v2: &str) -> (r: String)
    ensures
        r@ == spec_join_lines(seq![kv(k1@, v1@), kv(k2@, v2@)]),
{
    let mut lines: Vec<String> = Vec::new();
    push_line(&mut lines, kv_line(k1, v1));
    push_line(&mut lines, kv_line(k2, v2));
    assert(text_views(lines@) =~= seq![kv(k1@, v1@), kv(k2@, v2@)]);
    join_lines(&lines)
}

pub fn render_mail_send_table(account: &str, sent: &SentMail) -> (r: String)
    ensures
        r@ == spec_join_lines(seq![kv("account"@, account@), kv("message_id"@, sent.message_id@)]),
{
    two_kv("account", account, "message_id", sent.message_id.as_str())
}

pub fn render_mail_reply_table(account: &str, replied: &RepliedMail) -> (r: String)
    ensures
        r@ == spec_join_lines(seq![kv("account"@, account@), kv("message_id"@, replied.message_id@)]),
{
    two_kv("account", account, "message_id", replied.message_id.as_str())
}

pub fn render_mail_forward_table(account: &str, forwarded: &ForwardedMail) -> (r: String)
    ensures
        r@ == spec_join_lines(seq![kv("account"@, account@), kv("message_id"@, forwarded.message_id@)]),
{
    two_kv("account", account, "message_id", forwarded.message_id.as_str())
}

/// A row of the calendar table.
pub open spec fn collection_row(c: CalendarCollection) -> Seq<char> {
    c.id@ + "\t"@ + c.name@ + "\t"@ + dash_or(c.description)
}

pub fn render_calendar_collections_table(account: &str, calendars: &[CalendarCollection]) -> (r: String)
    ensures
        r@ == spec_join_lines(head_lines(account@, calendars@.len(), "ID\tNAME\tDESCRIPTION"@)
            + calendars@.map_values(|c: CalendarCollection| collection_row(c))),
{
    let mut lines: Vec<String> = Vec::new();
    push_line(&mut lines, kv_line("account", account));
    let count = count_text(calendars.len());
    push_line(&mut lines, kv_line("count", count.as_str()));
    push_line(&mut lines, String::from_str("ID\tNAME\tDESCRIPTION"));
    let ghost head = text_views(lines@);
    let mut i: usize = 0;
    while i < calendars.len()
        invariant
            i <= calendars@.len(),
            text_views(lines@) == head + calendars@.take(i as int).map_values(
                |c: CalendarCollection| collection_row(c),
            ),
        decreases calendars@.len() - i,
    {
        let c = &calendars[i];
        let mut line = cat3(c.id.as_str(), "\t", c.name.as_str());
        line.append("\t");
        let d = dash_or_text(&c.description);
        line.append(d.as_str());
        push_line(&mut lines, line);
        proof {
            assert(calendars@.take(i + 1).map_values(|c: CalendarCollection| collection_row(c))
                =~= calendars@.take(i as int).map_values(|c: CalendarCollection| collection_row(c)).push(
                collection_row(calendars@[i as int]),
            ));
        }
        i = i + 1;
    }
    proof {
        assert(calendars@.take(calendars@.len() as int) =~= calendars@);
        assert(text_views(lines@) =~= head_lines(account@, calendars@.len(), "ID\tNAME\tDESCRIPTION"@)
            + calendars@.map_values(|c: CalendarCollection| collection_row(c)));
    }
    join_lines(&lines)
}

/// A row of the event table.
pub open spec fn event_row(e: CalendarEvent) -> Seq<char> {
    e.uid@ + "\t"@ + e.start@ + "\t"@ + e.end@ + "\t"@ + e.title@ + "\t"@ + dash_or(e.location)
}

pub open spec fn events_head(
    account: Seq<char>,
    calendar: CalendarCollection,
    window: CalendarEventWindow,
    count: nat,
) -> Seq<Seq<char>> {
    seq![
        kv("account"@, account),
        kv("calendar.id"@, calendar.id@),
        kv("calendar.name"@, calendar.name@),
        kv("window.from"@, window.from@),
        kv("window.to"@, window.to@),
        kv("count"@, decimal(count)),
        "UID\tSTART\tEND\tTITLE\tLOCATION"@,
    ]
}

pub fn render_calendar_events_table(
    account: &str,
    calendar: &CalendarCollection,
    window: &CalendarEventWindow,
    events: &[CalendarEvent],
) -> (r: String)
    ensures
        r@ == spec_join_lines(events_head(account@, *calendar, *window, events@.len())
            + events@.map_values(|e: CalendarEvent| event_row(e))),
{
    let mut lines: Vec<String> = Vec::new();
    push_line(&mut lines, kv_line("account", account));
    push_line(&mut lines, kv_line("calendar.id", calendar.id.as_str()));
    push_line(&mut lines, kv_line("calendar.name", calendar.name.as_str()));
    push_line(&mut lines, kv_line("window.from", window.from.as_str()));
    push_line(&mut lines, kv_line("window.to", window.to.as_str()));
    let count = count_text(events.len());
    push_line(&mut lines, kv_line("count", count.as_str()));
    push_line(&mut lines, String::from_str("UID\tSTART\tEND\tTITLE\tLOCATION"));
    let ghost head = text_views(lines@);
    proof {
        assert(head =~= events_head(account@, *calendar, *window, events@.len()));
    }
    let mut i: usize = 0;
    while i < events.len()
        invariant
            i <= events@.len(),
            head == events_head(account@, *calendar, *window, events@.len()),
            text_views(lines@) == head + events@.take(i as int).map_values(
                |e: CalendarEvent| event_row(e),
            ),
        decreases events@.len() - i,
    {
        let e = &events[i];
        let line = row5(
            e.uid.clone(),
            e.start.clone(),
            e.end.clone(),
            e.title.clone(),
            dash_or_text(&e.location),
        );
        push_line(&mut lines, line);
        proof {
            assert(events@.take(i + 1).map_values(|e: CalendarEvent| event_row(e)) =~= events@.take(
                i as int,
            ).map_values(|e: CalendarEvent| event_row(e)).push(event_row(events@[i as int])));
        }
        i = i + 1;
    }
    proof {
        assert(events@.take(events@.len() as int) =~= events@);
    }
    join_lines(&lines)
}

pub fn render_calendar_create_table(
    account: &str,
    calendar: &CalendarCollection,
    event: &CalendarEvent,
) -> (r: String)
    ensures
        r@ == spec_join_lines(seq![
            kv("account"@, account@),
            kv("calendar.id"@, calendar.id@),
            kv("calendar.name"@, calendar.name@),
            kv("event.uid"@, event.uid@),
            kv("event.title"@, event.title@),
            kv("event.start"@, event.start@),
            kv("event.end"@, event.end@),
            kv("event.location"@, dash_or(event.location)),
            kv("event.description"@, dash_or(event.description)),
        ]),
{
    let mut lines: Vec<String> = Vec::new();
    push_line(&mut lines, kv_line("account", account));
    push_line(&mut lines, kv_line("calendar.id", calendar.id.as_str()));
    push_line(&mut lines, kv_line("calendar.name", calendar.name.as_str()));
    push_line(&mut lines, kv_line("event.uid", event.uid.as_str()));
    push_line(&mut lines, kv_line("event.title", event.title.as_str()));
    push_line(&mut lines, kv_line("event.start", event.start.as_str()));
    push_line(&mut lines, kv_line("event.end", event.end.as_str()));
    let loc = dash_or_text(&event.location);
    push_line(&mut lines, kv_line("event.location", loc.as_str()));
    let desc = dash_or_text(&event.description);
    push_line(&mut lines, kv_line("event.description", desc.as_str()));
    proof {
        assert(text_views(lines@) =~= seq![
            kv("account"@, account@),
            kv("calendar.id"@, calendar.id@),
            kv("calendar.name"@, calendar.name@),
            kv("event.uid"@, event.uid@),
            kv("event.title"@, event.title@),
            kv("event.start"@, event.start@),
            kv("event.end"@, event.end@),
            kv("event.location"@, dash_or(event.location)),
            kv("event.description"@, dash_or(event.description)),
        ]);
    }
    join_lines(&lines)
}

pub fn render_calendar_delete_table(
    account: &str,
    calendar: &CalendarCollection,
    event: &CalendarEvent,
) -> (r: String)
    ensures
        r@ == spec_join_lines(seq![
            kv("account"@, account@),
            kv("calendar.id"@, calendar.id@),
            kv("calendar.name"@, calendar.name@),
            kv("deleted.uid"@, event.uid@),
            kv("deleted.title"@, event.title@),
            kv("deleted.start"@, event.start@),
            kv("deleted.end"@, event.end@),
        ]),
{
    let mut lines: Vec<String> = Vec::new();
    push_line(&mut lines, kv_line("account", account));
    push_line(&mut lines, kv_line("calendar.id", calendar.id.as_str()));
    push_line(&mut lines, kv_line("calendar.name", calendar.name.as_str()));
    push_line(&mut lines, kv_line("deleted.uid", event.uid.as_str()));
    push_line(&mut lines, kv_line("deleted.title", event.title.as_str()));
    push_line(&mut lines, kv_line("deleted.start", event.start.as_str()));
    push_line(&mut lines, kv_line("deleted.end", event.end.as_str()));
    proof {
        assert(text_views(lines@) =~= seq![
            kv("account"@, account@),
            kv("calendar.id"@, calendar.id@),
            kv("calendar.name"@, calendar.name@),
            kv("deleted.uid"@, event.uid@),
            kv("deleted.title"@, event.title@),
            kv("deleted.start"@, event.start@),
            kv("deleted.end"@, event.end@),
        ]);
    }
    join_lines(&lines)
}

/// A row of the team table.
pub open spec fn team_row(t: DriveTeam) -> Seq<char> {
    t.id@ + "\t"@ + t.name@ + "\t"@ + decimal(t.storage_used as nat) + "\t"@ + decimal(
        t.storage_limit as nat,
    )
}

pub fn render_drive_teams_table(account: &str, teams: &[DriveTeam]) -> (r: String)
    ensures
        r@ == spec_join_lines(head_lines(account@, teams@.len(), "ID\tNAME\tSTORAGE_USED\tSTORAGE_LIMIT"@)
            + teams@.map_values(|t: DriveTeam| team_row(t))),
{
    let mut lines: Vec<String> = Vec::new();
    push_line(&mut lines, kv_line("account", account));
    let count = count_text(teams.len());
    push_line(&mut lines, kv_line("count", count.as_str()));
    push_line(&mut lines, String::from_str("ID\tNAME\tSTORAGE_USED\tSTORAGE_LIMIT"));
    let ghost head = text_views(lines@);
    let mut i: usize = 0;
    while i < teams.len()
        invariant
            i <= teams@.len(),
            text_views(lines@) == head + teams@.take(i as int).map_values(|t: DriveTeam| team_row(t)),
        decreases teams@.len() - i,
    {
        let t = &teams[i];
        let line = row4(
            t.id.clone(),
            t.name.clone(),
            u64_to_string(t.storage_used),
            u64_to_string(t.storage_limit),
        );
        push_line(&mut lines, line);
        proof {
            assert(teams@.take(i + 1).map_values(|t: DriveTeam| team_row(t)) =~= teams@.take(
                i as int,
            ).map_values(|t: DriveTeam| team_row(t)).push(team_row(teams@[i as int])));
        }
        i = i + 1;
    }
    proof {
        assert(teams@.take(teams@.len() as int) =~= teams@);
        assert(text_views(lines@) =~= head_lines(account@, teams@.len(), "ID\tNAME\tSTORAGE_USED\tSTORAGE_LIMIT"@)
            + teams@.map_values(|t: DriveTeam| team_row(t)));
    }
    join_lines(&lines)
}

/// A row of the file table.
pub open spec fn file_row(f: DriveFile) -> Seq<char> {
    f.id@ + "\t"@ + f.name@ + "\t"@ + f.file_type@ + "\t"@ + decimal(f.size as nat) + "\t"@
        + f.modified_time@
}

pub fn render_drive_files_table(account: &str, files: &[DriveFile]) -> (r: String)
    ensures
        r@ == spec_join_lines(head_lines(account@, files@.len(), "ID\tNAME\tTYPE\tSIZE\tMODIFIED"@)
            + files@.map_values(|f: DriveFile| file_row(f))),
{
    let mut lines: Vec<String> = Vec::new();
    push_line(&mut lines, kv_line("account", account));
    let count = count_text(files.len());
    push_line(&mut lines, kv_line("count", count.as_str()));
    push_line(&mut lines, String::from_str("ID\tNAME\tTYPE\tSIZE\tMODIFIED"));
    let ghost head = text_views(lines@);
    let mut i: usize = 0;
    while i < files.len()
        invariant
            i <= files@.len(),
            text_views(lines@) == head + files@.take(i as int).map_values(|f: DriveFile| file_row(f)),
        decreases files@.len() - i,
    {
        let f = &files[i];
        let line = row5(
            f.id.clone(),
            f.name.clone(),
            f.file_type.clone(),
            u64_to_string(f.size),
            f.modified_time.clone(),
        );
        push_line(&mut lines, line);
        proof {
            assert(files@.take(i + 1).map_values(|f: DriveFile| file_row(f)) =~= files@.take(
                i as int,
            ).map_values(|f: DriveFile| file_row(f)).push(file_row(files@[i as int])));
        }
        i = i + 1;
    }
    proof {
        assert(files@.take(files@.len() as int) =~= files@);
        assert(text_views(lines@) =~= head_lines(account@, files@.len(), "ID\tNAME\tTYPE\tSIZE\tMODIFIED"@)
            + files@.map_values(|f: DriveFile| file_row(f)));
    }
    join_lines(&lines)
}

pub fn render_drive_upload_table(account: &str, uploaded: &UploadedFile) -> (r: String)
    ensures
        r@ == spec_join_lines(seq![
            kv("account"@, account@),
            kv("uploaded.id"@, uploaded.id@),
            kv("uploaded.name"@, uploaded.name@),
        ]),
{
    let mut lines: Vec<String> = Vec::new();
    push_line(&mut lines, kv_line("account", account));
    push_line(&mut lines, kv_line("uploaded.id", uploaded.id.as_str()));
    push_line(&mut lines, kv_line("uploaded.name", uploaded.name.as_str()));
    proof {
        assert(text_views(lines@) =~= seq![
            kv("account"@, account@),
            kv("uploaded.id"@, uploaded.id@),
            kv("uploaded.name"@, uploaded.name@),
        ]);
    }
    join_lines(&lines)
}

pub fn render_drive_download_table(account: &str, downloaded: &DownloadedFile) -> (r: String)
    ensures
        r@ == spec_join_lines(seq![
            kv("account"@, account@),
            kv("output.path"@, downloaded.path@),
            kv("bytes_written"@, decimal(downloaded.size as nat)),
        ]),
{
    let mut lines: Vec<String> = Vec::new();
    push_line(&mut lines, kv_line("account", account));
    push_line(&mut lines, kv_line("output.path", downloaded.path.as_str()));
    let size = u64_to_string(downloaded.size);
    push_line(&mut lines, kv_line("bytes_written", size.as_str()));
    proof {
        assert(text_views(lines@) =~= seq![
            kv("account"@, account@),
            kv("output.path"@, downloaded.path@),
            kv("bytes_written"@, decimal(downloaded.size as nat)),
        ]);
    }
    join_lines(&lines)
}

/// A row of the guide's command table.
pub open spec fn command_row(c: GuideCommandEntry) -> Seq<char> {
    c.path@ + "\t"@ + c.topic@ + "\t"@ + bool_text(c.requires_account) + "\t"@ + c.summary@
}

/// A row of the guide's workflow table.
pub open spec fn workflow_row(w: GuideWorkflowEntry) -> Seq<char> {
    w.id@ + "\t"@ + w.topic@ + "\t"@ + w.title@ + "\t"@ + w.summary@
}

/// The guide as a table; `version` is the client's version.
pub fn render_guide_table(
    topic: &str,
    commands: &[GuideCommandEntry],
    workflows: &[GuideWorkflowEntry],
    version: &str,
) -> (r: String)
    ensures
        r@ == spec_join_lines(seq![
            kv("topic"@, topic@),
            kv("version"@, version@),
            "commands"@,
            "PATH\tTOPIC\tREQUIRES_ACCOUNT\tSUMMARY"@,
        ] + commands@.map_values(|c: GuideCommandEntry| command_row(c)) + seq![
            "workflows"@,
            "ID\tTOPIC\tTITLE\tSUMMARY"@,
        ] + workflows@.map_values(|w: GuideWorkflowEntry| workflow_row(w))),
{
    let mut lines: Vec<String> = Vec::new();
    push_line(&mut lines, kv_line("topic", topic));
    push_line(&mut lines, kv_line("version", version));
    push_line(&mut lines, String::from_str("commands"));
    push_line(&mut lines, String::from_str("PATH\tTOPIC\tREQUIRES_ACCOUNT\tSUMMARY"));
    let ghost head = text_views(lines@);
    let mut i: usize = 0;
    while i < commands.len()
        invariant
            i <= commands@.len(),
            text_views(lines@) == head + commands@.take(i as int).map_values(
                |c: GuideCommandEntry| command_row(c),
            ),
        decreases commands@.len() - i,
    {
        let c = &commands[i];
        let line = row4(
            String::from_str(c.path),
            String::from_str(c.topic),
            String::from_str(bool_str(c.requires_account)),
            String::from_str(c.summary),
        );
        push_line(&mut lines, line);
        proof {
            assert(commands@.take(i + 1).map_values(|c: GuideCommandEntry| command_row(c))
                =~= commands@.take(i as int).map_values(|c: GuideCommandEntry| command_row(c)).push(
                command_row(commands@[i as int]),
            ));
        }
        i = i + 1;
    }
    proof {
        assert(commands@.take(commands@.len() as int) =~= commands@);
    }
    push_line(&mut lines, String::from_str("workflows"));
    push_line(&mut lines, String::from_str("ID\tTOPIC\tTITLE\tSUMMARY"));
    let ghost mid = text_views(lines@);
    let mut j: usize = 0;
    while j < workflows.len()
        invariant
            j <= workflows@.len(),
            text_views(lines@) == mid + workflows@.take(j as int).map_values(
                |w: GuideWorkflowEntry| workflow_row(w),
            ),
        decreases workflows@.len() - j,
    {
        let w = &workflows[j];
        let line = row4(
            String::from_str(w.id),
            String::from_str(w.topic),
            String::from_str(w.title),
            String::from_str(w.summary),
        );
        push_line(&mut lines, line);
        proof {
            assert(workflows@.take(j + 1).map_values(|w: GuideWorkflowEntry| workflow_row(w))
                =~= workflows@.take(j as int).map_values(|w: GuideWorkflowEntry| workflow_row(w)).push(
                workflow_row(workflows@[j as int]),
            ));
        }
        j = j + 1;
    }
    proof {
        assert(workflows@.take(workflows@.len() as int) =~= workflows@);
        assert(text_views(lines@) =~= seq![
            kv("topic"@, topic@),
            kv("version"@, version@),
            "commands"@,
            "PATH\tTOPIC\tREQUIRES_ACCOUNT\tSUMMARY"@,
        ] + commands@.map_values(|c: GuideCommandEntry| command_row(c)) + seq![
            "workflows"@,
            "ID\tTOPIC\tTITLE\tSUMMARY"@,
        ] + workflows@.map_values(|w: GuideWorkflowEntry| workflow_row(w)));
    }
    join_lines(&lines)
}


/// `out` is `ms` with the member `key` given a value that `p` accepts: the first member with
/// that key in place, or a new member at the end.
pub open spec fn put_where(
    ms: Seq<(String, Json)>,
    key: Seq<char>,
    p: spec_fn(Json) -> bool,
    out: Seq<(String, Json)>,
) -> bool {
    match crate::tool_calls::first_key(ms, key) {
        Some(i) => out.len() == ms.len() && out[i].0@ == ms[i].0@ && p(out[i].1) && forall|j: int|
            0 <= j < out.len() && j != i ==> out[j] == ms[j],
        None => out.len() == ms.len() + 1 && out.drop_last() == ms && out.last().0@ == key && p(
            out.last().1,
        ),
    }
}

pub(crate) proof fn lemma_first_key_found(ms: Seq<(String, Json)>, key: Seq<char>, i: int)
    requires
        0 <= i < ms.len(),
        ms[i].0@ == key,
        forall|j: int| 0 <= j < i ==> (#[trigger] ms[j]).0@ != key,
    ensures
        crate::tool_calls::first_key(ms, key) == Some(i),
{
    let k = choose|k: int| 0 <= k < ms.len() && ms[k].0@ == key && forall|j: int| 0 <= j < k ==> ms[j].0@ != key;
    assert(0 <= k < ms.len() && ms[k].0@ == key && forall|j: int| 0 <= j < k ==> ms[j].0@ != key);
    if k < i {
        assert(ms[k].0@ != key);
    } else if k > i {
        assert(ms[i].0@ != key);
    }
}

pub(crate) fn set_member(ms: &mut Vec<(String, Json)>, key: &str, value: Json, Ghost(p): Ghost<spec_fn(Json) -> bool>)
    requires
        p(value),
    ensures
        put_where(old(ms)@, key@, p, final(ms)@),
{
    let ghost orig = ms@;
    let mut i: usize = 0;
    while i < ms.len()
        invariant
            ms@ == orig,
            orig == old(ms)@,
            i <= orig.len(),
            p(value),
            forall|j: int| 0 <= j < i ==> (#[trigger] orig[j]).0@ != key@,
        decreases orig.len() - i,
    {
        if crate::text::str_eq(ms[i].0.as_str(), key) {
            let k = ms[i].0.clone();
            proof {
                lemma_first_key_found(orig, key@, i as int);
            }
            ms.set(i, (k, value));
            return;
        }
        i = i + 1;
    }
    ms.push((String::from_str(key), value));
    proof {
        assert(ms@.drop_last() =~= orig);
    }
}

pub open spec fn is_true() -> spec_fn(Json) -> bool {
    |v: Json| v == Json::Bool(true)
}

pub open spec fn is_text_of(t: Seq<char>) -> spec_fn(Json) -> bool {
    |v: Json| crate::json::is_text(v, t)
}

/// A command's JSON result: the payload object with `ok` set to true and then `operation`
/// set to the operation's name; a payload that is not an object is a serialization error.
pub fn ok_payload(payload: Json, operation: &str) -> (r: Result<Json, ZocliError>)
    ensures
        match payload {
            Json::Object(ms) => r matches Ok(Json::Object(out)) && exists|mid: Seq<(String, Json)>|
                #[trigger] put_where(ms@, "ok"@, is_true(), mid) && put_where(
                    mid,
                    "operation"@,
                    is_text_of(operation@),
                    out@,
                ),
            _ => r matches Err(ZocliError::Serialization(m)) && m@ == "expected object payload"@,
        },
{
    match payload {
        Json::Object(ms) => {
            let mut out = ms;
            set_member(&mut out, "ok", Json::Bool(true), Ghost(is_true()));
            let ghost mid = out@;
            set_member(
                &mut out,
                "operation",
                crate::json::text_json(operation),
                Ghost(is_text_of(operation@)),
            );
            Ok(Json::Object(out))
        },
        _ => Err(ZocliError::Serialization(String::from_str("expected object payload"))),
    }
}

/// What a mail carries: the HTML if given, else the text body, else nothing; sent as HTML
/// when it holds a `<`, else as plain text.
pub fn mail_content(html: Option<String>, body: Option<String>) -> (r: (String, &'static str))
    ensures
        r.0@ == match html {
            Some(h) => h@,
            None => match body {
                Some(b) => b@,
                None => Seq::empty(),
            },
        },
        r.1@ == (if r.0@.contains('<') {
            "html"@
        } else {
            "plaintext"@
        }),
{
    let content = match html {
        Some(h) => h,
        None => match body {
            Some(b) => b,
            None => String::new(),
        },
    };
    let format = if contains_char(content.as_str(), '<') {
        "html"
    } else {
        "plaintext"
    };
    proof {
        reveal_strlit("html");
        reveal_strlit("plaintext");
    }
    (content, format)
}

/// One row of the account list: name, email, datacenter, and whether it is current.
pub open spec fn account_row(row: (String, String, String, bool)) -> Seq<char> {
    row.0@ + "\t"@ + row.1@ + "\t"@ + row.2@ + "\t"@ + bool_text(row.3)
}

/// The account list: a header and one row per account, or a note that there are none.
pub fn render_account_list_table(rows: &Vec<(String, String, String, bool)>) -> (r: String)
    ensures
        rows@.len() == 0 ==> r@ == "No accounts configured"@,
        rows@.len() > 0 ==> r@ == spec_join_lines(
            seq!["NAME\tEMAIL\tDATACENTER\tCURRENT"@] + rows@.map_values(|x: (String, String, String, bool)| account_row(x)),
        ),
{
    if rows.len() == 0 {
        return String::from_str("No accounts configured");
    }
    let mut lines: Vec<String> = Vec::new();
    lines.push(String::from_str("NAME\tEMAIL\tDATACENTER\tCURRENT"));
    let mut i: usize = 0;
    while i < rows.len()
        invariant
            i <= rows@.len(),
            text_views(lines@) == seq!["NAME\tEMAIL\tDATACENTER\tCURRENT"@] + rows@.take(i as int).map_values(|x: (String, String, String, bool)| account_row(x)),
        decreases rows@.len() - i,
    {
        let row = &rows[i];
        let mut line = cat3(row.0.as_str(), "\t", row.1.as_str());
        line.append("\t");
        line.append(row.2.as_str());
        line.append("\t");
        line.append(bool_str(row.3));
        let ghost before = lines@;
        proof {
            assert(line@ =~= account_row(rows@[i as int]));
        }
        lines.push(line);
        proof {
            assert(rows@.take(i + 1) =~= rows@.take(i as int).push(rows@[i as int]));
            assert(text_views(lines@) =~= text_views(before).push(account_row(rows@[i as int])));
            assert(text_views(lines@) =~= seq!["NAME\tEMAIL\tDATACENTER\tCURRENT"@] + rows@.take(i + 1).map_values(|x: (String, String, String, bool)| account_row(x)));
        }
        i = i + 1;
    }
    proof {
        assert(rows@.take(rows@.len() as int) =~= rows@);
    }
    join_lines(&lines)
}

/// The auth status table: account, email, datacenter, then the credential's state and detail.
pub fn render_auth_status_table(
    name: &str,
    email: &str,
    datacenter: &str,
    state_label: &str,
    detail: &str,
) -> (r: String)
    ensures
        r@ == spec_join_lines(
            seq![
                "ACCOUNT\t"@ + name@,
                "EMAIL\t"@ + email@,
                "DATACENTER\t"@ + datacenter@,
                "STATUS\tDETAIL"@,
                state_label@ + "\t"@ + detail@,
            ],
        ),
{
    let mut lines: Vec<String> = Vec::new();
    lines.push(cat("ACCOUNT\t", name));
    lines.push(cat("EMAIL\t", email));
    lines.push(cat("DATACENTER\t", datacenter));
    lines.push(String::from_str("STATUS\tDETAIL"));
    lines.push(cat3(state_label, "\t", detail));
    proof {
        assert(text_views(lines@) =~= seq![
            "ACCOUNT\t"@ + name@,
            "EMAIL\t"@ + email@,
            "DATACENTER\t"@ + datacenter@,
            "STATUS\tDETAIL"@,
            state_label@ + "\t"@ + detail@,
        ]);
    }
    join_lines(&lines)
}

/// The services a logout covers: the one asked for, else mail, calendar and drive.
pub fn logout_services(service: Option<AuthServiceArg>) -> (r: Vec<AuthServiceArg>)
    ensures
        r@ == match service {
            Some(s) => seq![s],
            None => seq![AuthServiceArg::Mail, AuthServiceArg::Calendar, AuthServiceArg::Drive],
        },
{
    let v = match service {
        Some(s) => vec![s],
        None => vec![AuthServiceArg::Mail, AuthServiceArg::Calendar, AuthServiceArg::Drive],
    };
    proof {
        assert(v@ =~= match service {
            Some(s) => seq![s],
            None => seq![AuthServiceArg::Mail, AuthServiceArg::Calendar, AuthServiceArg::Drive],
        });
    }
    v
}

/// The service a single logout names; one is required.
pub fn logout_service_name(service: Option<AuthServiceArg>) -> (r: Result<&'static str, ZocliError>)
    ensures
        match service {
            Some(AuthServiceArg::Mail) => r matches Ok(n) && n@ == "mail"@,
            Some(AuthServiceArg::Calendar) => r matches Ok(n) && n@ == "calendar"@,
            Some(AuthServiceArg::Drive) => r matches Ok(n) && n@ == "drive"@,
            None => r matches Err(ZocliError::Validation(m)) && m@ == logout_needs_service(),
        },
{
    proof {
        reveal_strlit("mail");
        reveal_strlit("calendar");
        reveal_strlit("drive");
    }
    match service {
        Some(AuthServiceArg::Mail) => Ok("mail"),
        Some(AuthServiceArg::Calendar) => Ok("calendar"),
        Some(AuthServiceArg::Drive) => Ok("drive"),
        None => Err(
            ZocliError::Validation(
                String::from_str(
                    "logout without service is handled by the top-level `zocli logout`; internal `auth logout` still requires an explicit service",
                ),
            ),
        ),
    }
}

pub open spec fn logout_needs_service() -> Seq<char> {
    "logout without service is handled by the top-level `zocli logout`; internal `auth logout` still requires an explicit service"@
}

/// One row of the logout summary: the service and whether a credential was removed.
pub open spec fn logout_row(item: (String, bool)) -> Seq<char> {
    item.0@ + "\t"@ + bool_text(item.1)
}

/// The logout summary: a header and one row per service, or a note that none was logged out.
pub fn render_logout_table(items: &Vec<(String, bool)>) -> (r: String)
    ensures
        items@.len() == 0 ==> r@ == "No services logged out"@,
        items@.len() > 0 ==> r@ == spec_join_lines(
            seq!["SERVICE\tREMOVED"@] + items@.map_values(|x: (String, bool)| logout_row(x)),
        ),
{
    if items.len() == 0 {
        return String::from_str("No services logged out");
    }
    let mut lines: Vec<String> = Vec::new();
    lines.push(String::from_str("SERVICE\tREMOVED"));
    let mut i: usize = 0;
    while i < items.len()
        invariant
            i <= items@.len(),
            text_views(lines@) == seq!["SERVICE\tREMOVED"@] + items@.take(i as int).map_values(
                |x: (String, bool)| logout_row(x),
            ),
        decreases items@.len() - i,
    {
        let line = cat3(items[i].0.as_str(), "\t", bool_str(items[i].1));
        let ghost before = lines@;
        lines.push(line);
        proof {
            assert(items@.take(i + 1) =~= items@.take(i as int).push(items@[i as int]));
            assert(text_views(lines@) =~= text_views(before).push(logout_row(items@[i as int])));
            assert(text_views(lines@) =~= seq!["SERVICE\tREMOVED"@] + items@.take(i + 1).map_values(
                |x: (String, bool)| logout_row(x),
            ));
        }
        i = i + 1;
    }
    proof {
        assert(items@.take(items@.len() as int) =~= items@);
    }
    join_lines(&lines)
}

/// What a login learns of the account: the discovered account id replaces a missing one (empty
/// or `0`), and a discovered ZUID is recorded.
pub fn discovery_updates(
    current_account_id: &str,
    discovered_account_id: String,
    discovered_zuid: Option<String>,
) -> (r: (Option<String>, Option<String>))
    ensures
        (current_account_id@ == "0"@ || current_account_id@.len() == 0) ==> (r.0 matches Some(a)
            && a@ == discovered_account_id@),
        !(current_account_id@ == "0"@ || current_account_id@.len() == 0) ==> r.0 is None,
        r.1 == discovered_zuid,
{
    proof {
        reveal_strlit("0");
    }
    let missing = str_eq(current_account_id, "0") || current_account_id.is_empty();
    if missing {
        (Some(discovered_account_id), discovered_zuid)
    } else {
        (None, discovered_zuid)
    }
}

/// The WorkDrive user of an account: its ZUID when known, else its account id.
pub fn drive_user_id<'a>(zuid: &'a Option<String>, account_id: &'a str) -> (r: &'a str)
    ensures
        r@ == match zuid {
            Some(z) => z@,
            None => account_id@,
        },
{
    match zuid {
        Some(z) => z.as_str(),
        None => account_id,
    }
}


/// A lower-case ASCII letter or an ASCII digit.
pub open spec fn plain_name_char(c: char) -> bool {
    ('a' <= c && c <= 'z') || ('0' <= c && c <= '9')
}

proof fn lemma_segments_without_sep(s: Seq<char>, sep: char)
    requires
        forall|i: int| 0 <= i < s.len() ==> s[i] != sep,
    ensures
        crate::text::segments(s, sep) == seq![s],
    decreases s.len(),
{
    if s.len() > 0 {
        lemma_segments_without_sep(s.drop_last(), sep);
        assert(s.drop_last().push(s.last()) =~= s);
        assert(seq![s.drop_last()].update(0, s.drop_last().push(s.last())) =~= seq![s]);
    } else {
        assert(s =~= Seq::<char>::empty());
    }
}

proof fn lemma_first_segment_kept(p: Seq<char>, q: Seq<char>, sep: char)
    requires
        crate::text::segments(p, sep).len() >= 2,
    ensures
        crate::text::segments(p + q, sep).len() >= 2,
        crate::text::segments(p + q, sep)[0] == crate::text::segments(p, sep)[0],
    decreases q.len(),
{
    if q.len() == 0 {
        assert(p + q =~= p);
    } else {
        lemma_first_segment_kept(p, q.drop_last(), sep);
        assert((p + q).drop_last() =~= p + q.drop_last());
    }
}

proof fn lemma_collapse_plain(s: Seq<char>)
    requires
        forall|i: int| 0 <= i < s.len() ==> plain_name_char(#[trigger] s[i]),
    ensures
        collapse_dashes(s) == s,
    decreases s.len(),
{
    if s.len() > 0 {
        lemma_collapse_plain(s.drop_last());
        assert(plain_name_char(s[s.len() - 1]));
        assert(s.drop_last().push(s.last()) =~= s);
    }
}

/// An alias derived from an email whose local part is made of lower-case letters and digits
/// only is that local part itself: nothing in it is changed or dropped.
pub proof fn law_plain_local_part_is_the_alias(local: Seq<char>, domain: Seq<char>)
    requires
        local.len() > 0,
        forall|i: int| 0 <= i < local.len() ==> plain_name_char(#[trigger] local[i]),
    ensures
        spec_derive_name(local + seq!['@'] + domain) == local,
{
    assert forall|i: int| 0 <= i < local.len() implies local[i] != '@' by {
        assert(plain_name_char(local[i]));
    }
    lemma_segments_without_sep(local, '@');
    let p = local.push('@');
    assert(p.drop_last() =~= local);
    assert(crate::text::segments(p, '@') == seq![local].push(Seq::<char>::empty()));
    assert(local + seq!['@'] =~= p);
    lemma_first_segment_kept(p, domain, '@');
    lemma_collapse_plain(local);
    assert(plain_name_char(local[0]));
    assert(plain_name_char(local[local.len() - 1]));
    assert(trim_dashes(local) == local);
}

} // verus!
