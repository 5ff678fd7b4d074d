//! The MCP prompts: their definitions, how each renders its text from the arguments given,
//! and completion of argument values.
use vstd::prelude::*;
use crate::oauth::strs;
use crate::text::{
    str_eq, all_ws, is_all_whitespace, cat, cat3, text_views, trim, trim_seq, to_ascii_lowercase,
    ascii_lower_seq, has_prefix, has_infix, starts_with, contains_str, seq_lt, str_lt, decimal,
    u64_to_string,
};
use crate::calendar::{ins, isort, lemma_ins_step, Instant, instant_valid, date_text, format_date, add_days, now_instant};
use crate::skills::{spec_skills, skill_names};
use crate::account_store::AccountStore;
use crate::error::ZocliError;
use crate::json::{Json, member, get, opt_ref_is, is_text, text_json};
use crate::skills::{spec_prompt_skill, prompt_skill_name};

verus! {

broadcast use vstd::string::group_string_axioms;

/// The names of the embedded prompts, in order.
pub open spec fn spec_prompt_names() -> Seq<Seq<char>> {
    seq![
        "shared"@,
        "mail"@,
        "calendar"@,
        "drive"@,
        "daily-briefing"@,
        "find-and-read"@,
        "reply-with-context"@,
    ]
}

pub fn prompt_names() -> (r: Vec<&'static str>)
    ensures
        strs(r@) == spec_prompt_names(),
{
    let r = vec![
        "shared",
        "mail",
        "calendar",
        "drive",
        "daily-briefing",
        "find-and-read",
        "reply-with-context",
    ];
    assert(strs(r@) =~= spec_prompt_names());
    r
}

/// Whether `name` is one of the embedded prompts.
pub fn is_prompt_name(name: &str) -> (r: bool)
    ensures
        r == spec_prompt_names().contains(name@),
{
    let names = prompt_names();
    let mut i: usize = 0;
    while i < names.len()
        invariant
            strs(names@) == spec_prompt_names(),
            i <= names@.len(),
            forall|j: int| 0 <= j < i ==> spec_prompt_names()[j] != name@,
        decreases names@.len() - i,
    {
        if str_eq(names[i], name) {
            assert(spec_prompt_names()[i as int] == name@);
            return true;
        }
        i = i + 1;
    }
    false
}

pub open spec fn opt_json(o: Option<&Json>) -> Option<Json> {
    match o {
        Some(j) => Some(*j),
        None => None,
    }
}

/// A prompt argument's value: a JSON string that is not blank.
pub open spec fn arg_value(args: Option<Json>, key: Seq<char>) -> Option<Seq<char>> {
    match args {
        Some(a) => match member(a, key) {
            Some(Json::Str(s)) => if all_ws(s@) {
                None
            } else {
                Some(s@)
            },
            _ => None,
        },
        None => None,
    }
}

pub open spec fn or_default(o: Option<Seq<char>>, d: Seq<char>) -> Seq<char> {
    match o {
        Some(x) => x,
        None => d,
    }
}

pub open spec fn required_msg(key: Seq<char>) -> Seq<char> {
    "prompt argument `"@ + key + "` is required"@
}

fn arg_text<'a>(args: Option<&'a Json>, key: &str) -> (r: Option<&'a str>)
    ensures
        match r {
            Some(x) => arg_value(opt_json(args), key@) == Some(x@),
            None => arg_value(opt_json(args), key@) is None,
        },
{
    match args {
        Some(a) => match get(a, key) {
            Some(Json::Str(s)) => {
                if is_all_whitespace(s.as_str()) {
                    None
                } else {
                    Some(s.as_str())
                }
            },
            _ => None,
        },
        None => None,
    }
}

fn text_or<'a>(o: Option<&'a str>, d: &'a str) -> (r: &'a str)
    ensures
        r@ == or_default(
            match o {
                Some(x) => Some(x@),
                None => None,
            },
            d@,
        ),
{
    match o {
        Some(x) => x,
        None => d,
    }
}

/// The JSON object of a prompt argument: `description`, `name` and `required`.
pub open spec fn argument_is(j: Json, a: (Seq<char>, Seq<char>, bool)) -> bool {
    j matches Json::Object(ms) && ms@.len() == 3 && ms@[0].0@ == "description"@ && is_text(
        ms@[0].1,
        a.1,
    ) && ms@[1].0@ == "name"@ && is_text(ms@[1].1, a.0) && ms@[2].0@ == "required"@ && ms@[2].1
        == Json::Bool(a.2)
}

pub open spec fn arguments_json(j: Json, args: Seq<(Seq<char>, Seq<char>, bool)>) -> bool {
    j matches Json::Array(items) && items@.len() == args.len() && forall|i: int|
        0 <= i < args.len() ==> argument_is(#[trigger] items@[i], args[i])
}

fn argument_json(name: &str, description: &str, required: bool) -> (r: Json)
    ensures
        argument_is(r, (name@, description@, required)),
{
    let mut ms: Vec<(String, Json)> = Vec::new();
    ms.push((String::from_str("description"), text_json(description)));
    ms.push((String::from_str("name"), text_json(name)));
    ms.push((String::from_str("required"), Json::Bool(required)));
    Json::Object(ms)
}

/// The embedded prompts: name, title, description, and for each argument its name,
/// description and whether it is required.
pub open spec fn spec_prompt_defs() -> Seq<(Seq<char>, Seq<char>, Seq<char>, Seq<(Seq<char>, Seq<char>, bool)>)> {
    seq![
        (
            "shared"@,
            "zocli shared context"@,
            "Understand the account, auth state, and base MCP context before using mail, calendar, or WorkDrive tools. Общий контекст аккаунта, авторизации и MCP перед работой с mail, calendar и WorkDrive."@,
            seq![
                ("goal"@, "What you want to achieve with zocli. Что вы хотите сделать через zocli."@, false),
                ("account"@, "Optional zocli account alias to prefer. Необязательный alias аккаунта zocli."@, false),
            ],
        ),
        (
            "mail"@,
            "zocli mail workflow"@,
            "Work with Zoho Mail through MCP: folders, search, read, send, reply, and forward. Работа с Zoho Mail через MCP: папки, поиск, чтение, отправка, reply и forward."@,
            seq![
                ("request"@, "What mail task to perform. Какую почтовую задачу нужно выполнить."@, true),
                ("account"@, "Optional zocli account alias. Необязательный alias аккаунта zocli."@, false),
                ("folder"@, "Mailbox folder, defaults to INBOX when omitted. Папка почты; если не указана, используется INBOX."@, false),
            ],
        ),
        (
            "calendar"@,
            "zocli calendar workflow"@,
            "Work with Zoho Calendar through MCP: calendars, upcoming events, event creation, and event deletion. Работа с Zoho Calendar через MCP: календари, события, создание и удаление событий."@,
            seq![
                ("request"@, "What calendar task to perform. Какую задачу по календарю нужно выполнить."@, true),
                ("account"@, "Optional zocli account alias. Необязательный alias аккаунта zocli."@, false),
                ("calendar"@, "Calendar name, defaults to default. Имя календаря; по умолчанию используется default."@, false),
                ("from"@, "Optional RFC3339 or YYYY-MM-DD start boundary. Необязательная начальная граница RFC3339 или YYYY-MM-DD."@, false),
                ("to"@, "Optional RFC3339 or YYYY-MM-DD end boundary. Необязательная конечная граница RFC3339 или YYYY-MM-DD."@, false),
            ],
        ),
        (
            "drive"@,
            "zocli drive workflow"@,
            "Work with Zoho WorkDrive through MCP: teams, folders, uploads, and downloads. Работа с Zoho WorkDrive через MCP: teams, папки, загрузки и скачивания."@,
            seq![
                ("request"@, "What WorkDrive task to perform. Какую задачу по WorkDrive нужно выполнить."@, true),
                ("account"@, "Optional zocli account alias. Необязательный alias аккаунта zocli."@, false),
                ("folder_id"@, "Optional WorkDrive folder ID to focus on. Необязательный folder ID WorkDrive для фокуса."@, false),
            ],
        ),
        (
            "daily-briefing"@,
            "Mail and calendar briefing"@,
            "Build a short summary of important mail, upcoming events, deadlines, and actions that need attention. Собери короткую сводку по важным письмам, событиям и действиям."@,
            seq![
                ("account"@, "Optional zocli account alias. Необязательный alias аккаунта zocli."@, false),
                ("from"@, "Optional start date for the schedule window. Необязательная дата начала окна."@, false),
                ("to"@, "Optional end date for the schedule window. Необязательная дата конца окна."@, false),
                ("mail_limit"@, "How many recent inbox messages to inspect. Сколько последних писем из inbox нужно посмотреть."@, false),
            ],
        ),
        (
            "find-and-read"@,
            "Find and read a message"@,
            "Search for a message, choose the best result, and read its contents. Найди письмо, выбери лучший результат и прочитай содержимое."@,
            seq![
                ("query"@, "Search phrase to locate the email. Поисковая фраза для поиска письма."@, true),
                ("account"@, "Optional zocli account alias. Необязательный alias аккаунта zocli."@, false),
                ("limit"@, "How many matching messages to inspect. Сколько совпавших писем нужно проверить."@, false),
            ],
        ),
        (
            "reply-with-context"@,
            "Reply with calendar context"@,
            "Read a message, inspect the schedule, and draft or send a reply with the right calendar context. Прочитай письмо, проверь расписание и подготовь ответ с правильным календарным контекстом."@,
            seq![
                ("message_id"@, "The message ID to read and respond to. Идентификатор письма, которое нужно прочитать и обработать."@, true),
                ("account"@, "Optional zocli account alias. Необязательный alias аккаунта zocli."@, false),
                ("folder_id"@, "Folder ID of the message when already known. Folder ID письма, если он уже известен."@, false),
                ("from"@, "Optional schedule start boundary to inspect. Необязательная начальная граница расписания."@, false),
                ("to"@, "Optional schedule end boundary to inspect. Необязательная конечная граница расписания."@, false),
            ],
        ),
    ]
}

/// The name of the `k`-th prompt.
fn prompt_name_at(k: usize) -> (r: &'static str)
    requires
        k < 7,
    ensures
        r@ == spec_prompt_defs()[k as int].0,
{
    match k {
        0 => "shared",
        1 => "mail",
        2 => "calendar",
        3 => "drive",
        4 => "daily-briefing",
        5 => "find-and-read",
        _ => "reply-with-context",
    }
}

/// The title of the `k`-th prompt.
fn prompt_title_at(k: usize) -> (r: &'static str)
    requires
        k < 7,
    ensures
        r@ == spec_prompt_defs()[k as int].1,
{
    match k {
        0 => "zocli shared context",
        1 => "zocli mail workflow",
        2 => "zocli calendar workflow",
        3 => "zocli drive workflow",
        4 => "Mail and calendar briefing",
        5 => "Find and read a message",
        _ => "Reply with calendar context",
    }
}

/// The description of the `k`-th prompt.
fn prompt_description_at(k: usize) -> (r: &'static str)
    requires
        k < 7,
    ensures
        r@ == spec_prompt_defs()[k as int].2,
{
    match k {
        0 => "Understand the account, auth state, and base MCP context before using mail, calendar, or WorkDrive tools. Общий контекст аккаунта, авторизации и MCP перед работой с mail, calendar и WorkDrive.",
        1 => "Work with Zoho Mail through MCP: folders, search, read, send, reply, and forward. Работа с Zoho Mail через MCP: папки, поиск, чтение, отправка, reply и forward.",
        2 => "Work with Zoho Calendar through MCP: calendars, upcoming events, event creation, and event deletion. Работа с Zoho Calendar через MCP: календари, события, создание и удаление событий.",
        3 => "Work with Zoho WorkDrive through MCP: teams, folders, uploads, and downloads. Работа с Zoho WorkDrive через MCP: teams, папки, загрузки и скачивания.",
        4 => "Build a short summary of important mail, upcoming events, deadlines, and actions that need attention. Собери короткую сводку по важным письмам, событиям и действиям.",
        5 => "Search for a message, choose the best result, and read its contents. Найди письмо, выбери лучший результат и прочитай содержимое.",
        _ => "Read a message, inspect the schedule, and draft or send a reply with the right calendar context. Прочитай письмо, проверь расписание и подготовь ответ с правильным календарным контекстом.",
    }
}

/// The arguments of the `k`-th prompt as JSON objects.
fn prompt_arguments_at(k: usize) -> (r: Json)
    requires
        k < 7,
    ensures
        arguments_json(r, spec_prompt_defs()[k as int].3),
{
    let ghost a = spec_prompt_defs()[k as int].3;
    let mut items: Vec<Json> = Vec::new();
    match k {
        0 => {
            items.push(argument_json("goal", "What you want to achieve with zocli. Что вы хотите сделать через zocli.", false));
            items.push(argument_json("account", "Optional zocli account alias to prefer. Необязательный alias аккаунта zocli.", false));
        },
        1 => {
            items.push(argument_json("request", "What mail task to perform. Какую почтовую задачу нужно выполнить.", true));
            items.push(argument_json("account", "Optional zocli account alias. Необязательный alias аккаунта zocli.", false));
            items.push(argument_json("folder", "Mailbox folder, defaults to INBOX when omitted. Папка почты; если не указана, используется INBOX.", false));
        },
        2 => {
            items.push(argument_json("request", "What calendar task to perform. Какую задачу по календарю нужно выполнить.", true));
            items.push(argument_json("account", "Optional zocli account alias. Необязательный alias аккаунта zocli.", false));
            items.push(argument_json("calendar", "Calendar name, defaults to default. Имя календаря; по умолчанию используется default.", false));
            items.push(argument_json("from", "Optional RFC3339 or YYYY-MM-DD start boundary. Необязательная начальная граница RFC3339 или YYYY-MM-DD.", false));
            items.push(argument_json("to", "Optional RFC3339 or YYYY-MM-DD end boundary. Необязательная конечная граница RFC3339 или YYYY-MM-DD.", false));
        },
        3 => {
            items.push(argument_json("request", "What WorkDrive task to perform. Какую задачу по WorkDrive нужно выполнить.", true));
            items.push(argument_json("account", "Optional zocli account alias. Необязательный alias аккаунта zocli.", false));
            items.push(argument_json("folder_id", "Optional WorkDrive folder ID to focus on. Необязательный folder ID WorkDrive для фокуса.", false));
        },
        4 => {
            items.push(argument_json("account", "Optional zocli account alias. Необязательный alias аккаунта zocli.", false));
            items.push(argument_json("from", "Optional start date for the schedule window. Необязательная дата начала окна.", false));
            items.push(argument_json("to", "Optional end date for the schedule window. Необязательная дата конца окна.", false));
            items.push(argument_json("mail_limit", "How many recent inbox messages to inspect. Сколько последних писем из inbox нужно посмотреть.", false));
        },
        5 => {
            items.push(argument_json("query", "Search phrase to locate the email. Поисковая фраза для поиска письма.", true));
            items.push(argument_json("account", "Optional zocli account alias. Необязательный alias аккаунта zocli.", false));
            items.push(argument_json("limit", "How many matching messages to inspect. Сколько совпавших писем нужно проверить.", false));
        },
        _ => {
            items.push(argument_json("message_id", "The message ID to read and respond to. Идентификатор письма, которое нужно прочитать и обработать.", true));
            items.push(argument_json("account", "Optional zocli account alias. Необязательный alias аккаунта zocli.", false));
            items.push(argument_json("folder_id", "Folder ID of the message when already known. Folder ID письма, если он уже известен.", false));
            items.push(argument_json("from", "Optional schedule start boundary to inspect. Необязательная начальная граница расписания.", false));
            items.push(argument_json("to", "Optional schedule end boundary to inspect. Необязательная конечная граница расписания.", false));
        },
    }
    assert(items@.len() == a.len());
    assert forall|j: int| 0 <= j < a.len() implies argument_is(#[trigger] items@[j], a[j]) by {}
    Json::Array(items)
}


pub open spec fn shared_text(goal: Seq<char>, account: Seq<char>) -> Seq<char> {
    "You are working with the zocli MCP server.\nGoal: "@ + goal + "\nPreferred account: "@ + account + "\n\nUse this order of work:\n1. Determine the account through `zocli.account.current` or `zocli.account.list`.\n2. Check auth state through `zocli.auth.status`.\n3. If you need structured account context, read `resource://zocli/account/{account}` and `resource://zocli/auth/{account}`.\n4. Only then move to mail, calendar, or drive tools.\n\nIf the required account does not exist or a service is not authenticated, state that gap explicitly before proceeding."@
}

fn render_shared(goal: &str, account: &str) -> (r: String)
    ensures
        r@ == shared_text(goal@, account@),
{
    let mut r = String::from_str("You are working with the zocli MCP server.\nGoal: ");
    r.append(goal);
    r.append("\nPreferred account: ");
    r.append(account);
    r.append("\n\nUse this order of work:\n1. Determine the account through `zocli.account.current` or `zocli.account.list`.\n2. Check auth state through `zocli.auth.status`.\n3. If you need structured account context, read `resource://zocli/account/{account}` and `resource://zocli/auth/{account}`.\n4. Only then move to mail, calendar, or drive tools.\n\nIf the required account does not exist or a service is not authenticated, state that gap explicitly before proceeding.");
    r
}

pub open spec fn mail_text(request: Seq<char>, account: Seq<char>, folder: Seq<char>) -> Seq<char> {
    "Help with Zoho Mail through the zocli MCP server.\nTask: "@ + request + "\nAccount: "@ + account + "\nMailbox hint: "@ + folder + "\n\nUse this workflow:\n1. Confirm the account and auth state when needed through `zocli.account.current` and `zocli.auth.status`.\n2. If the right folder is unclear, call `zocli.mail.folders` first.\n3. Use `zocli.mail.list` for quick context and `zocli.mail.search` when the user provides a keyword.\n4. For a specific message, use `zocli.mail.read` with both `folder_id` and `message_id`.\n5. For write actions, use `zocli.mail.send`, `zocli.mail.reply`, or `zocli.mail.forward` with the smallest sufficient payload.\n6. In the final answer, record the sender, subject, relevant dates, and the exact result of any write action.\n\nDo not imply attachment export or invite import support because those tools are not part of the current stable MCP surface."@
}

fn render_mail(request: &str, account: &str, folder: &str) -> (r: String)
    ensures
        r@ == mail_text(request@, account@, folder@),
{
    let mut r = String::from_str("Help with Zoho Mail through the zocli MCP server.\nTask: ");
    r.append(request);
    r.append("\nAccount: ");
    r.append(account);
    r.append("\nMailbox hint: ");
    r.append(folder);
    r.append("\n\nUse this workflow:\n1. Confirm the account and auth state when needed through `zocli.account.current` and `zocli.auth.status`.\n2. If the right folder is unclear, call `zocli.mail.folders` first.\n3. Use `zocli.mail.list` for quick context and `zocli.mail.search` when the user provides a keyword.\n4. For a specific message, use `zocli.mail.read` with both `folder_id` and `message_id`.\n5. For write actions, use `zocli.mail.send`, `zocli.mail.reply`, or `zocli.mail.forward` with the smallest sufficient payload.\n6. In the final answer, record the sender, subject, relevant dates, and the exact result of any write action.\n\nDo not imply attachment export or invite import support because those tools are not part of the current stable MCP surface.");
    r
}

pub open spec fn calendar_text(request: Seq<char>, account: Seq<char>, calendar: Seq<char>, from: Seq<char>, to: Seq<char>) -> Seq<char> {
    "Help with Zoho Calendar through the zocli MCP server.\nTask: "@ + request + "\nAccount: "@ + account + "\nCalendar: "@ + calendar + "\nWindow: from="@ + from + ", to="@ + to + "\n\nUse this workflow:\n1. Confirm the account and auth state when needed.\n2. If the right calendar is unclear, call `zocli.calendar.calendars` first.\n3. Use `zocli.calendar.events` with the narrowest useful time window.\n4. For write actions, use `zocli.calendar.create` or `zocli.calendar.delete` with explicit calendar IDs, timestamps, or event UIDs.\n5. Return a short summary of the schedule or the write result, including title, time, location, and visible conflicts.\n\nEditing an existing event in place is not part of the current stable MCP surface. Say that explicitly if the user asks for it."@
}

fn render_calendar(request: &str, account: &str, calendar: &str, from: &str, to: &str) -> (r: String)
    ensures
        r@ == calendar_text(request@, account@, calendar@, from@, to@),
{
    let mut r = String::from_str("Help with Zoho Calendar through the zocli MCP server.\nTask: ");
    r.append(request);
    r.append("\nAccount: ");
    r.append(account);
    r.append("\nCalendar: ");
    r.append(calendar);
    r.append("\nWindow: from=");
    r.append(from);
    r.append(", to=");
    r.append(to);
    r.append("\n\nUse this workflow:\n1. Confirm the account and auth state when needed.\n2. If the right calendar is unclear, call `zocli.calendar.calendars` first.\n3. Use `zocli.calendar.events` with the narrowest useful time window.\n4. For write actions, use `zocli.calendar.create` or `zocli.calendar.delete` with explicit calendar IDs, timestamps, or event UIDs.\n5. Return a short summary of the schedule or the write result, including title, time, location, and visible conflicts.\n\nEditing an existing event in place is not part of the current stable MCP surface. Say that explicitly if the user asks for it.");
    r
}

pub open spec fn drive_text(request: Seq<char>, account: Seq<char>, folder_id: Seq<char>) -> Seq<char> {
    "Help with Zoho WorkDrive through the zocli MCP server.\nTask: "@ + request + "\nAccount: "@ + account + "\nFolder hint: "@ + folder_id + "\n\nUse this workflow:\n1. Confirm the account and auth state when needed.\n2. Use `zocli.drive.teams` to discover teams or workspaces.\n3. Use `zocli.drive.list` when you already know the target folder ID.\n4. For mutations, use `zocli.drive.upload` or `zocli.drive.download` with explicit folder IDs, file IDs, and local paths.\n5. Return a short summary of files, folders, or transfer results.\n\nDo not imply path-based WorkDrive support such as `disk:/...` because the stable surface uses real team, folder, and file IDs."@
}

fn render_drive(request: &str, account: &str, folder_id: &str) -> (r: String)
    ensures
        r@ == drive_text(request@, account@, folder_id@),
{
    let mut r = String::from_str("Help with Zoho WorkDrive through the zocli MCP server.\nTask: ");
    r.append(request);
    r.append("\nAccount: ");
    r.append(account);
    r.append("\nFolder hint: ");
    r.append(folder_id);
    r.append("\n\nUse this workflow:\n1. Confirm the account and auth state when needed.\n2. Use `zocli.drive.teams` to discover teams or workspaces.\n3. Use `zocli.drive.list` when you already know the target folder ID.\n4. For mutations, use `zocli.drive.upload` or `zocli.drive.download` with explicit folder IDs, file IDs, and local paths.\n5. Return a short summary of files, folders, or transfer results.\n\nDo not imply path-based WorkDrive support such as `disk:/...` because the stable surface uses real team, folder, and file IDs.");
    r
}

pub open spec fn daily_briefing_text(account: Seq<char>, from: Seq<char>, to: Seq<char>, mail_limit: Seq<char>) -> Seq<char> {
    "Prepare a mail and calendar briefing through zocli.\nAccount: "@ + account + "\nMail limit: "@ + mail_limit + "\nCalendar window: from="@ + from + ", to="@ + to + "\n\nUse this workflow:\n1. Clarify the account if needed.\n2. Call `zocli.mail.list` with the requested limit.\n3. Call `zocli.calendar.events` for the target window.\n4. Summarize important or fresh mail, urgent topics, upcoming events, deadlines, and obvious conflicts.\n\nKeep the final answer short, operational, and action-oriented."@
}

fn render_daily_briefing(account: &str, from: &str, to: &str, mail_limit: &str) -> (r: String)
    ensures
        r@ == daily_briefing_text(account@, from@, to@, mail_limit@),
{
    let mut r = String::from_str("Prepare a mail and calendar briefing through zocli.\nAccount: ");
    r.append(account);
    r.append("\nMail limit: ");
    r.append(mail_limit);
    r.append("\nCalendar window: from=");
    r.append(from);
    r.append(", to=");
    r.append(to);
    r.append("\n\nUse this workflow:\n1. Clarify the account if needed.\n2. Call `zocli.mail.list` with the requested limit.\n3. Call `zocli.calendar.events` for the target window.\n4. Summarize important or fresh mail, urgent topics, upcoming events, deadlines, and obvious conflicts.\n\nKeep the final answer short, operational, and action-oriented.");
    r
}

pub open spec fn find_and_read_text(query: Seq<char>, account: Seq<char>, limit: Seq<char>) -> Seq<char> {
    "Find and read the right message through the zocli MCP server.\nQuery: "@ + query + "\nAccount: "@ + account + "\nLimit: "@ + limit + "\n\nUse this workflow:\n1. Call `zocli.mail.search` with the given query and limit.\n2. Choose the most relevant hit by sender, subject, date, and folder.\n3. Call `zocli.mail.read` with that hit's `folder_id` and `message_id`.\n4. Return the key message contents and explicitly say which folder ID and message ID you selected."@
}

fn render_find_and_read(query: &str, account: &str, limit: &str) -> (r: String)
    ensures
        r@ == find_and_read_text(query@, account@, limit@),
{
    let mut r = String::from_str("Find and read the right message through the zocli MCP server.\nQuery: ");
    r.append(query);
    r.append("\nAccount: ");
    r.append(account);
    r.append("\nLimit: ");
    r.append(limit);
    r.append("\n\nUse this workflow:\n1. Call `zocli.mail.search` with the given query and limit.\n2. Choose the most relevant hit by sender, subject, date, and folder.\n3. Call `zocli.mail.read` with that hit's `folder_id` and `message_id`.\n4. Return the key message contents and explicitly say which folder ID and message ID you selected.");
    r
}

pub open spec fn reply_with_context_text(message_id: Seq<char>, account: Seq<char>, folder_id: Seq<char>, from: Seq<char>, to: Seq<char>) -> Seq<char> {
    "Prepare or send a reply with calendar context through the zocli MCP server.\nMessage ID: "@ + message_id + "\nAccount: "@ + account + "\nFolder ID: "@ + folder_id + "\nCalendar window: from="@ + from + ", to="@ + to + "\n\nUse this workflow:\n1. Read the source message through `zocli.mail.read`.\n2. Derive the relevant calendar window from the message, or use the explicit one provided here.\n3. Check availability through `zocli.calendar.events`.\n4. If a real reply is needed, use `zocli.mail.reply`; if only a draft is needed, return the proposed draft text explicitly.\n\nState clearly whether the reply was actually sent or whether you only produced a draft."@
}

fn render_reply_with_context(message_id: &str, account: &str, folder_id: &str, from: &str, to: &str) -> (r: String)
    ensures
        r@ == reply_with_context_text(message_id@, account@, folder_id@, from@, to@),
{
    let mut r = String::from_str("Prepare or send a reply with calendar context through the zocli MCP server.\nMessage ID: ");
    r.append(message_id);
    r.append("\nAccount: ");
    r.append(account);
    r.append("\nFolder ID: ");
    r.append(folder_id);
    r.append("\nCalendar window: from=");
    r.append(from);
    r.append(", to=");
    r.append(to);
    r.append("\n\nUse this workflow:\n1. Read the source message through `zocli.mail.read`.\n2. Derive the relevant calendar window from the message, or use the explicit one provided here.\n3. Check availability through `zocli.calendar.events`.\n4. If a real reply is needed, use `zocli.mail.reply`; if only a draft is needed, return the proposed draft text explicitly.\n\nState clearly whether the reply was actually sent or whether you only produced a draft.");
    r
}

/// The text a prompt renders from its arguments; Err carries the message of the validation
/// error for a missing required argument or an unknown prompt.
pub open spec fn spec_prompt_body(name: Seq<char>, args: Option<Json>) -> Result<Seq<char>, Seq<char>> {
    if name == "shared"@ {
        Ok(shared_text(or_default(arg_value(args, "goal"@), "Determine the right zocli account, verify auth, and choose the correct service surface before taking action."@), or_default(arg_value(args, "account"@), "current"@)))
    } else if name == "mail"@ {
        match arg_value(args, "request"@) {
            Some(request) => Ok(mail_text(request, or_default(arg_value(args, "account"@), "current"@), or_default(arg_value(args, "folder"@), "INBOX"@))),
            None => Err(required_msg("request"@)),
        }
    } else if name == "calendar"@ {
        match arg_value(args, "request"@) {
            Some(request) => Ok(calendar_text(request, or_default(arg_value(args, "account"@), "current"@), or_default(arg_value(args, "calendar"@), "default"@), or_default(arg_value(args, "from"@), "auto"@), or_default(arg_value(args, "to"@), "auto"@))),
            None => Err(required_msg("request"@)),
        }
    } else if name == "drive"@ {
        match arg_value(args, "request"@) {
            Some(request) => Ok(drive_text(request, or_default(arg_value(args, "account"@), "current"@), or_default(arg_value(args, "folder_id"@), "auto"@))),
            None => Err(required_msg("request"@)),
        }
    } else if name == "daily-briefing"@ {
        Ok(daily_briefing_text(or_default(arg_value(args, "account"@), "current"@), or_default(arg_value(args, "from"@), "today"@), or_default(arg_value(args, "to"@), "tomorrow"@), or_default(arg_value(args, "mail_limit"@), "10"@)))
    } else if name == "find-and-read"@ {
        match arg_value(args, "query"@) {
            Some(query) => Ok(find_and_read_text(query, or_default(arg_value(args, "account"@), "current"@), or_default(arg_value(args, "limit"@), "5"@))),
            None => Err(required_msg("query"@)),
        }
    } else if name == "reply-with-context"@ {
        match arg_value(args, "message_id"@) {
            Some(message_id) => Ok(reply_with_context_text(message_id, or_default(arg_value(args, "account"@), "current"@), or_default(arg_value(args, "folder_id"@), "auto"@), or_default(arg_value(args, "from"@), "auto"@), or_default(arg_value(args, "to"@), "auto"@))),
            None => Err(required_msg("message_id"@)),
        }
    } else {
        Err("unknown MCP prompt: "@ + name)
    }
}

/// Renders a prompt from its arguments (None when the request carried none).
pub fn prompt_body(name: &str, args: Option<&Json>) -> (r: Result<String, ZocliError>)
    ensures
        match spec_prompt_body(name@, opt_json(args)) {
            Ok(t) => r matches Ok(x) && x@ == t,
            Err(m) => r matches Err(ZocliError::Validation(x)) && x@ == m,
        },
{
    if str_eq(name, "shared") {
        let goal = text_or(arg_text(args, "goal"), "Determine the right zocli account, verify auth, and choose the correct service surface before taking action.");
        let account = text_or(arg_text(args, "account"), "current");
        Ok(render_shared(goal, account))
    } else if str_eq(name, "mail") {
        let request = match arg_text(args, "request") {
            Some(x) => x,
            None => {
                return Err(ZocliError::Validation(cat3("prompt argument `", "request", "` is required")));
            },
        };
        let account = text_or(arg_text(args, "account"), "current");
        let folder = text_or(arg_text(args, "folder"), "INBOX");
        Ok(render_mail(request, account, folder))
    } else if str_eq(name, "calendar") {
        let request = match arg_text(args, "request") {
            Some(x) => x,
            None => {
                return Err(ZocliError::Validation(cat3("prompt argument `", "request", "` is required")));
            },
        };
        let account = text_or(arg_text(args, "account"), "current");
        let calendar = text_or(arg_text(args, "calendar"), "default");
        let from = text_or(arg_text(args, "from"), "auto");
        let to = text_or(arg_text(args, "to"), "auto");
        Ok(render_calendar(request, account, calendar, from, to))
    } else if str_eq(name, "drive") {
        let request = match arg_text(args, "request") {
            Some(x) => x,
            None => {
                return Err(ZocliError::Validation(cat3("prompt argument `", "request", "` is required")));
            },
        };
        let account = text_or(arg_text(args, "account"), "current");
        let folder_id = text_or(arg_text(args, "folder_id"), "auto");
        Ok(render_drive(request, account, folder_id))
    } else if str_eq(name, "daily-briefing") {
        let account = text_or(arg_text(args, "account"), "current");
        let from = text_or(arg_text(args, "from"), "today");
        let to = text_or(arg_text(args, "to"), "tomorrow");
        let mail_limit = text_or(arg_text(args, "mail_limit"), "10");
        Ok(render_daily_briefing(account, from, to, mail_limit))
    } else if str_eq(name, "find-and-read") {
        let query = match arg_text(args, "query") {
            Some(x) => x,
            None => {
                return Err(ZocliError::Validation(cat3("prompt argument `", "query", "` is required")));
            },
        };
        let account = text_or(arg_text(args, "account"), "current");
        let limit = text_or(arg_text(args, "limit"), "5");
        Ok(render_find_and_read(query, account, limit))
    } else if str_eq(name, "reply-with-context") {
        let message_id = match arg_text(args, "message_id") {
            Some(x) => x,
            None => {
                return Err(ZocliError::Validation(cat3("prompt argument `", "message_id", "` is required")));
            },
        };
        let account = text_or(arg_text(args, "account"), "current");
        let folder_id = text_or(arg_text(args, "folder_id"), "auto");
        let from = text_or(arg_text(args, "from"), "auto");
        let to = text_or(arg_text(args, "to"), "auto");
        Ok(render_reply_with_context(message_id, account, folder_id, from, to))
    } else {
        Err(ZocliError::Validation(cat("unknown MCP prompt: ", name)))
    }
}


/// The rendered text followed by a pointer to the skill resource backing the prompt, when a
/// skill backs it.
pub open spec fn enriched(prompt_name: Seq<char>, body: Seq<char>) -> Seq<char> {
    match spec_prompt_skill(prompt_name) {
        Some(skill) => body + "\n\nCanonical embedded skill resource: `resource://zocli/skill/"@
            + skill
            + "`.\nRead it with `resources/read` if you need the exact SKILL.md workflow text."@,
        None => body,
    }
}

pub fn enrich_with_canonical_skill(prompt_name: &str, body: &str) -> (r: String)
    ensures
        r@ == enriched(prompt_name@, body@),
{
    match prompt_skill_name(prompt_name) {
        None => String::from_str(body),
        Some(skill) => {
            let mut r = cat(body, "\n\nCanonical embedded skill resource: `resource://zocli/skill/");
            r.append(skill);
            r.append("`.\nRead it with `resources/read` if you need the exact SKILL.md workflow text.");
            r
        },
    }
}

/// The description of the prompt called `name`, if there is one.
pub open spec fn spec_prompt_description(name: Seq<char>) -> Option<Seq<char>> {
    let d = spec_prompt_defs();
    if name == d[0].0 {
        Some(d[0].2)
    } else if name == d[1].0 {
        Some(d[1].2)
    } else if name == d[2].0 {
        Some(d[2].2)
    } else if name == d[3].0 {
        Some(d[3].2)
    } else if name == d[4].0 {
        Some(d[4].2)
    } else if name == d[5].0 {
        Some(d[5].2)
    } else if name == d[6].0 {
        Some(d[6].2)
    } else {
        None
    }
}

fn prompt_description(name: &str) -> (r: Option<&'static str>)
    ensures
        match r {
            Some(x) => spec_prompt_description(name@) == Some(x@),
            None => spec_prompt_description(name@) is None,
        },
{
    let mut k: usize = 0;
    while k < 7
        invariant
            k <= 7,
            forall|j: int| 0 <= j < k ==> spec_prompt_defs()[j].0 != name@,
        decreases 7 - k,
    {
        if str_eq(prompt_name_at(k), name) {
            return Some(prompt_description_at(k));
        }
        k = k + 1;
    }
    None
}

/// The reply to `prompts/get`: the prompt's description and one user message with the text.
pub open spec fn prompt_reply(j: Json, description: Seq<char>, text: Seq<char>) -> bool {
    &&& j matches Json::Object(ms)
    &&& ms@.len() == 2
    &&& ms@[0].0@ == "description"@ && is_text(ms@[0].1, description)
    &&& ms@[1].0@ == "messages"@
    &&& ms@[1].1 matches Json::Array(msgs)
    &&& msgs@.len() == 1
    &&& user_text_message(msgs@[0], text)
}

pub open spec fn user_text_message(m: Json, text: Seq<char>) -> bool {
    &&& m matches Json::Object(fs)
    &&& fs@.len() == 2
    &&& fs@[0].0@ == "content"@
    &&& fs@[0].1 matches Json::Object(c)
    &&& c@.len() == 2
    &&& c@[0].0@ == "text"@ && is_text(c@[0].1, text)
    &&& c@[1].0@ == "type"@ && is_text(c@[1].1, "text"@)
    &&& fs@[1].0@ == "role"@ && is_text(fs@[1].1, "user"@)
}

/// What `prompts/get` answers for its parameters: the description and rendered text, or the
/// message of the validation error.
pub open spec fn spec_get_prompt(params: Json) -> Result<(Seq<char>, Seq<char>), Seq<char>> {
    match member(params, "name"@) {
        Some(Json::Str(n)) => match spec_prompt_description(n@) {
            Some(d) => match spec_prompt_body(n@, member(params, "arguments"@)) {
                Ok(body) => Ok((d, enriched(n@, body))),
                Err(m) => Err(m),
            },
            None => Err("unknown MCP prompt: "@ + n@),
        },
        _ => Err("prompts/get requires `name`"@),
    }
}

fn user_message(text: String) -> (r: Json)
    ensures
        user_text_message(r, text@),
{
    let mut content: Vec<(String, Json)> = Vec::new();
    content.push((String::from_str("text"), Json::Str(text)));
    content.push((String::from_str("type"), text_json("text")));
    let mut fields: Vec<(String, Json)> = Vec::new();
    fields.push((String::from_str("content"), Json::Object(content)));
    fields.push((String::from_str("role"), text_json("user")));
    Json::Object(fields)
}

/// Answers `prompts/get`.
pub fn get_prompt(params: &Json) -> (r: Result<Json, ZocliError>)
    ensures
        match spec_get_prompt(*params) {
            Ok((d, t)) => r matches Ok(j) && prompt_reply(j, d, t),
            Err(m) => r matches Err(ZocliError::Validation(x)) && x@ == m,
        },
{
    let name = match get(params, "name") {
        Some(Json::Str(n)) => n.as_str(),
        _ => {
            return Err(ZocliError::Validation(String::from_str("prompts/get requires `name`")));
        },
    };
    let description = match prompt_description(name) {
        Some(d) => d,
        None => {
            return Err(ZocliError::Validation(cat("unknown MCP prompt: ", name)));
        },
    };
    let arguments = get(params, "arguments");
    let body = prompt_body(name, arguments)?;
    let text = enrich_with_canonical_skill(name, body.as_str());
    let mut messages: Vec<Json> = Vec::new();
    messages.push(user_message(text));
    let mut ms: Vec<(String, Json)> = Vec::new();
    ms.push((String::from_str("description"), text_json(description)));
    ms.push((String::from_str("messages"), Json::Array(messages)));
    Ok(Json::Object(ms))
}

/// A prompt definition as JSON: `arguments`, `description`, `name` and `title`.
pub open spec fn definition_is(
    j: Json,
    d: (Seq<char>, Seq<char>, Seq<char>, Seq<(Seq<char>, Seq<char>, bool)>),
) -> bool {
    &&& j matches Json::Object(ms)
    &&& ms@.len() == 4
    &&& ms@[0].0@ == "arguments"@ && arguments_json(ms@[0].1, d.3)
    &&& ms@[1].0@ == "description"@ && is_text(ms@[1].1, d.2)
    &&& ms@[2].0@ == "name"@ && is_text(ms@[2].1, d.0)
    &&& ms@[3].0@ == "title"@ && is_text(ms@[3].1, d.1)
}

/// The definitions `prompts/list` answers with, one per embedded prompt, in order.
pub fn prompt_definitions() -> (r: Vec<Json>)
    ensures
        r@.len() == spec_prompt_defs().len(),
        forall|i: int| 0 <= i < r@.len() ==> definition_is(#[trigger] r@[i], spec_prompt_defs()[i]),
{
    let mut out: Vec<Json> = Vec::new();
    let mut k: usize = 0;
    while k < 7
        invariant
            k <= 7,
            out@.len() == k,
            forall|i: int| 0 <= i < k ==> definition_is(#[trigger] out@[i], spec_prompt_defs()[i]),
        decreases 7 - k,
    {
        let mut ms: Vec<(String, Json)> = Vec::new();
        ms.push((String::from_str("arguments"), prompt_arguments_at(k)));
        ms.push((String::from_str("description"), text_json(prompt_description_at(k))));
        ms.push((String::from_str("name"), text_json(prompt_name_at(k))));
        ms.push((String::from_str("title"), text_json(prompt_title_at(k))));
        out.push(Json::Object(ms));
        k = k + 1;
    }
    out
}

/// `s` with later repeats of a text dropped, first occurrences kept in order.
pub open spec fn dedup_texts(s: Seq<Seq<char>>) -> Seq<Seq<char>>
    decreases s.len(),
{
    if s.len() == 0 {
        s
    } else {
        let d = dedup_texts(s.drop_last());
        if d.contains(s.last()) {
            d
        } else {
            d.push(s.last())
        }
    }
}

/// The texts of `d` whose ASCII lower-case form starts with `n`, in order.
pub open spec fn prefixed(d: Seq<Seq<char>>, n: Seq<char>) -> Seq<Seq<char>>
    decreases d.len(),
{
    if d.len() == 0 {
        d
    } else if has_prefix(ascii_lower_seq(d.last()), n) {
        prefixed(d.drop_last(), n).push(d.last())
    } else {
        prefixed(d.drop_last(), n)
    }
}

/// The texts of `d` whose ASCII lower-case form contains `n` but does not start with it.
pub open spec fn infixed(d: Seq<Seq<char>>, n: Seq<char>) -> Seq<Seq<char>>
    decreases d.len(),
{
    if d.len() == 0 {
        d
    } else if !has_prefix(ascii_lower_seq(d.last()), n) && has_infix(ascii_lower_seq(d.last()), n) {
        infixed(d.drop_last(), n).push(d.last())
    } else {
        infixed(d.drop_last(), n)
    }
}

pub open spec fn text_order() -> spec_fn(Seq<char>, Seq<char>) -> bool {
    |a: Seq<char>, b: Seq<char>| seq_lt(a, b)
}

/// Completion candidates narrowed by what was typed: without input every distinct candidate
/// in sorted order; else those starting with the input (ignoring ASCII case), then those
/// containing it elsewhere.
pub open spec fn ranked(candidates: Seq<Seq<char>>, current: Seq<char>) -> Seq<Seq<char>> {
    let n = ascii_lower_seq(trim_seq(current));
    let d = dedup_texts(candidates);
    if n.len() == 0 {
        isort(d, text_order())
    } else {
        prefixed(d, n) + infixed(d, n)
    }
}

/// No text occurs twice.
pub open spec fn distinct(s: Seq<Seq<char>>) -> bool {
    forall|i: int, j: int| 0 <= i < j < s.len() ==> #[trigger] s[i] != #[trigger] s[j]
}

proof fn lemma_dedup(s: Seq<Seq<char>>)
    ensures
        distinct(dedup_texts(s)),
        forall|x: Seq<char>| #[trigger] dedup_texts(s).contains(x) <==> s.contains(x),
    decreases s.len(),
{
    if s.len() > 0 {
        let d0 = s.drop_last();
        lemma_dedup(d0);
        let d = dedup_texts(d0);
        assert forall|x: Seq<char>| #[trigger] s.contains(x) <==> d0.contains(x) || x == s.last() by {
            if s.contains(x) {
                let k = choose|k: int| 0 <= k < s.len() && s[k] == x;
                if k < d0.len() {
                    assert(d0[k] == x);
                }
            }
            if d0.contains(x) {
                let k = choose|k: int| 0 <= k < d0.len() && d0[k] == x;
                assert(s[k] == x);
            }
            if x == s.last() {
                assert(s[s.len() - 1] == x);
            }
        }
        if !d.contains(s.last()) {
            let e = d.push(s.last());
            assert forall|i: int, j: int| 0 <= i < j < e.len() implies #[trigger] e[i] != #[trigger] e[j] by {
                if j == d.len() {
                    assert(e[i] == d[i]);
                    assert(d.contains(d[i]));
                } else {
                    assert(e[i] == d[i] && e[j] == d[j]);
                }
            }
            assert forall|x: Seq<char>| #[trigger] e.contains(x) <==> s.contains(x) by {
                if e.contains(x) {
                    let k = choose|k: int| 0 <= k < e.len() && e[k] == x;
                    if k < d.len() {
                        assert(d[k] == x);
                    }
                }
                if d.contains(x) {
                    let k = choose|k: int| 0 <= k < d.len() && d[k] == x;
                    assert(e[k] == x);
                }
                if x == s.last() {
                    assert(e[d.len() as int] == x);
                }
            }
        }
    }
}

/// The texts of `d` that begin with `n` (`prefix`), or that contain it elsewhere.
pub open spec fn filtered(d: Seq<Seq<char>>, n: Seq<char>, prefix: bool) -> Seq<Seq<char>> {
    if prefix {
        prefixed(d, n)
    } else {
        infixed(d, n)
    }
}

pub open spec fn kept(x: Seq<char>, n: Seq<char>, prefix: bool) -> bool {
    if prefix {
        has_prefix(ascii_lower_seq(x), n)
    } else {
        !has_prefix(ascii_lower_seq(x), n) && has_infix(ascii_lower_seq(x), n)
    }
}

proof fn lemma_filtered(d: Seq<Seq<char>>, n: Seq<char>, prefix: bool)
    ensures
        distinct(d) ==> distinct(filtered(d, n, prefix)),
        forall|x: Seq<char>| #[trigger] filtered(d, n, prefix).contains(x) ==> d.contains(x) && kept(
            x,
            n,
            prefix,
        ),
    decreases d.len(),
{
    let f = filtered(d, n, prefix);
    if d.len() > 0 {
        let d0 = d.drop_last();
        lemma_filtered(d0, n, prefix);
        let f0 = filtered(d0, n, prefix);
        assert forall|x: Seq<char>| #[trigger] d0.contains(x) implies d.contains(x) by {
            let k = choose|k: int| 0 <= k < d0.len() && d0[k] == x;
            assert(d[k] == x);
        }
        if distinct(d) {
            assert(distinct(d0)) by {
                assert forall|i: int, j: int| 0 <= i < j < d0.len() implies #[trigger] d0[i]
                    != #[trigger] d0[j] by {
                    assert(d0[i] == d[i] && d0[j] == d[j]);
                }
            }
        }
        if kept(d.last(), n, prefix) {
            assert(f == f0.push(d.last()));
            assert(d.contains(d.last())) by {
                assert(d[d.len() - 1] == d.last());
            }
            assert forall|x: Seq<char>| #[trigger] f.contains(x) implies d.contains(x) && kept(
                x,
                n,
                prefix,
            ) by {
                let k = choose|k: int| 0 <= k < f.len() && f[k] == x;
                if k < f0.len() {
                    assert(f0[k] == x && f0.contains(x));
                }
            }
            if distinct(d) {
                assert forall|i: int, j: int| 0 <= i < j < f.len() implies #[trigger] f[i] != #[trigger] f[j] by {
                    if j == f0.len() {
                        assert(f[i] == f0[i] && f0.contains(f0[i]));
                        assert(d0.contains(f0[i]));
                        let k = choose|k: int| 0 <= k < d0.len() && d0[k] == f0[i];
                        assert(d0[k] == d[k]);
                        assert(d[k] != d[d.len() - 1]);
                    } else {
                        assert(f[i] == f0[i] && f[j] == f0[j]);
                    }
                }
            }
        } else {
            assert(f == f0);
        }
    }
}

proof fn lemma_isort_ascending(d: Seq<Seq<char>>)
    requires
        distinct(d),
    ensures
        crate::session::strictly_ascending(isort(d, text_order())),
        forall|x: Seq<char>| #[trigger] isort(d, text_order()).contains(x) <==> d.contains(x),
    decreases d.len(),
{
    if d.len() > 0 {
        let d0 = d.drop_last();
        assert(distinct(d0)) by {
            assert forall|i: int, j: int| 0 <= i < j < d0.len() implies #[trigger] d0[i] != #[trigger] d0[j] by {
                assert(d0[i] == d[i] && d0[j] == d[j]);
            }
        }
        lemma_isort_ascending(d0);
        assert(!d0.contains(d.last())) by {
            if d0.contains(d.last()) {
                let k = choose|k: int| 0 <= k < d0.len() && d0[k] == d.last();
                assert(d[k] == d[d.len() - 1]);
            }
        }
        crate::session::lemma_ins_ascending(isort(d0, text_order()), d.last());
        assert forall|x: Seq<char>| #[trigger] d.contains(x) <==> d0.contains(x) || x == d.last() by {
            if d.contains(x) {
                let k = choose|k: int| 0 <= k < d.len() && d[k] == x;
                if k < d0.len() {
                    assert(d0[k] == x);
                }
            }
            if d0.contains(x) {
                let k = choose|k: int| 0 <= k < d0.len() && d0[k] == x;
                assert(d[k] == x);
            }
            if x == d.last() {
                assert(d[d.len() - 1] == x);
            }
        }
    }
}

proof fn lemma_prefix_is_infix(s: Seq<char>, n: Seq<char>)
    requires
        has_prefix(s, n),
    ensures
        has_infix(s, n),
{
    assert(s.subrange(0, 0 + n.len() as int) == n);
}

/// Completion suggestions are candidates, each offered once. With something typed, every
/// suggestion contains it (ignoring ASCII case) and those that begin with it come first;
/// with nothing typed, the suggestions are all the candidates in ascending order.
pub proof fn law_completion_suggestions(candidates: Seq<Seq<char>>, current: Seq<char>)
    ensures
        distinct(ranked(candidates, current)),
        forall|x: Seq<char>| #[trigger] ranked(candidates, current).contains(x) ==> candidates.contains(x),
        ascii_lower_seq(trim_seq(current)).len() > 0 ==> forall|i: int|
            0 <= i < ranked(candidates, current).len() ==> has_infix(
                ascii_lower_seq(#[trigger] ranked(candidates, current)[i]),
                ascii_lower_seq(trim_seq(current)),
            ),
        ascii_lower_seq(trim_seq(current)).len() > 0 ==> forall|i: int, j: int|
            0 <= i < j < ranked(candidates, current).len() && has_prefix(
                ascii_lower_seq(#[trigger] ranked(candidates, current)[j]),
                ascii_lower_seq(trim_seq(current)),
            ) ==> has_prefix(
                ascii_lower_seq(#[trigger] ranked(candidates, current)[i]),
                ascii_lower_seq(trim_seq(current)),
            ),
        ascii_lower_seq(trim_seq(current)).len() == 0 ==> crate::session::strictly_ascending(
            ranked(candidates, current),
        ) && forall|x: Seq<char>| #[trigger] ranked(candidates, current).contains(x)
            <==> candidates.contains(x),
{
    let n = ascii_lower_seq(trim_seq(current));
    let d = dedup_texts(candidates);
    let r = ranked(candidates, current);
    lemma_dedup(candidates);
    if n.len() == 0 {
        lemma_isort_ascending(d);
        assert forall|i: int, j: int| 0 <= i < j < r.len() implies #[trigger] r[i] != #[trigger] r[j] by {
            assert(seq_lt(r[i], r[j]));
            crate::text::lemma_seq_lt_irreflexive(r[i]);
        }
    } else {
        lemma_filtered(d, n, true);
        lemma_filtered(d, n, false);
        let p = filtered(d, n, true);
        let q = filtered(d, n, false);
        assert(r == p + q);
        assert forall|x: Seq<char>| #[trigger] r.contains(x) implies candidates.contains(x) by {
            let k = choose|k: int| 0 <= k < r.len() && r[k] == x;
            if k < p.len() {
                assert(p[k] == x && p.contains(x));
            } else {
                assert(q[k - p.len()] == x && q.contains(x));
            }
            assert(d.contains(x));
        }
        assert forall|i: int| 0 <= i < r.len() implies has_infix(ascii_lower_seq(#[trigger] r[i]), n) by {
            if i < p.len() {
                assert(r[i] == p[i] && p.contains(p[i]));
                assert(kept(r[i], n, true));
                lemma_prefix_is_infix(ascii_lower_seq(r[i]), n);
            } else {
                assert(r[i] == q[i - p.len()] && q.contains(q[i - p.len()]));
                assert(kept(r[i], n, false));
            }
        }
        assert forall|i: int, j: int|
            0 <= i < j < r.len() && has_prefix(ascii_lower_seq(#[trigger] r[j]), n) implies has_prefix(
            ascii_lower_seq(#[trigger] r[i]),
            n,
        ) by {
            if j >= p.len() {
                assert(r[j] == q[j - p.len()] && q.contains(q[j - p.len()]));
                assert(kept(r[j], n, false));
            } else {
                assert(r[i] == p[i] && p.contains(p[i]));
                assert(kept(r[i], n, true));
            }
        }
        assert forall|i: int, j: int| 0 <= i < j < r.len() implies #[trigger] r[i] != #[trigger] r[j] by {
            if j < p.len() {
                assert(r[i] == p[i] && r[j] == p[j]);
            } else if i >= p.len() {
                assert(r[i] == q[i - p.len()] && r[j] == q[j - p.len()]);
            } else {
                assert(r[i] == p[i] && p.contains(p[i]));
                assert(kept(r[i], n, true));
                assert(r[j] == q[j - p.len()] && q.contains(q[j - p.len()]));
                assert(kept(r[j], n, false));
            }
        }
    }
}

pub fn contains_text(v: &Vec<String>, s: &str) -> (r: bool)
    ensures
        r == text_views(v@).contains(s@),
{
    let mut i: usize = 0;
    while i < v.len()
        invariant
            i <= v@.len(),
            forall|j: int| 0 <= j < i ==> #[trigger] v@[j]@ != s@,
        decreases v@.len() - i,
    {
        if str_eq(v[i].as_str(), s) {
            assert(text_views(v@)[i as int] == s@);
            return true;
        }
        i = i + 1;
    }
    proof {
        if text_views(v@).contains(s@) {
            let j = choose|j: int| 0 <= j < text_views(v@).len() && text_views(v@)[j] == s@;
            assert(v@[j]@ == s@);
        }
    }
    false
}

/// Drops later repeats, keeping first occurrences in order.
pub fn dedupe_preserve_order(candidates: Vec<String>) -> (r: Vec<String>)
    ensures
        text_views(r@) == dedup_texts(text_views(candidates@)),
{
    let mut out: Vec<String> = Vec::new();
    let mut i: usize = 0;
    while i < candidates.len()
        invariant
            i <= candidates@.len(),
            text_views(out@) == dedup_texts(text_views(candidates@.take(i as int))),
        decreases candidates@.len() - i,
    {
        let c = &candidates[i];
        proof {
            assert(text_views(candidates@.take(i + 1)).drop_last() =~= text_views(
                candidates@.take(i as int),
            ));
            assert(text_views(candidates@.take(i + 1)).last() == c@);
        }
        if !contains_text(&out, c.as_str()) {
            let ghost before = text_views(out@);
            out.push(c.clone());
            assert(text_views(out@) =~= before.push(c@));
        }
        i = i + 1;
    }
    assert(candidates@.take(candidates@.len() as int) =~= candidates@);
    out
}

pub fn insert_text(v: &mut Vec<String>, x: String)
    ensures
        text_views(final(v)@) == ins(text_views(old(v)@), x@, text_order()),
{
    let ghost s = text_views(v@);
    let mut p = v.len();
    proof {
        assert(s.take(s.len() as int) =~= s);
        assert(s.skip(s.len() as int) =~= Seq::<Seq<char>>::empty());
    }
    while p > 0 && str_lt(x.as_str(), v[p - 1].as_str())
        invariant
            text_views(v@) == s,
            p <= s.len(),
            ins(s, x@, text_order()) == ins(s.take(p as int), x@, text_order()) + s.skip(p as int),
        decreases p,
    {
        proof {
            assert(s[p - 1] == v@[p - 1]@);
            lemma_ins_step(s, p as int, x@, text_order());
        }
        p = p - 1;
    }
    proof {
        if p > 0 {
            assert(s.take(p as int).last() == s[p - 1]);
            assert(s[p - 1] == v@[p - 1]@);
        }
        assert(ins(s.take(p as int), x@, text_order()) == s.take(p as int).push(x@));
    }
    let ghost xv = x@;
    v.insert(p, x);
    assert(text_views(v@) =~= s.take(p as int).push(xv) + s.skip(p as int));
}

/// The texts sorted ascending (stably).
pub fn sort_texts(v: Vec<String>) -> (r: Vec<String>)
    ensures
        text_views(r@) == isort(text_views(v@), text_order()),
{
    let ghost orig = text_views(v@);
    let mut out: Vec<String> = Vec::new();
    let n = v.len();
    let mut i: usize = 0;
    assert(orig.take(0) =~= Seq::<Seq<char>>::empty());
    while i < n
        invariant
            n == v@.len(),
            orig == text_views(v@),
            i <= n,
            text_views(out@) == isort(orig.take(i as int), text_order()),
        decreases n - i,
    {
        proof {
            assert(orig.take(i + 1).drop_last() =~= orig.take(i as int));
            assert(orig.take(i + 1).last() == v@[i as int]@);
        }
        insert_text(&mut out, v[i].clone());
        i = i + 1;
    }
    assert(orig.take(n as int) =~= orig);
    out
}

/// Narrows completion candidates by the value typed so far, as `ranked` says.
pub fn rank_and_filter(candidates: Vec<String>, current_value: &str) -> (r: Vec<String>)
    ensures
        text_views(r@) == ranked(text_views(candidates@), current_value@),
{
    let trimmed = trim(current_value);
    let needle = to_ascii_lowercase(trimmed.as_str());
    let d = dedupe_preserve_order(candidates);
    if needle.as_str().is_empty() {
        return sort_texts(d);
    }
    let ghost dv = text_views(d@);
    let mut prefix: Vec<String> = Vec::new();
    let mut contains: Vec<String> = Vec::new();
    let mut i: usize = 0;
    assert(dv.take(0) =~= Seq::<Seq<char>>::empty());
    while i < d.len()
        invariant
            dv == text_views(d@),
            i <= d@.len(),
            text_views(prefix@) == prefixed(dv.take(i as int), needle@),
            text_views(contains@) == infixed(dv.take(i as int), needle@),
        decreases d@.len() - i,
    {
        proof {
            assert(dv.take(i + 1).drop_last() =~= dv.take(i as int));
            assert(dv.take(i + 1).last() == d@[i as int]@);
        }
        let hay = to_ascii_lowercase(d[i].as_str());
        if starts_with(hay.as_str(), needle.as_str()) {
            let ghost before = text_views(prefix@);
            prefix.push(d[i].clone());
            assert(text_views(prefix@) =~= before.push(d@[i as int]@));
        } else if contains_str(hay.as_str(), needle.as_str()) {
            let ghost before = text_views(contains@);
            contains.push(d[i].clone());
            assert(text_views(contains@) =~= before.push(d@[i as int]@));
        }
        i = i + 1;
    }
    assert(dv.take(d@.len() as int) =~= dv);
    let ghost pv = text_views(prefix@);
    let ghost cv = text_views(contains@);
    let mut out = prefix;
    let mut j: usize = 0;
    while j < contains.len()
        invariant
            j <= contains@.len(),
            cv == text_views(contains@),
            text_views(out@) == pv + cv.take(j as int),
        decreases contains@.len() - j,
    {
        let ghost before = text_views(out@);
        out.push(contains[j].clone());
        assert(cv.take(j + 1) =~= cv.take(j as int).push(contains@[j as int]@));
        assert(text_views(out@) =~= before.push(contains@[j as int]@));
        j = j + 1;
    }
    assert(cv.take(contains@.len() as int) =~= cv);
    out
}

/// Where a completion's candidates come from.
pub enum CandidateSource {
    /// The configured account names.
    Accounts,
    /// Today, tomorrow and a week from today.
    Dates,
    /// A fixed list.
    Fixed(Seq<Seq<char>>),
}

pub open spec fn folder_choices() -> Seq<Seq<char>> {
    seq!["INBOX"@, "Sent"@, "Drafts"@, "Archive"@, "Trash"@, "Spam"@]
}

pub open spec fn limit_choices() -> Seq<Seq<char>> {
    seq!["5"@, "10"@, "20"@, "50"@]
}

pub open spec fn dashboard_tool_choices() -> Seq<Seq<char>> {
    seq![
        "zocli.app.snapshot"@,
        "zocli.account.list"@,
        "zocli.account.current"@,
        "zocli.auth.status"@,
        "zocli.update.check"@,
    ]
}

pub open spec fn spec_skill_names() -> Seq<Seq<char>> {
    spec_skills().map_values(|p: (Seq<char>, Seq<char>)| p.0)
}

/// The message id already given in the completion context, if it is a string.
pub open spec fn context_message_id(ctx: Option<Json>) -> Seq<Seq<char>> {
    match ctx {
        Some(c) => match member(c, "message_id"@) {
            Some(Json::Str(m)) => seq![m@],
            _ => Seq::empty(),
        },
        None => Seq::empty(),
    }
}

/// Candidates for an argument of a prompt.
pub open spec fn prompt_candidates(name: Seq<char>, arg: Seq<char>, ctx: Option<Json>) -> CandidateSource {
    if arg == "account"@ {
        CandidateSource::Accounts
    } else if arg == "folder"@ && (name == "mail"@ || name == "find-and-read"@ || name
        == "reply-with-context"@) {
        CandidateSource::Fixed(folder_choices())
    } else if name == "calendar"@ && arg == "calendar"@ {
        CandidateSource::Fixed(seq!["default"@])
    } else if (arg == "from"@ || arg == "to"@) && (name == "calendar"@ || name == "daily-briefing"@
        || name == "reply-with-context"@) {
        CandidateSource::Dates
    } else if (name == "daily-briefing"@ && arg == "mail_limit"@) || (name == "find-and-read"@
        && arg == "limit"@) {
        CandidateSource::Fixed(limit_choices())
    } else if name == "reply-with-context"@ && arg == "message_id"@ {
        CandidateSource::Fixed(context_message_id(ctx))
    } else {
        CandidateSource::Fixed(Seq::empty())
    }
}

/// Candidates for an argument of a resource template.
pub open spec fn resource_candidates(uri: Seq<char>, arg: Seq<char>) -> CandidateSource {
    let dashboard = has_prefix(uri, "ui://zocli/dashboard"@);
    if arg == "account"@ && (uri == "resource://zocli/account/{account}"@ || uri
        == "resource://zocli/auth/{account}"@ || dashboard) {
        CandidateSource::Accounts
    } else if arg == "skill"@ && uri == "resource://zocli/skill/{skill}"@ {
        CandidateSource::Fixed(spec_skill_names())
    } else if arg == "section"@ && dashboard {
        CandidateSource::Fixed(seq!["tools"@, "resources"@, "auth"@])
    } else if arg == "resource"@ && dashboard {
        CandidateSource::Fixed(seq!["account"@, "auth"@, "skills"@, "skill"@])
    } else if arg == "skill"@ && dashboard {
        CandidateSource::Fixed(spec_skill_names())
    } else if arg == "tool"@ && dashboard {
        CandidateSource::Fixed(dashboard_tool_choices())
    } else if arg == "prompt"@ && dashboard {
        CandidateSource::Fixed(spec_prompt_names())
    } else {
        CandidateSource::Fixed(Seq::empty())
    }
}

/// What `completion/complete` asks for: the candidate source and the value typed so far, or
/// the message of the validation error.
pub open spec fn completion_plan(params: Json) -> Result<(CandidateSource, Seq<char>), Seq<char>> {
    match member(params, "ref"@) {
        None => Err("completion/complete requires `ref`"@),
        Some(reference) => match member(params, "argument"@) {
            None => Err("completion/complete requires `argument`"@),
            Some(argument) => match member(argument, "name"@) {
                Some(Json::Str(arg_name)) => {
                    let value = match member(argument, "value"@) {
                        Some(Json::Str(v)) => v@,
                        _ => Seq::empty(),
                    };
                    let ctx = match member(params, "context"@) {
                        Some(c) => member(c, "arguments"@),
                        None => None,
                    };
                    match member(reference, "type"@) {
                        Some(Json::Str(t)) => if t@ == "ref/prompt"@ {
                            match member(reference, "name"@) {
                                Some(Json::Str(n)) => Ok(
                                    (prompt_candidates(n@, arg_name@, ctx), value),
                                ),
                                _ => Err("prompt completion requires `ref.name` for ref/prompt"@),
                            }
                        } else if t@ == "ref/resource"@ {
                            match member(reference, "uri"@) {
                                Some(Json::Str(u)) => Ok((resource_candidates(u@, arg_name@), value)),
                                _ => Err("resource completion requires `ref.uri` for ref/resource"@),
                            }
                        } else {
                            Err("unsupported completion reference type: "@ + t@)
                        },
                        _ => Err("completion/complete requires `ref.type`"@),
                    }
                },
                _ => Err("completion/complete requires `argument.name`"@),
            },
        },
    }
}

/// The completion reply: the first hundred values, their total, and whether there are more.
pub open spec fn completion_reply(j: Json, values: Seq<Seq<char>>) -> bool {
    &&& j matches Json::Object(ms)
    &&& ms@.len() == 1
    &&& ms@[0].0@ == "completion"@
    &&& ms@[0].1 matches Json::Object(c)
    &&& c@.len() == 3
    &&& c@[0].0@ == "hasMore"@ && c@[0].1 == Json::Bool(values.len() > 100)
    &&& c@[1].0@ == "total"@ && (c@[1].1 matches Json::Number(t) && t@ == decimal(values.len()))
    &&& c@[2].0@ == "values"@ && is_text_list(c@[2].1, values.take(
        if values.len() > 100 {
            100
        } else {
            values.len() as int
        },
    ))
}

pub open spec fn is_text_list(j: Json, s: Seq<Seq<char>>) -> bool {
    j matches Json::Array(items) && items@.len() == s.len() && forall|i: int|
        0 <= i < s.len() ==> is_text(#[trigger] items@[i], s[i])
}

/// The outcome of a completion whose candidates come from `source`; account names are
/// asked for only when the source needs them, and a failure to read them is the outcome.
pub open spec fn completion_outcome(
    r: Result<Json, ZocliError>,
    source: CandidateSource,
    value: Seq<char>,
    accounts: Result<Vec<String>, ZocliError>,
    dates: Seq<Seq<char>>,
) -> bool {
    match source {
        CandidateSource::Accounts => match accounts {
            Ok(a) => r matches Ok(j) && completion_reply(j, ranked(text_views(a@), value)),
            Err(e) => r == Err::<Json, ZocliError>(e),
        },
        CandidateSource::Dates => r matches Ok(j) && completion_reply(j, ranked(dates, value)),
        CandidateSource::Fixed(list) => r matches Ok(j) && completion_reply(j, ranked(list, value)),
    }
}

pub fn strings_of(v: Vec<&str>) -> (r: Vec<String>)
    ensures
        text_views(r@) == strs(v@),
{
    let mut out: Vec<String> = Vec::new();
    let mut i: usize = 0;
    while i < v.len()
        invariant
            i <= v@.len(),
            text_views(out@) == strs(v@.take(i as int)),
        decreases v@.len() - i,
    {
        let ghost before = text_views(out@);
        out.push(String::from_str(v[i]));
        assert(strs(v@.take(i + 1)) =~= strs(v@.take(i as int)).push(v@[i as int]@));
        assert(text_views(out@) =~= before.push(v@[i as int]@));
        i = i + 1;
    }
    assert(v@.take(v@.len() as int) =~= v@);
    out
}

fn skill_name_strings() -> (r: Vec<String>)
    ensures
        text_views(r@) == spec_skill_names(),
{
    let names = skill_names();
    let r = strings_of(names);
    assert(strs(names@) == names@.map_values(|s: &str| s@));
    r
}

fn json_value_texts(items: &Vec<String>, n: usize) -> (r: Json)
    requires
        n <= items@.len(),
    ensures
        is_text_list(r, text_views(items@).take(n as int)),
{
    let mut out: Vec<Json> = Vec::new();
    let mut i: usize = 0;
    while i < n
        invariant
            n <= items@.len(),
            i <= n,
            out@.len() == i,
            forall|j: int| 0 <= j < i ==> is_text(#[trigger] out@[j], items@[j]@),
        decreases n - i,
    {
        out.push(text_json(items[i].as_str()));
        i = i + 1;
    }
    Json::Array(out)
}

/// The completion reply for the ranked values.
fn completion_json(values: &Vec<String>) -> (r: Json)
    ensures
        completion_reply(r, text_views(values@)),
{
    let total = values.len();
    let shown = if total > 100 {
        100
    } else {
        total
    };
    let mut c: Vec<(String, Json)> = Vec::new();
    c.push((String::from_str("hasMore"), Json::Bool(total > 100)));
    c.push((String::from_str("total"), Json::Number(u64_to_string(total as u64))));
    c.push((String::from_str("values"), json_value_texts(values, shown)));
    let mut ms: Vec<(String, Json)> = Vec::new();
    ms.push((String::from_str("completion"), Json::Object(c)));
    Json::Object(ms)
}

/// The candidates of a source other than the accounts.
fn candidates_of(
    params: &Json,
    fixed_for_prompt: bool,
    name: &str,
    arg: &str,
    dates: &Vec<String>,
) -> (r: Option<Vec<String>>)
    ensures
        match (if fixed_for_prompt {
            prompt_candidates(
                name@,
                arg@,
                match member(*params, "context"@) {
                    Some(c) => member(c, "arguments"@),
                    None => None,
                },
            )
        } else {
            resource_candidates(name@, arg@)
        }) {
            CandidateSource::Accounts => r is None,
            CandidateSource::Dates => r matches Some(v) && text_views(v@) == text_views(dates@),
            CandidateSource::Fixed(list) => r matches Some(v) && text_views(v@) == list,
        },
{
    proof {
        reveal_strlit("account");
    }
    if fixed_for_prompt {
        if str_eq(arg, "account") {
            return None;
        }
        if str_eq(arg, "folder") && (str_eq(name, "mail") || str_eq(name, "find-and-read")
            || str_eq(name, "reply-with-context")) {
            let v = vec!["INBOX", "Sent", "Drafts", "Archive", "Trash", "Spam"];
            assert(strs(v@) =~= folder_choices());
            return Some(strings_of(v));
        }
        if str_eq(name, "calendar") && str_eq(arg, "calendar") {
            let v = vec!["default"];
            assert(strs(v@) =~= seq!["default"@]);
            return Some(strings_of(v));
        }
        if (str_eq(arg, "from") || str_eq(arg, "to")) && (str_eq(name, "calendar") || str_eq(
            name,
            "daily-briefing",
        ) || str_eq(name, "reply-with-context")) {
            return Some(dates.clone());
        }
        if (str_eq(name, "daily-briefing") && str_eq(arg, "mail_limit")) || (str_eq(
            name,
            "find-and-read",
        ) && str_eq(arg, "limit")) {
            let v = vec!["5", "10", "20", "50"];
            assert(strs(v@) =~= limit_choices());
            return Some(strings_of(v));
        }
        if str_eq(name, "reply-with-context") && str_eq(arg, "message_id") {
            let ctx = match get(params, "context") {
                Some(c) => get(c, "arguments"),
                None => None,
            };
            let mut out: Vec<String> = Vec::new();
            match ctx {
                Some(a) => match get(a, "message_id") {
                    Some(Json::Str(m)) => {
                        out.push(m.clone());
                        assert(text_views(out@) =~= seq![m@]);
                    },
                    _ => {
                        assert(text_views(out@) =~= Seq::<Seq<char>>::empty());
                    },
                },
                None => {
                    assert(text_views(out@) =~= Seq::<Seq<char>>::empty());
                },
            }
            return Some(out);
        }
        let out: Vec<String> = Vec::new();
        assert(text_views(out@) =~= Seq::<Seq<char>>::empty());
        Some(out)
    } else {
        let uri = name;
        let dashboard = starts_with(uri, "ui://zocli/dashboard");
        if str_eq(arg, "account") && (str_eq(uri, "resource://zocli/account/{account}") || str_eq(
            uri,
            "resource://zocli/auth/{account}",
        ) || dashboard) {
            return None;
        }
        if str_eq(arg, "skill") && str_eq(uri, "resource://zocli/skill/{skill}") {
            return Some(skill_name_strings());
        }
        if str_eq(arg, "section") && dashboard {
            let v = vec!["tools", "resources", "auth"];
            assert(strs(v@) =~= seq!["tools"@, "resources"@, "auth"@]);
            return Some(strings_of(v));
        }
        if str_eq(arg, "resource") && dashboard {
            let v = vec!["account", "auth", "skills", "skill"];
            assert(strs(v@) =~= seq!["account"@, "auth"@, "skills"@, "skill"@]);
            return Some(strings_of(v));
        }
        if str_eq(arg, "skill") && dashboard {
            return Some(skill_name_strings());
        }
        if str_eq(arg, "tool") && dashboard {
            let v = vec![
                "zocli.app.snapshot",
                "zocli.account.list",
                "zocli.account.current",
                "zocli.auth.status",
                "zocli.update.check",
            ];
            assert(strs(v@) =~= dashboard_tool_choices());
            return Some(strings_of(v));
        }
        if str_eq(arg, "prompt") && dashboard {
            return Some(strings_of(prompt_names()));
        }
        let out: Vec<String> = Vec::new();
        assert(text_views(out@) =~= Seq::<Seq<char>>::empty());
        Some(out)
    }
}

fn validation(m: &str) -> (r: ZocliError)
    ensures
        r matches ZocliError::Validation(x) && x@ == m@,
{
    ZocliError::Validation(String::from_str(m))
}

/// Answers `completion/complete`. `accounts` is the outcome of reading the configured
/// account names and `dates` the date suggestions; each is used only when the argument asks
/// for it.
pub fn complete(params: &Json, accounts: Result<Vec<String>, ZocliError>, dates: &Vec<String>) -> (r:
    Result<Json, ZocliError>)
    ensures
        match completion_plan(*params) {
            Ok((source, value)) => completion_outcome(r, source, value, accounts, text_views(dates@)),
            Err(m) => r matches Err(ZocliError::Validation(x)) && x@ == m,
        },
{
    let reference = match get(params, "ref") {
        Some(x) => x,
        None => {
            return Err(validation("completion/complete requires `ref`"));
        },
    };
    let argument = match get(params, "argument") {
        Some(x) => x,
        None => {
            return Err(validation("completion/complete requires `argument`"));
        },
    };
    let arg_name = match get(argument, "name") {
        Some(Json::Str(n)) => n.as_str(),
        _ => {
            return Err(validation("completion/complete requires `argument.name`"));
        },
    };
    let value: &str = match get(argument, "value") {
        Some(Json::Str(v)) => v.as_str(),
        _ => {
            proof {
                reveal_strlit("");
            }
            ""
        },
    };
    let kind = match get(reference, "type") {
        Some(Json::Str(t)) => t.as_str(),
        _ => {
            return Err(validation("completion/complete requires `ref.type`"));
        },
    };
    let (for_prompt, target) = if str_eq(kind, "ref/prompt") {
        match get(reference, "name") {
            Some(Json::Str(n)) => (true, n.as_str()),
            _ => {
                return Err(validation("prompt completion requires `ref.name` for ref/prompt"));
            },
        }
    } else if str_eq(kind, "ref/resource") {
        match get(reference, "uri") {
            Some(Json::Str(u)) => (false, u.as_str()),
            _ => {
                return Err(validation("resource completion requires `ref.uri` for ref/resource"));
            },
        }
    } else {
        return Err(ZocliError::Validation(cat("unsupported completion reference type: ", kind)));
    };
    let candidates = match candidates_of(params, for_prompt, target, arg_name, dates) {
        Some(c) => c,
        None => match accounts {
            Ok(a) => a,
            Err(e) => {
                return Err(e);
            },
        },
    };
    let ranked_values = rank_and_filter(candidates, value);
    Ok(completion_json(&ranked_values))
}

/// The configured account names, in the store's (ascending) order.
pub fn configured_accounts(store: &AccountStore) -> (r: Vec<String>)
    ensures
        text_views(r@) == store.entries().map_values(|e: (String, crate::model::AccountConfig)| e.0@),
{
    let mut out: Vec<String> = Vec::new();
    let n = store.file.accounts.len();
    let mut i: usize = 0;
    while i < n
        invariant
            n == store.entries().len(),
            i <= n,
            text_views(out@) == store.entries().take(i as int).map_values(
                |e: (String, crate::model::AccountConfig)| e.0@,
            ),
        decreases n - i,
    {
        let ghost before = text_views(out@);
        out.push(store.file.accounts[i].0.clone());
        assert(store.entries().take(i + 1).map_values(
            |e: (String, crate::model::AccountConfig)| e.0@,
        ) =~= store.entries().take(i as int).map_values(
            |e: (String, crate::model::AccountConfig)| e.0@,
        ).push(store.entries()[i as int].0@));
        assert(text_views(out@) =~= before.push(store.entries()[i as int].0@));
        i = i + 1;
    }
    assert(store.entries().take(n as int) =~= store.entries());
    out
}

/// The date suggestions: today, tomorrow and a week from today (each of the later two is
/// today again where the calendar cannot go that far).
pub fn date_suggestions(now: Instant) -> (r: Vec<String>)
    requires
        instant_valid(now.0, now.1),
    ensures
        r@.len() == 3,
        r@[0]@ == date_text(now.0, now.1),
        r@[1]@ == date_text((now.0 + 86400) as i64, now.1) || r@[1]@ == date_text(now.0, now.1),
        r@[2]@ == date_text((now.0 + 7 * 86400) as i64, now.1) || r@[2]@ == date_text(now.0, now.1),
{
    let tomorrow = match add_days(now.0, now.1, 1) {
        Some(t) => t,
        None => now,
    };
    let next_week = match add_days(now.0, now.1, 7) {
        Some(t) => t,
        None => now,
    };
    let mut out: Vec<String> = Vec::new();
    out.push(format_date(now.0, now.1));
    out.push(format_date(tomorrow.0, tomorrow.1));
    out.push(format_date(next_week.0, next_week.1));
    out
}

/// The date suggestions for the current time.
pub fn current_date_suggestions() -> (r: Vec<String>)
    ensures
        r@.len() == 3,
{
    let now = now_instant();
    date_suggestions(now)
}

} // verus!
