//! Reading a `tools/call` request into the call it asks for, and wrapping a tool's result
//! into the MCP tool response.
use vstd::prelude::*;
use crate::error::ZocliError;
use crate::json::{
    Json, member, get, is_text, text_json, fields, is_object, key_at, val_at, text_at,
    text_member, member_of, object, to_json_pretty_text, json_pretty_text,
};
use crate::text::{str_eq, cat, cat3, text_views};
use crate::versions::{parse_u64, spec_parse_u64};
use crate::tools::{tool_surface, tool_visibility, meta_is, app_meta, spec_tool_surface, spec_tool_visibility};
use crate::oauth::strs;

verus! {

broadcast use vstd::string::group_string_axioms;

/// A tool call with its arguments read, defaults applied.
#[derive(Debug)]
#[allow(inconsistent_fields)]
pub enum ToolCall {
    AppSnapshot,
    AccountList,
    AccountCurrent,
    AuthStatus { account: Option<String> },
    UpdateCheck { version: Option<String> },
    MailFolders { account: Option<String> },
    MailList { account: Option<String>, folder_id: Option<String>, unread_only: bool, limit: u64 },
    MailSearch { account: Option<String>, query: String, limit: u64 },
    MailRead { account: Option<String>, folder_id: String, message_id: String },
    MailAttachmentExport {
        account: Option<String>,
        folder_id: String,
        message_id: String,
        attachment_id: String,
    },
    MailSend {
        account: Option<String>,
        from_address: String,
        to: String,
        cc: Vec<String>,
        bcc: Vec<String>,
        subject: String,
        text: Option<String>,
        html: Option<String>,
        attachments: Vec<String>,
    },
    MailReply {
        account: Option<String>,
        folder_id: String,
        message_id: String,
        content: Option<String>,
        cc: Vec<String>,
    },
    MailForward {
        account: Option<String>,
        folder_id: String,
        message_id: String,
        to: String,
        cc: Vec<String>,
        bcc: Vec<String>,
        content: Option<String>,
    },
    CalendarCalendars { account: Option<String> },
    CalendarEvents {
        account: Option<String>,
        calendar: String,
        from: Option<String>,
        to: Option<String>,
        limit: u64,
    },
    CalendarCreate {
        account: Option<String>,
        calendar: String,
        summary: String,
        start: String,
        end: String,
        description: Option<String>,
        location: Option<String>,
    },
    CalendarDelete { account: Option<String>, calendar: String, uid: String },
    DriveTeams { account: Option<String> },
    DriveList { account: Option<String>, folder_id: String, limit: u64, offset: u64 },
    DriveUpload { account: Option<String>, folder_id: String, source: String, overwrite: bool },
    DriveDownload { account: Option<String>, file_id: String, output_path: String, force: bool },
}

pub open spec fn sv(o: Option<String>) -> Option<Seq<char>> {
    match o {
        Some(s) => Some(s@),
        None => None,
    }
}

/// The string argument `key`.
pub open spec fn arg_str(args: Option<Json>, key: Seq<char>) -> Option<Seq<char>> {
    match args {
        Some(a) => match member(a, key) {
            Some(Json::Str(s)) => Some(s@),
            _ => None,
        },
        None => None,
    }
}

/// The argument `key` as an unsigned integer.
pub open spec fn arg_u64(args: Option<Json>, key: Seq<char>) -> Option<u64> {
    match args {
        Some(a) => match member(a, key) {
            Some(Json::Number(t)) => spec_parse_u64(t@),
            _ => None,
        },
        None => None,
    }
}

/// The boolean argument `key`.
pub open spec fn arg_bool(args: Option<Json>, key: Seq<char>) -> Option<bool> {
    match args {
        Some(a) => match member(a, key) {
            Some(Json::Bool(b)) => Some(b),
            _ => None,
        },
        None => None,
    }
}

pub open spec fn all_texts(items: Seq<Json>) -> bool {
    forall|i: int| 0 <= i < items.len() ==> #[trigger] items[i] is Str
}

pub open spec fn texts_of(items: Seq<Json>) -> Seq<Seq<char>> {
    items.map_values(|j: Json| match j {
        Json::Str(s) => s@,
        _ => Seq::empty(),
    })
}

/// The argument `key` as a list of strings: none when absent, None when it is not an array
/// of strings.
pub open spec fn arg_list(args: Option<Json>, key: Seq<char>) -> Option<Seq<Seq<char>>> {
    match args {
        Some(a) => match member(a, key) {
            None => Some(Seq::empty()),
            Some(Json::Array(items)) => if all_texts(items@) {
                Some(texts_of(items@))
            } else {
                None
            },
            Some(_) => None,
        },
        None => Some(Seq::empty()),
    }
}

pub open spec fn required_message(key: Seq<char>) -> Seq<char> {
    "`"@ + key + "` is required"@
}

pub open spec fn list_message(key: Seq<char>) -> Seq<char> {
    "`"@ + key + "` must be an array of strings"@
}

pub open spec fn or_u64(o: Option<u64>, d: u64) -> u64 {
    match o {
        Some(x) => x,
        None => d,
    }
}

pub open spec fn or_false(o: Option<bool>) -> bool {
    match o {
        Some(x) => x,
        None => false,
    }
}

pub open spec fn or_text(o: Option<Seq<char>>, d: Seq<char>) -> Seq<char> {
    match o {
        Some(x) => x,
        None => d,
    }
}

pub open spec fn texts_are(v: Vec<String>, s: Seq<Seq<char>>) -> bool {
    text_views(v@) == s
}

pub open spec fn invalid(r: Result<ToolCall, ZocliError>, m: Seq<char>) -> bool {
    r matches Err(ZocliError::Validation(x)) && x@ == m
}

/// The call a tool's arguments ask for; arguments are read in order and the first missing
/// or malformed one is the error.
pub open spec fn call_is(name: Seq<char>, args: Option<Json>, r: Result<ToolCall, ZocliError>) -> bool {
    let account = arg_str(args, "account"@);
    if name == "zocli.app.snapshot"@ {
        r matches Ok(ToolCall::AppSnapshot)
    } else if name == "zocli.account.list"@ {
        r matches Ok(ToolCall::AccountList)
    } else if name == "zocli.account.current"@ {
        r matches Ok(ToolCall::AccountCurrent)
    } else if name == "zocli.auth.status"@ {
        r matches Ok(ToolCall::AuthStatus { account: a }) && sv(a) == account
    } else if name == "zocli.update.check"@ {
        r matches Ok(ToolCall::UpdateCheck { version: v }) && sv(v) == arg_str(args, "version"@)
    } else if name == "zocli.mail.folders"@ {
        r matches Ok(ToolCall::MailFolders { account: a }) && sv(a) == account
    } else if name == "zocli.mail.list"@ {
        r matches Ok(ToolCall::MailList { account: a, folder_id: f, unread_only: u, limit: l })
            && sv(a) == account && sv(f) == arg_str(args, "folder_id"@) && u == or_false(
            arg_bool(args, "unread_only"@),
        ) && l == or_u64(arg_u64(args, "limit"@), 20)
    } else if name == "zocli.mail.search"@ {
        match arg_str(args, "query"@) {
            None => invalid(r, required_message("query"@)),
            Some(q) => r matches Ok(ToolCall::MailSearch { account: a, query: x, limit: l }) && sv(a)
                == account && x@ == q && l == or_u64(arg_u64(args, "limit"@), 20),
        }
    } else if name == "zocli.mail.read"@ {
        match (arg_str(args, "folder_id"@), arg_str(args, "message_id"@)) {
            (None, _) => invalid(r, required_message("folder_id"@)),
            (Some(_), None) => invalid(r, required_message("message_id"@)),
            (Some(f), Some(m)) => r matches Ok(
                ToolCall::MailRead { account: a, folder_id: x, message_id: y },
            ) && sv(a) == account && x@ == f && y@ == m,
        }
    } else if name == "zocli.mail.attachment_export"@ {
        match (
            arg_str(args, "folder_id"@),
            arg_str(args, "message_id"@),
            arg_str(args, "attachment_id"@),
        ) {
            (None, _, _) => invalid(r, required_message("folder_id"@)),
            (Some(_), None, _) => invalid(r, required_message("message_id"@)),
            (Some(_), Some(_), None) => invalid(r, required_message("attachment_id"@)),
            (Some(f), Some(m), Some(t)) => r matches Ok(
                ToolCall::MailAttachmentExport {
                    account: a,
                    folder_id: x,
                    message_id: y,
                    attachment_id: z,
                },
            ) && sv(a) == account && x@ == f && y@ == m && z@ == t,
        }
    } else if name == "zocli.mail.send"@ {
        send_is(args, r)
    } else if name == "zocli.mail.reply"@ {
        match (arg_str(args, "folder_id"@), arg_str(args, "message_id"@), arg_list(args, "cc"@)) {
            (None, _, _) => invalid(r, required_message("folder_id"@)),
            (Some(_), None, _) => invalid(r, required_message("message_id"@)),
            (Some(_), Some(_), None) => invalid(r, list_message("cc"@)),
            (Some(f), Some(m), Some(cc)) => r matches Ok(
                ToolCall::MailReply { account: a, folder_id: x, message_id: y, content: c, cc: z },
            ) && sv(a) == account && x@ == f && y@ == m && sv(c) == (match arg_str(
                args,
                "text"@,
            ) {
                Some(t) => Some(t),
                None => arg_str(args, "html"@),
            }) && texts_are(z, cc),
        }
    } else if name == "zocli.mail.forward"@ {
        forward_is(args, r)
    } else if name == "zocli.calendar.calendars"@ {
        r matches Ok(ToolCall::CalendarCalendars { account: a }) && sv(a) == account
    } else if name == "zocli.calendar.events"@ {
        r matches Ok(ToolCall::CalendarEvents { account: a, calendar: c, from: f, to: t, limit: l })
            && sv(a) == account && c@ == or_text(arg_str(args, "calendar"@), "default"@) && sv(f)
            == arg_str(args, "from"@) && sv(t) == arg_str(args, "to"@) && l == or_u64(
            arg_u64(args, "limit"@),
            20,
        )
    } else if name == "zocli.calendar.create"@ {
        match (arg_str(args, "summary"@), arg_str(args, "start"@), arg_str(args, "end"@)) {
            (None, _, _) => invalid(r, required_message("summary"@)),
            (Some(_), None, _) => invalid(r, required_message("start"@)),
            (Some(_), Some(_), None) => invalid(r, required_message("end"@)),
            (Some(su), Some(st), Some(en)) => r matches Ok(
                ToolCall::CalendarCreate {
                    account: a,
                    calendar: c,
                    summary: x,
                    start: y,
                    end: z,
                    description: d,
                    location: lo,
                },
            ) && sv(a) == account && c@ == or_text(arg_str(args, "calendar"@), "default"@) && x@
                == su && y@ == st && z@ == en && sv(d) == arg_str(args, "description"@) && sv(lo)
                == arg_str(args, "location"@),
        }
    } else if name == "zocli.calendar.delete"@ {
        match arg_str(args, "uid"@) {
            None => invalid(r, required_message("uid"@)),
            Some(u) => r matches Ok(ToolCall::CalendarDelete { account: a, calendar: c, uid: x })
                && sv(a) == account && c@ == or_text(arg_str(args, "calendar"@), "default"@) && x@
                == u,
        }
    } else if name == "zocli.drive.teams"@ {
        r matches Ok(ToolCall::DriveTeams { account: a }) && sv(a) == account
    } else if name == "zocli.drive.list"@ {
        match arg_str(args, "folder_id"@) {
            None => invalid(r, required_message("folder_id"@)),
            Some(f) => r matches Ok(
                ToolCall::DriveList { account: a, folder_id: x, limit: l, offset: o },
            ) && sv(a) == account && x@ == f && l == or_u64(arg_u64(args, "limit"@), 100) && o
                == or_u64(arg_u64(args, "offset"@), 0),
        }
    } else if name == "zocli.drive.upload"@ {
        match (arg_str(args, "folder_id"@), arg_str(args, "source"@)) {
            (None, _) => invalid(r, required_message("folder_id"@)),
            (Some(_), None) => invalid(r, required_message("source"@)),
            (Some(f), Some(s)) => r matches Ok(
                ToolCall::DriveUpload { account: a, folder_id: x, source: y, overwrite: o },
            ) && sv(a) == account && x@ == f && y@ == s && o == or_false(
                arg_bool(args, "overwrite"@),
            ),
        }
    } else if name == "zocli.drive.download"@ {
        match (arg_str(args, "file_id"@), arg_str(args, "output_path"@)) {
            (None, _) => invalid(r, required_message("file_id"@)),
            (Some(_), None) => invalid(r, required_message("output_path"@)),
            (Some(f), Some(p)) => r matches Ok(
                ToolCall::DriveDownload { account: a, file_id: x, output_path: y, force: fo },
            ) && sv(a) == account && x@ == f && y@ == p && fo == or_false(arg_bool(args, "force"@)),
        }
    } else {
        r matches Err(ZocliError::UnsupportedOperation(x)) && x@ == "unsupported MCP tool: "@ + name
    }
}

/// `zocli.mail.send`: `to`, `cc`, `bcc`, `subject` and `attachments` are read in that order.
pub open spec fn send_is(args: Option<Json>, r: Result<ToolCall, ZocliError>) -> bool {
    match arg_str(args, "to"@) {
        None => invalid(r, required_message("to"@)),
        Some(to) => match arg_list(args, "cc"@) {
            None => invalid(r, list_message("cc"@)),
            Some(cc) => match arg_list(args, "bcc"@) {
                None => invalid(r, list_message("bcc"@)),
                Some(bcc) => match arg_str(args, "subject"@) {
                    None => invalid(r, required_message("subject"@)),
                    Some(subject) => match arg_list(args, "attachments"@) {
                        None => invalid(r, list_message("attachments"@)),
                        Some(att) => r matches Ok(
                            ToolCall::MailSend {
                                account: a,
                                from_address: fr,
                                to: t,
                                cc: c,
                                bcc: b,
                                subject: s,
                                text: tx,
                                html: h,
                                attachments: at,
                            },
                        ) && sv(a) == arg_str(args, "account"@) && fr@ == or_text(
                            arg_str(args, "from_address"@),
                            Seq::empty(),
                        ) && t@ == to && texts_are(c, cc) && texts_are(b, bcc) && s@ == subject
                            && sv(tx) == arg_str(args, "text"@) && sv(h) == arg_str(args, "html"@)
                            && texts_are(at, att),
                    },
                },
            },
        },
    }
}

/// `zocli.mail.forward`: `folder_id`, `message_id`, `to`, `cc` and `bcc` in that order.
pub open spec fn forward_is(args: Option<Json>, r: Result<ToolCall, ZocliError>) -> bool {
    match arg_str(args, "folder_id"@) {
        None => invalid(r, required_message("folder_id"@)),
        Some(f) => match arg_str(args, "message_id"@) {
            None => invalid(r, required_message("message_id"@)),
            Some(m) => match arg_str(args, "to"@) {
                None => invalid(r, required_message("to"@)),
                Some(to) => match arg_list(args, "cc"@) {
                    None => invalid(r, list_message("cc"@)),
                    Some(cc) => match arg_list(args, "bcc"@) {
                        None => invalid(r, list_message("bcc"@)),
                        Some(bcc) => r matches Ok(
                            ToolCall::MailForward {
                                account: a,
                                folder_id: x,
                                message_id: y,
                                to: t,
                                cc: c,
                                bcc: b,
                                content: co,
                            },
                        ) && sv(a) == arg_str(args, "account"@) && x@ == f && y@ == m && t@ == to
                            && texts_are(c, cc) && texts_are(b, bcc) && sv(co) == (match arg_str(
                            args,
                            "text"@,
                        ) {
                            Some(t) => Some(t),
                            None => arg_str(args, "html"@),
                        }),
                    },
                },
            },
        },
    }
}

pub open spec fn ref_json(o: Option<&Json>) -> Option<Json> {
    match o {
        Some(j) => Some(*j),
        None => None,
    }
}

fn a_str(args: Option<&Json>, key: &str) -> (r: Option<String>)
    ensures
        sv(r) == arg_str(ref_json(args), key@),
{
    match args {
        Some(a) => match get(a, key) {
            Some(Json::Str(s)) => Some(s.clone()),
            _ => None,
        },
        None => None,
    }
}

fn a_u64(args: Option<&Json>, key: &str) -> (r: Option<u64>)
    ensures
        r == arg_u64(ref_json(args), key@),
{
    match args {
        Some(a) => match get(a, key) {
            Some(Json::Number(t)) => parse_u64(t.as_str()),
            _ => None,
        },
        None => None,
    }
}

fn a_bool(args: Option<&Json>, key: &str) -> (r: Option<bool>)
    ensures
        r == arg_bool(ref_json(args), key@),
{
    match args {
        Some(a) => match get(a, key) {
            Some(Json::Bool(b)) => Some(*b),
            _ => None,
        },
        None => None,
    }
}

fn a_required(args: Option<&Json>, key: &str) -> (r: Result<String, ZocliError>)
    ensures
        match arg_str(ref_json(args), key@) {
            Some(s) => r matches Ok(x) && x@ == s,
            None => r matches Err(ZocliError::Validation(m)) && m@ == required_message(key@),
        },
{
    match a_str(args, key) {
        Some(s) => Ok(s),
        None => Err(ZocliError::Validation(cat3("`", key, "` is required"))),
    }
}

fn a_list(args: Option<&Json>, key: &str) -> (r: Result<Vec<String>, ZocliError>)
    ensures
        match arg_list(ref_json(args), key@) {
            Some(s) => r matches Ok(v) && text_views(v@) == s,
            None => r matches Err(ZocliError::Validation(m)) && m@ == list_message(key@),
        },
{
    let items = match args {
        Some(a) => match get(a, key) {
            None => {
                let v: Vec<String> = Vec::new();
                assert(text_views(v@) =~= Seq::<Seq<char>>::empty());
                return Ok(v);
            },
            Some(Json::Array(items)) => items,
            Some(_) => {
                return Err(ZocliError::Validation(cat3("`", key, "` must be an array of strings")));
            },
        },
        None => {
            let v: Vec<String> = Vec::new();
            assert(text_views(v@) =~= Seq::<Seq<char>>::empty());
            return Ok(v);
        },
    };
    let ghost outcome = arg_list(ref_json(args), key@);
    proof {
        match ref_json(args) {
            Some(a) => {
                match member(a, key@) {
                    Some(Json::Array(v)) => {
                        assert(v == *items);
                    },
                    _ => {},
                }
            },
            None => {},
        }
        assert(outcome == if all_texts(items@) {
            Some(texts_of(items@))
        } else {
            None
        });
    }
    let mut out: Vec<String> = Vec::new();
    let mut i: usize = 0;
    while i < items.len()
        invariant
            outcome == arg_list(ref_json(args), key@),
            outcome == if all_texts(items@) {
                Some(texts_of(items@))
            } else {
                None
            },
            i <= items@.len(),
            forall|j: int| 0 <= j < i ==> #[trigger] items@[j] is Str,
            text_views(out@) == texts_of(items@.take(i as int)),
        decreases items@.len() - i,
    {
        match &items[i] {
            Json::Str(s) => {
                let ghost before = text_views(out@);
                out.push(s.clone());
                assert(texts_of(items@.take(i + 1)) =~= texts_of(items@.take(i as int)).push(s@));
                assert(text_views(out@) =~= before.push(s@));
            },
            _ => {
                assert(!all_texts(items@));
                return Err(ZocliError::Validation(cat3("`", key, "` must be an array of strings")));
            },
        }
        i = i + 1;
    }
    assert(items@.take(items@.len() as int) =~= items@);
    assert(all_texts(items@));
    Ok(out)
}

fn or_default_u64(o: Option<u64>, d: u64) -> (r: u64)
    ensures
        r == or_u64(o, d),
{
    match o {
        Some(x) => x,
        None => d,
    }
}

fn or_no(o: Option<bool>) -> (r: bool)
    ensures
        r == or_false(o),
{
    match o {
        Some(x) => x,
        None => false,
    }
}

fn or_string(o: Option<String>, d: &str) -> (r: String)
    ensures
        r@ == or_text(sv(o), d@),
{
    match o {
        Some(x) => x,
        None => String::from_str(d),
    }
}

fn first_content(args: Option<&Json>) -> (r: Option<String>)
    ensures
        sv(r) == (match arg_str(ref_json(args), "text"@) {
            Some(t) => Some(t),
            None => arg_str(ref_json(args), "html"@),
        }),
{
    match a_str(args, "text") {
        Some(t) => Some(t),
        None => a_str(args, "html"),
    }
}

/// Reads the call a tool's name and arguments ask for.
pub fn parse_tool_arguments(name: &str, args: Option<&Json>) -> (r: Result<ToolCall, ZocliError>)
    ensures
        call_is(name@, ref_json(args), r),
{
    let account = a_str(args, "account");
    if str_eq(name, "zocli.app.snapshot") {
        Ok(ToolCall::AppSnapshot)
    } else if str_eq(name, "zocli.account.list") {
        Ok(ToolCall::AccountList)
    } else if str_eq(name, "zocli.account.current") {
        Ok(ToolCall::AccountCurrent)
    } else if str_eq(name, "zocli.auth.status") {
        Ok(ToolCall::AuthStatus { account })
    } else if str_eq(name, "zocli.update.check") {
        Ok(ToolCall::UpdateCheck { version: a_str(args, "version") })
    } else if str_eq(name, "zocli.mail.folders") {
        Ok(ToolCall::MailFolders { account })
    } else if str_eq(name, "zocli.mail.list") {
        Ok(
            ToolCall::MailList {
                account,
                folder_id: a_str(args, "folder_id"),
                unread_only: or_no(a_bool(args, "unread_only")),
                limit: or_default_u64(a_u64(args, "limit"), 20),
            },
        )
    } else if str_eq(name, "zocli.mail.search") {
        let query = a_required(args, "query")?;
        Ok(ToolCall::MailSearch { account, query, limit: or_default_u64(a_u64(args, "limit"), 20) })
    } else if str_eq(name, "zocli.mail.read") {
        let folder_id = a_required(args, "folder_id")?;
        let message_id = a_required(args, "message_id")?;
        Ok(ToolCall::MailRead { account, folder_id, message_id })
    } else if str_eq(name, "zocli.mail.attachment_export") {
        let folder_id = a_required(args, "folder_id")?;
        let message_id = a_required(args, "message_id")?;
        let attachment_id = a_required(args, "attachment_id")?;
        Ok(ToolCall::MailAttachmentExport { account, folder_id, message_id, attachment_id })
    } else if str_eq(name, "zocli.mail.send") {
        let from_address = match a_str(args, "from_address") {
            Some(x) => x,
            None => String::new(),
        };
        let to = a_required(args, "to")?;
        let cc = a_list(args, "cc")?;
        let bcc = a_list(args, "bcc")?;
        let subject = a_required(args, "subject")?;
        let text = a_str(args, "text");
        let html = a_str(args, "html");
        let attachments = a_list(args, "attachments")?;
        Ok(
            ToolCall::MailSend {
                account,
                from_address,
                to,
                cc,
                bcc,
                subject,
                text,
                html,
                attachments,
            },
        )
    } else if str_eq(name, "zocli.mail.reply") {
        let folder_id = a_required(args, "folder_id")?;
        let message_id = a_required(args, "message_id")?;
        let content = first_content(args);
        let cc = a_list(args, "cc")?;
        Ok(ToolCall::MailReply { account, folder_id, message_id, content, cc })
    } else if str_eq(name, "zocli.mail.forward") {
        let folder_id = a_required(args, "folder_id")?;
        let message_id = a_required(args, "message_id")?;
        let to = a_required(args, "to")?;
        let cc = a_list(args, "cc")?;
        let bcc = a_list(args, "bcc")?;
        let content = first_content(args);
        Ok(ToolCall::MailForward { account, folder_id, message_id, to, cc, bcc, content })
    } else if str_eq(name, "zocli.calendar.calendars") {
        Ok(ToolCall::CalendarCalendars { account })
    } else if str_eq(name, "zocli.calendar.events") {
        Ok(
            ToolCall::CalendarEvents {
                account,
                calendar: or_string(a_str(args, "calendar"), "default"),
                from: a_str(args, "from"),
                to: a_str(args, "to"),
                limit: or_default_u64(a_u64(args, "limit"), 20),
            },
        )
    } else if str_eq(name, "zocli.calendar.create") {
        let calendar = or_string(a_str(args, "calendar"), "default");
        let summary = a_required(args, "summary")?;
        let start = a_required(args, "start")?;
        let end = a_required(args, "end")?;
        Ok(
            ToolCall::CalendarCreate {
                account,
                calendar,
                summary,
                start,
                end,
                description: a_str(args, "description"),
                location: a_str(args, "location"),
            },
        )
    } else if str_eq(name, "zocli.calendar.delete") {
        let calendar = or_string(a_str(args, "calendar"), "default");
        let uid = a_required(args, "uid")?;
        Ok(ToolCall::CalendarDelete { account, calendar, uid })
    } else if str_eq(name, "zocli.drive.teams") {
        Ok(ToolCall::DriveTeams { account })
    } else if str_eq(name, "zocli.drive.list") {
        let folder_id = a_required(args, "folder_id")?;
        Ok(
            ToolCall::DriveList {
                account,
                folder_id,
                limit: or_default_u64(a_u64(args, "limit"), 100),
                offset: or_default_u64(a_u64(args, "offset"), 0),
            },
        )
    } else if str_eq(name, "zocli.drive.upload") {
        let folder_id = a_required(args, "folder_id")?;
        let source = a_required(args, "source")?;
        Ok(
            ToolCall::DriveUpload {
                account,
                folder_id,
                source,
                overwrite: or_no(a_bool(args, "overwrite")),
            },
        )
    } else if str_eq(name, "zocli.drive.download") {
        let file_id = a_required(args, "file_id")?;
        let output_path = a_required(args, "output_path")?;
        Ok(
            ToolCall::DriveDownload {
                account,
                file_id,
                output_path,
                force: or_no(a_bool(args, "force")),
            },
        )
    } else {
        Err(ZocliError::UnsupportedOperation(cat("unsupported MCP tool: ", name)))
    }
}

/// Reads a `tools/call` request: its tool name (required) and arguments.
pub fn parse_tool_call(params: Option<&Json>) -> (r: Result<(String, ToolCall), ZocliError>)
    ensures
        match params {
            Some(p) => match member(*p, "name"@) {
                Some(Json::Str(n)) => match r {
                    Ok((x, c)) => x@ == n@ && call_is(n@, member(*p, "arguments"@), Ok(c)),
                    Err(e) => call_is(n@, member(*p, "arguments"@), Err(e)),
                },
                _ => r matches Err(ZocliError::Validation(m)) && m@ == "tools/call requires `name`"@,
            },
            None => r matches Err(ZocliError::Validation(m)) && m@ == "tools/call requires `name`"@,
        },
{
    let p = match params {
        Some(p) => p,
        None => {
            return Err(ZocliError::Validation(String::from_str("tools/call requires `name`")));
        },
    };
    let name = match get(p, "name") {
        Some(Json::Str(n)) => n,
        _ => {
            return Err(ZocliError::Validation(String::from_str("tools/call requires `name`")));
        },
    };
    let args = get(p, "arguments");
    match parse_tool_arguments(name.as_str(), args) {
        Ok(c) => Ok((name.clone(), c)),
        Err(e) => Err(e),
    }
}

/// Index of the first member called `key`, if any.
pub open spec fn first_key(ms: Seq<(String, Json)>, key: Seq<char>) -> Option<int> {
    if exists|i: int| 0 <= i < ms.len() && ms[i].0@ == key {
        Some(choose|i: int| 0 <= i < ms.len() && ms[i].0@ == key && forall|j: int| 0 <= j < i ==> ms[j].0@ != key)
    } else {
        None
    }
}

/// `st` is `orig` with `schemaVersion` set to `"1.0"`: the member replaced in place when the
/// object has one, appended otherwise; a value that is not an object is left as it is.
pub open spec fn stamped(orig: Json, st: Json) -> bool {
    match orig {
        Json::Object(ms) => st is Object && {
            let f = fields(st);
            match first_key(ms@, "schemaVersion"@) {
                Some(i) => f.len() == ms@.len() && f[i].0@ == "schemaVersion"@ && is_text(
                    f[i].1,
                    "1.0"@,
                ) && forall|j: int| 0 <= j < f.len() && j != i ==> f[j] == ms@[j],
                None => f.len() == ms@.len() + 1 && f.take(ms@.len() as int) == ms@ && f.last().0@
                    == "schemaVersion"@ && is_text(f.last().1, "1.0"@),
            }
        },
        _ => st == orig,
    }
}

fn stamp_schema_version(structured: Json) -> (r: Json)
    ensures
        stamped(structured, r),
{
    match structured {
        Json::Object(mut ms) => {
            let ghost orig = ms@;
            let mut i: usize = 0;
            while i < ms.len()
                invariant
                    structured matches Json::Object(m0) && m0@ == orig,
                    ms@ == orig,
                    i <= orig.len(),
                    forall|j: int| 0 <= j < i ==> orig[j].0@ != "schemaVersion"@,
                decreases orig.len() - i,
            {
                if str_eq(ms[i].0.as_str(), "schemaVersion") {
                    let key = ms[i].0.clone();
                    ms.set(i, (key, text_json("1.0")));
                    proof {
                        assert(orig[i as int].0@ == "schemaVersion"@);
                        assert(first_key(orig, "schemaVersion"@) == Some(i as int)) by {
                            let k = choose|k: int|
                                0 <= k < orig.len() && orig[k].0@ == "schemaVersion"@ && forall|j: int|
                                    0 <= j < k ==> orig[j].0@ != "schemaVersion"@;
                            assert(0 <= i < orig.len() && orig[i as int].0@ == "schemaVersion"@ && forall|j: int|
                                0 <= j < i ==> orig[j].0@ != "schemaVersion"@);
                            if k < i {
                                assert(orig[k].0@ != "schemaVersion"@);
                            } else if k > i {
                                assert(orig[i as int].0@ != "schemaVersion"@);
                            }
                        }
                    }
                    return Json::Object(ms);
                }
                i = i + 1;
            }
            assert(first_key(orig, "schemaVersion"@) is None);
            ms.push((String::from_str("schemaVersion"), text_json("1.0")));
            assert(ms@.take(orig.len() as int) =~= orig);
            Json::Object(ms)
        },
        other => other,
    }
}

/// The MCP response to a tool call: the stamped result as structured content, the same as
/// pretty-printed JSON text, and with the app enabled the tool's app metadata.
pub open spec fn tool_response_is(name: Seq<char>, structured: Json, ui_enabled: bool, j: Json) -> bool {
    &&& j is Object
    &&& fields(j).len() == (if ui_enabled {
        3int
    } else {
        2int
    })
    &&& key_at(j, 0, "structuredContent"@) && stamped(structured, val_at(j, 0))
    &&& key_at(j, 1, "content"@) && (val_at(j, 1) matches Json::Array(items) && items@.len() == 1
        && is_object(items@[0], 2) && text_at(items@[0], 0, "type"@, "text"@) && text_at(
        items@[0],
        1,
        "text"@,
        json_pretty_text(val_at(j, 0)),
    ))
    &&& (ui_enabled ==> key_at(j, 2, "_meta"@) && meta_is(
        val_at(j, 2),
        spec_tool_surface(name),
        spec_tool_visibility(name),
    ))
}

/// Wraps a tool's result into its MCP response.
pub fn tool_response(name: &str, structured: Json, ui_enabled: bool) -> (r: Result<Json, ZocliError>)
    ensures
        r is Ok,
        r matches Ok(j) ==> tool_response_is(name@, structured, ui_enabled, j),
{
    let st = stamp_schema_version(structured);
    let text = match to_json_pretty_text(&st) {
        Ok(t) => t,
        Err(e) => {
            return Err(ZocliError::Serialization(e));
        },
    };
    let mut item: Vec<(String, Json)> = Vec::new();
    item.push(text_member("type", "text"));
    item.push(member_of("text", Json::Str(text)));
    let mut content: Vec<Json> = Vec::new();
    content.push(object(item));
    let mut ms: Vec<(String, Json)> = Vec::new();
    ms.push(member_of("structuredContent", st));
    ms.push(member_of("content", Json::Array(content)));
    if ui_enabled {
        ms.push(member_of("_meta", app_meta(tool_surface(name), tool_visibility(name))));
    }
    Ok(object(ms))
}

} // verus!
