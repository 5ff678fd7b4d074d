//! The tools the MCP server offers: their definitions, the app surface and visibility each
//! belongs to, the scope each needs, and which need HTTP authentication.
use vstd::prelude::*;
use crate::json::{Json, is_text, text_json, member};
use crate::oauth::strs;
use crate::prompts::{is_text_list, strings_of};
use crate::text::{decimal, u64_to_string, has_prefix, starts_with, str_eq, text_views};

verus! {

broadcast use vstd::string::group_string_axioms;

/// The kind of one input property of a tool.
pub enum PropKind {
    /// A string.
    Text,
    /// A boolean.
    Flag,
    /// An integer with this minimum.
    Count(nat),
    /// An array of strings, with its description if it has one.
    TextList(Option<Seq<char>>),
}

/// `j` is the JSON schema of a property of the kind.
pub open spec fn prop_is(j: Json, kind: PropKind) -> bool {
    &&& j matches Json::Object(ms)
    &&& ms@.len() >= 1
    &&& ms@[0].0@ == "type"@
    &&& match kind {
        PropKind::Text => ms@.len() == 1 && is_text(ms@[0].1, "string"@),
        PropKind::Flag => ms@.len() == 1 && is_text(ms@[0].1, "boolean"@),
        PropKind::Count(m) => ms@.len() == 2 && is_text(ms@[0].1, "integer"@) && ms@[1].0@
            == "minimum"@ && (ms@[1].1 matches Json::Number(t) && t@ == decimal(m)),
        PropKind::TextList(d) => {
            &&& is_text(ms@[0].1, "array"@)
            &&& ms@.len() >= 2
            &&& ms@[1].0@ == "items"@
            &&& (ms@[1].1 matches Json::Object(it) && it@.len() == 1 && it@[0].0@ == "type"@
                && is_text(it@[0].1, "string"@))
            &&& match d {
                Some(text) => ms@.len() == 3 && ms@[2].0@ == "description"@ && is_text(
                    ms@[2].1,
                    text,
                ),
                None => ms@.len() == 2,
            }
        },
    }
}

pub open spec fn no_extra_properties(m: (String, Json)) -> bool {
    m.0@ == "additionalProperties"@ && m.1 == Json::Bool(false)
}

/// `j` is the input schema of an object with the given properties, the required ones if
/// any, and no others.
pub open spec fn schema_is(
    j: Json,
    props: Seq<(Seq<char>, PropKind)>,
    required: Option<Seq<Seq<char>>>,
) -> bool {
    &&& j matches Json::Object(ms)
    &&& ms@.len() >= 3
    &&& ms@[0].0@ == "type"@ && is_text(ms@[0].1, "object"@)
    &&& ms@[1].0@ == "properties"@
    &&& (ms@[1].1 matches Json::Object(ps) && ps@.len() == props.len() && forall|i: int|
        0 <= i < props.len() ==> #[trigger] ps@[i].0@ == props[i].0 && prop_is(
            ps@[i].1,
            props[i].1,
        ))
    &&& match required {
        Some(req) => ms@.len() == 4 && ms@[2].0@ == "required"@ && is_text_list(ms@[2].1, req)
            && no_extra_properties(ms@[3]),
        None => ms@.len() == 3 && no_extra_properties(ms@[2]),
    }
}

/// The app surface a tool's results are shown on.
pub open spec fn spec_tool_surface(name: Seq<char>) -> Seq<char> {
    if has_prefix(name, "zocli.mail."@) {
        "ui://zocli/mail"@
    } else if has_prefix(name, "zocli.calendar."@) {
        "ui://zocli/calendar"@
    } else if has_prefix(name, "zocli.drive."@) {
        "ui://zocli/drive"@
    } else if name == "zocli.auth.status"@ {
        "ui://zocli/auth"@
    } else if name == "zocli.account.list"@ || name == "zocli.account.current"@ {
        "ui://zocli/account"@
    } else {
        "ui://zocli/dashboard"@
    }
}

/// Who may see a tool: the app alone for the dashboard snapshot, else the model and the app.
pub open spec fn spec_tool_visibility(name: Seq<char>) -> Seq<Seq<char>> {
    if name == "zocli.app.snapshot"@ {
        seq!["app"@]
    } else {
        seq!["model"@, "app"@]
    }
}

pub fn tool_surface(tool_name: &str) -> (r: &'static str)
    ensures
        r@ == spec_tool_surface(tool_name@),
{
    if starts_with(tool_name, "zocli.mail.") {
        "ui://zocli/mail"
    } else if starts_with(tool_name, "zocli.calendar.") {
        "ui://zocli/calendar"
    } else if starts_with(tool_name, "zocli.drive.") {
        "ui://zocli/drive"
    } else if str_eq(tool_name, "zocli.auth.status") {
        "ui://zocli/auth"
    } else if str_eq(tool_name, "zocli.account.list") || str_eq(tool_name, "zocli.account.current") {
        "ui://zocli/account"
    } else {
        "ui://zocli/dashboard"
    }
}

pub fn tool_visibility(tool_name: &str) -> (r: Vec<&'static str>)
    ensures
        strs(r@) == spec_tool_visibility(tool_name@),
{
    if str_eq(tool_name, "zocli.app.snapshot") {
        let r = vec!["app"];
        assert(strs(r@) =~= seq!["app"@]);
        r
    } else {
        let r = vec!["model", "app"];
        assert(strs(r@) =~= seq!["model"@, "app"@]);
        r
    }
}

/// `j` is the app metadata pointing at the surface with the visibility.
pub open spec fn meta_is(j: Json, uri: Seq<char>, visibility: Seq<Seq<char>>) -> bool {
    &&& j matches Json::Object(ms)
    &&& ms@.len() == 1
    &&& ms@[0].0@ == "ui"@
    &&& ms@[0].1 matches Json::Object(u)
    &&& u@.len() == 2
    &&& u@[0].0@ == "resourceUri"@ && is_text(u@[0].1, uri)
    &&& u@[1].0@ == "visibility"@ && is_text_list(u@[1].1, visibility)
}

fn text_list(items: Vec<&str>) -> (r: Json)
    ensures
        is_text_list(r, strs(items@)),
{
    let mut out: Vec<Json> = Vec::new();
    let mut i: usize = 0;
    while i < items.len()
        invariant
            i <= items@.len(),
            out@.len() == i,
            forall|j: int| 0 <= j < i ==> is_text(#[trigger] out@[j], items@[j]@),
        decreases items@.len() - i,
    {
        out.push(text_json(items[i]));
        i = i + 1;
    }
    Json::Array(out)
}

/// `{"ui": {"resourceUri": ..., "visibility": [...]}}`.
pub fn app_meta(resource_uri: &str, visibility: Vec<&str>) -> (r: Json)
    ensures
        meta_is(r, resource_uri@, strs(visibility@)),
{
    let mut u: Vec<(String, Json)> = Vec::new();
    u.push((String::from_str("resourceUri"), text_json(resource_uri)));
    u.push((String::from_str("visibility"), text_list(visibility)));
    let mut ms: Vec<(String, Json)> = Vec::new();
    ms.push((String::from_str("ui"), Json::Object(u)));
    Json::Object(ms)
}

/// `j` is the definition of tool `t`: name, description, input schema, and with the app
/// enabled the app metadata of its surface.
pub open spec fn tool_json_is(
    j: Json,
    t: (Seq<char>, Seq<char>, Seq<(Seq<char>, PropKind)>, Option<Seq<Seq<char>>>),
    ui_enabled: bool,
) -> bool {
    &&& j matches Json::Object(ms)
    &&& ms@.len() >= 3
    &&& ms@[0].0@ == "name"@ && is_text(ms@[0].1, t.0)
    &&& ms@[1].0@ == "description"@ && is_text(ms@[1].1, t.1)
    &&& ms@[2].0@ == "inputSchema"@ && schema_is(ms@[2].1, t.2, t.3)
    &&& if ui_enabled {
        ms@.len() == 4 && ms@[3].0@ == "_meta"@ && meta_is(
            ms@[3].1,
            spec_tool_surface(t.0),
            spec_tool_visibility(t.0),
        )
    } else {
        ms@.len() == 3
    }
}

fn type_member(kind: &str) -> (r: (String, Json))
    ensures
        r.0@ == "type"@ && is_text(r.1, kind@),
{
    (String::from_str("type"), text_json(kind))
}

fn text_prop(name: &str) -> (r: (String, Json))
    ensures
        r.0@ == name@ && prop_is(r.1, PropKind::Text),
{
    let mut ms: Vec<(String, Json)> = Vec::new();
    ms.push(type_member("string"));
    (String::from_str(name), Json::Object(ms))
}

fn flag_prop(name: &str) -> (r: (String, Json))
    ensures
        r.0@ == name@ && prop_is(r.1, PropKind::Flag),
{
    let mut ms: Vec<(String, Json)> = Vec::new();
    ms.push(type_member("boolean"));
    (String::from_str(name), Json::Object(ms))
}

fn count_prop(name: &str, minimum: u64) -> (r: (String, Json))
    ensures
        r.0@ == name@ && prop_is(r.1, PropKind::Count(minimum as nat)),
{
    let mut ms: Vec<(String, Json)> = Vec::new();
    ms.push(type_member("integer"));
    ms.push((String::from_str("minimum"), Json::Number(u64_to_string(minimum))));
    (String::from_str(name), Json::Object(ms))
}

fn list_prop(name: &str, description: Option<&str>) -> (r: (String, Json))
    ensures
        r.0@ == name@ && prop_is(
            r.1,
            PropKind::TextList(
                match description {
                    Some(d) => Some(d@),
                    None => None,
                },
            ),
        ),
{
    let mut items: Vec<(String, Json)> = Vec::new();
    items.push(type_member("string"));
    let mut ms: Vec<(String, Json)> = Vec::new();
    ms.push(type_member("array"));
    ms.push((String::from_str("items"), Json::Object(items)));
    match description {
        Some(d) => {
            ms.push((String::from_str("description"), text_json(d)));
        },
        None => {},
    }
    (String::from_str(name), Json::Object(ms))
}

fn strings_json(v: &Vec<String>) -> (r: Json)
    ensures
        is_text_list(r, text_views(v@)),
{
    let mut out: Vec<Json> = Vec::new();
    let mut i: usize = 0;
    while i < v.len()
        invariant
            i <= v@.len(),
            out@.len() == i,
            forall|j: int| 0 <= j < i ==> is_text(#[trigger] out@[j], v@[j]@),
        decreases v@.len() - i,
    {
        out.push(text_json(v[i].as_str()));
        i = i + 1;
    }
    Json::Array(out)
}

fn make_tool(
    name: &str,
    description: &str,
    props: Vec<(String, Json)>,
    Ghost(kinds): Ghost<Seq<(Seq<char>, PropKind)>>,
    required: Option<Vec<String>>,
    ui_enabled: bool,
) -> (r: Json)
    requires
        props@.len() == kinds.len(),
        forall|i: int|
            0 <= i < kinds.len() ==> #[trigger] props@[i].0@ == kinds[i].0 && prop_is(
                props@[i].1,
                kinds[i].1,
            ),
    ensures
        tool_json_is(
            r,
            (
                name@,
                description@,
                kinds,
                match required {
                    Some(v) => Some(text_views(v@)),
                    None => None,
                },
            ),
            ui_enabled,
        ),
{
    let mut schema: Vec<(String, Json)> = Vec::new();
    schema.push(type_member("object"));
    schema.push((String::from_str("properties"), Json::Object(props)));
    match &required {
        Some(v) => {
            schema.push((String::from_str("required"), strings_json(v)));
        },
        None => {},
    }
    schema.push((String::from_str("additionalProperties"), Json::Bool(false)));
    let mut ms: Vec<(String, Json)> = Vec::new();
    ms.push((String::from_str("name"), text_json(name)));
    ms.push((String::from_str("description"), text_json(description)));
    ms.push((String::from_str("inputSchema"), Json::Object(schema)));
    if ui_enabled {
        ms.push((String::from_str("_meta"), app_meta(tool_surface(name), tool_visibility(name))));
    }
    Json::Object(ms)
}

/// The `k`-th tool the server offers: name, description, input properties with their kinds,
/// and the required properties (None when the schema lists none).
pub open spec fn spec_tool(k: int) -> (Seq<char>, Seq<char>, Seq<(Seq<char>, PropKind)>, Option<Seq<Seq<char>>>) {
    if k == 0 {
        ("zocli.app.snapshot"@, "Return the current zocli dashboard snapshot for the hosted app."@, seq![], None)
    } else if k == 1 {
        ("zocli.roots.list"@, "Request the current MCP client filesystem roots for this session."@, seq![], None)
    } else if k == 2 {
        ("zocli.account.list"@, "List configured zocli accounts."@, seq![], None)
    } else if k == 3 {
        ("zocli.account.current"@, "Return the current zocli account."@, seq![], None)
    } else if k == 4 {
        ("zocli.auth.status"@, "Return auth status for one account or the current account."@, seq![("account"@, PropKind::Text)], None)
    } else if k == 5 {
        ("zocli.update.check"@, "Check whether a newer published zocli release is available for this target."@, seq![("version"@, PropKind::Text)], None)
    } else if k == 6 {
        ("zocli.mail.folders"@, "List folders in the configured mailbox."@, seq![("account"@, PropKind::Text)], None)
    } else if k == 7 {
        ("zocli.mail.list"@, "List messages from a folder."@, seq![("account"@, PropKind::Text), ("folder_id"@, PropKind::Text), ("unread_only"@, PropKind::Flag), ("limit"@, PropKind::Count(1))], None)
    } else if k == 8 {
        ("zocli.mail.search"@, "Search messages across the account."@, seq![("account"@, PropKind::Text), ("query"@, PropKind::Text), ("limit"@, PropKind::Count(1))], Some(seq!["query"@]))
    } else if k == 9 {
        ("zocli.mail.read"@, "Read one message by folder and message ID."@, seq![("account"@, PropKind::Text), ("folder_id"@, PropKind::Text), ("message_id"@, PropKind::Text)], Some(seq!["folder_id"@, "message_id"@]))
    } else if k == 10 {
        ("zocli.mail.send"@, "Send one mail message. Optionally attach files by providing local file paths in the attachments array."@, seq![("account"@, PropKind::Text), ("from_address"@, PropKind::Text), ("to"@, PropKind::Text), ("cc"@, PropKind::TextList(None)), ("bcc"@, PropKind::TextList(None)), ("subject"@, PropKind::Text), ("text"@, PropKind::Text), ("html"@, PropKind::Text), ("attachments"@, PropKind::TextList(Some("Local file paths to attach"@)))], Some(seq!["to"@, "subject"@]))
    } else if k == 11 {
        ("zocli.mail.reply"@, "Reply to one message by folder and message ID."@, seq![("account"@, PropKind::Text), ("folder_id"@, PropKind::Text), ("message_id"@, PropKind::Text), ("text"@, PropKind::Text), ("html"@, PropKind::Text), ("cc"@, PropKind::TextList(None))], Some(seq!["folder_id"@, "message_id"@]))
    } else if k == 12 {
        ("zocli.mail.attachment_export"@, "Export one attachment from a message as base64. Use get_attachment_info from mail.read to find attachment IDs."@, seq![("account"@, PropKind::Text), ("folder_id"@, PropKind::Text), ("message_id"@, PropKind::Text), ("attachment_id"@, PropKind::Text)], Some(seq!["folder_id"@, "message_id"@, "attachment_id"@]))
    } else if k == 13 {
        ("zocli.mail.forward"@, "Forward one message by folder and message ID."@, seq![("account"@, PropKind::Text), ("folder_id"@, PropKind::Text), ("message_id"@, PropKind::Text), ("to"@, PropKind::Text), ("text"@, PropKind::Text), ("html"@, PropKind::Text), ("cc"@, PropKind::TextList(None)), ("bcc"@, PropKind::TextList(None))], Some(seq!["folder_id"@, "message_id"@, "to"@]))
    } else if k == 14 {
        ("zocli.calendar.calendars"@, "List calendars for the selected account."@, seq![("account"@, PropKind::Text)], None)
    } else if k == 15 {
        ("zocli.calendar.events"@, "List upcoming calendar events."@, seq![("account"@, PropKind::Text), ("calendar"@, PropKind::Text), ("from"@, PropKind::Text), ("to"@, PropKind::Text), ("limit"@, PropKind::Count(1))], None)
    } else if k == 16 {
        ("zocli.calendar.create"@, "Create one calendar event."@, seq![("account"@, PropKind::Text), ("calendar"@, PropKind::Text), ("summary"@, PropKind::Text), ("start"@, PropKind::Text), ("end"@, PropKind::Text), ("description"@, PropKind::Text), ("location"@, PropKind::Text)], Some(seq!["summary"@, "start"@, "end"@]))
    } else if k == 17 {
        ("zocli.calendar.delete"@, "Delete one calendar event by UID."@, seq![("account"@, PropKind::Text), ("calendar"@, PropKind::Text), ("uid"@, PropKind::Text)], Some(seq!["uid"@]))
    } else if k == 18 {
        ("zocli.drive.teams"@, "List Zoho WorkDrive teams (workspaces)."@, seq![("account"@, PropKind::Text)], None)
    } else if k == 19 {
        ("zocli.drive.list"@, "List files in a Zoho WorkDrive folder."@, seq![("account"@, PropKind::Text), ("folder_id"@, PropKind::Text), ("limit"@, PropKind::Count(1)), ("offset"@, PropKind::Count(0))], Some(seq!["folder_id"@]))
    } else if k == 20 {
        ("zocli.drive.upload"@, "Upload one local file to a Zoho WorkDrive folder."@, seq![("account"@, PropKind::Text), ("folder_id"@, PropKind::Text), ("source"@, PropKind::Text), ("overwrite"@, PropKind::Flag)], Some(seq!["folder_id"@, "source"@]))
    } else {
        ("zocli.drive.download"@, "Download one file from Zoho WorkDrive to a local path."@, seq![("account"@, PropKind::Text), ("file_id"@, PropKind::Text), ("output_path"@, PropKind::Text), ("force"@, PropKind::Flag)], Some(seq!["file_id"@, "output_path"@]))
    }
}

/// The number of tools in the table.
pub open spec fn tool_count() -> int {
    22
}

/// The `k`-th tool as its JSON definition.
fn tool_at(k: usize, ui_enabled: bool) -> (r: Json)
    requires
        k < 22,
    ensures
        tool_json_is(r, spec_tool(k as int), ui_enabled),
{
    let mut props: Vec<(String, Json)> = Vec::new();
    match k {
        0 => {
            make_tool("zocli.app.snapshot", "Return the current zocli dashboard snapshot for the hosted app.", props, Ghost(spec_tool(0).2), None, ui_enabled)
        },
        1 => {
            make_tool("zocli.roots.list", "Request the current MCP client filesystem roots for this session.", props, Ghost(spec_tool(1).2), None, ui_enabled)
        },
        2 => {
            make_tool("zocli.account.list", "List configured zocli accounts.", props, Ghost(spec_tool(2).2), None, ui_enabled)
        },
        3 => {
            make_tool("zocli.account.current", "Return the current zocli account.", props, Ghost(spec_tool(3).2), None, ui_enabled)
        },
        4 => {
            props.push(text_prop("account"));
            make_tool("zocli.auth.status", "Return auth status for one account or the current account.", props, Ghost(spec_tool(4).2), None, ui_enabled)
        },
        5 => {
            props.push(text_prop("version"));
            make_tool("zocli.update.check", "Check whether a newer published zocli release is available for this target.", props, Ghost(spec_tool(5).2), None, ui_enabled)
        },
        6 => {
            props.push(text_prop("account"));
            make_tool("zocli.mail.folders", "List folders in the configured mailbox.", props, Ghost(spec_tool(6).2), None, ui_enabled)
        },
        7 => {
            props.push(text_prop("account"));
            props.push(text_prop("folder_id"));
            props.push(flag_prop("unread_only"));
            props.push(count_prop("limit", 1));
            make_tool("zocli.mail.list", "List messages from a folder.", props, Ghost(spec_tool(7).2), None, ui_enabled)
        },
        8 => {
            props.push(text_prop("account"));
            props.push(text_prop("query"));
            props.push(count_prop("limit", 1));
            let req = strings_of(vec!["query"]);
            assert(text_views(req@) =~= spec_tool(8).3->0);
            make_tool("zocli.mail.search", "Search messages across the account.", props, Ghost(spec_tool(8).2), Some(req), ui_enabled)
        },
        9 => {
            props.push(text_prop("account"));
            props.push(text_prop("folder_id"));
            props.push(text_prop("message_id"));
            let req = strings_of(vec!["folder_id", "message_id"]);
            assert(text_views(req@) =~= spec_tool(9).3->0);
            make_tool("zocli.mail.read", "Read one message by folder and message ID.", props, Ghost(spec_tool(9).2), Some(req), ui_enabled)
        },
        10 => {
            props.push(text_prop("account"));
            props.push(text_prop("from_address"));
            props.push(text_prop("to"));
            props.push(list_prop("cc", None));
            props.push(list_prop("bcc", None));
            props.push(text_prop("subject"));
            props.push(text_prop("text"));
            props.push(text_prop("html"));
            props.push(list_prop("attachments", Some("Local file paths to attach")));
            let req = strings_of(vec!["to", "subject"]);
            assert(text_views(req@) =~= spec_tool(10).3->0);
            make_tool("zocli.mail.send", "Send one mail message. Optionally attach files by providing local file paths in the attachments array.", props, Ghost(spec_tool(10).2), Some(req), ui_enabled)
        },
        11 => {
            props.push(text_prop("account"));
            props.push(text_prop("folder_id"));
            props.push(text_prop("message_id"));
            props.push(text_prop("text"));
            props.push(text_prop("html"));
            props.push(list_prop("cc", None));
            let req = strings_of(vec!["folder_id", "message_id"]);
            assert(text_views(req@) =~= spec_tool(11).3->0);
            make_tool("zocli.mail.reply", "Reply to one message by folder and message ID.", props, Ghost(spec_tool(11).2), Some(req), ui_enabled)
        },
        12 => {
            props.push(text_prop("account"));
            props.push(text_prop("folder_id"));
            props.push(text_prop("message_id"));
            props.push(text_prop("attachment_id"));
            let req = strings_of(vec!["folder_id", "message_id", "attachment_id"]);
            assert(text_views(req@) =~= spec_tool(12).3->0);
            make_tool("zocli.mail.attachment_export", "Export one attachment from a message as base64. Use get_attachment_info from mail.read to find attachment IDs.", props, Ghost(spec_tool(12).2), Some(req), ui_enabled)
        },
        13 => {
            props.push(text_prop("account"));
            props.push(text_prop("folder_id"));
            props.push(text_prop("message_id"));
            props.push(text_prop("to"));
            props.push(text_prop("text"));
            props.push(text_prop("html"));
            props.push(list_prop("cc", None));
            props.push(list_prop("bcc", None));
            let req = strings_of(vec!["folder_id", "message_id", "to"]);
            assert(text_views(req@) =~= spec_tool(13).3->0);
            make_tool("zocli.mail.forward", "Forward one message by folder and message ID.", props, Ghost(spec_tool(13).2), Some(req), ui_enabled)
        },
        14 => {
            props.push(text_prop("account"));
            make_tool("zocli.calendar.calendars", "List calendars for the selected account.", props, Ghost(spec_tool(14).2), None, ui_enabled)
        },
        15 => {
            props.push(text_prop("account"));
            props.push(text_prop("calendar"));
            props.push(text_prop("from"));
            props.push(text_prop("to"));
            props.push(count_prop("limit", 1));
            make_tool("zocli.calendar.events", "List upcoming calendar events.", props, Ghost(spec_tool(15).2), None, ui_enabled)
        },
        16 => {
            props.push(text_prop("account"));
            props.push(text_prop("calendar"));
            props.push(text_prop("summary"));
            props.push(text_prop("start"));
            props.push(text_prop("end"));
            props.push(text_prop("description"));
            props.push(text_prop("location"));
            let req = strings_of(vec!["summary", "start", "end"]);
            assert(text_views(req@) =~= spec_tool(16).3->0);
            make_tool("zocli.calendar.create", "Create one calendar event.", props, Ghost(spec_tool(16).2), Some(req), ui_enabled)
        },
        17 => {
            props.push(text_prop("account"));
            props.push(text_prop("calendar"));
            props.push(text_prop("uid"));
            let req = strings_of(vec!["uid"]);
            assert(text_views(req@) =~= spec_tool(17).3->0);
            make_tool("zocli.calendar.delete", "Delete one calendar event by UID.", props, Ghost(spec_tool(17).2), Some(req), ui_enabled)
        },
        18 => {
            props.push(text_prop("account"));
            make_tool("zocli.drive.teams", "List Zoho WorkDrive teams (workspaces).", props, Ghost(spec_tool(18).2), None, ui_enabled)
        },
        19 => {
            props.push(text_prop("account"));
            props.push(text_prop("folder_id"));
            props.push(count_prop("limit", 1));
            props.push(count_prop("offset", 0));
            let req = strings_of(vec!["folder_id"]);
            assert(text_views(req@) =~= spec_tool(19).3->0);
            make_tool("zocli.drive.list", "List files in a Zoho WorkDrive folder.", props, Ghost(spec_tool(19).2), Some(req), ui_enabled)
        },
        20 => {
            props.push(text_prop("account"));
            props.push(text_prop("folder_id"));
            props.push(text_prop("source"));
            props.push(flag_prop("overwrite"));
            let req = strings_of(vec!["folder_id", "source"]);
            assert(text_views(req@) =~= spec_tool(20).3->0);
            make_tool("zocli.drive.upload", "Upload one local file to a Zoho WorkDrive folder.", props, Ghost(spec_tool(20).2), Some(req), ui_enabled)
        },
        _ => {
            props.push(text_prop("account"));
            props.push(text_prop("file_id"));
            props.push(text_prop("output_path"));
            props.push(flag_prop("force"));
            let req = strings_of(vec!["file_id", "output_path"]);
            assert(text_views(req@) =~= spec_tool(21).3->0);
            make_tool("zocli.drive.download", "Download one file from Zoho WorkDrive to a local path.", props, Ghost(spec_tool(21).2), Some(req), ui_enabled)
        },
    }
}


/// The tools listed for a session: the dashboard snapshot when the app is enabled, the roots
/// listing when the client can be asked for roots, then every other tool, in table order.
pub open spec fn listed_tools(ui_enabled: bool, roots_enabled: bool) -> Seq<int> {
    (if ui_enabled {
        seq![0int]
    } else {
        Seq::empty()
    }) + (if roots_enabled {
        seq![1int]
    } else {
        Seq::empty()
    }) + Seq::new((tool_count() - 2) as nat, |i: int| i + 2)
}

pub fn tool_definitions(ui_enabled: bool, roots_enabled: bool) -> (r: Vec<Json>)
    ensures
        r@.len() == listed_tools(ui_enabled, roots_enabled).len(),
        forall|i: int|
            0 <= i < r@.len() ==> tool_json_is(
                #[trigger] r@[i],
                spec_tool(listed_tools(ui_enabled, roots_enabled)[i]),
                ui_enabled,
            ),
{
    let ghost order = listed_tools(ui_enabled, roots_enabled);
    let mut tools: Vec<Json> = Vec::new();
    let ghost head: Seq<int> = Seq::empty();
    if ui_enabled {
        tools.push(tool_at(0, ui_enabled));
        proof {
            head = head.push(0);
        }
    }
    if roots_enabled {
        tools.push(tool_at(1, ui_enabled));
        proof {
            head = head.push(1);
        }
    }
    assert(head =~= (if ui_enabled {
        seq![0int]
    } else {
        Seq::<int>::empty()
    }) + (if roots_enabled {
        seq![1int]
    } else {
        Seq::<int>::empty()
    }));
    let mut k: usize = 2;
    while k < 22
        invariant
            2 <= k <= 22,
            tool_count() == 22,
            tools@.len() == head.len() + (k - 2),
            forall|i: int|
                0 <= i < tools@.len() ==> tool_json_is(
                    #[trigger] tools@[i],
                    spec_tool((head + Seq::new((k - 2) as nat, |j: int| j + 2))[i]),
                    ui_enabled,
                ),
        decreases 22 - k,
    {
        let ghost before = head + Seq::new((k - 2) as nat, |j: int| j + 2);
        tools.push(tool_at(k, ui_enabled));
        let ghost after = head + Seq::new((k + 1 - 2) as nat, |j: int| j + 2);
        assert(after =~= before.push(k as int));
        k = k + 1;
    }
    assert(order =~= head + Seq::new(20, |j: int| j + 2));
    tools
}

/// The scope a tool call needs under HTTP authentication, if any.
pub open spec fn spec_tool_scope(name: Seq<char>) -> Option<Seq<char>> {
    if name == "zocli.auth.status"@ {
        Some("zocli.auth.read"@)
    } else if name == "zocli.mail.folders"@ || name == "zocli.mail.list"@ || name
        == "zocli.mail.search"@ || name == "zocli.mail.read"@ || name
        == "zocli.mail.attachment_export"@ {
        Some("zocli.mail.read"@)
    } else if name == "zocli.mail.send"@ || name == "zocli.mail.reply"@ || name
        == "zocli.mail.forward"@ {
        Some("zocli.mail.write"@)
    } else if name == "zocli.calendar.calendars"@ || name == "zocli.calendar.events"@ {
        Some("zocli.calendar.read"@)
    } else if name == "zocli.calendar.create"@ || name == "zocli.calendar.delete"@ {
        Some("zocli.calendar.write"@)
    } else if name == "zocli.drive.teams"@ || name == "zocli.drive.list"@ || name
        == "zocli.drive.download"@ {
        Some("zocli.drive.read"@)
    } else if name == "zocli.drive.upload"@ {
        Some("zocli.drive.write"@)
    } else {
        None
    }
}

pub fn tool_scope(tool_name: &str) -> (r: Option<&'static str>)
    ensures
        match r {
            Some(s) => spec_tool_scope(tool_name@) == Some(s@),
            None => spec_tool_scope(tool_name@) is None,
        },
{
    let n = tool_name;
    if str_eq(n, "zocli.auth.status") {
        Some("zocli.auth.read")
    } else if str_eq(n, "zocli.mail.folders") || str_eq(n, "zocli.mail.list") || str_eq(
        n,
        "zocli.mail.search",
    ) || str_eq(n, "zocli.mail.read") || str_eq(n, "zocli.mail.attachment_export") {
        Some("zocli.mail.read")
    } else if str_eq(n, "zocli.mail.send") || str_eq(n, "zocli.mail.reply") || str_eq(
        n,
        "zocli.mail.forward",
    ) {
        Some("zocli.mail.write")
    } else if str_eq(n, "zocli.calendar.calendars") || str_eq(n, "zocli.calendar.events") {
        Some("zocli.calendar.read")
    } else if str_eq(n, "zocli.calendar.create") || str_eq(n, "zocli.calendar.delete") {
        Some("zocli.calendar.write")
    } else if str_eq(n, "zocli.drive.teams") || str_eq(n, "zocli.drive.list") || str_eq(
        n,
        "zocli.drive.download",
    ) {
        Some("zocli.drive.read")
    } else if str_eq(n, "zocli.drive.upload") {
        Some("zocli.drive.write")
    } else {
        None
    }
}

/// Tools that reach a user's Zoho data need the HTTP caller to be authenticated.
pub open spec fn spec_requires_http_auth(name: Seq<char>) -> bool {
    name == "zocli.auth.status"@ || has_prefix(name, "zocli.mail."@) || has_prefix(
        name,
        "zocli.calendar."@,
    ) || has_prefix(name, "zocli.drive."@)
}

pub fn tool_requires_http_auth(tool_name: &str) -> (r: bool)
    ensures
        r == spec_requires_http_auth(tool_name@),
{
    str_eq(tool_name, "zocli.auth.status") || starts_with(tool_name, "zocli.mail.") || starts_with(
        tool_name,
        "zocli.calendar.",
    ) || starts_with(tool_name, "zocli.drive.")
}

/// The tool a JSON-RPC message calls: its `params.name` when its method is `tools/call`.
pub open spec fn called_tool(message: Json) -> Option<Seq<char>> {
    match member(message, "method"@) {
        Some(Json::Str(m)) => if m@ == "tools/call"@ {
            match member(message, "params"@) {
                Some(p) => match member(p, "name"@) {
                    Some(Json::Str(n)) => Some(n@),
                    _ => None,
                },
                None => None,
            }
        } else {
            None
        },
        _ => None,
    }
}

fn called_tool_name(message: &Json) -> (r: Option<&str>)
    ensures
        match r {
            Some(n) => called_tool(*message) == Some(n@),
            None => called_tool(*message) is None,
        },
{
    match crate::json::get(message, "method") {
        Some(Json::Str(m)) => {
            if !str_eq(m.as_str(), "tools/call") {
                return None;
            }
            match crate::json::get(message, "params") {
                Some(p) => match crate::json::get(p, "name") {
                    Some(Json::Str(n)) => Some(n.as_str()),
                    _ => None,
                },
                None => None,
            }
        },
        _ => None,
    }
}

/// Whether a message calls a tool that needs HTTP authentication.
pub fn message_requires_http_auth(message: &Json) -> (r: bool)
    ensures
        r == (called_tool(*message) matches Some(n) && spec_requires_http_auth(n)),
{
    match called_tool_name(message) {
        Some(n) => tool_requires_http_auth(n),
        None => false,
    }
}

/// Whether any message of a batch needs HTTP authentication.
pub fn needs_http_auth(messages: &Vec<Json>) -> (r: bool)
    ensures
        r == exists|i: int|
            0 <= i < messages@.len() && (called_tool(#[trigger] messages@[i]) matches Some(n)
                && spec_requires_http_auth(n)),
{
    let mut i: usize = 0;
    while i < messages.len()
        invariant
            i <= messages@.len(),
            forall|j: int|
                0 <= j < i ==> !(called_tool(#[trigger] messages@[j]) matches Some(n)
                    && spec_requires_http_auth(n)),
        decreases messages@.len() - i,
    {
        if message_requires_http_auth(&messages[i]) {
            return true;
        }
        i = i + 1;
    }
    false
}

} // verus!
