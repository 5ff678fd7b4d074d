//! Zoho Mail: response checks, request parameters, and forwarding a message.
use vstd::prelude::*;
use vstd::string::*;
use crate::error::ZocliError;
use crate::text::{
    cat,
    cat3,
    decimal,
    from_char_range,
    has_prefix,
    i64_to_string,
    str_eq,
    to_chars,
    trim_seq,
    u64_to_string,
    is_all_whitespace,
    all_ws,
};

verus! {

broadcast use vstd::string::group_string_axioms;

#[derive(Debug)]
pub struct MailFolder {
    pub folder_id: String,
    pub folder_name: String,
    pub message_count: u64,
    pub unread_count: u64,
}

#[derive(Debug)]
pub struct MailMessageSummary {
    pub message_id: String,
    pub folder_id: String,
    pub sender: String,
    pub to_address: String,
    pub subject: String,
    pub received_time: String,
    pub is_read: bool,
    pub has_attachment: bool,
    pub summary: String,
}

#[derive(Debug)]
pub struct MailMessage {
    pub message_id: String,
    pub folder_id: String,
    pub sender: String,
    pub to_address: String,
    pub subject: String,
    pub received_time: String,
    pub content: String,
}

#[derive(Debug)]
pub struct SentMail {
    pub message_id: String,
}

#[derive(Debug)]
pub struct RepliedMail {
    pub message_id: String,
}

#[derive(Debug)]
pub struct ForwardedMail {
    pub message_id: String,
}

/// Attachment metadata of a message.
#[derive(Debug)]
pub struct AttachmentInfo {
    pub attachment_id: String,
    pub attachment_name: String,
    pub attachment_size: u64,
}

/// An uploaded attachment, as a send request refers to it.
#[derive(Debug)]
pub struct UploadedAttachment {
    pub store_name: String,
    pub attachment_path: String,
    pub attachment_name: String,
}

#[derive(Debug)]
pub struct MailSendRequest {
    pub from_address: String,
    pub to_address: String,
    pub cc_address: String,
    pub bcc_address: String,
    pub subject: String,
    pub content: String,
    pub mail_format: String,
    pub attachments: Vec<UploadedAttachment>,
}

#[derive(Debug)]
pub struct MailReplyRequest {
    pub message_id: String,
    pub content: String,
    pub cc_address: String,
    pub mail_format: String,
    pub from_address: Option<String>,
}

#[derive(Debug)]
pub struct MailForwardRequest {
    pub message_id: String,
    pub folder_id: String,
    pub from_address: String,
    pub to_address: String,
    pub content: String,
    pub cc_address: String,
    pub bcc_address: String,
}

/// The account that mail discovery found.
#[derive(Debug)]
pub struct DiscoveredAccount {
    pub account_id: String,
    pub zuid: Option<String>,
}

/// The status object of a Zoho API response.
#[derive(Debug)]
pub struct ZohoStatus {
    pub code: i64,
    pub description: String,
}

/// The `Authorization` header value for an access token.
pub fn auth_header(access_token: &str) -> (r: String)
    ensures
        r@ == "Zoho-oauthtoken "@ + access_token@,
{
    cat("Zoho-oauthtoken ", access_token)
}

/// The decimal text of a signed number, as `i64::to_string` writes it.
pub open spec fn signed_decimal(n: i64) -> Seq<char> {
    if n < 0 {
        seq!['-'] + decimal((-(n as int)) as nat)
    } else {
        decimal(n as nat)
    }
}

/// Fails when a Zoho status carries an error code: 200 and 0 mean success.
pub fn check_zoho_error(status: &Option<ZohoStatus>, context: &str) -> (r: Result<(), ZocliError>)
    ensures
        match status {
            Some(s) => if s.code != 200 && s.code != 0 {
                r matches Err(ZocliError::Api(m)) && m@ == context@ + ": Zoho error "@
                    + signed_decimal(s.code) + ": "@ + s.description@
            } else {
                r is Ok
            },
            None => r is Ok,
        },
{
    if let Some(s) = status {
        if s.code != 200 && s.code != 0 {
            let mut m = cat(context, ": Zoho error ");
            let c = i64_to_string(s.code);
            m.append(c.as_str());
            m.append(": ");
            m.append(s.description.as_str());
            return Err(ZocliError::Api(m));
        }
    }
    Ok(())
}

/// The list a checked Zoho response carries, empty when it carries none.
pub fn zoho_list<T>(status: &Option<ZohoStatus>, data: Option<Vec<T>>, context: &str) -> (r: Result<
    Vec<T>,
    ZocliError,
>)
    ensures
        match status {
            Some(s) if s.code != 200 && s.code != 0 => r matches Err(ZocliError::Api(m)) && m@
                == context@ + ": Zoho error "@ + signed_decimal(s.code) + ": "@ + s.description@,
            _ => r matches Ok(v) && v@ == match data {
                Some(d) => d@,
                None => Seq::empty(),
            },
        },
{
    check_zoho_error(status, context)?;
    match data {
        Some(d) => Ok(d),
        None => Ok(Vec::new()),
    }
}

/// The data a checked Zoho response must carry.
pub fn zoho_required<T>(status: &Option<ZohoStatus>, data: Option<T>, context: &str) -> (r: Result<
    T,
    ZocliError,
>)
    ensures
        match status {
            Some(s) if s.code != 200 && s.code != 0 => r matches Err(ZocliError::Api(m)) && m@
                == context@ + ": Zoho error "@ + signed_decimal(s.code) + ": "@ + s.description@,
            _ => match data {
                Some(d) => r == Ok::<T, ZocliError>(d),
                None => r matches Err(ZocliError::Api(m)) && m@ == context@
                    + ": response contained no data"@,
            },
        },
{
    check_zoho_error(status, context)?;
    match data {
        Some(d) => Ok(d),
        None => Err(ZocliError::Api(cat(context, ": response contained no data"))),
    }
}

/// The body of an HTTP response, or an API error when its status is not a success.
/// `status_text` is the status as the HTTP client displays it.
pub fn checked_response_text(success: bool, status_text: &str, body: String, context: &str) -> (r:
    Result<String, ZocliError>)
    ensures
        success ==> r == Ok::<String, ZocliError>(body),
        !success ==> (r matches Err(ZocliError::Api(m)) && m@ == context@ + ": HTTP "@
            + status_text@ + " \u{2014} "@ + body@),
{
    if !success {
        let mut m = cat3(context, ": HTTP ", status_text);
        m.append(" \u{2014} ");
        m.append(body.as_str());
        return Err(ZocliError::Api(m));
    }
    Ok(body)
}

/// The first account of a Zoho Mail account listing, with its ZUID in decimal.
pub fn discover_mail_account(accounts: Vec<(String, Option<u64>)>) -> (r: Result<
    DiscoveredAccount,
    ZocliError,
>)
    ensures
        accounts@.len() == 0 ==> (r matches Err(ZocliError::Api(m)) && m@
            == "no Zoho Mail accounts found"@),
        accounts@.len() > 0 ==> (r matches Ok(a) && a.account_id == accounts@[0].0 && match accounts@[0].1 {
            Some(z) => a.zuid matches Some(t) && t@ == decimal(z as nat),
            None => a.zuid is None,
        }),
{
    if accounts.len() == 0 {
        return Err(ZocliError::Api(String::from_str("no Zoho Mail accounts found")));
    }
    let mut accounts = accounts;
    let (account_id, zuid) = accounts.remove(0);
    let zuid = match zuid {
        Some(z) => Some(u64_to_string(z)),
        None => None,
    };
    Ok(DiscoveredAccount { account_id, zuid })
}

/// The query of a message listing: limit, start 0, the folder when given, and the unread
/// filter when asked.
pub fn message_list_query(folder_id: Option<&str>, unread_only: bool, limit: usize) -> (r: Vec<
    (&'static str, String),
>)
    ensures
        r@.len() == 2 + (if folder_id is Some { 1int } else { 0int }) + (if unread_only { 1int } else { 0int }),
        r@[0].0@ == "limit"@ && r@[0].1@ == decimal(limit as nat),
        r@[1].0@ == "start"@ && r@[1].1@ == "0"@,
        folder_id matches Some(f) ==> r@[2].0@ == "folderId"@ && r@[2].1@ == f@,
        unread_only ==> r@[r@.len() - 1].0@ == "status"@ && r@[r@.len() - 1].1@ == "unread"@,
{
    let mut q: Vec<(&'static str, String)> = Vec::new();
    q.push(("limit", u64_to_string(limit as u64)));
    q.push(("start", String::from_str("0")));
    if let Some(f) = folder_id {
        q.push(("folderId", f.to_owned()));
    }
    if unread_only {
        q.push(("status", String::from_str("unread")));
    }
    q
}

/// The query of a message search; a blank query is rejected.
pub fn search_query(query: &str, limit: usize) -> (r: Result<Vec<(&'static str, String)>, ZocliError>)
    ensures
        all_ws(query@) ==> (r matches Err(ZocliError::Validation(m)) && m@
            == "search query must not be empty"@),
        !all_ws(query@) ==> (r matches Ok(q) && q@.len() == 3 && q@[0].0@ == "searchKey"@ && q@[0].1@
            == query@ && q@[1].0@ == "limit"@ && q@[1].1@ == decimal(limit as nat) && q@[2].0@
            == "start"@ && q@[2].1@ == "0"@),
{
    if is_all_whitespace(query) {
        return Err(ZocliError::Validation(String::from_str("search query must not be empty")));
    }
    let mut q: Vec<(&'static str, String)> = Vec::new();
    q.push(("searchKey", query.to_owned()));
    q.push(("limit", u64_to_string(limit as u64)));
    q.push(("start", String::from_str("0")));
    Ok(q)
}

/// A full message: the summary's fields with the fetched content.
pub fn read_mail_message(summary: MailMessageSummary, content: String) -> (r: MailMessage)
    ensures
        r.message_id == summary.message_id,
        r.folder_id == summary.folder_id,
        r.sender == summary.sender,
        r.to_address == summary.to_address,
        r.subject == summary.subject,
        r.received_time == summary.received_time,
        r.content == content,
{
    MailMessage {
        message_id: summary.message_id,
        folder_id: summary.folder_id,
        sender: summary.sender,
        to_address: summary.to_address,
        subject: summary.subject,
        received_time: summary.received_time,
        content,
    }
}

/// A boolean Zoho sent as text: anything but `"0"`, `""` and `"false"` is true.
pub fn bool_from_zoho_text(s: &str) -> (r: bool)
    ensures
        r == (s@ != "0"@ && s@.len() != 0 && s@ != "false"@),
{
    !str_eq(s, "0") && !s.is_empty() && !str_eq(s, "false")
}

/// The text after the last `.` of a file name (the whole name when it has none).
pub open spec fn last_segment(name: Seq<char>) -> Seq<char>
    decreases name.len(),
{
    if name.len() == 0 {
        name
    } else if name.last() == '.' {
        Seq::empty()
    } else {
        last_segment(name.drop_last()).push(name.last())
    }
}

/// `str::to_lowercase`: the Unicode lower-case mapping of a text.
pub uninterp spec fn lowercase(s: Seq<char>) -> Seq<char>;

/// `str::to_lowercase`.
#[verifier::external_body]
fn to_lowercase(s: &str) -> (r: String)
    ensures
        r@ == lowercase(s@),
{
    s.to_lowercase()
}

fn last_segment_of(name: &str) -> (r: String)
    ensures
        r@ == last_segment(name@),
{
    let v = to_chars(name);
    let mut i: usize = v.len();
    proof {
        assert(name@.take(name@.len() as int) =~= name@);
        assert(name@.skip(name@.len() as int) =~= Seq::<char>::empty());
        assert(last_segment(name@) + Seq::<char>::empty() =~= last_segment(name@));
    }
    while i > 0 && v[i - 1] != '.'
        invariant
            v@ == name@,
            i <= v@.len(),
            last_segment(name@) == last_segment(name@.take(i as int)) + name@.skip(i as int),
        decreases i,
    {
        proof {
            let t = name@.take(i as int);
            assert(t.drop_last() =~= name@.take(i - 1));
            assert(last_segment(t) == last_segment(name@.take(i - 1)).push(v@[i - 1]));
            assert(last_segment(name@.take(i - 1)).push(v@[i - 1]) + name@.skip(i as int)
                =~= last_segment(name@.take(i - 1)) + name@.skip(i - 1));
        }
        i = i - 1;
    }
    proof {
        if i > 0 {
            assert(name@.take(i as int).last() == '.');
        }
        assert(last_segment(name@.take(i as int)) =~= Seq::<char>::empty());
        assert(Seq::<char>::empty() + name@.skip(i as int) =~= name@.subrange(
            i as int,
            name@.len() as int,
        ));
    }
    from_char_range(&v, i, v.len())
}

/// The MIME type of an attachment by its file extension (compared in lower case).
pub open spec fn spec_mime(ext: Seq<char>) -> Seq<char> {
    if ext == "pdf"@ {
        "application/pdf"@
    } else if ext == "jpg"@ || ext == "jpeg"@ {
        "image/jpeg"@
    } else if ext == "png"@ {
        "image/png"@
    } else if ext == "gif"@ {
        "image/gif"@
    } else if ext == "doc"@ {
        "application/msword"@
    } else if ext == "docx"@ {
        "application/vnd.openxmlformats-officedocument.wordprocessingml.document"@
    } else if ext == "xls"@ {
        "application/vnd.ms-excel"@
    } else if ext == "xlsx"@ {
        "application/vnd.openxmlformats-officedocument.spreadsheetml.sheet"@
    } else if ext == "csv"@ {
        "text/csv"@
    } else if ext == "txt"@ {
        "text/plain"@
    } else if ext == "html"@ || ext == "htm"@ {
        "text/html"@
    } else if ext == "zip"@ {
        "application/zip"@
    } else if ext == "gz"@ || ext == "gzip"@ {
        "application/gzip"@
    } else {
        "application/octet-stream"@
    }
}

pub fn mime_from_filename(name: &str) -> (r: String)
    ensures
        r@ == spec_mime(lowercase(last_segment(name@))),
{
    let seg = last_segment_of(name);
    let ext = to_lowercase(seg.as_str());
    let e = ext.as_str();
    let m = if str_eq(e, "pdf") {
        "application/pdf"
    } else if str_eq(e, "jpg") || str_eq(e, "jpeg") {
        "image/jpeg"
    } else if str_eq(e, "png") {
        "image/png"
    } else if str_eq(e, "gif") {
        "image/gif"
    } else if str_eq(e, "doc") {
        "application/msword"
    } else if str_eq(e, "docx") {
        "application/vnd.openxmlformats-officedocument.wordprocessingml.document"
    } else if str_eq(e, "xls") {
        "application/vnd.ms-excel"
    } else if str_eq(e, "xlsx") {
        "application/vnd.openxmlformats-officedocument.spreadsheetml.sheet"
    } else if str_eq(e, "csv") {
        "text/csv"
    } else if str_eq(e, "txt") {
        "text/plain"
    } else if str_eq(e, "html") || str_eq(e, "htm") {
        "text/html"
    } else if str_eq(e, "zip") {
        "application/zip"
    } else if str_eq(e, "gz") || str_eq(e, "gzip") {
        "application/gzip"
    } else {
        "application/octet-stream"
    };
    String::from_str(m)
}

/// The body of a forwarded message: the user's note (when given) and a header block quoting
/// the original, followed by the original content.
pub open spec fn spec_forward_content(note: Seq<char>, original: MailMessage) -> Seq<char> {
    (if note.len() == 0 {
        Seq::empty()
    } else {
        "<p>"@ + note + "</p><br/>"@
    }) + "<p>---------- Forwarded message ----------</p><p><b>From:</b> "@ + original.sender@
        + "</p><p><b>Date:</b> "@ + original.received_time@ + "</p><p><b>Subject:</b> "@
        + original.subject@ + "</p><p><b>To:</b> "@ + original.to_address@ + "</p><br/>"@
        + original.content@
}

/// The subject of a forward: the original's when it already starts with `fwd:` in any case,
/// else `Fwd: ` before it.
pub open spec fn spec_forward_subject(subject: Seq<char>) -> Seq<char> {
    if has_prefix(lowercase(subject), "fwd:"@) {
        subject
    } else {
        "Fwd: "@ + subject
    }
}

/// The message a forward sends: to the requested recipients, in HTML, carrying the original's
/// re-uploaded attachments.
pub fn forward_mail_message(
    req: MailForwardRequest,
    original: &MailMessage,
    uploaded: Vec<UploadedAttachment>,
) -> (r: MailSendRequest)
    ensures
        r.from_address == req.from_address,
        r.to_address == req.to_address,
        r.cc_address == req.cc_address,
        r.bcc_address == req.bcc_address,
        r.subject@ == spec_forward_subject(original.subject@),
        r.content@ == spec_forward_content(req.content@, *original),
        r.mail_format@ == "html"@,
        r.attachments == uploaded,
{
    let mut content = String::new();
    if !req.content.as_str().is_empty() {
        content.append("<p>");
        content.append(req.content.as_str());
        content.append("</p><br/>");
    }
    content.append("<p>---------- Forwarded message ----------</p><p><b>From:</b> ");
    content.append(original.sender.as_str());
    content.append("</p><p><b>Date:</b> ");
    content.append(original.received_time.as_str());
    content.append("</p><p><b>Subject:</b> ");
    content.append(original.subject.as_str());
    content.append("</p><p><b>To:</b> ");
    content.append(original.to_address.as_str());
    content.append("</p><br/>");
    content.append(original.content.as_str());
    let lower = to_lowercase(original.subject.as_str());
    let subject = if crate::text::starts_with(lower.as_str(), "fwd:") {
        original.subject.clone()
    } else {
        cat("Fwd: ", original.subject.as_str())
    };
    MailSendRequest {
        from_address: req.from_address,
        to_address: req.to_address,
        cc_address: req.cc_address,
        bcc_address: req.bcc_address,
        subject,
        content,
        mail_format: String::from_str("html"),
        attachments: uploaded,
    }
}

/// The attachment an upload response describes: its first item.
pub fn first_uploaded(items: Vec<UploadedAttachment>) -> (r: Result<UploadedAttachment, ZocliError>)
    ensures
        items@.len() == 0 ==> (r matches Err(ZocliError::Api(m)) && m@
            == "upload_attachment: response contained empty array"@),
        items@.len() > 0 ==> r == Ok::<UploadedAttachment, ZocliError>(items@[0]),
{
    if items.len() == 0 {
        return Err(
            ZocliError::Api(String::from_str("upload_attachment: response contained empty array")),
        );
    }
    let mut items = items;
    Ok(items.remove(0))
}


/// The sender of a mail the send tool writes: the address asked for, or the account's own
/// address when none was given.
pub fn send_from_address(requested: String, account_email: &str) -> (r: String)
    ensures
        requested@.len() == 0 ==> r@ == account_email@,
        requested@.len() > 0 ==> r@ == requested@,
{
    if requested.as_str().is_empty() {
        String::from_str(account_email)
    } else {
        requested
    }
}

/// What the send tool mails and in which format: the HTML as `html` when given, else the
/// text (or nothing) as `plaintext`.
pub fn tool_mail_content(html: Option<String>, text: Option<String>) -> (r: (String, &'static str))
    ensures
        html matches Some(h) ==> r.0@ == h@ && r.1@ == "html"@,
        html is None ==> r.1@ == "plaintext"@ && r.0@ == (match text {
            Some(t) => t@,
            None => Seq::<char>::empty(),
        }),
{
    match html {
        Some(h) => (h, "html"),
        None => match text {
            Some(t) => (t, "plaintext"),
            None => (String::new(), "plaintext"),
        },
    }
}

} // verus!
