//! Zoho WorkDrive: endpoints, request checks, listings and API errors.
use vstd::prelude::*;
use vstd::string::*;
use crate::error::ZocliError;
use crate::json::{Json, as_str, get, get_result, json_parse, parse_json, first_member};
use crate::text::{
    all_ws,
    cat,
    cat3,
    decimal,
    ends_with,
    from_char_range,
    has_prefix,
    has_suffix,
    is_all_whitespace,
    starts_with,
    to_chars,
    u64_to_string,
};
use crate::urls::{join_url, joined_url, UrlJoinError};

verus! {

broadcast use vstd::string::group_string_axioms;

#[derive(Debug)]
pub struct DriveTeam {
    pub id: String,
    pub name: String,
    pub storage_limit: u64,
    pub storage_used: u64,
}

#[derive(Debug)]
pub struct DriveFile {
    pub id: String,
    pub name: String,
    pub file_type: String,
    pub size: u64,
    pub modified_time: String,
    pub created_time: String,
}

#[derive(Debug)]
pub struct UploadedFile {
    pub id: String,
    pub name: String,
}

/// A downloaded file: where it was written and how many bytes.
#[derive(Debug)]
pub struct DownloadedFile {
    pub path: String,
    pub size: u64,
}

/// A team entry of a WorkDrive listing.
#[derive(Debug)]
pub struct RawTeam {
    pub id: String,
    pub name: String,
    pub storage_limit: Option<u64>,
    pub storage_used: Option<u64>,
}

/// A file entry of a WorkDrive listing.
#[derive(Debug)]
pub struct RawFile {
    pub id: String,
    pub name: String,
    pub file_type: Option<String>,
    pub size: Option<u64>,
    pub modified_time: Option<String>,
    pub created_time: Option<String>,
}

/// The base URL with a trailing `/`.
pub open spec fn with_slash(base: Seq<char>) -> Seq<char> {
    if has_suffix(base, "/"@) {
        base
    } else {
        base + "/"@
    }
}

/// The path without one leading `/`.
pub open spec fn relative(path: Seq<char>) -> Seq<char> {
    if has_prefix(path, "/"@) {
        path.subrange(1, path.len() as int)
    } else {
        path
    }
}

/// The WorkDrive endpoint `path` under `base_url`: the path is resolved relative to the base
/// taken as a directory.
pub fn build_url(base_url: &str, path: &str) -> (r: Result<String, ZocliError>)
    ensures
        match joined_url(with_slash(base_url@), relative(path@)) {
            Some(u) => r matches Ok(s) && s@ == u,
            None => r matches Err(e) && e is Config,
        },
{
    let base = if ends_with(base_url, "/") {
        base_url.to_owned()
    } else {
        cat(base_url, "/")
    };
    proof {
        reveal_strlit("/");
    }
    let pv = to_chars(path);
    let rel = if starts_with(path, "/") {
        from_char_range(&pv, 1, pv.len())
    } else {
        path.to_owned()
    };
    match join_url(base.as_str(), rel.as_str()) {
        Ok(u) => Ok(u),
        Err(UrlJoinError::BadBase(m)) => Err(
            ZocliError::Config(cat("invalid WorkDrive base URL: ", m.as_str())),
        ),
        Err(UrlJoinError::BadJoin(m)) => Err(
            ZocliError::Config(cat("invalid WorkDrive endpoint: ", m.as_str())),
        ),
    }
}

/// The first key of `title`, `message`, `detail` that an error entry has, when its value is
/// a string.
pub open spec fn entry_text(e: Json) -> Option<Seq<char>> {
    let key = if has_member(e, "title"@) {
        "title"@
    } else if has_member(e, "message"@) {
        "message"@
    } else {
        "detail"@
    };
    match member(e, key) {
        Some(Json::Str(s)) => Some(s@),
        _ => None,
    }
}

pub open spec fn has_member(v: Json, key: Seq<char>) -> bool {
    match v {
        Json::Object(m) => exists|i: int| 0 <= i < m@.len() && #[trigger] m@[i].0@ == key,
        _ => false,
    }
}

/// The value of the first member `key` of an object.
pub open spec fn member(v: Json, key: Seq<char>) -> Option<Json> {
    match v {
        Json::Object(m) => if has_member(v, key) {
            Some(m@[choose|i: int| #[trigger] first_member(m@, key, i)].1)
        } else {
            None
        },
        _ => None,
    }
}

/// The texts of the error entries, joined by `; `.
pub open spec fn joined_texts(entries: Seq<Json>) -> Seq<char>
    decreases entries.len(),
{
    if entries.len() == 0 {
        Seq::empty()
    } else {
        let prev = joined_texts(entries.drop_last());
        match entry_text(entries.last()) {
            Some(t) => if texts_count(entries.drop_last()) == 0 {
                t
            } else {
                prev + "; "@ + t
            },
            None => prev,
        }
    }
}

/// How many error entries carry a text.
pub open spec fn texts_count(entries: Seq<Json>) -> nat
    decreases entries.len(),
{
    if entries.len() == 0 {
        0
    } else {
        texts_count(entries.drop_last()) + if entry_text(entries.last()) is Some {
            1nat
        } else {
            0nat
        }
    }
}

/// The first `n` characters of a text (all of it when shorter).
pub open spec fn first_n(body: Seq<char>, n: int) -> Seq<char> {
    if body.len() <= n {
        body
    } else {
        body.take(n)
    }
}

proof fn lemma_no_texts_empty(entries: Seq<Json>)
    requires
        texts_count(entries) == 0,
    ensures
        joined_texts(entries).len() == 0,
    decreases entries.len(),
{
    if entries.len() > 0 {
        lemma_no_texts_empty(entries.drop_last());
    }
}

/// The detail an API error reports from a response body: the texts of an `errors` array,
/// else the message of an `error` object, else the first 500 characters of the body.
pub open spec fn api_error_detail(body: Seq<char>) -> Seq<char> {
    match json_parse(body) {
        Some(v) => match member(v, "errors"@) {
            Some(Json::Array(items)) => joined_texts(items@),
            _ => match member(v, "error"@) {
                Some(e) => match member(e, "message"@) {
                    Some(Json::Str(m)) => m@,
                    _ => first_n(body, 500),
                },
                None => first_n(body, 500),
            },
        },
        None => first_n(body, 500),
    }
}

proof fn lemma_member_is(v: Json, key: Seq<char>, r: Option<&Json>)
    requires
        get_result(v, key, r),
    ensures
        match r {
            Some(x) => member(v, key) == Some(*x),
            None => member(v, key) is None,
        },
{
    match v {
        Json::Object(m) => {
            match r {
                Some(x) => {
                    let i = choose|i: int| #[trigger] first_member(m@, key, i) && *x == m@[i].1;
                    assert(has_member(v, key));
                    let k = choose|k: int| #[trigger] first_member(m@, key, k);
                    if k < i {
                        assert(m@[k].0@ != key);
                    } else if i < k {
                        assert(m@[i].0@ != key);
                    }
                },
                None => {},
            }
        },
        _ => {},
    }
}

fn member_of<'a>(v: &'a Json, key: &str) -> (r: Option<&'a Json>)
    ensures
        match r {
            Some(x) => member(*v, key@) == Some(*x),
            None => member(*v, key@) is None,
        },
{
    let r = get(v, key);
    proof {
        lemma_member_is(*v, key@, r);
    }
    r
}

fn entry_text_of(e: &Json) -> (r: Option<&str>)
    ensures
        match r {
            Some(t) => entry_text(*e) == Some(t@),
            None => entry_text(*e) is None,
        },
{
    let found = match member_of(e, "title") {
        Some(x) => Some(x),
        None => match member_of(e, "message") {
            Some(x) => Some(x),
            None => member_of(e, "detail"),
        },
    };
    proof {
        reveal_strlit("title");
        reveal_strlit("message");
        reveal_strlit("detail");
        if member(*e, "title"@) is Some {
            assert(has_member(*e, "title"@));
        } else {
            assert(!has_member(*e, "title"@)) by {
                if has_member(*e, "title"@) {
                    if let Json::Object(m) = *e {
                        let i = choose|i: int| 0 <= i < m@.len() && #[trigger] m@[i].0@ == "title"@;
                        lemma_first_exists(m@, "title"@, i);
                    }
                }
            }
            if member(*e, "message"@) is Some {
                assert(has_member(*e, "message"@));
            } else {
                assert(!has_member(*e, "message"@)) by {
                    if has_member(*e, "message"@) {
                        if let Json::Object(m) = *e {
                            let i = choose|i: int|
                                0 <= i < m@.len() && #[trigger] m@[i].0@ == "message"@;
                            lemma_first_exists(m@, "message"@, i);
                        }
                    }
                }
            }
        }
    }
    match found {
        Some(x) => as_str(x),
        None => None,
    }
}

proof fn lemma_first_exists(m: Seq<(String, Json)>, key: Seq<char>, i: int)
    requires
        0 <= i < m.len(),
        m[i].0@ == key,
    ensures
        exists|k: int| #[trigger] first_member(m, key, k),
    decreases i,
{
    if exists|j: int| 0 <= j < i && #[trigger] m[j].0@ == key {
        let j = choose|j: int| 0 <= j < i && #[trigger] m[j].0@ == key;
        lemma_first_exists(m, key, j);
    } else {
        assert(first_member(m, key, i));
    }
}

/// The error of a failed WorkDrive request, with the detail the body gives.
pub fn api_error(status: u16, body: &str, action: &str) -> (r: ZocliError)
    ensures
        r matches ZocliError::Api(m) && m@ == "Zoho WorkDrive "@ + action@ + " failed with status "@
            + decimal(status as nat) + ": "@ + api_error_detail(body@),
{
    let detail = error_detail(body);
    let mut m = cat3("Zoho WorkDrive ", action, " failed with status ");
    let code = u64_to_string(status as u64);
    m.append(code.as_str());
    m.append(": ");
    m.append(detail.as_str());
    ZocliError::Api(m)
}

fn first_chars(body: &str, n: usize) -> (r: String)
    ensures
        r@ == first_n(body@, n as int),
{
    let v = to_chars(body);
    if v.len() <= n {
        body.to_owned()
    } else {
        from_char_range(&v, 0, n)
    }
}

fn error_detail(body: &str) -> (r: String)
    ensures
        r@ == api_error_detail(body@),
{
    let parsed = parse_json(body);
    match &parsed {
        None => first_chars(body, 500),
        Some(v) => {
            match member_of(v, "errors") {
                Some(Json::Array(items)) => {
                    let mut out = String::new();
                    let mut count: usize = 0;
                    let mut i: usize = 0;
                    while i < items.len()
                        invariant
                            i <= items@.len(),
                            out@ == joined_texts(items@.take(i as int)),
                            count == texts_count(items@.take(i as int)),
                            count <= i,
                        decreases items@.len() - i,
                    {
                        let t = entry_text_of(&items[i]);
                        proof {
                            assert(items@.take(i + 1).drop_last() =~= items@.take(i as int));
                            assert(items@.take(i + 1).last() == items@[i as int]);
                            if count == 0 {
                                lemma_no_texts_empty(items@.take(i as int));
                            }
                        }
                        if let Some(text) = t {
                            if count > 0 {
                                out.append("; ");
                            }
                            out.append(text);
                            count = count + 1;
                        }
                        i = i + 1;
                    }
                    proof {
                        assert(items@.take(items@.len() as int) =~= items@);
                    }
                    out
                },
                Some(_) | None => {
                    match member_of(v, "error") {
                        Some(e) => match member_of(e, "message") {
                            Some(Json::Str(m)) => m.clone(),
                            _ => first_chars(body, 500),
                        },
                        None => first_chars(body, 500),
                    }
                },
            }
        },
    }
}

/// The query of a file listing, after checking the request: the limit must be positive and
/// the folder id not blank.
pub fn list_files(folder_id: &str, limit: usize, offset: u64) -> (r: Result<
    Vec<(&'static str, String)>,
    ZocliError,
>)
    ensures
        limit == 0 ==> (r matches Err(ZocliError::Validation(m)) && m@
            == "list_files: limit must be greater than zero"@),
        limit > 0 && all_ws(folder_id@) ==> (r matches Err(ZocliError::Validation(m)) && m@
            == "list_files: folder_id must not be empty"@),
        limit > 0 && !all_ws(folder_id@) ==> (r matches Ok(q) && q@.len() == 2 && q@[0].0@
            == "page[limit]"@ && q@[0].1@ == decimal(limit as nat) && q@[1].0@ == "page[offset]"@
            && q@[1].1@ == decimal(offset as nat)),
{
    if limit == 0 {
        return Err(
            ZocliError::Validation(String::from_str("list_files: limit must be greater than zero")),
        );
    }
    if is_all_whitespace(folder_id) {
        return Err(
            ZocliError::Validation(String::from_str("list_files: folder_id must not be empty")),
        );
    }
    let mut q: Vec<(&'static str, String)> = Vec::new();
    q.push(("page[limit]", u64_to_string(limit as u64)));
    q.push(("page[offset]", u64_to_string(offset)));
    Ok(q)
}

/// The path of a folder's file listing.
pub fn files_path(folder_id: &str) -> (r: String)
    ensures
        r@ == "/api/v1/files/"@ + folder_id@ + "/files"@,
{
    cat3("/api/v1/files/", folder_id, "/files")
}

/// The path of a user's team listing.
pub fn teams_path(account_id: &str) -> (r: String)
    ensures
        r@ == "/api/v1/users/"@ + account_id@ + "/teams"@,
{
    cat3("/api/v1/users/", account_id, "/teams")
}

/// The teams of a listing; absent storage figures count as 0.
pub fn list_teams(raw: Vec<RawTeam>) -> (r: Vec<DriveTeam>)
    ensures
        r@.len() == raw@.len(),
        forall|i: int|
            0 <= i < r@.len() ==> (#[trigger] r@[i]).id == raw@[i].id && r@[i].name == raw@[i].name
                && r@[i].storage_limit == match raw@[i].storage_limit {
                Some(x) => x,
                None => 0,
            } && r@[i].storage_used == match raw@[i].storage_used {
                Some(x) => x,
                None => 0,
            },
{
    let ghost orig = raw@;
    let mut rest = raw;
    let mut out: Vec<DriveTeam> = Vec::new();
    let n = rest.len();
    let mut i: usize = 0;
    while i < n
        invariant
            n == orig.len(),
            i <= n,
            rest@ == orig.skip(i as int),
            out@.len() == i,
            forall|j: int|
                0 <= j < i ==> (#[trigger] out@[j]).id == orig[j].id && out@[j].name == orig[j].name
                    && out@[j].storage_limit == match orig[j].storage_limit {
                    Some(x) => x,
                    None => 0,
                } && out@[j].storage_used == match orig[j].storage_used {
                    Some(x) => x,
                    None => 0,
                },
        decreases n - i,
    {
        let t = rest.remove(0);
        proof {
            assert(t == orig[i as int]);
            assert(rest@ =~= orig.skip(i + 1));
        }
        let storage_limit = match t.storage_limit {
            Some(x) => x,
            None => 0,
        };
        let storage_used = match t.storage_used {
            Some(x) => x,
            None => 0,
        };
        out.push(DriveTeam { id: t.id, name: t.name, storage_limit, storage_used });
        i = i + 1;
    }
    out
}

pub open spec fn text_or_empty(o: Option<String>) -> Seq<char> {
    match o {
        Some(s) => s@,
        None => Seq::empty(),
    }
}

fn or_empty(o: Option<String>) -> (r: String)
    ensures
        r@ == text_or_empty(o),
{
    match o {
        Some(s) => s,
        None => String::new(),
    }
}

/// The files of a listing; absent type and times are empty, an absent size 0.
pub fn file_entries(raw: Vec<RawFile>) -> (r: Vec<DriveFile>)
    ensures
        r@.len() == raw@.len(),
        forall|i: int|
            0 <= i < r@.len() ==> (#[trigger] r@[i]).id == raw@[i].id && r@[i].name == raw@[i].name
                && r@[i].file_type@ == text_or_empty(raw@[i].file_type) && r@[i].size == match raw@[i].size {
                Some(x) => x,
                None => 0,
            } && r@[i].modified_time@ == text_or_empty(raw@[i].modified_time)
                && r@[i].created_time@ == text_or_empty(raw@[i].created_time),
{
    let ghost orig = raw@;
    let mut rest = raw;
    let mut out: Vec<DriveFile> = Vec::new();
    let n = rest.len();
    let mut i: usize = 0;
    while i < n
        invariant
            n == orig.len(),
            i <= n,
            rest@ == orig.skip(i as int),
            out@.len() == i,
            forall|j: int|
                0 <= j < i ==> (#[trigger] out@[j]).id == orig[j].id && out@[j].name == orig[j].name
                    && out@[j].file_type@ == text_or_empty(orig[j].file_type) && out@[j].size
                    == match orig[j].size {
                    Some(x) => x,
                    None => 0,
                } && out@[j].modified_time@ == text_or_empty(orig[j].modified_time)
                    && out@[j].created_time@ == text_or_empty(orig[j].created_time),
        decreases n - i,
    {
        let f = rest.remove(0);
        proof {
            assert(f == orig[i as int]);
            assert(rest@ =~= orig.skip(i + 1));
        }
        let size = match f.size {
            Some(x) => x,
            None => 0,
        };
        out.push(
            DriveFile {
                id: f.id,
                name: f.name,
                file_type: or_empty(f.file_type),
                size,
                modified_time: or_empty(f.modified_time),
                created_time: or_empty(f.created_time),
            },
        );
        i = i + 1;
    }
    out
}

/// The uploaded file an upload response describes: its first entry.
pub fn uploaded_file(entries: Vec<(String, String)>) -> (r: Result<UploadedFile, ZocliError>)
    ensures
        entries@.len() == 0 ==> (r matches Err(ZocliError::Api(m)) && m@
            == "WorkDrive upload returned empty data array"@),
        entries@.len() > 0 ==> (r matches Ok(f) && f.id == entries@[0].0 && f.name == entries@[0].1),
{
    if entries.len() == 0 {
        return Err(ZocliError::Api(String::from_str("WorkDrive upload returned empty data array")));
    }
    let mut entries = entries;
    let (id, name) = entries.remove(0);
    Ok(UploadedFile { id, name })
}

/// Whether a download may write to its output: an existing output needs `force`, and a
/// directory is never a valid output. `shown` is the output path as displayed.
pub fn check_download_output(exists: bool, is_dir: bool, force: bool, shown: &str) -> (r: Result<
    (),
    ZocliError,
>)
    ensures
        exists && !force ==> (r matches Err(ZocliError::OutputExists(m)) && m@ == shown@),
        !(exists && !force) && is_dir ==> (r matches Err(ZocliError::UnsupportedOperation(m)) && m@
            == "output path points to a directory: "@ + shown@),
        !(exists && !force) && !is_dir ==> r is Ok,
{
    if exists && !force {
        return Err(ZocliError::OutputExists(shown.to_owned()));
    }
    if is_dir {
        return Err(ZocliError::UnsupportedOperation(cat("output path points to a directory: ", shown)));
    }
    Ok(())
}

/// Whether a file may be uploaded: it must exist, be a regular file and not be empty.
/// `found` is None when the path does not exist, else whether it is a regular file and its
/// length.
pub fn validate_upload_source(found: Option<(bool, u64)>, shown: &str) -> (r: Result<(), ZocliError>)
    ensures
        found is None ==> (r matches Err(ZocliError::Validation(m)) && m@
            == "upload_file: source file not found: "@ + shown@),
        found matches Some((is_file, len)) ==> (!is_file ==> (r matches Err(ZocliError::Validation(m))
            && m@ == "upload_file: path must point to a file: "@ + shown@)),
        found matches Some((is_file, len)) ==> (is_file && len == 0 ==> (r matches Err(
            ZocliError::Validation(m),
        ) && m@ == "upload_file: file must not be empty"@)),
        found matches Some((is_file, len)) ==> (is_file && len > 0 ==> r is Ok),
{
    match found {
        None => Err(ZocliError::Validation(cat("upload_file: source file not found: ", shown))),
        Some((is_file, len)) => {
            if !is_file {
                return Err(
                    ZocliError::Validation(cat("upload_file: path must point to a file: ", shown)),
                );
            }
            if len == 0 {
                return Err(
                    ZocliError::Validation(String::from_str("upload_file: file must not be empty")),
                );
            }
            Ok(())
        },
    }
}

} // verus!
