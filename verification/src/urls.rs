//! Resolving URLs with the `url` crate.
use vstd::prelude::*;

verus! {

/// Why resolving a URL failed, with `url::ParseError`'s message.
#[derive(Debug)]
pub enum UrlJoinError {
    /// The base did not parse.
    BadBase(String),
    /// The reference did not resolve against the base.
    BadJoin(String),
}

/// The URL that `path` resolves to against `base`, by `url::Url::parse` then `Url::join`;
/// None when either fails.
pub uninterp spec fn joined_url(base: Seq<char>, path: Seq<char>) -> Option<Seq<char>>;

/// `url::Url::parse(base)` then `join(path)`, as text. Which step failed is told apart; the
/// error message, `url::ParseError`'s display text, is not stated.
#[verifier::external_body]
pub fn join_url(base: &str, path: &str) -> (r: Result<String, UrlJoinError>)
    ensures
        match r {
            Ok(u) => joined_url(base@, path@) == Some(u@),
            Err(_) => joined_url(base@, path@) is None,
        },
{
    let b = url::Url::parse(base).map_err(|e| UrlJoinError::BadBase(e.to_string()))?;
    b.join(path).map(|u| u.to_string()).map_err(|e| UrlJoinError::BadJoin(e.to_string()))
}

/// The path segments of a URL (`url::Url::parse` then `path_segments`); None when the text
/// does not parse or the URL cannot be a base.
pub uninterp spec fn url_path_segments(url: Seq<char>) -> Option<Seq<Seq<char>>>;

/// `url::Url::parse(url)` then `path_segments()`, each segment as text.
#[verifier::external_body]
pub fn path_segments(url: &str) -> (r: Option<Vec<String>>)
    ensures
        match r {
            Some(v) => url_path_segments(url@) == Some(v@.map_values(|x: String| x@)),
            None => url_path_segments(url@) is None,
        },
{
    let u = url::Url::parse(url).ok()?;
    let segments = u.path_segments()?;
    Some(segments.map(|s| s.to_string()).collect())
}

/// What `url::Url::parse` says of a text: None when it parses, else the display text of its
/// `url::ParseError`.
pub uninterp spec fn url_parse_failure(text: Seq<char>) -> Option<Seq<char>>;

/// `url::Url::parse(text)`, keeping only whether it failed and the error's display text.
#[verifier::external_body]
pub fn check_url(text: &str) -> (r: Option<String>)
    ensures
        match r {
            Some(e) => url_parse_failure(text@) == Some(e@),
            None => url_parse_failure(text@) is None,
        },
{
    url::Url::parse(text).err().map(|e| e.to_string())
}

/// The parts of a parsed URL that callers read, as plain values.
#[derive(Debug)]
pub struct UrlParts {
    pub scheme: String,
    pub host: Option<String>,
    pub path: String,
    /// The query's `key=value` pairs, percent-decoded, in order.
    pub query_pairs: Vec<(String, String)>,
}

pub struct UrlPartsView {
    pub scheme: Seq<char>,
    pub host: Option<Seq<char>>,
    pub path: Seq<char>,
    pub query_pairs: Seq<(Seq<char>, Seq<char>)>,
}

pub open spec fn pair_views(s: Seq<(String, String)>) -> Seq<(Seq<char>, Seq<char>)> {
    s.map_values(|p: (String, String)| (p.0@, p.1@))
}

impl View for UrlParts {
    type V = UrlPartsView;

    open spec fn view(&self) -> UrlPartsView {
        UrlPartsView {
            scheme: self.scheme@,
            host: match self.host {
                Some(h) => Some(h@),
                None => None,
            },
            path: self.path@,
            query_pairs: pair_views(self.query_pairs@),
        }
    }
}

/// `Url::scheme` of the URL a text parses to.
pub uninterp spec fn url_scheme(text: Seq<char>) -> Seq<char>;

/// `Url::host_str` of the URL a text parses to.
pub uninterp spec fn url_host(text: Seq<char>) -> Option<Seq<char>>;

/// `Url::path` of the URL a text parses to.
pub uninterp spec fn url_path(text: Seq<char>) -> Seq<char>;

/// `Url::query_pairs` of the URL a text parses to, each key and value decoded.
pub uninterp spec fn url_query_pairs(text: Seq<char>) -> Seq<(Seq<char>, Seq<char>)>;

/// The parts of a URL as `url::Url::parse` gives them, read through `scheme`, `host_str`,
/// `path` and `query_pairs`; or the display text of its `url::ParseError`.
#[verifier::external_body]
pub fn url_parts(text: &str) -> (r: Result<UrlParts, String>)
    ensures
        match r {
            Ok(p) => url_parse_failure(text@) is None && p@ == (UrlPartsView {
                scheme: url_scheme(text@),
                host: url_host(text@),
                path: url_path(text@),
                query_pairs: url_query_pairs(text@),
            }),
            Err(e) => url_parse_failure(text@) == Some(e@),
        },
{
    let u = url::Url::parse(text).map_err(|e| e.to_string())?;
    Ok(UrlParts {
        scheme: u.scheme().to_string(),
        host: u.host_str().map(|h| h.to_string()),
        path: u.path().to_string(),
        query_pairs: u.query_pairs().map(|(k, v)| (k.into_owned(), v.into_owned())).collect(),
    })
}

/// The text `url::Url::parse` normalises a URL to (`Url::to_string`).
pub uninterp spec fn url_serialization(text: Seq<char>) -> Seq<char>;

/// `url::Url::parse(text)` then `to_string()`; or the display text of the parse error.
#[verifier::external_body]
pub fn serialize_url(text: &str) -> (r: Result<String, String>)
    ensures
        match r {
            Ok(t) => url_parse_failure(text@) is None && t@ == url_serialization(text@),
            Err(e) => url_parse_failure(text@) == Some(e@),
        },
{
    url::Url::parse(text).map(|u| u.to_string()).map_err(|e| e.to_string())
}

/// The text of a URL once `Url::set_path("")`, `set_query(None)` and `set_fragment(None)` have
/// left only its scheme, authority and root.
pub uninterp spec fn url_base(text: Seq<char>) -> Seq<char>;

/// `url::Url::parse(text)`, its path, query and fragment cleared, then `to_string()`; or the
/// display text of the parse error.
#[verifier::external_body]
pub fn base_of_url(text: &str) -> (r: Result<String, String>)
    ensures
        match r {
            Ok(t) => url_parse_failure(text@) is None && t@ == url_base(text@),
            Err(e) => url_parse_failure(text@) == Some(e@),
        },
{
    let mut u = url::Url::parse(text).map_err(|e| e.to_string())?;
    u.set_path("");
    u.set_query(None);
    u.set_fragment(None);
    Ok(u.to_string())
}

} // verus!
