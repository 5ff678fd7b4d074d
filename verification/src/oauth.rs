//! OAuth: the scopes each Zoho service needs, the PKCE authorization request, and turning
//! token responses into stored credentials.
use vstd::prelude::*;
use vstd::string::*;
use vstd::utf8::encode_utf8;
use base64::Engine;
use rand::RngCore;
use sha2::Digest;
use crate::credential_store::StoredOauthCredential;
use crate::error::ZocliError;
use crate::urls::{joined_url, join_url, UrlJoinError};
use crate::text::{
    cat,
    keep_nonempty,
    segments,
    split_nonempty,
    str_eq,
    text_views,
    u64_to_string,
    decimal,
};

verus! {

broadcast use vstd::string::group_string_axioms;

/// The local redirect URI of the OAuth callback.
pub const REDIRECT_URI: &'static str = "http://127.0.0.1:9004/callback";

/// A Zoho product the client can be authorized for.
#[derive(PartialEq, Eq, Structural, Clone, Copy, Debug)]
pub enum OauthService {
    Mail,
    Calendar,
    Drive,
}

pub open spec fn spec_service_name(s: OauthService) -> Seq<char> {
    match s {
        OauthService::Mail => "mail"@,
        OauthService::Calendar => "calendar"@,
        OauthService::Drive => "drive"@,
    }
}

/// The OAuth scopes each service asks for.
pub open spec fn spec_scopes(s: OauthService) -> Seq<Seq<char>> {
    match s {
        OauthService::Mail => seq![
            "ZohoMail.messages.ALL"@,
            "ZohoMail.folders.ALL"@,
            "ZohoMail.accounts.READ"@,
        ],
        OauthService::Calendar => seq!["ZohoCalendar.event.ALL"@, "ZohoCalendar.calendar.ALL"@],
        OauthService::Drive => seq![
            "WorkDrive.files.ALL"@,
            "WorkDrive.workspace.ALL"@,
            "WorkDrive.team.ALL"@,
        ],
    }
}

pub open spec fn strs(v: Seq<&str>) -> Seq<Seq<char>> {
    v.map_values(|x: &str| x@)
}

impl OauthService {
    pub fn as_str(self) -> (r: &'static str)
        ensures
            r@ == spec_service_name(self),
    {
        match self {
            OauthService::Mail => "mail",
            OauthService::Calendar => "calendar",
            OauthService::Drive => "drive",
        }
    }

    pub fn scopes(self) -> (r: Vec<&'static str>)
        ensures
            strs(r@) == spec_scopes(self),
    {
        let r: Vec<&'static str> = match self {
            OauthService::Mail => vec![
                "ZohoMail.messages.ALL",
                "ZohoMail.folders.ALL",
                "ZohoMail.accounts.READ",
            ],
            OauthService::Calendar => vec!["ZohoCalendar.event.ALL", "ZohoCalendar.calendar.ALL"],
            OauthService::Drive => vec![
                "WorkDrive.files.ALL",
                "WorkDrive.workspace.ALL",
                "WorkDrive.team.ALL",
            ],
        };
        assert(strs(r@) =~= spec_scopes(self));
        r
    }
}

/// The scopes of the services, service after service.
pub open spec fn all_scopes(services: Seq<OauthService>) -> Seq<Seq<char>>
    decreases services.len(),
{
    if services.len() == 0 {
        Seq::empty()
    } else {
        all_scopes(services.drop_last()) + spec_scopes(services.last())
    }
}

/// `s` with every repeat of an earlier element left out.
pub open spec fn dedup(s: Seq<Seq<char>>) -> Seq<Seq<char>>
    decreases s.len(),
{
    if s.len() == 0 {
        s
    } else if dedup(s.drop_last()).contains(s.last()) {
        dedup(s.drop_last())
    } else {
        dedup(s.drop_last()).push(s.last())
    }
}

fn contains_str(v: &Vec<&'static str>, x: &str) -> (r: bool)
    ensures
        r == strs(v@).contains(x@),
{
    let mut i: usize = 0;
    while i < v.len()
        invariant
            i <= v@.len(),
            forall|j: int| 0 <= j < i ==> v@[j]@ != x@,
        decreases v@.len() - i,
    {
        if str_eq(v[i], x) {
            assert(strs(v@)[i as int] == x@);
            return true;
        }
        i = i + 1;
    }
    assert forall|j: int| 0 <= j < strs(v@).len() implies strs(v@)[j] != x@ by {}
    false
}

/// The scopes of all the services, each once, in first-seen order.
pub fn deduped_scopes(services: &[OauthService]) -> (r: Vec<&'static str>)
    ensures
        strs(r@) == dedup(all_scopes(services@)),
{
    let mut out: Vec<&'static str> = Vec::new();
    let mut i: usize = 0;
    proof {
        assert(services@.take(0) =~= Seq::<OauthService>::empty());
    }
    while i < services.len()
        invariant
            i <= services@.len(),
            strs(out@) == dedup(all_scopes(services@.take(i as int))),
        decreases services@.len() - i,
    {
        let service = services[i];
        let scopes = service.scopes();
        let ghost prefix = all_scopes(services@.take(i as int));
        let ghost sc = spec_scopes(service);
        let mut j: usize = 0;
        proof {
            assert(prefix + sc.take(0) =~= prefix);
        }
        while j < scopes.len()
            invariant
                j <= scopes@.len(),
                strs(scopes@) == sc,
                strs(out@) == dedup(prefix + sc.take(j as int)),
            decreases scopes@.len() - j,
        {
            let scope = scopes[j];
            let ghost before = out@;
            proof {
                assert((prefix + sc.take(j + 1)).drop_last() =~= prefix + sc.take(j as int));
                assert((prefix + sc.take(j + 1)).last() == scope@);
            }
            if !contains_str(&out, scope) {
                out.push(scope);
                assert(strs(out@) =~= strs(before).push(scope@));
            }
            j = j + 1;
        }
        proof {
            assert(sc.take(sc.len() as int) =~= sc);
            assert(services@.take(i + 1).drop_last() =~= services@.take(i as int));
            assert(services@.take(i + 1).last() == service);
        }
        i = i + 1;
    }
    proof {
        assert(services@.take(services@.len() as int) =~= services@);
    }
    out
}

/// Every scope of the requested services is asked for, and none twice.
pub proof fn law_deduped_scopes_complete_and_unique(s: Seq<Seq<char>>)
    ensures
        dedup(s).no_duplicates(),
        forall|x: Seq<char>| dedup(s).contains(x) <==> s.contains(x),
    decreases s.len(),
{
    if s.len() > 0 {
        law_deduped_scopes_complete_and_unique(s.drop_last());
        let d = dedup(s.drop_last());
        assert forall|x: Seq<char>| dedup(s).contains(x) <==> s.contains(x) by {
            if s.contains(x) {
                let k = choose|k: int| 0 <= k < s.len() && s[k] == x;
                if k < s.len() - 1 {
                    assert(s.drop_last()[k] == x);
                    assert(s.drop_last().contains(x));
                }
            }
            if s.drop_last().contains(x) {
                let k = choose|k: int| 0 <= k < s.drop_last().len() && s.drop_last()[k] == x;
                assert(s[k] == x);
            }
            if !d.contains(s.last()) {
                if dedup(s).contains(x) {
                    let k = choose|k: int| 0 <= k < dedup(s).len() && dedup(s)[k] == x;
                    if k < d.len() {
                        assert(d[k] == x);
                    }
                }
                if d.contains(x) {
                    let k = choose|k: int| 0 <= k < d.len() && d[k] == x;
                    assert(dedup(s)[k] == x);
                }
                assert(dedup(s)[d.len() as int] == s.last());
            }
        }
    }
}

/// The text `parts` joined by `sep`.
pub open spec fn join_with(parts: Seq<Seq<char>>, sep: Seq<char>) -> Seq<char>
    decreases parts.len(),
{
    if parts.len() == 0 {
        Seq::empty()
    } else if parts.len() == 1 {
        parts[0]
    } else {
        join_with(parts.drop_last(), sep) + sep + parts.last()
    }
}

/// `parts.join(sep)`.
pub fn join_strs(parts: &Vec<&str>, sep: &str) -> (r: String)
    ensures
        r@ == join_with(strs(parts@), sep@),
{
    let mut r = String::new();
    let mut i: usize = 0;
    while i < parts.len()
        invariant
            i <= parts@.len(),
            r@ == join_with(strs(parts@.take(i as int)), sep@),
        decreases parts@.len() - i,
    {
        let ghost prev = strs(parts@.take(i as int));
        proof {
            assert(strs(parts@.take(i + 1)).drop_last() =~= prev);
            assert(strs(parts@.take(i + 1)).last() == parts@[i as int]@);
        }
        if i > 0 {
            r.append(sep);
        } else {
            assert(prev.len() == 0);
        }
        r.append(parts[i]);
        i = i + 1;
    }
    proof {
        assert(parts@.take(parts@.len() as int) =~= parts@);
    }
    r
}

/// Form-encoding of one byte by `url::form_urlencoded::byte_serialize`: letters, digits and
/// `*-._` stay, a space becomes `+`, every other byte becomes `%` and two upper-case hex digits.
pub open spec fn form_byte(b: u8) -> Seq<char> {
    if b == 42 || b == 45 || b == 46 || b == 95 || (48 <= b <= 57) || (65 <= b <= 90) || (97 <= b
        <= 122) {
        seq![b as char]
    } else if b == 32 {
        seq!['+']
    } else {
        seq!['%', hex_upper(b / 16), hex_upper(b % 16)]
    }
}

pub open spec fn hex_upper(d: u8) -> char {
    if d < 10 {
        (48 + d) as char
    } else {
        (55 + d) as char
    }
}

pub open spec fn form_serialized(bytes: Seq<u8>) -> Seq<char>
    decreases bytes.len(),
{
    if bytes.len() == 0 {
        Seq::empty()
    } else {
        form_serialized(bytes.drop_last()) + form_byte(bytes.last())
    }
}

/// The form-encoding of the UTF-8 bytes of `s` (`url::form_urlencoded::byte_serialize`), as
/// its source defines it byte by byte.
#[verifier::external_body]
fn form_encode(s: &str) -> (r: String)
    ensures
        r@ == form_serialized(encode_utf8(s@)),
{
    url::form_urlencoded::byte_serialize(s.as_bytes()).collect()
}

/// A query string of name/value pairs, each form-encoded, as `name=value` joined by `&`.
pub open spec fn encoded_query(pairs: Seq<(Seq<char>, Seq<char>)>) -> Seq<char>
    decreases pairs.len(),
{
    if pairs.len() == 0 {
        Seq::empty()
    } else {
        let p = pairs.last();
        let item = form_serialized(encode_utf8(p.0)) + "="@ + form_serialized(encode_utf8(p.1));
        if pairs.len() == 1 {
            item
        } else {
            encoded_query(pairs.drop_last()) + "&"@ + item
        }
    }
}

/// The query pairs of an authorization request.
pub open spec fn authorize_pairs(
    scopes: Seq<Seq<char>>,
    client_id: Seq<char>,
    state: Seq<char>,
    challenge: Seq<char>,
    login_hint: Option<Seq<char>>,
) -> Seq<(Seq<char>, Seq<char>)> {
    let base = seq![
        ("response_type"@, "code"@),
        ("client_id"@, client_id),
        ("redirect_uri"@, REDIRECT_URI@),
        ("scope"@, join_with(scopes, ","@)),
        ("state"@, state),
        ("code_challenge"@, challenge),
        ("code_challenge_method"@, "S256"@),
        ("access_type"@, "offline"@),
        ("prompt"@, "consent"@),
    ];
    match login_hint {
        Some(h) => base.push(("login_hint"@, h)),
        None => base,
    }
}

/// The OAuth endpoint `path` of a base URL; a base or endpoint that does not parse is a
/// configuration error.
fn oauth_endpoint(base_url: &str, path: &str) -> (r: Result<String, ZocliError>)
    ensures
        match r {
            Ok(u) => joined_url(base_url@, path@) == Some(u@),
            Err(e) => joined_url(base_url@, path@) is None && e is Config,
        },
{
    match join_url(base_url, path) {
        Ok(u) => Ok(u),
        Err(UrlJoinError::BadBase(m)) => Err(ZocliError::Config(cat("invalid OAuth base URL: ", m.as_str()))),
        Err(UrlJoinError::BadJoin(m)) => Err(ZocliError::Config(cat("invalid OAuth endpoint: ", m.as_str()))),
    }
}

fn append_pair(q: &mut String, first: bool, name: &str, value: &str)
    ensures
        final(q)@ == old(q)@ + (if first {
            Seq::empty()
        } else {
            "&"@
        }) + form_serialized(encode_utf8(name@)) + "="@ + form_serialized(encode_utf8(value@)),
{
    if !first {
        q.append("&");
    }
    let n = form_encode(name);
    q.append(n.as_str());
    q.append("=");
    let v = form_encode(value);
    q.append(v.as_str());
}

/// The authorization URL: the `/oauth/v2/auth` endpoint of the base URL with the request's
/// query. The query starts with `?`: the joined endpoint has no query of its own.
pub open spec fn spec_authorize_url(
    endpoint: Seq<char>,
    scopes: Seq<Seq<char>>,
    client_id: Seq<char>,
    state: Seq<char>,
    challenge: Seq<char>,
    login_hint: Option<Seq<char>>,
) -> Seq<char> {
    endpoint + "?"@ + encoded_query(authorize_pairs(scopes, client_id, state, challenge, login_hint))
}

fn build_authorize_url(
    base_url: &str,
    scopes: &Vec<&str>,
    client_id: &str,
    state: &str,
    code_challenge: &str,
    login_hint: Option<&str>,
) -> (r: Result<String, ZocliError>)
    ensures
        match r {
            Ok(u) => joined_url(base_url@, "/oauth/v2/auth"@) matches Some(ep) && u@
                == spec_authorize_url(
                ep,
                strs(scopes@),
                client_id@,
                state@,
                code_challenge@,
                opt_str(login_hint),
            ),
            Err(e) => joined_url(base_url@, "/oauth/v2/auth"@) is None && e is Config,
        },
{
    let endpoint = oauth_endpoint(base_url, "/oauth/v2/auth")?;
    let joined = join_strs(scopes, ",");
    let mut items: Vec<(&str, &str)> = vec![
        ("response_type", "code"),
        ("client_id", client_id),
        ("redirect_uri", REDIRECT_URI),
        ("scope", joined.as_str()),
        ("state", state),
        ("code_challenge", code_challenge),
        ("code_challenge_method", "S256"),
        ("access_type", "offline"),
        ("prompt", "consent"),
    ];
    if let Some(h) = login_hint {
        items.push(("login_hint", h));
    }
    let ghost hint = opt_str(login_hint);
    let ghost pairs = authorize_pairs(strs(scopes@), client_id@, state@, code_challenge@, hint);
    assert(pair_views(items@) =~= pairs);
    let q = query_of(&items);
    let mut url = endpoint;
    url.append("?");
    url.append(q.as_str());
    Ok(url)
}

pub open spec fn pair_views(v: Seq<(&str, &str)>) -> Seq<(Seq<char>, Seq<char>)> {
    v.map_values(|p: (&str, &str)| (p.0@, p.1@))
}

/// The form-encoded query of the pairs.
fn query_of(items: &Vec<(&str, &str)>) -> (r: String)
    ensures
        r@ == encoded_query(pair_views(items@)),
{
    let mut q = String::new();
    let mut i: usize = 0;
    while i < items.len()
        invariant
            i <= items@.len(),
            q@ == encoded_query(pair_views(items@.take(i as int))),
        decreases items@.len() - i,
    {
        let (name, value) = items[i];
        proof {
            assert(pair_views(items@.take(i + 1)).drop_last() =~= pair_views(items@.take(i as int)));
            assert(pair_views(items@.take(i + 1)).last() == (name@, value@));
        }
        append_pair(&mut q, i == 0, name, value);
        i = i + 1;
    }
    proof {
        assert(items@.take(items@.len() as int) =~= items@);
    }
    q
}

/// What a successful token request returns.
#[derive(Debug)]
pub struct ZohoTokenResponse {
    pub access_token: String,
    pub refresh_token: Option<String>,
    pub token_type: String,
    pub expires_in: u64,
    pub scope: String,
    pub api_domain: Option<String>,
}

/// What a successful refresh request returns (no new refresh token).
#[derive(Debug)]
pub struct ZohoRefreshResponse {
    pub access_token: String,
    pub token_type: String,
    pub expires_in: u64,
    pub scope: String,
    pub api_domain: Option<String>,
}

/// Seconds since the Unix epoch by the system clock (0 before the epoch); nothing is
/// promised of its value.
#[verifier::external_body]
pub fn unix_timestamp_now() -> (r: u64) {
    std::time::SystemTime::now().duration_since(std::time::UNIX_EPOCH).unwrap_or_default().as_secs()
}

/// The expiry of a token issued at `now` for `expires_in` seconds (saturating).
pub open spec fn expiry(now: u64, expires_in: u64) -> u64 {
    if now + expires_in > u64::MAX {
        u64::MAX
    } else {
        (now + expires_in) as u64
    }
}

/// The stored form of a token response received at `now`.
pub open spec fn stored_from_response(
    resp: ZohoTokenResponse,
    client_id: Seq<char>,
    now: u64,
    c: StoredOauthCredential,
) -> bool {
    &&& c.kind@ == "oauth_pkce"@
    &&& c.access_token == resp.access_token
    &&& c.refresh_token == resp.refresh_token
    &&& c.token_type == resp.token_type
    &&& c.expires_at_epoch_secs == expiry(now, resp.expires_in)
    &&& text_views(c.scope@) == keep_nonempty(segments(resp.scope@, ','))
    &&& c.client_id@ == client_id
    &&& c.api_domain == resp.api_domain
}

impl ZohoTokenResponse {
    /// The stored credential of this response when received at `now`.
    pub fn into_stored_at(self, client_id: &str, now: u64) -> (r: StoredOauthCredential)
        ensures
            stored_from_response(self, client_id@, now, r),
    {
        let scope = split_nonempty(self.scope.as_str(), ',');
        StoredOauthCredential {
            kind: String::from_str("oauth_pkce"),
            access_token: self.access_token,
            refresh_token: self.refresh_token,
            token_type: self.token_type,
            expires_at_epoch_secs: now.saturating_add(self.expires_in),
            scope,
            client_id: client_id.to_owned(),
            api_domain: self.api_domain,
        }
    }

    /// The stored credential of this response, received now.
    pub fn into_stored(self, client_id: &str) -> (r: StoredOauthCredential)
        ensures
            exists|now: u64| stored_from_response(self, client_id@, now, r),
    {
        let now = unix_timestamp_now();
        self.into_stored_at(client_id, now)
    }
}

/// The stored credential after a refresh received at `now`: the old refresh token is kept.
pub fn refreshed_credential(
    resp: ZohoRefreshResponse,
    refresh_token: &str,
    client_id: &str,
    now: u64,
) -> (r: StoredOauthCredential)
    ensures
        r.kind@ == "oauth_pkce"@,
        r.access_token == resp.access_token,
        r.refresh_token matches Some(t) && t@ == refresh_token@,
        r.token_type == resp.token_type,
        r.expires_at_epoch_secs == expiry(now, resp.expires_in),
        text_views(r.scope@) == keep_nonempty(segments(resp.scope@, ',')),
        r.client_id@ == client_id@,
        r.api_domain == resp.api_domain,
{
    let scope = split_nonempty(resp.scope.as_str(), ',');
    StoredOauthCredential {
        kind: String::from_str("oauth_pkce"),
        access_token: resp.access_token,
        refresh_token: Some(refresh_token.to_owned()),
        token_type: resp.token_type,
        expires_at_epoch_secs: now.saturating_add(resp.expires_in),
        scope,
        client_id: client_id.to_owned(),
        api_domain: resp.api_domain,
    }
}

/// The error of a failed token request: the provider's error code and description when the
/// body carried them.
pub fn oauth_error(status: u16, error: Option<&str>, description: Option<&str>, action: &str) -> (r:
    ZocliError)
    ensures
        r matches ZocliError::Auth(m) && m@ == "Zoho OAuth "@ + action@ + " failed with status "@
            + decimal(status as nat) + " ("@ + (match error {
            Some(e) => e@,
            None => "unknown_oauth_error"@,
        }) + "): "@ + (match description {
            Some(d) => d@,
            None => "No provider message returned."@,
        }),
{
    let code = match error {
        Some(e) => e,
        None => "unknown_oauth_error",
    };
    let desc = match description {
        Some(d) => d,
        None => "No provider message returned.",
    };
    let mut m = cat("Zoho OAuth ", action);
    m.append(" failed with status ");
    let st = u64_to_string(status as u64);
    m.append(st.as_str());
    m.append(" (");
    m.append(code);
    m.append("): ");
    m.append(desc);
    ZocliError::Auth(m)
}

/// An authorization request ready to be opened in a browser.
#[derive(Debug)]
pub struct AuthorizationRequest {
    pub authorization_url: String,
    pub redirect_uri: String,
    pub state: String,
    pub code_challenge_method: &'static str,
}

/// A started PKCE authorization: the request and what the code exchange needs later.
#[derive(Debug)]
pub struct AuthorizationSession {
    pub request: AuthorizationRequest,
    pub client_id: String,
    pub client_secret: Option<String>,
    pub code_verifier: String,
    pub auth_base_url: String,
}

/// A finished login.
#[derive(Debug)]
pub struct LoginResult {
    pub authorization: AuthorizationRequest,
    pub credential: StoredOauthCredential,
}

/// `n` bytes from the thread-local random generator (`rand::rng().fill_bytes`); only their
/// number is promised.
#[verifier::external_body]
fn random_bytes(n: usize) -> (r: Vec<u8>)
    ensures
        r@.len() == n,
{
    let mut bytes = vec![0u8; n];
    rand::rng().fill_bytes(&mut bytes);
    bytes
}

/// The SHA-256 digest of `data`.
pub uninterp spec fn sha256_digest(data: Seq<u8>) -> Seq<u8>;

/// `sha2::Sha256::digest`: the 32-byte SHA-256 digest of `data`.
#[verifier::external_body]
pub(crate) fn sha256(data: &[u8]) -> (r: Vec<u8>)
    ensures
        r@ == sha256_digest(data@),
        r@.len() == 32,
{
    sha2::Sha256::digest(data).to_vec()
}

/// The character of a 6-bit value in the URL-safe base64 alphabet (`A`–`Z`, `a`–`z`,
/// `0`–`9`, `-`, `_`).
pub open spec fn base64_url_char(v: int) -> char {
    if v < 26 {
        (65 + v) as char
    } else if v < 52 {
        (97 + v - 26) as char
    } else if v < 62 {
        (48 + v - 52) as char
    } else if v == 62 {
        '-'
    } else {
        '_'
    }
}

/// Unpadded base64 with the URL-safe alphabet: every 3 bytes become 4 characters of 6 bits
/// each, most significant first; a last 1 or 2 bytes become 2 or 3 characters, the missing
/// low bits zero, with no `=` padding.
pub open spec fn base64_url_no_pad(data: Seq<u8>) -> Seq<char>
    decreases data.len(),
{
    if data.len() == 0 {
        Seq::empty()
    } else if data.len() == 1 {
        seq![base64_url_char((data[0] as int) / 4), base64_url_char(((data[0] as int) % 4) * 16)]
    } else if data.len() == 2 {
        seq![
            base64_url_char((data[0] as int) / 4),
            base64_url_char(((data[0] as int) % 4) * 16 + (data[1] as int) / 16),
            base64_url_char(((data[1] as int) % 16) * 4),
        ]
    } else {
        seq![
            base64_url_char((data[0] as int) / 4),
            base64_url_char(((data[0] as int) % 4) * 16 + (data[1] as int) / 16),
            base64_url_char(((data[1] as int) % 16) * 4 + (data[2] as int) / 64),
            base64_url_char((data[2] as int) % 64),
        ] + base64_url_no_pad(data.skip(3))
    }
}

/// `base64::engine::general_purpose::URL_SAFE_NO_PAD.encode`.
#[verifier::external_body]
fn encode_base64_url(data: &[u8]) -> (r: String)
    ensures
        r@ == base64_url_no_pad(data@),
{
    base64::engine::general_purpose::URL_SAFE_NO_PAD.encode(data)
}

/// A random token of `byte_len` random bytes, base64-encoded.
fn random_token(byte_len: usize) -> (r: String)
    ensures
        exists|b: Seq<u8>| b.len() == byte_len && r@ == #[trigger] base64_url_no_pad(b),
{
    let bytes = random_bytes(byte_len);
    encode_base64_url(bytes.as_slice())
}

/// The PKCE S256 challenge of a verifier: base64url of the SHA-256 of its UTF-8 bytes.
pub open spec fn spec_pkce_challenge(verifier: Seq<char>) -> Seq<char> {
    base64_url_no_pad(sha256_digest(encode_utf8(verifier)))
}

fn pkce_challenge(code_verifier: &str) -> (r: String)
    ensures
        r@ == spec_pkce_challenge(code_verifier@),
{
    let digest = sha256(code_verifier.as_bytes());
    encode_base64_url(digest.as_slice())
}

pub open spec fn opt_str(o: Option<&str>) -> Option<Seq<char>> {
    match o {
        Some(s) => Some(s@),
        None => None,
    }
}

/// Starts a PKCE authorization for the services: a random verifier and state, the
/// authorization URL that carries the challenge, and what the code exchange needs.
pub fn start_pkce_authorization(
    services: &[OauthService],
    client_id: &str,
    client_secret: Option<&str>,
    auth_base_url: &str,
    login_hint: Option<&str>,
) -> (r: Result<AuthorizationSession, ZocliError>)
    ensures
        services@.len() == 0 ==> (r matches Err(ZocliError::Config(m)) && m@
            == "OAuth authorization requires at least one target service"@),
        services@.len() > 0 ==> (r is Ok <==> joined_url(auth_base_url@, "/oauth/v2/auth"@) is Some),
        services@.len() > 0 && r is Err ==> r->Err_0 is Config,
        r matches Ok(s) ==> ({
            &&& joined_url(auth_base_url@, "/oauth/v2/auth"@) matches Some(ep)
                && s.request.authorization_url@ == spec_authorize_url(
                ep,
                dedup(all_scopes(services@)),
                client_id@,
                s.request.state@,
                spec_pkce_challenge(s.code_verifier@),
                opt_str(login_hint),
            )
            &&& s.request.redirect_uri@ == REDIRECT_URI@
            &&& s.request.code_challenge_method@ == "S256"@
            &&& s.client_id@ == client_id@
            &&& opt_text_of(s.client_secret) == opt_str(client_secret)
            &&& s.auth_base_url@ == auth_base_url@
            &&& exists|b: Seq<u8>| b.len() == 32 && s.code_verifier@ == #[trigger] base64_url_no_pad(b)
            &&& exists|b: Seq<u8>| b.len() == 16 && s.request.state@ == #[trigger] base64_url_no_pad(b)
        }),
{
    if services.len() == 0 {
        return Err(
            ZocliError::Config(
                String::from_str("OAuth authorization requires at least one target service"),
            ),
        );
    }
    let code_verifier = random_token(32);
    let code_challenge = pkce_challenge(code_verifier.as_str());
    let state = random_token(16);
    let scopes = deduped_scopes(services);
    let authorization_url = build_authorize_url(
        auth_base_url,
        &scopes,
        client_id,
        state.as_str(),
        code_challenge.as_str(),
        login_hint,
    )?;
    let request = AuthorizationRequest {
        authorization_url,
        redirect_uri: String::from_str(REDIRECT_URI),
        state,
        code_challenge_method: "S256",
    };
    let client_secret = match client_secret {
        Some(s) => Some(s.to_owned()),
        None => None,
    };
    Ok(
        AuthorizationSession {
            request,
            client_id: client_id.to_owned(),
            client_secret,
            code_verifier,
            auth_base_url: auth_base_url.to_owned(),
        },
    )
}

pub open spec fn opt_text_of(o: Option<String>) -> Option<Seq<char>> {
    match o {
        Some(s) => Some(s@),
        None => None,
    }
}


/// The first value of query parameter `key`, if any.
pub open spec fn first_query_value(pairs: Seq<(Seq<char>, Seq<char>)>, key: Seq<char>) -> Option<Seq<char>>
    decreases pairs.len(),
{
    if pairs.len() == 0 {
        None
    } else if pairs[0].0 == key {
        Some(pairs[0].1)
    } else {
        first_query_value(pairs.drop_first(), key)
    }
}

/// The authorization code a browser's callback request carries: the request line's target,
/// read as a URL on `http://localhost`, and its first `code` query parameter.
pub open spec fn spec_callback_code(request: Seq<char>) -> Option<Seq<char>> {
    let lines = crate::text::spec_lines(request);
    if lines.len() == 0 {
        None
    } else {
        let words = crate::text::spec_words(lines[0]);
        if words.len() < 2 {
            None
        } else {
            let url = "http://localhost"@ + words[1];
            if crate::urls::url_parse_failure(url) is Some {
                None
            } else {
                first_query_value(crate::urls::url_query_pairs(url), "code"@)
            }
        }
    }
}

fn find_query_value(pairs: &Vec<(String, String)>, key: &str) -> (r: Option<String>)
    ensures
        match r {
            Some(v) => first_query_value(
                pairs@.map_values(|p: (String, String)| (p.0@, p.1@)),
                key@,
            ) == Some(v@),
            None => first_query_value(pairs@.map_values(|p: (String, String)| (p.0@, p.1@)), key@) is None,
        },
{
    let ghost all = pairs@.map_values(|p: (String, String)| (p.0@, p.1@));
    let mut i: usize = 0;
    assert(all.skip(0) =~= all);
    while i < pairs.len()
        invariant
            i <= pairs@.len(),
            all == pairs@.map_values(|p: (String, String)| (p.0@, p.1@)),
            first_query_value(all, key@) == first_query_value(all.skip(i as int), key@),
        decreases pairs@.len() - i,
    {
        proof {
            assert(all.skip(i as int).drop_first() =~= all.skip(i + 1));
            assert(all.skip(i as int)[0] == (pairs@[i as int].0@, pairs@[i as int].1@));
        }
        if str_eq(pairs[i].0.as_str(), key) {
            return Some(pairs[i].1.clone());
        }
        i = i + 1;
    }
    proof {
        assert(all.skip(i as int).len() == 0);
    }
    None
}

/// Reads the authorization code out of the browser's callback request.
pub fn callback_code(request: &str) -> (r: Option<String>)
    ensures
        match r {
            Some(c) => spec_callback_code(request@) == Some(c@),
            None => spec_callback_code(request@) is None,
        },
{
    let lines = crate::text::lines_of(request);
    if lines.len() == 0 {
        return None;
    }
    let words = crate::text::words_of(lines[0].as_str());
    if words.len() < 2 {
        return None;
    }
    let url = cat("http://localhost", words[1].as_str());
    match crate::urls::url_parts(url.as_str()) {
        Ok(parts) => find_query_value(&parts.query_pairs, "code"),
        Err(_) => None,
    }
}

/// The page the browser is shown after the callback: success when a code came, else failure.
pub fn callback_response(code_received: bool) -> (r: String)
    ensures
        r@ == "HTTP/1.1 "@ + (if code_received {
            "200 OK"@
        } else {
            "400 Bad Request"@
        }) + "\r\nContent-Type: text/html\r\nConnection: close\r\n\r\n"@ + (if code_received {
            callback_success_page()
        } else {
            callback_failure_page()
        }),
{
    let mut r = String::from_str("HTTP/1.1 ");
    if code_received {
        r.append("200 OK");
    } else {
        r.append("400 Bad Request");
    }
    r.append("\r\nContent-Type: text/html\r\nConnection: close\r\n\r\n");
    if code_received {
        r.append(
            "<html><body style='font-family:system-ui;text-align:center;padding:60px'><h1>&#10004; Authorization successful</h1><p>You can close this tab.</p></body></html>",
        );
    } else {
        r.append(
            "<html><body style='font-family:system-ui;text-align:center;padding:60px'><h1>&#10008; Authorization failed</h1><p>No code received.</p></body></html>",
        );
    }
    r
}

pub open spec fn callback_success_page() -> Seq<char> {
    "<html><body style='font-family:system-ui;text-align:center;padding:60px'><h1>&#10004; Authorization successful</h1><p>You can close this tab.</p></body></html>"@
}

pub open spec fn callback_failure_page() -> Seq<char> {
    "<html><body style='font-family:system-ui;text-align:center;padding:60px'><h1>&#10008; Authorization failed</h1><p>No code received.</p></body></html>"@
}


/// A token request: the endpoint URL and its form fields in order.
#[derive(Debug)]
pub struct TokenRequest {
    pub url: String,
    pub form: Vec<(&'static str, String)>,
}

pub open spec fn form_views(f: Seq<(&'static str, String)>) -> Seq<(Seq<char>, Seq<char>)> {
    f.map_values(|p: (&'static str, String)| (p.0@, p.1@))
}

/// The request that trades an authorization code for tokens: `/oauth/v2/token` of the
/// session's base URL, with the grant, the code, the client, the redirect URI and the PKCE
/// verifier, and the client secret when there is one.
pub fn code_exchange_request(session: &AuthorizationSession, code: &str) -> (r: Result<TokenRequest, ZocliError>)
    ensures
        match r {
            Ok(t) => joined_url(session.auth_base_url@, "/oauth/v2/token"@) == Some(t.url@) && form_views(
                t.form@,
            ) == seq![
                ("grant_type"@, "authorization_code"@),
                ("code"@, code@),
                ("client_id"@, session.client_id@),
                ("redirect_uri"@, REDIRECT_URI@),
                ("code_verifier"@, session.code_verifier@),
            ] + match session.client_secret {
                Some(sec) => seq![("client_secret"@, sec@)],
                None => Seq::empty(),
            },
            Err(e) => joined_url(session.auth_base_url@, "/oauth/v2/token"@) is None && e is Config,
        },
{
    let url = oauth_endpoint(session.auth_base_url.as_str(), "/oauth/v2/token")?;
    let mut form: Vec<(&'static str, String)> = Vec::new();
    form.push(("grant_type", String::from_str("authorization_code")));
    form.push(("code", String::from_str(code)));
    form.push(("client_id", session.client_id.clone()));
    form.push(("redirect_uri", String::from_str(REDIRECT_URI)));
    form.push(("code_verifier", session.code_verifier.clone()));
    match &session.client_secret {
        Some(sec) => {
            form.push(("client_secret", sec.clone()));
        },
        None => {},
    }
    proof {
        reveal_strlit("grant_type");
        reveal_strlit("authorization_code");
        reveal_strlit("code");
        reveal_strlit("client_id");
        reveal_strlit("redirect_uri");
        reveal_strlit("code_verifier");
        reveal_strlit("client_secret");
        assert(form_views(form@) =~= seq![
            ("grant_type"@, "authorization_code"@),
            ("code"@, code@),
            ("client_id"@, session.client_id@),
            ("redirect_uri"@, REDIRECT_URI@),
            ("code_verifier"@, session.code_verifier@),
        ] + match session.client_secret {
            Some(sec) => seq![("client_secret"@, sec@)],
            None => Seq::empty(),
        });
    }
    Ok(TokenRequest { url, form })
}

/// The request that refreshes an access token: `/oauth/v2/token` with the refresh grant, the
/// refresh token and the client, and the client secret when there is one.
pub fn refresh_request(
    auth_base_url: &str,
    client_id: &str,
    client_secret: Option<&str>,
    refresh_token: &str,
) -> (r: Result<TokenRequest, ZocliError>)
    ensures
        match r {
            Ok(t) => joined_url(auth_base_url@, "/oauth/v2/token"@) == Some(t.url@) && form_views(t.form@)
                == seq![
                ("grant_type"@, "refresh_token"@),
                ("refresh_token"@, refresh_token@),
                ("client_id"@, client_id@),
            ] + match client_secret {
                Some(sec) => seq![("client_secret"@, sec@)],
                None => Seq::empty(),
            },
            Err(e) => joined_url(auth_base_url@, "/oauth/v2/token"@) is None && e is Config,
        },
{
    let url = oauth_endpoint(auth_base_url, "/oauth/v2/token")?;
    let mut form: Vec<(&'static str, String)> = Vec::new();
    form.push(("grant_type", String::from_str("refresh_token")));
    form.push(("refresh_token", String::from_str(refresh_token)));
    form.push(("client_id", String::from_str(client_id)));
    match client_secret {
        Some(sec) => {
            form.push(("client_secret", String::from_str(sec)));
        },
        None => {},
    }
    proof {
        reveal_strlit("grant_type");
        reveal_strlit("refresh_token");
        reveal_strlit("client_id");
        reveal_strlit("client_secret");
        assert(form_views(form@) =~= seq![
            ("grant_type"@, "refresh_token"@),
            ("refresh_token"@, refresh_token@),
            ("client_id"@, client_id@),
        ] + match client_secret {
            Some(sec) => seq![("client_secret"@, sec@)],
            None => Seq::empty(),
        });
    }
    Ok(TokenRequest { url, form })
}


/// Every scope a service asks for grants full access (`.ALL`) to its resource, but the mail
/// accounts list, which the client only reads.
pub proof fn law_scopes_grant_full_access(s: OauthService, i: int)
    requires
        0 <= i < spec_scopes(s).len(),
    ensures
        crate::text::has_suffix(spec_scopes(s)[i], ".ALL"@) || spec_scopes(s)[i]
            == "ZohoMail.accounts.READ"@,
{
    reveal_strlit(".ALL");
    reveal_strlit("ZohoMail.messages.ALL");
    reveal_strlit("ZohoMail.folders.ALL");
    reveal_strlit("ZohoMail.accounts.READ");
    reveal_strlit("ZohoCalendar.event.ALL");
    reveal_strlit("ZohoCalendar.calendar.ALL");
    reveal_strlit("WorkDrive.files.ALL");
    reveal_strlit("WorkDrive.workspace.ALL");
    reveal_strlit("WorkDrive.team.ALL");
    let x = spec_scopes(s)[i];
    assert(crate::text::has_suffix(x, ".ALL"@) || x == "ZohoMail.accounts.READ"@) by {
        assert(x.subrange(x.len() - 4, x.len() as int) =~= ".ALL"@ || x == "ZohoMail.accounts.READ"@);
    }
}

proof fn lemma_all_scopes_contains(services: Seq<OauthService>, j: int, x: Seq<char>)
    requires
        0 <= j < services.len(),
        spec_scopes(services[j]).contains(x),
    ensures
        all_scopes(services).contains(x),
    decreases services.len(),
{
    let k = choose|k: int| 0 <= k < spec_scopes(services[j]).len() && spec_scopes(services[j])[k] == x;
    if j == services.len() - 1 {
        let a = all_scopes(services.drop_last());
        assert((a + spec_scopes(services.last()))[a.len() + k] == x);
    } else {
        lemma_all_scopes_contains(services.drop_last(), j, x);
        let a = all_scopes(services.drop_last());
        let i = choose|i: int| 0 <= i < a.len() && a[i] == x;
        assert((a + spec_scopes(services.last()))[i] == x);
    }
}

proof fn lemma_dedup_keeps(s: Seq<Seq<char>>, x: Seq<char>)
    requires
        s.contains(x),
    ensures
        dedup(s).contains(x),
    decreases s.len(),
{
    if s.last() == x {
        if !dedup(s.drop_last()).contains(x) {
            assert(dedup(s.drop_last()).push(x)[dedup(s.drop_last()).len() as int] == x);
        }
    } else {
        let i = choose|i: int| 0 <= i < s.len() && s[i] == x;
        assert(s.drop_last()[i] == x);
        lemma_dedup_keeps(s.drop_last(), x);
        if !dedup(s.drop_last()).contains(s.last()) {
            let k = choose|k: int| 0 <= k < dedup(s.drop_last()).len() && dedup(s.drop_last())[k] == x;
            assert(dedup(s.drop_last()).push(s.last())[k] == x);
        }
    }
}

/// A login that includes the calendar asks for full access to events and calendars, so the
/// commands that create and delete events can use the token it gives.
pub proof fn law_calendar_login_grants_event_writes(services: Seq<OauthService>)
    requires
        services.contains(OauthService::Calendar),
    ensures
        dedup(all_scopes(services)).contains("ZohoCalendar.event.ALL"@),
        dedup(all_scopes(services)).contains("ZohoCalendar.calendar.ALL"@),
{
    let j = choose|j: int| 0 <= j < services.len() && services[j] == OauthService::Calendar;
    assert(spec_scopes(services[j])[0] == "ZohoCalendar.event.ALL"@);
    assert(spec_scopes(services[j])[1] == "ZohoCalendar.calendar.ALL"@);
    lemma_all_scopes_contains(services, j, "ZohoCalendar.event.ALL"@);
    lemma_all_scopes_contains(services, j, "ZohoCalendar.calendar.ALL"@);
    lemma_dedup_keeps(all_scopes(services), "ZohoCalendar.event.ALL"@);
    lemma_dedup_keeps(all_scopes(services), "ZohoCalendar.calendar.ALL"@);
}

} // verus!
