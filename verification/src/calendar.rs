//! Zoho Calendar: time windows, calendar selection, event ordering and request checks.
use vstd::prelude::*;
use vstd::string::*;
use crate::error::ZocliError;
use crate::text::{
    all_ws,
    cat,
    cat3,
    decimal,
    is_all_whitespace,
    seq_lt,
    str_eq,
    str_lt,
    to_chars,
    trim,
    trim_seq,
    u64_to_string,
    from_char_range,
};

verus! {

broadcast use vstd::string::group_string_axioms;

/// An instant in UTC as chrono holds it: seconds since the Unix epoch and nanoseconds
/// (at or above 10^9 only in a leap second).
pub type Instant = (i64, u32);

/// Instants in time order.
pub open spec fn instant_le(a: Instant, b: Instant) -> bool {
    a.0 < b.0 || (a.0 == b.0 && a.1 <= b.1)
}

/// `chrono::DateTime::<Utc>::from_timestamp(secs, nanos)` gives a date-time.
pub uninterp spec fn instant_valid(secs: i64, nanos: u32) -> bool;

/// Midnight UTC of a `YYYY-MM-DD` date (`NaiveDate::parse_from_str` with `%Y-%m-%d`).
pub uninterp spec fn date_start_secs(value: Seq<char>) -> Option<i64>;

/// The instant an RFC 3339 timestamp denotes (`DateTime::parse_from_rfc3339`).
pub uninterp spec fn rfc3339_instant(value: Seq<char>) -> Option<Instant>;

/// RFC 3339 text of an instant in whole seconds with a `Z` suffix
/// (`to_rfc3339_opts(SecondsFormat::Secs, true)`).
pub uninterp spec fn rfc3339_text(secs: i64, nanos: u32) -> Seq<char>;

/// Zoho's `yyyyMMdd'T'HHmmss'Z'` text of an instant (chrono format `%Y%m%dT%H%M%SZ`).
pub uninterp spec fn zoho_text(secs: i64, nanos: u32) -> Seq<char>;

/// `NaiveDate::parse_from_str(value, "%Y-%m-%d")` at 00:00:00 UTC, as Unix seconds.
#[verifier::external_body]
fn parse_date_start(value: &str) -> (r: Option<i64>)
    ensures
        r == date_start_secs(value@),
        r matches Some(s) ==> instant_valid(s, 0),
{
    chrono::NaiveDate::parse_from_str(value, "%Y-%m-%d").ok().and_then(|d| d.and_hms_opt(0, 0, 0)).map(
        |dt| dt.and_utc().timestamp(),
    )
}

/// `DateTime::parse_from_rfc3339(value)` in UTC, as seconds and nanoseconds.
#[verifier::external_body]
fn parse_rfc3339(value: &str) -> (r: Option<Instant>)
    ensures
        r == rfc3339_instant(value@),
        r matches Some(p) ==> instant_valid(p.0, p.1),
{
    chrono::DateTime::parse_from_rfc3339(value).ok().map(
        |v| {
            let u = v.with_timezone(&chrono::Utc);
            (u.timestamp(), u.timestamp_subsec_nanos())
        },
    )
}

/// `to_rfc3339_opts(SecondsFormat::Secs, true)` of the instant.
#[verifier::external_body]
fn format_rfc3339(secs: i64, nanos: u32) -> (r: String)
    requires
        instant_valid(secs, nanos),
    ensures
        r@ == rfc3339_text(secs, nanos),
{
    chrono::DateTime::from_timestamp(secs, nanos).unwrap().to_rfc3339_opts(
        chrono::SecondsFormat::Secs,
        true,
    )
}

/// The instant in Zoho's `yyyyMMdd'T'HHmmss'Z'` form (chrono format `%Y%m%dT%H%M%SZ`).
#[verifier::external_body]
fn format_zoho_datetime(secs: i64, nanos: u32) -> (r: String)
    requires
        instant_valid(secs, nanos),
    ensures
        r@ == zoho_text(secs, nanos),
{
    chrono::DateTime::from_timestamp(secs, nanos).unwrap().format("%Y%m%dT%H%M%SZ").to_string()
}

/// The UTC calendar date of the instant as `YYYY-MM-DD` (chrono format `%Y-%m-%d`).
pub uninterp spec fn date_text(secs: i64, nanos: u32) -> Seq<char>;

/// The instant's date in the `%Y-%m-%d` form.
#[verifier::external_body]
pub(crate) fn format_date(secs: i64, nanos: u32) -> (r: String)
    requires
        instant_valid(secs, nanos),
    ensures
        r@ == date_text(secs, nanos),
{
    chrono::DateTime::from_timestamp(secs, nanos).unwrap().format("%Y-%m-%d").to_string()
}

/// `chrono::Utc::now()`; only that it is a valid instant is promised.
#[verifier::external_body]
pub(crate) fn now_instant() -> (r: Instant)
    ensures
        instant_valid(r.0, r.1),
{
    let n = chrono::Utc::now();
    (n.timestamp(), n.timestamp_subsec_nanos())
}

/// What chrono's `checked_add_days(Days::new(days))` gives on the UTC instant `(secs, nanos)`.
pub uninterp spec fn days_later(secs: i64, nanos: u32, days: u64) -> Option<Instant>;

/// `checked_add_days(Days::new(days))` on the UTC instant: the same time of day `days` days
/// later, or None out of chrono's range (where exactly is not stated).
#[verifier::external_body]
pub(crate) fn add_days(secs: i64, nanos: u32, days: u64) -> (r: Option<Instant>)
    requires
        instant_valid(secs, nanos),
    ensures
        r == days_later(secs, nanos, days),
        r matches Some(p) ==> p.0 == secs + days * 86400 && p.1 == nanos && instant_valid(p.0, p.1),
{
    chrono::DateTime::from_timestamp(secs, nanos).unwrap().checked_add_days(
        chrono::Days::new(days),
    ).map(|d| (d.timestamp(), d.timestamp_subsec_nanos()))
}

/// The instant a `YYYY-MM-DD` date (at midnight UTC) or an RFC 3339 timestamp denotes.
pub open spec fn spec_parse_instant(value: Seq<char>) -> Option<Instant> {
    match date_start_secs(value) {
        Some(s) => Some((s, 0u32)),
        None => rfc3339_instant(value),
    }
}

pub open spec fn bad_time_message(flag: Seq<char>, value: Seq<char>) -> Seq<char> {
    flag + " must use YYYY-MM-DD or RFC3339, got `"@ + value + "`"@
}

/// Parses a `YYYY-MM-DD` date or an RFC 3339 timestamp.
pub fn parse_rfc3339_or_date(value: &str, flag_name: &str) -> (r: Result<Instant, ZocliError>)
    ensures
        match spec_parse_instant(value@) {
            Some(p) => r == Ok::<Instant, ZocliError>(p) && instant_valid(p.0, p.1),
            None => r matches Err(ZocliError::Validation(m)) && m@ == bad_time_message(
                flag_name@,
                value@,
            ),
        },
{
    match parse_date_start(value) {
        Some(s) => Ok((s, 0)),
        None => match parse_rfc3339(value) {
            Some(p) => Ok(p),
            None => {
                let mut m = cat(flag_name, " must use YYYY-MM-DD or RFC3339, got `");
                m.append(value);
                m.append("`");
                Err(ZocliError::Validation(m))
            },
        },
    }
}

/// A user-supplied start or end in Zoho's date-time form.
pub fn to_zoho_datetime_from_input(value: &str, flag_name: &str) -> (r: Result<String, ZocliError>)
    ensures
        match spec_parse_instant(value@) {
            Some(p) => r matches Ok(s) && s@ == zoho_text(p.0, p.1),
            None => r matches Err(ZocliError::Validation(m)) && m@ == bad_time_message(
                flag_name@,
                value@,
            ),
        },
{
    let p = parse_rfc3339_or_date(value, flag_name)?;
    Ok(format_zoho_datetime(p.0, p.1))
}

/// The span of time a calendar listing covers, and how many events it shows at most.
#[derive(Debug)]
pub struct CalendarEventWindow {
    pub from: String,
    pub to: String,
    pub limit: usize,
}

/// A window of events, or the message of the validation error that rejects the inputs, for
/// the current instant `now`. Without `from` the window starts now; without `to` it ends
/// 30 days after now.
pub open spec fn spec_event_window(
    from: Option<Seq<char>>,
    to: Option<Seq<char>>,
    limit: usize,
    now: Instant,
    default_to: Option<Instant>,
) -> Result<(Instant, Instant), Seq<char>> {
    if limit == 0 {
        Err("calendar events --limit must be greater than zero"@)
    } else if limit > 100 {
        Err("calendar events --limit must not be greater than 100"@)
    } else if default_to is None {
        Err("failed to compute default calendar time window"@)
    } else {
        let f = match from {
            Some(v) => spec_parse_instant(v),
            None => Some(now),
        };
        let t = match to {
            Some(v) => spec_parse_instant(v),
            None => default_to,
        };
        if f is None {
            Err(bad_time_message("calendar events <FROM>"@, from->0))
        } else if t is None {
            Err(bad_time_message("calendar events <TO>"@, to->0))
        } else if instant_le(t->0, f->0) {
            Err("calendar events <TO> must be after <FROM>"@)
        } else {
            Ok((f->0, t->0))
        }
    }
}

pub open spec fn opt_view(o: Option<&str>) -> Option<Seq<char>> {
    match o {
        Some(s) => Some(s@),
        None => None,
    }
}

/// `r` is the window that `spec_event_window` gives, in RFC 3339 text, or its error.
pub open spec fn window_outcome(
    r: Result<CalendarEventWindow, ZocliError>,
    from: Option<Seq<char>>,
    to: Option<Seq<char>>,
    limit: usize,
    now: Instant,
    default_to: Option<Instant>,
) -> bool {
    match spec_event_window(from, to, limit, now, default_to) {
        Ok((f, t)) => r matches Ok(w) && w.from@ == rfc3339_text(f.0, f.1) && w.to@ == rfc3339_text(
            t.0,
            t.1,
        ) && w.limit == limit,
        Err(m) => r matches Err(ZocliError::Validation(x)) && x@ == m,
    }
}

/// The event window at instant `now`; `default_to` is `now` moved 30 days on.
pub fn parse_event_window_at(
    from: Option<&str>,
    to: Option<&str>,
    limit: usize,
    now: Instant,
    default_to: Option<Instant>,
) -> (r: Result<CalendarEventWindow, ZocliError>)
    requires
        instant_valid(now.0, now.1),
        default_to matches Some(d) ==> instant_valid(d.0, d.1),
    ensures
        window_outcome(r, opt_view(from), opt_view(to), limit, now, default_to),
{
    if limit == 0 {
        return Err(
            ZocliError::Validation(
                String::from_str("calendar events --limit must be greater than zero"),
            ),
        );
    }
    if limit > 100 {
        return Err(
            ZocliError::Validation(
                String::from_str("calendar events --limit must not be greater than 100"),
            ),
        );
    }
    let default_to = match default_to {
        Some(d) => d,
        None => {
            return Err(
                ZocliError::Validation(
                    String::from_str("failed to compute default calendar time window"),
                ),
            );
        },
    };
    let f = match from {
        Some(value) => parse_rfc3339_or_date(value, "calendar events <FROM>")?,
        None => now,
    };
    let t = match to {
        Some(value) => parse_rfc3339_or_date(value, "calendar events <TO>")?,
        None => default_to,
    };
    if t.0 < f.0 || (t.0 == f.0 && t.1 <= f.1) {
        return Err(
            ZocliError::Validation(String::from_str("calendar events <TO> must be after <FROM>")),
        );
    }
    Ok(
        CalendarEventWindow {
            from: format_rfc3339(f.0, f.1),
            to: format_rfc3339(t.0, t.1),
            limit,
        },
    )
}

/// The event window from now: parses the bounds (see `parse_event_window_at`).
pub fn parse_event_window(from: Option<&str>, to: Option<&str>, limit: usize) -> (r: Result<
    CalendarEventWindow,
    ZocliError,
>)
    ensures
        exists|now: Instant|
            #![trigger days_later(now.0, now.1, 30)]
            instant_valid(now.0, now.1) && window_outcome(
                r,
                opt_view(from),
                opt_view(to),
                limit,
                now,
                days_later(now.0, now.1, 30),
            ) && (days_later(now.0, now.1, 30) matches Some(d) ==> d.0 == now.0 + 30 * 86400 && d.1
                == now.1),
{
    let now = now_instant();
    let default_to = add_days(now.0, now.1, 30);
    parse_event_window_at(from, to, limit, now, default_to)
}

/// One calendar of the user.
#[derive(Debug)]
pub struct CalendarInfo {
    pub uid: String,
    pub name: String,
    pub color: String,
    pub is_default: bool,
}

/// One calendar event.
#[derive(Debug)]
pub struct CalendarEvent {
    pub uid: String,
    pub title: String,
    pub start: String,
    pub end: String,
    pub location: Option<String>,
    pub description: Option<String>,
    pub etag: Option<String>,
}

/// The result of creating an event.
#[derive(Debug)]
pub struct CreatedEvent {
    pub uid: String,
}

/// What a new event is made of, as the user gives it.
#[derive(Debug)]
pub struct CreateEventRequest {
    pub title: String,
    pub start: String,
    pub end: String,
    pub description: Option<String>,
    pub location: Option<String>,
}

/// A calendar as the listing commands show it.
#[derive(Debug)]
pub struct CalendarCollection {
    pub id: String,
    pub name: String,
    pub href: String,
    pub description: Option<String>,
}

/// A request to list events of a calendar (named by uid, name or `default`).
#[derive(Debug)]
pub struct CalendarEventsRequest {
    pub calendar: String,
    pub from: Instant,
    pub to: Instant,
    pub limit: usize,
}

/// A request to create an event in a calendar (named by uid, name or `default`).
#[derive(Debug)]
pub struct CalendarCreateRequest {
    pub calendar: String,
    pub summary: String,
    pub start: String,
    pub end: String,
    pub description: Option<String>,
    pub location: Option<String>,
}

/// A calendar as the Zoho API lists it.
#[derive(Debug)]
pub struct ZohoCalendar {
    pub uid: String,
    pub name: String,
    pub color: String,
    pub isdefault: bool,
}

/// An event as the Zoho API lists it; `dateandtime` holds start and end.
#[derive(Debug)]
pub struct ZohoEvent {
    pub uid: String,
    pub title: String,
    pub dateandtime: Option<(String, String)>,
    pub location: Option<String>,
    pub description: Option<String>,
    pub etag: Option<String>,
}

pub open spec fn cal_matches(c: CalendarInfo, reference: Seq<char>) -> bool {
    c.uid@ == reference || c.name@ == reference
}

/// Calendar `i` is the one a reference selects: for `default` the first calendar flagged
/// default, or the first calendar when none is; otherwise the first whose uid or name is the
/// reference.
pub open spec fn selects(cals: Seq<CalendarInfo>, reference: Seq<char>, i: int) -> bool {
    if reference == "default"@ {
        ||| (0 <= i < cals.len() && cals[i].is_default && forall|j: int|
            0 <= j < i ==> !(#[trigger] cals[j]).is_default)
        ||| (i == 0 && cals.len() > 0 && forall|j: int|
            0 <= j < cals.len() ==> !(#[trigger] cals[j]).is_default)
    } else {
        0 <= i < cals.len() && cal_matches(cals[i], reference) && forall|j: int|
            0 <= j < i ==> !cal_matches(#[trigger] cals[j], reference)
    }
}

/// The calendar that `calendar_ref` selects.
pub fn find_calendar_info<'a>(calendars: &'a [CalendarInfo], calendar_ref: &str) -> (r: Result<
    &'a CalendarInfo,
    ZocliError,
>)
    ensures
        r matches Ok(c) ==> exists|i: int| #[trigger] selects(calendars@, calendar_ref@, i) && *c
            == calendars@[i],
        r is Err ==> forall|i: int| !(#[trigger] selects(calendars@, calendar_ref@, i)),
        r is Err && calendar_ref@ == "default"@ ==> (r->Err_0 matches ZocliError::Validation(m)
            && m@ == "no calendars found"@),
        r is Err && calendar_ref@ != "default"@ ==> (r->Err_0 matches ZocliError::Validation(m)
            && m@ == "calendar `"@ + calendar_ref@
            + "` not found; run `zocli calendar calendars` to inspect available ids"@),
{
    let n = calendars.len();
    if str_eq(calendar_ref, "default") {
        let mut i: usize = 0;
        while i < n
            invariant
                n == calendars@.len(),
                i <= n,
                calendar_ref@ == "default"@,
                forall|j: int| 0 <= j < i ==> !(#[trigger] calendars@[j]).is_default,
            decreases n - i,
        {
            if calendars[i].is_default {
                assert(selects(calendars@, calendar_ref@, i as int));
                return Ok(&calendars[i]);
            }
            i = i + 1;
        }
        if n > 0 {
            assert(selects(calendars@, calendar_ref@, 0));
            return Ok(&calendars[0]);
        }
        return Err(ZocliError::Validation(String::from_str("no calendars found")));
    }
    let mut i: usize = 0;
    while i < n
        invariant
            n == calendars@.len(),
            i <= n,
            calendar_ref@ != "default"@,
            forall|j: int| 0 <= j < i ==> !cal_matches(#[trigger] calendars@[j], calendar_ref@),
        decreases n - i,
    {
        if str_eq(calendars[i].uid.as_str(), calendar_ref) || str_eq(
            calendars[i].name.as_str(),
            calendar_ref,
        ) {
            assert(selects(calendars@, calendar_ref@, i as int));
            return Ok(&calendars[i]);
        }
        i = i + 1;
    }
    let mut m = cat("calendar `", calendar_ref);
    m.append("` not found; run `zocli calendar calendars` to inspect available ids");
    Err(ZocliError::Validation(m))
}

/// The text, unless it is blank.
pub fn non_empty(value: Option<String>) -> (r: Option<String>)
    ensures
        match value {
            Some(s) => if all_ws(s@) {
                r is None
            } else {
                r == Some(s)
            },
            None => r is None,
        },
{
    match value {
        Some(s) => {
            if is_all_whitespace(s.as_str()) {
                None
            } else {
                Some(s)
            }
        },
        None => None,
    }
}

/// A response body cut to 240 characters, marked with `...` when cut.
pub open spec fn spec_truncate_body(body: Seq<char>) -> Seq<char> {
    if body.len() <= 240 {
        body
    } else {
        body.take(240) + "..."@
    }
}

pub fn truncate_body(body: &str) -> (r: String)
    ensures
        r@ == spec_truncate_body(body@),
{
    let v = to_chars(body);
    if v.len() <= 240 {
        return body.to_owned();
    }
    let mut r = from_char_range(&v, 0, 240);
    r.append("...");
    r
}

/// Checks the HTTP status of a calendar API response: success passes; 401 and 403 are
/// authentication errors; 429 is rate limiting; anything else an API error.
pub fn check_response_status(status: u16, action: &str) -> (r: Result<(), ZocliError>)
    ensures
        200 <= status <= 299 ==> r is Ok,
        (status == 401 || status == 403) ==> (r matches Err(ZocliError::Auth(m)) && m@ == action@
            + " failed with status "@ + decimal(status as nat)
            + ". Check the Zoho access token."@),
        status == 429 ==> (r matches Err(ZocliError::Api(m)) && m@ == action@
            + " rate limited (429). Try again later."@),
        !(200 <= status <= 299) && status != 401 && status != 403 && status != 429 ==> (r matches Err(
            ZocliError::Api(m),
        ) && m@ == action@ + " failed with status "@ + decimal(status as nat)),
{
    if 200 <= status && status <= 299 {
        return Ok(());
    }
    let code = u64_to_string(status as u64);
    if status == 401 || status == 403 {
        let mut m = cat3(action, " failed with status ", code.as_str());
        m.append(". Check the Zoho access token.");
        return Err(ZocliError::Auth(m));
    }
    if status == 429 {
        return Err(ZocliError::Api(cat(action, " rate limited (429). Try again later.")));
    }
    Err(ZocliError::Api(cat3(action, " failed with status ", code.as_str())))
}

/// The outcome of a delete request by its status and body: success (204 expected) passes;
/// 401 and 403 are authentication errors; anything else an API error quoting the body.
pub fn check_delete_status(status: u16, body: &str) -> (r: Result<(), ZocliError>)
    ensures
        (status == 401 || status == 403) ==> (r matches Err(ZocliError::Auth(m)) && m@
            == "delete event failed with status "@ + decimal(status as nat)
            + ". Check the Zoho access token."@),
        status != 401 && status != 403 && 200 <= status <= 299 ==> r is Ok,
        status != 401 && status != 403 && !(200 <= status <= 299) ==> (r matches Err(
            ZocliError::Api(m),
        ) && m@ == "delete event failed with status "@ + decimal(status as nat) + ": "@
            + spec_truncate_body(body@)),
{
    let code = u64_to_string(status as u64);
    if status == 401 || status == 403 {
        let mut m = cat("delete event failed with status ", code.as_str());
        m.append(". Check the Zoho access token.");
        return Err(ZocliError::Auth(m));
    }
    if !(200 <= status && status <= 299) {
        let mut m = cat("delete event failed with status ", code.as_str());
        m.append(": ");
        let t = truncate_body(body);
        m.append(t.as_str());
        return Err(ZocliError::Api(m));
    }
    Ok(())
}

/// `x` inserted into `s` after every element it does not precede: one step of a stable
/// insertion sort under the strict order `lt`.
pub open spec fn ins<T>(s: Seq<T>, x: T, lt: spec_fn(T, T) -> bool) -> Seq<T>
    decreases s.len(),
{
    if s.len() == 0 {
        seq![x]
    } else if lt(x, s.last()) {
        ins(s.drop_last(), x, lt).push(s.last())
    } else {
        s.push(x)
    }
}

/// `s` stably sorted under the strict order `lt`: elements that neither precedes keep their
/// order.
pub open spec fn isort<T>(s: Seq<T>, lt: spec_fn(T, T) -> bool) -> Seq<T>
    decreases s.len(),
{
    if s.len() == 0 {
        s
    } else {
        ins(isort(s.drop_last(), lt), s.last(), lt)
    }
}

/// Calendars ordered by name.
pub open spec fn cal_order() -> spec_fn(CalendarInfo, CalendarInfo) -> bool {
    |a: CalendarInfo, b: CalendarInfo| seq_lt(a.name@, b.name@)
}

/// Events ordered by start, then title, then uid.
pub open spec fn event_order() -> spec_fn(CalendarEvent, CalendarEvent) -> bool {
    |a: CalendarEvent, b: CalendarEvent|
        seq_lt(a.start@, b.start@) || (a.start@ == b.start@ && (seq_lt(a.title@, b.title@) || (
        a.title@ == b.title@ && seq_lt(a.uid@, b.uid@))))
}

pub proof fn lemma_ins_step<T>(s: Seq<T>, p: int, x: T, lt: spec_fn(T, T) -> bool)
    requires
        0 < p <= s.len(),
        lt(x, s[p - 1]),
    ensures
        ins(s.take(p), x, lt) + s.skip(p) == ins(s.take(p - 1), x, lt) + s.skip(p - 1),
{
    assert(s.take(p).drop_last() =~= s.take(p - 1));
    assert(s.take(p).last() == s[p - 1]);
    assert(ins(s.take(p - 1), x, lt).push(s[p - 1]) + s.skip(p) =~= ins(s.take(p - 1), x, lt)
        + s.skip(p - 1));
}

fn event_lt(a: &CalendarEvent, b: &CalendarEvent) -> (r: bool)
    ensures
        r == (event_order())(*a, *b),
{
    if str_lt(a.start.as_str(), b.start.as_str()) {
        return true;
    }
    if !str_eq(a.start.as_str(), b.start.as_str()) {
        return false;
    }
    if str_lt(a.title.as_str(), b.title.as_str()) {
        return true;
    }
    if !str_eq(a.title.as_str(), b.title.as_str()) {
        return false;
    }
    str_lt(a.uid.as_str(), b.uid.as_str())
}

fn insert_calendar(v: &mut Vec<CalendarInfo>, x: CalendarInfo)
    ensures
        final(v)@ == ins(old(v)@, x, cal_order()),
{
    let ghost s = v@;
    let mut p = v.len();
    proof {
        assert(s.take(s.len() as int) =~= s);
        assert(s.skip(s.len() as int) =~= Seq::<CalendarInfo>::empty());
    }
    while p > 0 && str_lt(x.name.as_str(), v[p - 1].name.as_str())
        invariant
            v@ == s,
            p <= s.len(),
            ins(s, x, cal_order()) == ins(s.take(p as int), x, cal_order()) + s.skip(p as int),
        decreases p,
    {
        proof {
            lemma_ins_step(s, p as int, x, cal_order());
        }
        p = p - 1;
    }
    proof {
        if p > 0 {
            assert(s.take(p as int).last() == s[p - 1]);
        }
        assert(ins(s.take(p as int), x, cal_order()) == s.take(p as int).push(x));
        assert(s.take(p as int).push(x) + s.skip(p as int) =~= s.insert(p as int, x));
    }
    v.insert(p, x);
}

fn insert_event(v: &mut Vec<CalendarEvent>, x: CalendarEvent)
    ensures
        final(v)@ == ins(old(v)@, x, event_order()),
{
    let ghost s = v@;
    let mut p = v.len();
    proof {
        assert(s.take(s.len() as int) =~= s);
        assert(s.skip(s.len() as int) =~= Seq::<CalendarEvent>::empty());
    }
    while p > 0 && event_lt(&x, &v[p - 1])
        invariant
            v@ == s,
            p <= s.len(),
            ins(s, x, event_order()) == ins(s.take(p as int), x, event_order()) + s.skip(p as int),
        decreases p,
    {
        proof {
            lemma_ins_step(s, p as int, x, event_order());
        }
        p = p - 1;
    }
    proof {
        if p > 0 {
            assert(s.take(p as int).last() == s[p - 1]);
        }
        assert(ins(s.take(p as int), x, event_order()) == s.take(p as int).push(x));
        assert(s.take(p as int).push(x) + s.skip(p as int) =~= s.insert(p as int, x));
    }
    v.insert(p, x);
}

/// The calendars sorted by name, stably.
pub fn sort_calendars(v: Vec<CalendarInfo>) -> (r: Vec<CalendarInfo>)
    ensures
        r@ == isort(v@, cal_order()),
{
    let ghost orig = v@;
    let mut rest = v;
    let mut out: Vec<CalendarInfo> = Vec::new();
    let n = rest.len();
    let mut i: usize = 0;
    proof {
        assert(orig.take(0) =~= Seq::<CalendarInfo>::empty());
        assert(orig.skip(0) =~= orig);
    }
    while i < n
        invariant
            n == orig.len(),
            i <= n,
            rest@ == orig.skip(i as int),
            out@ == isort(orig.take(i as int), cal_order()),
        decreases n - i,
    {
        let x = rest.remove(0);
        proof {
            assert(orig.take(i + 1).drop_last() =~= orig.take(i as int));
            assert(orig.take(i + 1).last() == x);
            assert(rest@ =~= orig.skip(i + 1));
        }
        insert_calendar(&mut out, x);
        i = i + 1;
    }
    proof {
        assert(orig.take(n as int) =~= orig);
    }
    out
}

/// The events sorted by start, title and uid (stably), keeping the first `limit`.
pub fn sort_and_limit_events(v: Vec<CalendarEvent>, limit: usize) -> (r: Vec<CalendarEvent>)
    ensures
        r@ == isort(v@, event_order()).take(
            if limit < v@.len() {
                limit as int
            } else {
                v@.len() as int
            },
        ),
{
    let ghost orig = v@;
    let mut rest = v;
    let mut out: Vec<CalendarEvent> = Vec::new();
    let n = rest.len();
    let mut i: usize = 0;
    proof {
        assert(orig.take(0) =~= Seq::<CalendarEvent>::empty());
        assert(orig.skip(0) =~= orig);
    }
    while i < n
        invariant
            n == orig.len(),
            i <= n,
            rest@ == orig.skip(i as int),
            out@ == isort(orig.take(i as int), event_order()),
        decreases n - i,
    {
        let x = rest.remove(0);
        proof {
            assert(orig.take(i + 1).drop_last() =~= orig.take(i as int));
            assert(orig.take(i + 1).last() == x);
            assert(rest@ =~= orig.skip(i + 1));
        }
        insert_event(&mut out, x);
        i = i + 1;
    }
    proof {
        assert(orig.take(n as int) =~= orig);
        lemma_isort_len(orig, event_order());
    }
    if out.len() > limit {
        out.truncate(limit);
    }
    proof {
        assert(out@ =~= isort(orig, event_order()).take(
            if limit < orig.len() {
                limit as int
            } else {
                orig.len() as int
            },
        ));
    }
    out
}

proof fn lemma_ins_len<T>(s: Seq<T>, x: T, lt: spec_fn(T, T) -> bool)
    ensures
        ins(s, x, lt).len() == s.len() + 1,
    decreases s.len(),
{
    if s.len() > 0 && lt(x, s.last()) {
        lemma_ins_len(s.drop_last(), x, lt);
    }
}

pub proof fn lemma_isort_len<T>(s: Seq<T>, lt: spec_fn(T, T) -> bool)
    ensures
        isort(s, lt).len() == s.len(),
    decreases s.len(),
{
    if s.len() > 0 {
        lemma_isort_len(s.drop_last(), lt);
        lemma_ins_len(isort(s.drop_last(), lt), s.last(), lt);
    }
}

/// `s` is ordered under the strict order `lt`: no element precedes one before it.
pub open spec fn sorted_by<T>(s: Seq<T>, lt: spec_fn(T, T) -> bool) -> bool {
    forall|i: int, j: int| 0 <= i < j < s.len() ==> !lt(#[trigger] s[j], #[trigger] s[i])
}

/// `lt` is a strict weak order: asymmetric, and whatever `a` precedes, every `b` is either
/// preceded by `a` or precedes it.
pub open spec fn strict_weak_order<T>(lt: spec_fn(T, T) -> bool) -> bool {
    &&& forall|a: T, b: T| #[trigger] lt(a, b) ==> !lt(b, a)
    &&& forall|a: T, b: T, c: T| #![trigger lt(a, b), lt(b, c)] #![trigger lt(a, c), lt(a, b)]
        lt(a, c) ==> lt(a, b) || lt(b, c)
}

proof fn lemma_ins_all<T>(s: Seq<T>, x: T, lt: spec_fn(T, T) -> bool, p: spec_fn(T) -> bool)
    requires
        p(x),
        forall|i: int| 0 <= i < s.len() ==> p(#[trigger] s[i]),
    ensures
        forall|i: int| 0 <= i < ins(s, x, lt).len() ==> p(#[trigger] ins(s, x, lt)[i]),
    decreases s.len(),
{
    if s.len() == 0 {
        assert(ins(s, x, lt) =~= seq![x]);
    } else if lt(x, s.last()) {
        let d = s.drop_last();
        assert forall|i: int| 0 <= i < d.len() implies p(#[trigger] d[i]) by {
            assert(d[i] == s[i]);
        }
        lemma_ins_all(d, x, lt, p);
        let r = ins(d, x, lt);
        assert(p(s[s.len() - 1]));
        assert forall|i: int| 0 <= i < r.push(s.last()).len() implies p(
            #[trigger] r.push(s.last())[i],
        ) by {
            if i < r.len() {
                assert(r.push(s.last())[i] == r[i]);
            }
        }
    } else {
        assert forall|i: int| 0 <= i < s.push(x).len() implies p(#[trigger] s.push(x)[i]) by {
            if i < s.len() {
                assert(s.push(x)[i] == s[i]);
            }
        }
    }
}

proof fn lemma_ins_sorted<T>(s: Seq<T>, x: T, lt: spec_fn(T, T) -> bool)
    requires
        strict_weak_order(lt),
        sorted_by(s, lt),
    ensures
        sorted_by(ins(s, x, lt), lt),
    decreases s.len(),
{
    if s.len() == 0 {
    } else if lt(x, s.last()) {
        let d = s.drop_last();
        let l = s.last();
        assert(sorted_by(d, lt)) by {
            assert forall|i: int, j: int| 0 <= i < j < d.len() implies !lt(
                #[trigger] d[j],
                #[trigger] d[i],
            ) by {
                assert(d[j] == s[j] && d[i] == s[i]);
            }
        }
        lemma_ins_sorted(d, x, lt);
        let p = |y: T| !lt(l, y);
        assert forall|i: int| 0 <= i < d.len() implies p(#[trigger] d[i]) by {
            assert(d[i] == s[i]);
            assert(!lt(s[s.len() - 1], s[i]));
        }
        assert(!lt(l, x));
        lemma_ins_all(d, x, lt, p);
        let r = ins(d, x, lt);
        assert forall|i: int, j: int| 0 <= i < j < r.push(l).len() implies !lt(
            #[trigger] r.push(l)[j],
            #[trigger] r.push(l)[i],
        ) by {
            if j == r.len() {
                assert(p(r[i]));
            } else {
                assert(r.push(l)[j] == r[j] && r.push(l)[i] == r[i]);
            }
        }
    } else {
        let l = s.last();
        assert forall|i: int, j: int| 0 <= i < j < s.push(x).len() implies !lt(
            #[trigger] s.push(x)[j],
            #[trigger] s.push(x)[i],
        ) by {
            if j == s.len() {
                if i < s.len() - 1 {
                    assert(!lt(s[s.len() - 1], s[i]));
                    if lt(x, s[i]) {
                        assert(lt(x, l) || lt(l, s[i]));
                    }
                }
            } else {
                assert(s.push(x)[j] == s[j] && s.push(x)[i] == s[i]);
            }
        }
    }
}

proof fn lemma_ins_multiset<T>(s: Seq<T>, x: T, lt: spec_fn(T, T) -> bool)
    ensures
        ins(s, x, lt).to_multiset() =~= s.to_multiset().insert(x),
    decreases s.len(),
{
    broadcast use vstd::seq_lib::to_multiset_build;
    broadcast use vstd::multiset::group_multiset_axioms;

    if s.len() == 0 {
        assert(seq![x] =~= s.push(x));
        assert(s =~= Seq::<T>::empty());
        vstd::seq_lib::to_multiset_build(s, x);
    } else if lt(x, s.last()) {
        let d = s.drop_last();
        lemma_ins_multiset(d, x, lt);
        assert(d.push(s.last()) =~= s);
    }
}

/// Insertion sort under a strict weak order puts its input in order and keeps exactly its
/// elements, each as often as it occurs.
pub proof fn law_isort_sorted_permutation<T>(s: Seq<T>, lt: spec_fn(T, T) -> bool)
    requires
        strict_weak_order(lt),
    ensures
        sorted_by(isort(s, lt), lt),
        isort(s, lt).to_multiset() =~= s.to_multiset(),
    decreases s.len(),
{
    broadcast use vstd::seq_lib::to_multiset_build;

    if s.len() == 0 {
    } else {
        let d = s.drop_last();
        law_isort_sorted_permutation(d, lt);
        lemma_ins_sorted(isort(d, lt), s.last(), lt);
        lemma_ins_multiset(isort(d, lt), s.last(), lt);
        assert(d.push(s.last()) =~= s);
    }
}

/// Calendars ordered by name, and events by start, title and uid, are strict weak orders.
pub proof fn lemma_calendar_orders()
    ensures
        strict_weak_order(cal_order()),
        strict_weak_order(event_order()),
{
    assert forall|a: CalendarInfo, b: CalendarInfo| #[trigger] (cal_order())(a, b) implies !(
    cal_order())(b, a) by {
        crate::text::lemma_seq_lt_asymmetric(a.name@, b.name@);
    }
    assert forall|a: CalendarInfo, b: CalendarInfo, c: CalendarInfo|
        #![trigger (cal_order())(a, b), (cal_order())(b, c)]
        #![trigger (cal_order())(a, c), (cal_order())(a, b)]
        (cal_order())(a, c) implies (cal_order())(a, b) || (cal_order())(b, c) by {
        crate::text::lemma_seq_lt_total(a.name@, b.name@);
        crate::text::lemma_seq_lt_transitive(b.name@, a.name@, c.name@);
    }
    assert forall|a: CalendarEvent, b: CalendarEvent| #[trigger] (event_order())(a, b) implies !(
    event_order())(b, a) by {
        crate::text::lemma_seq_lt_asymmetric(a.start@, b.start@);
        crate::text::lemma_seq_lt_asymmetric(a.title@, b.title@);
        crate::text::lemma_seq_lt_asymmetric(a.uid@, b.uid@);
        crate::text::lemma_seq_lt_irreflexive(a.start@);
        crate::text::lemma_seq_lt_irreflexive(a.title@);
    }
    assert forall|a: CalendarEvent, b: CalendarEvent, c: CalendarEvent|
        #![trigger (event_order())(a, b), (event_order())(b, c)]
        #![trigger (event_order())(a, c), (event_order())(a, b)]
        (event_order())(a, c) implies (event_order())(a, b) || (event_order())(b, c) by {
        lemma_event_negative_transitive(a, b, c);
    }
}

proof fn lemma_key_negative_transitive(a: Seq<char>, b: Seq<char>, c: Seq<char>)
    ensures
        seq_lt(a, c) ==> seq_lt(a, b) || seq_lt(b, c),
        seq_lt(a, b) && b == c ==> seq_lt(a, c),
        a == b && seq_lt(b, c) ==> seq_lt(a, c),
{
    crate::text::lemma_seq_lt_total(a, b);
    crate::text::lemma_seq_lt_transitive(b, a, c);
}

proof fn lemma_event_negative_transitive(a: CalendarEvent, b: CalendarEvent, c: CalendarEvent)
    ensures
        (event_order())(a, c) ==> (event_order())(a, b) || (event_order())(b, c),
{
    lemma_key_negative_transitive(a.start@, b.start@, c.start@);
    lemma_key_negative_transitive(a.title@, b.title@, c.title@);
    lemma_key_negative_transitive(a.uid@, b.uid@, c.uid@);
    crate::text::lemma_seq_lt_total(a.start@, b.start@);
    crate::text::lemma_seq_lt_total(a.title@, b.title@);
    crate::text::lemma_seq_lt_total(a.uid@, b.uid@);
    crate::text::lemma_seq_lt_total(b.start@, c.start@);
    crate::text::lemma_seq_lt_total(b.title@, c.title@);
    crate::text::lemma_seq_lt_transitive(a.start@, b.start@, c.start@);
    crate::text::lemma_seq_lt_transitive(a.title@, b.title@, c.title@);
}

/// Listed events come out ordered by start, then title, then uid; there are at most
/// `limit` of them, each one of the events given, as often as it was given at most.
pub proof fn law_events_sorted_from_input(v: Seq<CalendarEvent>, limit: nat)
    ensures
        ({
            let r = isort(v, event_order()).take(
                if limit < v.len() {
                    limit as int
                } else {
                    v.len() as int
                },
            );
            &&& sorted_by(r, event_order())
            &&& r.len() <= limit
            &&& r.to_multiset().subset_of(v.to_multiset())
        }),
{
    lemma_calendar_orders();
    law_isort_sorted_permutation(v, event_order());
    lemma_isort_len(v, event_order());
    let s = isort(v, event_order());
    let n = if limit < v.len() {
        limit as int
    } else {
        v.len() as int
    };
    let r = s.take(n);
    assert(sorted_by(r, event_order())) by {
        assert forall|i: int, j: int| 0 <= i < j < r.len() implies !(event_order())(
            #[trigger] r[j],
            #[trigger] r[i],
        ) by {
            assert(r[j] == s[j] && r[i] == s[i]);
        }
    }
    assert(s =~= r + s.skip(n));
    vstd::seq_lib::lemma_multiset_commutative(r, s.skip(n));
    broadcast use vstd::multiset::group_multiset_axioms;
    assert(r.to_multiset().subset_of(s.to_multiset()));
}

/// Calendars come out ordered by name, exactly those given.
pub proof fn law_calendars_sorted_by_name(v: Seq<CalendarInfo>)
    ensures
        sorted_by(isort(v, cal_order()), cal_order()),
        isort(v, cal_order()).to_multiset() =~= v.to_multiset(),
{
    lemma_calendar_orders();
    law_isort_sorted_permutation(v, cal_order());
}

/// `a` is strictly before `b`.
pub open spec fn instant_lt(a: Instant, b: Instant) -> bool {
    a.0 < b.0 || (a.0 == b.0 && a.1 < b.1)
}

/// The instant one range step (31 days) after `s`, or `to` when that is not before it.
pub open spec fn chunk_end_of(s: Instant, to: Instant) -> Instant {
    if s.0 + 2678400 < to.0 || (s.0 + 2678400 == to.0 && s.1 < to.1) {
        ((s.0 + 2678400) as i64, s.1)
    } else {
        to
    }
}

/// The ranges of at most 31 days that cover `[s, to)`, in order.
pub open spec fn chunk_bounds(s: Instant, to: Instant) -> Seq<(Instant, Instant)>
    decreases to.0 - s.0, (if s.1 < to.1 { 1int } else { 0int }),
{
    if !instant_lt(s, to) {
        Seq::empty()
    } else {
        let e = chunk_end_of(s, to);
        if e == to {
            seq![(s, to)]
        } else {
            seq![(s, e)] + chunk_bounds(e, to)
        }
    }
}

/// The ranges an event listing asks Zoho for: `[from, to)` cut into pieces of at most 31 days.
pub fn event_chunk_bounds(from: Instant, to: Instant) -> (r: Vec<(Instant, Instant)>)
    ensures
        r@ == chunk_bounds(from, to),
{
    let mut out: Vec<(Instant, Instant)> = Vec::new();
    let mut s = from;
    while s.0 < to.0 || (s.0 == to.0 && s.1 < to.1)
        invariant
            out@ + chunk_bounds(s, to) == chunk_bounds(from, to),
        decreases to.0 - s.0, (if s.1 < to.1 { 1int } else { 0int }),
    {
        let e = next_chunk_end(s, to);
        proof {
            assert(e == chunk_end_of(s, to));
        }
        out.push((s, e));
        if e.0 == to.0 && e.1 == to.1 {
            proof {
                assert(chunk_bounds(s, to) == seq![(s, to)]);
                assert(chunk_bounds(to, to) =~= Seq::<(Instant, Instant)>::empty());
            }
            s = e;
        } else {
            proof {
                assert(chunk_bounds(s, to) == seq![(s, e)] + chunk_bounds(e, to));
                assert(out@ + chunk_bounds(e, to) =~= (out@.drop_last() + seq![(s, e)]) + chunk_bounds(e, to));
            }
            s = e;
        }
    }
    proof {
        assert(chunk_bounds(s, to) =~= Seq::<(Instant, Instant)>::empty());
        assert(out@ + Seq::<(Instant, Instant)>::empty() =~= out@);
    }
    out
}

/// `DateTime::from_timestamp(secs, nanos)` in Zoho's `%Y%m%dT%H%M%SZ` form; None where chrono
/// has no such instant.
#[verifier::external_body]
fn zoho_text_of(secs: i64, nanos: u32) -> (r: Option<String>)
    ensures
        r is Some == instant_valid(secs, nanos),
        r matches Some(t) ==> t@ == zoho_text(secs, nanos),
{
    chrono::DateTime::from_timestamp(secs, nanos).map(|d| d.format("%Y%m%dT%H%M%SZ").to_string())
}

/// The `range` query parameter of an event listing: `{"start":"…","end":"…"}` in Zoho's time
/// form; an error for an instant chrono cannot represent.
pub fn event_range_query(start: Instant, end: Instant) -> (r: Result<String, ZocliError>)
    ensures
        instant_valid(start.0, start.1) && instant_valid(end.0, end.1) ==> (r matches Ok(q) && q@
            == "{\"start\":\""@ + zoho_text(start.0, start.1) + "\",\"end\":\""@ + zoho_text(end.0, end.1)
            + "\"}"@),
        !(instant_valid(start.0, start.1) && instant_valid(end.0, end.1)) ==> (r matches Err(
            ZocliError::Validation(m),
        ) && m@ == "calendar time range is out of range"@),
{
    let a = match zoho_text_of(start.0, start.1) {
        Some(t) => t,
        None => {
            return Err(ZocliError::Validation(String::from_str("calendar time range is out of range")));
        },
    };
    let b = match zoho_text_of(end.0, end.1) {
        Some(t) => t,
        None => {
            return Err(ZocliError::Validation(String::from_str("calendar time range is out of range")));
        },
    };
    let mut q = String::from_str("{\"start\":\"");
    q.append(a.as_str());
    q.append("\",\"end\":\"");
    q.append(b.as_str());
    q.append("\"}");
    Ok(q)
}

/// Both ends of a range are instants chrono can represent.
pub open spec fn range_valid(c: (Instant, Instant)) -> bool {
    instant_valid(c.0.0, c.0.1) && instant_valid(c.1.0, c.1.1)
}

/// The `range` parameter for one piece of a listing.
pub open spec fn range_text(c: (Instant, Instant)) -> Seq<char> {
    "{\"start\":\""@ + zoho_text(c.0.0, c.0.1) + "\",\"end\":\""@ + zoho_text(c.1.0, c.1.1) + "\"}"@
}

/// The `range` parameters an event listing from `from` to `to` sends, one per piece of at
/// most 31 days, in order. Either bound that is neither a date nor an RFC 3339 timestamp, or a
/// `to` that is not after `from`, is refused before anything is asked.
pub fn event_range_queries(from: &str, to: &str) -> (r: Result<Vec<String>, ZocliError>)
    ensures
        match (spec_parse_instant(from@), spec_parse_instant(to@)) {
            (None, _) => r matches Err(ZocliError::Validation(m)) && m@ == bad_time_message(
                "list_events <from>"@,
                from@,
            ),
            (Some(_), None) => r matches Err(ZocliError::Validation(m)) && m@ == bad_time_message(
                "list_events <to>"@,
                to@,
            ),
            (Some(f), Some(t)) => if !instant_lt(f, t) {
                r matches Err(ZocliError::Validation(m)) && m@ == "list_events <to> must be after <from>"@
            } else if forall|i: int|
                0 <= i < chunk_bounds(f, t).len() ==> #[trigger] range_valid(chunk_bounds(f, t)[i]) {
                r matches Ok(qs) && qs@.map_values(|q: String| q@) == chunk_bounds(f, t).map_values(
                    |c: (Instant, Instant)| range_text(c),
                )
            } else {
                r matches Err(ZocliError::Validation(m)) && m@ == "calendar time range is out of range"@
            },
        },
{
    let f = parse_rfc3339_or_date(from, "list_events <from>")?;
    let t = parse_rfc3339_or_date(to, "list_events <to>")?;
    if !(f.0 < t.0 || (f.0 == t.0 && f.1 < t.1)) {
        return Err(ZocliError::Validation(String::from_str("list_events <to> must be after <from>")));
    }
    let chunks = event_chunk_bounds(f, t);
    let mut out: Vec<String> = Vec::new();
    let mut i: usize = 0;
    while i < chunks.len()
        invariant
            spec_parse_instant(from@) == Some(f),
            spec_parse_instant(to@) == Some(t),
            instant_lt(f, t),
            chunks@ == chunk_bounds(f, t),
            i <= chunks@.len(),
            out@.len() == i,
            forall|j: int| 0 <= j < i ==> #[trigger] range_valid(chunks@[j]),
            forall|j: int| 0 <= j < i ==> (#[trigger] out@[j])@ == range_text(chunks@[j]),
        decreases chunks@.len() - i,
    {
        match event_range_query(chunks[i].0, chunks[i].1) {
            Ok(q) => out.push(q),
            Err(e) => {
                assert(!range_valid(chunks@[i as int]));
                return Err(e);
            },
        }
        i = i + 1;
    }
    assert(out@.map_values(|q: String| q@) =~= chunks@.map_values(|c: (Instant, Instant)| range_text(c)));
    Ok(out)
}

/// The event to delete: the first listed with the uid, else a validation error naming the uid
/// and the calendar asked for.
pub fn find_event_by_uid(events: Vec<CalendarEvent>, uid: &str, calendar_ref: &str) -> (r: Result<
    CalendarEvent,
    ZocliError,
>)
    ensures
        match r {
            Ok(e) => exists|i: int|
                0 <= i < events@.len() && events@[i] == e && e.uid@ == uid@ && forall|j: int|
                    0 <= j < i ==> (#[trigger] events@[j]).uid@ != uid@,
            Err(err) => (forall|i: int| 0 <= i < events@.len() ==> (#[trigger] events@[i]).uid@ != uid@)
                && (err matches ZocliError::Validation(m) && m@ == "calendar event with uid `"@ + uid@
                + "` not found in calendar `"@ + calendar_ref@ + "`"@),
        },
{
    let ghost orig = events@;
    let mut rest = events;
    let ghost mut i: int = 0;
    while rest.len() > 0
        invariant
            0 <= i,
            i + rest@.len() == orig.len(),
            rest@ == orig.skip(i),
            orig == events@,
            forall|j: int| 0 <= j < i ==> (#[trigger] orig[j]).uid@ != uid@,
        decreases rest@.len(),
    {
        let e = rest.remove(0);
        proof {
            assert(e == orig[i]);
            assert(rest@ =~= orig.skip(i + 1));
        }
        if str_eq(e.uid.as_str(), uid) {
            return Ok(e);
        }
        proof {
            i = i + 1;
        }
    }
    let mut m = cat3("calendar event with uid `", uid, "` not found in calendar `");
    m.append(calendar_ref);
    m.append("`");
    Err(ZocliError::Validation(m))
}

/// A Zoho calendar as the client shows it.
pub open spec fn info_of(c: ZohoCalendar) -> CalendarInfo {
    CalendarInfo { uid: c.uid, name: c.name, color: c.color, is_default: c.isdefault }
}

/// The user's calendars from the Zoho listing, sorted by name.
pub fn list_calendars_rest(calendars: Vec<ZohoCalendar>) -> (r: Vec<CalendarInfo>)
    ensures
        r@ == isort(calendars@.map_values(|c: ZohoCalendar| info_of(c)), cal_order()),
{
    let ghost orig = calendars@;
    let mut rest = calendars;
    let mut infos: Vec<CalendarInfo> = Vec::new();
    let n = rest.len();
    let mut i: usize = 0;
    while i < n
        invariant
            n == orig.len(),
            i <= n,
            rest@ == orig.skip(i as int),
            infos@ == orig.take(i as int).map_values(|c: ZohoCalendar| info_of(c)),
        decreases n - i,
    {
        let c = rest.remove(0);
        infos.push(CalendarInfo { uid: c.uid, name: c.name, color: c.color, is_default: c.isdefault });
        proof {
            assert(rest@ =~= orig.skip(i + 1));
            assert(infos@ =~= orig.take(i + 1).map_values(|c: ZohoCalendar| info_of(c)));
        }
        i = i + 1;
    }
    proof {
        assert(orig.take(n as int) =~= orig);
    }
    sort_calendars(infos)
}

/// A calendar in the listing form: its uid is both id and href.
pub open spec fn collection_of(c: CalendarInfo) -> (Seq<char>, Seq<char>, Seq<char>) {
    (c.uid@, c.name@, c.uid@)
}

pub open spec fn collection_view(c: CalendarCollection) -> (Seq<char>, Seq<char>, Seq<char>) {
    (c.id@, c.name@, c.href@)
}

/// A calendar in the listing form, without description.
pub fn collection_for(c: &CalendarInfo) -> (r: CalendarCollection)
    ensures
        collection_view(r) == collection_of(*c),
        r.id@ == c.uid@,
        r.name@ == c.name@,
        r.href@ == c.uid@,
        r.description is None,
{
    CalendarCollection {
        id: c.uid.clone(),
        name: c.name.clone(),
        href: c.uid.clone(),
        description: None,
    }
}

/// The calendars in listing form.
pub fn list_calendars(infos: &Vec<CalendarInfo>) -> (r: Vec<CalendarCollection>)
    ensures
        r@.len() == infos@.len(),
        forall|i: int|
            0 <= i < r@.len() ==> collection_view(#[trigger] r@[i]) == collection_of(infos@[i])
                && r@[i].description is None,
        forall|i: int|
            0 <= i < r@.len() ==> (#[trigger] r@[i]).name@ == infos@[i].name@ && r@[i].id@
                == infos@[i].uid@ && r@[i].href@ == infos@[i].uid@,
{
    let mut out: Vec<CalendarCollection> = Vec::new();
    let mut i: usize = 0;
    while i < infos.len()
        invariant
            i <= infos@.len(),
            out@.len() == i,
            forall|j: int|
                0 <= j < i ==> collection_view(#[trigger] out@[j]) == collection_of(infos@[j])
                    && out@[j].description is None,
            forall|j: int|
                0 <= j < i ==> (#[trigger] out@[j]).name@ == infos@[j].name@ && out@[j].id@
                    == infos@[j].uid@ && out@[j].href@ == infos@[j].uid@,
        decreases infos@.len() - i,
    {
        out.push(collection_for(&infos[i]));
        i = i + 1;
    }
    out
}

/// An event as the client shows it: blank location, description and etag left out; no
/// date-and-time gives empty start and end.
pub fn event_from_zoho(e: ZohoEvent) -> (r: CalendarEvent)
    ensures
        r.uid == e.uid,
        r.title == e.title,
        match e.dateandtime {
            Some((s, t)) => r.start == s && r.end == t,
            None => r.start@.len() == 0 && r.end@.len() == 0,
        },
        r.location == (if e.location matches Some(x) && !all_ws(x@) { e.location } else { None }),
        r.description == (if e.description matches Some(x) && !all_ws(x@) { e.description } else { None }),
        r.etag == (if e.etag matches Some(x) && !all_ws(x@) { e.etag } else { None }),
{
    let (start, end) = match e.dateandtime {
        Some(dt) => dt,
        None => (String::new(), String::new()),
    };
    CalendarEvent {
        uid: e.uid,
        title: e.title,
        start,
        end,
        location: non_empty(e.location),
        description: non_empty(e.description),
        etag: non_empty(e.etag),
    }
}

/// What a create-event request sends: trimmed title, start and end in Zoho form, and the
/// trimmed description and location when not blank.
#[derive(Debug)]
pub struct EventPayload {
    pub title: String,
    pub start: String,
    pub end: String,
    pub description: Option<String>,
    pub location: Option<String>,
}

pub open spec fn trimmed_opt(o: Option<String>) -> Option<Seq<char>> {
    match o {
        Some(x) => if trim_seq(x@).len() > 0 {
            Some(trim_seq(x@))
        } else {
            None
        },
        None => None,
    }
}

pub open spec fn opt_text(o: Option<String>) -> Option<Seq<char>> {
    match o {
        Some(x) => Some(x@),
        None => None,
    }
}

fn trimmed_nonblank(o: &Option<String>) -> (r: Option<String>)
    ensures
        opt_text(r) == trimmed_opt(*o),
{
    match o {
        Some(x) => {
            let t = trim(x.as_str());
            if t.as_str().is_empty() {
                None
            } else {
                Some(t)
            }
        },
        None => None,
    }
}

/// Checks a create-event request and builds what is sent: the title must not be blank, and
/// start and end must be dates or RFC 3339 timestamps.
pub fn prepare_event(req: &CreateEventRequest) -> (r: Result<EventPayload, ZocliError>)
    ensures
        trim_seq(req.title@).len() == 0 ==> (r matches Err(ZocliError::Validation(m)) && m@
            == "create_event title must not be empty"@),
        trim_seq(req.title@).len() > 0 && spec_parse_instant(req.start@) is None ==> (r matches Err(
            ZocliError::Validation(m),
        ) && m@ == bad_time_message("create_event <start>"@, req.start@)),
        trim_seq(req.title@).len() > 0 && spec_parse_instant(req.start@) is Some
            && spec_parse_instant(req.end@) is None ==> (r matches Err(ZocliError::Validation(m))
            && m@ == bad_time_message("create_event <end>"@, req.end@)),
        r matches Ok(p) ==> {
            &&& trim_seq(req.title@).len() > 0
            &&& p.title@ == trim_seq(req.title@)
            &&& spec_parse_instant(req.start@) matches Some(s) && p.start@ == zoho_text(s.0, s.1)
            &&& spec_parse_instant(req.end@) matches Some(e) && p.end@ == zoho_text(e.0, e.1)
            &&& opt_text(p.description) == trimmed_opt(req.description)
            &&& opt_text(p.location) == trimmed_opt(req.location)
        },
        trim_seq(req.title@).len() > 0 && spec_parse_instant(req.start@) is Some
            && spec_parse_instant(req.end@) is Some ==> r is Ok,
{
    let title = trim(req.title.as_str());
    if title.as_str().is_empty() {
        return Err(ZocliError::Validation(String::from_str("create_event title must not be empty")));
    }
    let start = to_zoho_datetime_from_input(req.start.as_str(), "create_event <start>")?;
    let end = to_zoho_datetime_from_input(req.end.as_str(), "create_event <end>")?;
    Ok(
        EventPayload {
            title,
            start,
            end,
            description: trimmed_nonblank(&req.description),
            location: trimmed_nonblank(&req.location),
        },
    )
}

/// The calendar and event a creation reports: the created uid with the request's own
/// summary, times, location and description.
pub fn create_calendar_event(
    calendar: &CalendarInfo,
    request: CalendarCreateRequest,
    created: CreatedEvent,
) -> (r: (CalendarCollection, CalendarEvent))
    ensures
        collection_view(r.0) == collection_of(*calendar),
        r.0.description is None,
        r.1.uid == created.uid,
        r.1.title == request.summary,
        r.1.start == request.start,
        r.1.end == request.end,
        r.1.location == request.location,
        r.1.description == request.description,
        r.1.etag is None,
{
    let collection = collection_for(calendar);
    let event = CalendarEvent {
        uid: created.uid,
        title: request.summary,
        start: request.start,
        end: request.end,
        location: request.location,
        description: request.description,
        etag: None,
    };
    (collection, event)
}

/// The end of the next listing chunk: 31 days after `chunk_start`, but not past `to`.
pub fn next_chunk_end(chunk_start: Instant, to: Instant) -> (r: Instant)
    ensures
        r == (if chunk_start.0 + 2678400 < to.0 || (chunk_start.0 + 2678400 == to.0
            && chunk_start.1 < to.1) {
            ((chunk_start.0 + 2678400) as i64, chunk_start.1)
        } else {
            to
        }),
{
    if to.0 >= i64::MIN + 2678400 && (chunk_start.0 < to.0 - 2678400 || (chunk_start.0 == to.0
        - 2678400 && chunk_start.1 < to.1)) {
        ((chunk_start.0 + 2678400) as i64, chunk_start.1)
    } else {
        to
    }
}


/// A listed calendar is named as the calendar it lists, and is found by its uid: the
/// listing form of a calendar has the calendar's uid as id and href and its name as name.
pub proof fn law_listed_calendar_keeps_its_name(c: CalendarInfo, r: CalendarCollection)
    requires
        collection_view(r) == collection_of(c),
    ensures
        r.name@ == c.name@,
        r.id@ == c.uid@,
        r.href@ == c.uid@,
{
}

} // verus!
