//! How MCP messages are framed on stdio: either one JSON message per line, or headers with a
//! `Content-Length` followed by a blank line and that many bytes of JSON.
use vstd::prelude::*;
use crate::error::ZocliError;
use crate::text::{
    ascii_lower_seq, first_index_of, is_ascii_digit, spec_first_index, str_eq, to_ascii_lowercase,
    to_chars, trim, trim_seq, from_char_range,
};

verus! {

pub open spec fn empty_message() -> Seq<char> {
    "cannot parse integer from empty string"@
}

pub open spec fn invalid_digit_message() -> Seq<char> {
    "invalid digit found in string"@
}

pub open spec fn overflow_message() -> Seq<char> {
    "number too large to fit in target type"@
}

pub open spec fn digit_value(c: char) -> nat {
    ((c as u32) - ('0' as u32)) as nat
}

/// Reads decimal digits left to right onto `acc`: the first character that is not a digit,
/// or the first digit that takes the value past `usize::MAX`, ends the reading with an error.
pub open spec fn scan_digits(ds: Seq<char>, acc: nat) -> Result<nat, Seq<char>>
    decreases ds.len(),
{
    if ds.len() == 0 {
        Ok(acc)
    } else if !is_ascii_digit(ds[0]) {
        Err(invalid_digit_message())
    } else if acc * 10 + digit_value(ds[0]) > usize::MAX {
        Err(overflow_message())
    } else {
        scan_digits(ds.drop_first(), acc * 10 + digit_value(ds[0]))
    }
}

/// What `str::parse::<usize>` gives for a text: an optional `+` and decimal digits, or the
/// message of the error it reports.
pub open spec fn spec_parse_usize(s: Seq<char>) -> Result<nat, Seq<char>> {
    if s.len() == 0 {
        Err(empty_message())
    } else if s[0] == '+' && s.len() == 1 {
        Err(invalid_digit_message())
    } else if s[0] == '+' {
        scan_digits(s.drop_first(), 0)
    } else {
        scan_digits(s, 0)
    }
}

/// Parses a decimal `usize` as `str::parse` does; the error is the message it prints.
pub fn parse_usize(s: &str) -> (r: Result<usize, String>)
    ensures
        match spec_parse_usize(s@) {
            Ok(n) => r matches Ok(v) && v as nat == n,
            Err(m) => r matches Err(e) && e@ == m,
        },
{
    let v = to_chars(s);
    if v.len() == 0 {
        return Err(String::from_str("cannot parse integer from empty string"));
    }
    if v[0] == '+' && v.len() == 1 {
        return Err(String::from_str("invalid digit found in string"));
    }
    let start: usize = if v[0] == '+' {
        1
    } else {
        0
    };
    let ghost ds = v@.skip(start as int);
    proof {
        if start == 1 {
            assert(ds =~= s@.drop_first());
        } else {
            assert(ds =~= s@);
        }
    }
    let mut acc: usize = 0;
    let mut i: usize = start;
    while i < v.len()
        invariant
            v@ == s@,
            start <= i <= v@.len(),
            ds == v@.skip(start as int),
            spec_parse_usize(s@) == scan_digits(ds, 0),
            scan_digits(ds, 0) == scan_digits(v@.skip(i as int), acc as nat),
        decreases v@.len() - i,
    {
        let c = v[i];
        let ghost rest = v@.skip(i as int);
        assert(rest[0] == c);
        assert(rest.drop_first() =~= v@.skip(i + 1));
        if !('0' <= c && c <= '9') {
            return Err(String::from_str("invalid digit found in string"));
        }
        let d = (c as u32 - '0' as u32) as usize;
        assert(d as nat == digit_value(c));
        let m = match acc.checked_mul(10) {
            Some(m) => m,
            None => {
                return Err(String::from_str("number too large to fit in target type"));
            },
        };
        let n = match m.checked_add(d) {
            Some(n) => n,
            None => {
                return Err(String::from_str("number too large to fit in target type"));
            },
        };
        acc = n;
        i = i + 1;
    }
    assert(v@.skip(i as int).len() == 0);
    Ok(acc)
}

/// What one line read while waiting for a stdio message means.
#[derive(Debug)]
pub enum StdioLine {
    /// The blank line that ends the headers: a body of this many bytes follows.
    BodyFollows(usize),
    /// A whole JSON-RPC message on this one line.
    JsonLine,
    /// A header line; the content length known after it.
    Header(Option<usize>),
}

/// The content length a header line sets: a `Content-Length` header (the name compared
/// without regard to ASCII case) with its value parsed, or what was known before for any
/// other line.
pub open spec fn header_value(t: Seq<char>) -> Option<Seq<char>> {
    match spec_first_index(t, ":"@) {
        Some(k) => if ascii_lower_seq(t.take(k)) == "content-length"@ {
            Some(trim_seq(t.skip(k + 1)))
        } else {
            None
        },
        None => None,
    }
}

/// Reads one line of stdio input, given the content length the headers so far set. A blank
/// line ends the headers (an error when no length was given); before any length, a line that
/// starts with `{` or `[` is a message of its own; a `Content-Length` header with a value that
/// is not a number is an error.
pub fn stdio_line(content_length: Option<usize>, line: &str) -> (r: Result<StdioLine, ZocliError>)
    ensures
        ({
            let t = trim_seq(line@);
            if t.len() == 0 {
                match content_length {
                    Some(n) => r matches Ok(StdioLine::BodyFollows(m)) && m == n,
                    None => r matches Err(ZocliError::Serialization(msg)) && msg@
                        == "missing Content-Length header"@,
                }
            } else if content_length is None && (t[0] == '{' || t[0] == '[') {
                r matches Ok(StdioLine::JsonLine)
            } else {
                match header_value(t) {
                    Some(v) => match spec_parse_usize(v) {
                        Ok(n) => r matches Ok(StdioLine::Header(Some(m))) && m as nat == n,
                        Err(e) => r matches Err(ZocliError::Serialization(msg)) && msg@
                            == "invalid Content-Length header: "@ + e,
                    },
                    None => r matches Ok(StdioLine::Header(c)) && c == content_length,
                }
            }
        }),
{
    let t = trim(line);
    let tv = to_chars(t.as_str());
    if tv.len() == 0 {
        return match content_length {
            Some(n) => Ok(StdioLine::BodyFollows(n)),
            None => Err(ZocliError::Serialization(String::from_str("missing Content-Length header"))),
        };
    }
    if content_length.is_none() && (tv[0] == '{' || tv[0] == '[') {
        return Ok(StdioLine::JsonLine);
    }
    match first_index_of(t.as_str(), ":") {
        Some(k) => {
            proof {
                reveal_strlit(":");
                crate::text::lemma_first_from_found(t@, ":"@, 0, k as int);
            }
            let name = from_char_range(&tv, 0, k);
            assert(name@ =~= t@.take(k as int));
            let lower = to_ascii_lowercase(name.as_str());
            if str_eq(lower.as_str(), "content-length") {
                let rest = from_char_range(&tv, k + 1, tv.len());
                assert(rest@ =~= t@.skip(k + 1));
                let value = trim(rest.as_str());
                match parse_usize(value.as_str()) {
                    Ok(n) => Ok(StdioLine::Header(Some(n))),
                    Err(e) => {
                        let mut msg = String::from_str("invalid Content-Length header: ");
                        msg.append(e.as_str());
                        Err(ZocliError::Serialization(msg))
                    },
                }
            } else {
                Ok(StdioLine::Header(content_length))
            }
        },
        None => Ok(StdioLine::Header(content_length)),
    }
}

} // verus!
