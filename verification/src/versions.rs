//! Release version numbers: parsing and comparison.
use vstd::prelude::*;
use std::cmp::Ordering;
use crate::text::{segments, split_all, str_eq, text_views, to_chars};

verus! {

broadcast use vstd::string::group_string_axioms;

pub open spec fn is_digit(c: char) -> bool {
    '0' <= c && c <= '9'
}

/// The number a run of decimal digits denotes.
pub open spec fn digits_value(s: Seq<char>) -> nat
    decreases s.len(),
{
    if s.len() == 0 {
        0
    } else {
        digits_value(s.drop_last()) * 10 + ((s.last() as u32) - 48) as nat
    }
}

/// The text without an optional leading `+`.
pub open spec fn unsigned_part(s: Seq<char>) -> Seq<char> {
    if s.len() > 0 && s[0] == '+' {
        s.drop_first()
    } else {
        s
    }
}

pub open spec fn all_digits(d: Seq<char>) -> bool {
    forall|i: int| 0 <= i < d.len() ==> is_digit(#[trigger] d[i])
}

/// What `u64::from_str` accepts: an optional `+`, then one or more digits, of a value that
/// fits.
pub open spec fn spec_parse_u64(s: Seq<char>) -> Option<u64> {
    let d = unsigned_part(s);
    if d.len() > 0 && all_digits(d) && digits_value(d) <= u64::MAX {
        Some(digits_value(d) as u64)
    } else {
        None
    }
}

proof fn lemma_digits_value_step(s: Seq<char>, i: int)
    requires
        0 <= i < s.len(),
    ensures
        digits_value(s.take(i + 1)) == digits_value(s.take(i)) * 10 + ((s[i] as u32) - 48) as nat,
{
    assert(s.take(i + 1).drop_last() =~= s.take(i));
}

proof fn lemma_digits_value_monotone(s: Seq<char>, i: int)
    requires
        0 <= i <= s.len(),
        forall|k: int| 0 <= k < s.len() ==> is_digit(#[trigger] s[k]),
    ensures
        digits_value(s.take(i)) <= digits_value(s),
    decreases s.len() - i,
{
    if i < s.len() {
        lemma_digits_value_monotone(s, i + 1);
        lemma_digits_value_step(s, i);
    } else {
        assert(s.take(i) =~= s);
    }
}

/// `u64::from_str`.
pub fn parse_u64(s: &str) -> (r: Option<u64>)
    ensures
        r == spec_parse_u64(s@),
{
    let v = to_chars(s);
    let start: usize = if v.len() > 0 && v[0] == '+' {
        1
    } else {
        0
    };
    let ghost d = if s@.len() > 0 && s@[0] == '+' {
        s@.drop_first()
    } else {
        s@
    };
    proof {
        assert(d =~= s@.subrange(start as int, s@.len() as int));
    }
    if start >= v.len() {
        return None;
    }
    let mut value: u64 = 0;
    let mut i: usize = start;
    while i < v.len()
        invariant
            v@ == s@,
            start <= i <= v@.len(),
            d == s@.subrange(start as int, s@.len() as int),
            d == unsigned_part(s@),
            forall|k: int| 0 <= k < i - start ==> is_digit(#[trigger] d[k]),
            value == digits_value(d.take(i - start)),
        decreases v@.len() - i,
    {
        let c = v[i];
        if !('0' <= c && c <= '9') {
            proof {
                let k = i - start;
                assert(d[k] == c);
                assert(!is_digit(d[k]));
            }
            return None;
        }
        let digit = (c as u32 - 48) as u64;
        proof {
            lemma_digits_value_step(d, i - start);
        }
        if value > (u64::MAX - digit) / 10 {
            proof {
                assert(value * 10 + digit > u64::MAX) by (nonlinear_arith)
                    requires
                        value > (u64::MAX - digit) / 10,
                        digit <= 9,
                ;
                assert forall|k: int| 0 <= k < i - start + 1 implies is_digit(#[trigger] d[k]) by {}
                if forall|k: int| 0 <= k < d.len() ==> is_digit(#[trigger] d[k]) {
                    lemma_digits_value_monotone(d, i - start + 1);
                }
            }
            return None;
        }
        assert(value * 10 + digit <= u64::MAX) by (nonlinear_arith)
            requires
                value <= (u64::MAX - digit) / 10,
                digit <= 9,
        ;
        value = value * 10 + digit;
        i = i + 1;
    }
    proof {
        assert(d.take(d.len() as int) =~= d);
    }
    Some(value)
}

/// The text without its leading `v`s (`trim_start_matches('v')`).
pub open spec fn strip_leading_v(s: Seq<char>) -> Seq<char>
    decreases s.len(),
{
    if s.len() > 0 && s[0] == 'v' {
        strip_leading_v(s.drop_first())
    } else {
        s
    }
}

/// The numbers of a dotted version (leading `v`s ignored); None when a part is not a number.
pub open spec fn parse_parts(parts: Seq<Seq<char>>) -> Option<Seq<u64>>
    decreases parts.len(),
{
    if parts.len() == 0 {
        Some(Seq::empty())
    } else {
        match (parse_parts(parts.drop_last()), spec_parse_u64(parts.last())) {
            (Some(p), Some(x)) => Some(p.push(x)),
            _ => None,
        }
    }
}

pub open spec fn spec_version_numbers(v: Seq<char>) -> Option<Seq<u64>> {
    parse_parts(segments(strip_leading_v(v), '.'))
}

/// The text without its leading `v`s (`trim_start_matches('v')`).
pub fn strip_v(s: &str) -> (r: String)
    ensures
        r@ == strip_leading_v(s@),
{
    let v = to_chars(s);
    let mut i: usize = 0;
    proof {
        assert(s@.subrange(0, s@.len() as int) =~= s@);
    }
    while i < v.len() && v[i] == 'v'
        invariant
            v@ == s@,
            i <= v@.len(),
            strip_leading_v(s@) == strip_leading_v(s@.subrange(i as int, s@.len() as int)),
        decreases v@.len() - i,
    {
        proof {
            assert(s@.subrange(i as int, s@.len() as int).drop_first() =~= s@.subrange(
                i + 1,
                s@.len() as int,
            ));
        }
        i = i + 1;
    }
    crate::text::from_char_range(&v, i, v.len())
}

fn version_numbers(v: &str) -> (r: Option<Vec<u64>>)
    ensures
        match r {
            Some(x) => spec_version_numbers(v@) == Some(x@),
            None => spec_version_numbers(v@) is None,
        },
{
    let stripped = strip_v(v);
    let parts = split_all(stripped.as_str(), '.');
    let ghost ps = text_views(parts@);
    let mut out: Vec<u64> = Vec::new();
    let mut i: usize = 0;
    proof {
        assert(ps.take(0) =~= Seq::<Seq<char>>::empty());
    }
    while i < parts.len()
        invariant
            ps == text_views(parts@),
            ps == segments(strip_leading_v(v@), '.'),
            i <= parts@.len(),
            parse_parts(ps.take(i as int)) == Some(out@),
        decreases parts@.len() - i,
    {
        proof {
            assert(ps.take(i + 1).drop_last() =~= ps.take(i as int));
            assert(ps.take(i + 1).last() == parts@[i as int]@);
        }
        match parse_u64(parts[i].as_str()) {
            Some(x) => out.push(x),
            None => {
                proof {
                    lemma_parse_parts_prefix_none(ps, i + 1);
                }
                return None;
            },
        }
        i = i + 1;
    }
    proof {
        assert(ps.take(parts@.len() as int) =~= ps);
    }
    Some(out)
}

proof fn lemma_parse_parts_prefix_none(ps: Seq<Seq<char>>, k: int)
    requires
        0 <= k <= ps.len(),
        parse_parts(ps.take(k)) is None,
    ensures
        parse_parts(ps) is None,
    decreases ps.len() - k,
{
    if k < ps.len() {
        assert(ps.take(k + 1).drop_last() =~= ps.take(k));
        lemma_parse_parts_prefix_none(ps, k + 1);
    } else {
        assert(ps.take(k) =~= ps);
    }
}

/// The `i`-th number of a version, 0 past its end.
pub open spec fn part_at(p: Seq<u64>, i: int) -> u64 {
    if 0 <= i < p.len() {
        p[i]
    } else {
        0
    }
}

/// Comparison of versions from part `i` on, as -1, 0 or 1; missing parts count as 0.
pub open spec fn version_order_from(a: Seq<u64>, b: Seq<u64>, i: int) -> int
    decreases (if a.len() > b.len() {
        a.len()
    } else {
        b.len()
    }) - i,
{
    if i < 0 || (i >= a.len() && i >= b.len()) {
        0
    } else if part_at(a, i) < part_at(b, i) {
        -1
    } else if part_at(a, i) > part_at(b, i) {
        1
    } else {
        version_order_from(a, b, i + 1)
    }
}

/// `version_order_from` at a machine index.
pub open spec fn order_at(a: Seq<u64>, b: Seq<u64>, i: usize) -> int {
    version_order_from(a, b, i as int)
}

/// The sign of an ordering.
pub open spec fn ordering_sign(o: Ordering) -> int {
    match o {
        Ordering::Less => -1,
        Ordering::Equal => 0,
        Ordering::Greater => 1,
    }
}

/// Compares two dotted versions numerically part by part (missing parts count as 0); None
/// when either is not a dotted list of numbers.
pub fn compare_versions(current_version: &str, target_version: &str) -> (r: Option<Ordering>)
    ensures
        match (spec_version_numbers(current_version@), spec_version_numbers(target_version@)) {
            (Some(a), Some(b)) => r matches Some(o) && ordering_sign(o) == version_order_from(a, b, 0),
            _ => r is None,
        },
{
    let current = version_numbers(current_version)?;
    let target = version_numbers(target_version)?;
    let max_len = if current.len() > target.len() {
        current.len()
    } else {
        target.len()
    };
    let mut index: usize = 0;
    while index < max_len
        invariant
            spec_version_numbers(current_version@) == Some(current@),
            spec_version_numbers(target_version@) == Some(target@),
            max_len == (if current@.len() > target@.len() {
                current@.len()
            } else {
                target@.len()
            }),
            index <= max_len,
            version_order_from(current@, target@, 0) == order_at(current@, target@, index),
        decreases max_len - index,
    {
        let lhs = if index < current.len() {
            current[index]
        } else {
            0
        };
        let rhs = if index < target.len() {
            target[index]
        } else {
            0
        };
        if lhs < rhs {
            return Some(Ordering::Less);
        }
        if lhs > rhs {
            return Some(Ordering::Greater);
        }
        index = index + 1;
    }
    Some(Ordering::Equal)
}

/// Whether the resolved release is newer than the running version: numerically when both
/// parse, else whenever they differ.
pub open spec fn spec_has_newer(current: Seq<char>, resolved: Option<Seq<char>>) -> bool {
    match resolved {
        None => false,
        Some(r) => match (spec_version_numbers(current), spec_version_numbers(r)) {
            (Some(a), Some(b)) => version_order_from(a, b, 0) < 0,
            _ => r != current,
        },
    }
}

pub fn has_newer_release(current_version: &str, resolved_version: Option<&str>) -> (r: bool)
    ensures
        r == spec_has_newer(
            current_version@,
            match resolved_version {
                Some(v) => Some(v@),
                None => None,
            },
        ),
{
    match resolved_version {
        None => false,
        Some(resolved) => match compare_versions(current_version, resolved) {
            Some(o) => match o {
                Ordering::Less => true,
                _ => false,
            },
            None => !str_eq(resolved, current_version),
        },
    }
}

/// Comparing versions the other way round flips the outcome.
pub proof fn law_compare_antisymmetric(a: Seq<u64>, b: Seq<u64>, i: int)
    ensures
        version_order_from(a, b, i) == -version_order_from(b, a, i),
    decreases (if a.len() > b.len() {
        a.len()
    } else {
        b.len()
    }) - i,
{
    if !(i < 0 || (i >= a.len() && i >= b.len())) && part_at(a, i) == part_at(b, i) {
        law_compare_antisymmetric(a, b, i + 1);
    }
}

/// A version compares equal to itself.
pub proof fn law_compare_reflexive(a: Seq<u64>, i: int)
    ensures
        version_order_from(a, a, i) == 0,
    decreases a.len() - i,
{
    if !(i < 0 || i >= a.len()) {
        law_compare_reflexive(a, i + 1);
    }
}

/// The running version never sees its own release as newer, and never a release that is
/// numerically older.
pub proof fn law_no_update_to_same_or_older(current: Seq<char>, resolved: Seq<char>)
    requires
        current == resolved || (spec_version_numbers(current) matches Some(a)
            && spec_version_numbers(resolved) matches Some(b) && version_order_from(a, b, 0) >= 0),
    ensures
        !spec_has_newer(current, Some(resolved)),
{
    if current == resolved {
        if let Some(a) = spec_version_numbers(current) {
            law_compare_reflexive(a, 0);
        }
    }
}

} // verus!
