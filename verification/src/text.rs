//! Character-level text operations with their specifications.
use vstd::prelude::*;
use vstd::string::*;

verus! {

broadcast use vstd::string::group_string_axioms;

/// Unicode `White_Space`, the property that `char::is_whitespace` tests.
pub open spec fn is_ws(c: char) -> bool {
    let u = c as u32;
    (0x9 <= u && u <= 0xd) || u == 0x20 || u == 0x85 || u == 0xa0 || u == 0x1680 || (0x2000 <= u
        && u <= 0x200a) || u == 0x2028 || u == 0x2029 || u == 0x202f || u == 0x205f || u == 0x3000
}

/// Every character of `s` is whitespace (so `s.trim()` is empty).
pub open spec fn all_ws(s: Seq<char>) -> bool {
    forall|i: int| 0 <= i < s.len() ==> is_ws(#[trigger] s[i])
}

/// `s` with its leading whitespace removed.
pub open spec fn trim_start_seq(s: Seq<char>) -> Seq<char>
    decreases s.len(),
{
    if s.len() > 0 && is_ws(s[0]) {
        trim_start_seq(s.drop_first())
    } else {
        s
    }
}

/// `s` with its trailing whitespace removed.
pub open spec fn trim_end_seq(s: Seq<char>) -> Seq<char>
    decreases s.len(),
{
    if s.len() > 0 && is_ws(s.last()) {
        trim_end_seq(s.drop_last())
    } else {
        s
    }
}

/// `s` with leading and trailing whitespace removed, as `str::trim` gives it.
pub open spec fn trim_seq(s: Seq<char>) -> Seq<char> {
    trim_end_seq(trim_start_seq(s))
}

pub open spec fn has_prefix(s: Seq<char>, p: Seq<char>) -> bool {
    p.len() <= s.len() && s.subrange(0, p.len() as int) == p
}

pub open spec fn has_suffix(s: Seq<char>, p: Seq<char>) -> bool {
    p.len() <= s.len() && s.subrange(s.len() - p.len(), s.len() as int) == p
}

/// `needle` occurs somewhere in `s` as a contiguous run.
pub open spec fn has_infix(s: Seq<char>, needle: Seq<char>) -> bool {
    exists|i: int|
        0 <= i && i + needle.len() <= s.len() && #[trigger] s.subrange(i, i + needle.len())
            == needle
}

/// The decimal digits of `n`, most significant first, as `u64::to_string` writes them.
pub open spec fn decimal(n: nat) -> Seq<char>
    decreases n,
{
    if n < 10 {
        seq![digit_char(n)]
    } else {
        decimal(n / 10).push(digit_char(n % 10))
    }
}

pub open spec fn digit_char(d: nat) -> char {
    ((d + 48) as u32) as char
}

pub open spec fn is_ascii_digit(c: char) -> bool {
    '0' <= c && c <= '9'
}

pub open spec fn is_ascii_lower(c: char) -> bool {
    'a' <= c && c <= 'z'
}

pub open spec fn is_ascii_upper(c: char) -> bool {
    'A' <= c && c <= 'Z'
}

/// ASCII lower-casing of one character, as `char::to_ascii_lowercase`.
pub open spec fn ascii_lower(c: char) -> char {
    if is_ascii_upper(c) {
        ((c as u32) + 32) as char
    } else {
        c
    }
}

pub open spec fn ascii_lower_seq(s: Seq<char>) -> Seq<char> {
    s.map_values(|c: char| ascii_lower(c))
}

/// Lexicographic order on character sequences by code point, the order of `String`'s `Ord`.
pub open spec fn seq_lt(a: Seq<char>, b: Seq<char>) -> bool
    decreases a.len(),
{
    if a.len() == 0 {
        b.len() > 0
    } else if b.len() == 0 {
        false
    } else if a[0] != b[0] {
        a[0] < b[0]
    } else {
        seq_lt(a.drop_first(), b.drop_first())
    }
}

pub open spec fn seq_le(a: Seq<char>, b: Seq<char>) -> bool {
    seq_lt(a, b) || a == b
}

/// Appends one character to a `String` (std `String::push`).
#[verifier::external_body]
pub fn push_char(s: &mut String, c: char)
    ensures
        final(s)@ == old(s)@.push(c),
{
    s.push(c);
}

pub fn is_whitespace(c: char) -> (r: bool)
    ensures
        r == is_ws(c),
{
    let u = c as u32;
    (0x9 <= u && u <= 0xd) || u == 0x20 || u == 0x85 || u == 0xa0 || u == 0x1680 || (0x2000 <= u
        && u <= 0x200a) || u == 0x2028 || u == 0x2029 || u == 0x202f || u == 0x205f || u == 0x3000
}

pub fn to_chars(s: &str) -> (r: Vec<char>)
    ensures
        r@ == s@,
{
    let mut r: Vec<char> = Vec::new();
    for c in it: s.chars()
        invariant
            r@ == it.seq().take(it.index() as int),
            it.seq() == s@,
    {
        r.push(c);
    }
    r
}

pub fn from_chars(v: &[char]) -> (r: String)
    ensures
        r@ == v@,
{
    let mut r = String::new();
    let mut i: usize = 0;
    while i < v.len()
        invariant
            i <= v@.len(),
            r@ == v@.subrange(0, i as int),
        decreases v@.len() - i,
    {
        push_char(&mut r, v[i]);
        assert(v@.subrange(0, i + 1) =~= v@.subrange(0, i as int).push(v@[i as int]));
        i = i + 1;
    }
    assert(v@.subrange(0, v@.len() as int) =~= v@);
    r
}

/// A copy of the characters `v[lo..hi]` as a `String`.
pub fn from_char_range(v: &[char], lo: usize, hi: usize) -> (r: String)
    requires
        lo <= hi <= v@.len(),
    ensures
        r@ == v@.subrange(lo as int, hi as int),
{
    let mut r = String::new();
    let mut i: usize = lo;
    while i < hi
        invariant
            lo <= i <= hi <= v@.len(),
            r@ == v@.subrange(lo as int, i as int),
        decreases hi - i,
    {
        push_char(&mut r, v[i]);
        assert(v@.subrange(lo as int, i + 1) =~= v@.subrange(lo as int, i as int).push(
            v@[i as int],
        ));
        i = i + 1;
    }
    r
}

pub fn str_eq(a: &str, b: &str) -> (r: bool)
    ensures
        r == (a@ == b@),
{
    let va = to_chars(a);
    let vb = to_chars(b);
    if va.len() != vb.len() {
        return false;
    }
    let mut i: usize = 0;
    while i < va.len()
        invariant
            va@ == a@,
            vb@ == b@,
            va@.len() == vb@.len(),
            i <= va@.len(),
            forall|j: int| 0 <= j < i ==> va@[j] == vb@[j],
        decreases va@.len() - i,
    {
        if va[i] != vb[i] {
            return false;
        }
        i = i + 1;
    }
    assert(va@ =~= vb@);
    true
}

pub fn starts_with(s: &str, p: &str) -> (r: bool)
    ensures
        r == has_prefix(s@, p@),
{
    let vs = to_chars(s);
    let vp = to_chars(p);
    if vp.len() > vs.len() {
        return false;
    }
    let mut i: usize = 0;
    while i < vp.len()
        invariant
            vs@ == s@,
            vp@ == p@,
            vp@.len() <= vs@.len(),
            i <= vp@.len(),
            forall|j: int| 0 <= j < i ==> vs@[j] == vp@[j],
        decreases vp@.len() - i,
    {
        if vs[i] != vp[i] {
            assert(s@.subrange(0, p@.len() as int)[i as int] != p@[i as int]);
            return false;
        }
        i = i + 1;
    }
    assert(s@.subrange(0, p@.len() as int) =~= p@);
    true
}

pub fn ends_with(s: &str, p: &str) -> (r: bool)
    ensures
        r == has_suffix(s@, p@),
{
    let vs = to_chars(s);
    let vp = to_chars(p);
    if vp.len() > vs.len() {
        return false;
    }
    let off = vs.len() - vp.len();
    let n = vs.len();
    let mut i: usize = 0;
    while i < vp.len()
        invariant
            n == vs@.len(),
            vs@ == s@,
            vp@ == p@,
            vp@.len() <= vs@.len(),
            off == vs@.len() - vp@.len(),
            i <= vp@.len(),
            forall|j: int| 0 <= j < i ==> vs@[off + j] == vp@[j],
        decreases vp@.len() - i,
    {
        if vs[off + i] != vp[i] {
            assert(s@.subrange(off as int, s@.len() as int)[i as int] != p@[i as int]);
            return false;
        }
        i = i + 1;
    }
    assert(s@.subrange(off as int, s@.len() as int) =~= p@);
    true
}

pub fn contains_char(s: &str, c: char) -> (r: bool)
    ensures
        r == s@.contains(c),
{
    let vs = to_chars(s);
    let mut i: usize = 0;
    while i < vs.len()
        invariant
            vs@ == s@,
            i <= vs@.len(),
            forall|j: int| 0 <= j < i ==> vs@[j] != c,
        decreases vs@.len() - i,
    {
        if vs[i] == c {
            return true;
        }
        i = i + 1;
    }
    false
}

/// Whether `needle` occurs in the characters `v` at position `i`.
fn match_at(v: &Vec<char>, needle: &Vec<char>, i: usize) -> (r: bool)
    requires
        i + needle@.len() <= v@.len(),
    ensures
        r == (v@.subrange(i as int, i + needle@.len()) == needle@),
{
    let n = v.len();
    let mut j: usize = 0;
    while j < needle.len()
        invariant
            n == v@.len(),
            i + needle@.len() <= v@.len(),
            j <= needle@.len(),
            forall|k: int| 0 <= k < j ==> v@[i + k] == needle@[k],
        decreases needle@.len() - j,
    {
        if v[i + j] != needle[j] {
            assert(v@.subrange(i as int, i + needle@.len())[j as int] != needle@[j as int]);
            return false;
        }
        j = j + 1;
    }
    assert(v@.subrange(i as int, i + needle@.len()) =~= needle@);
    true
}

pub fn contains_str(s: &str, needle: &str) -> (r: bool)
    ensures
        r == has_infix(s@, needle@),
{
    let vs = to_chars(s);
    let vn = to_chars(needle);
    if vn.len() > vs.len() {
        return false;
    }
    if vn.len() == 0 {
        assert(s@.subrange(0, 0 + needle@.len() as int) =~= needle@);
        return true;
    }
    let last = vs.len() - vn.len();
    let n = vs.len();
    let mut i: usize = 0;
    while i <= last
        invariant
            n == vs@.len(),
            vs@ == s@,
            vn@ == needle@,
            vn@.len() <= vs@.len(),
            last == vs@.len() - vn@.len(),
            vn@.len() > 0,
            i <= last + 1,
            forall|k: int| 0 <= k < i ==> #[trigger] s@.subrange(k, k + needle@.len()) != needle@,
        decreases last + 1 - i,
    {
        if match_at(&vs, &vn, i) {
            return true;
        }
        i = i + 1;
    }
    false
}

pub fn is_all_whitespace(s: &str) -> (r: bool)
    ensures
        r == all_ws(s@),
{
    let vs = to_chars(s);
    let mut i: usize = 0;
    while i < vs.len()
        invariant
            vs@ == s@,
            i <= vs@.len(),
            forall|j: int| 0 <= j < i ==> is_ws(#[trigger] vs@[j]),
        decreases vs@.len() - i,
    {
        if !is_whitespace(vs[i]) {
            return false;
        }
        i = i + 1;
    }
    true
}

proof fn lemma_trim_start_step(s: Seq<char>, i: int)
    requires
        0 <= i < s.len(),
        is_ws(s[i]),
    ensures
        trim_start_seq(s.subrange(i, s.len() as int)) == trim_start_seq(
            s.subrange(i + 1, s.len() as int),
        ),
{
    assert(s.subrange(i, s.len() as int).drop_first() =~= s.subrange(i + 1, s.len() as int));
}

proof fn lemma_trim_end_step(s: Seq<char>, j: int)
    requires
        0 < j <= s.len(),
        is_ws(s[j - 1]),
    ensures
        trim_end_seq(s.subrange(0, j)) == trim_end_seq(s.subrange(0, j - 1)),
{
    assert(s.subrange(0, j).drop_last() =~= s.subrange(0, j - 1));
}

proof fn lemma_trim_start_all_ws(s: Seq<char>)
    requires
        all_ws(s),
    ensures
        trim_start_seq(s) == Seq::<char>::empty(),
    decreases s.len(),
{
    if s.len() > 0 {
        assert(is_ws(s[0]));
        let t = s.drop_first();
        assert forall|i: int| 0 <= i < t.len() implies is_ws(#[trigger] t[i]) by {
            assert(t[i] == s[i + 1]);
        }
        lemma_trim_start_all_ws(t);
    } else {
        assert(s =~= Seq::<char>::empty());
    }
}

/// `str::trim`: the text without leading and trailing whitespace.
pub fn trim(s: &str) -> (r: String)
    ensures
        r@ == trim_seq(s@),
{
    let v = to_chars(s);
    let n = v.len();
    let mut i: usize = 0;
    assert(s@.subrange(0, n as int) =~= s@);
    while i < n && is_whitespace(v[i])
        invariant
            v@ == s@,
            n == v@.len(),
            i <= n,
            trim_start_seq(s@) == trim_start_seq(s@.subrange(i as int, n as int)),
        decreases n - i,
    {
        proof {
            lemma_trim_start_step(s@, i as int);
        }
        i = i + 1;
    }
    let ghost t = s@.subrange(i as int, n as int);
    proof {
        if i < n {
            assert(!is_ws(t[0]));
        } else {
            assert(t =~= Seq::<char>::empty());
        }
        assert(trim_start_seq(s@) == t);
    }
    let mut j: usize = n;
    while j > i && is_whitespace(v[j - 1])
        invariant
            v@ == s@,
            n == v@.len(),
            i <= j <= n,
            t == s@.subrange(i as int, n as int),
            trim_end_seq(t) == trim_end_seq(s@.subrange(i as int, j as int)),
        decreases j,
    {
        proof {
            let u = s@.subrange(i as int, j as int);
            assert(u.drop_last() =~= s@.subrange(i as int, j - 1));
        }
        j = j - 1;
    }
    proof {
        let u = s@.subrange(i as int, j as int);
        if j > i {
            assert(!is_ws(u.last()));
        } else {
            assert(u =~= Seq::<char>::empty());
        }
    }
    from_char_range(&v, i, j)
}

pub proof fn lemma_trim_empty_iff_all_ws(s: Seq<char>)
    ensures
        (trim_seq(s).len() == 0) == all_ws(s),
{
    lemma_trim_start_shape(s);
    lemma_trim_end_shape(trim_start_seq(s));
    if all_ws(s) {
        lemma_trim_start_all_ws(s);
        assert(trim_start_seq(s).len() == 0);
    } else {
        let k = choose|k: int| 0 <= k < s.len() && !is_ws(#[trigger] s[k]);
        lemma_trim_start_keeps_non_ws(s, k);
    }
}

/// The leading-trim removes a whitespace prefix and keeps a suffix of `s`.
pub proof fn lemma_trim_start_shape(s: Seq<char>)
    ensures
        trim_start_seq(s).len() <= s.len(),
        trim_start_seq(s) == s.subrange(s.len() - trim_start_seq(s).len(), s.len() as int),
        trim_start_seq(s).len() > 0 ==> !is_ws(trim_start_seq(s)[0]),
        forall|i: int| 0 <= i < s.len() - trim_start_seq(s).len() ==> is_ws(#[trigger] s[i]),
    decreases s.len(),
{
    if s.len() > 0 && is_ws(s[0]) {
        let t = s.drop_first();
        lemma_trim_start_shape(t);
        assert forall|i: int| 0 <= i < s.len() - trim_start_seq(s).len() implies is_ws(
            #[trigger] s[i],
        ) by {
            if i > 0 {
                assert(s[i] == t[i - 1]);
            }
        }
        assert(t.subrange(t.len() - trim_start_seq(t).len(), t.len() as int) =~= s.subrange(
            s.len() - trim_start_seq(s).len(),
            s.len() as int,
        ));
    } else {
        assert(s.subrange(0, s.len() as int) =~= s);
    }
}

/// The trailing-trim removes a whitespace suffix and keeps a prefix of `s`.
pub proof fn lemma_trim_end_shape(s: Seq<char>)
    ensures
        trim_end_seq(s).len() <= s.len(),
        trim_end_seq(s) == s.subrange(0, trim_end_seq(s).len() as int),
        trim_end_seq(s).len() > 0 ==> !is_ws(trim_end_seq(s).last()),
        forall|i: int| trim_end_seq(s).len() <= i < s.len() ==> is_ws(#[trigger] s[i]),
    decreases s.len(),
{
    if s.len() > 0 && is_ws(s.last()) {
        let t = s.drop_last();
        lemma_trim_end_shape(t);
        assert forall|i: int| trim_end_seq(s).len() <= i < s.len() implies is_ws(
            #[trigger] s[i],
        ) by {
            if i < s.len() - 1 {
                assert(s[i] == t[i]);
            }
        }
        assert(t.subrange(0, trim_end_seq(t).len() as int) =~= s.subrange(
            0,
            trim_end_seq(s).len() as int,
        ));
    } else {
        assert(s.subrange(0, s.len() as int) =~= s);
    }
}

proof fn lemma_trim_start_keeps_non_ws(s: Seq<char>, k: int)
    requires
        0 <= k < s.len(),
        !is_ws(s[k]),
    ensures
        trim_start_seq(s).len() > 0,
        trim_end_seq(trim_start_seq(s)).len() > 0,
{
    lemma_trim_start_shape(s);
    let t = trim_start_seq(s);
    assert(t.len() > 0) by {
        if t.len() == 0 {
            assert(is_ws(s[k]));
        }
    }
    assert(!is_ws(t[0]));
    lemma_trim_end_shape(t);
    if trim_end_seq(t).len() == 0 {
        assert(is_ws(t[0]));
    }
}

/// `u64::to_string`.
pub fn u64_to_string(n: u64) -> (r: String)
    ensures
        r@ == decimal(n as nat),
    decreases n,
{
    if n < 10 {
        let mut r = String::new();
        let c = char_from_digit(n);
        push_char(&mut r, c);
        assert(r@ =~= seq![digit_char(n as nat)]);
        r
    } else {
        let mut r = u64_to_string(n / 10);
        let c = char_from_digit(n % 10);
        push_char(&mut r, c);
        r
    }
}

fn char_from_digit(d: u64) -> (c: char)
    requires
        d < 10,
    ensures
        c == digit_char(d as nat),
{
    if d == 0 {
        '0'
    } else if d == 1 {
        '1'
    } else if d == 2 {
        '2'
    } else if d == 3 {
        '3'
    } else if d == 4 {
        '4'
    } else if d == 5 {
        '5'
    } else if d == 6 {
        '6'
    } else if d == 7 {
        '7'
    } else if d == 8 {
        '8'
    } else {
        '9'
    }
}

/// `i64::to_string`: an optional minus sign followed by the decimal digits.
pub fn i64_to_string(n: i64) -> (r: String)
    ensures
        r@ == (if n < 0 {
            seq!['-'] + decimal((-(n as int)) as nat)
        } else {
            decimal(n as nat)
        }),
{
    if n < 0 {
        let m: u64 = if n == i64::MIN {
            9223372036854775808u64
        } else {
            (-n) as u64
        };
        let digits = u64_to_string(m);
        let mut r = String::from_str("-");
        r.append(digits.as_str());
        proof {
            reveal_strlit("-");
        }
        r
    } else {
        u64_to_string(n as u64)
    }
}

/// `text` followed by `tail`.
pub fn cat(text: &str, tail: &str) -> (r: String)
    ensures
        r@ == text@ + tail@,
{
    let mut r = String::from_str(text);
    r.append(tail);
    r
}

/// `a`, `b`, `c` in a row.
pub fn cat3(a: &str, b: &str, c: &str) -> (r: String)
    ensures
        r@ == a@ + b@ + c@,
{
    let mut r = String::from_str(a);
    r.append(b);
    r.append(c);
    r
}

/// The ASCII lower-case form, as `str::to_ascii_lowercase`.
pub fn to_ascii_lowercase(s: &str) -> (r: String)
    ensures
        r@ == ascii_lower_seq(s@),
{
    let v = to_chars(s);
    let mut r = String::new();
    let mut i: usize = 0;
    while i < v.len()
        invariant
            v@ == s@,
            i <= v@.len(),
            r@ == ascii_lower_seq(s@.subrange(0, i as int)),
        decreases v@.len() - i,
    {
        let c = v[i];
        let l = if 'A' <= c && c <= 'Z' {
            char_lower(c)
        } else {
            c
        };
        push_char(&mut r, l);
        assert(ascii_lower_seq(s@.subrange(0, i + 1)) =~= ascii_lower_seq(
            s@.subrange(0, i as int),
        ).push(ascii_lower(c)));
        i = i + 1;
    }
    assert(s@.subrange(0, v@.len() as int) =~= s@);
    r
}

fn char_lower(c: char) -> (r: char)
    requires
        is_ascii_upper(c),
    ensures
        r == ascii_lower(c),
{
    let u = c as u32 + 32;
    assert(u <= 0x7a);
    let b = u as u8;
    b as char
}

/// Compares two texts by code point, as `String`'s `Ord` does.
pub fn str_lt(a: &str, b: &str) -> (r: bool)
    ensures
        r == seq_lt(a@, b@),
{
    let va = to_chars(a);
    let vb = to_chars(b);
    assert(va@.subrange(0, va@.len() as int) =~= va@);
    assert(vb@.subrange(0, vb@.len() as int) =~= vb@);
    chars_lt_from(&va, &vb, 0)
}

fn chars_lt_from(a: &Vec<char>, b: &Vec<char>, i: usize) -> (r: bool)
    requires
        i <= a@.len(),
        i <= b@.len(),
    ensures
        r == seq_lt(a@.subrange(i as int, a@.len() as int), b@.subrange(i as int, b@.len() as int)),
    decreases a@.len() - i,
{
    let ghost sa = a@.subrange(i as int, a@.len() as int);
    let ghost sb = b@.subrange(i as int, b@.len() as int);
    if i == a.len() {
        i < b.len()
    } else if i == b.len() {
        false
    } else if a[i] != b[i] {
        assert(sa[0] == a@[i as int] && sb[0] == b@[i as int]);
        a[i] < b[i]
    } else {
        assert(sa.drop_first() =~= a@.subrange(i + 1, a@.len() as int));
        assert(sb.drop_first() =~= b@.subrange(i + 1, b@.len() as int));
        chars_lt_from(a, b, i + 1)
    }
}

pub proof fn lemma_seq_lt_irreflexive(a: Seq<char>)
    ensures
        !seq_lt(a, a),
    decreases a.len(),
{
    if a.len() > 0 {
        lemma_seq_lt_irreflexive(a.drop_first());
    }
}

pub proof fn lemma_seq_lt_asymmetric(a: Seq<char>, b: Seq<char>)
    ensures
        seq_lt(a, b) ==> !seq_lt(b, a),
    decreases a.len(),
{
    if a.len() > 0 && b.len() > 0 && a[0] == b[0] {
        lemma_seq_lt_asymmetric(a.drop_first(), b.drop_first());
    }
}

pub proof fn lemma_seq_lt_transitive(a: Seq<char>, b: Seq<char>, c: Seq<char>)
    ensures
        seq_lt(a, b) && seq_lt(b, c) ==> seq_lt(a, c),
    decreases a.len(),
{
    if a.len() > 0 && b.len() > 0 && c.len() > 0 {
        lemma_seq_lt_transitive(a.drop_first(), b.drop_first(), c.drop_first());
    }
}

pub proof fn lemma_seq_lt_total(a: Seq<char>, b: Seq<char>)
    ensures
        seq_lt(a, b) || seq_lt(b, a) || a == b,
    decreases a.len(),
{
    if a.len() > 0 && b.len() > 0 {
        if a[0] == b[0] {
            lemma_seq_lt_total(a.drop_first(), b.drop_first());
            if a.drop_first() == b.drop_first() {
                assert(a =~= seq![a[0]] + a.drop_first());
                assert(b =~= seq![b[0]] + b.drop_first());
            }
        }
    } else if a.len() == 0 && b.len() == 0 {
        assert(a =~= b);
    }
}

/// The pieces of `s` between occurrences of `sep`, as `str::split` gives them.
pub open spec fn segments(s: Seq<char>, sep: char) -> Seq<Seq<char>>
    decreases s.len(),
{
    if s.len() == 0 {
        seq![Seq::<char>::empty()]
    } else {
        let rest = segments(s.drop_last(), sep);
        if s.last() == sep {
            rest.push(Seq::<char>::empty())
        } else {
            rest.update(rest.len() - 1, rest.last().push(s.last()))
        }
    }
}

/// The non-empty texts of `parts`, in order.
pub open spec fn keep_nonempty(parts: Seq<Seq<char>>) -> Seq<Seq<char>>
    decreases parts.len(),
{
    if parts.len() == 0 {
        parts
    } else if parts.last().len() > 0 {
        keep_nonempty(parts.drop_last()).push(parts.last())
    } else {
        keep_nonempty(parts.drop_last())
    }
}

pub open spec fn text_views(v: Seq<String>) -> Seq<Seq<char>> {
    v.map_values(|x: String| x@)
}

/// There is always at least one piece.
pub proof fn lemma_segments_nonempty(s: Seq<char>, sep: char)
    ensures
        segments(s, sep).len() >= 1,
    decreases s.len(),
{
    if s.len() > 0 {
        lemma_segments_nonempty(s.drop_last(), sep);
    }
}

/// The non-empty pieces of `s` between occurrences of `sep`
/// (`s.split(sep).filter(|p| !p.is_empty())`).
pub fn split_nonempty(s: &str, sep: char) -> (r: Vec<String>)
    ensures
        text_views(r@) == keep_nonempty(segments(s@, sep)),
{
    let v = to_chars(s);
    let mut out: Vec<String> = Vec::new();
    let mut cur = String::new();
    let mut i: usize = 0;
    proof {
        assert(s@.take(0) =~= Seq::<char>::empty());
    }
    while i < v.len()
        invariant
            v@ == s@,
            i <= v@.len(),
            segments(s@.take(i as int), sep).len() >= 1,
            text_views(out@) == keep_nonempty(segments(s@.take(i as int), sep).drop_last()),
            cur@ == segments(s@.take(i as int), sep).last(),
        decreases v@.len() - i,
    {
        let c = v[i];
        let ghost t = s@.take(i as int);
        let ghost t1 = s@.take(i + 1);
        proof {
            assert(t1.drop_last() =~= t);
            assert(t1.last() == c);
            lemma_segments_nonempty(t, sep);
        }
        if c == sep {
            let ghost before = out@;
            if !cur.as_str().is_empty() {
                out.push(cur);
            }
            proof {
                let segs = segments(t, sep);
                assert(segments(t1, sep).drop_last() =~= segs);
                assert(text_views(out@) =~= keep_nonempty(segs)) by {
                    assert(segs =~= segs.drop_last().push(segs.last()));
                    if segs.last().len() > 0 {
                        assert(text_views(out@) =~= text_views(before).push(segs.last()));
                    }
                }
            }
            cur = String::new();
        } else {
            push_char(&mut cur, c);
            proof {
                let segs = segments(t, sep);
                assert(segments(t1, sep).drop_last() =~= segs.drop_last());
            }
        }
        i = i + 1;
    }
    proof {
        assert(s@.take(v@.len() as int) =~= s@);
        lemma_segments_nonempty(s@, sep);
    }
    let ghost segs = segments(s@, sep);
    let ghost before = out@;
    if !cur.as_str().is_empty() {
        out.push(cur);
    }
    proof {
        assert(segs =~= segs.drop_last().push(segs.last()));
        if segs.last().len() > 0 {
            assert(text_views(out@) =~= text_views(before).push(segs.last()));
        }
    }
    out
}

/// `s` split at every occurrence of `sep`, empty pieces kept (`str::split`).
pub fn split_all(s: &str, sep: char) -> (r: Vec<String>)
    ensures
        text_views(r@) == segments(s@, sep),
{
    let v = to_chars(s);
    let mut out: Vec<String> = Vec::new();
    let mut cur = String::new();
    let mut i: usize = 0;
    proof {
        assert(s@.take(0) =~= Seq::<char>::empty());
    }
    while i < v.len()
        invariant
            v@ == s@,
            i <= v@.len(),
            segments(s@.take(i as int), sep).len() >= 1,
            text_views(out@) == segments(s@.take(i as int), sep).drop_last(),
            cur@ == segments(s@.take(i as int), sep).last(),
        decreases v@.len() - i,
    {
        let c = v[i];
        let ghost t = s@.take(i as int);
        let ghost t1 = s@.take(i + 1);
        proof {
            assert(t1.drop_last() =~= t);
            assert(t1.last() == c);
            lemma_segments_nonempty(t, sep);
        }
        if c == sep {
            let ghost before = out@;
            out.push(cur);
            proof {
                let segs = segments(t, sep);
                assert(segments(t1, sep).drop_last() =~= segs);
                assert(text_views(out@) =~= text_views(before).push(segs.last()));
                assert(segs =~= segs.drop_last().push(segs.last()));
            }
            cur = String::new();
        } else {
            push_char(&mut cur, c);
            proof {
                let segs = segments(t, sep);
                assert(segments(t1, sep).drop_last() =~= segs.drop_last());
            }
        }
        i = i + 1;
    }
    proof {
        assert(s@.take(v@.len() as int) =~= s@);
        lemma_segments_nonempty(s@, sep);
    }
    let ghost segs = segments(s@, sep);
    let ghost before = out@;
    out.push(cur);
    proof {
        assert(text_views(out@) =~= text_views(before).push(segs.last()));
        assert(segs =~= segs.drop_last().push(segs.last()));
    }
    out
}

/// A line without the `\r` of a `\r\n` ending.
pub open spec fn strip_cr(l: Seq<char>) -> Seq<char> {
    if l.len() > 0 && l.last() == '\r' {
        l.drop_last()
    } else {
        l
    }
}

/// The lines of a text as `str::lines` gives them: split at `\n`, a `\r` before a `\n`
/// dropped, and no empty line after a final `\n`.
pub open spec fn spec_lines(s: Seq<char>) -> Seq<Seq<char>> {
    let segs = segments(s, '\n');
    segs.drop_last().map_values(|l: Seq<char>| strip_cr(l)) + if segs.last().len() > 0 {
        seq![segs.last()]
    } else {
        Seq::empty()
    }
}

/// `str::lines`.
pub fn lines_of(s: &str) -> (r: Vec<String>)
    ensures
        text_views(r@) == spec_lines(s@),
{
    let parts = split_all(s, '\n');
    proof {
        lemma_segments_nonempty(s@, '\n');
    }
    let n = parts.len();
    let ghost segs = segments(s@, '\n');
    let mut out: Vec<String> = Vec::new();
    let mut i: usize = 0;
    while i + 1 < n
        invariant
            n == parts@.len(),
            n >= 1,
            text_views(parts@) == segs,
            i + 1 <= n,
            text_views(out@) == segs.take(i as int).map_values(|l: Seq<char>| strip_cr(l)),
        decreases n - i,
    {
        let p = &parts[i];
        let pv = to_chars(p.as_str());
        let line = if pv.len() > 0 && pv[pv.len() - 1] == '\r' {
            from_char_range(&pv, 0, pv.len() - 1)
        } else {
            p.clone()
        };
        proof {
            assert(segs[i as int] == p@);
            assert(line@ == strip_cr(p@)) by {
                if pv@.len() > 0 && pv@[pv@.len() - 1] == '\r' {
                    assert(p@.drop_last() =~= p@.subrange(0, p@.len() - 1));
                }
            }
        }
        let ghost before = out@;
        out.push(line);
        proof {
            assert(text_views(out@) =~= text_views(before).push(strip_cr(segs[i as int])));
            assert(segs.take(i + 1).map_values(|l: Seq<char>| strip_cr(l)) =~= segs.take(
                i as int,
            ).map_values(|l: Seq<char>| strip_cr(l)).push(strip_cr(segs[i as int])));
        }
        i = i + 1;
    }
    proof {
        assert(segs.take(i as int) =~= segs.drop_last());
        assert(segs.last() == parts@[n - 1]@);
    }
    let last = &parts[n - 1];
    let ghost before = out@;
    if !last.as_str().is_empty() {
        out.push(last.clone());
        proof {
            assert(text_views(out@) =~= text_views(before).push(segs.last()));
        }
    }
    proof {
        assert(text_views(out@) =~= spec_lines(s@));
    }
    out
}

/// The pieces of `s` between whitespace characters, empty pieces kept.
pub open spec fn ws_segments(s: Seq<char>) -> Seq<Seq<char>>
    decreases s.len(),
{
    if s.len() == 0 {
        seq![Seq::<char>::empty()]
    } else {
        let rest = ws_segments(s.drop_last());
        if is_ws(s.last()) {
            rest.push(Seq::<char>::empty())
        } else {
            rest.update(rest.len() - 1, rest.last().push(s.last()))
        }
    }
}

proof fn lemma_ws_segments_nonempty(s: Seq<char>)
    ensures
        ws_segments(s).len() >= 1,
    decreases s.len(),
{
    if s.len() > 0 {
        lemma_ws_segments_nonempty(s.drop_last());
    }
}

/// The words of `s` (`str::split_whitespace`).
pub open spec fn spec_words(s: Seq<char>) -> Seq<Seq<char>> {
    keep_nonempty(ws_segments(s))
}

/// `str::split_whitespace`.
pub fn words_of(s: &str) -> (r: Vec<String>)
    ensures
        text_views(r@) == spec_words(s@),
{
    let v = to_chars(s);
    let mut out: Vec<String> = Vec::new();
    let mut cur = String::new();
    let mut i: usize = 0;
    proof {
        assert(s@.take(0) =~= Seq::<char>::empty());
    }
    while i < v.len()
        invariant
            v@ == s@,
            i <= v@.len(),
            ws_segments(s@.take(i as int)).len() >= 1,
            text_views(out@) == keep_nonempty(ws_segments(s@.take(i as int)).drop_last()),
            cur@ == ws_segments(s@.take(i as int)).last(),
        decreases v@.len() - i,
    {
        let c = v[i];
        let ghost t = s@.take(i as int);
        let ghost t1 = s@.take(i + 1);
        proof {
            assert(t1.drop_last() =~= t);
            assert(t1.last() == c);
            lemma_ws_segments_nonempty(t);
        }
        if is_whitespace(c) {
            let ghost before = out@;
            if !cur.as_str().is_empty() {
                out.push(cur);
            }
            proof {
                let segs = ws_segments(t);
                assert(ws_segments(t1).drop_last() =~= segs);
                assert(text_views(out@) =~= keep_nonempty(segs)) by {
                    assert(segs =~= segs.drop_last().push(segs.last()));
                    if segs.last().len() > 0 {
                        assert(text_views(out@) =~= text_views(before).push(segs.last()));
                    }
                }
            }
            cur = String::new();
        } else {
            push_char(&mut cur, c);
            proof {
                let segs = ws_segments(t);
                assert(ws_segments(t1).drop_last() =~= segs.drop_last());
            }
        }
        i = i + 1;
    }
    proof {
        assert(s@.take(v@.len() as int) =~= s@);
        lemma_ws_segments_nonempty(s@);
    }
    let ghost segs = ws_segments(s@);
    let ghost before = out@;
    if !cur.as_str().is_empty() {
        out.push(cur);
    }
    proof {
        assert(segs =~= segs.drop_last().push(segs.last()));
        if segs.last().len() > 0 {
            assert(text_views(out@) =~= text_views(before).push(segs.last()));
        }
    }
    out
}

/// The first position at or after `i` where `needle` occurs in `s`.
pub open spec fn first_from(s: Seq<char>, needle: Seq<char>, i: int) -> Option<int>
    decreases s.len() + 1 - i,
{
    if i < 0 || i + needle.len() > s.len() {
        None
    } else if s.subrange(i, i + needle.len()) == needle {
        Some(i)
    } else {
        first_from(s, needle, i + 1)
    }
}

/// A position `first_from` finds is an occurrence at or after `i`.
pub proof fn lemma_first_from_found(s: Seq<char>, needle: Seq<char>, i: int, k: int)
    requires
        first_from(s, needle, i) == Some(k),
    ensures
        i <= k,
        k + needle.len() <= s.len(),
        s.subrange(k, k + needle.len()) == needle,
    decreases s.len() + 1 - i,
{
    if !(i < 0 || i + needle.len() > s.len()) && s.subrange(i, i + needle.len()) != needle {
        lemma_first_from_found(s, needle, i + 1, k);
    }
}

/// The first position where `needle` occurs in `s` (`str::find`, counted in characters).
pub open spec fn spec_first_index(s: Seq<char>, needle: Seq<char>) -> Option<int> {
    first_from(s, needle, 0)
}

/// The first position, in characters, where `needle` occurs in `s`.
pub fn first_index_of(s: &str, needle: &str) -> (r: Option<usize>)
    ensures
        match r {
            Some(k) => spec_first_index(s@, needle@) == Some(k as int),
            None => spec_first_index(s@, needle@) is None,
        },
{
    let vs = to_chars(s);
    let vn = to_chars(needle);
    let n = vs.len();
    let m = vn.len();
    if m > n {
        return None;
    }
    let mut i: usize = 0;
    while i <= n - m
        invariant
            vs@ == s@,
            vn@ == needle@,
            n == vs@.len(),
            m == vn@.len(),
            m <= n,
            i <= n - m + 1,
            first_from(s@, needle@, 0) == first_from(s@, needle@, i as int),
        decreases n - m + 1 - i,
    {
        if match_at(&vs, &vn, i) {
            return Some(i);
        }
        if i == n - m {
            proof {
                assert(first_from(s@, needle@, i + 1) is None);
            }
            return None;
        }
        i = i + 1;
    }
    None
}

/// `str::trim_end`: the text without trailing whitespace.
pub fn trim_end_str(s: &str) -> (r: String)
    ensures
        r@ == trim_end_seq(s@),
{
    let v = to_chars(s);
    let mut j: usize = v.len();
    proof {
        assert(s@.subrange(0, s@.len() as int) =~= s@);
    }
    while j > 0 && is_whitespace(v[j - 1])
        invariant
            v@ == s@,
            j <= v@.len(),
            trim_end_seq(s@) == trim_end_seq(s@.subrange(0, j as int)),
        decreases j,
    {
        proof {
            assert(s@.subrange(0, j as int).drop_last() =~= s@.subrange(0, j - 1));
        }
        j = j - 1;
    }
    proof {
        let u = s@.subrange(0, j as int);
        if j > 0 {
            assert(!is_ws(u.last()));
        }
    }
    from_char_range(&v, 0, j)
}

} // verus!
