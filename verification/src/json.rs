//! JSON documents as plain values, parsed by `serde_json`.
use vstd::prelude::*;
use crate::text::str_eq;

verus! {

/// A JSON value. Numbers keep the text `serde_json` prints for them; parsed objects keep
/// their members in the order `serde_json`'s map iterates them.
#[derive(Debug)]
pub enum Json {
    Null,
    Bool(bool),
    Number(String),
    Str(String),
    Array(Vec<Json>),
    Object(Vec<(String, Json)>),
}

/// The JSON value a text parses to, by `serde_json::from_str::<serde_json::Value>`; None when
/// the text is not JSON.
pub uninterp spec fn json_parse(text: Seq<char>) -> Option<Json>;

/// `serde_json::Value`, carried opaquely.
#[verifier::external_type_specification]
#[verifier::external_body]
pub struct ExJsonValue(serde_json::Value);

/// `serde_json::Value` as a `Json`, variant for variant.
#[verifier::external_body]
fn json_from_value(v: &serde_json::Value) -> (r: Json) {
    match v {
        serde_json::Value::Null => Json::Null,
        serde_json::Value::Bool(b) => Json::Bool(*b),
        serde_json::Value::Number(n) => Json::Number(n.to_string()),
        serde_json::Value::String(s) => Json::Str(s.clone()),
        serde_json::Value::Array(a) => Json::Array(a.iter().map(json_from_value).collect()),
        serde_json::Value::Object(o) => Json::Object(
            o.iter().map(|(k, x)| (k.clone(), json_from_value(x))).collect(),
        ),
    }
}

/// `serde_json::from_str::<serde_json::Value>(text)`, as a `Json`.
#[verifier::external_body]
pub fn parse_json(text: &str) -> (r: Option<Json>)
    ensures
        r == json_parse(text@),
{
    serde_json::from_str::<serde_json::Value>(text).ok().map(|v| json_from_value(&v))
}

/// Index of the first member called `key`.
pub open spec fn first_member(members: Seq<(String, Json)>, key: Seq<char>, i: int) -> bool {
    0 <= i < members.len() && members[i].0@ == key && forall|j: int|
        0 <= j < i ==> #[trigger] members[j].0@ != key
}

/// `r` is the first member called `key` of an object, or None when there is none or `v` is
/// not an object.
pub open spec fn get_result(v: Json, key: Seq<char>, r: Option<&Json>) -> bool {
    match v {
        Json::Object(members) => match r {
            Some(x) => exists|i: int| #[trigger]
                first_member(members@, key, i) && *x == members@[i].1,
            None => forall|i: int| 0 <= i < members@.len() ==> #[trigger] members@[i].0@ != key,
        },
        _ => r is None,
    }
}

/// The value of the first member called `key`, if any.
pub open spec fn first_value(ms: Seq<(String, Json)>, key: Seq<char>) -> Option<Json>
    decreases ms.len(),
{
    if ms.len() == 0 {
        None
    } else if ms[0].0@ == key {
        Some(ms[0].1)
    } else {
        first_value(ms.drop_first(), key)
    }
}

/// The member `key` of an object; None for a value that is not an object.
pub open spec fn member(v: Json, key: Seq<char>) -> Option<Json> {
    match v {
        Json::Object(ms) => first_value(ms@, key),
        _ => None,
    }
}

pub open spec fn opt_ref_is(r: Option<&Json>, m: Option<Json>) -> bool {
    match r {
        Some(x) => m == Some(*x),
        None => m is None,
    }
}

/// The member `key` of an object, as `serde_json::Value::get` reads it.
pub fn get<'a>(v: &'a Json, key: &str) -> (r: Option<&'a Json>)
    ensures
        get_result(*v, key@, r),
        opt_ref_is(r, member(*v, key@)),
{
    match v {
        Json::Object(members) => {
            let mut i: usize = 0;
            assert(members@.skip(0) =~= members@);
            while i < members.len()
                invariant
                    *v == Json::Object(*members),
                    i <= members@.len(),
                    forall|j: int| 0 <= j < i ==> #[trigger] members@[j].0@ != key@,
                    first_value(members@, key@) == first_value(members@.skip(i as int), key@),
                decreases members@.len() - i,
            {
                let ghost rest = members@.skip(i as int);
                assert(rest[0] == members@[i as int]);
                assert(rest.drop_first() =~= members@.skip(i + 1));
                if str_eq(members[i].0.as_str(), key) {
                    let x = &members[i].1;
                    assert(first_member(members@, key@, i as int));
                    assert(get_result(*v, key@, Some(x)));
                    return Some(x);
                }
                i = i + 1;
            }
            assert(members@.skip(members@.len() as int).len() == 0);
            None
        },
        _ => None,
    }
}

/// The text of a JSON string.
pub fn as_str(v: &Json) -> (r: Option<&str>)
    ensures
        match *v {
            Json::Str(s) => r matches Some(x) && x@ == s@,
            _ => r is None,
        },
{
    match v {
        Json::Str(s) => Some(s.as_str()),
        _ => None,
    }
}

/// The compact JSON text `serde_json::to_string` writes for a value, once converted to a
/// `serde_json::Value` (object members then keyed by `serde_json::Map`).
pub uninterp spec fn json_text(v: Json) -> Seq<char>;

/// A `Json` as a `serde_json::Value`, variant for variant.
#[verifier::external_body]
fn value_from_json(v: &Json) -> (r: serde_json::Value) {
    match v {
        Json::Null => serde_json::Value::Null,
        Json::Bool(b) => serde_json::Value::Bool(*b),
        Json::Number(n) => serde_json::from_str(n).unwrap_or(serde_json::Value::Null),
        Json::Str(s) => serde_json::Value::String(s.clone()),
        Json::Array(a) => serde_json::Value::Array(a.iter().map(value_from_json).collect()),
        Json::Object(o) => serde_json::Value::Object(
            o.iter().map(|(k, x)| (k.clone(), value_from_json(x))).collect(),
        ),
    }
}

/// `serde_json::to_string` of the value.
#[verifier::external_body]
pub fn to_json_text(v: &Json) -> (r: String)
    ensures
        r@ == json_text(*v),
{
    value_from_json(v).to_string()
}

/// Whether `serde_json::Value`'s `==` holds of the two values once converted: objects are
/// compared as `serde_json::Map`s, so the order of their members does not count.
pub uninterp spec fn json_values_equal(a: Json, b: Json) -> bool;

/// `serde_json::Value`'s `==` on the two values, once converted.
#[verifier::external_body]
pub fn same_json(a: &Json, b: &Json) -> (r: bool)
    ensures
        r == json_values_equal(*a, *b),
{
    value_from_json(a) == value_from_json(b)
}

/// `j` is the JSON string `s`.
pub open spec fn is_text(j: Json, s: Seq<char>) -> bool {
    j matches Json::Str(x) && x@ == s
}

/// `j` is an array of the strings `s`, in order.
pub open spec fn is_text_array(j: Json, s: Seq<Seq<char>>) -> bool {
    j matches Json::Array(items) && items@.len() == s.len() && forall|i: int|
        0 <= i < s.len() ==> is_text(#[trigger] items@[i], s[i])
}

/// `j` is an object whose members are the string pairs `m`, in order.
pub open spec fn is_text_object(j: Json, m: Seq<(String, String)>) -> bool {
    j matches Json::Object(ms) && ms@.len() == m.len() && forall|i: int|
        0 <= i < m.len() ==> #[trigger] ms@[i].0@ == m[i].0@ && is_text(ms@[i].1, m[i].1@)
}

pub fn text_json(s: &str) -> (r: Json)
    ensures
        is_text(r, s@),
{
    Json::Str(String::from_str(s))
}

pub fn text_array(items: &Vec<String>) -> (r: Json)
    ensures
        is_text_array(r, items@.map_values(|x: String| x@)),
{
    let mut out: Vec<Json> = Vec::new();
    let mut i: usize = 0;
    while i < items.len()
        invariant
            i <= items@.len(),
            out@.len() == i,
            forall|j: int| 0 <= j < i ==> is_text(#[trigger] out@[j], items@[j]@),
        decreases items@.len() - i,
    {
        out.push(text_json(items[i].as_str()));
        i = i + 1;
    }
    Json::Array(out)
}

pub fn text_object(pairs: &Vec<(String, String)>) -> (r: Json)
    ensures
        is_text_object(r, pairs@),
{
    let mut out: Vec<(String, Json)> = Vec::new();
    let mut i: usize = 0;
    while i < pairs.len()
        invariant
            i <= pairs@.len(),
            out@.len() == i,
            forall|j: int|
                0 <= j < i ==> #[trigger] out@[j].0@ == pairs@[j].0@ && is_text(
                    out@[j].1,
                    pairs@[j].1@,
                ),
        decreases pairs@.len() - i,
    {
        out.push((String::from_str(pairs[i].0.as_str()), text_json(pairs[i].1.as_str())));
        i = i + 1;
    }
    Json::Object(out)
}

/// The members of an object; none for any other value.
pub open spec fn fields(j: Json) -> Seq<(String, Json)> {
    match j {
        Json::Object(ms) => ms@,
        _ => Seq::empty(),
    }
}

/// `j` is an object of `n` members.
pub open spec fn is_object(j: Json, n: nat) -> bool {
    j is Object && fields(j).len() == n
}

/// The `i`-th member of the object is called `key`.
pub open spec fn key_at(j: Json, i: int, key: Seq<char>) -> bool {
    0 <= i < fields(j).len() && fields(j)[i].0@ == key
}

/// The value of the `i`-th member.
pub open spec fn val_at(j: Json, i: int) -> Json {
    fields(j)[i].1
}

/// The `i`-th member is `key` with the string `text`.
pub open spec fn text_at(j: Json, i: int, key: Seq<char>, text: Seq<char>) -> bool {
    key_at(j, i, key) && is_text(val_at(j, i), text)
}

/// The `i`-th member is `key` with the boolean `b`.
pub open spec fn bool_at(j: Json, i: int, key: Seq<char>, b: bool) -> bool {
    key_at(j, i, key) && val_at(j, i) == Json::Bool(b)
}

/// An object built from members in order.
pub fn object(members: Vec<(String, Json)>) -> (r: Json)
    ensures
        r is Object,
        fields(r) == members@,
{
    Json::Object(members)
}

/// A member with a string value.
pub fn text_member(key: &str, value: &str) -> (r: (String, Json))
    ensures
        r.0@ == key@,
        is_text(r.1, value@),
{
    (String::from_str(key), text_json(value))
}

/// A member with any value.
pub fn member_of(key: &str, value: Json) -> (r: (String, Json))
    ensures
        r.0@ == key@,
        r.1 == value,
{
    (String::from_str(key), value)
}

/// The JSON text `serde_json::to_string_pretty` writes for a value, once converted to a
/// `serde_json::Value`.
pub uninterp spec fn json_pretty_text(v: Json) -> Seq<char>;

/// `serde_json::to_string_pretty` of the value. A `serde_json::Value` always prints: its
/// object keys are strings and its numbers are finite, so the call does not fail.
#[verifier::external_body]
pub fn to_json_pretty_text(v: &Json) -> (r: Result<String, String>)
    ensures
        r is Ok,
        r matches Ok(t) ==> t@ == json_pretty_text(*v),
{
    serde_json::to_string_pretty(&value_from_json(v)).map_err(|e| e.to_string())
}

/// Moves the member `key` out of an object, as `member` reads it.
pub fn take_member(j: Json, key: &str) -> (r: Option<Json>)
    ensures
        r == member(j, key@),
{
    let ghost m = member(j, key@);
    match j {
        Json::Object(mut ms) => {
            let ghost all = ms@;
            assert(m == first_value(all, key@));
            let mut i: usize = 0;
            assert(all.skip(0) =~= all);
            while i < ms.len()
                invariant
                    m == member(j, key@),
                    m == first_value(all, key@),
                    ms@ == all,
                    i <= all.len(),
                    first_value(all, key@) == first_value(all.skip(i as int), key@),
                decreases all.len() - i,
            {
                let ghost rest = all.skip(i as int);
                assert(rest[0] == all[i as int]);
                assert(rest.drop_first() =~= all.skip(i + 1));
                if str_eq(ms[i].0.as_str(), key) {
                    let (_, v) = ms.remove(i);
                    return Some(v);
                }
                i = i + 1;
            }
            assert(all.skip(all.len() as int).len() == 0);
            None
        },
        _ => None,
    }
}

} // verus!
