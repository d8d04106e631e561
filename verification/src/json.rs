use vstd::prelude::*;
use crate::text::{chars_eq, chars_of};

verus! {

/// A JSON number as the backend reads it: its value as an `i64` when it is an
/// integer in range (`as_i64`), and the bit pattern of its `f64` value
/// (`as_f64`), which every JSON number has.
#[derive(Clone, Copy, Debug)]
pub struct JsonNumber {
    pub as_i64: Option<i64>,
    pub f64_bits: u64,
}

/// A parsed JSON document.  Object entries keep the order in which the parser
/// produced them; a key lookup takes the first entry with that key.
#[derive(Debug)]
pub enum Json {
    Null,
    Bool(bool),
    Number(JsonNumber),
    String(String),
    Array(Vec<Json>),
    Object(Vec<(String, Json)>),
}

/// A borrowed optional value, read as the value itself.
pub open spec fn opt(value: Option<&Json>) -> Option<Json> {
    match value {
        Some(v) => Some(*v),
        None => None,
    }
}

/// The value stored under `key` among `entries` (the first such entry).
pub open spec fn entry_value(entries: Seq<(String, Json)>, key: Seq<char>) -> Option<Json>
    decreases entries.len(),
{
    if entries.len() == 0 {
        None
    } else if entries[0].0@ == key {
        Some(entries[0].1)
    } else {
        entry_value(entries.drop_first(), key)
    }
}

/// `value[key]`: the member `key` of an object; `None` stands for JSON's
/// "missing" (serde's `Null` result of indexing).
pub open spec fn member(value: Option<Json>, key: Seq<char>) -> Option<Json> {
    match value {
        Some(Json::Object(entries)) => entry_value(entries@, key),
        _ => None,
    }
}

/// `value.as_str()`.
pub open spec fn text_of(value: Option<Json>) -> Option<Seq<char>> {
    match value {
        Some(Json::String(s)) => Some(s@),
        _ => None,
    }
}

/// `value.as_i64()`.
pub open spec fn int_of(value: Option<Json>) -> Option<i64> {
    match value {
        Some(Json::Number(n)) => n.as_i64,
        _ => None,
    }
}

/// The `f64` bits of `value.as_f64()`.
pub open spec fn float_bits_of(value: Option<Json>) -> Option<u64> {
    match value {
        Some(Json::Number(n)) => Some(n.f64_bits),
        _ => None,
    }
}

/// `value.is_object()`.
pub open spec fn is_object(value: Option<Json>) -> bool {
    value matches Some(Json::Object(_))
}

/// Executable `member` over a borrowed value.
pub fn get_member<'a>(value: Option<&'a Json>, key: &str) -> (r: Option<&'a Json>)
    ensures
        match r {
            Some(v) => member(opt(value), key@) == Some(*v),
            None => member(opt(value), key@) is None,
        },
{
    let v = match value {
        Some(v) => v,
        None => return None,
    };
    assert(opt(value) == Some(*v));
    match v {
        Json::Object(entries) => {
            let k = chars_of(key);
            let mut i: usize = 0;
            assert(entries@.skip(0) == entries@);
            while i < entries.len()
                invariant
                    i <= entries@.len(),
                    k@ == key@,
                    member(opt(value), key@) == entry_value(entries@, key@),
                    entry_value(entries@, key@) == entry_value(entries@.skip(i as int), key@),
                decreases entries.len() - i,
            {
                let ghost rest = entries@.skip(i as int);
                assert(rest.drop_first() == entries@.skip(i + 1));
                assert(rest[0] == entries@[i as int]);
                let name = chars_of(entries[i].0.as_str());
                if chars_eq(&name, &k) {
                    assert(rest[0].0@ == key@);
                    assert(entry_value(rest, key@) == Some(rest[0].1));
                    return Some(&entries[i].1);
                }
                i = i + 1;
            }
            None
        },
        _ => None,
    }
}

/// `value.as_str()` as an owned string.
pub fn get_text(value: Option<&Json>) -> (r: Option<String>)
    ensures
        match r {
            Some(s) => text_of(opt(value)) == Some(s@),
            None => text_of(opt(value)) is None,
        },
{
    match value {
        Some(Json::String(s)) => Some(s.clone()),
        _ => None,
    }
}

/// `value.as_i64()`.
pub fn get_int(value: Option<&Json>) -> (r: Option<i64>)
    ensures
        r == int_of(opt(value)),
{
    match value {
        Some(Json::Number(n)) => n.as_i64,
        _ => None,
    }
}

/// The bits of `value.as_f64()`.
pub fn get_float_bits(value: Option<&Json>) -> (r: Option<u64>)
    ensures
        r == float_bits_of(opt(value)),
{
    match value {
        Some(Json::Number(n)) => Some(n.f64_bits),
        _ => None,
    }
}

/// `value.is_object()`.
pub fn check_object(value: Option<&Json>) -> (r: bool)
    ensures
        r == is_object(opt(value)),
{
    match value {
        Some(Json::Object(_)) => true,
        _ => false,
    }
}

} // verus!
