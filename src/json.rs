//! A JSON document held as plain values, and the lookups the forecast
//! reader makes in it.
use vstd::prelude::*;
use crate::text::same_text;

verus! {

/// A JSON number, in the three forms a parser tells apart.
#[derive(Debug, Clone, Copy, PartialEq, Eq, Structural)]
pub enum JsonNumber {
    /// An integer without a sign.
    PosInt(u64),
    /// An integer below zero.
    NegInt(i64),
    /// A number with a fraction or an exponent; its value is never read here.
    Float,
}

/// A JSON value; an object keeps its members in document order.
#[derive(Debug)]
pub enum Json {
    Null,
    Bool(bool),
    Number(JsonNumber),
    Str(String),
    Array(Vec<Json>),
    Object(Vec<(String, Json)>),
}

/// The value of the first member from position `i` on whose key is `key`.
pub open spec fn member_from(ms: Seq<(String, Json)>, key: Seq<char>, i: int) -> Option<Json>
    decreases ms.len() - i,
{
    if i < 0 || i >= ms.len() {
        None
    } else if ms[i].0@ == key {
        Some(ms[i].1)
    } else {
        member_from(ms, key, i + 1)
    }
}

/// The member `key` of an object; `None` for a missing key or a value that
/// is not an object.
pub open spec fn member(v: Json, key: Seq<char>) -> Option<Json> {
    match v {
        Json::Object(ms) => member_from(ms@, key, 0),
        _ => None,
    }
}

/// The member `key` of `v`, where `v` is present.
pub open spec fn member_of(v: Option<Json>, key: Seq<char>) -> Option<Json> {
    match v {
        Some(x) => member(x, key),
        None => None,
    }
}

/// Element `i` of an array, where `v` is present.
pub open spec fn element_of(v: Option<Json>, i: int) -> Option<Json> {
    match v {
        Some(Json::Array(a)) => if 0 <= i < a@.len() { Some(a@[i]) } else { None },
        _ => None,
    }
}

/// The text of a JSON string.
pub open spec fn str_value(v: Option<Json>) -> Option<Seq<char>> {
    match v {
        Some(Json::Str(s)) => Some(s@),
        _ => None,
    }
}

/// A JSON boolean.
pub open spec fn bool_value(v: Option<Json>) -> Option<bool> {
    match v {
        Some(Json::Bool(b)) => Some(b),
        _ => None,
    }
}

/// A JSON integer that fits in `i64`.
pub open spec fn i64_value(v: Option<Json>) -> Option<i64> {
    match v {
        Some(Json::Number(JsonNumber::PosInt(n))) => if n <= i64::MAX { Some(n as i64) } else { None },
        Some(Json::Number(JsonNumber::NegInt(n))) => Some(n),
        _ => None,
    }
}

/// A JSON integer without a sign.
pub open spec fn u64_value(v: Option<Json>) -> Option<u64> {
    match v {
        Some(Json::Number(JsonNumber::PosInt(n))) => Some(n),
        _ => None,
    }
}

/// The value behind an optional reference.
pub open spec fn deref_opt(r: Option<&Json>) -> Option<Json> {
    match r {
        Some(x) => Some(*x),
        None => None,
    }
}

impl Json {
    /// The member `key` of this value, if it is an object that has one.
    pub fn get(&self, key: &str) -> (r: Option<&Json>)
        ensures
            deref_opt(r) == member(*self, key@),
    {
        match self {
            Json::Object(ms) => {
                let mut i: usize = 0;
                while i < ms.len()
                    invariant
                        i <= ms@.len(),
                        member(*self, key@) == member_from(ms@, key@, i as int),
                    decreases ms@.len() - i,
                {
                    let entry = &ms[i];
                    if same_text(entry.0.as_str(), key) {
                        assert(ms@[i as int].0@ == key@);
                        assert(member_from(ms@, key@, i as int) == Some(ms@[i as int].1));
                        return Some(&entry.1);
                    }
                    i = i + 1;
                }
                None
            },
            _ => None,
        }
    }

    /// Element `i` of this value, if it is an array that long.
    pub fn element(&self, i: usize) -> (r: Option<&Json>)
        ensures
            deref_opt(r) == element_of(Some(*self), i as int),
    {
        match self {
            Json::Array(a) => if i < a.len() { Some(&a[i]) } else { None },
            _ => None,
        }
    }
}

} // verus!
