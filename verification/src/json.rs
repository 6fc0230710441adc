//! An untyped JSON document, and the parse of a body text into one.
//!
//! The upstream API answers with JSON whose payloads are not under this
//! library's control, so they are held as an untyped document: a sum of null,
//! booleans, numbers, strings, arrays and objects. Object members keep the
//! order in which the parse delivered them.

use vstd::prelude::*;
use crate::strutil::str_eq;

verus! {

/// An untyped JSON document.
///
/// A number outside the 64-bit integer ranges is kept as its textual form in
/// `NumText`, so that a payload can be carried through unread.
#[derive(Debug, PartialEq)]
pub enum JsonValue {
    Null,
    Bool(bool),
    UInt(u64),
    Int(i64),
    NumText(String),
    Str(String),
    Array(Vec<JsonValue>),
    Object(Vec<(String, JsonValue)>),
}

/// The first member of `entries` whose key reads as `key`.
pub open spec fn spec_lookup(entries: Seq<(String, JsonValue)>, key: Seq<char>) -> Option<
    JsonValue,
>
    decreases entries.len(),
{
    if entries.len() == 0 {
        None
    } else if entries[0].0@ == key {
        Some(entries[0].1)
    } else {
        spec_lookup(entries.drop_first(), key)
    }
}

/// The member named `key` of `v`, when `v` is an object that has one.
pub open spec fn spec_get(v: JsonValue, key: Seq<char>) -> Option<JsonValue> {
    match v {
        JsonValue::Object(entries) => spec_lookup(entries@, key),
        _ => None,
    }
}

/// The number a document reads as, when it is an unsigned 64-bit integer.
pub open spec fn spec_as_u64(v: JsonValue) -> Option<u64> {
    match v {
        JsonValue::UInt(n) => Some(n),
        _ => None,
    }
}

proof fn lemma_lookup_skip_step(entries: Seq<(String, JsonValue)>, key: Seq<char>, i: int)
    requires
        0 <= i < entries.len(),
        entries[i].0@ != key,
    ensures
        spec_lookup(entries.skip(i), key) == spec_lookup(entries.skip(i + 1), key),
{
    assert(entries.skip(i).drop_first() =~= entries.skip(i + 1));
}

impl JsonValue {
    /// Borrows the member named `key`, when `self` is an object that has one.
    pub fn get<'a>(&'a self, key: &str) -> (r: Option<&'a JsonValue>)
        ensures
            match r {
                Some(v) => spec_get(*self, key@) == Some(*v),
                None => spec_get(*self, key@) is None,
            },
    {
        match self {
            JsonValue::Object(entries) => {
                let n = entries.len();
                let mut i: usize = 0;
                proof {
                    assert(entries@.skip(0) =~= entries@);
                }
                while i < n
                    invariant
                        i <= n,
                        n == entries@.len(),
                        spec_get(*self, key@) == spec_lookup(entries@, key@),
                        spec_lookup(entries@, key@) == spec_lookup(entries@.skip(i as int), key@),
                    decreases n - i,
                {
                    if str_eq(entries[i].0.as_str(), key) {
                        proof {
                            assert(entries@.skip(i as int)[0] == entries@[i as int]);
                            assert(spec_lookup(entries@.skip(i as int), key@) == Some(
                                entries@[i as int].1,
                            ));
                            assert(spec_lookup(entries@, key@) == Some(entries@[i as int].1));
                        }
                        return Some(&entries[i].1);
                    }
                    proof {
                        lemma_lookup_skip_step(entries@, key@, i as int);
                    }
                    i = i + 1;
                }
                proof {
                    assert(entries@.skip(n as int).len() == 0);
                }
                None
            },
            _ => None,
        }
    }

    /// Takes the member named `key` out of `self`, when `self` is an object
    /// that has one.
    pub fn into_field(self, key: &str) -> (r: Option<JsonValue>)
        ensures
            r == spec_get(self, key@),
    {
        match self {
            JsonValue::Object(mut entries) => {
                let ghost orig = entries@;
                let n = entries.len();
                let mut i: usize = 0;
                proof {
                    assert(orig.skip(0) =~= orig);
                }
                while i < n
                    invariant
                        i <= n,
                        n == orig.len(),
                        entries@ == orig,
                        spec_get(self, key@) == spec_lookup(orig, key@),
                        spec_lookup(orig, key@) == spec_lookup(orig.skip(i as int), key@),
                    decreases n - i,
                {
                    if str_eq(entries[i].0.as_str(), key) {
                        proof {
                            assert(orig.skip(i as int)[0] == orig[i as int]);
                            assert(spec_lookup(orig.skip(i as int), key@) == Some(
                                orig[i as int].1,
                            ));
                        }
                        let pair = entries.remove(i);
                        return Some(pair.1);
                    }
                    proof {
                        lemma_lookup_skip_step(orig, key@, i as int);
                    }
                    i = i + 1;
                }
                proof {
                    assert(orig.skip(n as int).len() == 0);
                }
                None
            },
            _ => None,
        }
    }

    /// The unsigned 64-bit integer `self` reads as, if any.
    pub fn as_u64(&self) -> (r: Option<u64>)
        ensures
            r == spec_as_u64(*self),
    {
        match self {
            JsonValue::UInt(n) => Some(*n),
            _ => None,
        }
    }
}

/// The document that `s` parses to, when `s` is valid JSON; `None` otherwise.
pub uninterp spec fn parsed_json(s: Seq<char>) -> Option<JsonValue>;

#[verifier::external_type_specification]
#[verifier::external_body]
pub struct ExValue(serde_json::Value);

/// Turns a serde_json::Value into the library's own document type, arm for
/// arm; integers that fit 64 bits are kept as such, any other number as its
/// textual form. Relied on only through `parse_json`.
#[verifier::external_body]
fn json_from_serde(v: serde_json::Value) -> JsonValue {
    match v {
        serde_json::Value::Null => JsonValue::Null,
        serde_json::Value::Bool(b) => JsonValue::Bool(b),
        serde_json::Value::Number(n) => match (n.as_u64(), n.as_i64()) {
            (Some(u), _) => JsonValue::UInt(u),
            (None, Some(i)) => JsonValue::Int(i),
            (None, None) => JsonValue::NumText(n.to_string()),
        },
        serde_json::Value::String(s) => JsonValue::Str(s),
        serde_json::Value::Array(a) => JsonValue::Array(a.into_iter().map(json_from_serde).collect()),
        serde_json::Value::Object(m) => JsonValue::Object(m.into_iter().map(|(k, w)| (k, json_from_serde(w))).collect()),
    }
}

/// Relies on serde_json::from_str: a strict parse of the whole body text,
/// deciding validity and the resulting document from the text alone.
#[verifier::external_body]
pub(crate) fn parse_json(s: &str) -> (r: Option<JsonValue>)
    ensures
        r == parsed_json(s@),
{
    match serde_json::from_str::<serde_json::Value>(s) {
        Ok(v) => Some(json_from_serde(v)),
        Err(_) => None,
    }
}

} // verus!
