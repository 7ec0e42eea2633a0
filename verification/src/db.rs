//! Map types of the server, and the lookup in a map that is kept as a JSON
//! array of records.

use vstd::prelude::*;
use crate::cache::WnError;
use crate::text::{parse_u64, decimal_u64, str_eq};

verus! {

/// `serde_json::Value`: a JSON document, carried about as it is.
#[verifier::external_type_specification]
#[verifier::external_body]
pub struct ExValue(serde_json::Value);

/// `serde_json::Error`: why a text is no JSON.
#[verifier::external_type_specification]
#[verifier::external_body]
pub struct ExJsonError(serde_json::Error);

/// The kinds of map that the server can be set up with.
#[derive(Debug, Clone, Copy, PartialEq, Eq, Structural)]
pub enum MapType {
    Gdbm,
    Json,
    Lua,
    /// No map type was given.
    Unset,
}

/// The document that a JSON text denotes; `None` for a text that is no JSON.
pub uninterp spec fn json_parsed(bytes: Seq<u8>) -> Option<serde_json::Value>;

/// The element of an array at an index; `None` past its end and for a value
/// that is no array.
pub uninterp spec fn json_element(v: serde_json::Value, idx: int) -> Option<serde_json::Value>;

/// The member of an object under a key; `None` where it has none and for a
/// value that is no object.
pub uninterp spec fn json_member(v: serde_json::Value, key: Seq<char>) -> Option<
    serde_json::Value,
>;

/// Two values are equal as JSON.
pub uninterp spec fn json_same(a: serde_json::Value, b: serde_json::Value) -> bool;

/// The JSON number of an unsigned integer.
pub uninterp spec fn json_number(n: u64) -> serde_json::Value;

/// The JSON string of a text.
pub uninterp spec fn json_string(s: Seq<char>) -> serde_json::Value;

/// `serde_json::from_slice` at `Value`: it gives the document of a text that
/// is JSON and an error for any other, and depends on the bytes alone.
#[verifier::external_body]
fn parse_document(bytes: &[u8]) -> (r: Result<serde_json::Value, serde_json::Error>)
    ensures
        r is Ok == json_parsed(bytes@) is Some,
        r is Ok ==> json_parsed(bytes@) == Some(r->Ok_0),
{
    serde_json::from_slice(bytes)
}

/// `Value::get` with a `usize`: the element of an array at that index. An
/// array holds fewer elements than `usize::MAX`.
#[verifier::external_body]
fn element_at<'a>(v: &'a serde_json::Value, idx: usize) -> (r: Option<&'a serde_json::Value>)
    ensures
        match r {
            Some(e) => json_element(*v, idx as int) == Some(*e) && idx < usize::MAX,
            None => json_element(*v, idx as int) is None,
        },
{
    v.get(idx)
}

/// `Value::get` with a string: the member of an object under that key.
#[verifier::external_body]
fn member_of<'a>(v: &'a serde_json::Value, key: &str) -> (r: Option<&'a serde_json::Value>)
    ensures
        match r {
            Some(m) => json_member(*v, key@) == Some(*m),
            None => json_member(*v, key@) is None,
        },
{
    v.get(key)
}

/// `==` of `Value`.
#[verifier::external_body]
fn same_value(a: &serde_json::Value, b: &serde_json::Value) -> (r: bool)
    ensures
        r == json_same(*a, *b),
{
    a == b
}

/// `Value::from` of a `u64`.
#[verifier::external_body]
fn number_value(n: u64) -> (r: serde_json::Value)
    ensures
        r == json_number(n),
{
    serde_json::Value::from(n)
}

/// `Value::from` of a string slice.
#[verifier::external_body]
fn string_value(s: &str) -> (r: serde_json::Value)
    ensures
        r == json_string(s@),
{
    serde_json::Value::from(s)
}

/// `Value::clone`: the copy is the value itself.
#[verifier::external_body]
fn clone_value(v: &serde_json::Value) -> (r: serde_json::Value)
    ensures
        r == *v,
{
    v.clone()
}

/// The value that a record's field is compared with: a number where the
/// lookup value reads as one, else a string.
pub open spec fn wanted(keyval: Seq<char>) -> serde_json::Value {
    match decimal_u64(keyval) {
        Some(n) => json_number(n),
        None => json_string(keyval),
    }
}

/// The record holds `want` under `keyname`.
pub open spec fn record_matches(
    record: serde_json::Value,
    keyname: Seq<char>,
    want: serde_json::Value,
) -> bool {
    match json_member(record, keyname) {
        Some(m) => json_same(m, want),
        None => false,
    }
}

/// The document holds `n` records or more, and none of its first `n` matches.
pub open spec fn none_before(
    doc: serde_json::Value,
    keyname: Seq<char>,
    want: serde_json::Value,
    n: int,
) -> bool {
    forall|j: int|
        0 <= j < n ==> {
            &&& (#[trigger] json_element(doc, j)) is Some
            &&& !record_matches(json_element(doc, j)->0, keyname, want)
        }
}

/// What a lookup in a document gives: `found` is the first record that
/// matches, or nothing where the records end before one does.
pub open spec fn lookup_gives(
    doc: serde_json::Value,
    keyname: Seq<char>,
    want: serde_json::Value,
    found: Option<serde_json::Value>,
) -> bool {
    exists|n: int|
        0 <= n && none_before(doc, keyname, want, n) && #[trigger] json_element(doc, n) == found
            && (found is Some ==> record_matches(found->0, keyname, want))
}

/// The map type that a name stands for.
pub open spec fn map_type_of(s: Seq<char>) -> Result<MapType, WnError> {
    if s == "gdbm"@ {
        Ok(MapType::Gdbm)
    } else if s == "json"@ {
        Ok(MapType::Json)
    } else if s == "lua"@ {
        Ok(MapType::Lua)
    } else {
        Err(WnError::UnknownMapType)
    }
}

impl MapType {
    /// Reads the name of a map type.
    pub fn from_str(s: &str) -> (r: Result<MapType, WnError>)
        ensures
            r == map_type_of(s@),
    {
        if str_eq(s, "gdbm") {
            Ok(MapType::Gdbm)
        } else if str_eq(s, "json") {
            Ok(MapType::Json)
        } else if str_eq(s, "lua") {
            Ok(MapType::Lua)
        } else {
            Err(WnError::UnknownMapType)
        }
    }
}

impl Default for MapType {
    fn default() -> (r: MapType)
        ensures
            r == MapType::Unset,
    {
        MapType::Unset
    }
}

/// Scans the records of a document for the first one that holds `want` under
/// `keyname`.
pub fn find_record(doc: &serde_json::Value, keyname: &str, want: &serde_json::Value) -> (r: Result<
    serde_json::Value,
    WnError,
>)
    ensures
        match r {
            Ok(record) => lookup_gives(*doc, keyname@, *want, Some(record)),
            Err(e) => e == WnError::KeyNotFound && lookup_gives(*doc, keyname@, *want, None),
        },
{
    let mut idx: usize = 0;
    loop
        invariant
            none_before(*doc, keyname@, *want, idx as int),
        decreases usize::MAX - idx,
    {
        match element_at(doc, idx) {
            None => {
                return Err(WnError::KeyNotFound);
            },
            Some(record) => {
                let hit = match member_of(record, keyname) {
                    Some(m) => same_value(m, want),
                    None => false,
                };
                if hit {
                    return Ok(clone_value(record));
                }
                idx += 1;
            },
        }
    }
}

/// Looks a value up in the text of a JSON map: the first record of the array
/// whose field `keyname` equals the value, read as a number where it is one and
/// as a string where it is not. A text that is no JSON is a database error.
pub fn json_lookup(content: &[u8], keyname: &str, keyval: &str) -> (r: Result<
    serde_json::Value,
    WnError,
>)
    ensures
        match json_parsed(content@) {
            None => r == Err::<serde_json::Value, WnError>(WnError::DbOther),
            Some(doc) => match r {
                Ok(record) => lookup_gives(doc, keyname@, wanted(keyval@), Some(record)),
                Err(e) => e == WnError::KeyNotFound && lookup_gives(
                    doc,
                    keyname@,
                    wanted(keyval@),
                    None,
                ),
            },
        },
{
    let doc = match parse_document(content) {
        Ok(v) => v,
        Err(_) => {
            return Err(WnError::DbOther);
        },
    };
    let want = match parse_u64(keyval) {
        Some(n) => number_value(n),
        None => string_value(keyval),
    };
    find_record(&doc, keyname, &want)
}

/// A lookup has one answer: where a record is found, it is not also missing.
pub proof fn law_lookup_answer_is_unique(
    doc: serde_json::Value,
    keyname: Seq<char>,
    want: serde_json::Value,
    a: Option<serde_json::Value>,
    b: Option<serde_json::Value>,
)
    requires
        lookup_gives(doc, keyname, want, a),
        lookup_gives(doc, keyname, want, b),
    ensures
        a == b,
{
    let n = choose|n: int|
        0 <= n && none_before(doc, keyname, want, n) && #[trigger] json_element(doc, n) == a && (a
            is Some ==> record_matches(a->0, keyname, want));
    let m = choose|m: int|
        0 <= m && none_before(doc, keyname, want, m) && #[trigger] json_element(doc, m) == b && (b
            is Some ==> record_matches(b->0, keyname, want));
    if n < m {
        assert(json_element(doc, n) is Some);
    } else if m < n {
        assert(json_element(doc, m) is Some);
    }
}

} // verus!
