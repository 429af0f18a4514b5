//! JSON documents as this library reads and writes them.
//!
//! Parsing and printing are `serde_json`'s. A document is modelled by
//! [`JsonTree`]; every contract below that speaks of `serde_json` is an
//! assumption about that crate and is marked as such.

use crate::failure::{DecodeError, DecodeFault, Field};
use vstd::prelude::*;
use vstd::string::StringExecFns;

verus! {

/// What a JSON document holds.
pub enum JsonTree {
    Null,
    Bool(bool),
    /// A number written as a non-negative integer below 2^64, with no
    /// fraction and no exponent: `5`, but not `5.0` and not `5e0`.
    Unsigned(u64),
    /// Any other number, by the text it is written as.
    OtherNumber(Seq<char>),
    Text(Seq<char>),
    Array(Seq<JsonTree>),
    /// The members, in document order.
    Object(Seq<(Seq<char>, JsonTree)>),
}

/// The first member of `members` whose key is `key`.
pub open spec fn lookup(members: Seq<(Seq<char>, JsonTree)>, key: Seq<char>) -> Option<JsonTree>
    decreases members.len(),
{
    if members.len() == 0 {
        None
    } else if members[0].0 == key {
        Some(members[0].1)
    } else {
        lookup(members.drop_first(), key)
    }
}

impl JsonTree {
    /// The member `key` of an object; `None` for anything that is not an
    /// object or has no such member.
    pub open spec fn member(self, key: Seq<char>) -> Option<JsonTree> {
        match self {
            JsonTree::Object(members) => lookup(members, key),
            _ => None,
        }
    }

    /// The string this value is, if it is one.
    pub open spec fn text(self) -> Option<Seq<char>> {
        match self {
            JsonTree::Text(s) => Some(s),
            _ => None,
        }
    }

    /// The unsigned integer this value is, if it is one.
    pub open spec fn unsigned(self) -> Option<u64> {
        match self {
            JsonTree::Unsigned(n) => Some(n),
            _ => None,
        }
    }
}

/// The string that `doc` holds under `field`.
pub open spec fn text_at(doc: JsonTree, field: Field) -> Result<Seq<char>, DecodeFault> {
    match doc.member(field.key()) {
        None => Err(DecodeFault::Missing(field)),
        Some(value) => match value.text() {
            None => Err(DecodeFault::Mistyped(field)),
            Some(s) => Ok(s),
        },
    }
}

/// The unsigned integer that `doc` holds under `field`.
pub open spec fn unsigned_at(doc: JsonTree, field: Field) -> Result<u64, DecodeFault> {
    match doc.member(field.key()) {
        None => Err(DecodeFault::Missing(field)),
        Some(value) => match value.unsigned() {
            None => Err(DecodeFault::Mistyped(field)),
            Some(n) => Ok(n),
        },
    }
}

/// `serde_json::Value`, carried through as an opaque value.
#[verifier::external_type_specification]
#[verifier::external_body]
pub struct ExValue(serde_json::Value);

/// The document that a `serde_json::Value` holds.
pub uninterp spec fn json_tree(value: serde_json::Value) -> JsonTree;

/// What `serde_json::from_str` makes of `text`: the document it reads, or
/// the message of the error with which it rejects `text`.
pub uninterp spec fn json_document(text: Seq<char>) -> Result<JsonTree, Seq<char>>;

/// Calls `serde_json::from_str` for a `serde_json::Value`.
///
/// Assumed: whether the parser accepts `text`, the document it then
/// returns, and the message of the error it otherwise returns (what went
/// wrong, at which line and column) depend on `text` alone. Nothing is
/// claimed of the message's wording.
#[verifier::external_body]
pub(crate) fn parse_value(text: &str) -> (r: Result<serde_json::Value, String>)
    ensures
        match r {
            Ok(value) => json_document(text@) == Ok::<JsonTree, Seq<char>>(json_tree(value)),
            Err(message) => json_document(text@) == Err::<JsonTree, Seq<char>>(message@),
        },
{
    serde_json::from_str::<serde_json::Value>(text).map_err(|e| e.to_string())
}

/// Calls `serde_json::Value::get` with a string key.
///
/// Assumed: on an object it hands out the value stored under `key`, if there
/// is one; on anything else it hands out nothing.
#[verifier::external_body]
pub(crate) fn member<'a>(doc: &'a serde_json::Value, key: &str) -> (r: Option<
    &'a serde_json::Value,
>)
    ensures
        match r {
            Some(found) => json_tree(*doc).member(key@) == Some(json_tree(*found)),
            None => json_tree(*doc).member(key@) is None,
        },
{
    doc.get(key)
}

/// Calls `serde_json::Value::as_str`.
///
/// Assumed: it hands out the string of a string value and nothing for any
/// other value.
#[verifier::external_body]
pub(crate) fn text_of<'a>(value: &'a serde_json::Value) -> (r: Option<&'a str>)
    ensures
        match r {
            Some(s) => json_tree(*value).text() == Some(s@),
            None => json_tree(*value).text() is None,
        },
{
    value.as_str()
}

/// Calls `serde_json::Value::as_u64`.
///
/// Assumed: it hands out the number where the value is a non-negative
/// integer below 2^64, and nothing for any other value.
#[verifier::external_body]
pub(crate) fn unsigned_of(value: &serde_json::Value) -> (r: Option<u64>)
    ensures
        r == json_tree(*value).unsigned(),
{
    value.as_u64()
}

/// Calls `serde_json::Value::from` on a string slice.
///
/// Assumed: the result is the string value that holds `s`.
#[verifier::external_body]
pub(crate) fn text_value(s: &str) -> (r: serde_json::Value)
    ensures
        json_tree(r) == JsonTree::Text(s@),
{
    serde_json::Value::from(s)
}

/// Calls `serde_json::Value::from` on a `u64`.
///
/// Assumed: the result is the number value that holds `n`.
#[verifier::external_body]
pub(crate) fn unsigned_value(n: u64) -> (r: serde_json::Value)
    ensures
        json_tree(r) == JsonTree::Unsigned(n),
{
    serde_json::Value::from(n)
}

/// The keys of `members`, pairwise different.
pub open spec fn distinct_keys(members: Seq<(String, serde_json::Value)>) -> bool {
    forall|i: int, j: int|
        0 <= i < j < members.len() ==> (#[trigger] members[i]).0@ != (#[trigger] members[j]).0@
}

/// The members of an object as a document holds them.
pub open spec fn members_model(members: Seq<(String, serde_json::Value)>) -> Seq<
    (Seq<char>, JsonTree),
> {
    members.map_values(|m: (String, serde_json::Value)| (m.0@, json_tree(m.1)))
}

/// Collects the members into a `serde_json::Map` and wraps it as an object.
///
/// Assumed: with keys that are pairwise different, the object holds the
/// members in the order given. The map is built with insertion order kept.
#[verifier::external_body]
pub(crate) fn object_value(members: Vec<(String, serde_json::Value)>) -> (r: serde_json::Value)
    requires
        distinct_keys(members@),
    ensures
        json_tree(r) == JsonTree::Object(members_model(members@)),
{
    serde_json::Value::Object(serde_json::Map::from_iter(members))
}

/// The compact text that `serde_json::to_string` writes for a document.
pub uninterp spec fn json_text(doc: JsonTree) -> Seq<char>;

/// Calls `serde_json::to_string` on a `serde_json::Value`.
///
/// Assumed: the text depends on the document alone, and the call succeeds:
/// a `Value` has string keys only and its serializer never refuses, and
/// writing to memory cannot fail.
#[verifier::external_body]
pub(crate) fn write_value(value: &serde_json::Value) -> (r: Result<String, String>)
    ensures
        match r {
            Ok(text) => text@ == json_text(json_tree(*value)),
            Err(_) => false,
        },
{
    serde_json::to_string(value).map_err(|e| e.to_string())
}

/// Reads `text` as a JSON document. A text that is none is a syntax
/// failure that carries the parser's message unchanged.
pub fn parse(text: &str) -> (r: Result<serde_json::Value, DecodeError>)
    ensures
        match r {
            Ok(doc) => json_document(text@) == Ok::<JsonTree, Seq<char>>(json_tree(doc)),
            Err(e) => e@ is Syntax && json_document(text@) == Err::<JsonTree, Seq<char>>(
                e@->Syntax_0,
            ),
        },
{
    match parse_value(text) {
        Ok(doc) => Ok(doc),
        Err(detail) => Err(DecodeError::Syntax(detail)),
    }
}

/// The value that `doc` holds under `field`.
pub fn value_member<'a>(doc: &'a serde_json::Value, field: Field) -> (r: Result<
    &'a serde_json::Value,
    DecodeError,
>)
    ensures
        match r {
            Ok(found) => json_tree(*doc).member(field.key()) == Some(json_tree(*found)),
            Err(e) => json_tree(*doc).member(field.key()) is None && e == DecodeError::Missing(
                field,
            ),
        },
{
    match member(doc, field.name()) {
        Some(found) => Ok(found),
        None => Err(DecodeError::Missing(field)),
    }
}

/// The string that `doc` holds under `field`.
pub fn text_member(doc: &serde_json::Value, field: Field) -> (r: Result<String, DecodeError>)
    ensures
        match r {
            Ok(s) => text_at(json_tree(*doc), field) == Ok::<Seq<char>, DecodeFault>(s@),
            Err(e) => text_at(json_tree(*doc), field) == Err::<Seq<char>, DecodeFault>(e@),
        },
{
    let found = value_member(doc, field)?;
    match text_of(found) {
        Some(s) => Ok(String::from_str(s)),
        None => Err(DecodeError::Mistyped(field)),
    }
}

/// The unsigned integer that `doc` holds under `field`.
pub fn unsigned_member(doc: &serde_json::Value, field: Field) -> (r: Result<u64, DecodeError>)
    ensures
        match r {
            Ok(n) => unsigned_at(json_tree(*doc), field) == Ok::<u64, DecodeFault>(n),
            Err(e) => unsigned_at(json_tree(*doc), field) == Err::<u64, DecodeFault>(e@),
        },
{
    let found = value_member(doc, field)?;
    match unsigned_of(found) {
        Some(n) => Ok(n),
        None => Err(DecodeError::Mistyped(field)),
    }
}

} // verus!
