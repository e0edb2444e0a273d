//! JSON values of `serde_json`, as far as this crate looks into them.

use vstd::prelude::*;

verus! {

/// `serde_json::Value`, opaque: a JSON document that is carried, copied, looked into and
/// written out through the functions below.
#[verifier::external_type_specification]
#[verifier::external_body]
pub struct ExValue(serde_json::Value);

/// `serde_json::Error`, opaque.
#[verifier::external_type_specification]
#[verifier::external_body]
pub struct ExJsonError(serde_json::Error);

/// What a JSON document holds.
pub ghost enum Json {
    Null,
    Bool(bool),
    /// A number, by the digits with which it is written.
    Number(Seq<char>),
    Text(Seq<char>),
    Array(Seq<Json>),
    Object(Map<Seq<char>, Json>),
}

impl Json {
    /// The member `key`; null if there is none or the document is no object.
    pub open spec fn member(self, key: Seq<char>) -> Json {
        match self {
            Json::Object(members) => if members.dom().contains(key) {
                members[key]
            } else {
                Json::Null
            },
            _ => Json::Null,
        }
    }

    /// The element at `index`; null if there is none or the document is no array.
    pub open spec fn element(self, index: int) -> Json {
        match self {
            Json::Array(elements) => if 0 <= index < elements.len() {
                elements[index]
            } else {
                Json::Null
            },
            _ => Json::Null,
        }
    }

    /// The characters of a string; nothing for any other document.
    pub open spec fn text(self) -> Option<Seq<char>> {
        match self {
            Json::Text(text) => Some(text),
            _ => None,
        }
    }
}

/// What `value` holds.
pub uninterp spec fn json_of(value: serde_json::Value) -> Json;

/// The JSON text of a document that holds `json`, if it can be written out.
pub uninterp spec fn json_text(json: Json) -> Option<Seq<char>>;

/// `serde_json::Value::index` with a string (`value["key"]`).
///
/// Claims what its documentation says: the member of an object, and null where the value is
/// no object or has no such member.
#[verifier::external_body]
pub(crate) fn member<'a>(value: &'a serde_json::Value, key: &str) -> (found: &'a serde_json::Value)
    ensures
        json_of(*found) == json_of(*value).member(key@),
{
    &value[key]
}

/// `serde_json::Value::index` with a number (`value[0]`).
///
/// Claims what its documentation says: the element of an array, and null where the value is
/// no array or the index is out of its bounds.
#[verifier::external_body]
pub(crate) fn element<'a>(value: &'a serde_json::Value, index: usize) -> (found:
    &'a serde_json::Value)
    ensures
        json_of(*found) == json_of(*value).element(index as int),
{
    &value[index]
}

/// `serde_json::Value::as_str`.
///
/// Claims what its documentation says: the characters of a string, and `None` for any other
/// value.
#[verifier::external_body]
pub(crate) fn as_text<'a>(value: &'a serde_json::Value) -> (text: Option<&'a str>)
    ensures
        match text {
            Some(text) => json_of(*value).text() == Some(text@),
            None => json_of(*value).text() is None,
        },
{
    value.as_str()
}

/// `serde_json::Value::clone`.
///
/// Claims that the copy is the same document.
#[verifier::external_body]
pub(crate) fn copied(value: &serde_json::Value) -> (copy: serde_json::Value)
    ensures
        copy == *value,
{
    value.clone()
}

/// `serde_json::to_string` on a value.
///
/// Names the text that it returns `json_text`: what the document holds decides alone whether
/// there is one, and which (the members of an object are kept in the order of their names).
#[verifier::external_body]
pub(crate) fn to_text(value: &serde_json::Value) -> (text: Result<String, serde_json::Error>)
    ensures
        match text {
            Ok(text) => json_text(json_of(*value)) == Some(text@),
            Err(_) => json_text(json_of(*value)) is None,
        },
{
    serde_json::to_string(value)
}

} // verus!
