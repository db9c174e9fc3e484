//! JSON documents, as `serde_json` parses and holds them.
//!
//! The library never looks inside a [`serde_json::Value`] itself. It asks
//! `serde_json`, and reasons about the answers over [`Json`], a mathematical
//! picture of a document. The contracts that this module gives to
//! `serde_json`'s functions are trusted: Verus takes them for granted, and
//! each says in its comment what it claims.

use vstd::prelude::*;

verus! {

/// `serde_json::Value`, carried through verified code as an opaque value.
#[verifier::external_type_specification]
#[verifier::external_body]
pub struct ExValue(serde_json::Value);

/// What a JSON document holds, kind by kind.
///
/// A number's value is left out: nothing in this library reads one.
#[verifier::ext_equal]
pub enum Json {
    Null,
    Bool(bool),
    Number,
    String(Seq<char>),
    Array(Seq<Json>),
    Object(Map<Seq<char>, Json>),
}

impl Json {
    /// The member stored under `key`, if this is an object that has one.
    pub open spec fn get(self, key: Seq<char>) -> Option<Json> {
        match self {
            Json::Object(members) => if members.contains_key(key) {
                Some(members[key])
            } else {
                None
            },
            _ => None,
        }
    }

    /// The text of a string; nothing for any other kind.
    pub open spec fn as_str(self) -> Option<Seq<char>> {
        match self {
            Json::String(text) => Some(text),
            _ => None,
        }
    }

    /// The value of a boolean; nothing for any other kind.
    pub open spec fn as_bool(self) -> Option<bool> {
        match self {
            Json::Bool(flag) => Some(flag),
            _ => None,
        }
    }
}

/// The document that a `serde_json::Value` holds.
pub uninterp spec fn json_view(value: serde_json::Value) -> Json;

/// The document that `serde_json` reads out of `text`, or `None` where it
/// rejects the text.
pub uninterp spec fn parsed_json(text: Seq<char>) -> Option<Json>;

/// Calls `serde_json::from_str` for a `Value` and drops the error.
///
/// Trusted: the outcome depends on the text alone, so it is the named
/// `parsed_json(text)`; which texts are accepted is `serde_json`'s business.
#[verifier::external_body]
pub(crate) fn parse(text: &str) -> (document: Option<serde_json::Value>)
    ensures
        match document {
            Some(value) => parsed_json(text@) == Some(json_view(value)),
            None => parsed_json(text@) is None,
        },
{
    serde_json::from_str(text).ok()
}

/// Calls `Value::get` with a string key.
///
/// Trusted: as documented, the result is the member under `key` where
/// `value` is an object that has one, and `None` otherwise.
#[verifier::external_body]
pub(crate) fn get<'a>(value: &'a serde_json::Value, key: &str) -> (found: Option<
    &'a serde_json::Value,
>)
    ensures
        match found {
            Some(inner) => json_view(*value).get(key@) == Some(json_view(*inner)),
            None => json_view(*value).get(key@) is None,
        },
{
    value.get(key)
}

/// `Value::as_str` returns the text of a string and `None` for any other kind.
pub assume_specification[ serde_json::Value::as_str ](value: &serde_json::Value) -> (text: Option<
    &str,
>)
    ensures
        match text {
            Some(s) => json_view(*value).as_str() == Some(s@),
            None => json_view(*value).as_str() is None,
        },
;

/// `Value::as_bool` returns the value of a boolean and `None` for any other
/// kind.
pub assume_specification[ serde_json::Value::as_bool ](value: &serde_json::Value) -> (flag: Option<
    bool,
>)
    ensures
        flag == json_view(*value).as_bool(),
;

/// The members of an object built from `members`, each stored under its
/// key.
pub open spec fn object_members(members: Seq<(String, serde_json::Value)>) -> Map<Seq<char>, Json>
    decreases members.len(),
{
    if members.len() == 0 {
        Map::empty()
    } else {
        object_members(members.drop_last()).insert(
            members.last().0@,
            json_view(members.last().1),
        )
    }
}

/// Makes a `Value::Null`.
///
/// Trusted: the value is a null.
#[verifier::external_body]
pub(crate) fn null() -> (value: serde_json::Value)
    ensures
        json_view(value) == Json::Null,
{
    serde_json::Value::Null
}

/// Makes a `Value::Bool`.
///
/// Trusted: the value is the boolean `flag`.
#[verifier::external_body]
pub(crate) fn boolean(flag: bool) -> (value: serde_json::Value)
    ensures
        json_view(value) == Json::Bool(flag),
{
    serde_json::Value::Bool(flag)
}

/// Makes a `Value::String`.
///
/// Trusted: the value is the string `text`.
#[verifier::external_body]
pub(crate) fn string(text: String) -> (value: serde_json::Value)
    ensures
        json_view(value) == Json::String(text@),
{
    serde_json::Value::String(text)
}

/// Collects the members into a `serde_json::Map` and makes a
/// `Value::Object` of it.
///
/// Trusted: with no key given twice, the object holds each member under its
/// key and nothing else.
#[verifier::external_body]
pub(crate) fn object(members: Vec<(String, serde_json::Value)>) -> (value: serde_json::Value)
    requires
        forall|i: int, j: int| 0 <= i < j < members.len() ==> members[i].0@ != members[j].0@,
    ensures
        json_view(value) == Json::Object(object_members(members@)),
{
    serde_json::Value::Object(members.into_iter().collect())
}

} // verus!
