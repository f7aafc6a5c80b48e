//! JSON documents as the adapters and the intake read them.
//!
//! Documents are parsed and held by `serde_json`. The verifier sees a
//! `serde_json::Value` only through [`json_of`], the tree it stands for, and
//! through a handful of accessors whose contracts restate what `serde_json`
//! does. Everything else in this module is proved from those.

use crate::record::{slice_view, text_view};
use vstd::prelude::*;

verus! {

/// The mathematical content of a JSON document.
///
/// A number is held as the bit pattern of its value read as a 64-bit float.
pub enum Json {
    Null,
    Bool(bool),
    Number(u64),
    Text(Seq<char>),
    Array(Seq<Json>),
    Object(Map<Seq<char>, Json>),
}

impl Json {
    /// The member of an object under `key`; `Null` where there is none.
    pub open spec fn field(self, key: Seq<char>) -> Json {
        match self {
            Json::Object(members) => if members.contains_key(key) {
                members[key]
            } else {
                Json::Null
            },
            _ => Json::Null,
        }
    }

    /// The elements of an array; none for any other value.
    pub open spec fn items(self) -> Seq<Json> {
        match self {
            Json::Array(items) => items,
            _ => Seq::empty(),
        }
    }

    /// The element of an array at `index`; `Null` where there is none.
    pub open spec fn item(self, index: int) -> Json {
        if 0 <= index < self.items().len() {
            self.items()[index]
        } else {
            Json::Null
        }
    }

    /// The characters of a string; `None` for any other value.
    pub open spec fn text(self) -> Option<Seq<char>> {
        match self {
            Json::Text(t) => Some(t),
            _ => None,
        }
    }

    /// The truth value of a boolean; `None` for any other value.
    pub open spec fn flag(self) -> Option<bool> {
        match self {
            Json::Bool(b) => Some(b),
            _ => None,
        }
    }

    /// The float bits of a number; `None` for any other value.
    pub open spec fn number(self) -> Option<u64> {
        match self {
            Json::Number(bits) => Some(bits),
            _ => None,
        }
    }
}

/// `serde_json::Value`, a JSON document. Nothing of its inside is known but
/// what the accessors below tell.
#[verifier::external_type_specification]
#[verifier::external_body]
pub struct ExValue(serde_json::Value);

/// `serde_json::Error`, what the parser reports. It is carried, never read.
#[verifier::external_type_specification]
#[verifier::external_body]
pub struct ExError(serde_json::Error);

/// The tree that a `serde_json::Value` holds.
pub uninterp spec fn json_of(v: serde_json::Value) -> Json;

/// What `serde_json::from_str` makes of a text: the document that it
/// returns, or `None` where it reports an error.
pub uninterp spec fn json_parse(text: Seq<char>) -> Option<Json>;

/// The decimal text that `Display` writes for the 64-bit float with these bits.
pub uninterp spec fn float_text(bits: u64) -> Seq<char>;

/// `serde_json::from_str::<Value>`. Trusted: it succeeds exactly on the texts
/// that [`json_parse`] accepts, and the value it returns holds the document
/// that [`json_parse`] names.
#[verifier::external_body]
pub(crate) fn parse_document(text: &str) -> (r: Result<serde_json::Value, serde_json::Error>)
    ensures
        r is Ok <==> json_parse(text@) is Some,
        r matches Ok(v) ==> json_of(v) == json_parse(text@)->0,
{
    serde_json::from_str::<serde_json::Value>(text)
}

/// `serde_json::Error`'s `Display`. Nothing is claimed of the message: it is
/// read off a value that the library carries and cannot look into.
#[verifier::external_body]
pub(crate) fn error_message(e: &serde_json::Error) -> (r: String) {
    e.to_string()
}

/// `Value::get` with a string key. Trusted: it returns the member of an
/// object under `key`, and `None` where the value is no object or the object
/// has no such member.
#[verifier::external_body]
pub(crate) fn member<'a>(v: &'a serde_json::Value, key: &str) -> (r: Option<&'a serde_json::Value>)
    ensures
        match r {
            Some(m) => json_of(*v) is Object && json_of(*v)->Object_0.contains_key(key@)
                && json_of(*m) == json_of(*v)->Object_0[key@],
            None => !(json_of(*v) is Object && json_of(*v)->Object_0.contains_key(key@)),
        },
{
    v.get(key)
}

/// `Value::as_f64`, handed on as plain values: the float's bit pattern, and
/// the decimal text that `to_string` writes for it. Both are taken here,
/// since the float cannot leave this body: the library holds no
/// floating-point value. Trusted: the result is `Some` exactly for a number,
/// with the bits that [`json_of`] holds and the text that [`float_text`]
/// names for them.
#[verifier::external_body]
pub(crate) fn number_parts(v: &serde_json::Value) -> (r: Option<(u64, String)>)
    ensures
        match r {
            Some((bits, text)) => json_of(*v).number() == Some(bits) && text@ == float_text(bits),
            None => json_of(*v).number() is None,
        },
{
    v.as_f64().map(|x| (x.to_bits(), x.to_string()))
}

/// `Value::as_str`. Trusted: `Some` exactly for a string, with its characters.
pub assume_specification[ serde_json::Value::as_str ](v: &serde_json::Value) -> (r: Option<&str>)
    ensures
        slice_view(r) == json_of(*v).text(),
;

/// `Value::is_null`. Trusted: it tells whether the value is `null`.
pub assume_specification[ serde_json::Value::is_null ](v: &serde_json::Value) -> (r: bool)
    ensures
        r == (json_of(*v) is Null),
;

/// `Value::as_bool`. Trusted: `Some` exactly for a boolean, with its value.
pub assume_specification[ serde_json::Value::as_bool ](v: &serde_json::Value) -> (r: Option<bool>)
    ensures
        r == json_of(*v).flag(),
;

/// `Value::as_array`. Trusted: `Some` exactly for an array, with its elements
/// in order.
pub assume_specification[ serde_json::Value::as_array ](v: &serde_json::Value) -> (r: Option<
    &Vec<serde_json::Value>,
>)
    ensures
        match r {
            Some(items) => json_of(*v) == Json::Array(documents(items@)),
            None => !(json_of(*v) is Array),
        },
;

/// The trees of a sequence of values.
pub open spec fn documents(values: Seq<serde_json::Value>) -> Seq<Json> {
    values.map_values(|v: serde_json::Value| json_of(v))
}

/// The tree under a value that may be missing: `Null` where it is.
pub open spec fn node(v: Option<&serde_json::Value>) -> Json {
    match v {
        Some(v) => json_of(*v),
        None => Json::Null,
    }
}

/// Steps from a value to its member under `key`.
pub fn child_of<'a>(v: Option<&'a serde_json::Value>, key: &str) -> (r: Option<
    &'a serde_json::Value,
>)
    ensures
        node(r) == node(v).field(key@),
{
    match v {
        Some(v) => member(v, key),
        None => None,
    }
}

/// The elements of a value that is an array.
pub fn items_of<'a>(v: Option<&'a serde_json::Value>) -> (r: Option<&'a Vec<serde_json::Value>>)
    ensures
        match r {
            Some(items) => documents(items@) == node(v).items() && node(v) is Array,
            None => node(v).items().len() == 0 && !(node(v) is Array),
        },
{
    match v {
        Some(v) => v.as_array(),
        None => None,
    }
}

/// Steps from a value to its element at `index`.
pub fn item_of<'a>(v: Option<&'a serde_json::Value>, index: usize) -> (r: Option<
    &'a serde_json::Value,
>)
    ensures
        node(r) == node(v).item(index as int),
{
    match items_of(v) {
        Some(items) => if index < items.len() {
            Some(&items[index])
        } else {
            None
        },
        None => None,
    }
}

/// A copy of the text of a value that is a string.
pub fn text_of(v: Option<&serde_json::Value>) -> (r: Option<String>)
    ensures
        text_view(r) == node(v).text(),
{
    match v {
        Some(v) => match v.as_str() {
            Some(s) => Some(String::from_str(s)),
            None => None,
        },
        None => None,
    }
}

/// Whether a value is missing or `null`.
pub fn missing(v: Option<&serde_json::Value>) -> (r: bool)
    ensures
        r == (node(v) is Null),
{
    match v {
        Some(v) => v.is_null(),
        None => true,
    }
}

/// The truth value of a value that is a boolean.
pub fn flag_of(v: Option<&serde_json::Value>) -> (r: Option<bool>)
    ensures
        r == node(v).flag(),
{
    match v {
        Some(v) => v.as_bool(),
        None => None,
    }
}

/// The float bits of a value that is a number.
pub fn number_of(v: Option<&serde_json::Value>) -> (r: Option<u64>)
    ensures
        r == node(v).number(),
{
    match v {
        Some(v) => match number_parts(v) {
            Some((bits, _)) => Some(bits),
            None => None,
        },
        None => None,
    }
}

/// The decimal text of a value that is a number.
pub fn decimal_of(v: Option<&serde_json::Value>) -> (r: Option<String>)
    ensures
        text_view(r) == match node(v).number() {
            Some(bits) => Some(float_text(bits)),
            None => None,
        },
{
    match v {
        Some(v) => match number_parts(v) {
            Some((_, text)) => Some(text),
            None => None,
        },
        None => None,
    }
}

} // verus!
