//! JSON values as `serde_json` holds them, their mathematical model, and the
//! few operations of `serde_json` that the greeting needs.
//!
//! Nothing in this module is proved: the contracts below state what the
//! source of `serde_json` shows of each operation, and the rest of the crate
//! is verified against them.

use serde_json::Value;
use vstd::prelude::*;

verus! {

/// `serde_json::Value`, which verified code carries around without looking
/// inside; what it holds is spoken of through [`json_of`].
#[verifier::external_type_specification]
#[verifier::external_body]
pub struct ExValue(serde_json::Value);

/// The mathematical model of a JSON value, one variant for each kind of value
/// that JSON has.
pub enum Json {
    /// `null`.
    Null,
    /// `true` or `false`.
    Bool(bool),
    /// A number. No rule of this crate reads a number, so the model records
    /// only that the value is one.
    Number,
    /// A text, as its sequence of characters.
    String(Seq<char>),
    /// An array, as the sequence of its elements.
    Array(Seq<Json>),
    /// An object, as the map from each of its keys to the value under it.
    Object(Map<Seq<char>, Json>),
}

/// The JSON value that `value` holds.
pub uninterp spec fn json_of(value: serde_json::Value) -> Json;

/// `serde_json::Value::get` with a text key. The source returns the entry
/// under `key` when the value is an object that has this key, and `None` in
/// every other case: for a value that is no object, and for an object
/// without the key.
#[verifier::external_body]
pub(crate) fn member<'a>(value: &'a Value, key: &str) -> (found: Option<&'a Value>)
    ensures
        match found {
            Some(entry) => json_of(*value) matches Json::Object(fields)
                && fields.contains_key(key@) && fields[key@] == json_of(*entry),
            None => !(json_of(*value) matches Json::Object(fields) && fields.contains_key(key@)),
        },
{
    value.get(key)
}

/// `serde_json::Value::as_str`. The source returns the text of a value that
/// is a JSON string, and `None` for a value of any other kind.
#[verifier::external_body]
pub(crate) fn text<'a>(value: &'a Value) -> (found: Option<&'a str>)
    ensures
        match found {
            Some(chars) => json_of(*value) == Json::String(chars@),
            None => !(json_of(*value) is String),
        },
{
    value.as_str()
}

/// The variant `serde_json::Value::String`: the JSON string that holds
/// exactly the characters of `chars`.
#[verifier::external_body]
pub(crate) fn text_value(chars: String) -> (value: Value)
    ensures
        json_of(value) == Json::String(chars@),
{
    Value::String(chars)
}

/// `serde_json::Value`'s `FromIterator` over key-value pairs, handed a single
/// pair. The source collects the pairs into a map and wraps it as
/// `Value::Object`, so one pair gives the object whose only key is `key`,
/// with `entry` under it.
#[verifier::external_body]
pub(crate) fn record_value(key: String, entry: Value) -> (value: Value)
    ensures
        json_of(value) == Json::Object(map![key@ => json_of(entry)]),
{
    Value::from_iter([(key, entry)])
}

} // verus!
