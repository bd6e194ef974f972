//! The two records of the greeting, the rule that reads the request record
//! out of a JSON value, and the one that writes the answer back as JSON.

use crate::json::{json_of, member, record_value, text, text_value, Json};
use serde_json::Value;
use vstd::prelude::*;

verus! {

/// The request record: who is to be greeted.
#[derive(Debug, PartialEq, Eq)]
pub struct Person {
    /// The name, taken over as it was sent: any text, the empty one included.
    pub name: String,
}

/// The answer record.
#[derive(Debug, PartialEq, Eq)]
pub struct Greeting {
    /// The greeting text.
    pub payload: String,
}

/// The one error of this crate: a JSON value that is no request record.
#[derive(Debug, Clone, Copy, PartialEq, Eq)]
pub struct MalformedInput;

/// The name that a JSON value asks a greeting for, if it is a request record.
///
/// A request record is an object with a key `name` whose value is a text.
/// Other keys of the object are not looked at. Everything else is malformed:
/// a value that is no object, an object without the key `name`, and a `name`
/// that is anything but a text.
pub open spec fn requested_name(body: Json) -> Option<Seq<char>> {
    match body {
        Json::Object(fields) => if fields.contains_key("name"@) {
            match fields["name"@] {
                Json::String(name) => Some(name),
                _ => None,
            }
        } else {
            None
        },
        _ => None,
    }
}

/// The greeting for `name`: `Hello `, the name as it stands, and `!`.
pub open spec fn greeting_text(name: Seq<char>) -> Seq<char> {
    "Hello "@ + name + "!"@
}

/// The JSON form of an answer record: an object with the single key
/// `payload`, whose value is the text `payload`.
pub open spec fn greeting_json(payload: Seq<char>) -> Json {
    Json::Object(map!["payload"@ => Json::String(payload)])
}

/// Reads the request record out of `body`, or reports that `body` is none.
pub fn decode(body: &Value) -> (decoded: Result<Person, MalformedInput>)
    ensures
        match decoded {
            Ok(person) => requested_name(json_of(*body)) == Some(person.name@),
            Err(_) => requested_name(json_of(*body)) is None,
        },
{
    match member(body, "name") {
        Some(entry) => match text(entry) {
            Some(name) => Ok(Person { name: name.to_owned() }),
            None => Err(MalformedInput),
        },
        None => Err(MalformedInput),
    }
}

/// Tells whether `body` is a request record, without taking it apart.
pub fn is_request(body: &Value) -> (yes: bool)
    ensures
        yes == requested_name(json_of(*body)) is Some,
{
    match member(body, "name") {
        Some(entry) => text(entry).is_some(),
        None => false,
    }
}

/// Greets `person`.
pub fn greet(person: &Person) -> (greeting: Greeting)
    ensures
        greeting.payload@ == greeting_text(person.name@),
{
    let mut payload = String::from_str("Hello ");
    payload.append(person.name.as_str());
    payload.append("!");
    Greeting { payload }
}

/// Writes `greeting` as a JSON value.
pub fn encode(greeting: Greeting) -> (value: Value)
    ensures
        json_of(value) == greeting_json(greeting.payload@),
{
    record_value(String::from_str("payload"), text_value(greeting.payload))
}

} // verus!
