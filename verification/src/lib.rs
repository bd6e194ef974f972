//! A greeting function for a function-as-a-service runtime: it reads the
//! `name` of a JSON request record and answers with a JSON record whose
//! `payload` greets that name.
//!
//! [`fl_main`] is the function that the runtime invokes. It is stateless and
//! does nothing but compute its answer, so any number of invocations may run
//! side by side.

use crate::json::{json_of, Json};
use crate::record::{
    decode, encode, greet, greeting_json, greeting_text, is_request, requested_name,
    MalformedInput,
};
use serde_json::Value;
use vstd::prelude::*;

pub mod json;
pub mod laws;
pub mod record;

verus! {

/// The answer that a JSON value is owed: the greeting record for the name it
/// asks for, or none where the value is no request record.
pub open spec fn reply(body: Json) -> Option<Json> {
    match requested_name(body) {
        Some(name) => Some(greeting_json(greeting_text(name))),
        None => None,
    }
}

/// Answers the request record `body` with its greeting record.
///
/// `body` has to be a request record; [`try_fl_main`] takes any JSON value,
/// and [`is_request`] tells the two apart.
pub fn fl_main(body: Value) -> (answer: Value)
    requires
        requested_name(json_of(body)) is Some,
    ensures
        reply(json_of(body)) == Some(json_of(answer)),
{
    let person = decode(&body).unwrap();
    encode(greet(&person))
}

/// Answers `body` with its greeting record if it is a request record, and
/// with [`MalformedInput`] if it is not.
pub fn try_fl_main(body: Value) -> (answer: Result<Value, MalformedInput>)
    ensures
        match answer {
            Ok(value) => reply(json_of(body)) == Some(json_of(value)),
            Err(_) => reply(json_of(body)) is None,
        },
{
    if is_request(&body) {
        Ok(fl_main(body))
    } else {
        Err(MalformedInput)
    }
}

} // verus!
