//! What holds of the greeting as a whole, proved from the rules that define it.

use crate::json::Json;
use crate::record::greeting_text;
use crate::reply;
use vstd::prelude::*;

verus! {

/// The record `{"name": name}` is answered, whatever text `name` is, with the
/// record `{"payload": "Hello " + name + "!"}`.
pub proof fn name_record_is_greeted(name: Seq<char>)
    ensures
        reply(Json::Object(map!["name"@ => Json::String(name)])) == Some(
            Json::Object(map!["payload"@ => Json::String("Hello "@ + name + "!"@)]),
        ),
{
}

/// The greeting holds the name as it was sent, untouched and whole, after the
/// six characters of `Hello ` and before a closing `!`.
pub proof fn greeting_spells_out_the_name(name: Seq<char>)
    ensures
        greeting_text(name).len() == name.len() + 7,
        greeting_text(name).subrange(0, 6) == seq!['H', 'e', 'l', 'l', 'o', ' '],
        greeting_text(name).subrange(6, greeting_text(name).len() - 1) == name,
        greeting_text(name).last() == '!',
{
    reveal_strlit("Hello ");
    reveal_strlit("!");
}

/// The answer depends on nothing but the value that was sent: whatever two
/// invocations answer to the same value, they answer the same.
pub proof fn answer_is_determined(body: Json, first: Json, second: Json)
    requires
        reply(body) == Some(first),
        reply(body) == Some(second),
    ensures
        first == second,
{
}

/// An object is answered by its `name` alone: adding or changing an entry
/// under any other key changes neither whether it is answered nor the answer.
pub proof fn other_entries_are_ignored(fields: Map<Seq<char>, Json>, key: Seq<char>, entry: Json)
    requires
        key != "name"@,
    ensures
        reply(Json::Object(fields.insert(key, entry))) == reply(Json::Object(fields)),
{
}

} // verus!
