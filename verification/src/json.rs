//! JSON documents as the library sees them.
//!
//! Reading the text of a document is left to `serde_json`. What it reads is
//! turned, node for node, into a [`Json`] value, and everything the library
//! decides about a document it decides on that value.

use vstd::prelude::*;
use vstd::string::*;
use crate::error::FetchError;

verus! {

/// `serde_json::Value`, of which nothing is known here but what
/// [`value_json`] names.
#[verifier::external_type_specification]
#[verifier::external_body]
pub struct ExValue(serde_json::Value);

/// `serde_json::Number`, of which nothing is known here but what
/// [`number_u64`] names.
#[verifier::external_type_specification]
#[verifier::external_body]
pub struct ExNumber(serde_json::Number);

/// `serde_json::Error`, of which nothing is known here but what
/// [`error_text`] names.
#[verifier::external_type_specification]
#[verifier::external_body]
pub struct ExJsonError(serde_json::Error);

/// A JSON document. The members of an object are kept in a list; a name
/// that stands there more than once counts where it stands first.
#[derive(Debug, PartialEq, Eq)]
pub enum Json {
    Null,
    Bool(bool),
    Number(serde_json::Number),
    String(String),
    Array(Vec<Json>),
    Object(Vec<(String, Json)>),
}

/// Trusted: `Clone::clone` of `serde_json::Number`, which `derive` wrote
/// over a number held by value. The contract claims that the copy equals
/// the number it was made from.
pub assume_specification[ <serde_json::Number as Clone>::clone ](
    number: &serde_json::Number,
) -> (copy: serde_json::Number)
    ensures
        copy == *number,
;

impl Clone for Json {
    fn clone(&self) -> (copy: Self)
        decreases self,
    {
        match self {
            Json::Null => Json::Null,
            Json::Bool(flag) => Json::Bool(*flag),
            Json::Number(number) => Json::Number(number.clone()),
            Json::String(text) => Json::String(text.clone()),
            Json::Array(items) => {
                let mut copies: Vec<Json> = Vec::new();
                let mut i: usize = 0;
                while i < items.len()
                    invariant
                        i <= items.len(),
                        self == Json::Array(*items),
                    decreases items.len() - i,
                {
                    assert(decreases_to!(*self => self->Array_0));
                    copies.push(items[i].clone());
                    i += 1;
                }
                Json::Array(copies)
            },
            Json::Object(members) => {
                let mut copies: Vec<(String, Json)> = Vec::new();
                let mut i: usize = 0;
                while i < members.len()
                    invariant
                        i <= members.len(),
                        self == Json::Object(*members),
                    decreases members.len() - i,
                {
                    assert(decreases_to!(*self => self->Object_0));
                    copies.push((members[i].0.clone(), members[i].1.clone()));
                    i += 1;
                }
                Json::Object(copies)
            },
        }
    }
}

/// What `serde_json` makes of a text: a document, or the error it found.
pub uninterp spec fn read_value(text: Seq<u8>) -> Result<serde_json::Value, serde_json::Error>;

/// The document that a value of `serde_json` holds.
pub uninterp spec fn value_json(value: serde_json::Value) -> Json;

/// The message of an error of `serde_json`.
pub uninterp spec fn error_text(error: serde_json::Error) -> Seq<char>;

/// The number as a `u64`, where it is held as an unsigned integer. A
/// number held as a float has none, also where its value is whole.
pub uninterp spec fn number_u64(number: serde_json::Number) -> Option<u64>;

/// The document that a text spells, or the message that says why it spells
/// none.
pub open spec fn document(text: Seq<u8>) -> Result<Json, Seq<char>> {
    match read_value(text) {
        Ok(value) => Ok(value_json(value)),
        Err(error) => Err(error_text(error)),
    }
}

/// Trusted: `serde_json::from_slice` at the type `serde_json::Value`. The
/// contract claims only that what comes back is decided by the bytes
/// alone.
#[verifier::external_body]
fn read(text: &[u8]) -> (outcome: Result<serde_json::Value, serde_json::Error>)
    ensures
        outcome == read_value(text@),
{
    serde_json::from_slice::<serde_json::Value>(text)
}

/// Trusted: takes a `serde_json::Value` apart, one arm for each of its
/// variants, and puts its parts into the same variant of [`Json`]; the
/// members of an object come in the order in which its map hands them
/// out. The contract claims only that the result is decided by the value.
#[verifier::external_body]
fn convert(value: serde_json::Value) -> (json: Json)
    ensures
        json == value_json(value),
{
    match value {
        serde_json::Value::Null => Json::Null,
        serde_json::Value::Bool(flag) => Json::Bool(flag),
        serde_json::Value::Number(number) => Json::Number(number),
        serde_json::Value::String(text) => Json::String(text),
        serde_json::Value::Array(items) => Json::Array(items.into_iter().map(convert).collect()),
        serde_json::Value::Object(members) => Json::Object(
            members.into_iter().map(|(name, member)| (name, convert(member))).collect(),
        ),
    }
}

/// Trusted: the `Display` text of a `serde_json::Error`. The contract
/// claims only that the text is decided by the error.
#[verifier::external_body]
fn describe(error: &serde_json::Error) -> (message: String)
    ensures
        message@ == error_text(*error),
{
    error.to_string()
}

/// Trusted: `serde_json::Number::as_u64`, which gives the number where it
/// is held as an unsigned integer and nothing otherwise.
#[verifier::external_body]
pub(crate) fn number_as_u64(number: &serde_json::Number) -> (value: Option<u64>)
    ensures
        value == number_u64(*number),
{
    number.as_u64()
}

/// The member of that name, where the list has one: the first, if several
/// bear the name.
pub open spec fn member(members: Seq<(String, Json)>, name: Seq<char>) -> Option<Json>
    decreases members.len(),
{
    if members.len() == 0 {
        None
    } else if members[0].0@ == name {
        Some(members[0].1)
    } else {
        member(members.drop_first(), name)
    }
}

/// Where the first member of that name stands.
pub fn position(members: &Vec<(String, Json)>, name: &str) -> (at: Option<usize>)
    ensures
        match at {
            Some(i) => {
                &&& i < members.len()
                &&& members[i as int].0@ == name@
                &&& forall|j: int| 0 <= j < i ==> members[j].0@ != name@
                &&& member(members@, name@) == Some(members[i as int].1)
            },
            None => {
                &&& forall|j: int| 0 <= j < members.len() ==> members[j].0@ != name@
                &&& member(members@, name@) is None
            },
        },
{
    let key = String::from_str(name);
    let mut i: usize = 0;
    assert(members@.skip(0) =~= members@);
    while i < members.len()
        invariant
            i <= members.len(),
            key@ == name@,
            forall|j: int| 0 <= j < i ==> members[j].0@ != name@,
            member(members@, name@) == member(members@.skip(i as int), name@),
        decreases members.len() - i,
    {
        if members[i].0 == key {
            return Some(i);
        }
        assert(members@.skip(i as int).drop_first() =~= members@.skip(i as int + 1));
        i += 1;
    }
    None
}

/// Reads a JSON text.
pub fn parse(text: &[u8]) -> (outcome: Result<Json, FetchError>)
    ensures
        match document(text@) {
            Ok(json) => outcome == Ok::<Json, FetchError>(json),
            Err(message) => outcome matches Err(FetchError::Deserialization(m)) && m@ == message,
        },
{
    match read(text) {
        Ok(value) => Ok(convert(value)),
        Err(error) => Err(FetchError::Deserialization(describe(&error))),
    }
}

} // verus!
