use vstd::prelude::*;
use crate::event::{outcome_view, EventView, ExtractionError, ParsedEvent};

verus! {

#[verifier::external_type_specification]
#[verifier::external_body]
pub struct ExJsonValue(serde_json::Value);

#[verifier::external_type_specification]
#[verifier::external_body]
pub struct ExJsonError(serde_json::Error);

#[verifier::external_type_specification]
#[verifier::external_body]
#[verifier::reject_recursive_types(K)]
#[verifier::reject_recursive_types(V)]
pub struct ExJsonMap<K, V>(serde_json::Map<K, V>);

/// The members of a JSON object whose values are JSON strings: each key with
/// the string's characters.
pub uninterp spec fn string_members(m: serde_json::Map<String, serde_json::Value>) -> Map<Seq<char>, Seq<char>>;

/// The string members of the JSON object that serde_json reads from a text;
/// `None` where the text is not one JSON object.
pub uninterp spec fn parsed_object(text: Seq<char>) -> Option<Map<Seq<char>, Seq<char>>>;

/// Relies on serde_json::from_str into a serde_json::Map, which succeeds
/// exactly when the text is one JSON object.
#[verifier::external_body]
fn parse_object(text: &str) -> (r: Result<serde_json::Map<String, serde_json::Value>, serde_json::Error>)
    ensures
        match r {
            Ok(m) => parsed_object(text@) == Some(string_members(m)),
            Err(_) => parsed_object(text@) is None,
        },
{
    serde_json::from_str(text)
}

/// Relies on serde_json::Map::get: the value under `key`, kept where it is a
/// JSON string.
#[verifier::external_body]
fn string_member(m: &serde_json::Map<String, serde_json::Value>, key: &str) -> (r: Option<String>)
    ensures
        match r {
            Some(s) => string_members(*m).contains_key(key@) && string_members(*m)[key@] == s@,
            None => !string_members(*m).contains_key(key@),
        },
{
    match m.get(key) {
        Some(serde_json::Value::String(s)) => Some(s.clone()),
        _ => None,
    }
}

/// The record held by an object's string members: present when all four
/// fields are.
pub open spec fn record_of(members: Map<Seq<char>, Seq<char>>) -> Option<EventView> {
    if members.contains_key("title"@) && members.contains_key("event_type"@)
        && members.contains_key("date"@) && members.contains_key("description"@) {
        Some(
            EventView {
                title: members["title"@],
                event_type: members["event_type"@],
                date: members["date"@],
                description: members["description"@],
            },
        )
    } else {
        None
    }
}

/// The outcome of checking a JSON candidate's structure.
pub open spec fn decoded_record(candidate: Seq<char>) -> Result<EventView, ExtractionError> {
    match parsed_object(candidate) {
        Some(members) => match record_of(members) {
            Some(e) => Ok(e),
            None => Err(ExtractionError::MalformedJson),
        },
        None => Err(ExtractionError::MalformedJson),
    }
}

/// The `response` text of the model service's reply envelope, if it has one.
pub open spec fn envelope_text(body: Seq<char>) -> Option<Seq<char>> {
    match parsed_object(body) {
        Some(members) => if members.contains_key("response"@) {
            Some(members["response"@])
        } else {
            None
        },
        None => None,
    }
}

/// Reads the four fields out of a parsed JSON object. Fails with
/// `MalformedJson` exactly when one of them is missing or not a string.
pub fn record_from_object(obj: &serde_json::Map<String, serde_json::Value>) -> (r: Result<ParsedEvent, ExtractionError>)
    ensures
        outcome_view(r) == match record_of(string_members(*obj)) {
            Some(e) => Ok(e),
            None => Err(ExtractionError::MalformedJson),
        },
{
    let title = string_member(obj, "title");
    let event_type = string_member(obj, "event_type");
    let date = string_member(obj, "date");
    let description = string_member(obj, "description");
    match (title, event_type, date, description) {
        (Some(title), Some(event_type), Some(date), Some(description)) => {
            Ok(ParsedEvent { title, event_type, date, description })
        },
        _ => Err(ExtractionError::MalformedJson),
    }
}

/// Checks that a JSON candidate is an object with the four text fields.
pub fn decode_record(candidate: &str) -> (r: Result<ParsedEvent, ExtractionError>)
    ensures
        outcome_view(r) == decoded_record(candidate@),
{
    match parse_object(candidate) {
        Ok(obj) => record_from_object(&obj),
        Err(_) => Err(ExtractionError::MalformedJson),
    }
}

/// Takes the `response` text out of the model service's reply body. Fails
/// with `ModelResponseInvalid` exactly when the body is not an object with a
/// `response` string.
pub fn response_text(body: &str) -> (r: Result<String, ExtractionError>)
    ensures
        match envelope_text(body@) {
            Some(t) => r is Ok && r->Ok_0@ == t,
            None => r == Err::<String, ExtractionError>(ExtractionError::ModelResponseInvalid),
        },
{
    match parse_object(body) {
        Ok(obj) => match string_member(&obj, "response") {
            Some(t) => Ok(t),
            None => Err(ExtractionError::ModelResponseInvalid),
        },
        Err(_) => Err(ExtractionError::ModelResponseInvalid),
    }
}

} // verus!
