//! JSON documents as the checks read them.
use vstd::prelude::*;
use crate::text::same;
use crate::verification::{FoundEntity, JsonDocument};

verus! {

/// A JSON value, held as plain values: numbers as the text serde_json prints them, and an
/// object's members in the order serde_json's map hands them out.
#[derive(Debug)]
pub enum JsonValue {
    /// `null`.
    Null,
    /// `true` or `false`.
    Bool(bool),
    /// A number, as serde_json prints it.
    Number(String),
    /// A string.
    Text(String),
    /// An array, one value per element.
    Array(Vec<JsonValue>),
    /// An object, one pair per member.
    Object(Vec<(String, JsonValue)>),
}

/// The value serde_json reads out of a text, when the text is one JSON document.
pub uninterp spec fn json_of(text: Seq<char>) -> Option<JsonValue>;

/// A `serde_json::Value` as a `JsonValue`, variant for variant and element for element.
#[verifier::external_body]
fn converted(value: serde_json::Value) -> JsonValue {
    match value {
        serde_json::Value::Null => JsonValue::Null,
        serde_json::Value::Bool(flag) => JsonValue::Bool(flag),
        serde_json::Value::Number(number) => JsonValue::Number(number.to_string()),
        serde_json::Value::String(text) => JsonValue::Text(text),
        serde_json::Value::Array(items) => JsonValue::Array(items.into_iter().map(converted).collect()),
        serde_json::Value::Object(members) => JsonValue::Object(members.into_iter().map(|(key, item)| (key, converted(item))).collect()),
    }
}

/// Reads a text as one JSON document through `serde_json::from_str` into a `serde_json::Value`,
/// held as a `JsonValue`; the outcome is a function of the text.
#[verifier::external_body]
pub(crate) fn parse_json(text: &str) -> (parsed: Result<JsonValue, serde_json::Error>)
    ensures
        match parsed {
            Ok(value) => json_of(text@) == Some(value),
            Err(_) => json_of(text@) is None,
        },
{
    match serde_json::from_str::<serde_json::Value>(text) {
        Ok(value) => Ok(converted(value)),
        Err(source) => Err(source),
    }
}

/// The text of the first member of an object under a key, when that member is a string.
pub open spec fn member_text(members: Seq<(String, JsonValue)>, key: Seq<char>) -> Option<Seq<char>>
    decreases members.len(),
{
    if members.len() == 0 {
        None
    } else if members[0].0@ == key {
        match members[0].1 {
            JsonValue::Text(text) => Some(text@),
            _ => None,
        }
    } else {
        member_text(members.drop_first(), key)
    }
}

/// An entity's identifier: its `id` member, when it is an object whose `id` is a string.
pub open spec fn id_of(value: JsonValue) -> Option<Seq<char>> {
    match value {
        JsonValue::Object(members) => member_text(members@, "id"@),
        _ => None,
    }
}

/// Whether what the checks read of an entity is what the value holds.
pub open spec fn reads_as(found: FoundEntity, value: JsonValue) -> bool {
    match found.id {
        Some(text) => id_of(value) == Some(text@),
        None => id_of(value) is None,
    }
}

/// What the checks read of one entity.
pub fn entity_of(value: &JsonValue) -> (found: FoundEntity)
    ensures
        reads_as(found, *value),
{
    match value {
        JsonValue::Object(members) => {
            let mut i: usize = 0;
            assert(members@.skip(0) =~= members@);
            assert(id_of(*value) == member_text(members@, "id"@));
            while i < members.len()
                invariant
                    i <= members@.len(),
                    id_of(*value) == member_text(members@, "id"@),
                    member_text(members@, "id"@) == member_text(members@.skip(i as int), "id"@),
                decreases members.len() - i,
            {
                assert(members@.skip(i as int).drop_first() =~= members@.skip(i + 1));
                assert(members@.skip(i as int)[0] == members@[i as int]);
                if same(members[i].0.as_str(), "id") {
                    assert(member_text(members@, "id"@) == match members@[i as int].1 {
                        JsonValue::Text(text) => Some(text@),
                        _ => None,
                    });
                    return match &members[i].1 {
                        JsonValue::Text(text) => FoundEntity { id: Some(text.clone()) },
                        _ => FoundEntity { id: None },
                    };
                }
                i += 1;
            }
            assert(members@.skip(members@.len() as int) =~= Seq::<(String, JsonValue)>::empty());
            FoundEntity { id: None }
        },
        _ => FoundEntity { id: None },
    }
}

/// Whether a document's shape and entities are what a value holds: an array's entities element by
/// element, an object as the one entity, and anything else as a scalar.
pub open spec fn document_reads(document: JsonDocument, value: JsonValue) -> bool {
    match value {
        JsonValue::Array(items) => document matches JsonDocument::Array(found) && found@.len() == items@.len()
            && forall|i: int| 0 <= i < items@.len() ==> reads_as(#[trigger] found@[i], items@[i]),
        JsonValue::Object(_) => document matches JsonDocument::Object(found) && reads_as(found, value),
        _ => document is Scalar,
    }
}

/// The shape of a document and what the checks read of the entities in it.
pub fn document_of(value: &JsonValue) -> (document: JsonDocument)
    ensures
        document_reads(document, *value),
{
    match value {
        JsonValue::Array(items) => {
            let mut found: Vec<FoundEntity> = Vec::new();
            let mut i: usize = 0;
            while i < items.len()
                invariant
                    i <= items@.len(),
                    found@.len() == i,
                    forall|j: int| 0 <= j < i ==> reads_as(#[trigger] found@[j], items@[j]),
                decreases items.len() - i,
            {
                found.push(entity_of(&items[i]));
                i += 1;
            }
            JsonDocument::Array(found)
        },
        JsonValue::Object(_) => JsonDocument::Object(entity_of(value)),
        _ => JsonDocument::Scalar,
    }
}

} // verus!
