//! Identifiers, timestamps and the small traits shared by every model.

use vstd::prelude::*;
use vstd::string::*;

verus! {

/// A unique identifier (a UUID held as its 128 bits).
#[derive(Clone, Copy, Debug, PartialEq, Eq, Structural, Hash)]
pub struct Id(pub u128);

/// Milliseconds since the Unix epoch.
pub type Timestamp = i64;

/// A fresh random identifier.
///
/// Relies on `uuid::Uuid::new_v4` and `Uuid::as_u128`: a random version-4 UUID,
/// read as its 128 bits. Nothing is promised of the value.
#[verifier::external_body]
pub fn new_id() -> (r: Id) {
    Id(uuid::Uuid::new_v4().as_u128())
}

/// Relies on `uuid::Uuid::from_u128` and the `Display` of `Uuid`: the
/// identifier in its hyphenated text form.
#[verifier::external_body]
pub(crate) fn uuid_text(id: Id) -> (r: String) {
    uuid::Uuid::from_u128(id.0).to_string()
}

/// The current time.
///
/// Relies on `chrono::Utc::now` and `DateTime::timestamp_millis`: the system
/// clock in milliseconds since the epoch. Nothing is promised of the value.
#[verifier::external_body]
pub fn now() -> (r: Timestamp) {
    chrono::Utc::now().timestamp_millis()
}

/// A JSON document, carried through the library without being inspected.
#[verifier::external_type_specification]
#[verifier::external_body]
pub struct ExJsonValue(serde_json::Value);

/// Relies on the derived `Clone` of `serde_json::Value`: an equal copy.
pub assume_specification[ <serde_json::Value as Clone>::clone ](v: &serde_json::Value) -> (r:
    serde_json::Value)
    ensures
        r == *v,
;

/// The JSON `null` document.
///
/// Relies on `serde_json::Value::Null`, the variant that stands for `null`.
#[verifier::external_body]
pub(crate) fn json_null() -> (r: serde_json::Value) {
    serde_json::Value::Null
}

/// A copy of an optional string.
pub(crate) fn clone_opt_string(s: &Option<String>) -> (r: Option<String>)
    ensures
        r == *s,
{
    match s {
        Some(t) => Some(t.clone()),
        None => None,
    }
}

/// Whether a text is a JSON document.
pub uninterp spec fn is_json_text(s: Seq<char>) -> bool;

/// Relies on `serde_json::from_str`: parses a JSON document; on failure, the
/// parse error's text. Whether it succeeds depends on the text alone.
#[verifier::external_body]
pub(crate) fn parse_json(text: &str) -> (r: Result<serde_json::Value, String>)
    ensures
        r is Ok <==> is_json_text(text@),
{
    serde_json::from_str(text).map_err(|e| e.to_string())
}

/// Errors of the models.
#[derive(Clone, Debug, PartialEq, Eq)]
pub enum Error {
    NotFound(String),
    InvalidData(String),
    Serialization(String),
    Deserialization(String),
}

impl Error {
    /// The text that describes this error.
    pub fn message(&self) -> (r: String)
        ensures
            r@ == match *self {
                Error::NotFound(m) => "Not found: "@ + m@,
                Error::InvalidData(m) => "Invalid data: "@ + m@,
                Error::Serialization(m) => "Serialization error: "@ + m@,
                Error::Deserialization(m) => "Deserialization error: "@ + m@,
            },
    {
        match self {
            Error::NotFound(m) => String::from_str("Not found: ").concat(m.as_str()),
            Error::InvalidData(m) => String::from_str("Invalid data: ").concat(m.as_str()),
            Error::Serialization(m) => String::from_str("Serialization error: ").concat(m.as_str()),
            Error::Deserialization(m) => String::from_str("Deserialization error: ").concat(
                m.as_str(),
            ),
        }
    }
}

/// Entities that record when they were created and last updated.
pub trait Temporal {
    fn created_at(&self) -> Timestamp;

    fn updated_at(&self) -> Timestamp;
}

/// Entities with a unique identifier.
pub trait Identifiable {
    fn id(&self) -> Id;
}

} // verus!
