//! Error taxonomy: schema conditions are fatal before any UI is entered,
//! decode conditions are fatal before any UI is entered, and edit re-parse
//! failures are swallowed inside the session and never surface here.

use vstd::prelude::*;

verus! {

/// A schema that cannot drive an inspection session.
#[derive(Debug, PartialEq, Eq, Structural, Clone, Copy)]
pub enum SchemaError {
    /// The schema defines no top-level message type.
    NoTopLevelMessages,
    /// The schema defines more than one top-level message type; `count`
    /// is how many were found.
    MultipleTopLevelMessages { count: usize },
}

/// A payload that cannot be decoded against the schema.
#[derive(Debug, PartialEq, Eq, Structural, Clone, Copy)]
pub enum DecodeError {
    /// No base64 variant accepts the payload text.
    NoBase64Variant,
    /// The payload bytes do not match the message type's wire shape.
    WireMismatch,
    /// The decoded value could not be projected to editable text.
    ProjectionFailed,
}

/// Any condition that aborts an inspection before its UI is entered.
#[derive(Debug, PartialEq, Eq, Structural, Clone, Copy)]
pub enum InspectError {
    Schema(SchemaError),
    Decode(DecodeError),
}

impl InspectError {
    /// One diagnostic line for this condition.
    pub fn message(&self) -> (r: String)
        ensures
            self matches InspectError::Schema(e) ==> r@ == e.spec_message(),
            self matches InspectError::Decode(e) ==> r@ == e.spec_message(),
    {
        match self {
            InspectError::Schema(e) => e.message(),
            InspectError::Decode(e) => e.message(),
        }
    }
}

impl SchemaError {
    /// The diagnostic line `message` returns.
    pub open spec fn spec_message(self) -> Seq<char> {
        match self {
            SchemaError::NoTopLevelMessages => "No top-level messages found"@,
            SchemaError::MultipleTopLevelMessages {
                ..
            } => "Schemas with multiple top-level messages are not currently supported"@,
        }
    }
}

impl DecodeError {
    /// The diagnostic line `message` returns.
    pub open spec fn spec_message(self) -> Seq<char> {
        match self {
            DecodeError::NoBase64Variant => "No base64 variant matches the payload"@,
            DecodeError::WireMismatch => "Payload bytes do not match the schema"@,
            DecodeError::ProjectionFailed => "Decoded value has no editable text form"@,
        }
    }
}

impl SchemaError {
    /// One diagnostic line for this condition.
    pub fn message(&self) -> (r: String)
        ensures
            r@ == self.spec_message(),
    {
        match self {
            SchemaError::NoTopLevelMessages => String::from_str("No top-level messages found"),
            SchemaError::MultipleTopLevelMessages { .. } => String::from_str(
                "Schemas with multiple top-level messages are not currently supported",
            ),
        }
    }
}

impl DecodeError {
    /// One diagnostic line for this condition.
    pub fn message(&self) -> (r: String)
        ensures
            r@ == self.spec_message(),
    {
        match self {
            DecodeError::NoBase64Variant => String::from_str(
                "No base64 variant matches the payload",
            ),
            DecodeError::WireMismatch => String::from_str("Payload bytes do not match the schema"),
            DecodeError::ProjectionFailed => String::from_str(
                "Decoded value has no editable text form",
            ),
        }
    }
}

} // verus!
