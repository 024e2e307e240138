use protobug::error::{DecodeError, InspectError, SchemaError};

#[test]
fn schema_error_messages() {
    assert_eq!(
        SchemaError::NoTopLevelMessages.message(),
        "No top-level messages found"
    );
    assert_eq!(
        SchemaError::MultipleTopLevelMessages { count: 2 }.message(),
        "Schemas with multiple top-level messages are not currently supported"
    );
}

#[test]
fn decode_error_messages() {
    assert_eq!(
        DecodeError::WireMismatch.message(),
        "Payload bytes do not match the schema"
    );
    assert_eq!(
        DecodeError::ProjectionFailed.message(),
        "Decoded value has no editable text form"
    );
}

#[test]
fn inspect_error_delegates_to_its_cause() {
    assert_eq!(
        InspectError::Schema(SchemaError::NoTopLevelMessages).message(),
        SchemaError::NoTopLevelMessages.message()
    );
    assert_eq!(
        InspectError::Decode(DecodeError::WireMismatch).message(),
        DecodeError::WireMismatch.message()
    );
}
