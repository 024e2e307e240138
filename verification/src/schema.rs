//! Schema-level checks: a session needs a schema with exactly one
//! top-level message type, and validation prints the schema's canonical
//! text form.

use crate::codec::{schema_text_of, top_message_names, w_schema_text, w_top_message_names};
use crate::error::SchemaError;
use vstd::prelude::*;

verus! {

/// The name of the schema's single top-level message: an error names the
/// condition when the schema has none, or carries the count when it has
/// more than one.
pub fn single_msg_name(fd: &protobuf::reflect::FileDescriptor) -> (r: Result<String, SchemaError>)
    ensures
        match r {
            Ok(name) => top_message_names(*fd).len() == 1 && name@ == top_message_names(*fd)[0],
            Err(e) => match e {
                SchemaError::NoTopLevelMessages => top_message_names(*fd).len() == 0,
                SchemaError::MultipleTopLevelMessages { count } => top_message_names(*fd).len()
                    == count && count >= 2,
            },
        },
{
    let names = w_top_message_names(fd);
    let n = names.len();
    proof {
        assert(names.deep_view().len() == names@.len());
    }
    if n == 0 {
        Err(SchemaError::NoTopLevelMessages)
    } else if n == 1 {
        proof {
            assert(names.deep_view()[0] == names@[0]@);
        }
        Ok(String::from_str(names[0].as_str()))
    } else {
        Err(SchemaError::MultipleTopLevelMessages { count: n })
    }
}

/// The canonical pretty text form of a schema whose top-level message
/// count passes `single_msg_name`'s check; the same error otherwise.
pub fn validate_schema(fd: &protobuf::reflect::FileDescriptor) -> (r: Result<String, SchemaError>)
    ensures
        match r {
            Ok(text) => top_message_names(*fd).len() == 1 && text@ == schema_text_of(*fd),
            Err(e) => match e {
                SchemaError::NoTopLevelMessages => top_message_names(*fd).len() == 0,
                SchemaError::MultipleTopLevelMessages { count } => top_message_names(*fd).len()
                    == count && count >= 2,
            },
        },
{
    match single_msg_name(fd) {
        Ok(_) => Ok(w_schema_text(fd)),
        Err(e) => Err(e),
    }
}

} // verus!
