//! Interactive inspector for schema-described binary messages.
//!
//! Given a message-type descriptor and an encoded payload, the library
//! decodes the payload into a committed structured value and keeps four
//! synchronized textual views of it: a pretty structured dump, a hex byte
//! dump, a printable-character byte dump, and an editable structured-data
//! buffer that is re-parsed on every keystroke, committing on success and
//! keeping the last committed value on failure.

pub mod b64;
pub mod codec;
pub mod dump;
pub mod edit_buffer;
pub mod error;
pub mod line_wrap;
pub mod schema;
pub mod session;
pub mod strutil;
