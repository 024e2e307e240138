//! The reflection codec behind the session: schema descriptors, wire
//! decoding, the pretty text dump and the editable structured-data (JSON)
//! projection.
//!
//! The codec's dynamic message values cannot cross into verified code, so
//! every operation here goes from plain values (bytes and text) to plain
//! values: a dynamic message produced inside a wrapper's body is consumed
//! (reserialized or printed) before the wrapper returns.
//!
//! Whether such an operation *succeeds* is a function of the wrapper's
//! arguments, and those successes are named below. The produced bytes and
//! text are not: a decoded message's map fields live in a std `HashMap`,
//! whose iteration order is seeded per instance, so two runs over the same
//! input may serialize or print map entries in different orders. No
//! contract here pins those values; callers receive them as they are.

use vstd::prelude::*;

verus! {

#[verifier::external_type_specification]
#[verifier::external_body]
pub struct ExFileDescriptor(protobuf::reflect::FileDescriptor);

#[verifier::external_type_specification]
#[verifier::external_body]
pub struct ExMessageDescriptor(protobuf::reflect::MessageDescriptor);

/// The names of the schema's top-level message types, in schema order.
pub uninterp spec fn top_message_names(fd: protobuf::reflect::FileDescriptor) -> Seq<Seq<char>>;

/// The descriptor the schema holds under a message name it defines.
pub uninterp spec fn message_of(
    fd: protobuf::reflect::FileDescriptor,
    name: Seq<char>,
) -> protobuf::reflect::MessageDescriptor;

/// The schema's canonical pretty text form.
pub uninterp spec fn schema_text_of(fd: protobuf::reflect::FileDescriptor) -> Seq<char>;

/// Whether `bytes` decode into a message of type `md`.
pub uninterp spec fn decodes(md: protobuf::reflect::MessageDescriptor, bytes: Seq<u8>) -> bool;

/// Whether `bytes` decode into a message of type `md` that reserializes.
pub uninterp spec fn reencodes(md: protobuf::reflect::MessageDescriptor, bytes: Seq<u8>) -> bool;

/// The length of that reserialization. Map entries serialize to the same
/// bytes whatever order they are walked in, so the length — unlike the
/// byte sequence itself — is determined by the decoded contents.
pub uninterp spec fn reencoded_len(md: protobuf::reflect::MessageDescriptor, bytes: Seq<u8>) -> nat;

/// Whether the message decoded from `bytes` has an editable
/// structured-data (JSON) projection.
pub uninterp spec fn editable_projects(
    md: protobuf::reflect::MessageDescriptor,
    bytes: Seq<u8>,
) -> bool;

/// The canonical pretty reformatting of a JSON text: `None` when the text
/// is not valid JSON.
pub uninterp spec fn json_pretty(s: Seq<char>) -> Option<Seq<char>>;

/// Whether editable text `text` parses against `md` into a message that
/// serializes.
pub uninterp spec fn parse_commits(md: protobuf::reflect::MessageDescriptor, text: Seq<char>) -> bool;

/// Relies on `FileDescriptor::messages` (the schema's top-level messages,
/// in order) and `MessageDescriptor::name`, one name per message.
#[verifier::external_body]
pub(crate) fn w_top_message_names(fd: &protobuf::reflect::FileDescriptor) -> (r: Vec<String>)
    ensures
        r.deep_view() == top_message_names(*fd),
{
    fd.messages().map(|m| m.name().to_owned()).collect()
}

/// Relies on `FileDescriptor::message_by_package_relative_name`: a lookup
/// in a name-keyed index built once from the schema, which finds, in
/// particular, every top-level message under its own name.
#[verifier::external_body]
pub(crate) fn w_message_by_name(fd: &protobuf::reflect::FileDescriptor, name: &str) -> (r: Option<
    protobuf::reflect::MessageDescriptor,
>)
    ensures
        top_message_names(*fd).contains(name@) ==> r == Some(message_of(*fd, name@)),
{
    fd.message_by_package_relative_name(name)
}

/// Relies on `text_format::print_to_string_pretty` applied to the schema's
/// own descriptor proto (`FileDescriptor::proto`), a generated message
/// with no map fields: the print is a pure function of the schema.
#[verifier::external_body]
pub(crate) fn w_schema_text(fd: &protobuf::reflect::FileDescriptor) -> (r: String)
    ensures
        r@ == schema_text_of(*fd),
{
    protobuf::text_format::print_to_string_pretty(fd.proto())
}

/// Relies on `MessageDescriptor::parse_from_bytes` followed by
/// `MessageDyn::write_to_bytes_dyn`: decodes the wire bytes and hands back
/// the decoded message's own serialization. Success and the output's
/// length are functions of the inputs; the output bytes themselves may
/// order map entries differently on each call.
#[verifier::external_body]
pub(crate) fn w_reencode(md: &protobuf::reflect::MessageDescriptor, bytes: &[u8]) -> (r: Option<
    Vec<u8>,
>)
    ensures
        r is Some <==> reencodes(*md, bytes@),
        r matches Some(v) ==> decodes(*md, bytes@) && v@.len() == reencoded_len(*md, bytes@),
{
    let msg = md.parse_from_bytes(bytes).ok()?;
    msg.write_to_bytes_dyn().ok()
}

/// Relies on `MessageDescriptor::parse_from_bytes` followed by
/// `text_format::print_to_string_pretty`. Printing is total, so this
/// fails exactly when decoding does; the printed text is not pinned,
/// as map entries may print in any order.
#[verifier::external_body]
pub(crate) fn w_text_format(md: &protobuf::reflect::MessageDescriptor, bytes: &[u8]) -> (r: Option<
    String,
>)
    ensures
        r is Some <==> decodes(*md, bytes@),
{
    let msg = md.parse_from_bytes(bytes).ok()?;
    Some(protobuf::text_format::print_to_string_pretty(&*msg))
}

/// Relies on `MessageDescriptor::parse_from_bytes` followed by
/// `protobuf_json_mapping::print_to_string_with_options` with fixed
/// options (string enum values, camel-case names, defaults included).
/// Success is a function of the inputs; the printed text is not pinned.
#[verifier::external_body]
pub(crate) fn w_editable_json(md: &protobuf::reflect::MessageDescriptor, bytes: &[u8]) -> (r:
    Option<String>)
    ensures
        r is Some <==> editable_projects(*md, bytes@),
        r is Some ==> decodes(*md, bytes@),
{
    let msg = md.parse_from_bytes(bytes).ok()?;
    let options = protobuf_json_mapping::PrintOptions {
        enum_values_int: false,
        proto_field_name: false,
        always_output_default_values: true,
        _future_options: (),
    };
    protobuf_json_mapping::print_to_string_with_options(&*msg, &options).ok()
}

/// Relies on `serde_json::from_str::<Value>` followed by
/// `serde_json::to_string_pretty`: reformats a JSON text canonically.
/// `Value` keeps object members in an ordered map, so the result is a
/// pure function of the text; the parser is recursion-limited.
#[verifier::external_body]
pub(crate) fn w_json_pretty(s: &str) -> (r: Option<String>)
    ensures
        match r {
            Some(v) => json_pretty(s@) == Some(v@),
            None => json_pretty(s@) is None,
        },
{
    let value: serde_json::Value = serde_json::from_str(s).ok()?;
    serde_json::to_string_pretty(&value).ok()
}

/// The deepest brace/bracket nesting handed to the editable text parser,
/// which recurses on nesting without a cap of its own.
pub const MAX_EDIT_DEPTH: usize = 128;

/// Relies on `protobuf_json_mapping::parse_dyn_from_str` followed by
/// `MessageDyn::write_to_bytes_dyn`: parses editable text against the
/// descriptor and hands back the parsed message's serialization. The
/// parser recurses on nesting without a depth cap, so callers must bound
/// the text's nesting first; the produced bytes are not pinned, as map
/// entries may serialize in any order.
#[verifier::external_body]
pub(crate) fn w_parse_editable(md: &protobuf::reflect::MessageDescriptor, text: &str) -> (r: Option<
    Vec<u8>,
>)
    requires
        crate::strutil::json_depth(text@) <= MAX_EDIT_DEPTH,
    ensures
        r is Some <==> parse_commits(*md, text@),
{
    let msg = protobuf_json_mapping::parse_dyn_from_str(md, text).ok()?;
    msg.write_to_bytes_dyn().ok()
}

} // verus!
