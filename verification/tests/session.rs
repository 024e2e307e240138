use protobuf::descriptor::field_descriptor_proto::{Label, Type};
use protobuf::descriptor::{DescriptorProto, FieldDescriptorProto, FileDescriptorProto};
use protobuf::reflect::FileDescriptor;
use protobug::edit_buffer::InputEvent;
use protobug::error::{DecodeError, InspectError, SchemaError};
use protobug::session::{prepare_session, Session, TerminalEvent};

fn schema_with_messages(names: &[&str]) -> FileDescriptor {
    let mut file = FileDescriptorProto::new();
    file.set_name("test.proto".to_string());
    file.set_syntax("proto3".to_string());
    for name in names {
        let mut field = FieldDescriptorProto::new();
        field.set_name("x".to_string());
        field.set_number(1);
        field.set_type(Type::TYPE_INT32);
        field.set_label(Label::LABEL_OPTIONAL);
        let mut msg = DescriptorProto::new();
        msg.set_name(name.to_string());
        msg.field.push(field);
        file.message_type.push(msg);
    }
    FileDescriptor::new_dynamic(file, &[]).unwrap()
}

fn event_session() -> Session {
    let fd = schema_with_messages(&["Event"]);
    // field x = 1, varint 42, then base64 "CCo=" with a trailing newline
    prepare_session(&fd, "CCo=\n", 16).unwrap()
}

#[test]
fn inspect_decodes_and_renders_all_views() {
    let session = event_session();
    assert_eq!(session.committed_bytes(), &vec![0x08, 0x2a]);

    let views = session.render().unwrap();
    assert!(views.structured.contains("x: 42"));
    assert_eq!(views.wire, vec![0x08, 0x2a]);
    assert!(views.hex.starts_with("08 2a "));
    assert_eq!(views.hex_lines, views.ascii_lines);
    let editable = views.editable.join("\n");
    assert!(editable.contains("\"x\": 42"));
}

#[test]
fn dumps_show_the_reserialized_wire_bytes() {
    let fd = schema_with_messages(&["Event"]);
    // base64 of [0x08, 0x01, 0x08, 0x2a]: the field twice, last value wins,
    // so the reserialized bytes differ from the committed payload
    let session = prepare_session(&fd, "CAEIKg==", 16).unwrap();
    assert_eq!(session.committed_bytes(), &vec![0x08, 0x01, 0x08, 0x2a]);

    let views = session.render().unwrap();
    assert!(views.structured.contains("x: 42"));
    assert_eq!(views.wire, vec![0x08, 0x2a]);
    assert_eq!(views.hex, "08 2a \n");
}

#[test]
fn editable_text_round_trips_to_the_same_committed_value() {
    let mut session = event_session();
    let before = session.committed_bytes().clone();
    // a no-move event re-parses the untouched editable projection, and the
    // committed value it reproduces is structurally the same
    let committed = session.on_edit(InputEvent::Noop);
    assert!(committed);
    assert_eq!(session.committed_bytes(), &before);
}

#[test]
fn invalid_edit_is_swallowed_and_commits_nothing() {
    let mut session = event_session();
    let before = session.committed_bytes().clone();
    // "x{ ... }" is not valid structured data
    let committed = session.on_edit(InputEvent::Char('x'));
    assert!(!committed);
    assert_eq!(session.committed_bytes(), &before);
    assert!(!session.should_exit());
    // the buffer keeps the keystroke even though nothing was committed
    assert!(session.buffer_lines()[0].starts_with('x'));
}

#[test]
fn valid_edit_replaces_the_committed_value() {
    let mut session = event_session();
    // walk to the end of the line holding the value and erase the last digit:
    // 42 becomes 4
    session.on_edit(InputEvent::Down);
    session.on_edit(InputEvent::End);
    let committed = session.on_edit(InputEvent::Backspace);
    assert!(committed);
    assert_eq!(session.committed_bytes(), &vec![0x08, 0x04]);
    let views = session.render().unwrap();
    assert!(views.structured.contains("x: 4"));
}

#[test]
fn interrupt_ends_the_session_and_touches_nothing() {
    let mut session = event_session();
    let before = session.committed_bytes().clone();
    assert!(!session.should_exit());
    session.handle_event(TerminalEvent::Interrupt);
    assert!(session.should_exit());
    assert_eq!(session.committed_bytes(), &before);
}

#[test]
fn other_events_are_dispatched_as_edits() {
    let mut session = event_session();
    let before = session.committed_bytes().clone();
    let committed = session.handle_event(TerminalEvent::Input(InputEvent::Char('x')));
    assert!(!committed);
    assert_eq!(session.committed_bytes(), &before);
    assert!(!session.should_exit());
}

#[test]
fn inspect_rejects_empty_schema_before_any_ui() {
    let fd = schema_with_messages(&[]);
    assert_eq!(
        prepare_session(&fd, "CCo=", 16).map(|_| ()),
        Err(InspectError::Schema(SchemaError::NoTopLevelMessages))
    );
}

#[test]
fn inspect_rejects_two_message_schema_with_the_count() {
    let fd = schema_with_messages(&["First", "Second"]);
    assert_eq!(
        prepare_session(&fd, "CCo=", 16).map(|_| ()),
        Err(InspectError::Schema(SchemaError::MultipleTopLevelMessages {
            count: 2
        }))
    );
}

#[test]
fn inspect_rejects_unparseable_payload_text() {
    let fd = schema_with_messages(&["Event"]);
    assert_eq!(
        prepare_session(&fd, "!!!", 16).map(|_| ()),
        Err(InspectError::Decode(DecodeError::NoBase64Variant))
    );
}

#[test]
fn inspect_rejects_bytes_that_mismatch_the_wire_shape() {
    let fd = schema_with_messages(&["Event"]);
    // base64 of [0x08]: a tag with its varint value missing
    assert_eq!(
        prepare_session(&fd, "CA==", 16).map(|_| ()),
        Err(InspectError::Decode(DecodeError::WireMismatch))
    );
}

#[test]
fn wrap_width_adjustment_clamps_at_the_lower_bound() {
    let mut session = event_session();
    assert_eq!(session.wrap_width(), 16);
    session.widen();
    assert_eq!(session.wrap_width(), 17);
    for _ in 0..20 {
        session.narrow();
    }
    assert_eq!(session.wrap_width(), 1);
    session.narrow();
    assert_eq!(session.wrap_width(), 1);
}
