use protobuf::descriptor::field_descriptor_proto::{Label, Type};
use protobuf::descriptor::{DescriptorProto, FieldDescriptorProto, FileDescriptorProto};
use protobuf::reflect::FileDescriptor;
use protobug::error::SchemaError;
use protobug::schema::{single_msg_name, validate_schema};

fn schema_with_messages(names: &[&str]) -> FileDescriptor {
    let mut file = FileDescriptorProto::new();
    file.set_name("test.proto".to_string());
    file.set_syntax("proto3".to_string());
    for name in names {
        let mut field = FieldDescriptorProto::new();
        field.set_name("x".to_string());
        field.set_number(1);
        field.set_type(Type::TYPE_INT32);
        field.set_label(Label::LABEL_OPTIONAL);
        let mut msg = DescriptorProto::new();
        msg.set_name(name.to_string());
        msg.field.push(field);
        file.message_type.push(msg);
    }
    FileDescriptor::new_dynamic(file, &[]).unwrap()
}

#[test]
fn single_message_schema_yields_its_name() {
    let fd = schema_with_messages(&["Event"]);
    assert_eq!(single_msg_name(&fd), Ok("Event".to_string()));
}

#[test]
fn empty_schema_is_rejected() {
    let fd = schema_with_messages(&[]);
    assert_eq!(single_msg_name(&fd), Err(SchemaError::NoTopLevelMessages));
    assert_eq!(validate_schema(&fd), Err(SchemaError::NoTopLevelMessages));
    assert_eq!(
        SchemaError::NoTopLevelMessages.message(),
        "No top-level messages found"
    );
}

#[test]
fn two_message_schema_is_rejected_with_the_count() {
    let fd = schema_with_messages(&["First", "Second"]);
    let expected = Err(SchemaError::MultipleTopLevelMessages { count: 2 });
    assert_eq!(single_msg_name(&fd), expected);
    assert_eq!(validate_schema(&fd), expected);
}

#[test]
fn valid_schema_prints_its_text_form() {
    let fd = schema_with_messages(&["Event"]);
    let text = validate_schema(&fd).unwrap();
    assert!(text.contains("Event"));
    assert!(text.contains("x"));
}
