use class_reader::class_reader_error::ClassReaderError;
use class_reader::field_type::BaseType;
use class_reader::field_type::FieldType;
use class_reader::method_descriptor::MethodDescriptor;

#[test]
fn parses_primitive_descriptors() {
    assert_eq!(FieldType::Base(BaseType::Byte), FieldType::parse("B").unwrap());
    assert_eq!(FieldType::Base(BaseType::Char), FieldType::parse("C").unwrap());
    assert_eq!(FieldType::Base(BaseType::Double), FieldType::parse("D").unwrap());
    assert_eq!(FieldType::Base(BaseType::Float), FieldType::parse("F").unwrap());
    assert_eq!(FieldType::Base(BaseType::Int), FieldType::parse("I").unwrap());
    assert_eq!(FieldType::Base(BaseType::Long), FieldType::parse("J").unwrap());
    assert_eq!(FieldType::Base(BaseType::Short), FieldType::parse("S").unwrap());
    assert_eq!(FieldType::Base(BaseType::Boolean), FieldType::parse("Z").unwrap());
}

#[test]
fn parses_object_and_array_descriptors() {
    assert_eq!(
        FieldType::Object("java/lang/String".to_string()),
        FieldType::parse("Ljava/lang/String;").unwrap()
    );
    assert_eq!(
        FieldType::Array(Box::new(FieldType::Base(BaseType::Int))),
        FieldType::parse("[I").unwrap()
    );
    assert_eq!(
        FieldType::Array(Box::new(FieldType::Array(Box::new(FieldType::Object(
            "Foo".to_string()
        ))))),
        FieldType::parse("[[LFoo;").unwrap()
    );
}

#[test]
fn field_descriptors_round_trip() {
    for descriptor in ["B", "I", "Z", "Ljava/lang/String;", "[I", "[[LFoo;", "[[[D"] {
        let parsed = FieldType::parse(descriptor).unwrap();
        assert_eq!(descriptor, parsed.descriptor());
    }
}

#[test]
fn rejects_malformed_field_descriptors() {
    for descriptor in ["", "X", "L", "Lab", "[", "II", "I;"] {
        assert!(matches!(
            FieldType::parse(descriptor),
            Err(ClassReaderError::InvalidTypeDescriptor(s)) if s == descriptor
        ));
    }
}

#[test]
fn parses_method_descriptors() {
    let descriptor = MethodDescriptor::parse("(IJLjava/lang/Foo;)V").unwrap();
    assert_eq!(
        vec![
            FieldType::Base(BaseType::Int),
            FieldType::Base(BaseType::Long),
            FieldType::Object("java/lang/Foo".to_string()),
        ],
        descriptor.parameters
    );
    assert_eq!(None, descriptor.return_type);

    let with_return = MethodDescriptor::parse("()[I").unwrap();
    assert!(with_return.parameters.is_empty());
    assert_eq!(
        Some(FieldType::Array(Box::new(FieldType::Base(BaseType::Int)))),
        with_return.return_type
    );
}

#[test]
fn method_descriptors_round_trip() {
    for descriptor in ["()V", "()I", "(IJ)V", "(Ljava/lang/String;[I)Ljava/lang/Object;"] {
        let parsed = MethodDescriptor::parse(descriptor).unwrap();
        assert_eq!(descriptor, parsed.descriptor());
    }
}

#[test]
fn rejects_malformed_method_descriptors() {
    for descriptor in ["", "I", "(", "(I", "()", "()VV", "()X", "(X)V"] {
        assert!(matches!(
            MethodDescriptor::parse(descriptor),
            Err(ClassReaderError::InvalidTypeDescriptor(s)) if s == descriptor
        ));
    }
}
