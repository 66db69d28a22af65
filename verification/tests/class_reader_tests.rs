use class_reader::class_file_field::FieldConstantValue;
use class_reader::constant_pool::ConstantPoolEntry;
use class_reader::class_reader_error::ClassReaderError;
use class_reader::field_flags::FieldFlags;
use class_reader::instruction::Instruction;
use class_reader::method_flags::MethodFlags;
use class_reader::read_buffer;

fn push_u16(data: &mut Vec<u8>, v: u16) {
    data.push((v >> 8) as u8);
    data.push(v as u8);
}

fn push_u32(data: &mut Vec<u8>, v: u32) {
    data.push((v >> 24) as u8);
    data.push((v >> 16) as u8);
    data.push((v >> 8) as u8);
    data.push(v as u8);
}

fn push_utf8_constant(data: &mut Vec<u8>, text: &str) {
    data.push(1);
    push_u16(data, text.len() as u16);
    data.extend_from_slice(text.as_bytes());
}

fn push_class_ref_constant(data: &mut Vec<u8>, index: u16) {
    data.push(7);
    push_u16(data, index);
}

/// A class with one deprecated constant field, one method with code, an
/// exception table, a line-number table and a thrown exception, plus
/// class-level deprecation and a source file.
fn rich_class_bytes() -> Vec<u8> {
    let mut data = Vec::new();
    push_u32(&mut data, 0xCAFEBABE);
    push_u16(&mut data, 0); // minor
    push_u16(&mut data, 50); // major
    push_u16(&mut data, 19); // constant pool count: 18 entries
    push_utf8_constant(&mut data, "Foo"); // 1
    push_class_ref_constant(&mut data, 1); // 2
    push_utf8_constant(&mut data, "java/lang/Object"); // 3
    push_class_ref_constant(&mut data, 3); // 4
    push_utf8_constant(&mut data, "answer"); // 5
    push_utf8_constant(&mut data, "I"); // 6
    push_utf8_constant(&mut data, "ConstantValue"); // 7
    data.push(3); // 8: integer constant
    push_u32(&mut data, 42);
    push_utf8_constant(&mut data, "run"); // 9
    push_utf8_constant(&mut data, "()V"); // 10
    push_utf8_constant(&mut data, "Code"); // 11
    push_utf8_constant(&mut data, "LineNumberTable"); // 12
    push_utf8_constant(&mut data, "Exceptions"); // 13
    push_utf8_constant(&mut data, "java/lang/Exception"); // 14
    push_class_ref_constant(&mut data, 14); // 15
    push_utf8_constant(&mut data, "SourceFile"); // 16
    push_utf8_constant(&mut data, "Foo.java"); // 17
    push_utf8_constant(&mut data, "Deprecated"); // 18
    push_u16(&mut data, 0x0021); // class flags: public | super
    push_u16(&mut data, 2); // this class
    push_u16(&mut data, 4); // super class
    push_u16(&mut data, 1); // one interface
    push_u16(&mut data, 4);
    push_u16(&mut data, 1); // one field
    push_u16(&mut data, 0x0018); // static | final
    push_u16(&mut data, 5); // name: answer
    push_u16(&mut data, 6); // descriptor: I
    push_u16(&mut data, 2); // two field attributes
    push_u16(&mut data, 7); // ConstantValue
    push_u32(&mut data, 2);
    push_u16(&mut data, 8);
    push_u16(&mut data, 18); // Deprecated
    push_u32(&mut data, 0);
    push_u16(&mut data, 1); // one method
    push_u16(&mut data, 0x0001); // public
    push_u16(&mut data, 9); // name: run
    push_u16(&mut data, 10); // descriptor: ()V
    push_u16(&mut data, 2); // two method attributes
    push_u16(&mut data, 11); // Code
    push_u32(&mut data, 33);
    push_u16(&mut data, 2); // max stack
    push_u16(&mut data, 1); // max locals
    push_u32(&mut data, 1); // code length
    data.push(0xb1); // return
    push_u16(&mut data, 1); // one exception-table entry
    push_u16(&mut data, 0); // start
    push_u16(&mut data, 1); // end
    push_u16(&mut data, 0); // handler
    push_u16(&mut data, 15); // catch class
    push_u16(&mut data, 1); // one nested attribute
    push_u16(&mut data, 12); // LineNumberTable
    push_u32(&mut data, 6);
    push_u16(&mut data, 1); // one entry
    push_u16(&mut data, 0); // program counter
    push_u16(&mut data, 7); // line
    push_u16(&mut data, 13); // Exceptions
    push_u32(&mut data, 4);
    push_u16(&mut data, 1); // one thrown exception
    push_u16(&mut data, 15);
    push_u16(&mut data, 2); // two class attributes
    push_u16(&mut data, 16); // SourceFile
    push_u32(&mut data, 2);
    push_u16(&mut data, 17);
    push_u16(&mut data, 18); // Deprecated
    push_u32(&mut data, 0);
    data
}

#[test]
fn magic_number_is_required() {
    let data = vec![0x00, 0x01, 0x02, 0x03];
    assert!(matches!(
        read_buffer(&data),
        Err(ClassReaderError::InvalidClassData(s, None)) if s == "invalid magic number"
    ));
}

#[test]
fn truncated_buffer_is_end_of_data() {
    let data = vec![0xCA, 0xFE];
    assert!(matches!(
        read_buffer(&data),
        Err(ClassReaderError::InvalidClassData(s, None)) if s == "unexpected end of class file"
    ));
}

#[test]
fn unsupported_version_keeps_both_numbers() {
    let mut data = Vec::new();
    push_u32(&mut data, 0xCAFEBABE);
    push_u16(&mut data, 3); // minor
    push_u16(&mut data, 99); // major, out of range
    assert!(matches!(
        read_buffer(&data),
        Err(ClassReaderError::UnsupportedVersion(99, 3))
    ));
}

#[test]
fn unknown_constant_pool_tag_is_fatal() {
    let mut data = Vec::new();
    push_u32(&mut data, 0xCAFEBABE);
    push_u16(&mut data, 0);
    push_u16(&mut data, 50);
    push_u16(&mut data, 2);
    data.push(15); // method-handle tag: not in this decoder's profile
    assert!(matches!(
        read_buffer(&data),
        Err(ClassReaderError::InvalidClassData(s, None)) if s == "unknown constant pool tag 0x0f at entry 1"
    ));
}

#[test]
fn invalid_class_flags_are_fatal() {
    let mut data = Vec::new();
    push_u32(&mut data, 0xCAFEBABE);
    push_u16(&mut data, 0);
    push_u16(&mut data, 50);
    push_u16(&mut data, 1); // empty pool
    push_u16(&mut data, 0x0002); // not a known class flag
    assert!(matches!(
        read_buffer(&data),
        Err(ClassReaderError::InvalidClassData(s, None)) if s == "invalid class flags: 0x0002"
    ));
}

#[test]
fn minimal_class_decodes() {
    let mut data = Vec::new();
    push_u32(&mut data, 0xCAFEBABE);
    push_u16(&mut data, 0);
    push_u16(&mut data, 50);
    push_u16(&mut data, 5);
    push_utf8_constant(&mut data, "Foo"); // 1
    push_class_ref_constant(&mut data, 1); // 2
    push_utf8_constant(&mut data, "java/lang/Object"); // 3
    push_class_ref_constant(&mut data, 3); // 4
    push_u16(&mut data, 0x0021);
    push_u16(&mut data, 2); // this class
    push_u16(&mut data, 0); // no superclass
    push_u16(&mut data, 0); // no interfaces
    push_u16(&mut data, 0); // no fields
    push_u16(&mut data, 0); // no methods
    push_u16(&mut data, 0); // no attributes
    let class = read_buffer(&data).unwrap();
    assert_eq!("Foo", class.name);
    assert_eq!(None, class.superclass);
    assert_eq!(50, class.version.major);
    assert_eq!(0, class.version.minor);
    assert!(class.interfaces.is_empty());
    assert!(class.fields.is_empty());
    assert!(class.methods.is_empty());
    assert!(!class.deprecated);
    assert_eq!(None, class.source_file);
}

#[test]
fn rich_class_decodes_fully() {
    let class = read_buffer(&rich_class_bytes()).unwrap();
    assert_eq!("Foo", class.name);
    assert_eq!(Some("java/lang/Object".to_string()), class.superclass);
    assert_eq!(vec!["java/lang/Object".to_string()], class.interfaces);
    assert!(class.deprecated);
    assert_eq!(Some("Foo.java".to_string()), class.source_file);

    assert_eq!(1, class.fields.len());
    let field = &class.fields[0];
    assert_eq!("answer", field.name);
    assert!(field.flags.contains(FieldFlags::STATIC));
    assert!(field.flags.contains(FieldFlags::FINAL));
    assert_eq!(Some(FieldConstantValue::Int(42)), field.constant_value);
    assert!(field.deprecated);

    assert_eq!(1, class.methods.len());
    let method = &class.methods[0];
    assert_eq!("run", method.name);
    assert_eq!("()V", method.type_descriptor);
    assert!(method.parsed_type_descriptor.parameters.is_empty());
    assert_eq!(None, method.parsed_type_descriptor.return_type);
    assert!(!method.deprecated);
    assert_eq!(
        vec!["java/lang/Exception".to_string()],
        method.thrown_exceptions
    );

    let code = method.code.as_ref().expect("method should have code");
    assert_eq!(2, code.max_stack);
    assert_eq!(1, code.max_locals);
    assert_eq!(vec![0xb1], code.code);
    assert_eq!(1, code.exception_table.entries.len());
    let handler = &code.exception_table.entries[0];
    assert_eq!(0, handler.range.start.0);
    assert_eq!(1, handler.range.end.0);
    assert_eq!(0, handler.handler_pc.0);
    assert_eq!(Some("java/lang/Exception".to_string()), handler.catch_class);
    let line_numbers = code.line_number_table.as_ref().unwrap();
    assert_eq!(1, line_numbers.entries.len());
    assert_eq!(0, line_numbers.entries[0].program_counter.0);
    assert_eq!(7, line_numbers.entries[0].line_number.0);

    let instructions = Instruction::parse_instructions(&code.code).unwrap();
    assert_eq!(vec![(0usize, Instruction::Return)], instructions);
}

#[test]
fn trailing_bytes_after_the_class_are_ignored() {
    let mut data = Vec::new();
    push_u32(&mut data, 0xCAFEBABE);
    push_u16(&mut data, 0);
    push_u16(&mut data, 50);
    push_u16(&mut data, 3);
    push_utf8_constant(&mut data, "Foo"); // 1
    push_class_ref_constant(&mut data, 1); // 2
    push_u16(&mut data, 0x0021);
    push_u16(&mut data, 2);
    push_u16(&mut data, 0);
    push_u16(&mut data, 0);
    push_u16(&mut data, 0);
    push_u16(&mut data, 0);
    push_u16(&mut data, 0);
    data.push(0x99); // trailing garbage after the class attributes
    let class = read_buffer(&data).unwrap();
    assert_eq!("Foo", class.name);
}

#[test]
fn wide_constants_claim_two_logical_pool_slots() {
    let mut data = Vec::new();
    push_u32(&mut data, 0xCAFEBABE);
    push_u16(&mut data, 0);
    push_u16(&mut data, 50);
    push_u16(&mut data, 5); // one long (two slots), one utf8, one class ref
    data.push(5); // long constant
    push_u32(&mut data, 0);
    push_u32(&mut data, 77);
    push_utf8_constant(&mut data, "Foo"); // 3
    push_class_ref_constant(&mut data, 3); // 4
    push_u16(&mut data, 0x0021);
    push_u16(&mut data, 4);
    push_u16(&mut data, 0);
    push_u16(&mut data, 0);
    push_u16(&mut data, 0);
    push_u16(&mut data, 0);
    push_u16(&mut data, 0);
    let class = read_buffer(&data).unwrap();
    assert_eq!("Foo", class.name);
    assert_eq!(ConstantPoolEntry::Long(77), *class.constants.get(1).unwrap());
    assert!(class.constants.get(2).is_err());
    assert_eq!(
        ConstantPoolEntry::Utf8("Foo".to_string()),
        *class.constants.get(3).unwrap()
    );
}

#[test]
fn missing_code_attribute_names_the_method() {
    let mut data = Vec::new();
    push_u32(&mut data, 0xCAFEBABE);
    push_u16(&mut data, 0);
    push_u16(&mut data, 50);
    push_u16(&mut data, 5);
    push_utf8_constant(&mut data, "Foo"); // 1
    push_class_ref_constant(&mut data, 1); // 2
    push_utf8_constant(&mut data, "run"); // 3
    push_utf8_constant(&mut data, "()V"); // 4
    push_u16(&mut data, 0x0021);
    push_u16(&mut data, 2);
    push_u16(&mut data, 0);
    push_u16(&mut data, 0); // no interfaces
    push_u16(&mut data, 0); // no fields
    push_u16(&mut data, 1); // one method
    push_u16(&mut data, 0x0001); // public, neither native nor abstract
    push_u16(&mut data, 3);
    push_u16(&mut data, 4);
    push_u16(&mut data, 0); // no attributes: no code
    assert!(matches!(
        read_buffer(&data),
        Err(ClassReaderError::InvalidClassData(s, None))
            if s == "method run is missing code attribute"
    ));
}

#[test]
fn native_method_has_no_code_block() {
    let mut data = Vec::new();
    push_u32(&mut data, 0xCAFEBABE);
    push_u16(&mut data, 0);
    push_u16(&mut data, 50);
    push_u16(&mut data, 5);
    push_utf8_constant(&mut data, "Foo"); // 1
    push_class_ref_constant(&mut data, 1); // 2
    push_utf8_constant(&mut data, "run"); // 3
    push_utf8_constant(&mut data, "()V"); // 4
    push_u16(&mut data, 0x0021);
    push_u16(&mut data, 2);
    push_u16(&mut data, 0);
    push_u16(&mut data, 0);
    push_u16(&mut data, 0);
    push_u16(&mut data, 1);
    push_u16(&mut data, 0x0101); // public | native
    push_u16(&mut data, 3);
    push_u16(&mut data, 4);
    push_u16(&mut data, 0); // no attributes, which is correct for native
    push_u16(&mut data, 0); // no class attributes
    let class = read_buffer(&data).unwrap();
    assert_eq!(1, class.methods.len());
    let method = &class.methods[0];
    assert!(method.flags.contains(MethodFlags::NATIVE));
    assert!(method.code.is_none());
}

#[test]
fn supplementary_plane_text_is_decoded_from_surrogate_pairs() {
    let mut data = Vec::new();
    push_u32(&mut data, 0xCAFEBABE);
    push_u16(&mut data, 0);
    push_u16(&mut data, 50);
    push_u16(&mut data, 3);
    // Modified UTF-8 six-byte surrogate pair for U+10401.
    data.push(1);
    push_u16(&mut data, 6);
    data.extend_from_slice(&[0xED, 0xA0, 0x81, 0xED, 0xB0, 0x81]);
    push_class_ref_constant(&mut data, 1); // 2
    push_u16(&mut data, 0x0021);
    push_u16(&mut data, 2);
    push_u16(&mut data, 0);
    push_u16(&mut data, 0);
    push_u16(&mut data, 0);
    push_u16(&mut data, 0);
    push_u16(&mut data, 0);
    let class = read_buffer(&data).unwrap();
    assert_eq!("\u{10401}", class.name);
}

#[test]
fn ill_formed_text_is_rejected() {
    let mut data = Vec::new();
    push_u32(&mut data, 0xCAFEBABE);
    push_u16(&mut data, 0);
    push_u16(&mut data, 50);
    push_u16(&mut data, 2);
    data.push(1); // utf8 constant with a truncated surrogate
    push_u16(&mut data, 2);
    data.extend_from_slice(&[0xED, 0xA0]);
    assert!(matches!(
        read_buffer(&data),
        Err(ClassReaderError::InvalidClassData(s, None)) if s == "invalid cesu8 string"
    ));
}

#[test]
fn pool_lookup_failure_carries_the_offending_index() {
    let mut data = Vec::new();
    push_u32(&mut data, 0xCAFEBABE);
    push_u16(&mut data, 0);
    push_u16(&mut data, 50);
    push_u16(&mut data, 1); // empty pool
    push_u16(&mut data, 0x0021);
    push_u16(&mut data, 7); // this-class index does not exist
    match read_buffer(&data) {
        Err(ClassReaderError::InvalidClassData(message, Some(index_error))) => {
            assert_eq!(7, index_error.index);
            assert_eq!("invalid constant pool index: 7", message);
        }
        other => panic!("expected an indexed error, got {:?}", other),
    }
}

fn class_with_one_field(descriptor_text: &str, field_flags: u16, attributes: &[u8]) -> Vec<u8> {
    let mut data = Vec::new();
    push_u32(&mut data, 0xCAFEBABE);
    push_u16(&mut data, 0);
    push_u16(&mut data, 50);
    push_u16(&mut data, 7);
    push_utf8_constant(&mut data, "Foo"); // 1
    push_class_ref_constant(&mut data, 1); // 2
    push_utf8_constant(&mut data, "answer"); // 3
    push_utf8_constant(&mut data, descriptor_text); // 4
    push_utf8_constant(&mut data, "ConstantValue"); // 5
    push_utf8_constant(&mut data, "nope"); // 6
    push_u16(&mut data, 0x0021);
    push_u16(&mut data, 2);
    push_u16(&mut data, 0);
    push_u16(&mut data, 0); // no interfaces
    push_u16(&mut data, 1); // one field
    push_u16(&mut data, field_flags);
    push_u16(&mut data, 3);
    push_u16(&mut data, 4);
    data.extend_from_slice(attributes);
    push_u16(&mut data, 0); // no methods
    push_u16(&mut data, 0); // no class attributes
    data
}

#[test]
fn malformed_field_descriptor_is_a_descriptor_error() {
    let data = class_with_one_field("Q", 0x0008, &[0, 0]);
    assert!(matches!(
        read_buffer(&data),
        Err(ClassReaderError::InvalidTypeDescriptor(s)) if s == "Q"
    ));
}

#[test]
fn invalid_field_flags_are_fatal() {
    let data = class_with_one_field("I", 0x0020, &[0, 0]);
    assert!(matches!(
        read_buffer(&data),
        Err(ClassReaderError::InvalidClassData(s, None)) if s == "invalid field flags: 0x0020"
    ));
}

#[test]
fn invalid_method_flags_are_fatal() {
    let mut data = Vec::new();
    push_u32(&mut data, 0xCAFEBABE);
    push_u16(&mut data, 0);
    push_u16(&mut data, 50);
    push_u16(&mut data, 5);
    push_utf8_constant(&mut data, "Foo"); // 1
    push_class_ref_constant(&mut data, 1); // 2
    push_utf8_constant(&mut data, "run"); // 3
    push_utf8_constant(&mut data, "()V"); // 4
    push_u16(&mut data, 0x0021);
    push_u16(&mut data, 2);
    push_u16(&mut data, 0);
    push_u16(&mut data, 0); // no interfaces
    push_u16(&mut data, 0); // no fields
    push_u16(&mut data, 1); // one method
    push_u16(&mut data, 0x2000); // not a known method flag
    assert!(matches!(
        read_buffer(&data),
        Err(ClassReaderError::InvalidClassData(s, None))
            if s == "invalid method flags: 0x2000"
    ));
}

#[test]
fn constant_value_payload_must_be_one_index() {
    // One attribute: ConstantValue (pool 5) with a 1-byte payload.
    let attrs = [0, 1, 0, 5, 0, 0, 0, 1, 9];
    let data = class_with_one_field("I", 0x0008, &attrs);
    assert!(matches!(
        read_buffer(&data),
        Err(ClassReaderError::InvalidClassData(s, None))
            if s == "invalid attribute of type ConstantValue"
    ));
}

#[test]
fn constant_value_must_resolve_to_a_constant_kind() {
    // One attribute: ConstantValue pointing at the Utf8 entry 6.
    let attrs = [0, 1, 0, 5, 0, 0, 0, 2, 0, 6];
    let data = class_with_one_field("I", 0x0008, &attrs);
    assert!(matches!(
        read_buffer(&data),
        Err(ClassReaderError::InvalidClassData(s, None))
            if s == "invalid type for ConstantValue"
    ));
}

#[test]
fn error_messages_render_each_kind() {
    let invalid = ClassReaderError::invalid_class_data("broken".to_string());
    assert_eq!("invalid class file: broken", invalid.message());
    let version = ClassReaderError::UnsupportedVersion(52, 0);
    assert_eq!("unsupported class file version 52.0", version.message());
    let descriptor = ClassReaderError::InvalidTypeDescriptor("X".to_string());
    assert_eq!("invalid type descriptor: X", descriptor.message());
}
