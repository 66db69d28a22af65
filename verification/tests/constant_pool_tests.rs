use class_reader::constant_pool::ConstantPool;
use class_reader::constant_pool::ConstantPoolEntry;
use class_reader::constant_pool::InvalidConstantPoolIndexError;

#[test]
fn constant_pool_works() {
    let mut cp = ConstantPool::new();
    cp.add(ConstantPoolEntry::Utf8("hey".to_string()));
    cp.add(ConstantPoolEntry::Integer(1));
    cp.add(ConstantPoolEntry::Float(2.1f32.to_bits()));
    cp.add(ConstantPoolEntry::Long(123));
    cp.add(ConstantPoolEntry::Double(3.56f64.to_bits()));
    cp.add(ConstantPoolEntry::ClassReference(1));
    cp.add(ConstantPoolEntry::StringReference(1));
    cp.add(ConstantPoolEntry::Utf8("joe".to_string()));
    cp.add(ConstantPoolEntry::FieldReference(1, 10));
    cp.add(ConstantPoolEntry::MethodReference(1, 10));
    cp.add(ConstantPoolEntry::InterfaceMethodReference(1, 10));
    cp.add(ConstantPoolEntry::NameAndTypeDescriptor(1, 10));

    assert_eq!(
        ConstantPoolEntry::Utf8("hey".to_string()),
        *cp.get(1).unwrap()
    );
    assert_eq!(ConstantPoolEntry::Integer(1), *cp.get(2).unwrap());
    assert_eq!(ConstantPoolEntry::Float(2.1f32.to_bits()), *cp.get(3).unwrap());
    assert_eq!(ConstantPoolEntry::Long(123i64), *cp.get(4).unwrap());
    assert_eq!(Err(InvalidConstantPoolIndexError::new(5)), cp.get(5));
    assert_eq!(ConstantPoolEntry::Double(3.56f64.to_bits()), *cp.get(6).unwrap());
    assert_eq!(Err(InvalidConstantPoolIndexError::new(7)), cp.get(7));
    assert_eq!(ConstantPoolEntry::ClassReference(1), *cp.get(8).unwrap());
    assert_eq!(ConstantPoolEntry::StringReference(1), *cp.get(9).unwrap());
    assert_eq!(
        ConstantPoolEntry::Utf8("joe".to_string()),
        *cp.get(10).unwrap()
    );
    assert_eq!(
        ConstantPoolEntry::FieldReference(1, 10),
        *cp.get(11).unwrap()
    );
    assert_eq!(
        ConstantPoolEntry::MethodReference(1, 10),
        *cp.get(12).unwrap()
    );
    assert_eq!(
        ConstantPoolEntry::InterfaceMethodReference(1, 10),
        *cp.get(13).unwrap()
    );
    assert_eq!(
        ConstantPoolEntry::NameAndTypeDescriptor(1, 10),
        *cp.get(14).unwrap()
    );

    assert_eq!("hey", cp.text_of(1).unwrap());
    assert_eq!("1", cp.text_of(2).unwrap());
    assert_eq!("0x40066666", cp.text_of(3).unwrap());
    assert_eq!("123", cp.text_of(4).unwrap());
    assert_eq!(Err(InvalidConstantPoolIndexError::new(5)), cp.text_of(5));
    assert_eq!("0x400c7ae147ae147b", cp.text_of(6).unwrap());
    assert_eq!(Err(InvalidConstantPoolIndexError::new(7)), cp.text_of(7));
    assert_eq!("hey", cp.text_of(8).unwrap());
    assert_eq!("hey", cp.text_of(9).unwrap());
    assert_eq!("joe", cp.text_of(10).unwrap());
    assert_eq!("hey.joe", cp.text_of(11).unwrap());
    assert_eq!("hey.joe", cp.text_of(12).unwrap());
    assert_eq!("hey.joe", cp.text_of(13).unwrap());
    assert_eq!("hey: joe", cp.text_of(14).unwrap());
}

#[test]
fn iterators_work() {
    let mut cp = ConstantPool::new();
    cp.add(ConstantPoolEntry::Integer(1));
    cp.add(ConstantPoolEntry::Long(2));
    cp.add(ConstantPoolEntry::Integer(3));

    let mut iter = cp.iter();
    assert_eq!(iter.next(), Some((1, &ConstantPoolEntry::Integer(1))));
    assert_eq!(iter.next(), Some((2, &ConstantPoolEntry::Long(2))));
    assert_eq!(iter.next(), Some((4, &ConstantPoolEntry::Integer(3))));
    assert_eq!(iter.next(), None);
}

#[test]
fn get_with_index_zero_always_fails() {
    let mut cp = ConstantPool::new();
    assert_eq!(Err(InvalidConstantPoolIndexError::new(0)), cp.get(0));
    cp.add(ConstantPoolEntry::Integer(1));
    assert_eq!(Err(InvalidConstantPoolIndexError::new(0)), cp.get(0));
}

#[test]
fn wide_entry_second_slot_fails_like_out_of_range() {
    let mut cp = ConstantPool::new();
    cp.add(ConstantPoolEntry::Long(77));
    // The wide entry occupies slots 1 and 2; slot 2 is unaddressable,
    // exactly like the out-of-range slot 3.
    assert_eq!(ConstantPoolEntry::Long(77), *cp.get(1).unwrap());
    assert_eq!(Err(InvalidConstantPoolIndexError::new(2)), cp.get(2));
    assert_eq!(Err(InvalidConstantPoolIndexError::new(3)), cp.get(3));
}

#[test]
fn cyclic_pool_text_resolution_fails_instead_of_recursing() {
    let mut cp = ConstantPool::new();
    cp.add(ConstantPoolEntry::ClassReference(1));
    assert!(cp.text_of(1).is_err());
}

#[test]
fn fmt_entry_renders_entries_with_their_references() {
    let mut cp = ConstantPool::new();
    cp.add(ConstantPoolEntry::Utf8("hey".to_string()));
    cp.add(ConstantPoolEntry::Integer(-3));
    cp.add(ConstantPoolEntry::ClassReference(1));
    cp.add(ConstantPoolEntry::NameAndTypeDescriptor(1, 2));
    assert_eq!("String: \"hey\"", cp.fmt_entry(1).unwrap());
    assert_eq!("Integer: -3", cp.fmt_entry(2).unwrap());
    assert_eq!(
        "ClassReference: 1 => (String: \"hey\")",
        cp.fmt_entry(3).unwrap()
    );
    assert_eq!(
        "NameAndTypeDescriptor: 1, 2 => (String: \"hey\"), (Integer: -3)",
        cp.fmt_entry(4).unwrap()
    );
}

#[test]
fn index_error_message_names_the_index() {
    let error = InvalidConstantPoolIndexError::new(41);
    assert_eq!(41, error.index);
    assert_eq!("invalid constant pool index: 41", error.message());
}
