use class_reader::class_access_flags::ClassAccessFlags;
use class_reader::class_file_version::ClassFileVersion;
use class_reader::class_reader_error::ClassReaderError;
use class_reader::field_flags::FieldFlags;
use class_reader::method_flags::MethodFlags;
use class_reader::type_conversion::ToUsizeSafe;

#[test]
fn class_flags_accept_known_bits_only() {
    let flags = ClassAccessFlags::from_bits(0x0021).unwrap();
    assert!(flags.contains(ClassAccessFlags::PUBLIC));
    assert!(flags.contains(ClassAccessFlags::SUPER));
    assert!(!flags.contains(ClassAccessFlags::INTERFACE));
    assert_eq!(None, ClassAccessFlags::from_bits(0x0002));
    assert_eq!(0, ClassAccessFlags::default().bits);
}

#[test]
fn field_flags_accept_known_bits_only() {
    let flags = FieldFlags::from_bits(0x0018).unwrap();
    assert!(flags.contains(FieldFlags::STATIC));
    assert!(flags.contains(FieldFlags::FINAL));
    assert_eq!(None, FieldFlags::from_bits(0x0020));
}

#[test]
fn method_flags_accept_known_bits_only() {
    let flags = MethodFlags::from_bits(0x0101).unwrap();
    assert!(flags.contains(MethodFlags::PUBLIC));
    assert!(flags.contains(MethodFlags::NATIVE));
    assert_eq!(None, MethodFlags::from_bits(0x0200));
}

#[test]
fn versions_outside_the_supported_range_are_rejected() {
    assert_eq!(
        ClassFileVersion { major: 50, minor: 3 },
        ClassFileVersion::from(50, 3).unwrap()
    );
    assert!(matches!(
        ClassFileVersion::from(52, 0),
        Err(ClassReaderError::UnsupportedVersion(52, 0))
    ));
    assert!(matches!(
        ClassFileVersion::from(44, 0),
        Err(ClassReaderError::UnsupportedVersion(44, 0))
    ));
}

#[test]
fn narrow_integers_convert_into_usize() {
    assert_eq!(255usize, 255u8.into_usize_safe());
    assert_eq!(65535usize, 65535u16.into_usize_safe());
    assert_eq!(70000usize, 70000u32.into_usize_safe());
    assert_eq!(12usize, 12i32.into_usize_safe());
}
