use vstd::prelude::*;
use vstd::slice::slice_to_vec;
use vstd::string::StringExecFns;
use crate::attribute::Attribute;
use crate::attribute::AttributeView;
use crate::buffer::spec_read_bytes;
use crate::buffer::spec_read_i32;
use crate::buffer::spec_read_i64;
use crate::buffer::spec_read_u16;
use crate::buffer::spec_read_u32;
use crate::buffer::spec_read_u64;
use crate::buffer::spec_read_u8;
use crate::buffer::spec_read_utf8;
use crate::buffer::Buffer;
use crate::class_access_flags::ClassAccessFlags;
use crate::class_file::ClassFile;
use crate::class_file::ClassFileView;
use crate::class_file_field::ClassFileField;
use crate::class_file_field::ClassFileFieldView;
use crate::class_file_field::FieldConstantValue;
use crate::class_file_field::FieldConstantValueView;
use crate::class_file_method::ClassFileMethod;
use crate::class_file_method::ClassFileMethodCode;
use crate::class_file_method::ClassFileMethodCodeView;
use crate::class_file_method::ClassFileMethodView;
use crate::class_file_version::spec_version_supported;
use crate::class_file_version::ClassFileVersion;
use crate::class_reader_error::spec_buffer_error_view;
use crate::class_reader_error::spec_index_error_view;
use crate::class_reader_error::ClassReaderError;
use crate::class_reader_error::ClassReaderErrorView;
use crate::constant_pool::entry_is_wide;
use crate::constant_pool::spec_text_of;
use crate::constant_pool::ConstantPool;
use crate::constant_pool::ConstantPoolEntry;
use crate::constant_pool::ConstantPoolEntryView;
use crate::constant_pool::PhysicalEntryView;
use crate::exception_table::ExceptionTable;
use crate::exception_table::ExceptionTableEntry;
use crate::exception_table::ExceptionTableEntryView;
use crate::field_flags::FieldFlags;
use crate::field_type::spec_parse_field_descriptor;
use crate::field_type::FieldType;
use crate::line_number::LineNumber;
use crate::line_number_table::LineNumberTable;
use crate::line_number_table::LineNumberTableEntry;
use crate::method_descriptor::spec_parse_method_descriptor;
use crate::method_descriptor::MethodDescriptor;
use crate::method_flags::MethodFlags;
use crate::numerals::dec_u64;
use crate::numerals::hex_u64;
use crate::numerals::spec_dec_nat;
use crate::numerals::spec_hex_nat;
use crate::program_counter::ProgramCounter;
use core::ops::Range;

verus! {

/// What reading one byte yields, with cursor failures already translated to
/// the public error taxonomy.
pub open spec fn spec_take_u8(data: Seq<u8>, pos: int) -> Result<(u8, int), ClassReaderErrorView> {
    match spec_read_u8(data, pos) {
        Ok(r) => Ok(r),
        Err(e) => Err(spec_buffer_error_view(e)),
    }
}

/// What reading a big-endian 16-bit unsigned integer yields.
pub open spec fn spec_take_u16(data: Seq<u8>, pos: int) -> Result<
    (u16, int),
    ClassReaderErrorView,
> {
    match spec_read_u16(data, pos) {
        Ok(r) => Ok(r),
        Err(e) => Err(spec_buffer_error_view(e)),
    }
}

/// What reading a big-endian 32-bit unsigned integer yields.
pub open spec fn spec_take_u32(data: Seq<u8>, pos: int) -> Result<
    (u32, int),
    ClassReaderErrorView,
> {
    match spec_read_u32(data, pos) {
        Ok(r) => Ok(r),
        Err(e) => Err(spec_buffer_error_view(e)),
    }
}

/// What reading a big-endian 32-bit signed integer yields.
pub open spec fn spec_take_i32(data: Seq<u8>, pos: int) -> Result<
    (i32, int),
    ClassReaderErrorView,
> {
    match spec_read_i32(data, pos) {
        Ok(r) => Ok(r),
        Err(e) => Err(spec_buffer_error_view(e)),
    }
}

/// What reading a big-endian 64-bit signed integer yields.
pub open spec fn spec_take_i64(data: Seq<u8>, pos: int) -> Result<
    (i64, int),
    ClassReaderErrorView,
> {
    match spec_read_i64(data, pos) {
        Ok(r) => Ok(r),
        Err(e) => Err(spec_buffer_error_view(e)),
    }
}

/// What reading a big-endian 64-bit unsigned integer yields.
pub open spec fn spec_take_u64(data: Seq<u8>, pos: int) -> Result<
    (u64, int),
    ClassReaderErrorView,
> {
    match spec_read_u64(data, pos) {
        Ok(r) => Ok(r),
        Err(e) => Err(spec_buffer_error_view(e)),
    }
}

/// What reading a raw byte span yields.
pub open spec fn spec_take_bytes(data: Seq<u8>, pos: int, len: int) -> Result<
    (Seq<u8>, int),
    ClassReaderErrorView,
> {
    match spec_read_bytes(data, pos, len) {
        Ok(r) => Ok(r),
        Err(e) => Err(spec_buffer_error_view(e)),
    }
}

/// What reading a modified-UTF-8 text span yields.
pub open spec fn spec_take_utf8(data: Seq<u8>, pos: int, len: int) -> Result<
    (Seq<char>, int),
    ClassReaderErrorView,
> {
    match spec_read_utf8(data, pos, len) {
        Ok(r) => Ok(r),
        Err(e) => Err(spec_buffer_error_view(e)),
    }
}

/// What checking the magic number yields: the fixed four-byte constant, or
/// the invalid-magic-number error for any other bytes.
pub open spec fn spec_check_magic_number(data: Seq<u8>, pos: int) -> Result<
    int,
    ClassReaderErrorView,
> {
    match spec_take_u32(data, pos) {
        Err(e) => Err(e),
        Ok((v, p)) => if v == 0xCAFEBABEu32 {
            Ok(p)
        } else {
            Err(
                ClassReaderErrorView::InvalidClassData {
                    message: "invalid magic number"@,
                    index: None,
                },
            )
        },
    }
}

/// What reading the version pair yields: minor then major, validated
/// against the supported range, with both numbers kept in the distinct
/// unsupported-version error otherwise.
pub open spec fn spec_read_version(data: Seq<u8>, pos: int) -> Result<
    (ClassFileVersion, int),
    ClassReaderErrorView,
> {
    match spec_take_u16(data, pos) {
        Err(e) => Err(e),
        Ok((minor, p1)) => match spec_take_u16(data, p1) {
            Err(e) => Err(e),
            Ok((major, p2)) => if spec_version_supported(major, minor) {
                Ok((ClassFileVersion { major, minor }, p2))
            } else {
                Err(ClassReaderErrorView::UnsupportedVersion { major, minor })
            },
        },
    }
}

/// The failure of an unknown constant-pool tag: it names the tag value and
/// the 1-based pool index of the offending entry.
pub open spec fn spec_unknown_tag_error(tag: u8, entry_index: nat) -> ClassReaderErrorView {
    ClassReaderErrorView::InvalidClassData {
        message: "unknown constant pool tag 0x"@ + spec_hex_nat(tag as nat, 2) + " at entry "@
            + spec_dec_nat(entry_index),
        index: None,
    }
}

/// What decoding one tagged constant (after its tag byte) yields;
/// `entry_index` is the 1-based pool index the entry will occupy, kept in
/// the failure for an unknown tag.
pub open spec fn spec_read_constant_entry(
    data: Seq<u8>,
    pos: int,
    tag: u8,
    entry_index: nat,
) -> Result<(ConstantPoolEntryView, int), ClassReaderErrorView> {
    if tag == 1 {
        match spec_take_u16(data, pos) {
            Err(e) => Err(e),
            Ok((len, p1)) => match spec_take_utf8(data, p1, len as int) {
                Err(e) => Err(e),
                Ok((s, p2)) => Ok((ConstantPoolEntryView::Utf8(s), p2)),
            },
        }
    } else if tag == 3 {
        match spec_take_i32(data, pos) {
            Err(e) => Err(e),
            Ok((v, p)) => Ok((ConstantPoolEntryView::Integer(v), p)),
        }
    } else if tag == 4 {
        match spec_take_u32(data, pos) {
            Err(e) => Err(e),
            Ok((v, p)) => Ok((ConstantPoolEntryView::Float(v), p)),
        }
    } else if tag == 5 {
        match spec_take_i64(data, pos) {
            Err(e) => Err(e),
            Ok((v, p)) => Ok((ConstantPoolEntryView::Long(v), p)),
        }
    } else if tag == 6 {
        match spec_take_u64(data, pos) {
            Err(e) => Err(e),
            Ok((v, p)) => Ok((ConstantPoolEntryView::Double(v), p)),
        }
    } else if tag == 7 {
        match spec_take_u16(data, pos) {
            Err(e) => Err(e),
            Ok((v, p)) => Ok((ConstantPoolEntryView::ClassReference(v), p)),
        }
    } else if tag == 8 {
        match spec_take_u16(data, pos) {
            Err(e) => Err(e),
            Ok((v, p)) => Ok((ConstantPoolEntryView::StringReference(v), p)),
        }
    } else if tag == 9 {
        match spec_take_u16(data, pos) {
            Err(e) => Err(e),
            Ok((a, p1)) => match spec_take_u16(data, p1) {
                Err(e) => Err(e),
                Ok((b, p2)) => Ok((ConstantPoolEntryView::FieldReference(a, b), p2)),
            },
        }
    } else if tag == 10 {
        match spec_take_u16(data, pos) {
            Err(e) => Err(e),
            Ok((a, p1)) => match spec_take_u16(data, p1) {
                Err(e) => Err(e),
                Ok((b, p2)) => Ok((ConstantPoolEntryView::MethodReference(a, b), p2)),
            },
        }
    } else if tag == 11 {
        match spec_take_u16(data, pos) {
            Err(e) => Err(e),
            Ok((a, p1)) => match spec_take_u16(data, p1) {
                Err(e) => Err(e),
                Ok((b, p2)) => Ok((ConstantPoolEntryView::InterfaceMethodReference(a, b), p2)),
            },
        }
    } else if tag == 12 {
        match spec_take_u16(data, pos) {
            Err(e) => Err(e),
            Ok((a, p1)) => match spec_take_u16(data, p1) {
                Err(e) => Err(e),
                Ok((b, p2)) => Ok((ConstantPoolEntryView::NameAndTypeDescriptor(a, b), p2)),
            },
        }
    } else {
        Err(spec_unknown_tag_error(tag, entry_index))
    }
}

/// What decoding `remaining` logical constant-pool entries yields: the
/// physical slots, a wide entry claiming two logical slots and leaving a
/// tombstone behind it. `entry_index` is the 1-based pool index of the next
/// entry; an unknown tag fails immediately, naming that index and the tag.
pub open spec fn spec_read_constants(
    data: Seq<u8>,
    pos: int,
    remaining: nat,
    entry_index: nat,
) -> Result<(Seq<PhysicalEntryView>, int), ClassReaderErrorView>
    decreases remaining,
{
    if remaining == 0 {
        Ok((Seq::empty(), pos))
    } else {
        match spec_take_u8(data, pos) {
            Err(e) => Err(e),
            Ok((tag, p1)) => match spec_read_constant_entry(data, p1, tag, entry_index) {
                Err(e) => Err(e),
                Ok((entry, p2)) => {
                    let used: nat = if entry_is_wide(entry) && remaining >= 2 {
                        2
                    } else {
                        1
                    };
                    let slots: nat = if entry_is_wide(entry) {
                        2
                    } else {
                        1
                    };
                    match spec_read_constants(data, p2, (remaining - used) as nat, entry_index + slots) {
                        Err(e) => Err(e),
                        Ok((rest, p3)) => Ok(
                            (
                                (if entry_is_wide(entry) {
                                    seq![
                                        PhysicalEntryView::Entry(entry),
                                        PhysicalEntryView::Tombstone,
                                    ]
                                } else {
                                    seq![PhysicalEntryView::Entry(entry)]
                                }) + rest,
                                p3,
                            ),
                        ),
                    }
                },
            },
        }
    }
}

/// What loading the whole constant pool yields: the declared count is one
/// more than the number of logical entries to decode; a declared count of
/// zero is malformed.
pub open spec fn spec_read_constants_all(data: Seq<u8>, pos: int) -> Result<
    (Seq<PhysicalEntryView>, int),
    ClassReaderErrorView,
> {
    match spec_take_u16(data, pos) {
        Err(e) => Err(e),
        Ok((count, p)) => if count == 0 {
            Err(
                ClassReaderErrorView::InvalidClassData {
                    message: "invalid constant pool count"@,
                    index: None,
                },
            )
        } else {
            spec_read_constants(data, p, (count - 1) as nat, 1)
        },
    }
}

/// What resolving a pool index to text yields, with the lookup failure
/// translated to the public taxonomy.
pub open spec fn spec_string_reference(pool: Seq<PhysicalEntryView>, index: u16) -> Result<
    Seq<char>,
    ClassReaderErrorView,
> {
    match spec_text_of(pool, index, pool.len() as nat) {
        Ok(s) => Ok(s),
        Err(i) => Err(spec_index_error_view(i)),
    }
}

/// What reading a mandatory class reference yields: a pool index resolved
/// to text.
pub open spec fn spec_read_class_reference(
    data: Seq<u8>,
    pos: int,
    pool: Seq<PhysicalEntryView>,
) -> Result<(Seq<char>, int), ClassReaderErrorView> {
    match spec_take_u16(data, pos) {
        Err(e) => Err(e),
        Ok((index, p)) => match spec_string_reference(pool, index) {
            Err(e) => Err(e),
            Ok(s) => Ok((s, p)),
        },
    }
}

/// What reading an optional class reference yields: index zero means none.
pub open spec fn spec_read_class_reference_optional(
    data: Seq<u8>,
    pos: int,
    pool: Seq<PhysicalEntryView>,
) -> Result<(Option<Seq<char>>, int), ClassReaderErrorView> {
    match spec_take_u16(data, pos) {
        Err(e) => Err(e),
        Ok((index, p)) => if index == 0 {
            Ok((None, p))
        } else {
            match spec_string_reference(pool, index) {
                Err(e) => Err(e),
                Ok(s) => Ok((Some(s), p)),
            }
        },
    }
}

/// What reading `n` interface references yields, in order.
pub open spec fn spec_read_interfaces_n(
    data: Seq<u8>,
    pos: int,
    pool: Seq<PhysicalEntryView>,
    n: nat,
) -> Result<(Seq<Seq<char>>, int), ClassReaderErrorView>
    decreases n,
{
    if n == 0 {
        Ok((Seq::empty(), pos))
    } else {
        match spec_read_class_reference(data, pos, pool) {
            Err(e) => Err(e),
            Ok((s, p1)) => match spec_read_interfaces_n(data, p1, pool, (n - 1) as nat) {
                Err(e) => Err(e),
                Ok((rest, p2)) => Ok((seq![s] + rest, p2)),
            },
        }
    }
}

/// What reading the interface list yields: a count, then that many
/// mandatory class references.
pub open spec fn spec_read_interfaces(
    data: Seq<u8>,
    pos: int,
    pool: Seq<PhysicalEntryView>,
) -> Result<(Seq<Seq<char>>, int), ClassReaderErrorView> {
    match spec_take_u16(data, pos) {
        Err(e) => Err(e),
        Ok((count, p)) => spec_read_interfaces_n(data, p, pool, count as nat),
    }
}

/// What reading one generic attribute yields: a name resolved through the
/// pool, and its opaque payload bytes.
pub open spec fn spec_read_raw_attribute(
    data: Seq<u8>,
    pos: int,
    pool: Seq<PhysicalEntryView>,
) -> Result<(AttributeView, int), ClassReaderErrorView> {
    match spec_take_u16(data, pos) {
        Err(e) => Err(e),
        Ok((name_index, p1)) => match spec_string_reference(pool, name_index) {
            Err(e) => Err(e),
            Ok(name) => match spec_take_u32(data, p1) {
                Err(e) => Err(e),
                Ok((len, p2)) => match spec_take_bytes(data, p2, len as int) {
                    Err(e) => Err(e),
                    Ok((bytes, p3)) => Ok((AttributeView { name, bytes }, p3)),
                },
            },
        },
    }
}

/// What reading `n` generic attributes yields, in order.
pub open spec fn spec_read_raw_attributes_n(
    data: Seq<u8>,
    pos: int,
    pool: Seq<PhysicalEntryView>,
    n: nat,
) -> Result<(Seq<AttributeView>, int), ClassReaderErrorView>
    decreases n,
{
    if n == 0 {
        Ok((Seq::empty(), pos))
    } else {
        match spec_read_raw_attribute(data, pos, pool) {
            Err(e) => Err(e),
            Ok((attr, p1)) => match spec_read_raw_attributes_n(data, p1, pool, (n - 1) as nat) {
                Err(e) => Err(e),
                Ok((rest, p2)) => Ok((seq![attr] + rest, p2)),
            },
        }
    }
}

/// What reading an attribute list yields: a count, then that many generic
/// attributes.
pub open spec fn spec_read_raw_attributes(
    data: Seq<u8>,
    pos: int,
    pool: Seq<PhysicalEntryView>,
) -> Result<(Seq<AttributeView>, int), ClassReaderErrorView> {
    match spec_take_u16(data, pos) {
        Err(e) => Err(e),
        Ok((count, p)) => spec_read_raw_attributes_n(data, p, pool, count as nat),
    }
}

/// The first attribute with the given name, if any.
pub open spec fn spec_find_attribute(attrs: Seq<AttributeView>, name: Seq<char>) -> Option<
    AttributeView,
>
    decreases attrs.len(),
{
    if attrs.len() == 0 {
        None
    } else if attrs[0].name == name {
        Some(attrs[0])
    } else {
        spec_find_attribute(attrs.drop_first(), name)
    }
}

/// Whether a deprecation attribute is present, by name, regardless of its
/// payload.
pub open spec fn spec_search_deprecated(attrs: Seq<AttributeView>) -> bool {
    exists|i: int| 0 <= i < attrs.len() && (#[trigger] attrs[i]).name == "Deprecated"@
}

/// What extracting a field's constant value yields: the first constant-value
/// attribute, whose payload must be exactly one pool index, resolved to an
/// int, float, long, double or string constant; any other resolved kind or a
/// wrong payload length is fatal.
pub open spec fn spec_extract_constant_value(
    attrs: Seq<AttributeView>,
    pool: Seq<PhysicalEntryView>,
) -> Result<Option<FieldConstantValueView>, ClassReaderErrorView> {
    match spec_find_attribute(attrs, "ConstantValue"@) {
        None => Ok(None),
        Some(attr) => {
            if attr.bytes.len() != 2 {
                Err(
                    ClassReaderErrorView::InvalidClassData {
                        message: "invalid attribute of type ConstantValue"@,
                        index: None,
                    },
                )
            } else {
                let index = spec_be_u16_of(attr.bytes[0], attr.bytes[1]);
                match crate::constant_pool::spec_get(pool, index) {
                    Err(i) => Err(spec_index_error_view(i)),
                    Ok(entry) => match entry {
                        ConstantPoolEntryView::StringReference(v) => {
                            match spec_string_reference(pool, v) {
                                Err(e) => Err(e),
                                Ok(s) => Ok(Some(FieldConstantValueView::String(s))),
                            }
                        },
                        ConstantPoolEntryView::Integer(v) => Ok(
                            Some(FieldConstantValueView::Int(v)),
                        ),
                        ConstantPoolEntryView::Float(v) => Ok(
                            Some(FieldConstantValueView::Float(v)),
                        ),
                        ConstantPoolEntryView::Long(v) => Ok(Some(FieldConstantValueView::Long(v))),
                        ConstantPoolEntryView::Double(v) => Ok(
                            Some(FieldConstantValueView::Double(v)),
                        ),
                        _ => Err(
                            ClassReaderErrorView::InvalidClassData {
                                message: "invalid type for ConstantValue"@,
                                index: None,
                            },
                        ),
                    },
                }
            }
        },
    }
}

/// The value of two payload bytes read as a big-endian 16-bit index.
pub open spec fn spec_be_u16_of(b0: u8, b1: u8) -> u16 {
    crate::buffer::spec_be_u16(b0, b1) as u16
}

/// What reading one field yields: validated flags, a name and a descriptor
/// resolved through the pool, the descriptor parsed into its type tree, then
/// the attributes from which the constant value and the deprecation mark are
/// extracted.
pub open spec fn spec_read_field(data: Seq<u8>, pos: int, pool: Seq<PhysicalEntryView>) -> Result<
    (ClassFileFieldView, int),
    ClassReaderErrorView,
> {
    match spec_take_u16(data, pos) {
        Err(e) => Err(e),
        Ok((flag_bits, p1)) => {
            if !FieldFlags::spec_valid_bits(flag_bits) {
                Err(
                    ClassReaderErrorView::InvalidClassData {
                        message: "invalid field flags: 0x"@ + spec_hex_nat(flag_bits as nat, 4),
                        index: None,
                    },
                )
            } else {
                match spec_take_u16(data, p1) {
                    Err(e) => Err(e),
                    Ok((name_index, p2)) => match spec_string_reference(pool, name_index) {
                        Err(e) => Err(e),
                        Ok(name) => match spec_take_u16(data, p2) {
                            Err(e) => Err(e),
                            Ok((type_index, p3)) => match spec_string_reference(pool, type_index) {
                                Err(e) => Err(e),
                                Ok(descriptor) => match spec_parse_field_descriptor(descriptor) {
                                    None => Err(
                                        ClassReaderErrorView::InvalidTypeDescriptor { descriptor },
                                    ),
                                    Some(type_descriptor) => {
                                        match spec_read_raw_attributes(data, p3, pool) {
                                            Err(e) => Err(e),
                                            Ok((attrs, p4)) => {
                                                match spec_extract_constant_value(attrs, pool) {
                                                    Err(e) => Err(e),
                                                    Ok(constant_value) => Ok(
                                                        (
                                                            ClassFileFieldView {
                                                                flags: FieldFlags {
                                                                    bits: flag_bits,
                                                                },
                                                                name,
                                                                type_descriptor,
                                                                constant_value,
                                                                deprecated: spec_search_deprecated(
                                                                    attrs,
                                                                ),
                                                            },
                                                            p4,
                                                        ),
                                                    ),
                                                }
                                            },
                                        }
                                    },
                                },
                            },
                        },
                    },
                }
            }
        },
    }
}

/// What reading `n` fields yields, in order.
pub open spec fn spec_read_fields_n(
    data: Seq<u8>,
    pos: int,
    pool: Seq<PhysicalEntryView>,
    n: nat,
) -> Result<(Seq<ClassFileFieldView>, int), ClassReaderErrorView>
    decreases n,
{
    if n == 0 {
        Ok((Seq::empty(), pos))
    } else {
        match spec_read_field(data, pos, pool) {
            Err(e) => Err(e),
            Ok((field, p1)) => match spec_read_fields_n(data, p1, pool, (n - 1) as nat) {
                Err(e) => Err(e),
                Ok((rest, p2)) => Ok((seq![field] + rest, p2)),
            },
        }
    }
}

/// What reading the field list yields: a count, then that many fields.
pub open spec fn spec_read_fields(data: Seq<u8>, pos: int, pool: Seq<PhysicalEntryView>) -> Result<
    (Seq<ClassFileFieldView>, int),
    ClassReaderErrorView,
> {
    match spec_take_u16(data, pos) {
        Err(e) => Err(e),
        Ok((count, p)) => spec_read_fields_n(data, p, pool, count as nat),
    }
}

/// What reading one exception-table entry yields: a half-open program
/// counter range, the handler address, and the catch-class filter, index
/// zero meaning catch-everything.
pub open spec fn spec_read_exception_entry(
    data: Seq<u8>,
    pos: int,
    pool: Seq<PhysicalEntryView>,
) -> Result<(ExceptionTableEntryView, int), ClassReaderErrorView> {
    match spec_take_u16(data, pos) {
        Err(e) => Err(e),
        Ok((start_pc, p1)) => match spec_take_u16(data, p1) {
            Err(e) => Err(e),
            Ok((end_pc, p2)) => match spec_take_u16(data, p2) {
                Err(e) => Err(e),
                Ok((handler_pc, p3)) => match spec_take_u16(data, p3) {
                    Err(e) => Err(e),
                    Ok((catch_index, p4)) => {
                        if catch_index == 0 {
                            Ok(
                                (
                                    ExceptionTableEntryView {
                                        start: ProgramCounter(start_pc),
                                        end: ProgramCounter(end_pc),
                                        handler_pc: ProgramCounter(handler_pc),
                                        catch_class: None,
                                    },
                                    p4,
                                ),
                            )
                        } else {
                            match spec_string_reference(pool, catch_index) {
                                Err(e) => Err(e),
                                Ok(catch_class) => Ok(
                                    (
                                        ExceptionTableEntryView {
                                            start: ProgramCounter(start_pc),
                                            end: ProgramCounter(end_pc),
                                            handler_pc: ProgramCounter(handler_pc),
                                            catch_class: Some(catch_class),
                                        },
                                        p4,
                                    ),
                                ),
                            }
                        }
                    },
                },
            },
        },
    }
}

/// What reading `n` exception-table entries yields, in declaration order.
pub open spec fn spec_read_exception_entries(
    data: Seq<u8>,
    pos: int,
    pool: Seq<PhysicalEntryView>,
    n: nat,
) -> Result<(Seq<ExceptionTableEntryView>, int), ClassReaderErrorView>
    decreases n,
{
    if n == 0 {
        Ok((Seq::empty(), pos))
    } else {
        match spec_read_exception_entry(data, pos, pool) {
            Err(e) => Err(e),
            Ok((entry, p1)) => match spec_read_exception_entries(data, p1, pool, (n - 1) as nat) {
                Err(e) => Err(e),
                Ok((rest, p2)) => Ok((seq![entry] + rest, p2)),
            },
        }
    }
}

/// What reading an exception table yields: a count, then that many entries.
pub open spec fn spec_read_exception_table(
    data: Seq<u8>,
    pos: int,
    pool: Seq<PhysicalEntryView>,
) -> Result<(Seq<ExceptionTableEntryView>, int), ClassReaderErrorView> {
    match spec_take_u16(data, pos) {
        Err(e) => Err(e),
        Ok((count, p)) => spec_read_exception_entries(data, p, pool, count as nat),
    }
}

/// What reading `n` line-number entries yields, in order.
pub open spec fn spec_read_line_number_entries(data: Seq<u8>, pos: int, n: nat) -> Result<
    (Seq<LineNumberTableEntry>, int),
    ClassReaderErrorView,
>
    decreases n,
{
    if n == 0 {
        Ok((Seq::empty(), pos))
    } else {
        match spec_take_u16(data, pos) {
            Err(e) => Err(e),
            Ok((pc, p1)) => match spec_take_u16(data, p1) {
                Err(e) => Err(e),
                Ok((line, p2)) => match spec_read_line_number_entries(data, p2, (n - 1) as nat) {
                    Err(e) => Err(e),
                    Ok((rest, p3)) => Ok(
                        (
                            seq![
                                LineNumberTableEntry {
                                    program_counter: ProgramCounter(pc),
                                    line_number: LineNumber(line),
                                },
                            ] + rest,
                            p3,
                        ),
                    ),
                },
            },
        }
    }
}

/// What extracting the line-number table from a code block's nested
/// attributes yields: absent when no such attribute is present; otherwise
/// its payload is a count followed by that many (program counter, line)
/// pairs.
pub open spec fn spec_extract_line_number_table(attrs: Seq<AttributeView>) -> Result<
    Option<Seq<LineNumberTableEntry>>,
    ClassReaderErrorView,
> {
    match spec_find_attribute(attrs, "LineNumberTable"@) {
        None => Ok(None),
        Some(attr) => match spec_take_u16(attr.bytes, 0) {
            Err(e) => Err(e),
            Ok((count, p)) => match spec_read_line_number_entries(attr.bytes, p, count as nat) {
                Err(e) => Err(e),
                Ok((entries, _)) => Ok(Some(entries)),
            },
        },
    }
}

/// What reading `n` thrown-exception class names yields, in order.
pub open spec fn spec_read_thrown_exceptions_n(
    data: Seq<u8>,
    pos: int,
    pool: Seq<PhysicalEntryView>,
    n: nat,
) -> Result<(Seq<Seq<char>>, int), ClassReaderErrorView>
    decreases n,
{
    if n == 0 {
        Ok((Seq::empty(), pos))
    } else {
        match spec_take_u16(data, pos) {
            Err(e) => Err(e),
            Ok((index, p1)) => match spec_string_reference(pool, index) {
                Err(e) => Err(e),
                Ok(name) => match spec_read_thrown_exceptions_n(data, p1, pool, (n - 1) as nat) {
                    Err(e) => Err(e),
                    Ok((rest, p2)) => Ok((seq![name] + rest, p2)),
                },
            },
        }
    }
}

/// What extracting a method's thrown exceptions yields: the empty list when
/// the attribute is absent; otherwise its payload is a count followed by
/// that many pool indices, each resolved to a class name.
pub open spec fn spec_extract_thrown_exceptions(
    attrs: Seq<AttributeView>,
    pool: Seq<PhysicalEntryView>,
) -> Result<Seq<Seq<char>>, ClassReaderErrorView> {
    match spec_find_attribute(attrs, "Exceptions"@) {
        None => Ok(Seq::empty()),
        Some(attr) => match spec_take_u16(attr.bytes, 0) {
            Err(e) => Err(e),
            Ok((count, p)) => match spec_read_thrown_exceptions_n(
                attr.bytes,
                p,
                pool,
                count as nat,
            ) {
                Err(e) => Err(e),
                Ok((names, _)) => Ok(names),
            },
        },
    }
}

/// What decoding a code attribute's payload yields: stack and locals sizes,
/// the raw instruction bytes, the exception table, and the nested attributes
/// from which the line-number table is extracted.
pub open spec fn spec_parse_code_payload(
    payload: Seq<u8>,
    pool: Seq<PhysicalEntryView>,
) -> Result<ClassFileMethodCodeView, ClassReaderErrorView> {
    match spec_take_u16(payload, 0) {
        Err(e) => Err(e),
        Ok((max_stack, p1)) => match spec_take_u16(payload, p1) {
            Err(e) => Err(e),
            Ok((max_locals, p2)) => match spec_take_u32(payload, p2) {
                Err(e) => Err(e),
                Ok((code_length, p3)) => match spec_take_bytes(payload, p3, code_length as int) {
                    Err(e) => Err(e),
                    Ok((code, p4)) => match spec_read_exception_table(payload, p4, pool) {
                        Err(e) => Err(e),
                        Ok((exception_table, p5)) => {
                            match spec_read_raw_attributes(payload, p5, pool) {
                                Err(e) => Err(e),
                                Ok((attributes, _)) => {
                                    match spec_extract_line_number_table(attributes) {
                                        Err(e) => Err(e),
                                        Ok(line_number_table) => Ok(
                                            ClassFileMethodCodeView {
                                                max_stack,
                                                max_locals,
                                                code,
                                                exception_table,
                                                line_number_table,
                                                attributes,
                                            },
                                        ),
                                    }
                                },
                            }
                        },
                    },
                },
            },
        },
    }
}

/// What extracting a method's code block yields: the code attribute's
/// decoded payload; its absence is a fatal error naming the method.
pub open spec fn spec_extract_code(
    attrs: Seq<AttributeView>,
    pool: Seq<PhysicalEntryView>,
    method_name: Seq<char>,
) -> Result<ClassFileMethodCodeView, ClassReaderErrorView> {
    match spec_find_attribute(attrs, "Code"@) {
        None => Err(
            ClassReaderErrorView::InvalidClassData {
                message: "method "@ + method_name + " is missing code attribute"@,
                index: None,
            },
        ),
        Some(attr) => spec_parse_code_payload(attr.bytes, pool),
    }
}

/// What reading one method yields: validated flags, a name and a descriptor
/// resolved through the pool, the parsed descriptor, the attributes, a code
/// block exactly when the method is neither native nor abstract, the
/// deprecation mark, and the thrown exceptions.
pub open spec fn spec_read_method(data: Seq<u8>, pos: int, pool: Seq<PhysicalEntryView>) -> Result<
    (ClassFileMethodView, int),
    ClassReaderErrorView,
> {
    match spec_take_u16(data, pos) {
        Err(e) => Err(e),
        Ok((flag_bits, p1)) => {
            if !MethodFlags::spec_valid_bits(flag_bits) {
                Err(
                    ClassReaderErrorView::InvalidClassData {
                        message: "invalid method flags: 0x"@ + spec_hex_nat(flag_bits as nat, 4),
                        index: None,
                    },
                )
            } else {
                match spec_take_u16(data, p1) {
                    Err(e) => Err(e),
                    Ok((name_index, p2)) => match spec_string_reference(pool, name_index) {
                        Err(e) => Err(e),
                        Ok(name) => match spec_take_u16(data, p2) {
                            Err(e) => Err(e),
                            Ok((type_index, p3)) => match spec_string_reference(pool, type_index) {
                                Err(e) => Err(e),
                                Ok(descriptor) => match spec_parse_method_descriptor(descriptor) {
                                    None => Err(
                                        ClassReaderErrorView::InvalidTypeDescriptor { descriptor },
                                    ),
                                    Some(parsed) => match spec_read_raw_attributes(data, p3, pool) {
                                        Err(e) => Err(e),
                                        Ok((attrs, p4)) => {
                                            let flags = MethodFlags { bits: flag_bits };
                                            let code_result = if flags.spec_is_native_or_abstract() {
                                                Ok(None)
                                            } else {
                                                match spec_extract_code(attrs, pool, name) {
                                                    Err(e) => Err(e),
                                                    Ok(c) => Ok(Some(c)),
                                                }
                                            };
                                            match code_result {
                                                Err(e) => Err(e),
                                                Ok(code) => {
                                                    match spec_extract_thrown_exceptions(
                                                        attrs,
                                                        pool,
                                                    ) {
                                                        Err(e) => Err(e),
                                                        Ok(thrown_exceptions) => Ok(
                                                            (
                                                                ClassFileMethodView {
                                                                    flags,
                                                                    name,
                                                                    type_descriptor: descriptor,
                                                                    parsed_type_descriptor: parsed,
                                                                    attributes: attrs,
                                                                    code,
                                                                    deprecated:
                                                                        spec_search_deprecated(
                                                                        attrs,
                                                                    ),
                                                                    thrown_exceptions,
                                                                },
                                                                p4,
                                                            ),
                                                        ),
                                                    }
                                                },
                                            }
                                        },
                                    },
                                },
                            },
                        },
                    },
                }
            }
        },
    }
}

/// What reading `n` methods yields, in order.
pub open spec fn spec_read_methods_n(
    data: Seq<u8>,
    pos: int,
    pool: Seq<PhysicalEntryView>,
    n: nat,
) -> Result<(Seq<ClassFileMethodView>, int), ClassReaderErrorView>
    decreases n,
{
    if n == 0 {
        Ok((Seq::empty(), pos))
    } else {
        match spec_read_method(data, pos, pool) {
            Err(e) => Err(e),
            Ok((method, p1)) => match spec_read_methods_n(data, p1, pool, (n - 1) as nat) {
                Err(e) => Err(e),
                Ok((rest, p2)) => Ok((seq![method] + rest, p2)),
            },
        }
    }
}

/// What reading the method list yields: a count, then that many methods.
pub open spec fn spec_read_methods(data: Seq<u8>, pos: int, pool: Seq<PhysicalEntryView>) -> Result<
    (Seq<ClassFileMethodView>, int),
    ClassReaderErrorView,
> {
    match spec_take_u16(data, pos) {
        Err(e) => Err(e),
        Ok((count, p)) => spec_read_methods_n(data, p, pool, count as nat),
    }
}

/// What searching the class attributes for a source-file name yields:
/// absent when no such attribute is present; otherwise its payload must be
/// one pool index resolved to UTF8 text, and any other payload shape or
/// resolved kind is fatal.
pub open spec fn spec_search_source_file(
    attrs: Seq<AttributeView>,
    pool: Seq<PhysicalEntryView>,
) -> Result<Option<Seq<char>>, ClassReaderErrorView> {
    match spec_find_attribute(attrs, "SourceFile"@) {
        None => Ok(None),
        Some(attr) => {
            if attr.bytes.len() != 2 {
                Err(
                    ClassReaderErrorView::InvalidClassData {
                        message: "invalid SourceFile attribute"@,
                        index: None,
                    },
                )
            } else {
                match crate::constant_pool::spec_get(
                    pool,
                    spec_be_u16_of(attr.bytes[0], attr.bytes[1]),
                ) {
                    Err(i) => Err(spec_index_error_view(i)),
                    Ok(entry) => match entry {
                        ConstantPoolEntryView::Utf8(s) => Ok(Some(s)),
                        _ => Err(
                            ClassReaderErrorView::InvalidClassData {
                                message: "invalid SourceFile attribute"@,
                                index: None,
                            },
                        ),
                    },
                }
            }
        },
    }
}

/// What decoding a whole class file yields: the linear sequence of magic
/// check, version, constant pool, access flags, name and superclass,
/// interfaces, fields, methods, and class attributes. The first structural
/// error aborts the whole read; no partial model is ever produced.
pub open spec fn spec_read_class_file(data: Seq<u8>) -> Result<ClassFileView, ClassReaderErrorView> {
    match spec_check_magic_number(data, 0) {
        Err(e) => Err(e),
        Ok(p1) => match spec_read_version(data, p1) {
            Err(e) => Err(e),
            Ok((version, p2)) => match spec_read_constants_all(data, p2) {
                Err(e) => Err(e),
                Ok((pool, p3)) => match spec_take_u16(data, p3) {
                    Err(e) => Err(e),
                    Ok((flag_bits, p4)) => {
                        if !ClassAccessFlags::spec_valid_bits(flag_bits) {
                            Err(
                                ClassReaderErrorView::InvalidClassData {
                                    message: "invalid class flags: 0x"@ + spec_hex_nat(
                                        flag_bits as nat,
                                        4,
                                    ),
                                    index: None,
                                },
                            )
                        } else {
                            match spec_read_class_reference(data, p4, pool) {
                                Err(e) => Err(e),
                                Ok((name, p5)) => {
                                    match spec_read_class_reference_optional(data, p5, pool) {
                                        Err(e) => Err(e),
                                        Ok((superclass, p6)) => {
                                            match spec_read_interfaces(data, p6, pool) {
                                                Err(e) => Err(e),
                                                Ok((interfaces, p7)) => {
                                                    match spec_read_fields(data, p7, pool) {
                                                        Err(e) => Err(e),
                                                        Ok((fields, p8)) => {
                                                            match spec_read_methods(
                                                                data,
                                                                p8,
                                                                pool,
                                                            ) {
                                                                Err(e) => Err(e),
                                                                Ok((methods, p9)) => {
                                                                    match spec_read_raw_attributes(
                                                                        data,
                                                                        p9,
                                                                        pool,
                                                                    ) {
                                                                        Err(e) => Err(e),
                                                                        Ok((attrs, _)) => {
                                                                            match spec_search_source_file(
                                                                                attrs,
                                                                                pool,
                                                                            ) {
                                                                                Err(e) => Err(e),
                                                                                Ok(source_file) => Ok(
                                                                                    ClassFileView {
                                                                                        version,
                                                                                        constants: pool,
                                                                                        flags: ClassAccessFlags {
                                                                                            bits: flag_bits,
                                                                                        },
                                                                                        name,
                                                                                        superclass,
                                                                                        interfaces,
                                                                                        fields,
                                                                                        methods,
                                                                                        deprecated: spec_search_deprecated(
                                                                                            attrs,
                                                                                        ),
                                                                                        source_file,
                                                                                    },
                                                                                ),
                                                                            }
                                                                        },
                                                                    }
                                                                },
                                                            }
                                                        },
                                                    }
                                                },
                                            }
                                        },
                                    }
                                },
                            }
                        }
                    },
                },
            },
        },
    }
}

/// Compares a string against a literal by character content.
fn string_equals(a: &String, b: &str) -> (r: bool)
    ensures
        r == (a@ == b@),
{
    let owned: String = b.to_owned();
    a.eq(&owned)
}

/// The first attribute with the given name, if any.
#[verifier::loop_isolation(false)]
fn find_attribute<'a>(attributes: &'a Vec<Attribute>, name: &str) -> (r: Option<&'a Attribute>)
    ensures
        match spec_find_attribute(attributes.deep_view(), name@) {
            Some(attr) => r matches Some(found) && found@ == attr,
            None => r is None,
        },
{
    let mut i: usize = 0;
    proof {
        assert(attributes.deep_view().skip(0) =~= attributes.deep_view());
    }
    while i < attributes.len()
        invariant
            i <= attributes.len(),
            spec_find_attribute(attributes.deep_view(), name@) == spec_find_attribute(
                attributes.deep_view().skip(i as int),
                name@,
            ),
        decreases attributes.len() - i,
    {
        if string_equals(&attributes[i].name, name) {
            proof {
                assert(attributes.deep_view().skip(i as int)[0] == attributes.deep_view()[i as int]);
            }
            return Some(&attributes[i]);
        }
        proof {
            assert(attributes.deep_view().skip(i as int)[0] == attributes.deep_view()[i as int]);
            assert(attributes.deep_view().skip(i as int).drop_first() =~= attributes.deep_view()
                .skip(i + 1));
        }
        i = i + 1;
    }
    proof {
        assert(attributes.deep_view().skip(attributes.len() as int) =~= Seq::<
            AttributeView,
        >::empty());
    }
    None
}

/// Whether a deprecation attribute is present.
#[verifier::loop_isolation(false)]
fn search_deprecated_attribute(attributes: &Vec<Attribute>) -> (r: bool)
    ensures
        r == spec_search_deprecated(attributes.deep_view()),
{
    let mut i: usize = 0;
    while i < attributes.len()
        invariant
            i <= attributes.len(),
            forall|k: int|
                0 <= k < i ==> (#[trigger] attributes.deep_view()[k]).name != "Deprecated"@,
        decreases attributes.len() - i,
    {
        if string_equals(&attributes[i].name, "Deprecated") {
            proof {
                assert(attributes.deep_view()[i as int].name == "Deprecated"@);
                assert(spec_search_deprecated(attributes.deep_view()));
            }
            return true;
        }
        i = i + 1;
    }
    false
}

/// A reader of a byte buffer representing a class. Supports a historical
/// subset of the class-file format; in particular it does not support
/// generics.
struct ClassFileReader {
    buffer: Buffer,
}

impl ClassFileReader {
    fn new(data: &[u8]) -> (r: ClassFileReader)
        ensures
            r.buffer.data@ == data@,
            r.buffer.pos == 0,
            r.buffer.wf(),
    {
        ClassFileReader { buffer: Buffer::new(slice_to_vec(data)) }
    }

    fn take_u8(&mut self) -> (r: Result<u8, ClassReaderError>)
        requires
            old(self).buffer.wf(),
        ensures
            final(self).buffer.data == old(self).buffer.data,
            final(self).buffer.wf(),
            match spec_take_u8(old(self).buffer.data@, old(self).buffer.pos as int) {
                Ok((v, p)) => r == Ok::<u8, ClassReaderError>(v) && final(self).buffer.pos == p,
                Err(e) => r matches Err(err) && err@ == e,
            },
    {
        match self.buffer.read_u8() {
            Ok(v) => Ok(v),
            Err(e) => Err(ClassReaderError::from_buffer_error(e)),
        }
    }

    fn take_u16(&mut self) -> (r: Result<u16, ClassReaderError>)
        requires
            old(self).buffer.wf(),
        ensures
            final(self).buffer.data == old(self).buffer.data,
            final(self).buffer.wf(),
            match spec_take_u16(old(self).buffer.data@, old(self).buffer.pos as int) {
                Ok((v, p)) => r == Ok::<u16, ClassReaderError>(v) && final(self).buffer.pos == p,
                Err(e) => r matches Err(err) && err@ == e,
            },
    {
        match self.buffer.read_u16() {
            Ok(v) => Ok(v),
            Err(e) => Err(ClassReaderError::from_buffer_error(e)),
        }
    }

    fn take_u32(&mut self) -> (r: Result<u32, ClassReaderError>)
        requires
            old(self).buffer.wf(),
        ensures
            final(self).buffer.data == old(self).buffer.data,
            final(self).buffer.wf(),
            match spec_take_u32(old(self).buffer.data@, old(self).buffer.pos as int) {
                Ok((v, p)) => r == Ok::<u32, ClassReaderError>(v) && final(self).buffer.pos == p,
                Err(e) => r matches Err(err) && err@ == e,
            },
    {
        match self.buffer.read_u32() {
            Ok(v) => Ok(v),
            Err(e) => Err(ClassReaderError::from_buffer_error(e)),
        }
    }

    /// Verifies the fixed four-byte magic number; a mismatch is fatal with
    /// the invalid-magic-number message and no other error kind.
    fn check_magic_number(&mut self) -> (r: Result<(), ClassReaderError>)
        requires
            old(self).buffer.wf(),
        ensures
            final(self).buffer.data == old(self).buffer.data,
            final(self).buffer.wf(),
            match spec_check_magic_number(old(self).buffer.data@, old(self).buffer.pos as int) {
                Ok(p) => r is Ok && final(self).buffer.pos == p,
                Err(e) => r matches Err(err) && err@ == e,
            },
    {
        match self.take_u32() {
            Ok(v) => {
                if v == 0xCAFEBABE {
                    Ok(())
                } else {
                    Err(
                        ClassReaderError::invalid_class_data(
                            String::from_str("invalid magic number"),
                        ),
                    )
                }
            },
            Err(e) => Err(e),
        }
    }

    /// Reads and validates the version pair.
    fn read_version(&mut self) -> (r: Result<ClassFileVersion, ClassReaderError>)
        requires
            old(self).buffer.wf(),
        ensures
            final(self).buffer.data == old(self).buffer.data,
            final(self).buffer.wf(),
            match spec_read_version(old(self).buffer.data@, old(self).buffer.pos as int) {
                Ok((v, p)) => r == Ok::<ClassFileVersion, ClassReaderError>(v) && final(self).buffer.pos == p,
                Err(e) => r matches Err(err) && err@ == e,
            },
    {
        let minor_version = match self.take_u16() {
            Ok(v) => v,
            Err(e) => {
                return Err(e);
            },
        };
        let major_version = match self.take_u16() {
            Ok(v) => v,
            Err(e) => {
                return Err(e);
            },
        };
        ClassFileVersion::from(major_version, minor_version)
    }

    /// Decodes one tagged constant, after its tag byte has been read;
    /// `entry_index` is the 1-based pool index the entry will occupy.
    fn read_constant_entry(&mut self, tag: u8, entry_index: usize) -> (r: Result<
        ConstantPoolEntry,
        ClassReaderError,
    >)
        requires
            old(self).buffer.wf(),
        ensures
            final(self).buffer.data == old(self).buffer.data,
            final(self).buffer.wf(),
            match spec_read_constant_entry(
                old(self).buffer.data@,
                old(self).buffer.pos as int,
                tag,
                entry_index as nat,
            ) {
                Ok((entry, p)) => r matches Ok(en) && en@ == entry && final(self).buffer.pos == p,
                Err(e) => r matches Err(err) && err@ == e,
            },
    {
        if tag == 1 {
            let len = match self.take_u16() {
                Ok(v) => v,
                Err(e) => {
                    return Err(e);
                },
            };
            match self.buffer.read_utf8(len as usize) {
                Ok(s) => Ok(ConstantPoolEntry::Utf8(s)),
                Err(e) => Err(ClassReaderError::from_buffer_error(e)),
            }
        } else if tag == 3 {
            match self.buffer.read_i32() {
                Ok(v) => Ok(ConstantPoolEntry::Integer(v)),
                Err(e) => Err(ClassReaderError::from_buffer_error(e)),
            }
        } else if tag == 4 {
            match self.buffer.read_u32() {
                Ok(v) => Ok(ConstantPoolEntry::Float(v)),
                Err(e) => Err(ClassReaderError::from_buffer_error(e)),
            }
        } else if tag == 5 {
            match self.buffer.read_i64() {
                Ok(v) => Ok(ConstantPoolEntry::Long(v)),
                Err(e) => Err(ClassReaderError::from_buffer_error(e)),
            }
        } else if tag == 6 {
            match self.buffer.read_u64() {
                Ok(v) => Ok(ConstantPoolEntry::Double(v)),
                Err(e) => Err(ClassReaderError::from_buffer_error(e)),
            }
        } else if tag == 7 {
            match self.take_u16() {
                Ok(v) => Ok(ConstantPoolEntry::ClassReference(v)),
                Err(e) => Err(e),
            }
        } else if tag == 8 {
            match self.take_u16() {
                Ok(v) => Ok(ConstantPoolEntry::StringReference(v)),
                Err(e) => Err(e),
            }
        } else if tag == 9 {
            let a = match self.take_u16() {
                Ok(v) => v,
                Err(e) => {
                    return Err(e);
                },
            };
            match self.take_u16() {
                Ok(b) => Ok(ConstantPoolEntry::FieldReference(a, b)),
                Err(e) => Err(e),
            }
        } else if tag == 10 {
            let a = match self.take_u16() {
                Ok(v) => v,
                Err(e) => {
                    return Err(e);
                },
            };
            match self.take_u16() {
                Ok(b) => Ok(ConstantPoolEntry::MethodReference(a, b)),
                Err(e) => Err(e),
            }
        } else if tag == 11 {
            let a = match self.take_u16() {
                Ok(v) => v,
                Err(e) => {
                    return Err(e);
                },
            };
            match self.take_u16() {
                Ok(b) => Ok(ConstantPoolEntry::InterfaceMethodReference(a, b)),
                Err(e) => Err(e),
            }
        } else if tag == 12 {
            let a = match self.take_u16() {
                Ok(v) => v,
                Err(e) => {
                    return Err(e);
                },
            };
            match self.take_u16() {
                Ok(b) => Ok(ConstantPoolEntry::NameAndTypeDescriptor(a, b)),
                Err(e) => Err(e),
            }
        } else {
            Err(
                ClassReaderError::invalid_class_data(
                    String::from_str("unknown constant pool tag 0x").concat(
                        hex_u64(tag as u64, 2).as_str(),
                    ).concat(" at entry ").concat(dec_u64(entry_index as u64).as_str()),
                ),
            )
        }
    }

    /// Loads the constant pool: a declared count, then that many logical
    /// entries, a long or double claiming two logical slots.
    #[verifier::loop_isolation(false)]
    #[verifier::rlimit(50)]
    fn read_constants(&mut self) -> (r: Result<ConstantPool, ClassReaderError>)
        requires
            old(self).buffer.wf(),
        ensures
            final(self).buffer.data == old(self).buffer.data,
            final(self).buffer.wf(),
            match spec_read_constants_all(old(self).buffer.data@, old(self).buffer.pos as int) {
                Ok((entries, p)) => r matches Ok(pool) && pool@ == entries && final(self).buffer.pos == p,
                Err(e) => r matches Err(err) && err@ == e,
            },
    {
        let count = match self.take_u16() {
            Ok(v) => v,
            Err(e) => {
                return Err(e);
            },
        };
        if count == 0 {
            return Err(
                ClassReaderError::invalid_class_data(
                    String::from_str("invalid constant pool count"),
                ),
            );
        }
        let mut remaining: usize = (count - 1) as usize;
        let mut entry_index: usize = 1;
        let mut pool = ConstantPool::new();
        let ghost data = old(self).buffer.data@;
        while remaining > 0
            invariant
                self.buffer.wf(),
                self.buffer.data == old(self).buffer.data,
                remaining <= count - 1,
                pool@.len() <= 2 * ((count - 1) as int - remaining as int),
                entry_index as int == pool@.len() + 1,
                spec_read_constants(data, old(self).buffer.pos + 2, (count - 1) as nat, 1) == (
                match spec_read_constants(
                    data,
                    self.buffer.pos as int,
                    remaining as nat,
                    entry_index as nat,
                ) {
                    Ok((rest, p)) => Ok::<(Seq<PhysicalEntryView>, int), ClassReaderErrorView>(
                        (pool@ + rest, p),
                    ),
                    Err(e) => Err::<(Seq<PhysicalEntryView>, int), ClassReaderErrorView>(e),
                }),
            decreases remaining,
        {
            let ghost pool_before = pool@;
            let tag = match self.take_u8() {
                Ok(v) => v,
                Err(e) => {
                    return Err(e);
                },
            };
            let entry = match self.read_constant_entry(tag, entry_index) {
                Ok(v) => v,
                Err(e) => {
                    return Err(e);
                },
            };
            let wide = match &entry {
                ConstantPoolEntry::Long(_) => true,
                ConstantPoolEntry::Double(_) => true,
                _ => false,
            };
            let ghost entry_view = entry@;
            pool.add(entry);
            let used: usize = if wide && remaining >= 2 {
                2
            } else {
                1
            };
            remaining = remaining - used;
            entry_index = entry_index + if wide {
                2
            } else {
                1
            };
            proof {
                match spec_read_constants(
                    data,
                    self.buffer.pos as int,
                    remaining as nat,
                    entry_index as nat,
                ) {
                    Ok((rest, p)) => {
                        if wide {
                            assert(pool_before + (seq![
                                PhysicalEntryView::Entry(entry_view),
                                PhysicalEntryView::Tombstone,
                            ] + rest) =~= pool@ + rest);
                        } else {
                            assert(pool_before + (seq![PhysicalEntryView::Entry(entry_view)] + rest)
                                =~= pool@ + rest);
                        }
                    },
                    Err(_) => {},
                }
            }
        }
        proof {
            assert(pool@ + Seq::<PhysicalEntryView>::empty() =~= pool@);
        }
        Ok(pool)
    }

    /// Resolves a pool index to text, translating a lookup failure.
    fn read_string_reference_from(constants_pool: &ConstantPool, index: u16) -> (r: Result<
        String,
        ClassReaderError,
    >)
        ensures
            match spec_string_reference(constants_pool@, index) {
                Ok(s) => r matches Ok(text) && text@ == s,
                Err(e) => r matches Err(err) && err@ == e,
            },
    {
        match constants_pool.text_of(index) {
            Ok(s) => Ok(s),
            Err(e) => Err(ClassReaderError::from_index_error(e)),
        }
    }

    /// Reads a mandatory class reference: a pool index resolved to text.
    fn read_class_reference(&mut self, pool: &ConstantPool) -> (r: Result<String, ClassReaderError>)
        requires
            old(self).buffer.wf(),
        ensures
            final(self).buffer.data == old(self).buffer.data,
            final(self).buffer.wf(),
            match spec_read_class_reference(
                old(self).buffer.data@,
                old(self).buffer.pos as int,
                pool@,
            ) {
                Ok((s, p)) => r matches Ok(text) && text@ == s && final(self).buffer.pos == p,
                Err(e) => r matches Err(err) && err@ == e,
            },
    {
        let class_constant_idx = match self.take_u16() {
            Ok(v) => v,
            Err(e) => {
                return Err(e);
            },
        };
        Self::read_string_reference_from(pool, class_constant_idx)
    }

    /// Reads an optional class reference: index zero means none.
    fn read_class_reference_optional(&mut self, pool: &ConstantPool) -> (r: Result<
        Option<String>,
        ClassReaderError,
    >)
        requires
            old(self).buffer.wf(),
        ensures
            final(self).buffer.data == old(self).buffer.data,
            final(self).buffer.wf(),
            match spec_read_class_reference_optional(
                old(self).buffer.data@,
                old(self).buffer.pos as int,
                pool@,
            ) {
                Ok((s, p)) => r matches Ok(opt) && opt.deep_view() == s && final(self).buffer.pos
                    == p,
                Err(e) => r matches Err(err) && err@ == e,
            },
    {
        let super_constant_idx = match self.take_u16() {
            Ok(v) => v,
            Err(e) => {
                return Err(e);
            },
        };
        if super_constant_idx == 0 {
            Ok(None)
        } else {
            match Self::read_string_reference_from(pool, super_constant_idx) {
                Ok(s) => Ok(Some(s)),
                Err(e) => Err(e),
            }
        }
    }

    /// Reads the interface list: a count, then that many class references.
    #[verifier::loop_isolation(false)]
    fn read_interfaces(&mut self, pool: &ConstantPool) -> (r: Result<Vec<String>, ClassReaderError>)
        requires
            old(self).buffer.wf(),
        ensures
            final(self).buffer.data == old(self).buffer.data,
            final(self).buffer.wf(),
            match spec_read_interfaces(
                old(self).buffer.data@,
                old(self).buffer.pos as int,
                pool@,
            ) {
                Ok((s, p)) => r matches Ok(interfaces) && interfaces.deep_view() == s && final(self).buffer.pos == p,
                Err(e) => r matches Err(err) && err@ == e,
            },
    {
        let ghost data = old(self).buffer.data@;
        let count = match self.take_u16() {
            Ok(v) => v,
            Err(e) => {
                return Err(e);
            },
        };
        let mut interfaces: Vec<String> = Vec::new();
        let mut remaining: usize = count as usize;
        proof {
            assert(interfaces.deep_view() =~= Seq::<Seq<char>>::empty());
        }
        while remaining > 0
            invariant
                self.buffer.wf(),
                self.buffer.data == old(self).buffer.data,
                spec_read_interfaces_n(data, old(self).buffer.pos + 2, pool@, count as nat) == (
                match spec_read_interfaces_n(
                    data,
                    self.buffer.pos as int,
                    pool@,
                    remaining as nat,
                ) {
                    Ok((rest, p)) => Ok::<(Seq<Seq<char>>, int), ClassReaderErrorView>(
                        (interfaces.deep_view() + rest, p),
                    ),
                    Err(e) => Err::<(Seq<Seq<char>>, int), ClassReaderErrorView>(e),
                }),
            decreases remaining,
        {
            let ghost before = interfaces.deep_view();
            let name = match self.read_class_reference(pool) {
                Ok(v) => v,
                Err(e) => {
                    return Err(e);
                },
            };
            let ghost name_view = name@;
            interfaces.push(name);
            remaining = remaining - 1;
            proof {
                assert(interfaces.deep_view() =~= before.push(name_view));
                match spec_read_interfaces_n(data, self.buffer.pos as int, pool@, remaining as nat) {
                    Ok((rest, p)) => {
                        assert(before + (seq![name_view] + rest) =~= interfaces.deep_view() + rest);
                    },
                    Err(_) => {},
                }
            }
        }
        proof {
            assert(interfaces.deep_view() + Seq::<Seq<char>>::empty() =~= interfaces.deep_view());
        }
        Ok(interfaces)
    }

    /// Reads one generic attribute from the given cursor.
    fn read_raw_attribute(constants_pool: &ConstantPool, buffer: &mut Buffer) -> (r: Result<
        Attribute,
        ClassReaderError,
    >)
        requires
            old(buffer).wf(),
        ensures
            final(buffer).data == old(buffer).data,
            final(buffer).wf(),
            match spec_read_raw_attribute(
                old(buffer).data@,
                old(buffer).pos as int,
                constants_pool@,
            ) {
                Ok((attr, p)) => r matches Ok(a) && a@ == attr && final(buffer).pos == p,
                Err(e) => r matches Err(err) && err@ == e,
            },
    {
        let name_constant_index = match buffer.read_u16() {
            Ok(v) => v,
            Err(e) => {
                return Err(ClassReaderError::from_buffer_error(e));
            },
        };
        let name = match Self::read_string_reference_from(constants_pool, name_constant_index) {
            Ok(v) => v,
            Err(e) => {
                return Err(e);
            },
        };
        let len = match buffer.read_u32() {
            Ok(v) => v,
            Err(e) => {
                return Err(ClassReaderError::from_buffer_error(e));
            },
        };
        let bytes = match buffer.read_bytes(len as usize) {
            Ok(v) => v,
            Err(e) => {
                return Err(ClassReaderError::from_buffer_error(e));
            },
        };
        Ok(Attribute { name, bytes })
    }

    /// Reads an attribute list from the given cursor.
    #[verifier::loop_isolation(false)]
    fn read_raw_attributes_from(constants_pool: &ConstantPool, buffer: &mut Buffer) -> (r: Result<
        Vec<Attribute>,
        ClassReaderError,
    >)
        requires
            old(buffer).wf(),
        ensures
            final(buffer).data == old(buffer).data,
            final(buffer).wf(),
            match spec_read_raw_attributes(
                old(buffer).data@,
                old(buffer).pos as int,
                constants_pool@,
            ) {
                Ok((attrs, p)) => r matches Ok(list) && list.deep_view() == attrs && final(buffer).pos == p,
                Err(e) => r matches Err(err) && err@ == e,
            },
    {
        let ghost data = old(buffer).data@;
        let count = match buffer.read_u16() {
            Ok(v) => v,
            Err(e) => {
                return Err(ClassReaderError::from_buffer_error(e));
            },
        };
        let mut attributes: Vec<Attribute> = Vec::new();
        let mut remaining: usize = count as usize;
        proof {
            assert(attributes.deep_view() =~= Seq::<AttributeView>::empty());
        }
        while remaining > 0
            invariant
                buffer.wf(),
                buffer.data == old(buffer).data,
                spec_read_raw_attributes_n(
                    data,
                    old(buffer).pos + 2,
                    constants_pool@,
                    count as nat,
                ) == (match spec_read_raw_attributes_n(
                    data,
                    buffer.pos as int,
                    constants_pool@,
                    remaining as nat,
                ) {
                    Ok((rest, p)) => Ok::<(Seq<AttributeView>, int), ClassReaderErrorView>(
                        (attributes.deep_view() + rest, p),
                    ),
                    Err(e) => Err::<(Seq<AttributeView>, int), ClassReaderErrorView>(e),
                }),
            decreases remaining,
        {
            let ghost before = attributes.deep_view();
            let attribute = match Self::read_raw_attribute(constants_pool, buffer) {
                Ok(v) => v,
                Err(e) => {
                    return Err(e);
                },
            };
            let ghost attr_view = attribute@;
            attributes.push(attribute);
            remaining = remaining - 1;
            proof {
                assert(attributes.deep_view() =~= before.push(attr_view));
                match spec_read_raw_attributes_n(
                    data,
                    buffer.pos as int,
                    constants_pool@,
                    remaining as nat,
                ) {
                    Ok((rest, p)) => {
                        assert(before + (seq![attr_view] + rest) =~= attributes.deep_view() + rest);
                    },
                    Err(_) => {},
                }
            }
        }
        proof {
            assert(attributes.deep_view() + Seq::<AttributeView>::empty()
                =~= attributes.deep_view());
        }
        Ok(attributes)
    }

    /// Reads the next attribute list from the class-level cursor.
    fn read_raw_attributes(&mut self, pool: &ConstantPool) -> (r: Result<
        Vec<Attribute>,
        ClassReaderError,
    >)
        requires
            old(self).buffer.wf(),
        ensures
            final(self).buffer.data == old(self).buffer.data,
            final(self).buffer.wf(),
            match spec_read_raw_attributes(
                old(self).buffer.data@,
                old(self).buffer.pos as int,
                pool@,
            ) {
                Ok((attrs, p)) => r matches Ok(list) && list.deep_view() == attrs && final(self).buffer.pos == p,
                Err(e) => r matches Err(err) && err@ == e,
            },
    {
        Self::read_raw_attributes_from(pool, &mut self.buffer)
    }

    /// Reads and validates a field's access flags.
    fn read_field_flags(&mut self) -> (r: Result<FieldFlags, ClassReaderError>)
        requires
            old(self).buffer.wf(),
        ensures
            final(self).buffer.data == old(self).buffer.data,
            final(self).buffer.wf(),
            match spec_take_u16(old(self).buffer.data@, old(self).buffer.pos as int) {
                Ok((bits, p)) => if FieldFlags::spec_valid_bits(bits) {
                    r == Ok::<FieldFlags, ClassReaderError>(FieldFlags { bits }) && final(self).buffer.pos == p
                } else {
                    r matches Err(err) && err@ == (ClassReaderErrorView::InvalidClassData {
                        message: "invalid field flags: 0x"@ + spec_hex_nat(bits as nat, 4),
                        index: None,
                    })
                },
                Err(e) => r matches Err(err) && err@ == e,
            },
    {
        let field_flags_bits = match self.take_u16() {
            Ok(v) => v,
            Err(e) => {
                return Err(e);
            },
        };
        match FieldFlags::from_bits(field_flags_bits) {
            Some(flags) => Ok(flags),
            None => Err(
                ClassReaderError::invalid_class_data(
                    String::from_str("invalid field flags: 0x").concat(
                        hex_u64(field_flags_bits as u64, 4).as_str(),
                    ),
                ),
            ),
        }
    }

    /// Extracts the optional constant value of a field from its attributes.
    fn extract_constant_value(raw_attributes: &Vec<Attribute>, pool: &ConstantPool) -> (r: Result<
        Option<FieldConstantValue>,
        ClassReaderError,
    >)
        ensures
            match spec_extract_constant_value(raw_attributes.deep_view(), pool@) {
                Ok(v) => r matches Ok(value) && value.deep_view() == v,
                Err(e) => r matches Err(err) && err@ == e,
            },
    {
        let attr = match find_attribute(raw_attributes, "ConstantValue") {
            None => {
                return Ok(None);
            },
            Some(a) => a,
        };
        if attr.bytes.len() != 2 {
            return Err(
                ClassReaderError::invalid_class_data(
                    String::from_str("invalid attribute of type ConstantValue"),
                ),
            );
        }
        let constant_index = (attr.bytes[0] as u16) * 0x100 + (attr.bytes[1] as u16);
        let entry = match pool.get(constant_index) {
            Ok(e) => e,
            Err(e) => {
                return Err(ClassReaderError::from_index_error(e));
            },
        };
        match entry {
            ConstantPoolEntry::StringReference(v) => {
                match Self::read_string_reference_from(pool, *v) {
                    Ok(s) => Ok(Some(FieldConstantValue::String(s))),
                    Err(e) => Err(e),
                }
            },
            ConstantPoolEntry::Integer(v) => Ok(Some(FieldConstantValue::Int(*v))),
            ConstantPoolEntry::Float(v) => Ok(Some(FieldConstantValue::Float(*v))),
            ConstantPoolEntry::Long(v) => Ok(Some(FieldConstantValue::Long(*v))),
            ConstantPoolEntry::Double(v) => Ok(Some(FieldConstantValue::Double(*v))),
            _ => Err(
                ClassReaderError::invalid_class_data(
                    String::from_str("invalid type for ConstantValue"),
                ),
            ),
        }
    }

    /// Reads one field.
    fn read_field(&mut self, pool: &ConstantPool) -> (r: Result<ClassFileField, ClassReaderError>)
        requires
            old(self).buffer.wf(),
        ensures
            final(self).buffer.data == old(self).buffer.data,
            final(self).buffer.wf(),
            match spec_read_field(old(self).buffer.data@, old(self).buffer.pos as int, pool@) {
                Ok((field, p)) => r matches Ok(f) && f@ == field && final(self).buffer.pos == p,
                Err(e) => r matches Err(err) && err@ == e,
            },
    {
        let flags = match self.read_field_flags() {
            Ok(v) => v,
            Err(e) => {
                return Err(e);
            },
        };
        let name_constant_index = match self.take_u16() {
            Ok(v) => v,
            Err(e) => {
                return Err(e);
            },
        };
        let name = match Self::read_string_reference_from(pool, name_constant_index) {
            Ok(v) => v,
            Err(e) => {
                return Err(e);
            },
        };
        let type_constant_index = match self.take_u16() {
            Ok(v) => v,
            Err(e) => {
                return Err(e);
            },
        };
        let type_descriptor_raw = match Self::read_string_reference_from(
            pool,
            type_constant_index,
        ) {
            Ok(v) => v,
            Err(e) => {
                return Err(e);
            },
        };
        let type_descriptor = match FieldType::parse(type_descriptor_raw.as_str()) {
            Ok(v) => v,
            Err(e) => {
                return Err(e);
            },
        };
        let raw_attributes = match self.read_raw_attributes(pool) {
            Ok(v) => v,
            Err(e) => {
                return Err(e);
            },
        };
        let constant_value = match Self::extract_constant_value(&raw_attributes, pool) {
            Ok(v) => v,
            Err(e) => {
                return Err(e);
            },
        };
        let deprecated = search_deprecated_attribute(&raw_attributes);
        Ok(ClassFileField { flags, name, type_descriptor, constant_value, deprecated })
    }

    /// Reads the field list: a count, then that many fields.
    #[verifier::loop_isolation(false)]
    fn read_fields(&mut self, pool: &ConstantPool) -> (r: Result<
        Vec<ClassFileField>,
        ClassReaderError,
    >)
        requires
            old(self).buffer.wf(),
        ensures
            final(self).buffer.data == old(self).buffer.data,
            final(self).buffer.wf(),
            match spec_read_fields(old(self).buffer.data@, old(self).buffer.pos as int, pool@) {
                Ok((s, p)) => r matches Ok(fields) && fields.deep_view() == s && final(self).buffer.pos == p,
                Err(e) => r matches Err(err) && err@ == e,
            },
    {
        let ghost data = old(self).buffer.data@;
        let count = match self.take_u16() {
            Ok(v) => v,
            Err(e) => {
                return Err(e);
            },
        };
        let mut fields: Vec<ClassFileField> = Vec::new();
        let mut remaining: usize = count as usize;
        proof {
            assert(fields.deep_view() =~= Seq::<ClassFileFieldView>::empty());
        }
        while remaining > 0
            invariant
                self.buffer.wf(),
                self.buffer.data == old(self).buffer.data,
                spec_read_fields_n(data, old(self).buffer.pos + 2, pool@, count as nat) == (
                match spec_read_fields_n(data, self.buffer.pos as int, pool@, remaining as nat) {
                    Ok((rest, p)) => Ok::<(Seq<ClassFileFieldView>, int), ClassReaderErrorView>(
                        (fields.deep_view() + rest, p),
                    ),
                    Err(e) => Err::<(Seq<ClassFileFieldView>, int), ClassReaderErrorView>(e),
                }),
            decreases remaining,
        {
            let ghost before = fields.deep_view();
            let field = match self.read_field(pool) {
                Ok(v) => v,
                Err(e) => {
                    return Err(e);
                },
            };
            let ghost field_view = field@;
            fields.push(field);
            remaining = remaining - 1;
            proof {
                assert(fields.deep_view() =~~= before.push(field_view));
                match spec_read_fields_n(data, self.buffer.pos as int, pool@, remaining as nat) {
                    Ok((rest, p)) => {
                        assert(before + (seq![field_view] + rest) =~= fields.deep_view() + rest);
                    },
                    Err(_) => {},
                }
            }
        }
        proof {
            assert(fields.deep_view() + Seq::<ClassFileFieldView>::empty() =~= fields.deep_view());
        }
        Ok(fields)
    }

    /// Reads an exception table from the given cursor.
    #[verifier::loop_isolation(false)]
    fn read_exception_table(pool: &ConstantPool, buf: &mut Buffer) -> (r: Result<
        ExceptionTable,
        ClassReaderError,
    >)
        requires
            old(buf).wf(),
        ensures
            final(buf).data == old(buf).data,
            final(buf).wf(),
            match spec_read_exception_table(old(buf).data@, old(buf).pos as int, pool@) {
                Ok((entries, p)) => r matches Ok(table) && table@ == entries && final(buf).pos
                    == p,
                Err(e) => r matches Err(err) && err@ == e,
            },
    {
        let ghost data = old(buf).data@;
        let count = match buf.read_u16() {
            Ok(v) => v,
            Err(e) => {
                return Err(ClassReaderError::from_buffer_error(e));
            },
        };
        let mut entries: Vec<ExceptionTableEntry> = Vec::new();
        let mut remaining: usize = count as usize;
        proof {
            assert(entries.deep_view() =~= Seq::<ExceptionTableEntryView>::empty());
        }
        while remaining > 0
            invariant
                buf.wf(),
                buf.data == old(buf).data,
                spec_read_exception_entries(data, old(buf).pos + 2, pool@, count as nat) == (
                match spec_read_exception_entries(
                    data,
                    buf.pos as int,
                    pool@,
                    remaining as nat,
                ) {
                    Ok((rest, p)) => Ok::<(Seq<ExceptionTableEntryView>, int), ClassReaderErrorView>(
                        (entries.deep_view() + rest, p),
                    ),
                    Err(e) => Err::<(Seq<ExceptionTableEntryView>, int), ClassReaderErrorView>(e),
                }),
            decreases remaining,
        {
            let ghost before = entries.deep_view();
            let start_pc = match buf.read_u16() {
                Ok(v) => v,
                Err(e) => {
                    return Err(ClassReaderError::from_buffer_error(e));
                },
            };
            let end_pc = match buf.read_u16() {
                Ok(v) => v,
                Err(e) => {
                    return Err(ClassReaderError::from_buffer_error(e));
                },
            };
            let handler_pc = match buf.read_u16() {
                Ok(v) => v,
                Err(e) => {
                    return Err(ClassReaderError::from_buffer_error(e));
                },
            };
            let catch_class_constant = match buf.read_u16() {
                Ok(v) => v,
                Err(e) => {
                    return Err(ClassReaderError::from_buffer_error(e));
                },
            };
            let catch_class = if catch_class_constant == 0 {
                None
            } else {
                match Self::read_string_reference_from(pool, catch_class_constant) {
                    Ok(s) => Some(s),
                    Err(e) => {
                        return Err(e);
                    },
                }
            };
            let entry = ExceptionTableEntry {
                range: Range { start: ProgramCounter(start_pc), end: ProgramCounter(end_pc) },
                handler_pc: ProgramCounter(handler_pc),
                catch_class,
            };
            let ghost entry_view = entry@;
            entries.push(entry);
            remaining = remaining - 1;
            proof {
                assert(entries.deep_view() =~~= before.push(entry_view));
                match spec_read_exception_entries(data, buf.pos as int, pool@, remaining as nat) {
                    Ok((rest, p)) => {
                        assert(before + (seq![entry_view] + rest) =~= entries.deep_view() + rest);
                    },
                    Err(_) => {},
                }
            }
        }
        proof {
            assert(entries.deep_view() + Seq::<ExceptionTableEntryView>::empty()
                =~= entries.deep_view());
        }
        Ok(ExceptionTable::new(entries))
    }

    /// Extracts the optional line-number table from a code block's nested
    /// attributes.
    #[verifier::loop_isolation(false)]
    fn extract_line_number_table(raw_attributes: &Vec<Attribute>) -> (r: Result<
        Option<LineNumberTable>,
        ClassReaderError,
    >)
        ensures
            match spec_extract_line_number_table(raw_attributes.deep_view()) {
                Ok(v) => r matches Ok(table) && table.deep_view() == v,
                Err(e) => r matches Err(err) && err@ == e,
            },
    {
        let attr = match find_attribute(raw_attributes, "LineNumberTable") {
            None => {
                return Ok(None);
            },
            Some(a) => a,
        };
        let mut buf = Buffer::new(slice_to_vec(attr.bytes.as_slice()));
        let ghost data = attr.bytes@;
        let count = match buf.read_u16() {
            Ok(v) => v,
            Err(e) => {
                return Err(ClassReaderError::from_buffer_error(e));
            },
        };
        let mut entries: Vec<LineNumberTableEntry> = Vec::new();
        let mut remaining: usize = count as usize;
        proof {
            assert(entries@ =~= Seq::<LineNumberTableEntry>::empty());
        }
        while remaining > 0
            invariant
                buf.wf(),
                buf.data@ == data,
                spec_read_line_number_entries(data, 2, count as nat) == (
                match spec_read_line_number_entries(data, buf.pos as int, remaining as nat) {
                    Ok((rest, p)) => Ok::<(Seq<LineNumberTableEntry>, int), ClassReaderErrorView>(
                        (entries@ + rest, p),
                    ),
                    Err(e) => Err::<(Seq<LineNumberTableEntry>, int), ClassReaderErrorView>(e),
                }),
            decreases remaining,
        {
            let ghost before = entries@;
            let program_counter = match buf.read_u16() {
                Ok(v) => v,
                Err(e) => {
                    return Err(ClassReaderError::from_buffer_error(e));
                },
            };
            let line_number = match buf.read_u16() {
                Ok(v) => v,
                Err(e) => {
                    return Err(ClassReaderError::from_buffer_error(e));
                },
            };
            let entry = LineNumberTableEntry::new(
                ProgramCounter(program_counter),
                LineNumber(line_number),
            );
            entries.push(entry);
            remaining = remaining - 1;
            proof {
                match spec_read_line_number_entries(data, buf.pos as int, remaining as nat) {
                    Ok((rest, p)) => {
                        assert(before + (seq![entry] + rest) =~= entries@ + rest);
                    },
                    Err(_) => {},
                }
            }
        }
        proof {
            assert(entries@ + Seq::<LineNumberTableEntry>::empty() =~= entries@);
        }
        Ok(Some(LineNumberTable::new(entries)))
    }

    /// Extracts a method's thrown exceptions, defaulting to the empty list
    /// when the attribute is absent.
    #[verifier::loop_isolation(false)]
    fn extract_thrown_exceptions(raw_attributes: &Vec<Attribute>, pool: &ConstantPool) -> (r:
        Result<Vec<String>, ClassReaderError>)
        ensures
            match spec_extract_thrown_exceptions(raw_attributes.deep_view(), pool@) {
                Ok(v) => r matches Ok(names) && names.deep_view() == v,
                Err(e) => r matches Err(err) && err@ == e,
            },
    {
        let attr = match find_attribute(raw_attributes, "Exceptions") {
            None => {
                let empty: Vec<String> = Vec::new();
                proof {
                    assert(empty.deep_view() =~= Seq::<Seq<char>>::empty());
                }
                return Ok(empty);
            },
            Some(a) => a,
        };
        let mut buf = Buffer::new(slice_to_vec(attr.bytes.as_slice()));
        let ghost data = attr.bytes@;
        let count = match buf.read_u16() {
            Ok(v) => v,
            Err(e) => {
                return Err(ClassReaderError::from_buffer_error(e));
            },
        };
        let mut exceptions: Vec<String> = Vec::new();
        let mut remaining: usize = count as usize;
        proof {
            assert(exceptions.deep_view() =~= Seq::<Seq<char>>::empty());
        }
        while remaining > 0
            invariant
                buf.wf(),
                buf.data@ == data,
                spec_read_thrown_exceptions_n(data, 2, pool@, count as nat) == (
                match spec_read_thrown_exceptions_n(
                    data,
                    buf.pos as int,
                    pool@,
                    remaining as nat,
                ) {
                    Ok((rest, p)) => Ok::<(Seq<Seq<char>>, int), ClassReaderErrorView>(
                        (exceptions.deep_view() + rest, p),
                    ),
                    Err(e) => Err::<(Seq<Seq<char>>, int), ClassReaderErrorView>(e),
                }),
            decreases remaining,
        {
            let ghost before = exceptions.deep_view();
            let class_name_index = match buf.read_u16() {
                Ok(v) => v,
                Err(e) => {
                    return Err(ClassReaderError::from_buffer_error(e));
                },
            };
            let exception_class_name = match Self::read_string_reference_from(
                pool,
                class_name_index,
            ) {
                Ok(v) => v,
                Err(e) => {
                    return Err(e);
                },
            };
            let ghost name_view = exception_class_name@;
            exceptions.push(exception_class_name);
            remaining = remaining - 1;
            proof {
                assert(exceptions.deep_view() =~= before.push(name_view));
                match spec_read_thrown_exceptions_n(data, buf.pos as int, pool@, remaining as nat) {
                    Ok((rest, p)) => {
                        assert(before + (seq![name_view] + rest) =~= exceptions.deep_view() + rest);
                    },
                    Err(_) => {},
                }
            }
        }
        proof {
            assert(exceptions.deep_view() + Seq::<Seq<char>>::empty() =~= exceptions.deep_view());
        }
        Ok(exceptions)
    }

    /// Extracts a method's code block from its attributes; its absence is a
    /// fatal error naming the method.
    fn extract_code(
        raw_attributes: &Vec<Attribute>,
        pool: &ConstantPool,
        name: &String,
    ) -> (r: Result<ClassFileMethodCode, ClassReaderError>)
        ensures
            match spec_extract_code(raw_attributes.deep_view(), pool@, name@) {
                Ok(v) => r matches Ok(code) && code@ == v,
                Err(e) => r matches Err(err) && err@ == e,
            },
    {
        let attr = match find_attribute(raw_attributes, "Code") {
            None => {
                return Err(
                    ClassReaderError::invalid_class_data(
                        String::from_str("method ").concat(name.as_str()).concat(
                            " is missing code attribute",
                        ),
                    ),
                );
            },
            Some(a) => a,
        };
        let mut buf = Buffer::new(slice_to_vec(attr.bytes.as_slice()));
        let max_stack = match buf.read_u16() {
            Ok(v) => v,
            Err(e) => {
                return Err(ClassReaderError::from_buffer_error(e));
            },
        };
        let max_locals = match buf.read_u16() {
            Ok(v) => v,
            Err(e) => {
                return Err(ClassReaderError::from_buffer_error(e));
            },
        };
        let code_length = match buf.read_u32() {
            Ok(v) => v,
            Err(e) => {
                return Err(ClassReaderError::from_buffer_error(e));
            },
        };
        let code = match buf.read_bytes(code_length as usize) {
            Ok(v) => v,
            Err(e) => {
                return Err(ClassReaderError::from_buffer_error(e));
            },
        };
        let exception_table = match Self::read_exception_table(pool, &mut buf) {
            Ok(v) => v,
            Err(e) => {
                return Err(e);
            },
        };
        let attributes = match Self::read_raw_attributes_from(pool, &mut buf) {
            Ok(v) => v,
            Err(e) => {
                return Err(e);
            },
        };
        let line_number_table = match Self::extract_line_number_table(&attributes) {
            Ok(v) => v,
            Err(e) => {
                return Err(e);
            },
        };
        Ok(
            ClassFileMethodCode {
                max_stack,
                max_locals,
                code,
                exception_table,
                line_number_table,
                attributes,
            },
        )
    }

    /// Reads and validates a method's access flags.
    fn read_method_flags(&mut self) -> (r: Result<MethodFlags, ClassReaderError>)
        requires
            old(self).buffer.wf(),
        ensures
            final(self).buffer.data == old(self).buffer.data,
            final(self).buffer.wf(),
            match spec_take_u16(old(self).buffer.data@, old(self).buffer.pos as int) {
                Ok((bits, p)) => if MethodFlags::spec_valid_bits(bits) {
                    r == Ok::<MethodFlags, ClassReaderError>(MethodFlags { bits }) && final(self).buffer.pos == p
                } else {
                    r matches Err(err) && err@ == (ClassReaderErrorView::InvalidClassData {
                        message: "invalid method flags: 0x"@ + spec_hex_nat(bits as nat, 4),
                        index: None,
                    })
                },
                Err(e) => r matches Err(err) && err@ == e,
            },
    {
        let method_flags_bits = match self.take_u16() {
            Ok(v) => v,
            Err(e) => {
                return Err(e);
            },
        };
        match MethodFlags::from_bits(method_flags_bits) {
            Some(flags) => Ok(flags),
            None => Err(
                ClassReaderError::invalid_class_data(
                    String::from_str("invalid method flags: 0x").concat(
                        hex_u64(method_flags_bits as u64, 4).as_str(),
                    ),
                ),
            ),
        }
    }

    /// Reads one method.
    fn read_method(&mut self, pool: &ConstantPool) -> (r: Result<ClassFileMethod, ClassReaderError>)
        requires
            old(self).buffer.wf(),
        ensures
            final(self).buffer.data == old(self).buffer.data,
            final(self).buffer.wf(),
            match spec_read_method(old(self).buffer.data@, old(self).buffer.pos as int, pool@) {
                Ok((method, p)) => r matches Ok(m) && m@ == method && final(self).buffer.pos == p,
                Err(e) => r matches Err(err) && err@ == e,
            },
    {
        let flags = match self.read_method_flags() {
            Ok(v) => v,
            Err(e) => {
                return Err(e);
            },
        };
        let name_constant_index = match self.take_u16() {
            Ok(v) => v,
            Err(e) => {
                return Err(e);
            },
        };
        let name = match Self::read_string_reference_from(pool, name_constant_index) {
            Ok(v) => v,
            Err(e) => {
                return Err(e);
            },
        };
        let type_constant_index = match self.take_u16() {
            Ok(v) => v,
            Err(e) => {
                return Err(e);
            },
        };
        let type_descriptor = match Self::read_string_reference_from(pool, type_constant_index) {
            Ok(v) => v,
            Err(e) => {
                return Err(e);
            },
        };
        let parsed_type_descriptor = match MethodDescriptor::parse(type_descriptor.as_str()) {
            Ok(v) => v,
            Err(e) => {
                return Err(e);
            },
        };
        let raw_attributes = match self.read_raw_attributes(pool) {
            Ok(v) => v,
            Err(e) => {
                return Err(e);
            },
        };
        let code = if flags.contains(MethodFlags::NATIVE) || flags.contains(MethodFlags::ABSTRACT) {
            None
        } else {
            match Self::extract_code(&raw_attributes, pool, &name) {
                Ok(v) => Some(v),
                Err(e) => {
                    return Err(e);
                },
            }
        };
        let deprecated = search_deprecated_attribute(&raw_attributes);
        let thrown_exceptions = match Self::extract_thrown_exceptions(&raw_attributes, pool) {
            Ok(v) => v,
            Err(e) => {
                return Err(e);
            },
        };
        Ok(
            ClassFileMethod {
                flags,
                name,
                type_descriptor,
                parsed_type_descriptor,
                attributes: raw_attributes,
                code,
                deprecated,
                thrown_exceptions,
            },
        )
    }

    /// Reads the method list: a count, then that many methods.
    #[verifier::loop_isolation(false)]
    fn read_methods(&mut self, pool: &ConstantPool) -> (r: Result<
        Vec<ClassFileMethod>,
        ClassReaderError,
    >)
        requires
            old(self).buffer.wf(),
        ensures
            final(self).buffer.data == old(self).buffer.data,
            final(self).buffer.wf(),
            match spec_read_methods(old(self).buffer.data@, old(self).buffer.pos as int, pool@) {
                Ok((s, p)) => r matches Ok(methods) && methods.deep_view() == s && final(self).buffer.pos == p,
                Err(e) => r matches Err(err) && err@ == e,
            },
    {
        let ghost data = old(self).buffer.data@;
        let count = match self.take_u16() {
            Ok(v) => v,
            Err(e) => {
                return Err(e);
            },
        };
        let mut methods: Vec<ClassFileMethod> = Vec::new();
        let mut remaining: usize = count as usize;
        proof {
            assert(methods.deep_view() =~= Seq::<ClassFileMethodView>::empty());
        }
        while remaining > 0
            invariant
                self.buffer.wf(),
                self.buffer.data == old(self).buffer.data,
                spec_read_methods_n(data, old(self).buffer.pos + 2, pool@, count as nat) == (
                match spec_read_methods_n(data, self.buffer.pos as int, pool@, remaining as nat) {
                    Ok((rest, p)) => Ok::<(Seq<ClassFileMethodView>, int), ClassReaderErrorView>(
                        (methods.deep_view() + rest, p),
                    ),
                    Err(e) => Err::<(Seq<ClassFileMethodView>, int), ClassReaderErrorView>(e),
                }),
            decreases remaining,
        {
            let ghost before = methods.deep_view();
            let method = match self.read_method(pool) {
                Ok(v) => v,
                Err(e) => {
                    return Err(e);
                },
            };
            let ghost method_view = method@;
            methods.push(method);
            remaining = remaining - 1;
            proof {
                assert(methods.deep_view() =~~= before.push(method_view));
                match spec_read_methods_n(data, self.buffer.pos as int, pool@, remaining as nat) {
                    Ok((rest, p)) => {
                        assert(before + (seq![method_view] + rest) =~= methods.deep_view() + rest);
                    },
                    Err(_) => {},
                }
            }
        }
        proof {
            assert(methods.deep_view() + Seq::<ClassFileMethodView>::empty()
                =~= methods.deep_view());
        }
        Ok(methods)
    }

    /// Reads and validates the class access flags; an unrecognized bit is
    /// fatal.
    fn read_access_flags(&mut self) -> (r: Result<ClassAccessFlags, ClassReaderError>)
        requires
            old(self).buffer.wf(),
        ensures
            final(self).buffer.data == old(self).buffer.data,
            final(self).buffer.wf(),
            match spec_take_u16(old(self).buffer.data@, old(self).buffer.pos as int) {
                Ok((bits, p)) => if ClassAccessFlags::spec_valid_bits(bits) {
                    r == Ok::<ClassAccessFlags, ClassReaderError>(ClassAccessFlags { bits })
                        && final(self).buffer.pos == p
                } else {
                    r matches Err(err) && err@ == (ClassReaderErrorView::InvalidClassData {
                        message: "invalid class flags: 0x"@ + spec_hex_nat(bits as nat, 4),
                        index: None,
                    })
                },
                Err(e) => r matches Err(err) && err@ == e,
            },
    {
        let num = match self.take_u16() {
            Ok(v) => v,
            Err(e) => {
                return Err(e);
            },
        };
        match ClassAccessFlags::from_bits(num) {
            Some(flags) => Ok(flags),
            None => Err(
                ClassReaderError::invalid_class_data(
                    String::from_str("invalid class flags: 0x").concat(
                        hex_u64(num as u64, 4).as_str(),
                    ),
                ),
            ),
        }
    }

    /// Searches the class attributes for the optional source-file name.
    fn search_source_file_attribute(
        raw_attributes: &Vec<Attribute>,
        pool: &ConstantPool,
    ) -> (r: Result<Option<String>, ClassReaderError>)
        ensures
            match spec_search_source_file(raw_attributes.deep_view(), pool@) {
                Ok(v) => r matches Ok(name) && name.deep_view() == v,
                Err(e) => r matches Err(err) && err@ == e,
            },
    {
        let attr = match find_attribute(raw_attributes, "SourceFile") {
            None => {
                return Ok(None);
            },
            Some(a) => a,
        };
        if attr.bytes.len() != 2 {
            return Err(
                ClassReaderError::invalid_class_data(
                    String::from_str("invalid SourceFile attribute"),
                ),
            );
        }
        let constant_index = (attr.bytes[0] as u16) * 0x100 + (attr.bytes[1] as u16);
        let entry = match pool.get(constant_index) {
            Ok(e) => e,
            Err(e) => {
                return Err(ClassReaderError::from_index_error(e));
            },
        };
        match entry {
            ConstantPoolEntry::Utf8(file_name) => Ok(Some(file_name.clone())),
            _ => Err(
                ClassReaderError::invalid_class_data(
                    String::from_str("invalid SourceFile attribute"),
                ),
            ),
        }
    }

    /// Drives the linear decode of a whole class file.
    fn read(&mut self) -> (r: Result<ClassFile, ClassReaderError>)
        requires
            old(self).buffer.wf(),
            old(self).buffer.pos == 0,
        ensures
            match spec_read_class_file(old(self).buffer.data@) {
                Ok(c) => r matches Ok(class_file) && class_file@ == c,
                Err(e) => r matches Err(err) && err@ == e,
            },
    {
        match self.check_magic_number() {
            Ok(_) => {},
            Err(e) => {
                return Err(e);
            },
        }
        let version = match self.read_version() {
            Ok(v) => v,
            Err(e) => {
                return Err(e);
            },
        };
        let constants = match self.read_constants() {
            Ok(v) => v,
            Err(e) => {
                return Err(e);
            },
        };
        let flags = match self.read_access_flags() {
            Ok(v) => v,
            Err(e) => {
                return Err(e);
            },
        };
        let name = match self.read_class_reference(&constants) {
            Ok(v) => v,
            Err(e) => {
                return Err(e);
            },
        };
        let superclass = match self.read_class_reference_optional(&constants) {
            Ok(v) => v,
            Err(e) => {
                return Err(e);
            },
        };
        let interfaces = match self.read_interfaces(&constants) {
            Ok(v) => v,
            Err(e) => {
                return Err(e);
            },
        };
        let fields = match self.read_fields(&constants) {
            Ok(v) => v,
            Err(e) => {
                return Err(e);
            },
        };
        let methods = match self.read_methods(&constants) {
            Ok(v) => v,
            Err(e) => {
                return Err(e);
            },
        };
        let raw_attributes = match self.read_raw_attributes(&constants) {
            Ok(v) => v,
            Err(e) => {
                return Err(e);
            },
        };
        let deprecated = search_deprecated_attribute(&raw_attributes);
        let source_file = match Self::search_source_file_attribute(&raw_attributes, &constants) {
            Ok(v) => v,
            Err(e) => {
                return Err(e);
            },
        };
        Ok(
            ClassFile {
                version,
                constants,
                flags,
                name,
                superclass,
                interfaces,
                fields,
                methods,
                deprecated,
                source_file,
            },
        )
    }
}

/// Reads a class from a byte slice: the single entry point that decodes a
/// complete buffer into a class model or a structured error. It succeeds
/// exactly on the buffers the class-file grammar accepts, yielding the model
/// that the grammar gives those bytes; the first structural error aborts the
/// whole read with the error the grammar gives it, and no partial model is
/// ever returned.
pub fn read_buffer(buf: &[u8]) -> (r: Result<ClassFile, ClassReaderError>)
    ensures
        match spec_read_class_file(buf@) {
            Ok(c) => r matches Ok(class_file) && class_file@ == c,
            Err(e) => r matches Err(err) && err@ == e,
        },
{
    let mut reader = ClassFileReader::new(buf);
    reader.read()
}

/// Law: missing or incorrect magic bytes always fail with the
/// invalid-magic-number message carried by the invalid-class-data kind, and
/// never with any other error.
pub proof fn lemma_bad_magic_fails(data: Seq<u8>)
    requires
        data.len() >= 4,
        crate::buffer::spec_be_u32(data[0], data[1], data[2], data[3]) != 0xCAFEBABE,
    ensures
        spec_read_class_file(data) == Err::<ClassFileView, ClassReaderErrorView>(
            ClassReaderErrorView::InvalidClassData {
                message: "invalid magic number"@,
                index: None,
            },
        ),
{
    assert(0 <= crate::buffer::spec_be_u32(data[0], data[1], data[2], data[3]) < 0x1_0000_0000);
}

/// Law: a method in a decoded class has no code block exactly when it is
/// flagged native or abstract; a method flagged neither always carries one.
pub proof fn lemma_code_presence(data: Seq<u8>, c: ClassFileView)
    requires
        spec_read_class_file(data) == Ok::<ClassFileView, ClassReaderErrorView>(c),
    ensures
        forall|i: int|
            0 <= i < c.methods.len() ==> ((#[trigger] c.methods[i]).code is None
                <==> c.methods[i].flags.spec_is_native_or_abstract()),
{
    lemma_decoded_methods_properties(data, c);
}

/// Law: in a decoded class, every method's raw descriptor text is exactly
/// the rendering of its parsed descriptor — the descriptor the decoder
/// hands out re-renders to the text it was parsed from.
pub proof fn lemma_method_descriptors_faithful(data: Seq<u8>, c: ClassFileView)
    requires
        spec_read_class_file(data) == Ok::<ClassFileView, ClassReaderErrorView>(c),
    ensures
        forall|i: int|
            0 <= i < c.methods.len()
                ==> crate::method_descriptor::spec_render_method_descriptor(
                (#[trigger] c.methods[i]).parsed_type_descriptor,
            ) == c.methods[i].type_descriptor,
{
    lemma_decoded_methods_properties(data, c);
}

proof fn lemma_decoded_methods_properties(data: Seq<u8>, c: ClassFileView)
    requires
        spec_read_class_file(data) == Ok::<ClassFileView, ClassReaderErrorView>(c),
    ensures
        forall|i: int|
            0 <= i < c.methods.len() ==> ((#[trigger] c.methods[i]).code is None
                <==> c.methods[i].flags.spec_is_native_or_abstract()),
        forall|i: int|
            0 <= i < c.methods.len()
                ==> crate::method_descriptor::spec_render_method_descriptor(
                (#[trigger] c.methods[i]).parsed_type_descriptor,
            ) == c.methods[i].type_descriptor,
{
    match spec_check_magic_number(data, 0) {
        Err(_) => {},
        Ok(p1) => match spec_read_version(data, p1) {
            Err(_) => {},
            Ok((_, p2)) => match spec_read_constants_all(data, p2) {
                Err(_) => {},
                Ok((pool, p3)) => match spec_take_u16(data, p3) {
                    Err(_) => {},
                    Ok((flag_bits, p4)) => {
                        if ClassAccessFlags::spec_valid_bits(flag_bits) {
                            match spec_read_class_reference(data, p4, pool) {
                                Err(_) => {},
                                Ok((_, p5)) => match spec_read_class_reference_optional(
                                    data,
                                    p5,
                                    pool,
                                ) {
                                    Err(_) => {},
                                    Ok((_, p6)) => match spec_read_interfaces(data, p6, pool) {
                                        Err(_) => {},
                                        Ok((_, p7)) => match spec_read_fields(data, p7, pool) {
                                            Err(_) => {},
                                            Ok((_, p8)) => {
                                                match spec_read_methods(data, p8, pool) {
                                                    Err(_) => {},
                                                    Ok((methods, _)) => {
                                                        assert(c.methods == methods);
                                                        match spec_take_u16(data, p8) {
                                                            Err(_) => {},
                                                            Ok((count, p)) => {
                                                                lemma_methods_code_presence(
                                                                    data,
                                                                    p,
                                                                    pool,
                                                                    count as nat,
                                                                );
                                                                lemma_methods_descriptors_faithful(
                                                                    data,
                                                                    p,
                                                                    pool,
                                                                    count as nat,
                                                                );
                                                            },
                                                        }
                                                    },
                                                }
                                            },
                                        },
                                    },
                                },
                            }
                        }
                    },
                },
            },
        },
    }
}

/// Law: the constant pool of a decoded class satisfies the structural
/// invariant: every wide entry is followed by a tombstone and every
/// tombstone follows a wide entry, so the 1-based indexing laws of the pool
/// apply to it.
pub proof fn lemma_decoded_pool_wf(data: Seq<u8>, c: ClassFileView)
    requires
        spec_read_class_file(data) == Ok::<ClassFileView, ClassReaderErrorView>(c),
    ensures
        crate::constant_pool::spec_pool_wf(c.constants),
{
    match spec_check_magic_number(data, 0) {
        Err(_) => {},
        Ok(p1) => match spec_read_version(data, p1) {
            Err(_) => {},
            Ok((_, p2)) => match spec_read_constants_all(data, p2) {
                Err(_) => {},
                Ok((pool, _)) => {
                    match spec_take_u16(data, p2) {
                        Err(_) => {},
                        Ok((count, p)) => {
                            if count != 0 {
                                lemma_read_constants_wf(data, p, (count - 1) as nat, 1);
                            }
                        },
                    }
                    assert(c.constants == pool);
                },
            },
        },
    }
}

/// Every entry sequence the constant-pool loader produces satisfies the
/// structural invariant, and never starts with a tombstone.
proof fn lemma_read_constants_wf(data: Seq<u8>, pos: int, n: nat, entry_index: nat)
    ensures
        spec_read_constants(data, pos, n, entry_index) matches Ok((entries, _))
            ==> crate::constant_pool::spec_pool_wf(entries) && (entries.len() > 0 ==> entries[0]
            is Entry),
    decreases n,
{
    if n > 0 {
        match spec_take_u8(data, pos) {
            Err(_) => {},
            Ok((tag, p1)) => match spec_read_constant_entry(data, p1, tag, entry_index) {
                Err(_) => {},
                Ok((entry, p2)) => {
                    let used: nat = if entry_is_wide(entry) && n >= 2 {
                        2
                    } else {
                        1
                    };
                    let slots: nat = if entry_is_wide(entry) {
                        2
                    } else {
                        1
                    };
                    lemma_read_constants_wf(data, p2, (n - used) as nat, entry_index + slots);
                    match spec_read_constants(data, p2, (n - used) as nat, entry_index + slots) {
                        Err(_) => {},
                        Ok((rest, _)) => {
                            let block = if entry_is_wide(entry) {
                                seq![PhysicalEntryView::Entry(entry), PhysicalEntryView::Tombstone]
                            } else {
                                seq![PhysicalEntryView::Entry(entry)]
                            };
                            let combined = block + rest;
                            assert forall|i: int|
                                0 <= i < combined.len() implies match #[trigger] combined[i] {
                                PhysicalEntryView::Entry(e) => {
                                    entry_is_wide(e) ==> i + 1 < combined.len() && combined[i + 1]
                                        is Tombstone
                                },
                                PhysicalEntryView::Tombstone => {
                                    i > 0 && (combined[i - 1] matches PhysicalEntryView::Entry(e)
                                        && entry_is_wide(e))
                                },
                            } by {
                                if i < block.len() {
                                    if entry_is_wide(entry) {
                                        assert(combined[0] == PhysicalEntryView::Entry(entry));
                                        assert(combined[1] == PhysicalEntryView::Tombstone);
                                    } else {
                                        assert(combined[0] == PhysicalEntryView::Entry(entry));
                                        if rest.len() > 0 {
                                            assert(combined[block.len() as int] == rest[0]);
                                        }
                                    }
                                } else {
                                    let j = i - block.len();
                                    assert(combined[i] == rest[j]);
                                    match rest[j] {
                                        PhysicalEntryView::Entry(e) => {
                                            if entry_is_wide(e) {
                                                assert(rest[j + 1] is Tombstone);
                                                assert(combined[i + 1] == rest[j + 1]);
                                            }
                                        },
                                        PhysicalEntryView::Tombstone => {
                                            assert(j > 0);
                                            assert(combined[i - 1] == rest[j - 1]);
                                        },
                                    }
                                }
                            }
                        },
                    }
                },
            },
        }
    }
}

/// Every method in a decoded method list carries a raw descriptor that is
/// the rendering of its parsed descriptor.
proof fn lemma_methods_descriptors_faithful(
    data: Seq<u8>,
    pos: int,
    pool: Seq<PhysicalEntryView>,
    n: nat,
)
    ensures
        spec_read_methods_n(data, pos, pool, n) matches Ok((methods, _)) ==> forall|i: int|
            0 <= i < methods.len()
                ==> crate::method_descriptor::spec_render_method_descriptor(
                (#[trigger] methods[i]).parsed_type_descriptor,
            ) == methods[i].type_descriptor,
    decreases n,
{
    if n > 0 {
        match spec_read_method(data, pos, pool) {
            Err(_) => {},
            Ok((method, p1)) => {
                lemma_methods_descriptors_faithful(data, p1, pool, (n - 1) as nat);
                crate::method_descriptor::lemma_method_descriptor_parse_faithful(
                    method.type_descriptor,
                );
                assert(crate::method_descriptor::spec_render_method_descriptor(
                    method.parsed_type_descriptor,
                ) == method.type_descriptor);
            },
        }
    }
}

/// Every method in a decoded method list has a code block exactly when it
/// is neither native nor abstract.
proof fn lemma_methods_code_presence(data: Seq<u8>, pos: int, pool: Seq<PhysicalEntryView>, n: nat)
    ensures
        spec_read_methods_n(data, pos, pool, n) matches Ok((methods, _)) ==> forall|i: int|
            0 <= i < methods.len() ==> ((#[trigger] methods[i]).code is None <==> methods[i]
                .flags.spec_is_native_or_abstract()),
    decreases n,
{
    if n > 0 {
        match spec_read_method(data, pos, pool) {
            Err(_) => {},
            Ok((method, p1)) => {
                lemma_methods_code_presence(data, p1, pool, (n - 1) as nat);
                assert(method.code is None <==> method.flags.spec_is_native_or_abstract());
            },
        }
    }
}

} // verus!
