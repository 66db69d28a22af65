use class_reader::class_reader_error::ClassReaderError;
use class_reader::instruction::Instruction;
use class_reader::instruction::NewArrayType;

#[test]
fn parses_no_operand_instructions() {
    assert_eq!(
        (Instruction::Aaload, 1),
        Instruction::parse(&[0x32], 0).unwrap()
    );
    assert_eq!(
        (Instruction::Return, 3),
        Instruction::parse(&[0x00, 0x00, 0xb1], 2).unwrap()
    );
}

#[test]
fn parses_operand_instructions() {
    assert_eq!(
        (Instruction::Aload { index: 7 }, 2),
        Instruction::parse(&[0x19, 7], 0).unwrap()
    );
    assert_eq!(
        (Instruction::Getstatic { field: 0x0102 }, 3),
        Instruction::parse(&[0xb2, 1, 2], 0).unwrap()
    );
    assert_eq!(
        (Instruction::Bipush { byte: 0xFF }, 2),
        Instruction::parse(&[0x10, 0xFF], 0).unwrap()
    );
}

#[test]
fn signed_immediates_are_reinterpreted_not_widened() {
    assert_eq!(
        (
            Instruction::Iinc {
                index: 5,
                constant: -1
            },
            3
        ),
        Instruction::parse(&[0x84, 5, 0xFF], 0).unwrap()
    );
    assert_eq!(
        (Instruction::Sipush { short: -2 }, 3),
        Instruction::parse(&[0x11, 0xFF, 0xFE], 0).unwrap()
    );
}

#[test]
fn branch_offset_resolves_relative_to_the_opcode_address() {
    // An unconditional branch at address 10 with a signed offset of -3
    // resolves to the absolute target 7.
    let mut code = vec![0x00; 10];
    code.push(0xa7);
    code.push(0xFF);
    code.push(0xFD);
    assert_eq!(
        (Instruction::Goto { jump_address: 7 }, 13),
        Instruction::parse(&code, 10).unwrap()
    );
}

#[test]
fn branch_target_below_zero_is_fatal() {
    let code = vec![0xa7, 0xFF, 0xFD]; // goto -3 at address 0
    assert!(matches!(
        Instruction::parse(&code, 0),
        Err(ClassReaderError::InvalidClassData(s, None)) if s == "invalid jump offset"
    ));
}

#[test]
fn branch_target_above_address_space_is_fatal() {
    let mut code = vec![0x00; 65100];
    code[65000] = 0xa7;
    code[65001] = 0x7F; // offset 32767: target 97767 > 65535
    code[65002] = 0xFF;
    assert!(matches!(
        Instruction::parse(&code, 65000),
        Err(ClassReaderError::InvalidClassData(s, None)) if s == "invalid jump offset"
    ));
}

#[test]
fn unsupported_instructions_fail_distinguishably() {
    for op in [0xaa, 0xab, 0xc4, 0xc8, 0xc9] {
        assert!(matches!(
            Instruction::parse(&[op], 0),
            Err(ClassReaderError::InvalidClassData(s, None)) if s == "unsupported instruction"
        ));
    }
}

#[test]
fn unknown_opcode_is_invalid() {
    assert!(matches!(
        Instruction::parse(&[0xcb], 0),
        Err(ClassReaderError::InvalidClassData(s, None))
            if s == "invalid op code: 0xcb at address 0"
    ));
}

#[test]
fn missing_operands_are_fatal() {
    assert!(matches!(
        Instruction::parse(&[0x10], 0),
        Err(ClassReaderError::InvalidClassData(s, None))
            if s == "cannot find arguments for instruction"
    ));
    assert!(matches!(
        Instruction::parse(&[], 0),
        Err(ClassReaderError::InvalidClassData(s, None)) if s == "cannot read instruction"
    ));
}

#[test]
fn newarray_validates_its_element_kind() {
    assert_eq!(
        (
            Instruction::Newarray {
                array_type: NewArrayType::Int
            },
            2
        ),
        Instruction::parse(&[0xbc, 10], 0).unwrap()
    );
    assert!(matches!(
        Instruction::parse(&[0xbc, 3], 0),
        Err(ClassReaderError::InvalidClassData(s, None))
            if s == "invalid type for newarray: 0x03 at address 0"
    ));
}

#[test]
fn invokeinterface_requires_its_reserved_zero_byte() {
    assert_eq!(
        (
            Instruction::Invokeinterface {
                method: 0x0203,
                count: 1
            },
            5
        ),
        Instruction::parse(&[0xb9, 2, 3, 1, 0], 0).unwrap()
    );
    assert!(matches!(
        Instruction::parse(&[0xb9, 2, 3, 1, 9], 0),
        Err(ClassReaderError::InvalidClassData(s, None))
            if s == "expected a zero byte after invokeinterface at address 0"
    ));
}

#[test]
fn invokedynamic_requires_its_reserved_zero_bytes() {
    assert_eq!(
        (Instruction::Invokedynamic { call_site: 0x0104 }, 5),
        Instruction::parse(&[0xba, 1, 4, 0, 0], 0).unwrap()
    );
    assert!(matches!(
        Instruction::parse(&[0xba, 1, 4, 0, 1], 0),
        Err(ClassReaderError::InvalidClassData(s, None))
            if s == "expected two zero bytes after invokedynamic at address 0"
    ));
}

#[test]
fn parse_instructions_walks_the_whole_stream() {
    let code = [0x03, 0x3b, 0x84, 0x00, 0x01, 0xb1];
    let instructions = Instruction::parse_instructions(&code).unwrap();
    assert_eq!(
        vec![
            (0usize, Instruction::Iconst_0),
            (1, Instruction::Istore_0),
            (
                2,
                Instruction::Iinc {
                    index: 0,
                    constant: 1
                }
            ),
            (5, Instruction::Return),
        ],
        instructions
    );
}

#[test]
fn parse_instructions_fails_on_the_first_bad_instruction() {
    let code = [0xb1, 0x10]; // return, then bipush with no operand
    assert!(matches!(
        Instruction::parse_instructions(&code),
        Err(ClassReaderError::InvalidClassData(s, None))
            if s == "cannot find arguments for instruction"
    ));
    assert!(Instruction::parse_instructions(&[]).unwrap().is_empty());
}
