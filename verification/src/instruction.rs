use vstd::prelude::*;
use vstd::string::StringExecFns;
use crate::buffer::spec_be_u16;
use crate::class_reader_error::ClassReaderError;
use crate::class_reader_error::ClassReaderErrorView;
use crate::numerals::dec_u64;
use crate::numerals::hex_u64;
use crate::numerals::spec_dec_nat;
use crate::numerals::spec_hex_nat;

verus! {

/// A bytecode instruction, one variant per supported opcode. Operands are
/// raw immediates, local-variable slot indices, constant-pool indices, or
/// already-resolved absolute jump targets — never raw relative offsets.
#[allow(non_camel_case_types)]
#[derive(Clone, Copy, Debug, Eq, PartialEq, Structural)]
pub enum Instruction {
    Aaload,
    Aastore,
    Aconst_null,
    Aload { index: u8 },
    Aload_0,
    Aload_1,
    Aload_2,
    Aload_3,
    Anewarray { class: u16 },
    Areturn,
    Arraylength,
    Astore { index: u8 },
    Astore_0,
    Astore_1,
    Astore_2,
    Astore_3,
    Athrow,
    Baload,
    Bastore,
    Bipush { byte: u8 },
    Caload,
    Castore,
    Checkcast { class: u16 },
    D2f,
    D2i,
    D2l,
    Dadd,
    Daload,
    Dastore,
    Dcmpg,
    Dcmpl,
    Dconst_0,
    Dconst_1,
    Ddiv,
    Dload { index: u8 },
    Dload_0,
    Dload_1,
    Dload_2,
    Dload_3,
    Dmul,
    Dneg,
    Drem,
    Dreturn,
    Dstore { index: u8 },
    Dstore_0,
    Dstore_1,
    Dstore_2,
    Dstore_3,
    Dsub,
    Dup,
    Dup_x1,
    Dup_x2,
    Dup2,
    Dup2_x1,
    Dup2_x2,
    F2d,
    F2i,
    F2l,
    Fadd,
    Faload,
    Fastore,
    Fcmpg,
    Fcmpl,
    Fconst_0,
    Fconst_1,
    Fconst_2,
    Fdiv,
    Fload { index: u8 },
    Fload_0,
    Fload_1,
    Fload_2,
    Fload_3,
    Fmul,
    Fneg,
    Frem,
    Freturn,
    Fstore { index: u8 },
    Fstore_0,
    Fstore_1,
    Fstore_2,
    Fstore_3,
    Fsub,
    Getfield { field: u16 },
    Getstatic { field: u16 },
    Goto { jump_address: u16 },
    Goto_w,
    I2b,
    I2c,
    I2d,
    I2f,
    I2l,
    I2s,
    Iadd,
    Iaload,
    Iand,
    Iastore,
    Iconst_m1,
    Iconst_0,
    Iconst_1,
    Iconst_2,
    Iconst_3,
    Iconst_4,
    Iconst_5,
    Idiv,
    If_acmpeq { jump_address: u16 },
    If_acmpne { jump_address: u16 },
    If_icmpeq { jump_address: u16 },
    If_icmpne { jump_address: u16 },
    If_icmplt { jump_address: u16 },
    If_icmpge { jump_address: u16 },
    If_icmpgt { jump_address: u16 },
    If_icmple { jump_address: u16 },
    Ifeq { jump_address: u16 },
    Ifne { jump_address: u16 },
    Iflt { jump_address: u16 },
    Ifge { jump_address: u16 },
    Ifgt { jump_address: u16 },
    Ifle { jump_address: u16 },
    Ifnonnull { jump_address: u16 },
    Ifnull { jump_address: u16 },
    Iinc { index: u8, constant: i8 },
    Iload { index: u8 },
    Iload_0,
    Iload_1,
    Iload_2,
    Iload_3,
    Imul,
    Ineg,
    Instanceof { class: u16 },
    Invokedynamic { call_site: u16 },
    Invokeinterface { method: u16, count: u8 },
    Invokespecial { method: u16 },
    Invokestatic { method: u16 },
    Invokevirtual { method: u16 },
    Ior,
    Irem,
    Ireturn,
    Ishl,
    Ishr,
    Istore { index: u8 },
    Istore_0,
    Istore_1,
    Istore_2,
    Istore_3,
    Isub,
    Iushr,
    Ixor,
    Jsr { jump_address: u16 },
    Jsr_w,
    L2d,
    L2f,
    L2i,
    Ladd,
    Laload,
    Land,
    Lastore,
    Lcmp,
    Lconst_0,
    Lconst_1,
    Ldc { index: u8 },
    Ldc_w { index: u16 },
    Ldc2_w { index: u16 },
    Ldiv,
    Lload { index: u8 },
    Lload_0,
    Lload_1,
    Lload_2,
    Lload_3,
    Lmul,
    Lneg,
    Lookupswitch,
    Lor,
    Lrem,
    Lreturn,
    Lshl,
    Lshr,
    Lstore { index: u8 },
    Lstore_0,
    Lstore_1,
    Lstore_2,
    Lstore_3,
    Lsub,
    Lushr,
    Lxor,
    Monitorenter,
    Monitorexit,
    Multianewarray { class: u16, dimensions: u8 },
    New { class: u16 },
    Newarray { array_type: NewArrayType },
    Nop,
    Pop,
    Pop2,
    Putfield { field: u16 },
    Putstatic { field: u16 },
    Ret { index: u8 },
    Return,
    Saload,
    Sastore,
    Sipush { short: i16 },
    Swap,
    Tableswitch,
    Wide,
}

/// Possible arguments of instruction `newarray`.
#[derive(Clone, Copy, Debug, Eq, PartialEq, Structural)]
pub enum NewArrayType {
    Boolean,
    Char,
    Float,
    Double,
    Byte,
    Short,
    Int,
    Long,
}

/// The element kind selected by a `newarray` operand byte.
pub open spec fn spec_new_array_type(b: u8) -> Option<NewArrayType> {
    match b {
        4u8 => Some(NewArrayType::Boolean),
        5u8 => Some(NewArrayType::Char),
        6u8 => Some(NewArrayType::Float),
        7u8 => Some(NewArrayType::Double),
        8u8 => Some(NewArrayType::Byte),
        9u8 => Some(NewArrayType::Short),
        10u8 => Some(NewArrayType::Int),
        11u8 => Some(NewArrayType::Long),
        _ => None,
    }
}

/// The instruction of an opcode that takes no operand, if the opcode is one.
pub open spec fn spec_op_no_arg(op: u8) -> Option<Instruction> {
    match op {
        0x32u8 => Some(Instruction::Aaload),
        0x53u8 => Some(Instruction::Aastore),
        0x01u8 => Some(Instruction::Aconst_null),
        0x2au8 => Some(Instruction::Aload_0),
        0x2bu8 => Some(Instruction::Aload_1),
        0x2cu8 => Some(Instruction::Aload_2),
        0x2du8 => Some(Instruction::Aload_3),
        0xb0u8 => Some(Instruction::Areturn),
        0xbeu8 => Some(Instruction::Arraylength),
        0x4bu8 => Some(Instruction::Astore_0),
        0x4cu8 => Some(Instruction::Astore_1),
        0x4du8 => Some(Instruction::Astore_2),
        0x4eu8 => Some(Instruction::Astore_3),
        0xbfu8 => Some(Instruction::Athrow),
        0x33u8 => Some(Instruction::Baload),
        0x54u8 => Some(Instruction::Bastore),
        0x34u8 => Some(Instruction::Caload),
        0x55u8 => Some(Instruction::Castore),
        0x90u8 => Some(Instruction::D2f),
        0x8eu8 => Some(Instruction::D2i),
        0x8fu8 => Some(Instruction::D2l),
        0x63u8 => Some(Instruction::Dadd),
        0x31u8 => Some(Instruction::Daload),
        0x52u8 => Some(Instruction::Dastore),
        0x98u8 => Some(Instruction::Dcmpg),
        0x97u8 => Some(Instruction::Dcmpl),
        0x0eu8 => Some(Instruction::Dconst_0),
        0x0fu8 => Some(Instruction::Dconst_1),
        0x6fu8 => Some(Instruction::Ddiv),
        0x26u8 => Some(Instruction::Dload_0),
        0x27u8 => Some(Instruction::Dload_1),
        0x28u8 => Some(Instruction::Dload_2),
        0x29u8 => Some(Instruction::Dload_3),
        0x6bu8 => Some(Instruction::Dmul),
        0x77u8 => Some(Instruction::Dneg),
        0x73u8 => Some(Instruction::Drem),
        0xafu8 => Some(Instruction::Dreturn),
        0x47u8 => Some(Instruction::Dstore_0),
        0x48u8 => Some(Instruction::Dstore_1),
        0x49u8 => Some(Instruction::Dstore_2),
        0x4au8 => Some(Instruction::Dstore_3),
        0x67u8 => Some(Instruction::Dsub),
        0x59u8 => Some(Instruction::Dup),
        0x5au8 => Some(Instruction::Dup_x1),
        0x5bu8 => Some(Instruction::Dup_x2),
        0x5cu8 => Some(Instruction::Dup2),
        0x5du8 => Some(Instruction::Dup2_x1),
        0x5eu8 => Some(Instruction::Dup2_x2),
        0x8du8 => Some(Instruction::F2d),
        0x8bu8 => Some(Instruction::F2i),
        0x8cu8 => Some(Instruction::F2l),
        0x62u8 => Some(Instruction::Fadd),
        0x30u8 => Some(Instruction::Faload),
        0x51u8 => Some(Instruction::Fastore),
        0x96u8 => Some(Instruction::Fcmpg),
        0x95u8 => Some(Instruction::Fcmpl),
        0x0bu8 => Some(Instruction::Fconst_0),
        0x0cu8 => Some(Instruction::Fconst_1),
        0x0du8 => Some(Instruction::Fconst_2),
        0x6eu8 => Some(Instruction::Fdiv),
        0x22u8 => Some(Instruction::Fload_0),
        0x23u8 => Some(Instruction::Fload_1),
        0x24u8 => Some(Instruction::Fload_2),
        0x25u8 => Some(Instruction::Fload_3),
        0x6au8 => Some(Instruction::Fmul),
        0x76u8 => Some(Instruction::Fneg),
        0x72u8 => Some(Instruction::Frem),
        0xaeu8 => Some(Instruction::Freturn),
        0x43u8 => Some(Instruction::Fstore_0),
        0x44u8 => Some(Instruction::Fstore_1),
        0x45u8 => Some(Instruction::Fstore_2),
        0x46u8 => Some(Instruction::Fstore_3),
        0x66u8 => Some(Instruction::Fsub),
        0x91u8 => Some(Instruction::I2b),
        0x92u8 => Some(Instruction::I2c),
        0x87u8 => Some(Instruction::I2d),
        0x86u8 => Some(Instruction::I2f),
        0x85u8 => Some(Instruction::I2l),
        0x93u8 => Some(Instruction::I2s),
        0x60u8 => Some(Instruction::Iadd),
        0x2eu8 => Some(Instruction::Iaload),
        0x7eu8 => Some(Instruction::Iand),
        0x4fu8 => Some(Instruction::Iastore),
        0x02u8 => Some(Instruction::Iconst_m1),
        0x03u8 => Some(Instruction::Iconst_0),
        0x04u8 => Some(Instruction::Iconst_1),
        0x05u8 => Some(Instruction::Iconst_2),
        0x06u8 => Some(Instruction::Iconst_3),
        0x07u8 => Some(Instruction::Iconst_4),
        0x08u8 => Some(Instruction::Iconst_5),
        0x6cu8 => Some(Instruction::Idiv),
        0x1au8 => Some(Instruction::Iload_0),
        0x1bu8 => Some(Instruction::Iload_1),
        0x1cu8 => Some(Instruction::Iload_2),
        0x1du8 => Some(Instruction::Iload_3),
        0x68u8 => Some(Instruction::Imul),
        0x74u8 => Some(Instruction::Ineg),
        0x80u8 => Some(Instruction::Ior),
        0x70u8 => Some(Instruction::Irem),
        0xacu8 => Some(Instruction::Ireturn),
        0x78u8 => Some(Instruction::Ishl),
        0x7au8 => Some(Instruction::Ishr),
        0x3bu8 => Some(Instruction::Istore_0),
        0x3cu8 => Some(Instruction::Istore_1),
        0x3du8 => Some(Instruction::Istore_2),
        0x3eu8 => Some(Instruction::Istore_3),
        0x64u8 => Some(Instruction::Isub),
        0x7cu8 => Some(Instruction::Iushr),
        0x82u8 => Some(Instruction::Ixor),
        0x8au8 => Some(Instruction::L2d),
        0x89u8 => Some(Instruction::L2f),
        0x88u8 => Some(Instruction::L2i),
        0x61u8 => Some(Instruction::Ladd),
        0x2fu8 => Some(Instruction::Laload),
        0x7fu8 => Some(Instruction::Land),
        0x50u8 => Some(Instruction::Lastore),
        0x94u8 => Some(Instruction::Lcmp),
        0x09u8 => Some(Instruction::Lconst_0),
        0x0au8 => Some(Instruction::Lconst_1),
        0x6du8 => Some(Instruction::Ldiv),
        0x1eu8 => Some(Instruction::Lload_0),
        0x1fu8 => Some(Instruction::Lload_1),
        0x20u8 => Some(Instruction::Lload_2),
        0x21u8 => Some(Instruction::Lload_3),
        0x69u8 => Some(Instruction::Lmul),
        0x75u8 => Some(Instruction::Lneg),
        0x81u8 => Some(Instruction::Lor),
        0x71u8 => Some(Instruction::Lrem),
        0xadu8 => Some(Instruction::Lreturn),
        0x79u8 => Some(Instruction::Lshl),
        0x7bu8 => Some(Instruction::Lshr),
        0x3fu8 => Some(Instruction::Lstore_0),
        0x40u8 => Some(Instruction::Lstore_1),
        0x41u8 => Some(Instruction::Lstore_2),
        0x42u8 => Some(Instruction::Lstore_3),
        0x65u8 => Some(Instruction::Lsub),
        0x7du8 => Some(Instruction::Lushr),
        0x83u8 => Some(Instruction::Lxor),
        0xc2u8 => Some(Instruction::Monitorenter),
        0xc3u8 => Some(Instruction::Monitorexit),
        0x00u8 => Some(Instruction::Nop),
        0x57u8 => Some(Instruction::Pop),
        0x58u8 => Some(Instruction::Pop2),
        0xb1u8 => Some(Instruction::Return),
        0x35u8 => Some(Instruction::Saload),
        0x56u8 => Some(Instruction::Sastore),
        0x5fu8 => Some(Instruction::Swap),
        _ => None,
    }
}

/// The instruction of an opcode whose one operand is an unsigned byte, if
/// the opcode is one.
pub open spec fn spec_op_u8_arg(op: u8, b: u8) -> Option<Instruction> {
    match op {
        0x19u8 => Some(Instruction::Aload { index: b }),
        0x3au8 => Some(Instruction::Astore { index: b }),
        0x10u8 => Some(Instruction::Bipush { byte: b }),
        0x18u8 => Some(Instruction::Dload { index: b }),
        0x39u8 => Some(Instruction::Dstore { index: b }),
        0x17u8 => Some(Instruction::Fload { index: b }),
        0x38u8 => Some(Instruction::Fstore { index: b }),
        0x15u8 => Some(Instruction::Iload { index: b }),
        0x36u8 => Some(Instruction::Istore { index: b }),
        0x12u8 => Some(Instruction::Ldc { index: b }),
        0x16u8 => Some(Instruction::Lload { index: b }),
        0x37u8 => Some(Instruction::Lstore { index: b }),
        0xa9u8 => Some(Instruction::Ret { index: b }),
        _ => None,
    }
}

/// The instruction of an opcode whose one operand is a 16-bit pool index,
/// if the opcode is one.
pub open spec fn spec_op_u16_arg(op: u8, v: u16) -> Option<Instruction> {
    match op {
        0xbdu8 => Some(Instruction::Anewarray { class: v }),
        0xc0u8 => Some(Instruction::Checkcast { class: v }),
        0xb4u8 => Some(Instruction::Getfield { field: v }),
        0xb2u8 => Some(Instruction::Getstatic { field: v }),
        0xc1u8 => Some(Instruction::Instanceof { class: v }),
        0xb7u8 => Some(Instruction::Invokespecial { method: v }),
        0xb8u8 => Some(Instruction::Invokestatic { method: v }),
        0xb6u8 => Some(Instruction::Invokevirtual { method: v }),
        0x13u8 => Some(Instruction::Ldc_w { index: v }),
        0x14u8 => Some(Instruction::Ldc2_w { index: v }),
        0xbbu8 => Some(Instruction::New { class: v }),
        0xb5u8 => Some(Instruction::Putfield { field: v }),
        0xb3u8 => Some(Instruction::Putstatic { field: v }),
        _ => None,
    }
}

/// The instruction of a branch opcode with its resolved absolute target, if
/// the opcode is one.
pub open spec fn spec_op_branch(op: u8, target: u16) -> Option<Instruction> {
    match op {
        0xa7u8 => Some(Instruction::Goto { jump_address: target }),
        0xa5u8 => Some(Instruction::If_acmpeq { jump_address: target }),
        0xa6u8 => Some(Instruction::If_acmpne { jump_address: target }),
        0x9fu8 => Some(Instruction::If_icmpeq { jump_address: target }),
        0xa0u8 => Some(Instruction::If_icmpne { jump_address: target }),
        0xa1u8 => Some(Instruction::If_icmplt { jump_address: target }),
        0xa2u8 => Some(Instruction::If_icmpge { jump_address: target }),
        0xa3u8 => Some(Instruction::If_icmpgt { jump_address: target }),
        0xa4u8 => Some(Instruction::If_icmple { jump_address: target }),
        0x99u8 => Some(Instruction::Ifeq { jump_address: target }),
        0x9au8 => Some(Instruction::Ifne { jump_address: target }),
        0x9bu8 => Some(Instruction::Iflt { jump_address: target }),
        0x9cu8 => Some(Instruction::Ifge { jump_address: target }),
        0x9du8 => Some(Instruction::Ifgt { jump_address: target }),
        0x9eu8 => Some(Instruction::Ifle { jump_address: target }),
        0xc7u8 => Some(Instruction::Ifnonnull { jump_address: target }),
        0xc6u8 => Some(Instruction::Ifnull { jump_address: target }),
        0xa8u8 => Some(Instruction::Jsr { jump_address: target }),
        _ => None,
    }
}

/// The opcodes of this decoder's profile that are recognized but not
/// supported: the wide-indexed jumps, the switch instructions, and the
/// `wide` prefix. They fail with the distinct unsupported-instruction
/// message rather than the invalid-opcode one.
pub open spec fn spec_op_unsupported(op: u8) -> bool {
    op == 0xc8 || op == 0xc9 || op == 0xaa || op == 0xab || op == 0xc4
}

/// The byte at `i`, if it is in bounds.
pub open spec fn spec_code_u8(code: Seq<u8>, i: int) -> Option<u8> {
    if 0 <= i < code.len() {
        Some(code[i])
    } else {
        None
    }
}

/// The big-endian 16-bit value at `i`, if both bytes are in bounds.
pub open spec fn spec_code_u16(code: Seq<u8>, i: int) -> Option<u16> {
    if 0 <= i && i + 2 <= code.len() {
        Some(spec_be_u16(code[i], code[i + 1]) as u16)
    } else {
        None
    }
}

/// What resolving a branch offset at opcode address `addr` yields: the two
/// bytes after the opcode, read as a signed 16-bit offset relative to the
/// address of the opcode byte itself, give the absolute target; a target
/// below zero or above the 16-bit address space is fatal.
pub open spec fn spec_branch_target(code: Seq<u8>, addr: int) -> Result<(u16, int), Seq<char>> {
    match spec_code_u16(code, addr + 1) {
        None => Err("cannot find arguments for instruction"@),
        Some(v) => {
            let target = addr + (v as i16);
            if 0 <= target <= 0xFFFF {
                Ok((target as u16, addr + 3))
            } else {
                Err("invalid jump offset"@)
            }
        },
    }
}

/// What decoding one instruction at `address` yields: the instruction and
/// the address of the next one, or the message of the failure.
pub open spec fn spec_parse_instruction(code: Seq<u8>, address: int) -> Result<
    (Instruction, int),
    Seq<char>,
> {
    match spec_code_u8(code, address) {
        None => Err("cannot read instruction"@),
        Some(op) => {
            let a = address + 1;
            if spec_op_no_arg(op) is Some {
                Ok((spec_op_no_arg(op)->0, a))
            } else if spec_op_u8_arg(op, 0) is Some {
                match spec_code_u8(code, a) {
                    None => Err("cannot find arguments for instruction"@),
                    Some(b) => Ok((spec_op_u8_arg(op, b)->0, a + 1)),
                }
            } else if spec_op_u16_arg(op, 0) is Some {
                match spec_code_u16(code, a) {
                    None => Err("cannot find arguments for instruction"@),
                    Some(v) => Ok((spec_op_u16_arg(op, v)->0, a + 2)),
                }
            } else if spec_op_branch(op, 0) is Some {
                match spec_branch_target(code, address) {
                    Err(m) => Err(m),
                    Ok((target, next)) => Ok((spec_op_branch(op, target)->0, next)),
                }
            } else if op == 0x84 {
                match spec_code_u8(code, a) {
                    None => Err("cannot find arguments for instruction"@),
                    Some(index) => match spec_code_u8(code, a + 1) {
                        None => Err("cannot find arguments for instruction"@),
                        Some(c) => Ok(
                            (Instruction::Iinc { index, constant: c as i8 }, a + 2),
                        ),
                    },
                }
            } else if op == 0x11 {
                match spec_code_u16(code, a) {
                    None => Err("cannot find arguments for instruction"@),
                    Some(v) => Ok((Instruction::Sipush { short: v as i16 }, a + 2)),
                }
            } else if op == 0xc5 {
                match spec_code_u16(code, a) {
                    None => Err("cannot find arguments for instruction"@),
                    Some(class) => match spec_code_u8(code, a + 2) {
                        None => Err("cannot find arguments for instruction"@),
                        Some(dimensions) => Ok(
                            (Instruction::Multianewarray { class, dimensions }, a + 3),
                        ),
                    },
                }
            } else if op == 0xb9 {
                match spec_code_u16(code, a) {
                    None => Err("cannot find arguments for instruction"@),
                    Some(method) => match spec_code_u8(code, a + 2) {
                        None => Err("cannot find arguments for instruction"@),
                        Some(count) => match spec_code_u8(code, a + 3) {
                            None => Err("cannot find arguments for instruction"@),
                            Some(z) => {
                                if z != 0 {
                                    Err(
                                        "expected a zero byte after invokeinterface at address "@
                                            + spec_dec_nat(address as nat),
                                    )
                                } else {
                                    Ok((Instruction::Invokeinterface { method, count }, a + 4))
                                }
                            },
                        },
                    },
                }
            } else if op == 0xba {
                match spec_code_u16(code, a) {
                    None => Err("cannot find arguments for instruction"@),
                    Some(call_site) => match spec_code_u16(code, a + 2) {
                        None => Err("cannot find arguments for instruction"@),
                        Some(z) => {
                            if z != 0 {
                                Err(
                                    "expected two zero bytes after invokedynamic at address "@
                                        + spec_dec_nat(address as nat),
                                )
                            } else {
                                Ok((Instruction::Invokedynamic { call_site }, a + 4))
                            }
                        },
                    },
                }
            } else if op == 0xbc {
                match spec_code_u8(code, a) {
                    None => Err("cannot find arguments for instruction"@),
                    Some(b) => match spec_new_array_type(b) {
                        None => Err(
                            "invalid type for newarray: 0x"@ + spec_hex_nat(b as nat, 2)
                                + " at address "@ + spec_dec_nat(address as nat),
                        ),
                        Some(array_type) => Ok((Instruction::Newarray { array_type }, a + 1)),
                    },
                }
            } else if spec_op_unsupported(op) {
                Err("unsupported instruction"@)
            } else {
                Err(
                    "invalid op code: 0x"@ + spec_hex_nat(op as nat, 2) + " at address "@
                        + spec_dec_nat(address as nat),
                )
            }
        },
    }
}

/// Law: a branch offset is a signed 16-bit value relative to the address of
/// the opcode byte itself, and resolves to an absolute target; a target
/// below zero or above the 16-bit address space is fatal with the
/// invalid-jump-offset message.
pub proof fn lemma_branch_target_resolution(code: Seq<u8>, addr: int, v: u16)
    requires
        spec_code_u16(code, addr + 1) == Some(v),
    ensures
        0 <= addr + (v as i16) <= 0xFFFF ==> spec_branch_target(code, addr) == Ok::<
            (u16, int),
            Seq<char>,
        >(((addr + (v as i16)) as u16, addr + 3)),
        !(0 <= addr + (v as i16) <= 0xFFFF) ==> spec_branch_target(code, addr) == Err::<
            (u16, int),
            Seq<char>,
        >("invalid jump offset"@),
{
}

/// A successful decode advances, and never past the end of the code.
pub proof fn lemma_parse_instruction_advances(code: Seq<u8>, address: int)
    ensures
        spec_parse_instruction(code, address) matches Ok((ins, next)) ==> address < next
            <= code.len(),
{
}

/// What decoding the whole stream from `address` to the end yields: the
/// ordered (address, instruction) pairs, or the first failure.
pub open spec fn spec_parse_instructions(code: Seq<u8>, address: int) -> Result<
    Seq<(usize, Instruction)>,
    Seq<char>,
>
    decreases code.len() - address,
    via check_spec_parse_instructions_decreases
{
    if !(0 <= address < code.len()) {
        Ok(Seq::empty())
    } else {
        match spec_parse_instruction(code, address) {
            Err(m) => Err(m),
            Ok((ins, next)) => match spec_parse_instructions(code, next) {
                Err(m) => Err(m),
                Ok(rest) => Ok(seq![(address as usize, ins)] + rest),
            },
        }
    }
}

#[via_fn]
proof fn check_spec_parse_instructions_decreases(code: Seq<u8>, address: int) {
    lemma_parse_instruction_advances(code, address);
}

fn arguments_error() -> (r: ClassReaderError)
    ensures
        r@ == (ClassReaderErrorView::InvalidClassData {
            message: "cannot find arguments for instruction"@,
            index: None,
        }),
{
    ClassReaderError::invalid_class_data(String::from_str("cannot find arguments for instruction"))
}

impl Instruction {

    /// Reads one instruction from the bytecode, and returns it along with
    /// the address of the start of the next instruction.
    #[verifier::rlimit(100)]
    pub fn parse(raw_code: &[u8], address: usize) -> (r: Result<(Instruction, usize), ClassReaderError>)
        ensures
            match spec_parse_instruction(raw_code@, address as int) {
                Ok((ins, next)) => r matches Ok((decoded, n)) && decoded == ins && n as int == next,
                Err(m) => r matches Err(e) && e@ == (ClassReaderErrorView::InvalidClassData {
                    message: m,
                    index: None,
                }),
            },
    {
        let op_byte = match Self::byte_at(raw_code, address) {
            Ok(b) => b,
            Err(e) => {
                return Err(e);
            },
        };
        let code_len = raw_code.len();
        proof {
            assert(spec_code_u8(raw_code@, address as int) is Some);
            assert(address < code_len);
        }
        let instruction_address = address;
        let mut address = address + 1;
        let op_code = match op_byte {
            0x32 => Instruction::Aaload,
            0x53 => Instruction::Aastore,
            0x01 => Instruction::Aconst_null,
            0x2a => Instruction::Aload_0,
            0x2b => Instruction::Aload_1,
            0x2c => Instruction::Aload_2,
            0x2d => Instruction::Aload_3,
            0xb0 => Instruction::Areturn,
            0xbe => Instruction::Arraylength,
            0x4b => Instruction::Astore_0,
            0x4c => Instruction::Astore_1,
            0x4d => Instruction::Astore_2,
            0x4e => Instruction::Astore_3,
            0xbf => Instruction::Athrow,
            0x33 => Instruction::Baload,
            0x54 => Instruction::Bastore,
            0x34 => Instruction::Caload,
            0x55 => Instruction::Castore,
            0x90 => Instruction::D2f,
            0x8e => Instruction::D2i,
            0x8f => Instruction::D2l,
            0x63 => Instruction::Dadd,
            0x31 => Instruction::Daload,
            0x52 => Instruction::Dastore,
            0x98 => Instruction::Dcmpg,
            0x97 => Instruction::Dcmpl,
            0x0e => Instruction::Dconst_0,
            0x0f => Instruction::Dconst_1,
            0x6f => Instruction::Ddiv,
            0x26 => Instruction::Dload_0,
            0x27 => Instruction::Dload_1,
            0x28 => Instruction::Dload_2,
            0x29 => Instruction::Dload_3,
            0x6b => Instruction::Dmul,
            0x77 => Instruction::Dneg,
            0x73 => Instruction::Drem,
            0xaf => Instruction::Dreturn,
            0x47 => Instruction::Dstore_0,
            0x48 => Instruction::Dstore_1,
            0x49 => Instruction::Dstore_2,
            0x4a => Instruction::Dstore_3,
            0x67 => Instruction::Dsub,
            0x59 => Instruction::Dup,
            0x5a => Instruction::Dup_x1,
            0x5b => Instruction::Dup_x2,
            0x5c => Instruction::Dup2,
            0x5d => Instruction::Dup2_x1,
            0x5e => Instruction::Dup2_x2,
            0x8d => Instruction::F2d,
            0x8b => Instruction::F2i,
            0x8c => Instruction::F2l,
            0x62 => Instruction::Fadd,
            0x30 => Instruction::Faload,
            0x51 => Instruction::Fastore,
            0x96 => Instruction::Fcmpg,
            0x95 => Instruction::Fcmpl,
            0x0b => Instruction::Fconst_0,
            0x0c => Instruction::Fconst_1,
            0x0d => Instruction::Fconst_2,
            0x6e => Instruction::Fdiv,
            0x22 => Instruction::Fload_0,
            0x23 => Instruction::Fload_1,
            0x24 => Instruction::Fload_2,
            0x25 => Instruction::Fload_3,
            0x6a => Instruction::Fmul,
            0x76 => Instruction::Fneg,
            0x72 => Instruction::Frem,
            0xae => Instruction::Freturn,
            0x43 => Instruction::Fstore_0,
            0x44 => Instruction::Fstore_1,
            0x45 => Instruction::Fstore_2,
            0x46 => Instruction::Fstore_3,
            0x66 => Instruction::Fsub,
            0x91 => Instruction::I2b,
            0x92 => Instruction::I2c,
            0x87 => Instruction::I2d,
            0x86 => Instruction::I2f,
            0x85 => Instruction::I2l,
            0x93 => Instruction::I2s,
            0x60 => Instruction::Iadd,
            0x2e => Instruction::Iaload,
            0x7e => Instruction::Iand,
            0x4f => Instruction::Iastore,
            0x02 => Instruction::Iconst_m1,
            0x03 => Instruction::Iconst_0,
            0x04 => Instruction::Iconst_1,
            0x05 => Instruction::Iconst_2,
            0x06 => Instruction::Iconst_3,
            0x07 => Instruction::Iconst_4,
            0x08 => Instruction::Iconst_5,
            0x6c => Instruction::Idiv,
            0x1a => Instruction::Iload_0,
            0x1b => Instruction::Iload_1,
            0x1c => Instruction::Iload_2,
            0x1d => Instruction::Iload_3,
            0x68 => Instruction::Imul,
            0x74 => Instruction::Ineg,
            0x80 => Instruction::Ior,
            0x70 => Instruction::Irem,
            0xac => Instruction::Ireturn,
            0x78 => Instruction::Ishl,
            0x7a => Instruction::Ishr,
            0x3b => Instruction::Istore_0,
            0x3c => Instruction::Istore_1,
            0x3d => Instruction::Istore_2,
            0x3e => Instruction::Istore_3,
            0x64 => Instruction::Isub,
            0x7c => Instruction::Iushr,
            0x82 => Instruction::Ixor,
            0x8a => Instruction::L2d,
            0x89 => Instruction::L2f,
            0x88 => Instruction::L2i,
            0x61 => Instruction::Ladd,
            0x2f => Instruction::Laload,
            0x7f => Instruction::Land,
            0x50 => Instruction::Lastore,
            0x94 => Instruction::Lcmp,
            0x09 => Instruction::Lconst_0,
            0x0a => Instruction::Lconst_1,
            0x6d => Instruction::Ldiv,
            0x1e => Instruction::Lload_0,
            0x1f => Instruction::Lload_1,
            0x20 => Instruction::Lload_2,
            0x21 => Instruction::Lload_3,
            0x69 => Instruction::Lmul,
            0x75 => Instruction::Lneg,
            0x81 => Instruction::Lor,
            0x71 => Instruction::Lrem,
            0xad => Instruction::Lreturn,
            0x79 => Instruction::Lshl,
            0x7b => Instruction::Lshr,
            0x3f => Instruction::Lstore_0,
            0x40 => Instruction::Lstore_1,
            0x41 => Instruction::Lstore_2,
            0x42 => Instruction::Lstore_3,
            0x65 => Instruction::Lsub,
            0x7d => Instruction::Lushr,
            0x83 => Instruction::Lxor,
            0xc2 => Instruction::Monitorenter,
            0xc3 => Instruction::Monitorexit,
            0x00 => Instruction::Nop,
            0x57 => Instruction::Pop,
            0x58 => Instruction::Pop2,
            0xb1 => Instruction::Return,
            0x35 => Instruction::Saload,
            0x56 => Instruction::Sastore,
            0x5f => Instruction::Swap,
            0x19 => Instruction::Aload { index: Self::read_u8(raw_code, &mut address)? },
            0x3a => Instruction::Astore { index: Self::read_u8(raw_code, &mut address)? },
            0x10 => Instruction::Bipush { byte: Self::read_u8(raw_code, &mut address)? },
            0x18 => Instruction::Dload { index: Self::read_u8(raw_code, &mut address)? },
            0x39 => Instruction::Dstore { index: Self::read_u8(raw_code, &mut address)? },
            0x17 => Instruction::Fload { index: Self::read_u8(raw_code, &mut address)? },
            0x38 => Instruction::Fstore { index: Self::read_u8(raw_code, &mut address)? },
            0x15 => Instruction::Iload { index: Self::read_u8(raw_code, &mut address)? },
            0x36 => Instruction::Istore { index: Self::read_u8(raw_code, &mut address)? },
            0x12 => Instruction::Ldc { index: Self::read_u8(raw_code, &mut address)? },
            0x16 => Instruction::Lload { index: Self::read_u8(raw_code, &mut address)? },
            0x37 => Instruction::Lstore { index: Self::read_u8(raw_code, &mut address)? },
            0xa9 => Instruction::Ret { index: Self::read_u8(raw_code, &mut address)? },
            0xbd => Instruction::Anewarray { class: Self::read_u16(raw_code, &mut address)? },
            0xc0 => Instruction::Checkcast { class: Self::read_u16(raw_code, &mut address)? },
            0xb4 => Instruction::Getfield { field: Self::read_u16(raw_code, &mut address)? },
            0xb2 => Instruction::Getstatic { field: Self::read_u16(raw_code, &mut address)? },
            0xc1 => Instruction::Instanceof { class: Self::read_u16(raw_code, &mut address)? },
            0xb7 => Instruction::Invokespecial { method: Self::read_u16(raw_code, &mut address)? },
            0xb8 => Instruction::Invokestatic { method: Self::read_u16(raw_code, &mut address)? },
            0xb6 => Instruction::Invokevirtual { method: Self::read_u16(raw_code, &mut address)? },
            0x13 => Instruction::Ldc_w { index: Self::read_u16(raw_code, &mut address)? },
            0x14 => Instruction::Ldc2_w { index: Self::read_u16(raw_code, &mut address)? },
            0xbb => Instruction::New { class: Self::read_u16(raw_code, &mut address)? },
            0xb5 => Instruction::Putfield { field: Self::read_u16(raw_code, &mut address)? },
            0xb3 => Instruction::Putstatic { field: Self::read_u16(raw_code, &mut address)? },
            0xa7 => Instruction::Goto { jump_address: Self::read_offset(raw_code, &mut address)? },
            0xa5 => Instruction::If_acmpeq { jump_address: Self::read_offset(raw_code, &mut address)? },
            0xa6 => Instruction::If_acmpne { jump_address: Self::read_offset(raw_code, &mut address)? },
            0x9f => Instruction::If_icmpeq { jump_address: Self::read_offset(raw_code, &mut address)? },
            0xa0 => Instruction::If_icmpne { jump_address: Self::read_offset(raw_code, &mut address)? },
            0xa1 => Instruction::If_icmplt { jump_address: Self::read_offset(raw_code, &mut address)? },
            0xa2 => Instruction::If_icmpge { jump_address: Self::read_offset(raw_code, &mut address)? },
            0xa3 => Instruction::If_icmpgt { jump_address: Self::read_offset(raw_code, &mut address)? },
            0xa4 => Instruction::If_icmple { jump_address: Self::read_offset(raw_code, &mut address)? },
            0x99 => Instruction::Ifeq { jump_address: Self::read_offset(raw_code, &mut address)? },
            0x9a => Instruction::Ifne { jump_address: Self::read_offset(raw_code, &mut address)? },
            0x9b => Instruction::Iflt { jump_address: Self::read_offset(raw_code, &mut address)? },
            0x9c => Instruction::Ifge { jump_address: Self::read_offset(raw_code, &mut address)? },
            0x9d => Instruction::Ifgt { jump_address: Self::read_offset(raw_code, &mut address)? },
            0x9e => Instruction::Ifle { jump_address: Self::read_offset(raw_code, &mut address)? },
            0xc7 => Instruction::Ifnonnull { jump_address: Self::read_offset(raw_code, &mut address)? },
            0xc6 => Instruction::Ifnull { jump_address: Self::read_offset(raw_code, &mut address)? },
            0xa8 => Instruction::Jsr { jump_address: Self::read_offset(raw_code, &mut address)? },
            0x84 => Instruction::Iinc {
                index: Self::read_u8(raw_code, &mut address)?,
                constant: Self::read_i8(raw_code, &mut address)?,
            },
            0x11 => Instruction::Sipush { short: Self::read_i16(raw_code, &mut address)? },
            0xc5 => Instruction::Multianewarray {
                class: Self::read_u16(raw_code, &mut address)?,
                dimensions: Self::read_u8(raw_code, &mut address)?,
            },
            0xb9 => {
                let constant_index = Self::read_u16(raw_code, &mut address)?;
                let count = Self::read_u8(raw_code, &mut address)?;
                if Self::read_u8(raw_code, &mut address)? != 0 {
                    return Err(
                        ClassReaderError::invalid_class_data(
                            String::from_str(
                                "expected a zero byte after invokeinterface at address ",
                            ).concat(dec_u64(instruction_address as u64).as_str()),
                        ),
                    );
                }
                Instruction::Invokeinterface { method: constant_index, count }
            },
            0xba => {
                let constant_index = Self::read_u16(raw_code, &mut address)?;
                if Self::read_u16(raw_code, &mut address)? != 0 {
                    return Err(
                        ClassReaderError::invalid_class_data(
                            String::from_str(
                                "expected two zero bytes after invokedynamic at address ",
                            ).concat(dec_u64(instruction_address as u64).as_str()),
                        ),
                    );
                }
                Instruction::Invokedynamic { call_site: constant_index }
            },
            0xbc => {
                let array_type_byte = Self::read_u8(raw_code, &mut address)?;
                let array_type = match array_type_byte {
                    4 => NewArrayType::Boolean,
                    5 => NewArrayType::Char,
                    6 => NewArrayType::Float,
                    7 => NewArrayType::Double,
                    8 => NewArrayType::Byte,
                    9 => NewArrayType::Short,
                    10 => NewArrayType::Int,
                    11 => NewArrayType::Long,
                    _ => {
                        return Err(
                            ClassReaderError::invalid_class_data(
                                String::from_str("invalid type for newarray: 0x").concat(
                                    hex_u64(array_type_byte as u64, 2).as_str(),
                                ).concat(" at address ").concat(
                                    dec_u64(instruction_address as u64).as_str(),
                                ),
                            ),
                        );
                    },
                };
                Instruction::Newarray { array_type }
            },
            0xc8 | 0xc9 | 0xaa | 0xab | 0xc4 => {
                return Err(
                    ClassReaderError::invalid_class_data(
                        String::from_str("unsupported instruction"),
                    ),
                );
            },
            _ => {
                return Err(
                    ClassReaderError::invalid_class_data(
                        String::from_str("invalid op code: 0x").concat(
                            hex_u64(op_byte as u64, 2).as_str(),
                        ).concat(" at address ").concat(
                            dec_u64(instruction_address as u64).as_str(),
                        ),
                    ),
                );
            },
        };
        Ok((op_code, address))
    }


    /// Parses all instructions in the given raw code, pairing each with its
    /// address, and failing on the first invalid or unsupported instruction,
    /// at whatever address that occurred.
    #[verifier::loop_isolation(false)]
    pub fn parse_instructions(raw_code: &[u8]) -> (r: Result<
        Vec<(usize, Instruction)>,
        ClassReaderError,
    >)
        ensures
            match spec_parse_instructions(raw_code@, 0) {
                Ok(s) => r matches Ok(v) && v@ == s,
                Err(m) => r matches Err(e) && e@ == (ClassReaderErrorView::InvalidClassData {
                    message: m,
                    index: None,
                }),
            },
    {
        let mut instructions: Vec<(usize, Instruction)> = Vec::new();
        let mut index: usize = 0;
        while index < raw_code.len()
            invariant
                index <= raw_code@.len(),
                spec_parse_instructions(raw_code@, 0) == (match spec_parse_instructions(
                    raw_code@,
                    index as int,
                ) {
                    Ok(rest) => Ok::<Seq<(usize, Instruction)>, Seq<char>>(instructions@ + rest),
                    Err(m) => Err::<Seq<(usize, Instruction)>, Seq<char>>(m),
                }),
            decreases raw_code@.len() - index,
        {
            let ghost previous = instructions@;
            let (op_code, new_index) = match Self::parse(raw_code, index) {
                Ok(p) => p,
                Err(e) => {
                    return Err(e);
                },
            };
            proof {
                lemma_parse_instruction_advances(raw_code@, index as int);
            }
            instructions.push((index, op_code));
            proof {
                assert(instructions@ =~= previous + seq![(index, op_code)]);
                match spec_parse_instructions(raw_code@, new_index as int) {
                    Ok(rest) => {
                        assert(previous + (seq![(index, op_code)] + rest) =~= (previous + seq![
                            (index, op_code),
                        ]) + rest);
                    },
                    Err(_) => {},
                }
            }
            index = new_index;
        }
        proof {
            assert(instructions@ + Seq::<(usize, Instruction)>::empty() =~= instructions@);
        }
        Ok(instructions)
    }

    fn byte_at(raw_code: &[u8], address: usize) -> (r: Result<u8, ClassReaderError>)
        ensures
            match spec_code_u8(raw_code@, address as int) {
                Some(b) => r == Ok::<u8, ClassReaderError>(b),
                None => r matches Err(e) && e@ == (ClassReaderErrorView::InvalidClassData {
                    message: "cannot read instruction"@,
                    index: None,
                }),
            },
    {
        if address < raw_code.len() {
            Ok(raw_code[address])
        } else {
            Err(
                ClassReaderError::invalid_class_data(
                    String::from_str("cannot read instruction"),
                ),
            )
        }
    }

    fn read_u8(raw_code: &[u8], address: &mut usize) -> (r: Result<u8, ClassReaderError>)
        ensures
            match spec_code_u8(raw_code@, *old(address) as int) {
                Some(b) => r == Ok::<u8, ClassReaderError>(b) && *final(address) == *old(address)
                    + 1,
                None => (r matches Err(e) && e@ == (ClassReaderErrorView::InvalidClassData {
                    message: "cannot find arguments for instruction"@,
                    index: None,
                })) && *final(address) == *old(address),
            },
    {
        if *address < raw_code.len() {
            let b = raw_code[*address];
            *address = *address + 1;
            Ok(b)
        } else {
            Err(arguments_error())
        }
    }

    fn read_i8(raw_code: &[u8], address: &mut usize) -> (r: Result<i8, ClassReaderError>)
        ensures
            match spec_code_u8(raw_code@, *old(address) as int) {
                Some(b) => r == Ok::<i8, ClassReaderError>(b as i8) && *final(address) == *old(address) + 1,
                None => (r matches Err(e) && e@ == (ClassReaderErrorView::InvalidClassData {
                    message: "cannot find arguments for instruction"@,
                    index: None,
                })) && *final(address) == *old(address),
            },
    {
        match Self::read_u8(raw_code, address) {
            Ok(b) => Ok(#[verifier::truncate] (b as i8)),
            Err(e) => Err(e),
        }
    }

    fn read_u16(raw_code: &[u8], address: &mut usize) -> (r: Result<u16, ClassReaderError>)
        ensures
            match spec_code_u16(raw_code@, *old(address) as int) {
                Some(v) => r == Ok::<u16, ClassReaderError>(v) && *final(address) == *old(address)
                    + 2,
                None => (r matches Err(e) && e@ == (ClassReaderErrorView::InvalidClassData {
                    message: "cannot find arguments for instruction"@,
                    index: None,
                })) && *final(address) == *old(address),
            },
    {
        if *address < raw_code.len() && 2 <= raw_code.len() - *address {
            let b0 = raw_code[*address];
            let b1 = raw_code[*address + 1];
            *address = *address + 2;
            Ok((b0 as u16) * 0x100 + (b1 as u16))
        } else {
            Err(arguments_error())
        }
    }

    fn read_i16(raw_code: &[u8], address: &mut usize) -> (r: Result<i16, ClassReaderError>)
        ensures
            match spec_code_u16(raw_code@, *old(address) as int) {
                Some(v) => r == Ok::<i16, ClassReaderError>(v as i16) && *final(address) == *old(address) + 2,
                None => (r matches Err(e) && e@ == (ClassReaderErrorView::InvalidClassData {
                    message: "cannot find arguments for instruction"@,
                    index: None,
                })) && *final(address) == *old(address),
            },
    {
        match Self::read_u16(raw_code, address) {
            Ok(v) => Ok(#[verifier::truncate] (v as i16)),
            Err(e) => Err(e),
        }
    }

    /// Reads a signed 16-bit branch offset and resolves it to an absolute
    /// target, relative to the address of the opcode byte (one before the
    /// current read position).
    fn read_offset(raw_code: &[u8], address: &mut usize) -> (r: Result<u16, ClassReaderError>)
        requires
            *old(address) >= 1,
        ensures
            match spec_branch_target(raw_code@, *old(address) - 1) {
                Ok((t, next)) => r == Ok::<u16, ClassReaderError>(t) && *final(address) == next,
                Err(m) => r matches Err(e) && e@ == (ClassReaderErrorView::InvalidClassData {
                    message: m,
                    index: None,
                }),
            },
    {
        let instruction_address = *address - 1;
        let offset = match Self::read_i16(raw_code, address) {
            Ok(v) => v,
            Err(e) => {
                return Err(e);
            },
        };
        if offset >= 0 {
            match instruction_address.checked_add(offset as usize) {
                Some(target) if target <= 0xFFFF => Ok(target as u16),
                _ => Err(
                    ClassReaderError::invalid_class_data(
                        String::from_str("invalid jump offset"),
                    ),
                ),
            }
        } else {
            match instruction_address.checked_sub((-(offset as i32)) as usize) {
                Some(target) if target <= 0xFFFF => Ok(target as u16),
                _ => Err(
                    ClassReaderError::invalid_class_data(
                        String::from_str("invalid jump offset"),
                    ),
                ),
            }
        }
    }
}

} // verus!
