use do_core::instruction::{Instruction, OpCode};
use do_core::Error;

#[test]
fn test_instruction_disassemble_add_r1_r3() {
    let insn_bytes: u32 = 0x1842;
    let insn = Instruction::disassemble(insn_bytes).unwrap();

    assert_eq!(insn.opcode, OpCode::ADD);
    assert_eq!(insn.op0, 1);
    assert_eq!(insn.op1, 3);
}

#[test]
fn test_instruction_disassemble_xor_r1_r3() {
    let insn_bytes: u32 = 0x1843;
    let insn = Instruction::disassemble(insn_bytes).unwrap();

    assert_eq!(insn.opcode, OpCode::XOR);
    assert_eq!(insn.op0, 1);
    assert_eq!(insn.op1, 3);
}

#[test]
fn test_instruction_disassemble_ldw_r1_r3() {
    let insn_bytes: u32 = 0x1840;
    let insn = Instruction::disassemble(insn_bytes).unwrap();

    assert_eq!(insn.opcode, OpCode::LDW);
    assert_eq!(insn.op0, 1);
    assert_eq!(insn.op1, 3);
}

#[test]
fn test_instruction_disassemble_stw_r1_r3() {
    let insn_bytes: u32 = 0x1841;
    let insn = Instruction::disassemble(insn_bytes).unwrap();

    assert_eq!(insn.opcode, OpCode::STW);
    assert_eq!(insn.op0, 1);
    assert_eq!(insn.op1, 3);
}

#[test]
fn test_instruction_disassemble_shr_r1_r3() {
    let insn_bytes: u32 = 0x1844;
    let insn = Instruction::disassemble(insn_bytes).unwrap();

    assert_eq!(insn.opcode, OpCode::SHR);
    assert_eq!(insn.op0, 1);
    assert_eq!(insn.op1, 3);
}

#[test]
fn test_instruction_disassemble_shl_r1_r3() {
    let insn_bytes: u32 = 0x1845;
    let insn = Instruction::disassemble(insn_bytes).unwrap();

    assert_eq!(insn.opcode, OpCode::SHL);
    assert_eq!(insn.op0, 1);
    assert_eq!(insn.op1, 3);
}

#[test]
fn test_instruction_disassemble_is_pure() {
    let insn_bytes: u32 = 0x1842;
    let first = Instruction::disassemble(insn_bytes).unwrap();
    let second = Instruction::disassemble(insn_bytes).unwrap();

    assert_eq!(first, second);
}

#[test]
fn test_instruction_disassemble_invalid_opcode_full_mask() {
    // The 6-bit opcode field of 0x067f is the full mask, which maps to
    // nothing in the opcode table.
    let insn_bytes: u32 = 0x067f;
    let err = Instruction::disassemble(insn_bytes);

    assert!(matches!(err, Err(Error::InvalidOpCode(0x3f))));
}

#[test]
fn test_instruction_disassemble_ignores_reserved_bits() {
    // Bits 16..=31 are reserved: they change nothing in the decoded result.
    let insn = Instruction::disassemble(0xffff_1842).unwrap();

    assert_eq!(insn.opcode, OpCode::ADD);
    assert_eq!(insn.op0, 1);
    assert_eq!(insn.op1, 3);
}

#[test]
fn test_opcode_from_u8_known_and_unknown_tags() {
    assert_eq!(OpCode::from_u8(0x00).unwrap(), OpCode::LDW);
    assert_eq!(OpCode::from_u8(0x01).unwrap(), OpCode::STW);
    assert_eq!(OpCode::from_u8(0x02).unwrap(), OpCode::ADD);
    assert_eq!(OpCode::from_u8(0x03).unwrap(), OpCode::XOR);
    assert_eq!(OpCode::from_u8(0x04).unwrap(), OpCode::SHR);
    assert_eq!(OpCode::from_u8(0x05).unwrap(), OpCode::SHL);

    assert!(matches!(OpCode::from_u8(0x06), Err(Error::InvalidOpCode(0x06))));
    assert!(matches!(OpCode::from_u8(0xff), Err(Error::InvalidOpCode(0xff))));
}
