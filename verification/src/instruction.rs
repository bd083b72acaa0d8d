//! The 32-bit instruction word decoder.
//!
//! Bit layout of a word, LSB-first:
//! - bits `[0, 5]` (mask `0x3f`): the opcode tag;
//! - bits `[6, 10]`: `op0`, the destination/first operand register index;
//! - bits `[11, 15]`: `op1`, the source/second operand register index;
//! - bits `[16, 31]` are reserved and ignored, never validated.

use vstd::prelude::*;

verus! {

use crate::Error;
use crate::MAX_REGISTER_INDEX;

/// The closed set of opcode tags a word can carry.
///
/// The core implements the first four; [`OpCode::SHR`] and [`OpCode::SHL`]
/// decode validly but dispatch to the explicit unsupported fallback.
#[derive(Clone, Copy, Debug, PartialEq, Eq, Structural)]
pub enum OpCode {
    /// Load a byte from memory into a register.
    LDW,
    /// Store a register's low byte to memory.
    STW,
    /// Overflow-checked addition of two registers.
    ADD,
    /// Bitwise exclusive or of two registers.
    XOR,
    /// Shift right.
    SHR,
    /// Shift left.
    SHL,
}

/// The opcode table: which [`OpCode`] a 6-bit tag maps to, if any.
pub open spec fn opcode_from_tag(tag: u8) -> Option<OpCode> {
    if tag == 0x00 {
        Some(OpCode::LDW)
    } else if tag == 0x01 {
        Some(OpCode::STW)
    } else if tag == 0x02 {
        Some(OpCode::ADD)
    } else if tag == 0x03 {
        Some(OpCode::XOR)
    } else if tag == 0x04 {
        Some(OpCode::SHR)
    } else if tag == 0x05 {
        Some(OpCode::SHL)
    } else {
        None
    }
}

impl OpCode {
    /// Maps a numeric tag through the opcode table; any tag with no mapping
    /// fails with [`Error::InvalidOpCode`] carrying that tag.
    pub fn from_u8(opcode: u8) -> (r: Result<OpCode, Error>)
        ensures
            r == (match opcode_from_tag(opcode) {
                Some(op) => Ok::<OpCode, Error>(op),
                None => Err::<OpCode, Error>(Error::InvalidOpCode(opcode)),
            }),
    {
        match opcode {
            0x00 => Ok(OpCode::LDW),
            0x01 => Ok(OpCode::STW),
            0x02 => Ok(OpCode::ADD),
            0x03 => Ok(OpCode::XOR),
            0x04 => Ok(OpCode::SHR),
            0x05 => Ok(OpCode::SHL),
            _ => Err(Error::InvalidOpCode(opcode)),
        }
    }
}

/// The 6-bit opcode tag of a word: bits `[0, 5]`.
pub open spec fn opcode_field(w: u32) -> u8 {
    (w & 0x3f) as u8
}

/// The first operand register index of a word: bits `[6, 10]`.
pub open spec fn op0_field(w: u32) -> u8 {
    ((w >> 6) & 0x1f) as u8
}

/// The second operand register index of a word: bits `[11, 15]`.
pub open spec fn op1_field(w: u32) -> u8 {
    ((w >> 11) & 0x1f) as u8
}

/// What decoding a word yields, in full: the opcode field is mapped through
/// the table first (else [`Error::InvalidOpCode`]), then `op0` is checked
/// against the ceiling (else [`Error::Op0OutOfRange`]), then `op1`
/// (else [`Error::Op1OutOfRange`]).
pub open spec fn decode_spec(w: u32) -> Result<Instruction, Error> {
    match opcode_from_tag(opcode_field(w)) {
        None => Err(Error::InvalidOpCode(opcode_field(w))),
        Some(op) => if op0_field(w) > MAX_REGISTER_INDEX {
            Err(Error::Op0OutOfRange)
        } else if op1_field(w) > MAX_REGISTER_INDEX {
            Err(Error::Op1OutOfRange)
        } else {
            Ok(Instruction { opcode: op, op0: op0_field(w), op1: op1_field(w) })
        },
    }
}

/// An ephemeral decoded instruction: one opcode plus two operand register
/// indices, each validated at decode time to lie within the ceiling.
#[derive(Clone, Copy, Debug, PartialEq, Eq, Structural)]
pub struct Instruction {
    /// The decoded operation.
    pub opcode: OpCode,
    /// Destination/first operand register index.
    pub op0: u8,
    /// Source/second operand register index.
    pub op1: u8,
}

impl Instruction {
    /// Both operand indices lie within the register-index ceiling.
    pub open spec fn wf(&self) -> bool {
        self.op0 <= MAX_REGISTER_INDEX && self.op1 <= MAX_REGISTER_INDEX
    }

    /// Instruction constructor, a.k.a. disassembler: decodes a raw word as
    /// [`decode_spec`] describes. A pure function of the word; no state is
    /// read or written.
    pub fn disassemble(insn: u32) -> (r: Result<Instruction, Error>)
        ensures
            r == decode_spec(insn),
            r matches Ok(i) ==> i.wf(),
    {
        proof {
            assert(insn & 0x3f < 64 && (insn >> 6) & 0x1f < 32 && (insn >> 11) & 0x1f < 32)
                by (bit_vector);
        }
        let opcode = match OpCode::from_u8((insn & 0x3f) as u8) {
            Ok(op) => op,
            Err(e) => {
                return Err(e);
            },
        };
        let op0 = ((insn >> 6) & 0x1f) as u8;
        let op1: u8 = ((insn >> 11) & 0x1f) as u8;

        if op0 > MAX_REGISTER_INDEX {
            return Err(Error::Op0OutOfRange);
        }

        if op1 > MAX_REGISTER_INDEX {
            return Err(Error::Op1OutOfRange);
        }

        Ok(Instruction { opcode, op0, op1 })
    }

    /// The decoded operation.
    pub fn opcode(&self) -> (r: OpCode)
        ensures
            r == self.opcode,
    {
        self.opcode
    }

    /// Destination/first operand register index.
    pub fn op0(&self) -> (r: u8)
        ensures
            r == self.op0,
    {
        self.op0
    }

    /// Source/second operand register index.
    pub fn op1(&self) -> (r: u8)
        ensures
            r == self.op1,
    {
        self.op1
    }
}

/// Decoding is a pure function of the word: any two results that decoding
/// the same word may yield are structurally equal.
pub proof fn lemma_decode_pure(w: u32, r1: Result<Instruction, Error>, r2: Result<Instruction, Error>)
    requires
        r1 == decode_spec(w),
        r2 == decode_spec(w),
    ensures
        r1 == r2,
{
}

/// Any word whose opcode field has no entry in the opcode table decodes to
/// [`Error::InvalidOpCode`] carrying that field, whatever its operand fields
/// hold.
pub proof fn lemma_unmapped_tag_rejected(w: u32)
    requires
        opcode_from_tag(opcode_field(w)) is None,
    ensures
        decode_spec(w) == Err::<Instruction, Error>(Error::InvalidOpCode(opcode_field(w))),
{
}

} // verus!
