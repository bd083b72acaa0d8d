//! A 16-bit variant of the instruction encoding, over an 8-register file.
//!
//! The same decode discipline as [`crate::instruction`], packed into a
//! halfword: an 8-bit opcode tag in the high byte and two 4-bit operand
//! nibbles in the low byte (`opcode = word >> 8`, `op0 = (word & 0xf0) >> 4`,
//! `op1 = word & 0xf`). The register-index ceiling of this variant is 7.

use vstd::prelude::*;

verus! {

use crate::Error;

/// Highest valid register index of this variant: 8 registers, `0..=7`.
pub const MAX_REGISTER_INDEX: u8 = 7;

/// The closed set of opcode tags of this variant.
#[derive(Clone, Copy, Debug, PartialEq, Eq, Structural)]
pub enum OpCode {
    /// Load a byte from memory into a register.
    LD,
    /// Store a register's low byte to memory.
    ST,
    /// Overflow-checked addition of two registers.
    ADD,
    /// Bitwise exclusive or of two registers.
    XOR,
}

/// The opcode table: which [`OpCode`] an 8-bit tag maps to, if any.
pub open spec fn opcode_from_tag(tag: u8) -> Option<OpCode> {
    if tag == 0x00 {
        Some(OpCode::LD)
    } else if tag == 0x01 {
        Some(OpCode::ST)
    } else if tag == 0x02 {
        Some(OpCode::ADD)
    } else if tag == 0x03 {
        Some(OpCode::XOR)
    } else {
        None
    }
}

impl OpCode {
    /// Maps a numeric tag through the opcode table; any tag with no mapping
    /// fails with [`Error::InvalidOpCode`] carrying that tag.
    pub fn from_u8(opcode: u8) -> (r: Result<OpCode, Error>)
        ensures
            r == (match opcode_from_tag(opcode) {
                Some(op) => Ok::<OpCode, Error>(op),
                None => Err::<OpCode, Error>(Error::InvalidOpCode(opcode)),
            }),
    {
        match opcode {
            0x00 => Ok(OpCode::LD),
            0x01 => Ok(OpCode::ST),
            0x02 => Ok(OpCode::ADD),
            0x03 => Ok(OpCode::XOR),
            _ => Err(Error::InvalidOpCode(opcode)),
        }
    }

    /// Parses an opcode mnemonic; any other string fails with
    /// [`Error::ParseOpError`].
    pub fn from_str(s: &str) -> (r: Result<OpCode, Error>)
        ensures
            s@ == "LD"@ ==> r == Ok::<OpCode, Error>(OpCode::LD),
            s@ == "ST"@ ==> r == Ok::<OpCode, Error>(OpCode::ST),
            s@ == "ADD"@ ==> r == Ok::<OpCode, Error>(OpCode::ADD),
            s@ == "XOR"@ ==> r == Ok::<OpCode, Error>(OpCode::XOR),
            s@ != "LD"@ && s@ != "ST"@ && s@ != "ADD"@ && s@ != "XOR"@
                ==> r == Err::<OpCode, Error>(Error::ParseOpError),
    {
        proof {
            reveal_strlit("LD");
            reveal_strlit("ST");
            reveal_strlit("ADD");
            reveal_strlit("XOR");
            // The four mnemonics differ pairwise in their first character.
            assert("LD"@[0] == 'L' && "ST"@[0] == 'S' && "ADD"@[0] == 'A' && "XOR"@[0] == 'X');
        }
        if str_eq(s, "LD") {
            Ok(OpCode::LD)
        } else if str_eq(s, "ST") {
            Ok(OpCode::ST)
        } else if str_eq(s, "ADD") {
            Ok(OpCode::ADD)
        } else if str_eq(s, "XOR") {
            Ok(OpCode::XOR)
        } else {
            Err(Error::ParseOpError)
        }
    }
}

/// Relies on str's `PartialEq`: two string slices compare equal exactly when
/// their character sequences are equal.
#[verifier::external_body]
fn str_eq(a: &str, b: &str) -> (r: bool)
    ensures
        r == (a@ == b@),
{
    a == b
}

/// The 8-bit opcode tag of a halfword: its high byte.
pub open spec fn opcode_field(w: u16) -> u8 {
    (w >> 8) as u8
}

/// The first operand register index of a halfword: bits `[4, 7]`, the high
/// nibble of the low byte.
pub open spec fn op0_field(w: u16) -> u8 {
    ((w & 0xf0) >> 4) as u8
}

/// The second operand register index of a halfword: bits `[0, 3]`.
pub open spec fn op1_field(w: u16) -> u8 {
    (w & 0xf) as u8
}

/// What decoding a halfword yields, in full: the opcode tag is mapped
/// through the table first (else [`Error::InvalidOpCode`]), then `op0` is
/// checked against the ceiling (else [`Error::Op0OutOfRange`]), then `op1`
/// (else [`Error::Op1OutOfRange`]).
pub open spec fn decode_spec(w: u16) -> Result<Instruction, Error> {
    match opcode_from_tag(opcode_field(w)) {
        None => Err(Error::InvalidOpCode(opcode_field(w))),
        Some(op) => if op0_field(w) > MAX_REGISTER_INDEX {
            Err(Error::Op0OutOfRange)
        } else if op1_field(w) > MAX_REGISTER_INDEX {
            Err(Error::Op1OutOfRange)
        } else {
            Ok(Instruction { opcode: op, op0: op0_field(w), op1: op1_field(w) })
        },
    }
}

/// An ephemeral decoded instruction of this variant.
#[derive(Clone, Copy, Debug, PartialEq, Eq, Structural)]
pub struct Instruction {
    /// The decoded operation.
    pub opcode: OpCode,
    /// Destination/first operand register index.
    pub op0: u8,
    /// Source/second operand register index.
    pub op1: u8,
}

impl Instruction {
    /// Both operand indices lie within the register-index ceiling.
    pub open spec fn wf(&self) -> bool {
        self.op0 <= MAX_REGISTER_INDEX && self.op1 <= MAX_REGISTER_INDEX
    }

    /// Instruction constructor, a.k.a. disassembler: decodes a raw halfword
    /// as [`decode_spec`] describes.
    pub fn disassemble(insn: u16) -> (r: Result<Instruction, Error>)
        ensures
            r == decode_spec(insn),
            r matches Ok(i) ==> i.wf(),
    {
        proof {
            assert(insn >> 8 < 256 && (insn & 0xf0) >> 4 < 16 && insn & 0xf < 16)
                by (bit_vector);
        }
        let opcode = match OpCode::from_u8((insn >> 8) as u8) {
            Ok(op) => op,
            Err(e) => {
                return Err(e);
            },
        };
        let op0 = ((insn & 0xf0) >> 4) as u8;
        let op1: u8 = (insn & 0xf) as u8;

        if op0 > MAX_REGISTER_INDEX {
            return Err(Error::Op0OutOfRange);
        }

        if op1 > MAX_REGISTER_INDEX {
            return Err(Error::Op1OutOfRange);
        }

        Ok(Instruction { opcode, op0, op1 })
    }

    /// The decoded operation.
    pub fn opcode(&self) -> (r: OpCode)
        ensures
            r == self.opcode,
    {
        self.opcode
    }

    /// Destination/first operand register index.
    pub fn op0(&self) -> (r: u8)
        ensures
            r == self.op0,
    {
        self.op0
    }

    /// Source/second operand register index.
    pub fn op1(&self) -> (r: u8)
        ensures
            r == self.op1,
    {
        self.op1
    }
}

/// A halfword whose `op0` field exceeds the ceiling is rejected with
/// [`Error::Op0OutOfRange`] whenever its opcode tag maps, even when its
/// `op1` field is out of range as well: `op0` is checked first.
pub proof fn lemma_op0_checked_before_op1(w: u16)
    requires
        opcode_from_tag(opcode_field(w)) is Some,
        op0_field(w) > MAX_REGISTER_INDEX,
    ensures
        decode_spec(w) == Err::<Instruction, Error>(Error::Op0OutOfRange),
{
}

/// Any halfword whose opcode tag has no entry in the opcode table decodes to
/// [`Error::InvalidOpCode`] carrying that tag.
pub proof fn lemma_unmapped_tag_rejected(w: u16)
    requires
        opcode_from_tag(opcode_field(w)) is None,
    ensures
        decode_spec(w) == Err::<Instruction, Error>(Error::InvalidOpCode(opcode_field(w))),
{
}

} // verus!
