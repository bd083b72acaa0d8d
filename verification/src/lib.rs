//! A miniature instruction-set simulator: a virtual CPU that decodes a
//! binary-encoded instruction word into an opcode and two operand register
//! indices, and executes it against a register file and a bounded,
//! byte-addressable memory.
//!
//! The crate is organised leaves-first:
//! - [`memory`]: the fixed-size, bounds-checked linear byte store;
//! - [`instruction`]: the 32-bit instruction word decoder;
//! - [`compact`]: a 16-bit variant of the same design, with an 8-register file;
//! - [`alu`]: standalone arithmetic/logic helpers on register values;
//! - [`cpu`]: the core that owns the register file and the memory and
//!   dispatches decoded instructions.

use vstd::prelude::*;

pub mod alu;
pub mod compact;
pub mod cpu;
pub mod instruction;
pub mod memory;

verus! {

use crate::instruction::OpCode;

/// Highest valid register index of the core: the register file holds
/// 32 registers, indexed `0..=31`.
pub const MAX_REGISTER_INDEX: u8 = 31;

/// Size in bytes of the core's memory.
pub const MEMORY_SIZE: usize = 0x100000;

/// Everything that can go wrong while decoding or executing one instruction.
///
/// Every fallible operation returns one of these to its immediate caller;
/// nothing in this crate panics, logs or retries.
#[derive(Clone, Copy, Debug, PartialEq, Eq, Structural)]
pub enum Error {
    /// Decode-time: the opcode field does not map to any known operation.
    /// Carries the offending tag.
    InvalidOpCode(u8),
    /// Execute-time: the opcode decoded validly but is not implemented by
    /// this core.
    UnsupportedOpCode(OpCode),
    /// An operand register index exceeds the configured ceiling, found at
    /// decode time or on a direct register access.
    Op0OutOfRange,
    /// The second operand register index exceeds the configured ceiling.
    Op1OutOfRange,
    /// Execute-time: unsigned addition would wrap; carries the two operand
    /// values. The operation is aborted and the state left unchanged.
    AdditionOverflow(u32, u32),
    /// Execute-time: a load or store address is outside the memory bound.
    MemoryOverflow(u32),
    /// A mnemonic string does not name any opcode.
    ParseOpError,
}

} // verus!
