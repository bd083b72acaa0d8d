//! Standalone arithmetic/logic helpers over register values.

use vstd::prelude::*;

verus! {

/// Sum of the two operands. The caller rules out unsigned wrap-around.
pub fn add(op0: u32, op1: u32) -> (r: u32)
    requires
        op0 + op1 <= u32::MAX,
    ensures
        r == op0 + op1,
{
    op0 + op1
}

/// Bitwise exclusive or of the two operands.
pub fn xor(op0: u32, op1: u32) -> (r: u32)
    ensures
        r == (op0 ^ op1),
{
    op0 ^ op1
}

/// Shift right: `op1` is the number of bits to shift `op0` by, below the
/// register width.
pub fn shr(op0: u32, op1: u32) -> (r: u32)
    requires
        op1 < 32,
    ensures
        r == (op0 >> op1),
{
    op0 >> op1
}

/// Shift left: `op1` is the number of bits to shift `op0` by, below the
/// register width.
pub fn shl(op0: u32, op1: u32) -> (r: u32)
    requires
        op1 < 32,
    ensures
        r == (op0 << op1),
{
    op0 << op1
}

} // verus!
