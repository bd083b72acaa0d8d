//! The core: a register file, a memory, and the decode/execute engine that
//! drives both, one instruction per call.

use vstd::prelude::*;

verus! {

use crate::Error;
use crate::MAX_REGISTER_INDEX;
use crate::MEMORY_SIZE;
use crate::instruction::Instruction;
use crate::instruction::OpCode;
use crate::instruction::decode_spec;
use crate::memory::Memory;

/// The low 8 bits of a register value: what a store writes to memory.
pub open spec fn low_byte(v: u32) -> u8 {
    (v & 0xff) as u8
}

/// What executing one decoded instruction does to a register file `regs` and
/// a memory `mem`: the registers after, the memory after, and the outcome.
///
/// Either the whole operation succeeds and exactly one cell changes, or it
/// fails and the state is returned untouched. Loads and stores address
/// memory with the *current value* of register `op1`, not its index.
pub open spec fn step(regs: Seq<u32>, mem: Seq<u8>, insn: Instruction) -> (Seq<u32>, Seq<u8>, Result<(), Error>)
    recommends
        regs.len() == MAX_REGISTER_INDEX + 1,
        insn.wf(),
{
    let a = insn.op0 as int;
    let b = insn.op1 as int;
    match insn.opcode {
        OpCode::ADD => if regs[a] + regs[b] <= u32::MAX {
            (regs.update(a, (regs[a] + regs[b]) as u32), mem, Ok(()))
        } else {
            (regs, mem, Err(Error::AdditionOverflow(regs[a], regs[b])))
        },
        OpCode::XOR => (regs.update(a, regs[a] ^ regs[b]), mem, Ok(())),
        OpCode::LDW => if regs[b] < mem.len() {
            (regs.update(a, mem[regs[b] as int] as u32), mem, Ok(()))
        } else {
            (regs, mem, Err(Error::MemoryOverflow(regs[b])))
        },
        OpCode::STW => if regs[b] < mem.len() {
            (regs, mem.update(regs[b] as int, low_byte(regs[a])), Ok(()))
        } else {
            (regs, mem, Err(Error::MemoryOverflow(regs[b])))
        },
        OpCode::SHR => (regs, mem, Err(Error::UnsupportedOpCode(OpCode::SHR))),
        OpCode::SHL => (regs, mem, Err(Error::UnsupportedOpCode(OpCode::SHL))),
    }
}

/// The core: exclusive owner of its register file and memory. All access to
/// either goes through [`Core::register`], [`Core::decode`] and
/// [`Core::execute`].
pub struct Core {
    registers: Vec<u32>,
    memory: Memory,
}

impl Core {
    /// The register file: one `u32` per index in `0..=MAX_REGISTER_INDEX`.
    pub closed spec fn regs(&self) -> Seq<u32> {
        self.registers@
    }

    /// The memory contents, one byte per address.
    pub closed spec fn mem(&self) -> Seq<u8> {
        self.memory@
    }

    /// The register file holds exactly one value per valid index.
    pub open spec fn wf(&self) -> bool {
        self.regs().len() == MAX_REGISTER_INDEX + 1
    }

    /// Builds a core with a zero-filled memory of [`MEMORY_SIZE`] bytes and
    /// the register file seeded with the deterministic pattern
    /// `r[i] = i * 0x10`.
    pub fn new() -> (core: Core)
        ensures
            core.wf(),
            forall|i: int| 0 <= i <= MAX_REGISTER_INDEX ==> core.regs()[i] == i * 0x10,
            core.mem().len() == MEMORY_SIZE,
            forall|i: int| 0 <= i < MEMORY_SIZE ==> core.mem()[i] == 0u8,
    {
        let mut registers: Vec<u32> = Vec::new();
        let mut i: usize = 0;
        // Arbitrary initial register values; registers are eventually
        // initialized through memory loads.
        while i < MAX_REGISTER_INDEX as usize + 1
            invariant
                i <= MAX_REGISTER_INDEX + 1,
                registers@.len() == i,
                forall|j: int| 0 <= j < i ==> registers@[j] == j * 0x10,
            decreases MAX_REGISTER_INDEX + 1 - i,
        {
            registers.push((i as u32) * 0x10);
            i = i + 1;
        }
        Core { registers, memory: Memory::new(MEMORY_SIZE) }
    }

    /// Returns the value of the register at `index`, or
    /// [`Error::Op0OutOfRange`] for any index above the ceiling (the same
    /// error kind serves every out-of-range register access).
    pub fn register(&self, index: u8) -> (r: Result<u32, Error>)
        requires
            self.wf(),
        ensures
            index <= MAX_REGISTER_INDEX ==> r == Ok::<u32, Error>(self.regs()[index as int]),
            index > MAX_REGISTER_INDEX ==> r == Err::<u32, Error>(Error::Op0OutOfRange),
    {
        if index > MAX_REGISTER_INDEX {
            return Err(Error::Op0OutOfRange);
        }
        Ok(self.registers[index as usize])
    }

    /// Decodes a raw instruction word; the core's state is untouched.
    pub fn decode(&mut self, insn: u32) -> (r: Result<Instruction, Error>)
        ensures
            r == decode_spec(insn),
            r matches Ok(i) ==> i.wf(),
            final(self).regs() == old(self).regs(),
            final(self).mem() == old(self).mem(),
    {
        Instruction::disassemble(insn)
    }

    /// Executes one decoded instruction, as [`step`] describes: dispatches
    /// on the opcode, mutates at most one register or one memory byte, and
    /// on failure leaves the whole state unchanged.
    pub fn execute(&mut self, insn: Instruction) -> (r: Result<(), Error>)
        requires
            old(self).wf(),
            insn.wf(),
        ensures
            final(self).wf(),
            final(self).regs() == step(old(self).regs(), old(self).mem(), insn).0,
            final(self).mem() == step(old(self).regs(), old(self).mem(), insn).1,
            r == step(old(self).regs(), old(self).mem(), insn).2,
    {
        match insn.opcode {
            OpCode::ADD => self.add(insn),
            OpCode::XOR => self.xor(insn),
            OpCode::LDW => self.load(insn),
            OpCode::STW => self.store(insn),
            OpCode::SHR => Err(Error::UnsupportedOpCode(OpCode::SHR)),
            OpCode::SHL => Err(Error::UnsupportedOpCode(OpCode::SHL)),
        }
    }

    /// `registers[op0] += registers[op1]`, checked: on unsigned wrap-around
    /// nothing is written and the two operand values are reported.
    fn add(&mut self, insn: Instruction) -> (r: Result<(), Error>)
        requires
            old(self).wf(),
            insn.wf(),
            insn.opcode == OpCode::ADD,
        ensures
            final(self).wf(),
            final(self).regs() == step(old(self).regs(), old(self).mem(), insn).0,
            final(self).mem() == step(old(self).regs(), old(self).mem(), insn).1,
            r == step(old(self).regs(), old(self).mem(), insn).2,
    {
        let op0 = insn.op0 as usize;
        let op1 = insn.op1 as usize;
        let lhs = self.registers[op0];
        let rhs = self.registers[op1];
        if rhs <= u32::MAX - lhs {
            self.registers[op0] = lhs + rhs;
            Ok(())
        } else {
            Err(Error::AdditionOverflow(lhs, rhs))
        }
    }

    /// `registers[op0] ^= registers[op1]`; never fails.
    fn xor(&mut self, insn: Instruction) -> (r: Result<(), Error>)
        requires
            old(self).wf(),
            insn.wf(),
            insn.opcode == OpCode::XOR,
        ensures
            final(self).wf(),
            final(self).regs() == step(old(self).regs(), old(self).mem(), insn).0,
            final(self).mem() == step(old(self).regs(), old(self).mem(), insn).1,
            r == step(old(self).regs(), old(self).mem(), insn).2,
    {
        let op0 = insn.op0 as usize;
        let op1 = insn.op1 as usize;
        let result = self.registers[op0] ^ self.registers[op1];
        self.registers[op0] = result;
        Ok(())
    }

    /// `registers[op0] = zero_extend(memory[registers[op1]])`: the address
    /// is the current value of register `op1`, not its index.
    fn load(&mut self, insn: Instruction) -> (r: Result<(), Error>)
        requires
            old(self).wf(),
            insn.wf(),
            insn.opcode == OpCode::LDW,
        ensures
            final(self).wf(),
            final(self).regs() == step(old(self).regs(), old(self).mem(), insn).0,
            final(self).mem() == step(old(self).regs(), old(self).mem(), insn).1,
            r == step(old(self).regs(), old(self).mem(), insn).2,
    {
        let op0 = insn.op0 as usize;
        let address = self.registers[insn.op1 as usize];
        match self.memory.load(address) {
            Ok(byte) => {
                self.registers[op0] = byte as u32;
                Ok(())
            },
            Err(e) => Err(e),
        }
    }

    /// `memory[registers[op1]] = low_byte(registers[op0])`: stores the low
    /// 8 bits of register `op0` at the address held in register `op1`.
    fn store(&mut self, insn: Instruction) -> (r: Result<(), Error>)
        requires
            old(self).wf(),
            insn.wf(),
            insn.opcode == OpCode::STW,
        ensures
            final(self).wf(),
            final(self).regs() == step(old(self).regs(), old(self).mem(), insn).0,
            final(self).mem() == step(old(self).regs(), old(self).mem(), insn).1,
            r == step(old(self).regs(), old(self).mem(), insn).2,
    {
        let address = self.registers[insn.op1 as usize];
        let value_reg = self.registers[insn.op0 as usize];
        proof {
            assert(value_reg & 0xff < 256) by (bit_vector);
        }
        self.memory.store(address, (value_reg & 0xff) as u8)
    }
}

/// Addition is commutative in its result but not in operand identity: an
/// `ADD` with operands `(a, b)` and one with `(b, a)` compute the same sum,
/// but each writes it to its own first operand register, touching no other.
pub proof fn lemma_add_commutes(regs: Seq<u32>, mem: Seq<u8>, ab: Instruction, ba: Instruction)
    requires
        regs.len() == MAX_REGISTER_INDEX + 1,
        ab.wf(),
        ba.wf(),
        ab.opcode == OpCode::ADD,
        ba.opcode == OpCode::ADD,
        ba.op0 == ab.op1,
        ba.op1 == ab.op0,
        regs[ab.op0 as int] + regs[ab.op1 as int] <= u32::MAX,
    ensures
        step(regs, mem, ab).2 == Ok::<(), Error>(()),
        step(regs, mem, ba).2 == Ok::<(), Error>(()),
        step(regs, mem, ab).0[ab.op0 as int] == step(regs, mem, ba).0[ba.op0 as int],
        forall|j: int|
            0 <= j < regs.len() && j != ab.op0 ==> #[trigger] step(regs, mem, ab).0[j] == regs[j],
{
}

/// An `ADD` that would wrap fails with the two operand values and leaves
/// registers and memory exactly as they were.
pub proof fn lemma_add_overflow_unchanged(regs: Seq<u32>, mem: Seq<u8>, insn: Instruction)
    requires
        regs.len() == MAX_REGISTER_INDEX + 1,
        insn.wf(),
        insn.opcode == OpCode::ADD,
        regs[insn.op0 as int] + regs[insn.op1 as int] > u32::MAX,
    ensures
        step(regs, mem, insn).0 == regs,
        step(regs, mem, insn).1 == mem,
        step(regs, mem, insn).2 == Err::<(), Error>(Error::AdditionOverflow(
            regs[insn.op0 as int],
            regs[insn.op1 as int],
        )),
{
}

/// `XOR` never fails: whatever the operand values, it succeeds, leaves the
/// memory alone, and sets register `op0` to `old[op0] ^ old[op1]`.
pub proof fn lemma_xor_never_fails(regs: Seq<u32>, mem: Seq<u8>, insn: Instruction)
    requires
        regs.len() == MAX_REGISTER_INDEX + 1,
        insn.wf(),
        insn.opcode == OpCode::XOR,
    ensures
        step(regs, mem, insn).2 == Ok::<(), Error>(()),
        step(regs, mem, insn).0 == regs.update(
            insn.op0 as int,
            regs[insn.op0 as int] ^ regs[insn.op1 as int],
        ),
        step(regs, mem, insn).1 == mem,
{
}

/// A store followed by a load through the same address register round-trips
/// the low byte written: after `STW op0=s, op1=p` and `LDW op0=d, op1=p`,
/// register `d` holds the low 8 bits register `s` held at the start.
pub proof fn lemma_store_then_load_round_trips(
    regs: Seq<u32>,
    mem: Seq<u8>,
    st: Instruction,
    ld: Instruction,
)
    requires
        regs.len() == MAX_REGISTER_INDEX + 1,
        st.wf(),
        ld.wf(),
        st.opcode == OpCode::STW,
        ld.opcode == OpCode::LDW,
        ld.op1 == st.op1,
        regs[st.op1 as int] < mem.len(),
    ensures
        step(regs, mem, st).2 == Ok::<(), Error>(()),
        ({
            let mid = step(regs, mem, st);
            let end = step(mid.0, mid.1, ld);
            end.2 == Ok::<(), Error>(()) && end.0[ld.op0 as int] == (regs[st.op0 as int]
                & 0xff)
        }),
{
    let x = regs[st.op0 as int];
    assert(((x & 0xff) as u8) as u32 == x & 0xff) by (bit_vector);
}

} // verus!
