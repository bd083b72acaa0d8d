//! The fixed-size, byte-addressable, bounds-checked linear store.

use vstd::prelude::*;

verus! {

use crate::Error;

/// A linear store of bytes whose size is fixed at construction.
///
/// Addresses run over `0..size` (exclusive upper bound): every access
/// validates `address < size` and fails with [`Error::MemoryOverflow`]
/// otherwise. Addresses share the register width, `u32`.
pub struct Memory {
    bytes: Vec<u8>,
}

impl View for Memory {
    type V = Seq<u8>;

    closed spec fn view(&self) -> Seq<u8> {
        self.bytes@
    }
}

impl Memory {
    /// The fixed size of the store, in bytes.
    pub open spec fn size(&self) -> nat {
        self@.len()
    }

    /// Allocates a zero-filled store of `size` bytes.
    pub fn new(size: usize) -> (m: Memory)
        ensures
            m.size() == size,
            forall|i: int| 0 <= i < size ==> m@[i] == 0u8,
    {
        let mut bytes: Vec<u8> = Vec::new();
        let mut i: usize = 0;
        while i < size
            invariant
                i <= size,
                bytes@.len() == i,
                forall|j: int| 0 <= j < i ==> bytes@[j] == 0u8,
            decreases size - i,
        {
            bytes.push(0);
            i = i + 1;
        }
        Memory { bytes }
    }

    /// Returns the byte at `address`, or [`Error::MemoryOverflow`] when the
    /// address lies outside `0..size`.
    pub fn load(&self, address: u32) -> (r: Result<u8, Error>)
        ensures
            address < self.size() ==> r == Ok::<u8, Error>(self@[address as int]),
            address >= self.size() ==> r == Err::<u8, Error>(Error::MemoryOverflow(address)),
    {
        if (address as usize) >= self.bytes.len() {
            return Err(Error::MemoryOverflow(address));
        }
        Ok(self.bytes[address as usize])
    }

    /// Writes `value` at `address` under the same bound as [`Memory::load`];
    /// on failure the store is left unchanged.
    pub fn store(&mut self, address: u32, value: u8) -> (r: Result<(), Error>)
        ensures
            final(self).size() == old(self).size(),
            address < old(self).size() ==> {
                &&& r == Ok::<(), Error>(())
                &&& final(self)@ == old(self)@.update(address as int, value)
            },
            address >= old(self).size() ==> {
                &&& r == Err::<(), Error>(Error::MemoryOverflow(address))
                &&& final(self)@ == old(self)@
            },
    {
        if (address as usize) >= self.bytes.len() {
            return Err(Error::MemoryOverflow(address));
        }
        self.bytes[address as usize] = value;
        Ok(())
    }
}

} // verus!
