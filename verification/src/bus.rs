//! The memory bus: one byte at every address of the 16-bit address space.
//! Address mapping and banking are the hosting system's concern; the core
//! sees a flat, fully readable and writable 64 KiB array.

use vstd::prelude::*;

verus! {

/// The full 16-bit address space holds this many bytes.
pub const ADDRESS_SPACE: usize = 0x10000;

/// A byte-addressed memory over the 16-bit address space.
pub struct Bus {
    memory: Vec<u8>,
}

impl View for Bus {
    type V = Seq<u8>;

    closed spec fn view(&self) -> Seq<u8> {
        self.memory@
    }
}

impl Bus {
    /// A bus is well formed when it covers the whole address space, so that
    /// every 16-bit address is in bounds.
    pub open spec fn wf(&self) -> bool {
        self@.len() == ADDRESS_SPACE
    }

    /// A bus with every byte zero.
    pub fn new() -> (r: Bus)
        ensures
            r.wf(),
            forall|i: int| 0 <= i < ADDRESS_SPACE ==> r@[i] == 0,
    {
        let mut memory: Vec<u8> = Vec::new();
        while memory.len() < ADDRESS_SPACE
            invariant
                memory@.len() <= ADDRESS_SPACE,
                forall|i: int| 0 <= i < memory@.len() ==> memory@[i] == 0,
            decreases ADDRESS_SPACE - memory@.len(),
        {
            memory.push(0);
        }
        Bus { memory }
    }

    /// Read the byte at an address.
    pub fn read_byte(&self, address: u16) -> (r: u8)
        requires
            self.wf(),
        ensures
            r == self@[address as int],
    {
        self.memory[address as usize]
    }

    /// Write a byte at an address, leaving every other byte unchanged.
    pub fn write_byte(&mut self, address: u16, value: u8)
        requires
            old(self).wf(),
        ensures
            final(self).wf(),
            final(self)@ == old(self)@.update(address as int, value),
    {
        self.memory.set(address as usize, value);
    }
}

} // verus!
