//! The byte-addressable memory bus the processor core reads and writes.
//! It is modeled as a flat 64 KiB array of bytes; address mapping beyond
//! that is a concern of the surrounding machine, not of the core.

use vstd::prelude::*;

verus! {

/// Number of addressable bytes on the bus.
pub const ADDRESS_SPACE: usize = 0x10000;

/// A flat byte-addressable memory covering the processor's full 16-bit
/// address space.
pub struct Ram {
    data: Vec<u8>,
}

impl View for Ram {
    type V = Seq<u8>;

    closed spec fn view(&self) -> Seq<u8> {
        self.data@
    }
}

impl Ram {
    /// The bus always spans the whole 16-bit address space.
    pub open spec fn wf(&self) -> bool {
        self@.len() == ADDRESS_SPACE
    }

    /// A fresh memory with every byte zero.
    pub fn new() -> (r: Ram)
        ensures
            r.wf(),
            forall|i: int| 0 <= i < ADDRESS_SPACE ==> r@[i] == 0u8,
    {
        let mut data: Vec<u8> = Vec::new();
        while data.len() < ADDRESS_SPACE
            invariant
                data@.len() <= ADDRESS_SPACE,
                forall|i: int| 0 <= i < data@.len() ==> data@[i] == 0u8,
            decreases ADDRESS_SPACE - data@.len(),
        {
            data.push(0);
        }
        Ram { data }
    }

    /// The byte currently stored at an address.
    pub fn read_from_address(&self, address: usize) -> (r: u8)
        requires
            self.wf(),
            address < ADDRESS_SPACE,
        ensures
            r == self@[address as int],
    {
        self.data[address]
    }

    /// Store one byte at an address; no other location changes.
    pub fn write_to_address(&mut self, address: usize, data: u8)
        requires
            old(self).wf(),
            address < ADDRESS_SPACE,
        ensures
            final(self).wf(),
            final(self)@ == old(self)@.update(address as int, data),
    {
        self.data.set(address, data);
    }
}

} // verus!
