use vstd::prelude::*;

use crate::bits::lemma_u16_and_le;

verus! {

/// The CPU-side RAM: 2 KiB of internal memory, mirrored every 0x800
/// bytes across the whole 0x0000..0x2000 window.
pub struct CpuMemoryMap {
    pub internal_ram: Vec<u8>,
}

impl CpuMemoryMap {
    pub open spec fn wf(&self) -> bool {
        self.internal_ram@.len() == 0x800
    }

    pub fn new() -> (r: Self)
        ensures
            r.wf(),
            forall|i: int| 0 <= i < 0x800 ==> r.internal_ram@[i] == 0u8,
    {
        let mut internal_ram: Vec<u8> = Vec::new();
        let mut i: usize = 0;
        while i < 0x800
            invariant
                internal_ram@.len() == i,
                i <= 0x800,
                forall|j: int| 0 <= j < i ==> internal_ram@[j] == 0u8,
            decreases 0x800 - i,
        {
            internal_ram.push(0);
            i = i + 1;
        }
        Self { internal_ram }
    }

    /// The RAM cell that `address` decodes to.
    pub open spec fn spec_read(&self, address: u16) -> u8 {
        self.internal_ram@[(address & 0x7FF) as int]
    }

    pub fn read(&self, address: u16) -> (r: u8)
        requires
            self.wf(),
            address < 0x2000,
        ensures
            r == self.spec_read(address),
    {
        proof {
            lemma_u16_and_le(address, 0x7FF);
        }
        self.internal_ram[(address & 0x7FF) as usize]
    }

    pub fn write(&mut self, address: u16, data: u8)
        requires
            old(self).wf(),
            address < 0x2000,
        ensures
            final(self).internal_ram@ == old(self).internal_ram@.update((address & 0x7FF) as int, data),
            final(self).wf(),
    {
        proof {
            lemma_u16_and_le(address, 0x7FF);
        }
        self.internal_ram[(address & 0x7FF) as usize] = data;
    }
}

} // verus!
