//! The CPU-side and PPU-side memory maps, plus a plain fixed-size map.

use vstd::prelude::*;

pub mod cpu;
pub mod ppu;

verus! {

/// A flat byte memory of `S` cells.
pub struct MemoryMap<const S: usize> {
    pub memory: Vec<u8>,
}

impl<const S: usize> MemoryMap<S> {
    pub open spec fn wf(&self) -> bool {
        self.memory@.len() == S
    }

    pub fn new() -> (r: Self)
        ensures
            r.wf(),
            forall|i: int| 0 <= i < S ==> r.memory@[i] == 0u8,
    {
        let mut memory: Vec<u8> = Vec::new();
        let mut i: usize = 0;
        while i < S
            invariant
                memory@.len() == i,
                i <= S,
                forall|j: int| 0 <= j < i ==> memory@[j] == 0u8,
            decreases S - i,
        {
            memory.push(0);
            i = i + 1;
        }
        Self { memory }
    }

    pub fn read(&self, address: u16) -> (r: u8)
        requires
            self.wf(),
            (address as int) < S,
        ensures
            r == self.memory@[address as int],
    {
        self.memory[address as usize]
    }

    pub fn write(&mut self, address: u16, data: u8)
        requires
            old(self).wf(),
            (address as int) < S,
        ensures
            final(self).memory@ == old(self).memory@.update(address as int, data),
            final(self).wf(),
    {
        self.memory[address as usize] = data;
    }
}

} // verus!
