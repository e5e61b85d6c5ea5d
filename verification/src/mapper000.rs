use vstd::prelude::*;

verus! {

/// Mapper 000 (NROM): fixed PRG-ROM of 16 or 32 KiB and an 8 KiB CHR
/// region. A 16 KiB PRG bank is mirrored across the 32 KiB window.
pub struct Mapper000 {
    pub prg_rom: Vec<u8>,
    pub chr_rom: Vec<u8>,
    pub is_32kb_size: bool,
}

impl Mapper000 {
    /// Sizes under which every mapped address stays in bounds.
    pub open spec fn wf(&self) -> bool {
        &&& (self.prg_rom@.len() == 0x4000 || self.prg_rom@.len() == 0x8000)
        &&& self.is_32kb_size == (self.prg_rom@.len() > 0x4000)
        &&& self.chr_rom@.len() == 0x2000
    }

    pub fn new(prg_rom: Vec<u8>, chr_rom: Vec<u8>) -> (r: Self)
        ensures
            r.prg_rom@ == prg_rom@,
            r.chr_rom@ == chr_rom@,
            r.is_32kb_size == (prg_rom@.len() > 16 * 1024),
    {
        let is_32kb_size: bool = prg_rom.len() > 16 * 1024;
        Self { prg_rom, chr_rom, is_32kb_size }
    }

    /// The PRG byte that a CPU-side read of `address` yields.
    pub open spec fn spec_cpu_read(&self, address: u16) -> u8 {
        if address < 0x8000 {
            0x00
        } else if self.is_32kb_size {
            self.prg_rom@[address - 0x8000]
        } else {
            self.prg_rom@[(address - 0x8000) % 0x4000]
        }
    }

    /// CPU-side window: NROM has no PRG RAM, so reads below the ROM
    /// window see open bus, and a single 16 KiB bank is mirrored.
    pub fn cpu_read(&self, address: u16) -> (r: u8)
        requires
            self.wf(),
            address >= 0x4020,
        ensures
            r == self.spec_cpu_read(address),
    {
        if address < 0x8000 {
            0x00
        } else if self.is_32kb_size {
            self.prg_rom[(address - 0x8000) as usize]
        } else {
            self.prg_rom[(address - 0x8000) as usize % 0x4000]
        }
    }

    /// CPU-side writes: NROM maps no writable memory, so a write in the
    /// ROM window is rejected and anything below it is dropped.
    pub fn cpu_write(&mut self, address: u16, _data: u8) -> (accepted: bool)
        ensures
            *final(self) == *old(self),
            accepted == (address < 0x8000),
    {
        address < 0x8000
    }

    pub fn chr_read(&self, address: u16) -> (r: u8)
        requires
            self.wf(),
            address < 0x2000,
        ensures
            r == self.chr_rom@[address as int],
    {
        self.chr_rom[address as usize]
    }

    pub fn chr_write(&mut self, address: u16, data: u8)
        requires
            old(self).wf(),
            address < 0x2000,
        ensures
            final(self).chr_rom@ == old(self).chr_rom@.update(address as int, data),
            final(self).prg_rom@ == old(self).prg_rom@,
            final(self).is_32kb_size == old(self).is_32kb_size,
            final(self).wf(),
    {
        self.chr_rom[address as usize] = data;
    }
}

} // verus!
