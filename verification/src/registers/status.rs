use vstd::prelude::*;

verus! {

/// Bits of PPUSTATUS that the pipeline raises and clears.
pub enum PpuStatusRegisterFlags {
    SpriteOverflow,
    SpriteZeroHit,
    VBlank,
}

pub open spec fn spec_status_mask(flag: PpuStatusRegisterFlags) -> u8 {
    match flag {
        PpuStatusRegisterFlags::SpriteOverflow => 0x20,
        PpuStatusRegisterFlags::SpriteZeroHit => 0x40,
        PpuStatusRegisterFlags::VBlank => 0x80,
    }
}

impl PpuStatusRegisterFlags {
    pub fn mask(&self) -> (r: u8)
        ensures
            r == spec_status_mask(*self),
    {
        match self {
            PpuStatusRegisterFlags::SpriteOverflow => 0x20,
            PpuStatusRegisterFlags::SpriteZeroHit => 0x40,
            PpuStatusRegisterFlags::VBlank => 0x80,
        }
    }
}

/// PPUSTATUS: read-only status register.
pub struct PpuStatusRegister {
    pub value: u8,
}

impl PpuStatusRegister {
    pub fn new() -> (r: Self)
        ensures
            r.value == 0u8,
    {
        Self { value: 0x00 }
    }

    pub fn get(&self) -> (r: u8)
        ensures
            r == self.value,
    {
        self.value
    }

    pub fn set(&mut self, value: u8)
        ensures
            final(self).value == value,
    {
        self.value = value;
    }

    pub fn get_flag(&self, flag: PpuStatusRegisterFlags) -> (r: bool)
        ensures
            r == (self.value & spec_status_mask(flag) != 0),
    {
        self.value & flag.mask() != 0
    }

    pub fn set_flag(&mut self, flag: PpuStatusRegisterFlags, active: bool)
        ensures
            active ==> final(self).value == (old(self).value | spec_status_mask(flag)),
            !active ==> final(self).value == (old(self).value & !spec_status_mask(flag)),
    {
        if active {
            self.value = self.value | flag.mask();
        } else {
            self.value = self.value & !flag.mask();
        }
    }
}

} // verus!
