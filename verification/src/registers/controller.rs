use vstd::prelude::*;

verus! {

/// Bits of PPUCTRL. Underscore-prefixed variants are decoded but unused
/// by the pipeline implemented here.
pub enum PpuControllerRegisterFlags {
    _ScrollX,
    _ScrollY,
    AddressIncrement,
    SpritesPatternTable,
    BackgroundPatternTable,
    _SpriteSize,
    _MasterSlaveSelect,
    GenerateVBlankNMI,
}

pub open spec fn spec_controller_mask(flag: PpuControllerRegisterFlags) -> u8 {
    match flag {
        PpuControllerRegisterFlags::_ScrollX => 0x01,
        PpuControllerRegisterFlags::_ScrollY => 0x02,
        PpuControllerRegisterFlags::AddressIncrement => 0x04,
        PpuControllerRegisterFlags::SpritesPatternTable => 0x08,
        PpuControllerRegisterFlags::BackgroundPatternTable => 0x10,
        PpuControllerRegisterFlags::_SpriteSize => 0x20,
        PpuControllerRegisterFlags::_MasterSlaveSelect => 0x40,
        PpuControllerRegisterFlags::GenerateVBlankNMI => 0x80,
    }
}

impl PpuControllerRegisterFlags {
    pub fn mask(&self) -> (r: u8)
        ensures
            r == spec_controller_mask(*self),
    {
        match self {
            PpuControllerRegisterFlags::_ScrollX => 0x01,
            PpuControllerRegisterFlags::_ScrollY => 0x02,
            PpuControllerRegisterFlags::AddressIncrement => 0x04,
            PpuControllerRegisterFlags::SpritesPatternTable => 0x08,
            PpuControllerRegisterFlags::BackgroundPatternTable => 0x10,
            PpuControllerRegisterFlags::_SpriteSize => 0x20,
            PpuControllerRegisterFlags::_MasterSlaveSelect => 0x40,
            PpuControllerRegisterFlags::GenerateVBlankNMI => 0x80,
        }
    }
}

/// PPUCTRL: write-only control register.
pub struct PpuControllerRegister {
    pub value: u8,
}

impl PpuControllerRegister {
    pub fn new() -> (r: Self)
        ensures
            r.value == 0u8,
    {
        Self { value: 0x00 }
    }

    pub fn get(&self) -> (r: u8)
        ensures
            r == self.value,
    {
        self.value
    }

    pub fn set(&mut self, value: u8)
        ensures
            final(self).value == value,
    {
        self.value = value;
    }

    pub fn get_flag(&self, flag: PpuControllerRegisterFlags) -> (r: bool)
        ensures
            r == (self.value & spec_controller_mask(flag) != 0),
    {
        self.value & flag.mask() != 0
    }

    pub fn set_flag(&mut self, flag: PpuControllerRegisterFlags, active: bool)
        ensures
            active ==> final(self).value == (old(self).value | spec_controller_mask(flag)),
            !active ==> final(self).value == (old(self).value & !spec_controller_mask(flag)),
    {
        if active {
            self.value = self.value | flag.mask();
        } else {
            self.value = self.value & !flag.mask();
        }
    }
}

} // verus!
