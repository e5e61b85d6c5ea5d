use vstd::prelude::*;

verus! {

/// Bits of PPUMASK. Underscore-prefixed variants are decoded but unused
/// by the pipeline implemented here.
pub enum PpuMaskRegisterFlags {
    _Greyscale,
    ShowBackgroundLeftmost,
    ShowSpritesLeftmost,
    ShowBackground,
    ShowSprites,
    _EmphasizeRed,
    _EmphasizeGreen,
    _EmphasizeBlue,
}

pub open spec fn spec_mask_mask(flag: PpuMaskRegisterFlags) -> u8 {
    match flag {
        PpuMaskRegisterFlags::_Greyscale => 0x01,
        PpuMaskRegisterFlags::ShowBackgroundLeftmost => 0x02,
        PpuMaskRegisterFlags::ShowSpritesLeftmost => 0x04,
        PpuMaskRegisterFlags::ShowBackground => 0x08,
        PpuMaskRegisterFlags::ShowSprites => 0x10,
        PpuMaskRegisterFlags::_EmphasizeRed => 0x20,
        PpuMaskRegisterFlags::_EmphasizeGreen => 0x40,
        PpuMaskRegisterFlags::_EmphasizeBlue => 0x80,
    }
}

impl PpuMaskRegisterFlags {
    pub fn mask(&self) -> (r: u8)
        ensures
            r == spec_mask_mask(*self),
    {
        match self {
            PpuMaskRegisterFlags::_Greyscale => 0x01,
            PpuMaskRegisterFlags::ShowBackgroundLeftmost => 0x02,
            PpuMaskRegisterFlags::ShowSpritesLeftmost => 0x04,
            PpuMaskRegisterFlags::ShowBackground => 0x08,
            PpuMaskRegisterFlags::ShowSprites => 0x10,
            PpuMaskRegisterFlags::_EmphasizeRed => 0x20,
            PpuMaskRegisterFlags::_EmphasizeGreen => 0x40,
            PpuMaskRegisterFlags::_EmphasizeBlue => 0x80,
        }
    }
}

/// PPUMASK: write-only rendering control register.
pub struct PpuMaskRegister {
    pub value: u8,
}

impl PpuMaskRegister {
    pub fn new() -> (r: Self)
        ensures
            r.value == 0u8,
    {
        Self { value: 0x00 }
    }

    pub fn get(&self) -> (r: u8)
        ensures
            r == self.value,
    {
        self.value
    }

    pub fn set(&mut self, value: u8)
        ensures
            final(self).value == value,
    {
        self.value = value;
    }

    pub fn get_flag(&self, flag: PpuMaskRegisterFlags) -> (r: bool)
        ensures
            r == (self.value & spec_mask_mask(flag) != 0),
    {
        self.value & flag.mask() != 0
    }

    pub fn set_flag(&mut self, flag: PpuMaskRegisterFlags, active: bool)
        ensures
            active ==> final(self).value == (old(self).value | spec_mask_mask(flag)),
            !active ==> final(self).value == (old(self).value & !spec_mask_mask(flag)),
    {
        if active {
            self.value = self.value | flag.mask();
        } else {
            self.value = self.value & !flag.mask();
        }
    }
}

} // verus!
