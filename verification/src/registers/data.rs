use vstd::prelude::*;

verus! {

/// PPUDATA carries a plain byte; its bits have no individual meaning.
pub enum PpuDataRegisterFlags {
    _Bit0,
    _Bit1,
    _Bit2,
    _Bit3,
    _Bit4,
    _Bit5,
    _Bit6,
    _Bit7,
}

pub open spec fn spec_data_mask(flag: PpuDataRegisterFlags) -> u8 {
    match flag {
        PpuDataRegisterFlags::_Bit0 => 0x01,
        PpuDataRegisterFlags::_Bit1 => 0x02,
        PpuDataRegisterFlags::_Bit2 => 0x04,
        PpuDataRegisterFlags::_Bit3 => 0x08,
        PpuDataRegisterFlags::_Bit4 => 0x10,
        PpuDataRegisterFlags::_Bit5 => 0x20,
        PpuDataRegisterFlags::_Bit6 => 0x40,
        PpuDataRegisterFlags::_Bit7 => 0x80,
    }
}

impl PpuDataRegisterFlags {
    pub fn mask(&self) -> (r: u8)
        ensures
            r == spec_data_mask(*self),
    {
        match self {
            PpuDataRegisterFlags::_Bit0 => 0x01,
            PpuDataRegisterFlags::_Bit1 => 0x02,
            PpuDataRegisterFlags::_Bit2 => 0x04,
            PpuDataRegisterFlags::_Bit3 => 0x08,
            PpuDataRegisterFlags::_Bit4 => 0x10,
            PpuDataRegisterFlags::_Bit5 => 0x20,
            PpuDataRegisterFlags::_Bit6 => 0x40,
            PpuDataRegisterFlags::_Bit7 => 0x80,
        }
    }
}

/// PPUDATA: the last byte written through the VRAM data port.
pub struct PpuDataRegister {
    pub value: u8,
}

impl PpuDataRegister {
    pub fn new() -> (r: Self)
        ensures
            r.value == 0u8,
    {
        Self { value: 0x00 }
    }

    pub fn get(&self) -> (r: u8)
        ensures
            r == self.value,
    {
        self.value
    }

    pub fn set(&mut self, value: u8)
        ensures
            final(self).value == value,
    {
        self.value = value;
    }

    pub fn get_flag(&self, flag: PpuDataRegisterFlags) -> (r: bool)
        ensures
            r == (self.value & spec_data_mask(flag) != 0),
    {
        self.value & flag.mask() != 0
    }

    pub fn set_flag(&mut self, flag: PpuDataRegisterFlags, active: bool)
        ensures
            active ==> final(self).value == (old(self).value | spec_data_mask(flag)),
            !active ==> final(self).value == (old(self).value & !spec_data_mask(flag)),
    {
        if active {
            self.value = self.value | flag.mask();
        } else {
            self.value = self.value & !flag.mask();
        }
    }
}

} // verus!
