use vstd::prelude::*;

verus! {

/// OAMDATA carries a plain byte; its bits have no individual meaning.
pub enum PpuOamDataRegisterFlags {
    _Bit0,
    _Bit1,
    _Bit2,
    _Bit3,
    _Bit4,
    _Bit5,
    _Bit6,
    _Bit7,
}

pub open spec fn spec_oamdata_mask(flag: PpuOamDataRegisterFlags) -> u8 {
    match flag {
        PpuOamDataRegisterFlags::_Bit0 => 0x01,
        PpuOamDataRegisterFlags::_Bit1 => 0x02,
        PpuOamDataRegisterFlags::_Bit2 => 0x04,
        PpuOamDataRegisterFlags::_Bit3 => 0x08,
        PpuOamDataRegisterFlags::_Bit4 => 0x10,
        PpuOamDataRegisterFlags::_Bit5 => 0x20,
        PpuOamDataRegisterFlags::_Bit6 => 0x40,
        PpuOamDataRegisterFlags::_Bit7 => 0x80,
    }
}

impl PpuOamDataRegisterFlags {
    pub fn mask(&self) -> (r: u8)
        ensures
            r == spec_oamdata_mask(*self),
    {
        match self {
            PpuOamDataRegisterFlags::_Bit0 => 0x01,
            PpuOamDataRegisterFlags::_Bit1 => 0x02,
            PpuOamDataRegisterFlags::_Bit2 => 0x04,
            PpuOamDataRegisterFlags::_Bit3 => 0x08,
            PpuOamDataRegisterFlags::_Bit4 => 0x10,
            PpuOamDataRegisterFlags::_Bit5 => 0x20,
            PpuOamDataRegisterFlags::_Bit6 => 0x40,
            PpuOamDataRegisterFlags::_Bit7 => 0x80,
        }
    }
}

/// OAMDATA: the last byte moved through the sprite data port.
pub struct PpuOamDataRegister {
    pub value: u8,
}

impl PpuOamDataRegister {
    pub fn new() -> (r: Self)
        ensures
            r.value == 0u8,
    {
        Self { value: 0x00 }
    }

    pub fn get(&self) -> (r: u8)
        ensures
            r == self.value,
    {
        self.value
    }

    pub fn set(&mut self, value: u8)
        ensures
            final(self).value == value,
    {
        self.value = value;
    }

    pub fn get_flag(&self, flag: PpuOamDataRegisterFlags) -> (r: bool)
        ensures
            r == (self.value & spec_oamdata_mask(flag) != 0),
    {
        self.value & flag.mask() != 0
    }

    pub fn set_flag(&mut self, flag: PpuOamDataRegisterFlags, active: bool)
        ensures
            active ==> final(self).value == (old(self).value | spec_oamdata_mask(flag)),
            !active ==> final(self).value == (old(self).value & !spec_oamdata_mask(flag)),
    {
        if active {
            self.value = self.value | flag.mask();
        } else {
            self.value = self.value & !flag.mask();
        }
    }
}

} // verus!
