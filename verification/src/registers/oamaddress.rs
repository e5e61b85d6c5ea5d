use vstd::prelude::*;

verus! {

/// OAMADDR carries a plain byte; its bits have no individual meaning.
pub enum PpuOamAddressRegisterFlags {
    _Bit0,
    _Bit1,
    _Bit2,
    _Bit3,
    _Bit4,
    _Bit5,
    _Bit6,
    _Bit7,
}

pub open spec fn spec_oamaddress_mask(flag: PpuOamAddressRegisterFlags) -> u8 {
    match flag {
        PpuOamAddressRegisterFlags::_Bit0 => 0x01,
        PpuOamAddressRegisterFlags::_Bit1 => 0x02,
        PpuOamAddressRegisterFlags::_Bit2 => 0x04,
        PpuOamAddressRegisterFlags::_Bit3 => 0x08,
        PpuOamAddressRegisterFlags::_Bit4 => 0x10,
        PpuOamAddressRegisterFlags::_Bit5 => 0x20,
        PpuOamAddressRegisterFlags::_Bit6 => 0x40,
        PpuOamAddressRegisterFlags::_Bit7 => 0x80,
    }
}

impl PpuOamAddressRegisterFlags {
    pub fn mask(&self) -> (r: u8)
        ensures
            r == spec_oamaddress_mask(*self),
    {
        match self {
            PpuOamAddressRegisterFlags::_Bit0 => 0x01,
            PpuOamAddressRegisterFlags::_Bit1 => 0x02,
            PpuOamAddressRegisterFlags::_Bit2 => 0x04,
            PpuOamAddressRegisterFlags::_Bit3 => 0x08,
            PpuOamAddressRegisterFlags::_Bit4 => 0x10,
            PpuOamAddressRegisterFlags::_Bit5 => 0x20,
            PpuOamAddressRegisterFlags::_Bit6 => 0x40,
            PpuOamAddressRegisterFlags::_Bit7 => 0x80,
        }
    }
}

/// OAMADDR: the sprite memory address used by OAMDATA accesses.
pub struct PpuOamAddressRegister {
    pub value: u8,
}

impl PpuOamAddressRegister {
    pub fn new() -> (r: Self)
        ensures
            r.value == 0u8,
    {
        Self { value: 0x00 }
    }

    pub fn get(&self) -> (r: u8)
        ensures
            r == self.value,
    {
        self.value
    }

    pub fn set(&mut self, value: u8)
        ensures
            final(self).value == value,
    {
        self.value = value;
    }

    pub fn get_flag(&self, flag: PpuOamAddressRegisterFlags) -> (r: bool)
        ensures
            r == (self.value & spec_oamaddress_mask(flag) != 0),
    {
        self.value & flag.mask() != 0
    }

    pub fn set_flag(&mut self, flag: PpuOamAddressRegisterFlags, active: bool)
        ensures
            active ==> final(self).value == (old(self).value | spec_oamaddress_mask(flag)),
            !active ==> final(self).value == (old(self).value & !spec_oamaddress_mask(flag)),
    {
        if active {
            self.value = self.value | flag.mask();
        } else {
            self.value = self.value & !flag.mask();
        }
    }
}

} // verus!
