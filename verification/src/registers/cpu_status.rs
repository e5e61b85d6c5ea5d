use vstd::prelude::*;

verus! {

/// The seven CPU status flags plus the always-one Unused bit, each
/// standing for one bit of the P register.
pub enum CpuStatusRegisterFlags {
    Carry,
    Zero,
    InterruptDisable,
    DecimalMode,
    Break,
    Unused,
    Overflow,
    Negative,
}

/// Bit mask of a status flag within the P register.
pub open spec fn spec_flag_mask(flag: CpuStatusRegisterFlags) -> u8 {
    match flag {
        CpuStatusRegisterFlags::Carry => 0x01,
        CpuStatusRegisterFlags::Zero => 0x02,
        CpuStatusRegisterFlags::InterruptDisable => 0x04,
        CpuStatusRegisterFlags::DecimalMode => 0x08,
        CpuStatusRegisterFlags::Break => 0x10,
        CpuStatusRegisterFlags::Unused => 0x20,
        CpuStatusRegisterFlags::Overflow => 0x40,
        CpuStatusRegisterFlags::Negative => 0x80,
    }
}

impl CpuStatusRegisterFlags {
    /// The bit this flag occupies in the packed status byte.
    pub fn mask(&self) -> (r: u8)
        ensures
            r == spec_flag_mask(*self),
    {
        match self {
            CpuStatusRegisterFlags::Carry => 0x01,
            CpuStatusRegisterFlags::Zero => 0x02,
            CpuStatusRegisterFlags::InterruptDisable => 0x04,
            CpuStatusRegisterFlags::DecimalMode => 0x08,
            CpuStatusRegisterFlags::Break => 0x10,
            CpuStatusRegisterFlags::Unused => 0x20,
            CpuStatusRegisterFlags::Overflow => 0x40,
            CpuStatusRegisterFlags::Negative => 0x80,
        }
    }
}

/// The CPU status register P, stored as a packed byte.
pub struct CpuStatusRegister {
    pub value: u8,
}

/// Whether `value` has the bit of `flag` set.
pub open spec fn spec_flag_set(value: u8, flag: CpuStatusRegisterFlags) -> bool {
    value & spec_flag_mask(flag) != 0
}

impl CpuStatusRegister {
    /// On power-up P holds 0x24: InterruptDisable and Unused set.
    pub fn new() -> (r: Self)
        ensures
            r.value == 0x24u8,
    {
        Self { value: 0x24 }
    }

    pub fn get(&self) -> (r: u8)
        ensures
            r == self.value,
    {
        self.value
    }

    pub fn set(&mut self, value: u8)
        ensures
            final(self).value == value,
    {
        self.value = value;
    }

    pub fn get_flag(&self, flag: CpuStatusRegisterFlags) -> (r: bool)
        ensures
            r == spec_flag_set(self.value, flag),
    {
        self.value & flag.mask() != 0
    }

    pub fn set_flag(&mut self, flag: CpuStatusRegisterFlags, active: bool)
        ensures
            active ==> final(self).value == (old(self).value | spec_flag_mask(flag)),
            !active ==> final(self).value == (old(self).value & !spec_flag_mask(flag)),
    {
        if active {
            self.value = self.value | flag.mask();
        } else {
            self.value = self.value & !flag.mask();
        }
    }
}

} // verus!
