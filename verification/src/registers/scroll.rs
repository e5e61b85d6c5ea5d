use vstd::prelude::*;

verus! {

/// PPUSCROLL carries plain bytes; its bits have no individual meaning.
pub enum PpuScrollRegisterFlags {
    _Bit0,
    _Bit1,
    _Bit2,
    _Bit3,
    _Bit4,
    _Bit5,
    _Bit6,
    _Bit7,
}

pub open spec fn spec_scroll_mask(flag: PpuScrollRegisterFlags) -> u8 {
    match flag {
        PpuScrollRegisterFlags::_Bit0 => 0x01,
        PpuScrollRegisterFlags::_Bit1 => 0x02,
        PpuScrollRegisterFlags::_Bit2 => 0x04,
        PpuScrollRegisterFlags::_Bit3 => 0x08,
        PpuScrollRegisterFlags::_Bit4 => 0x10,
        PpuScrollRegisterFlags::_Bit5 => 0x20,
        PpuScrollRegisterFlags::_Bit6 => 0x40,
        PpuScrollRegisterFlags::_Bit7 => 0x80,
    }
}

impl PpuScrollRegisterFlags {
    pub fn mask(&self) -> (r: u8)
        ensures
            r == spec_scroll_mask(*self),
    {
        match self {
            PpuScrollRegisterFlags::_Bit0 => 0x01,
            PpuScrollRegisterFlags::_Bit1 => 0x02,
            PpuScrollRegisterFlags::_Bit2 => 0x04,
            PpuScrollRegisterFlags::_Bit3 => 0x08,
            PpuScrollRegisterFlags::_Bit4 => 0x10,
            PpuScrollRegisterFlags::_Bit5 => 0x20,
            PpuScrollRegisterFlags::_Bit6 => 0x40,
            PpuScrollRegisterFlags::_Bit7 => 0x80,
        }
    }
}

/// PPUSCROLL: two scroll bytes behind a shared write toggle. The first
/// write lands in the X half, the second in the Y half.
pub struct PpuScrollRegister {
    pub value: (u8, u8),
    pub latch: bool,
}

impl PpuScrollRegister {
    pub fn new() -> (r: Self)
        ensures
            r.value.0 == 0u8,
            r.value.1 == 0u8,
            !r.latch,
    {
        Self { value: (0x00, 0x00), latch: false }
    }

    pub fn reset_latch(&mut self)
        ensures
            final(self).value == old(self).value,
            !final(self).latch,
    {
        self.latch = false;
    }

    pub fn get_scroll(&self) -> (r: (u8, u8))
        ensures
            r == self.value,
    {
        self.value
    }

    /// The half that the current toggle selects.
    pub fn get(&self) -> (r: u8)
        ensures
            self.latch ==> r == self.value.1,
            !self.latch ==> r == self.value.0,
    {
        if self.latch {
            self.value.1
        } else {
            self.value.0
        }
    }

    /// Writes the selected half and flips the toggle.
    pub fn set(&mut self, value: u8)
        ensures
            old(self).latch ==> final(self).value == (old(self).value.0, value),
            !old(self).latch ==> final(self).value == (value, old(self).value.1),
            final(self).latch == !old(self).latch,
    {
        if self.latch {
            self.value.1 = value;
        } else {
            self.value.0 = value;
        }
        self.latch = !self.latch;
    }

    pub fn get_flag(&self, flag: PpuScrollRegisterFlags) -> (r: bool)
        ensures
            self.latch ==> r == (self.value.1 & spec_scroll_mask(flag) != 0),
            !self.latch ==> r == (self.value.0 & spec_scroll_mask(flag) != 0),
    {
        let value: u8 = if self.latch {
            self.value.1
        } else {
            self.value.0
        };
        value & flag.mask() != 0
    }

    pub fn set_flag(&mut self, flag: PpuScrollRegisterFlags, active: bool)
        ensures
            final(self).latch == old(self).latch,
            old(self).latch && active ==> final(self).value == (
                old(self).value.0,
                old(self).value.1 | spec_scroll_mask(flag),
            ),
            old(self).latch && !active ==> final(self).value == (
                old(self).value.0,
                old(self).value.1 & !spec_scroll_mask(flag),
            ),
            !old(self).latch && active ==> final(self).value == (
                old(self).value.0 | spec_scroll_mask(flag),
                old(self).value.1,
            ),
            !old(self).latch && !active ==> final(self).value == (
                old(self).value.0 & !spec_scroll_mask(flag),
                old(self).value.1,
            ),
    {
        let mask: u8 = flag.mask();
        if self.latch {
            if active {
                self.value.1 = self.value.1 | mask;
            } else {
                self.value.1 = self.value.1 & !mask;
            }
        } else {
            if active {
                self.value.0 = self.value.0 | mask;
            } else {
                self.value.0 = self.value.0 & !mask;
            }
        }
    }
}

} // verus!
