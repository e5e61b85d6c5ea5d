use vstd::prelude::*;

use crate::bits::lemma_pair_mask14;
use crate::bits::lemma_u16_split_bytes;

verus! {

/// PPUADDR carries plain bytes; its bits have no individual meaning.
pub enum PpuAddressRegisterFlags {
    _Bit0,
    _Bit1,
    _Bit2,
    _Bit3,
    _Bit4,
    _Bit5,
    _Bit6,
    _Bit7,
}

pub open spec fn spec_address_mask(flag: PpuAddressRegisterFlags) -> u8 {
    match flag {
        PpuAddressRegisterFlags::_Bit0 => 0x01,
        PpuAddressRegisterFlags::_Bit1 => 0x02,
        PpuAddressRegisterFlags::_Bit2 => 0x04,
        PpuAddressRegisterFlags::_Bit3 => 0x08,
        PpuAddressRegisterFlags::_Bit4 => 0x10,
        PpuAddressRegisterFlags::_Bit5 => 0x20,
        PpuAddressRegisterFlags::_Bit6 => 0x40,
        PpuAddressRegisterFlags::_Bit7 => 0x80,
    }
}

impl PpuAddressRegisterFlags {
    pub fn mask(&self) -> (r: u8)
        ensures
            r == spec_address_mask(*self),
    {
        match self {
            PpuAddressRegisterFlags::_Bit0 => 0x01,
            PpuAddressRegisterFlags::_Bit1 => 0x02,
            PpuAddressRegisterFlags::_Bit2 => 0x04,
            PpuAddressRegisterFlags::_Bit3 => 0x08,
            PpuAddressRegisterFlags::_Bit4 => 0x10,
            PpuAddressRegisterFlags::_Bit5 => 0x20,
            PpuAddressRegisterFlags::_Bit6 => 0x40,
            PpuAddressRegisterFlags::_Bit7 => 0x80,
        }
    }
}

/// The 16-bit address held as a (high, low) byte pair.
pub open spec fn spec_address_of(pair: (u8, u8)) -> u16 {
    (pair.1 as u16) | ((pair.0 as u16) << 8)
}

/// PPUADDR: a VRAM address written one byte at a time behind a write
/// toggle, high byte first. The stored address is kept within 14 bits.
pub struct PpuAddressRegister {
    pub address: (u8, u8),
    pub latch: bool,
}

impl PpuAddressRegister {
    pub fn new() -> (r: Self)
        ensures
            r.address.0 == 0u8,
            r.address.1 == 0u8,
            !r.latch,
    {
        Self { address: (0x00, 0x00), latch: false }
    }

    /// Re-packs the stored pair so that the address stays within 0x3FFF.
    fn fix_overflow(&mut self)
        ensures
            spec_address_of(final(self).address) == spec_address_of(old(self).address) & 0x3FFF,
            final(self).address.0 == old(self).address.0 & 0x3F,
            final(self).address.1 == old(self).address.1,
            final(self).latch == old(self).latch,
    {
        let hi: u8 = self.address.0;
        let lo: u8 = self.address.1;
        proof {
            lemma_pair_mask14(lo, hi);
        }
        self.address.0 = hi & 0x3F;
    }

    pub fn get_address(&self) -> (r: u16)
        ensures
            r == spec_address_of(self.address),
    {
        let r: u16 = (self.address.1 as u16) | ((self.address.0 as u16) << 8);
        r
    }

    pub fn set_address(&mut self, address: u16)
        ensures
            spec_address_of(final(self).address) == address & 0x3FFF,
            final(self).latch == old(self).latch,
    {
        let hi: u8 = (address >> 8) as u8;
        let lo: u8 = address as u8;
        self.address = (hi, lo);
        proof {
            lemma_u16_split_bytes(address);
        }
        self.fix_overflow();
    }

    pub fn reset_latch(&mut self)
        ensures
            final(self).address == old(self).address,
            !final(self).latch,
    {
        self.latch = false;
    }

    /// The byte that the current toggle selects: high first, then low.
    pub fn get(&self) -> (r: u8)
        ensures
            self.latch ==> r == self.address.1,
            !self.latch ==> r == self.address.0,
    {
        if self.latch {
            self.address.1
        } else {
            self.address.0
        }
    }

    /// Writes the selected byte, keeps the address within 14 bits, and
    /// flips the toggle.
    pub fn set(&mut self, value: u8)
        ensures
            old(self).latch ==> final(self).address == (old(self).address.0 & 0x3F, value),
            !old(self).latch ==> final(self).address == (value & 0x3F, old(self).address.1),
            final(self).latch == !old(self).latch,
    {
        if self.latch {
            self.address.1 = value;
        } else {
            self.address.0 = value;
        }
        self.fix_overflow();
        self.latch = !self.latch;
    }

    pub fn get_flag(&self, flag: PpuAddressRegisterFlags) -> (r: bool)
        ensures
            self.latch ==> r == (self.address.1 & spec_address_mask(flag) != 0),
            !self.latch ==> r == (self.address.0 & spec_address_mask(flag) != 0),
    {
        let value: u8 = if self.latch {
            self.address.1
        } else {
            self.address.0
        };
        value & flag.mask() != 0
    }

    pub fn set_flag(&mut self, flag: PpuAddressRegisterFlags, active: bool)
        ensures
            final(self).latch == old(self).latch,
            old(self).latch && active ==> final(self).address == (
                old(self).address.0,
                old(self).address.1 | spec_address_mask(flag),
            ),
            old(self).latch && !active ==> final(self).address == (
                old(self).address.0,
                old(self).address.1 & !spec_address_mask(flag),
            ),
            !old(self).latch && active ==> final(self).address == (
                old(self).address.0 | spec_address_mask(flag),
                old(self).address.1,
            ),
            !old(self).latch && !active ==> final(self).address == (
                old(self).address.0 & !spec_address_mask(flag),
                old(self).address.1,
            ),
    {
        let mask: u8 = flag.mask();
        if self.latch {
            if active {
                self.address.1 = self.address.1 | mask;
            } else {
                self.address.1 = self.address.1 & !mask;
            }
        } else {
            if active {
                self.address.0 = self.address.0 | mask;
            } else {
                self.address.0 = self.address.0 & !mask;
            }
        }
    }
}

} // verus!
