use vstd::prelude::*;

use crate::bits::lemma_u16_and_le;
use crate::bits::lemma_u16_mask_noop;
use crate::bits::lemma_vram_split_pack;

verus! {

/// The internal 15-bit VRAM address `v` (and its temporary `t`), kept
/// as its named bit groups. Layout: `0 yyy NN YYYYY XXXXX`, i.e. fine-Y,
/// nametable select, coarse-Y, coarse-X, masked to 14 bits when packed.
pub struct PpuVRamRegister {
    pub coarse_x: u16,
    pub coarse_y: u16,
    pub nametable_x: u16,
    pub nametable_y: u16,
    pub fine_y: u16,
}

/// The packed 14-bit address that the bit groups describe.
pub open spec fn spec_vram_pack(r: PpuVRamRegister) -> u16 {
    ((((r.fine_y & 0b111) << 12) | ((r.nametable_y & 0b1) << 11) | ((r.nametable_x & 0b1) << 10)
        | ((r.coarse_y & 0b11111) << 5) | (r.coarse_x & 0b11111)) & 0x3FFF) as u16
}

impl PpuVRamRegister {
    pub fn new() -> (r: Self)
        ensures
            r.coarse_x == 0u16,
            r.coarse_y == 0u16,
            r.nametable_x == 0u16,
            r.nametable_y == 0u16,
            r.fine_y == 0u16,
    {
        Self {
            coarse_x: 0x0000,
            coarse_y: 0x0000,
            nametable_x: 0x0000,
            nametable_y: 0x0000,
            fine_y: 0x0000,
        }
    }

    /// Splits `address` into the bit groups.
    fn update_bits(&mut self, address: u16)
        ensures
            final(self).coarse_x == address & 0b11111,
            final(self).coarse_y == (address >> 5) & 0b11111,
            final(self).nametable_x == (address >> 10) & 0b1,
            final(self).nametable_y == (address >> 11) & 0b1,
            final(self).fine_y == (address >> 12) & 0b111,
    {
        self.coarse_x = address & 0b11111;
        self.coarse_y = (address >> 5) & 0b11111;
        self.nametable_x = (address >> 10) & 0b1;
        self.nametable_y = (address >> 11) & 0b1;
        self.fine_y = (address >> 12) & 0b111;
    }

    /// Loads the register from a packed address, masked to 14 bits.
    pub fn set(&mut self, address: u16)
        ensures
            spec_vram_pack(*final(self)) == address & 0x3FFF,
            final(self).coarse_x == (address & 0x3FFF) & 0b11111,
            final(self).coarse_y == ((address & 0x3FFF) >> 5) & 0b11111,
            final(self).nametable_x == ((address & 0x3FFF) >> 10) & 0b1,
            final(self).nametable_y == ((address & 0x3FFF) >> 11) & 0b1,
            final(self).fine_y == ((address & 0x3FFF) >> 12) & 0b111,
    {
        let masked: u16 = address & 0x3FFF;
        self.update_bits(masked);
        proof {
            lemma_vram_split_pack(address);
        }
    }

    /// Packs the bit groups back into the 14-bit address.
    pub fn get(&self) -> (r: u16)
        ensures
            r == spec_vram_pack(*self),
            r < 0x4000,
    {
        let unmasked: u16 = ((self.fine_y & 0b111) << 12) | ((self.nametable_y & 0b1) << 11) | ((
        self.nametable_x & 0b1) << 10) | ((self.coarse_y & 0b11111) << 5) | (self.coarse_x
            & 0b11111);
        proof {
            lemma_u16_and_le(unmasked, 0x3FFF);
        }
        unmasked & 0x3FFF
    }

    pub fn set_coarse_x(&mut self, coarse_x: u16)
        ensures
            *final(self) == (PpuVRamRegister { coarse_x: coarse_x & 0b11111, ..*old(self) }),
            final(self).coarse_x < 32,
            coarse_x < 32 ==> final(self).coarse_x == coarse_x,
    {
        proof {
            lemma_u16_and_le(coarse_x, 0b11111);
            lemma_u16_mask_noop(coarse_x);
        }
        self.coarse_x = coarse_x & 0b11111;
    }

    pub fn get_coarse_x(&self) -> (r: u16)
        ensures
            r == self.coarse_x & 0b11111,
            r < 32,
    {
        proof {
            lemma_u16_and_le(self.coarse_x, 0b11111);
        }
        self.coarse_x & 0b11111
    }

    pub fn set_coarse_y(&mut self, coarse_y: u16)
        ensures
            *final(self) == (PpuVRamRegister { coarse_y: coarse_y & 0b11111, ..*old(self) }),
            final(self).coarse_y < 32,
            coarse_y < 32 ==> final(self).coarse_y == coarse_y,
    {
        proof {
            lemma_u16_and_le(coarse_y, 0b11111);
            lemma_u16_mask_noop(coarse_y);
        }
        self.coarse_y = coarse_y & 0b11111;
    }

    pub fn get_coarse_y(&self) -> (r: u16)
        ensures
            r == self.coarse_y & 0b11111,
            r < 32,
    {
        proof {
            lemma_u16_and_le(self.coarse_y, 0b11111);
        }
        self.coarse_y & 0b11111
    }

    pub fn set_nametable_x(&mut self, nametable_x: u16)
        ensures
            *final(self) == (PpuVRamRegister { nametable_x: nametable_x & 0b1, ..*old(self) }),
            final(self).nametable_x < 2,
            nametable_x < 2 ==> final(self).nametable_x == nametable_x,
    {
        proof {
            lemma_u16_and_le(nametable_x, 0b1);
            lemma_u16_mask_noop(nametable_x);
        }
        self.nametable_x = nametable_x & 0b1;
    }

    pub fn get_nametable_x(&self) -> (r: u16)
        ensures
            r == self.nametable_x & 0b1,
            r < 2,
    {
        proof {
            lemma_u16_and_le(self.nametable_x, 0b1);
        }
        self.nametable_x & 0b1
    }

    pub fn set_nametable_y(&mut self, nametable_y: u16)
        ensures
            *final(self) == (PpuVRamRegister { nametable_y: nametable_y & 0b1, ..*old(self) }),
            final(self).nametable_y < 2,
            nametable_y < 2 ==> final(self).nametable_y == nametable_y,
    {
        proof {
            lemma_u16_and_le(nametable_y, 0b1);
            lemma_u16_mask_noop(nametable_y);
        }
        self.nametable_y = nametable_y & 0b1;
    }

    pub fn get_nametable_y(&self) -> (r: u16)
        ensures
            r == self.nametable_y & 0b1,
            r < 2,
    {
        proof {
            lemma_u16_and_le(self.nametable_y, 0b1);
        }
        self.nametable_y & 0b1
    }

    pub fn set_fine_y(&mut self, fine_y: u16)
        ensures
            *final(self) == (PpuVRamRegister { fine_y: fine_y & 0b111, ..*old(self) }),
            final(self).fine_y < 8,
            fine_y < 8 ==> final(self).fine_y == fine_y,
    {
        proof {
            lemma_u16_and_le(fine_y, 0b111);
            lemma_u16_mask_noop(fine_y);
        }
        self.fine_y = fine_y & 0b111;
    }

    pub fn get_fine_y(&self) -> (r: u16)
        ensures
            r == self.fine_y & 0b111,
            r < 8,
    {
        proof {
            lemma_u16_and_le(self.fine_y, 0b111);
        }
        self.fine_y & 0b111
    }
}

} // verus!
