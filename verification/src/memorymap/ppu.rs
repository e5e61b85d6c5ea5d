use vstd::prelude::*;

use crate::bits::lemma_u16_and_le;
use crate::mapper000::Mapper000;

verus! {

/// The PPU-side memory: 4 KiB of nametable space, 32 bytes of palette
/// RAM and 256 bytes of sprite memory (OAM). Pattern-table accesses in
/// 0x0000..0x2000 go through the cartridge mapper.
pub struct PpuMemoryMap {
    pub nametable: Vec<u8>,
    pub palette: Vec<u8>,
    pub oam: Vec<u8>,
}

/// The palette cell that `address` decodes to: the backdrop entries of
/// the sprite palettes at 0x3F10/0x3F14/0x3F18/0x3F1C alias the
/// corresponding background entries; everything else is the address
/// folded into the 32-byte palette.
pub open spec fn spec_palette_index(address: u16) -> int {
    if address == 0x3F10 || address == 0x3F14 || address == 0x3F18 || address == 0x3F1C {
        address - 0x3F10
    } else {
        (address & 0x1F) as int
    }
}

/// The nametable contents after a PPU-side write of `data` at `address`.
pub open spec fn spec_nametable_after(nt: Seq<u8>, address: u16, data: u8) -> Seq<u8> {
    if 0x2000 <= address < 0x3000 {
        nt.update(address - 0x2000, data)
    } else if 0x3000 <= address < 0x3F00 {
        nt.update(address - 0x3000, data)
    } else {
        nt
    }
}

/// The palette contents after a PPU-side write of `data` at `address`.
pub open spec fn spec_palette_after(pal: Seq<u8>, address: u16, data: u8) -> Seq<u8> {
    if 0x3F00 <= address {
        pal.update(spec_palette_index(address), data)
    } else {
        pal
    }
}

/// The CHR contents after a PPU-side write of `data` at `address`.
pub open spec fn spec_chr_after(chr: Seq<u8>, address: u16, data: u8) -> Seq<u8> {
    if address < 0x2000 {
        chr.update(address as int, data)
    } else {
        chr
    }
}

impl PpuMemoryMap {
    pub open spec fn wf(&self) -> bool {
        &&& self.nametable@.len() == 0x1000
        &&& self.palette@.len() == 0x20
        &&& self.oam@.len() == 0x100
    }

    /// The byte that a PPU-side read of `address` yields.
    pub open spec fn spec_read(&self, mapper: &Mapper000, address: u16) -> u8 {
        if address < 0x2000 {
            mapper.chr_rom@[address as int]
        } else if address < 0x3000 {
            self.nametable@[address - 0x2000]
        } else if address < 0x3F00 {
            self.nametable@[address - 0x3000]
        } else {
            self.palette@[spec_palette_index(address)]
        }
    }

    pub fn new() -> (r: Self)
        ensures
            r.wf(),
            forall|i: int| 0 <= i < 0x1000 ==> r.nametable@[i] == 0u8,
            forall|i: int| 0 <= i < 0x20 ==> r.palette@[i] == 0u8,
            forall|i: int| 0 <= i < 0x100 ==> r.oam@[i] == 0u8,
    {
        let mut nametable: Vec<u8> = Vec::new();
        let mut i: usize = 0;
        while i < 0x1000
            invariant
                nametable@.len() == i,
                i <= 0x1000,
                forall|j: int| 0 <= j < i ==> nametable@[j] == 0u8,
            decreases 0x1000 - i,
        {
            nametable.push(0);
            i = i + 1;
        }
        let mut palette: Vec<u8> = Vec::new();
        let mut k: usize = 0;
        while k < 0x20
            invariant
                palette@.len() == k,
                k <= 0x20,
                forall|j: int| 0 <= j < k ==> palette@[j] == 0u8,
            decreases 0x20 - k,
        {
            palette.push(0);
            k = k + 1;
        }
        let mut oam: Vec<u8> = Vec::new();
        let mut m: usize = 0;
        while m < 0x100
            invariant
                oam@.len() == m,
                m <= 0x100,
                forall|j: int| 0 <= j < m ==> oam@[j] == 0u8,
            decreases 0x100 - m,
        {
            oam.push(0);
            m = m + 1;
        }
        Self { nametable, palette, oam }
    }

    pub fn get_oam(&self) -> (r: &Vec<u8>)
        ensures
            r@ == self.oam@,
    {
        &self.oam
    }

    pub fn set_oam_value(&mut self, address: u8, value: u8)
        requires
            old(self).wf(),
        ensures
            final(self).oam@ == old(self).oam@.update(address as int, value),
            final(self).nametable@ == old(self).nametable@,
            final(self).palette@ == old(self).palette@,
            final(self).wf(),
    {
        self.oam[address as usize] = value;
    }

    pub fn set_oam_buf(&mut self, buf: &Vec<u8>)
        requires
            old(self).wf(),
            buf@.len() == 0x100,
        ensures
            final(self).oam@ == buf@,
            final(self).nametable@ == old(self).nametable@,
            final(self).palette@ == old(self).palette@,
            final(self).wf(),
    {
        let mut i: usize = 0;
        while i < 0x100
            invariant
                old(self).wf(),
                buf@.len() == 0x100,
                self.oam@.len() == 0x100,
                i <= 0x100,
                self.nametable@ == old(self).nametable@,
                self.palette@ == old(self).palette@,
                forall|j: int| 0 <= j < i ==> self.oam@[j] == buf@[j],
                forall|j: int| i <= j < 0x100 ==> self.oam@[j] == old(self).oam@[j],
            decreases 0x100 - i,
        {
            let value: u8 = buf[i];
            self.oam[i] = value;
            i = i + 1;
        }
        proof {
            assert(self.oam@ =~= buf@);
        }
    }

    pub fn read(&self, mapper: &Mapper000, address: u16) -> (r: u8)
        requires
            self.wf(),
            mapper.wf(),
            address < 0x4000,
        ensures
            r == self.spec_read(mapper, address),
    {
        if address < 0x2000 {
            mapper.chr_read(address)
        } else if address < 0x3000 {
            self.nametable[(address - 0x2000) as usize]
        } else if address < 0x3F00 {
            self.nametable[(address - 0x3000) as usize]
        } else if address == 0x3F10 || address == 0x3F14 || address == 0x3F18 || address == 0x3F1C {
            self.palette[(address - 0x3F10) as usize]
        } else {
            proof {
                lemma_u16_and_le(address, 0x1F);
            }
            self.palette[(address & 0x1F) as usize]
        }
    }

    pub fn write(&mut self, mapper: &mut Mapper000, address: u16, data: u8)
        requires
            old(self).wf(),
            old(mapper).wf(),
            address < 0x4000,
        ensures
            final(self).wf(),
            final(mapper).wf(),
            final(self).nametable@ == spec_nametable_after(old(self).nametable@, address, data),
            final(self).palette@ == spec_palette_after(old(self).palette@, address, data),
            final(self).oam@ == old(self).oam@,
            final(mapper).chr_rom@ == spec_chr_after(old(mapper).chr_rom@, address, data),
            final(mapper).prg_rom@ == old(mapper).prg_rom@,
            final(mapper).is_32kb_size == old(mapper).is_32kb_size,
    {
        if address < 0x2000 {
            mapper.chr_write(address, data);
        } else if address < 0x3000 {
            self.nametable[(address - 0x2000) as usize] = data;
        } else if address < 0x3F00 {
            self.nametable[(address - 0x3000) as usize] = data;
        } else if address == 0x3F10 || address == 0x3F14 || address == 0x3F18 || address == 0x3F1C {
            self.palette[(address - 0x3F10) as usize] = data;
        } else {
            proof {
                lemma_u16_and_le(address, 0x1F);
            }
            self.palette[(address & 0x1F) as usize] = data;
        }
    }
}

} // verus!
