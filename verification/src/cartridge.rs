use vstd::prelude::*;

use crate::bits::lemma_u8_and_le;
use crate::mapper000::Mapper000;
use crate::ppu::Mirroring;

verus! {

/// Why a ROM image was rejected.
#[derive(Clone, Copy, PartialEq, Eq, Structural, Debug)]
pub enum CartridgeError {
    InvalidMagic,
    Truncated,
    UnsupportedMapper,
    InvalidPrgRomSize,
    InvalidChrRomSize,
}

/// An iNES image accepted here: PRG-ROM of one or two 16 KiB banks and
/// one 8 KiB CHR bank behind mapper 000, with its mirroring mode.
pub struct Cartridge {
    pub prg_rom: Vec<u8>,
    pub chr_rom: Vec<u8>,
    pub mirroring: Mirroring,
}

/// Whether the header says a 512-byte trainer sits before PRG-ROM.
pub open spec fn spec_has_trainer(rom: Seq<u8>) -> bool {
    rom[6] & 0x04 != 0
}

/// The mirroring mode the header selects: the four-screen bit
/// overrides the horizontal/vertical bit.
pub open spec fn spec_header_mirroring(rom: Seq<u8>) -> Mirroring {
    if rom[6] & 0x08 != 0 {
        Mirroring::FourScreen
    } else if rom[6] & 0x01 != 0 {
        Mirroring::Vertical
    } else {
        Mirroring::Horizontal
    }
}

/// The mapper number: low nibble from flags 6, high nibble from
/// flags 7.
pub open spec fn spec_mapper_number(rom: Seq<u8>) -> u8 {
    (rom[6] >> 4) | (rom[7] & 0xF0)
}

/// The file offset where PRG-ROM begins.
pub open spec fn spec_prg_start(rom: Seq<u8>) -> int {
    16 + if spec_has_trainer(rom) {
        512int
    } else {
        0int
    }
}

pub open spec fn spec_prg_len(rom: Seq<u8>) -> int {
    rom[4] * 16384
}

pub open spec fn spec_chr_len(rom: Seq<u8>) -> int {
    rom[5] * 8192
}

/// The first reason to reject the image, tested in header order, or
/// nothing when the image is well-formed.
pub open spec fn spec_cartridge_error(rom: Seq<u8>) -> Option<CartridgeError> {
    if rom.len() < 16 {
        Some(CartridgeError::Truncated)
    } else if !(rom[0] == 0x4E && rom[1] == 0x45 && rom[2] == 0x53 && rom[3] == 0x1A) {
        Some(CartridgeError::InvalidMagic)
    } else if spec_mapper_number(rom) != 0 {
        Some(CartridgeError::UnsupportedMapper)
    } else if !(rom[4] == 1 || rom[4] == 2) {
        Some(CartridgeError::InvalidPrgRomSize)
    } else if rom[5] != 1 {
        Some(CartridgeError::InvalidChrRomSize)
    } else if rom.len() < spec_prg_start(rom) + spec_prg_len(rom) + spec_chr_len(rom) {
        Some(CartridgeError::Truncated)
    } else {
        None
    }
}

/// Copies `src[start..start + len]` into a fresh vector.
fn copy_range(src: &Vec<u8>, start: usize, len: usize) -> (r: Vec<u8>)
    requires
        start + len <= src@.len(),
    ensures
        r@ == src@.subrange(start as int, start + len),
{
    let src_len: usize = src.len();
    let mut r: Vec<u8> = Vec::new();
    let mut i: usize = 0;
    while i < len
        invariant
            start + len <= src@.len(),
            src@.len() <= usize::MAX,
            i <= len,
            r@.len() == i,
            forall|j: int| 0 <= j < i ==> r@[j] == src@[start + j],
        decreases len - i,
    {
        r.push(src[start + i]);
        i = i + 1;
    }
    proof {
        assert(r@ =~= src@.subrange(start as int, start + len));
    }
    r
}

impl Cartridge {
    /// The bank sizes that mapper 000 addresses without going out of
    /// bounds.
    pub open spec fn wf(&self) -> bool {
        &&& (self.prg_rom@.len() == 0x4000 || self.prg_rom@.len() == 0x8000)
        &&& self.chr_rom@.len() == 0x2000
    }

    /// Parses an iNES image. Accepts exactly the images whose header
    /// is well-formed, whose mapper is 000 with NROM-sized banks, and
    /// whose file holds the banks the header promises.
    pub fn new(rom: Vec<u8>) -> (r: Result<Self, CartridgeError>)
        ensures
            r is Ok <==> spec_cartridge_error(rom@) is None,
            r matches Err(e) ==> Some(e) == spec_cartridge_error(rom@),
            r matches Ok(c) ==> {
                &&& c.prg_rom@ == rom@.subrange(
                    spec_prg_start(rom@),
                    spec_prg_start(rom@) + spec_prg_len(rom@),
                )
                &&& c.chr_rom@ == rom@.subrange(
                    spec_prg_start(rom@) + spec_prg_len(rom@),
                    spec_prg_start(rom@) + spec_prg_len(rom@) + spec_chr_len(rom@),
                )
                &&& c.mirroring == spec_header_mirroring(rom@)
                &&& c.wf()
            },
    {
        if rom.len() < 16 {
            return Err(CartridgeError::Truncated);
        }
        if !(rom[0] == 0x4E && rom[1] == 0x45 && rom[2] == 0x53 && rom[3] == 0x1A) {
            return Err(CartridgeError::InvalidMagic);
        }
        let flag6_metadata: u8 = rom[6];
        let flag7_metadata: u8 = rom[7];
        let mapper_number: u8 = (flag6_metadata >> 4) | (flag7_metadata & 0xF0);
        if mapper_number != 0 {
            return Err(CartridgeError::UnsupportedMapper);
        }
        let prg_rom_units: u8 = rom[4];
        if !(prg_rom_units == 1 || prg_rom_units == 2) {
            return Err(CartridgeError::InvalidPrgRomSize);
        }
        if rom[5] != 1 {
            return Err(CartridgeError::InvalidChrRomSize);
        }
        let has_trainer: bool = (flag6_metadata >> 2) & 0x1 == 0x1;
        proof {
            crate::bits::lemma_u8_header_bits(flag6_metadata);
            lemma_u8_and_le(flag6_metadata, 0x1);
        }
        let mirroring: Mirroring = {
            let four_screen_mirroring: bool = (flag6_metadata >> 3) & 0x1 == 0x1;
            if four_screen_mirroring {
                Mirroring::FourScreen
            } else if flag6_metadata & 0x1 == 0x1 {
                Mirroring::Vertical
            } else {
                Mirroring::Horizontal
            }
        };
        let prg_rom_begin: usize = if has_trainer {
            16 + 512
        } else {
            16
        };
        let prg_rom_len: usize = prg_rom_units as usize * 16384;
        let chr_rom_begin: usize = prg_rom_begin + prg_rom_len;
        if rom.len() < chr_rom_begin + 8192 {
            return Err(CartridgeError::Truncated);
        }
        let prg_rom: Vec<u8> = copy_range(&rom, prg_rom_begin, prg_rom_len);
        let chr_rom: Vec<u8> = copy_range(&rom, chr_rom_begin, 8192);
        Ok(Self { prg_rom, chr_rom, mirroring })
    }

    pub fn get_mirroring(&self) -> (r: Mirroring)
        ensures
            r == self.mirroring,
    {
        self.mirroring
    }

    /// A blank cartridge: 32 KiB of zeroed PRG-ROM and 8 KiB of zeroed
    /// CHR memory, horizontally mirrored.
    pub fn empty() -> (r: Self)
        ensures
            r.wf(),
            r.prg_rom@.len() == 0x8000,
            forall|i: int| 0 <= i < 0x8000 ==> r.prg_rom@[i] == 0u8,
            forall|i: int| 0 <= i < 0x2000 ==> r.chr_rom@[i] == 0u8,
            r.mirroring == Mirroring::Horizontal,
    {
        let mut prg_rom: Vec<u8> = Vec::new();
        let mut i: usize = 0;
        while i < 0x8000
            invariant
                prg_rom@.len() == i,
                i <= 0x8000,
                forall|j: int| 0 <= j < i ==> prg_rom@[j] == 0u8,
            decreases 0x8000 - i,
        {
            prg_rom.push(0);
            i = i + 1;
        }
        let mut chr_rom: Vec<u8> = Vec::new();
        let mut k: usize = 0;
        while k < 0x2000
            invariant
                chr_rom@.len() == k,
                k <= 0x2000,
                forall|j: int| 0 <= j < k ==> chr_rom@[j] == 0u8,
            decreases 0x2000 - k,
        {
            chr_rom.push(0);
            k = k + 1;
        }
        Self { prg_rom, chr_rom, mirroring: Mirroring::Horizontal }
    }

    /// A mapper 000 instance over copies of this cartridge's banks.
    pub fn get_mapper(&self) -> (r: Mapper000)
        ensures
            r.prg_rom@ == self.prg_rom@,
            r.chr_rom@ == self.chr_rom@,
            r.is_32kb_size == (self.prg_rom@.len() > 0x4000),
            self.wf() ==> r.wf(),
    {
        let prg_rom: Vec<u8> = copy_range(&self.prg_rom, 0, self.prg_rom.len());
        let chr_rom: Vec<u8> = copy_range(&self.chr_rom, 0, self.chr_rom.len());
        proof {
            assert(self.prg_rom@.subrange(0, self.prg_rom@.len() as int) =~= self.prg_rom@);
            assert(self.chr_rom@.subrange(0, self.chr_rom@.len() as int) =~= self.chr_rom@);
        }
        Mapper000::new(prg_rom, chr_rom)
    }
}

} // verus!
