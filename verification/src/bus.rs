//! The bus: owns the CPU-side RAM, the PPU-side memory, the cartridge
//! mapper and the PPU itself, routes CPU and PPU accesses with their
//! side effects, and holds the single-slot NMI latch.

use vstd::prelude::*;

use crate::cartridge::Cartridge;
use crate::mapper000::Mapper000;
use crate::memorymap::cpu::CpuMemoryMap;
use crate::memorymap::ppu::PpuMemoryMap;
use crate::memorymap::ppu::spec_chr_after;
use crate::memorymap::ppu::spec_nametable_after;
use crate::memorymap::ppu::spec_palette_after;
use crate::ppu::Ppu;
use crate::ppu::spec_nmi_enabled;
use crate::ppu::spec_vblank;
use crate::registers::vram::spec_vram_pack;

verus! {

/// A condition that aborts emulation, left for the host to observe.
#[derive(Clone, Copy, PartialEq, Eq, Structural, Debug)]
pub enum EmuFault {
    PrgRomWrite,
    KilOpcode,
}

pub struct Bus {
    pub cpu_memory_map: CpuMemoryMap,
    pub ppu_memory_map: PpuMemoryMap,
    pub mapper: Mapper000,
    pub ppu: Ppu,
    pub nmi_interrupt: Option<()>,
    pub fault: Option<EmuFault>,
}

/// The byte the PPU data buffer currently holds, zero before the first
/// buffered read.
pub open spec fn spec_buffered(p: Ppu) -> u8 {
    match p.internal_buf {
        Some(b) => b,
        None => 0u8,
    }
}

/// The OAM cell that the `k`-th DMA byte lands in.
pub open spec fn spec_dma_slot(start: u8, k: int) -> int {
    (start + k) % 256
}

/// The RAM cell that the `k`-th DMA byte of page `page` comes from.
pub open spec fn spec_dma_source(page: u8, k: int) -> int {
    (page * 256 + k) % 0x800
}

impl Bus {
    pub open spec fn wf(&self) -> bool {
        &&& self.cpu_memory_map.wf()
        &&& self.ppu_memory_map.wf()
        &&& self.mapper.wf()
        &&& self.ppu.wf()
    }

    pub fn new(cartridge: &Cartridge) -> (r: Self)
        requires
            cartridge.wf(),
        ensures
            r.wf(),
            r.mapper.prg_rom@ == cartridge.prg_rom@,
            r.mapper.chr_rom@ == cartridge.chr_rom@,
            forall|i: int| 0 <= i < 0x800 ==> r.cpu_memory_map.internal_ram@[i] == 0u8,
            forall|i: int| 0 <= i < 0x1000 ==> r.ppu_memory_map.nametable@[i] == 0u8,
            forall|i: int| 0 <= i < 0x20 ==> r.ppu_memory_map.palette@[i] == 0u8,
            forall|i: int| 0 <= i < 0x100 ==> r.ppu_memory_map.oam@[i] == 0u8,
            r.ppu.mirroring == cartridge.mirroring,
            r.ppu.controller.value == 0u8,
            r.ppu.mask.value == 0u8,
            r.ppu.status.value == 0u8,
            r.ppu.oamaddress.value == 0u8,
            !r.ppu.address_latch,
            r.ppu.internal_buf is None,
            r.ppu.cycles == 0usize,
            r.ppu.scanline == 0i32,
            !r.ppu.odd_frame,
            r.ppu.dot_counter == 0usize,
            r.nmi_interrupt is None,
            r.fault is None,
    {
        Self {
            cpu_memory_map: CpuMemoryMap::new(),
            ppu_memory_map: PpuMemoryMap::new(),
            mapper: cartridge.get_mapper(),
            ppu: Ppu::new(cartridge.get_mirroring()),
            nmi_interrupt: None,
            fault: None,
        }
    }

    pub fn cpu_memory_map(&self) -> (r: &CpuMemoryMap)
        ensures
            r == self.cpu_memory_map,
    {
        &self.cpu_memory_map
    }

    pub fn ppu_memory_map(&self) -> (r: &PpuMemoryMap)
        ensures
            r == self.ppu_memory_map,
    {
        &self.ppu_memory_map
    }

    pub fn set_interrupt(&mut self, interrupt: Option<()>)
        ensures
            *final(self) == (Bus { nmi_interrupt: interrupt, ..*old(self) }),
    {
        self.nmi_interrupt = interrupt;
    }

    pub fn get_interrupt(&self) -> (r: Option<()>)
        ensures
            r == self.nmi_interrupt,
    {
        self.nmi_interrupt
    }

    pub fn has_interrupt(&self) -> (r: bool)
        ensures
            r == (self.nmi_interrupt is Some),
    {
        self.nmi_interrupt.is_some()
    }

    /// Takes the pending NMI edge, leaving the latch empty.
    pub fn poll_interrupt(&mut self) -> (r: Option<()>)
        ensures
            r == old(self).nmi_interrupt,
            *final(self) == (Bus { nmi_interrupt: None, ..*old(self) }),
    {
        let r: Option<()> = self.nmi_interrupt;
        self.nmi_interrupt = None;
        r
    }

    /// Whether a CPU read of `address` leaves the machine unchanged:
    /// only PPUSTATUS and PPUDATA reads have side effects.
    pub open spec fn spec_cpu_read_pure(address: u16) -> bool {
        !(0x2000 <= address < 0x4000 && (address % 8 == 2 || address % 8 == 7))
    }

    /// The value a CPU read of `address` returns, as a function of the
    /// current state.
    pub open spec fn spec_cpu_peek(&self, address: u16) -> u8 {
        if address < 0x2000 {
            self.cpu_memory_map.spec_read(address)
        } else if address < 0x4000 {
            if address % 8 == 2 {
                (self.ppu.status.value & 0xE0) | (spec_buffered(self.ppu) & 0x1F)
            } else if address % 8 == 4 {
                self.ppu_memory_map.oam@[self.ppu.oamaddress.value as int]
            } else if address % 8 == 7 {
                if spec_vram_pack(self.ppu.vram) < 0x3F00 {
                    spec_buffered(self.ppu)
                } else {
                    self.ppu_memory_map.spec_read(
                        &self.mapper,
                        Ppu::spec_data_target(self.ppu.mirroring, spec_vram_pack(self.ppu.vram)),
                    )
                }
            } else {
                0u8
            }
        } else if address < 0x4020 {
            0u8
        } else {
            self.mapper.spec_cpu_read(address)
        }
    }

    /// A CPU-side read: internal RAM below 0x2000 (mirrored every 2
    /// KiB), the PPU register file mirrored every 8 bytes up to
    /// 0x4000, open bus for the APU and controller ports, and the
    /// cartridge window above 0x4020.
    pub fn cpu_read(&mut self, address: u16) -> (r: u8)
        requires
            old(self).wf(),
        ensures
            final(self).wf(),
            r == old(self).spec_cpu_peek(address),
            Self::spec_cpu_read_pure(address) ==> *final(self) == *old(self),
            0x2000 <= address < 0x4000 && address % 8 == 2 ==> *final(self) == (Bus {
                ppu: final(self).ppu,
                ..*old(self)
            }) && final(self).ppu == (Ppu {
                status: final(self).ppu.status,
                address_latch: false,
                ..old(self).ppu
            }) && final(self).ppu.status.value == (old(self).ppu.status.value & !0x80),
            0x2000 <= address < 0x4000 && address % 8 == 7 ==> *final(self) == (Bus {
                ppu: final(self).ppu,
                ..*old(self)
            }) && final(self).ppu == (Ppu {
                vram: final(self).ppu.vram,
                internal_buf: final(self).ppu.internal_buf,
                ..old(self).ppu
            }) && spec_vram_pack(final(self).ppu.vram) == Ppu::spec_data_advance(old(self).ppu)
                && final(self).ppu.internal_buf == if spec_vram_pack(old(self).ppu.vram) < 0x3F00 {
                Some(
                    old(self).ppu_memory_map.spec_read(
                        &old(self).mapper,
                        Ppu::spec_data_target(
                            old(self).ppu.mirroring,
                            spec_vram_pack(old(self).ppu.vram),
                        ),
                    ),
                )
            } else {
                old(self).ppu.internal_buf
            },
    {
        if address < 0x2000 {
            self.cpu_memory_map.read(address)
        } else if address < 0x4000 {
            let port: u16 = address % 8;
            if port == 2 {
                self.ppu.read_status()
            } else if port == 4 {
                self.ppu.read_oamdata(&self.ppu_memory_map)
            } else if port == 7 {
                self.ppu.read_data(&self.ppu_memory_map, &self.mapper)
            } else {
                0x00
            }
        } else if address < 0x4020 {
            0x00
        } else {
            self.mapper.cpu_read(address)
        }
    }

    /// A CPU-side write. RAM and the PPU registers take the byte with
    /// their side effects; APU and controller ports drop it; the
    /// cartridge window below the ROM drops it; a write into PRG-ROM
    /// records a fault, since mapper 000 cannot accept it.
    pub fn cpu_write(&mut self, address: u16, data: u8)
        requires
            old(self).wf(),
        ensures
            final(self).wf(),
            address < 0x2000 ==> *final(self) == (Bus {
                cpu_memory_map: final(self).cpu_memory_map,
                ..*old(self)
            }) && final(self).cpu_memory_map.internal_ram@ == old(self).cpu_memory_map.internal_ram@.update((address & 0x7FF) as int, data),
            0x2000 <= address < 0x4000 ==> *final(self) == (Bus {
                ppu: final(self).ppu,
                ppu_memory_map: final(self).ppu_memory_map,
                mapper: final(self).mapper,
                nmi_interrupt: final(self).nmi_interrupt,
                ..*old(self)
            }) && final(self).mapper.prg_rom@ == old(self).mapper.prg_rom@ && final(self).cpu_memory_map == old(self).cpu_memory_map,
            0x2000 <= address < 0x4000 && address % 8 == 0 ==> final(self).ppu.controller.value
                == data && final(self).ppu == (Ppu {
                controller: final(self).ppu.controller,
                vram_temp: final(self).ppu.vram_temp,
                ..old(self).ppu
            }) && final(self).nmi_interrupt == if !spec_nmi_enabled(old(self).ppu)
                && spec_vblank(old(self).ppu) && (data & 0x80 != 0) {
                Some(())
            } else {
                old(self).nmi_interrupt
            } && final(self).ppu_memory_map == old(self).ppu_memory_map,
            0x2000 <= address < 0x4000 && address % 8 != 0 ==> final(self).nmi_interrupt == old(self).nmi_interrupt,
            0x2000 <= address < 0x4000 && address % 8 == 1 ==> *final(self) == (Bus {
                ppu: final(self).ppu,
                ..*old(self)
            }) && final(self).ppu == (Ppu {
                mask: final(self).ppu.mask,
                ..old(self).ppu
            }) && final(self).ppu.mask.value == data,
            0x2000 <= address < 0x4000 && address % 8 == 2 ==> *final(self) == *old(self),
            0x2000 <= address < 0x4000 && (address % 8 == 5 || address % 8 == 6) ==> *final(self)
                == (Bus { ppu: final(self).ppu, ..*old(self) }),
            0x2000 <= address < 0x4000 && address % 8 == 3 ==> *final(self) == (Bus {
                ppu: final(self).ppu,
                ..*old(self)
            }) && final(self).ppu == (Ppu {
                oamaddress: final(self).ppu.oamaddress,
                ..old(self).ppu
            }) && final(self).ppu.oamaddress.value == data,
            0x2000 <= address < 0x4000 && address % 8 == 4 ==> final(self).ppu_memory_map.oam@
                == old(self).ppu_memory_map.oam@.update(old(self).ppu.oamaddress.value as int, data)
                && final(self).ppu_memory_map.nametable@ == old(self).ppu_memory_map.nametable@
                && final(self).ppu_memory_map.palette@ == old(self).ppu_memory_map.palette@
                && final(self).ppu.oamaddress.value == (old(self).ppu.oamaddress.value + 1) as u8
                && final(self).ppu == (Ppu {
                oamaddress: final(self).ppu.oamaddress,
                oamdata: final(self).ppu.oamdata,
                ..old(self).ppu
            }),
            0x2000 <= address < 0x4000 && address % 8 == 5 ==> final(self).ppu == (Ppu {
                vram_temp: final(self).ppu.vram_temp,
                fine_x: final(self).ppu.fine_x,
                address_latch: !old(self).ppu.address_latch,
                ..old(self).ppu
            }),
            0x2000 <= address < 0x4000 && address % 8 == 6 ==> final(self).ppu == (Ppu {
                vram_temp: final(self).ppu.vram_temp,
                vram: final(self).ppu.vram,
                address_latch: !old(self).ppu.address_latch,
                ..old(self).ppu
            }) && (old(self).ppu.address_latch ==> spec_vram_pack(final(self).ppu.vram) == ((((
            spec_vram_pack(old(self).ppu.vram_temp) >> 8) << 8) | (data as u16)) & 0x3FFF)) && (!old(self).ppu.address_latch ==> final(self).ppu.vram == old(self).ppu.vram),
            0x2000 <= address < 0x4000 && address % 8 == 7 ==> final(self).ppu_memory_map.nametable@
                == spec_nametable_after(
                old(self).ppu_memory_map.nametable@,
                Ppu::spec_data_target(old(self).ppu.mirroring, spec_vram_pack(old(self).ppu.vram)),
                data,
            ) && final(self).ppu_memory_map.palette@ == spec_palette_after(
                old(self).ppu_memory_map.palette@,
                Ppu::spec_data_target(old(self).ppu.mirroring, spec_vram_pack(old(self).ppu.vram)),
                data,
            ) && final(self).ppu_memory_map.oam@ == old(self).ppu_memory_map.oam@ && final(self).mapper.chr_rom@ == spec_chr_after(
                old(self).mapper.chr_rom@,
                Ppu::spec_data_target(old(self).ppu.mirroring, spec_vram_pack(old(self).ppu.vram)),
                data,
            ) && spec_vram_pack(final(self).ppu.vram) == Ppu::spec_data_advance(old(self).ppu)
                && final(self).ppu == (Ppu {
                vram: final(self).ppu.vram,
                data: final(self).ppu.data,
                ..old(self).ppu
            }),
            0x4000 <= address < 0x8000 ==> *final(self) == *old(self),
            0x8000 <= address ==> *final(self) == (Bus {
                fault: final(self).fault,
                ..*old(self)
            }) && final(self).fault == if old(self).fault is None {
                Some(EmuFault::PrgRomWrite)
            } else {
                old(self).fault
            },
    {
        if address < 0x2000 {
            self.cpu_memory_map.write(address, data);
        } else if address < 0x4000 {
            let port: u16 = address % 8;
            if port == 0 {
                let raised: bool = self.ppu.write_controller(data);
                if raised {
                    self.nmi_interrupt = Some(());
                }
            } else if port == 1 {
                self.ppu.write_mask(data);
            } else if port == 3 {
                self.ppu.write_oamaddress(data);
            } else if port == 4 {
                self.ppu.write_oamdata(&mut self.ppu_memory_map, data);
            } else if port == 5 {
                self.ppu.write_scroll(data);
            } else if port == 6 {
                self.ppu.write_address(data);
            } else if port == 7 {
                self.ppu.write_data(&mut self.ppu_memory_map, &mut self.mapper, data);
            }
        } else if address < 0x8000 {
            // APU and controller ports are out of scope; NROM has no
            // PRG RAM: the byte is dropped either way.
        } else {
            if self.fault.is_none() {
                self.fault = Some(EmuFault::PrgRomWrite);
            }
        }
    }

    /// A PPU-side read through the cartridge's nametable mirroring.
    pub fn ppu_read(&self, address: u16) -> (r: u8)
        requires
            self.wf(),
            address < 0x4000,
        ensures
            r == self.ppu_memory_map.spec_read(
                &self.mapper,
                Ppu::spec_data_target(self.ppu.mirroring, address),
            ),
    {
        let target: u16 = if address >= 0x2000 && address < 0x3000 {
            self.ppu.mirror_address(address)
        } else if address >= 0x3000 && address < 0x3F00 {
            self.ppu.mirror_address(address - 0x1000)
        } else {
            address
        };
        self.ppu_memory_map.read(&self.mapper, target)
    }

    /// A PPU-side write through the cartridge's nametable mirroring.
    pub fn ppu_write(&mut self, address: u16, data: u8)
        requires
            old(self).wf(),
            address < 0x4000,
        ensures
            final(self).wf(),
            *final(self) == (Bus {
                ppu_memory_map: final(self).ppu_memory_map,
                mapper: final(self).mapper,
                ..*old(self)
            }),
            final(self).ppu_memory_map.nametable@ == spec_nametable_after(
                old(self).ppu_memory_map.nametable@,
                Ppu::spec_data_target(old(self).ppu.mirroring, address),
                data,
            ),
            final(self).ppu_memory_map.palette@ == spec_palette_after(
                old(self).ppu_memory_map.palette@,
                Ppu::spec_data_target(old(self).ppu.mirroring, address),
                data,
            ),
            final(self).ppu_memory_map.oam@ == old(self).ppu_memory_map.oam@,
            final(self).mapper.chr_rom@ == spec_chr_after(
                old(self).mapper.chr_rom@,
                Ppu::spec_data_target(old(self).ppu.mirroring, address),
                data,
            ),
            final(self).mapper.prg_rom@ == old(self).mapper.prg_rom@,
    {
        let target: u16 = if address >= 0x2000 && address < 0x3000 {
            self.ppu.mirror_address(address)
        } else if address >= 0x3000 && address < 0x3F00 {
            self.ppu.mirror_address(address - 0x1000)
        } else {
            address
        };
        self.ppu_memory_map.write(&mut self.mapper, target, data);
    }

    /// OAM DMA: uploads the 256-byte page `data` into OAM through the
    /// OAMDATA port, advancing OAMADDR with each byte. Bytes are read
    /// through `cpu_read`, so a page over a side-effecting region
    /// behaves accordingly. The CPU accounts for the stall separately.
    pub fn write_oamdma(&mut self, data: u8)
        requires
            old(self).wf(),
        ensures
            final(self).wf(),
            *final(self) == (Bus {
                ppu_memory_map: final(self).ppu_memory_map,
                ppu: final(self).ppu,
                ..*old(self)
            }),
            final(self).ppu_memory_map.nametable@ == old(self).ppu_memory_map.nametable@,
            final(self).ppu_memory_map.palette@ == old(self).ppu_memory_map.palette@,
            final(self).ppu == (Ppu {
                oamaddress: final(self).ppu.oamaddress,
                oamdata: final(self).ppu.oamdata,
                status: final(self).ppu.status,
                address_latch: final(self).ppu.address_latch,
                vram: final(self).ppu.vram,
                internal_buf: final(self).ppu.internal_buf,
                ..old(self).ppu
            }),
            final(self).ppu.oamaddress.value == old(self).ppu.oamaddress.value,
            data < 0x20 ==> final(self).ppu == (Ppu {
                oamaddress: final(self).ppu.oamaddress,
                oamdata: final(self).ppu.oamdata,
                ..old(self).ppu
            }),
            data < 0x20 ==> forall|k: int|
                0 <= k < 256 ==> final(self).ppu_memory_map.oam@[#[trigger] spec_dma_slot(
                    old(self).ppu.oamaddress.value,
                    k,
                )] == old(self).cpu_memory_map.internal_ram@[spec_dma_source(data, k)],
    {
        let base: u16 = (data as u16) * 256;
        let start_address: u8 = self.ppu.oamaddress.value;
        let mut k: usize = 0;
        while k < 256
            invariant
                self.wf(),
                base == data * 256,
                k <= 256,
                start_address == old(self).ppu.oamaddress.value,
                *self == (Bus {
                    ppu_memory_map: self.ppu_memory_map,
                    ppu: self.ppu,
                    ..*old(self)
                }),
                self.ppu_memory_map.nametable@ == old(self).ppu_memory_map.nametable@,
                self.ppu_memory_map.palette@ == old(self).ppu_memory_map.palette@,
                self.ppu == (Ppu {
                    oamaddress: self.ppu.oamaddress,
                    oamdata: self.ppu.oamdata,
                    status: self.ppu.status,
                    address_latch: self.ppu.address_latch,
                    vram: self.ppu.vram,
                    internal_buf: self.ppu.internal_buf,
                    ..old(self).ppu
                }),
                data < 0x20 ==> self.ppu == (Ppu {
                    oamaddress: self.ppu.oamaddress,
                    oamdata: self.ppu.oamdata,
                    ..old(self).ppu
                }),
                self.ppu.oamaddress.value == (start_address + k) % 256,
                data < 0x20 ==> forall|j: int|
                    0 <= j < k ==> self.ppu_memory_map.oam@[#[trigger] spec_dma_slot(
                        start_address,
                        j,
                    )] == old(self).cpu_memory_map.internal_ram@[spec_dma_source(data, j)],
            decreases 256 - k,
        {
            let source: u16 = base + (k as u16);
            let value: u8 = self.cpu_read(source);
            proof {
                if data < 0x20 {
                    assert(source & 0x7FF == source % 0x800) by (bit_vector);
                }
                crate::bits::lemma_u8_wrap_inc(self.ppu.oamaddress.value);
            }
            self.ppu.write_oamdata(&mut self.ppu_memory_map, value);
            k = k + 1;
        }
    }
}

} // verus!
