//! The pixel pipeline: a scanline/dot-driven state machine that fetches
//! background tiles, evaluates sprites, composites pixels and raises
//! the vertical-blank interrupt.

use vstd::prelude::*;

pub mod screenbuffer;
pub mod screenstate;

use crate::bits::lemma_u16_and_le;
use crate::bits::lemma_u16_mask_noop;
use crate::bits::lemma_u8_status_bits;
use vstd::wrapping::usize_specs;
use crate::bits::lemma_u8_and_le;
use crate::mapper000::Mapper000;
use crate::memorymap::ppu::PpuMemoryMap;
use crate::memorymap::ppu::spec_chr_after;
use crate::memorymap::ppu::spec_nametable_after;
use crate::memorymap::ppu::spec_palette_after;
use crate::registers::controller::PpuControllerRegister;
use crate::registers::controller::PpuControllerRegisterFlags;
use crate::registers::data::PpuDataRegister;
use crate::registers::mask::PpuMaskRegister;
use crate::registers::mask::PpuMaskRegisterFlags;
use crate::registers::oamaddress::PpuOamAddressRegister;
use crate::registers::oamdata::PpuOamDataRegister;
use crate::registers::status::PpuStatusRegister;
use crate::registers::status::PpuStatusRegisterFlags;
use crate::registers::vram::PpuVRamRegister;
use crate::registers::vram::spec_vram_pack;
use self::screenbuffer::ScreenBuffer;
use self::screenstate::ScreenState;

verus! {

/// How the four logical nametables fold onto the physical memory.
#[derive(Clone, Copy, PartialEq, Eq, Structural, Debug)]
pub enum Mirroring {
    Horizontal,
    Vertical,
    FourScreen,
}

/// Dots per scanline times scanlines per frame.
pub open spec fn spec_frame_dots() -> int {
    341int * 262
}

pub struct Ppu {
    pub mirroring: Mirroring,
    pub controller: PpuControllerRegister,
    pub mask: PpuMaskRegister,
    pub status: PpuStatusRegister,
    pub oamaddress: PpuOamAddressRegister,
    pub oamdata: PpuOamDataRegister,
    pub vram: PpuVRamRegister,
    pub vram_temp: PpuVRamRegister,
    pub data: PpuDataRegister,
    pub address_latch: bool,
    pub fine_x: u16,
    pub cycles: usize,
    pub scanline: i32,
    pub internal_buf: Option<u8>,
    pub screen_state: ScreenState,
    pub screen_buffer: ScreenBuffer,
    pub internal_oam: Vec<u8>,
    pub odd_frame: bool,
    pub dot_counter: usize,
}

/// Whether background rendering is enabled in PPUMASK.
pub open spec fn spec_show_background(p: Ppu) -> bool {
    p.mask.value & 0x08 != 0
}

/// Whether sprite rendering is enabled in PPUMASK.
pub open spec fn spec_show_sprites(p: Ppu) -> bool {
    p.mask.value & 0x10 != 0
}

/// Whether PPUCTRL asks for an NMI at the start of vertical blank.
pub open spec fn spec_nmi_enabled(p: Ppu) -> bool {
    p.controller.value & 0x80 != 0
}

/// Whether PPUSTATUS currently shows the vertical-blank flag.
pub open spec fn spec_vblank(p: Ppu) -> bool {
    p.status.value & 0x80 != 0
}

/// The dot index of the PPU within its frame, starting at the first
/// dot of the pre-render scanline.
pub open spec fn spec_frame_pos(p: Ppu) -> int {
    (p.scanline + 1) * 341 + p.cycles
}

/// The dot at which the vertical-blank flag rises: scanline 241, dot 1.
/// `spec_frame_pos` names the dot before the counters advance onto it.
pub open spec fn spec_vblank_rise_pos() -> int {
    242int * 341
}

/// The fields that only the CPU-facing register interface moves.
pub open spec fn spec_same_ports(a: Ppu, b: Ppu) -> bool {
    &&& a.controller == b.controller
    &&& a.mask == b.mask
    &&& a.mirroring == b.mirroring
    &&& a.oamaddress == b.oamaddress
    &&& a.oamdata == b.oamdata
    &&& a.data == b.data
    &&& a.address_latch == b.address_latch
    &&& a.internal_buf == b.internal_buf
}

impl Ppu {
    /// Buffer sizes and field ranges that every pipeline step needs,
    /// apart from the dot and scanline counters.
    pub open spec fn wf_pipeline(&self) -> bool {
        &&& self.screen_state.wf()
        &&& self.screen_buffer.width == 256
        &&& self.screen_buffer.buffer@.len() == 256 * 240
        &&& self.internal_oam@.len() == 0x20
        &&& self.fine_x < 8
        &&& self.screen_state.sprite_count <= 8
    }

    /// Counter ranges and buffer sizes that every whole dot preserves.
    pub open spec fn wf(&self) -> bool {
        &&& self.wf_pipeline()
        &&& self.cycles <= 340
        &&& -1 <= self.scanline <= 260
    }

    pub fn new(mirroring: Mirroring) -> (r: Self)
        ensures
            r.wf(),
            r.mirroring == mirroring,
            r.controller.value == 0u8,
            r.mask.value == 0u8,
            r.status.value == 0u8,
            r.oamaddress.value == 0u8,
            r.oamdata.value == 0u8,
            r.data.value == 0u8,
            !r.address_latch,
            r.fine_x == 0u16,
            r.cycles == 0usize,
            r.scanline == 0i32,
            r.internal_buf is None,
            spec_frame_pos(r) == 341,
            !r.odd_frame,
            r.dot_counter == 0usize,
            r.vram == (PpuVRamRegister {
                coarse_x: 0u16,
                coarse_y: 0u16,
                nametable_x: 0u16,
                nametable_y: 0u16,
                fine_y: 0u16,
            }),
            r.vram_temp == r.vram,
            forall|i: int| 0 <= i < 0x20 ==> r.internal_oam@[i] == 0xFFu8,
            r.screen_buffer.width == 256,
            r.screen_buffer.buffer@.len() == 256 * 240,
            forall|i: int| 0 <= i < 256 * 240 ==> r.screen_buffer.buffer@[i] == 0u8,
            r.screen_state.sprite_count == 0u8,
            !r.screen_state.sprite_zero_occured,
            r.screen_state.bg_shift_pattern_lo == 0u16,
            r.screen_state.bg_shift_pattern_hi == 0u16,
            forall|i: int| 0 <= i < 8 ==> r.screen_state.sprite_shift_pattern_lo@[i] == 0u8,
            forall|i: int| 0 <= i < 8 ==> r.screen_state.sprite_shift_pattern_hi@[i] == 0u8,
    {
        let mut internal_oam: Vec<u8> = Vec::new();
        let mut i: usize = 0;
        while i < 0x20
            invariant
                internal_oam@.len() == i,
                i <= 0x20,
                forall|j: int| 0 <= j < i ==> internal_oam@[j] == 0xFFu8,
            decreases 0x20 - i,
        {
            internal_oam.push(0xFF);
            i = i + 1;
        }
        Self {
            mirroring,
            controller: PpuControllerRegister::new(),
            mask: PpuMaskRegister::new(),
            status: PpuStatusRegister::new(),
            oamaddress: PpuOamAddressRegister::new(),
            oamdata: PpuOamDataRegister::new(),
            vram: PpuVRamRegister::new(),
            vram_temp: PpuVRamRegister::new(),
            data: PpuDataRegister::new(),
            address_latch: false,
            fine_x: 0,
            cycles: 0,
            scanline: 0,
            internal_buf: None,
            screen_state: ScreenState::new(),
            screen_buffer: ScreenBuffer::new(256, 240),
            internal_oam,
            odd_frame: false,
            dot_counter: 0,
        }
    }

    /// Whether either rendering layer is enabled.
    fn rendering_enabled(&self) -> (r: bool)
        ensures
            r == (spec_show_background(*self) || spec_show_sprites(*self)),
    {
        let show_background: bool = self.mask.get_flag(PpuMaskRegisterFlags::ShowBackground);
        let show_sprites: bool = self.mask.get_flag(PpuMaskRegisterFlags::ShowSprites);
        show_background || show_sprites
    }

    /// Advances coarse-X by one tile, flipping the horizontal nametable
    /// on wrap, when rendering is enabled.
    fn increment_scroll_x(&mut self)
        ensures
            *final(self) == (Ppu { vram: final(self).vram, ..*old(self) }),
            !(spec_show_background(*old(self)) || spec_show_sprites(*old(self))) ==> final(self).vram == old(self).vram,
            (spec_show_background(*old(self)) || spec_show_sprites(*old(self))) ==> {
                if old(self).vram.coarse_x & 0b11111 == 31 {
                    final(self).vram == (PpuVRamRegister {
                        coarse_x: 0u16,
                        nametable_x: !(old(self).vram.nametable_x & 0b1) & 0b1,
                        ..old(self).vram
                    })
                } else {
                    final(self).vram == (PpuVRamRegister {
                        coarse_x: ((old(self).vram.coarse_x & 0b11111) + 1) as u16,
                        ..old(self).vram
                    })
                }
            },
    {
        if self.rendering_enabled() {
            let coarse_x: u16 = self.vram.get_coarse_x();
            if coarse_x == 31 {
                let nametable_x: u16 = self.vram.get_nametable_x();
                self.vram.set_coarse_x(0);
                self.vram.set_nametable_x(!nametable_x);
                proof {
                    lemma_u16_and_le(!(old(self).vram.nametable_x & 0b1), 0b1);
                    assert(self.vram.coarse_x == 0);
                    assert(self.vram.nametable_x == !(old(self).vram.nametable_x & 0b1) & 0b1);
                    assert(self.vram.coarse_y == old(self).vram.coarse_y);
                }
            } else {
                self.vram.set_coarse_x(coarse_x + 1);
                proof {
                    lemma_u16_and_le(old(self).vram.coarse_x, 0b11111);
                    lemma_u16_mask_noop((coarse_x + 1) as u16);
                }
            }
        }
    }

    /// Advances fine-Y by one line; on wrap advances coarse-Y, with the
    /// 29 -> 0 transition flipping the vertical nametable and 31
    /// wrapping without a flip. Only acts while rendering is enabled.
    fn increment_scroll_y(&mut self)
        ensures
            *final(self) == (Ppu { vram: final(self).vram, ..*old(self) }),
            !(spec_show_background(*old(self)) || spec_show_sprites(*old(self))) ==> final(self).vram == old(self).vram,
            (spec_show_background(*old(self)) || spec_show_sprites(*old(self))) ==> {
                if old(self).vram.fine_y & 0b111 < 7 {
                    final(self).vram == (PpuVRamRegister {
                        fine_y: ((old(self).vram.fine_y & 0b111) + 1) as u16,
                        ..old(self).vram
                    })
                } else if old(self).vram.coarse_y & 0b11111 == 29 {
                    final(self).vram == (PpuVRamRegister {
                        fine_y: 0u16,
                        coarse_y: 0u16,
                        nametable_y: !(old(self).vram.nametable_y & 0b1) & 0b1,
                        ..old(self).vram
                    })
                } else if old(self).vram.coarse_y & 0b11111 == 31 {
                    final(self).vram == (PpuVRamRegister {
                        fine_y: 0u16,
                        coarse_y: 0u16,
                        ..old(self).vram
                    })
                } else {
                    final(self).vram == (PpuVRamRegister {
                        fine_y: 0u16,
                        coarse_y: ((old(self).vram.coarse_y & 0b11111) + 1) as u16,
                        ..old(self).vram
                    })
                }
            },
    {
        let fine_y: u16 = self.vram.get_fine_y();
        if self.rendering_enabled() {
            if fine_y < 7 {
                self.vram.set_fine_y(fine_y + 1);
                proof {
                    lemma_u16_mask_noop((fine_y + 1) as u16);
                }
            } else {
                self.vram.set_fine_y(0);
                let coarse_y: u16 = self.vram.get_coarse_y();
                if coarse_y == 29 {
                    let nametable_y: u16 = self.vram.get_nametable_y();
                    self.vram.set_coarse_y(0);
                    self.vram.set_nametable_y(!nametable_y);
                    proof {
                        lemma_u16_and_le(!(old(self).vram.nametable_y & 0b1), 0b1);
                    }
                } else if coarse_y == 31 {
                    self.vram.set_coarse_y(0);
                } else {
                    self.vram.set_coarse_y(coarse_y + 1);
                    proof {
                        lemma_u16_and_le(old(self).vram.coarse_y, 0b11111);
                        lemma_u16_mask_noop((coarse_y + 1) as u16);
                    }
                }
            }
        }
    }

    /// Copies the horizontal scroll bits of `t` into `v` when rendering
    /// is enabled.
    fn transfer_address_x(&mut self)
        ensures
            *final(self) == (Ppu { vram: final(self).vram, ..*old(self) }),
            !(spec_show_background(*old(self)) || spec_show_sprites(*old(self))) ==> final(self).vram == old(self).vram,
            (spec_show_background(*old(self)) || spec_show_sprites(*old(self))) ==> final(self).vram
                == (PpuVRamRegister {
                coarse_x: old(self).vram_temp.coarse_x & 0b11111,
                nametable_x: old(self).vram_temp.nametable_x & 0b1,
                ..old(self).vram
            }),
    {
        if self.rendering_enabled() {
            let nametable_x: u16 = self.vram_temp.get_nametable_x();
            let coarse_x: u16 = self.vram_temp.get_coarse_x();
            self.vram.set_nametable_x(nametable_x);
            self.vram.set_coarse_x(coarse_x);
            proof {
                lemma_u16_and_le(old(self).vram_temp.coarse_x, 0b11111);
                lemma_u16_and_le(old(self).vram_temp.nametable_x, 0b1);
            }
        }
    }

    /// Copies the vertical scroll bits of `t` into `v` when rendering
    /// is enabled.
    fn transfer_address_y(&mut self)
        ensures
            *final(self) == (Ppu { vram: final(self).vram, ..*old(self) }),
            !(spec_show_background(*old(self)) || spec_show_sprites(*old(self))) ==> final(self).vram == old(self).vram,
            (spec_show_background(*old(self)) || spec_show_sprites(*old(self))) ==> final(self).vram
                == (PpuVRamRegister {
                fine_y: old(self).vram_temp.fine_y & 0b111,
                nametable_y: old(self).vram_temp.nametable_y & 0b1,
                coarse_y: old(self).vram_temp.coarse_y & 0b11111,
                ..old(self).vram
            }),
    {
        if self.rendering_enabled() {
            let fine_y: u16 = self.vram_temp.get_fine_y();
            let nametable_y: u16 = self.vram_temp.get_nametable_y();
            let coarse_y: u16 = self.vram_temp.get_coarse_y();
            self.vram.set_fine_y(fine_y);
            self.vram.set_nametable_y(nametable_y);
            self.vram.set_coarse_y(coarse_y);
            proof {
                lemma_u16_and_le(old(self).vram_temp.coarse_y, 0b11111);
                lemma_u16_and_le(old(self).vram_temp.nametable_y, 0b1);
                lemma_u16_and_le(old(self).vram_temp.fine_y, 0b111);
            }
        }
    }

    /// Fetches the nametable byte for the next tile.
    fn read_tile_id(&mut self, mem: &PpuMemoryMap, mapper: &Mapper000)
        requires
            mem.wf(),
            mapper.wf(),
        ensures
            *final(self) == (Ppu { screen_state: final(self).screen_state, ..*old(self) }),
            final(self).screen_state == (ScreenState {
                bg_next_tile_id: mem.spec_read(
                    mapper,
                    (0x2000 + (spec_vram_pack(old(self).vram) & 0x0FFF)) as u16,
                ),
                ..old(self).screen_state
            }),
    {
        let vram_address: u16 = self.vram.get();
        proof {
            lemma_u16_and_le(vram_address, 0x0FFF);
        }
        let tile_id: u8 = mem.read(mapper, 0x2000 + (vram_address & 0x0FFF));
        self.screen_state.bg_next_tile_id = tile_id;
    }

    /// The attribute byte's address for the tile that `v` points at.
    pub open spec fn spec_attribute_address(v: PpuVRamRegister) -> u16 {
        (0x23C0 + (v.nametable_y & 0b1) * 0x800 + (v.nametable_x & 0b1) * 0x400 + ((v.coarse_y
            & 0b11111) / 4) * 8 + (v.coarse_x & 0b11111) / 4) as u16
    }

    /// Fetches the attribute byte and keeps the two bits that cover the
    /// tile's quadrant of the 32x32-pixel group.
    fn read_attribute(&mut self, mem: &PpuMemoryMap, mapper: &Mapper000)
        requires
            mem.wf(),
            mapper.wf(),
        ensures
            *final(self) == (Ppu { screen_state: final(self).screen_state, ..*old(self) }),
            final(self).screen_state == (ScreenState {
                bg_next_tile_attribute: final(self).screen_state.bg_next_tile_attribute,
                ..old(self).screen_state
            }),
            final(self).screen_state.bg_next_tile_attribute == {
                let byte = mem.spec_read(mapper, Self::spec_attribute_address(old(self).vram));
                let row_shifted = if old(self).vram.coarse_y & 0b10 != 0 {
                    byte >> 4
                } else {
                    byte
                };
                let shifted = if old(self).vram.coarse_x & 0b10 != 0 {
                    row_shifted >> 2
                } else {
                    row_shifted
                };
                shifted & 0b11
            },
    {
        let nametable_y: u16 = self.vram.get_nametable_y();
        let nametable_x: u16 = self.vram.get_nametable_x();
        let coarse_y: u16 = self.vram.get_coarse_y();
        let coarse_x: u16 = self.vram.get_coarse_x();
        let address: u16 = 0x23C0 + nametable_y * 0x800 + nametable_x * 0x400 + (coarse_y / 4) * 8
            + coarse_x / 4;
        proof {
            lemma_u16_mask_noop(old(self).vram.coarse_x);
            lemma_u16_mask_noop(old(self).vram.coarse_y);
        }
        let mut attribute: u8 = mem.read(mapper, address);
        if self.vram.get_coarse_y() & 0b10 != 0 {
            attribute = attribute >> 4;
        }
        if self.vram.get_coarse_x() & 0b10 != 0 {
            attribute = attribute >> 2;
        }
        self.screen_state.bg_next_tile_attribute = attribute & 0b11;
    }

    /// The base of the background pattern table that PPUCTRL selects.
    pub open spec fn spec_bg_pattern_base(p: Ppu) -> u16 {
        if p.controller.value & 0x10 != 0 {
            0x1000u16
        } else {
            0x0000u16
        }
    }

    /// The base of the sprite pattern table that PPUCTRL selects.
    pub open spec fn spec_sprite_pattern_base(p: Ppu) -> u16 {
        if p.controller.value & 0x08 != 0 {
            0x1000u16
        } else {
            0x0000u16
        }
    }

    /// Fetches the low bitplane byte of the next tile's current row.
    fn read_tile_lsb(&mut self, mem: &PpuMemoryMap, mapper: &Mapper000)
        requires
            mem.wf(),
            mapper.wf(),
        ensures
            *final(self) == (Ppu { screen_state: final(self).screen_state, ..*old(self) }),
            final(self).screen_state == (ScreenState {
                bg_next_tile_lsb: mem.spec_read(
                    mapper,
                    (Self::spec_bg_pattern_base(*old(self)) + (
                    old(self).screen_state.bg_next_tile_id as u16) * 16 + (old(self).vram.fine_y
                        & 0b111)) as u16,
                ),
                ..old(self).screen_state
            }),
    {
        let bg_pattern_table: u16 = if self.controller.get_flag(
            PpuControllerRegisterFlags::BackgroundPatternTable,
        ) {
            0x1000u16
        } else {
            0x0000u16
        };
        let tile_lsb: u8 = mem.read(
            mapper,
            bg_pattern_table + (self.screen_state.bg_next_tile_id as u16) * 16
                + self.vram.get_fine_y(),
        );
        self.screen_state.bg_next_tile_lsb = tile_lsb;
    }

    /// Fetches the high bitplane byte of the next tile's current row.
    fn read_tile_msb(&mut self, mem: &PpuMemoryMap, mapper: &Mapper000)
        requires
            mem.wf(),
            mapper.wf(),
        ensures
            *final(self) == (Ppu { screen_state: final(self).screen_state, ..*old(self) }),
            final(self).screen_state == (ScreenState {
                bg_next_tile_msb: mem.spec_read(
                    mapper,
                    (Self::spec_bg_pattern_base(*old(self)) + (
                    old(self).screen_state.bg_next_tile_id as u16) * 16 + (old(self).vram.fine_y
                        & 0b111) + 8) as u16,
                ),
                ..old(self).screen_state
            }),
    {
        let bg_pattern_table: u16 = if self.controller.get_flag(
            PpuControllerRegisterFlags::BackgroundPatternTable,
        ) {
            0x1000u16
        } else {
            0x0000u16
        };
        let tile_msb: u8 = mem.read(
            mapper,
            bg_pattern_table + (self.screen_state.bg_next_tile_id as u16) * 16
                + self.vram.get_fine_y() + 8,
        );
        self.screen_state.bg_next_tile_msb = tile_msb;
    }

    /// Reloads the low bytes of the four background shift registers
    /// from the fetched tile bytes; attribute bits are replicated
    /// across the whole byte.
    fn load_background_shift(&mut self)
        ensures
            *final(self) == (Ppu { screen_state: final(self).screen_state, ..*old(self) }),
            final(self).screen_state == (ScreenState {
                bg_shift_pattern_lo: (old(self).screen_state.bg_shift_pattern_lo & 0xFF00) | (old(self).screen_state.bg_next_tile_lsb as u16),
                bg_shift_pattern_hi: (old(self).screen_state.bg_shift_pattern_hi & 0xFF00) | (old(self).screen_state.bg_next_tile_msb as u16),
                bg_shift_attribute_lo: (old(self).screen_state.bg_shift_attribute_lo & 0xFF00) | (
                if old(self).screen_state.bg_next_tile_attribute & 0b01 != 0 {
                    0xFFu16
                } else {
                    0x00u16
                }),
                bg_shift_attribute_hi: (old(self).screen_state.bg_shift_attribute_hi & 0xFF00) | (
                if old(self).screen_state.bg_next_tile_attribute & 0b10 != 0 {
                    0xFFu16
                } else {
                    0x00u16
                }),
                ..old(self).screen_state
            }),
    {
        let tile_lsb: u8 = self.screen_state.bg_next_tile_lsb;
        let tile_msb: u8 = self.screen_state.bg_next_tile_msb;
        let attribute: u8 = self.screen_state.bg_next_tile_attribute;
        let shift_pattern_lo: u16 = self.screen_state.bg_shift_pattern_lo;
        let shift_pattern_hi: u16 = self.screen_state.bg_shift_pattern_hi;
        let shift_attribute_lo: u16 = self.screen_state.bg_shift_attribute_lo;
        let shift_attribute_hi: u16 = self.screen_state.bg_shift_attribute_hi;
        self.screen_state.bg_shift_pattern_lo = (shift_pattern_lo & 0xFF00) | tile_lsb as u16;
        self.screen_state.bg_shift_pattern_hi = (shift_pattern_hi & 0xFF00) | tile_msb as u16;
        self.screen_state.bg_shift_attribute_lo = (shift_attribute_lo & 0xFF00) | if attribute
            & 0b01 != 0 {
            0xFFu16
        } else {
            0x00u16
        };
        self.screen_state.bg_shift_attribute_hi = (shift_attribute_hi & 0xFF00) | if attribute
            & 0b10 != 0 {
            0xFFu16
        } else {
            0x00u16
        };
    }

    /// Shifts the background registers left by one dot and, during the
    /// visible dots, counts down sprite X positions, shifting the
    /// pattern of every sprite whose X has reached zero.
    fn update_shift(&mut self)
        requires
            old(self).wf_pipeline(),
        ensures
            final(self).wf_pipeline(),
            *final(self) == (Ppu {
                screen_state: final(self).screen_state,
                internal_oam: final(self).internal_oam,
                ..*old(self)
            }),
            final(self).internal_oam@.len() == 0x20,
            final(self).screen_state.sprite_count == old(self).screen_state.sprite_count,
            final(self).screen_state.sprite_zero_occured == old(self).screen_state.sprite_zero_occured,
            final(self).screen_state.sprite_zero_rendering == old(self).screen_state.sprite_zero_rendering,
            spec_show_background(*old(self)) ==> final(self).screen_state.bg_shift_pattern_lo == (
            old(self).screen_state.bg_shift_pattern_lo << 1) && final(self).screen_state.bg_shift_pattern_hi == (old(self).screen_state.bg_shift_pattern_hi << 1)
                && final(self).screen_state.bg_shift_attribute_lo == (old(self).screen_state.bg_shift_attribute_lo << 1) && final(self).screen_state.bg_shift_attribute_hi == (old(self).screen_state.bg_shift_attribute_hi
                << 1),
            !spec_show_background(*old(self)) ==> final(self).screen_state.bg_shift_pattern_lo
                == old(self).screen_state.bg_shift_pattern_lo && final(self).screen_state.bg_shift_pattern_hi == old(self).screen_state.bg_shift_pattern_hi
                && final(self).screen_state.bg_shift_attribute_lo == old(self).screen_state.bg_shift_attribute_lo && final(self).screen_state.bg_shift_attribute_hi
                == old(self).screen_state.bg_shift_attribute_hi,
            !(spec_show_sprites(*old(self)) && 1 <= old(self).cycles < 258) ==> final(self).internal_oam@ == old(self).internal_oam@ && final(self).screen_state.sprite_shift_pattern_lo@ == old(self).screen_state.sprite_shift_pattern_lo@ && final(self).screen_state.sprite_shift_pattern_hi@ == old(self).screen_state.sprite_shift_pattern_hi@,
    {
        let show_background: bool = self.mask.get_flag(PpuMaskRegisterFlags::ShowBackground);
        let show_sprites: bool = self.mask.get_flag(PpuMaskRegisterFlags::ShowSprites);
        if show_background {
            self.screen_state.bg_shift_pattern_lo = self.screen_state.bg_shift_pattern_lo << 1;
            self.screen_state.bg_shift_pattern_hi = self.screen_state.bg_shift_pattern_hi << 1;
            self.screen_state.bg_shift_attribute_lo = self.screen_state.bg_shift_attribute_lo << 1;
            self.screen_state.bg_shift_attribute_hi = self.screen_state.bg_shift_attribute_hi << 1;
        }
        if show_sprites && self.cycles >= 1 && self.cycles < 258 {
            let sprite_count: usize = self.screen_state.sprite_count as usize;
            let mut index: usize = 0;
            while index < sprite_count
                invariant
                    sprite_count <= 8,
                    index <= sprite_count,
                    self.internal_oam@.len() == 0x20,
                    self.screen_state.sprite_shift_pattern_lo@.len() == 8,
                    self.screen_state.sprite_shift_pattern_hi@.len() == 8,
                    *self == (Ppu {
                        screen_state: self.screen_state,
                        internal_oam: self.internal_oam,
                        ..*old(self)
                    }),
                    self.screen_state == (ScreenState {
                        sprite_shift_pattern_lo: self.screen_state.sprite_shift_pattern_lo,
                        sprite_shift_pattern_hi: self.screen_state.sprite_shift_pattern_hi,
                        bg_shift_pattern_lo: self.screen_state.bg_shift_pattern_lo,
                        bg_shift_pattern_hi: self.screen_state.bg_shift_pattern_hi,
                        bg_shift_attribute_lo: self.screen_state.bg_shift_attribute_lo,
                        bg_shift_attribute_hi: self.screen_state.bg_shift_attribute_hi,
                        ..old(self).screen_state
                    }),
                    self.screen_state.bg_shift_pattern_lo == if spec_show_background(*old(self)) {
                        (old(self).screen_state.bg_shift_pattern_lo << 1) as u16
                    } else {
                        old(self).screen_state.bg_shift_pattern_lo
                    },
                    self.screen_state.bg_shift_pattern_hi == if spec_show_background(*old(self)) {
                        (old(self).screen_state.bg_shift_pattern_hi << 1) as u16
                    } else {
                        old(self).screen_state.bg_shift_pattern_hi
                    },
                    self.screen_state.bg_shift_attribute_lo == if spec_show_background(
                        *old(self),
                    ) {
                        (old(self).screen_state.bg_shift_attribute_lo << 1) as u16
                    } else {
                        old(self).screen_state.bg_shift_attribute_lo
                    },
                    self.screen_state.bg_shift_attribute_hi == if spec_show_background(
                        *old(self),
                    ) {
                        (old(self).screen_state.bg_shift_attribute_hi << 1) as u16
                    } else {
                        old(self).screen_state.bg_shift_attribute_hi
                    },
                decreases sprite_count - index,
            {
                let x_position: u8 = self.internal_oam[index * 4 + 3];
                if x_position > 0 {
                    let oam_index: usize = index * 4 + 3;
                    self.internal_oam[oam_index] = x_position - 1;
                } else {
                    let lo: u8 = self.screen_state.sprite_shift_pattern_lo[index];
                    let hi: u8 = self.screen_state.sprite_shift_pattern_hi[index];
                    self.screen_state.sprite_shift_pattern_lo[index] = lo << 1;
                    self.screen_state.sprite_shift_pattern_hi[index] = hi << 1;
                }
                index = index + 1;
            }
        }
    }

    /// One background-fetch dot: during the fetch windows of visible
    /// and pre-render scanlines, shifts the registers and performs the
    /// step of the 8-dot tile cycle that the dot number selects.
    fn fetch_data(&mut self, mem: &PpuMemoryMap, mapper: &Mapper000)
        requires
            old(self).wf_pipeline(),
            mem.wf(),
            mapper.wf(),
        ensures
            final(self).wf_pipeline(),
            *final(self) == (Ppu {
                screen_state: final(self).screen_state,
                internal_oam: final(self).internal_oam,
                vram: final(self).vram,
                ..*old(self)
            }),
            final(self).screen_state.sprite_count == old(self).screen_state.sprite_count,
            final(self).screen_state.sprite_zero_occured == old(self).screen_state.sprite_zero_occured,
            final(self).screen_state.sprite_zero_rendering == old(self).screen_state.sprite_zero_rendering,
    {
        let visible_scanline: bool = self.scanline >= -1 && self.scanline < 240;
        let cycles: usize = self.cycles;
        if visible_scanline && ((cycles >= 2 && cycles <= 257) || (cycles >= 321 && cycles
            <= 337)) {
            self.update_shift();
            let phase: usize = (cycles - 1) % 8;
            if phase == 0 {
                self.load_background_shift();
                self.read_tile_id(mem, mapper);
            } else if phase == 2 {
                self.read_attribute(mem, mapper);
            } else if phase == 4 {
                self.read_tile_lsb(mem, mapper);
            } else if phase == 6 {
                self.read_tile_msb(mem, mapper);
            } else if phase == 7 {
                self.increment_scroll_x();
            }
        }
    }

    /// Where a logical nametable address lands under this cartridge's
    /// mirroring: horizontal folds 1 onto 0 and 3 onto 2, vertical
    /// folds 2 onto 0 and 3 onto 1, four-screen keeps all four.
    pub open spec fn spec_mirror_address(mirroring: Mirroring, address: u16) -> u16 {
        let nametable_index = (address - 0x2000) / 0x400;
        if mirroring is Horizontal && (nametable_index == 1 || nametable_index == 3) {
            (address - 0x400) as u16
        } else if mirroring is Vertical && (nametable_index == 2 || nametable_index == 3) {
            (address - 0x800) as u16
        } else {
            address
        }
    }

    pub fn mirror_address(&self, address: u16) -> (r: u16)
        requires
            0x2000 <= address < 0x3000,
        ensures
            r == Self::spec_mirror_address(self.mirroring, address),
            0x2000 <= r < 0x3000,
    {
        let nametable_index: u16 = (address - 0x2000) / 0x400;
        match (self.mirroring, nametable_index) {
            (Mirroring::Horizontal, 1) | (Mirroring::Horizontal, 3) => address - 0x400,
            (Mirroring::Vertical, 2) | (Mirroring::Vertical, 3) => address - 0x800,
            _ => address,
        }
    }

    /// Writes PPUCTRL; the nametable-select bits also land in `t`, and
    /// enabling the NMI while the vertical-blank flag is already up
    /// raises a fresh interrupt, which the caller latches on the bus.
    pub fn write_controller(&mut self, data: u8) -> (raised: bool)
        ensures
            *final(self) == (Ppu {
                controller: PpuControllerRegister { value: data },
                vram_temp: final(self).vram_temp,
                ..*old(self)
            }),
            final(self).vram_temp == (PpuVRamRegister {
                nametable_x: (data as u16) & 0b1,
                nametable_y: ((data as u16) >> 1) & 0b1,
                ..old(self).vram_temp
            }),
            raised == (!spec_nmi_enabled(*old(self)) && spec_vblank(*old(self)) && (data & 0x80
                != 0)),
    {
        let already_enabled: bool = self.controller.get_flag(
            PpuControllerRegisterFlags::GenerateVBlankNMI,
        );
        let status_vblank: bool = self.status.get_flag(PpuStatusRegisterFlags::VBlank);
        self.controller.set(data);
        let now_enabled: bool = self.controller.get_flag(
            PpuControllerRegisterFlags::GenerateVBlankNMI,
        );
        self.vram_temp.set_nametable_x(data as u16);
        self.vram_temp.set_nametable_y((data as u16) >> 1);
        !already_enabled && status_vblank && now_enabled
    }

    pub fn write_mask(&mut self, data: u8)
        ensures
            *final(self) == (Ppu { mask: PpuMaskRegister { value: data }, ..*old(self) }),
    {
        self.mask.set(data);
    }

    pub fn write_oamaddress(&mut self, data: u8)
        ensures
            *final(self) == (Ppu {
                oamaddress: PpuOamAddressRegister { value: data },
                ..*old(self)
            }),
    {
        self.oamaddress.set(data);
    }

    /// Writes a byte into OAM at OAMADDR and advances OAMADDR.
    pub fn write_oamdata(&mut self, mem: &mut PpuMemoryMap, data: u8)
        requires
            old(mem).wf(),
        ensures
            final(mem).wf(),
            final(mem).oam@ == old(mem).oam@.update(old(self).oamaddress.value as int, data),
            final(mem).nametable@ == old(mem).nametable@,
            final(mem).palette@ == old(mem).palette@,
            *final(self) == (Ppu {
                oamaddress: final(self).oamaddress,
                oamdata: final(self).oamdata,
                ..*old(self)
            }),
            final(self).oamaddress.value == (old(self).oamaddress.value + 1) as u8,
            final(self).oamdata.value == data,
    {
        let oamaddress: u8 = self.oamaddress.get();
        proof {
            crate::bits::lemma_u8_wrap_inc(oamaddress);
        }
        mem.set_oam_value(oamaddress, data);
        self.oamdata.set(data);
        self.oamaddress.set(oamaddress.wrapping_add(1));
    }

    /// Writes PPUSCROLL: the first write sets coarse-X and fine-X, the
    /// second coarse-Y and fine-Y of `t`.
    pub fn write_scroll(&mut self, data: u8)
        ensures
            !old(self).address_latch ==> *final(self) == (Ppu {
                vram_temp: final(self).vram_temp,
                fine_x: (data as u16) & 0b111,
                address_latch: true,
                ..*old(self)
            }) && final(self).vram_temp == (PpuVRamRegister {
                coarse_x: ((data >> 3) as u16) & 0b11111,
                ..old(self).vram_temp
            }),
            old(self).address_latch ==> *final(self) == (Ppu {
                vram_temp: final(self).vram_temp,
                address_latch: false,
                ..*old(self)
            }) && final(self).vram_temp == (PpuVRamRegister {
                coarse_y: ((data >> 3) as u16) & 0b11111,
                fine_y: ((data as u16) & 0b111) & 0b111,
                ..old(self).vram_temp
            }),
            !old(self).address_latch ==> final(self).fine_x < 8,
    {
        if !self.address_latch {
            let coarse_x: u8 = data >> 3;
            let fine_x: u8 = data & 0b111;
            self.vram_temp.set_coarse_x(coarse_x as u16);
            self.fine_x = (fine_x as u16) & 0b111;
            proof {
                lemma_u16_and_le((fine_x as u16), 0b111);
                assert((data & 0b111) as u16 & 0b111 == (data as u16) & 0b111) by (bit_vector);
            }
            self.address_latch = true;
        } else {
            let coarse_y: u8 = data >> 3;
            let fine_y: u8 = data & 0b111;
            self.vram_temp.set_coarse_y(coarse_y as u16);
            self.vram_temp.set_fine_y(fine_y as u16);
            proof {
                assert((data & 0b111) as u16 & 0b111 == (data as u16) & 0b111) by (bit_vector);
            }
            self.address_latch = false;
        }
    }

    /// Writes PPUADDR: the first write sets the high byte of `t`, the
    /// second sets its low byte and copies `t` into `v`.
    pub fn write_address(&mut self, data: u8)
        ensures
            !old(self).address_latch ==> *final(self) == (Ppu {
                vram_temp: final(self).vram_temp,
                address_latch: true,
                ..*old(self)
            }) && spec_vram_pack(final(self).vram_temp) == ((((data as u16) << 8) | (spec_vram_pack(
                old(self).vram_temp,
            ) & 0xFF)) & 0x3FFF),
            old(self).address_latch ==> *final(self) == (Ppu {
                vram_temp: final(self).vram_temp,
                vram: final(self).vram,
                address_latch: false,
                ..*old(self)
            }) && spec_vram_pack(final(self).vram_temp) == ((((spec_vram_pack(old(self).vram_temp)
                >> 8) << 8) | (data as u16)) & 0x3FFF) && spec_vram_pack(final(self).vram) == ((((
            spec_vram_pack(old(self).vram_temp) >> 8) << 8) | (data as u16)) & 0x3FFF),
    {
        let temp_address: u16 = self.vram_temp.get();
        if !self.address_latch {
            let vram_address: u16 = ((data as u16) << 8) | (temp_address & 0xFF);
            self.vram_temp.set(vram_address);
            self.address_latch = true;
        } else {
            let vram_address: u16 = ((temp_address >> 8) << 8) | (data as u16);
            self.vram_temp.set(vram_address);
            self.vram.set(vram_address);
            self.address_latch = false;
        }
    }

    /// The PPU-side address that a PPUDATA access at `v` lands on:
    /// nametable addresses are folded by the cartridge mirroring, the
    /// 0x3000..0x3F00 alias first drops down by 0x1000.
    pub open spec fn spec_data_target(mirroring: Mirroring, address: u16) -> u16 {
        if 0x2000 <= address < 0x3000 {
            Self::spec_mirror_address(mirroring, address)
        } else if 0x3000 <= address < 0x3F00 {
            Self::spec_mirror_address(mirroring, (address - 0x1000) as u16)
        } else {
            address
        }
    }

    /// The value of `v` after a PPUDATA access: forward by 32 when
    /// PPUCTRL asks for row stepping, else by 1, modulo 14 bits.
    pub open spec fn spec_data_advance(p: Ppu) -> u16 {
        if p.controller.value & 0x04 != 0 {
            ((spec_vram_pack(p.vram) + 32) % 0x4000) as u16
        } else {
            ((spec_vram_pack(p.vram) + 1) % 0x4000) as u16
        }
    }

    fn data_target(&self, address: u16) -> (r: u16)
        requires
            address < 0x4000,
        ensures
            r == Self::spec_data_target(self.mirroring, address),
            r < 0x4000,
    {
        if address >= 0x2000 && address < 0x3000 {
            self.mirror_address(address)
        } else if address >= 0x3000 && address < 0x3F00 {
            self.mirror_address(address - 0x1000)
        } else {
            address
        }
    }

    fn advance_data_address(&mut self)
        ensures
            *final(self) == (Ppu { vram: final(self).vram, ..*old(self) }),
            spec_vram_pack(final(self).vram) == Self::spec_data_advance(*old(self)),
    {
        let address_increment: bool = self.controller.get_flag(
            PpuControllerRegisterFlags::AddressIncrement,
        );
        let address: u16 = self.vram.get();
        let step: u16 = if address_increment {
            32
        } else {
            1
        };
        self.vram.set(address + step);
        proof {
            crate::bits::lemma_wrap14(address, step);
        }
    }

    /// Writes PPUDATA at `v` (through mirroring) and advances `v`.
    pub fn write_data(&mut self, mem: &mut PpuMemoryMap, mapper: &mut Mapper000, data: u8)
        requires
            old(mem).wf(),
            old(mapper).wf(),
        ensures
            final(mem).wf(),
            final(mapper).wf(),
            final(mem).nametable@ == spec_nametable_after(
                old(mem).nametable@,
                Self::spec_data_target(old(self).mirroring, spec_vram_pack(old(self).vram)),
                data,
            ),
            final(mem).palette@ == spec_palette_after(
                old(mem).palette@,
                Self::spec_data_target(old(self).mirroring, spec_vram_pack(old(self).vram)),
                data,
            ),
            final(mem).oam@ == old(mem).oam@,
            final(mapper).chr_rom@ == spec_chr_after(
                old(mapper).chr_rom@,
                Self::spec_data_target(old(self).mirroring, spec_vram_pack(old(self).vram)),
                data,
            ),
            final(mapper).prg_rom@ == old(mapper).prg_rom@,
            final(mapper).is_32kb_size == old(mapper).is_32kb_size,
            *final(self) == (Ppu {
                vram: final(self).vram,
                data: PpuDataRegister { value: data },
                ..*old(self)
            }),
            spec_vram_pack(final(self).vram) == Self::spec_data_advance(*old(self)),
    {
        let address: u16 = self.vram.get();
        let write_address: u16 = self.data_target(address);
        mem.write(mapper, write_address, data);
        self.data.set(data);
        self.advance_data_address();
    }

    /// Reads PPUSTATUS: the top three status bits over the stale low
    /// bits of the data buffer; clears the vertical-blank flag and the
    /// shared write toggle.
    pub fn read_status(&mut self) -> (r: u8)
        ensures
            r == ((old(self).status.value & 0xE0) | ((match old(self).internal_buf {
                Some(b) => b,
                None => 0u8,
            }) & 0x1F)),
            *final(self) == (Ppu {
                status: PpuStatusRegister { value: old(self).status.value & !0x80 },
                address_latch: false,
                ..*old(self)
            }),
    {
        let buffered: u8 = match self.internal_buf {
            Some(b) => b,
            None => 0,
        };
        let result: u8 = (self.status.get() & 0xE0) | (buffered & 0x1F);
        self.status.set_flag(PpuStatusRegisterFlags::VBlank, false);
        self.address_latch = false;
        result
    }

    /// Reads the OAM byte at OAMADDR; no address advance on reads.
    pub fn read_oamdata(&self, mem: &PpuMemoryMap) -> (r: u8)
        requires
            mem.wf(),
        ensures
            r == mem.oam@[self.oamaddress.value as int],
    {
        let oam: &Vec<u8> = mem.get_oam();
        oam[self.oamaddress.get() as usize]
    }

    /// Reads PPUDATA: addresses below the palette return the buffered
    /// byte and refill the buffer from the current address; palette
    /// addresses read through directly. `v` advances either way.
    pub fn read_data(&mut self, mem: &PpuMemoryMap, mapper: &Mapper000) -> (r: u8)
        requires
            mem.wf(),
            mapper.wf(),
        ensures
            spec_vram_pack(old(self).vram) < 0x3F00 ==> r == (match old(self).internal_buf {
                Some(b) => b,
                None => 0u8,
            }) && *final(self) == (Ppu {
                vram: final(self).vram,
                internal_buf: Some(
                    mem.spec_read(
                        mapper,
                        Self::spec_data_target(
                            old(self).mirroring,
                            spec_vram_pack(old(self).vram),
                        ),
                    ),
                ),
                ..*old(self)
            }),
            spec_vram_pack(old(self).vram) >= 0x3F00 ==> r == mem.spec_read(
                mapper,
                Self::spec_data_target(old(self).mirroring, spec_vram_pack(old(self).vram)),
            ) && *final(self) == (Ppu { vram: final(self).vram, ..*old(self) }),
            spec_vram_pack(final(self).vram) == Self::spec_data_advance(*old(self)),
    {
        let buffered: u8 = match self.internal_buf {
            Some(b) => b,
            None => 0,
        };
        let address: u16 = self.vram.get();
        let read_address: u16 = self.data_target(address);
        self.advance_data_address();
        if address < 0x3F00 {
            self.internal_buf = Some(mem.read(mapper, read_address));
            buffered
        } else {
            mem.read(mapper, read_address)
        }
    }

    pub fn get_screen_buffer(&self) -> (r: &ScreenBuffer)
        ensures
            r == self.screen_buffer,
    {
        &self.screen_buffer
    }

    /// The base nametable that PPUCTRL currently selects.
    pub fn get_nametable_index(&self) -> (r: u16)
        ensures
            r == (self.controller.value & 0b11) as u16,
            r < 4,
    {
        proof {
            crate::bits::lemma_u8_and_le(self.controller.value, 0b11);
        }
        (self.controller.get() & 0b11) as u16
    }

    /// Which pattern table backgrounds fetch from: 0 or 1.
    pub fn get_bg_pattern_table_index(&self) -> (r: u16)
        ensures
            r == if self.controller.value & 0x10 != 0 {
                1u16
            } else {
                0u16
            },
    {
        if self.controller.get_flag(PpuControllerRegisterFlags::BackgroundPatternTable) {
            1
        } else {
            0
        }
    }

    /// Which pattern table sprites fetch from: 0 or 1.
    pub fn get_spr_patter_table_index(&self) -> (r: u16)
        ensures
            r == if self.controller.value & 0x08 != 0 {
                1u16
            } else {
                0u16
            },
    {
        if self.controller.get_flag(PpuControllerRegisterFlags::SpritesPatternTable) {
            1
        } else {
            0
        }
    }

    /// The other visible nametable beside `nametable_index` under this
    /// cartridge's two-screen mirroring.
    pub fn get_second_nametable_index(&self, nametable_index: u16) -> (r: u16)
        requires
            self.mirroring is Vertical && (nametable_index == 0 || nametable_index == 1)
                || self.mirroring is Horizontal && (nametable_index == 0 || nametable_index == 2),
        ensures
            self.mirroring is Vertical ==> r == (1 - nametable_index) as u16,
            self.mirroring is Horizontal ==> r == (2 - nametable_index) as u16,
    {
        match self.mirroring {
            Mirroring::Vertical => 1 - nametable_index,
            _ => 2 - nametable_index,
        }
    }

    /// Whether sprite zero overlaps the current scanline at or before
    /// `cycles`, while sprites are enabled: the coarse test a host can
    /// use between frames.
    pub fn is_sprite_zero_hit(&self, mem: &PpuMemoryMap, cycles: usize) -> (r: bool)
        requires
            mem.wf(),
        ensures
            r == ((mem.oam@[0] as int == self.scanline as int) && mem.oam@[3] as int <= cycles
                && spec_show_sprites(*self)),
    {
        let show_sprites: bool = self.mask.get_flag(PpuMaskRegisterFlags::ShowSprites);
        let oam: &Vec<u8> = mem.get_oam();
        let sprite_y: u8 = oam[0];
        let sprite_x: u8 = oam[3];
        (sprite_y as i32 == self.scanline) && (sprite_x as usize) <= cycles && show_sprites
    }

    /// Whether the odd-frame dot skip fires: dot 339 of the pre-render
    /// scanline, on an odd frame, with background rendering enabled.
    pub open spec fn spec_dot_skip(p: Ppu) -> bool {
        p.scanline == -1 && p.cycles == 339 && p.odd_frame && spec_show_background(p)
    }

    /// The odd-frame dot skip: on odd frames with background rendering
    /// enabled, the pre-render scanline drops its dot 339, so the line
    /// is one dot shorter.
    pub fn skip_odd_frame(&mut self)
        ensures
            Self::spec_dot_skip(*old(self)) ==> *final(self) == (Ppu {
                cycles: 340usize,
                ..*old(self)
            }),
            !Self::spec_dot_skip(*old(self)) ==> *final(self) == *old(self),
    {
        if self.scanline == -1 && self.cycles == 339 && self.odd_frame && self.mask.get_flag(
            PpuMaskRegisterFlags::ShowBackground,
        ) {
            self.cycles = 340;
        }
    }

    /// At dot 1 of the pre-render scanline, clears the vertical-blank,
    /// sprite-zero-hit and sprite-overflow flags and the sprite
    /// shifters.
    pub fn reset_vblank(&mut self)
        requires
            old(self).wf_pipeline(),
        ensures
            final(self).wf_pipeline(),
            old(self).scanline == -1 && old(self).cycles == 1 ==> *final(self) == (Ppu {
                status: PpuStatusRegister {
                    value: ((old(self).status.value & !0x80) & !0x40) & !0x20,
                },
                screen_state: final(self).screen_state,
                ..*old(self)
            }) && !spec_vblank(*final(self)),
            !(old(self).scanline == -1 && old(self).cycles == 1) ==> *final(self) == *old(self),
            old(self).scanline == -1 && old(self).cycles == 1 ==> forall|i: int|
                0 <= i < 8 ==> final(self).screen_state.sprite_shift_pattern_lo@[i] == 0u8
                    && final(self).screen_state.sprite_shift_pattern_hi@[i] == 0u8,
            final(self).screen_state.sprite_count == old(self).screen_state.sprite_count,
            final(self).screen_state.sprite_zero_occured == old(self).screen_state.sprite_zero_occured,
    {
        if self.scanline == -1 && self.cycles == 1 {
            self.status.set_flag(PpuStatusRegisterFlags::VBlank, false);
            self.status.set_flag(PpuStatusRegisterFlags::SpriteZeroHit, false);
            self.status.set_flag(PpuStatusRegisterFlags::SpriteOverflow, false);
            let mut i: usize = 0;
            while i < 8
                invariant
                    old(self).wf_pipeline(),
                    i <= 8,
                    self.screen_state.sprite_shift_pattern_lo@.len() == 8,
                    self.screen_state.sprite_shift_pattern_hi@.len() == 8,
                    *self == (Ppu {
                        status: self.status,
                        screen_state: self.screen_state,
                        ..*old(self)
                    }),
                    self.status.value == ((old(self).status.value & !0x80) & !0x40) & !0x20,
                    self.screen_state == (ScreenState {
                        sprite_shift_pattern_lo: self.screen_state.sprite_shift_pattern_lo,
                        sprite_shift_pattern_hi: self.screen_state.sprite_shift_pattern_hi,
                        ..old(self).screen_state
                    }),
                    forall|j: int|
                        0 <= j < i ==> self.screen_state.sprite_shift_pattern_lo@[j] == 0u8
                            && self.screen_state.sprite_shift_pattern_hi@[j] == 0u8,
                decreases 8 - i,
            {
                self.screen_state.sprite_shift_pattern_lo[i] = 0;
                self.screen_state.sprite_shift_pattern_hi[i] = 0;
                i = i + 1;
            }
            proof {
                lemma_u8_status_bits(old(self).status.value);
            }
        }
    }

    /// At dot 1 of scanline 241, raises the vertical-blank flag; the
    /// caller latches an NMI if PPUCTRL asks for one.
    pub fn update_vblank(&mut self) -> (raised: bool)
        ensures
            old(self).scanline == 241 && old(self).cycles == 1 ==> *final(self) == (Ppu {
                status: PpuStatusRegister { value: old(self).status.value | 0x80 },
                ..*old(self)
            }) && spec_vblank(*final(self)),
            !(old(self).scanline == 241 && old(self).cycles == 1) ==> *final(self) == *old(self),
            raised == (old(self).scanline == 241 && old(self).cycles == 1 && spec_nmi_enabled(
                *old(self),
            )),
    {
        if self.scanline == 241 && self.cycles == 1 {
            self.status.set_flag(PpuStatusRegisterFlags::VBlank, true);
            proof {
                lemma_u8_status_bits(old(self).status.value);
            }
            self.controller.get_flag(PpuControllerRegisterFlags::GenerateVBlankNMI)
        } else {
            false
        }
    }

    /// Whether primary OAM sprite `i` covers `scanline` (8x8 sprites).
    pub open spec fn spec_sprite_qualifies(oam: Seq<u8>, scanline: int, i: int) -> bool {
        0 <= scanline - oam[4 * i] < 8
    }

    /// How many of the first `n` primary OAM sprites cover `scanline`.
    pub open spec fn spec_qualifying_count(oam: Seq<u8>, scanline: int, n: int) -> int
        decreases n,
    {
        if n <= 0 {
            0
        } else {
            Self::spec_qualifying_count(oam, scanline, n - 1) + if Self::spec_sprite_qualifies(
                oam,
                scanline,
                n - 1,
            ) {
                1int
            } else {
                0int
            }
        }
    }

    /// Sprite evaluation for the coming scanline: walks primary OAM in
    /// order, copies the first eight sprites that cover the scanline
    /// into secondary OAM, notes whether sprite zero is among them, and
    /// raises sprite overflow when a ninth qualifies.
    fn evaluate_sprites(&mut self, mem: &PpuMemoryMap)
        requires
            old(self).wf_pipeline(),
            mem.wf(),
            0 <= old(self).scanline < 240,
        ensures
            final(self).wf_pipeline(),
            *final(self) == (Ppu {
                screen_state: final(self).screen_state,
                internal_oam: final(self).internal_oam,
                status: final(self).status,
                ..*old(self)
            }),
            final(self).screen_state == (ScreenState {
                sprite_count: final(self).screen_state.sprite_count,
                sprite_zero_occured: final(self).screen_state.sprite_zero_occured,
                sprite_shift_pattern_lo: final(self).screen_state.sprite_shift_pattern_lo,
                sprite_shift_pattern_hi: final(self).screen_state.sprite_shift_pattern_hi,
                ..old(self).screen_state
            }),
            final(self).screen_state.sprite_count as int == vstd::math::min(
                Self::spec_qualifying_count(mem.oam@, old(self).scanline as int, 64),
                8,
            ),
            final(self).screen_state.sprite_zero_occured == Self::spec_sprite_qualifies(
                mem.oam@,
                old(self).scanline as int,
                0,
            ),
            final(self).status.value == if Self::spec_qualifying_count(
                mem.oam@,
                old(self).scanline as int,
                64,
            ) > 8 {
                old(self).status.value | 0x20
            } else {
                old(self).status.value & !0x20
            },
            spec_vblank(*final(self)) == spec_vblank(*old(self)),
    {
        let mut i: usize = 0;
        while i < 0x20
            invariant
                old(self).wf_pipeline(),
                i <= 0x20,
                self.internal_oam@.len() == 0x20,
                *self == (Ppu { internal_oam: self.internal_oam, ..*old(self) }),
            decreases 0x20 - i,
        {
            self.internal_oam[i] = 0xFF;
            i = i + 1;
        }
        self.screen_state.sprite_count = 0;
        self.screen_state.sprite_zero_occured = false;
        let mut k: usize = 0;
        while k < 8
            invariant
                old(self).wf_pipeline(),
                k <= 8,
                self.internal_oam@.len() == 0x20,
                self.screen_state.sprite_shift_pattern_lo@.len() == 8,
                self.screen_state.sprite_shift_pattern_hi@.len() == 8,
                *self == (Ppu {
                    internal_oam: self.internal_oam,
                    screen_state: self.screen_state,
                    ..*old(self)
                }),
                self.screen_state == (ScreenState {
                    sprite_count: 0u8,
                    sprite_zero_occured: false,
                    sprite_shift_pattern_lo: self.screen_state.sprite_shift_pattern_lo,
                    sprite_shift_pattern_hi: self.screen_state.sprite_shift_pattern_hi,
                    ..old(self).screen_state
                }),
            decreases 8 - k,
        {
            self.screen_state.sprite_shift_pattern_lo[k] = 0;
            self.screen_state.sprite_shift_pattern_hi[k] = 0;
            k = k + 1;
        }
        let oam: &Vec<u8> = mem.get_oam();
        let scanline: i32 = self.scanline;
        let mut index: usize = 0;
        let mut qualified_total: u8 = 0;
        while index < 64
            invariant
                old(self).wf_pipeline(),
                mem.wf(),
                0 <= scanline < 240,
                scanline == old(self).scanline,
                oam@ == mem.oam@,
                index <= 64,
                self.internal_oam@.len() == 0x20,
                self.screen_state.sprite_shift_pattern_lo@.len() == 8,
                self.screen_state.sprite_shift_pattern_hi@.len() == 8,
                *self == (Ppu {
                    internal_oam: self.internal_oam,
                    screen_state: self.screen_state,
                    ..*old(self)
                }),
                self.screen_state == (ScreenState {
                    sprite_count: self.screen_state.sprite_count,
                    sprite_zero_occured: self.screen_state.sprite_zero_occured,
                    sprite_shift_pattern_lo: self.screen_state.sprite_shift_pattern_lo,
                    sprite_shift_pattern_hi: self.screen_state.sprite_shift_pattern_hi,
                    ..old(self).screen_state
                }),
                qualified_total as int == Self::spec_qualifying_count(
                    mem.oam@,
                    scanline as int,
                    index as int,
                ),
                qualified_total <= index,
                self.screen_state.sprite_count as int == vstd::math::min(
                    qualified_total as int,
                    8,
                ),
                self.screen_state.sprite_zero_occured == (index > 0
                    && Self::spec_sprite_qualifies(mem.oam@, scanline as int, 0)),
            decreases 64 - index,
        {
            let sprite_y: u8 = oam[index * 4];
            let diff: i32 = scanline - sprite_y as i32;
            if diff >= 0 && diff < 8 {
                if self.screen_state.sprite_count < 8 {
                    if index == 0 {
                        self.screen_state.sprite_zero_occured = true;
                    }
                    let internal_index: usize = self.screen_state.sprite_count as usize * 4;
                    self.internal_oam[internal_index] = oam[index * 4];
                    self.internal_oam[internal_index + 1] = oam[index * 4 + 1];
                    self.internal_oam[internal_index + 2] = oam[index * 4 + 2];
                    self.internal_oam[internal_index + 3] = oam[index * 4 + 3];
                    self.screen_state.sprite_count = self.screen_state.sprite_count + 1;
                }
                qualified_total = qualified_total + 1;
            }
            index = index + 1;
        }
        let overflow: bool = qualified_total > 8;
        self.status.set_flag(PpuStatusRegisterFlags::SpriteOverflow, overflow);
        proof {
            lemma_u8_status_bits(old(self).status.value);
        }
    }

    /// A byte with its bit order reversed.
    pub open spec fn spec_reverse_byte(b: u8) -> u8 {
        let swapped_nibbles = ((b & 0xF0) >> 4) | ((b & 0x0F) << 4);
        let swapped_pairs = ((swapped_nibbles & 0xCC) >> 2) | ((swapped_nibbles & 0x33) << 2);
        ((swapped_pairs & 0xAA) >> 1) | ((swapped_pairs & 0x55) << 1)
    }

    /// Reverses the bit order of a pattern byte, for horizontal flips.
    fn reverse_byte(b: u8) -> (r: u8)
        ensures
            r == Self::spec_reverse_byte(b),
    {
        let swapped_nibbles: u8 = ((b & 0xF0) >> 4) | ((b & 0x0F) << 4);
        let swapped_pairs: u8 = ((swapped_nibbles & 0xCC) >> 2) | ((swapped_nibbles & 0x33) << 2);
        ((swapped_pairs & 0xAA) >> 1) | ((swapped_pairs & 0x55) << 1)
    }

    /// At the end of a visible scanline, fetches the pattern bytes of
    /// every sprite selected for it, applying vertical and horizontal
    /// flips.
    fn fetch_sprite_patterns(&mut self, mem: &PpuMemoryMap, mapper: &Mapper000)
        requires
            old(self).wf_pipeline(),
            mem.wf(),
            mapper.wf(),
            0 <= old(self).scanline < 240,
        ensures
            final(self).wf_pipeline(),
            *final(self) == (Ppu { screen_state: final(self).screen_state, ..*old(self) }),
            final(self).screen_state == (ScreenState {
                sprite_shift_pattern_lo: final(self).screen_state.sprite_shift_pattern_lo,
                sprite_shift_pattern_hi: final(self).screen_state.sprite_shift_pattern_hi,
                ..old(self).screen_state
            }),
    {
        let sprite_count: usize = self.screen_state.sprite_count as usize;
        let sprite_pattern_table: u16 = if self.controller.get_flag(
            PpuControllerRegisterFlags::SpritesPatternTable,
        ) {
            0x1000u16
        } else {
            0x0000u16
        };
        let mut index: usize = 0;
        while index < sprite_count
            invariant
                old(self).wf_pipeline(),
                mem.wf(),
                mapper.wf(),
                0 <= self.scanline < 240,
                sprite_count <= 8,
                index <= sprite_count,
                sprite_pattern_table == 0x1000u16 || sprite_pattern_table == 0x0000u16,
                self.internal_oam@.len() == 0x20,
                self.screen_state.sprite_shift_pattern_lo@.len() == 8,
                self.screen_state.sprite_shift_pattern_hi@.len() == 8,
                *self == (Ppu { screen_state: self.screen_state, ..*old(self) }),
                self.screen_state == (ScreenState {
                    sprite_shift_pattern_lo: self.screen_state.sprite_shift_pattern_lo,
                    sprite_shift_pattern_hi: self.screen_state.sprite_shift_pattern_hi,
                    ..old(self).screen_state
                }),
            decreases sprite_count - index,
        {
            let sprite_y: u8 = self.internal_oam[index * 4];
            let sprite_tile: u8 = self.internal_oam[index * 4 + 1];
            let sprite_attribute: u8 = self.internal_oam[index * 4 + 2];
            let diff: i32 = self.scanline - sprite_y as i32;
            if diff >= 0 && diff < 8 {
                let row: u16 = if sprite_attribute & 0x80 != 0x80 {
                    diff as u16
                } else {
                    7 - diff as u16
                };
                let pattern_address_lo: u16 = sprite_pattern_table + (sprite_tile as u16) * 16
                    + row;
                let pattern_address_hi: u16 = pattern_address_lo + 8;
                let mut pattern_bits_lo: u8 = mem.read(mapper, pattern_address_lo);
                let mut pattern_bits_hi: u8 = mem.read(mapper, pattern_address_hi);
                if sprite_attribute & 0x40 == 0x40 {
                    pattern_bits_lo = Self::reverse_byte(pattern_bits_lo);
                    pattern_bits_hi = Self::reverse_byte(pattern_bits_hi);
                }
                self.screen_state.sprite_shift_pattern_lo[index] = pattern_bits_lo;
                self.screen_state.sprite_shift_pattern_hi[index] = pattern_bits_hi;
            }
            index = index + 1;
        }
    }

    /// The background pixel and palette that the shift registers give
    /// at the current fine-X, when background rendering is enabled.
    pub open spec fn spec_bg_pixel(p: Ppu) -> (u8, u8) {
        if spec_show_background(p) {
            let bit_mux = (0x8000u16 >> p.fine_x) as u16;
            let pixel = ((if p.screen_state.bg_shift_pattern_hi & bit_mux > 0 {
                2int
            } else {
                0int
            }) + (if p.screen_state.bg_shift_pattern_lo & bit_mux > 0 {
                1int
            } else {
                0int
            })) as u8;
            let palette = ((if p.screen_state.bg_shift_attribute_hi & bit_mux > 0 {
                2int
            } else {
                0int
            }) + (if p.screen_state.bg_shift_attribute_lo & bit_mux > 0 {
                1int
            } else {
                0int
            })) as u8;
            (pixel, palette)
        } else {
            (0u8, 0u8)
        }
    }

    fn select_background_pixel(&self) -> (r: (u8, u8))
        requires
            self.fine_x < 8,
        ensures
            r == Self::spec_bg_pixel(*self),
            r.0 <= 3,
            r.1 <= 3,
    {
        if self.mask.get_flag(PpuMaskRegisterFlags::ShowBackground) {
            let bit_mux: u16 = 0x8000u16 >> self.fine_x;
            let p0: u8 = if self.screen_state.bg_shift_pattern_lo & bit_mux > 0 {
                1
            } else {
                0
            };
            let p1: u8 = if self.screen_state.bg_shift_pattern_hi & bit_mux > 0 {
                2
            } else {
                0
            };
            let a0: u8 = if self.screen_state.bg_shift_attribute_lo & bit_mux > 0 {
                1
            } else {
                0
            };
            let a1: u8 = if self.screen_state.bg_shift_attribute_hi & bit_mux > 0 {
                2
            } else {
                0
            };
            (p1 + p0, a1 + a0)
        } else {
            (0, 0)
        }
    }

    /// The first sprite at or past slot `i` whose X counter has expired
    /// and whose pattern holds a non-zero pixel in its leftmost bit:
    /// its pixel, palette, priority, and whether it is sprite zero.
    pub open spec fn spec_sprite_scan(
        oam: Seq<u8>,
        lo: Seq<u8>,
        hi: Seq<u8>,
        count: int,
        i: int,
    ) -> (u8, u8, bool, bool)
        decreases count - i,
    {
        if i >= count {
            (0u8, 0u8, false, false)
        } else if oam[4 * i + 3] == 0 {
            let pixel = ((if hi[i] & 0x80 != 0 {
                2int
            } else {
                0int
            }) + (if lo[i] & 0x80 != 0 {
                1int
            } else {
                0int
            })) as u8;
            if pixel != 0 {
                (pixel, (((oam[4 * i + 2] & 0x03) + 0x04) as u8), oam[4 * i + 2] & 0x20 == 0, i
                    == 0)
            } else {
                Self::spec_sprite_scan(oam, lo, hi, count, i + 1)
            }
        } else {
            Self::spec_sprite_scan(oam, lo, hi, count, i + 1)
        }
    }

    /// The foreground pixel of the current dot: the winning sprite's
    /// data when sprite rendering is enabled, else no pixel.
    pub open spec fn spec_dot_foreground(p: Ppu) -> (u8, u8, bool, bool) {
        if spec_show_sprites(p) {
            Self::spec_sprite_scan(
                p.internal_oam@,
                p.screen_state.sprite_shift_pattern_lo@,
                p.screen_state.sprite_shift_pattern_hi@,
                p.screen_state.sprite_count as int,
                0,
            )
        } else {
            (0u8, 0u8, false, false)
        }
    }

    fn select_sprite_pixel(&self) -> (r: (u8, u8, bool, bool))
        requires
            self.wf_pipeline(),
        ensures
            r == Self::spec_sprite_scan(
                self.internal_oam@,
                self.screen_state.sprite_shift_pattern_lo@,
                self.screen_state.sprite_shift_pattern_hi@,
                self.screen_state.sprite_count as int,
                0,
            ),
            r.0 <= 3,
            r.1 == 0 || (4 <= r.1 <= 7),
    {
        let sprite_count: usize = self.screen_state.sprite_count as usize;
        let mut fg_pixel: u8 = 0;
        let mut fg_palette: u8 = 0;
        let mut fg_priority: bool = false;
        let mut fg_zero: bool = false;
        let mut found: bool = false;
        let mut index: usize = 0;
        while index < sprite_count
            invariant
                self.wf_pipeline(),
                sprite_count == self.screen_state.sprite_count as int,
                index <= sprite_count,
                found ==> (fg_pixel, fg_palette, fg_priority, fg_zero)
                    == Self::spec_sprite_scan(
                    self.internal_oam@,
                    self.screen_state.sprite_shift_pattern_lo@,
                    self.screen_state.sprite_shift_pattern_hi@,
                    sprite_count as int,
                    0,
                ),
                !found ==> Self::spec_sprite_scan(
                    self.internal_oam@,
                    self.screen_state.sprite_shift_pattern_lo@,
                    self.screen_state.sprite_shift_pattern_hi@,
                    sprite_count as int,
                    0,
                ) == Self::spec_sprite_scan(
                    self.internal_oam@,
                    self.screen_state.sprite_shift_pattern_lo@,
                    self.screen_state.sprite_shift_pattern_hi@,
                    sprite_count as int,
                    index as int,
                ),
                !found ==> fg_pixel == 0 && fg_palette == 0 && !fg_priority && !fg_zero,
                fg_pixel <= 3,
                fg_palette == 0 || (4 <= fg_palette <= 7),
            decreases sprite_count - index,
        {
            if !found && self.internal_oam[index * 4 + 3] == 0 {
                let pattern_lo: u8 = self.screen_state.sprite_shift_pattern_lo[index];
                let pattern_hi: u8 = self.screen_state.sprite_shift_pattern_hi[index];
                let pixel_lo: u8 = if pattern_lo & 0x80 != 0 {
                    1
                } else {
                    0
                };
                let pixel_hi: u8 = if pattern_hi & 0x80 != 0 {
                    2
                } else {
                    0
                };
                let pixel: u8 = pixel_hi + pixel_lo;
                if pixel != 0 {
                    let attribute: u8 = self.internal_oam[index * 4 + 2];
                    proof {
                        lemma_u8_and_le(attribute, 0x03);
                    }
                    fg_pixel = pixel;
                    fg_palette = (attribute & 0x03) + 0x04;
                    fg_priority = attribute & 0x20 == 0;
                    fg_zero = index == 0;
                    found = true;
                }
            }
            index = index + 1;
        }
        (fg_pixel, fg_palette, fg_priority, fg_zero)
    }

    /// The final pixel/palette choice: with no pixel on either layer
    /// the universal background wins; one layer alone wins outright;
    /// both present, the sprite's priority bit decides.
    pub open spec fn spec_composite(bp: u8, bpal: u8, fp: u8, fpal: u8, fpriority: bool) -> (
        u8,
        u8,
    ) {
        if bp == 0 && fp == 0 {
            (0u8, 0u8)
        } else if bp == 0 {
            (fp, fpal)
        } else if fp == 0 {
            (bp, bpal)
        } else if fpriority {
            (fp, fpal)
        } else {
            (bp, bpal)
        }
    }

    /// Whether this dot sets the sprite-zero-hit flag: both layers
    /// enabled and holding a pixel, sprite zero selected and winning
    /// the scan, outside the leftmost-eight-pixel mask window.
    pub open spec fn spec_sprite_zero_hit_now(p: Ppu) -> bool {
        let bg = Self::spec_bg_pixel(p);
        let fg = Self::spec_dot_foreground(p);
        &&& bg.0 != 0
        &&& fg.0 != 0
        &&& p.screen_state.sprite_zero_occured
        &&& fg.3
        &&& spec_show_background(p)
        &&& spec_show_sprites(p)
        &&& if !(p.mask.value & 0x02 != 0 || p.mask.value & 0x04 != 0) {
            9 <= p.cycles < 258
        } else {
            1 <= p.cycles < 258
        }
    }

    /// The palette-RAM byte that the current dot writes into the
    /// framebuffer.
    pub open spec fn spec_dot_color(p: Ppu, mem: &PpuMemoryMap, mapper: &Mapper000) -> u8 {
        let bg = Self::spec_bg_pixel(p);
        let fg = Self::spec_dot_foreground(p);
        let chosen = Self::spec_composite(bg.0, bg.1, fg.0, fg.1, fg.2);
        mem.spec_read(mapper, (0x3F00 + chosen.1 * 4 + chosen.0) as u16)
    }

    /// Composites one dot: selects the background and sprite pixels,
    /// resolves priority, latches sprite-zero hit, and writes the
    /// palette-indexed color to the framebuffer on visible dots.
    fn render_dot(&mut self, mem: &PpuMemoryMap, mapper: &Mapper000)
        requires
            old(self).wf_pipeline(),
            mem.wf(),
            mapper.wf(),
        ensures
            final(self).wf_pipeline(),
            *final(self) == (Ppu {
                status: final(self).status,
                screen_state: final(self).screen_state,
                screen_buffer: final(self).screen_buffer,
                ..*old(self)
            }),
            final(self).screen_state == (ScreenState {
                sprite_zero_rendering: if spec_show_sprites(*old(self)) {
                    Self::spec_dot_foreground(*old(self)).3
                } else {
                    old(self).screen_state.sprite_zero_rendering
                },
                ..old(self).screen_state
            }),
            final(self).status.value == if Self::spec_sprite_zero_hit_now(*old(self)) {
                old(self).status.value | 0x40
            } else {
                old(self).status.value
            },
            spec_vblank(*final(self)) == spec_vblank(*old(self)),
            final(self).screen_buffer.width == 256,
            final(self).screen_buffer.buffer@ == if 1 <= old(self).cycles <= 256 && 0 <= old(self).scanline < 240 {
                old(self).screen_buffer.buffer@.update(
                    old(self).scanline * 256 + old(self).cycles - 1,
                    Self::spec_dot_color(*old(self), mem, mapper),
                )
            } else {
                old(self).screen_buffer.buffer@
            },
    {
        let show_background: bool = self.mask.get_flag(PpuMaskRegisterFlags::ShowBackground);
        let show_sprites: bool = self.mask.get_flag(PpuMaskRegisterFlags::ShowSprites);
        let bg: (u8, u8) = self.select_background_pixel();
        let mut fg: (u8, u8, bool, bool) = (0, 0, false, false);
        if show_sprites {
            fg = self.select_sprite_pixel();
            self.screen_state.sprite_zero_rendering = fg.3;
        }
        let is_sprite_zero_hit: bool = self.screen_state.sprite_zero_occured
            && self.screen_state.sprite_zero_rendering;
        let is_showing_leftmost: bool = !(self.mask.get_flag(
            PpuMaskRegisterFlags::ShowBackgroundLeftmost,
        ) || self.mask.get_flag(PpuMaskRegisterFlags::ShowSpritesLeftmost));
        let chosen: (u8, u8) = if bg.0 == 0 && fg.0 == 0 {
            (0, 0)
        } else if bg.0 == 0 {
            (fg.0, fg.1)
        } else if fg.0 == 0 {
            (bg.0, bg.1)
        } else if fg.2 {
            (fg.0, fg.1)
        } else {
            (bg.0, bg.1)
        };
        if bg.0 != 0 && fg.0 != 0 && is_sprite_zero_hit && show_background && show_sprites {
            if is_showing_leftmost {
                if self.cycles >= 9 && self.cycles < 258 {
                    self.status.set_flag(PpuStatusRegisterFlags::SpriteZeroHit, true);
                }
            } else if self.cycles >= 1 && self.cycles < 258 {
                self.status.set_flag(PpuStatusRegisterFlags::SpriteZeroHit, true);
            }
        }
        proof {
            lemma_u8_status_bits(old(self).status.value);
        }
        let pixel_color: u8 = mem.read(mapper, 0x3F00 + ((chosen.1 * 4 + chosen.0) as u16));
        if self.cycles >= 1 && self.cycles <= 256 && self.scanline >= 0 && self.scanline < 240 {
            let x: usize = self.cycles - 1;
            let y: usize = self.scanline as usize;
            self.screen_buffer.set_pixel(x, y, pixel_color);
        }
    }

    /// One PPU dot: advances the dot counter, runs the background and
    /// sprite machinery of the current dot, raises the vertical-blank
    /// flag when it is reached, composites a pixel, and wraps the dot
    /// and scanline counters. Returns whether this dot raised an NMI.
    /// On visible dots exactly one framebuffer cell changes; the value
    /// written is the composite that `spec_dot_color` gives for the
    /// state the dot renders from.
    /// Whether this tick fires the odd-frame dot skip, in terms of the
    /// state before the dot counter advances.
    pub open spec fn spec_tick_skips(p: Ppu, amount: int) -> bool {
        p.scanline == -1 && p.cycles + amount == 339 && p.odd_frame && spec_show_background(p)
    }

    #[verifier::rlimit(100)]
    #[verifier::spinoff_prover]
    pub fn tick(&mut self, mem: &PpuMemoryMap, mapper: &Mapper000, amount: usize) -> (nmi: bool)
        requires
            old(self).wf(),
            mem.wf(),
            mapper.wf(),
            1 <= amount,
            old(self).cycles + amount <= usize::MAX,
        ensures
            final(self).wf(),
            spec_same_ports(*old(self), *final(self)),
            final(self).dot_counter == usize_specs::wrapping_add(old(self).dot_counter, amount),
            old(self).dot_counter + amount <= usize::MAX ==> final(self).dot_counter == old(self).dot_counter + amount,
            final(self).cycles == if Self::spec_tick_skips(*old(self), amount as int) {
                340int
            } else if old(self).cycles + amount >= 341 {
                0int
            } else {
                old(self).cycles + amount
            },
            final(self).scanline == if !Self::spec_tick_skips(*old(self), amount as int) && old(self).cycles + amount >= 341 {
                if old(self).scanline + 1 >= 261 {
                    -1int
                } else {
                    old(self).scanline + 1
                }
            } else {
                old(self).scanline as int
            },
            final(self).odd_frame == if !Self::spec_tick_skips(*old(self), amount as int) && old(self).cycles + amount >= 341 && old(self).scanline + 1 >= 261 {
                !old(self).odd_frame
            } else {
                old(self).odd_frame
            },
            nmi == (old(self).scanline == 241 && old(self).cycles + amount == 1
                && spec_nmi_enabled(*old(self))),
            spec_vblank(*final(self)) == if old(self).scanline == 241 && old(self).cycles + amount
                == 1 {
                true
            } else if old(self).scanline == -1 && old(self).cycles + amount == 1 {
                false
            } else {
                spec_vblank(*old(self))
            },
            amount == 1 && !Self::spec_tick_skips(*old(self), 1) ==> spec_frame_pos(*final(self))
                == if spec_frame_pos(*old(self)) + 1 == spec_frame_dots() {
                0int
            } else {
                spec_frame_pos(*old(self)) + 1
            },
            amount == 1 && Self::spec_tick_skips(*old(self), 1) ==> spec_frame_pos(*final(self))
                == spec_frame_pos(*old(self)) + 2,
            !(1 <= old(self).cycles + amount <= 256 && 0 <= old(self).scanline < 240)
                ==> final(self).screen_buffer.buffer@ == old(self).screen_buffer.buffer@,
            1 <= old(self).cycles + amount <= 256 && 0 <= old(self).scanline < 240
                ==> exists|color: u8|
                final(self).screen_buffer.buffer@ == #[trigger] old(self).screen_buffer.buffer@.update(
                    old(self).scanline * 256 + old(self).cycles + amount - 1,
                    color,
                ),
    {
        self.dot_counter = self.dot_counter.wrapping_add(amount);
        self.cycles = self.cycles + amount;
        if self.scanline >= -1 && self.scanline < 240 {
            self.skip_odd_frame();
            self.reset_vblank();
            self.fetch_data(mem, mapper);
            if self.cycles == 256 {
                self.increment_scroll_y();
            } else if self.cycles == 257 {
                self.load_background_shift();
                self.transfer_address_x();
                if self.scanline >= 0 {
                    self.evaluate_sprites(mem);
                }
            } else if self.cycles >= 280 && self.cycles <= 304 && self.scanline == -1 {
                self.transfer_address_y();
            } else if self.cycles == 338 || self.cycles == 340 {
                self.read_tile_id(mem, mapper);
                if self.cycles == 340 && self.scanline >= 0 {
                    self.fetch_sprite_patterns(mem, mapper);
                }
            }
        }
        let nmi: bool = self.update_vblank();
        let ghost pre_render = *self;
        self.render_dot(mem, mapper);
        proof {
            if 1 <= old(self).cycles + amount <= 256 && 0 <= old(self).scanline < 240 {
                assert(self.screen_buffer.buffer@ == old(self).screen_buffer.buffer@.update(
                    old(self).scanline * 256 + old(self).cycles + amount - 1,
                    Self::spec_dot_color(pre_render, mem, mapper),
                ));
            }
        }
        if self.cycles >= 341 {
            self.cycles = 0;
            self.scanline = self.scanline + 1;
            if self.scanline >= 261 {
                self.scanline = -1;
                self.odd_frame = !self.odd_frame;
            }
        }
        nmi
    }
}

} // verus!
