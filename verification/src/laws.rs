//! System-wide laws, proved from the contracts the components state.

use vstd::prelude::*;

use crate::bits::lemma_ram_mirror_step;
use crate::bus::Bus;
use crate::cpu::spec_add_result;
use crate::cpu::spec_add_status;
use crate::cpu::spec_add_sum;
use crate::memorymap::ppu::spec_palette_after;
use crate::memorymap::ppu::spec_palette_index;
use crate::ppu::spec_frame_dots;
use crate::ppu::spec_vblank_rise_pos;

verus! {

/// PHP followed by PLP round-trips the status bits: the byte PHP
/// pushes carries every live bit with break forced on, and the
/// register PLP loads from it keeps all bits except that break reads
/// back clear and unused reads back set.
pub proof fn lemma_php_plp_round_trip(p: u8)
    by (bit_vector)
    ensures
        (p | 0x10) & 0xCF == p & 0xCF,
        (p | 0x10) & 0x10 == 0x10,
        (((p | 0x10) & !0x10) | 0x20) & 0xCF == p & 0xCF,
        (((p | 0x10) & !0x10) | 0x20) & 0x10 == 0,
        (((p | 0x10) & !0x10) | 0x20) & 0x20 == 0x20,
{
}

/// ADC followed by SBC of the same operand, with the carry the
/// addition produced, returns the original accumulator, with zero and
/// negative agreeing with it. This needs the addition to flip the
/// carry: when the carry survives unchanged (as with adding zero to
/// zero without carry), the subtraction borrows one too many or one
/// too few and misses the accumulator by one.
pub proof fn lemma_adc_sbc_round_trip(a: u8, m: u8, c: bool, p: u8)
    by (bit_vector)
    requires
        (spec_add_sum(a, m, c) > 255) != c,
    ensures
        spec_add_result(spec_add_result(a, m, c), m ^ 0xFF, spec_add_sum(a, m, c) > 255) == a,
        (spec_add_status(
            p,
            spec_add_result(a, m, c),
            m ^ 0xFF,
            spec_add_sum(a, m, c) > 255,
        ) & 0x02 != 0) == (a == 0),
        (spec_add_status(
            p,
            spec_add_result(a, m, c),
            m ^ 0xFF,
            spec_add_sum(a, m, c) > 255,
        ) & 0x80 != 0) == (a & 0x80 != 0),
{
}

/// The 2 KiB of internal RAM repeat through the whole 0x0000..0x2000
/// window: a CPU read 0x800 bytes up sees the same cell.
pub proof fn lemma_ram_mirroring(bus: Bus, k: u16)
    requires
        bus.wf(),
        k < 0x1800,
    ensures
        bus.spec_cpu_peek((k + 0x800) as u16) == bus.spec_cpu_peek(k),
{
    lemma_ram_mirror_step(k);
}

/// The constant index facts behind the palette backdrop aliasing.
proof fn lemma_palette_fold_consts()
    by (bit_vector)
    ensures
        0x3F00u16 & 0x1F == 0,
        0x3F04u16 & 0x1F == 4,
        0x3F08u16 & 0x1F == 8,
        0x3F0Cu16 & 0x1F == 12,
{
}

/// Writing a sprite-palette backdrop entry (0x3F10, 0x3F14, 0x3F18 or
/// 0x3F1C) alters the byte that a read of the corresponding
/// background entry 0x10 below returns.
pub proof fn lemma_palette_backdrop_alias(palette: Seq<u8>, address: u16, data: u8)
    requires
        palette.len() == 0x20,
        address == 0x3F10 || address == 0x3F14 || address == 0x3F18 || address == 0x3F1C,
    ensures
        spec_palette_after(palette, address, data)[spec_palette_index((address - 0x10) as u16)]
            == data,
{
    lemma_palette_fold_consts();
}

/// Each frame holds the vertical-blank rise dot exactly once: two
/// steps within one frame of dots cannot both land on it.
pub proof fn lemma_nmi_dot_unique(start: int, i: int, j: int)
    by (nonlinear_arith)
    requires
        0 <= i < spec_frame_dots(),
        0 <= j < spec_frame_dots(),
        (start + i) % spec_frame_dots() == spec_vblank_rise_pos(),
        (start + j) % spec_frame_dots() == spec_vblank_rise_pos(),
    ensures
        i == j,
{
}

/// Each frame holds the vertical-blank rise dot at least once: from
/// any dot, some step within the next frame of dots lands on it.
pub proof fn lemma_nmi_dot_exists(start: int)
    requires
        0 <= start < spec_frame_dots(),
    ensures
        exists|i: int|
            0 <= i < spec_frame_dots() && #[trigger] ((start + i) % spec_frame_dots())
                == spec_vblank_rise_pos(),
{
    let witness = if start <= spec_vblank_rise_pos() {
        spec_vblank_rise_pos() - start
    } else {
        spec_vblank_rise_pos() + spec_frame_dots() - start
    };
    assert(0 <= witness < spec_frame_dots());
    assert((start + witness) % spec_frame_dots() == spec_vblank_rise_pos());
}

} // verus!
