use vstd::prelude::*;

verus! {

/// Masking with `m` never exceeds `m`.
pub proof fn lemma_u8_and_le(x: u8, m: u8)
    by (bit_vector)
    ensures
        x & m <= m,
{
}

/// Masking with `m` never exceeds `m`.
pub proof fn lemma_u16_and_le(x: u16, m: u16)
    by (bit_vector)
    ensures
        x & m <= m,
{
}

/// A 16-bit value equals its low byte combined with its high byte.
pub proof fn lemma_u16_split_bytes(a: u16)
    by (bit_vector)
    ensures
        ((a as u8) as u16) | ((((a >> 8) as u8) as u16) << 8) == a,
{
}

/// Masking a (high, low) byte pair to 14 bits only clips the high byte.
pub proof fn lemma_pair_mask14(lo: u8, hi: u8)
    by (bit_vector)
    ensures
        ((lo as u16) | ((hi as u16) << 8)) & 0x3FFF == (lo as u16) | (((hi & 0x3F) as u16) << 8),
{
}

/// Splitting a 14-bit address into the scroll bit groups and packing
/// them again yields the address.
pub proof fn lemma_vram_split_pack(a: u16)
    by (bit_vector)
    ensures
        (((((((a & 0x3FFF) >> 12) & 0b111) & 0b111) << 12) | (((((a & 0x3FFF) >> 11) & 0b1) & 0b1)
            << 11) | (((((a & 0x3FFF) >> 10) & 0b1) & 0b1) << 10) | (((((a & 0x3FFF) >> 5)
            & 0b11111) & 0b11111) << 5) | (((a & 0x3FFF) & 0b11111) & 0b11111)) & 0x3FFF) == a
            & 0x3FFF,
{
}

/// Masking a value already within the mask's range changes nothing.
pub proof fn lemma_u16_mask_noop(x: u16)
    by (bit_vector)
    ensures
        x < 2 ==> x & 0b1 == x,
        x < 8 ==> x & 0b111 == x,
        x < 32 ==> x & 0b11111 == x,
        x < 0x100 ==> x & 0xFF == x,
        x < 0x800 ==> x & 0x7FF == x,
        x < 0x4000 ==> x & 0x3FFF == x,
        (x & 0b11111) & 0b10 == x & 0b10,
{
}

/// Single header bits read by shifting match the plain mask tests.
pub proof fn lemma_u8_header_bits(x: u8)
    by (bit_vector)
    ensures
        ((x >> 2) & 0x1 == 0x1) <==> (x & 0x04 != 0),
        ((x >> 3) & 0x1 == 0x1) <==> (x & 0x08 != 0),
{
}

/// Setting or clearing one PPU status bit leaves the other bits alone.
pub proof fn lemma_u8_status_bits(x: u8)
    by (bit_vector)
    ensures
        (x | 0x80) & 0x80 != 0,
        (x | 0x40) & 0x80 == x & 0x80,
        (x | 0x20) & 0x80 == x & 0x80,
        (x & !0x80) & 0x80 == 0,
        (x & !0x40) & 0x80 == x & 0x80,
        (x & !0x20) & 0x80 == x & 0x80,
        ((x & !0x80) & !0x40) & !0x20 & 0x80 == 0,
{
}

/// Stepping a 14-bit address forward wraps within 14 bits.
pub proof fn lemma_wrap14(p: u16, step: u16)
    by (bit_vector)
    requires
        p < 0x4000,
        step <= 32,
    ensures
        ((p + step) as u16) & 0x3FFF == (((p + step) as u16) % 0x4000) as u16,
        ((p + step) as u16) % 0x4000 == (p + step) % 0x4000,
{
}

/// Both nibbles of a byte are hexadecimal digits.
pub proof fn lemma_u8_nibbles(x: u8)
    by (bit_vector)
    ensures
        x >> 4 < 16,
        x & 0x0F < 16,
{
}

/// Truncating an incremented byte agrees with the wrap-around sum.
pub proof fn lemma_u8_wrap_inc(x: u8)
    by (bit_vector)
    ensures
        x < 255 ==> (x + 1) as u8 == x + 1,
        x == 255 ==> (x + 1) as u8 == 0,
{
}

/// The 2 KiB internal RAM repeats every 0x800 bytes below 0x2000.
pub proof fn lemma_ram_mirror_step(k: u16)
    by (bit_vector)
    requires
        k < 0x1800,
    ensures
        ((k + 0x800) as u16) & 0x7FF == k & 0x7FF,
{
}

} // verus!
