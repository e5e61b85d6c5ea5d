use vstd::prelude::*;

verus! {

/// The transient pixel-pipeline state: the bytes of the tile being
/// fetched, the background shift registers, and the sprite shifters
/// selected for the current scanline.
pub struct ScreenState {
    pub bg_next_tile_id: u8,
    pub bg_next_tile_attribute: u8,
    pub bg_next_tile_lsb: u8,
    pub bg_next_tile_msb: u8,
    pub bg_shift_pattern_lo: u16,
    pub bg_shift_pattern_hi: u16,
    pub bg_shift_attribute_lo: u16,
    pub bg_shift_attribute_hi: u16,
    pub sprite_shift_pattern_lo: Vec<u8>,
    pub sprite_shift_pattern_hi: Vec<u8>,
    pub sprite_count: u8,
    pub sprite_zero_occured: bool,
    pub sprite_zero_rendering: bool,
}

impl ScreenState {
    /// Both sprite shifter files hold one byte per possible sprite.
    pub open spec fn wf(&self) -> bool {
        &&& self.sprite_shift_pattern_lo@.len() == 8
        &&& self.sprite_shift_pattern_hi@.len() == 8
    }

    pub fn new() -> (r: Self)
        ensures
            r.wf(),
            r.bg_next_tile_id == 0u8,
            r.bg_next_tile_attribute == 0u8,
            r.bg_next_tile_lsb == 0u8,
            r.bg_next_tile_msb == 0u8,
            r.bg_shift_pattern_lo == 0u16,
            r.bg_shift_pattern_hi == 0u16,
            r.bg_shift_attribute_lo == 0u16,
            r.bg_shift_attribute_hi == 0u16,
            forall|i: int| 0 <= i < 8 ==> r.sprite_shift_pattern_lo@[i] == 0u8,
            forall|i: int| 0 <= i < 8 ==> r.sprite_shift_pattern_hi@[i] == 0u8,
            r.sprite_count == 0u8,
            !r.sprite_zero_occured,
            !r.sprite_zero_rendering,
    {
        let mut sprite_shift_pattern_lo: Vec<u8> = Vec::new();
        let mut i: usize = 0;
        while i < 8
            invariant
                sprite_shift_pattern_lo@.len() == i,
                i <= 8,
                forall|j: int| 0 <= j < i ==> sprite_shift_pattern_lo@[j] == 0u8,
            decreases 8 - i,
        {
            sprite_shift_pattern_lo.push(0);
            i = i + 1;
        }
        let mut sprite_shift_pattern_hi: Vec<u8> = Vec::new();
        let mut k: usize = 0;
        while k < 8
            invariant
                sprite_shift_pattern_hi@.len() == k,
                k <= 8,
                forall|j: int| 0 <= j < k ==> sprite_shift_pattern_hi@[j] == 0u8,
            decreases 8 - k,
        {
            sprite_shift_pattern_hi.push(0);
            k = k + 1;
        }
        Self {
            bg_next_tile_id: 0,
            bg_next_tile_attribute: 0,
            bg_next_tile_lsb: 0,
            bg_next_tile_msb: 0,
            bg_shift_pattern_lo: 0,
            bg_shift_pattern_hi: 0,
            bg_shift_attribute_lo: 0,
            bg_shift_attribute_hi: 0,
            sprite_shift_pattern_lo,
            sprite_shift_pattern_hi,
            sprite_count: 0,
            sprite_zero_occured: false,
            sprite_zero_rendering: false,
        }
    }
}

} // verus!
