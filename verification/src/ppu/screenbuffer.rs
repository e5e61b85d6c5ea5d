use vstd::prelude::*;

verus! {

/// A row-major byte framebuffer of palette indices.
pub struct ScreenBuffer {
    pub width: usize,
    pub buffer: Vec<u8>,
}

impl ScreenBuffer {
    pub fn new(width: usize, height: usize) -> (r: Self)
        requires
            width * height <= usize::MAX,
        ensures
            r.width == width,
            r.buffer@.len() == width * height,
            forall|i: int| 0 <= i < width * height ==> r.buffer@[i] == 0u8,
    {
        let total: usize = width * height;
        let mut buffer: Vec<u8> = Vec::new();
        let mut i: usize = 0;
        while i < total
            invariant
                buffer@.len() == i,
                i <= total,
                forall|j: int| 0 <= j < i ==> buffer@[j] == 0u8,
            decreases total - i,
        {
            buffer.push(0);
            i = i + 1;
        }
        Self { width, buffer }
    }

    /// Stores `color` at (x, y); a position beyond the buffer is
    /// silently dropped.
    pub fn set_pixel(&mut self, x: usize, y: usize, color: u8)
        requires
            y * old(self).width + x <= usize::MAX,
        ensures
            final(self).width == old(self).width,
            y * old(self).width + x < old(self).buffer@.len() ==> final(self).buffer@ == old(self).buffer@.update(y * old(self).width + x, color),
            y * old(self).width + x >= old(self).buffer@.len() ==> final(self).buffer@ == old(self).buffer@,
    {
        let width: usize = self.width;
        proof {
            assert(width == old(self).width);
            assert(y * width + x <= usize::MAX);
        }
        let index: usize = y * width + x;
        if index < self.buffer.len() {
            self.buffer[index] = color;
        }
    }

    pub fn get_pixel(&self, x: usize, y: usize) -> (r: u8)
        requires
            y * self.width + x < self.buffer@.len(),
        ensures
            r == self.buffer@[y * self.width + x],
    {
        let buffer_len: usize = self.buffer.len();
        let index: usize = y * self.width + x;
        self.buffer[index]
    }
}

} // verus!
