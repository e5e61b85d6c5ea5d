use vstd::prelude::*;

verus! {

/// The master cycle counter. Each CPU cycle charged here is matched by
/// three PPU dots, which the CPU advances alongside this counter.
pub struct Clock {
    pub cycles: usize,
}

impl Clock {
    /// The reset sequence itself takes seven cycles, so the counter
    /// starts there.
    pub fn new() -> (r: Self)
        ensures
            r.cycles == 7usize,
    {
        Self { cycles: 7 }
    }

    pub fn reset(&mut self)
        ensures
            final(self).cycles == 7usize,
    {
        self.cycles = 7;
    }

    pub fn tick(&mut self, amount: usize)
        requires
            old(self).cycles + amount <= usize::MAX,
        ensures
            final(self).cycles == old(self).cycles + amount,
    {
        self.cycles = self.cycles + amount;
    }

    pub fn get_cycles(&self) -> (r: usize)
        ensures
            r == self.cycles,
    {
        self.cycles
    }
}

} // verus!
