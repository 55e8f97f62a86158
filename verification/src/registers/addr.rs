use vstd::prelude::*;

verus! {

/// The PPU address register (two write-latched bytes forming a 14-bit VRAM
/// pointer; values above 0x3FFF are masked down).
pub struct AddrRegister {
    pub hi: u8,
    pub lo: u8,
    pub hi_ptr: bool,
}

impl AddrRegister {
    /// The 16-bit pointer currently held.
    pub open spec fn spec_get(&self) -> u16 {
        (self.hi * 256 + self.lo) as u16
    }

    /// The pointer never exceeds the 14-bit VRAM space.
    pub open spec fn wf(&self) -> bool {
        self.hi < 64
    }

    pub fn new() -> (r: AddrRegister)
        ensures
            r.wf(),
            r.spec_get() == 0,
            r.hi_ptr,
    {
        AddrRegister { hi: 0, lo: 0, hi_ptr: true }
    }

    fn set(&mut self, data: u16)
        ensures
            final(self).spec_get() == data,
            final(self).hi == data / 256,
            final(self).hi_ptr == old(self).hi_ptr,
    {
        self.hi = (data / 256) as u8;
        self.lo = (data % 256) as u8;
    }

    /// One write of the two-write protocol: the first write sets the high
    /// byte, the second the low byte; the result is masked into 0..0x4000
    /// and the latch toggles.
    pub fn update(&mut self, data: u8)
        ensures
            final(self).wf(),
            final(self).spec_get() == (if old(self).hi_ptr {
                data * 256 + old(self).lo
            } else {
                old(self).hi * 256 + data
            }) % 0x4000,
            final(self).hi_ptr == !old(self).hi_ptr,
    {
        if self.hi_ptr {
            self.hi = data;
        } else {
            self.lo = data;
        }
        if self.get() > 0x3FFF {
            let g = self.get() % 0x4000;
            self.set(g);
        }
        self.hi_ptr = !self.hi_ptr;
    }

    /// Advance the pointer by the control register's increment step,
    /// wrapping within the 14-bit space.
    pub fn increment(&mut self, inc: u8)
        requires
            old(self).wf(),
        ensures
            final(self).wf(),
            final(self).spec_get() == (old(self).spec_get() + inc) % 0x4000,
            final(self).hi_ptr == old(self).hi_ptr,
    {
        let lo0 = self.lo;
        self.lo = self.lo.wrapping_add(inc);
        if lo0 > self.lo {
            self.hi = self.hi.wrapping_add(1);
        }
        if self.get() > 0x3FFF {
            let g = self.get() % 0x4000;
            self.set(g);
        }
    }

    /// Reading the status register resets the write latch to "high byte
    /// next".
    pub fn reset_latch(&mut self)
        ensures
            final(self).hi == old(self).hi,
            final(self).lo == old(self).lo,
            final(self).hi_ptr,
    {
        self.hi_ptr = true;
    }

    pub fn get(&self) -> (r: u16)
        ensures
            r == self.spec_get(),
    {
        (self.hi as u16) * 256 + (self.lo as u16)
    }
}

} // verus!
