use vstd::prelude::*;

verus! {

/// The scroll register: two latched writes set the horizontal, then the
/// vertical offset.
pub struct ScrollRegister {
    pub h_scroll: u8,
    pub v_scroll: u8,
    pub latch: bool,
}

impl ScrollRegister {
    pub fn new() -> (r: ScrollRegister)
        ensures
            r.h_scroll == 0,
            r.v_scroll == 0,
            !r.latch,
    {
        ScrollRegister { h_scroll: 0, v_scroll: 0, latch: false }
    }

    pub fn write(&mut self, data: u8)
        ensures
            final(self).h_scroll == (if !old(self).latch {
                data
            } else {
                old(self).h_scroll
            }),
            final(self).v_scroll == (if old(self).latch {
                data
            } else {
                old(self).v_scroll
            }),
            final(self).latch == !old(self).latch,
    {
        if !self.latch {
            self.h_scroll = data;
        } else {
            self.v_scroll = data;
        }
        self.latch = !self.latch;
    }

    /// Reading the status register resets the shared write latch.
    pub fn reset_latch(&mut self)
        ensures
            final(self).h_scroll == old(self).h_scroll,
            final(self).v_scroll == old(self).v_scroll,
            !final(self).latch,
    {
        self.latch = false;
    }
}

} // verus!
