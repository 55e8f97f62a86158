use vstd::prelude::*;

verus! {

// Status register layout: bits 0..=4 are open-bus, bit 5 sprite overflow,
// bit 6 sprite-zero hit, bit 7 vertical blank started.
pub struct StatusRegister {
    pub bits: u8,
}

impl StatusRegister {
    pub open spec fn spec_vblank(&self) -> bool {
        self.bits & 0x80 != 0
    }

    pub fn new() -> (r: StatusRegister)
        ensures
            r.bits == 0,
    {
        StatusRegister { bits: 0 }
    }

    /// The open-bus bits of the status register are not modeled.
    pub fn open_bus() {
    }

    pub fn set_sprite_overflow(&mut self, flag: bool)
        ensures
            final(self).bits == (if flag {
                old(self).bits | 0x20
            } else {
                old(self).bits & 0xDF
            }),
    {
        if flag {
            self.bits = self.bits | 0x20;
        } else {
            self.bits = self.bits & 0xDF;
        }
    }

    pub fn set_sprite_zero_hit(&mut self, flag: bool)
        ensures
            final(self).bits == (if flag {
                old(self).bits | 0x40
            } else {
                old(self).bits & 0xBF
            }),
    {
        if flag {
            self.bits = self.bits | 0x40;
        } else {
            self.bits = self.bits & 0xBF;
        }
    }

    pub fn set_vblank_started(&mut self, flag: bool)
        ensures
            final(self).bits == (if flag {
                old(self).bits | 0x80
            } else {
                old(self).bits & 0x7F
            }),
    {
        if flag {
            self.bits = self.bits | 0x80;
        } else {
            self.bits = self.bits & 0x7F;
        }
    }

    pub fn check_vblank_started(&self) -> (r: bool)
        ensures
            r == self.spec_vblank(),
    {
        self.bits & 0x80 != 0
    }

    pub fn reset_vblank_started(&mut self)
        ensures
            final(self).bits == old(self).bits & 0x7F,
    {
        self.bits = self.bits & 0x7F;
    }

    pub fn get_status(&self) -> (r: u8)
        ensures
            r == self.bits,
    {
        self.bits
    }
}

} // verus!
