use vstd::prelude::*;

verus! {

// Control register layout (one bit per toggle, low to high): two base
// nametable bits, VRAM increment step, sprite pattern bank, background
// pattern bank, sprite size, master/slave select, NMI generation.
pub struct ControlRegister {
    pub bits: u8,
}

impl ControlRegister {
    /// Whether the register asks for an NMI at the start of vertical blank.
    pub open spec fn spec_generate_nmi(&self) -> bool {
        self.bits & 0x80 != 0
    }

    /// The VRAM pointer step applied after each data-register access.
    pub open spec fn spec_vram_addr_increment(&self) -> u8 {
        if self.bits & 0x04 != 0 {
            32
        } else {
            1
        }
    }

    pub fn new() -> (r: ControlRegister)
        ensures
            r.bits == 0,
    {
        ControlRegister { bits: 0 }
    }

    pub fn base_nametable_addr(&self) -> (r: u16)
        ensures
            r == (if self.bits & 0x03 == 0 {
                0x2000u16
            } else if self.bits & 0x03 == 1 {
                0x2400u16
            } else if self.bits & 0x03 == 2 {
                0x2800u16
            } else {
                0x2C00u16
            }),
    {
        let nt = self.bits & 0x03;
        if nt == 0 {
            0x2000
        } else if nt == 1 {
            0x2400
        } else if nt == 2 {
            0x2800
        } else {
            0x2C00
        }
    }

    pub fn vram_addr_increment(&self) -> (r: u8)
        ensures
            r == self.spec_vram_addr_increment(),
    {
        if self.bits & 0x04 != 0 {
            32
        } else {
            1
        }
    }

    pub fn sprite_pattern_addr(&self) -> (r: u16)
        ensures
            r == (if self.bits & 0x08 != 0 {
                0x1000u16
            } else {
                0u16
            }),
    {
        if self.bits & 0x08 != 0 {
            0x1000
        } else {
            0
        }
    }

    pub fn backround_pattern_addr(&self) -> (r: u16)
        ensures
            r == (if self.bits & 0x10 != 0 {
                0x1000u16
            } else {
                0u16
            }),
    {
        if self.bits & 0x10 != 0 {
            0x1000
        } else {
            0
        }
    }

    pub fn sprite_size(&self) -> (r: u8)
        ensures
            r == (if self.bits & 0x20 != 0 {
                16u8
            } else {
                8u8
            }),
    {
        if self.bits & 0x20 != 0 {
            16
        } else {
            8
        }
    }

    pub fn master_slave_select(&self) -> (r: u8)
        ensures
            r == (if self.bits & 0x40 != 0 {
                1u8
            } else {
                0u8
            }),
    {
        if self.bits & 0x40 != 0 {
            1
        } else {
            0
        }
    }

    pub fn generate_nmi(&self) -> (r: bool)
        ensures
            r == self.spec_generate_nmi(),
    {
        self.bits & 0x80 != 0
    }

    pub fn update(&mut self, data: u8)
        ensures
            final(self).bits == data,
    {
        self.bits = data;
    }
}

} // verus!
