use vstd::prelude::*;

verus! {

// Mask register layout (low to high): greyscale, show background in the
// left column, show sprites in the left column, show background, show
// sprites, emphasize red, emphasize green, emphasize blue.
pub struct MaskRegister {
    pub bits: u8,
}

#[derive(Debug, PartialEq, Eq, Clone, Copy, Structural)]
pub enum Color {
    Red,
    Green,
    Blue,
}

/// The colour-emphasis channels selected by a mask byte, in the order the
/// register reports them: red, then blue, then green.
pub open spec fn emphasis_seq(bits: u8) -> Seq<Color> {
    (if bits & 0x20 != 0 {
        seq![Color::Red]
    } else {
        Seq::empty()
    }) + (if bits & 0x80 != 0 {
        seq![Color::Blue]
    } else {
        Seq::empty()
    }) + (if bits & 0x40 != 0 {
        seq![Color::Green]
    } else {
        Seq::empty()
    })
}

impl MaskRegister {
    pub fn new() -> (r: MaskRegister)
        ensures
            r.bits == 0,
    {
        MaskRegister { bits: 0 }
    }

    pub fn check_gray_scale(&self) -> (r: u8)
        ensures
            r == (if self.bits & 0x01 != 0 {
                1u8
            } else {
                0u8
            }),
    {
        if self.bits & 0x01 != 0 {
            1
        } else {
            0
        }
    }

    pub fn check_show_background_left(&self) -> (r: u8)
        ensures
            r == (if self.bits & 0x02 != 0 {
                1u8
            } else {
                0u8
            }),
    {
        if self.bits & 0x02 != 0 {
            1
        } else {
            0
        }
    }

    pub fn check_show_sprite_left(&self) -> (r: u8)
        ensures
            r == (if self.bits & 0x04 != 0 {
                1u8
            } else {
                0u8
            }),
    {
        if self.bits & 0x04 != 0 {
            1
        } else {
            0
        }
    }

    pub fn check_show_background(&self) -> (r: u8)
        ensures
            r == (if self.bits & 0x08 != 0 {
                1u8
            } else {
                0u8
            }),
    {
        if self.bits & 0x08 != 0 {
            1
        } else {
            0
        }
    }

    pub fn emphasize_red(&self) -> (r: Vec<Color>)
        ensures
            r@ == emphasis_seq(self.bits),
    {
        let mut res = Vec::<Color>::new();
        if self.bits & 0x20 != 0 {
            res.push(Color::Red);
        }
        if self.bits & 0x80 != 0 {
            res.push(Color::Blue);
        }
        if self.bits & 0x40 != 0 {
            res.push(Color::Green);
        }
        proof {
            assert(res@ =~= emphasis_seq(self.bits));
        }
        res
    }

    pub fn update(&mut self, data: u8)
        ensures
            final(self).bits == data,
    {
        self.bits = data;
    }
}

} // verus!
