use vstd::prelude::*;
use crate::cartridge::Mirroring;
use crate::registers::addr::AddrRegister;
use crate::registers::control::ControlRegister;
use crate::registers::mask::MaskRegister;
use crate::registers::oam::OamRegisters;
use crate::registers::scroll::ScrollRegister;
use crate::registers::status::StatusRegister;

verus! {

/// The picture processing unit: pattern ROM, nametable RAM, palette and
/// sprite memory, the six CPU-visible registers, and the scanline/dot
/// counter that raises the vertical-blank interrupt.
pub struct NesPPU {
    pub chr_rom: Vec<u8>,
    pub mirroring: Mirroring,
    pub vram: Vec<u8>,
    pub oam: OamRegisters,
    pub palette_table: Vec<u8>,
    pub internal_data_buf: u8,
    pub addr: AddrRegister,
    pub ctrl: ControlRegister,
    pub mask: MaskRegister,
    pub status: StatusRegister,
    pub scroll: ScrollRegister,
    pub scanline: u16,
    pub cycles: usize,
    pub nmi_interrupt: Option<u8>,
}

/// The register protocol seen from the bus. Both halves of this library's
/// machine implement their memory surface against an invariant; hosts can
/// substitute their own picture unit behind the same surface.
pub trait PPU {
    spec fn inv(&self) -> bool;

    fn write_to_ppu_addr(&mut self, value: u8)
        requires
            old(self).inv(),
        ensures
            final(self).inv(),
    ;

    fn write_to_ctrl(&mut self, value: u8)
        requires
            old(self).inv(),
        ensures
            final(self).inv(),
    ;

    fn read_data(&mut self) -> (r: u8)
        requires
            old(self).inv(),
        ensures
            final(self).inv(),
    ;

    fn write_to_mask(&mut self, value: u8)
        requires
            old(self).inv(),
        ensures
            final(self).inv(),
    ;

    fn read_status(&mut self) -> (r: u8)
        requires
            old(self).inv(),
        ensures
            final(self).inv(),
    ;

    fn write_to_scroll(&mut self, value: u8)
        requires
            old(self).inv(),
        ensures
            final(self).inv(),
    ;

    fn write_to_data(&mut self, value: u8)
        requires
            old(self).inv(),
        ensures
            final(self).inv(),
    ;

    fn write_to_oam_addr(&mut self, value: u8)
        requires
            old(self).inv(),
        ensures
            final(self).inv(),
    ;

    fn write_to_oam_data(&mut self, value: u8)
        requires
            old(self).inv(),
        ensures
            final(self).inv(),
    ;

    fn read_oam_data(&mut self) -> (r: u8)
        requires
            old(self).inv(),
        ensures
            final(self).inv(),
    ;

    fn write_oam_dma(&mut self, value: &[u8; 256])
        requires
            old(self).inv(),
        ensures
            final(self).inv(),
    ;
}

/// Where a nametable address lands in the 2KB of physical VRAM, after
/// folding the four logical tables per the cartridge's mirroring mode.
/// Four-screen leaves the upper two tables unfolded; they fall outside the
/// physical 2KB and are treated as an unimplemented region.
pub open spec fn mirror_spec(m: Mirroring, addr: u16) -> int {
    let mirrored = addr & 0x2FFF;
    let vram_index = mirrored - 0x2000;
    let name_table = vram_index / 0x400;
    if m == Mirroring::VERTICAL && (name_table == 2 || name_table == 3) {
        vram_index - 0x800
    } else if m == Mirroring::HORIZONTAL && (name_table == 1 || name_table == 2) {
        vram_index - 0x400
    } else if m == Mirroring::HORIZONTAL && name_table == 3 {
        vram_index - 0x800
    } else {
        vram_index
    }
}

/// Which palette byte a data-register access at `addr` (in 0x3F00..=0x3FFF)
/// touches: the mirror entries 0x3F10/14/18/1C fold onto the background
/// entries, and the 32-byte table repeats through the rest of the window.
pub open spec fn palette_index(addr: u16) -> int {
    if addr == 0x3F10 || addr == 0x3F14 || addr == 0x3F18 || addr == 0x3F1C {
        (addr - 0x3F10) as int
    } else {
        ((addr - 0x3F00) % 0x20) as int
    }
}

/// What a buffered data-register read returns: palette bytes come back
/// immediately, everything else returns the previous access's buffer.
/// Reads in the unused 0x3000..=0x3EFF window return a default 0.
pub open spec fn data_read_result(p: NesPPU) -> u8 {
    let a = p.addr.spec_get();
    if a < 0x3000 {
        p.internal_data_buf
    } else if a < 0x3F00 {
        0
    } else {
        p.palette_table@[palette_index(a)]
    }
}

/// What the one-byte read buffer holds after a data-register read.
pub open spec fn data_read_buf(p: NesPPU) -> u8 {
    let a = p.addr.spec_get();
    if a < 0x2000 {
        if a < p.chr_rom@.len() {
            p.chr_rom@[a as int]
        } else {
            0
        }
    } else if a < 0x3000 {
        if mirror_spec(p.mirroring, a) < 0x800 {
            p.vram@[mirror_spec(p.mirroring, a)]
        } else {
            0
        }
    } else {
        p.internal_data_buf
    }
}

/// The backing stores the CPU cannot touch through timing operations.
pub open spec fn stores_eq(a: NesPPU, b: NesPPU) -> bool {
    &&& a.chr_rom@ == b.chr_rom@
    &&& a.mirroring == b.mirroring
    &&& a.vram@ == b.vram@
    &&& a.palette_table@ == b.palette_table@
    &&& a.oam == b.oam
}

/// The scanline/dot counter and interrupt latch.
pub open spec fn timing_eq(a: NesPPU, b: NesPPU) -> bool {
    &&& a.scanline == b.scanline
    &&& a.cycles == b.cycles
    &&& a.nmi_interrupt == b.nmi_interrupt
}

/// The CPU-visible registers and the read buffer.
pub open spec fn regs_eq(a: NesPPU, b: NesPPU) -> bool {
    &&& a.addr == b.addr
    &&& a.ctrl == b.ctrl
    &&& a.mask == b.mask
    &&& a.status == b.status
    &&& a.scroll == b.scroll
    &&& a.internal_data_buf == b.internal_data_buf
}

/// How a status-register read changes the PPU: the status byte's blank flag
/// clears and both write latches reset; nothing else moves.
pub open spec fn status_read_rel(p0: NesPPU, p1: NesPPU) -> bool {
    &&& p1.status.bits == p0.status.bits & 0x7F
    &&& p1.addr.hi == p0.addr.hi
    &&& p1.addr.lo == p0.addr.lo
    &&& p1.addr.hi_ptr
    &&& p1.scroll.h_scroll == p0.scroll.h_scroll
    &&& p1.scroll.v_scroll == p0.scroll.v_scroll
    &&& !p1.scroll.latch
    &&& stores_eq(p0, p1)
    &&& timing_eq(p0, p1)
    &&& p1.ctrl == p0.ctrl
    &&& p1.mask == p0.mask
    &&& p1.internal_data_buf == p0.internal_data_buf
}

/// How a data-register read changes the PPU: the buffer reloads and the
/// address pointer steps; the backing stores stay put.
pub open spec fn data_read_rel(p0: NesPPU, p1: NesPPU) -> bool {
    &&& p1.internal_data_buf == data_read_buf(p0)
    &&& p1.addr.spec_get() == (p0.addr.spec_get() + p0.ctrl.spec_vram_addr_increment()) % 0x4000
    &&& p1.addr.hi_ptr == p0.addr.hi_ptr
    &&& stores_eq(p0, p1)
    &&& timing_eq(p0, p1)
    &&& p1.ctrl == p0.ctrl
    &&& p1.mask == p0.mask
    &&& p1.status == p0.status
    &&& p1.scroll == p0.scroll
}

/// How a data-register write changes the PPU: the byte lands in VRAM or
/// the palette table per the current pointer (pattern space and the unused
/// window ignore it), and the pointer steps.
pub open spec fn data_write_rel(p0: NesPPU, p1: NesPPU, value: u8) -> bool {
    &&& p1.vram@ == (if 0x2000 <= p0.addr.spec_get() < 0x3000 && mirror_spec(
        p0.mirroring,
        p0.addr.spec_get(),
    ) < 0x800 {
        p0.vram@.update(mirror_spec(p0.mirroring, p0.addr.spec_get()), value)
    } else {
        p0.vram@
    })
    &&& p1.palette_table@ == (if 0x3F00 <= p0.addr.spec_get() {
        p0.palette_table@.update(palette_index(p0.addr.spec_get()), value)
    } else {
        p0.palette_table@
    })
    &&& p1.addr.spec_get() == (p0.addr.spec_get() + p0.ctrl.spec_vram_addr_increment()) % 0x4000
    &&& p1.addr.hi_ptr == p0.addr.hi_ptr
    &&& p1.chr_rom@ == p0.chr_rom@
    &&& p1.mirroring == p0.mirroring
    &&& p1.oam == p0.oam
    &&& timing_eq(p0, p1)
    &&& p1.ctrl == p0.ctrl
    &&& p1.mask == p0.mask
    &&& p1.status == p0.status
    &&& p1.scroll == p0.scroll
    &&& p1.internal_data_buf == p0.internal_data_buf
}

/// How `dots` dot-ticks advance the timing state machine: the dot counter
/// wraps at 341 into the scanline counter; entering scanline 241 starts
/// vertical blank (latching an NMI if enabled); wrapping past scanline 261
/// ends the frame and clears the blank state.
pub open spec fn tick_rel(p0: NesPPU, p1: NesPPU, dots: int) -> bool {
    &&& stores_eq(p0, p1)
    &&& p1.addr == p0.addr
    &&& p1.ctrl == p0.ctrl
    &&& p1.mask == p0.mask
    &&& p1.scroll == p0.scroll
    &&& p1.internal_data_buf == p0.internal_data_buf
    &&& if p0.cycles + dots < 341 {
        &&& p1.cycles == p0.cycles + dots
        &&& p1.scanline == p0.scanline
        &&& p1.status == p0.status
        &&& p1.nmi_interrupt == p0.nmi_interrupt
    } else {
        &&& p1.cycles == p0.cycles + dots - 341
        &&& if p0.scanline + 1 == 241 {
            &&& p1.scanline == 241
            &&& p1.status.bits == (p0.status.bits | 0x80) & 0xBF
            &&& p1.nmi_interrupt == (if p0.ctrl.spec_generate_nmi() {
                Some(1u8)
            } else {
                p0.nmi_interrupt
            })
        } else if p0.scanline + 1 >= 262 {
            &&& p1.scanline == 0
            &&& p1.status.bits == p0.status.bits & 0x3F
            &&& p1.nmi_interrupt is None
        } else {
            &&& p1.scanline == p0.scanline + 1
            &&& p1.status == p0.status
            &&& p1.nmi_interrupt == p0.nmi_interrupt
        }
    }
}

pub(crate) fn zero_vec(n: usize) -> (r: Vec<u8>)
    ensures
        r@.len() == n,
        forall|i: int| 0 <= i < n ==> r@[i] == 0,
{
    let mut data: Vec<u8> = Vec::new();
    let mut i: usize = 0;
    while i < n
        invariant
            data@.len() == i,
            i <= n,
            forall|j: int| 0 <= j < i ==> data@[j] == 0,
        decreases n - i,
    {
        data.push(0);
        i = i + 1;
    }
    data
}

impl NesPPU {
    pub open spec fn wf(&self) -> bool {
        &&& self.vram@.len() == 2048
        &&& self.palette_table@.len() == 32
        &&& self.oam.wf()
        &&& self.addr.wf()
        &&& self.scanline < 262
        &&& self.cycles < 341
    }

    pub fn new_empty_rom() -> (r: NesPPU)
        ensures
            r.wf(),
            r.mirroring == Mirroring::HORIZONTAL,
            r.chr_rom@.len() == 2048,
            forall|i: int| 0 <= i < 2048 ==> r.chr_rom@[i] == 0,
            forall|i: int| 0 <= i < 2048 ==> r.vram@[i] == 0,
            forall|i: int| 0 <= i < 32 ==> r.palette_table@[i] == 0,
            forall|i: int| 0 <= i < 256 ==> r.oam.oam_data@[i] == 0,
            r.oam.oam_addr == 0,
            r.internal_data_buf == 0,
            r.addr.spec_get() == 0,
            r.addr.hi_ptr,
            r.ctrl.bits == 0,
            r.mask.bits == 0,
            r.status.bits == 0,
            r.scroll.h_scroll == 0 && r.scroll.v_scroll == 0 && !r.scroll.latch,
            r.scanline == 0,
            r.cycles == 0,
            (r.nmi_interrupt is None),
    {
        NesPPU::new(zero_vec(2048), Mirroring::HORIZONTAL)
    }

    pub fn new(chr_rom: Vec<u8>, mirroring: Mirroring) -> (r: NesPPU)
        ensures
            r.wf(),
            r.chr_rom@ == chr_rom@,
            r.mirroring == mirroring,
            forall|i: int| 0 <= i < 2048 ==> r.vram@[i] == 0,
            forall|i: int| 0 <= i < 32 ==> r.palette_table@[i] == 0,
            forall|i: int| 0 <= i < 256 ==> r.oam.oam_data@[i] == 0,
            r.oam.oam_addr == 0,
            r.internal_data_buf == 0,
            r.addr.spec_get() == 0,
            r.addr.hi_ptr,
            r.ctrl.bits == 0,
            r.mask.bits == 0,
            r.status.bits == 0,
            r.scroll.h_scroll == 0 && r.scroll.v_scroll == 0 && !r.scroll.latch,
            r.scanline == 0,
            r.cycles == 0,
            (r.nmi_interrupt is None),
    {
        NesPPU {
            chr_rom,
            mirroring,
            vram: zero_vec(2048),
            oam: OamRegisters::new(),
            palette_table: zero_vec(32),
            internal_data_buf: 0,
            addr: AddrRegister::new(),
            ctrl: ControlRegister::new(),
            mask: MaskRegister::new(),
            status: StatusRegister::new(),
            scroll: ScrollRegister::new(),
            scanline: 0,
            cycles: 0,
            nmi_interrupt: None,
        }
    }

    fn increment_vram_addr(&mut self)
        requires
            old(self).addr.wf(),
        ensures
            final(self).addr.spec_get() == (old(self).addr.spec_get()
                + old(self).ctrl.spec_vram_addr_increment()) % 0x4000,
            final(self).addr.wf(),
            final(self).addr.hi_ptr == old(self).addr.hi_ptr,
            *final(self) == (NesPPU { addr: final(self).addr, ..*old(self) }),
    {
        let inc = self.ctrl.vram_addr_increment();
        self.addr.increment(inc);
    }

    /// Fold a nametable address (bit 13 set) onto the physical 2KB window.
    pub fn mirror_vram_addr(&self, addr: u16) -> (r: u16)
        requires
            addr & 0x2000 != 0,
        ensures
            r == mirror_spec(self.mirroring, addr),
            r < 0x1000,
            self.mirroring != Mirroring::FOUR_SCREEN ==> r < 0x800,
    {
        proof {
            assert(addr & 0x2FFF <= 0x2FFF && (addr & 0x2000 != 0 ==> addr & 0x2FFF >= 0x2000))
                by (bit_vector);
        }
        let mirrored: u16 = addr & 0x2FFF;
        let vram_index: u16 = mirrored - 0x2000;
        let name_table: u16 = vram_index / 0x400;
        match (&self.mirroring, name_table) {
            (Mirroring::VERTICAL, 2) | (Mirroring::VERTICAL, 3) => vram_index - 0x800,
            (Mirroring::HORIZONTAL, 2) => vram_index - 0x400,
            (Mirroring::HORIZONTAL, 1) => vram_index - 0x400,
            (Mirroring::HORIZONTAL, 3) => vram_index - 0x800,
            _ => vram_index,
        }
    }

    /// Advance the dot counter. Returns true exactly when a frame ended
    /// (the scanline counter wrapped past 261).
    pub fn tick(&mut self, cycles: u8) -> (frame: bool)
        requires
            old(self).wf(),
        ensures
            final(self).wf(),
            tick_rel(*old(self), *final(self), cycles as int),
            frame == (old(self).cycles + cycles >= 341 && old(self).scanline + 1 >= 262),
    {
        self.cycles = self.cycles + cycles as usize;
        if self.cycles >= 341 {
            self.cycles = self.cycles - 341;
            self.scanline = self.scanline + 1;

            if self.scanline == 241 {
                self.status.set_vblank_started(true);
                self.status.set_sprite_zero_hit(false);
                if self.ctrl.generate_nmi() {
                    self.nmi_interrupt = Some(1);
                }
            }

            if self.scanline >= 262 {
                self.scanline = 0;
                self.nmi_interrupt = None;
                self.status.set_sprite_zero_hit(false);
                self.status.reset_vblank_started();
                proof {
                    let b0 = old(self).status.bits;
                    assert((b0 & 0xBF) & 0x7F == b0 & 0x3F) by (bit_vector);
                }
                return true;
            }
        }
        false
    }

    /// Take the pending interrupt: each assertion is consumed exactly once.
    pub fn poll_nmi_interrupt(&mut self) -> (r: Option<u8>)
        ensures
            r == old(self).nmi_interrupt,
            (final(self).nmi_interrupt is None),
            *final(self) == (NesPPU { nmi_interrupt: None, ..*old(self) }),
    {
        let r = self.nmi_interrupt;
        self.nmi_interrupt = None;
        r
    }

    /// One write of the address register's two-write protocol.
    pub fn write_to_ppu_addr(&mut self, value: u8)
        requires
            old(self).wf(),
        ensures
            final(self).wf(),
            final(self).addr.spec_get() == (if old(self).addr.hi_ptr {
                value * 256 + old(self).addr.lo
            } else {
                old(self).addr.hi * 256 + value
            }) % 0x4000,
            final(self).addr.hi_ptr == !old(self).addr.hi_ptr,
            *final(self) == (NesPPU { addr: final(self).addr, ..*old(self) }),
    {
        self.addr.update(value);
    }

    /// Write the control register; enabling NMI generation while vertical
    /// blank is already active latches an interrupt immediately.
    pub fn write_to_ctrl(&mut self, value: u8)
        requires
            old(self).wf(),
        ensures
            final(self).wf(),
            final(self).ctrl.bits == value,
            final(self).nmi_interrupt == (if !old(self).ctrl.spec_generate_nmi() && (value & 0x80
                != 0) && old(self).status.spec_vblank() {
                Some(1u8)
            } else {
                old(self).nmi_interrupt
            }),
            *final(self) == (NesPPU { ctrl: final(self).ctrl, nmi_interrupt: final(self).nmi_interrupt, ..*old(self) }),
    {
        let before_nmi_status = self.ctrl.generate_nmi();
        self.ctrl.update(value);
        if !before_nmi_status && self.ctrl.generate_nmi() && self.status.check_vblank_started() {
            self.nmi_interrupt = Some(1);
        }
    }

    /// Buffered read through the data register: pattern and nametable space
    /// return the previous access's byte, palette space reads immediately;
    /// the address register then steps by the configured increment.
    pub fn read_data(&mut self) -> (r: u8)
        requires
            old(self).wf(),
        ensures
            final(self).wf(),
            r == data_read_result(*old(self)),
            data_read_rel(*old(self), *final(self)),
            final(self).internal_data_buf == data_read_buf(*old(self)),
            final(self).addr.spec_get() == (old(self).addr.spec_get()
                + old(self).ctrl.spec_vram_addr_increment()) % 0x4000,
            final(self).addr.hi_ptr == old(self).addr.hi_ptr,
            stores_eq(*old(self), *final(self)),
            timing_eq(*old(self), *final(self)),
            final(self).ctrl == old(self).ctrl,
            final(self).mask == old(self).mask,
            final(self).status == old(self).status,
            final(self).scroll == old(self).scroll,
    {
        let addr = self.addr.get();
        self.increment_vram_addr();

        if addr < 0x2000 {
            let result = self.internal_data_buf;
            self.internal_data_buf = if (addr as usize) < self.chr_rom.len() {
                self.chr_rom[addr as usize]
            } else {
                0
            };
            result
        } else if addr < 0x3000 {
            let result = self.internal_data_buf;
            proof {
                assert(0x2000 <= addr < 0x3000 ==> addr & 0x2000 != 0) by (bit_vector);
            }
            let mirrored = self.mirror_vram_addr(addr);
            self.internal_data_buf = if mirrored < 0x800 {
                self.vram[mirrored as usize]
            } else {
                0
            };
            result
        } else if addr < 0x3F00 {
            // Unused window below the palettes: an unimplemented region,
            // reads return a default value.
            0
        } else {
            let idx = if addr == 0x3F10 || addr == 0x3F14 || addr == 0x3F18 || addr == 0x3F1C {
                (addr - 0x3F10) as usize
            } else {
                ((addr - 0x3F00) % 0x20) as usize
            };
            self.palette_table[idx]
        }
    }

    pub fn write_to_mask(&mut self, value: u8)
        requires
            old(self).wf(),
        ensures
            final(self).wf(),
            final(self).mask.bits == value,
            *final(self) == (NesPPU { mask: final(self).mask, ..*old(self) }),
    {
        self.mask.update(value);
    }

    /// Read the status register: returns the byte, then clears the
    /// vertical-blank flag and resets the two write latches.
    pub fn read_status(&mut self) -> (r: u8)
        requires
            old(self).wf(),
        ensures
            final(self).wf(),
            r == old(self).status.bits,
            status_read_rel(*old(self), *final(self)),
            final(self).status.bits == old(self).status.bits & 0x7F,
            final(self).addr.hi == old(self).addr.hi,
            final(self).addr.lo == old(self).addr.lo,
            final(self).addr.hi_ptr,
            final(self).scroll.h_scroll == old(self).scroll.h_scroll,
            final(self).scroll.v_scroll == old(self).scroll.v_scroll,
            !final(self).scroll.latch,
            stores_eq(*old(self), *final(self)),
            timing_eq(*old(self), *final(self)),
            final(self).ctrl == old(self).ctrl,
            final(self).mask == old(self).mask,
            final(self).internal_data_buf == old(self).internal_data_buf,
    {
        let data = self.status.get_status();
        self.status.reset_vblank_started();
        self.addr.reset_latch();
        self.scroll.reset_latch();
        data
    }

    pub fn write_to_scroll(&mut self, value: u8)
        requires
            old(self).wf(),
        ensures
            final(self).wf(),
            final(self).scroll.h_scroll == (if !old(self).scroll.latch {
                value
            } else {
                old(self).scroll.h_scroll
            }),
            final(self).scroll.v_scroll == (if old(self).scroll.latch {
                value
            } else {
                old(self).scroll.v_scroll
            }),
            final(self).scroll.latch == !old(self).scroll.latch,
            *final(self) == (NesPPU { scroll: final(self).scroll, ..*old(self) }),
    {
        self.scroll.write(value);
    }

    pub fn write_to_oam_addr(&mut self, value: u8)
        requires
            old(self).wf(),
        ensures
            final(self).wf(),
            final(self).oam.oam_addr == value,
            final(self).oam.oam_data == old(self).oam.oam_data,
            *final(self) == (NesPPU { oam: final(self).oam, ..*old(self) }),
    {
        self.oam.write_addr(value);
    }

    pub fn write_to_oam_data(&mut self, value: u8)
        requires
            old(self).wf(),
        ensures
            final(self).wf(),
            final(self).oam.oam_data@ == old(self).oam.oam_data@.update(
                old(self).oam.oam_addr as int,
                value,
            ),
            final(self).oam.oam_addr == (old(self).oam.oam_addr + 1) % 256,
            *final(self) == (NesPPU { oam: final(self).oam, ..*old(self) }),
    {
        self.oam.write_data(value);
    }

    /// Read sprite memory at the cursor; the cursor does not advance.
    pub fn read_oam_data(&self) -> (r: u8)
        requires
            self.wf(),
        ensures
            r == self.oam.oam_data@[self.oam.oam_addr as int],
    {
        self.oam.get_data()
    }

    /// Fill sprite memory with a 256-byte page, starting at the cursor and
    /// wrapping; the cursor comes back to where it started.
    pub fn write_oam_dma(&mut self, data: &[u8; 256])
        requires
            old(self).wf(),
        ensures
            final(self).wf(),
            final(self).oam.oam_addr == old(self).oam.oam_addr,
            forall|k: int|
                0 <= k < 256 ==> final(self).oam.oam_data@[k] == data@[(k
                    - old(self).oam.oam_addr + 256) % 256],
            *final(self) == (NesPPU { oam: final(self).oam, ..*old(self) }),
    {
        self.oam.write_dma(data);
    }

    /// Write through the data register into VRAM or the palette table, then
    /// step the address register. Pattern space is read-only and the unused
    /// 0x3000..=0x3EFF window is unimplemented: such writes are ignored.
    pub fn write_to_data(&mut self, value: u8)
        requires
            old(self).wf(),
        ensures
            final(self).wf(),
            data_write_rel(*old(self), *final(self), value),
            final(self).vram@ == (if 0x2000 <= old(self).addr.spec_get() < 0x3000 && mirror_spec(
                old(self).mirroring,
                old(self).addr.spec_get(),
            ) < 0x800 {
                old(self).vram@.update(
                    mirror_spec(old(self).mirroring, old(self).addr.spec_get()),
                    value,
                )
            } else {
                old(self).vram@
            }),
            final(self).palette_table@ == (if 0x3F00 <= old(self).addr.spec_get() {
                old(self).palette_table@.update(palette_index(old(self).addr.spec_get()), value)
            } else {
                old(self).palette_table@
            }),
            final(self).addr.spec_get() == (old(self).addr.spec_get()
                + old(self).ctrl.spec_vram_addr_increment()) % 0x4000,
            final(self).addr.hi_ptr == old(self).addr.hi_ptr,
            final(self).chr_rom@ == old(self).chr_rom@,
            final(self).mirroring == old(self).mirroring,
            final(self).oam == old(self).oam,
            timing_eq(*old(self), *final(self)),
            final(self).ctrl == old(self).ctrl,
            final(self).mask == old(self).mask,
            final(self).status == old(self).status,
            final(self).scroll == old(self).scroll,
            final(self).internal_data_buf == old(self).internal_data_buf,
    {
        let addr = self.addr.get();
        if addr < 0x2000 {
            // Pattern space comes from CHR ROM: the write is ignored.
        } else if addr < 0x3000 {
            proof {
                assert(0x2000 <= addr < 0x3000 ==> addr & 0x2000 != 0) by (bit_vector);
            }
            let mirrored = self.mirror_vram_addr(addr);
            if mirrored < 0x800 {
                self.vram.set(mirrored as usize, value);
            }
        } else if addr < 0x3F00 {
            // Unused window below the palettes: the write is ignored.
        } else {
            let idx = if addr == 0x3F10 || addr == 0x3F14 || addr == 0x3F18 || addr == 0x3F1C {
                (addr - 0x3F10) as usize
            } else {
                ((addr - 0x3F00) % 0x20) as usize
            };
            self.palette_table.set(idx, value);
        }
        self.increment_vram_addr();
    }
}

impl PPU for NesPPU {
    open spec fn inv(&self) -> bool {
        self.wf()
    }

    fn write_to_ppu_addr(&mut self, value: u8) {
        NesPPU::write_to_ppu_addr(self, value)
    }

    fn write_to_ctrl(&mut self, value: u8) {
        NesPPU::write_to_ctrl(self, value)
    }

    fn read_data(&mut self) -> u8 {
        NesPPU::read_data(self)
    }

    fn write_to_mask(&mut self, value: u8) {
        NesPPU::write_to_mask(self, value)
    }

    fn read_status(&mut self) -> u8 {
        NesPPU::read_status(self)
    }

    fn write_to_scroll(&mut self, value: u8) {
        NesPPU::write_to_scroll(self, value)
    }

    fn write_to_data(&mut self, value: u8) {
        NesPPU::write_to_data(self, value)
    }

    fn write_to_oam_addr(&mut self, value: u8) {
        NesPPU::write_to_oam_addr(self, value)
    }

    fn write_to_oam_data(&mut self, value: u8) {
        NesPPU::write_to_oam_data(self, value)
    }

    fn read_oam_data(&mut self) -> u8 {
        NesPPU::read_oam_data(self)
    }

    fn write_oam_dma(&mut self, value: &[u8; 256]) {
        NesPPU::write_oam_dma(self, value)
    }
}

} // verus!
