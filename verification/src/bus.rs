use vstd::prelude::*;
use crate::cartridge::Rom;
use crate::errors::EmuError;
use crate::ppu::NesPPU;
use crate::ppu;

verus! {

// Region map of the 16-bit CPU address space:
//   0x0000..=0x1FFF   2KB work RAM, mirrored every 0x0800
//   0x2000..=0x3FFF   8 PPU registers, mirrored every 8 bytes
//   0x4000..=0x4015   unimplemented audio space (0x4014 is OAM DMA)
//   0x4016            input-device latch
//   0x4017..=0x7FFF   unimplemented
//   0x8000..=0xFFFF   PRG ROM (a 16KB image is mirrored into both halves)

/// The address bus: owns the work RAM, the cartridge's PRG image, the PPU,
/// the master cycle counter and the input-device latch; every CPU access
/// routes through it.
pub struct Bus {
    pub cpu_vram: Vec<u8>,
    pub prg_rom: Vec<u8>,
    pub ppu: NesPPU,
    pub cycles: u64,
    pub input_latch: u8,
    pub frame_pending: bool,
}

/// True of the addresses whose reads leave the machine unchanged. Only the
/// PPU status and data registers (and their mirrors) have read side
/// effects.
pub open spec fn quiet(addr: u16) -> bool {
    !(0x2000 <= addr <= 0x3FFF && (addr % 8 == 2 || addr % 8 == 7))
}

/// Both bytes of a 16-bit read are side-effect free.
pub open spec fn quiet16(pos: u16) -> bool {
    quiet(pos) && quiet(((pos + 1) % 0x10000) as u16)
}

/// The PRG ROM byte visible at `addr` (for addr in the ROM window): a
/// single 16KB bank repeats through the 32KB window.
pub open spec fn prg_byte(b: Bus, addr: u16) -> u8 {
    if b.prg_rom@.len() == 0x4000 {
        b.prg_rom@[(addr - 0x8000) % 0x4000]
    } else {
        b.prg_rom@[addr - 0x8000]
    }
}

/// The byte a read at `addr` returns, as a function of the current state.
/// Write-only PPU registers and unimplemented regions read as 0; the PPU
/// data register position reads as the buffered result it would return.
pub open spec fn bus_peek(b: Bus, addr: u16) -> u8 {
    if addr < 0x2000 {
        b.cpu_vram@[addr as int % 0x800]
    } else if addr <= 0x3FFF {
        if addr % 8 == 2 {
            b.ppu.status.bits
        } else if addr % 8 == 4 {
            b.ppu.oam.oam_data@[b.ppu.oam.oam_addr as int]
        } else if addr % 8 == 7 {
            ppu::data_read_result(b.ppu)
        } else {
            0
        }
    } else if addr == 0x4016 {
        b.input_latch
    } else if addr < 0x8000 {
        0
    } else {
        prg_byte(b, addr)
    }
}

/// The two little-endian bytes at `pos`, the second read at the wrapped
/// successor address.
pub open spec fn bus_peek16(b: Bus, pos: u16) -> u16 {
    (bus_peek(b, pos) + 256 * bus_peek(b, ((pos + 1) % 0x10000) as u16)) as u16
}

/// Everything of the bus but the PPU.
pub open spec fn bus_frame_eq(a: Bus, b: Bus) -> bool {
    &&& a.cpu_vram@ == b.cpu_vram@
    &&& a.prg_rom@ == b.prg_rom@
    &&& a.cycles == b.cycles
    &&& a.input_latch == b.input_latch
    &&& a.frame_pending == b.frame_pending
}

/// How a write of `data` at `addr` moves the bus: RAM and the PPU
/// registers by region, the DMA and input registers specially, ROM and
/// unimplemented space not at all.
pub open spec fn bus_write_rel(b0: Bus, b1: Bus, addr: u16, data: u8) -> bool {
    &&& addr >= 0x8000 ==> b1 == b0
    &&& addr < 0x2000 ==> (b1.cpu_vram@ == b0.cpu_vram@.update(addr as int % 0x800, data) && b1
        == (Bus { cpu_vram: b1.cpu_vram, ..b0 }))
    &&& (0x2000 <= addr <= 0x3FFF) ==> b1 == (Bus { ppu: b1.ppu, ..b0 })
    &&& (0x2000 <= addr <= 0x3FFF && addr % 8 == 0) ==> (b1.ppu.ctrl.bits == data
        && b1.ppu.nmi_interrupt == (if !b0.ppu.ctrl.spec_generate_nmi() && (data & 0x80 != 0)
        && b0.ppu.status.spec_vblank() {
        Some(1u8)
    } else {
        b0.ppu.nmi_interrupt
    }) && b1.ppu == (NesPPU {
        ctrl: b1.ppu.ctrl,
        nmi_interrupt: b1.ppu.nmi_interrupt,
        ..b0.ppu
    }))
    &&& (0x2000 <= addr <= 0x3FFF && addr % 8 == 1) ==> (b1.ppu.mask.bits == data && b1.ppu
        == (NesPPU { mask: b1.ppu.mask, ..b0.ppu }))
    &&& (0x2000 <= addr <= 0x3FFF && addr % 8 == 2) ==> b1.ppu == b0.ppu
    &&& (0x2000 <= addr <= 0x3FFF && addr % 8 == 3) ==> (b1.ppu.oam.oam_addr == data
        && b1.ppu.oam.oam_data == b0.ppu.oam.oam_data && b1.ppu == (NesPPU {
        oam: b1.ppu.oam,
        ..b0.ppu
    }))
    &&& (0x2000 <= addr <= 0x3FFF && addr % 8 == 4) ==> (b1.ppu.oam.oam_data@
        == b0.ppu.oam.oam_data@.update(b0.ppu.oam.oam_addr as int, data) && b1.ppu.oam.oam_addr
        == (b0.ppu.oam.oam_addr + 1) % 256 && b1.ppu == (NesPPU { oam: b1.ppu.oam, ..b0.ppu }))
    &&& (0x2000 <= addr <= 0x3FFF && addr % 8 == 5) ==> (b1.ppu.scroll.h_scroll == (
    if !b0.ppu.scroll.latch {
        data
    } else {
        b0.ppu.scroll.h_scroll
    }) && b1.ppu.scroll.v_scroll == (if b0.ppu.scroll.latch {
        data
    } else {
        b0.ppu.scroll.v_scroll
    }) && b1.ppu.scroll.latch == !b0.ppu.scroll.latch && b1.ppu == (NesPPU {
        scroll: b1.ppu.scroll,
        ..b0.ppu
    }))
    &&& (0x2000 <= addr <= 0x3FFF && addr % 8 == 6) ==> (b1.ppu.addr.spec_get() == (
    if b0.ppu.addr.hi_ptr {
        data * 256 + b0.ppu.addr.lo
    } else {
        b0.ppu.addr.hi * 256 + data
    }) % 0x4000 && b1.ppu.addr.hi_ptr == !b0.ppu.addr.hi_ptr && b1.ppu == (NesPPU {
        addr: b1.ppu.addr,
        ..b0.ppu
    }))
    &&& (0x2000 <= addr <= 0x3FFF && addr % 8 == 7) ==> ppu::data_write_rel(b0.ppu, b1.ppu, data)
    &&& (0x4000 <= addr < 0x8000 && addr != 0x4014 && addr != 0x4016) ==> b1 == b0
    &&& addr == 0x4016 ==> b1 == (Bus { input_latch: data, ..b0 })
    &&& addr == 0x4014 ==> (b1.ppu.oam.oam_addr == b0.ppu.oam.oam_addr && (forall|k: int|
        0 <= k < 256 ==> b1.ppu.oam.oam_data@[k] == bus_peek(
            b0,
            (data * 256 + ((k - b0.ppu.oam.oam_addr + 256) % 256)) as u16,
        )) && b1.ppu == (NesPPU { oam: b1.ppu.oam, ..b0.ppu }) && b1.cycles == (b0.cycles + 513)
        % 0x1_0000_0000_0000_0000 && b1 == (Bus { ppu: b1.ppu, cycles: b1.cycles, ..b0 }))
}

impl Bus {
    pub open spec fn wf(&self) -> bool {
        &&& self.cpu_vram@.len() == 2048
        &&& (self.prg_rom@.len() == 0x4000 || self.prg_rom@.len() == 0x8000)
        &&& self.ppu.wf()
    }

    pub fn new(rom: Rom) -> (r: Bus)
        requires
            rom.prg_wf(),
        ensures
            r.wf(),
            forall|i: int| 0 <= i < 2048 ==> r.cpu_vram@[i] == 0,
            r.prg_rom@ == rom.prg_rom@,
            r.ppu.chr_rom@ == rom.chr_rom@,
            r.ppu.mirroring == rom.screen_mirroring,
            forall|i: int| 0 <= i < 2048 ==> r.ppu.vram@[i] == 0,
            r.ppu.scanline == 0 && r.ppu.cycles == 0,
            (r.ppu.nmi_interrupt is None),
            r.ppu.ctrl.bits == 0 && r.ppu.status.bits == 0,
            r.ppu.mask.bits == 0,
            forall|i: int| 0 <= i < 32 ==> r.ppu.palette_table@[i] == 0,
            forall|i: int| 0 <= i < 256 ==> r.ppu.oam.oam_data@[i] == 0,
            r.ppu.oam.oam_addr == 0,
            r.ppu.internal_data_buf == 0,
            r.ppu.addr.spec_get() == 0,
            r.ppu.addr.hi_ptr,
            r.ppu.scroll.h_scroll == 0 && r.ppu.scroll.v_scroll == 0 && !r.ppu.scroll.latch,
            r.cycles == 0,
            r.input_latch == 0,
            !r.frame_pending,
    {
        let ppu = NesPPU::new(rom.chr_rom, rom.screen_mirroring);
        Bus {
            cpu_vram: crate::ppu::zero_vec(2048),
            prg_rom: rom.prg_rom,
            ppu,
            cycles: 0,
            input_latch: 0,
            frame_pending: false,
        }
    }

    fn read_prg_rom(&self, addr: u16) -> (r: u8)
        requires
            self.wf(),
            addr >= 0x8000,
        ensures
            r == prg_byte(*self, addr),
    {
        let mut a: u16 = addr - 0x8000;
        if self.prg_rom.len() == 0x4000 && a >= 0x4000 {
            a = a % 0x4000;
        }
        self.prg_rom[a as usize]
    }

    /// Read one byte. The returned value is `bus_peek` of the state before
    /// the read; only the PPU status and data registers move the machine.
    pub fn mem_read(&mut self, addr: u16) -> (r: u8)
        requires
            old(self).wf(),
        ensures
            final(self).wf(),
            r == bus_peek(*old(self), addr),
            bus_frame_eq(*old(self), *final(self)),
            quiet(addr) ==> *final(self) == *old(self),
            *final(self) == (Bus { ppu: final(self).ppu, ..*old(self) }),
            (0x2000 <= addr <= 0x3FFF && addr % 8 == 2) ==> ppu::status_read_rel(
                old(self).ppu,
                final(self).ppu,
            ),
            (0x2000 <= addr <= 0x3FFF && addr % 8 == 7) ==> ppu::data_read_rel(
                old(self).ppu,
                final(self).ppu,
            ),
    {
        if addr < 0x2000 {
            let mirror_down_addr = addr % 0x800;
            self.cpu_vram[mirror_down_addr as usize]
        } else if addr <= 0x3FFF {
            let reg = addr % 8;
            if reg == 2 {
                self.ppu.read_status()
            } else if reg == 4 {
                self.ppu.read_oam_data()
            } else if reg == 7 {
                self.ppu.read_data()
            } else {
                // Control, mask, OAM address, scroll, address: write-only
                // from the CPU; such reads return a default value.
                0
            }
        } else if addr == 0x4016 {
            self.input_latch
        } else if addr < 0x8000 {
            // Audio and expansion space is unimplemented: reads return 0.
            0
        } else {
            self.read_prg_rom(addr)
        }
    }

    /// The byte OAM DMA takes from `addr` without disturbing the machine:
    /// `bus_peek` of the current state.
    fn dma_source(&self, addr: u16) -> (r: u8)
        requires
            self.wf(),
        ensures
            r == bus_peek(*self, addr),
    {
        if addr < 0x2000 {
            let mirror_down_addr = addr % 0x800;
            self.cpu_vram[mirror_down_addr as usize]
        } else if addr <= 0x3FFF {
            let reg = addr % 8;
            if reg == 2 {
                self.ppu.status.get_status()
            } else if reg == 4 {
                self.ppu.read_oam_data()
            } else if reg == 7 {
                let a = self.ppu.addr.get();
                if a < 0x3000 {
                    self.ppu.internal_data_buf
                } else if a < 0x3F00 {
                    0
                } else {
                    let idx = if a == 0x3F10 || a == 0x3F14 || a == 0x3F18 || a == 0x3F1C {
                        (a - 0x3F10) as usize
                    } else {
                        ((a - 0x3F00) % 0x20) as usize
                    };
                    self.ppu.palette_table[idx]
                }
            } else {
                0
            }
        } else if addr == 0x4016 {
            self.input_latch
        } else if addr < 0x8000 {
            0
        } else {
            self.read_prg_rom(addr)
        }
    }

    /// Write one byte. Stores into the ROM window are the one fatal bus
    /// fault; writes into unimplemented space are ignored. A write to the
    /// DMA register blocks for a 256-byte copy into sprite memory and
    /// charges the transfer's cycle cost to the master counter.
    pub fn mem_write(&mut self, addr: u16, data: u8) -> (r: Result<(), EmuError>)
        requires
            old(self).wf(),
        ensures
            final(self).wf(),
            r == (if addr >= 0x8000 {
                Err::<(), EmuError>(EmuError::RomWriteAttempt(addr))
            } else {
                Ok::<(), EmuError>(())
            }),
            bus_write_rel(*old(self), *final(self), addr, data),
    {
        if addr < 0x2000 {
            let mirror_down_addr = addr % 0x800;
            self.cpu_vram.set(mirror_down_addr as usize, data);
            Ok(())
        } else if addr <= 0x3FFF {
            let reg = addr % 8;
            if reg == 0 {
                self.ppu.write_to_ctrl(data);
            } else if reg == 1 {
                self.ppu.write_to_mask(data);
            } else if reg == 2 {
                // The status register is read-only from the CPU: the write
                // is ignored.
            } else if reg == 3 {
                self.ppu.write_to_oam_addr(data);
            } else if reg == 4 {
                self.ppu.write_to_oam_data(data);
            } else if reg == 5 {
                self.ppu.write_to_scroll(data);
            } else if reg == 6 {
                self.ppu.write_to_ppu_addr(data);
            } else {
                self.ppu.write_to_data(data);
            }
            Ok(())
        } else if addr == 0x4014 {
            self.oam_dma(data);
            Ok(())
        } else if addr == 0x4016 {
            self.input_latch = data;
            Ok(())
        } else if addr < 0x8000 {
            // Audio and expansion space is unimplemented: the write is
            // ignored.
            Ok(())
        } else {
            Err(EmuError::RomWriteAttempt(addr))
        }
    }

    /// The blocking 256-byte copy behind the DMA register: bytes come from
    /// the written page (as `bus_peek` sees it) and land in sprite memory
    /// starting at the OAM cursor, wrapping; the transfer charges 513
    /// cycles to the master counter. Deliberate simplification, and the
    /// contract says so: no dot-ticks reach the picture unit while the
    /// copy blocks, so its timing state stands still for the transfer's
    /// duration.
    fn oam_dma(&mut self, page: u8)
        requires
            old(self).wf(),
        ensures
            final(self).wf(),
            final(self).ppu.oam.oam_addr == old(self).ppu.oam.oam_addr,
            forall|k: int|
                0 <= k < 256 ==> final(self).ppu.oam.oam_data@[k] == bus_peek(
                    *old(self),
                    (page * 256 + ((k - old(self).ppu.oam.oam_addr + 256) % 256)) as u16,
                ),
            final(self).ppu == (NesPPU { oam: final(self).ppu.oam, ..old(self).ppu }),
            final(self).cycles == (old(self).cycles + 513) % 0x1_0000_0000_0000_0000,
            *final(self) == (Bus {
                ppu: final(self).ppu,
                cycles: final(self).cycles,
                ..*old(self)
            }),
    {
        let ghost b0 = *self;
        let base: u16 = (page as u16) * 256;
        let mut src: Vec<u8> = Vec::new();
        let mut i: usize = 0;
        while i < 256
            invariant
                *self == b0,
                self.wf(),
                i <= 256,
                src@.len() == i,
                base == page * 256,
                forall|j: int| 0 <= j < i ==> src@[j] == bus_peek(b0, (page * 256 + j) as u16),
            decreases 256 - i,
        {
            let b = self.dma_source(base + i as u16);
            src.push(b);
            i = i + 1;
        }
        let ghost addr0 = self.ppu.oam.oam_addr as int;
        let ghost oam_orig = self.ppu.oam.oam_data@;
        let mut k: usize = 0;
        while k < 256
            invariant
                self.wf(),
                k <= 256,
                0 <= addr0 < 256,
                src@.len() == 256,
                forall|j: int| 0 <= j < 256 ==> src@[j] == bus_peek(b0, (page * 256 + j) as u16),
                self.ppu.oam.oam_addr == (addr0 + k) % 256,
                forall|m: int|
                    0 <= m < 256 ==> self.ppu.oam.oam_data@[m] == (if (m - addr0 + 256) % 256
                        < k {
                        src@[(m - addr0 + 256) % 256]
                    } else {
                        oam_orig[m]
                    }),
                self.ppu == (NesPPU { oam: self.ppu.oam, ..b0.ppu }),
                *self == (Bus { ppu: self.ppu, ..b0 }),
            decreases 256 - k,
        {
            let ghost cursor = self.ppu.oam.oam_addr as int;
            self.ppu.write_to_oam_data(src[k]);
            proof {
                assert((cursor - addr0 + 256) % 256 == k as int);
            }
            k = k + 1;
        }
        self.cycles = self.cycles.wrapping_add(513);
    }

    /// Read the two little-endian bytes at `pos` and its wrapped successor.
    pub fn mem_read_u16(&mut self, pos: u16) -> (r: u16)
        requires
            old(self).wf(),
        ensures
            final(self).wf(),
            *final(self) == (Bus { ppu: final(self).ppu, ..*old(self) }),
            quiet16(pos) ==> (*final(self) == *old(self) && r == bus_peek16(*old(self), pos)),
    {
        let lo = self.mem_read(pos) as u16;
        let hi = self.mem_read(pos.wrapping_add(1)) as u16;
        hi * 256 + lo
    }

    /// Write two little-endian bytes at `pos` and its wrapped successor.
    /// The low write happens first; a fault stops the sequence, so a pair
    /// straddling the ROM boundary applies the low byte alone.
    pub fn mem_write_u16(&mut self, pos: u16, data: u16) -> (r: Result<(), EmuError>)
        requires
            old(self).wf(),
        ensures
            final(self).wf(),
            r == (if pos >= 0x8000 {
                Err::<(), EmuError>(EmuError::RomWriteAttempt(pos))
            } else if ((pos + 1) % 0x10000) >= 0x8000 {
                Err::<(), EmuError>(EmuError::RomWriteAttempt((((pos + 1) % 0x10000)) as u16))
            } else {
                Ok::<(), EmuError>(())
            }),
            pos >= 0x8000 ==> *final(self) == *old(self),
            (pos < 0x8000 && ((pos + 1) % 0x10000) >= 0x8000) ==> bus_write_rel(
                *old(self),
                *final(self),
                pos,
                (data % 256) as u8,
            ),
            (pos < 0x8000 && ((pos + 1) % 0x10000) < 0x8000) ==> (exists|mid: Bus|
                #[trigger] bus_write_rel(*old(self), mid, pos, (data % 256) as u8)
                    && bus_write_rel(
                    mid,
                    *final(self),
                    (((pos + 1) % 0x10000)) as u16,
                    (data / 256) as u8,
                )),
            (pos < 0x2000 && ((pos + 1) % 0x10000) < 0x2000) ==> (r == Ok::<(), EmuError>(())
                && final(self).cpu_vram@ == old(self).cpu_vram@.update(pos as int % 0x800, (data % 256) as u8).update(
                ((pos + 1) % 0x10000) % 0x800,
                (data / 256) as u8,
            ) && *final(self) == (Bus { cpu_vram: final(self).cpu_vram, ..*old(self) })),
    {
        let hi = (data / 256) as u8;
        let lo = (data % 256) as u8;
        let r1 = self.mem_write(pos, lo);
        match r1 {
            Err(e) => Err(e),
            Ok(()) => {
                let ghost mid = *self;
                let r2 = self.mem_write(pos.wrapping_add(1), hi);
                proof {
                    if pos < 0x8000 && ((pos + 1) % 0x10000) < 0x8000 {
                        assert(bus_write_rel(*old(self), mid, pos, (data % 256) as u8)
                            && bus_write_rel(
                            mid,
                            *self,
                            (((pos + 1) % 0x10000)) as u16,
                            (data / 256) as u8,
                        ));
                    }
                }
                r2
            },
        }
    }

    /// Advance the master clock by `cycles` CPU cycles: the counter moves,
    /// the PPU receives three dot-ticks per cycle, and a rising edge of the
    /// PPU's pending interrupt marks a frame as ready for the host.
    pub fn tick(&mut self, cycles: u8) -> (frame: bool)
        requires
            old(self).wf(),
            cycles <= 85,
        ensures
            final(self).wf(),
            ppu::tick_rel(old(self).ppu, final(self).ppu, 3 * cycles),
            final(self).cycles == (old(self).cycles + cycles) % 0x1_0000_0000_0000_0000,
            final(self).frame_pending == (old(self).frame_pending || ((old(self).ppu.nmi_interrupt is None) && (final(self).ppu.nmi_interrupt is Some))),
            *final(self) == (Bus {
                ppu: final(self).ppu,
                cycles: final(self).cycles,
                frame_pending: final(self).frame_pending,
                ..*old(self)
            }),
            frame == (old(self).ppu.cycles + 3 * cycles >= 341 && old(self).ppu.scanline + 1
                >= 262),
    {
        self.cycles = self.cycles.wrapping_add(cycles as u64);
        let nmi_before = self.ppu.nmi_interrupt.is_some();
        let frame = self.ppu.tick(cycles * 3);
        let nmi_after = self.ppu.nmi_interrupt.is_some();
        if !nmi_before && nmi_after {
            self.frame_pending = true;
        }
        frame
    }

    /// Take the PPU's pending interrupt, if any.
    pub fn poll_nmi_status(&mut self) -> (r: Option<u8>)
        requires
            old(self).wf(),
        ensures
            final(self).wf(),
            r == old(self).ppu.nmi_interrupt,
            (final(self).ppu.nmi_interrupt is None),
            final(self).ppu == (NesPPU { nmi_interrupt: None, ..old(self).ppu }),
            *final(self) == (Bus { ppu: final(self).ppu, ..*old(self) }),
    {
        self.ppu.poll_nmi_interrupt()
    }

    /// Take the frame-ready flag set at the interrupt's rising edge; the
    /// host renders and gathers input once per taken flag.
    pub fn poll_frame_event(&mut self) -> (r: bool)
        requires
            old(self).wf(),
        ensures
            final(self).wf(),
            r == old(self).frame_pending,
            !final(self).frame_pending,
            *final(self) == (Bus { frame_pending: false, ..*old(self) }),
    {
        let r = self.frame_pending;
        self.frame_pending = false;
        r
    }
}

} // verus!
