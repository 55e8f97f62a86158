use vstd::prelude::*;
use crate::bus::Bus;
use crate::bus::{bus_peek, bus_peek16, quiet, quiet16};
use crate::errors::EmuError;
use crate::ppu;

verus! {

/// Base of the fixed 256-byte stack page.
pub const STACK: u16 = 0x0100;

/// Stack pointer value after a reset.
pub const STACK_RESET: u8 = 0xFD;

/// The processor status register as eight independent flags. On the stack
/// it materializes as one byte, low bit first: carry, zero,
/// interrupt-disable, decimal, break, break2 (always 1 when pushed),
/// overflow, negative.
#[derive(Debug, PartialEq, Eq, Clone, Copy, Structural)]
pub struct CpuFlags {
    pub carry: bool,
    pub zero: bool,
    pub interrupt_disable: bool,
    pub decimal: bool,
    pub break_flag: bool,
    pub break2: bool,
    pub overflow: bool,
    pub negative: bool,
}

impl CpuFlags {
    /// The byte this flag set materializes as.
    pub open spec fn spec_bits(&self) -> u8 {
        ((if self.carry {
            1int
        } else {
            0int
        }) + (if self.zero {
            2int
        } else {
            0int
        }) + (if self.interrupt_disable {
            4int
        } else {
            0int
        }) + (if self.decimal {
            8int
        } else {
            0int
        }) + (if self.break_flag {
            16int
        } else {
            0int
        }) + (if self.break2 {
            32int
        } else {
            0int
        }) + (if self.overflow {
            64int
        } else {
            0int
        }) + (if self.negative {
            128int
        } else {
            0int
        })) as u8
    }

    /// The flag set a byte unpacks to.
    pub open spec fn spec_from_bits(bits: u8) -> CpuFlags {
        CpuFlags {
            carry: bits & 0x01 != 0,
            zero: bits & 0x02 != 0,
            interrupt_disable: bits & 0x04 != 0,
            decimal: bits & 0x08 != 0,
            break_flag: bits & 0x10 != 0,
            break2: bits & 0x20 != 0,
            overflow: bits & 0x40 != 0,
            negative: bits & 0x80 != 0,
        }
    }

    /// The flag state after a reset: interrupt-disable and break2 set.
    pub open spec fn spec_reset() -> CpuFlags {
        CpuFlags {
            carry: false,
            zero: false,
            interrupt_disable: true,
            decimal: false,
            break_flag: false,
            break2: true,
            overflow: false,
            negative: false,
        }
    }

    pub fn to_bits(&self) -> (r: u8)
        ensures
            r == self.spec_bits(),
    {
        let mut r: u8 = 0;
        if self.carry {
            r = r + 1;
        }
        if self.zero {
            r = r + 2;
        }
        if self.interrupt_disable {
            r = r + 4;
        }
        if self.decimal {
            r = r + 8;
        }
        if self.break_flag {
            r = r + 16;
        }
        if self.break2 {
            r = r + 32;
        }
        if self.overflow {
            r = r + 64;
        }
        if self.negative {
            r = r + 128;
        }
        r
    }

    pub fn from_bits(bits: u8) -> (r: CpuFlags)
        ensures
            r == CpuFlags::spec_from_bits(bits),
    {
        CpuFlags {
            carry: bits & 0x01 != 0,
            zero: bits & 0x02 != 0,
            interrupt_disable: bits & 0x04 != 0,
            decimal: bits & 0x08 != 0,
            break_flag: bits & 0x10 != 0,
            break2: bits & 0x20 != 0,
            overflow: bits & 0x40 != 0,
            negative: bits & 0x80 != 0,
        }
    }

    pub fn reset_value() -> (r: CpuFlags)
        ensures
            r == CpuFlags::spec_reset(),
    {
        CpuFlags {
            carry: false,
            zero: false,
            interrupt_disable: true,
            decimal: false,
            break_flag: false,
            break2: true,
            overflow: false,
            negative: false,
        }
    }
}

/// The operand-location scheme encoded in an opcode.
#[derive(Debug, PartialEq, Eq, Clone, Copy, Structural)]
#[allow(non_camel_case_types)]
pub enum AddressingMode {
    Immediate,
    ZeroPage,
    ZeroPage_X,
    ZeroPage_Y,
    Absolute,
    Absolute_X,
    Absolute_Y,
    Indirect_X,
    Indirect_Y,
    Indirect_jmp,
    NoneAddressing,
}

/// The 6502 register file over its bus.
pub struct CPU {
    pub register_a: u8,
    pub register_x: u8,
    pub register_y: u8,
    pub status: CpuFlags,
    pub program_counter: u16,
    pub stack_pointer: u8,
    pub bus: Bus,
}

/// A byte-addressed memory surface: what the engine asks of anything it
/// executes against. Both the bus and the CPU (which forwards to its bus)
/// provide it.
pub trait Mem {
    spec fn inv(&self) -> bool;

    fn mem_read(&mut self, addr: u16) -> (r: u8)
        requires
            old(self).inv(),
        ensures
            final(self).inv(),
    ;

    fn mem_write(&mut self, addr: u16, data: u8) -> (r: Result<(), EmuError>)
        requires
            old(self).inv(),
        ensures
            final(self).inv(),
    ;

    fn mem_read_u16(&mut self, pos: u16) -> (r: u16)
        requires
            old(self).inv(),
        ensures
            final(self).inv(),
    ;

    fn mem_write_u16(&mut self, pos: u16, data: u16) -> (r: Result<(), EmuError>)
        requires
            old(self).inv(),
        ensures
            final(self).inv(),
    ;
}

impl Mem for Bus {
    open spec fn inv(&self) -> bool {
        self.wf()
    }

    fn mem_read(&mut self, addr: u16) -> (r: u8) {
        Bus::mem_read(self, addr)
    }

    fn mem_write(&mut self, addr: u16, data: u8) -> (r: Result<(), EmuError>) {
        Bus::mem_write(self, addr, data)
    }

    fn mem_read_u16(&mut self, pos: u16) -> (r: u16) {
        Bus::mem_read_u16(self, pos)
    }

    fn mem_write_u16(&mut self, pos: u16, data: u16) -> (r: Result<(), EmuError>) {
        Bus::mem_write_u16(self, pos, data)
    }
}

impl Mem for CPU {
    open spec fn inv(&self) -> bool {
        self.wf()
    }

    fn mem_read(&mut self, addr: u16) -> (r: u8) {
        CPU::mem_read(self, addr)
    }

    fn mem_write(&mut self, addr: u16, data: u8) -> (r: Result<(), EmuError>) {
        CPU::mem_write(self, addr, data)
    }

    fn mem_read_u16(&mut self, pos: u16) -> (r: u16) {
        CPU::mem_read_u16(self, pos)
    }

    fn mem_write_u16(&mut self, pos: u16, data: u16) -> (r: Result<(), EmuError>) {
        CPU::mem_write_u16(self, pos, data)
    }
}

/// Whether computing `addr` from `base` crossed a 256-byte page: several
/// instructions charge one extra cycle when it did.
fn page_cross(base: u16, addr: u16) -> (r: bool)
    ensures
        r == (base / 256 != addr / 256),
{
    base / 256 != addr / 256
}

/// The register file without the bus.
pub open spec fn cpu_regs_eq(c0: CPU, c1: CPU) -> bool {
    &&& c0.register_a == c1.register_a
    &&& c0.register_x == c1.register_x
    &&& c0.register_y == c1.register_y
    &&& c0.status == c1.status
    &&& c0.program_counter == c1.program_counter
    &&& c0.stack_pointer == c1.stack_pointer
}

/// A byte operand sign-extended to 16 bits, as branch offsets are.
pub open spec fn sign_ext(b: u8) -> u16 {
    if b >= 128 {
        (b + 0xFF00) as u16
    } else {
        b as u16
    }
}

/// Whether resolving `mode` with its operand bytes at `addr` touches only
/// side-effect-free addresses, so that resolution is a pure function of
/// the state. Zero-page pointer chains always live in RAM and are quiet by
/// construction; the jump-indirect mode fetches its pointer at the program
/// counter and dereferences it.
pub open spec fn resolve_quiet(c: CPU, mode: AddressingMode, addr: u16) -> bool {
    match mode {
        AddressingMode::Immediate => true,
        AddressingMode::ZeroPage => quiet(addr),
        AddressingMode::ZeroPage_X => quiet(addr),
        AddressingMode::ZeroPage_Y => quiet(addr),
        AddressingMode::Absolute => quiet16(addr),
        AddressingMode::Absolute_X => quiet16(addr),
        AddressingMode::Absolute_Y => quiet16(addr),
        AddressingMode::Indirect_X => quiet(addr),
        AddressingMode::Indirect_Y => quiet(addr),
        AddressingMode::Indirect_jmp => {
            let ptr = bus_peek16(c.bus, c.program_counter);
            quiet16(c.program_counter) && (if ptr % 256 == 0xFF {
                quiet(ptr) && quiet((ptr / 256 * 256) as u16)
            } else {
                quiet16(ptr)
            })
        },
        AddressingMode::NoneAddressing => false,
    }
}

/// The effective address `mode` resolves to, with operand bytes at `addr`
/// (meaningful under `resolve_quiet`). Index additions wrap: modulo 256
/// within page zero, modulo 65536 elsewhere. The jump-indirect mode
/// reproduces the hardware defect: a pointer ending in 0xFF takes its high
/// target byte from the start of the same page.
pub open spec fn ea_spec(c: CPU, mode: AddressingMode, addr: u16) -> u16 {
    match mode {
        AddressingMode::Immediate => addr,
        AddressingMode::ZeroPage => bus_peek(c.bus, addr) as u16,
        AddressingMode::ZeroPage_X => ((bus_peek(c.bus, addr) + c.register_x) % 256) as u16,
        AddressingMode::ZeroPage_Y => ((bus_peek(c.bus, addr) + c.register_y) % 256) as u16,
        AddressingMode::Absolute => bus_peek16(c.bus, addr),
        AddressingMode::Absolute_X => ((bus_peek16(c.bus, addr) + c.register_x) % 0x10000) as u16,
        AddressingMode::Absolute_Y => ((bus_peek16(c.bus, addr) + c.register_y) % 0x10000) as u16,
        AddressingMode::Indirect_X => {
            let ptr = (bus_peek(c.bus, addr) + c.register_x) % 256;
            (bus_peek(c.bus, ((ptr + 1) % 256) as u16) * 256 + bus_peek(c.bus, ptr as u16)) as u16
        },
        AddressingMode::Indirect_Y => {
            let base = bus_peek(c.bus, addr);
            let deref_base = bus_peek(c.bus, ((base + 1) % 256) as u16) * 256 + bus_peek(
                c.bus,
                base as u16,
            );
            ((deref_base + c.register_y) % 0x10000) as u16
        },
        AddressingMode::Indirect_jmp => {
            let ptr = bus_peek16(c.bus, c.program_counter);
            if ptr % 256 == 0xFF {
                (bus_peek(c.bus, (ptr / 256 * 256) as u16) * 256 + bus_peek(c.bus, ptr)) as u16
            } else {
                bus_peek16(c.bus, ptr)
            }
        },
        AddressingMode::NoneAddressing => 0,
    }
}

/// Whether resolution of `mode` crossed a page (meaningful under
/// `resolve_quiet`); only the three indexed 16-bit modes can.
pub open spec fn cross_spec(c: CPU, mode: AddressingMode, addr: u16) -> bool {
    match mode {
        AddressingMode::Absolute_X => bus_peek16(c.bus, addr) / 256 != ea_spec(c, mode, addr)
            / 256,
        AddressingMode::Absolute_Y => bus_peek16(c.bus, addr) / 256 != ea_spec(c, mode, addr)
            / 256,
        AddressingMode::Indirect_Y => {
            let base = bus_peek(c.bus, addr);
            let deref_base = bus_peek(c.bus, ((base + 1) % 256) as u16) * 256 + bus_peek(
                c.bus,
                base as u16,
            );
            deref_base / 256 != ea_spec(c, mode, addr) / 256
        },
        _ => false,
    }
}

/// Resolution of an operand whose bytes sit at the program counter.
pub open spec fn operand_quiet(c: CPU, mode: AddressingMode) -> bool {
    resolve_quiet(c, mode, c.program_counter)
}

/// The effective address of the current instruction's operand.
pub open spec fn opa_spec(c: CPU, mode: AddressingMode) -> u16 {
    ea_spec(c, mode, c.program_counter)
}

/// The page-cross surcharge flag of the current instruction's operand.
pub open spec fn opa_cross(c: CPU, mode: AddressingMode) -> bool {
    cross_spec(c, mode, c.program_counter)
}

/// How a stack push changes the machine: the byte lands at the stack
/// page's cursor and the pointer decrements, wrapping silently.
pub open spec fn push_rel(c0: CPU, c1: CPU, v: u8) -> bool {
    &&& c1.bus.cpu_vram@ == c0.bus.cpu_vram@.update(0x100 + c0.stack_pointer, v)
    &&& c1.bus == (Bus { cpu_vram: c1.bus.cpu_vram, ..c0.bus })
    &&& c1.stack_pointer == (c0.stack_pointer + 255) % 256
    &&& c1.register_a == c0.register_a
    &&& c1.register_x == c0.register_x
    &&& c1.register_y == c0.register_y
    &&& c1.status == c0.status
    &&& c1.program_counter == c0.program_counter
}

/// How a stack pop changes the machine: the pointer increments (wrapping)
/// and the byte under it comes back; memory does not change.
pub open spec fn pop_rel(c0: CPU, c1: CPU, r: u8) -> bool {
    &&& r == c0.bus.cpu_vram@[0x100 + ((c0.stack_pointer + 1) % 256)]
    &&& c1.bus == c0.bus
    &&& c1.stack_pointer == (c0.stack_pointer + 1) % 256
    &&& c1.register_a == c0.register_a
    &&& c1.register_x == c0.register_x
    &&& c1.register_y == c0.register_y
    &&& c1.status == c0.status
    &&& c1.program_counter == c0.program_counter
}

impl CPU {
    pub open spec fn wf(&self) -> bool {
        self.bus.wf()
    }

    pub fn new(bus: Bus) -> (r: CPU)
        ensures
            r.register_a == 0,
            r.register_x == 0,
            r.register_y == 0,
            r.status == CpuFlags::spec_reset(),
            r.program_counter == 0,
            r.stack_pointer == STACK_RESET,
            r.bus == bus,
    {
        CPU {
            register_a: 0,
            register_x: 0,
            register_y: 0,
            status: CpuFlags::reset_value(),
            program_counter: 0,
            stack_pointer: STACK_RESET,
            bus,
        }
    }

    /// Read one byte through the bus; the result is `bus_peek` of the
    /// prior state and registers never move.
    pub fn mem_read(&mut self, addr: u16) -> (r: u8)
        requires
            old(self).wf(),
        ensures
            final(self).wf(),
            r == bus_peek(old(self).bus, addr),
            cpu_regs_eq(*old(self), *final(self)),
            final(self).bus == (Bus { ppu: final(self).bus.ppu, ..old(self).bus }),
            quiet(addr) ==> *final(self) == *old(self),
            (0x2000 <= addr <= 0x3FFF && addr % 8 == 2) ==> ppu::status_read_rel(
                old(self).bus.ppu,
                final(self).bus.ppu,
            ),
            (0x2000 <= addr <= 0x3FFF && addr % 8 == 7) ==> ppu::data_read_rel(
                old(self).bus.ppu,
                final(self).bus.ppu,
            ),
    {
        self.bus.mem_read(addr)
    }

    /// Write one byte through the bus; a store into the ROM window is the
    /// fatal fault, surfaced, never applied.
    pub fn mem_write(&mut self, addr: u16, data: u8) -> (r: Result<(), EmuError>)
        requires
            old(self).wf(),
        ensures
            final(self).wf(),
            cpu_regs_eq(*old(self), *final(self)),
            r == (if addr >= 0x8000 {
                Err::<(), EmuError>(EmuError::RomWriteAttempt(addr))
            } else {
                Ok::<(), EmuError>(())
            }),
            addr >= 0x8000 ==> *final(self) == *old(self),
            crate::bus::bus_write_rel(old(self).bus, final(self).bus, addr, data),
    {
        self.bus.mem_write(addr, data)
    }

    /// Read a little-endian 16-bit value; the second byte comes from the
    /// wrapped successor address.
    pub fn mem_read_u16(&mut self, pos: u16) -> (r: u16)
        requires
            old(self).wf(),
        ensures
            final(self).wf(),
            cpu_regs_eq(*old(self), *final(self)),
            final(self).bus == (Bus { ppu: final(self).bus.ppu, ..old(self).bus }),
            quiet16(pos) ==> (*final(self) == *old(self) && r == bus_peek16(old(self).bus, pos)),
    {
        self.bus.mem_read_u16(pos)
    }

    /// Write a little-endian 16-bit value, low byte first; a fault stops
    /// the sequence, so a pair straddling the ROM boundary applies the low
    /// byte alone.
    pub fn mem_write_u16(&mut self, pos: u16, data: u16) -> (r: Result<(), EmuError>)
        requires
            old(self).wf(),
        ensures
            final(self).wf(),
            cpu_regs_eq(*old(self), *final(self)),
            r == (if pos >= 0x8000 {
                Err::<(), EmuError>(EmuError::RomWriteAttempt(pos))
            } else if ((pos + 1) % 0x10000) >= 0x8000 {
                Err::<(), EmuError>(EmuError::RomWriteAttempt((((pos + 1) % 0x10000)) as u16))
            } else {
                Ok::<(), EmuError>(())
            }),
            pos >= 0x8000 ==> *final(self) == *old(self),
            (pos < 0x8000 && ((pos + 1) % 0x10000) >= 0x8000) ==> crate::bus::bus_write_rel(
                old(self).bus,
                final(self).bus,
                pos,
                (data % 256) as u8,
            ),
            (pos < 0x8000 && ((pos + 1) % 0x10000) < 0x8000) ==> (exists|mid: Bus|
                #[trigger] crate::bus::bus_write_rel(old(self).bus, mid, pos, (data % 256) as u8)
                    && crate::bus::bus_write_rel(
                    mid,
                    final(self).bus,
                    (((pos + 1) % 0x10000)) as u16,
                    (data / 256) as u8,
                )),
            (pos < 0x2000 && ((pos + 1) % 0x10000) < 0x2000) ==> (r == Ok::<(), EmuError>(())
                && final(self).bus.cpu_vram@ == old(self).bus.cpu_vram@.update(
                pos as int % 0x800,
                (data % 256) as u8,
            ).update(((pos + 1) % 0x10000) % 0x800, (data / 256) as u8) && final(self).bus == (Bus {
                cpu_vram: final(self).bus.cpu_vram,
                ..old(self).bus
            })),
    {
        self.bus.mem_write_u16(pos, data)
    }

    /// Resolve an addressing mode to an effective address and a
    /// page-cross flag, reading the operand bytes at `addr`. When every
    /// byte touched is side-effect free the result is exactly `ea_spec` /
    /// `cross_spec` and the machine does not move. Resolution of the
    /// implied/accumulator mode is a programming error and is excluded.
    fn resolve_zero_page(&mut self, mode: &AddressingMode, addr: u16) -> (r: (u16, bool))
        requires
            old(self).wf(),
            *mode is ZeroPage || *mode is ZeroPage_X || *mode is ZeroPage_Y,
        ensures
            final(self).wf(),
            cpu_regs_eq(*old(self), *final(self)),
            final(self).bus == (Bus { ppu: final(self).bus.ppu, ..old(self).bus }),
            resolve_quiet(*old(self), *mode, addr) ==> (*final(self) == *old(self) && r.0
                == ea_spec(*old(self), *mode, addr) && r.1 == cross_spec(*old(self), *mode, addr)),
    {
        let pos = self.mem_read(addr);
        match mode {
            AddressingMode::ZeroPage => (pos as u16, false),
            AddressingMode::ZeroPage_X => (pos.wrapping_add(self.register_x) as u16, false),
            _ => (pos.wrapping_add(self.register_y) as u16, false),
        }
    }

    fn resolve_absolute(&mut self, mode: &AddressingMode, addr: u16) -> (r: (u16, bool))
        requires
            old(self).wf(),
            *mode is Absolute || *mode is Absolute_X || *mode is Absolute_Y,
        ensures
            final(self).wf(),
            cpu_regs_eq(*old(self), *final(self)),
            final(self).bus == (Bus { ppu: final(self).bus.ppu, ..old(self).bus }),
            resolve_quiet(*old(self), *mode, addr) ==> (*final(self) == *old(self) && r.0
                == ea_spec(*old(self), *mode, addr) && r.1 == cross_spec(*old(self), *mode, addr)),
    {
        let base = self.mem_read_u16(addr);
        match mode {
            AddressingMode::Absolute => (base, false),
            AddressingMode::Absolute_X => {
                let a = base.wrapping_add(self.register_x as u16);
                (a, page_cross(base, a))
            },
            _ => {
                let a = base.wrapping_add(self.register_y as u16);
                (a, page_cross(base, a))
            },
        }
    }

    #[verifier::rlimit(100)]
    #[verifier::spinoff_prover]
    fn resolve_indirect(&mut self, mode: &AddressingMode, addr: u16) -> (r: (u16, bool))
        requires
            old(self).wf(),
            *mode is Indirect_X || *mode is Indirect_Y,
        ensures
            final(self).wf(),
            cpu_regs_eq(*old(self), *final(self)),
            final(self).bus == (Bus { ppu: final(self).bus.ppu, ..old(self).bus }),
            resolve_quiet(*old(self), *mode, addr) ==> (*final(self) == *old(self) && r.0
                == ea_spec(*old(self), *mode, addr) && r.1 == cross_spec(*old(self), *mode, addr)),
    {
        let base = self.mem_read(addr);
        match mode {
            AddressingMode::Indirect_X => {
                let ptr: u8 = base.wrapping_add(self.register_x);
                let lo = self.mem_read(ptr as u16);
                let hi = self.mem_read(ptr.wrapping_add(1) as u16);
                ((hi as u16) * 256 + (lo as u16), false)
            },
            _ => {
                let lo = self.mem_read(base as u16);
                let hi = self.mem_read(base.wrapping_add(1) as u16);
                let deref_base = (hi as u16) * 256 + (lo as u16);
                let deref = deref_base.wrapping_add(self.register_y as u16);
                (deref, page_cross(deref_base, deref))
            },
        }
    }

    fn resolve_indirect_jmp(&mut self, addr: u16) -> (r: (u16, bool))
        requires
            old(self).wf(),
        ensures
            final(self).wf(),
            cpu_regs_eq(*old(self), *final(self)),
            final(self).bus == (Bus { ppu: final(self).bus.ppu, ..old(self).bus }),
            resolve_quiet(*old(self), AddressingMode::Indirect_jmp, addr) ==> (*final(self)
                == *old(self) && r.0 == ea_spec(*old(self), AddressingMode::Indirect_jmp, addr)
                && r.1 == cross_spec(*old(self), AddressingMode::Indirect_jmp, addr)),
    {
        let pc = self.program_counter;
        let a = self.mem_read_u16(pc);
        let indirect_ref = if a % 256 == 0xFF {
            let lo = self.mem_read(a);
            let hi = self.mem_read(a / 256 * 256);
            (hi as u16) * 256 + (lo as u16)
        } else {
            self.mem_read_u16(a)
        };
        (indirect_ref, false)
    }

    /// Resolve an addressing mode to an effective address and a
    /// page-cross flag, reading the operand bytes at `addr`. When every
    /// byte touched is side-effect free the result is exactly `ea_spec` /
    /// `cross_spec` and the machine does not move. Resolution of the
    /// implied/accumulator mode is a programming error and is excluded.
    pub fn get_absolute_address(&mut self, mode: &AddressingMode, addr: u16) -> (r: (u16, bool))
        requires
            old(self).wf(),
            !(*mode is NoneAddressing),
        ensures
            final(self).wf(),
            cpu_regs_eq(*old(self), *final(self)),
            final(self).bus == (Bus { ppu: final(self).bus.ppu, ..old(self).bus }),
            resolve_quiet(*old(self), *mode, addr) ==> (*final(self) == *old(self) && r.0
                == ea_spec(*old(self), *mode, addr) && r.1 == cross_spec(*old(self), *mode, addr)),
    {
        match mode {
            AddressingMode::Immediate => (addr, false),
            AddressingMode::ZeroPage | AddressingMode::ZeroPage_X | AddressingMode::ZeroPage_Y => {
                self.resolve_zero_page(mode, addr)
            },
            AddressingMode::Absolute | AddressingMode::Absolute_X | AddressingMode::Absolute_Y => {
                self.resolve_absolute(mode, addr)
            },
            AddressingMode::Indirect_X | AddressingMode::Indirect_Y => {
                self.resolve_indirect(mode, addr)
            },
            AddressingMode::Indirect_jmp => self.resolve_indirect_jmp(addr),
            AddressingMode::NoneAddressing => (0, false),
        }
    }

    /// Resolve the current instruction's operand: immediate operands are
    /// the byte at the program counter itself.
    pub fn get_operand_address(&mut self, mode: &AddressingMode) -> (r: (u16, bool))
        requires
            old(self).wf(),
            !(*mode is NoneAddressing),
        ensures
            final(self).wf(),
            cpu_regs_eq(*old(self), *final(self)),
            final(self).bus == (Bus { ppu: final(self).bus.ppu, ..old(self).bus }),
            operand_quiet(*old(self), *mode) ==> (*final(self) == *old(self) && r.0 == opa_spec(
                *old(self),
                *mode,
            ) && r.1 == opa_cross(*old(self), *mode)),
    {
        match mode {
            AddressingMode::Immediate => (self.program_counter, false),
            _ => {
                let pc = self.program_counter;
                self.get_absolute_address(mode, pc)
            },
        }
    }

    /// Set zero and negative from a result byte, as every data-moving
    /// instruction does.
    pub fn update_zero_and_negative_flags(&mut self, result: u8)
        ensures
            *final(self) == (CPU {
                status: CpuFlags {
                    zero: result == 0,
                    negative: result >= 128,
                    ..old(self).status
                },
                ..*old(self)
            }),
    {
        if result == 0 {
            self.status.zero = true;
        } else {
            self.status.zero = false;
        }
        if result >= 128 {
            self.status.negative = true;
        } else {
            self.status.negative = false;
        }
    }

    /// Set negative alone from a result byte.
    pub fn update_negative_flags(&mut self, result: u8)
        ensures
            *final(self) == (CPU {
                status: CpuFlags { negative: result >= 128, ..old(self).status },
                ..*old(self)
            }),
    {
        if result >= 128 {
            self.status.negative = true;
        } else {
            self.status.negative = false;
        }
    }

    /// Load the accumulator and set zero/negative.
    pub fn set_register_a(&mut self, value: u8)
        ensures
            *final(self) == (CPU {
                register_a: value,
                status: CpuFlags {
                    zero: value == 0,
                    negative: value >= 128,
                    ..old(self).status
                },
                ..*old(self)
            }),
    {
        self.register_a = value;
        let a = self.register_a;
        self.update_zero_and_negative_flags(a);
    }

    /// The adder behind ADC and SBC: sums the accumulator, the operand and
    /// the carry in 16-bit arithmetic; carry is the 9th bit, overflow the
    /// two's-complement sign test, and the truncated sum lands in the
    /// accumulator with zero/negative set from it.
    pub fn add_to_register_a(&mut self, value: u8)
        ensures
            final(self).register_a == (old(self).register_a + value + (if old(self).status.carry {
                1int
            } else {
                0int
            })) % 256,
            *final(self) == (CPU {
                register_a: final(self).register_a,
                status: CpuFlags {
                    carry: old(self).register_a + value + (if old(self).status.carry {
                        1int
                    } else {
                        0int
                    }) > 255,
                    overflow: ((value ^ final(self).register_a) & (final(self).register_a ^ old(
                        self,
                    ).register_a)) & 0x80 != 0,
                    zero: final(self).register_a == 0,
                    negative: final(self).register_a >= 128,
                    ..old(self).status
                },
                ..*old(self)
            }),
    {
        let carry_in: u16 = if self.status.carry {
            1
        } else {
            0
        };
        let result: u16 = self.register_a as u16 + value as u16 + carry_in;

        let carry = result > 0xFF;
        if carry {
            self.status.carry = true;
        } else {
            self.status.carry = false;
        }

        let tmp = (result % 256) as u8;

        if (value ^ tmp) & (tmp ^ self.register_a) & 0x80 != 0 {
            self.status.overflow = true;
        } else {
            self.status.overflow = false;
        }

        self.set_register_a(tmp);
    }

    /// Pop one byte: the pointer increments first, then the byte under it
    /// is read; wrap-around is silent, as on the hardware.
    pub fn stack_pop(&mut self) -> (r: u8)
        requires
            old(self).wf(),
        ensures
            final(self).wf(),
            pop_rel(*old(self), *final(self), r),
    {
        self.stack_pointer = self.stack_pointer.wrapping_add(1);
        self.mem_read(STACK + self.stack_pointer as u16)
    }

    /// Push one byte at the pointer, then decrement it; wrap-around is
    /// silent, as on the hardware.
    pub fn stack_push(&mut self, data: u8)
        requires
            old(self).wf(),
        ensures
            final(self).wf(),
            push_rel(*old(self), *final(self), data),
    {
        let _ = self.mem_write(STACK + self.stack_pointer as u16, data);
        self.stack_pointer = self.stack_pointer.wrapping_sub(1);
    }

    /// Pop a little-endian 16-bit value (low byte first).
    pub fn stack_pop_u16(&mut self) -> (r: u16)
        requires
            old(self).wf(),
        ensures
            final(self).wf(),
            r == old(self).bus.cpu_vram@[0x100 + ((old(self).stack_pointer + 1) % 256)] + 256 * old(
                self,
            ).bus.cpu_vram@[0x100 + ((old(self).stack_pointer + 2) % 256)],
            final(self).stack_pointer == (old(self).stack_pointer + 2) % 256,
            final(self).bus == old(self).bus,
            final(self).register_a == old(self).register_a,
            final(self).register_x == old(self).register_x,
            final(self).register_y == old(self).register_y,
            final(self).status == old(self).status,
            final(self).program_counter == old(self).program_counter,
    {
        let lo = self.stack_pop() as u16;
        let hi = self.stack_pop() as u16;
        hi * 256 + lo
    }

    /// Push a 16-bit value, high byte first, so it pops low byte first.
    pub fn stack_push_u16(&mut self, data: u16)
        requires
            old(self).wf(),
        ensures
            final(self).wf(),
            final(self).bus.cpu_vram@ == old(self).bus.cpu_vram@.update(
                0x100 + old(self).stack_pointer,
                (data / 256) as u8,
            ).update(0x100 + ((old(self).stack_pointer + 255) % 256), (data % 256) as u8),
            final(self).bus == (Bus { cpu_vram: final(self).bus.cpu_vram, ..old(self).bus }),
            final(self).stack_pointer == (old(self).stack_pointer + 254) % 256,
            final(self).register_a == old(self).register_a,
            final(self).register_x == old(self).register_x,
            final(self).register_y == old(self).register_y,
            final(self).status == old(self).status,
            final(self).program_counter == old(self).program_counter,
    {
        let hi = (data / 256) as u8;
        let lo = (data % 256) as u8;
        self.stack_push(hi);
        self.stack_push(lo);
    }

    /// Copy a program into RAM at the fixed load origin 0x0600. The image
    /// must fit below the RAM mirror boundary.
    pub fn load(&mut self, program: Vec<u8>)
        requires
            old(self).wf(),
            program@.len() <= 0x200,
        ensures
            final(self).wf(),
            cpu_regs_eq(*old(self), *final(self)),
            final(self).bus == (Bus { cpu_vram: final(self).bus.cpu_vram, ..old(self).bus }),
            final(self).bus.cpu_vram@.len() == 2048,
            forall|j: int|
                0 <= j < 2048 ==> final(self).bus.cpu_vram@[j] == (if 0x600 <= j < 0x600
                    + program@.len() {
                    program@[j - 0x600]
                } else {
                    old(self).bus.cpu_vram@[j]
                }),
    {
        let mut i: usize = 0;
        while i < program.len()
            invariant
                self.wf(),
                i <= program@.len(),
                program@.len() <= 0x200,
                cpu_regs_eq(*old(self), *self),
                self.bus == (Bus { cpu_vram: self.bus.cpu_vram, ..old(self).bus }),
                self.bus.cpu_vram@.len() == 2048,
                forall|j: int|
                    0 <= j < 2048 ==> self.bus.cpu_vram@[j] == (if 0x600 <= j < 0x600 + i {
                        program@[j - 0x600]
                    } else {
                        old(self).bus.cpu_vram@[j]
                    }),
            decreases program@.len() - i,
        {
            let _ = self.mem_write(0x0600 + i as u16, program[i]);
            i = i + 1;
        }
    }

    /// Zero the registers, restore the reset flag state and stack pointer,
    /// and load the program counter from the reset vector at 0xFFFC.
    pub fn reset(&mut self)
        requires
            old(self).wf(),
        ensures
            final(self).wf(),
            *final(self) == (CPU {
                register_a: 0,
                register_x: 0,
                register_y: 0,
                status: CpuFlags::spec_reset(),
                stack_pointer: STACK_RESET,
                program_counter: bus_peek16(old(self).bus, 0xFFFC),
                bus: old(self).bus,
            }),
    {
        self.register_a = 0;
        self.register_x = 0;
        self.register_y = 0;
        self.stack_pointer = STACK_RESET;
        self.status = CpuFlags::reset_value();
        self.program_counter = self.mem_read_u16(0xFFFC);
    }
}

} // verus!
