use vstd::prelude::*;
use crate::bus::{Bus, bus_peek, bus_peek16, quiet};
use crate::cpu::{CPU, CpuFlags, AddressingMode};
use crate::cpu::{opa_spec, push_rel};
use crate::instructions::rd_quiet;
use crate::ppu::NesPPU;
use crate::errors::EmuError;
use crate::instructions::ticked_bus;
use crate::opcodes::{opcode_lookup, opcode_len, opcode_cycles, opcode_mode};

verus! {

/// The opcodes that steer the program counter themselves: the branches,
/// the jumps and returns, and the halt opcode. Every other instruction
/// leaves it to the dispatcher, which advances it by the instruction
/// length.
pub open spec fn changes_pc(code: u8) -> bool {
    code == 0x00 || code == 0x20 || code == 0x40 || code == 0x4C || code == 0x60 || code == 0x6C
        || code == 0x10 || code == 0x30 || code == 0x50 || code == 0x70 || code == 0x90 || code
        == 0xB0 || code == 0xD0 || code == 0xF0
}


/// The opcodes that store to memory (the stores, the in-place
/// read-modify-writes, and their undocumented combinations): the only
/// instructions that can surface the ROM-write fault.
pub open spec fn writes_memory(code: u8) -> bool {
    match code {
        0x85 | 0x95 | 0x8D | 0x9D | 0x99 | 0x81 | 0x91 => true,
        0x86 | 0x96 | 0x8E => true,
        0x84 | 0x94 | 0x8C => true,
        0x06 | 0x16 | 0x0E | 0x1E => true,
        0x46 | 0x56 | 0x4E | 0x5E => true,
        0x26 | 0x36 | 0x2E | 0x3E => true,
        0x66 | 0x76 | 0x6E | 0x7E => true,
        0xE6 | 0xF6 | 0xEE | 0xFE => true,
        0xC6 | 0xD6 | 0xCE | 0xDE => true,
        0x87 | 0x97 | 0x8F | 0x83 => true,
        0x9F | 0x93 => true,
        0xC7 | 0xD7 | 0xCF | 0xDF | 0xDB | 0xD3 | 0xC3 => true,
        0xE7 | 0xF7 | 0xEF | 0xFF | 0xFB | 0xE3 | 0xF3 => true,
        0x27 | 0x37 | 0x2F | 0x3F | 0x3B | 0x23 | 0x33 => true,
        0x67 | 0x77 | 0x6F | 0x7F | 0x7B | 0x63 | 0x73 => true,
        0x07 | 0x17 | 0x0F | 0x1F | 0x1B | 0x03 | 0x13 => true,
        0x47 | 0x57 | 0x4F | 0x5F | 0x5B | 0x43 | 0x53 => true,
        0x9E | 0x9C | 0x9B => true,
        _ => false,
    }
}

/// The no-operand opcodes (implied or accumulator addressing, the halt
/// opcode excepted): one byte long, and their whole effect is a function
/// of the register file and the stack page.
pub open spec fn implied_op(code: u8) -> bool {
    match code {
        0x0A | 0x4A | 0x2A | 0x6A => true,
        0xAA | 0xA8 | 0xBA | 0x8A | 0x9A | 0x98 => true,
        0xE8 | 0xC8 | 0xCA | 0x88 => true,
        0x18 | 0xD8 | 0x58 | 0xB8 | 0x38 | 0xF8 | 0x78 => true,
        0x48 | 0x08 | 0x68 | 0x28 | 0x40 | 0x60 => true,
        0xEA | 0x1A | 0x3A | 0x5A | 0x7A | 0xDA | 0xFA => true,
        0x02 | 0x12 | 0x22 | 0x32 | 0x42 | 0x52 | 0x62 | 0x72 | 0x92 | 0xB2 | 0xD2 | 0xF2 => true,
        _ => false,
    }
}

/// The exact machine effect of one no-operand instruction, from the state
/// after its fetch to the state before the base cycle charge: the lifted
/// per-instruction contracts of instructions.rs.
pub open spec fn implied_step_rel(c1: CPU, c2: CPU, code: u8) -> bool {
    match code {
        0x0A => c2 == (CPU {
            register_a: c1.register_a << 1,
            status: (CpuFlags {
                carry: c1.register_a >= 128,
                zero: (c1.register_a << 1) == 0,
                negative: (c1.register_a << 1) >= 128,
                ..c1.status
            }),
            ..c1
        }),
        0x4A => c2 == (CPU {
            register_a: c1.register_a >> 1,
            status: (CpuFlags {
                carry: c1.register_a & 1 == 1,
                zero: (c1.register_a >> 1) == 0,
                negative: (c1.register_a >> 1) >= 128,
                ..c1.status
            }),
            ..c1
        }),
        0x2A => c2 == (CPU {
            register_a: ((c1.register_a << 1) | (if c1.status.carry {
                1u8
            } else {
                0u8
            })),
            status: (CpuFlags {
                carry: c1.register_a >= 128,
                zero: ((c1.register_a << 1) | (if c1.status.carry {
                    1u8
                } else {
                    0u8
                })) == 0,
                negative: ((c1.register_a << 1) | (if c1.status.carry {
                    1u8
                } else {
                    0u8
                })) >= 128,
                ..c1.status
            }),
            ..c1
        }),
        0x6A => c2 == (CPU {
            register_a: ((c1.register_a >> 1) | (if c1.status.carry {
                128u8
            } else {
                0u8
            })),
            status: (CpuFlags {
                carry: c1.register_a & 1 == 1,
                zero: ((c1.register_a >> 1) | (if c1.status.carry {
                    128u8
                } else {
                    0u8
                })) == 0,
                negative: ((c1.register_a >> 1) | (if c1.status.carry {
                    128u8
                } else {
                    0u8
                })) >= 128,
                ..c1.status
            }),
            ..c1
        }),
        0xAA => c2 == (CPU {
            register_x: c1.register_a,
            status: (CpuFlags {
                zero: c1.register_a == 0,
                negative: c1.register_a >= 128,
                ..c1.status
            }),
            ..c1
        }),
        0xA8 => c2 == (CPU {
            register_y: c1.register_a,
            status: (CpuFlags {
                zero: c1.register_a == 0,
                negative: c1.register_a >= 128,
                ..c1.status
            }),
            ..c1
        }),
        0xBA => c2 == (CPU {
            register_x: c1.stack_pointer,
            status: (CpuFlags {
                zero: c1.stack_pointer == 0,
                negative: c1.stack_pointer >= 128,
                ..c1.status
            }),
            ..c1
        }),
        0x8A => c2 == (CPU {
            register_a: c1.register_x,
            status: (CpuFlags {
                zero: c1.register_x == 0,
                negative: c1.register_x >= 128,
                ..c1.status
            }),
            ..c1
        }),
        0x9A => c2 == (CPU { stack_pointer: c1.register_x, ..c1 }),
        0x98 => c2 == (CPU {
            register_a: c1.register_y,
            status: (CpuFlags {
                zero: c1.register_y == 0,
                negative: c1.register_y >= 128,
                ..c1.status
            }),
            ..c1
        }),
        0xE8 => c2 == (CPU {
            register_x: ((c1.register_x + 1) % 256) as u8,
            status: (CpuFlags {
                zero: (c1.register_x + 1) % 256 == 0,
                negative: (c1.register_x + 1) % 256 >= 128,
                ..c1.status
            }),
            ..c1
        }),
        0xC8 => c2 == (CPU {
            register_y: ((c1.register_y + 1) % 256) as u8,
            status: (CpuFlags {
                zero: (c1.register_y + 1) % 256 == 0,
                negative: (c1.register_y + 1) % 256 >= 128,
                ..c1.status
            }),
            ..c1
        }),
        0xCA => c2 == (CPU {
            register_x: ((c1.register_x + 255) % 256) as u8,
            status: (CpuFlags {
                zero: (c1.register_x + 255) % 256 == 0,
                negative: (c1.register_x + 255) % 256 >= 128,
                ..c1.status
            }),
            ..c1
        }),
        0x88 => c2 == (CPU {
            register_y: ((c1.register_y + 255) % 256) as u8,
            status: (CpuFlags {
                zero: (c1.register_y + 255) % 256 == 0,
                negative: (c1.register_y + 255) % 256 >= 128,
                ..c1.status
            }),
            ..c1
        }),
        0x18 => c2 == (CPU { status: (CpuFlags { carry: false, ..c1.status }), ..c1 }),
        0xD8 => c2 == (CPU { status: (CpuFlags { decimal: false, ..c1.status }), ..c1 }),
        0x58 => c2 == (CPU {
            status: (CpuFlags { interrupt_disable: false, ..c1.status }),
            ..c1
        }),
        0xB8 => c2 == (CPU { status: (CpuFlags { overflow: false, ..c1.status }), ..c1 }),
        0x38 => c2 == (CPU { status: (CpuFlags { carry: true, ..c1.status }), ..c1 }),
        0xF8 => c2 == (CPU { status: (CpuFlags { decimal: true, ..c1.status }), ..c1 }),
        0x78 => c2 == (CPU {
            status: (CpuFlags { interrupt_disable: true, ..c1.status }),
            ..c1
        }),
        0x48 => push_rel(c1, c2, c1.register_a),
        0x08 => push_rel(
            c1,
            c2,
            (CpuFlags { break_flag: true, break2: true, ..c1.status }).spec_bits(),
        ),
        0x68 => c2 == (CPU {
            register_a: c1.bus.cpu_vram@[0x100 + ((c1.stack_pointer + 1) % 256)],
            status: (CpuFlags {
                zero: c1.bus.cpu_vram@[0x100 + ((c1.stack_pointer + 1) % 256)] == 0,
                negative: c1.bus.cpu_vram@[0x100 + ((c1.stack_pointer + 1) % 256)] >= 128,
                ..c1.status
            }),
            stack_pointer: (((c1.stack_pointer + 1) % 256)) as u8,
            ..c1
        }),
        0x28 => c2 == (CPU {
            status: (CpuFlags {
                break_flag: false,
                break2: true,
                ..CpuFlags::spec_from_bits(
                    c1.bus.cpu_vram@[0x100 + ((c1.stack_pointer + 1) % 256)],
                )
            }),
            stack_pointer: (((c1.stack_pointer + 1) % 256)) as u8,
            ..c1
        }),
        0x40 => c2 == (CPU {
            status: (CpuFlags {
                break_flag: false,
                break2: true,
                ..CpuFlags::spec_from_bits(
                    c1.bus.cpu_vram@[0x100 + ((c1.stack_pointer + 1) % 256)],
                )
            }),
            program_counter: ((c1.bus.cpu_vram@[0x100 + ((c1.stack_pointer + 2) % 256)] + 256
                * c1.bus.cpu_vram@[0x100 + ((c1.stack_pointer + 3) % 256)])) as u16,
            stack_pointer: (((c1.stack_pointer + 3) % 256)) as u8,
            ..c1
        }),
        0x60 => c2 == (CPU {
            program_counter: (((c1.bus.cpu_vram@[0x100 + ((c1.stack_pointer + 1) % 256)] + 256
                * c1.bus.cpu_vram@[0x100 + ((c1.stack_pointer + 2) % 256)]) + 1) % 0x10000) as u16,
            stack_pointer: (((c1.stack_pointer + 2) % 256)) as u8,
            ..c1
        }),
        _ => c2 == c1,
    }
}

/// How servicing the non-maskable interrupt moves the machine: the return
/// address and the status byte (break cleared, break2 forced) land on the
/// stack, interrupt-disable sets, the pending latch is consumed, the
/// clock charges the two-cycle latency, and the program counter loads
/// from the vector at 0xFFFA.
pub open spec fn nmi_service_rel(c1: CPU, c2: CPU) -> bool {
    &&& c2.bus.cpu_vram@ == c1.bus.cpu_vram@.update(
        0x100 + c1.stack_pointer,
        ((c1.program_counter / 256)) as u8,
    ).update(0x100 + ((c1.stack_pointer + 255) % 256), ((c1.program_counter % 256)) as u8).update(
        0x100 + ((c1.stack_pointer + 254) % 256),
        (CpuFlags { break_flag: false, break2: true, ..c1.status }).spec_bits(),
    )
    &&& c2.stack_pointer == (c1.stack_pointer + 253) % 256
    &&& c2.status == (CpuFlags { interrupt_disable: true, ..c1.status })
    &&& c2.register_a == c1.register_a
    &&& c2.register_x == c1.register_x
    &&& c2.register_y == c1.register_y
    &&& ticked_bus(
        (Bus {
            cpu_vram: c2.bus.cpu_vram,
            ppu: (NesPPU { nmi_interrupt: None, ..c1.bus.ppu }),
            ..c1.bus
        }),
        c2.bus,
        2,
    )
    &&& c2.program_counter == bus_peek16(c2.bus, 0xFFFA)
}

/// What a host hangs into the run loop: called once before every
/// instruction with the whole machine, for tracing, rendering and input.
/// An implementation must leave the machine well-formed.
pub trait CpuHook {
    fn on_step(&mut self, cpu: &mut CPU)
        requires
            old(cpu).wf(),
        ensures
            final(cpu).wf(),
    ;
}

/// The hook that does nothing; `run` uses it.
pub struct NoHook;

impl CpuHook for NoHook {
    fn on_step(&mut self, cpu: &mut CPU) {
    }
}

/// Every opcode's base cost fits comfortably under the clock's per-call
/// bound.
proof fn lemma_opcode_cycles_bound(code: u8)
    ensures
        opcode_cycles(code) <= 8,
{
}

/// Every opcode is one to three bytes long.
proof fn lemma_opcode_len_bound(code: u8)
    ensures
        1 <= opcode_len(code) <= 3,
{
}

/// Every no-operand opcode is one byte long.
proof fn lemma_implied_len(code: u8)
    ensures
        implied_op(code) ==> opcode_len(code) == 1,
{
}

impl CPU {
    /// Service the non-maskable interrupt: push the program counter (high
    /// byte first) and the status byte (break cleared, break2 forced),
    /// set interrupt-disable, charge the interrupt latency, and load the
    /// program counter from the interrupt vector at 0xFFFA.
    pub fn interrupt_nmi(&mut self)
        requires
            old(self).wf(),
        ensures
            final(self).wf(),
            final(self).bus.cpu_vram@ == old(self).bus.cpu_vram@.update(
                0x100 + old(self).stack_pointer,
                ((old(self).program_counter / 256)) as u8,
            ).update(
                0x100 + ((old(self).stack_pointer + 255) % 256),
                ((old(self).program_counter % 256)) as u8,
            ).update(
                0x100 + ((old(self).stack_pointer + 254) % 256),
                (CpuFlags { break_flag: false, break2: true, ..old(self).status }).spec_bits(),
            ),
            final(self).stack_pointer == (old(self).stack_pointer + 253) % 256,
            final(self).status == (CpuFlags { interrupt_disable: true, ..old(self).status }),
            final(self).register_a == old(self).register_a,
            final(self).register_x == old(self).register_x,
            final(self).register_y == old(self).register_y,
            ticked_bus(
                (Bus { cpu_vram: final(self).bus.cpu_vram, ..old(self).bus }),
                final(self).bus,
                2,
            ),
            final(self).program_counter == bus_peek16(final(self).bus, 0xFFFA),
    {
        let pc = self.program_counter;
        self.stack_push_u16(pc);
        let mut flag = self.status;
        flag.break_flag = false;
        flag.break2 = true;
        let bits = flag.to_bits();
        self.stack_push(bits);
        self.status.interrupt_disable = true;

        let _ = self.bus.tick(2);
        self.program_counter = self.mem_read_u16(0xFFFA);
    }

    /// Dispatch one decoded opcode. The table is total, so this can never
    /// produce the unknown-opcode fault; the force-interrupt opcode is the
    /// halt signal and comes back as `Ok(false)`.
    #[verifier::rlimit(100)]
    #[verifier::spinoff_prover]
    fn execute_opcode(&mut self, code: u8) -> (r: Result<bool, EmuError>)
        requires
            old(self).wf(),
        ensures
            final(self).wf(),
            !(r matches Err(EmuError::UnknownOpcode(_))),
            !(r matches Err(EmuError::InvalidAddressingModeUse)),
            (r matches Ok(b) ==> (b == false <==> code == 0x00)),
            (!changes_pc(code) && (r matches Ok(_))) ==> final(self).program_counter == old(
                self,
            ).program_counter,
            code == 0x00 ==> *final(self) == *old(self),
            !writes_memory(code) ==> !(r matches Err(_)),
            (writes_memory(code) && rd_quiet(*old(self), opcode_mode(code))) ==> ((
            r matches Err(_)) <==> opa_spec(*old(self), opcode_mode(code)) >= 0x8000),
            (writes_memory(code) && rd_quiet(*old(self), opcode_mode(code)) && (r matches Err(
                _,
            ))) ==> r == Err::<bool, EmuError>(
                EmuError::RomWriteAttempt(opa_spec(*old(self), opcode_mode(code))),
            ),
            implied_op(code) ==> implied_step_rel(*old(self), *final(self), code),
    {
        let op = opcode_lookup(code);
        let mode = op.mode;
        if code < 0x40 {
            self.execute_q0(code, &mode)
        } else if code < 0x80 {
            self.execute_q1(code, &mode)
        } else if code < 0xC0 {
            self.execute_q2(code, &mode)
        } else {
            self.execute_q3(code, &mode)
        }
    }

    #[verifier::rlimit(100)]
    #[verifier::spinoff_prover]
    fn execute_q0(&mut self, code: u8, mode: &AddressingMode) -> (r: Result<bool, EmuError>)
        requires
            old(self).wf(),
            0x00 <= code < 0x40,
            *mode == opcode_mode(code),
        ensures
            final(self).wf(),
            !(r matches Err(EmuError::UnknownOpcode(_))),
            !(r matches Err(EmuError::InvalidAddressingModeUse)),
            (r matches Ok(b) ==> (b == false <==> code == 0x00)),
            (!changes_pc(code) && (r matches Ok(_))) ==> final(self).program_counter == old(
                self,
            ).program_counter,
            code == 0x00 ==> *final(self) == *old(self),
            !writes_memory(code) ==> !(r matches Err(_)),
            (writes_memory(code) && rd_quiet(*old(self), opcode_mode(code))) ==> ((
            r matches Err(_)) <==> opa_spec(*old(self), opcode_mode(code)) >= 0x8000),
            (writes_memory(code) && rd_quiet(*old(self), opcode_mode(code)) && (r matches Err(
                _,
            ))) ==> r == Err::<bool, EmuError>(
                EmuError::RomWriteAttempt(opa_spec(*old(self), opcode_mode(code))),
            ),
            implied_op(code) ==> implied_step_rel(*old(self), *final(self), code),
    {
        match code {
            0x29 | 0x25 | 0x35 | 0x2D | 0x3D | 0x39 | 0x21 | 0x31 => {
                self.and(mode);
                Ok(true)
            },
            0x0A => {
                self.asl_accumulator();
                Ok(true)
            },
            0x06 | 0x16 | 0x0E | 0x1E => {
                self.asl(mode)?;
                Ok(true)
            },
            0x24 | 0x2C => {
                self.bit(mode);
                Ok(true)
            },
            0x30 => {
                self.bmi();
                Ok(true)
            },
            0x10 => {
                self.bpl();
                Ok(true)
            },
            0x00 => {
                self.brk();
                Ok(false)
            },
            0x18 => {
                self.clc();
                Ok(true)
            },
            0x20 => {
                self.jsr(mode);
                Ok(true)
            },
            0x09 | 0x05 | 0x15 | 0x0D | 0x1D | 0x19 | 0x01 | 0x11 => {
                self.ora(mode);
                Ok(true)
            },
            0x08 => {
                self.php();
                Ok(true)
            },
            0x28 => {
                self.plp();
                Ok(true)
            },
            0x2A => {
                self.rol_accumulator();
                Ok(true)
            },
            0x26 | 0x36 | 0x2E | 0x3E => {
                self.rol(mode)?;
                Ok(true)
            },
            0x38 => {
                self.sec();
                Ok(true)
            },
            0x0B | 0x2B => {
                self.anc(mode);
                Ok(true)
            },
            0x04 | 0x14 | 0x34 => {
                let (addr, crossed) = self.get_operand_address(mode);
                let _value = self.mem_read(addr);
                if crossed {
                    let _ = self.bus.tick(1);
                }
                self.nop_dop();
                Ok(true)
            },
            0x02 | 0x12 | 0x22 | 0x32 => {
                self.kil();
                Ok(true)
            },
            0x1A | 0x3A => {
                self.nop();
                Ok(true)
            },
            0x27 | 0x37 | 0x2F | 0x3F | 0x3B | 0x23 | 0x33 => {
                self.rla(mode)?;
                Ok(true)
            },
            0x07 | 0x17 | 0x0F | 0x1F | 0x1B | 0x03 | 0x13 => {
                self.slo(mode)?;
                Ok(true)
            },
            0x0C | 0x1C | 0x3C => {
                self.nop_top();
                Ok(true)
            },
            _ => {
                self.nop();
                Ok(true)
            },
        }
    }

    #[verifier::rlimit(100)]
    #[verifier::spinoff_prover]
    fn execute_q1(&mut self, code: u8, mode: &AddressingMode) -> (r: Result<bool, EmuError>)
        requires
            old(self).wf(),
            0x40 <= code < 0x80,
            *mode == opcode_mode(code),
        ensures
            final(self).wf(),
            !(r matches Err(EmuError::UnknownOpcode(_))),
            !(r matches Err(EmuError::InvalidAddressingModeUse)),
            (r matches Ok(b) ==> (b == false <==> code == 0x00)),
            (!changes_pc(code) && (r matches Ok(_))) ==> final(self).program_counter == old(
                self,
            ).program_counter,
            code == 0x00 ==> *final(self) == *old(self),
            !writes_memory(code) ==> !(r matches Err(_)),
            (writes_memory(code) && rd_quiet(*old(self), opcode_mode(code))) ==> ((
            r matches Err(_)) <==> opa_spec(*old(self), opcode_mode(code)) >= 0x8000),
            (writes_memory(code) && rd_quiet(*old(self), opcode_mode(code)) && (r matches Err(
                _,
            ))) ==> r == Err::<bool, EmuError>(
                EmuError::RomWriteAttempt(opa_spec(*old(self), opcode_mode(code))),
            ),
            implied_op(code) ==> implied_step_rel(*old(self), *final(self), code),
    {
        match code {
            0x69 | 0x65 | 0x75 | 0x6D | 0x7D | 0x79 | 0x61 | 0x71 => {
                self.adc(mode);
                Ok(true)
            },
            0x50 => {
                self.bvc();
                Ok(true)
            },
            0x70 => {
                self.bvs();
                Ok(true)
            },
            0x58 => {
                self.cli();
                Ok(true)
            },
            0x49 | 0x45 | 0x55 | 0x4D | 0x5D | 0x59 | 0x41 | 0x51 => {
                self.eor(mode);
                Ok(true)
            },
            0x4C | 0x6C => {
                self.jmp(mode);
                Ok(true)
            },
            0x4A => {
                self.lsr_accumulator();
                Ok(true)
            },
            0x46 | 0x56 | 0x4E | 0x5E => {
                self.lsr(mode)?;
                Ok(true)
            },
            0x48 => {
                self.pha();
                Ok(true)
            },
            0x68 => {
                self.pla();
                Ok(true)
            },
            0x6A => {
                self.ror_accumulator();
                Ok(true)
            },
            0x66 | 0x76 | 0x6E | 0x7E => {
                self.ror(mode)?;
                Ok(true)
            },
            0x40 => {
                self.rti();
                Ok(true)
            },
            0x60 => {
                self.rts();
                Ok(true)
            },
            0x78 => {
                self.sei();
                Ok(true)
            },
            0x6B => {
                self.arr(mode);
                Ok(true)
            },
            0x4B => {
                self.alr(mode);
                Ok(true)
            },
            0x44 | 0x54 | 0x64 | 0x74 => {
                let (addr, crossed) = self.get_operand_address(mode);
                let _value = self.mem_read(addr);
                if crossed {
                    let _ = self.bus.tick(1);
                }
                self.nop_dop();
                Ok(true)
            },
            0x42 | 0x52 | 0x62 | 0x72 => {
                self.kil();
                Ok(true)
            },
            0x5A | 0x7A => {
                self.nop();
                Ok(true)
            },
            0x67 | 0x77 | 0x6F | 0x7F | 0x7B | 0x63 | 0x73 => {
                self.rra(mode)?;
                Ok(true)
            },
            0x47 | 0x57 | 0x4F | 0x5F | 0x5B | 0x43 | 0x53 => {
                self.sre(mode)?;
                Ok(true)
            },
            0x5C | 0x7C => {
                self.nop_top();
                Ok(true)
            },
            _ => {
                self.nop();
                Ok(true)
            },
        }
    }

    fn execute_q2(&mut self, code: u8, mode: &AddressingMode) -> (r: Result<bool, EmuError>)
        requires
            old(self).wf(),
            0x80 <= code < 0xc0,
            *mode == opcode_mode(code),
        ensures
            final(self).wf(),
            !(r matches Err(EmuError::UnknownOpcode(_))),
            !(r matches Err(EmuError::InvalidAddressingModeUse)),
            (r matches Ok(b) ==> (b == false <==> code == 0x00)),
            (!changes_pc(code) && (r matches Ok(_))) ==> final(self).program_counter == old(
                self,
            ).program_counter,
            code == 0x00 ==> *final(self) == *old(self),
            !writes_memory(code) ==> !(r matches Err(_)),
            (writes_memory(code) && rd_quiet(*old(self), opcode_mode(code))) ==> ((
            r matches Err(_)) <==> opa_spec(*old(self), opcode_mode(code)) >= 0x8000),
            (writes_memory(code) && rd_quiet(*old(self), opcode_mode(code)) && (r matches Err(
                _,
            ))) ==> r == Err::<bool, EmuError>(
                EmuError::RomWriteAttempt(opa_spec(*old(self), opcode_mode(code))),
            ),
            implied_op(code) ==> implied_step_rel(*old(self), *final(self), code),
    {
        if code < 0xA0 {
            self.execute_q2a(code, mode)
        } else {
            self.execute_q2b(code, mode)
        }
    }

    #[verifier::rlimit(100)]
    #[verifier::spinoff_prover]
    fn execute_q2a(&mut self, code: u8, mode: &AddressingMode) -> (r: Result<bool, EmuError>)
        requires
            old(self).wf(),
            0x80 <= code < 0xa0,
            *mode == opcode_mode(code),
        ensures
            final(self).wf(),
            !(r matches Err(EmuError::UnknownOpcode(_))),
            !(r matches Err(EmuError::InvalidAddressingModeUse)),
            (r matches Ok(b) ==> (b == false <==> code == 0x00)),
            (!changes_pc(code) && (r matches Ok(_))) ==> final(self).program_counter == old(
                self,
            ).program_counter,
            code == 0x00 ==> *final(self) == *old(self),
            !writes_memory(code) ==> !(r matches Err(_)),
            (writes_memory(code) && rd_quiet(*old(self), opcode_mode(code))) ==> ((
            r matches Err(_)) <==> opa_spec(*old(self), opcode_mode(code)) >= 0x8000),
            (writes_memory(code) && rd_quiet(*old(self), opcode_mode(code)) && (r matches Err(
                _,
            ))) ==> r == Err::<bool, EmuError>(
                EmuError::RomWriteAttempt(opa_spec(*old(self), opcode_mode(code))),
            ),
            implied_op(code) ==> implied_step_rel(*old(self), *final(self), code),
    {
        match code {
            0x90 => {
                self.bcc();
                Ok(true)
            },
            0x88 => {
                self.dey();
                Ok(true)
            },
            0x85 | 0x95 | 0x8D | 0x9D | 0x99 | 0x81 | 0x91 => {
                self.sta(mode)?;
                Ok(true)
            },
            0x86 | 0x96 | 0x8E => {
                self.stx(mode)?;
                Ok(true)
            },
            0x84 | 0x94 | 0x8C => {
                self.sty(mode)?;
                Ok(true)
            },
            0x8A => {
                self.txa();
                Ok(true)
            },
            0x9A => {
                self.txs();
                Ok(true)
            },
            0x98 => {
                self.tya();
                Ok(true)
            },
            0x87 | 0x97 | 0x8F | 0x83 => {
                self.sax(mode)?;
                Ok(true)
            },
            0x9F | 0x93 => {
                self.ahx(mode)?;
                Ok(true)
            },
            0x80 | 0x82 | 0x89 => {
                let (addr, crossed) = self.get_operand_address(mode);
                let _value = self.mem_read(addr);
                if crossed {
                    let _ = self.bus.tick(1);
                }
                self.nop_dop();
                Ok(true)
            },
            0x92 => {
                self.kil();
                Ok(true)
            },
            0x9E => {
                self.shx(mode)?;
                Ok(true)
            },
            0x9C => {
                self.shy(mode)?;
                Ok(true)
            },
            0x8B => {
                self.xaa(mode);
                Ok(true)
            },
            0x9B => {
                self.tas(mode)?;
                Ok(true)
            },
            _ => {
                self.nop();
                Ok(true)
            },
        }
    }


    #[verifier::rlimit(100)]
    #[verifier::spinoff_prover]
    fn execute_q2b(&mut self, code: u8, mode: &AddressingMode) -> (r: Result<bool, EmuError>)
        requires
            old(self).wf(),
            0xa0 <= code < 0xc0,
            *mode == opcode_mode(code),
        ensures
            final(self).wf(),
            !(r matches Err(EmuError::UnknownOpcode(_))),
            !(r matches Err(EmuError::InvalidAddressingModeUse)),
            (r matches Ok(b) ==> (b == false <==> code == 0x00)),
            (!changes_pc(code) && (r matches Ok(_))) ==> final(self).program_counter == old(
                self,
            ).program_counter,
            code == 0x00 ==> *final(self) == *old(self),
            !writes_memory(code) ==> !(r matches Err(_)),
            (writes_memory(code) && rd_quiet(*old(self), opcode_mode(code))) ==> ((
            r matches Err(_)) <==> opa_spec(*old(self), opcode_mode(code)) >= 0x8000),
            (writes_memory(code) && rd_quiet(*old(self), opcode_mode(code)) && (r matches Err(
                _,
            ))) ==> r == Err::<bool, EmuError>(
                EmuError::RomWriteAttempt(opa_spec(*old(self), opcode_mode(code))),
            ),
            implied_op(code) ==> implied_step_rel(*old(self), *final(self), code),
    {
        match code {
            0xB0 => {
                self.bcs();
                Ok(true)
            },
            0xB8 => {
                self.clv();
                Ok(true)
            },
            0xA9 | 0xA5 | 0xB5 | 0xAD | 0xBD | 0xB9 | 0xA1 | 0xB1 => {
                self.lda(mode);
                Ok(true)
            },
            0xA2 | 0xA6 | 0xB6 | 0xAE | 0xBE => {
                self.ldx(mode);
                Ok(true)
            },
            0xA0 | 0xA4 | 0xB4 | 0xAC | 0xBC => {
                self.ldy(mode);
                Ok(true)
            },
            0xAA => {
                self.tax();
                Ok(true)
            },
            0xA8 => {
                self.tay();
                Ok(true)
            },
            0xBA => {
                self.tsx();
                Ok(true)
            },
            0xAB => {
                self.lxa(mode);
                Ok(true)
            },
            0xB2 => {
                self.kil();
                Ok(true)
            },
            0xBB => {
                self.las(mode);
                Ok(true)
            },
            0xA7 | 0xB7 | 0xAF | 0xBF | 0xA3 | 0xB3 => {
                self.lax(mode);
                Ok(true)
            },
            _ => {
                self.nop();
                Ok(true)
            },
        }
    }

    #[verifier::rlimit(100)]
    #[verifier::spinoff_prover]
    fn execute_q3(&mut self, code: u8, mode: &AddressingMode) -> (r: Result<bool, EmuError>)
        requires
            old(self).wf(),
            0xc0 <= code < 0x100,
            *mode == opcode_mode(code),
        ensures
            final(self).wf(),
            !(r matches Err(EmuError::UnknownOpcode(_))),
            !(r matches Err(EmuError::InvalidAddressingModeUse)),
            (r matches Ok(b) ==> (b == false <==> code == 0x00)),
            (!changes_pc(code) && (r matches Ok(_))) ==> final(self).program_counter == old(
                self,
            ).program_counter,
            code == 0x00 ==> *final(self) == *old(self),
            !writes_memory(code) ==> !(r matches Err(_)),
            (writes_memory(code) && rd_quiet(*old(self), opcode_mode(code))) ==> ((
            r matches Err(_)) <==> opa_spec(*old(self), opcode_mode(code)) >= 0x8000),
            (writes_memory(code) && rd_quiet(*old(self), opcode_mode(code)) && (r matches Err(
                _,
            ))) ==> r == Err::<bool, EmuError>(
                EmuError::RomWriteAttempt(opa_spec(*old(self), opcode_mode(code))),
            ),
            implied_op(code) ==> implied_step_rel(*old(self), *final(self), code),
    {
        match code {
            0xF0 => {
                self.beq();
                Ok(true)
            },
            0xD0 => {
                self.bne();
                Ok(true)
            },
            0xD8 => {
                self.cld();
                Ok(true)
            },
            0xC9 | 0xC5 | 0xD5 | 0xCD | 0xDD | 0xD9 | 0xC1 | 0xD1 => {
                self.cmp(mode);
                Ok(true)
            },
            0xE0 | 0xE4 | 0xEC => {
                self.cpx(mode);
                Ok(true)
            },
            0xC0 | 0xC4 | 0xCC => {
                self.cpy(mode);
                Ok(true)
            },
            0xC6 | 0xD6 | 0xCE | 0xDE => {
                self.dec(mode)?;
                Ok(true)
            },
            0xCA => {
                self.dex();
                Ok(true)
            },
            0xE6 | 0xF6 | 0xEE | 0xFE => {
                self.inc(mode)?;
                Ok(true)
            },
            0xE8 => {
                self.inx();
                Ok(true)
            },
            0xC8 => {
                self.iny();
                Ok(true)
            },
            0xEA => {
                self.nop();
                Ok(true)
            },
            0xE9 | 0xE5 | 0xF5 | 0xED | 0xFD | 0xF9 | 0xE1 | 0xF1 => {
                self.sbc(mode);
                Ok(true)
            },
            0xF8 => {
                self.sed();
                Ok(true)
            },
            0xCB => {
                self.axs(mode);
                Ok(true)
            },
            0xC7 | 0xD7 | 0xCF | 0xDF | 0xDB | 0xD3 | 0xC3 => {
                self.dcp(mode)?;
                Ok(true)
            },
            0xC2 | 0xD4 | 0xE2 | 0xF4 => {
                let (addr, crossed) = self.get_operand_address(mode);
                let _value = self.mem_read(addr);
                if crossed {
                    let _ = self.bus.tick(1);
                }
                self.nop_dop();
                Ok(true)
            },
            0xE7 | 0xF7 | 0xEF | 0xFF | 0xFB | 0xE3 | 0xF3 => {
                self.isb(mode)?;
                Ok(true)
            },
            0xD2 | 0xF2 => {
                self.kil();
                Ok(true)
            },
            0xDA | 0xFA => {
                self.nop();
                Ok(true)
            },
            0xEB => {
                self.sbc_ex(mode);
                Ok(true)
            },
            0xDC | 0xFC => {
                self.nop_top();
                Ok(true)
            },
            _ => {
                self.nop();
                Ok(true)
            },
        }
    }

    /// One machine step. A pending non-maskable interrupt is serviced as
    /// a step of its own (`Ok(true)`), so the service sequence runs whole
    /// and never lands mid-instruction; the next step fetches the
    /// handler's first opcode. Otherwise: fetch, decode, execute, charge
    /// the base cycle cost and advance past the operand. `Ok(false)`
    /// reports the halt opcode; the unknown-opcode fault can never come
    /// back, the table being total; the only fault is a store into ROM.
    #[verifier::rlimit(100)]
    #[verifier::spinoff_prover]
    pub fn step(&mut self) -> (r: Result<bool, EmuError>)
        requires
            old(self).wf(),
        ensures
            final(self).wf(),
            !(r matches Err(EmuError::UnknownOpcode(_))),
            !(r matches Err(EmuError::InvalidAddressingModeUse)),
            (old(self).bus.ppu.nmi_interrupt is Some) ==> (r == Ok::<bool, EmuError>(true)
                && nmi_service_rel(*old(self), *final(self))),
            ((old(self).bus.ppu.nmi_interrupt is None) && quiet(old(self).program_counter))
                ==> (r matches Ok(b) ==> (b == false <==> bus_peek(
                old(self).bus,
                old(self).program_counter,
            ) == 0)),
            ((old(self).bus.ppu.nmi_interrupt is None) && quiet(old(self).program_counter)
                && !changes_pc(bus_peek(old(self).bus, old(self).program_counter)) && (
            r matches Ok(_))) ==> final(self).program_counter == (old(self).program_counter
                + opcode_len(bus_peek(old(self).bus, old(self).program_counter))) % 0x10000,
            ((old(self).bus.ppu.nmi_interrupt is None) && quiet(old(self).program_counter)) ==> ((
            r matches Err(_)) ==> writes_memory(bus_peek(old(self).bus, old(self).program_counter))),
            ((old(self).bus.ppu.nmi_interrupt is None) && quiet(old(self).program_counter)
                && bus_peek(old(self).bus, old(self).program_counter) == 0) ==> (r == Ok::<
                bool,
                EmuError,
            >(false) && *final(self) == (CPU {
                program_counter: (((old(self).program_counter + 1) % 0x10000)) as u16,
                ..*old(self)
            })),
            ((old(self).bus.ppu.nmi_interrupt is None) && quiet(old(self).program_counter)
                && writes_memory(bus_peek(old(self).bus, old(self).program_counter)) && rd_quiet(
                (CPU {
                    program_counter: (((old(self).program_counter + 1) % 0x10000)) as u16,
                    ..*old(self)
                }),
                opcode_mode(bus_peek(old(self).bus, old(self).program_counter)),
            )) ==> (((r matches Err(_)) <==> opa_spec(
                (CPU {
                    program_counter: (((old(self).program_counter + 1) % 0x10000)) as u16,
                    ..*old(self)
                }),
                opcode_mode(bus_peek(old(self).bus, old(self).program_counter)),
            ) >= 0x8000) && ((r matches Err(_)) ==> r == Err::<bool, EmuError>(
                EmuError::RomWriteAttempt(
                    opa_spec(
                        (CPU {
                            program_counter: (((old(self).program_counter + 1) % 0x10000)) as u16,
                            ..*old(self)
                        }),
                        opcode_mode(bus_peek(old(self).bus, old(self).program_counter)),
                    ),
                ),
            ))),
            ((old(self).bus.ppu.nmi_interrupt is None) && quiet(old(self).program_counter)
                && implied_op(bus_peek(old(self).bus, old(self).program_counter))) ==> (r == Ok::<
                bool,
                EmuError,
            >(true) && implied_step_rel(
                (CPU {
                    program_counter: (((old(self).program_counter + 1) % 0x10000)) as u16,
                    ..*old(self)
                }),
                (CPU {
                    bus: (Bus { cpu_vram: final(self).bus.cpu_vram, ..old(self).bus }),
                    ..*final(self)
                }),
                bus_peek(old(self).bus, old(self).program_counter),
            ) && ticked_bus(
                (Bus { cpu_vram: final(self).bus.cpu_vram, ..old(self).bus }),
                final(self).bus,
                opcode_cycles(bus_peek(old(self).bus, old(self).program_counter)) as int,
            )),
    {
        if self.bus.poll_nmi_status().is_some() {
            self.interrupt_nmi();
            return Ok(true);
        }

        let pc = self.program_counter;
        let code = self.mem_read(pc);
        self.program_counter = self.program_counter.wrapping_add(1);
        let program_counter_state = self.program_counter;

        let r = self.execute_opcode(code);
        match r {
            Err(e) => Err(e),
            Ok(false) => Ok(false),
            Ok(true) => {
                proof {
                    lemma_opcode_cycles_bound(code);
                    lemma_opcode_len_bound(code);
                    lemma_implied_len(code);
                }
                let ghost c_mid = *self;
                let op = opcode_lookup(code);
                let _ = self.bus.tick(op.cycles);

                if program_counter_state == self.program_counter {
                    self.program_counter = self.program_counter.wrapping_add((op.len - 1) as u16);
                }
                proof {
                    if old(self).bus.ppu.nmi_interrupt is None && quiet(old(self).program_counter)
                        && implied_op(code) {
                        assert(self.bus == (Bus {
                            ppu: self.bus.ppu,
                            cycles: self.bus.cycles,
                            frame_pending: self.bus.frame_pending,
                            ..c_mid.bus
                        }));
                        assert(c_mid.bus == (Bus { cpu_vram: c_mid.bus.cpu_vram, ..old(self).bus }));
                    }
                }
                Ok(true)
            },
        }
    }

    /// Run until the halt opcode or a fault, calling the hook before each
    /// instruction. The loop carries a step budget of 2^64 so that
    /// termination is provable; it cannot be exhausted in practice.
    pub fn run_with_callback<H: CpuHook>(&mut self, hook: &mut H) -> (r: Result<(), EmuError>)
        requires
            old(self).wf(),
        ensures
            final(self).wf(),
            !(r matches Err(EmuError::UnknownOpcode(_))),
            !(r matches Err(EmuError::InvalidAddressingModeUse)),
    {
        let mut fuel: u64 = 0xFFFF_FFFF_FFFF_FFFF;
        while fuel > 0
            invariant
                self.wf(),
            decreases fuel,
        {
            if self.bus.poll_nmi_status().is_some() {
                self.interrupt_nmi();
            }
            hook.on_step(self);
            match self.step() {
                Err(e) => {
                    return Err(e);
                },
                Ok(false) => {
                    return Ok(());
                },
                Ok(true) => {},
            }
            fuel = fuel - 1;
        }
        Ok(())
    }

    /// Run until the halt opcode or a fault.
    pub fn run(&mut self) -> (r: Result<(), EmuError>)
        requires
            old(self).wf(),
        ensures
            final(self).wf(),
            !(r matches Err(EmuError::UnknownOpcode(_))),
            !(r matches Err(EmuError::InvalidAddressingModeUse)),
    {
        let mut hook = NoHook;
        self.run_with_callback(&mut hook)
    }

    /// Load a program at the fixed origin, reset, and run it.
    pub fn load_and_run(&mut self, program: Vec<u8>) -> (r: Result<(), EmuError>)
        requires
            old(self).wf(),
            program@.len() <= 0x200,
        ensures
            final(self).wf(),
            !(r matches Err(EmuError::UnknownOpcode(_))),
            !(r matches Err(EmuError::InvalidAddressingModeUse)),
    {
        self.load(program);
        self.reset();
        self.run()
    }
}

} // verus!
