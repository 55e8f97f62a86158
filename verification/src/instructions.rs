use vstd::prelude::*;
use crate::bus::{Bus, bus_peek, quiet};
use crate::cpu::{CPU, CpuFlags, AddressingMode};
use crate::cpu::{operand_quiet, opa_spec, opa_cross, cpu_regs_eq, push_rel, sign_ext};
use crate::cpu::{resolve_quiet, ea_spec};
use crate::errors::EmuError;
use crate::ppu;

verus! {

/// The bus after `n` CPU cycles of clock: counter advanced, PPU fed three
/// dots per cycle, frame flag raised on the interrupt's rising edge.
pub open spec fn ticked_bus(b0: Bus, b1: Bus, n: int) -> bool {
    &&& ppu::tick_rel(b0.ppu, b1.ppu, 3 * n)
    &&& b1.cycles == (b0.cycles + n) % 0x1_0000_0000_0000_0000
    &&& b1.frame_pending == (b0.frame_pending || ((b0.ppu.nmi_interrupt is None) && (
    b1.ppu.nmi_interrupt is Some)))
    &&& b1 == (Bus {
        ppu: b1.ppu,
        cycles: b1.cycles,
        frame_pending: b1.frame_pending,
        ..b0
    })
}

/// The bus after the page-cross surcharge: one cycle when the resolution
/// crossed a page, untouched otherwise.
pub open spec fn opt_tick(b0: Bus, b1: Bus, crossed: bool) -> bool {
    if crossed {
        ticked_bus(b0, b1, 1)
    } else {
        b1 == b0
    }
}

/// Operand resolution and the operand byte itself are side-effect free.
pub open spec fn rd_quiet(c: CPU, mode: AddressingMode) -> bool {
    operand_quiet(c, mode) && quiet(opa_spec(c, mode))
}

/// The operand byte of the current instruction.
pub open spec fn operand_val(c: CPU, mode: AddressingMode) -> u8 {
    bus_peek(c.bus, opa_spec(c, mode))
}

/// Ticking the clock twice is ticking it once for the sum, as long as the
/// dots cannot wrap two scanlines.
proof fn lemma_ticked_bus_compose(b0: Bus, b1: Bus, b2: Bus, m: int, n: int)
    requires
        b0.ppu.cycles < 341,
        0 <= m,
        0 <= n,
        3 * (m + n) <= 341,
        ticked_bus(b0, b1, m),
        ticked_bus(b1, b2, n),
    ensures
        ticked_bus(b0, b2, m + n),
{
}

impl CPU {
    /// ADC: add the operand and the carry into the accumulator.
    pub fn adc(&mut self, mode: &AddressingMode)
        requires
            old(self).wf(),
            !(*mode is NoneAddressing),
        ensures
            final(self).wf(),
            final(self).program_counter == old(self).program_counter,
            rd_quiet(*old(self), *mode) ==> (*final(self) == (CPU {
                register_a: final(self).register_a,
                status: final(self).status,
                bus: final(self).bus,
                ..*old(self)
            }) && final(self).register_a == (old(self).register_a + operand_val(*old(self), *mode)
                + (if old(self).status.carry {
                1int
            } else {
                0int
            })) % 256 && final(self).status == (CpuFlags {
                carry: old(self).register_a + operand_val(*old(self), *mode) + (if old(self).status.carry {
                    1int
                } else {
                    0int
                }) > 255,
                overflow: ((operand_val(*old(self), *mode) ^ final(self).register_a) & (final(self).register_a ^ old(self).register_a)) & 0x80 != 0,
                zero: final(self).register_a == 0,
                negative: final(self).register_a >= 128,
                ..old(self).status
            }) && opt_tick(old(self).bus, final(self).bus, opa_cross(*old(self), *mode))),
    {
        let (addr, crossed) = self.get_operand_address(mode);
        let value = self.mem_read(addr);
        self.add_to_register_a(value);
        if crossed {
            let _ = self.bus.tick(1);
        }
    }

    /// SBC: subtract the operand with borrow, by adding its one's
    /// complement through the same adder.
    pub fn sbc(&mut self, mode: &AddressingMode)
        requires
            old(self).wf(),
            !(*mode is NoneAddressing),
        ensures
            final(self).wf(),
            final(self).program_counter == old(self).program_counter,
            rd_quiet(*old(self), *mode) ==> (*final(self) == (CPU {
                register_a: final(self).register_a,
                status: final(self).status,
                bus: final(self).bus,
                ..*old(self)
            }) && final(self).register_a == (old(self).register_a + (255
                - operand_val(*old(self), *mode)) + (if old(self).status.carry {
                1int
            } else {
                0int
            })) % 256 && final(self).status == (CpuFlags {
                carry: old(self).register_a + (255 - operand_val(*old(self), *mode)) + (if old(self).status.carry {
                    1int
                } else {
                    0int
                }) > 255,
                overflow: ((((255 - operand_val(*old(self), *mode)) as u8) ^ final(self).register_a) & (
                final(self).register_a ^ old(self).register_a)) & 0x80 != 0,
                zero: final(self).register_a == 0,
                negative: final(self).register_a >= 128,
                ..old(self).status
            }) && opt_tick(old(self).bus, final(self).bus, opa_cross(*old(self), *mode))),
    {
        let (addr, crossed) = self.get_operand_address(mode);
        let value = self.mem_read(addr);
        self.add_to_register_a(255 - value);
        if crossed {
            let _ = self.bus.tick(1);
        }
    }

    /// AND: conjoin the operand into the accumulator.
    pub fn and(&mut self, mode: &AddressingMode)
        requires
            old(self).wf(),
            !(*mode is NoneAddressing),
        ensures
            final(self).wf(),
            final(self).program_counter == old(self).program_counter,
            rd_quiet(*old(self), *mode) ==> (*final(self) == (CPU {
                register_a: (operand_val(*old(self), *mode) & old(self).register_a),
                status: (CpuFlags {
                    zero: (operand_val(*old(self), *mode) & old(self).register_a) == 0,
                    negative: (operand_val(*old(self), *mode) & old(self).register_a) >= 128,
                    ..old(self).status
                }),
                bus: final(self).bus,
                ..*old(self)
            }) && opt_tick(old(self).bus, final(self).bus, opa_cross(*old(self), *mode))),
    {
        let (addr, crossed) = self.get_operand_address(mode);
        let value = self.mem_read(addr);
        let a = self.register_a;
        self.set_register_a(value & a);
        if crossed {
            let _ = self.bus.tick(1);
        }
    }

    /// ORA: disjoin the operand into the accumulator.
    pub fn ora(&mut self, mode: &AddressingMode)
        requires
            old(self).wf(),
            !(*mode is NoneAddressing),
        ensures
            final(self).wf(),
            final(self).program_counter == old(self).program_counter,
            rd_quiet(*old(self), *mode) ==> (*final(self) == (CPU {
                register_a: (operand_val(*old(self), *mode) | old(self).register_a),
                status: (CpuFlags {
                    zero: (operand_val(*old(self), *mode) | old(self).register_a) == 0,
                    negative: (operand_val(*old(self), *mode) | old(self).register_a) >= 128,
                    ..old(self).status
                }),
                bus: final(self).bus,
                ..*old(self)
            }) && opt_tick(old(self).bus, final(self).bus, opa_cross(*old(self), *mode))),
    {
        let (addr, crossed) = self.get_operand_address(mode);
        let value = self.mem_read(addr);
        let a = self.register_a;
        self.set_register_a(value | a);
        if crossed {
            let _ = self.bus.tick(1);
        }
    }

    /// EOR: exclusive-or the operand into the accumulator.
    pub fn eor(&mut self, mode: &AddressingMode)
        requires
            old(self).wf(),
            !(*mode is NoneAddressing),
        ensures
            final(self).wf(),
            final(self).program_counter == old(self).program_counter,
            rd_quiet(*old(self), *mode) ==> (*final(self) == (CPU {
                register_a: (old(self).register_a ^ operand_val(*old(self), *mode)),
                status: (CpuFlags {
                    zero: (old(self).register_a ^ operand_val(*old(self), *mode)) == 0,
                    negative: (old(self).register_a ^ operand_val(*old(self), *mode)) >= 128,
                    ..old(self).status
                }),
                bus: final(self).bus,
                ..*old(self)
            }) && opt_tick(old(self).bus, final(self).bus, opa_cross(*old(self), *mode))),
    {
        let (addr, crossed) = self.get_operand_address(mode);
        let value = self.mem_read(addr);
        self.register_a = self.register_a ^ value;
        let a = self.register_a;
        self.update_zero_and_negative_flags(a);
        if crossed {
            let _ = self.bus.tick(1);
        }
    }

    /// LDA: load the operand into the accumulator.
    pub fn lda(&mut self, mode: &AddressingMode)
        requires
            old(self).wf(),
            !(*mode is NoneAddressing),
        ensures
            final(self).wf(),
            final(self).program_counter == old(self).program_counter,
            rd_quiet(*old(self), *mode) ==> (*final(self) == (CPU {
                register_a: operand_val(*old(self), *mode),
                status: (CpuFlags {
                    zero: operand_val(*old(self), *mode) == 0,
                    negative: operand_val(*old(self), *mode) >= 128,
                    ..old(self).status
                }),
                bus: final(self).bus,
                ..*old(self)
            }) && opt_tick(old(self).bus, final(self).bus, opa_cross(*old(self), *mode))),
    {
        let (addr, crossed) = self.get_operand_address(mode);
        let value = self.mem_read(addr);
        self.set_register_a(value);
        if crossed {
            let _ = self.bus.tick(1);
        }
    }

    /// LDX: load the operand into the X index.
    pub fn ldx(&mut self, mode: &AddressingMode)
        requires
            old(self).wf(),
            !(*mode is NoneAddressing),
        ensures
            final(self).wf(),
            final(self).program_counter == old(self).program_counter,
            rd_quiet(*old(self), *mode) ==> (*final(self) == (CPU {
                register_x: operand_val(*old(self), *mode),
                status: (CpuFlags {
                    zero: operand_val(*old(self), *mode) == 0,
                    negative: operand_val(*old(self), *mode) >= 128,
                    ..old(self).status
                }),
                bus: final(self).bus,
                ..*old(self)
            }) && opt_tick(old(self).bus, final(self).bus, opa_cross(*old(self), *mode))),
    {
        let (addr, crossed) = self.get_operand_address(mode);
        let value = self.mem_read(addr);
        self.register_x = value;
        let x = self.register_x;
        self.update_zero_and_negative_flags(x);
        if crossed {
            let _ = self.bus.tick(1);
        }
    }

    /// LDY: load the operand into the Y index.
    pub fn ldy(&mut self, mode: &AddressingMode)
        requires
            old(self).wf(),
            !(*mode is NoneAddressing),
        ensures
            final(self).wf(),
            final(self).program_counter == old(self).program_counter,
            rd_quiet(*old(self), *mode) ==> (*final(self) == (CPU {
                register_y: operand_val(*old(self), *mode),
                status: (CpuFlags {
                    zero: operand_val(*old(self), *mode) == 0,
                    negative: operand_val(*old(self), *mode) >= 128,
                    ..old(self).status
                }),
                bus: final(self).bus,
                ..*old(self)
            }) && opt_tick(old(self).bus, final(self).bus, opa_cross(*old(self), *mode))),
    {
        let (addr, crossed) = self.get_operand_address(mode);
        let value = self.mem_read(addr);
        self.register_y = value;
        let y = self.register_y;
        self.update_zero_and_negative_flags(y);
        if crossed {
            let _ = self.bus.tick(1);
        }
    }

    /// CMP/CPX/CPY's comparator: carry when the register is at least the
    /// operand; zero and negative from the wrapping difference.
    pub fn compare_value(&mut self, cmp_data: u8, value: u8)
        ensures
            *final(self) == (CPU {
                status: (CpuFlags {
                    carry: cmp_data >= value,
                    zero: cmp_data == value,
                    negative: (cmp_data + 256 - value) % 256 >= 128,
                    ..old(self).status
                }),
                ..*old(self)
            }),
    {
        if cmp_data >= value {
            self.status.carry = true;
        } else {
            self.status.carry = false;
        }
        let res = cmp_data.wrapping_sub(value);
        self.update_zero_and_negative_flags(res);
    }

    /// CMP: compare the accumulator with the operand.
    pub fn cmp(&mut self, mode: &AddressingMode)
        requires
            old(self).wf(),
            !(*mode is NoneAddressing),
        ensures
            final(self).wf(),
            final(self).program_counter == old(self).program_counter,
            rd_quiet(*old(self), *mode) ==> (*final(self) == (CPU {
                status: (CpuFlags {
                    carry: old(self).register_a >= operand_val(*old(self), *mode),
                    zero: old(self).register_a == operand_val(*old(self), *mode),
                    negative: (old(self).register_a + 256 - operand_val(*old(self), *mode)) % 256
                        >= 128,
                    ..old(self).status
                }),
                bus: final(self).bus,
                ..*old(self)
            }) && opt_tick(old(self).bus, final(self).bus, opa_cross(*old(self), *mode))),
    {
        let (addr, crossed) = self.get_operand_address(mode);
        let value = self.mem_read(addr);
        let a = self.register_a;
        self.compare_value(a, value);
        if crossed {
            let _ = self.bus.tick(1);
        }
    }

    /// CPX: compare the X index with the operand.
    pub fn cpx(&mut self, mode: &AddressingMode)
        requires
            old(self).wf(),
            !(*mode is NoneAddressing),
        ensures
            final(self).wf(),
            final(self).program_counter == old(self).program_counter,
            rd_quiet(*old(self), *mode) ==> *final(self) == (CPU {
                status: (CpuFlags {
                    carry: old(self).register_x >= operand_val(*old(self), *mode),
                    zero: old(self).register_x == operand_val(*old(self), *mode),
                    negative: (old(self).register_x + 256 - operand_val(*old(self), *mode)) % 256
                        >= 128,
                    ..old(self).status
                }),
                ..*old(self)
            }),
    {
        let (addr, _) = self.get_operand_address(mode);
        let value = self.mem_read(addr);
        let x = self.register_x;
        self.compare_value(x, value);
    }

    /// CPY: compare the Y index with the operand.
    pub fn cpy(&mut self, mode: &AddressingMode)
        requires
            old(self).wf(),
            !(*mode is NoneAddressing),
        ensures
            final(self).wf(),
            final(self).program_counter == old(self).program_counter,
            rd_quiet(*old(self), *mode) ==> *final(self) == (CPU {
                status: (CpuFlags {
                    carry: old(self).register_y >= operand_val(*old(self), *mode),
                    zero: old(self).register_y == operand_val(*old(self), *mode),
                    negative: (old(self).register_y + 256 - operand_val(*old(self), *mode)) % 256
                        >= 128,
                    ..old(self).status
                }),
                ..*old(self)
            }),
    {
        let (addr, _) = self.get_operand_address(mode);
        let value = self.mem_read(addr);
        let y = self.register_y;
        self.compare_value(y, value);
    }

    /// BIT: test accumulator bits against memory; zero from the
    /// conjunction, negative and overflow copied from the operand's top
    /// bits.
    pub fn bit(&mut self, mode: &AddressingMode)
        requires
            old(self).wf(),
            !(*mode is NoneAddressing),
        ensures
            final(self).wf(),
            final(self).program_counter == old(self).program_counter,
            rd_quiet(*old(self), *mode) ==> *final(self) == (CPU {
                status: (CpuFlags {
                    zero: (old(self).register_a & operand_val(*old(self), *mode)) == 0,
                    negative: operand_val(*old(self), *mode) & 0x80 != 0,
                    overflow: operand_val(*old(self), *mode) & 0x40 != 0,
                    ..old(self).status
                }),
                ..*old(self)
            }),
    {
        let (addr, _) = self.get_operand_address(mode);
        let value = self.mem_read(addr);
        let tmp = self.register_a & value;
        if tmp == 0 {
            self.status.zero = true;
        } else {
            self.status.zero = false;
        }
        if value & 0x80 != 0 {
            self.status.negative = true;
        } else {
            self.status.negative = false;
        }
        if value & 0x40 != 0 {
            self.status.overflow = true;
        } else {
            self.status.overflow = false;
        }
    }
}


/// Where a taken branch goes: the signed offset byte at the program
/// counter, relative to the following instruction, wrapping at the top of
/// the address space.
pub open spec fn branch_target(c: CPU) -> u16 {
    ((c.program_counter + 1 + sign_ext(bus_peek(c.bus, c.program_counter))) % 0x10000) as u16
}

/// A taken branch charges one cycle, and one more when the target crosses
/// a page from the following instruction.
pub open spec fn branch_ticks(c: CPU) -> int {
    1 + (if ((c.program_counter + 1) % 0x10000) / 256 != branch_target(c) / 256 {
        1int
    } else {
        0int
    })
}

/// How a taken branch moves the machine (exact when the offset byte's
/// address is side-effect free).
pub open spec fn branch_rel(c0: CPU, c1: CPU) -> bool {
    quiet(c0.program_counter) ==> (c1 == (CPU {
        program_counter: branch_target(c0),
        bus: c1.bus,
        ..c0
    }) && ticked_bus(c0.bus, c1.bus, branch_ticks(c0)))
}

impl CPU {
    /// STA: store the accumulator at the operand address.
    pub fn sta(&mut self, mode: &AddressingMode) -> (r: Result<(), EmuError>)
        requires
            old(self).wf(),
            !(*mode is NoneAddressing),
        ensures
            final(self).wf(),
            crate::errors::rom_fault_only(r),
            cpu_regs_eq(*old(self), *final(self)),
            operand_quiet(*old(self), *mode) ==> (r == (if opa_spec(*old(self), *mode) >= 0x8000 {
                Err::<(), EmuError>(EmuError::RomWriteAttempt(opa_spec(*old(self), *mode)))
            } else {
                Ok::<(), EmuError>(())
            }) && crate::bus::bus_write_rel(
                old(self).bus,
                final(self).bus,
                opa_spec(*old(self), *mode),
                old(self).register_a,
            )),
    {
        let (addr, _) = self.get_operand_address(mode);
        let a = self.register_a;
        self.mem_write(addr, a)
    }

    /// STX: store the X index at the operand address.
    pub fn stx(&mut self, mode: &AddressingMode) -> (r: Result<(), EmuError>)
        requires
            old(self).wf(),
            !(*mode is NoneAddressing),
        ensures
            final(self).wf(),
            crate::errors::rom_fault_only(r),
            cpu_regs_eq(*old(self), *final(self)),
            operand_quiet(*old(self), *mode) ==> (r == (if opa_spec(*old(self), *mode) >= 0x8000 {
                Err::<(), EmuError>(EmuError::RomWriteAttempt(opa_spec(*old(self), *mode)))
            } else {
                Ok::<(), EmuError>(())
            }) && crate::bus::bus_write_rel(
                old(self).bus,
                final(self).bus,
                opa_spec(*old(self), *mode),
                old(self).register_x,
            )),
    {
        let (addr, _) = self.get_operand_address(mode);
        let x = self.register_x;
        self.mem_write(addr, x)
    }

    /// STY: store the Y index at the operand address.
    pub fn sty(&mut self, mode: &AddressingMode) -> (r: Result<(), EmuError>)
        requires
            old(self).wf(),
            !(*mode is NoneAddressing),
        ensures
            final(self).wf(),
            crate::errors::rom_fault_only(r),
            cpu_regs_eq(*old(self), *final(self)),
            operand_quiet(*old(self), *mode) ==> (r == (if opa_spec(*old(self), *mode) >= 0x8000 {
                Err::<(), EmuError>(EmuError::RomWriteAttempt(opa_spec(*old(self), *mode)))
            } else {
                Ok::<(), EmuError>(())
            }) && crate::bus::bus_write_rel(
                old(self).bus,
                final(self).bus,
                opa_spec(*old(self), *mode),
                old(self).register_y,
            )),
    {
        let (addr, _) = self.get_operand_address(mode);
        let y = self.register_y;
        self.mem_write(addr, y)
    }

    /// ASL on the accumulator: shift left, carry takes the old top bit.
    pub fn asl_accumulator(&mut self)
        ensures
            *final(self) == (CPU {
                register_a: old(self).register_a << 1,
                status: (CpuFlags {
                    carry: old(self).register_a >= 128,
                    zero: (old(self).register_a << 1) == 0,
                    negative: (old(self).register_a << 1) >= 128,
                    ..old(self).status
                }),
                ..*old(self)
            }),
    {
        let data = self.register_a;
        if data >= 128 {
            self.status.carry = true;
        } else {
            self.status.carry = false;
        }
        self.register_a = data << 1;
        let a = self.register_a;
        self.update_zero_and_negative_flags(a);
    }

    /// ASL on memory: shift the operand left in place; carry takes the old
    /// top bit. A ROM target faults after the carry is set.
    #[verifier::rlimit(100)]
    #[verifier::spinoff_prover]
    pub fn asl(&mut self, mode: &AddressingMode) -> (r: Result<u8, EmuError>)
        requires
            old(self).wf(),
            !(*mode is NoneAddressing),
        ensures
            final(self).wf(),
            final(self).program_counter == old(self).program_counter,
            crate::errors::rom_fault_only(r),
            rd_quiet(*old(self), *mode) ==> (if opa_spec(*old(self), *mode) >= 0x8000 {
                r == Err::<u8, EmuError>(EmuError::RomWriteAttempt(opa_spec(*old(self), *mode)))
                    && *final(self) == (CPU {
                    status: (CpuFlags {
                        carry: operand_val(*old(self), *mode) >= 128,
                        ..old(self).status
                    }),
                    ..*old(self)
                })
            } else {
                r == Ok::<u8, EmuError>(operand_val(*old(self), *mode) << 1)
                    && crate::bus::bus_write_rel(
                    old(self).bus,
                    final(self).bus,
                    opa_spec(*old(self), *mode),
                    operand_val(*old(self), *mode) << 1,
                ) && *final(self) == (CPU {
                    status: (CpuFlags {
                        carry: operand_val(*old(self), *mode) >= 128,
                        zero: (operand_val(*old(self), *mode) << 1) == 0,
                        negative: (operand_val(*old(self), *mode) << 1) >= 128,
                        ..old(self).status
                    }),
                    bus: final(self).bus,
                    ..*old(self)
                })
            }),
    {
        let (addr, _) = self.get_operand_address(mode);
        let value = self.mem_read(addr);
        if value >= 128 {
            self.status.carry = true;
        } else {
            self.status.carry = false;
        }
        let data = value << 1;
        match self.mem_write(addr, data) {
            Err(e) => Err(e),
            Ok(()) => {
                self.update_zero_and_negative_flags(data);
                Ok(data)
            },
        }
    }

    /// LSR on the accumulator: shift right, carry takes the old low bit.
    pub fn lsr_accumulator(&mut self)
        ensures
            *final(self) == (CPU {
                register_a: old(self).register_a >> 1,
                status: (CpuFlags {
                    carry: old(self).register_a & 1 == 1,
                    zero: (old(self).register_a >> 1) == 0,
                    negative: (old(self).register_a >> 1) >= 128,
                    ..old(self).status
                }),
                ..*old(self)
            }),
    {
        let data = self.register_a;
        if data & 1 == 1 {
            self.status.carry = true;
        } else {
            self.status.carry = false;
        }
        self.set_register_a(data >> 1);
    }

    /// LSR on memory: shift the operand right in place; carry takes the
    /// old low bit. A ROM target faults after the carry is set.
    #[verifier::rlimit(100)]
    #[verifier::spinoff_prover]
    pub fn lsr(&mut self, mode: &AddressingMode) -> (r: Result<u8, EmuError>)
        requires
            old(self).wf(),
            !(*mode is NoneAddressing),
        ensures
            final(self).wf(),
            final(self).program_counter == old(self).program_counter,
            crate::errors::rom_fault_only(r),
            rd_quiet(*old(self), *mode) ==> (if opa_spec(*old(self), *mode) >= 0x8000 {
                r == Err::<u8, EmuError>(EmuError::RomWriteAttempt(opa_spec(*old(self), *mode)))
                    && *final(self) == (CPU {
                    status: (CpuFlags {
                        carry: operand_val(*old(self), *mode) & 1 == 1,
                        ..old(self).status
                    }),
                    ..*old(self)
                })
            } else {
                r == Ok::<u8, EmuError>(operand_val(*old(self), *mode) >> 1)
                    && crate::bus::bus_write_rel(
                    old(self).bus,
                    final(self).bus,
                    opa_spec(*old(self), *mode),
                    operand_val(*old(self), *mode) >> 1,
                ) && *final(self) == (CPU {
                    status: (CpuFlags {
                        carry: operand_val(*old(self), *mode) & 1 == 1,
                        zero: (operand_val(*old(self), *mode) >> 1) == 0,
                        negative: (operand_val(*old(self), *mode) >> 1) >= 128,
                        ..old(self).status
                    }),
                    bus: final(self).bus,
                    ..*old(self)
                })
            }),
    {
        let (addr, _) = self.get_operand_address(mode);
        let value = self.mem_read(addr);
        if value & 1 == 1 {
            self.status.carry = true;
        } else {
            self.status.carry = false;
        }
        let data = value >> 1;
        match self.mem_write(addr, data) {
            Err(e) => Err(e),
            Ok(()) => {
                self.update_zero_and_negative_flags(data);
                Ok(data)
            },
        }
    }

    /// ROL on the accumulator: rotate left through carry.
    pub fn rol_accumulator(&mut self)
        ensures
            *final(self) == (CPU {
                register_a: ((old(self).register_a << 1) | (if old(self).status.carry {
                    1u8
                } else {
                    0u8
                })),
                status: (CpuFlags {
                    carry: old(self).register_a >= 128,
                    zero: ((old(self).register_a << 1) | (if old(self).status.carry {
                        1u8
                    } else {
                        0u8
                    })) == 0,
                    negative: ((old(self).register_a << 1) | (if old(self).status.carry {
                        1u8
                    } else {
                        0u8
                    })) >= 128,
                    ..old(self).status
                }),
                ..*old(self)
            }),
    {
        let mut value = self.register_a;
        let tmp = self.status.carry;
        if value >= 128 {
            self.status.carry = true;
        } else {
            self.status.carry = false;
        }
        let carry_bit: u8 = if tmp {
            1
        } else {
            0
        };
        value = (value << 1) | carry_bit;
        self.set_register_a(value);
    }

    /// ROL on memory: rotate the operand left through carry, in place;
    /// only the negative flag follows the result. A ROM target faults
    /// after the carry is set.
    #[verifier::rlimit(100)]
    #[verifier::spinoff_prover]
    pub fn rol(&mut self, mode: &AddressingMode) -> (r: Result<u8, EmuError>)
        requires
            old(self).wf(),
            !(*mode is NoneAddressing),
        ensures
            final(self).wf(),
            final(self).program_counter == old(self).program_counter,
            crate::errors::rom_fault_only(r),
            rd_quiet(*old(self), *mode) ==> (if opa_spec(*old(self), *mode) >= 0x8000 {
                r == Err::<u8, EmuError>(EmuError::RomWriteAttempt(opa_spec(*old(self), *mode)))
                    && *final(self) == (CPU {
                    status: (CpuFlags {
                        carry: operand_val(*old(self), *mode) >= 128,
                        ..old(self).status
                    }),
                    ..*old(self)
                })
            } else {
                r == Ok::<u8, EmuError>(
                    (operand_val(*old(self), *mode) << 1) | (if old(self).status.carry {
                        1u8
                    } else {
                        0u8
                    }),
                ) && crate::bus::bus_write_rel(
                    old(self).bus,
                    final(self).bus,
                    opa_spec(*old(self), *mode),
                    (operand_val(*old(self), *mode) << 1) | (if old(self).status.carry {
                        1u8
                    } else {
                        0u8
                    }),
                ) && *final(self) == (CPU {
                    status: (CpuFlags {
                        carry: operand_val(*old(self), *mode) >= 128,
                        negative: ((operand_val(*old(self), *mode) << 1) | (if old(self).status.carry {
                            1u8
                        } else {
                            0u8
                        })) >= 128,
                        ..old(self).status
                    }),
                    bus: final(self).bus,
                    ..*old(self)
                })
            }),
    {
        let (addr, _) = self.get_operand_address(mode);
        let mut value = self.mem_read(addr);
        let tmp = self.status.carry;
        if value >= 128 {
            self.status.carry = true;
        } else {
            self.status.carry = false;
        }
        let carry_bit: u8 = if tmp {
            1
        } else {
            0
        };
        value = (value << 1) | carry_bit;
        match self.mem_write(addr, value) {
            Err(e) => Err(e),
            Ok(()) => {
                self.update_negative_flags(value);
                Ok(value)
            },
        }
    }

    /// ROR on the accumulator: rotate right through carry.
    pub fn ror_accumulator(&mut self)
        ensures
            *final(self) == (CPU {
                register_a: ((old(self).register_a >> 1) | (if old(self).status.carry {
                    128u8
                } else {
                    0u8
                })),
                status: (CpuFlags {
                    carry: old(self).register_a & 1 == 1,
                    zero: ((old(self).register_a >> 1) | (if old(self).status.carry {
                        128u8
                    } else {
                        0u8
                    })) == 0,
                    negative: ((old(self).register_a >> 1) | (if old(self).status.carry {
                        128u8
                    } else {
                        0u8
                    })) >= 128,
                    ..old(self).status
                }),
                ..*old(self)
            }),
    {
        let mut value = self.register_a;
        let tmp = self.status.carry;
        if value & 1 == 1 {
            self.status.carry = true;
        } else {
            self.status.carry = false;
        }
        let carry_bit: u8 = if tmp {
            128
        } else {
            0
        };
        value = (value >> 1) | carry_bit;
        self.set_register_a(value);
    }

    /// ROR on memory: rotate the operand right through carry, in place;
    /// only the negative flag follows the result. A ROM target faults
    /// after the carry is set.
    #[verifier::rlimit(100)]
    #[verifier::spinoff_prover]
    pub fn ror(&mut self, mode: &AddressingMode) -> (r: Result<u8, EmuError>)
        requires
            old(self).wf(),
            !(*mode is NoneAddressing),
        ensures
            final(self).wf(),
            final(self).program_counter == old(self).program_counter,
            crate::errors::rom_fault_only(r),
            rd_quiet(*old(self), *mode) ==> (if opa_spec(*old(self), *mode) >= 0x8000 {
                r == Err::<u8, EmuError>(EmuError::RomWriteAttempt(opa_spec(*old(self), *mode)))
                    && *final(self) == (CPU {
                    status: (CpuFlags {
                        carry: operand_val(*old(self), *mode) & 1 == 1,
                        ..old(self).status
                    }),
                    ..*old(self)
                })
            } else {
                r == Ok::<u8, EmuError>(
                    (operand_val(*old(self), *mode) >> 1) | (if old(self).status.carry {
                        128u8
                    } else {
                        0u8
                    }),
                ) && crate::bus::bus_write_rel(
                    old(self).bus,
                    final(self).bus,
                    opa_spec(*old(self), *mode),
                    (operand_val(*old(self), *mode) >> 1) | (if old(self).status.carry {
                        128u8
                    } else {
                        0u8
                    }),
                ) && *final(self) == (CPU {
                    status: (CpuFlags {
                        carry: operand_val(*old(self), *mode) & 1 == 1,
                        negative: ((operand_val(*old(self), *mode) >> 1) | (if old(self).status.carry {
                            128u8
                        } else {
                            0u8
                        })) >= 128,
                        ..old(self).status
                    }),
                    bus: final(self).bus,
                    ..*old(self)
                })
            }),
    {
        let (addr, _) = self.get_operand_address(mode);
        let mut value = self.mem_read(addr);
        let tmp = self.status.carry;
        if value & 1 == 1 {
            self.status.carry = true;
        } else {
            self.status.carry = false;
        }
        let carry_bit: u8 = if tmp {
            128
        } else {
            0
        };
        value = (value >> 1) | carry_bit;
        match self.mem_write(addr, value) {
            Err(e) => Err(e),
            Ok(()) => {
                self.update_negative_flags(value);
                Ok(value)
            },
        }
    }

    /// INC: increment the operand in place, wrapping.
    #[verifier::rlimit(100)]
    #[verifier::spinoff_prover]
    pub fn inc(&mut self, mode: &AddressingMode) -> (r: Result<u8, EmuError>)
        requires
            old(self).wf(),
            !(*mode is NoneAddressing),
        ensures
            final(self).wf(),
            final(self).program_counter == old(self).program_counter,
            crate::errors::rom_fault_only(r),
            rd_quiet(*old(self), *mode) ==> (if opa_spec(*old(self), *mode) >= 0x8000 {
                r == Err::<u8, EmuError>(EmuError::RomWriteAttempt(opa_spec(*old(self), *mode)))
                    && *final(self) == *old(self)
            } else {
                r == Ok::<u8, EmuError>((((operand_val(*old(self), *mode) + 1) % 256) as u8))
                    && crate::bus::bus_write_rel(
                    old(self).bus,
                    final(self).bus,
                    opa_spec(*old(self), *mode),
                    ((operand_val(*old(self), *mode) + 1) % 256) as u8,
                ) && *final(self) == (CPU {
                    status: (CpuFlags {
                        zero: (operand_val(*old(self), *mode) + 1) % 256 == 0,
                        negative: (operand_val(*old(self), *mode) + 1) % 256 >= 128,
                        ..old(self).status
                    }),
                    bus: final(self).bus,
                    ..*old(self)
                })
            }),
    {
        let (addr, _) = self.get_operand_address(mode);
        let value = self.mem_read(addr);
        let data = value.wrapping_add(1);
        match self.mem_write(addr, data) {
            Err(e) => Err(e),
            Ok(()) => {
                self.update_zero_and_negative_flags(data);
                Ok(data)
            },
        }
    }

    /// DEC: decrement the operand in place, wrapping.
    #[verifier::rlimit(100)]
    #[verifier::spinoff_prover]
    pub fn dec(&mut self, mode: &AddressingMode) -> (r: Result<u8, EmuError>)
        requires
            old(self).wf(),
            !(*mode is NoneAddressing),
        ensures
            final(self).wf(),
            final(self).program_counter == old(self).program_counter,
            crate::errors::rom_fault_only(r),
            rd_quiet(*old(self), *mode) ==> (if opa_spec(*old(self), *mode) >= 0x8000 {
                r == Err::<u8, EmuError>(EmuError::RomWriteAttempt(opa_spec(*old(self), *mode)))
                    && *final(self) == *old(self)
            } else {
                r == Ok::<u8, EmuError>((((operand_val(*old(self), *mode) + 255) % 256) as u8))
                    && crate::bus::bus_write_rel(
                    old(self).bus,
                    final(self).bus,
                    opa_spec(*old(self), *mode),
                    ((operand_val(*old(self), *mode) + 255) % 256) as u8,
                ) && *final(self) == (CPU {
                    status: (CpuFlags {
                        zero: (operand_val(*old(self), *mode) + 255) % 256 == 0,
                        negative: (operand_val(*old(self), *mode) + 255) % 256 >= 128,
                        ..old(self).status
                    }),
                    bus: final(self).bus,
                    ..*old(self)
                })
            }),
    {
        let (addr, _) = self.get_operand_address(mode);
        let value = self.mem_read(addr);
        let data = value.wrapping_sub(1);
        match self.mem_write(addr, data) {
            Err(e) => Err(e),
            Ok(()) => {
                self.update_zero_and_negative_flags(data);
                Ok(data)
            },
        }
    }

    /// DEX: decrement the X index, wrapping.
    pub fn dex(&mut self)
        ensures
            *final(self) == (CPU {
                register_x: ((old(self).register_x + 255) % 256) as u8,
                status: (CpuFlags {
                    zero: (old(self).register_x + 255) % 256 == 0,
                    negative: (old(self).register_x + 255) % 256 >= 128,
                    ..old(self).status
                }),
                ..*old(self)
            }),
    {
        self.register_x = self.register_x.wrapping_sub(1);
        let x = self.register_x;
        self.update_zero_and_negative_flags(x);
    }

    /// DEY: decrement the Y index, wrapping.
    pub fn dey(&mut self)
        ensures
            *final(self) == (CPU {
                register_y: ((old(self).register_y + 255) % 256) as u8,
                status: (CpuFlags {
                    zero: (old(self).register_y + 255) % 256 == 0,
                    negative: (old(self).register_y + 255) % 256 >= 128,
                    ..old(self).status
                }),
                ..*old(self)
            }),
    {
        self.register_y = self.register_y.wrapping_sub(1);
        let y = self.register_y;
        self.update_zero_and_negative_flags(y);
    }

    /// INX: increment the X index, wrapping.
    pub fn inx(&mut self)
        ensures
            *final(self) == (CPU {
                register_x: ((old(self).register_x + 1) % 256) as u8,
                status: (CpuFlags {
                    zero: (old(self).register_x + 1) % 256 == 0,
                    negative: (old(self).register_x + 1) % 256 >= 128,
                    ..old(self).status
                }),
                ..*old(self)
            }),
    {
        self.register_x = self.register_x.wrapping_add(1);
        let x = self.register_x;
        self.update_zero_and_negative_flags(x);
    }

    /// INY: increment the Y index, wrapping.
    pub fn iny(&mut self)
        ensures
            *final(self) == (CPU {
                register_y: ((old(self).register_y + 1) % 256) as u8,
                status: (CpuFlags {
                    zero: (old(self).register_y + 1) % 256 == 0,
                    negative: (old(self).register_y + 1) % 256 >= 128,
                    ..old(self).status
                }),
                ..*old(self)
            }),
    {
        self.register_y = self.register_y.wrapping_add(1);
        let y = self.register_y;
        self.update_zero_and_negative_flags(y);
    }
}


impl CPU {
    /// A taken branch: charge one cycle, read the signed offset at the
    /// program counter, charge another cycle if the target crosses a page
    /// from the following instruction, and jump.
    #[verifier::rlimit(60)]
    #[verifier::spinoff_prover]
    fn branch(&mut self)
        requires
            old(self).wf(),
        ensures
            final(self).wf(),
            branch_rel(*old(self), *final(self)),
    {
        let ghost b0 = self.bus;
        let _ = self.bus.tick(1);
        let ghost b1 = self.bus;
        let pc = self.program_counter;
        let offset = self.mem_read(pc);
        let off16: u16 = if offset >= 128 {
            offset as u16 + 0xFF00
        } else {
            offset as u16
        };
        let branch_addr = pc.wrapping_add(1).wrapping_add(off16);
        if pc.wrapping_add(1) / 256 != branch_addr / 256 {
            let _ = self.bus.tick(1);
            proof {
                if quiet(old(self).program_counter) {
                    lemma_ticked_bus_compose(b0, b1, self.bus, 1, 1);
                }
            }
        }
        self.program_counter = branch_addr;
    }

    /// BCC: branch when carry is clear.
    pub fn bcc(&mut self)
        requires
            old(self).wf(),
        ensures
            final(self).wf(),
            old(self).status.carry ==> *final(self) == *old(self),
            !old(self).status.carry ==> branch_rel(*old(self), *final(self)),
    {
        if !self.status.carry {
            self.branch();
        }
    }

    /// BCS: branch when carry is set.
    pub fn bcs(&mut self)
        requires
            old(self).wf(),
        ensures
            final(self).wf(),
            !old(self).status.carry ==> *final(self) == *old(self),
            old(self).status.carry ==> branch_rel(*old(self), *final(self)),
    {
        if self.status.carry {
            self.branch();
        }
    }

    /// BEQ: branch when the zero flag is set.
    pub fn beq(&mut self)
        requires
            old(self).wf(),
        ensures
            final(self).wf(),
            !old(self).status.zero ==> *final(self) == *old(self),
            old(self).status.zero ==> branch_rel(*old(self), *final(self)),
    {
        if self.status.zero {
            self.branch();
        }
    }

    /// BNE: branch when the zero flag is clear.
    pub fn bne(&mut self)
        requires
            old(self).wf(),
        ensures
            final(self).wf(),
            old(self).status.zero ==> *final(self) == *old(self),
            !old(self).status.zero ==> branch_rel(*old(self), *final(self)),
    {
        if !self.status.zero {
            self.branch();
        }
    }

    /// BMI: branch when negative.
    pub fn bmi(&mut self)
        requires
            old(self).wf(),
        ensures
            final(self).wf(),
            !old(self).status.negative ==> *final(self) == *old(self),
            old(self).status.negative ==> branch_rel(*old(self), *final(self)),
    {
        if self.status.negative {
            self.branch();
        }
    }

    /// BPL: branch when positive.
    pub fn bpl(&mut self)
        requires
            old(self).wf(),
        ensures
            final(self).wf(),
            old(self).status.negative ==> *final(self) == *old(self),
            !old(self).status.negative ==> branch_rel(*old(self), *final(self)),
    {
        if !self.status.negative {
            self.branch();
        }
    }

    /// BVC: branch when overflow is clear.
    pub fn bvc(&mut self)
        requires
            old(self).wf(),
        ensures
            final(self).wf(),
            old(self).status.overflow ==> *final(self) == *old(self),
            !old(self).status.overflow ==> branch_rel(*old(self), *final(self)),
    {
        if !self.status.overflow {
            self.branch();
        }
    }

    /// BVS: branch when overflow is set.
    pub fn bvs(&mut self)
        requires
            old(self).wf(),
        ensures
            final(self).wf(),
            !old(self).status.overflow ==> *final(self) == *old(self),
            old(self).status.overflow ==> branch_rel(*old(self), *final(self)),
    {
        if self.status.overflow {
            self.branch();
        }
    }

    /// BRK: the force-interrupt opcode is treated as the halt signal; the
    /// run loop returns to the host on it.
    pub fn brk(&mut self)
        ensures
            *final(self) == *old(self),
    {
    }

    /// JMP: load the program counter from the operand address, including
    /// the jump-indirect mode with its page-wrap defect.
    pub fn jmp(&mut self, mode: &AddressingMode)
        requires
            old(self).wf(),
            !(*mode is NoneAddressing),
        ensures
            final(self).wf(),
            operand_quiet(*old(self), *mode) ==> *final(self) == (CPU {
                program_counter: opa_spec(*old(self), *mode),
                ..*old(self)
            }),
    {
        let (addr, _) = self.get_operand_address(mode);
        self.program_counter = addr;
    }

    /// JSR: push the address of the call's last byte, then jump. The
    /// operand is resolved after the push, against the updated memory.
    pub fn jsr(&mut self, mode: &AddressingMode)
        requires
            old(self).wf(),
            !(*mode is NoneAddressing),
        ensures
            final(self).wf(),
            final(self).bus.cpu_vram@ == old(self).bus.cpu_vram@.update(
                0x100 + old(self).stack_pointer,
                ((((old(self).program_counter + 1) % 0x10000) as u16) / 256) as u8,
            ).update(
                0x100 + ((old(self).stack_pointer + 255) % 256),
                ((((old(self).program_counter + 1) % 0x10000) as u16) % 256) as u8,
            ),
            final(self).stack_pointer == (old(self).stack_pointer + 254) % 256,
            final(self).register_a == old(self).register_a,
            final(self).register_x == old(self).register_x,
            final(self).register_y == old(self).register_y,
            final(self).status == old(self).status,
            resolve_quiet(
                (CPU {
                    program_counter: old(self).program_counter,
                    bus: (Bus { cpu_vram: final(self).bus.cpu_vram, ..old(self).bus }),
                    ..*final(self)
                }),
                *mode,
                old(self).program_counter,
            ) ==> (final(self).bus == (Bus {
                cpu_vram: final(self).bus.cpu_vram,
                ..old(self).bus
            }) && final(self).program_counter == ea_spec(
                (CPU {
                    program_counter: old(self).program_counter,
                    bus: final(self).bus,
                    ..*final(self)
                }),
                *mode,
                old(self).program_counter,
            )),
    {
        let ret = self.program_counter.wrapping_add(1);
        self.stack_push_u16(ret);
        let pc = self.program_counter;
        let (addr, _) = self.get_absolute_address(mode, pc);
        self.program_counter = addr;
    }

    /// RTS: pop the return address and resume one past it.
    pub fn rts(&mut self)
        requires
            old(self).wf(),
        ensures
            final(self).wf(),
            *final(self) == (CPU {
                program_counter: (((old(self).bus.cpu_vram@[0x100 + ((old(self).stack_pointer + 1)
                    % 256)] + 256 * old(self).bus.cpu_vram@[0x100 + ((old(self).stack_pointer + 2)
                    % 256)]) + 1) % 0x10000) as u16,
                stack_pointer: (((old(self).stack_pointer + 2) % 256)) as u8,
                ..*old(self)
            }),
    {
        let v = self.stack_pop_u16();
        self.program_counter = v.wrapping_add(1);
    }

    /// RTI: pop the status byte (break cleared, break2 forced) and then
    /// the interrupted program counter.
    pub fn rti(&mut self)
        requires
            old(self).wf(),
        ensures
            final(self).wf(),
            *final(self) == (CPU {
                status: (CpuFlags {
                    break_flag: false,
                    break2: true,
                    ..CpuFlags::spec_from_bits(
                        old(self).bus.cpu_vram@[0x100 + ((old(self).stack_pointer + 1) % 256)],
                    )
                }),
                program_counter: ((old(self).bus.cpu_vram@[0x100 + ((old(self).stack_pointer + 2)
                    % 256)] + 256 * old(self).bus.cpu_vram@[0x100 + ((old(self).stack_pointer + 3)
                    % 256)])) as u16,
                stack_pointer: (((old(self).stack_pointer + 3) % 256)) as u8,
                ..*old(self)
            }),
    {
        let bits = self.stack_pop();
        self.status = CpuFlags::from_bits(bits);
        self.status.break_flag = false;
        self.status.break2 = true;
        self.program_counter = self.stack_pop_u16();
    }

    /// PHA: push the accumulator.
    pub fn pha(&mut self)
        requires
            old(self).wf(),
        ensures
            final(self).wf(),
            push_rel(*old(self), *final(self), old(self).register_a),
    {
        let a = self.register_a;
        self.stack_push(a);
    }

    /// PHP: push the status byte with break and break2 forced on.
    pub fn php(&mut self)
        requires
            old(self).wf(),
        ensures
            final(self).wf(),
            push_rel(
                *old(self),
                *final(self),
                (CpuFlags { break_flag: true, break2: true, ..old(self).status }).spec_bits(),
            ),
    {
        let mut copy = self.status;
        copy.break_flag = true;
        copy.break2 = true;
        let bits = copy.to_bits();
        self.stack_push(bits);
    }

    /// PLA: pop into the accumulator, setting zero/negative.
    pub fn pla(&mut self)
        requires
            old(self).wf(),
        ensures
            final(self).wf(),
            *final(self) == (CPU {
                register_a: old(self).bus.cpu_vram@[0x100 + ((old(self).stack_pointer + 1) % 256)],
                status: (CpuFlags {
                    zero: old(self).bus.cpu_vram@[0x100 + ((old(self).stack_pointer + 1) % 256)]
                        == 0,
                    negative: old(self).bus.cpu_vram@[0x100 + ((old(self).stack_pointer + 1)
                        % 256)] >= 128,
                    ..old(self).status
                }),
                stack_pointer: (((old(self).stack_pointer + 1) % 256)) as u8,
                ..*old(self)
            }),
    {
        let value = self.stack_pop();
        self.set_register_a(value);
    }

    /// PLP: pop the status byte; break comes back cleared and break2
    /// forced on.
    pub fn plp(&mut self)
        requires
            old(self).wf(),
        ensures
            final(self).wf(),
            *final(self) == (CPU {
                status: (CpuFlags {
                    break_flag: false,
                    break2: true,
                    ..CpuFlags::spec_from_bits(
                        old(self).bus.cpu_vram@[0x100 + ((old(self).stack_pointer + 1) % 256)],
                    )
                }),
                stack_pointer: (((old(self).stack_pointer + 1) % 256)) as u8,
                ..*old(self)
            }),
    {
        let bits = self.stack_pop();
        self.status = CpuFlags::from_bits(bits);
        self.status.break_flag = false;
        self.status.break2 = true;
    }

    /// CLC: clear carry.
    pub fn clc(&mut self)
        ensures
            *final(self) == (CPU {
                status: (CpuFlags { carry: false, ..old(self).status }),
                ..*old(self)
            }),
    {
        self.status.carry = false;
    }

    /// CLD: clear decimal mode (which this family never honours).
    pub fn cld(&mut self)
        ensures
            *final(self) == (CPU {
                status: (CpuFlags { decimal: false, ..old(self).status }),
                ..*old(self)
            }),
    {
        self.status.decimal = false;
    }

    /// CLI: clear interrupt-disable.
    pub fn cli(&mut self)
        ensures
            *final(self) == (CPU {
                status: (CpuFlags { interrupt_disable: false, ..old(self).status }),
                ..*old(self)
            }),
    {
        self.status.interrupt_disable = false;
    }

    /// CLV: clear overflow.
    pub fn clv(&mut self)
        ensures
            *final(self) == (CPU {
                status: (CpuFlags { overflow: false, ..old(self).status }),
                ..*old(self)
            }),
    {
        self.status.overflow = false;
    }

    /// SEC: set carry.
    pub fn sec(&mut self)
        ensures
            *final(self) == (CPU {
                status: (CpuFlags { carry: true, ..old(self).status }),
                ..*old(self)
            }),
    {
        self.status.carry = true;
    }

    /// SED: set decimal mode (recorded but never honoured).
    pub fn sed(&mut self)
        ensures
            *final(self) == (CPU {
                status: (CpuFlags { decimal: true, ..old(self).status }),
                ..*old(self)
            }),
    {
        self.status.decimal = true;
    }

    /// SEI: set interrupt-disable.
    pub fn sei(&mut self)
        ensures
            *final(self) == (CPU {
                status: (CpuFlags { interrupt_disable: true, ..old(self).status }),
                ..*old(self)
            }),
    {
        self.status.interrupt_disable = true;
    }

    /// TAX: copy the accumulator to X.
    pub fn tax(&mut self)
        ensures
            *final(self) == (CPU {
                register_x: old(self).register_a,
                status: (CpuFlags {
                    zero: old(self).register_a == 0,
                    negative: old(self).register_a >= 128,
                    ..old(self).status
                }),
                ..*old(self)
            }),
    {
        self.register_x = self.register_a;
        let x = self.register_x;
        self.update_zero_and_negative_flags(x);
    }

    /// TAY: copy the accumulator to Y.
    pub fn tay(&mut self)
        ensures
            *final(self) == (CPU {
                register_y: old(self).register_a,
                status: (CpuFlags {
                    zero: old(self).register_a == 0,
                    negative: old(self).register_a >= 128,
                    ..old(self).status
                }),
                ..*old(self)
            }),
    {
        self.register_y = self.register_a;
        let y = self.register_y;
        self.update_zero_and_negative_flags(y);
    }

    /// TSX: copy the stack pointer to X.
    pub fn tsx(&mut self)
        ensures
            *final(self) == (CPU {
                register_x: old(self).stack_pointer,
                status: (CpuFlags {
                    zero: old(self).stack_pointer == 0,
                    negative: old(self).stack_pointer >= 128,
                    ..old(self).status
                }),
                ..*old(self)
            }),
    {
        self.register_x = self.stack_pointer;
        let x = self.register_x;
        self.update_zero_and_negative_flags(x);
    }

    /// TXA: copy X to the accumulator.
    pub fn txa(&mut self)
        ensures
            *final(self) == (CPU {
                register_a: old(self).register_x,
                status: (CpuFlags {
                    zero: old(self).register_x == 0,
                    negative: old(self).register_x >= 128,
                    ..old(self).status
                }),
                ..*old(self)
            }),
    {
        self.register_a = self.register_x;
        let a = self.register_a;
        self.update_zero_and_negative_flags(a);
    }

    /// TXS: copy X to the stack pointer; no flags move.
    pub fn txs(&mut self)
        ensures
            *final(self) == (CPU { stack_pointer: old(self).register_x, ..*old(self) }),
    {
        self.stack_pointer = self.register_x;
    }

    /// TYA: copy Y to the accumulator.
    pub fn tya(&mut self)
        ensures
            *final(self) == (CPU {
                register_a: old(self).register_y,
                status: (CpuFlags {
                    zero: old(self).register_y == 0,
                    negative: old(self).register_y >= 128,
                    ..old(self).status
                }),
                ..*old(self)
            }),
    {
        self.register_a = self.register_y;
        let a = self.register_a;
        self.update_zero_and_negative_flags(a);
    }

    /// NOP: no effect.
    pub fn nop(&mut self)
        ensures
            *final(self) == *old(self),
    {
    }

    /// KIL family: treated as a no-operation rather than a processor jam.
    pub fn kil(&mut self)
        ensures
            *final(self) == *old(self),
    {
    }

    /// The double-byte NOP family: the operand is fetched and discarded by
    /// the dispatcher; the operation itself does nothing.
    pub fn nop_dop(&mut self)
        ensures
            *final(self) == *old(self),
    {
    }

    /// The triple-byte NOP family: no effect beyond the dispatcher's
    /// operand fetch.
    pub fn nop_top(&mut self)
        ensures
            *final(self) == *old(self),
    {
    }
}


impl CPU {
    /// ANC (undocumented): AND into the accumulator, then copy the
    /// negative flag into carry.
    pub fn anc(&mut self, mode: &AddressingMode)
        requires
            old(self).wf(),
            !(*mode is NoneAddressing),
        ensures
            final(self).wf(),
            final(self).program_counter == old(self).program_counter,
            rd_quiet(*old(self), *mode) ==> *final(self) == (CPU {
                register_a: (old(self).register_a & operand_val(*old(self), *mode)),
                status: (CpuFlags {
                    zero: (old(self).register_a & operand_val(*old(self), *mode)) == 0,
                    negative: (old(self).register_a & operand_val(*old(self), *mode)) >= 128,
                    carry: (old(self).register_a & operand_val(*old(self), *mode)) >= 128,
                    ..old(self).status
                }),
                ..*old(self)
            }),
    {
        let (addr, _) = self.get_operand_address(mode);
        let value = self.mem_read(addr);
        let a = self.register_a;
        self.set_register_a(a & value);
        if self.status.negative {
            self.status.carry = true;
        } else {
            self.status.carry = false;
        }
    }

    /// SAX (undocumented): store the conjunction of accumulator and X; no
    /// flags move.
    pub fn sax(&mut self, mode: &AddressingMode) -> (r: Result<(), EmuError>)
        requires
            old(self).wf(),
            !(*mode is NoneAddressing),
        ensures
            final(self).wf(),
            crate::errors::rom_fault_only(r),
            cpu_regs_eq(*old(self), *final(self)),
            operand_quiet(*old(self), *mode) ==> (r == (if opa_spec(*old(self), *mode) >= 0x8000 {
                Err::<(), EmuError>(EmuError::RomWriteAttempt(opa_spec(*old(self), *mode)))
            } else {
                Ok::<(), EmuError>(())
            }) && crate::bus::bus_write_rel(
                old(self).bus,
                final(self).bus,
                opa_spec(*old(self), *mode),
                old(self).register_x & old(self).register_a,
            )),
    {
        let (addr, _) = self.get_operand_address(mode);
        let res = self.register_x & self.register_a;
        self.mem_write(addr, res)
    }

    /// ARR (undocumented): AND, rotate the accumulator right, then derive
    /// carry and overflow from the result's bits 6 and 5.
    pub fn arr(&mut self, mode: &AddressingMode)
        requires
            old(self).wf(),
            !(*mode is NoneAddressing),
        ensures
            final(self).wf(),
            final(self).program_counter == old(self).program_counter,
            rd_quiet(*old(self), *mode) ==> (*final(self) == (CPU {
                register_a: final(self).register_a,
                status: final(self).status,
                ..*old(self)
            }) && final(self).register_a == (((old(self).register_a & operand_val(
                *old(self),
                *mode,
            )) >> 1) | (if old(self).status.carry {
                128u8
            } else {
                0u8
            })) && final(self).status == (CpuFlags {
                carry: (final(self).register_a >> 6) & 1 == 1,
                overflow: ((final(self).register_a >> 5) & 1 == 1 && (final(self).register_a >> 6)
                    & 1 == 0),
                zero: final(self).register_a == 0,
                negative: final(self).register_a >= 128,
                ..old(self).status
            })),
    {
        let (addr, _) = self.get_operand_address(mode);
        let value = self.mem_read(addr);
        let a = self.register_a;
        self.set_register_a(a & value);
        self.ror_accumulator();
        let res_bit_5 = (self.register_a >> 5) & 1;
        let res_bit_6 = (self.register_a >> 6) & 1;
        if res_bit_6 == 1 {
            self.status.carry = true;
        } else {
            self.status.carry = false;
        }
        if res_bit_5 == 1 && res_bit_6 == 0 {
            self.status.overflow = true;
        } else {
            self.status.overflow = false;
        }
        let a2 = self.register_a;
        self.update_zero_and_negative_flags(a2);
    }

    /// ALR (undocumented): AND, then shift the accumulator right.
    pub fn alr(&mut self, mode: &AddressingMode)
        requires
            old(self).wf(),
            !(*mode is NoneAddressing),
        ensures
            final(self).wf(),
            final(self).program_counter == old(self).program_counter,
            rd_quiet(*old(self), *mode) ==> *final(self) == (CPU {
                register_a: (old(self).register_a & operand_val(*old(self), *mode)) >> 1,
                status: (CpuFlags {
                    carry: (old(self).register_a & operand_val(*old(self), *mode)) & 1 == 1,
                    zero: ((old(self).register_a & operand_val(*old(self), *mode)) >> 1) == 0,
                    negative: ((old(self).register_a & operand_val(*old(self), *mode)) >> 1)
                        >= 128,
                    ..old(self).status
                }),
                ..*old(self)
            }),
    {
        let (addr, _) = self.get_operand_address(mode);
        let value = self.mem_read(addr);
        let a = self.register_a;
        self.set_register_a(a & value);
        self.lsr_accumulator();
    }

    /// LXA (undocumented): AND into the accumulator and copy it to X.
    pub fn lxa(&mut self, mode: &AddressingMode)
        requires
            old(self).wf(),
            !(*mode is NoneAddressing),
        ensures
            final(self).wf(),
            final(self).program_counter == old(self).program_counter,
            rd_quiet(*old(self), *mode) ==> (*final(self) == (CPU {
                register_a: (old(self).register_a & operand_val(*old(self), *mode)),
                register_x: (old(self).register_a & operand_val(*old(self), *mode)),
                status: (CpuFlags {
                    zero: (old(self).register_a & operand_val(*old(self), *mode)) == 0,
                    negative: (old(self).register_a & operand_val(*old(self), *mode)) >= 128,
                    ..old(self).status
                }),
                bus: final(self).bus,
                ..*old(self)
            }) && opt_tick(old(self).bus, final(self).bus, opa_cross(*old(self), *mode))),
    {
        let (addr, crossed) = self.get_operand_address(mode);
        let value = self.mem_read(addr);
        let a = self.register_a;
        self.set_register_a(a & value);
        self.register_x = self.register_a;
        let x = self.register_x;
        self.update_zero_and_negative_flags(x);
        if crossed {
            let _ = self.bus.tick(1);
        }
    }

    /// AHX (undocumented): store accumulator AND X AND the high byte of
    /// the target address; no flags move.
    pub fn ahx(&mut self, mode: &AddressingMode) -> (r: Result<(), EmuError>)
        requires
            old(self).wf(),
            !(*mode is NoneAddressing),
        ensures
            final(self).wf(),
            crate::errors::rom_fault_only(r),
            cpu_regs_eq(*old(self), *final(self)),
            rd_quiet(*old(self), *mode) ==> (r == (if opa_spec(*old(self), *mode) >= 0x8000 {
                Err::<(), EmuError>(EmuError::RomWriteAttempt(opa_spec(*old(self), *mode)))
            } else {
                Ok::<(), EmuError>(())
            }) && crate::bus::bus_write_rel(
                old(self).bus,
                final(self).bus,
                opa_spec(*old(self), *mode),
                old(self).register_x & old(self).register_a & ((opa_spec(*old(self), *mode)
                    / 256) as u8),
            )),
    {
        let (addr, _) = self.get_operand_address(mode);
        let _value = self.mem_read(addr);
        let res = self.register_x & self.register_a & ((addr / 256) as u8);
        self.mem_write(addr, res)
    }

    /// AXS (undocumented, behaviour a documented approximation): X takes
    /// the difference of the accumulator-AND-X mask with itself -- zero --
    /// and carry latches when the operand is within the mask.
    pub fn axs(&mut self, mode: &AddressingMode)
        requires
            old(self).wf(),
            !(*mode is NoneAddressing),
        ensures
            final(self).wf(),
            final(self).program_counter == old(self).program_counter,
            rd_quiet(*old(self), *mode) ==> *final(self) == (CPU {
                register_x: 0,
                status: (CpuFlags {
                    carry: (if operand_val(*old(self), *mode) <= (old(self).register_x & old(self).register_a) {
                        true
                    } else {
                        old(self).status.carry
                    }),
                    zero: true,
                    negative: false,
                    ..old(self).status
                }),
                ..*old(self)
            }),
    {
        let (addr, _) = self.get_operand_address(mode);
        let value = self.mem_read(addr);
        let tmp = self.register_x & self.register_a;
        let res = tmp.wrapping_sub(tmp);
        if value <= tmp {
            self.status.carry = true;
        }
        self.update_zero_and_negative_flags(res);
        self.register_x = res;
    }

    /// DCP (undocumented): decrement memory in place, then compare it
    /// against the accumulator (carry only ever latches on).
    pub fn dcp(&mut self, mode: &AddressingMode) -> (r: Result<(), EmuError>)
        requires
            old(self).wf(),
            !(*mode is NoneAddressing),
        ensures
            final(self).wf(),
            final(self).program_counter == old(self).program_counter,
            crate::errors::rom_fault_only(r),
            rd_quiet(*old(self), *mode) ==> (if opa_spec(*old(self), *mode) >= 0x8000 {
                r == Err::<(), EmuError>(EmuError::RomWriteAttempt(opa_spec(*old(self), *mode)))
                    && *final(self) == *old(self)
            } else {
                r == Ok::<(), EmuError>(()) && crate::bus::bus_write_rel(
                    old(self).bus,
                    final(self).bus,
                    opa_spec(*old(self), *mode),
                    ((operand_val(*old(self), *mode) + 255) % 256) as u8,
                ) && *final(self) == (CPU {
                    status: (CpuFlags {
                        carry: (if (operand_val(*old(self), *mode) + 255) % 256 <= old(self).register_a {
                            true
                        } else {
                            old(self).status.carry
                        }),
                        zero: old(self).register_a == (operand_val(*old(self), *mode) + 255)
                            % 256,
                        negative: (old(self).register_a + 256 - (operand_val(*old(self), *mode)
                            + 255) % 256) % 256 >= 128,
                        ..old(self).status
                    }),
                    bus: final(self).bus,
                    ..*old(self)
                })
            }),
    {
        let (addr, _) = self.get_operand_address(mode);
        let value = self.mem_read(addr);
        let res = value.wrapping_sub(1);
        match self.mem_write(addr, res) {
            Err(e) => Err(e),
            Ok(()) => {
                if res <= self.register_a {
                    self.status.carry = true;
                }
                let diff = self.register_a.wrapping_sub(res);
                self.update_zero_and_negative_flags(diff);
                Ok(())
            },
        }
    }

    /// ISB (undocumented): increment memory, subtract the result from the
    /// accumulator through the adder; the write lands last.
    #[verifier::rlimit(100)]
    #[verifier::spinoff_prover]
    pub fn isb(&mut self, mode: &AddressingMode) -> (r: Result<(), EmuError>)
        requires
            old(self).wf(),
            !(*mode is NoneAddressing),
        ensures
            final(self).wf(),
            final(self).program_counter == old(self).program_counter,
            crate::errors::rom_fault_only(r),
            rd_quiet(*old(self), *mode) ==> (final(self).register_a == (old(self).register_a + (
            255 - (operand_val(*old(self), *mode) + 1) % 256) + (if old(self).status.carry {
                1int
            } else {
                0int
            })) % 256 && final(self).status == (CpuFlags {
                carry: old(self).register_a + (255 - (operand_val(*old(self), *mode) + 1) % 256) + (
                if old(self).status.carry {
                    1int
                } else {
                    0int
                }) > 255,
                overflow: ((((255 - (operand_val(*old(self), *mode) + 1) % 256) as u8) ^ final(self).register_a) & (final(self).register_a ^ old(self).register_a)) & 0x80 != 0,
                zero: final(self).register_a == 0,
                negative: final(self).register_a >= 128,
                ..old(self).status
            }) && (if opa_spec(*old(self), *mode) >= 0x8000 {
                r == Err::<(), EmuError>(EmuError::RomWriteAttempt(opa_spec(*old(self), *mode)))
                    && *final(self) == (CPU {
                    register_a: final(self).register_a,
                    status: final(self).status,
                    ..*old(self)
                })
            } else {
                r == Ok::<(), EmuError>(()) && crate::bus::bus_write_rel(
                    old(self).bus,
                    final(self).bus,
                    opa_spec(*old(self), *mode),
                    ((operand_val(*old(self), *mode) + 1) % 256) as u8,
                ) && *final(self) == (CPU {
                    register_a: final(self).register_a,
                    status: final(self).status,
                    bus: final(self).bus,
                    ..*old(self)
                })
            })),
    {
        let (addr, _) = self.get_operand_address(mode);
        let value = self.mem_read(addr);
        let res = value.wrapping_add(1);
        self.update_zero_and_negative_flags(res);
        self.add_to_register_a(255 - res);
        self.mem_write(addr, res)
    }

    /// LAS (undocumented): the operand AND the stack pointer lands in the
    /// accumulator, X and the stack pointer alike.
    pub fn las(&mut self, mode: &AddressingMode)
        requires
            old(self).wf(),
            !(*mode is NoneAddressing),
        ensures
            final(self).wf(),
            final(self).program_counter == old(self).program_counter,
            rd_quiet(*old(self), *mode) ==> *final(self) == (CPU {
                register_a: (operand_val(*old(self), *mode) & old(self).stack_pointer),
                register_x: (operand_val(*old(self), *mode) & old(self).stack_pointer),
                stack_pointer: (operand_val(*old(self), *mode) & old(self).stack_pointer),
                status: (CpuFlags {
                    zero: (operand_val(*old(self), *mode) & old(self).stack_pointer) == 0,
                    negative: (operand_val(*old(self), *mode) & old(self).stack_pointer) >= 128,
                    ..old(self).status
                }),
                ..*old(self)
            }),
    {
        let (addr, _) = self.get_operand_address(mode);
        let value = self.mem_read(addr);
        let res = value & self.stack_pointer;
        self.register_a = res;
        self.register_x = res;
        self.stack_pointer = res;
        self.update_zero_and_negative_flags(res);
    }

    /// LAX (undocumented): load the operand into the accumulator and X.
    pub fn lax(&mut self, mode: &AddressingMode)
        requires
            old(self).wf(),
            !(*mode is NoneAddressing),
        ensures
            final(self).wf(),
            final(self).program_counter == old(self).program_counter,
            rd_quiet(*old(self), *mode) ==> *final(self) == (CPU {
                register_a: operand_val(*old(self), *mode),
                register_x: operand_val(*old(self), *mode),
                status: (CpuFlags {
                    zero: operand_val(*old(self), *mode) == 0,
                    negative: operand_val(*old(self), *mode) >= 128,
                    ..old(self).status
                }),
                ..*old(self)
            }),
    {
        let (addr, _) = self.get_operand_address(mode);
        let value = self.mem_read(addr);
        self.set_register_a(value);
        self.register_x = value;
    }

    /// RLA (undocumented): rotate memory left, then AND the result into
    /// the accumulator.
    pub fn rla(&mut self, mode: &AddressingMode) -> (r: Result<(), EmuError>)
        requires
            old(self).wf(),
            !(*mode is NoneAddressing),
        ensures
            final(self).wf(),
            final(self).program_counter == old(self).program_counter,
            crate::errors::rom_fault_only(r),
            rd_quiet(*old(self), *mode) ==> (if opa_spec(*old(self), *mode) >= 0x8000 {
                r == Err::<(), EmuError>(EmuError::RomWriteAttempt(opa_spec(*old(self), *mode)))
                    && *final(self) == (CPU {
                    status: (CpuFlags {
                        carry: operand_val(*old(self), *mode) >= 128,
                        ..old(self).status
                    }),
                    ..*old(self)
                })
            } else {
                r == Ok::<(), EmuError>(()) && crate::bus::bus_write_rel(
                    old(self).bus,
                    final(self).bus,
                    opa_spec(*old(self), *mode),
                    (operand_val(*old(self), *mode) << 1) | (if old(self).status.carry {
                        1u8
                    } else {
                        0u8
                    }),
                ) && *final(self) == (CPU {
                    register_a: (((operand_val(*old(self), *mode) << 1) | (if old(self).status.carry {
                        1u8
                    } else {
                        0u8
                    })) & old(self).register_a),
                    status: (CpuFlags {
                        carry: operand_val(*old(self), *mode) >= 128,
                        zero: (((operand_val(*old(self), *mode) << 1) | (if old(self).status.carry {
                            1u8
                        } else {
                            0u8
                        })) & old(self).register_a) == 0,
                        negative: (((operand_val(*old(self), *mode) << 1) | (if old(self).status.carry {
                            1u8
                        } else {
                            0u8
                        })) & old(self).register_a) >= 128,
                        ..old(self).status
                    }),
                    bus: final(self).bus,
                    ..*old(self)
                })
            }),
    {
        match self.rol(mode) {
            Err(e) => Err(e),
            Ok(value) => {
                let a = self.register_a;
                self.set_register_a(value & a);
                Ok(())
            },
        }
    }

    /// RRA (undocumented): rotate memory right, then add the result into
    /// the accumulator with the carry the rotation produced.
    pub fn rra(&mut self, mode: &AddressingMode) -> (r: Result<(), EmuError>)
        requires
            old(self).wf(),
            !(*mode is NoneAddressing),
        ensures
            final(self).wf(),
            final(self).program_counter == old(self).program_counter,
            crate::errors::rom_fault_only(r),
            rd_quiet(*old(self), *mode) ==> (if opa_spec(*old(self), *mode) >= 0x8000 {
                r == Err::<(), EmuError>(EmuError::RomWriteAttempt(opa_spec(*old(self), *mode)))
                    && *final(self) == (CPU {
                    status: (CpuFlags {
                        carry: operand_val(*old(self), *mode) & 1 == 1,
                        ..old(self).status
                    }),
                    ..*old(self)
                })
            } else {
                r == Ok::<(), EmuError>(()) && crate::bus::bus_write_rel(
                    old(self).bus,
                    final(self).bus,
                    opa_spec(*old(self), *mode),
                    (operand_val(*old(self), *mode) >> 1) | (if old(self).status.carry {
                        128u8
                    } else {
                        0u8
                    }),
                ) && final(self).register_a == (old(self).register_a + ((operand_val(
                    *old(self),
                    *mode,
                ) >> 1) | (if old(self).status.carry {
                    128u8
                } else {
                    0u8
                })) + (if operand_val(*old(self), *mode) & 1 == 1 {
                    1int
                } else {
                    0int
                })) % 256 && final(self).status == (CpuFlags {
                    carry: old(self).register_a + ((operand_val(*old(self), *mode) >> 1) | (if old(self).status.carry {
                        128u8
                    } else {
                        0u8
                    })) + (if operand_val(*old(self), *mode) & 1 == 1 {
                        1int
                    } else {
                        0int
                    }) > 255,
                    overflow: ((((operand_val(*old(self), *mode) >> 1) | (if old(self).status.carry {
                        128u8
                    } else {
                        0u8
                    })) ^ final(self).register_a) & (final(self).register_a ^ old(self).register_a)) & 0x80 != 0,
                    zero: final(self).register_a == 0,
                    negative: final(self).register_a >= 128,
                    ..old(self).status
                }) && *final(self) == (CPU {
                    register_a: final(self).register_a,
                    status: final(self).status,
                    bus: final(self).bus,
                    ..*old(self)
                })
            }),
    {
        match self.ror(mode) {
            Err(e) => Err(e),
            Ok(value) => {
                self.add_to_register_a(value);
                Ok(())
            },
        }
    }

    /// The undocumented SBC encoding: identical to the documented one.
    pub fn sbc_ex(&mut self, mode: &AddressingMode)
        requires
            old(self).wf(),
            !(*mode is NoneAddressing),
        ensures
            final(self).wf(),
            final(self).program_counter == old(self).program_counter,
            rd_quiet(*old(self), *mode) ==> (*final(self) == (CPU {
                register_a: final(self).register_a,
                status: final(self).status,
                bus: final(self).bus,
                ..*old(self)
            }) && final(self).register_a == (old(self).register_a + (255
                - operand_val(*old(self), *mode)) + (if old(self).status.carry {
                1int
            } else {
                0int
            })) % 256 && opt_tick(old(self).bus, final(self).bus, opa_cross(*old(self), *mode))),
    {
        self.sbc(mode);
    }

    /// SLO (undocumented): shift memory left, then OR the result into the
    /// accumulator.
    pub fn slo(&mut self, mode: &AddressingMode) -> (r: Result<(), EmuError>)
        requires
            old(self).wf(),
            !(*mode is NoneAddressing),
        ensures
            final(self).wf(),
            final(self).program_counter == old(self).program_counter,
            crate::errors::rom_fault_only(r),
            rd_quiet(*old(self), *mode) ==> (if opa_spec(*old(self), *mode) >= 0x8000 {
                r == Err::<(), EmuError>(EmuError::RomWriteAttempt(opa_spec(*old(self), *mode)))
                    && *final(self) == (CPU {
                    status: (CpuFlags {
                        carry: operand_val(*old(self), *mode) >= 128,
                        ..old(self).status
                    }),
                    ..*old(self)
                })
            } else {
                r == Ok::<(), EmuError>(()) && crate::bus::bus_write_rel(
                    old(self).bus,
                    final(self).bus,
                    opa_spec(*old(self), *mode),
                    operand_val(*old(self), *mode) << 1,
                ) && *final(self) == (CPU {
                    register_a: (old(self).register_a | (operand_val(*old(self), *mode) << 1)),
                    status: (CpuFlags {
                        carry: operand_val(*old(self), *mode) >= 128,
                        zero: (old(self).register_a | (operand_val(*old(self), *mode) << 1)) == 0,
                        negative: (old(self).register_a | (operand_val(*old(self), *mode) << 1))
                            >= 128,
                        ..old(self).status
                    }),
                    bus: final(self).bus,
                    ..*old(self)
                })
            }),
    {
        match self.asl(mode) {
            Err(e) => Err(e),
            Ok(value) => {
                self.register_a = self.register_a | value;
                let a = self.register_a;
                self.update_zero_and_negative_flags(a);
                Ok(())
            },
        }
    }

    /// SRE (undocumented): shift memory right, then XOR the result into
    /// the accumulator.
    pub fn sre(&mut self, mode: &AddressingMode) -> (r: Result<(), EmuError>)
        requires
            old(self).wf(),
            !(*mode is NoneAddressing),
        ensures
            final(self).wf(),
            final(self).program_counter == old(self).program_counter,
            crate::errors::rom_fault_only(r),
            rd_quiet(*old(self), *mode) ==> (if opa_spec(*old(self), *mode) >= 0x8000 {
                r == Err::<(), EmuError>(EmuError::RomWriteAttempt(opa_spec(*old(self), *mode)))
                    && *final(self) == (CPU {
                    status: (CpuFlags {
                        carry: operand_val(*old(self), *mode) & 1 == 1,
                        ..old(self).status
                    }),
                    ..*old(self)
                })
            } else {
                r == Ok::<(), EmuError>(()) && crate::bus::bus_write_rel(
                    old(self).bus,
                    final(self).bus,
                    opa_spec(*old(self), *mode),
                    operand_val(*old(self), *mode) >> 1,
                ) && *final(self) == (CPU {
                    register_a: (old(self).register_a ^ (operand_val(*old(self), *mode) >> 1)),
                    status: (CpuFlags {
                        carry: operand_val(*old(self), *mode) & 1 == 1,
                        zero: (old(self).register_a ^ (operand_val(*old(self), *mode) >> 1)) == 0,
                        negative: (old(self).register_a ^ (operand_val(*old(self), *mode) >> 1))
                            >= 128,
                        ..old(self).status
                    }),
                    bus: final(self).bus,
                    ..*old(self)
                })
            }),
    {
        match self.lsr(mode) {
            Err(e) => Err(e),
            Ok(value) => {
                self.register_a = self.register_a ^ value;
                let a = self.register_a;
                self.update_zero_and_negative_flags(a);
                Ok(())
            },
        }
    }

    /// SHX (undocumented): store X AND (high byte of the target plus
    /// one); no flags move.
    pub fn shx(&mut self, mode: &AddressingMode) -> (r: Result<(), EmuError>)
        requires
            old(self).wf(),
            !(*mode is NoneAddressing),
        ensures
            final(self).wf(),
            crate::errors::rom_fault_only(r),
            cpu_regs_eq(*old(self), *final(self)),
            operand_quiet(*old(self), *mode) ==> (r == (if opa_spec(*old(self), *mode) >= 0x8000 {
                Err::<(), EmuError>(EmuError::RomWriteAttempt(opa_spec(*old(self), *mode)))
            } else {
                Ok::<(), EmuError>(())
            }) && crate::bus::bus_write_rel(
                old(self).bus,
                final(self).bus,
                opa_spec(*old(self), *mode),
                old(self).register_x & (((opa_spec(*old(self), *mode) / 256 + 1) % 256) as u8),
            )),
    {
        let (addr, _) = self.get_operand_address(mode);
        let tmp = ((addr / 256) as u8).wrapping_add(1);
        let res = self.register_x & tmp;
        self.mem_write(addr, res)
    }

    /// SHY (undocumented): store Y AND (high byte of the target plus
    /// one); no flags move.
    pub fn shy(&mut self, mode: &AddressingMode) -> (r: Result<(), EmuError>)
        requires
            old(self).wf(),
            !(*mode is NoneAddressing),
        ensures
            final(self).wf(),
            crate::errors::rom_fault_only(r),
            cpu_regs_eq(*old(self), *final(self)),
            operand_quiet(*old(self), *mode) ==> (r == (if opa_spec(*old(self), *mode) >= 0x8000 {
                Err::<(), EmuError>(EmuError::RomWriteAttempt(opa_spec(*old(self), *mode)))
            } else {
                Ok::<(), EmuError>(())
            }) && crate::bus::bus_write_rel(
                old(self).bus,
                final(self).bus,
                opa_spec(*old(self), *mode),
                old(self).register_y & (((opa_spec(*old(self), *mode) / 256 + 1) % 256) as u8),
            )),
    {
        let (addr, _) = self.get_operand_address(mode);
        let tmp = ((addr / 256) as u8).wrapping_add(1);
        let res = self.register_y & tmp;
        self.mem_write(addr, res)
    }

    /// XAA (undocumented, behaviour a documented approximation): copy X to
    /// the accumulator, then AND the operand into it.
    pub fn xaa(&mut self, mode: &AddressingMode)
        requires
            old(self).wf(),
            !(*mode is NoneAddressing),
        ensures
            final(self).wf(),
            final(self).program_counter == old(self).program_counter,
            rd_quiet(
                (CPU { register_a: old(self).register_x, ..*old(self) }),
                *mode,
            ) ==> *final(self) == (CPU {
                register_a: (operand_val(*old(self), *mode) & old(self).register_x),
                status: (CpuFlags {
                    zero: (operand_val(*old(self), *mode) & old(self).register_x) == 0,
                    negative: (operand_val(*old(self), *mode) & old(self).register_x) >= 128,
                    ..old(self).status
                }),
                ..*old(self)
            }),
    {
        self.register_a = self.register_x;
        let a = self.register_a;
        self.update_zero_and_negative_flags(a);
        let (addr, _) = self.get_operand_address(mode);
        let data = self.mem_read(addr);
        let a2 = self.register_a;
        self.set_register_a(data & a2);
    }

    /// TAS (undocumented): the accumulator-AND-X mask becomes the stack
    /// pointer, and its conjunction with the incremented high target byte
    /// is stored.
    pub fn tas(&mut self, mode: &AddressingMode) -> (r: Result<(), EmuError>)
        requires
            old(self).wf(),
            !(*mode is NoneAddressing),
        ensures
            final(self).wf(),
            final(self).program_counter == old(self).program_counter,
            crate::errors::rom_fault_only(r),
            operand_quiet(*old(self), *mode) ==> (final(self).stack_pointer == (old(self).register_x & old(self).register_a) && *final(self) == (CPU {
                stack_pointer: final(self).stack_pointer,
                bus: final(self).bus,
                ..*old(self)
            }) && r == (if opa_spec(*old(self), *mode) >= 0x8000 {
                Err::<(), EmuError>(EmuError::RomWriteAttempt(opa_spec(*old(self), *mode)))
            } else {
                Ok::<(), EmuError>(())
            }) && crate::bus::bus_write_rel(
                old(self).bus,
                final(self).bus,
                opa_spec(*old(self), *mode),
                (old(self).register_x & old(self).register_a) & (((opa_spec(*old(self), *mode)
                    / 256 + 1) % 256) as u8),
            )),
    {
        let (addr, _) = self.get_operand_address(mode);
        let res = self.register_x & self.register_a;
        self.stack_pointer = res;
        let res1 = self.stack_pointer & ((addr / 256) as u8).wrapping_add(1);
        self.mem_write(addr, res1)
    }
}

} // verus!
