use vstd::prelude::*;
use vstd::arithmetic::div_mod::lemma_fundamental_div_mod_converse;
use crate::bus::{bus_peek, bus_peek16};
use crate::cartridge::Mirroring;
use crate::cpu::{CPU, AddressingMode, ea_spec, push_rel, pop_rel};
use crate::ppu::{NesPPU, mirror_spec, tick_rel};

verus! {

/// Pushing a byte and popping it straight back is a round trip: the same
/// byte comes out, the stack pointer is restored, and memory differs only
/// at the slot the push wrote.
pub proof fn lemma_stack_round_trip(c0: CPU, c1: CPU, c2: CPU, v: u8, r: u8)
    requires
        c0.wf(),
        push_rel(c0, c1, v),
        pop_rel(c1, c2, r),
    ensures
        r == v,
        c2.stack_pointer == c0.stack_pointer,
        c2.register_a == c0.register_a,
        c2.register_x == c0.register_x,
        c2.register_y == c0.register_y,
        c2.status == c0.status,
        c2.program_counter == c0.program_counter,
        c2.bus.cpu_vram@ == c0.bus.cpu_vram@.update(0x100 + c0.stack_pointer, v),
{
    assert((c1.stack_pointer + 1) % 256 == c0.stack_pointer as int);
}

/// Adding an operand and then subtracting it back is a round trip on the
/// accumulator: `adc` with carry clear leaves `(a + v) % 256`, and `sbc`
/// of the same operand with carry set adds `255 - v + 1`, restoring `a`
/// whatever the first addition's carry-out was. The sums are exactly the
/// ones the two instructions' contracts state.
pub proof fn lemma_adc_then_sbc_restores(a: u8, v: u8)
    ensures
        (((a + v) % 256) + (255 - v) + 1) % 256 == a,
{
}

/// The dot counter is plain base-341 arithmetic below the vertical-blank
/// scanline: one tick of `d` dots adds exactly `d` to the machine's total
/// dot position, and neither the status byte nor the interrupt latch
/// moves.
pub proof fn lemma_tick_dot_count(p0: NesPPU, p1: NesPPU, d: int)
    requires
        p0.wf(),
        0 <= d,
        tick_rel(p0, p1, d),
        341 * p0.scanline + p0.cycles + d < 341 * 241,
    ensures
        341 * p1.scanline + p1.cycles == 341 * p0.scanline + p0.cycles + d,
        p1.status == p0.status,
        p1.nmi_interrupt == p0.nmi_interrupt,
{
}

/// Below the vertical-blank scanline, the machine's position after `total`
/// dots from the frame's origin is `total / 341` scanlines and
/// `total % 341` dots into the current one.
pub proof fn lemma_dot_position(p: NesPPU, total: int)
    requires
        p.wf(),
        0 <= total,
        341 * p.scanline + p.cycles == total,
    ensures
        p.scanline == total / 341,
        p.cycles == total % 341,
{
    lemma_fundamental_div_mod_converse(total, 341, p.scanline as int, p.cycles as int);
}

/// Nametable mirroring sees only the low fourteen bits of an address:
/// every alias of a nametable cell folds onto the same physical VRAM
/// index, whatever the mirroring mode.
pub proof fn lemma_mirror_aliases(m: Mirroring, a1: u16, a2: u16)
    requires
        a1 & 0x2FFF == a2 & 0x2FFF,
    ensures
        mirror_spec(m, a1) == mirror_spec(m, a2),
{
}

/// The jump-indirect page-wrap defect, as the hardware has it: when the
/// pointer's address ends in 0xFF, the target's high byte is fetched from
/// the start of the pointer's own page, not from the next page.
pub proof fn lemma_jmp_indirect_page_wrap(c: CPU)
    requires
        bus_peek16(c.bus, c.program_counter) % 256 == 0xFF,
    ensures
        ea_spec(c, AddressingMode::Indirect_jmp, c.program_counter) == bus_peek(
            c.bus,
            (bus_peek16(c.bus, c.program_counter) / 256 * 256) as u16,
        ) * 256 + bus_peek(c.bus, bus_peek16(c.bus, c.program_counter)),
{
}


} // verus!
