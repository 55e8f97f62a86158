use nes_core::bus::Bus;
use nes_core::cartridge::{Mirroring, Rom};
use nes_core::cpu::{AddressingMode, CPU};
use nes_core::cpu::Mem;
use nes_core::errors::EmuError;

/// A cartridge whose reset vector points at the RAM load origin 0x0600.
fn test_rom() -> Rom {
    let mut prg = vec![0u8; 0x8000];
    prg[0x7FFC] = 0x00;
    prg[0x7FFD] = 0x06;
    Rom {
        prg_rom: prg,
        chr_rom: vec![0u8; 2048],
        mapper: 0,
        screen_mirroring: Mirroring::HORIZONTAL,
    }
}

fn test_cpu() -> CPU {
    CPU::new(Bus::new(test_rom()))
}

#[test]
fn test_adc_simple_no_carry() {
    let mut cpu = test_cpu();
    cpu.program_counter = 0x0200;
    cpu.mem_write(0x0200, 0x10).unwrap();
    cpu.register_a = 0x01;
    cpu.status.carry = false;
    cpu.adc(&AddressingMode::Immediate);
    assert_eq!(cpu.register_a, 0x11);
    assert!(!cpu.status.carry);
    assert!(!cpu.status.zero);
}

#[test]
fn test_adc_wraps_and_sets_carry() {
    let mut cpu = test_cpu();
    cpu.program_counter = 0x0200;
    cpu.mem_write(0x0200, 0xFF).unwrap();
    cpu.register_a = 0x02;
    cpu.status.carry = false;
    cpu.adc(&AddressingMode::Immediate);
    assert_eq!(cpu.register_a, 0x01);
    assert!(cpu.status.carry);
}

#[test]
fn test_adc_signed_overflow() {
    let mut cpu = test_cpu();
    cpu.program_counter = 0x0200;
    cpu.mem_write(0x0200, 0x7F).unwrap();
    cpu.register_a = 0x01;
    cpu.status.carry = false;
    cpu.adc(&AddressingMode::Immediate);
    assert_eq!(cpu.register_a, 0x80);
    assert!(cpu.status.overflow);
    assert!(cpu.status.negative);
    assert!(!cpu.status.carry);
}

#[test]
fn test_sbc_with_borrow_clear() {
    let mut cpu = test_cpu();
    cpu.program_counter = 0x0200;
    cpu.mem_write(0x0200, 0x05).unwrap();
    cpu.register_a = 0x10;
    cpu.status.carry = true;
    cpu.sbc(&AddressingMode::Immediate);
    assert_eq!(cpu.register_a, 0x0B);
    assert!(cpu.status.carry);
}

#[test]
fn test_adc_round_trip_with_sbc() {
    let mut cpu = test_cpu();
    cpu.program_counter = 0x0200;
    cpu.mem_write(0x0200, 0x2A).unwrap();
    cpu.register_a = 0x13;
    cpu.status.carry = false;
    cpu.adc(&AddressingMode::Immediate);
    assert_eq!(cpu.register_a, 0x3D);
    cpu.program_counter = 0x0200;
    cpu.status.carry = true;
    cpu.sbc(&AddressingMode::Immediate);
    assert_eq!(cpu.register_a, 0x13);
}

#[test]
fn test_jmp_indirect_page_wrap_bug() {
    let mut cpu = test_cpu();
    // Pointer address 0x02FF ends in 0xFF: the high target byte must come
    // from 0x0200 (start of the same page), not 0x0300.
    cpu.mem_write(0x02FF, 0x80).unwrap();
    cpu.mem_write(0x0200, 0x40).unwrap();
    cpu.mem_write(0x0300, 0x99).unwrap();
    cpu.program_counter = 0x0500;
    cpu.mem_write(0x0500, 0xFF).unwrap();
    cpu.mem_write(0x0501, 0x02).unwrap();
    let (addr, crossed) = cpu.get_absolute_address(&AddressingMode::Indirect_jmp, 0x0500);
    assert_eq!(addr, 0x4080);
    assert!(!crossed);
}

#[test]
fn test_jmp_indirect_no_wrap_when_not_on_boundary() {
    let mut cpu = test_cpu();
    cpu.mem_write(0x02FE, 0x80).unwrap();
    cpu.mem_write(0x02FF, 0x40).unwrap();
    cpu.program_counter = 0x0500;
    cpu.mem_write(0x0500, 0xFE).unwrap();
    cpu.mem_write(0x0501, 0x02).unwrap();
    let (addr, _) = cpu.get_absolute_address(&AddressingMode::Indirect_jmp, 0x0500);
    assert_eq!(addr, 0x4080);
}

#[test]
fn test_stack_push_pop_round_trip_all_bytes() {
    let mut cpu = test_cpu();
    for v in 0..=255u8 {
        let sp0 = cpu.stack_pointer;
        cpu.stack_push(v);
        let back = cpu.stack_pop();
        assert_eq!(back, v);
        assert_eq!(cpu.stack_pointer, sp0);
    }
}

#[test]
fn test_stack_u16_round_trip() {
    let mut cpu = test_cpu();
    let sp0 = cpu.stack_pointer;
    cpu.stack_push_u16(0xBEEF);
    assert_eq!(cpu.stack_pop_u16(), 0xBEEF);
    assert_eq!(cpu.stack_pointer, sp0);
}

#[test]
fn test_stack_pointer_wraps_silently() {
    let mut cpu = test_cpu();
    cpu.stack_pointer = 0x00;
    cpu.stack_push(0x42);
    assert_eq!(cpu.stack_pointer, 0xFF);
    assert_eq!(cpu.stack_pop(), 0x42);
    assert_eq!(cpu.stack_pointer, 0x00);
}

#[test]
fn test_all_256_opcodes_dispatch_without_unknown_opcode() {
    for code in 0..=255u8 {
        let mut cpu = test_cpu();
        cpu.program_counter = 0x0200;
        cpu.mem_write(0x0200, code).unwrap();
        let r = cpu.step();
        assert!(!matches!(r, Err(EmuError::UnknownOpcode(_))), "opcode {:#04x}", code);
        assert!(!matches!(r, Err(EmuError::InvalidAddressingModeUse)), "opcode {:#04x}", code);
    }
}

#[test]
fn test_rom_write_is_a_structured_fault() {
    let mut cpu = test_cpu();
    assert_eq!(cpu.mem_write(0x8000, 0x01), Err(EmuError::RomWriteAttempt(0x8000)));
    // STA $9000 from a little program: the fault surfaces from run.
    let program = vec![0xA9, 0x55, 0x8D, 0x00, 0x90, 0x00];
    let r = cpu.load_and_run(program);
    assert_eq!(r, Err(EmuError::RomWriteAttempt(0x9000)));
}

#[test]
fn test_load_and_run_small_program() {
    // LDA #$C0, TAX, INX, BRK
    let mut cpu = test_cpu();
    cpu.load_and_run(vec![0xA9, 0xC0, 0xAA, 0xE8, 0x00]).unwrap();
    assert_eq!(cpu.register_a, 0xC0);
    assert_eq!(cpu.register_x, 0xC1);
}

#[test]
fn test_lda_sets_zero_flag() {
    let mut cpu = test_cpu();
    cpu.load_and_run(vec![0xA9, 0x00, 0x00]).unwrap();
    assert!(cpu.status.zero);
}

#[test]
fn test_branch_taken_and_not_taken() {
    // LDA #$01 (clears zero), BNE +2 over LDA #$AA, BRK
    let mut cpu = test_cpu();
    cpu.load_and_run(vec![0xA9, 0x01, 0xD0, 0x02, 0xA9, 0xAA, 0x00]).unwrap();
    assert_eq!(cpu.register_a, 0x01);
    // LDA #$00 (sets zero), BNE not taken, LDA #$AA runs
    let mut cpu2 = test_cpu();
    cpu2.load_and_run(vec![0xA9, 0x00, 0xD0, 0x02, 0xA9, 0xAA, 0x00]).unwrap();
    assert_eq!(cpu2.register_a, 0xAA);
}

#[test]
fn test_compare_sets_carry_and_zero() {
    // LDA #$10, CMP #$10, BRK
    let mut cpu = test_cpu();
    cpu.load_and_run(vec![0xA9, 0x10, 0xC9, 0x10, 0x00]).unwrap();
    assert!(cpu.status.carry);
    assert!(cpu.status.zero);
}

#[test]
fn test_jsr_rts_round_trip() {
    // JSR to a subroutine at 0x0609 that does INX then RTS; main then BRK.
    // 0x0600: JSR $0609 ; 0x0603: INX ; 0x0604: BRK
    let mut cpu = test_cpu();
    cpu.load_and_run(vec![
        0x20, 0x09, 0x06, 0xE8, 0x00, 0xEA, 0xEA, 0xEA, 0xEA, 0xE8, 0x60,
    ])
    .unwrap();
    assert_eq!(cpu.register_x, 0x02);
}

#[test]
fn test_reset_loads_vector_and_flags() {
    let mut cpu = test_cpu();
    cpu.register_a = 0x55;
    cpu.status.carry = true;
    cpu.reset();
    assert_eq!(cpu.register_a, 0);
    assert_eq!(cpu.program_counter, 0x0600);
    assert_eq!(cpu.stack_pointer, 0xFD);
    assert!(cpu.status.interrupt_disable);
    assert!(cpu.status.break2);
    assert!(!cpu.status.carry);
}

#[test]
fn test_php_plp_keeps_flags() {
    let mut cpu = test_cpu();
    cpu.status.carry = true;
    cpu.status.negative = true;
    cpu.php();
    cpu.status.carry = false;
    cpu.status.negative = false;
    cpu.plp();
    assert!(cpu.status.carry);
    assert!(cpu.status.negative);
    assert!(!cpu.status.break_flag);
    assert!(cpu.status.break2);
}

#[test]
fn test_asl_and_ror_flags() {
    let mut cpu = test_cpu();
    cpu.register_a = 0b1000_0001;
    cpu.asl_accumulator();
    assert_eq!(cpu.register_a, 0b0000_0010);
    assert!(cpu.status.carry);
    cpu.status.carry = true;
    cpu.register_a = 0b0000_0001;
    cpu.ror_accumulator();
    assert_eq!(cpu.register_a, 0b1000_0000);
    assert!(cpu.status.carry);
    assert!(cpu.status.negative);
}

#[test]
fn test_axs_zeroes_x() {
    // AXS takes the mask's difference with itself, so X comes out zero.
    let mut cpu = test_cpu();
    cpu.program_counter = 0x0200;
    cpu.mem_write(0x0200, 0x01).unwrap();
    cpu.register_a = 0xFF;
    cpu.register_x = 0x0F;
    cpu.axs(&AddressingMode::Immediate);
    assert_eq!(cpu.register_x, 0);
    assert!(cpu.status.zero);
    assert!(cpu.status.carry);
}

#[test]
fn test_nmi_interrupts_a_busy_loop() {
    // Enable NMI generation, then spin: the PPU reaches vertical blank,
    // the interrupt fires, and the zeroed vector at 0xFFFA lands on a
    // halt opcode.
    let mut cpu = test_cpu();
    // LDA #$80 ; STA $2000 ; JMP $0605
    cpu.load_and_run(vec![0xA9, 0x80, 0x8D, 0x00, 0x20, 0x4C, 0x05, 0x06]).unwrap();
    assert!(cpu.status.interrupt_disable);
    // The return address and status byte sit on the stack.
    assert_eq!(cpu.stack_pointer, 0xFD - 3);
    assert_eq!(cpu.program_counter, 0x0001);
    assert!(cpu.bus.poll_frame_event());
}

#[test]
fn test_mem_trait_surface_on_bus() {
    let mut bus = Bus::new(test_rom());
    Mem::mem_write_u16(&mut bus, 0x0010, 0xBEEF).unwrap();
    assert_eq!(Mem::mem_read_u16(&mut bus, 0x0010), 0xBEEF);
    assert_eq!(Mem::mem_read(&mut bus, 0x0010), 0xEF);
    assert_eq!(Mem::mem_read(&mut bus, 0x0011), 0xBE);
}

#[test]
fn test_step_services_pending_nmi() {
    let mut cpu = test_cpu();
    cpu.program_counter = 0x1234;
    let sp0 = cpu.stack_pointer;
    cpu.bus.ppu.nmi_interrupt = Some(1);
    let r = cpu.step();
    assert_eq!(r, Ok(true));
    assert_eq!(cpu.stack_pointer, sp0.wrapping_sub(3));
    assert!(cpu.status.interrupt_disable);
    assert_eq!(cpu.bus.ppu.nmi_interrupt, None);
    // zeroed interrupt vector: the handler starts at 0x0000
    assert_eq!(cpu.program_counter, 0x0000);
    // the pushed frame: return address high, low, then the status byte
    assert_eq!(cpu.mem_read(0x0100 + sp0 as u16), 0x12);
    assert_eq!(cpu.mem_read(0x0100 + sp0.wrapping_sub(1) as u16), 0x34);
}

#[test]
fn test_step_brk_is_the_halt_signal() {
    let mut cpu = test_cpu();
    cpu.program_counter = 0x0200; // RAM is zeroed: opcode 0x00
    let a0 = cpu.register_a;
    let sp0 = cpu.stack_pointer;
    let r = cpu.step();
    assert_eq!(r, Ok(false));
    assert_eq!(cpu.program_counter, 0x0201);
    assert_eq!(cpu.register_a, a0);
    assert_eq!(cpu.stack_pointer, sp0);
}
