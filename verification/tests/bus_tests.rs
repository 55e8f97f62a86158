use nes_core::bus::Bus;
use nes_core::cartridge::{Mirroring, Rom};
use nes_core::errors::EmuError;
use nes_core::opcodes::{opcode_lookup, opcode_table};

fn test_rom() -> Rom {
    let mut prg = vec![0u8; 0x8000];
    prg[0x7FFC] = 0x00;
    prg[0x7FFD] = 0x06;
    Rom {
        prg_rom: prg,
        chr_rom: vec![0u8; 2048],
        mapper: 0,
        screen_mirroring: Mirroring::HORIZONTAL,
    }
}

#[test]
fn test_ram_mirrors_every_2kb() {
    let mut bus = Bus::new(test_rom());
    bus.mem_write(0x0800, 0x55).unwrap();
    assert_eq!(bus.mem_read(0x0000), 0x55);
    bus.mem_write(0x0042, 0x66).unwrap();
    assert_eq!(bus.mem_read(0x1842), 0x66);
}

#[test]
fn test_prg_rom_16k_image_is_mirrored() {
    let mut prg = vec![0u8; 0x4000];
    prg[0x0123] = 0xAB;
    let rom = Rom {
        prg_rom: prg,
        chr_rom: vec![0u8; 2048],
        mapper: 0,
        screen_mirroring: Mirroring::VERTICAL,
    };
    let mut bus = Bus::new(rom);
    assert_eq!(bus.mem_read(0x8123), 0xAB);
    assert_eq!(bus.mem_read(0xC123), 0xAB);
}

#[test]
fn test_rom_write_fault_through_bus() {
    let mut bus = Bus::new(test_rom());
    assert_eq!(bus.mem_write(0xFFFF, 0x01), Err(EmuError::RomWriteAttempt(0xFFFF)));
    assert_eq!(bus.mem_write(0x1FFF, 0x01), Ok(()));
}

#[test]
fn test_unimplemented_regions_read_zero() {
    let mut bus = Bus::new(test_rom());
    assert_eq!(bus.mem_read(0x4000), 0);
    assert_eq!(bus.mem_read(0x4017), 0);
    assert_eq!(bus.mem_read(0x5123), 0);
    assert_eq!(bus.mem_write(0x4000, 0x99), Ok(()));
}

#[test]
fn test_input_latch_register() {
    let mut bus = Bus::new(test_rom());
    bus.mem_write(0x4016, 0x2A).unwrap();
    assert_eq!(bus.mem_read(0x4016), 0x2A);
}

#[test]
fn test_ppu_registers_through_bus_mirrors() {
    let mut bus = Bus::new(test_rom());
    // Write 0x66 via the address/data registers at a mirrored location.
    bus.mem_write(0x2006, 0x23).unwrap();
    bus.mem_write(0x2006, 0x05).unwrap();
    bus.mem_write(0x2007, 0x66).unwrap();
    // Read it back through the mirror of the registers at 0x3FF8.
    bus.mem_write(0x3FFE, 0x23).unwrap();
    bus.mem_write(0x3FFE, 0x05).unwrap();
    bus.mem_read(0x3FFF); // buffered read loads
    assert_eq!(bus.mem_read(0x3FFF), 0x66);
}

#[test]
fn test_oam_dma_through_bus() {
    let mut bus = Bus::new(test_rom());
    for i in 0..256u16 {
        bus.mem_write(0x0200 + i, (i % 256) as u8).unwrap();
    }
    bus.mem_write(0x2003, 0x10).unwrap(); // OAM cursor
    let before = bus.cycles;
    bus.mem_write(0x4014, 0x02).unwrap(); // DMA from page 2
    assert_eq!(bus.cycles, before + 513);
    // byte 0 of the page landed at cursor 0x10, wrapping at 256
    bus.mem_write(0x2003, 0x10).unwrap();
    assert_eq!(bus.mem_read(0x2004), 0x00);
    bus.mem_write(0x2003, 0x0F).unwrap();
    assert_eq!(bus.mem_read(0x2004), 0xFF);
    bus.mem_write(0x2003, 0x11).unwrap();
    assert_eq!(bus.mem_read(0x2004), 0x01);
}

#[test]
fn test_tick_forwards_three_dots_per_cycle() {
    let mut bus = Bus::new(test_rom());
    bus.tick(10);
    assert_eq!(bus.cycles, 10);
    assert_eq!(bus.ppu.cycles, 30);
    assert_eq!(bus.ppu.scanline, 0);
}

#[test]
fn test_frame_event_rises_with_nmi_edge() {
    let mut bus = Bus::new(test_rom());
    bus.mem_write(0x2000, 0x80).unwrap(); // enable NMI generation
    assert!(!bus.poll_frame_event());
    // Drive the PPU to scanline 241: 241 * 341 dots = 27393.67 CPU cycles.
    for _ in 0..481 {
        bus.tick(57); // 57 cycles = 171 dots
    }
    assert!(bus.poll_frame_event());
    assert!(!bus.poll_frame_event());
    assert_eq!(bus.poll_nmi_status(), Some(1));
    assert_eq!(bus.poll_nmi_status(), None);
}

#[test]
fn test_opcode_table_is_total() {
    let table = opcode_table();
    assert_eq!(table.len(), 256);
    for i in 0..256usize {
        assert_eq!(table[i].code as usize, i);
        assert!(table[i].len >= 1 && table[i].len <= 3);
        assert!(table[i].cycles >= 1 && table[i].cycles <= 8);
    }
}

#[test]
fn test_opcode_lookup_entries() {
    let op = opcode_lookup(0x69);
    assert_eq!(op.mnemonic, "ADC");
    assert_eq!(op.len, 2);
    assert_eq!(op.cycles, 2);
    let op2 = opcode_lookup(0x6C);
    assert_eq!(op2.mnemonic, "JMP");
    assert_eq!(op2.cycles, 5);
    let op3 = opcode_lookup(0x9B);
    assert_eq!(op3.mnemonic, "*TAS");
}

#[test]
fn test_mem_write_u16_faults_on_rom() {
    let mut bus = Bus::new(test_rom());
    // both bytes in ROM: nothing written
    assert_eq!(bus.mem_write_u16(0x8000, 0xBEEF), Err(EmuError::RomWriteAttempt(0x8000)));
    // pair straddling the boundary: the low byte would land in ignored
    // expansion space, the high byte faults
    assert_eq!(bus.mem_write_u16(0x7FFF, 0xBEEF), Err(EmuError::RomWriteAttempt(0x8000)));
    // plain RAM pair
    assert_eq!(bus.mem_write_u16(0x0010, 0xBEEF), Ok(()));
    assert_eq!(bus.mem_read_u16(0x0010), 0xBEEF);
}
