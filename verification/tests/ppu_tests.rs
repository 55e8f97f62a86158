use nes_core::cartridge::Mirroring;
use nes_core::ppu::NesPPU;
use nes_core::registers::addr::AddrRegister;
use nes_core::registers::mask::{Color, MaskRegister};
use nes_core::registers::scroll::ScrollRegister;

fn zeroes(n: usize) -> Vec<u8> {
    vec![0u8; n]
}

#[test]
fn test_ppu_vram_writes() {
    let mut ppu = NesPPU::new_empty_rom();
    ppu.write_to_ppu_addr(0x23);
    ppu.write_to_ppu_addr(0x05);
    ppu.write_to_data(0x66);

    assert_eq!(ppu.vram[0x0305], 0x66);
}

#[test]
fn test_ppu_vram_reads() {
    let mut ppu = NesPPU::new_empty_rom();
    ppu.write_to_ctrl(0);
    ppu.vram[0x0305] = 0x66;

    ppu.write_to_ppu_addr(0x23);
    ppu.write_to_ppu_addr(0x05);

    ppu.read_data(); //load_into_buffer
    assert_eq!(ppu.addr.get(), 0x2306);
    assert_eq!(ppu.read_data(), 0x66);
}

#[test]
fn test_ppu_vram_reads_cross_page() {
    let mut ppu = NesPPU::new_empty_rom();
    ppu.write_to_ctrl(0);
    ppu.vram[0x01ff] = 0x66;
    ppu.vram[0x0200] = 0x77;

    ppu.write_to_ppu_addr(0x21);
    ppu.write_to_ppu_addr(0xff);

    ppu.read_data(); //load_into_buffer
    assert_eq!(ppu.read_data(), 0x66);
    assert_eq!(ppu.read_data(), 0x77);
}

#[test]
fn test_ppu_vram_reads_step_32() {
    let mut ppu = NesPPU::new_empty_rom();
    ppu.write_to_ctrl(0b100);
    ppu.vram[0x01ff] = 0x66;
    ppu.vram[0x01ff + 32] = 0x77;
    ppu.vram[0x01ff + 64] = 0x88;

    ppu.write_to_ppu_addr(0x21);
    ppu.write_to_ppu_addr(0xff);

    ppu.read_data(); //load_into_buffer
    assert_eq!(ppu.read_data(), 0x66);
    assert_eq!(ppu.read_data(), 0x77);
    assert_eq!(ppu.read_data(), 0x88);
}

#[test]
fn test_vram_horizontal_mirror() {
    let mut ppu = NesPPU::new_empty_rom();
    ppu.write_to_ppu_addr(0x24);
    ppu.write_to_ppu_addr(0x05);

    ppu.write_to_data(0x66); //write to a

    ppu.write_to_ppu_addr(0x28);
    ppu.write_to_ppu_addr(0x05);

    ppu.write_to_data(0x77); //write to B

    ppu.write_to_ppu_addr(0x20);
    ppu.write_to_ppu_addr(0x05);

    ppu.read_data(); //load into buffer
    assert_eq!(ppu.read_data(), 0x66); //read from A

    ppu.write_to_ppu_addr(0x2C);
    ppu.write_to_ppu_addr(0x05);

    ppu.read_data(); //load into buffer
    assert_eq!(ppu.read_data(), 0x77); //read from b
}

#[test]
fn test_vram_vertical_mirror() {
    let mut ppu = NesPPU::new(zeroes(2048), Mirroring::VERTICAL);

    ppu.write_to_ppu_addr(0x20);
    ppu.write_to_ppu_addr(0x05);

    ppu.write_to_data(0x66); //write to A

    ppu.write_to_ppu_addr(0x2C);
    ppu.write_to_ppu_addr(0x05);

    ppu.write_to_data(0x77); //write to b

    ppu.write_to_ppu_addr(0x28);
    ppu.write_to_ppu_addr(0x05);

    ppu.read_data(); //load into buffer
    assert_eq!(ppu.read_data(), 0x66); //read from a

    ppu.write_to_ppu_addr(0x24);
    ppu.write_to_ppu_addr(0x05);

    ppu.read_data(); //load into buffer
    assert_eq!(ppu.read_data(), 0x77); //read from B
}

#[test]
fn test_read_status_resets_latch() {
    let mut ppu = NesPPU::new_empty_rom();
    ppu.vram[0x0305] = 0x66;

    ppu.write_to_ppu_addr(0x21);
    ppu.write_to_ppu_addr(0x23);
    ppu.write_to_ppu_addr(0x05);

    ppu.read_data(); //load_into_buffer
    assert_ne!(ppu.read_data(), 0x66);

    ppu.read_status();

    ppu.write_to_ppu_addr(0x23);
    ppu.write_to_ppu_addr(0x05);

    ppu.read_data(); //load_into_buffer
    assert_eq!(ppu.read_data(), 0x66);
}

#[test]
fn test_ppu_vram_mirroring() {
    let mut ppu = NesPPU::new_empty_rom();
    ppu.write_to_ctrl(0);
    ppu.vram[0x0305] = 0x66;

    ppu.write_to_ppu_addr(0x63); //0x6305 -> 0x2305
    ppu.write_to_ppu_addr(0x05);

    ppu.read_data(); //load into_buffer
    assert_eq!(ppu.read_data(), 0x66);
}

#[test]
fn test_read_status_resets_vblank() {
    let mut ppu = NesPPU::new_empty_rom();
    ppu.status.set_vblank_started(true);

    let status = ppu.read_status();

    assert_eq!(status >> 7, 1);
    assert_eq!(ppu.status.get_status() >> 7, 0);
}

#[test]
fn test_oam_read_write() {
    let mut ppu = NesPPU::new_empty_rom();
    ppu.write_to_oam_addr(0x10);
    ppu.write_to_oam_data(0x66);
    ppu.write_to_oam_data(0x77);

    ppu.write_to_oam_addr(0x10);
    assert_eq!(ppu.read_oam_data(), 0x66);

    ppu.write_to_oam_addr(0x11);
    assert_eq!(ppu.read_oam_data(), 0x77);
}

#[test]
fn test_oam_dma() {
    let mut ppu = NesPPU::new_empty_rom();

    let mut data = [0x66; 256];
    data[0] = 0x77;
    data[255] = 0x88;

    ppu.write_to_oam_addr(0x10);
    ppu.write_oam_dma(&data);

    ppu.write_to_oam_addr(0xf); //wrap around
    assert_eq!(ppu.read_oam_data(), 0x88);

    ppu.write_to_oam_addr(0x10);
    assert_eq!(ppu.read_oam_data(), 0x77);

    ppu.write_to_oam_addr(0x11);
    assert_eq!(ppu.read_oam_data(), 0x66);
}

#[test]
fn test_ppu_timing_three_and_a_bit_scanlines() {
    let mut ppu = NesPPU::new_empty_rom();
    // 341 ticks of 4 dots each: 1364 dots, i.e. exactly four scanlines.
    for _ in 0..341 {
        ppu.tick(4);
    }
    assert_eq!(ppu.scanline, 1364 / 341);
    assert_eq!(ppu.cycles, 1364 % 341);
    assert_eq!(ppu.scanline, 4);
    assert_eq!(ppu.cycles, 0);
}

#[test]
fn test_ppu_vblank_and_nmi_once() {
    let mut ppu = NesPPU::new_empty_rom();
    ppu.write_to_ctrl(0x80); // enable NMI generation
    // Reach scanline 241: 241 * 341 dots.
    for _ in 0..341 {
        ppu.tick(241);
    }
    assert_eq!(ppu.scanline, 241);
    assert!(ppu.status.check_vblank_started());
    assert_eq!(ppu.poll_nmi_interrupt(), Some(1));
    assert_eq!(ppu.poll_nmi_interrupt(), None);
}

#[test]
fn test_ppu_frame_end_clears_vblank() {
    let mut ppu = NesPPU::new_empty_rom();
    ppu.write_to_ctrl(0x80);
    for _ in 0..341 {
        ppu.tick(241);
    }
    assert!(ppu.status.check_vblank_started());
    // 21 more scanlines wrap the frame back to scanline 0.
    for _ in 0..21 {
        ppu.tick(255);
        ppu.tick(86);
    }
    assert_eq!(ppu.scanline, 0);
    assert!(!ppu.status.check_vblank_started());
    assert_eq!(ppu.poll_nmi_interrupt(), None);
}

#[test]
fn test_ctrl_register_fields() {
    let mut ppu = NesPPU::new_empty_rom();
    ppu.write_to_ctrl(0b0000_0100);
    assert_eq!(ppu.ctrl.vram_addr_increment(), 32);
    ppu.write_to_ctrl(0);
    assert_eq!(ppu.ctrl.vram_addr_increment(), 1);
    ppu.write_to_ctrl(0b0000_0011);
    assert_eq!(ppu.ctrl.base_nametable_addr(), 0x2C00);
    ppu.write_to_ctrl(0b0011_1000);
    assert_eq!(ppu.ctrl.sprite_pattern_addr(), 0x1000);
    assert_eq!(ppu.ctrl.backround_pattern_addr(), 0x1000);
    assert_eq!(ppu.ctrl.sprite_size(), 16);
    assert_eq!(ppu.ctrl.master_slave_select(), 0);
    assert!(!ppu.ctrl.generate_nmi());
}

#[test]
fn test_mask_register_fields() {
    let mut mask = MaskRegister::new();
    mask.update(0b1010_1001);
    assert_eq!(mask.check_gray_scale(), 1);
    assert_eq!(mask.check_show_background_left(), 0);
    assert_eq!(mask.check_show_sprite_left(), 0);
    assert_eq!(mask.check_show_background(), 1);
    // red, then blue, then green, as the register reports them
    assert_eq!(mask.emphasize_red(), vec![Color::Red, Color::Blue]);
}

#[test]
fn test_addr_register_masks_to_vram_space() {
    let mut addr = AddrRegister::new();
    addr.update(0x7F); // masked down into 0..0x4000
    addr.update(0xFF);
    assert_eq!(addr.get(), 0x3FFF);
    addr.increment(1);
    assert_eq!(addr.get(), 0x0000);
}

#[test]
fn test_scroll_register_two_writes() {
    let mut scroll = ScrollRegister::new();
    scroll.write(0x21);
    scroll.write(0x42);
    assert_eq!(scroll.h_scroll, 0x21);
    assert_eq!(scroll.v_scroll, 0x42);
    assert!(!scroll.latch);
    scroll.write(0x11);
    scroll.reset_latch();
    scroll.write(0x99);
    assert_eq!(scroll.h_scroll, 0x99);
}

#[test]
fn test_mirror_vram_addr_fold_table() {
    let h = NesPPU::new_empty_rom();
    // Horizontal: the two upper logical tables fold onto the second bank,
    // the second logical table onto the first.
    assert_eq!(h.mirror_vram_addr(0x2005), 0x005);
    assert_eq!(h.mirror_vram_addr(0x2405), 0x005);
    assert_eq!(h.mirror_vram_addr(0x2805), 0x405);
    assert_eq!(h.mirror_vram_addr(0x2C05), 0x405);

    let v = NesPPU::new(zeroes(2048), Mirroring::VERTICAL);
    // Vertical: the upper pair folds straight down.
    assert_eq!(v.mirror_vram_addr(0x2005), 0x005);
    assert_eq!(v.mirror_vram_addr(0x2405), 0x405);
    assert_eq!(v.mirror_vram_addr(0x2805), 0x005);
    assert_eq!(v.mirror_vram_addr(0x2C05), 0x405);
}
