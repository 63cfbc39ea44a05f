//! Address-bus routing: RAM regions and their mirror, the fallback
//! byte, OAM DMA, interrupt arbitration and the joypad register.

use fegabo::cartrage::CartrageMapper;
use fegabo::mem::{BusWrite, Buttons, GbMapper, Mem};

fn machine() -> Mem {
    Mem::new_gb(GbMapper::new(CartrageMapper::none()))
}

#[test]
fn work_ram_reads_back_and_is_mirrored() {
    let mut m = machine();
    assert!(matches!(m.write_8(0xC123, 0x42), BusWrite::Accepted));
    assert_eq!(m.load_8(0xC123), 0x42);
    assert_eq!(m.load_8(0xE123), 0x42);
    assert!(matches!(m.write_8(0xE124, 0x43), BusWrite::Accepted));
    assert_eq!(m.load_8(0xC124), 0x43);
}

#[test]
fn sixteen_bit_store_is_little_endian() {
    let mut m = machine();
    m.write_16(0xC200, 0xBEEF);
    assert_eq!(m.load_8(0xC200), 0xEF);
    assert_eq!(m.load_8(0xC201), 0xBE);
    assert_eq!(m.load_16(0xC200), 0xBEEF);
}

#[test]
fn high_ram_and_vram_read_back() {
    let mut m = machine();
    m.write_8(0xFF80, 0x99);
    m.write_8(0x8000, 0x17);
    assert_eq!(m.load_8(0xFF80), 0x99);
    assert_eq!(m.load_8(0x8000), 0x17);
}

#[test]
fn unmapped_read_yields_fallback_and_write_is_dropped() {
    let mut m = machine();
    assert_eq!(m.load_8(0xFEA5), 0xFF);
    assert!(matches!(m.write_8(0xFEA5, 0x01), BusWrite::Dropped));
    assert_eq!(m.load_8(0xFF10), 0xFF);
    assert!(matches!(m.write_8(0xFF10, 0x01), BusWrite::Accepted));
}

#[test]
fn oam_dma_copies_160_bytes() {
    let mut m = machine();
    let mut i: u16 = 0;
    while i < 160 {
        m.write_8(0xC000 + i, (i % 251) as u8);
        i += 1;
    }
    assert!(matches!(m.write_8(0xFF46, 0xC0), BusWrite::Accepted));
    assert_eq!(m.load_8(0xFE00), 0);
    assert_eq!(m.load_8(0xFE01), 1);
    assert_eq!(m.load_8(0xFE9F), 159);
}

#[test]
fn interrupt_priority_and_flag_clearing() {
    let mut m = machine();
    m.write_8(0xFFFF, 0xFF);
    m.write_8(0xFF0F, 0x05);
    m.set_ime(true);
    assert_eq!(m.check_interupt(), Some(0x40));
    assert_eq!(m.load_8(0xFF0F), 0x04);
    assert_eq!(m.check_interupt(), Some(0x50));
    assert_eq!(m.load_8(0xFF0F), 0x00);
    assert_eq!(m.check_interupt(), None);
}

#[test]
fn interrupts_masked_without_master_enable() {
    let mut m = machine();
    m.write_8(0xFFFF, 0xFF);
    m.write_8(0xFF0F, 0x01);
    assert_eq!(m.check_interupt(), None);
    assert_eq!(m.load_8(0xFF0F), 0x01);
}

#[test]
fn joypad_lines_and_newly_active_interrupt() {
    let mut m = machine();
    m.write_8(0xFF00, 0x10);
    assert_eq!(m.load_8(0xFF00), 0x1F);
    let mut held = Buttons::none();
    held.a = true;
    m.update_input(held);
    assert_eq!(m.load_8(0xFF00), 0x1E);
    assert_eq!(m.load_8(0xFF0F) & 0x10, 0x10);
}

#[test]
fn boot_overlay_reads_until_latch_disables_it() {
    let mut m = Mem::new_gb(GbMapper::new_with_boot_rom(vec![0x31, 0xFE, 0xFF], CartrageMapper::none()));
    assert_eq!(m.load_8(0x0000), 0x31);
    assert_eq!(m.load_8(0x0001), 0xFE);
    assert_eq!(m.load_8(0xFF50), 0xFF);
    m.write_8(0xFF50, 0x01);
    assert_eq!(m.load_8(0x0000), 0xFF);
    assert_eq!(m.load_8(0xFF50), 0xFE);
}

#[test]
fn render_fills_a_row_and_reports_the_frame_row() {
    let mut m = machine();
    assert!(!m.render(0));
    assert_eq!(m.screen[0], 255);
    assert_eq!(m.screen[479], 255);
    assert!(m.render(144));
    assert!(!m.render(145));
}

#[test]
fn screen_swap_exchanges_buffers() {
    let mut m = machine();
    let mut front = vec![7u8; 160 * 144 * 3];
    m.screen_swap(&mut front);
    assert_eq!(front[0], 0);
    assert_eq!(m.screen[0], 7);
}

#[test]
fn render_decodes_planar_tile_pixels_through_the_palette() {
    let mut m = machine();
    m.write_8(0xFF47, 0xFC);
    m.write_8(0x8000, 0x80);
    m.write_8(0x8001, 0x80);
    m.render(0);
    assert_eq!(m.screen[0], 0);
    assert_eq!(m.screen[1], 0);
    assert_eq!(m.screen[2], 0);
    assert_eq!(m.screen[3], 255);
    assert_eq!(m.screen[4], 255);
}

#[test]
fn sprite_line_is_empty_without_covering_sprites() {
    let m = machine();
    let line = m.map_holder.sprite_line(0);
    assert_eq!(line.len(), 160);
    assert!(line.iter().all(|p| p.is_none()));
}

#[test]
fn sprite_overlays_where_it_covers() {
    let mut m = machine();
    m.write_8(0x8010, 0xFF);
    m.write_8(0x8011, 0x00);
    m.write_8(0xFE00, 16);
    m.write_8(0xFE01, 8);
    m.write_8(0xFE02, 0x01);
    let line = m.map_holder.sprite_line(0);
    assert_eq!(line[0], Some(1));
}

#[test]
fn disabling_display_during_vblank_is_reported_distinctly() {
    let mut m = machine();
    m.time_passes(144 * 456);
    assert!(matches!(m.write_8(0xFF40, 0x00), BusWrite::IllegalDisplayDisable));
    assert_eq!(m.load_8(0xFF40), 0x91);
    assert!(matches!(m.write_8(0xFF42, 0x10), BusWrite::Accepted));
}

#[test]
fn timer_registers_route_through_the_bus() {
    let mut m = machine();
    m.write_8(0xFF07, 0x05);
    m.write_8(0xFF06, 0x7F);
    m.time_passes(16);
    assert_eq!(m.load_8(0xFF05), 1);
    assert_eq!(m.load_8(0xFF07), 0x05);
    assert_eq!(m.load_8(0xFF06), 0x7F);
}

#[test]
fn oam_window_reads_and_writes_entries() {
    let mut m = machine();
    assert!(matches!(m.write_8(0xFE02, 0x42), BusWrite::Accepted));
    assert_eq!(m.load_8(0xFE02), 0x42);
    assert_eq!(m.load_8(0xFE03), 0x00);
}

#[test]
fn lower_x_sprite_wins_contested_columns() {
    let mut m = machine();
    m.write_8(0x8010, 0xFF);
    m.write_8(0x8011, 0x00);
    m.write_8(0x8020, 0xFF);
    m.write_8(0x8021, 0xFF);
    m.write_8(0xFE00, 16);
    m.write_8(0xFE01, 14);
    m.write_8(0xFE02, 0x02);
    m.write_8(0xFE04, 16);
    m.write_8(0xFE05, 12);
    m.write_8(0xFE06, 0x01);
    let line = m.map_holder.sprite_line(0);
    assert_eq!(line[5], Some(1));
    assert_eq!(line[8], Some(1));
    assert_eq!(line[12], Some(3));
    assert_eq!(line[3], None);
}
