//! Timer rates and overflow, and PPU scanline timing.

use fegabo::ppu::{PpuWrite, State, PPU};
use fegabo::timer::Timer;

#[test]
fn tima_increments_once_per_rate_period() {
    let mut t = Timer::new();
    t.write(0xFF07, 0x05);
    t.tick(15);
    assert_eq!(t.read(0xFF05), Some(0));
    t.tick(1);
    assert_eq!(t.read(0xFF05), Some(1));
    t.tick(16);
    assert_eq!(t.read(0xFF05), Some(2));
}

#[test]
fn tima_overflow_reloads_tma_and_buffers_interrupt() {
    let mut t = Timer::new();
    t.write(0xFF07, 0x05);
    t.write(0xFF06, 0xAB);
    t.write(0xFF05, 0xFF);
    t.tick(16);
    assert_eq!(t.read(0xFF05), Some(0xAB));
    assert_eq!(t.check_interupt(), 0x04);
    assert_eq!(t.check_interupt(), 0x00);
}

#[test]
fn tima_frozen_while_disabled() {
    let mut t = Timer::new();
    t.write(0xFF07, 0x01);
    t.tick(64);
    assert_eq!(t.read(0xFF05), Some(0));
}

#[test]
fn divider_is_high_byte_of_subcounter_and_write_resets_it() {
    let mut t = Timer::new();
    t.tick(512);
    assert_eq!(t.read(0xFF04), Some(2));
    t.write(0xFF04, 0x77);
    assert_eq!(t.read(0xFF04), Some(0));
    t.tick(255);
    assert_eq!(t.read(0xFF04), Some(0));
    t.tick(1);
    assert_eq!(t.read(0xFF04), Some(1));
}

#[test]
fn one_scanline_advances_ly_and_reenters_oam_search() {
    let mut p = PPU::new();
    let rows = p.time_passes(456).unwrap();
    assert_eq!(rows, vec![0u8]);
    assert_eq!(p.read(0xFF44), Some(1));
    assert!(matches!(p.state(), State::Oam));
}

#[test]
fn end_of_line_reads_hblank() {
    let mut p = PPU::new();
    assert!(p.time_passes(455).is_none());
    assert_eq!(p.read(0xFF44), Some(0));
    assert!(matches!(p.state(), State::HBlank));
}

#[test]
fn mode_boundaries_within_a_line() {
    let mut p = PPU::new();
    p.time_passes(77);
    assert!(matches!(p.state(), State::Oam));
    p.time_passes(1);
    assert!(matches!(p.state(), State::Vram));
    p.time_passes(170);
    assert!(matches!(p.state(), State::HBlank));
}

#[test]
fn line_144_reads_vblank_whatever_the_cycle() {
    let mut p = PPU::new();
    p.time_passes(144 * 456);
    assert_eq!(p.read(0xFF44), Some(144));
    assert!(matches!(p.state(), State::VBlank));
    p.time_passes(100);
    assert!(matches!(p.state(), State::VBlank));
    assert_eq!(p.interupt_update() & 0x01, 0x01);
    assert_eq!(p.interupt_update(), 0x00);
}

#[test]
fn ly_wraps_from_153_to_zero() {
    let mut p = PPU::new();
    let rows = p.time_passes(154 * 456).unwrap();
    assert_eq!(rows.len(), 154);
    assert_eq!(rows[153], 153);
    assert_eq!(p.read(0xFF44), Some(0));
}

#[test]
fn disabling_display_in_vblank_is_flagged_not_applied() {
    let mut p = PPU::new();
    assert!(matches!(p.write(0xFF40, 0x80), PpuWrite::Accepted));
    p.time_passes(144 * 456);
    assert!(matches!(p.state(), State::VBlank));
    assert!(matches!(p.write(0xFF40, 0x00), PpuWrite::IllegalDisable));
    assert_eq!(p.read(0xFF40), Some(0x80));
}

#[test]
fn enabling_display_restarts_the_frame() {
    let mut p = PPU::new();
    p.time_passes(3 * 456 + 100);
    assert_eq!(p.read(0xFF44), Some(3));
    assert!(matches!(p.write(0xFF40, 0x80), PpuWrite::Accepted));
    assert_eq!(p.read(0xFF44), Some(0));
    assert!(matches!(p.state(), State::Oam));
}

#[test]
fn writing_ly_resets_it_and_lyc_is_stored() {
    let mut p = PPU::new();
    p.time_passes(2 * 456);
    assert!(matches!(p.write(0xFF44, 0x55), PpuWrite::Accepted));
    assert_eq!(p.read(0xFF44), Some(0));
    assert!(matches!(p.write(0xFF45, 0x42), PpuWrite::Accepted));
    assert_eq!(p.read(0xFF45), Some(0x42));
}

#[test]
fn tima_period_at_another_rate() {
    let mut t = Timer::new();
    t.write(0xFF07, 0x06);
    t.tick(63);
    assert_eq!(t.read(0xFF05), Some(0));
    t.tick(1);
    assert_eq!(t.read(0xFF05), Some(1));
    t.tick(64);
    assert_eq!(t.read(0xFF05), Some(2));
}
