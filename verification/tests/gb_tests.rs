//! The wired console: construction, stepping to a frame, and the
//! disassembler subset.

use fegabo::cartrage::CartrageError;
use fegabo::cartrage::CartrageMapper;
use fegabo::disassemble::daInst;
use fegabo::gb::Gb;
use fegabo::mem::{GbMapper, Mem};

fn plain_rom() -> Vec<u8> {
    vec![0u8; 0x8000]
}

#[test]
fn console_rejects_a_short_cartridge() {
    assert!(matches!(Gb::new(vec![0u8; 16], None), Err(CartrageError::HeaderTooShort)));
}

#[test]
fn console_without_boot_image_starts_after_boot() {
    let gb = Gb::new(plain_rom(), None).unwrap();
    assert_eq!(gb.cpu.pc, 0x0100);
    assert_eq!(gb.cpu.sp, 0xFFFE);
}

#[test]
fn console_with_boot_image_starts_at_zero() {
    let gb = Gb::new(plain_rom(), Some(vec![0u8; 0x100])).unwrap();
    assert_eq!(gb.cpu.pc, 0x0000);
}

#[test]
fn stepping_a_nop_rom_eventually_completes_a_frame() {
    let mut gb = Gb::new(plain_rom(), None).unwrap();
    let mut frames: usize = 0;
    let mut steps: usize = 0;
    while frames == 0 && steps < 30000 {
        if gb.step().unwrap() {
            frames += 1;
        }
        steps += 1;
    }
    assert_eq!(frames, 1);
}

#[test]
fn time_passes_reports_the_frame_scanline() {
    let mut gb = Gb::new(plain_rom(), None).unwrap();
    assert!(!gb.time_passes(143 * 456));
    assert!(gb.time_passes(2 * 456));
}

#[test]
fn disassembles_the_boot_sequence_subset() {
    let mut m = Mem::new_gb(GbMapper::new(CartrageMapper::none()));
    m.write_8(0xC000, 0x31);
    m.write_8(0xC001, 0xFE);
    m.write_8(0xC002, 0xFF);
    m.write_8(0xC003, 0xAF);
    m.write_8(0xC004, 0xD3);
    let line = daInst(0xC000, &m).unwrap();
    assert_eq!(line.text, "LD SP, ");
    assert_eq!(line.imm, Some(0xFFFE));
    assert_eq!(line.len, 3);
    let xor = daInst(0xC003, &m).unwrap();
    assert_eq!(xor.text, "XOR A");
    assert_eq!(xor.len, 1);
    assert!(daInst(0xC004, &m).is_none());
}
