//! Instruction semantics: flags, stack, branches and cycle counts,
//! executed against a machine whose program sits in work RAM.

use fegabo::cartrage::CartrageMapper;
use fegabo::cpu::{CPUState, Cpu};
use fegabo::mem::{GbMapper, Mem};

fn machine() -> Mem {
    Mem::new_gb(GbMapper::new(CartrageMapper::none()))
}

fn cpu_at(pc: u16) -> Cpu {
    let mut cpu = Cpu::new();
    cpu.pc = pc;
    cpu
}

#[test]
fn ld_sp_imm16_boot_sequence() {
    let mut mem = machine();
    mem.write_8(0xC000, 0x31);
    mem.write_8(0xC001, 0xFE);
    mem.write_8(0xC002, 0xFF);
    let mut cpu = cpu_at(0xC000);
    let t = cpu.cycle(&mut mem).unwrap();
    assert_eq!(t, 12);
    assert_eq!(cpu.sp, 0xFFFE);
    assert_eq!(cpu.pc, 0xC003);
}

#[test]
fn jr_nz_not_taken_when_zero_set() {
    let mut mem = machine();
    mem.write_8(0xC000, 0x20);
    mem.write_8(0xC001, 0x05);
    let mut cpu = cpu_at(0xC000);
    cpu.f_z = true;
    let t = cpu.cycle(&mut mem).unwrap();
    assert_eq!(t, 8);
    assert_eq!(cpu.pc, 0xC002);
}

#[test]
fn jr_nz_taken_when_zero_clear() {
    let mut mem = machine();
    mem.write_8(0xC000, 0x20);
    mem.write_8(0xC001, 0x05);
    let mut cpu = cpu_at(0xC000);
    cpu.f_z = false;
    let t = cpu.cycle(&mut mem).unwrap();
    assert_eq!(t, 8 + 12);
    assert_eq!(cpu.pc, 0xC007);
}

#[test]
fn xor_a_clears_accumulator_and_sets_zero() {
    let mut mem = machine();
    mem.write_8(0xC000, 0xAF);
    let mut cpu = cpu_at(0xC000);
    cpu.a = 0x5A;
    cpu.f_c = true;
    let t = cpu.cycle(&mut mem).unwrap();
    assert_eq!(t, 4);
    assert_eq!(cpu.a, 0);
    assert!(cpu.f_z);
    assert!(!cpu.f_n && !cpu.f_h && !cpu.f_c);
}

#[test]
fn push_pop_round_trip_restores_pair_and_sp() {
    let mut mem = machine();
    mem.write_8(0xC000, 0xC5);
    mem.write_8(0xC001, 0xD1);
    let mut cpu = cpu_at(0xC000);
    cpu.sp = 0xD000;
    cpu.b = 0x12;
    cpu.c = 0x34;
    cpu.cycle(&mut mem).unwrap();
    assert_eq!(cpu.sp, 0xCFFE);
    cpu.cycle(&mut mem).unwrap();
    assert_eq!(cpu.sp, 0xD000);
    assert_eq!(cpu.d, 0x12);
    assert_eq!(cpu.e, 0x34);
}

#[test]
fn push_af_keeps_flag_byte_low_nibble_zero() {
    let mut mem = machine();
    mem.write_8(0xC000, 0xF5);
    let mut cpu = cpu_at(0xC000);
    cpu.sp = 0xD000;
    cpu.a = 0x9C;
    cpu.f_z = true;
    cpu.f_c = true;
    cpu.cycle(&mut mem).unwrap();
    assert_eq!(mem.load_16(0xCFFE), 0x9C90);
}

#[test]
fn inc_then_dec_half_carry_reflects_second_op_only() {
    let mut mem = machine();
    mem.write_8(0xC000, 0x3C);
    mem.write_8(0xC001, 0x3D);
    let mut cpu = cpu_at(0xC000);
    cpu.a = 0x0F;
    cpu.cycle(&mut mem).unwrap();
    assert!(cpu.f_h);
    assert_eq!(cpu.a, 0x10);
    cpu.cycle(&mut mem).unwrap();
    assert_eq!(cpu.a, 0x0F);
    assert!(cpu.f_h);
    assert!(cpu.f_n);
}

#[test]
fn add_sets_carry_and_half_carry() {
    let mut mem = machine();
    mem.write_8(0xC000, 0xC6);
    mem.write_8(0xC001, 0xC8);
    let mut cpu = cpu_at(0xC000);
    cpu.a = 0x48;
    cpu.cycle(&mut mem).unwrap();
    assert_eq!(cpu.a, 0x10);
    assert!(cpu.f_c);
    assert!(cpu.f_h);
    assert!(!cpu.f_z && !cpu.f_n);
}

#[test]
fn sub_borrow_flags() {
    let mut mem = machine();
    mem.write_8(0xC000, 0xD6);
    mem.write_8(0xC001, 0x20);
    let mut cpu = cpu_at(0xC000);
    cpu.a = 0x10;
    cpu.cycle(&mut mem).unwrap();
    assert_eq!(cpu.a, 0xF0);
    assert!(cpu.f_c);
    assert!(!cpu.f_h);
    assert!(cpu.f_n);
}

#[test]
fn cp_discards_result() {
    let mut mem = machine();
    mem.write_8(0xC000, 0xFE);
    mem.write_8(0xC001, 0x42);
    let mut cpu = cpu_at(0xC000);
    cpu.a = 0x42;
    cpu.cycle(&mut mem).unwrap();
    assert_eq!(cpu.a, 0x42);
    assert!(cpu.f_z);
    assert!(cpu.f_n);
}

#[test]
fn daa_adjusts_bcd_addition() {
    let mut mem = machine();
    mem.write_8(0xC000, 0x27);
    let mut cpu = cpu_at(0xC000);
    cpu.a = 0x3C;
    cpu.cycle(&mut mem).unwrap();
    assert_eq!(cpu.a, 0x42);
    assert!(!cpu.f_c);
    assert!(!cpu.f_h);
}

#[test]
fn rlca_rotates_top_bit_into_carry() {
    let mut mem = machine();
    mem.write_8(0xC000, 0x07);
    let mut cpu = cpu_at(0xC000);
    cpu.a = 0x80;
    cpu.cycle(&mut mem).unwrap();
    assert_eq!(cpu.a, 0x01);
    assert!(cpu.f_c);
    assert!(!cpu.f_z);
}

#[test]
fn cb_swap_exchanges_nibbles() {
    let mut mem = machine();
    mem.write_8(0xC000, 0xCB);
    mem.write_8(0xC001, 0x37);
    let mut cpu = cpu_at(0xC000);
    cpu.a = 0xAB;
    let t = cpu.cycle(&mut mem).unwrap();
    assert_eq!(t, 8);
    assert_eq!(cpu.a, 0xBA);
    assert_eq!(cpu.pc, 0xC002);
}

#[test]
fn cb_bit_tests_and_forces_half_carry() {
    let mut mem = machine();
    mem.write_8(0xC000, 0xCB);
    mem.write_8(0xC001, 0x7F);
    let mut cpu = cpu_at(0xC000);
    cpu.a = 0x80;
    cpu.cycle(&mut mem).unwrap();
    assert!(!cpu.f_z);
    assert!(cpu.f_h);
    assert!(!cpu.f_n);
}

#[test]
fn ld_a_hli_reads_and_increments_hl() {
    let mut mem = machine();
    mem.write_8(0xC000, 0x2A);
    mem.write_8(0xC100, 0x77);
    let mut cpu = cpu_at(0xC000);
    cpu.h = 0xC1;
    cpu.l = 0x00;
    cpu.cycle(&mut mem).unwrap();
    assert_eq!(cpu.a, 0x77);
    assert_eq!(cpu.h, 0xC1);
    assert_eq!(cpu.l, 0x01);
}

#[test]
fn add_sp_signed_immediate_flags_from_low_byte() {
    let mut mem = machine();
    mem.write_8(0xC000, 0xE8);
    mem.write_8(0xC001, 0x08);
    let mut cpu = cpu_at(0xC000);
    cpu.sp = 0xFFF8;
    let t = cpu.cycle(&mut mem).unwrap();
    assert_eq!(t, 16);
    assert_eq!(cpu.sp, 0x0000);
    assert!(!cpu.f_z);
    assert!(!cpu.f_n);
    assert!(cpu.f_h);
    assert!(cpu.f_c);
}

#[test]
fn ld_hl_sp_plus_negative_offset() {
    let mut mem = machine();
    mem.write_8(0xC000, 0xF8);
    mem.write_8(0xC001, 0xFE);
    let mut cpu = cpu_at(0xC000);
    cpu.sp = 0x1000;
    cpu.cycle(&mut mem).unwrap();
    assert_eq!(cpu.h, 0x0F);
    assert_eq!(cpu.l, 0xFE);
    assert!(!cpu.f_c);
    assert!(!cpu.f_h);
}

#[test]
fn undecodable_opcode_is_a_fatal_decode_error() {
    let mut mem = machine();
    mem.write_8(0xC000, 0xD3);
    let mut cpu = cpu_at(0xC000);
    let err = cpu.cycle(&mut mem).unwrap_err();
    assert_eq!(err.opcode, 0xD3);
    assert_eq!(err.addr, 0xC000);
    assert_eq!(cpu.pc, 0xC000);
}

#[test]
fn call_and_ret_round_trip() {
    let mut mem = machine();
    mem.write_8(0xC000, 0xCD);
    mem.write_8(0xC001, 0x00);
    mem.write_8(0xC002, 0xC1);
    mem.write_8(0xC100, 0xC9);
    let mut cpu = cpu_at(0xC000);
    cpu.sp = 0xD000;
    let t1 = cpu.cycle(&mut mem).unwrap();
    assert_eq!(t1, 12 + 12);
    assert_eq!(cpu.pc, 0xC100);
    assert_eq!(cpu.sp, 0xCFFE);
    let t2 = cpu.cycle(&mut mem).unwrap();
    assert_eq!(t2, 8 + 12);
    assert_eq!(cpu.pc, 0xC003);
    assert_eq!(cpu.sp, 0xD000);
}

#[test]
fn halt_wakes_on_pending_enabled_interrupt() {
    let mut mem = machine();
    mem.write_8(0xC000, 0x76);
    let mut cpu = cpu_at(0xC000);
    cpu.cycle(&mut mem).unwrap();
    assert_eq!(cpu.state, CPUState::Halt);
    let t = cpu.cycle(&mut mem).unwrap();
    assert_eq!(t, 4);
    assert_eq!(cpu.state, CPUState::Halt);
    mem.write_8(0xFFFF, 0x04);
    mem.write_8(0xFF0F, 0x04);
    cpu.cycle(&mut mem).unwrap();
    assert_eq!(cpu.state, CPUState::Running);
}

#[test]
fn interrupt_service_pushes_pc_and_vectors() {
    let mut mem = machine();
    let mut cpu = cpu_at(0x1234);
    cpu.sp = 0xD000;
    mem.set_ime(true);
    cpu.handle_interupt(0x50, &mut mem);
    assert_eq!(cpu.pc, 0x50);
    assert_eq!(cpu.sp, 0xCFFE);
    assert_eq!(mem.load_16(0xCFFE), 0x1234);
}
