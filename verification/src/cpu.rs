//! The execution engine: the register file, flag computation, operand
//! access, and the semantics of every decoded instruction against the
//! bus. The four condition flags live as booleans; the F register they
//! form always has a zero low nibble. PC and SP arithmetic wraps modulo
//! 65536. Taken conditional branches, calls and returns pay a surcharge
//! of 12 cycles over the decoder's base cost; not taken, they pay none.

use vstd::prelude::*;

use crate::decode::{spec_word, ByteR, Flag, Op, OptFlag, WordR};
use crate::mem::{
    spec_bus_read, spec_bus_write_rel, spec_gb_wf, spec_load_8, spec_load_16, spec_mem_wf,
    spec_write2_rel, BusWrite, GbMapper, Mem,
};
use crate::spec_pow2;

verus! {

/// Whether the CPU is executing, halted, or stopped.
#[derive(Clone, Copy, PartialEq, Eq, Structural, Debug)]
pub enum CPUState {
    Running,
    Halt,
    Stop,
}

/// The register file: eight 8-bit registers (F kept as its four flag
/// bits), the stack pointer, the program counter, and the run state.
pub struct Cpu {
    pub a: u8,
    pub b: u8,
    pub c: u8,
    pub d: u8,
    pub e: u8,
    pub h: u8,
    pub l: u8,
    pub f_z: bool,
    pub f_n: bool,
    pub f_h: bool,
    pub f_c: bool,
    pub sp: u16,
    pub pc: u16,
    pub state: CPUState,
}

/// The F register the four flags form: Z in bit 7, N in bit 6, H in bit
/// 5, C in bit 4; the low nibble is always zero.
pub open spec fn spec_f_byte(c: Cpu) -> u8 {
    ((if c.f_z {
        128int
    } else {
        0int
    }) + (if c.f_n {
        64int
    } else {
        0int
    }) + (if c.f_h {
        32int
    } else {
        0int
    }) + (if c.f_c {
        16int
    } else {
        0int
    })) as u8
}

/// The flags a stored F byte decomposes into: the low nibble is
/// discarded.
pub open spec fn spec_set_f(c: Cpu, data: u8) -> Cpu {
    Cpu {
        f_z: (data as int / 128) % 2 == 1,
        f_n: (data as int / 64) % 2 == 1,
        f_h: (data as int / 32) % 2 == 1,
        f_c: (data as int / 16) % 2 == 1,
        ..c
    }
}

/// The value of one condition flag.
pub open spec fn spec_read_flag(c: Cpu, f: Flag) -> bool {
    match f {
        Flag::Z => c.f_z,
        Flag::N => c.f_n,
        Flag::H => c.f_h,
        Flag::C => c.f_c,
    }
}

/// The CPU with one condition flag set or cleared.
pub open spec fn spec_set_flag(c: Cpu, f: Flag, v: bool) -> Cpu {
    match f {
        Flag::Z => Cpu { f_z: v, ..c },
        Flag::N => Cpu { f_n: v, ..c },
        Flag::H => Cpu { f_h: v, ..c },
        Flag::C => Cpu { f_c: v, ..c },
    }
}

/// Whether a branch predicate holds: absent means unconditional.
pub open spec fn spec_flag_condition(c: Cpu, fl: OptFlag) -> bool {
    match fl.0 {
        None => true,
        Some((f, s)) => spec_read_flag(c, f) == s,
    }
}

/// Addition modulo 65536.
pub open spec fn spec_wrap16(v: int) -> u16 {
    (((v % 0x10000) + 0x10000) % 0x10000) as u16
}

/// The 16-bit sign extension of a signed byte, as the unsigned word
/// whose wrapping addition realizes the signed offset.
pub open spec fn spec_sign_ext(o: i8) -> u16 {
    if o >= 0 {
        o as u16
    } else {
        (o + 0x10000) as u16
    }
}

/// The value a word operand reads: a register pair (AF pairs A with the
/// F byte), SP, PC, an immediate, a high-page address, or the
/// stack-pointer-plus-offset sum.
pub open spec fn spec_read_16_val(c: Cpu, reg: WordR) -> u16 {
    match reg {
        WordR::SP => c.sp,
        WordR::PC => c.pc,
        WordR::IMM(data) => data,
        WordR::HighC => (0xFF00 + c.c as int) as u16,
        WordR::High(op) => (0xFF00 + op as int) as u16,
        WordR::AF => spec_word(c.a, spec_f_byte(c)),
        WordR::BC => spec_word(c.b, c.c),
        WordR::DE => spec_word(c.d, c.e),
        WordR::HL => spec_word(c.h, c.l),
        WordR::HLI => spec_word(c.h, c.l),
        WordR::HLD => spec_word(c.h, c.l),
        WordR::SPP(o) => spec_wrap16(c.sp as int + spec_sign_ext(o as i8) as int),
    }
}

/// The CPU after a word operand is read: the pseudo-pairs HL+ and HL-
/// move HL by one (wrapping) exactly once, immediately after producing
/// the value; the stack-pointer-plus-offset form computes its flags
/// (zero and subtract cleared, half-carry and carry from the unsigned
/// low-byte addition); every other operand leaves the CPU unchanged.
pub open spec fn spec_read_16_cpu(c: Cpu, reg: WordR) -> Cpu {
    match reg {
        WordR::HLI => {
            let v = spec_wrap16(spec_word(c.h, c.l) as int + 1);
            Cpu { h: (v as int / 256) as u8, l: (v as int % 256) as u8, ..c }
        },
        WordR::HLD => {
            let v = spec_wrap16(spec_word(c.h, c.l) as int - 1);
            Cpu { h: (v as int / 256) as u8, l: (v as int % 256) as u8, ..c }
        },
        WordR::SPP(o) => {
            let off = spec_sign_ext(o as i8);
            Cpu {
                f_z: false,
                f_n: false,
                f_h: (off as int % 16) + (c.sp as int % 16) > 15,
                f_c: (off as int % 256) + (c.sp as int % 256) > 255,
                ..c
            }
        },
        _ => c,
    }
}

/// Whether a word operand can be stored to: the register pairs, the
/// pseudo-pairs, SP and PC; immediates and address forms cannot.
pub open spec fn spec_word_writable(reg: WordR) -> bool {
    match reg {
        WordR::AF | WordR::BC | WordR::DE | WordR::HL | WordR::HLI | WordR::HLD | WordR::SP
            | WordR::PC => true,
        _ => false,
    }
}

/// The CPU after a store to a writable word operand; storing to AF
/// keeps only the flag bits of the low byte.
pub open spec fn spec_write_16(c: Cpu, reg: WordR, val: u16) -> Cpu {
    let high = (val as int / 256) as u8;
    let low = (val as int % 256) as u8;
    match reg {
        WordR::SP => Cpu { sp: val, ..c },
        WordR::PC => Cpu { pc: val, ..c },
        WordR::AF => spec_set_f(Cpu { a: high, ..c }, low),
        WordR::BC => Cpu { b: high, c: low, ..c },
        WordR::DE => Cpu { d: high, e: low, ..c },
        WordR::HL | WordR::HLI | WordR::HLD => Cpu { h: high, l: low, ..c },
        _ => c,
    }
}

/// Whether a byte operand can be stored to: every form but an immediate.
pub open spec fn spec_byte_writable(reg: ByteR) -> bool {
    !(reg matches ByteR::IMM(_))
}

/// The value a byte operand reads: a register (F as the flag byte), an
/// immediate, or the bus byte at the address a word operand names.
pub open spec fn spec_read_8_val(c: Cpu, m: GbMapper, reg: ByteR) -> u8 {
    match reg {
        ByteR::A => c.a,
        ByteR::B => c.b,
        ByteR::C => c.c,
        ByteR::D => c.d,
        ByteR::E => c.e,
        ByteR::H => c.h,
        ByteR::L => c.l,
        ByteR::F => spec_f_byte(c),
        ByteR::IMM(data) => data,
        ByteR::Mem(addr) => spec_load_8(m, spec_read_16_val(c, addr)),
    }
}

/// The CPU after a byte operand is read: only a memory operand through a
/// pseudo-pair moves the CPU.
pub open spec fn spec_read_8_cpu(c: Cpu, reg: ByteR) -> Cpu {
    match reg {
        ByteR::Mem(addr) => spec_read_16_cpu(c, addr),
        _ => c,
    }
}

/// The CPU after a store to a writable byte operand: a register takes
/// the byte (F keeping only flag bits); a memory operand applies the
/// address operand's side effect, the byte itself going to the bus.
pub open spec fn spec_write_8_cpu(c: Cpu, reg: ByteR, data: u8) -> Cpu {
    match reg {
        ByteR::A => Cpu { a: data, ..c },
        ByteR::B => Cpu { b: data, ..c },
        ByteR::C => Cpu { c: data, ..c },
        ByteR::D => Cpu { d: data, ..c },
        ByteR::E => Cpu { e: data, ..c },
        ByteR::H => Cpu { h: data, ..c },
        ByteR::L => Cpu { l: data, ..c },
        ByteR::F => spec_set_f(c, data),
        ByteR::Mem(addr) => spec_read_16_cpu(c, addr),
        ByteR::IMM(_) => c,
    }
}

/// How a store to a byte operand relates the bus before and after: only
/// a memory operand touches it, with one routed write at the operand's
/// address.
pub open spec fn spec_write_8_mem_rel(c: Cpu, pre: GbMapper, post: GbMapper, reg: ByteR, data: u8) -> bool {
    match reg {
        ByteR::Mem(addr) => exists|r: BusWrite|
            #[trigger] spec_bus_write_rel(pre, post, spec_read_16_val(c, addr), data, r),
        _ => post == pre,
    }
}

/// The power-on register file: everything zero, running.
pub open spec fn spec_cpu_initial() -> Cpu {
    Cpu {
        a: 0,
        b: 0,
        c: 0,
        d: 0,
        e: 0,
        h: 0,
        l: 0,
        f_z: false,
        f_n: false,
        f_h: false,
        f_c: false,
        sp: 0,
        pc: 0,
        state: CPUState::Running,
    }
}

impl Cpu {
    /// Fresh register file: everything zero, running.
    pub fn new() -> (c: Cpu)
        ensures
            c == spec_cpu_initial(),
    {
        Cpu {
            a: 0,
            b: 0,
            c: 0,
            d: 0,
            e: 0,
            h: 0,
            l: 0,
            f_z: false,
            f_n: false,
            f_h: false,
            f_c: false,
            sp: 0,
            pc: 0,
            state: CPUState::Running,
        }
    }

    /// The register file as the boot sequence leaves it: AF = 01B0,
    /// BC = 0013, DE = 00D8, HL = 014D, SP = FFFE, PC = 0100.
    pub fn new_after_boot() -> (c: Cpu)
        ensures
            c.a == 0x01 && spec_f_byte(c) == 0xB0,
            c.b == 0x00 && c.c == 0x13,
            c.d == 0x00 && c.e == 0xD8,
            c.h == 0x01 && c.l == 0x4D,
            c.sp == 0xFFFE,
            c.pc == 0x0100,
            c.state == CPUState::Running,
    {
        let mut cpu = Cpu::new();
        cpu.write_16(WordR::AF, 0x01B0);
        cpu.write_16(WordR::BC, 0x0013);
        cpu.write_16(WordR::DE, 0x00D8);
        cpu.write_16(WordR::HL, 0x014D);
        cpu.sp = 0xFFFE;
        cpu.pc = 0x0100;
        cpu
    }

    /// The F register byte the flags currently form.
    pub fn f_byte(&self) -> (r: u8)
        ensures
            r == spec_f_byte(*self),
    {
        let mut r: u8 = 0;
        if self.f_z {
            r = r + 128;
        }
        if self.f_n {
            r = r + 64;
        }
        if self.f_h {
            r = r + 32;
        }
        if self.f_c {
            r = r + 16;
        }
        r
    }

    /// Read one condition flag.
    pub fn read_flag(&self, flag: Flag) -> (r: bool)
        ensures
            r == spec_read_flag(*self, flag),
    {
        match flag {
            Flag::Z => self.f_z,
            Flag::N => self.f_n,
            Flag::H => self.f_h,
            Flag::C => self.f_c,
        }
    }

    /// Set or clear one condition flag.
    pub fn set_flag(&mut self, flag: Flag, val: bool)
        ensures
            *final(self) == spec_set_flag(*old(self), flag, val),
    {
        match flag {
            Flag::Z => self.f_z = val,
            Flag::N => self.f_n = val,
            Flag::H => self.f_h = val,
            Flag::C => self.f_c = val,
        }
    }

    /// Whether a branch predicate holds on the current flags.
    pub fn flag_condition(&self, fl: OptFlag) -> (r: bool)
        ensures
            r == spec_flag_condition(*self, fl),
    {
        match fl.0 {
            None => true,
            Some((flag, state)) => self.read_flag(flag) == state,
        }
    }

    /// Read a word operand, applying its side effect: the pseudo-pairs
    /// move HL by one, and the stack-pointer-plus-offset form computes
    /// its flags.
    #[verifier::rlimit(60)]
    pub fn read_16(&mut self, reg: WordR) -> (r: u16)
        ensures
            r == spec_read_16_val(*old(self), reg),
            *final(self) == spec_read_16_cpu(*old(self), reg),
    {
        match reg {
            WordR::SP => self.sp,
            WordR::PC => self.pc,
            WordR::IMM(data) => data,
            WordR::HighC => 0xFF00 + (self.c as u16),
            WordR::High(op) => 0xFF00 + (op as u16),
            WordR::AF => crate::decode::word(self.a, self.f_byte()),
            WordR::BC => crate::decode::word(self.b, self.c),
            WordR::DE => crate::decode::word(self.d, self.e),
            WordR::SPP(o) => self.spadd(o as i8),
            WordR::HL => crate::decode::word(self.h, self.l),
            WordR::HLI => {
                let data = crate::decode::word(self.h, self.l);
                let next: u16 = if data == 0xFFFF {
                    0
                } else {
                    data + 1
                };
                self.h = (next / 256) as u8;
                self.l = (next % 256) as u8;
                data
            },
            WordR::HLD => {
                let data = crate::decode::word(self.h, self.l);
                let next: u16 = if data == 0 {
                    0xFFFF
                } else {
                    data - 1
                };
                self.h = (next / 256) as u8;
                self.l = (next % 256) as u8;
                data
            },
        }
    }

    /// Store to a writable word operand; AF keeps only the flag bits of
    /// the low byte.
    pub fn write_16(&mut self, reg: WordR, val: u16)
        requires
            spec_word_writable(reg),
        ensures
            *final(self) == spec_write_16(*old(self), reg, val),
    {
        let high = (val / 256) as u8;
        let low = (val % 256) as u8;
        match reg {
            WordR::SP => self.sp = val,
            WordR::PC => self.pc = val,
            WordR::AF => {
                self.a = high;
                self.f_z = (low / 128) % 2 == 1;
                self.f_n = (low / 64) % 2 == 1;
                self.f_h = (low / 32) % 2 == 1;
                self.f_c = (low / 16) % 2 == 1;
            },
            WordR::BC => {
                self.b = high;
                self.c = low;
            },
            WordR::DE => {
                self.d = high;
                self.e = low;
            },
            _ => {
                self.h = high;
                self.l = low;
            },
        }
    }

    /// Read a byte operand, applying any address side effect.
    pub fn read_8(&mut self, reg: ByteR, mem: &Mem) -> (r: u8)
        requires
            spec_mem_wf(*mem),
        ensures
            r == spec_read_8_val(*old(self), mem.map_holder, reg),
            *final(self) == spec_read_8_cpu(*old(self), reg),
    {
        match reg {
            ByteR::A => self.a,
            ByteR::B => self.b,
            ByteR::C => self.c,
            ByteR::D => self.d,
            ByteR::E => self.e,
            ByteR::H => self.h,
            ByteR::L => self.l,
            ByteR::F => self.f_byte(),
            ByteR::IMM(data) => data,
            ByteR::Mem(addr) => {
                let a = self.read_16(addr);
                mem.load_8(a)
            },
        }
    }

    /// Store to a writable byte operand: registers take the byte, a
    /// memory operand routes it through one bus write at the operand's
    /// address.
    pub fn write_8(&mut self, reg: ByteR, data: u8, mem: &mut Mem)
        requires
            spec_byte_writable(reg),
            spec_mem_wf(*old(mem)),
        ensures
            spec_mem_wf(*final(mem)),
            *final(self) == spec_write_8_cpu(*old(self), reg, data),
            spec_write_8_mem_rel(*old(self), old(mem).map_holder, final(mem).map_holder, reg, data),
            final(mem).screen == old(mem).screen,
            final(mem).ime == old(mem).ime,
    {
        match reg {
            ByteR::A => self.a = data,
            ByteR::B => self.b = data,
            ByteR::C => self.c = data,
            ByteR::D => self.d = data,
            ByteR::E => self.e = data,
            ByteR::H => self.h = data,
            ByteR::L => self.l = data,
            ByteR::F => {
                self.f_z = (data / 128) % 2 == 1;
                self.f_n = (data / 64) % 2 == 1;
                self.f_h = (data / 32) % 2 == 1;
                self.f_c = (data / 16) % 2 == 1;
            },
            ByteR::IMM(_) => {
            },
            ByteR::Mem(addr) => {
                let a = self.read_16(addr);
                let r = mem.write_8(a, data);
                proof {
                    assert(spec_bus_write_rel(
                        old(mem).map_holder,
                        final(mem).map_holder,
                        spec_read_16_val(*old(self), addr),
                        data,
                        r,
                    ));
                }
            },
        }
    }

    /// The stack-pointer-plus-signed-offset sum: zero and subtract
    /// cleared, half-carry and carry from the unsigned low-nibble and
    /// low-byte additions; the sum wraps modulo 65536.
    pub fn spadd(&mut self, o: i8) -> (r: u16)
        ensures
            r == spec_wrap16(old(self).sp as int + spec_sign_ext(o) as int),
            *final(self) == (Cpu {
                f_z: false,
                f_n: false,
                f_h: (spec_sign_ext(o) as int % 16) + (old(self).sp as int % 16) > 15,
                f_c: (spec_sign_ext(o) as int % 256) + (old(self).sp as int % 256) > 255,
                ..*old(self)
            }),
    {
        let offset: u16 = if o >= 0 {
            o as u16
        } else {
            ((o as i32) + 0x10000) as u16
        };
        let h = (offset % 16) + (self.sp % 16) > 15;
        let c = (offset % 256) + (self.sp % 256) > 255;
        let result: u32 = (self.sp as u32 + offset as u32) % 0x10000;
        self.f_z = false;
        self.f_n = false;
        self.f_h = h;
        self.f_c = c;
        result as u16
    }
}

} // verus!

verus! {

/// The accumulator ANDed with an operand: zero from the result, subtract
/// and carry cleared, half-carry forced set.
pub open spec fn spec_alu_and(c: Cpu, m: GbMapper, reg: ByteR) -> Cpu {
    let v = spec_read_8_val(c, m, reg);
    let c1 = spec_read_8_cpu(c, reg);
    Cpu { a: c.a & v, f_z: (c.a & v) == 0, f_n: false, f_h: true, f_c: false, ..c1 }
}

/// The accumulator ORed with an operand: zero from the result, the other
/// flags cleared.
pub open spec fn spec_alu_or(c: Cpu, m: GbMapper, reg: ByteR) -> Cpu {
    let v = spec_read_8_val(c, m, reg);
    let c1 = spec_read_8_cpu(c, reg);
    Cpu { a: c.a | v, f_z: (c.a | v) == 0, f_n: false, f_h: false, f_c: false, ..c1 }
}

/// The accumulator XORed with an operand: zero from the result, the
/// other flags cleared.
pub open spec fn spec_alu_xor(c: Cpu, m: GbMapper, reg: ByteR) -> Cpu {
    let v = spec_read_8_val(c, m, reg);
    let c1 = spec_read_8_cpu(c, reg);
    Cpu { a: c.a ^ v, f_z: (c.a ^ v) == 0, f_n: false, f_h: false, f_c: false, ..c1 }
}

/// The 8-bit add/subtract family over an operand, with optional carry
/// in: zero from the result, subtract set for the subtraction family,
/// half-carry the carry or borrow out of bit 3, carry the one out of
/// bit 7.
pub open spec fn spec_alu_add(c: Cpu, m: GbMapper, reg: ByteR, with_c: bool, sub: bool) -> Cpu {
    let v = spec_read_8_val(c, m, reg);
    let c1 = spec_read_8_cpu(c, reg);
    let cin: int = if with_c && c.f_c {
        1
    } else {
        0
    };
    if sub {
        let data = ((c.a as int - v as int - cin + 512) % 256) as u8;
        Cpu {
            a: data,
            f_z: data == 0,
            f_n: true,
            f_h: (c.a as int % 16) < (v as int % 16) + cin,
            f_c: (c.a as int) < v as int + cin,
            ..c1
        }
    } else {
        let data = ((c.a as int + v as int + cin) % 256) as u8;
        Cpu {
            a: data,
            f_z: data == 0,
            f_n: false,
            f_h: (c.a as int % 16) + (v as int % 16) + cin > 15,
            f_c: c.a as int + v as int + cin > 255,
            ..c1
        }
    }
}

/// A compare: the subtraction's flags with the accumulator restored.
pub open spec fn spec_alu_cp(c: Cpu, m: GbMapper, reg: ByteR) -> Cpu {
    Cpu { a: c.a, ..spec_alu_add(c, m, reg, false, true) }
}

/// The decimal adjust of the accumulator: a correction of 0x06 and/or
/// 0x60 chosen from the subtract, half-carry and carry flags and the
/// accumulator's nibbles, added after an addition and subtracted after a
/// subtraction; carry is set exactly when the high correction applies,
/// half-carry always cleared, zero from the final accumulator.
pub open spec fn spec_daa(c: Cpu) -> Cpu {
    let low = !c.f_n && c.a as int % 16 > 9 || c.f_h;
    let high = !c.f_n && c.a as int > 0x99 || c.f_c;
    let adjust: int = (if low {
        6int
    } else {
        0
    }) + (if high {
        0x60int
    } else {
        0
    });
    let data = if c.f_n {
        ((c.a as int - adjust + 256) % 256) as u8
    } else {
        ((c.a as int + adjust) % 256) as u8
    };
    Cpu { a: data, f_z: data == 0, f_h: false, f_c: high, ..c }
}

/// The 16-bit add of two word operands: the destination takes the
/// wrapping sum, half-carry comes from bit 11, carry from bit 15, the
/// subtract flag is cleared and zero untouched.
pub open spec fn spec_add16(c: Cpu, o1: WordR, o2: WordR) -> Cpu {
    let src = spec_read_16_val(c, o2);
    let c1 = spec_read_16_cpu(c, o2);
    let dest = spec_read_16_val(c1, o1);
    let c2 = spec_read_16_cpu(c1, o1);
    let result = spec_wrap16(dest as int + src as int);
    let c3 = spec_write_16(c2, o1, result);
    Cpu {
        f_n: false,
        f_h: (src as int % 0x1000) + (dest as int % 0x1000) > 0xFFF,
        f_c: src as int + dest as int > 0xFFFF,
        ..c3
    }
}

/// Rotate left: the top bit leaves into carry and the old carry enters
/// at the bottom.
pub open spec fn spec_rl_out(v: u8, cin: bool) -> u8 {
    ((v as int % 128) * 2 + (if cin {
        1int
    } else {
        0
    })) as u8
}

/// Rotate left circular: the top bit wraps to the bottom and also
/// becomes the carry.
pub open spec fn spec_rlc_out(v: u8) -> u8 {
    ((v as int % 128) * 2 + v as int / 128) as u8
}

/// Rotate right: the bottom bit leaves into carry and the old carry
/// enters at the top.
pub open spec fn spec_rr_out(v: u8, cin: bool) -> u8 {
    (v as int / 2 + (if cin {
        128int
    } else {
        0
    })) as u8
}

/// Rotate right circular: the bottom bit wraps to the top and also
/// becomes the carry.
pub open spec fn spec_rrc_out(v: u8) -> u8 {
    (v as int / 2 + (v as int % 2) * 128) as u8
}

/// Shift left arithmetic: the top bit leaves into carry, zero enters.
pub open spec fn spec_sla_out(v: u8) -> u8 {
    ((v as int % 128) * 2) as u8
}

/// Shift right arithmetic: the bottom bit leaves into carry, the sign
/// bit is kept.
pub open spec fn spec_sra_out(v: u8) -> u8 {
    (v as int / 2 + (v as int / 128) * 128) as u8
}

/// Swap the nibbles.
pub open spec fn spec_swap_out(v: u8) -> u8 {
    ((v as int % 16) * 16 + v as int / 16) as u8
}

/// Shift right logical: the bottom bit leaves into carry, zero enters.
pub open spec fn spec_srl_out(v: u8) -> u8 {
    (v as int / 2) as u8
}

/// How a read-modify-write byte instruction relates the CPU and bus
/// before and after: the operand is read (with its side effect), the
/// result written back (with its side effect and, for a memory operand,
/// one routed bus write), and the four flags take the given values.
pub open spec fn spec_unary_rel(
    c: Cpu,
    m: GbMapper,
    c2: Cpu,
    m2: GbMapper,
    reg: ByteR,
    out: u8,
    fz: bool,
    fnn: bool,
    fh: bool,
    fc: bool,
) -> bool {
    let c1 = spec_read_8_cpu(c, reg);
    &&& c2 == (Cpu { f_z: fz, f_n: fnn, f_h: fh, f_c: fc, ..spec_write_8_cpu(c1, reg, out) })
    &&& spec_write_8_mem_rel(c1, m, m2, reg, out)
}

impl Cpu {
    /// AND an operand into the accumulator.
    pub fn and(&mut self, reg: ByteR, mem: &mut Mem)
        requires
            spec_mem_wf(*old(mem)),
        ensures
            *final(mem) == *old(mem),
            *final(self) == spec_alu_and(*old(self), old(mem).map_holder, reg),
    {
        let a0 = self.a;
        let v = self.read_8(reg, mem);
        self.a = a0 & v;
        self.f_z = self.a == 0;
        self.f_n = false;
        self.f_h = true;
        self.f_c = false;
    }

    /// OR an operand into the accumulator.
    pub fn or(&mut self, reg: ByteR, mem: &mut Mem)
        requires
            spec_mem_wf(*old(mem)),
        ensures
            *final(mem) == *old(mem),
            *final(self) == spec_alu_or(*old(self), old(mem).map_holder, reg),
    {
        let a0 = self.a;
        let v = self.read_8(reg, mem);
        self.a = a0 | v;
        self.f_z = self.a == 0;
        self.f_n = false;
        self.f_h = false;
        self.f_c = false;
    }

    /// XOR an operand into the accumulator.
    pub fn xor(&mut self, reg: ByteR, mem: &mut Mem)
        requires
            spec_mem_wf(*old(mem)),
        ensures
            *final(mem) == *old(mem),
            *final(self) == spec_alu_xor(*old(self), old(mem).map_holder, reg),
    {
        let a0 = self.a;
        let v = self.read_8(reg, mem);
        self.a = a0 ^ v;
        self.f_z = self.a == 0;
        self.f_n = false;
        self.f_h = false;
        self.f_c = false;
    }

    /// Add or subtract an operand into the accumulator, with optional
    /// carry in.
    #[verifier::rlimit(100)]
    pub fn add(&mut self, reg: ByteR, mem: &mut Mem, with_c: bool, sub: bool)
        requires
            spec_mem_wf(*old(mem)),
        ensures
            *final(mem) == *old(mem),
            *final(self) == spec_alu_add(*old(self), old(mem).map_holder, reg, with_c, sub),
    {
        let a0 = self.a;
        let cin: u16 = if with_c && self.f_c {
            1
        } else {
            0
        };
        let v = self.read_8(reg, mem);
        if sub {
            let rhs: u16 = v as u16 + cin;
            let data: u8 = ((a0 as u16 + 512 - rhs) % 256) as u8;
            self.f_h = ((a0 % 16) as u16) < (v % 16) as u16 + cin;
            self.f_c = (a0 as u16) < rhs;
            self.a = data;
            self.f_z = data == 0;
            self.f_n = true;
        } else {
            let total: u16 = a0 as u16 + v as u16 + cin;
            let data: u8 = (total % 256) as u8;
            self.f_h = (a0 % 16) as u16 + (v % 16) as u16 + cin > 15;
            self.f_c = total > 255;
            self.a = data;
            self.f_z = data == 0;
            self.f_n = false;
        }
    }

    /// Decimal-adjust the accumulator after a BCD add or subtract.
    #[verifier::rlimit(100)]
    pub fn daa(&mut self)
        ensures
            *final(self) == spec_daa(*old(self)),
    {
        let mut adjust: u16 = 0;
        if (!self.f_n && self.a % 16 > 9) || self.f_h {
            adjust = adjust + 0x06;
        }
        let high = (!self.f_n && self.a > 0x99) || self.f_c;
        if high {
            adjust = adjust + 0x60;
        }
        if self.f_n {
            self.a = ((self.a as u16 + 256 - adjust) % 256) as u8;
        } else {
            self.a = ((self.a as u16 + adjust) % 256) as u8;
        }
        self.f_c = high;
        self.f_z = self.a == 0;
        self.f_h = false;
    }

    /// Add a word operand into another: half-carry from bit 11, carry
    /// from bit 15, zero untouched.
    #[verifier::spinoff_prover]
    #[verifier::rlimit(100)]
    pub fn add16(&mut self, o1: WordR, o2: WordR)
        requires
            spec_word_writable(o1),
        ensures
            *final(self) == spec_add16(*old(self), o1, o2),
    {
        let src = self.read_16(o2);
        let ghost c1 = *self;
        let dest = self.read_16(o1);
        let ghost c2 = *self;
        let h = (src % 0x1000) + (dest % 0x1000) > 0xFFF;
        let total: u32 = src as u32 + dest as u32;
        let c = total > 0xFFFF;
        let result = (total % 0x10000) as u16;
        proof {
            assert(src == spec_read_16_val(*old(self), o2));
            assert(c1 == spec_read_16_cpu(*old(self), o2));
            assert(dest == spec_read_16_val(c1, o1));
            assert(c2 == spec_read_16_cpu(c1, o1));
            assert(result == spec_wrap16(dest as int + src as int));
        }
        self.write_16(o1, result);
        proof {
            assert(*self == spec_write_16(c2, o1, result));
        }
        self.f_n = false;
        self.f_h = h;
        self.f_c = c;
    }

    /// Rotate an operand left through carry.
    #[verifier::rlimit(100)]
    pub fn rl(&mut self, reg: ByteR, mem: &mut Mem)
        requires
            spec_byte_writable(reg),
            spec_mem_wf(*old(mem)),
        ensures
            spec_mem_wf(*final(mem)),
            final(mem).screen == old(mem).screen,
            final(mem).ime == old(mem).ime,
            ({
                let v = spec_read_8_val(*old(self), old(mem).map_holder, reg);
                let out = spec_rl_out(v, old(self).f_c);
                spec_unary_rel(
                    *old(self),
                    old(mem).map_holder,
                    *final(self),
                    final(mem).map_holder,
                    reg,
                    out,
                    out == 0,
                    false,
                    false,
                    v / 128 == 1,
                )
            }),
    {
        let cin = self.f_c;
        let v = self.read_8(reg, mem);
        let out: u8 = (v % 128) * 2 + (if cin {
            1
        } else {
            0
        });
        self.write_8(reg, out, mem);
        self.f_c = v / 128 == 1;
        self.f_z = out == 0;
        self.f_n = false;
        self.f_h = false;
    }

    /// Rotate an operand left circular.
    #[verifier::rlimit(100)]
    pub fn rlc(&mut self, reg: ByteR, mem: &mut Mem)
        requires
            spec_byte_writable(reg),
            spec_mem_wf(*old(mem)),
        ensures
            spec_mem_wf(*final(mem)),
            final(mem).screen == old(mem).screen,
            final(mem).ime == old(mem).ime,
            ({
                let v = spec_read_8_val(*old(self), old(mem).map_holder, reg);
                let out = spec_rlc_out(v);
                spec_unary_rel(
                    *old(self),
                    old(mem).map_holder,
                    *final(self),
                    final(mem).map_holder,
                    reg,
                    out,
                    out == 0,
                    false,
                    false,
                    v / 128 == 1,
                )
            }),
    {
        let v = self.read_8(reg, mem);
        let out: u8 = (v % 128) * 2 + v / 128;
        self.write_8(reg, out, mem);
        self.f_c = v / 128 == 1;
        self.f_z = out == 0;
        self.f_n = false;
        self.f_h = false;
    }

    /// Rotate an operand right through carry.
    #[verifier::rlimit(100)]
    pub fn rr(&mut self, reg: ByteR, mem: &mut Mem)
        requires
            spec_byte_writable(reg),
            spec_mem_wf(*old(mem)),
        ensures
            spec_mem_wf(*final(mem)),
            final(mem).screen == old(mem).screen,
            final(mem).ime == old(mem).ime,
            ({
                let v = spec_read_8_val(*old(self), old(mem).map_holder, reg);
                let out = spec_rr_out(v, old(self).f_c);
                spec_unary_rel(
                    *old(self),
                    old(mem).map_holder,
                    *final(self),
                    final(mem).map_holder,
                    reg,
                    out,
                    out == 0,
                    false,
                    false,
                    v % 2 == 1,
                )
            }),
    {
        let cin = self.f_c;
        let v = self.read_8(reg, mem);
        let out: u8 = v / 2 + (if cin {
            128
        } else {
            0
        });
        self.write_8(reg, out, mem);
        self.f_c = v % 2 == 1;
        self.f_z = out == 0;
        self.f_n = false;
        self.f_h = false;
    }

    /// Rotate an operand right circular.
    #[verifier::rlimit(100)]
    pub fn rrc(&mut self, reg: ByteR, mem: &mut Mem)
        requires
            spec_byte_writable(reg),
            spec_mem_wf(*old(mem)),
        ensures
            spec_mem_wf(*final(mem)),
            final(mem).screen == old(mem).screen,
            final(mem).ime == old(mem).ime,
            ({
                let v = spec_read_8_val(*old(self), old(mem).map_holder, reg);
                let out = spec_rrc_out(v);
                spec_unary_rel(
                    *old(self),
                    old(mem).map_holder,
                    *final(self),
                    final(mem).map_holder,
                    reg,
                    out,
                    out == 0,
                    false,
                    false,
                    v % 2 == 1,
                )
            }),
    {
        let v = self.read_8(reg, mem);
        let out: u8 = v / 2 + (v % 2) * 128;
        self.write_8(reg, out, mem);
        self.f_c = v % 2 == 1;
        self.f_z = out == 0;
        self.f_n = false;
        self.f_h = false;
    }

    /// Shift an operand left, the top bit leaving into carry.
    #[verifier::rlimit(100)]
    pub fn sla(&mut self, reg: ByteR, mem: &mut Mem)
        requires
            spec_byte_writable(reg),
            spec_mem_wf(*old(mem)),
        ensures
            spec_mem_wf(*final(mem)),
            final(mem).screen == old(mem).screen,
            final(mem).ime == old(mem).ime,
            ({
                let v = spec_read_8_val(*old(self), old(mem).map_holder, reg);
                let out = spec_sla_out(v);
                spec_unary_rel(
                    *old(self),
                    old(mem).map_holder,
                    *final(self),
                    final(mem).map_holder,
                    reg,
                    out,
                    out == 0,
                    false,
                    false,
                    v / 128 == 1,
                )
            }),
    {
        let v = self.read_8(reg, mem);
        let out: u8 = (v % 128) * 2;
        self.write_8(reg, out, mem);
        self.f_c = v / 128 == 1;
        self.f_z = out == 0;
        self.f_n = false;
        self.f_h = false;
    }

    /// Shift an operand right keeping its sign bit, the bottom bit
    /// leaving into carry.
    #[verifier::rlimit(100)]
    pub fn sra(&mut self, reg: ByteR, mem: &mut Mem)
        requires
            spec_byte_writable(reg),
            spec_mem_wf(*old(mem)),
        ensures
            spec_mem_wf(*final(mem)),
            final(mem).screen == old(mem).screen,
            final(mem).ime == old(mem).ime,
            ({
                let v = spec_read_8_val(*old(self), old(mem).map_holder, reg);
                let out = spec_sra_out(v);
                spec_unary_rel(
                    *old(self),
                    old(mem).map_holder,
                    *final(self),
                    final(mem).map_holder,
                    reg,
                    out,
                    out == 0,
                    false,
                    false,
                    v % 2 == 1,
                )
            }),
    {
        let v = self.read_8(reg, mem);
        let out: u8 = v / 2 + (v / 128) * 128;
        self.write_8(reg, out, mem);
        self.f_c = v % 2 == 1;
        self.f_z = out == 0;
        self.f_n = false;
        self.f_h = false;
    }

    /// Swap an operand's nibbles; every flag but zero is cleared.
    #[verifier::rlimit(100)]
    pub fn swap(&mut self, reg: ByteR, mem: &mut Mem)
        requires
            spec_byte_writable(reg),
            spec_mem_wf(*old(mem)),
        ensures
            spec_mem_wf(*final(mem)),
            final(mem).screen == old(mem).screen,
            final(mem).ime == old(mem).ime,
            ({
                let v = spec_read_8_val(*old(self), old(mem).map_holder, reg);
                let out = spec_swap_out(v);
                spec_unary_rel(
                    *old(self),
                    old(mem).map_holder,
                    *final(self),
                    final(mem).map_holder,
                    reg,
                    out,
                    out == 0,
                    false,
                    false,
                    false,
                )
            }),
    {
        let v = self.read_8(reg, mem);
        let out: u8 = (v % 16) * 16 + v / 16;
        self.write_8(reg, out, mem);
        self.f_c = false;
        self.f_z = out == 0;
        self.f_n = false;
        self.f_h = false;
    }

    /// Shift an operand right, zero entering at the top and the bottom
    /// bit leaving into carry.
    #[verifier::rlimit(100)]
    pub fn srl(&mut self, reg: ByteR, mem: &mut Mem)
        requires
            spec_byte_writable(reg),
            spec_mem_wf(*old(mem)),
        ensures
            spec_mem_wf(*final(mem)),
            final(mem).screen == old(mem).screen,
            final(mem).ime == old(mem).ime,
            ({
                let v = spec_read_8_val(*old(self), old(mem).map_holder, reg);
                let out = spec_srl_out(v);
                spec_unary_rel(
                    *old(self),
                    old(mem).map_holder,
                    *final(self),
                    final(mem).map_holder,
                    reg,
                    out,
                    out == 0,
                    false,
                    false,
                    v % 2 == 1,
                )
            }),
    {
        let v = self.read_8(reg, mem);
        let out: u8 = v / 2;
        self.write_8(reg, out, mem);
        self.f_c = v % 2 == 1;
        self.f_z = out == 0;
        self.f_n = false;
        self.f_h = false;
    }

    /// Test bit `n` of an operand: zero set exactly when the bit is
    /// clear, subtract cleared, half-carry forced set, carry untouched.
    #[verifier::rlimit(100)]
    pub fn bit(&mut self, n: u8, reg: ByteR, mem: &mut Mem)
        requires
            n < 8,
            spec_mem_wf(*old(mem)),
        ensures
            *final(mem) == *old(mem),
            *final(self) == (Cpu {
                f_z: (spec_read_8_val(*old(self), old(mem).map_holder, reg) as int / spec_pow2(
                    n,
                ) as int) % 2 == 0,
                f_n: false,
                f_h: true,
                ..spec_read_8_cpu(*old(self), reg)
            }),
    {
        let v = self.read_8(reg, mem);
        let p = crate::pow2(n);
        self.f_z = (v / p) % 2 == 0;
        self.f_n = false;
        self.f_h = true;
    }

    /// Set bit `n` of an operand; the flags are untouched.
    #[verifier::rlimit(100)]
    pub fn set(&mut self, n: u8, reg: ByteR, mem: &mut Mem)
        requires
            n < 8,
            spec_byte_writable(reg),
            spec_mem_wf(*old(mem)),
        ensures
            spec_mem_wf(*final(mem)),
            final(mem).screen == old(mem).screen,
            final(mem).ime == old(mem).ime,
            ({
                let v = spec_read_8_val(*old(self), old(mem).map_holder, reg);
                let out = v | spec_pow2(n);
                let c1 = spec_read_8_cpu(*old(self), reg);
                *final(self) == spec_write_8_cpu(c1, reg, out) && spec_write_8_mem_rel(
                    c1,
                    old(mem).map_holder,
                    final(mem).map_holder,
                    reg,
                    out,
                )
            }),
    {
        let v = self.read_8(reg, mem);
        let mask = crate::pow2(n);
        let out = v | mask;
        self.write_8(reg, out, mem);
    }

    /// Clear bit `n` of an operand; the flags are untouched.
    #[verifier::rlimit(100)]
    pub fn res(&mut self, n: u8, reg: ByteR, mem: &mut Mem)
        requires
            n < 8,
            spec_byte_writable(reg),
            spec_mem_wf(*old(mem)),
        ensures
            spec_mem_wf(*final(mem)),
            final(mem).screen == old(mem).screen,
            final(mem).ime == old(mem).ime,
            ({
                let v = spec_read_8_val(*old(self), old(mem).map_holder, reg);
                let out = v & !spec_pow2(n);
                let c1 = spec_read_8_cpu(*old(self), reg);
                *final(self) == spec_write_8_cpu(c1, reg, out) && spec_write_8_mem_rel(
                    c1,
                    old(mem).map_holder,
                    final(mem).map_holder,
                    reg,
                    out,
                )
            }),
    {
        let v = self.read_8(reg, mem);
        let mask = crate::pow2(n);
        let out = v & !mask;
        self.write_8(reg, out, mem);
    }
}

} // verus!

verus! {

/// How a push relates the CPU and bus before and after: the operand is
/// read (with its side effect), SP drops by two, and the value's two
/// bytes go to the bus at the new SP.
pub open spec fn spec_push_rel(c: Cpu, m: GbMapper, c2: Cpu, m2: GbMapper, reg: WordR) -> bool {
    let data = spec_read_16_val(c, reg);
    let c1 = spec_read_16_cpu(c, reg);
    let sp2 = spec_wrap16(c1.sp as int - 2);
    &&& c2 == (Cpu { sp: sp2, ..c1 })
    &&& spec_write2_rel(m, m2, sp2, (data as int % 256) as u8, (data as int / 256) as u8)
}

/// The word a pop hands back: the bus word at SP.
pub open spec fn spec_pop_val(c: Cpu, m: GbMapper) -> u16 {
    spec_load_16(m, c.sp)
}

/// The CPU after a pop: SP rises by two.
pub open spec fn spec_pop_cpu(c: Cpu) -> Cpu {
    Cpu { sp: spec_wrap16(c.sp as int + 2), ..c }
}

/// Which instructions are well formed: stores go to writable operands
/// and bit numbers stay below eight. The decoder only emits well-formed
/// instructions.
pub open spec fn spec_op_wf(op: Op) -> bool {
    match op {
        Op::LD8(o1, _) => spec_byte_writable(o1),
        Op::LD16(o1, _) => spec_word_writable(o1),
        Op::POP(o) => spec_word_writable(o),
        Op::INC8(o) => spec_byte_writable(o),
        Op::DEC8(o) => spec_byte_writable(o),
        Op::INC16(o) => spec_word_writable(o),
        Op::DEC16(o) => spec_word_writable(o),
        Op::ADD16(o1, _) => spec_word_writable(o1),
        Op::RL(o) => spec_byte_writable(o),
        Op::RLC(o) => spec_byte_writable(o),
        Op::RR(o) => spec_byte_writable(o),
        Op::RRC(o) => spec_byte_writable(o),
        Op::SLA(o) => spec_byte_writable(o),
        Op::SRA(o) => spec_byte_writable(o),
        Op::SWAP(o) => spec_byte_writable(o),
        Op::SRL(o) => spec_byte_writable(o),
        Op::BIT(n, _) => n < 8,
        Op::RES(n, o) => n < 8 && spec_byte_writable(o),
        Op::SET(n, o) => n < 8 && spec_byte_writable(o),
        _ => true,
    }
}

/// How executing one decoded instruction relates the CPU, the machine
/// and the interrupt master enable before and after, with the cycle
/// surcharge: zero except for taken conditional branches, calls and
/// returns, which pay twelve.
#[verifier::opaque]
pub open spec fn spec_execute_rel(
    op: Op,
    c: Cpu,
    m: GbMapper,
    ime: bool,
    c2: Cpu,
    m2: GbMapper,
    ime2: bool,
    ot: usize,
) -> bool {
    match op {
        Op::NOP => c2 == c && m2 == m && ime2 == ime && ot == 0,
        Op::HALT => c2 == (Cpu { state: CPUState::Halt, ..c }) && m2 == m && ime2 == ime && ot == 0,
        Op::STOP => c2 == (Cpu { state: CPUState::Stop, ..c }) && m2 == m && ime2 == ime && ot == 0,
        Op::DAA => c2 == spec_daa(c) && m2 == m && ime2 == ime && ot == 0,
        Op::CPL => c2 == (Cpu { a: !c.a, f_n: true, f_h: true, ..c }) && m2 == m && ime2 == ime
            && ot == 0,
        Op::SCF => c2 == (Cpu { f_c: true, f_n: false, f_h: false, ..c }) && m2 == m && ime2 == ime
            && ot == 0,
        Op::CCF => c2 == (Cpu { f_c: !c.f_c, f_n: false, f_h: false, ..c }) && m2 == m
            && ime2 == ime && ot == 0,
        Op::RST(v) => {
            &&& spec_push_rel(c, m, Cpu { pc: c.pc, ..c2 }, m2, WordR::PC)
            &&& c2.pc == v as u16
            &&& ime2 == ime
            &&& ot == 0
        },
        Op::RET(fl) => {
            if spec_flag_condition(c, fl) {
                c2 == (Cpu { pc: spec_pop_val(c, m), ..spec_pop_cpu(c) }) && m2 == m && ime2 == ime
                    && ot == 12
            } else {
                c2 == c && m2 == m && ime2 == ime && ot == 0
            }
        },
        Op::RETI => c2 == (Cpu { pc: spec_pop_val(c, m), ..spec_pop_cpu(c) }) && m2 == m && ime2
            && ot == 0,
        Op::CALL(fl, o) => {
            if spec_flag_condition(c, fl) {
                let cp = Cpu { sp: spec_wrap16(c.sp as int - 2), ..c };
                &&& spec_write2_rel(
                    m,
                    m2,
                    cp.sp,
                    (c.pc as int % 256) as u8,
                    (c.pc as int / 256) as u8,
                )
                &&& c2 == (Cpu { pc: spec_read_16_val(cp, o), ..spec_read_16_cpu(cp, o) })
                &&& ime2 == ime
                &&& ot == 12
            } else {
                c2 == c && m2 == m && ime2 == ime && ot == 0
            }
        },
        Op::PUSH(o) => spec_push_rel(c, m, c2, m2, o) && ime2 == ime && ot == 0,
        Op::POP(o) => c2 == spec_write_16(spec_pop_cpu(c), o, spec_pop_val(c, m)) && m2 == m
            && ime2 == ime && ot == 0,
        Op::LD8(o1, o2) => {
            let data = spec_read_8_val(c, m, o2);
            let c1 = spec_read_8_cpu(c, o2);
            &&& c2 == spec_write_8_cpu(c1, o1, data)
            &&& spec_write_8_mem_rel(c1, m, m2, o1, data)
            &&& ime2 == ime
            &&& ot == 0
        },
        Op::LD16(o1, o2) => {
            let data = spec_read_16_val(c, o2);
            let c1 = spec_read_16_cpu(c, o2);
            c2 == spec_write_16(c1, o1, data) && m2 == m && ime2 == ime && ot == 0
        },
        Op::LDMem(o1, o2) => {
            let addr = spec_read_16_val(c, o1);
            let c1 = spec_read_16_cpu(c, o1);
            let data = spec_read_16_val(c1, o2);
            let cr = spec_read_16_cpu(c1, o2);
            &&& c2 == cr
            &&& spec_write2_rel(m, m2, addr, (data as int % 256) as u8, (data as int / 256) as u8)
            &&& ime2 == ime
            &&& ot == 0
        },
        Op::INC8(o) => {
            let before = spec_read_8_val(c, m, o);
            let c1 = spec_read_8_cpu(c, o);
            let data = ((before as int + 1) % 256) as u8;
            &&& c2 == (Cpu {
                f_z: data == 0,
                f_n: false,
                f_h: before as int % 16 == 15,
                ..spec_write_8_cpu(c1, o, data)
            })
            &&& spec_write_8_mem_rel(c1, m, m2, o, data)
            &&& ime2 == ime
            &&& ot == 0
        },
        Op::DEC8(o) => {
            let before = spec_read_8_val(c, m, o);
            let c1 = spec_read_8_cpu(c, o);
            let data = ((before as int + 255) % 256) as u8;
            &&& c2 == (Cpu {
                f_z: data == 0,
                f_n: true,
                f_h: before as int % 16 == 0,
                ..spec_write_8_cpu(c1, o, data)
            })
            &&& spec_write_8_mem_rel(c1, m, m2, o, data)
            &&& ime2 == ime
            &&& ot == 0
        },
        Op::INC16(o) => {
            let v = spec_read_16_val(c, o);
            let c1 = spec_read_16_cpu(c, o);
            c2 == spec_write_16(c1, o, spec_wrap16(v as int + 1)) && m2 == m && ime2 == ime && ot
                == 0
        },
        Op::DEC16(o) => {
            let v = spec_read_16_val(c, o);
            let c1 = spec_read_16_cpu(c, o);
            c2 == spec_write_16(c1, o, spec_wrap16(v as int - 1)) && m2 == m && ime2 == ime && ot
                == 0
        },
        Op::ADD8(_, o) => c2 == spec_alu_add(c, m, o, false, false) && m2 == m && ime2 == ime && ot
            == 0,
        Op::ADD16(o1, o2) => c2 == spec_add16(c, o1, o2) && m2 == m && ime2 == ime && ot == 0,
        Op::ADC8(_, o) => c2 == spec_alu_add(c, m, o, true, false) && m2 == m && ime2 == ime && ot
            == 0,
        Op::SUB(o) => c2 == spec_alu_add(c, m, o, false, true) && m2 == m && ime2 == ime && ot == 0,
        Op::SBC(_, o) => c2 == spec_alu_add(c, m, o, true, true) && m2 == m && ime2 == ime && ot
            == 0,
        Op::AND(o) => c2 == spec_alu_and(c, m, o) && m2 == m && ime2 == ime && ot == 0,
        Op::OR(o) => c2 == spec_alu_or(c, m, o) && m2 == m && ime2 == ime && ot == 0,
        Op::XOR(o) => c2 == spec_alu_xor(c, m, o) && m2 == m && ime2 == ime && ot == 0,
        Op::CP(o) => c2 == spec_alu_cp(c, m, o) && m2 == m && ime2 == ime && ot == 0,
        Op::JR(fl, o) => {
            if spec_flag_condition(c, fl) {
                c2 == (Cpu { pc: spec_wrap16(c.pc as int + spec_sign_ext(o) as int), ..c }) && m2
                    == m && ime2 == ime && ot == 12
            } else {
                c2 == c && m2 == m && ime2 == ime && ot == 0
            }
        },
        Op::JP(fl, o) => {
            if spec_flag_condition(c, fl) {
                c2 == (Cpu { pc: spec_read_16_val(c, o), ..spec_read_16_cpu(c, o) }) && m2 == m
                    && ime2 == ime && ot == 12
            } else {
                c2 == c && m2 == m && ime2 == ime && ot == 0
            }
        },
        Op::SPADD(o) => c2 == (Cpu {
            sp: spec_wrap16(c.sp as int + spec_sign_ext(o) as int),
            f_z: false,
            f_n: false,
            f_h: (spec_sign_ext(o) as int % 16) + (c.sp as int % 16) > 15,
            f_c: (spec_sign_ext(o) as int % 256) + (c.sp as int % 256) > 255,
            ..c
        }) && m2 == m && ime2 == ime && ot == 0,
        Op::RL(o) => {
            let v = spec_read_8_val(c, m, o);
            let out = spec_rl_out(v, c.f_c);
            spec_unary_rel(c, m, c2, m2, o, out, out == 0, false, false, v / 128 == 1) && ime2
                == ime && ot == 0
        },
        Op::RLC(o) => {
            let v = spec_read_8_val(c, m, o);
            let out = spec_rlc_out(v);
            spec_unary_rel(c, m, c2, m2, o, out, out == 0, false, false, v / 128 == 1) && ime2
                == ime && ot == 0
        },
        Op::RR(o) => {
            let v = spec_read_8_val(c, m, o);
            let out = spec_rr_out(v, c.f_c);
            spec_unary_rel(c, m, c2, m2, o, out, out == 0, false, false, v % 2 == 1) && ime2 == ime
                && ot == 0
        },
        Op::RRC(o) => {
            let v = spec_read_8_val(c, m, o);
            let out = spec_rrc_out(v);
            spec_unary_rel(c, m, c2, m2, o, out, out == 0, false, false, v % 2 == 1) && ime2 == ime
                && ot == 0
        },
        Op::SLA(o) => {
            let v = spec_read_8_val(c, m, o);
            let out = spec_sla_out(v);
            spec_unary_rel(c, m, c2, m2, o, out, out == 0, false, false, v / 128 == 1) && ime2
                == ime && ot == 0
        },
        Op::SRA(o) => {
            let v = spec_read_8_val(c, m, o);
            let out = spec_sra_out(v);
            spec_unary_rel(c, m, c2, m2, o, out, out == 0, false, false, v % 2 == 1) && ime2 == ime
                && ot == 0
        },
        Op::SWAP(o) => {
            let v = spec_read_8_val(c, m, o);
            let out = spec_swap_out(v);
            spec_unary_rel(c, m, c2, m2, o, out, out == 0, false, false, false) && ime2 == ime && ot
                == 0
        },
        Op::SRL(o) => {
            let v = spec_read_8_val(c, m, o);
            let out = spec_srl_out(v);
            spec_unary_rel(c, m, c2, m2, o, out, out == 0, false, false, v % 2 == 1) && ime2 == ime
                && ot == 0
        },
        Op::RLA => {
            let out = spec_rl_out(c.a, c.f_c);
            c2 == (Cpu {
                a: out,
                f_z: false,
                f_n: false,
                f_h: false,
                f_c: c.a / 128 == 1,
                ..c
            }) && m2 == m && ime2 == ime && ot == 0
        },
        Op::RLCA => {
            let out = spec_rlc_out(c.a);
            c2 == (Cpu {
                a: out,
                f_z: false,
                f_n: false,
                f_h: false,
                f_c: c.a / 128 == 1,
                ..c
            }) && m2 == m && ime2 == ime && ot == 0
        },
        Op::RRA => {
            let out = spec_rr_out(c.a, c.f_c);
            c2 == (Cpu { a: out, f_z: false, f_n: false, f_h: false, f_c: c.a % 2 == 1, ..c }) && m2
                == m && ime2 == ime && ot == 0
        },
        Op::RRCA => {
            let out = spec_rrc_out(c.a);
            c2 == (Cpu { a: out, f_z: false, f_n: false, f_h: false, f_c: c.a % 2 == 1, ..c }) && m2
                == m && ime2 == ime && ot == 0
        },
        Op::BIT(n, o) => c2 == (Cpu {
            f_z: (spec_read_8_val(c, m, o) as int / spec_pow2(n) as int) % 2 == 0,
            f_n: false,
            f_h: true,
            ..spec_read_8_cpu(c, o)
        }) && m2 == m && ime2 == ime && ot == 0,
        Op::SET(n, o) => {
            let v = spec_read_8_val(c, m, o);
            let out = v | spec_pow2(n);
            let c1 = spec_read_8_cpu(c, o);
            &&& c2 == spec_write_8_cpu(c1, o, out)
            &&& spec_write_8_mem_rel(c1, m, m2, o, out)
            &&& ime2 == ime
            &&& ot == 0
        },
        Op::RES(n, o) => {
            let v = spec_read_8_val(c, m, o);
            let out = v & !spec_pow2(n);
            let c1 = spec_read_8_cpu(c, o);
            &&& c2 == spec_write_8_cpu(c1, o, out)
            &&& spec_write_8_mem_rel(c1, m, m2, o, out)
            &&& ime2 == ime
            &&& ot == 0
        },
        Op::DI => c2 == c && m2 == m && !ime2 && ot == 0,
        Op::EI => c2 == c && m2 == m && ime2 && ot == 0,
    }
}

impl Cpu {
    /// Push a word operand: SP drops by two and the value's bytes go to
    /// the bus at the new SP.
    #[verifier::rlimit(100)]
    pub fn push(&mut self, reg: WordR, mem: &mut Mem)
        requires
            spec_mem_wf(*old(mem)),
        ensures
            spec_mem_wf(*final(mem)),
            final(mem).screen == old(mem).screen,
            final(mem).ime == old(mem).ime,
            spec_push_rel(
                *old(self),
                old(mem).map_holder,
                *final(self),
                final(mem).map_holder,
                reg,
            ),
            ({
                let data = spec_read_16_val(*old(self), reg);
                let sp2 = spec_wrap16(spec_read_16_cpu(*old(self), reg).sp as int - 2);
                &&& (0xC000 <= sp2 <= 0xDFFE ==> final(mem).map_holder == (GbMapper {
                    wram: final(mem).map_holder.wram,
                    ..old(mem).map_holder
                }) && final(mem).map_holder.wram@ == old(mem).map_holder.wram@.update(
                    sp2 - 0xC000,
                    (data as int % 256) as u8,
                ).update(sp2 + 1 - 0xC000, (data as int / 256) as u8))
                &&& (0xFF80 <= sp2 <= 0xFFFD ==> final(mem).map_holder == (GbMapper {
                    hram: final(mem).map_holder.hram,
                    ..old(mem).map_holder
                }) && final(mem).map_holder.hram@ == old(mem).map_holder.hram@.update(
                    sp2 - 0xFF80,
                    (data as int % 256) as u8,
                ).update(sp2 + 1 - 0xFF80, (data as int / 256) as u8))
            }),
    {
        let data = self.read_16(reg);
        let ghost c1 = *self;
        let sp2: u16 = if self.sp >= 2 {
            self.sp - 2
        } else {
            self.sp + 0xFFFE
        };
        self.sp = sp2;
        proof {
            assert(data == spec_read_16_val(*old(self), reg));
            assert(c1 == spec_read_16_cpu(*old(self), reg));
            assert(sp2 == spec_wrap16(c1.sp as int - 2));
            assert(*self == (Cpu { sp: sp2, ..c1 }));
        }
        mem.write_16(sp2, data);
    }

    /// Pop a word: the bus word at SP, with SP rising by two.
    pub fn pop(&mut self, mem: &mut Mem) -> (r: u16)
        requires
            spec_mem_wf(*old(mem)),
        ensures
            *final(mem) == *old(mem),
            r == spec_pop_val(*old(self), old(mem).map_holder),
            *final(self) == spec_pop_cpu(*old(self)),
    {
        let data = mem.load_16(self.sp);
        self.sp = if self.sp <= 0xFFFD {
            self.sp + 2
        } else {
            self.sp - 0xFFFE
        };
        data
    }

    /// Return when the predicate holds: PC is popped from the stack and
    /// the return pays its twelve-cycle surcharge; otherwise nothing
    /// moves.
    pub fn ret(&mut self, fl: OptFlag, mem: &mut Mem) -> (ot: usize)
        requires
            spec_mem_wf(*old(mem)),
        ensures
            *final(mem) == *old(mem),
            spec_flag_condition(*old(self), fl) ==> *final(self) == (Cpu {
                pc: spec_pop_val(*old(self), old(mem).map_holder),
                ..spec_pop_cpu(*old(self))
            }) && ot == 12,
            !spec_flag_condition(*old(self), fl) ==> *final(self) == *old(self) && ot == 0,
    {
        if self.flag_condition(fl) {
            let v = self.pop(mem);
            self.pc = v;
            12
        } else {
            0
        }
    }

    /// Call when the predicate holds: PC is pushed, the target becomes
    /// the new PC, and the call pays its twelve-cycle surcharge;
    /// otherwise nothing moves.
    pub fn call(&mut self, fl: OptFlag, reg: WordR, mem: &mut Mem) -> (ot: usize)
        requires
            spec_mem_wf(*old(mem)),
        ensures
            spec_mem_wf(*final(mem)),
            final(mem).screen == old(mem).screen,
            final(mem).ime == old(mem).ime,
            spec_flag_condition(*old(self), fl) ==> ({
                let cp = Cpu { sp: spec_wrap16(old(self).sp as int - 2), ..*old(self) };
                &&& spec_write2_rel(
                    old(mem).map_holder,
                    final(mem).map_holder,
                    cp.sp,
                    (old(self).pc as int % 256) as u8,
                    (old(self).pc as int / 256) as u8,
                )
                &&& *final(self) == (Cpu {
                    pc: spec_read_16_val(cp, reg),
                    ..spec_read_16_cpu(cp, reg)
                })
                &&& ot == 12
            }),
            !spec_flag_condition(*old(self), fl) ==> *final(self) == *old(self) && *final(mem)
                == *old(mem) && ot == 0,
    {
        if self.flag_condition(fl) {
            self.push(WordR::PC, mem);
            let t = self.read_16(reg);
            self.pc = t;
            12
        } else {
            0
        }
    }

    /// Relative jump when the predicate holds: the signed offset is
    /// added to PC (wrapping) and the branch pays its twelve-cycle
    /// surcharge; otherwise PC stays where the decoder left it.
    pub fn jr(&mut self, fl: OptFlag, o: i8) -> (ot: usize)
        ensures
            spec_flag_condition(*old(self), fl) ==> *final(self) == (Cpu {
                pc: spec_wrap16(old(self).pc as int + spec_sign_ext(o) as int),
                ..*old(self)
            }) && ot == 12,
            !spec_flag_condition(*old(self), fl) ==> *final(self) == *old(self) && ot == 0,
    {
        if self.flag_condition(fl) {
            let offset: u16 = if o >= 0 {
                o as u16
            } else {
                ((o as i32) + 0x10000) as u16
            };
            let target: u32 = (self.pc as u32 + offset as u32) % 0x10000;
            self.pc = target as u16;
            12
        } else {
            0
        }
    }

    /// Absolute jump when the predicate holds, paying its twelve-cycle
    /// surcharge.
    pub fn jp(&mut self, fl: OptFlag, o: WordR) -> (ot: usize)
        ensures
            spec_flag_condition(*old(self), fl) ==> *final(self) == (Cpu {
                pc: spec_read_16_val(*old(self), o),
                ..spec_read_16_cpu(*old(self), o)
            }) && ot == 12,
            !spec_flag_condition(*old(self), fl) ==> *final(self) == *old(self) && ot == 0,
    {
        if self.flag_condition(fl) {
            let t = self.read_16(o);
            self.pc = t;
            12
        } else {
            0
        }
    }

    /// Service an interrupt: the current PC is pushed, the master enable
    /// cleared, execution resumes at the vector, and a halted or stopped
    /// CPU wakes.
    pub fn handle_interupt(&mut self, location: u16, mem: &mut Mem)
        requires
            spec_mem_wf(*old(mem)),
        ensures
            spec_mem_wf(*final(mem)),
            final(mem).screen == old(mem).screen,
            !final(mem).ime,
            *final(self) == (Cpu {
                sp: spec_wrap16(old(self).sp as int - 2),
                pc: location,
                state: CPUState::Running,
                ..*old(self)
            }),
            spec_write2_rel(
                old(mem).map_holder,
                final(mem).map_holder,
                spec_wrap16(old(self).sp as int - 2),
                (old(self).pc as int % 256) as u8,
                (old(self).pc as int / 256) as u8,
            ),
    {
        self.push(WordR::PC, mem);
        mem.set_ime(false);
        self.pc = location;
        self.state = CPUState::Running;
    }
}

} // verus!

verus! {

/// Every entry of the extended opcode table is well formed and costs at
/// most 24 base cycles.
#[verifier::rlimit(100)]
pub proof fn lemma_cb_wf(op: u8)
    ensures
        spec_op_wf(crate::decode::spec_cb(op).1),
        crate::decode::spec_cb(op).3 <= 24,
{
    reveal(crate::decode::spec_cb_q0);
    reveal(crate::decode::spec_cb_q1);
    reveal(crate::decode::spec_cb_q2);
    reveal(crate::decode::spec_cb_q3);
}

/// Every entry of the primary opcode table decodes to a well-formed
/// instruction costing at most 24 base cycles.
#[verifier::rlimit(100)]
pub proof fn lemma_decode_wf(op: u8, op2: u8, op3: u8)
    ensures
        match crate::decode::spec_decode_bytes(op, op2, op3) {
            Some(t) => spec_op_wf(t.1) && t.3 <= 24,
            None => true,
        },
{
    reveal(crate::decode::spec_decode_q0);
    reveal(crate::decode::spec_decode_q1);
    reveal(crate::decode::spec_decode_q2);
    reveal(crate::decode::spec_decode_q3);
    if op == 0xCB {
        lemma_cb_wf(op2);
    }
}

/// How one fetch-decode-execute step relates the CPU and bus before and
/// after: an undecodable opcode moves nothing and surfaces the fatal
/// decode error; otherwise PC advances past the instruction, its
/// semantics are applied, and the step reports the base cycle cost plus
/// any branch surcharge.
pub open spec fn spec_step_rel(
    c: Cpu,
    m: Mem,
    c2: Cpu,
    m2: Mem,
    r: Result<usize, crate::decode::DecodeError>,
) -> bool {
    match crate::decode::spec_decode_at(m.map_holder, c.pc) {
        None => c2 == c && m2 == m && r == Err::<usize, crate::decode::DecodeError>(
            crate::decode::DecodeError { opcode: spec_load_8(m.map_holder, c.pc), addr: c.pc },
        ),
        Some((oc, op, len, time)) => {
            let c1 = Cpu { pc: spec_wrap16(c.pc as int + len as int), ..c };
            &&& m2.screen == m.screen
            &&& (exists|ot: usize|
                #[trigger] spec_execute_rel(
                    op,
                    c1,
                    m.map_holder,
                    m.ime,
                    c2,
                    m2.map_holder,
                    m2.ime,
                    ot,
                ) && ot <= 12 && r == Ok::<usize, crate::decode::DecodeError>((time + ot) as usize))
        },
    }
}

/// Whether an instruction belongs to the control, stack and interrupt-mask group.
pub open spec fn spec_op_ctrl(op: Op) -> bool {
    (op matches Op::NOP) || (op matches Op::HALT) || (op matches Op::STOP) || (op matches Op::DAA) || (op matches Op::CPL) || (op matches Op::SCF) || (op matches Op::CCF) || (op matches Op::RST(_)) || (op matches Op::RET(_)) || (op matches Op::RETI) || (op matches Op::CALL(_, _)) || (op matches Op::PUSH(_)) || (op matches Op::POP(_)) || (op matches Op::JR(_, _)) || (op matches Op::JP(_, _)) || (op matches Op::DI) || (op matches Op::EI)
}

/// Whether an instruction belongs to the load group.
pub open spec fn spec_op_loads(op: Op) -> bool {
    (op matches Op::LD8(_, _)) || (op matches Op::LD16(_, _)) || (op matches Op::LDMem(_, _))
}

/// Whether an instruction belongs to the increment and decrement group.
pub open spec fn spec_op_steps(op: Op) -> bool {
    (op matches Op::INC8(_)) || (op matches Op::INC16(_)) || (op matches Op::DEC8(_)) || (op matches Op::DEC16(_))
}

/// Whether an instruction belongs to the load and increment group.
pub open spec fn spec_op_moves(op: Op) -> bool {
    spec_op_loads(op) || spec_op_steps(op)
}

/// Whether an instruction belongs to the arithmetic and logic group.
pub open spec fn spec_op_arith(op: Op) -> bool {
    (op matches Op::ADD8(_, _)) || (op matches Op::ADD16(_, _)) || (op matches Op::SPADD(_)) || (op matches Op::ADC8(_, _)) || (op matches Op::SUB(_)) || (op matches Op::SBC(_, _)) || (op matches Op::AND(_)) || (op matches Op::OR(_)) || (op matches Op::XOR(_)) || (op matches Op::CP(_))
}

/// Whether an instruction belongs to the rotate group.
pub open spec fn spec_op_rots(op: Op) -> bool {
    (op matches Op::RL(_)) || (op matches Op::RLC(_)) || (op matches Op::RLA) || (op matches Op::RLCA) || (op matches Op::RR(_)) || (op matches Op::RRC(_)) || (op matches Op::RRA) || (op matches Op::RRCA)
}

/// Whether an instruction belongs to the shift and bit group.
pub open spec fn spec_op_shifts(op: Op) -> bool {
    (op matches Op::SLA(_)) || (op matches Op::SRA(_)) || (op matches Op::SWAP(_)) || (op matches Op::SRL(_)) || (op matches Op::BIT(_, _)) || (op matches Op::RES(_, _)) || (op matches Op::SET(_, _))
}

/// Every well-formed instruction falls into one of the execution
/// groups.
proof fn lemma_op_groups(op: Op)
    ensures
        !spec_op_ctrl(op) && !spec_op_moves(op) && !spec_op_arith(op) && !spec_op_rots(op)
            ==> spec_op_shifts(op),
{
}

impl Cpu {
    /// Apply one decoded instruction's semantics against the bus,
    /// returning the cycle surcharge beyond the decoder's base cost:
    /// twelve for a taken conditional branch, call or return, zero
    /// otherwise.
    pub fn execute_op(&mut self, opcode: Op, mem: &mut Mem) -> (ot: usize)
        requires
            spec_op_wf(opcode),
            spec_mem_wf(*old(mem)),
        ensures
            spec_mem_wf(*final(mem)),
            final(mem).screen == old(mem).screen,
            ot <= 12,
            spec_execute_rel(
                opcode,
                *old(self),
                old(mem).map_holder,
                old(mem).ime,
                *final(self),
                final(mem).map_holder,
                final(mem).ime,
                ot,
            ),
    {
        if self.op_is_ctrl(&opcode) {
            self.execute_ctrl(opcode, mem)
        } else if self.op_is_moves(&opcode) {
            self.execute_moves(opcode, mem)
        } else if self.op_is_arith(&opcode) {
            self.execute_arith(opcode, mem)
        } else if self.op_is_rots(&opcode) {
            self.execute_rots(opcode, mem)
        } else {
            proof {
                lemma_op_groups(opcode);
            }
            self.execute_shifts(opcode, mem)
        }
    }

    /// Whether the instruction belongs to the control and stack group.
    fn op_is_ctrl(&self, op: &Op) -> (r: bool)
        ensures
            r == spec_op_ctrl(*op),
    {
        match op {
            Op::NOP | Op::HALT | Op::STOP | Op::DAA | Op::CPL | Op::SCF | Op::CCF | Op::RST(_) | Op::RET(_) | Op::RETI | Op::CALL(_, _) | Op::PUSH(_) | Op::POP(_) | Op::JR(_, _) | Op::JP(_, _) | Op::DI | Op::EI => true,
            _ => false,
        }
    }

    /// Execute one instruction of the control, stack and interrupt-mask group.
    #[verifier::spinoff_prover]
    #[verifier::rlimit(100)]
    fn execute_ctrl(&mut self, opcode: Op, mem: &mut Mem) -> (ot: usize)
        requires
            spec_op_ctrl(opcode),
            spec_op_wf(opcode),
            spec_mem_wf(*old(mem)),
        ensures
            spec_mem_wf(*final(mem)),
            final(mem).screen == old(mem).screen,
            ot <= 12,
            spec_execute_rel(
                opcode,
                *old(self),
                old(mem).map_holder,
                old(mem).ime,
                *final(self),
                final(mem).map_holder,
                final(mem).ime,
                ot,
            ),
    {
        proof {
            reveal(spec_execute_rel);
        }
        let mut overtime: usize = 0;
        match opcode {
            Op::NOP => {},
            Op::HALT => self.state = CPUState::Halt,
            Op::STOP => self.state = CPUState::Stop,
            Op::DAA => self.daa(),
            Op::CPL => {
                self.a = !self.a;
                self.f_n = true;
                self.f_h = true;
            },
            Op::SCF => {
                self.f_c = true;
                self.f_n = false;
                self.f_h = false;
            },
            Op::CCF => {
                self.f_c = !self.f_c;
                self.f_n = false;
                self.f_h = false;
            },
            Op::RST(v) => {
                self.push(WordR::PC, mem);
                self.pc = v as u16;
            },
            Op::RET(fl) => {
                overtime = self.ret(fl, mem);
            },
            Op::RETI => {
                self.ret(OptFlag(None), mem);
                mem.set_ime(true);
            },
            Op::CALL(fl, o) => {
                overtime = self.call(fl, o, mem);
            },
            Op::PUSH(o) => self.push(o, mem),
            Op::POP(o) => {
                let data = self.pop(mem);
                self.write_16(o, data);
            },
            Op::JR(fl, o) => {
                overtime = self.jr(fl, o);
            },
            Op::JP(fl, o) => {
                overtime = self.jp(fl, o);
            },
            Op::DI => mem.set_ime(false),
            Op::EI => mem.set_ime(true),
            _ => {
                proof {
                    assert(false);
                }
            },
        }
        overtime
    }

    /// Whether the instruction belongs to the load and increment group.
    fn op_is_moves(&self, op: &Op) -> (r: bool)
        ensures
            r == spec_op_moves(*op),
    {
        match op {
            Op::LD8(_, _) | Op::LD16(_, _) | Op::LDMem(_, _) | Op::INC8(_) | Op::INC16(_) | Op::DEC8(_) | Op::DEC16(_) => true,
            _ => false,
        }
    }

    /// Whether the instruction belongs to the arithmetic and logic group.
    fn op_is_arith(&self, op: &Op) -> (r: bool)
        ensures
            r == spec_op_arith(*op),
    {
        match op {
            Op::ADD8(_, _) | Op::ADD16(_, _) | Op::SPADD(_) | Op::ADC8(_, _) | Op::SUB(_) | Op::SBC(_, _) | Op::AND(_) | Op::OR(_) | Op::XOR(_) | Op::CP(_) => true,
            _ => false,
        }
    }

    /// Whether the instruction belongs to the rotate group.
    fn op_is_rots(&self, op: &Op) -> (r: bool)
        ensures
            r == spec_op_rots(*op),
    {
        match op {
            Op::RL(_) | Op::RLC(_) | Op::RLA | Op::RLCA | Op::RR(_) | Op::RRC(_) | Op::RRA | Op::RRCA => true,
            _ => false,
        }
    }

    /// Whether the instruction belongs to the shift and bit group.
    fn op_is_shifts(&self, op: &Op) -> (r: bool)
        ensures
            r == spec_op_shifts(*op),
    {
        match op {
            Op::SLA(_) | Op::SRA(_) | Op::SWAP(_) | Op::SRL(_) | Op::BIT(_, _) | Op::RES(_, _) | Op::SET(_, _) => true,
            _ => false,
        }
    }

    /// Execute one instruction of the load and increment group.
    fn execute_moves(&mut self, opcode: Op, mem: &mut Mem) -> (ot: usize)
        requires
            spec_op_moves(opcode),
            spec_op_wf(opcode),
            spec_mem_wf(*old(mem)),
        ensures
            spec_mem_wf(*final(mem)),
            final(mem).screen == old(mem).screen,
            ot <= 12,
            spec_execute_rel(
                opcode,
                *old(self),
                old(mem).map_holder,
                old(mem).ime,
                *final(self),
                final(mem).map_holder,
                final(mem).ime,
                ot,
            ),
    {
        if self.op_is_loads(&opcode) {
            self.execute_loads(opcode, mem)
        } else {
            self.execute_steps(opcode, mem)
        }
    }

    /// Whether the instruction belongs to the load group.
    fn op_is_loads(&self, op: &Op) -> (r: bool)
        ensures
            r == spec_op_loads(*op),
    {
        match op {
            Op::LD8(_, _) | Op::LD16(_, _) | Op::LDMem(_, _) => true,
            _ => false,
        }
    }

    /// Whether the instruction belongs to the increment and decrement group.
    fn op_is_steps(&self, op: &Op) -> (r: bool)
        ensures
            r == spec_op_steps(*op),
    {
        match op {
            Op::INC8(_) | Op::INC16(_) | Op::DEC8(_) | Op::DEC16(_) => true,
            _ => false,
        }
    }

    /// Execute one instruction of the load group.
    #[verifier::spinoff_prover]
    #[verifier::rlimit(100)]
    fn execute_loads(&mut self, opcode: Op, mem: &mut Mem) -> (ot: usize)
        requires
            spec_op_loads(opcode),
            spec_op_wf(opcode),
            spec_mem_wf(*old(mem)),
        ensures
            spec_mem_wf(*final(mem)),
            final(mem).screen == old(mem).screen,
            ot <= 12,
            spec_execute_rel(
                opcode,
                *old(self),
                old(mem).map_holder,
                old(mem).ime,
                *final(self),
                final(mem).map_holder,
                final(mem).ime,
                ot,
            ),
    {
        proof {
            reveal(spec_execute_rel);
        }
        let mut overtime: usize = 0;
        match opcode {
            Op::LD8(o1, o2) => {
                let data = self.read_8(o2, mem);
                self.write_8(o1, data, mem);
            },
            Op::LD16(o1, o2) => {
                let data = self.read_16(o2);
                self.write_16(o1, data);
            },
            Op::LDMem(o1, o2) => {
                let addr = self.read_16(o1);
                let data = self.read_16(o2);
                mem.write_16(addr, data);
            },
            _ => {
                proof {
                    assert(false);
                }
            },
        }
        overtime
    }

    /// Execute one instruction of the increment and decrement group.
    fn execute_steps(&mut self, opcode: Op, mem: &mut Mem) -> (ot: usize)
        requires
            spec_op_steps(opcode),
            spec_op_wf(opcode),
            spec_mem_wf(*old(mem)),
        ensures
            spec_mem_wf(*final(mem)),
            final(mem).screen == old(mem).screen,
            ot <= 12,
            spec_execute_rel(
                opcode,
                *old(self),
                old(mem).map_holder,
                old(mem).ime,
                *final(self),
                final(mem).map_holder,
                final(mem).ime,
                ot,
            ),
    {
        match opcode {
            Op::INC8(_) | Op::DEC8(_) => self.execute_steps8(opcode, mem),
            _ => self.execute_steps16(opcode, mem),
        }
    }

    /// Execute one instruction of the byte increment and decrement pair.
    #[verifier::spinoff_prover]
    #[verifier::rlimit(100)]
    fn execute_steps8(&mut self, opcode: Op, mem: &mut Mem) -> (ot: usize)
        requires
            (opcode matches Op::INC8(_)) || (opcode matches Op::DEC8(_)),
            spec_op_wf(opcode),
            spec_mem_wf(*old(mem)),
        ensures
            spec_mem_wf(*final(mem)),
            final(mem).screen == old(mem).screen,
            ot <= 12,
            spec_execute_rel(
                opcode,
                *old(self),
                old(mem).map_holder,
                old(mem).ime,
                *final(self),
                final(mem).map_holder,
                final(mem).ime,
                ot,
            ),
    {
        let mut overtime: usize = 0;
        match opcode {
            Op::INC8(o) => {
                let before = self.read_8(o, mem);
                let ghost c1 = *self;
                let data: u8 = if before == 255 {
                    0
                } else {
                    before + 1
                };
                proof {
                    assert(before == spec_read_8_val(*old(self), old(mem).map_holder, o));
                    assert(c1 == spec_read_8_cpu(*old(self), o));
                    assert(data == ((before as int + 1) % 256) as u8);
                }
                self.write_8(o, data, mem);
                proof {
                    assert(*self == spec_write_8_cpu(c1, o, data));
                }
                self.f_z = data == 0;
                self.f_n = false;
                self.f_h = before % 16 == 15;
                proof {
                    assert(spec_execute_rel(
                        opcode,
                        *old(self),
                        old(mem).map_holder,
                        old(mem).ime,
                        *self,
                        mem.map_holder,
                        mem.ime,
                        0,
                    )) by {
                        reveal(spec_execute_rel);
                    }
                }
            },
            Op::DEC8(o) => {
                let before = self.read_8(o, mem);
                let ghost c1 = *self;
                let data: u8 = if before == 0 {
                    255
                } else {
                    before - 1
                };
                proof {
                    assert(before == spec_read_8_val(*old(self), old(mem).map_holder, o));
                    assert(c1 == spec_read_8_cpu(*old(self), o));
                    assert(data == ((before as int + 255) % 256) as u8);
                }
                self.write_8(o, data, mem);
                proof {
                    assert(*self == spec_write_8_cpu(c1, o, data));
                }
                self.f_z = data == 0;
                self.f_n = true;
                self.f_h = before % 16 == 0;
                proof {
                    assert(spec_execute_rel(
                        opcode,
                        *old(self),
                        old(mem).map_holder,
                        old(mem).ime,
                        *self,
                        mem.map_holder,
                        mem.ime,
                        0,
                    )) by {
                        reveal(spec_execute_rel);
                    }
                }
            },
            _ => {
                proof {
                    assert(false);
                }
            },
        }
        overtime
    }

    /// Execute one instruction of the word increment and decrement pair.
    #[verifier::spinoff_prover]
    #[verifier::rlimit(100)]
    fn execute_steps16(&mut self, opcode: Op, mem: &mut Mem) -> (ot: usize)
        requires
            (opcode matches Op::INC16(_)) || (opcode matches Op::DEC16(_)),
            spec_op_wf(opcode),
            spec_mem_wf(*old(mem)),
        ensures
            spec_mem_wf(*final(mem)),
            final(mem).screen == old(mem).screen,
            ot <= 12,
            spec_execute_rel(
                opcode,
                *old(self),
                old(mem).map_holder,
                old(mem).ime,
                *final(self),
                final(mem).map_holder,
                final(mem).ime,
                ot,
            ),
    {
        let mut overtime: usize = 0;
        match opcode {
            Op::INC16(o) => {
                let v = self.read_16(o);
                let ghost c1 = *self;
                let v2: u16 = if v == 0xFFFF {
                    0
                } else {
                    v + 1
                };
                proof {
                    assert(v == spec_read_16_val(*old(self), o));
                    assert(c1 == spec_read_16_cpu(*old(self), o));
                    assert(v2 == spec_wrap16(v as int + 1));
                }
                self.write_16(o, v2);
                proof {
                    assert(spec_execute_rel(
                        opcode,
                        *old(self),
                        old(mem).map_holder,
                        old(mem).ime,
                        *self,
                        mem.map_holder,
                        mem.ime,
                        0,
                    )) by {
                        reveal(spec_execute_rel);
                    }
                }
            },
            Op::DEC16(o) => {
                let v = self.read_16(o);
                let ghost c1 = *self;
                let v2: u16 = if v == 0 {
                    0xFFFF
                } else {
                    v - 1
                };
                proof {
                    assert(v == spec_read_16_val(*old(self), o));
                    assert(c1 == spec_read_16_cpu(*old(self), o));
                    assert(v2 == spec_wrap16(v as int - 1));
                }
                self.write_16(o, v2);
                proof {
                    assert(spec_execute_rel(
                        opcode,
                        *old(self),
                        old(mem).map_holder,
                        old(mem).ime,
                        *self,
                        mem.map_holder,
                        mem.ime,
                        0,
                    )) by {
                        reveal(spec_execute_rel);
                    }
                }
            },
            _ => {
                proof {
                    assert(false);
                }
            },
        }
        overtime
    }



    /// Execute one instruction of the arithmetic and logic group.
    #[verifier::spinoff_prover]
    #[verifier::rlimit(100)]
    fn execute_arith(&mut self, opcode: Op, mem: &mut Mem) -> (ot: usize)
        requires
            spec_op_arith(opcode),
            spec_op_wf(opcode),
            spec_mem_wf(*old(mem)),
        ensures
            spec_mem_wf(*final(mem)),
            final(mem).screen == old(mem).screen,
            ot <= 12,
            spec_execute_rel(
                opcode,
                *old(self),
                old(mem).map_holder,
                old(mem).ime,
                *final(self),
                final(mem).map_holder,
                final(mem).ime,
                ot,
            ),
    {
        proof {
            reveal(spec_execute_rel);
        }
        let mut overtime: usize = 0;
        match opcode {
            Op::ADD8(_, o) => self.add(o, mem, false, false),
            Op::ADD16(o1, o2) => self.add16(o1, o2),
            Op::SPADD(o) => {
                let v = self.spadd(o);
                self.sp = v;
            },
            Op::ADC8(_, o) => self.add(o, mem, true, false),
            Op::SUB(o) => self.add(o, mem, false, true),
            Op::SBC(_, o) => self.add(o, mem, true, true),
            Op::AND(o) => self.and(o, mem),
            Op::OR(o) => self.or(o, mem),
            Op::XOR(o) => self.xor(o, mem),
            Op::CP(o) => {
                let a0 = self.a;
                self.add(o, mem, false, true);
                self.a = a0;
            },
            _ => {
                proof {
                    assert(false);
                }
            },
        }
        overtime
    }

    /// Execute one instruction of the rotate group.
    #[verifier::spinoff_prover]
    #[verifier::rlimit(100)]
    fn execute_rots(&mut self, opcode: Op, mem: &mut Mem) -> (ot: usize)
        requires
            spec_op_rots(opcode),
            spec_op_wf(opcode),
            spec_mem_wf(*old(mem)),
        ensures
            spec_mem_wf(*final(mem)),
            final(mem).screen == old(mem).screen,
            ot <= 12,
            spec_execute_rel(
                opcode,
                *old(self),
                old(mem).map_holder,
                old(mem).ime,
                *final(self),
                final(mem).map_holder,
                final(mem).ime,
                ot,
            ),
    {
        proof {
            reveal(spec_execute_rel);
        }
        let mut overtime: usize = 0;
        match opcode {
            Op::RL(o) => self.rl(o, mem),
            Op::RLC(o) => self.rlc(o, mem),
            Op::RLA => {
                self.rl(ByteR::A, mem);
                self.f_z = false;
            },
            Op::RLCA => {
                self.rlc(ByteR::A, mem);
                self.f_z = false;
            },
            Op::RR(o) => self.rr(o, mem),
            Op::RRC(o) => self.rrc(o, mem),
            Op::RRA => {
                self.rr(ByteR::A, mem);
                self.f_z = false;
            },
            Op::RRCA => {
                self.rrc(ByteR::A, mem);
                self.f_z = false;
            },
            _ => {
                proof {
                    assert(false);
                }
            },
        }
        overtime
    }

    /// Execute one instruction of the shift and bit group.
    #[verifier::spinoff_prover]
    #[verifier::rlimit(100)]
    fn execute_shifts(&mut self, opcode: Op, mem: &mut Mem) -> (ot: usize)
        requires
            spec_op_shifts(opcode),
            spec_op_wf(opcode),
            spec_mem_wf(*old(mem)),
        ensures
            spec_mem_wf(*final(mem)),
            final(mem).screen == old(mem).screen,
            ot <= 12,
            spec_execute_rel(
                opcode,
                *old(self),
                old(mem).map_holder,
                old(mem).ime,
                *final(self),
                final(mem).map_holder,
                final(mem).ime,
                ot,
            ),
    {
        proof {
            reveal(spec_execute_rel);
        }
        let mut overtime: usize = 0;
        match opcode {
            Op::SLA(o) => self.sla(o, mem),
            Op::SRA(o) => self.sra(o, mem),
            Op::SWAP(o) => self.swap(o, mem),
            Op::SRL(o) => self.srl(o, mem),
            Op::BIT(n, o) => self.bit(n, o, mem),
            Op::RES(n, o) => self.res(n, o, mem),
            Op::SET(n, o) => self.set(n, o, mem),
            _ => {
                proof {
                    assert(false);
                }
            },
        }
        overtime
    }

    /// One fetch-decode-execute step of a running CPU: decode at PC,
    /// advance PC past the instruction, execute, and report the base
    /// cost plus any surcharge; an undecodable opcode is the fatal
    /// decode error, with nothing moved.
    pub fn cycle_running(&mut self, mem: &mut Mem) -> (r: Result<
        usize,
        crate::decode::DecodeError,
    >)
        requires
            spec_mem_wf(*old(mem)),
        ensures
            spec_mem_wf(*final(mem)),
            spec_step_rel(*old(self), *old(mem), *final(self), *final(mem), r),
    {
        match crate::decode::decode(self.pc, mem) {
            Err(e) => Err(e),
            Ok((instruction, opcode, op_size, op_time)) => {
                proof {
                    lemma_decode_wf(
                        spec_load_8(mem.map_holder, self.pc),
                        spec_load_8(mem.map_holder, ((self.pc as int + 1) % 0x10000) as u16),
                        spec_load_8(mem.map_holder, ((self.pc as int + 2) % 0x10000) as u16),
                    );
                }
                let new_pc: u32 = (self.pc as u32 + op_size as u32) % 0x10000;
                self.pc = new_pc as u16;
                let ot = self.execute_op(opcode, mem);
                Ok(op_time + ot)
            },
        }
    }

}

/// How one CPU step relates the CPU and bus before and after, with the
/// cycles it reports: a running CPU performs one fetch-decode-execute
/// step; a stopped one burns four cycles, waking when a joypad line is
/// active; a halted one burns four cycles, waking when any enabled
/// interrupt is pending (waking needs no master-enable check).
pub open spec fn spec_cycle_rel(
    c: Cpu,
    m: Mem,
    c2: Cpu,
    m2: Mem,
    r: Result<usize, crate::decode::DecodeError>,
) -> bool {
    match c.state {
        CPUState::Running => spec_step_rel(c, m, c2, m2, r),
        CPUState::Stop => m2 == m && r == Ok::<_, crate::decode::DecodeError>(4usize) && c2 == (
        if spec_load_8(m.map_holder, 0xFF00) & 0x0F > 0 {
            Cpu { state: CPUState::Running, ..c }
        } else {
            c
        }),
        CPUState::Halt => m2 == m && r == Ok::<_, crate::decode::DecodeError>(4usize) && c2 == (
        if spec_load_8(m.map_holder, 0xFFFF) & spec_load_8(m.map_holder, 0xFF0F) > 0 {
            Cpu { state: CPUState::Running, ..c }
        } else {
            c
        }),
    }
}

impl Cpu {
    /// One machine step: a running CPU executes an instruction; a
    /// stopped one burns four cycles until a joypad line goes active; a
    /// halted one burns four cycles until any enabled interrupt is
    /// pending (waking needs no master-enable check).
    pub fn cycle(&mut self, mem: &mut Mem) -> (r: Result<usize, crate::decode::DecodeError>)
        requires
            spec_mem_wf(*old(mem)),
        ensures
            spec_mem_wf(*final(mem)),
            spec_cycle_rel(*old(self), *old(mem), *final(self), *final(mem), r),
    {
        match self.state {
            CPUState::Running => self.cycle_running(mem),
            CPUState::Stop => {
                if mem.load_8(0xFF00) & 0x0F > 0 {
                    self.state = CPUState::Running;
                }
                Ok(4)
            },
            CPUState::Halt => {
                if mem.load_8(0xFFFF) & mem.load_8(0xFF0F) > 0 {
                    self.state = CPUState::Running;
                }
                Ok(4)
            },
        }
    }
}

} // verus!

verus! {

/// The flag byte of any register file decomposes back into its four
/// flags, and always has a zero low nibble.
proof fn lemma_f_byte_decompose(c: Cpu)
    ensures
        spec_set_f(c, spec_f_byte(c)) == (Cpu { f_z: c.f_z, f_n: c.f_n, f_h: c.f_h, f_c: c.f_c, ..c }),
        spec_f_byte(c) as int % 16 == 0,
{
    let f = spec_f_byte(c) as int;
    assert((f / 128) % 2 == 1 <==> c.f_z);
    assert((f / 64) % 2 == 1 <==> c.f_n);
    assert((f / 32) % 2 == 1 <==> c.f_h);
    assert((f / 16) % 2 == 1 <==> c.f_c);
}

/// A flag byte whose low nibble is zero survives the store-then-read
/// round trip through the flag register.
proof fn lemma_f_byte_recompose(c: Cpu, low: u8)
    requires
        low as int % 16 == 0,
    ensures
        spec_f_byte(spec_set_f(c, low)) == low,
{
    assert(128 * ((low / 128) % 2) + 64 * ((low / 64) % 2) + 32 * ((low / 32) % 2) + 16 * ((low
        / 16) % 2) == (low / 16) * 16) by (bit_vector);
    assert((low / 16) * 16 == low) by (bit_vector)
        requires
            low % 16 == 0,
    ;
}

/// Law: for every 8-bit register pair, storing a word and reading it
/// back yields the word again (through AF only words with a zero low
/// nibble, since the flag register has no low-nibble bits), and reading
/// the plain pairs has no side effect; the auto-increment and
/// auto-decrement pseudo-pairs additionally move HL by one, wrapping,
/// as an observable side effect of the read.
pub proof fn lemma_pair_round_trip(c: Cpu, pair: WordR, v: u16)
    requires
        pair == WordR::AF || pair == WordR::BC || pair == WordR::DE || pair == WordR::HL || pair
            == WordR::HLI || pair == WordR::HLD,
        pair == WordR::AF ==> v as int % 16 == 0,
    ensures
        spec_read_16_val(spec_write_16(c, pair, v), pair) == v,
        pair == WordR::BC || pair == WordR::DE || pair == WordR::HL || pair == WordR::AF
            ==> spec_read_16_cpu(spec_write_16(c, pair, v), pair) == spec_write_16(c, pair, v),
        pair == WordR::HLI ==> ({
            let after = spec_read_16_cpu(spec_write_16(c, pair, v), pair);
            spec_word(after.h, after.l) == spec_wrap16(v as int + 1)
        }),
        pair == WordR::HLD ==> ({
            let after = spec_read_16_cpu(spec_write_16(c, pair, v), pair);
            spec_word(after.h, after.l) == spec_wrap16(v as int - 1)
        }),
{
    let c1 = spec_write_16(c, pair, v);
    if pair == WordR::AF {
        lemma_f_byte_recompose(Cpu { a: (v as int / 256) as u8, ..c }, (v as int % 256) as u8);
    }
}

/// Law: XOR of the accumulator with itself always yields accumulator
/// zero with the zero flag set and the subtract, half-carry and carry
/// flags cleared, whatever the initial accumulator value.
pub proof fn lemma_xor_a_clears(c: Cpu, m: GbMapper)
    ensures
        spec_alu_xor(c, m, ByteR::A) == (Cpu {
            a: 0,
            f_z: true,
            f_n: false,
            f_h: false,
            f_c: false,
            ..c
        }),
{
    assert(c.a ^ c.a == 0) by (bit_vector);
}

/// Law: pushing a register pair and popping it back restores the pair's
/// value and leaves SP unchanged net of the two operations, SP dropping
/// by exactly two for the push; through AF the flag byte's zero low
/// nibble survives the trip. The lemma asks for a stack inside work RAM
/// or high RAM, so that both stored bytes land in plain memory.
#[verifier::rlimit(100)]
pub proof fn lemma_push_pop(c: Cpu, m: GbMapper, c2: Cpu, m2: GbMapper, pair: WordR)
    requires
        spec_gb_wf(m),
        pair == WordR::AF || pair == WordR::BC || pair == WordR::DE || pair == WordR::HL,
        (0xC002 <= c.sp && c.sp <= 0xDFFF) || (0xFF82 <= c.sp && c.sp <= 0xFFFE),
        spec_push_rel(c, m, c2, m2, pair),
    ensures
        c2.sp == c.sp - 2,
        spec_pop_cpu(c2).sp == c.sp,
        spec_pop_val(c2, m2) == spec_read_16_val(c, pair),
        spec_write_16(spec_pop_cpu(c2), pair, spec_pop_val(c2, m2)) == c,
{
    let data = spec_read_16_val(c, pair);
    let lo = (data as int % 256) as u8;
    let hi = (data as int / 256) as u8;
    assert(spec_read_16_cpu(c, pair) == c);
    let sp2 = spec_wrap16(c.sp as int - 2);
    assert(sp2 == c.sp - 2);
    assert(c2 == (Cpu { sp: sp2, ..c }));
    let (mid, r1, r2) = choose|mid: GbMapper, r1: BusWrite, r2: BusWrite|
        #![trigger spec_bus_write_rel(m, mid, sp2, lo, r1), spec_bus_write_rel(mid, m2, ((sp2 as int + 1) % 0x10000) as u16, hi, r2)]
        spec_bus_write_rel(m, mid, sp2, lo, r1) && spec_bus_write_rel(
            mid,
            m2,
            ((sp2 as int + 1) % 0x10000) as u16,
            hi,
            r2,
        );
    assert(((sp2 as int + 1) % 0x10000) as u16 == sp2 + 1);
    if c.sp <= 0xDFFF {
        assert(mid.wram@ == m.wram@.update(sp2 - 0xC000, lo) && m2 == (GbMapper {
            wram: m2.wram,
            ..mid
        }) && m2.wram@ == mid.wram@.update(sp2 + 1 - 0xC000, hi)) by {
            reveal(spec_bus_write_rel);
        }
        assert(m2.wram@[sp2 - 0xC000] == lo);
        assert(m2.wram@[sp2 + 1 - 0xC000] == hi);
    } else {
        assert(mid.hram@ == m.hram@.update(sp2 - 0xFF80, lo) && m2 == (GbMapper {
            hram: m2.hram,
            ..mid
        }) && m2.hram@ == mid.hram@.update(sp2 + 1 - 0xFF80, hi)) by {
            reveal(spec_bus_write_rel);
        }
        assert(m2.hram@[sp2 - 0xFF80] == lo);
        assert(m2.hram@[sp2 + 1 - 0xFF80] == hi);
    }
    assert(spec_load_8(m2, sp2) == lo && spec_load_8(m2, (sp2 + 1) as u16) == hi) by {
        reveal(spec_bus_read);
    }
    assert(spec_pop_val(c2, m2) == spec_word(hi, lo));
    assert(spec_word(hi, lo) == data);
    let back = spec_write_16(spec_pop_cpu(c2), pair, data);
    if pair == WordR::AF {
        lemma_f_byte_decompose(c);
        assert((data as int % 256) as u8 == spec_f_byte(c));
        assert((data as int / 256) as u8 == c.a);
    } else {
        assert(back == c);
    }
}

/// Law: after an increment and then a decrement of the same named
/// register, the half-carry flag reflects the decrement alone — it is
/// set exactly when the incremented value had a zero low nibble — and
/// carries no residue from the increment's own half-carry.
pub proof fn lemma_inc_then_dec_half_carry(
    reg: ByteR,
    c: Cpu,
    m: GbMapper,
    ime: bool,
    c1: Cpu,
    m1: GbMapper,
    i1: bool,
    c2: Cpu,
    m2: GbMapper,
    i2: bool,
)
    requires
        reg == ByteR::A || reg == ByteR::B || reg == ByteR::C || reg == ByteR::D || reg == ByteR::E
            || reg == ByteR::H || reg == ByteR::L,
        spec_execute_rel(Op::INC8(reg), c, m, ime, c1, m1, i1, 0),
        spec_execute_rel(Op::DEC8(reg), c1, m1, i1, c2, m2, i2, 0),
    ensures
        spec_read_8_val(c1, m1, reg) as int == (spec_read_8_val(c, m, reg) + 1) % 256,
        c2.f_h == ((spec_read_8_val(c, m, reg) + 1) % 256 % 16 == 0),
{
    reveal(spec_execute_rel);
}

} // verus!
