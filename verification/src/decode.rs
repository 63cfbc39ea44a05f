//! Instruction decoder: operand descriptors, the instruction type, and
//! the opcode tables. Decoding is a pure function of the one to three
//! instruction bytes; it never touches machine state. An opcode that the
//! primary table leaves undefined decodes to nothing — the caller
//! surfaces it as a fatal decode error.

use vstd::prelude::*;

verus! {

/// A byte-sized operand: a named register, an immediate embedded in the
/// instruction, or the memory cell addressed by a word operand.
#[derive(Clone, Copy, PartialEq, Eq, Debug)]
pub enum ByteR {
    A,
    B,
    C,
    D,
    E,
    H,
    L,
    F,
    Mem(WordR),
    IMM(u8),
}

/// A word-sized operand: a register pair, the stack pointer or program
/// counter, a 16-bit immediate, the stack pointer plus a signed offset,
/// a high-page address, or the HL pair with a post-read increment or
/// decrement side effect.
#[derive(Clone, Copy, PartialEq, Eq, Debug)]
pub enum WordR {
    AF,
    BC,
    DE,
    HL,
    SP,
    SPP(u8),
    PC,
    HLI,
    HLD,
    IMM(u16),
    HighC,
    High(u8),
}

/// One of the four condition flags: zero, subtract, half-carry, carry.
#[derive(Clone, Copy, PartialEq, Eq, Debug)]
pub enum Flag {
    Z,
    N,
    H,
    C,
}

/// An optional branch predicate: `None` is unconditional; otherwise the
/// named flag must be in the given state for the branch to be taken.
#[derive(Clone, Copy, PartialEq, Eq, Debug)]
pub struct OptFlag(pub Option<(Flag, bool)>);

/// The raw encoded bytes of one instruction.
#[derive(Clone, Copy, PartialEq, Eq, Debug)]
pub enum OpCode {
    One(u8),
    Two(u8, u8),
    Three(u8, u8, u8),
}

/// A decoded instruction, parameterized by operand descriptors.
#[derive(Clone, Copy, PartialEq, Eq, Debug)]
pub enum Op {
    NOP,
    STOP,
    HALT,
    DAA,
    CPL,
    SCF,
    CCF,
    RST(u8),
    RET(OptFlag),
    RETI,
    CALL(OptFlag, WordR),
    PUSH(WordR),
    POP(WordR),
    LD8(ByteR, ByteR),
    LD16(WordR, WordR),
    LDMem(WordR, WordR),
    INC8(ByteR),
    INC16(WordR),
    DEC8(ByteR),
    DEC16(WordR),
    ADD8(ByteR, ByteR),
    ADD16(WordR, WordR),
    ADC8(ByteR, ByteR),
    SUB(ByteR),
    SBC(ByteR, ByteR),
    AND(ByteR),
    OR(ByteR),
    XOR(ByteR),
    CP(ByteR),
    JR(OptFlag, i8),
    JP(OptFlag, WordR),
    SPADD(i8),
    RL(ByteR),
    RLC(ByteR),
    RR(ByteR),
    RRC(ByteR),
    SLA(ByteR),
    SRA(ByteR),
    SWAP(ByteR),
    SRL(ByteR),
    BIT(u8, ByteR),
    RES(u8, ByteR),
    SET(u8, ByteR),
    RLA,
    RLCA,
    RRA,
    RRCA,
    DI,
    EI,
}

/// A 16-bit immediate assembled from its high and low bytes.
pub open spec fn spec_word(high: u8, low: u8) -> u16 {
    (high as int * 256 + low as int) as u16
}

/// Assemble a 16-bit immediate from its high and low bytes.
pub fn word(high: u8, low: u8) -> (r: u16)
    ensures
        r == spec_word(high, low),
{
    (high as u16) * 256 + (low as u16)
}

/// Decoded form of primary opcodes 0x00 through 0x3F (loads, arithmetic and relative jumps).
#[verifier::opaque]
pub open spec fn spec_decode_q0(op: u8, op2: u8, op3: u8) -> Option<(OpCode, Op, u16, usize)> {
    match op {
        0x00 => Some((OpCode::One(op), Op::NOP, 1, 4)),
        0x01 => Some((OpCode::Three(op, op2, op3), Op::LD16(WordR::BC, WordR::IMM(spec_word(op3, op2))), 3, 12)),
        0x02 => Some((OpCode::One(op), Op::LD8(ByteR::Mem(WordR::BC), ByteR::A), 1, 8)),
        0x03 => Some((OpCode::One(op), Op::INC16(WordR::BC), 1, 8)),
        0x04 => Some((OpCode::One(op), Op::INC8(ByteR::B), 1, 4)),
        0x05 => Some((OpCode::One(op), Op::DEC8(ByteR::B), 1, 4)),
        0x06 => Some((OpCode::Two(op, op2), Op::LD8(ByteR::B, ByteR::IMM(op2)), 2, 8)),
        0x07 => Some((OpCode::One(op), Op::RLCA, 1, 4)),
        0x08 => Some((OpCode::Three(op, op2, op3), Op::LDMem(WordR::IMM(spec_word(op3, op2)), WordR::SP), 3, 20)),
        0x09 => Some((OpCode::One(op), Op::ADD16(WordR::HL, WordR::BC), 1, 8)),
        0x0A => Some((OpCode::One(op), Op::LD8(ByteR::A, ByteR::Mem(WordR::BC)), 1, 8)),
        0x0B => Some((OpCode::One(op), Op::DEC16(WordR::BC), 1, 8)),
        0x0C => Some((OpCode::One(op), Op::INC8(ByteR::C), 1, 4)),
        0x0D => Some((OpCode::One(op), Op::DEC8(ByteR::C), 1, 4)),
        0x0E => Some((OpCode::Two(op, op2), Op::LD8(ByteR::C, ByteR::IMM(op2)), 2, 8)),
        0x0F => Some((OpCode::One(op), Op::RRCA, 1, 4)),
        0x10 => Some((OpCode::One(op), Op::STOP, 1, 4)),
        0x11 => Some((OpCode::Three(op, op2, op3), Op::LD16(WordR::DE, WordR::IMM(spec_word(op3, op2))), 3, 12)),
        0x12 => Some((OpCode::One(op), Op::LD8(ByteR::Mem(WordR::DE), ByteR::A), 1, 8)),
        0x13 => Some((OpCode::One(op), Op::INC16(WordR::DE), 1, 8)),
        0x14 => Some((OpCode::One(op), Op::INC8(ByteR::D), 1, 4)),
        0x15 => Some((OpCode::One(op), Op::DEC8(ByteR::D), 1, 4)),
        0x16 => Some((OpCode::Two(op, op2), Op::LD8(ByteR::D, ByteR::IMM(op2)), 2, 8)),
        0x17 => Some((OpCode::One(op), Op::RLA, 1, 4)),
        0x18 => Some((OpCode::Two(op, op2), Op::JR(OptFlag(None), op2 as i8), 2, 8)),
        0x19 => Some((OpCode::One(op), Op::ADD16(WordR::HL, WordR::DE), 1, 8)),
        0x1A => Some((OpCode::One(op), Op::LD8(ByteR::A, ByteR::Mem(WordR::DE)), 1, 8)),
        0x1B => Some((OpCode::One(op), Op::DEC16(WordR::DE), 1, 8)),
        0x1C => Some((OpCode::One(op), Op::INC8(ByteR::E), 1, 4)),
        0x1D => Some((OpCode::One(op), Op::DEC8(ByteR::E), 1, 4)),
        0x1E => Some((OpCode::Two(op, op2), Op::LD8(ByteR::E, ByteR::IMM(op2)), 2, 8)),
        0x1F => Some((OpCode::One(op), Op::RRA, 1, 4)),
        0x20 => Some((OpCode::Two(op, op2), Op::JR(OptFlag(Some((Flag::Z, false))), op2 as i8), 2, 8)),
        0x21 => Some((OpCode::Three(op, op2, op3), Op::LD16(WordR::HL, WordR::IMM(spec_word(op3, op2))), 3, 12)),
        0x22 => Some((OpCode::One(op), Op::LD8(ByteR::Mem(WordR::HLI), ByteR::A), 1, 8)),
        0x23 => Some((OpCode::One(op), Op::INC16(WordR::HL), 1, 8)),
        0x24 => Some((OpCode::One(op), Op::INC8(ByteR::H), 1, 4)),
        0x25 => Some((OpCode::One(op), Op::DEC8(ByteR::H), 1, 4)),
        0x26 => Some((OpCode::Two(op, op2), Op::LD8(ByteR::H, ByteR::IMM(op2)), 2, 8)),
        0x27 => Some((OpCode::One(op), Op::DAA, 1, 4)),
        0x28 => Some((OpCode::Two(op, op2), Op::JR(OptFlag(Some((Flag::Z, true))), op2 as i8), 2, 12)),
        0x29 => Some((OpCode::One(op), Op::ADD16(WordR::HL, WordR::HL), 1, 8)),
        0x2A => Some((OpCode::One(op), Op::LD8(ByteR::A, ByteR::Mem(WordR::HLI)), 1, 8)),
        0x2B => Some((OpCode::One(op), Op::DEC16(WordR::HL), 1, 8)),
        0x2C => Some((OpCode::One(op), Op::INC8(ByteR::L), 1, 4)),
        0x2D => Some((OpCode::One(op), Op::DEC8(ByteR::L), 1, 4)),
        0x2E => Some((OpCode::Two(op, op2), Op::LD8(ByteR::L, ByteR::IMM(op2)), 2, 8)),
        0x2F => Some((OpCode::One(op), Op::CPL, 1, 4)),
        0x30 => Some((OpCode::Two(op, op2), Op::JR(OptFlag(Some((Flag::C, false))), op2 as i8), 2, 8)),
        0x31 => Some((OpCode::Three(op, op2, op3), Op::LD16(WordR::SP, WordR::IMM(spec_word(op3, op2))), 3, 12)),
        0x32 => Some((OpCode::One(op), Op::LD8(ByteR::Mem(WordR::HLD), ByteR::A), 1, 8)),
        0x33 => Some((OpCode::One(op), Op::INC16(WordR::SP), 1, 8)),
        0x34 => Some((OpCode::One(op), Op::INC8(ByteR::Mem(WordR::HL)), 1, 4)),
        0x35 => Some((OpCode::One(op), Op::DEC8(ByteR::Mem(WordR::HL)), 1, 4)),
        0x36 => Some((OpCode::Two(op, op2), Op::LD8(ByteR::Mem(WordR::HL), ByteR::IMM(op2)), 2, 8)),
        0x37 => Some((OpCode::One(op), Op::SCF, 1, 4)),
        0x38 => Some((OpCode::Two(op, op2), Op::JR(OptFlag(Some((Flag::C, true))), op2 as i8), 2, 12)),
        0x39 => Some((OpCode::One(op), Op::ADD16(WordR::HL, WordR::SP), 1, 8)),
        0x3A => Some((OpCode::One(op), Op::LD8(ByteR::A, ByteR::Mem(WordR::HLD)), 1, 8)),
        0x3B => Some((OpCode::One(op), Op::DEC16(WordR::SP), 1, 8)),
        0x3C => Some((OpCode::One(op), Op::INC8(ByteR::A), 1, 4)),
        0x3D => Some((OpCode::One(op), Op::DEC8(ByteR::A), 1, 4)),
        0x3E => Some((OpCode::Two(op, op2), Op::LD8(ByteR::A, ByteR::IMM(op2)), 2, 8)),
        0x3F => Some((OpCode::One(op), Op::CCF, 1, 4)),
        _ => None,
    }
}

/// Decoded form of primary opcodes 0x40 through 0x7F (register-to-register loads).
#[verifier::opaque]
pub open spec fn spec_decode_q1(op: u8, op2: u8, op3: u8) -> Option<(OpCode, Op, u16, usize)> {
    match op {
        0x40 => Some((OpCode::One(op), Op::LD8(ByteR::B, ByteR::B), 1, 4)),
        0x41 => Some((OpCode::One(op), Op::LD8(ByteR::B, ByteR::C), 1, 4)),
        0x42 => Some((OpCode::One(op), Op::LD8(ByteR::B, ByteR::D), 1, 4)),
        0x43 => Some((OpCode::One(op), Op::LD8(ByteR::B, ByteR::E), 1, 4)),
        0x44 => Some((OpCode::One(op), Op::LD8(ByteR::B, ByteR::H), 1, 4)),
        0x45 => Some((OpCode::One(op), Op::LD8(ByteR::B, ByteR::L), 1, 4)),
        0x46 => Some((OpCode::One(op), Op::LD8(ByteR::B, ByteR::Mem(WordR::HL)), 1, 8)),
        0x47 => Some((OpCode::One(op), Op::LD8(ByteR::B, ByteR::A), 1, 4)),
        0x48 => Some((OpCode::One(op), Op::LD8(ByteR::C, ByteR::B), 1, 4)),
        0x49 => Some((OpCode::One(op), Op::LD8(ByteR::C, ByteR::C), 1, 4)),
        0x4A => Some((OpCode::One(op), Op::LD8(ByteR::C, ByteR::D), 1, 4)),
        0x4B => Some((OpCode::One(op), Op::LD8(ByteR::C, ByteR::E), 1, 4)),
        0x4C => Some((OpCode::One(op), Op::LD8(ByteR::C, ByteR::H), 1, 4)),
        0x4D => Some((OpCode::One(op), Op::LD8(ByteR::C, ByteR::L), 1, 4)),
        0x4E => Some((OpCode::One(op), Op::LD8(ByteR::C, ByteR::Mem(WordR::HL)), 1, 8)),
        0x4F => Some((OpCode::One(op), Op::LD8(ByteR::C, ByteR::A), 1, 4)),
        0x50 => Some((OpCode::One(op), Op::LD8(ByteR::D, ByteR::B), 1, 4)),
        0x51 => Some((OpCode::One(op), Op::LD8(ByteR::D, ByteR::C), 1, 4)),
        0x52 => Some((OpCode::One(op), Op::LD8(ByteR::D, ByteR::D), 1, 4)),
        0x53 => Some((OpCode::One(op), Op::LD8(ByteR::D, ByteR::E), 1, 4)),
        0x54 => Some((OpCode::One(op), Op::LD8(ByteR::D, ByteR::H), 1, 4)),
        0x55 => Some((OpCode::One(op), Op::LD8(ByteR::D, ByteR::L), 1, 4)),
        0x56 => Some((OpCode::One(op), Op::LD8(ByteR::D, ByteR::Mem(WordR::HL)), 1, 8)),
        0x57 => Some((OpCode::One(op), Op::LD8(ByteR::D, ByteR::A), 1, 4)),
        0x58 => Some((OpCode::One(op), Op::LD8(ByteR::E, ByteR::B), 1, 4)),
        0x59 => Some((OpCode::One(op), Op::LD8(ByteR::E, ByteR::C), 1, 4)),
        0x5A => Some((OpCode::One(op), Op::LD8(ByteR::E, ByteR::D), 1, 4)),
        0x5B => Some((OpCode::One(op), Op::LD8(ByteR::E, ByteR::E), 1, 4)),
        0x5C => Some((OpCode::One(op), Op::LD8(ByteR::E, ByteR::H), 1, 4)),
        0x5D => Some((OpCode::One(op), Op::LD8(ByteR::E, ByteR::L), 1, 4)),
        0x5E => Some((OpCode::One(op), Op::LD8(ByteR::E, ByteR::Mem(WordR::HL)), 1, 8)),
        0x5F => Some((OpCode::One(op), Op::LD8(ByteR::E, ByteR::A), 1, 4)),
        0x60 => Some((OpCode::One(op), Op::LD8(ByteR::H, ByteR::B), 1, 4)),
        0x61 => Some((OpCode::One(op), Op::LD8(ByteR::H, ByteR::C), 1, 4)),
        0x62 => Some((OpCode::One(op), Op::LD8(ByteR::H, ByteR::D), 1, 4)),
        0x63 => Some((OpCode::One(op), Op::LD8(ByteR::H, ByteR::E), 1, 4)),
        0x64 => Some((OpCode::One(op), Op::LD8(ByteR::H, ByteR::H), 1, 4)),
        0x65 => Some((OpCode::One(op), Op::LD8(ByteR::H, ByteR::L), 1, 4)),
        0x66 => Some((OpCode::One(op), Op::LD8(ByteR::H, ByteR::Mem(WordR::HL)), 1, 8)),
        0x67 => Some((OpCode::One(op), Op::LD8(ByteR::H, ByteR::A), 1, 4)),
        0x68 => Some((OpCode::One(op), Op::LD8(ByteR::L, ByteR::B), 1, 4)),
        0x69 => Some((OpCode::One(op), Op::LD8(ByteR::L, ByteR::C), 1, 4)),
        0x6A => Some((OpCode::One(op), Op::LD8(ByteR::L, ByteR::D), 1, 4)),
        0x6B => Some((OpCode::One(op), Op::LD8(ByteR::L, ByteR::E), 1, 4)),
        0x6C => Some((OpCode::One(op), Op::LD8(ByteR::L, ByteR::H), 1, 4)),
        0x6D => Some((OpCode::One(op), Op::LD8(ByteR::L, ByteR::L), 1, 4)),
        0x6E => Some((OpCode::One(op), Op::LD8(ByteR::L, ByteR::Mem(WordR::HL)), 1, 8)),
        0x6F => Some((OpCode::One(op), Op::LD8(ByteR::L, ByteR::A), 1, 4)),
        0x70 => Some((OpCode::One(op), Op::LD8(ByteR::Mem(WordR::HL), ByteR::B), 1, 4)),
        0x71 => Some((OpCode::One(op), Op::LD8(ByteR::Mem(WordR::HL), ByteR::C), 1, 4)),
        0x72 => Some((OpCode::One(op), Op::LD8(ByteR::Mem(WordR::HL), ByteR::D), 1, 4)),
        0x73 => Some((OpCode::One(op), Op::LD8(ByteR::Mem(WordR::HL), ByteR::E), 1, 4)),
        0x74 => Some((OpCode::One(op), Op::LD8(ByteR::Mem(WordR::HL), ByteR::H), 1, 4)),
        0x75 => Some((OpCode::One(op), Op::LD8(ByteR::Mem(WordR::HL), ByteR::L), 1, 4)),
        0x76 => Some((OpCode::One(op), Op::HALT, 1, 4)),
        0x77 => Some((OpCode::One(op), Op::LD8(ByteR::Mem(WordR::HL), ByteR::A), 1, 4)),
        0x78 => Some((OpCode::One(op), Op::LD8(ByteR::A, ByteR::B), 1, 4)),
        0x79 => Some((OpCode::One(op), Op::LD8(ByteR::A, ByteR::C), 1, 4)),
        0x7A => Some((OpCode::One(op), Op::LD8(ByteR::A, ByteR::D), 1, 4)),
        0x7B => Some((OpCode::One(op), Op::LD8(ByteR::A, ByteR::E), 1, 4)),
        0x7C => Some((OpCode::One(op), Op::LD8(ByteR::A, ByteR::H), 1, 4)),
        0x7D => Some((OpCode::One(op), Op::LD8(ByteR::A, ByteR::L), 1, 4)),
        0x7E => Some((OpCode::One(op), Op::LD8(ByteR::A, ByteR::Mem(WordR::HL)), 1, 8)),
        0x7F => Some((OpCode::One(op), Op::LD8(ByteR::A, ByteR::A), 1, 4)),
        _ => None,
    }
}

/// Decoded form of primary opcodes 0x80 through 0xBF (accumulator arithmetic and logic).
#[verifier::opaque]
pub open spec fn spec_decode_q2(op: u8, op2: u8, op3: u8) -> Option<(OpCode, Op, u16, usize)> {
    match op {
        0x80 => Some((OpCode::One(op), Op::ADD8(ByteR::A, ByteR::B), 1, 4)),
        0x81 => Some((OpCode::One(op), Op::ADD8(ByteR::A, ByteR::C), 1, 4)),
        0x82 => Some((OpCode::One(op), Op::ADD8(ByteR::A, ByteR::D), 1, 4)),
        0x83 => Some((OpCode::One(op), Op::ADD8(ByteR::A, ByteR::E), 1, 4)),
        0x84 => Some((OpCode::One(op), Op::ADD8(ByteR::A, ByteR::H), 1, 4)),
        0x85 => Some((OpCode::One(op), Op::ADD8(ByteR::A, ByteR::L), 1, 4)),
        0x86 => Some((OpCode::One(op), Op::ADD8(ByteR::A, ByteR::Mem(WordR::HL)), 1, 4)),
        0x87 => Some((OpCode::One(op), Op::ADD8(ByteR::A, ByteR::A), 1, 4)),
        0x88 => Some((OpCode::One(op), Op::ADC8(ByteR::A, ByteR::B), 1, 4)),
        0x89 => Some((OpCode::One(op), Op::ADC8(ByteR::A, ByteR::C), 1, 4)),
        0x8A => Some((OpCode::One(op), Op::ADC8(ByteR::A, ByteR::D), 1, 4)),
        0x8B => Some((OpCode::One(op), Op::ADC8(ByteR::A, ByteR::E), 1, 4)),
        0x8C => Some((OpCode::One(op), Op::ADC8(ByteR::A, ByteR::H), 1, 4)),
        0x8D => Some((OpCode::One(op), Op::ADC8(ByteR::A, ByteR::L), 1, 4)),
        0x8E => Some((OpCode::One(op), Op::ADC8(ByteR::A, ByteR::Mem(WordR::HL)), 1, 8)),
        0x8F => Some((OpCode::One(op), Op::ADC8(ByteR::A, ByteR::A), 1, 4)),
        0x90 => Some((OpCode::One(op), Op::SUB(ByteR::B), 1, 4)),
        0x91 => Some((OpCode::One(op), Op::SUB(ByteR::C), 1, 4)),
        0x92 => Some((OpCode::One(op), Op::SUB(ByteR::D), 1, 4)),
        0x93 => Some((OpCode::One(op), Op::SUB(ByteR::E), 1, 4)),
        0x94 => Some((OpCode::One(op), Op::SUB(ByteR::H), 1, 4)),
        0x95 => Some((OpCode::One(op), Op::SUB(ByteR::L), 1, 4)),
        0x96 => Some((OpCode::One(op), Op::SUB(ByteR::Mem(WordR::HL)), 1, 4)),
        0x97 => Some((OpCode::One(op), Op::SUB(ByteR::A), 1, 4)),
        0x98 => Some((OpCode::One(op), Op::SBC(ByteR::A, ByteR::B), 1, 4)),
        0x99 => Some((OpCode::One(op), Op::SBC(ByteR::A, ByteR::C), 1, 4)),
        0x9A => Some((OpCode::One(op), Op::SBC(ByteR::A, ByteR::D), 1, 4)),
        0x9B => Some((OpCode::One(op), Op::SBC(ByteR::A, ByteR::E), 1, 4)),
        0x9C => Some((OpCode::One(op), Op::SBC(ByteR::A, ByteR::H), 1, 4)),
        0x9D => Some((OpCode::One(op), Op::SBC(ByteR::A, ByteR::L), 1, 4)),
        0x9E => Some((OpCode::One(op), Op::SBC(ByteR::A, ByteR::Mem(WordR::HL)), 1, 8)),
        0x9F => Some((OpCode::One(op), Op::SBC(ByteR::A, ByteR::A), 1, 4)),
        0xA0 => Some((OpCode::One(op), Op::AND(ByteR::B), 1, 4)),
        0xA1 => Some((OpCode::One(op), Op::AND(ByteR::C), 1, 4)),
        0xA2 => Some((OpCode::One(op), Op::AND(ByteR::D), 1, 4)),
        0xA3 => Some((OpCode::One(op), Op::AND(ByteR::E), 1, 4)),
        0xA4 => Some((OpCode::One(op), Op::AND(ByteR::H), 1, 4)),
        0xA5 => Some((OpCode::One(op), Op::AND(ByteR::L), 1, 4)),
        0xA6 => Some((OpCode::One(op), Op::AND(ByteR::Mem(WordR::HL)), 1, 8)),
        0xA7 => Some((OpCode::One(op), Op::AND(ByteR::A), 1, 4)),
        0xA8 => Some((OpCode::One(op), Op::XOR(ByteR::B), 1, 4)),
        0xA9 => Some((OpCode::One(op), Op::XOR(ByteR::C), 1, 4)),
        0xAA => Some((OpCode::One(op), Op::XOR(ByteR::D), 1, 4)),
        0xAB => Some((OpCode::One(op), Op::XOR(ByteR::E), 1, 4)),
        0xAC => Some((OpCode::One(op), Op::XOR(ByteR::H), 1, 4)),
        0xAD => Some((OpCode::One(op), Op::XOR(ByteR::L), 1, 4)),
        0xAE => Some((OpCode::One(op), Op::XOR(ByteR::Mem(WordR::HL)), 1, 8)),
        0xAF => Some((OpCode::One(op), Op::XOR(ByteR::A), 1, 4)),
        0xB0 => Some((OpCode::One(op), Op::OR(ByteR::B), 1, 4)),
        0xB1 => Some((OpCode::One(op), Op::OR(ByteR::C), 1, 4)),
        0xB2 => Some((OpCode::One(op), Op::OR(ByteR::D), 1, 4)),
        0xB3 => Some((OpCode::One(op), Op::OR(ByteR::E), 1, 4)),
        0xB4 => Some((OpCode::One(op), Op::OR(ByteR::H), 1, 4)),
        0xB5 => Some((OpCode::One(op), Op::OR(ByteR::L), 1, 4)),
        0xB6 => Some((OpCode::One(op), Op::OR(ByteR::Mem(WordR::HL)), 1, 8)),
        0xB7 => Some((OpCode::One(op), Op::OR(ByteR::A), 1, 4)),
        0xB8 => Some((OpCode::One(op), Op::CP(ByteR::B), 1, 4)),
        0xB9 => Some((OpCode::One(op), Op::CP(ByteR::C), 1, 4)),
        0xBA => Some((OpCode::One(op), Op::CP(ByteR::D), 1, 4)),
        0xBB => Some((OpCode::One(op), Op::CP(ByteR::E), 1, 4)),
        0xBC => Some((OpCode::One(op), Op::CP(ByteR::H), 1, 4)),
        0xBD => Some((OpCode::One(op), Op::CP(ByteR::L), 1, 4)),
        0xBE => Some((OpCode::One(op), Op::CP(ByteR::Mem(WordR::HL)), 1, 8)),
        0xBF => Some((OpCode::One(op), Op::CP(ByteR::A), 1, 4)),
        _ => None,
    }
}

/// Decoded form of primary opcodes 0xC0 through 0xFF (control transfer, stack and high-page access).
#[verifier::opaque]
pub open spec fn spec_decode_q3(op: u8, op2: u8, op3: u8) -> Option<(OpCode, Op, u16, usize)> {
    match op {
        0xC0 => Some((OpCode::One(op), Op::RET(OptFlag(Some((Flag::Z, false)))), 1, 8)),
        0xC1 => Some((OpCode::One(op), Op::POP(WordR::BC), 1, 12)),
        0xC2 => Some((OpCode::Three(op, op2, op3), Op::JP(OptFlag(Some((Flag::Z, false))), WordR::IMM(spec_word(op3, op2))), 3, 12)),
        0xC3 => Some((OpCode::Three(op, op2, op3), Op::JP(OptFlag(None), WordR::IMM(spec_word(op3, op2))), 3, 12)),
        0xC4 => Some((OpCode::Three(op, op2, op3), Op::CALL(OptFlag(Some((Flag::Z, false))), WordR::IMM(spec_word(op3, op2))), 3, 12)),
        0xC5 => Some((OpCode::One(op), Op::PUSH(WordR::BC), 1, 16)),
        0xC6 => Some((OpCode::Two(op, op2), Op::ADD8(ByteR::A, ByteR::IMM(op2)), 2, 8)),
        0xC7 => Some((OpCode::One(op), Op::RST(0x0), 1, 16)),
        0xC8 => Some((OpCode::One(op), Op::RET(OptFlag(Some((Flag::Z, true)))), 1, 8)),
        0xC9 => Some((OpCode::One(op), Op::RET(OptFlag(None)), 1, 8)),
        0xCA => Some((OpCode::Three(op, op2, op3), Op::JP(OptFlag(Some((Flag::Z, true))), WordR::IMM(spec_word(op3, op2))), 3, 12)),
        0xCB => Some(spec_cb(op2)),
        0xCC => Some((OpCode::Three(op, op2, op3), Op::CALL(OptFlag(Some((Flag::Z, true))), WordR::IMM(spec_word(op3, op2))), 3, 12)),
        0xCD => Some((OpCode::Three(op, op2, op3), Op::CALL(OptFlag(None), WordR::IMM(spec_word(op3, op2))), 3, 12)),
        0xCE => Some((OpCode::Two(op, op2), Op::ADC8(ByteR::A, ByteR::IMM(op2)), 2, 8)),
        0xCF => Some((OpCode::One(op), Op::RST(0x8), 1, 16)),
        0xD0 => Some((OpCode::One(op), Op::RET(OptFlag(Some((Flag::C, false)))), 1, 8)),
        0xD1 => Some((OpCode::One(op), Op::POP(WordR::DE), 1, 12)),
        0xD2 => Some((OpCode::Three(op, op2, op3), Op::JP(OptFlag(Some((Flag::C, false))), WordR::IMM(spec_word(op3, op2))), 3, 12)),
        0xD4 => Some((OpCode::Three(op, op2, op3), Op::CALL(OptFlag(Some((Flag::C, false))), WordR::IMM(spec_word(op3, op2))), 3, 12)),
        0xD5 => Some((OpCode::One(op), Op::PUSH(WordR::DE), 1, 16)),
        0xD6 => Some((OpCode::Two(op, op2), Op::SUB(ByteR::IMM(op2)), 2, 8)),
        0xD7 => Some((OpCode::One(op), Op::RST(0x10), 1, 16)),
        0xD8 => Some((OpCode::One(op), Op::RET(OptFlag(Some((Flag::C, true)))), 1, 8)),
        0xD9 => Some((OpCode::One(op), Op::RETI, 1, 8)),
        0xDA => Some((OpCode::Three(op, op2, op3), Op::JP(OptFlag(Some((Flag::C, true))), WordR::IMM(spec_word(op3, op2))), 3, 12)),
        0xDC => Some((OpCode::Three(op, op2, op3), Op::CALL(OptFlag(Some((Flag::C, true))), WordR::IMM(spec_word(op3, op2))), 3, 12)),
        0xDE => Some((OpCode::Two(op, op2), Op::SBC(ByteR::A, ByteR::IMM(op2)), 2, 8)),
        0xDF => Some((OpCode::One(op), Op::RST(0x18), 1, 16)),
        0xE0 => Some((OpCode::Two(op, op2), Op::LD8(ByteR::Mem(WordR::High(op2)), ByteR::A), 2, 12)),
        0xE1 => Some((OpCode::One(op), Op::POP(WordR::HL), 1, 12)),
        0xE2 => Some((OpCode::Two(op, op2), Op::LD8(ByteR::Mem(WordR::HighC), ByteR::A), 2, 8)),
        0xE5 => Some((OpCode::One(op), Op::PUSH(WordR::HL), 1, 16)),
        0xE6 => Some((OpCode::Two(op, op2), Op::AND(ByteR::IMM(op2)), 2, 8)),
        0xE7 => Some((OpCode::One(op), Op::RST(0x20), 1, 16)),
        0xE8 => Some((OpCode::Two(op, op2), Op::SPADD(op2 as i8), 2, 16)),
        0xE9 => Some((OpCode::One(op), Op::JP(OptFlag(None), WordR::HL), 1, 4)),
        0xEA => Some((OpCode::Three(op, op2, op3), Op::LD8(ByteR::Mem(WordR::IMM(spec_word(op3, op2))), ByteR::A), 3, 16)),
        0xEE => Some((OpCode::Two(op, op2), Op::XOR(ByteR::IMM(op2)), 2, 8)),
        0xEF => Some((OpCode::One(op), Op::RST(0x28), 1, 16)),
        0xF0 => Some((OpCode::Two(op, op2), Op::LD8(ByteR::A, ByteR::Mem(WordR::High(op2))), 2, 12)),
        0xF1 => Some((OpCode::One(op), Op::POP(WordR::AF), 1, 12)),
        0xF2 => Some((OpCode::Two(op, op2), Op::LD8(ByteR::A, ByteR::Mem(WordR::HighC)), 2, 8)),
        0xF3 => Some((OpCode::One(op), Op::DI, 1, 4)),
        0xF5 => Some((OpCode::One(op), Op::PUSH(WordR::AF), 1, 16)),
        0xF6 => Some((OpCode::Two(op, op2), Op::OR(ByteR::IMM(op2)), 2, 8)),
        0xF7 => Some((OpCode::One(op), Op::RST(0x30), 1, 16)),
        0xF8 => Some((OpCode::Two(op, op2), Op::LD16(WordR::HL, WordR::SPP(op2)), 2, 12)),
        0xF9 => Some((OpCode::One(op), Op::LD16(WordR::SP, WordR::HL), 1, 8)),
        0xFA => Some((OpCode::Three(op, op2, op3), Op::LD8(ByteR::A, ByteR::Mem(WordR::IMM(spec_word(op3, op2)))), 3, 16)),
        0xFB => Some((OpCode::One(op), Op::EI, 1, 4)),
        0xFE => Some((OpCode::Two(op, op2), Op::CP(ByteR::IMM(op2)), 2, 8)),
        0xFF => Some((OpCode::One(op), Op::RST(0x38), 1, 16)),
        _ => None,
    }
}

/// Decode a primary opcode in 0x00..=0x3F (loads, arithmetic and relative jumps) from the
/// instruction bytes.
fn decode_q0(op: u8, op2: u8, op3: u8) -> (r: Option<(OpCode, Op, u16, usize)>)
    requires
        0x00 <= op <= 0x3F,
    ensures
        r == spec_decode_q0(op, op2, op3),
{
    proof {
        reveal(spec_decode_q0);
    }
    match op {
        0x00 => Some((OpCode::One(op), Op::NOP, 1, 4)),
        0x01 => Some((OpCode::Three(op, op2, op3), Op::LD16(WordR::BC, WordR::IMM(word(op3, op2))), 3, 12)),
        0x02 => Some((OpCode::One(op), Op::LD8(ByteR::Mem(WordR::BC), ByteR::A), 1, 8)),
        0x03 => Some((OpCode::One(op), Op::INC16(WordR::BC), 1, 8)),
        0x04 => Some((OpCode::One(op), Op::INC8(ByteR::B), 1, 4)),
        0x05 => Some((OpCode::One(op), Op::DEC8(ByteR::B), 1, 4)),
        0x06 => Some((OpCode::Two(op, op2), Op::LD8(ByteR::B, ByteR::IMM(op2)), 2, 8)),
        0x07 => Some((OpCode::One(op), Op::RLCA, 1, 4)),
        0x08 => Some((OpCode::Three(op, op2, op3), Op::LDMem(WordR::IMM(word(op3, op2)), WordR::SP), 3, 20)),
        0x09 => Some((OpCode::One(op), Op::ADD16(WordR::HL, WordR::BC), 1, 8)),
        0x0A => Some((OpCode::One(op), Op::LD8(ByteR::A, ByteR::Mem(WordR::BC)), 1, 8)),
        0x0B => Some((OpCode::One(op), Op::DEC16(WordR::BC), 1, 8)),
        0x0C => Some((OpCode::One(op), Op::INC8(ByteR::C), 1, 4)),
        0x0D => Some((OpCode::One(op), Op::DEC8(ByteR::C), 1, 4)),
        0x0E => Some((OpCode::Two(op, op2), Op::LD8(ByteR::C, ByteR::IMM(op2)), 2, 8)),
        0x0F => Some((OpCode::One(op), Op::RRCA, 1, 4)),
        0x10 => Some((OpCode::One(op), Op::STOP, 1, 4)),
        0x11 => Some((OpCode::Three(op, op2, op3), Op::LD16(WordR::DE, WordR::IMM(word(op3, op2))), 3, 12)),
        0x12 => Some((OpCode::One(op), Op::LD8(ByteR::Mem(WordR::DE), ByteR::A), 1, 8)),
        0x13 => Some((OpCode::One(op), Op::INC16(WordR::DE), 1, 8)),
        0x14 => Some((OpCode::One(op), Op::INC8(ByteR::D), 1, 4)),
        0x15 => Some((OpCode::One(op), Op::DEC8(ByteR::D), 1, 4)),
        0x16 => Some((OpCode::Two(op, op2), Op::LD8(ByteR::D, ByteR::IMM(op2)), 2, 8)),
        0x17 => Some((OpCode::One(op), Op::RLA, 1, 4)),
        0x18 => Some((OpCode::Two(op, op2), Op::JR(OptFlag(None), op2 as i8), 2, 8)),
        0x19 => Some((OpCode::One(op), Op::ADD16(WordR::HL, WordR::DE), 1, 8)),
        0x1A => Some((OpCode::One(op), Op::LD8(ByteR::A, ByteR::Mem(WordR::DE)), 1, 8)),
        0x1B => Some((OpCode::One(op), Op::DEC16(WordR::DE), 1, 8)),
        0x1C => Some((OpCode::One(op), Op::INC8(ByteR::E), 1, 4)),
        0x1D => Some((OpCode::One(op), Op::DEC8(ByteR::E), 1, 4)),
        0x1E => Some((OpCode::Two(op, op2), Op::LD8(ByteR::E, ByteR::IMM(op2)), 2, 8)),
        0x1F => Some((OpCode::One(op), Op::RRA, 1, 4)),
        0x20 => Some((OpCode::Two(op, op2), Op::JR(OptFlag(Some((Flag::Z, false))), op2 as i8), 2, 8)),
        0x21 => Some((OpCode::Three(op, op2, op3), Op::LD16(WordR::HL, WordR::IMM(word(op3, op2))), 3, 12)),
        0x22 => Some((OpCode::One(op), Op::LD8(ByteR::Mem(WordR::HLI), ByteR::A), 1, 8)),
        0x23 => Some((OpCode::One(op), Op::INC16(WordR::HL), 1, 8)),
        0x24 => Some((OpCode::One(op), Op::INC8(ByteR::H), 1, 4)),
        0x25 => Some((OpCode::One(op), Op::DEC8(ByteR::H), 1, 4)),
        0x26 => Some((OpCode::Two(op, op2), Op::LD8(ByteR::H, ByteR::IMM(op2)), 2, 8)),
        0x27 => Some((OpCode::One(op), Op::DAA, 1, 4)),
        0x28 => Some((OpCode::Two(op, op2), Op::JR(OptFlag(Some((Flag::Z, true))), op2 as i8), 2, 12)),
        0x29 => Some((OpCode::One(op), Op::ADD16(WordR::HL, WordR::HL), 1, 8)),
        0x2A => Some((OpCode::One(op), Op::LD8(ByteR::A, ByteR::Mem(WordR::HLI)), 1, 8)),
        0x2B => Some((OpCode::One(op), Op::DEC16(WordR::HL), 1, 8)),
        0x2C => Some((OpCode::One(op), Op::INC8(ByteR::L), 1, 4)),
        0x2D => Some((OpCode::One(op), Op::DEC8(ByteR::L), 1, 4)),
        0x2E => Some((OpCode::Two(op, op2), Op::LD8(ByteR::L, ByteR::IMM(op2)), 2, 8)),
        0x2F => Some((OpCode::One(op), Op::CPL, 1, 4)),
        0x30 => Some((OpCode::Two(op, op2), Op::JR(OptFlag(Some((Flag::C, false))), op2 as i8), 2, 8)),
        0x31 => Some((OpCode::Three(op, op2, op3), Op::LD16(WordR::SP, WordR::IMM(word(op3, op2))), 3, 12)),
        0x32 => Some((OpCode::One(op), Op::LD8(ByteR::Mem(WordR::HLD), ByteR::A), 1, 8)),
        0x33 => Some((OpCode::One(op), Op::INC16(WordR::SP), 1, 8)),
        0x34 => Some((OpCode::One(op), Op::INC8(ByteR::Mem(WordR::HL)), 1, 4)),
        0x35 => Some((OpCode::One(op), Op::DEC8(ByteR::Mem(WordR::HL)), 1, 4)),
        0x36 => Some((OpCode::Two(op, op2), Op::LD8(ByteR::Mem(WordR::HL), ByteR::IMM(op2)), 2, 8)),
        0x37 => Some((OpCode::One(op), Op::SCF, 1, 4)),
        0x38 => Some((OpCode::Two(op, op2), Op::JR(OptFlag(Some((Flag::C, true))), op2 as i8), 2, 12)),
        0x39 => Some((OpCode::One(op), Op::ADD16(WordR::HL, WordR::SP), 1, 8)),
        0x3A => Some((OpCode::One(op), Op::LD8(ByteR::A, ByteR::Mem(WordR::HLD)), 1, 8)),
        0x3B => Some((OpCode::One(op), Op::DEC16(WordR::SP), 1, 8)),
        0x3C => Some((OpCode::One(op), Op::INC8(ByteR::A), 1, 4)),
        0x3D => Some((OpCode::One(op), Op::DEC8(ByteR::A), 1, 4)),
        0x3E => Some((OpCode::Two(op, op2), Op::LD8(ByteR::A, ByteR::IMM(op2)), 2, 8)),
        0x3F => Some((OpCode::One(op), Op::CCF, 1, 4)),
        _ => None,
    }
}

/// Decode a primary opcode in 0x40..=0x7F (register-to-register loads) from the
/// instruction bytes.
fn decode_q1(op: u8, op2: u8, op3: u8) -> (r: Option<(OpCode, Op, u16, usize)>)
    requires
        0x40 <= op <= 0x7F,
    ensures
        r == spec_decode_q1(op, op2, op3),
{
    proof {
        reveal(spec_decode_q1);
    }
    match op {
        0x40 => Some((OpCode::One(op), Op::LD8(ByteR::B, ByteR::B), 1, 4)),
        0x41 => Some((OpCode::One(op), Op::LD8(ByteR::B, ByteR::C), 1, 4)),
        0x42 => Some((OpCode::One(op), Op::LD8(ByteR::B, ByteR::D), 1, 4)),
        0x43 => Some((OpCode::One(op), Op::LD8(ByteR::B, ByteR::E), 1, 4)),
        0x44 => Some((OpCode::One(op), Op::LD8(ByteR::B, ByteR::H), 1, 4)),
        0x45 => Some((OpCode::One(op), Op::LD8(ByteR::B, ByteR::L), 1, 4)),
        0x46 => Some((OpCode::One(op), Op::LD8(ByteR::B, ByteR::Mem(WordR::HL)), 1, 8)),
        0x47 => Some((OpCode::One(op), Op::LD8(ByteR::B, ByteR::A), 1, 4)),
        0x48 => Some((OpCode::One(op), Op::LD8(ByteR::C, ByteR::B), 1, 4)),
        0x49 => Some((OpCode::One(op), Op::LD8(ByteR::C, ByteR::C), 1, 4)),
        0x4A => Some((OpCode::One(op), Op::LD8(ByteR::C, ByteR::D), 1, 4)),
        0x4B => Some((OpCode::One(op), Op::LD8(ByteR::C, ByteR::E), 1, 4)),
        0x4C => Some((OpCode::One(op), Op::LD8(ByteR::C, ByteR::H), 1, 4)),
        0x4D => Some((OpCode::One(op), Op::LD8(ByteR::C, ByteR::L), 1, 4)),
        0x4E => Some((OpCode::One(op), Op::LD8(ByteR::C, ByteR::Mem(WordR::HL)), 1, 8)),
        0x4F => Some((OpCode::One(op), Op::LD8(ByteR::C, ByteR::A), 1, 4)),
        0x50 => Some((OpCode::One(op), Op::LD8(ByteR::D, ByteR::B), 1, 4)),
        0x51 => Some((OpCode::One(op), Op::LD8(ByteR::D, ByteR::C), 1, 4)),
        0x52 => Some((OpCode::One(op), Op::LD8(ByteR::D, ByteR::D), 1, 4)),
        0x53 => Some((OpCode::One(op), Op::LD8(ByteR::D, ByteR::E), 1, 4)),
        0x54 => Some((OpCode::One(op), Op::LD8(ByteR::D, ByteR::H), 1, 4)),
        0x55 => Some((OpCode::One(op), Op::LD8(ByteR::D, ByteR::L), 1, 4)),
        0x56 => Some((OpCode::One(op), Op::LD8(ByteR::D, ByteR::Mem(WordR::HL)), 1, 8)),
        0x57 => Some((OpCode::One(op), Op::LD8(ByteR::D, ByteR::A), 1, 4)),
        0x58 => Some((OpCode::One(op), Op::LD8(ByteR::E, ByteR::B), 1, 4)),
        0x59 => Some((OpCode::One(op), Op::LD8(ByteR::E, ByteR::C), 1, 4)),
        0x5A => Some((OpCode::One(op), Op::LD8(ByteR::E, ByteR::D), 1, 4)),
        0x5B => Some((OpCode::One(op), Op::LD8(ByteR::E, ByteR::E), 1, 4)),
        0x5C => Some((OpCode::One(op), Op::LD8(ByteR::E, ByteR::H), 1, 4)),
        0x5D => Some((OpCode::One(op), Op::LD8(ByteR::E, ByteR::L), 1, 4)),
        0x5E => Some((OpCode::One(op), Op::LD8(ByteR::E, ByteR::Mem(WordR::HL)), 1, 8)),
        0x5F => Some((OpCode::One(op), Op::LD8(ByteR::E, ByteR::A), 1, 4)),
        0x60 => Some((OpCode::One(op), Op::LD8(ByteR::H, ByteR::B), 1, 4)),
        0x61 => Some((OpCode::One(op), Op::LD8(ByteR::H, ByteR::C), 1, 4)),
        0x62 => Some((OpCode::One(op), Op::LD8(ByteR::H, ByteR::D), 1, 4)),
        0x63 => Some((OpCode::One(op), Op::LD8(ByteR::H, ByteR::E), 1, 4)),
        0x64 => Some((OpCode::One(op), Op::LD8(ByteR::H, ByteR::H), 1, 4)),
        0x65 => Some((OpCode::One(op), Op::LD8(ByteR::H, ByteR::L), 1, 4)),
        0x66 => Some((OpCode::One(op), Op::LD8(ByteR::H, ByteR::Mem(WordR::HL)), 1, 8)),
        0x67 => Some((OpCode::One(op), Op::LD8(ByteR::H, ByteR::A), 1, 4)),
        0x68 => Some((OpCode::One(op), Op::LD8(ByteR::L, ByteR::B), 1, 4)),
        0x69 => Some((OpCode::One(op), Op::LD8(ByteR::L, ByteR::C), 1, 4)),
        0x6A => Some((OpCode::One(op), Op::LD8(ByteR::L, ByteR::D), 1, 4)),
        0x6B => Some((OpCode::One(op), Op::LD8(ByteR::L, ByteR::E), 1, 4)),
        0x6C => Some((OpCode::One(op), Op::LD8(ByteR::L, ByteR::H), 1, 4)),
        0x6D => Some((OpCode::One(op), Op::LD8(ByteR::L, ByteR::L), 1, 4)),
        0x6E => Some((OpCode::One(op), Op::LD8(ByteR::L, ByteR::Mem(WordR::HL)), 1, 8)),
        0x6F => Some((OpCode::One(op), Op::LD8(ByteR::L, ByteR::A), 1, 4)),
        0x70 => Some((OpCode::One(op), Op::LD8(ByteR::Mem(WordR::HL), ByteR::B), 1, 4)),
        0x71 => Some((OpCode::One(op), Op::LD8(ByteR::Mem(WordR::HL), ByteR::C), 1, 4)),
        0x72 => Some((OpCode::One(op), Op::LD8(ByteR::Mem(WordR::HL), ByteR::D), 1, 4)),
        0x73 => Some((OpCode::One(op), Op::LD8(ByteR::Mem(WordR::HL), ByteR::E), 1, 4)),
        0x74 => Some((OpCode::One(op), Op::LD8(ByteR::Mem(WordR::HL), ByteR::H), 1, 4)),
        0x75 => Some((OpCode::One(op), Op::LD8(ByteR::Mem(WordR::HL), ByteR::L), 1, 4)),
        0x76 => Some((OpCode::One(op), Op::HALT, 1, 4)),
        0x77 => Some((OpCode::One(op), Op::LD8(ByteR::Mem(WordR::HL), ByteR::A), 1, 4)),
        0x78 => Some((OpCode::One(op), Op::LD8(ByteR::A, ByteR::B), 1, 4)),
        0x79 => Some((OpCode::One(op), Op::LD8(ByteR::A, ByteR::C), 1, 4)),
        0x7A => Some((OpCode::One(op), Op::LD8(ByteR::A, ByteR::D), 1, 4)),
        0x7B => Some((OpCode::One(op), Op::LD8(ByteR::A, ByteR::E), 1, 4)),
        0x7C => Some((OpCode::One(op), Op::LD8(ByteR::A, ByteR::H), 1, 4)),
        0x7D => Some((OpCode::One(op), Op::LD8(ByteR::A, ByteR::L), 1, 4)),
        0x7E => Some((OpCode::One(op), Op::LD8(ByteR::A, ByteR::Mem(WordR::HL)), 1, 8)),
        0x7F => Some((OpCode::One(op), Op::LD8(ByteR::A, ByteR::A), 1, 4)),
        _ => None,
    }
}

/// Decode a primary opcode in 0x80..=0xBF (accumulator arithmetic and logic) from the
/// instruction bytes.
fn decode_q2(op: u8, op2: u8, op3: u8) -> (r: Option<(OpCode, Op, u16, usize)>)
    requires
        0x80 <= op <= 0xBF,
    ensures
        r == spec_decode_q2(op, op2, op3),
{
    proof {
        reveal(spec_decode_q2);
    }
    match op {
        0x80 => Some((OpCode::One(op), Op::ADD8(ByteR::A, ByteR::B), 1, 4)),
        0x81 => Some((OpCode::One(op), Op::ADD8(ByteR::A, ByteR::C), 1, 4)),
        0x82 => Some((OpCode::One(op), Op::ADD8(ByteR::A, ByteR::D), 1, 4)),
        0x83 => Some((OpCode::One(op), Op::ADD8(ByteR::A, ByteR::E), 1, 4)),
        0x84 => Some((OpCode::One(op), Op::ADD8(ByteR::A, ByteR::H), 1, 4)),
        0x85 => Some((OpCode::One(op), Op::ADD8(ByteR::A, ByteR::L), 1, 4)),
        0x86 => Some((OpCode::One(op), Op::ADD8(ByteR::A, ByteR::Mem(WordR::HL)), 1, 4)),
        0x87 => Some((OpCode::One(op), Op::ADD8(ByteR::A, ByteR::A), 1, 4)),
        0x88 => Some((OpCode::One(op), Op::ADC8(ByteR::A, ByteR::B), 1, 4)),
        0x89 => Some((OpCode::One(op), Op::ADC8(ByteR::A, ByteR::C), 1, 4)),
        0x8A => Some((OpCode::One(op), Op::ADC8(ByteR::A, ByteR::D), 1, 4)),
        0x8B => Some((OpCode::One(op), Op::ADC8(ByteR::A, ByteR::E), 1, 4)),
        0x8C => Some((OpCode::One(op), Op::ADC8(ByteR::A, ByteR::H), 1, 4)),
        0x8D => Some((OpCode::One(op), Op::ADC8(ByteR::A, ByteR::L), 1, 4)),
        0x8E => Some((OpCode::One(op), Op::ADC8(ByteR::A, ByteR::Mem(WordR::HL)), 1, 8)),
        0x8F => Some((OpCode::One(op), Op::ADC8(ByteR::A, ByteR::A), 1, 4)),
        0x90 => Some((OpCode::One(op), Op::SUB(ByteR::B), 1, 4)),
        0x91 => Some((OpCode::One(op), Op::SUB(ByteR::C), 1, 4)),
        0x92 => Some((OpCode::One(op), Op::SUB(ByteR::D), 1, 4)),
        0x93 => Some((OpCode::One(op), Op::SUB(ByteR::E), 1, 4)),
        0x94 => Some((OpCode::One(op), Op::SUB(ByteR::H), 1, 4)),
        0x95 => Some((OpCode::One(op), Op::SUB(ByteR::L), 1, 4)),
        0x96 => Some((OpCode::One(op), Op::SUB(ByteR::Mem(WordR::HL)), 1, 4)),
        0x97 => Some((OpCode::One(op), Op::SUB(ByteR::A), 1, 4)),
        0x98 => Some((OpCode::One(op), Op::SBC(ByteR::A, ByteR::B), 1, 4)),
        0x99 => Some((OpCode::One(op), Op::SBC(ByteR::A, ByteR::C), 1, 4)),
        0x9A => Some((OpCode::One(op), Op::SBC(ByteR::A, ByteR::D), 1, 4)),
        0x9B => Some((OpCode::One(op), Op::SBC(ByteR::A, ByteR::E), 1, 4)),
        0x9C => Some((OpCode::One(op), Op::SBC(ByteR::A, ByteR::H), 1, 4)),
        0x9D => Some((OpCode::One(op), Op::SBC(ByteR::A, ByteR::L), 1, 4)),
        0x9E => Some((OpCode::One(op), Op::SBC(ByteR::A, ByteR::Mem(WordR::HL)), 1, 8)),
        0x9F => Some((OpCode::One(op), Op::SBC(ByteR::A, ByteR::A), 1, 4)),
        0xA0 => Some((OpCode::One(op), Op::AND(ByteR::B), 1, 4)),
        0xA1 => Some((OpCode::One(op), Op::AND(ByteR::C), 1, 4)),
        0xA2 => Some((OpCode::One(op), Op::AND(ByteR::D), 1, 4)),
        0xA3 => Some((OpCode::One(op), Op::AND(ByteR::E), 1, 4)),
        0xA4 => Some((OpCode::One(op), Op::AND(ByteR::H), 1, 4)),
        0xA5 => Some((OpCode::One(op), Op::AND(ByteR::L), 1, 4)),
        0xA6 => Some((OpCode::One(op), Op::AND(ByteR::Mem(WordR::HL)), 1, 8)),
        0xA7 => Some((OpCode::One(op), Op::AND(ByteR::A), 1, 4)),
        0xA8 => Some((OpCode::One(op), Op::XOR(ByteR::B), 1, 4)),
        0xA9 => Some((OpCode::One(op), Op::XOR(ByteR::C), 1, 4)),
        0xAA => Some((OpCode::One(op), Op::XOR(ByteR::D), 1, 4)),
        0xAB => Some((OpCode::One(op), Op::XOR(ByteR::E), 1, 4)),
        0xAC => Some((OpCode::One(op), Op::XOR(ByteR::H), 1, 4)),
        0xAD => Some((OpCode::One(op), Op::XOR(ByteR::L), 1, 4)),
        0xAE => Some((OpCode::One(op), Op::XOR(ByteR::Mem(WordR::HL)), 1, 8)),
        0xAF => Some((OpCode::One(op), Op::XOR(ByteR::A), 1, 4)),
        0xB0 => Some((OpCode::One(op), Op::OR(ByteR::B), 1, 4)),
        0xB1 => Some((OpCode::One(op), Op::OR(ByteR::C), 1, 4)),
        0xB2 => Some((OpCode::One(op), Op::OR(ByteR::D), 1, 4)),
        0xB3 => Some((OpCode::One(op), Op::OR(ByteR::E), 1, 4)),
        0xB4 => Some((OpCode::One(op), Op::OR(ByteR::H), 1, 4)),
        0xB5 => Some((OpCode::One(op), Op::OR(ByteR::L), 1, 4)),
        0xB6 => Some((OpCode::One(op), Op::OR(ByteR::Mem(WordR::HL)), 1, 8)),
        0xB7 => Some((OpCode::One(op), Op::OR(ByteR::A), 1, 4)),
        0xB8 => Some((OpCode::One(op), Op::CP(ByteR::B), 1, 4)),
        0xB9 => Some((OpCode::One(op), Op::CP(ByteR::C), 1, 4)),
        0xBA => Some((OpCode::One(op), Op::CP(ByteR::D), 1, 4)),
        0xBB => Some((OpCode::One(op), Op::CP(ByteR::E), 1, 4)),
        0xBC => Some((OpCode::One(op), Op::CP(ByteR::H), 1, 4)),
        0xBD => Some((OpCode::One(op), Op::CP(ByteR::L), 1, 4)),
        0xBE => Some((OpCode::One(op), Op::CP(ByteR::Mem(WordR::HL)), 1, 8)),
        0xBF => Some((OpCode::One(op), Op::CP(ByteR::A), 1, 4)),
        _ => None,
    }
}

/// Decode a primary opcode in 0xC0..=0xFF (control transfer, stack and high-page access) from the
/// instruction bytes.
fn decode_q3(op: u8, op2: u8, op3: u8) -> (r: Option<(OpCode, Op, u16, usize)>)
    requires
        0xC0 <= op <= 0xFF,
    ensures
        r == spec_decode_q3(op, op2, op3),
{
    proof {
        reveal(spec_decode_q3);
    }
    match op {
        0xC0 => Some((OpCode::One(op), Op::RET(OptFlag(Some((Flag::Z, false)))), 1, 8)),
        0xC1 => Some((OpCode::One(op), Op::POP(WordR::BC), 1, 12)),
        0xC2 => Some((OpCode::Three(op, op2, op3), Op::JP(OptFlag(Some((Flag::Z, false))), WordR::IMM(word(op3, op2))), 3, 12)),
        0xC3 => Some((OpCode::Three(op, op2, op3), Op::JP(OptFlag(None), WordR::IMM(word(op3, op2))), 3, 12)),
        0xC4 => Some((OpCode::Three(op, op2, op3), Op::CALL(OptFlag(Some((Flag::Z, false))), WordR::IMM(word(op3, op2))), 3, 12)),
        0xC5 => Some((OpCode::One(op), Op::PUSH(WordR::BC), 1, 16)),
        0xC6 => Some((OpCode::Two(op, op2), Op::ADD8(ByteR::A, ByteR::IMM(op2)), 2, 8)),
        0xC7 => Some((OpCode::One(op), Op::RST(0x0), 1, 16)),
        0xC8 => Some((OpCode::One(op), Op::RET(OptFlag(Some((Flag::Z, true)))), 1, 8)),
        0xC9 => Some((OpCode::One(op), Op::RET(OptFlag(None)), 1, 8)),
        0xCA => Some((OpCode::Three(op, op2, op3), Op::JP(OptFlag(Some((Flag::Z, true))), WordR::IMM(word(op3, op2))), 3, 12)),
        0xCB => Some(cbTable(op2)),
        0xCC => Some((OpCode::Three(op, op2, op3), Op::CALL(OptFlag(Some((Flag::Z, true))), WordR::IMM(word(op3, op2))), 3, 12)),
        0xCD => Some((OpCode::Three(op, op2, op3), Op::CALL(OptFlag(None), WordR::IMM(word(op3, op2))), 3, 12)),
        0xCE => Some((OpCode::Two(op, op2), Op::ADC8(ByteR::A, ByteR::IMM(op2)), 2, 8)),
        0xCF => Some((OpCode::One(op), Op::RST(0x8), 1, 16)),
        0xD0 => Some((OpCode::One(op), Op::RET(OptFlag(Some((Flag::C, false)))), 1, 8)),
        0xD1 => Some((OpCode::One(op), Op::POP(WordR::DE), 1, 12)),
        0xD2 => Some((OpCode::Three(op, op2, op3), Op::JP(OptFlag(Some((Flag::C, false))), WordR::IMM(word(op3, op2))), 3, 12)),
        0xD4 => Some((OpCode::Three(op, op2, op3), Op::CALL(OptFlag(Some((Flag::C, false))), WordR::IMM(word(op3, op2))), 3, 12)),
        0xD5 => Some((OpCode::One(op), Op::PUSH(WordR::DE), 1, 16)),
        0xD6 => Some((OpCode::Two(op, op2), Op::SUB(ByteR::IMM(op2)), 2, 8)),
        0xD7 => Some((OpCode::One(op), Op::RST(0x10), 1, 16)),
        0xD8 => Some((OpCode::One(op), Op::RET(OptFlag(Some((Flag::C, true)))), 1, 8)),
        0xD9 => Some((OpCode::One(op), Op::RETI, 1, 8)),
        0xDA => Some((OpCode::Three(op, op2, op3), Op::JP(OptFlag(Some((Flag::C, true))), WordR::IMM(word(op3, op2))), 3, 12)),
        0xDC => Some((OpCode::Three(op, op2, op3), Op::CALL(OptFlag(Some((Flag::C, true))), WordR::IMM(word(op3, op2))), 3, 12)),
        0xDE => Some((OpCode::Two(op, op2), Op::SBC(ByteR::A, ByteR::IMM(op2)), 2, 8)),
        0xDF => Some((OpCode::One(op), Op::RST(0x18), 1, 16)),
        0xE0 => Some((OpCode::Two(op, op2), Op::LD8(ByteR::Mem(WordR::High(op2)), ByteR::A), 2, 12)),
        0xE1 => Some((OpCode::One(op), Op::POP(WordR::HL), 1, 12)),
        0xE2 => Some((OpCode::Two(op, op2), Op::LD8(ByteR::Mem(WordR::HighC), ByteR::A), 2, 8)),
        0xE5 => Some((OpCode::One(op), Op::PUSH(WordR::HL), 1, 16)),
        0xE6 => Some((OpCode::Two(op, op2), Op::AND(ByteR::IMM(op2)), 2, 8)),
        0xE7 => Some((OpCode::One(op), Op::RST(0x20), 1, 16)),
        0xE8 => Some((OpCode::Two(op, op2), Op::SPADD(op2 as i8), 2, 16)),
        0xE9 => Some((OpCode::One(op), Op::JP(OptFlag(None), WordR::HL), 1, 4)),
        0xEA => Some((OpCode::Three(op, op2, op3), Op::LD8(ByteR::Mem(WordR::IMM(word(op3, op2))), ByteR::A), 3, 16)),
        0xEE => Some((OpCode::Two(op, op2), Op::XOR(ByteR::IMM(op2)), 2, 8)),
        0xEF => Some((OpCode::One(op), Op::RST(0x28), 1, 16)),
        0xF0 => Some((OpCode::Two(op, op2), Op::LD8(ByteR::A, ByteR::Mem(WordR::High(op2))), 2, 12)),
        0xF1 => Some((OpCode::One(op), Op::POP(WordR::AF), 1, 12)),
        0xF2 => Some((OpCode::Two(op, op2), Op::LD8(ByteR::A, ByteR::Mem(WordR::HighC)), 2, 8)),
        0xF3 => Some((OpCode::One(op), Op::DI, 1, 4)),
        0xF5 => Some((OpCode::One(op), Op::PUSH(WordR::AF), 1, 16)),
        0xF6 => Some((OpCode::Two(op, op2), Op::OR(ByteR::IMM(op2)), 2, 8)),
        0xF7 => Some((OpCode::One(op), Op::RST(0x30), 1, 16)),
        0xF8 => Some((OpCode::Two(op, op2), Op::LD16(WordR::HL, WordR::SPP(op2)), 2, 12)),
        0xF9 => Some((OpCode::One(op), Op::LD16(WordR::SP, WordR::HL), 1, 8)),
        0xFA => Some((OpCode::Three(op, op2, op3), Op::LD8(ByteR::A, ByteR::Mem(WordR::IMM(word(op3, op2)))), 3, 16)),
        0xFB => Some((OpCode::One(op), Op::EI, 1, 4)),
        0xFE => Some((OpCode::Two(op, op2), Op::CP(ByteR::IMM(op2)), 2, 8)),
        0xFF => Some((OpCode::One(op), Op::RST(0x38), 1, 16)),
        _ => None,
    }
}

/// Decoded form of extended (0xCB-prefixed) opcodes 0x00 through
/// 0x3F (rotates, shifts and swap).
#[verifier::opaque]
pub open spec fn spec_cb_q0(op: u8) -> (OpCode, Op, u16, usize) {
    match op {
        0x00 => (OpCode::Two(0xCB, op), Op::RLC(ByteR::B), 2, 8),
        0x01 => (OpCode::Two(0xCB, op), Op::RLC(ByteR::C), 2, 8),
        0x02 => (OpCode::Two(0xCB, op), Op::RLC(ByteR::D), 2, 8),
        0x03 => (OpCode::Two(0xCB, op), Op::RLC(ByteR::E), 2, 8),
        0x04 => (OpCode::Two(0xCB, op), Op::RLC(ByteR::H), 2, 8),
        0x05 => (OpCode::Two(0xCB, op), Op::RLC(ByteR::L), 2, 8),
        0x06 => (OpCode::Two(0xCB, op), Op::RLC(ByteR::Mem(WordR::HL)), 2, 16),
        0x07 => (OpCode::Two(0xCB, op), Op::RLC(ByteR::A), 2, 8),
        0x08 => (OpCode::Two(0xCB, op), Op::RRC(ByteR::B), 2, 8),
        0x09 => (OpCode::Two(0xCB, op), Op::RRC(ByteR::C), 2, 8),
        0x0A => (OpCode::Two(0xCB, op), Op::RRC(ByteR::D), 2, 8),
        0x0B => (OpCode::Two(0xCB, op), Op::RRC(ByteR::E), 2, 8),
        0x0C => (OpCode::Two(0xCB, op), Op::RRC(ByteR::H), 2, 8),
        0x0D => (OpCode::Two(0xCB, op), Op::RRC(ByteR::L), 2, 8),
        0x0E => (OpCode::Two(0xCB, op), Op::RRC(ByteR::Mem(WordR::HL)), 2, 16),
        0x0F => (OpCode::Two(0xCB, op), Op::RRC(ByteR::A), 2, 8),
        0x10 => (OpCode::Two(0xCB, op), Op::RL(ByteR::B), 2, 8),
        0x11 => (OpCode::Two(0xCB, op), Op::RL(ByteR::C), 2, 8),
        0x12 => (OpCode::Two(0xCB, op), Op::RL(ByteR::D), 2, 8),
        0x13 => (OpCode::Two(0xCB, op), Op::RL(ByteR::E), 2, 8),
        0x14 => (OpCode::Two(0xCB, op), Op::RL(ByteR::H), 2, 8),
        0x15 => (OpCode::Two(0xCB, op), Op::RL(ByteR::L), 2, 8),
        0x16 => (OpCode::Two(0xCB, op), Op::RL(ByteR::Mem(WordR::HL)), 2, 16),
        0x17 => (OpCode::Two(0xCB, op), Op::RL(ByteR::A), 2, 8),
        0x18 => (OpCode::Two(0xCB, op), Op::RR(ByteR::B), 2, 8),
        0x19 => (OpCode::Two(0xCB, op), Op::RR(ByteR::C), 2, 8),
        0x1A => (OpCode::Two(0xCB, op), Op::RR(ByteR::D), 2, 8),
        0x1B => (OpCode::Two(0xCB, op), Op::RR(ByteR::E), 2, 8),
        0x1C => (OpCode::Two(0xCB, op), Op::RR(ByteR::H), 2, 8),
        0x1D => (OpCode::Two(0xCB, op), Op::RR(ByteR::L), 2, 8),
        0x1E => (OpCode::Two(0xCB, op), Op::RR(ByteR::Mem(WordR::HL)), 2, 16),
        0x1F => (OpCode::Two(0xCB, op), Op::RR(ByteR::A), 2, 8),
        0x20 => (OpCode::Two(0xCB, op), Op::SLA(ByteR::B), 2, 8),
        0x21 => (OpCode::Two(0xCB, op), Op::SLA(ByteR::C), 2, 8),
        0x22 => (OpCode::Two(0xCB, op), Op::SLA(ByteR::D), 2, 8),
        0x23 => (OpCode::Two(0xCB, op), Op::SLA(ByteR::E), 2, 8),
        0x24 => (OpCode::Two(0xCB, op), Op::SLA(ByteR::H), 2, 8),
        0x25 => (OpCode::Two(0xCB, op), Op::SLA(ByteR::L), 2, 8),
        0x26 => (OpCode::Two(0xCB, op), Op::SLA(ByteR::Mem(WordR::HL)), 2, 16),
        0x27 => (OpCode::Two(0xCB, op), Op::SLA(ByteR::A), 2, 8),
        0x28 => (OpCode::Two(0xCB, op), Op::SRA(ByteR::B), 2, 8),
        0x29 => (OpCode::Two(0xCB, op), Op::SRA(ByteR::C), 2, 8),
        0x2A => (OpCode::Two(0xCB, op), Op::SRA(ByteR::D), 2, 8),
        0x2B => (OpCode::Two(0xCB, op), Op::SRA(ByteR::E), 2, 8),
        0x2C => (OpCode::Two(0xCB, op), Op::SRA(ByteR::H), 2, 8),
        0x2D => (OpCode::Two(0xCB, op), Op::SRA(ByteR::L), 2, 8),
        0x2E => (OpCode::Two(0xCB, op), Op::SRA(ByteR::Mem(WordR::HL)), 2, 16),
        0x2F => (OpCode::Two(0xCB, op), Op::SRA(ByteR::A), 2, 8),
        0x30 => (OpCode::Two(0xCB, op), Op::SWAP(ByteR::B), 2, 8),
        0x31 => (OpCode::Two(0xCB, op), Op::SWAP(ByteR::C), 2, 8),
        0x32 => (OpCode::Two(0xCB, op), Op::SWAP(ByteR::D), 2, 8),
        0x33 => (OpCode::Two(0xCB, op), Op::SWAP(ByteR::E), 2, 8),
        0x34 => (OpCode::Two(0xCB, op), Op::SWAP(ByteR::H), 2, 8),
        0x35 => (OpCode::Two(0xCB, op), Op::SWAP(ByteR::L), 2, 8),
        0x36 => (OpCode::Two(0xCB, op), Op::SWAP(ByteR::Mem(WordR::HL)), 2, 16),
        0x37 => (OpCode::Two(0xCB, op), Op::SWAP(ByteR::A), 2, 8),
        0x38 => (OpCode::Two(0xCB, op), Op::SRL(ByteR::B), 2, 8),
        0x39 => (OpCode::Two(0xCB, op), Op::SRL(ByteR::C), 2, 8),
        0x3A => (OpCode::Two(0xCB, op), Op::SRL(ByteR::D), 2, 8),
        0x3B => (OpCode::Two(0xCB, op), Op::SRL(ByteR::E), 2, 8),
        0x3C => (OpCode::Two(0xCB, op), Op::SRL(ByteR::H), 2, 8),
        0x3D => (OpCode::Two(0xCB, op), Op::SRL(ByteR::L), 2, 8),
        0x3E => (OpCode::Two(0xCB, op), Op::SRL(ByteR::Mem(WordR::HL)), 2, 16),
        _ => (OpCode::Two(0xCB, op), Op::SRL(ByteR::A), 2, 8),
    }
}

/// Decoded form of extended (0xCB-prefixed) opcodes 0x40 through
/// 0x7F (bit tests).
#[verifier::opaque]
pub open spec fn spec_cb_q1(op: u8) -> (OpCode, Op, u16, usize) {
    match op {
        0x40 => (OpCode::Two(0xCB, op), Op::BIT(0, ByteR::B), 2, 8),
        0x41 => (OpCode::Two(0xCB, op), Op::BIT(0, ByteR::C), 2, 8),
        0x42 => (OpCode::Two(0xCB, op), Op::BIT(0, ByteR::D), 2, 8),
        0x43 => (OpCode::Two(0xCB, op), Op::BIT(0, ByteR::E), 2, 8),
        0x44 => (OpCode::Two(0xCB, op), Op::BIT(0, ByteR::H), 2, 8),
        0x45 => (OpCode::Two(0xCB, op), Op::BIT(0, ByteR::L), 2, 8),
        0x46 => (OpCode::Two(0xCB, op), Op::BIT(0, ByteR::Mem(WordR::HL)), 2, 16),
        0x47 => (OpCode::Two(0xCB, op), Op::BIT(0, ByteR::A), 2, 8),
        0x48 => (OpCode::Two(0xCB, op), Op::BIT(1, ByteR::B), 2, 8),
        0x49 => (OpCode::Two(0xCB, op), Op::BIT(1, ByteR::C), 2, 8),
        0x4A => (OpCode::Two(0xCB, op), Op::BIT(1, ByteR::D), 2, 8),
        0x4B => (OpCode::Two(0xCB, op), Op::BIT(1, ByteR::E), 2, 8),
        0x4C => (OpCode::Two(0xCB, op), Op::BIT(1, ByteR::H), 2, 8),
        0x4D => (OpCode::Two(0xCB, op), Op::BIT(1, ByteR::L), 2, 8),
        0x4E => (OpCode::Two(0xCB, op), Op::BIT(1, ByteR::Mem(WordR::HL)), 2, 16),
        0x4F => (OpCode::Two(0xCB, op), Op::BIT(1, ByteR::A), 2, 8),
        0x50 => (OpCode::Two(0xCB, op), Op::BIT(2, ByteR::B), 2, 8),
        0x51 => (OpCode::Two(0xCB, op), Op::BIT(2, ByteR::C), 2, 8),
        0x52 => (OpCode::Two(0xCB, op), Op::BIT(2, ByteR::D), 2, 8),
        0x53 => (OpCode::Two(0xCB, op), Op::BIT(2, ByteR::E), 2, 8),
        0x54 => (OpCode::Two(0xCB, op), Op::BIT(2, ByteR::H), 2, 8),
        0x55 => (OpCode::Two(0xCB, op), Op::BIT(2, ByteR::L), 2, 8),
        0x56 => (OpCode::Two(0xCB, op), Op::BIT(2, ByteR::Mem(WordR::HL)), 2, 16),
        0x57 => (OpCode::Two(0xCB, op), Op::BIT(2, ByteR::A), 2, 8),
        0x58 => (OpCode::Two(0xCB, op), Op::BIT(3, ByteR::B), 2, 8),
        0x59 => (OpCode::Two(0xCB, op), Op::BIT(3, ByteR::C), 2, 8),
        0x5A => (OpCode::Two(0xCB, op), Op::BIT(3, ByteR::D), 2, 8),
        0x5B => (OpCode::Two(0xCB, op), Op::BIT(3, ByteR::E), 2, 8),
        0x5C => (OpCode::Two(0xCB, op), Op::BIT(3, ByteR::H), 2, 8),
        0x5D => (OpCode::Two(0xCB, op), Op::BIT(3, ByteR::L), 2, 8),
        0x5E => (OpCode::Two(0xCB, op), Op::BIT(3, ByteR::Mem(WordR::HL)), 2, 16),
        0x5F => (OpCode::Two(0xCB, op), Op::BIT(3, ByteR::A), 2, 8),
        0x60 => (OpCode::Two(0xCB, op), Op::BIT(4, ByteR::B), 2, 8),
        0x61 => (OpCode::Two(0xCB, op), Op::BIT(4, ByteR::C), 2, 8),
        0x62 => (OpCode::Two(0xCB, op), Op::BIT(4, ByteR::D), 2, 8),
        0x63 => (OpCode::Two(0xCB, op), Op::BIT(4, ByteR::E), 2, 8),
        0x64 => (OpCode::Two(0xCB, op), Op::BIT(4, ByteR::H), 2, 8),
        0x65 => (OpCode::Two(0xCB, op), Op::BIT(4, ByteR::L), 2, 8),
        0x66 => (OpCode::Two(0xCB, op), Op::BIT(4, ByteR::Mem(WordR::HL)), 2, 16),
        0x67 => (OpCode::Two(0xCB, op), Op::BIT(4, ByteR::A), 2, 8),
        0x68 => (OpCode::Two(0xCB, op), Op::BIT(5, ByteR::B), 2, 8),
        0x69 => (OpCode::Two(0xCB, op), Op::BIT(5, ByteR::C), 2, 8),
        0x6A => (OpCode::Two(0xCB, op), Op::BIT(5, ByteR::D), 2, 8),
        0x6B => (OpCode::Two(0xCB, op), Op::BIT(5, ByteR::E), 2, 8),
        0x6C => (OpCode::Two(0xCB, op), Op::BIT(5, ByteR::H), 2, 8),
        0x6D => (OpCode::Two(0xCB, op), Op::BIT(5, ByteR::L), 2, 8),
        0x6E => (OpCode::Two(0xCB, op), Op::BIT(5, ByteR::Mem(WordR::HL)), 2, 16),
        0x6F => (OpCode::Two(0xCB, op), Op::BIT(5, ByteR::A), 2, 8),
        0x70 => (OpCode::Two(0xCB, op), Op::BIT(6, ByteR::B), 2, 8),
        0x71 => (OpCode::Two(0xCB, op), Op::BIT(6, ByteR::C), 2, 8),
        0x72 => (OpCode::Two(0xCB, op), Op::BIT(6, ByteR::D), 2, 8),
        0x73 => (OpCode::Two(0xCB, op), Op::BIT(6, ByteR::E), 2, 8),
        0x74 => (OpCode::Two(0xCB, op), Op::BIT(6, ByteR::H), 2, 8),
        0x75 => (OpCode::Two(0xCB, op), Op::BIT(6, ByteR::L), 2, 8),
        0x76 => (OpCode::Two(0xCB, op), Op::BIT(6, ByteR::Mem(WordR::HL)), 2, 16),
        0x77 => (OpCode::Two(0xCB, op), Op::BIT(6, ByteR::A), 2, 8),
        0x78 => (OpCode::Two(0xCB, op), Op::BIT(7, ByteR::B), 2, 8),
        0x79 => (OpCode::Two(0xCB, op), Op::BIT(7, ByteR::C), 2, 8),
        0x7A => (OpCode::Two(0xCB, op), Op::BIT(7, ByteR::D), 2, 8),
        0x7B => (OpCode::Two(0xCB, op), Op::BIT(7, ByteR::E), 2, 8),
        0x7C => (OpCode::Two(0xCB, op), Op::BIT(7, ByteR::H), 2, 8),
        0x7D => (OpCode::Two(0xCB, op), Op::BIT(7, ByteR::L), 2, 8),
        0x7E => (OpCode::Two(0xCB, op), Op::BIT(7, ByteR::Mem(WordR::HL)), 2, 16),
        _ => (OpCode::Two(0xCB, op), Op::BIT(7, ByteR::A), 2, 8),
    }
}

/// Decoded form of extended (0xCB-prefixed) opcodes 0x80 through
/// 0xBF (bit resets).
#[verifier::opaque]
pub open spec fn spec_cb_q2(op: u8) -> (OpCode, Op, u16, usize) {
    match op {
        0x80 => (OpCode::Two(0xCB, op), Op::RES(0, ByteR::B), 2, 8),
        0x81 => (OpCode::Two(0xCB, op), Op::RES(0, ByteR::C), 2, 8),
        0x82 => (OpCode::Two(0xCB, op), Op::RES(0, ByteR::D), 2, 8),
        0x83 => (OpCode::Two(0xCB, op), Op::RES(0, ByteR::E), 2, 8),
        0x84 => (OpCode::Two(0xCB, op), Op::RES(0, ByteR::H), 2, 8),
        0x85 => (OpCode::Two(0xCB, op), Op::RES(0, ByteR::L), 2, 8),
        0x86 => (OpCode::Two(0xCB, op), Op::RES(0, ByteR::Mem(WordR::HL)), 2, 16),
        0x87 => (OpCode::Two(0xCB, op), Op::RES(0, ByteR::A), 2, 8),
        0x88 => (OpCode::Two(0xCB, op), Op::RES(1, ByteR::B), 2, 8),
        0x89 => (OpCode::Two(0xCB, op), Op::RES(1, ByteR::C), 2, 8),
        0x8A => (OpCode::Two(0xCB, op), Op::RES(1, ByteR::D), 2, 8),
        0x8B => (OpCode::Two(0xCB, op), Op::RES(1, ByteR::E), 2, 8),
        0x8C => (OpCode::Two(0xCB, op), Op::RES(1, ByteR::H), 2, 8),
        0x8D => (OpCode::Two(0xCB, op), Op::RES(1, ByteR::L), 2, 8),
        0x8E => (OpCode::Two(0xCB, op), Op::RES(1, ByteR::Mem(WordR::HL)), 2, 16),
        0x8F => (OpCode::Two(0xCB, op), Op::RES(1, ByteR::A), 2, 8),
        0x90 => (OpCode::Two(0xCB, op), Op::RES(2, ByteR::B), 2, 8),
        0x91 => (OpCode::Two(0xCB, op), Op::RES(2, ByteR::C), 2, 8),
        0x92 => (OpCode::Two(0xCB, op), Op::RES(2, ByteR::D), 2, 8),
        0x93 => (OpCode::Two(0xCB, op), Op::RES(2, ByteR::E), 2, 8),
        0x94 => (OpCode::Two(0xCB, op), Op::RES(2, ByteR::H), 2, 8),
        0x95 => (OpCode::Two(0xCB, op), Op::RES(2, ByteR::L), 2, 8),
        0x96 => (OpCode::Two(0xCB, op), Op::RES(2, ByteR::Mem(WordR::HL)), 2, 16),
        0x97 => (OpCode::Two(0xCB, op), Op::RES(2, ByteR::A), 2, 8),
        0x98 => (OpCode::Two(0xCB, op), Op::RES(3, ByteR::B), 2, 8),
        0x99 => (OpCode::Two(0xCB, op), Op::RES(3, ByteR::C), 2, 8),
        0x9A => (OpCode::Two(0xCB, op), Op::RES(3, ByteR::D), 2, 8),
        0x9B => (OpCode::Two(0xCB, op), Op::RES(3, ByteR::E), 2, 8),
        0x9C => (OpCode::Two(0xCB, op), Op::RES(3, ByteR::H), 2, 8),
        0x9D => (OpCode::Two(0xCB, op), Op::RES(3, ByteR::L), 2, 8),
        0x9E => (OpCode::Two(0xCB, op), Op::RES(3, ByteR::Mem(WordR::HL)), 2, 16),
        0x9F => (OpCode::Two(0xCB, op), Op::RES(3, ByteR::A), 2, 8),
        0xA0 => (OpCode::Two(0xCB, op), Op::RES(4, ByteR::B), 2, 8),
        0xA1 => (OpCode::Two(0xCB, op), Op::RES(4, ByteR::C), 2, 8),
        0xA2 => (OpCode::Two(0xCB, op), Op::RES(4, ByteR::D), 2, 8),
        0xA3 => (OpCode::Two(0xCB, op), Op::RES(4, ByteR::E), 2, 8),
        0xA4 => (OpCode::Two(0xCB, op), Op::RES(4, ByteR::H), 2, 8),
        0xA5 => (OpCode::Two(0xCB, op), Op::RES(4, ByteR::L), 2, 8),
        0xA6 => (OpCode::Two(0xCB, op), Op::RES(4, ByteR::Mem(WordR::HL)), 2, 16),
        0xA7 => (OpCode::Two(0xCB, op), Op::RES(4, ByteR::A), 2, 8),
        0xA8 => (OpCode::Two(0xCB, op), Op::RES(5, ByteR::B), 2, 8),
        0xA9 => (OpCode::Two(0xCB, op), Op::RES(5, ByteR::C), 2, 8),
        0xAA => (OpCode::Two(0xCB, op), Op::RES(5, ByteR::D), 2, 8),
        0xAB => (OpCode::Two(0xCB, op), Op::RES(5, ByteR::E), 2, 8),
        0xAC => (OpCode::Two(0xCB, op), Op::RES(5, ByteR::H), 2, 8),
        0xAD => (OpCode::Two(0xCB, op), Op::RES(5, ByteR::L), 2, 8),
        0xAE => (OpCode::Two(0xCB, op), Op::RES(5, ByteR::Mem(WordR::HL)), 2, 16),
        0xAF => (OpCode::Two(0xCB, op), Op::RES(5, ByteR::A), 2, 8),
        0xB0 => (OpCode::Two(0xCB, op), Op::RES(6, ByteR::B), 2, 8),
        0xB1 => (OpCode::Two(0xCB, op), Op::RES(6, ByteR::C), 2, 8),
        0xB2 => (OpCode::Two(0xCB, op), Op::RES(6, ByteR::D), 2, 8),
        0xB3 => (OpCode::Two(0xCB, op), Op::RES(6, ByteR::E), 2, 8),
        0xB4 => (OpCode::Two(0xCB, op), Op::RES(6, ByteR::H), 2, 8),
        0xB5 => (OpCode::Two(0xCB, op), Op::RES(6, ByteR::L), 2, 8),
        0xB6 => (OpCode::Two(0xCB, op), Op::RES(6, ByteR::Mem(WordR::HL)), 2, 16),
        0xB7 => (OpCode::Two(0xCB, op), Op::RES(6, ByteR::A), 2, 8),
        0xB8 => (OpCode::Two(0xCB, op), Op::RES(7, ByteR::B), 2, 8),
        0xB9 => (OpCode::Two(0xCB, op), Op::RES(7, ByteR::C), 2, 8),
        0xBA => (OpCode::Two(0xCB, op), Op::RES(7, ByteR::D), 2, 8),
        0xBB => (OpCode::Two(0xCB, op), Op::RES(7, ByteR::E), 2, 8),
        0xBC => (OpCode::Two(0xCB, op), Op::RES(7, ByteR::H), 2, 8),
        0xBD => (OpCode::Two(0xCB, op), Op::RES(7, ByteR::L), 2, 8),
        0xBE => (OpCode::Two(0xCB, op), Op::RES(7, ByteR::Mem(WordR::HL)), 2, 16),
        _ => (OpCode::Two(0xCB, op), Op::RES(7, ByteR::A), 2, 8),
    }
}

/// Decoded form of extended (0xCB-prefixed) opcodes 0xC0 through
/// 0xFF (bit sets).
#[verifier::opaque]
pub open spec fn spec_cb_q3(op: u8) -> (OpCode, Op, u16, usize) {
    match op {
        0xC0 => (OpCode::Two(0xCB, op), Op::SET(0, ByteR::B), 2, 8),
        0xC1 => (OpCode::Two(0xCB, op), Op::SET(0, ByteR::C), 2, 8),
        0xC2 => (OpCode::Two(0xCB, op), Op::SET(0, ByteR::D), 2, 8),
        0xC3 => (OpCode::Two(0xCB, op), Op::SET(0, ByteR::E), 2, 8),
        0xC4 => (OpCode::Two(0xCB, op), Op::SET(0, ByteR::H), 2, 8),
        0xC5 => (OpCode::Two(0xCB, op), Op::SET(0, ByteR::L), 2, 8),
        0xC6 => (OpCode::Two(0xCB, op), Op::SET(0, ByteR::Mem(WordR::HL)), 2, 16),
        0xC7 => (OpCode::Two(0xCB, op), Op::SET(0, ByteR::A), 2, 8),
        0xC8 => (OpCode::Two(0xCB, op), Op::SET(1, ByteR::B), 2, 8),
        0xC9 => (OpCode::Two(0xCB, op), Op::SET(1, ByteR::C), 2, 8),
        0xCA => (OpCode::Two(0xCB, op), Op::SET(1, ByteR::D), 2, 8),
        0xCB => (OpCode::Two(0xCB, op), Op::SET(1, ByteR::E), 2, 8),
        0xCC => (OpCode::Two(0xCB, op), Op::SET(1, ByteR::H), 2, 8),
        0xCD => (OpCode::Two(0xCB, op), Op::SET(1, ByteR::L), 2, 8),
        0xCE => (OpCode::Two(0xCB, op), Op::SET(1, ByteR::Mem(WordR::HL)), 2, 16),
        0xCF => (OpCode::Two(0xCB, op), Op::SET(1, ByteR::A), 2, 8),
        0xD0 => (OpCode::Two(0xCB, op), Op::SET(2, ByteR::B), 2, 8),
        0xD1 => (OpCode::Two(0xCB, op), Op::SET(2, ByteR::C), 2, 8),
        0xD2 => (OpCode::Two(0xCB, op), Op::SET(2, ByteR::D), 2, 8),
        0xD3 => (OpCode::Two(0xCB, op), Op::SET(2, ByteR::E), 2, 8),
        0xD4 => (OpCode::Two(0xCB, op), Op::SET(2, ByteR::H), 2, 8),
        0xD5 => (OpCode::Two(0xCB, op), Op::SET(2, ByteR::L), 2, 8),
        0xD6 => (OpCode::Two(0xCB, op), Op::SET(2, ByteR::Mem(WordR::HL)), 2, 16),
        0xD7 => (OpCode::Two(0xCB, op), Op::SET(2, ByteR::A), 2, 8),
        0xD8 => (OpCode::Two(0xCB, op), Op::SET(3, ByteR::B), 2, 8),
        0xD9 => (OpCode::Two(0xCB, op), Op::SET(3, ByteR::C), 2, 8),
        0xDA => (OpCode::Two(0xCB, op), Op::SET(3, ByteR::D), 2, 8),
        0xDB => (OpCode::Two(0xCB, op), Op::SET(3, ByteR::E), 2, 8),
        0xDC => (OpCode::Two(0xCB, op), Op::SET(3, ByteR::H), 2, 8),
        0xDD => (OpCode::Two(0xCB, op), Op::SET(3, ByteR::L), 2, 8),
        0xDE => (OpCode::Two(0xCB, op), Op::SET(3, ByteR::Mem(WordR::HL)), 2, 16),
        0xDF => (OpCode::Two(0xCB, op), Op::SET(3, ByteR::A), 2, 8),
        0xE0 => (OpCode::Two(0xCB, op), Op::SET(4, ByteR::B), 2, 8),
        0xE1 => (OpCode::Two(0xCB, op), Op::SET(4, ByteR::C), 2, 8),
        0xE2 => (OpCode::Two(0xCB, op), Op::SET(4, ByteR::D), 2, 8),
        0xE3 => (OpCode::Two(0xCB, op), Op::SET(4, ByteR::E), 2, 8),
        0xE4 => (OpCode::Two(0xCB, op), Op::SET(4, ByteR::H), 2, 8),
        0xE5 => (OpCode::Two(0xCB, op), Op::SET(4, ByteR::L), 2, 8),
        0xE6 => (OpCode::Two(0xCB, op), Op::SET(4, ByteR::Mem(WordR::HL)), 2, 16),
        0xE7 => (OpCode::Two(0xCB, op), Op::SET(4, ByteR::A), 2, 8),
        0xE8 => (OpCode::Two(0xCB, op), Op::SET(5, ByteR::B), 2, 8),
        0xE9 => (OpCode::Two(0xCB, op), Op::SET(5, ByteR::C), 2, 8),
        0xEA => (OpCode::Two(0xCB, op), Op::SET(5, ByteR::D), 2, 8),
        0xEB => (OpCode::Two(0xCB, op), Op::SET(5, ByteR::E), 2, 8),
        0xEC => (OpCode::Two(0xCB, op), Op::SET(5, ByteR::H), 2, 8),
        0xED => (OpCode::Two(0xCB, op), Op::SET(5, ByteR::L), 2, 8),
        0xEE => (OpCode::Two(0xCB, op), Op::SET(5, ByteR::Mem(WordR::HL)), 2, 16),
        0xEF => (OpCode::Two(0xCB, op), Op::SET(5, ByteR::A), 2, 8),
        0xF0 => (OpCode::Two(0xCB, op), Op::SET(6, ByteR::B), 2, 8),
        0xF1 => (OpCode::Two(0xCB, op), Op::SET(6, ByteR::C), 2, 8),
        0xF2 => (OpCode::Two(0xCB, op), Op::SET(6, ByteR::D), 2, 8),
        0xF3 => (OpCode::Two(0xCB, op), Op::SET(6, ByteR::E), 2, 8),
        0xF4 => (OpCode::Two(0xCB, op), Op::SET(6, ByteR::H), 2, 8),
        0xF5 => (OpCode::Two(0xCB, op), Op::SET(6, ByteR::L), 2, 8),
        0xF6 => (OpCode::Two(0xCB, op), Op::SET(6, ByteR::Mem(WordR::HL)), 2, 16),
        0xF7 => (OpCode::Two(0xCB, op), Op::SET(6, ByteR::A), 2, 8),
        0xF8 => (OpCode::Two(0xCB, op), Op::SET(7, ByteR::B), 2, 8),
        0xF9 => (OpCode::Two(0xCB, op), Op::SET(7, ByteR::C), 2, 8),
        0xFA => (OpCode::Two(0xCB, op), Op::SET(7, ByteR::D), 2, 8),
        0xFB => (OpCode::Two(0xCB, op), Op::SET(7, ByteR::E), 2, 8),
        0xFC => (OpCode::Two(0xCB, op), Op::SET(7, ByteR::H), 2, 8),
        0xFD => (OpCode::Two(0xCB, op), Op::SET(7, ByteR::L), 2, 8),
        0xFE => (OpCode::Two(0xCB, op), Op::SET(7, ByteR::Mem(WordR::HL)), 2, 16),
        _ => (OpCode::Two(0xCB, op), Op::SET(7, ByteR::A), 2, 8),
    }
}

/// Decode an extended opcode in 0x00..=0x3F (rotates, shifts and swap).
fn cb_q0(op: u8) -> (r: (OpCode, Op, u16, usize))
    requires
        0x00 <= op <= 0x3F,
    ensures
        r == spec_cb_q0(op),
{
    proof {
        reveal(spec_cb_q0);
    }
    match op {
        0x00 => (OpCode::Two(0xCB, op), Op::RLC(ByteR::B), 2, 8),
        0x01 => (OpCode::Two(0xCB, op), Op::RLC(ByteR::C), 2, 8),
        0x02 => (OpCode::Two(0xCB, op), Op::RLC(ByteR::D), 2, 8),
        0x03 => (OpCode::Two(0xCB, op), Op::RLC(ByteR::E), 2, 8),
        0x04 => (OpCode::Two(0xCB, op), Op::RLC(ByteR::H), 2, 8),
        0x05 => (OpCode::Two(0xCB, op), Op::RLC(ByteR::L), 2, 8),
        0x06 => (OpCode::Two(0xCB, op), Op::RLC(ByteR::Mem(WordR::HL)), 2, 16),
        0x07 => (OpCode::Two(0xCB, op), Op::RLC(ByteR::A), 2, 8),
        0x08 => (OpCode::Two(0xCB, op), Op::RRC(ByteR::B), 2, 8),
        0x09 => (OpCode::Two(0xCB, op), Op::RRC(ByteR::C), 2, 8),
        0x0A => (OpCode::Two(0xCB, op), Op::RRC(ByteR::D), 2, 8),
        0x0B => (OpCode::Two(0xCB, op), Op::RRC(ByteR::E), 2, 8),
        0x0C => (OpCode::Two(0xCB, op), Op::RRC(ByteR::H), 2, 8),
        0x0D => (OpCode::Two(0xCB, op), Op::RRC(ByteR::L), 2, 8),
        0x0E => (OpCode::Two(0xCB, op), Op::RRC(ByteR::Mem(WordR::HL)), 2, 16),
        0x0F => (OpCode::Two(0xCB, op), Op::RRC(ByteR::A), 2, 8),
        0x10 => (OpCode::Two(0xCB, op), Op::RL(ByteR::B), 2, 8),
        0x11 => (OpCode::Two(0xCB, op), Op::RL(ByteR::C), 2, 8),
        0x12 => (OpCode::Two(0xCB, op), Op::RL(ByteR::D), 2, 8),
        0x13 => (OpCode::Two(0xCB, op), Op::RL(ByteR::E), 2, 8),
        0x14 => (OpCode::Two(0xCB, op), Op::RL(ByteR::H), 2, 8),
        0x15 => (OpCode::Two(0xCB, op), Op::RL(ByteR::L), 2, 8),
        0x16 => (OpCode::Two(0xCB, op), Op::RL(ByteR::Mem(WordR::HL)), 2, 16),
        0x17 => (OpCode::Two(0xCB, op), Op::RL(ByteR::A), 2, 8),
        0x18 => (OpCode::Two(0xCB, op), Op::RR(ByteR::B), 2, 8),
        0x19 => (OpCode::Two(0xCB, op), Op::RR(ByteR::C), 2, 8),
        0x1A => (OpCode::Two(0xCB, op), Op::RR(ByteR::D), 2, 8),
        0x1B => (OpCode::Two(0xCB, op), Op::RR(ByteR::E), 2, 8),
        0x1C => (OpCode::Two(0xCB, op), Op::RR(ByteR::H), 2, 8),
        0x1D => (OpCode::Two(0xCB, op), Op::RR(ByteR::L), 2, 8),
        0x1E => (OpCode::Two(0xCB, op), Op::RR(ByteR::Mem(WordR::HL)), 2, 16),
        0x1F => (OpCode::Two(0xCB, op), Op::RR(ByteR::A), 2, 8),
        0x20 => (OpCode::Two(0xCB, op), Op::SLA(ByteR::B), 2, 8),
        0x21 => (OpCode::Two(0xCB, op), Op::SLA(ByteR::C), 2, 8),
        0x22 => (OpCode::Two(0xCB, op), Op::SLA(ByteR::D), 2, 8),
        0x23 => (OpCode::Two(0xCB, op), Op::SLA(ByteR::E), 2, 8),
        0x24 => (OpCode::Two(0xCB, op), Op::SLA(ByteR::H), 2, 8),
        0x25 => (OpCode::Two(0xCB, op), Op::SLA(ByteR::L), 2, 8),
        0x26 => (OpCode::Two(0xCB, op), Op::SLA(ByteR::Mem(WordR::HL)), 2, 16),
        0x27 => (OpCode::Two(0xCB, op), Op::SLA(ByteR::A), 2, 8),
        0x28 => (OpCode::Two(0xCB, op), Op::SRA(ByteR::B), 2, 8),
        0x29 => (OpCode::Two(0xCB, op), Op::SRA(ByteR::C), 2, 8),
        0x2A => (OpCode::Two(0xCB, op), Op::SRA(ByteR::D), 2, 8),
        0x2B => (OpCode::Two(0xCB, op), Op::SRA(ByteR::E), 2, 8),
        0x2C => (OpCode::Two(0xCB, op), Op::SRA(ByteR::H), 2, 8),
        0x2D => (OpCode::Two(0xCB, op), Op::SRA(ByteR::L), 2, 8),
        0x2E => (OpCode::Two(0xCB, op), Op::SRA(ByteR::Mem(WordR::HL)), 2, 16),
        0x2F => (OpCode::Two(0xCB, op), Op::SRA(ByteR::A), 2, 8),
        0x30 => (OpCode::Two(0xCB, op), Op::SWAP(ByteR::B), 2, 8),
        0x31 => (OpCode::Two(0xCB, op), Op::SWAP(ByteR::C), 2, 8),
        0x32 => (OpCode::Two(0xCB, op), Op::SWAP(ByteR::D), 2, 8),
        0x33 => (OpCode::Two(0xCB, op), Op::SWAP(ByteR::E), 2, 8),
        0x34 => (OpCode::Two(0xCB, op), Op::SWAP(ByteR::H), 2, 8),
        0x35 => (OpCode::Two(0xCB, op), Op::SWAP(ByteR::L), 2, 8),
        0x36 => (OpCode::Two(0xCB, op), Op::SWAP(ByteR::Mem(WordR::HL)), 2, 16),
        0x37 => (OpCode::Two(0xCB, op), Op::SWAP(ByteR::A), 2, 8),
        0x38 => (OpCode::Two(0xCB, op), Op::SRL(ByteR::B), 2, 8),
        0x39 => (OpCode::Two(0xCB, op), Op::SRL(ByteR::C), 2, 8),
        0x3A => (OpCode::Two(0xCB, op), Op::SRL(ByteR::D), 2, 8),
        0x3B => (OpCode::Two(0xCB, op), Op::SRL(ByteR::E), 2, 8),
        0x3C => (OpCode::Two(0xCB, op), Op::SRL(ByteR::H), 2, 8),
        0x3D => (OpCode::Two(0xCB, op), Op::SRL(ByteR::L), 2, 8),
        0x3E => (OpCode::Two(0xCB, op), Op::SRL(ByteR::Mem(WordR::HL)), 2, 16),
        _ => (OpCode::Two(0xCB, op), Op::SRL(ByteR::A), 2, 8),
    }
}

/// Decode an extended opcode in 0x40..=0x7F (bit tests).
fn cb_q1(op: u8) -> (r: (OpCode, Op, u16, usize))
    requires
        0x40 <= op <= 0x7F,
    ensures
        r == spec_cb_q1(op),
{
    proof {
        reveal(spec_cb_q1);
    }
    match op {
        0x40 => (OpCode::Two(0xCB, op), Op::BIT(0, ByteR::B), 2, 8),
        0x41 => (OpCode::Two(0xCB, op), Op::BIT(0, ByteR::C), 2, 8),
        0x42 => (OpCode::Two(0xCB, op), Op::BIT(0, ByteR::D), 2, 8),
        0x43 => (OpCode::Two(0xCB, op), Op::BIT(0, ByteR::E), 2, 8),
        0x44 => (OpCode::Two(0xCB, op), Op::BIT(0, ByteR::H), 2, 8),
        0x45 => (OpCode::Two(0xCB, op), Op::BIT(0, ByteR::L), 2, 8),
        0x46 => (OpCode::Two(0xCB, op), Op::BIT(0, ByteR::Mem(WordR::HL)), 2, 16),
        0x47 => (OpCode::Two(0xCB, op), Op::BIT(0, ByteR::A), 2, 8),
        0x48 => (OpCode::Two(0xCB, op), Op::BIT(1, ByteR::B), 2, 8),
        0x49 => (OpCode::Two(0xCB, op), Op::BIT(1, ByteR::C), 2, 8),
        0x4A => (OpCode::Two(0xCB, op), Op::BIT(1, ByteR::D), 2, 8),
        0x4B => (OpCode::Two(0xCB, op), Op::BIT(1, ByteR::E), 2, 8),
        0x4C => (OpCode::Two(0xCB, op), Op::BIT(1, ByteR::H), 2, 8),
        0x4D => (OpCode::Two(0xCB, op), Op::BIT(1, ByteR::L), 2, 8),
        0x4E => (OpCode::Two(0xCB, op), Op::BIT(1, ByteR::Mem(WordR::HL)), 2, 16),
        0x4F => (OpCode::Two(0xCB, op), Op::BIT(1, ByteR::A), 2, 8),
        0x50 => (OpCode::Two(0xCB, op), Op::BIT(2, ByteR::B), 2, 8),
        0x51 => (OpCode::Two(0xCB, op), Op::BIT(2, ByteR::C), 2, 8),
        0x52 => (OpCode::Two(0xCB, op), Op::BIT(2, ByteR::D), 2, 8),
        0x53 => (OpCode::Two(0xCB, op), Op::BIT(2, ByteR::E), 2, 8),
        0x54 => (OpCode::Two(0xCB, op), Op::BIT(2, ByteR::H), 2, 8),
        0x55 => (OpCode::Two(0xCB, op), Op::BIT(2, ByteR::L), 2, 8),
        0x56 => (OpCode::Two(0xCB, op), Op::BIT(2, ByteR::Mem(WordR::HL)), 2, 16),
        0x57 => (OpCode::Two(0xCB, op), Op::BIT(2, ByteR::A), 2, 8),
        0x58 => (OpCode::Two(0xCB, op), Op::BIT(3, ByteR::B), 2, 8),
        0x59 => (OpCode::Two(0xCB, op), Op::BIT(3, ByteR::C), 2, 8),
        0x5A => (OpCode::Two(0xCB, op), Op::BIT(3, ByteR::D), 2, 8),
        0x5B => (OpCode::Two(0xCB, op), Op::BIT(3, ByteR::E), 2, 8),
        0x5C => (OpCode::Two(0xCB, op), Op::BIT(3, ByteR::H), 2, 8),
        0x5D => (OpCode::Two(0xCB, op), Op::BIT(3, ByteR::L), 2, 8),
        0x5E => (OpCode::Two(0xCB, op), Op::BIT(3, ByteR::Mem(WordR::HL)), 2, 16),
        0x5F => (OpCode::Two(0xCB, op), Op::BIT(3, ByteR::A), 2, 8),
        0x60 => (OpCode::Two(0xCB, op), Op::BIT(4, ByteR::B), 2, 8),
        0x61 => (OpCode::Two(0xCB, op), Op::BIT(4, ByteR::C), 2, 8),
        0x62 => (OpCode::Two(0xCB, op), Op::BIT(4, ByteR::D), 2, 8),
        0x63 => (OpCode::Two(0xCB, op), Op::BIT(4, ByteR::E), 2, 8),
        0x64 => (OpCode::Two(0xCB, op), Op::BIT(4, ByteR::H), 2, 8),
        0x65 => (OpCode::Two(0xCB, op), Op::BIT(4, ByteR::L), 2, 8),
        0x66 => (OpCode::Two(0xCB, op), Op::BIT(4, ByteR::Mem(WordR::HL)), 2, 16),
        0x67 => (OpCode::Two(0xCB, op), Op::BIT(4, ByteR::A), 2, 8),
        0x68 => (OpCode::Two(0xCB, op), Op::BIT(5, ByteR::B), 2, 8),
        0x69 => (OpCode::Two(0xCB, op), Op::BIT(5, ByteR::C), 2, 8),
        0x6A => (OpCode::Two(0xCB, op), Op::BIT(5, ByteR::D), 2, 8),
        0x6B => (OpCode::Two(0xCB, op), Op::BIT(5, ByteR::E), 2, 8),
        0x6C => (OpCode::Two(0xCB, op), Op::BIT(5, ByteR::H), 2, 8),
        0x6D => (OpCode::Two(0xCB, op), Op::BIT(5, ByteR::L), 2, 8),
        0x6E => (OpCode::Two(0xCB, op), Op::BIT(5, ByteR::Mem(WordR::HL)), 2, 16),
        0x6F => (OpCode::Two(0xCB, op), Op::BIT(5, ByteR::A), 2, 8),
        0x70 => (OpCode::Two(0xCB, op), Op::BIT(6, ByteR::B), 2, 8),
        0x71 => (OpCode::Two(0xCB, op), Op::BIT(6, ByteR::C), 2, 8),
        0x72 => (OpCode::Two(0xCB, op), Op::BIT(6, ByteR::D), 2, 8),
        0x73 => (OpCode::Two(0xCB, op), Op::BIT(6, ByteR::E), 2, 8),
        0x74 => (OpCode::Two(0xCB, op), Op::BIT(6, ByteR::H), 2, 8),
        0x75 => (OpCode::Two(0xCB, op), Op::BIT(6, ByteR::L), 2, 8),
        0x76 => (OpCode::Two(0xCB, op), Op::BIT(6, ByteR::Mem(WordR::HL)), 2, 16),
        0x77 => (OpCode::Two(0xCB, op), Op::BIT(6, ByteR::A), 2, 8),
        0x78 => (OpCode::Two(0xCB, op), Op::BIT(7, ByteR::B), 2, 8),
        0x79 => (OpCode::Two(0xCB, op), Op::BIT(7, ByteR::C), 2, 8),
        0x7A => (OpCode::Two(0xCB, op), Op::BIT(7, ByteR::D), 2, 8),
        0x7B => (OpCode::Two(0xCB, op), Op::BIT(7, ByteR::E), 2, 8),
        0x7C => (OpCode::Two(0xCB, op), Op::BIT(7, ByteR::H), 2, 8),
        0x7D => (OpCode::Two(0xCB, op), Op::BIT(7, ByteR::L), 2, 8),
        0x7E => (OpCode::Two(0xCB, op), Op::BIT(7, ByteR::Mem(WordR::HL)), 2, 16),
        _ => (OpCode::Two(0xCB, op), Op::BIT(7, ByteR::A), 2, 8),
    }
}

/// Decode an extended opcode in 0x80..=0xBF (bit resets).
fn cb_q2(op: u8) -> (r: (OpCode, Op, u16, usize))
    requires
        0x80 <= op <= 0xBF,
    ensures
        r == spec_cb_q2(op),
{
    proof {
        reveal(spec_cb_q2);
    }
    match op {
        0x80 => (OpCode::Two(0xCB, op), Op::RES(0, ByteR::B), 2, 8),
        0x81 => (OpCode::Two(0xCB, op), Op::RES(0, ByteR::C), 2, 8),
        0x82 => (OpCode::Two(0xCB, op), Op::RES(0, ByteR::D), 2, 8),
        0x83 => (OpCode::Two(0xCB, op), Op::RES(0, ByteR::E), 2, 8),
        0x84 => (OpCode::Two(0xCB, op), Op::RES(0, ByteR::H), 2, 8),
        0x85 => (OpCode::Two(0xCB, op), Op::RES(0, ByteR::L), 2, 8),
        0x86 => (OpCode::Two(0xCB, op), Op::RES(0, ByteR::Mem(WordR::HL)), 2, 16),
        0x87 => (OpCode::Two(0xCB, op), Op::RES(0, ByteR::A), 2, 8),
        0x88 => (OpCode::Two(0xCB, op), Op::RES(1, ByteR::B), 2, 8),
        0x89 => (OpCode::Two(0xCB, op), Op::RES(1, ByteR::C), 2, 8),
        0x8A => (OpCode::Two(0xCB, op), Op::RES(1, ByteR::D), 2, 8),
        0x8B => (OpCode::Two(0xCB, op), Op::RES(1, ByteR::E), 2, 8),
        0x8C => (OpCode::Two(0xCB, op), Op::RES(1, ByteR::H), 2, 8),
        0x8D => (OpCode::Two(0xCB, op), Op::RES(1, ByteR::L), 2, 8),
        0x8E => (OpCode::Two(0xCB, op), Op::RES(1, ByteR::Mem(WordR::HL)), 2, 16),
        0x8F => (OpCode::Two(0xCB, op), Op::RES(1, ByteR::A), 2, 8),
        0x90 => (OpCode::Two(0xCB, op), Op::RES(2, ByteR::B), 2, 8),
        0x91 => (OpCode::Two(0xCB, op), Op::RES(2, ByteR::C), 2, 8),
        0x92 => (OpCode::Two(0xCB, op), Op::RES(2, ByteR::D), 2, 8),
        0x93 => (OpCode::Two(0xCB, op), Op::RES(2, ByteR::E), 2, 8),
        0x94 => (OpCode::Two(0xCB, op), Op::RES(2, ByteR::H), 2, 8),
        0x95 => (OpCode::Two(0xCB, op), Op::RES(2, ByteR::L), 2, 8),
        0x96 => (OpCode::Two(0xCB, op), Op::RES(2, ByteR::Mem(WordR::HL)), 2, 16),
        0x97 => (OpCode::Two(0xCB, op), Op::RES(2, ByteR::A), 2, 8),
        0x98 => (OpCode::Two(0xCB, op), Op::RES(3, ByteR::B), 2, 8),
        0x99 => (OpCode::Two(0xCB, op), Op::RES(3, ByteR::C), 2, 8),
        0x9A => (OpCode::Two(0xCB, op), Op::RES(3, ByteR::D), 2, 8),
        0x9B => (OpCode::Two(0xCB, op), Op::RES(3, ByteR::E), 2, 8),
        0x9C => (OpCode::Two(0xCB, op), Op::RES(3, ByteR::H), 2, 8),
        0x9D => (OpCode::Two(0xCB, op), Op::RES(3, ByteR::L), 2, 8),
        0x9E => (OpCode::Two(0xCB, op), Op::RES(3, ByteR::Mem(WordR::HL)), 2, 16),
        0x9F => (OpCode::Two(0xCB, op), Op::RES(3, ByteR::A), 2, 8),
        0xA0 => (OpCode::Two(0xCB, op), Op::RES(4, ByteR::B), 2, 8),
        0xA1 => (OpCode::Two(0xCB, op), Op::RES(4, ByteR::C), 2, 8),
        0xA2 => (OpCode::Two(0xCB, op), Op::RES(4, ByteR::D), 2, 8),
        0xA3 => (OpCode::Two(0xCB, op), Op::RES(4, ByteR::E), 2, 8),
        0xA4 => (OpCode::Two(0xCB, op), Op::RES(4, ByteR::H), 2, 8),
        0xA5 => (OpCode::Two(0xCB, op), Op::RES(4, ByteR::L), 2, 8),
        0xA6 => (OpCode::Two(0xCB, op), Op::RES(4, ByteR::Mem(WordR::HL)), 2, 16),
        0xA7 => (OpCode::Two(0xCB, op), Op::RES(4, ByteR::A), 2, 8),
        0xA8 => (OpCode::Two(0xCB, op), Op::RES(5, ByteR::B), 2, 8),
        0xA9 => (OpCode::Two(0xCB, op), Op::RES(5, ByteR::C), 2, 8),
        0xAA => (OpCode::Two(0xCB, op), Op::RES(5, ByteR::D), 2, 8),
        0xAB => (OpCode::Two(0xCB, op), Op::RES(5, ByteR::E), 2, 8),
        0xAC => (OpCode::Two(0xCB, op), Op::RES(5, ByteR::H), 2, 8),
        0xAD => (OpCode::Two(0xCB, op), Op::RES(5, ByteR::L), 2, 8),
        0xAE => (OpCode::Two(0xCB, op), Op::RES(5, ByteR::Mem(WordR::HL)), 2, 16),
        0xAF => (OpCode::Two(0xCB, op), Op::RES(5, ByteR::A), 2, 8),
        0xB0 => (OpCode::Two(0xCB, op), Op::RES(6, ByteR::B), 2, 8),
        0xB1 => (OpCode::Two(0xCB, op), Op::RES(6, ByteR::C), 2, 8),
        0xB2 => (OpCode::Two(0xCB, op), Op::RES(6, ByteR::D), 2, 8),
        0xB3 => (OpCode::Two(0xCB, op), Op::RES(6, ByteR::E), 2, 8),
        0xB4 => (OpCode::Two(0xCB, op), Op::RES(6, ByteR::H), 2, 8),
        0xB5 => (OpCode::Two(0xCB, op), Op::RES(6, ByteR::L), 2, 8),
        0xB6 => (OpCode::Two(0xCB, op), Op::RES(6, ByteR::Mem(WordR::HL)), 2, 16),
        0xB7 => (OpCode::Two(0xCB, op), Op::RES(6, ByteR::A), 2, 8),
        0xB8 => (OpCode::Two(0xCB, op), Op::RES(7, ByteR::B), 2, 8),
        0xB9 => (OpCode::Two(0xCB, op), Op::RES(7, ByteR::C), 2, 8),
        0xBA => (OpCode::Two(0xCB, op), Op::RES(7, ByteR::D), 2, 8),
        0xBB => (OpCode::Two(0xCB, op), Op::RES(7, ByteR::E), 2, 8),
        0xBC => (OpCode::Two(0xCB, op), Op::RES(7, ByteR::H), 2, 8),
        0xBD => (OpCode::Two(0xCB, op), Op::RES(7, ByteR::L), 2, 8),
        0xBE => (OpCode::Two(0xCB, op), Op::RES(7, ByteR::Mem(WordR::HL)), 2, 16),
        _ => (OpCode::Two(0xCB, op), Op::RES(7, ByteR::A), 2, 8),
    }
}

/// Decode an extended opcode in 0xC0..=0xFF (bit sets).
fn cb_q3(op: u8) -> (r: (OpCode, Op, u16, usize))
    requires
        0xC0 <= op <= 0xFF,
    ensures
        r == spec_cb_q3(op),
{
    proof {
        reveal(spec_cb_q3);
    }
    match op {
        0xC0 => (OpCode::Two(0xCB, op), Op::SET(0, ByteR::B), 2, 8),
        0xC1 => (OpCode::Two(0xCB, op), Op::SET(0, ByteR::C), 2, 8),
        0xC2 => (OpCode::Two(0xCB, op), Op::SET(0, ByteR::D), 2, 8),
        0xC3 => (OpCode::Two(0xCB, op), Op::SET(0, ByteR::E), 2, 8),
        0xC4 => (OpCode::Two(0xCB, op), Op::SET(0, ByteR::H), 2, 8),
        0xC5 => (OpCode::Two(0xCB, op), Op::SET(0, ByteR::L), 2, 8),
        0xC6 => (OpCode::Two(0xCB, op), Op::SET(0, ByteR::Mem(WordR::HL)), 2, 16),
        0xC7 => (OpCode::Two(0xCB, op), Op::SET(0, ByteR::A), 2, 8),
        0xC8 => (OpCode::Two(0xCB, op), Op::SET(1, ByteR::B), 2, 8),
        0xC9 => (OpCode::Two(0xCB, op), Op::SET(1, ByteR::C), 2, 8),
        0xCA => (OpCode::Two(0xCB, op), Op::SET(1, ByteR::D), 2, 8),
        0xCB => (OpCode::Two(0xCB, op), Op::SET(1, ByteR::E), 2, 8),
        0xCC => (OpCode::Two(0xCB, op), Op::SET(1, ByteR::H), 2, 8),
        0xCD => (OpCode::Two(0xCB, op), Op::SET(1, ByteR::L), 2, 8),
        0xCE => (OpCode::Two(0xCB, op), Op::SET(1, ByteR::Mem(WordR::HL)), 2, 16),
        0xCF => (OpCode::Two(0xCB, op), Op::SET(1, ByteR::A), 2, 8),
        0xD0 => (OpCode::Two(0xCB, op), Op::SET(2, ByteR::B), 2, 8),
        0xD1 => (OpCode::Two(0xCB, op), Op::SET(2, ByteR::C), 2, 8),
        0xD2 => (OpCode::Two(0xCB, op), Op::SET(2, ByteR::D), 2, 8),
        0xD3 => (OpCode::Two(0xCB, op), Op::SET(2, ByteR::E), 2, 8),
        0xD4 => (OpCode::Two(0xCB, op), Op::SET(2, ByteR::H), 2, 8),
        0xD5 => (OpCode::Two(0xCB, op), Op::SET(2, ByteR::L), 2, 8),
        0xD6 => (OpCode::Two(0xCB, op), Op::SET(2, ByteR::Mem(WordR::HL)), 2, 16),
        0xD7 => (OpCode::Two(0xCB, op), Op::SET(2, ByteR::A), 2, 8),
        0xD8 => (OpCode::Two(0xCB, op), Op::SET(3, ByteR::B), 2, 8),
        0xD9 => (OpCode::Two(0xCB, op), Op::SET(3, ByteR::C), 2, 8),
        0xDA => (OpCode::Two(0xCB, op), Op::SET(3, ByteR::D), 2, 8),
        0xDB => (OpCode::Two(0xCB, op), Op::SET(3, ByteR::E), 2, 8),
        0xDC => (OpCode::Two(0xCB, op), Op::SET(3, ByteR::H), 2, 8),
        0xDD => (OpCode::Two(0xCB, op), Op::SET(3, ByteR::L), 2, 8),
        0xDE => (OpCode::Two(0xCB, op), Op::SET(3, ByteR::Mem(WordR::HL)), 2, 16),
        0xDF => (OpCode::Two(0xCB, op), Op::SET(3, ByteR::A), 2, 8),
        0xE0 => (OpCode::Two(0xCB, op), Op::SET(4, ByteR::B), 2, 8),
        0xE1 => (OpCode::Two(0xCB, op), Op::SET(4, ByteR::C), 2, 8),
        0xE2 => (OpCode::Two(0xCB, op), Op::SET(4, ByteR::D), 2, 8),
        0xE3 => (OpCode::Two(0xCB, op), Op::SET(4, ByteR::E), 2, 8),
        0xE4 => (OpCode::Two(0xCB, op), Op::SET(4, ByteR::H), 2, 8),
        0xE5 => (OpCode::Two(0xCB, op), Op::SET(4, ByteR::L), 2, 8),
        0xE6 => (OpCode::Two(0xCB, op), Op::SET(4, ByteR::Mem(WordR::HL)), 2, 16),
        0xE7 => (OpCode::Two(0xCB, op), Op::SET(4, ByteR::A), 2, 8),
        0xE8 => (OpCode::Two(0xCB, op), Op::SET(5, ByteR::B), 2, 8),
        0xE9 => (OpCode::Two(0xCB, op), Op::SET(5, ByteR::C), 2, 8),
        0xEA => (OpCode::Two(0xCB, op), Op::SET(5, ByteR::D), 2, 8),
        0xEB => (OpCode::Two(0xCB, op), Op::SET(5, ByteR::E), 2, 8),
        0xEC => (OpCode::Two(0xCB, op), Op::SET(5, ByteR::H), 2, 8),
        0xED => (OpCode::Two(0xCB, op), Op::SET(5, ByteR::L), 2, 8),
        0xEE => (OpCode::Two(0xCB, op), Op::SET(5, ByteR::Mem(WordR::HL)), 2, 16),
        0xEF => (OpCode::Two(0xCB, op), Op::SET(5, ByteR::A), 2, 8),
        0xF0 => (OpCode::Two(0xCB, op), Op::SET(6, ByteR::B), 2, 8),
        0xF1 => (OpCode::Two(0xCB, op), Op::SET(6, ByteR::C), 2, 8),
        0xF2 => (OpCode::Two(0xCB, op), Op::SET(6, ByteR::D), 2, 8),
        0xF3 => (OpCode::Two(0xCB, op), Op::SET(6, ByteR::E), 2, 8),
        0xF4 => (OpCode::Two(0xCB, op), Op::SET(6, ByteR::H), 2, 8),
        0xF5 => (OpCode::Two(0xCB, op), Op::SET(6, ByteR::L), 2, 8),
        0xF6 => (OpCode::Two(0xCB, op), Op::SET(6, ByteR::Mem(WordR::HL)), 2, 16),
        0xF7 => (OpCode::Two(0xCB, op), Op::SET(6, ByteR::A), 2, 8),
        0xF8 => (OpCode::Two(0xCB, op), Op::SET(7, ByteR::B), 2, 8),
        0xF9 => (OpCode::Two(0xCB, op), Op::SET(7, ByteR::C), 2, 8),
        0xFA => (OpCode::Two(0xCB, op), Op::SET(7, ByteR::D), 2, 8),
        0xFB => (OpCode::Two(0xCB, op), Op::SET(7, ByteR::E), 2, 8),
        0xFC => (OpCode::Two(0xCB, op), Op::SET(7, ByteR::H), 2, 8),
        0xFD => (OpCode::Two(0xCB, op), Op::SET(7, ByteR::L), 2, 8),
        0xFE => (OpCode::Two(0xCB, op), Op::SET(7, ByteR::Mem(WordR::HL)), 2, 16),
        _ => (OpCode::Two(0xCB, op), Op::SET(7, ByteR::A), 2, 8),
    }
}

/// Decoded form of a primary opcode and its immediate bytes: `None` for
/// the gaps of the primary table.
pub open spec fn spec_decode_bytes(op: u8, op2: u8, op3: u8) -> Option<(OpCode, Op, u16, usize)> {
    if op < 0x40 {
        spec_decode_q0(op, op2, op3)
    } else if op < 0x80 {
        spec_decode_q1(op, op2, op3)
    } else if op < 0xC0 {
        spec_decode_q2(op, op2, op3)
    } else {
        spec_decode_q3(op, op2, op3)
    }
}

/// Decoded form of an extended (0xCB-prefixed) opcode.
pub open spec fn spec_cb(op: u8) -> (OpCode, Op, u16, usize) {
    if op < 0x40 {
        spec_cb_q0(op)
    } else if op < 0x80 {
        spec_cb_q1(op)
    } else if op < 0xC0 {
        spec_cb_q2(op)
    } else {
        spec_cb_q3(op)
    }
}

/// Decode an instruction from its one to three raw bytes: the encoded
/// bytes, the instruction, its length in bytes and its base cycle cost,
/// or `None` where the primary table has a gap.
pub fn decode_bytes(op: u8, op2: u8, op3: u8) -> (r: Option<(OpCode, Op, u16, usize)>)
    ensures
        r == spec_decode_bytes(op, op2, op3),
{
    if op < 0x40 {
        decode_q0(op, op2, op3)
    } else if op < 0x80 {
        decode_q1(op, op2, op3)
    } else if op < 0xC0 {
        decode_q2(op, op2, op3)
    } else {
        decode_q3(op, op2, op3)
    }
}

/// Decode an extended opcode from the byte after the 0xCB prefix; the
/// extended table has no gaps.
#[allow(non_snake_case)]
pub fn cbTable(op: u8) -> (r: (OpCode, Op, u16, usize))
    ensures
        r == spec_cb(op),
{
    if op < 0x40 {
        cb_q0(op)
    } else if op < 0x80 {
        cb_q1(op)
    } else if op < 0xC0 {
        cb_q2(op)
    } else {
        cb_q3(op)
    }
}

/// A fatal decode failure: the primary table has no entry for the
/// opcode byte found at the address.
#[derive(Clone, Copy, PartialEq, Eq, Structural, Debug)]
pub struct DecodeError {
    pub opcode: u8,
    pub addr: u16,
}

/// Decoded form of the instruction whose first byte sits at a bus
/// address: the decoder looks ahead at the following one or two bytes
/// (wrapping at the top of the address space) to materialize immediates.
pub open spec fn spec_decode_at(m: crate::mem::GbMapper, addr: u16) -> Option<(OpCode, Op, u16, usize)> {
    spec_decode_bytes(
        crate::mem::spec_load_8(m, addr),
        crate::mem::spec_load_8(m, ((addr as int + 1) % 0x10000) as u16),
        crate::mem::spec_load_8(m, ((addr as int + 2) % 0x10000) as u16),
    )
}

/// Decode the instruction at a bus address without touching machine
/// state: the encoded bytes, the instruction, its length and its base
/// cycle cost; an opcode the primary table leaves undefined is surfaced
/// as a fatal decode error carrying the byte and its address.
#[verifier::rlimit(100)]
pub fn decode(addr: u16, mem: &crate::mem::Mem) -> (r: Result<
    (OpCode, Op, u16, usize),
    DecodeError,
>)
    requires
        crate::mem::spec_mem_wf(*mem),
    ensures
        r matches Ok(t) ==> spec_decode_at(mem.map_holder, addr) == Some(t),
        r matches Err(e) ==> spec_decode_at(mem.map_holder, addr) == None::<
            (OpCode, Op, u16, usize),
        > && e == (DecodeError { opcode: crate::mem::spec_load_8(mem.map_holder, addr), addr }),
{
    let a1: u16 = if addr == 0xFFFF {
        0
    } else {
        addr + 1
    };
    let a2: u16 = if a1 == 0xFFFF {
        0
    } else {
        a1 + 1
    };
    let op = mem.load_8(addr);
    let op2 = mem.load_8(a1);
    let op3 = mem.load_8(a2);
    match decode_bytes(op, op2, op3) {
        Some(t) => Ok(t),
        None => Err(DecodeError { opcode: op, addr }),
    }
}

} // verus!
