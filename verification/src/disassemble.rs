//! A small disassembler over the boot-sequence subset of the
//! instruction set: it names the instruction at an address and hands
//! back any 16-bit immediate with the instruction's encoded length, for
//! the host to print.

use vstd::prelude::*;

use crate::mem::{spec_load_16, spec_load_8, spec_mem_wf, Mem};

verus! {

/// The disassembly of one instruction: its mnemonic, its 16-bit
/// immediate if it carries one, and its encoded length in bytes.
pub struct DaLine {
    pub text: &'static str,
    pub imm: Option<u16>,
    pub len: usize,
}

/// Disassemble the instruction at a bus address, for the subset of
/// opcodes the table covers: the mnemonic, the 16-bit immediate of the
/// three-byte loads, and the encoded length. `None` for any opcode
/// outside the subset.
#[allow(non_snake_case)]
pub fn daInst(addr: u16, mem: &Mem) -> (r: Option<DaLine>)
    requires
        spec_mem_wf(*mem),
    ensures
        ({
            let op = spec_load_8(mem.map_holder, addr);
            let imm = spec_load_16(mem.map_holder, ((addr as int + 1) % 0x10000) as u16);
            &&& (op == 0x00 ==> (r matches Some(t) && t.text@ == "NOP"@ && t.imm == None::<u16>
                && t.len == 1))
            &&& (op == 0x01 ==> (r matches Some(t) && t.text@ == "LD BC, "@ && t.imm == Some(imm)
                && t.len == 3))
            &&& (op == 0x02 ==> (r matches Some(t) && t.text@ == "LD (BC),A"@ && t.imm == None::<
                u16,
            > && t.len == 1))
            &&& (op == 0x03 ==> (r matches Some(t) && t.text@ == "INC BC"@ && t.imm == None::<u16>
                && t.len == 1))
            &&& (op == 0x11 ==> (r matches Some(t) && t.text@ == "LD DE, "@ && t.imm == Some(imm)
                && t.len == 3))
            &&& (op == 0x12 ==> (r matches Some(t) && t.text@ == "LD (DE),A"@ && t.imm == None::<
                u16,
            > && t.len == 1))
            &&& (op == 0x13 ==> (r matches Some(t) && t.text@ == "INC DE"@ && t.imm == None::<u16>
                && t.len == 1))
            &&& (op == 0x21 ==> (r matches Some(t) && t.text@ == "LD HL, "@ && t.imm == Some(imm)
                && t.len == 3))
            &&& (op == 0x22 ==> (r matches Some(t) && t.text@ == "LD (HL+),A"@ && t.imm == None::<
                u16,
            > && t.len == 1))
            &&& (op == 0x23 ==> (r matches Some(t) && t.text@ == "INC HL"@ && t.imm == None::<u16>
                && t.len == 1))
            &&& (op == 0x31 ==> (r matches Some(t) && t.text@ == "LD SP, "@ && t.imm == Some(imm)
                && t.len == 3))
            &&& (op == 0x32 ==> (r matches Some(t) && t.text@ == "LD (HL-),A"@ && t.imm == None::<
                u16,
            > && t.len == 1))
            &&& (op == 0x33 ==> (r matches Some(t) && t.text@ == "INC SP"@ && t.imm == None::<u16>
                && t.len == 1))
            &&& (op == 0xAF ==> (r matches Some(t) && t.text@ == "XOR A"@ && t.imm == None::<u16>
                && t.len == 1))
            &&& (!(op == 0x00 || op == 0x01 || op == 0x02 || op == 0x03 || op == 0x11 || op == 0x12
                || op == 0x13 || op == 0x21 || op == 0x22 || op == 0x23 || op == 0x31 || op == 0x32
                || op == 0x33 || op == 0xAF) ==> r matches None)
        }),
{
    let op = mem.load_8(addr);
    let next: u16 = if addr == 0xFFFF {
        0
    } else {
        addr + 1
    };
    match op {
        0x00 => Some(DaLine { text: "NOP", imm: None, len: 1 }),
        0x01 => Some(DaLine { text: "LD BC, ", imm: Some(mem.load_16(next)), len: 3 }),
        0x02 => Some(DaLine { text: "LD (BC),A", imm: None, len: 1 }),
        0x03 => Some(DaLine { text: "INC BC", imm: None, len: 1 }),
        0x11 => Some(DaLine { text: "LD DE, ", imm: Some(mem.load_16(next)), len: 3 }),
        0x12 => Some(DaLine { text: "LD (DE),A", imm: None, len: 1 }),
        0x13 => Some(DaLine { text: "INC DE", imm: None, len: 1 }),
        0x21 => Some(DaLine { text: "LD HL, ", imm: Some(mem.load_16(next)), len: 3 }),
        0x22 => Some(DaLine { text: "LD (HL+),A", imm: None, len: 1 }),
        0x23 => Some(DaLine { text: "INC HL", imm: None, len: 1 }),
        0x31 => Some(DaLine { text: "LD SP, ", imm: Some(mem.load_16(next)), len: 3 }),
        0x32 => Some(DaLine { text: "LD (HL-),A", imm: None, len: 1 }),
        0x33 => Some(DaLine { text: "INC SP", imm: None, len: 1 }),
        0xAF => Some(DaLine { text: "XOR A", imm: None, len: 1 }),
        _ => None,
    }
}

} // verus!
