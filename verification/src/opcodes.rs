use vstd::prelude::*;

use crate::flags::CpuFlag;

verus! {

/// Operand kinds of the decode table.
#[derive(Debug, Clone, Copy, PartialEq, Eq, Structural)]
pub enum TargetReg {
    /// No operand.
    NoReg,
    /// 0: b, 1: c, 2: d, 3: e, 4: h, 5: l, 6: [hl], 7: a
    R8(u8),
    /// 0: bc, 1: de, 2: hl, 3: sp
    R16(u8),
    /// 0: bc, 1: de, 2: hl, 3: af
    R16stk(u8),
    /// 0: [bc], 1: [de], 2: [hl+], 3: [hl-]
    R16mem(u8),
    /// 0: nz, 1: z, 2: nc, 3: c
    Cond(u8),
    /// A bit index 0 to 7.
    B3(u8),
    /// A reset vector index 0 to 7.
    Tgt3(u8),
    A,
    C,
    SP,
    Imm8,
    Imm16,
    Ptr,
}

/// One record of the decode table: mnemonic, the two operands, the length in
/// bytes and the base cost in M-cycles (not counting a taken branch).
pub struct Opcode {
    pub name: &'static str,
    pub reg1: TargetReg,
    pub reg2: TargetReg,
    pub bytes: u16,
    pub cycles: u8,
}

impl Opcode {
    pub fn new(name: &'static str, reg1: TargetReg, reg2: TargetReg, bytes: u16, cycles: u8) -> (r:
        Opcode)
        ensures
            r.name == name && r.reg1 == reg1 && r.reg2 == reg2 && r.bytes == bytes && r.cycles
                == cycles,
    {
        Self { name, reg1, reg2, bytes, cycles }
    }
}

/// The unprefixed page defines every byte except these eleven.
pub open spec fn spec_valid_opcode(b: u8) -> bool {
    b != 0xd3 && b != 0xdb && b != 0xdd && b != 0xe3 && b != 0xe4 && b != 0xeb && b != 0xec && b
        != 0xed && b != 0xf4 && b != 0xfc && b != 0xfd
}

/// Length in bytes and base M-cycles of each unprefixed opcode.
pub open spec fn spec_decode(b: u8) -> Option<(u16, u8)> {
    if !spec_valid_opcode(b) {
        Option::None
    } else if 0x40 <= b && b <= 0x7f {
        if b == 0x76 {
            Option::Some((1u16, 1u8))
        } else if b % 8 == 6 || (0x70 <= b && b <= 0x77) {
            Option::Some((1u16, 2u8))
        } else {
            Option::Some((1u16, 1u8))
        }
    } else if 0x80 <= b && b <= 0xbf {
        if b % 8 == 6 {
            Option::Some((1u16, 2u8))
        } else {
            Option::Some((1u16, 1u8))
        }
    } else if b == 0x00 {
        Option::Some((1u16, 1u8))
    } else if b < 0x40 {
        let col = b % 16;
        if col == 1 {
            Option::Some((3u16, 3u8))
        } else if col == 2 || col == 0xa {
            Option::Some((1u16, 2u8))
        } else if col == 3 || col == 0xb || col == 9 {
            Option::Some((1u16, 2u8))
        } else if col == 4 || col == 0xc || col == 5 || col == 0xd {
            if b == 0x34 || b == 0x35 {
                Option::Some((1u16, 3u8))
            } else {
                Option::Some((1u16, 1u8))
            }
        } else if col == 6 || col == 0xe {
            if b == 0x36 {
                Option::Some((2u16, 3u8))
            } else {
                Option::Some((2u16, 2u8))
            }
        } else if col == 7 || col == 0xf {
            Option::Some((1u16, 1u8))
        } else if b == 0x08 {
            Option::Some((3u16, 5u8))
        } else if b == 0x10 {
            Option::Some((2u16, 1u8))
        } else if b == 0x18 {
            Option::Some((2u16, 3u8))
        } else {
            // 0x20, 0x28, 0x30, 0x38: conditional relative jumps
            Option::Some((2u16, 2u8))
        }
    } else {
        // 0xc0 ..= 0xff
        let col = b % 16;
        if col == 1 {
            Option::Some((1u16, 3u8))
        } else if col == 5 {
            Option::Some((1u16, 4u8))
        } else if col == 7 || col == 0xf {
            Option::Some((1u16, 4u8))
        } else if col == 6 || col == 0xe {
            Option::Some((2u16, 2u8))
        } else if b == 0xc0 || b == 0xc8 || b == 0xd0 || b == 0xd8 {
            Option::Some((1u16, 2u8))
        } else if b == 0xc2 || b == 0xca || b == 0xd2 || b == 0xda {
            Option::Some((3u16, 3u8))
        } else if b == 0xc3 {
            Option::Some((3u16, 4u8))
        } else if b == 0xc4 || b == 0xcc || b == 0xd4 || b == 0xdc {
            Option::Some((3u16, 3u8))
        } else if b == 0xc9 || b == 0xd9 {
            Option::Some((1u16, 4u8))
        } else if b == 0xcb {
            Option::Some((1u16, 1u8))
        } else if b == 0xcd {
            Option::Some((3u16, 6u8))
        } else if b == 0xe0 || b == 0xf0 {
            Option::Some((2u16, 3u8))
        } else if b == 0xe2 || b == 0xf2 {
            Option::Some((1u16, 2u8))
        } else if b == 0xe8 {
            Option::Some((2u16, 4u8))
        } else if b == 0xe9 {
            Option::Some((1u16, 1u8))
        } else if b == 0xea || b == 0xfa {
            Option::Some((3u16, 4u8))
        } else if b == 0xf3 || b == 0xfb {
            Option::Some((1u16, 1u8))
        } else if b == 0xf8 {
            Option::Some((2u16, 3u8))
        } else {
            // 0xf9
            Option::Some((1u16, 2u8))
        }
    }
}

/// Base cycles of an unprefixed opcode (1 where the opcode is invalid, which
/// the fetch rejects before charging time).
pub open spec fn spec_base_cycles(b: u8) -> u8 {
    match spec_decode(b) {
        Option::Some(e) => e.1,
        Option::None => 1,
    }
}

/// Length of an unprefixed opcode in bytes.
pub open spec fn spec_bytes(b: u8) -> u16 {
    match spec_decode(b) {
        Option::Some(e) => e.0,
        Option::None => 1,
    }
}

/// Every prefixed opcode is one byte past the prefix; register forms cost one
/// M-cycle beyond the prefix, [hl] forms two (for the read-only bit test) or
/// three (for read-modify-write).
pub open spec fn spec_prefixed_cycles(b: u8) -> u8 {
    if b % 8 == 6 {
        if 0x40 <= b && b <= 0x7f {
            2
        } else {
            3
        }
    } else {
        1
    }
}

/// Whether the condition encoded in bits 3 and 4 of a conditional opcode
/// holds for the given flags: 0 = not-zero, 1 = zero, 2 = no-carry, 3 = carry.
pub open spec fn spec_cond(i: u8, f: CpuFlag) -> bool {
    if i == 0 {
        !f.zero
    } else if i == 1 {
        f.zero
    } else if i == 2 {
        !f.carry
    } else {
        f.carry
    }
}

/// Extra M-cycles charged when a conditional jump, call or return takes its
/// branch: one for a jump, three for a call or return.
pub open spec fn spec_extra_cycles(b: u8, f: CpuFlag) -> u8 {
    if (b == 0x20 || b == 0x28 || b == 0x30 || b == 0x38) && spec_cond(b / 8 % 4, f) {
        1
    } else if (b == 0xc2 || b == 0xca || b == 0xd2 || b == 0xda) && spec_cond(b / 8 % 4, f) {
        1
    } else if (b == 0xc4 || b == 0xcc || b == 0xd4 || b == 0xdc) && spec_cond(b / 8 % 4, f) {
        3
    } else if (b == 0xc0 || b == 0xc8 || b == 0xd0 || b == 0xd8) && spec_cond(b / 8 % 4, f) {
        3
    } else {
        0
    }
}

/// The unprefixed decode table: one record per defined opcode.
pub fn opcode_entry(b: u8) -> (r: Option<Opcode>)
    ensures
        r is Some <==> spec_valid_opcode(b),
        match r {
            Option::Some(op) => op.bytes == spec_bytes(b) && op.cycles == spec_base_cycles(b),
            Option::None => true,
        },
{
    let e: Option<(&'static str, TargetReg, TargetReg)> = match b {
        0x00 => Some(("NOP", TargetReg::NoReg, TargetReg::NoReg)),
        0x01 | 0x11 | 0x21 | 0x31 => Some(("LD", TargetReg::R16(b / 16), TargetReg::Imm16)),
        0x02 | 0x12 | 0x22 | 0x32 => Some(("LD", TargetReg::R16mem(b / 16), TargetReg::A)),
        0x03 | 0x13 | 0x23 | 0x33 => Some(("INC", TargetReg::R16(b / 16), TargetReg::NoReg)),
        0x04 | 0x0c | 0x14 | 0x1c | 0x24 | 0x2c | 0x34 | 0x3c => Some(
            ("INC", TargetReg::R8(b / 8), TargetReg::NoReg),
        ),
        0x05 | 0x0d | 0x15 | 0x1d | 0x25 | 0x2d | 0x35 | 0x3d => Some(
            ("DEC", TargetReg::R8(b / 8), TargetReg::NoReg),
        ),
        0x06 | 0x0e | 0x16 | 0x1e | 0x26 | 0x2e | 0x36 | 0x3e => Some(
            ("LD", TargetReg::R8(b / 8), TargetReg::Imm8),
        ),
        0x07 => Some(("RLCA", TargetReg::NoReg, TargetReg::NoReg)),
        0x08 => Some(("LD", TargetReg::Imm16, TargetReg::SP)),
        0x09 | 0x19 | 0x29 | 0x39 => Some(("ADD", TargetReg::R16(2), TargetReg::R16(b / 16))),
        0x0a | 0x1a | 0x2a | 0x3a => Some(("LD", TargetReg::A, TargetReg::R16mem(b / 16))),
        0x0b | 0x1b | 0x2b | 0x3b => Some(("DEC", TargetReg::R16(b / 16), TargetReg::NoReg)),
        0x0f => Some(("RRCA", TargetReg::NoReg, TargetReg::NoReg)),
        0x10 => Some(("STOP", TargetReg::NoReg, TargetReg::NoReg)),
        0x17 => Some(("RLA", TargetReg::NoReg, TargetReg::NoReg)),
        0x18 => Some(("JR", TargetReg::Imm8, TargetReg::NoReg)),
        0x1f => Some(("RRA", TargetReg::NoReg, TargetReg::NoReg)),
        0x20 | 0x28 | 0x30 | 0x38 => Some(("JR", TargetReg::Cond(b / 8 % 4), TargetReg::Imm8)),
        0x27 => Some(("DAA", TargetReg::NoReg, TargetReg::NoReg)),
        0x2f => Some(("CPL", TargetReg::NoReg, TargetReg::NoReg)),
        0x37 => Some(("SCF", TargetReg::NoReg, TargetReg::NoReg)),
        0x3f => Some(("CCF", TargetReg::NoReg, TargetReg::NoReg)),
        0x76 => Some(("HALT", TargetReg::NoReg, TargetReg::NoReg)),
        0x40..=0x7f => Some(("LD", TargetReg::R8((b - 0x40) / 8), TargetReg::R8(b % 8))),
        0x80..=0x87 => Some(("ADD", TargetReg::A, TargetReg::R8(b % 8))),
        0x88..=0x8f => Some(("ADC", TargetReg::A, TargetReg::R8(b % 8))),
        0x90..=0x97 => Some(("SUB", TargetReg::A, TargetReg::R8(b % 8))),
        0x98..=0x9f => Some(("SBC", TargetReg::A, TargetReg::R8(b % 8))),
        0xa0..=0xa7 => Some(("AND", TargetReg::A, TargetReg::R8(b % 8))),
        0xa8..=0xaf => Some(("XOR", TargetReg::A, TargetReg::R8(b % 8))),
        0xb0..=0xb7 => Some(("OR", TargetReg::A, TargetReg::R8(b % 8))),
        0xb8..=0xbf => Some(("CP", TargetReg::A, TargetReg::R8(b % 8))),
        0xc0 | 0xc8 | 0xd0 | 0xd8 => Some(("RET", TargetReg::Cond(b / 8 % 4), TargetReg::NoReg)),
        0xc1 | 0xd1 | 0xe1 | 0xf1 => Some(
            ("POP", TargetReg::R16stk((b - 0xc0) / 16), TargetReg::NoReg),
        ),
        0xc2 | 0xca | 0xd2 | 0xda => Some(("JP", TargetReg::Cond(b / 8 % 4), TargetReg::Imm16)),
        0xc3 => Some(("JP", TargetReg::Imm16, TargetReg::NoReg)),
        0xc4 | 0xcc | 0xd4 | 0xdc => Some(("CALL", TargetReg::Cond(b / 8 % 4), TargetReg::Imm16)),
        0xc5 | 0xd5 | 0xe5 | 0xf5 => Some(
            ("PUSH", TargetReg::R16stk((b - 0xc0) / 16), TargetReg::NoReg),
        ),
        0xc6 => Some(("ADD", TargetReg::A, TargetReg::Imm8)),
        0xc7 | 0xcf | 0xd7 | 0xdf | 0xe7 | 0xef | 0xf7 | 0xff => Some(
            ("RST", TargetReg::Tgt3((b - 0xc7) / 8), TargetReg::NoReg),
        ),
        0xc9 => Some(("RET", TargetReg::NoReg, TargetReg::NoReg)),
        0xcb => Some(("PREFIX", TargetReg::NoReg, TargetReg::NoReg)),
        0xcd => Some(("CALL", TargetReg::Imm16, TargetReg::NoReg)),
        0xce => Some(("ADC", TargetReg::A, TargetReg::Imm8)),
        0xd6 => Some(("SUB", TargetReg::A, TargetReg::Imm8)),
        0xd9 => Some(("RETI", TargetReg::NoReg, TargetReg::NoReg)),
        0xde => Some(("SBC", TargetReg::A, TargetReg::Imm8)),
        0xe0 => Some(("LDH", TargetReg::Imm8, TargetReg::A)),
        0xe2 => Some(("LDH", TargetReg::C, TargetReg::A)),
        0xe6 => Some(("AND", TargetReg::A, TargetReg::Imm8)),
        0xe8 => Some(("ADD", TargetReg::SP, TargetReg::Imm8)),
        0xe9 => Some(("JP", TargetReg::NoReg, TargetReg::NoReg)),
        0xea => Some(("LD", TargetReg::Ptr, TargetReg::A)),
        0xee => Some(("XOR", TargetReg::A, TargetReg::Imm8)),
        0xf0 => Some(("LDH", TargetReg::A, TargetReg::Imm8)),
        0xf2 => Some(("LDH", TargetReg::A, TargetReg::C)),
        0xf3 => Some(("DI", TargetReg::NoReg, TargetReg::NoReg)),
        0xf6 => Some(("OR", TargetReg::A, TargetReg::Imm8)),
        0xf8 => Some(("LD", TargetReg::R16(2), TargetReg::Imm8)),
        0xf9 => Some(("LD", TargetReg::SP, TargetReg::R16(2))),
        0xfa => Some(("LD", TargetReg::A, TargetReg::Ptr)),
        0xfb => Some(("EI", TargetReg::NoReg, TargetReg::NoReg)),
        0xfe => Some(("CP", TargetReg::A, TargetReg::Imm8)),
        _ => None,
    };
    match e {
        Some(parts) => {
            let (name, reg1, reg2) = parts;
            let bytes = spec_bytes_exec(b);
            let cycles = spec_base_cycles_exec(b);
            Some(Opcode::new(name, reg1, reg2, bytes, cycles))
        },
        None => None,
    }
}

/// Executable twin of `spec_bytes`, for filling the table records.
fn spec_bytes_exec(b: u8) -> (r: u16)
    ensures
        r == spec_bytes(b),
{
    if !valid_opcode(b) {
        1
    } else if 0x40 <= b && b <= 0xbf {
        1
    } else if b < 0x40 {
        let col = b % 16;
        if col == 1 {
            3
        } else if col == 6 || col == 0xe {
            2
        } else if b == 0x08 {
            3
        } else if b == 0x10 || b == 0x18 || b == 0x20 || b == 0x28 || b == 0x30 || b == 0x38 {
            2
        } else {
            1
        }
    } else {
        let col = b % 16;
        if col == 6 || col == 0xe {
            2
        } else if b == 0xc2 || b == 0xca || b == 0xd2 || b == 0xda || b == 0xc3 || b == 0xc4 || b
            == 0xcc || b == 0xd4 || b == 0xdc || b == 0xcd || b == 0xea || b == 0xfa {
            3
        } else if b == 0xe0 || b == 0xf0 || b == 0xe8 || b == 0xf8 {
            2
        } else {
            1
        }
    }
}

/// Executable twin of `spec_base_cycles`, for filling the table records.
fn spec_base_cycles_exec(b: u8) -> (r: u8)
    ensures
        r == spec_base_cycles(b),
{
    if !valid_opcode(b) {
        1
    } else if 0x40 <= b && b <= 0x7f {
        if b == 0x76 {
            1
        } else if b % 8 == 6 || (0x70 <= b && b <= 0x77) {
            2
        } else {
            1
        }
    } else if 0x80 <= b && b <= 0xbf {
        if b % 8 == 6 {
            2
        } else {
            1
        }
    } else if b < 0x40 {
        let col = b % 16;
        if b == 0x00 {
            1
        } else if col == 1 {
            3
        } else if col == 2 || col == 0xa || col == 3 || col == 0xb || col == 9 {
            2
        } else if b == 0x34 || b == 0x35 || b == 0x36 {
            3
        } else if col == 6 || col == 0xe {
            2
        } else if b == 0x08 {
            5
        } else if b == 0x18 {
            3
        } else if b == 0x20 || b == 0x28 || b == 0x30 || b == 0x38 {
            2
        } else {
            1
        }
    } else {
        let col = b % 16;
        if col == 1 {
            3
        } else if col == 5 || col == 7 || col == 0xf {
            4
        } else if col == 6 || col == 0xe {
            2
        } else if b == 0xc0 || b == 0xc8 || b == 0xd0 || b == 0xd8 {
            2
        } else if b == 0xc2 || b == 0xca || b == 0xd2 || b == 0xda || b == 0xc4 || b == 0xcc || b
            == 0xd4 || b == 0xdc {
            3
        } else if b == 0xc3 {
            4
        } else if b == 0xc9 || b == 0xd9 || b == 0xea || b == 0xfa {
            4
        } else if b == 0xcd {
            6
        } else if b == 0xe0 || b == 0xf0 || b == 0xf8 {
            3
        } else if b == 0xe2 || b == 0xf2 || b == 0xf9 {
            2
        } else if b == 0xe8 {
            4
        } else {
            // 0x10 never reaches here; 0xcb, 0xe9, 0xf3, 0xfb
            1
        }
    }
}

/// Whether a byte is a defined unprefixed opcode.
pub fn valid_opcode(b: u8) -> (r: bool)
    ensures
        r == spec_valid_opcode(b),
{
    b != 0xd3 && b != 0xdb && b != 0xdd && b != 0xe3 && b != 0xe4 && b != 0xeb && b != 0xec && b
        != 0xed && b != 0xf4 && b != 0xfc && b != 0xfd
}

/// The prefixed decode table: defined for every byte.
pub fn prefixed_entry(b: u8) -> (r: Opcode)
    ensures
        r.bytes == 1,
        r.cycles == spec_prefixed_cycles(b),
{
    let cycles: u8 = if b % 8 == 6 {
        if 0x40 <= b && b <= 0x7f {
            2
        } else {
            3
        }
    } else {
        1
    };
    let (name, reg1, reg2): (&'static str, TargetReg, TargetReg) = match b {
        0x00..=0x07 => ("RLC", TargetReg::R8(b % 8), TargetReg::NoReg),
        0x08..=0x0f => ("RRC", TargetReg::R8(b % 8), TargetReg::NoReg),
        0x10..=0x17 => ("RL", TargetReg::R8(b % 8), TargetReg::NoReg),
        0x18..=0x1f => ("RR", TargetReg::R8(b % 8), TargetReg::NoReg),
        0x20..=0x27 => ("SLA", TargetReg::R8(b % 8), TargetReg::NoReg),
        0x28..=0x2f => ("SRA", TargetReg::R8(b % 8), TargetReg::NoReg),
        0x30..=0x37 => ("SWAP", TargetReg::R8(b % 8), TargetReg::NoReg),
        0x38..=0x3f => ("SRL", TargetReg::R8(b % 8), TargetReg::NoReg),
        0x40..=0x7f => ("BIT", TargetReg::B3(b / 8 % 8), TargetReg::R8(b % 8)),
        0x80..=0xbf => ("RES", TargetReg::B3(b / 8 % 8), TargetReg::R8(b % 8)),
        _ => ("SET", TargetReg::B3(b / 8 % 8), TargetReg::R8(b % 8)),
    };
    Opcode::new(name, reg1, reg2, 1, cycles)
}

} // verus!
