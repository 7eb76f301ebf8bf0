use vstd::prelude::*;

use crate::machine::CPU;

verus! {

/// The four 4-bit fields of an instruction word, high nibble first, with the
/// wider fields that address and immediate operands use.
#[derive(Clone, Copy, Debug, PartialEq, Eq, Structural)]
pub struct Fields {
    /// Opcode family (bits 12..16).
    pub c: u8,
    /// First register operand (bits 8..12).
    pub x: u8,
    /// Second register operand (bits 4..8).
    pub y: u8,
    /// Family-specific discriminator (bits 0..4).
    pub d: u8,
    /// Low twelve bits, an address.
    pub nnn: u16,
    /// Low eight bits, an immediate byte.
    pub kk: u8,
}

/// The fields of `op`, by division and remainder.
pub open spec fn fields_of(op: u16) -> Fields {
    Fields {
        c: (op as int / 4096) as u8,
        x: ((op as int / 256) % 16) as u8,
        y: ((op as int / 16) % 16) as u8,
        d: (op as int % 16) as u8,
        nnn: (op as int % 4096) as u16,
        kk: (op as int % 256) as u8,
    }
}

/// The masks and shifts that pick the fields out of a word agree with
/// division and remainder, and the nibbles put back together give the word.
pub proof fn lemma_masks_match_arithmetic(op: u16)
    by (bit_vector)
    ensures
        (op & 0xF000) >> 12 == op / 4096,
        (op & 0x0F00) >> 8 == (op / 256) % 16,
        (op & 0x00F0) >> 4 == (op / 16) % 16,
        op & 0x000F == op % 16,
        op & 0x0FFF == op % 4096,
        op & 0x00FF == op % 256,
        op == (op / 4096) * 4096 + ((op / 256) % 16) * 256 + ((op / 16) % 16) * 16 + op % 16,
{
}

/// Splits an instruction word into its nibbles and derived fields.
pub fn decode(op: u16) -> (f: Fields)
    ensures
        f == fields_of(op),
        f.c == (op & 0xF000) >> 12,
        f.x == (op & 0x0F00) >> 8,
        f.y == (op & 0x00F0) >> 4,
        f.d == op & 0x000F,
        f.nnn == op & 0x0FFF,
        f.kk == op & 0x00FF,
        op == f.c * 4096 + f.x * 256 + f.y * 16 + f.d,
{
    proof {
        lemma_masks_match_arithmetic(op);
    }
    let (c, x, y, d) = CPU::decoding_opcode(op);
    let nnn = op & 0x0FFF;
    let kk = (op & 0x00FF) as u8;
    Fields { c, x, y, d, nnn, kk }
}

/// An instruction that the machine can execute, with its operands.
#[derive(Clone, Copy, Debug, PartialEq, Eq, Structural)]
pub enum Instruction {
    /// `0000`: stop the machine.
    Halt,
    /// `00EE`: return from a subroutine.
    Return,
    /// `2nnn`: call the subroutine at `nnn`.
    Call { addr: u16 },
    /// `8xy4`: add register `y` into register `x`, carry into the flag register.
    AddXY { x: u8, y: u8 },
}

/// The instruction that `op` encodes, or `None` where no handler matches it.
pub open spec fn instruction_of(op: u16) -> Option<Instruction> {
    let f = fields_of(op);
    if f.c == 0 && f.x == 0 && f.y == 0 && f.d == 0 {
        Some(Instruction::Halt)
    } else if f.c == 0 && f.x == 0 && f.y == 0xE && f.d == 0xE {
        Some(Instruction::Return)
    } else if f.c == 2 {
        Some(Instruction::Call { addr: f.nnn })
    } else if f.c == 8 && f.d == 4 {
        Some(Instruction::AddXY { x: f.x, y: f.y })
    } else {
        None
    }
}

/// Decodes an instruction word and matches its nibbles against the known
/// instruction patterns.
pub fn decode_instruction(op: u16) -> (r: Option<Instruction>)
    ensures
        r == instruction_of(op),
{
    let f = decode(op);
    match (f.c, f.x, f.y, f.d) {
        (0, 0, 0, 0) => Some(Instruction::Halt),
        (0, 0, 0xE, 0xE) => Some(Instruction::Return),
        (0x2, _, _, _) => Some(Instruction::Call { addr: f.nnn }),
        (0x8, _, _, 0x4) => Some(Instruction::AddXY { x: f.x, y: f.y }),
        _ => None,
    }
}

} // verus!
