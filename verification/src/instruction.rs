//! The instruction set and its decode table.
//!
//! An opcode is one 16-bit word. Its highest four bits select a category; the
//! other twelve hold, depending on the category, two register numbers `x` and
//! `y`, a four-bit count `n`, an eight-bit immediate `nn` or a twelve-bit
//! address `nnn`.

use vstd::prelude::*;
use crate::layout::REGISTERS_QUANTITY;

verus! {

/// One decoded instruction. The comment of each variant gives its opcode in
/// hexadecimal digits.
#[derive(Clone, Copy, Debug, PartialEq, Eq, Structural)]
pub enum Instruction {
    /// `00E0`: switch every pixel off.
    ClearScreen,
    /// `00EE`: return from a subroutine.
    Return,
    /// `1nnn`: jump to `addr`.
    Jump { addr: u16 },
    /// `2nnn`: call the subroutine at `addr`.
    Call { addr: u16 },
    /// `3xnn`: skip the next instruction if register `x` equals `nn`.
    SkipEqualImmediate { x: usize, nn: u8 },
    /// `4xnn`: skip the next instruction if register `x` differs from `nn`.
    SkipNotEqualImmediate { x: usize, nn: u8 },
    /// `5xy0`: skip the next instruction if registers `x` and `y` are equal.
    SkipEqual { x: usize, y: usize },
    /// `6xnn`: register `x` becomes `nn`.
    LoadImmediate { x: usize, nn: u8 },
    /// `7xnn`: add `nn` to register `x`, wrapping, without touching the flag.
    AddImmediate { x: usize, nn: u8 },
    /// `8xy0`: register `x` becomes register `y`.
    Assign { x: usize, y: usize },
    /// `8xy1`: register `x` becomes `x | y`.
    Or { x: usize, y: usize },
    /// `8xy2`: register `x` becomes `x & y`.
    And { x: usize, y: usize },
    /// `8xy3`: register `x` becomes `x ^ y`.
    Xor { x: usize, y: usize },
    /// `8xy4`: register `x` becomes `x + y`, wrapping; the flag tells whether
    /// the sum exceeded eight bits.
    AddCarry { x: usize, y: usize },
    /// `8xy5`: register `x` becomes `x - y`, wrapping; the flag is 1 unless a
    /// borrow occurred.
    SubtractBorrow { x: usize, y: usize },
    /// `8xy6`: register `x` is shifted right by one; the flag gets the bit
    /// shifted out.
    ShiftRight { x: usize, y: usize },
    /// `8xy7`: register `x` becomes `y - x`, wrapping; the flag is 1 unless a
    /// borrow occurred.
    SubtractBorrowReversed { x: usize, y: usize },
    /// `8xyE`: register `x` is shifted left by one; the flag gets the bit
    /// shifted out.
    ShiftLeft { x: usize, y: usize },
    /// `9xy0`: skip the next instruction if registers `x` and `y` differ.
    SkipNotEqual { x: usize, y: usize },
    /// `Annn`: the address register becomes `addr`.
    LoadAddress { addr: u16 },
    /// `Bnnn`: jump to `addr` plus register 0.
    JumpOffset { addr: u16 },
    /// `Cxnn`: register `x` becomes the next pseudo-random byte, masked by `nn`.
    Random { x: usize, nn: u8 },
    /// `Dxyn`: draw the `n`-row sprite at the address register, at column
    /// register `x` and row register `y`; the flag tells whether a pixel was
    /// switched off.
    Draw { x: usize, y: usize, n: u8 },
    /// `Ex9E`: skip the next instruction if the key named by register `x` is down.
    SkipKeyPressed { x: usize },
    /// `ExA1`: skip the next instruction unless the key named by register `x` is down.
    SkipKeyNotPressed { x: usize },
    /// `Fx07`: register `x` becomes the delay timer.
    LoadDelayTimer { x: usize },
    /// `Fx0A`: wait for a key; register `x` becomes its number.
    WaitKey { x: usize },
    /// `Fx15`: the delay timer becomes register `x`.
    SetDelayTimer { x: usize },
    /// `Fx18`: the sound timer becomes register `x`.
    SetSoundTimer { x: usize },
    /// `Fx1E`: add register `x` to the address register, wrapping at 16 bits.
    AddAddress { x: usize },
    /// `Fx29`: the address register becomes the address of the glyph for the
    /// low four bits of register `x`.
    FontAddress { x: usize },
    /// `Fx33`: store the three decimal digits of register `x` at the address register.
    StoreDecimal { x: usize },
    /// `Fx55`: store registers 0 to `x` at the address register.
    StoreRegisters { x: usize },
    /// `Fx65`: load registers 0 to `x` from the address register.
    LoadRegisters { x: usize },
}

/// The category of an opcode: its highest four bits.
pub open spec fn category(op: u16) -> u8 {
    (op / 0x1000) as u8
}

/// The first register number of an opcode: bits 8 to 11.
pub open spec fn operand_x(op: u16) -> usize {
    ((op / 0x100) % 0x10) as usize
}

/// The second register number of an opcode: bits 4 to 7.
pub open spec fn operand_y(op: u16) -> usize {
    ((op / 0x10) % 0x10) as usize
}

/// The lowest four bits of an opcode.
pub open spec fn operand_n(op: u16) -> u8 {
    (op % 0x10) as u8
}

/// The low byte of an opcode.
pub open spec fn operand_nn(op: u16) -> u8 {
    (op % 0x100) as u8
}

/// The lowest twelve bits of an opcode.
pub open spec fn operand_nnn(op: u16) -> u16 {
    op % 0x1000
}

/// The decode table: the instruction that an opcode stands for, or `None`
/// where it stands for none.
pub open spec fn spec_decode(op: u16) -> Option<Instruction> {
    let x: usize = operand_x(op);
    let y: usize = operand_y(op);
    let n: u8 = operand_n(op);
    let nn: u8 = operand_nn(op);
    let addr: u16 = operand_nnn(op);
    match category(op) {
        0x0 => if op == 0x00E0 {
            Some(Instruction::ClearScreen)
        } else if op == 0x00EE {
            Some(Instruction::Return)
        } else {
            None
        },
        0x1 => Some(Instruction::Jump { addr }),
        0x2 => Some(Instruction::Call { addr }),
        0x3 => Some(Instruction::SkipEqualImmediate { x, nn }),
        0x4 => Some(Instruction::SkipNotEqualImmediate { x, nn }),
        0x5 => if n == 0 {
            Some(Instruction::SkipEqual { x, y })
        } else {
            None
        },
        0x6 => Some(Instruction::LoadImmediate { x, nn }),
        0x7 => Some(Instruction::AddImmediate { x, nn }),
        0x8 => match n {
            0x0 => Some(Instruction::Assign { x, y }),
            0x1 => Some(Instruction::Or { x, y }),
            0x2 => Some(Instruction::And { x, y }),
            0x3 => Some(Instruction::Xor { x, y }),
            0x4 => Some(Instruction::AddCarry { x, y }),
            0x5 => Some(Instruction::SubtractBorrow { x, y }),
            0x6 => Some(Instruction::ShiftRight { x, y }),
            0x7 => Some(Instruction::SubtractBorrowReversed { x, y }),
            0xE => Some(Instruction::ShiftLeft { x, y }),
            _ => None,
        },
        0x9 => if n == 0 {
            Some(Instruction::SkipNotEqual { x, y })
        } else {
            None
        },
        0xA => Some(Instruction::LoadAddress { addr }),
        0xB => Some(Instruction::JumpOffset { addr }),
        0xC => Some(Instruction::Random { x, nn }),
        0xD => Some(Instruction::Draw { x, y, n }),
        0xE => match nn {
            0x9E => Some(Instruction::SkipKeyPressed { x }),
            0xA1 => Some(Instruction::SkipKeyNotPressed { x }),
            _ => None,
        },
        _ => match nn {
            0x07 => Some(Instruction::LoadDelayTimer { x }),
            0x0A => Some(Instruction::WaitKey { x }),
            0x15 => Some(Instruction::SetDelayTimer { x }),
            0x18 => Some(Instruction::SetSoundTimer { x }),
            0x1E => Some(Instruction::AddAddress { x }),
            0x29 => Some(Instruction::FontAddress { x }),
            0x33 => Some(Instruction::StoreDecimal { x }),
            0x55 => Some(Instruction::StoreRegisters { x }),
            0x65 => Some(Instruction::LoadRegisters { x }),
            _ => None,
        },
    }
}

impl Instruction {
    /// The first register that the instruction names, if it names one.
    pub open spec fn first_register(self) -> Option<usize> {
        match self {
            Instruction::ClearScreen
            | Instruction::Return
            | Instruction::Jump { .. }
            | Instruction::Call { .. }
            | Instruction::LoadAddress { .. }
            | Instruction::JumpOffset { .. } => None,
            Instruction::SkipEqualImmediate { x, .. }
            | Instruction::SkipNotEqualImmediate { x, .. }
            | Instruction::SkipEqual { x, .. }
            | Instruction::LoadImmediate { x, .. }
            | Instruction::AddImmediate { x, .. }
            | Instruction::Assign { x, .. }
            | Instruction::Or { x, .. }
            | Instruction::And { x, .. }
            | Instruction::Xor { x, .. }
            | Instruction::AddCarry { x, .. }
            | Instruction::SubtractBorrow { x, .. }
            | Instruction::ShiftRight { x, .. }
            | Instruction::SubtractBorrowReversed { x, .. }
            | Instruction::ShiftLeft { x, .. }
            | Instruction::SkipNotEqual { x, .. }
            | Instruction::Random { x, .. }
            | Instruction::Draw { x, .. }
            | Instruction::SkipKeyPressed { x }
            | Instruction::SkipKeyNotPressed { x }
            | Instruction::LoadDelayTimer { x }
            | Instruction::WaitKey { x }
            | Instruction::SetDelayTimer { x }
            | Instruction::SetSoundTimer { x }
            | Instruction::AddAddress { x }
            | Instruction::FontAddress { x }
            | Instruction::StoreDecimal { x }
            | Instruction::StoreRegisters { x }
            | Instruction::LoadRegisters { x } => Some(x),
        }
    }

    /// The second register that the instruction names, if it names two.
    pub open spec fn second_register(self) -> Option<usize> {
        match self {
            Instruction::SkipEqual { y, .. }
            | Instruction::Assign { y, .. }
            | Instruction::Or { y, .. }
            | Instruction::And { y, .. }
            | Instruction::Xor { y, .. }
            | Instruction::AddCarry { y, .. }
            | Instruction::SubtractBorrow { y, .. }
            | Instruction::ShiftRight { y, .. }
            | Instruction::SubtractBorrowReversed { y, .. }
            | Instruction::ShiftLeft { y, .. }
            | Instruction::SkipNotEqual { y, .. }
            | Instruction::Draw { y, .. } => Some(y),
            _ => None,
        }
    }

    /// Whether the instruction is one of the six skip instructions.
    pub open spec fn is_skip(self) -> bool {
        match self {
            Instruction::SkipEqualImmediate { .. }
            | Instruction::SkipNotEqualImmediate { .. }
            | Instruction::SkipEqual { .. }
            | Instruction::SkipNotEqual { .. }
            | Instruction::SkipKeyPressed { .. }
            | Instruction::SkipKeyNotPressed { .. } => true,
            _ => false,
        }
    }

    /// Whether the instruction is one that an opcode can stand for: the
    /// registers it names exist, and a sprite has fewer than sixteen rows.
    pub open spec fn wf(self) -> bool {
        &&& self.first_register() matches Some(x) ==> x < REGISTERS_QUANTITY
        &&& self.second_register() matches Some(y) ==> y < REGISTERS_QUANTITY
        &&& self matches Instruction::Draw { n, .. } ==> n < 16
    }
}

/// Every instruction that the decode table yields is well formed.
pub proof fn lemma_decode_wf(op: u16)
    ensures
        spec_decode(op) matches Some(inst) ==> inst.wf(),
{
}

/// The operands of an opcode, in the order `x`, `y`, `n`, `nn`, `nnn`.
pub fn extract_instruction_parameters(op: u16) -> (fields: (usize, usize, u8, u8, u16))
    ensures
        fields.0 == operand_x(op),
        fields.1 == operand_y(op),
        fields.2 == operand_n(op),
        fields.3 == operand_nn(op),
        fields.4 == operand_nnn(op),
{
    let x: usize = ((op & 0x0F00) >> 8) as usize;
    let y: usize = ((op & 0x00F0) >> 4) as usize;
    let n: u8 = (op & 0x000F) as u8;
    let nn: u8 = (op & 0x00FF) as u8;
    let nnn: u16 = op & 0x0FFF;
    proof {
        assert((op & 0x0F00) >> 8 == (op / 0x100) % 0x10) by (bit_vector);
        assert((op & 0x00F0) >> 4 == (op / 0x10) % 0x10) by (bit_vector);
        assert(op & 0x000F == op % 0x10) by (bit_vector);
        assert(op & 0x00FF == op % 0x100) by (bit_vector);
        assert(op & 0x0FFF == op % 0x1000) by (bit_vector);
    }
    (x, y, n, nn, nnn)
}

/// Decodes an opcode by the decode table.
pub fn decode(op: u16) -> (decoded: Option<Instruction>)
    ensures
        decoded == spec_decode(op),
        decoded matches Some(inst) ==> inst.wf(),
{
    let (x, y, n, nn, addr) = extract_instruction_parameters(op);
    let group: u8 = (op >> 12) as u8;
    proof {
        assert(op >> 12 == op / 0x1000) by (bit_vector);
    }
    match group {
        0x0 => if op == 0x00E0 {
            Some(Instruction::ClearScreen)
        } else if op == 0x00EE {
            Some(Instruction::Return)
        } else {
            None
        },
        0x1 => Some(Instruction::Jump { addr }),
        0x2 => Some(Instruction::Call { addr }),
        0x3 => Some(Instruction::SkipEqualImmediate { x, nn }),
        0x4 => Some(Instruction::SkipNotEqualImmediate { x, nn }),
        0x5 => if n == 0 {
            Some(Instruction::SkipEqual { x, y })
        } else {
            None
        },
        0x6 => Some(Instruction::LoadImmediate { x, nn }),
        0x7 => Some(Instruction::AddImmediate { x, nn }),
        0x8 => match n {
            0x0 => Some(Instruction::Assign { x, y }),
            0x1 => Some(Instruction::Or { x, y }),
            0x2 => Some(Instruction::And { x, y }),
            0x3 => Some(Instruction::Xor { x, y }),
            0x4 => Some(Instruction::AddCarry { x, y }),
            0x5 => Some(Instruction::SubtractBorrow { x, y }),
            0x6 => Some(Instruction::ShiftRight { x, y }),
            0x7 => Some(Instruction::SubtractBorrowReversed { x, y }),
            0xE => Some(Instruction::ShiftLeft { x, y }),
            _ => None,
        },
        0x9 => if n == 0 {
            Some(Instruction::SkipNotEqual { x, y })
        } else {
            None
        },
        0xA => Some(Instruction::LoadAddress { addr }),
        0xB => Some(Instruction::JumpOffset { addr }),
        0xC => Some(Instruction::Random { x, nn }),
        0xD => Some(Instruction::Draw { x, y, n }),
        0xE => match nn {
            0x9E => Some(Instruction::SkipKeyPressed { x }),
            0xA1 => Some(Instruction::SkipKeyNotPressed { x }),
            _ => None,
        },
        _ => match nn {
            0x07 => Some(Instruction::LoadDelayTimer { x }),
            0x0A => Some(Instruction::WaitKey { x }),
            0x15 => Some(Instruction::SetDelayTimer { x }),
            0x18 => Some(Instruction::SetSoundTimer { x }),
            0x1E => Some(Instruction::AddAddress { x }),
            0x29 => Some(Instruction::FontAddress { x }),
            0x33 => Some(Instruction::StoreDecimal { x }),
            0x55 => Some(Instruction::StoreRegisters { x }),
            0x65 => Some(Instruction::LoadRegisters { x }),
            _ => None,
        },
    }
}

} // verus!
