use vstd::prelude::*;
use crate::instruction::Instruction;

verus! {

/// The operands of one instruction, one variant per operand shape.
///
/// Registers are indices in `0..8`; offsets and immediates are signed
/// values that fit their field; see [`InstructionData::wf`].
#[derive(Debug, Clone, Copy, PartialEq, Eq, Structural)]
pub enum InstructionData {
    Add { dr: u8, sr1: u8, sr2: u8 },
    AddImmediate { dr: u8, sr1: u8, imm5: i8 },
    And { dr: u8, sr1: u8, sr2: u8 },
    AndImmediate { dr: u8, sr1: u8, imm5: i8 },
    Branch { nzp: u8, pc_offset9: i16 },
    Jump { base_r: u8 },
    JumpSubroutine { pc_offset11: i16 },
    JumpSubroutineRegister { base_r: u8 },
    Load { dr: u8, pc_offset9: i16 },
    LoadIndirect { dr: u8, pc_offset9: i16 },
    LoadRegister { dr: u8, base_r: u8, offset6: i8 },
    LoadEffectiveAddress { dr: u8, pc_offset9: i16 },
    Not { dr: u8, sr: u8 },
    Return,
    ReturnInterrupt,
    Store { sr: u8, pc_offset9: i16 },
    StoreIndirect { sr: u8, pc_offset9: i16 },
    StoreRegister { sr: u8, base_r: u8, offset6: i8 },
    Trap { trapvect8: u8 },
}

/// A register index: three bits.
pub open spec fn is_reg(r: u8) -> bool {
    r < 8
}

/// A value that fits a signed field of `bits` bits in two's complement.
pub open spec fn fits_signed(v: int, bits: nat) -> bool {
    bits >= 1 && -pow2_of(bits) <= 2 * v < pow2_of(bits)
}

/// Two to the power `bits`.
pub open spec fn pow2_of(bits: nat) -> int
    decreases bits,
{
    if bits == 0 {
        1
    } else {
        2 * pow2_of((bits - 1) as nat)
    }
}

/// The powers of two of the field widths in use.
pub proof fn lemma_field_widths()
    ensures
        pow2_of(3) == 8,
        pow2_of(5) == 32,
        pow2_of(6) == 64,
        pow2_of(8) == 256,
        pow2_of(9) == 512,
        pow2_of(11) == 2048,
{
    reveal_with_fuel(pow2_of, 12);
}

impl InstructionData {
    /// Every field fits the width that the encoding gives it.
    pub open spec fn wf(self) -> bool {
        match self {
            InstructionData::Add { dr, sr1, sr2 } => is_reg(dr) && is_reg(sr1) && is_reg(sr2),
            InstructionData::AddImmediate { dr, sr1, imm5 } => is_reg(dr) && is_reg(sr1)
                && fits_signed(imm5 as int, 5),
            InstructionData::And { dr, sr1, sr2 } => is_reg(dr) && is_reg(sr1) && is_reg(sr2),
            InstructionData::AndImmediate { dr, sr1, imm5 } => is_reg(dr) && is_reg(sr1)
                && fits_signed(imm5 as int, 5),
            InstructionData::Branch { nzp, pc_offset9 } => nzp < 8 && fits_signed(
                pc_offset9 as int,
                9,
            ),
            InstructionData::Jump { base_r } => is_reg(base_r),
            InstructionData::JumpSubroutine { pc_offset11 } => fits_signed(pc_offset11 as int, 11),
            InstructionData::JumpSubroutineRegister { base_r } => is_reg(base_r),
            InstructionData::Load { dr, pc_offset9 } => is_reg(dr) && fits_signed(
                pc_offset9 as int,
                9,
            ),
            InstructionData::LoadIndirect { dr, pc_offset9 } => is_reg(dr) && 0 <= pc_offset9 < 512,
            InstructionData::LoadRegister { dr, base_r, offset6 } => is_reg(dr) && is_reg(base_r)
                && fits_signed(offset6 as int, 6),
            InstructionData::LoadEffectiveAddress { dr, pc_offset9 } => is_reg(dr) && fits_signed(
                pc_offset9 as int,
                9,
            ),
            InstructionData::Not { dr, sr } => is_reg(dr) && is_reg(sr),
            InstructionData::Return => true,
            InstructionData::ReturnInterrupt => true,
            InstructionData::Store { sr, pc_offset9 } => is_reg(sr) && fits_signed(
                pc_offset9 as int,
                9,
            ),
            InstructionData::StoreIndirect { sr, pc_offset9 } => is_reg(sr) && fits_signed(
                pc_offset9 as int,
                9,
            ),
            InstructionData::StoreRegister { sr, base_r, offset6 } => is_reg(sr) && is_reg(base_r)
                && fits_signed(offset6 as int, 6),
            InstructionData::Trap { trapvect8 } => true,
        }
    }

    /// The instruction whose operands these are.
    pub open spec fn instruction(self) -> Instruction {
        match self {
            InstructionData::Add { .. } | InstructionData::AddImmediate { .. } => Instruction::Add,
            InstructionData::And { .. } | InstructionData::AndImmediate { .. } => Instruction::And,
            InstructionData::Branch { .. } => Instruction::Branch,
            InstructionData::Jump { .. } => Instruction::Jump,
            InstructionData::JumpSubroutine { .. } => Instruction::JumpSubroutine,
            InstructionData::JumpSubroutineRegister { .. } => Instruction::JumpSubroutineRegister,
            InstructionData::Load { .. } => Instruction::Load,
            InstructionData::LoadIndirect { .. } => Instruction::LoadIndirect,
            InstructionData::LoadRegister { .. } => Instruction::LoadRegister,
            InstructionData::LoadEffectiveAddress { .. } => Instruction::LoadEffectiveAddress,
            InstructionData::Not { .. } => Instruction::Not,
            InstructionData::Return => Instruction::Return,
            InstructionData::ReturnInterrupt => Instruction::ReturnInterrupt,
            InstructionData::Store { .. } => Instruction::Store,
            InstructionData::StoreIndirect { .. } => Instruction::StoreIndirect,
            InstructionData::StoreRegister { .. } => Instruction::StoreRegister,
            InstructionData::Trap { .. } => Instruction::Trap,
        }
    }

    /// The low 12 bits of the encoded word, as a number. A signed field
    /// holds its value modulo two to its width (two's complement).
    pub open spec fn payload(self) -> int {
        match self {
            InstructionData::Add { dr, sr1, sr2 } => dr * 512 + sr1 * 64 + sr2,
            InstructionData::AddImmediate { dr, sr1, imm5 } => dr * 512 + sr1 * 64 + 32 + imm5 % 32,
            InstructionData::And { dr, sr1, sr2 } => dr * 512 + sr1 * 64 + sr2,
            InstructionData::AndImmediate { dr, sr1, imm5 } => dr * 512 + sr1 * 64 + 32 + imm5 % 32,
            InstructionData::Branch { nzp, pc_offset9 } => nzp * 512 + pc_offset9 % 512,
            InstructionData::Jump { base_r } => base_r * 64,
            InstructionData::JumpSubroutine { pc_offset11 } => 2048 + pc_offset11 % 2048,
            InstructionData::JumpSubroutineRegister { base_r } => base_r * 64,
            InstructionData::Load { dr, pc_offset9 } => dr * 512 + pc_offset9 % 512,
            InstructionData::LoadIndirect { dr, pc_offset9 } => dr * 512 + pc_offset9 % 512,
            InstructionData::LoadRegister { dr, base_r, offset6 } => dr * 512 + base_r * 64
                + offset6 % 64,
            InstructionData::LoadEffectiveAddress { dr, pc_offset9 } => dr * 512 + pc_offset9 % 512,
            InstructionData::Not { dr, sr } => dr * 512 + sr * 64 + 63,
            InstructionData::Return => 448int,
            InstructionData::ReturnInterrupt => 0int,
            InstructionData::Store { sr, pc_offset9 } => sr * 512 + pc_offset9 % 512,
            InstructionData::StoreIndirect { sr, pc_offset9 } => sr * 512 + pc_offset9 % 512,
            InstructionData::StoreRegister { sr, base_r, offset6 } => sr * 512 + base_r * 64
                + offset6 % 64,
            InstructionData::Trap { trapvect8 } => trapvect8 as int,
        }
    }

    /// The low 12 bits of the encoded word.
    pub fn binary(self) -> (r: u16)
        requires
            self.wf(),
        ensures
            r == self.payload(),
            r < 4096,
    {
        proof {
            lemma_field_widths();
        }
        match self {
            InstructionData::Add { dr, sr1, sr2 } => pack_regs(dr, sr1, sr2 as u16),
            InstructionData::AddImmediate { dr, sr1, imm5 } => pack_regs(
                dr,
                sr1,
                imm_field(imm5),
            ),
            InstructionData::And { dr, sr1, sr2 } => pack_regs(dr, sr1, sr2 as u16),
            InstructionData::AndImmediate { dr, sr1, imm5 } => pack_regs(
                dr,
                sr1,
                imm_field(imm5),
            ),
            InstructionData::Branch { nzp, pc_offset9 } => pack_reg(nzp, field9(pc_offset9)),
            InstructionData::Jump { base_r } => pack_regs(0, base_r, 0),
            InstructionData::JumpSubroutine { pc_offset11 } => {
                let low = field11(pc_offset11);
                proof {
                    lemma_set_bit_11(low);
                }
                2048 | low
            },
            InstructionData::JumpSubroutineRegister { base_r } => pack_regs(0, base_r, 0),
            InstructionData::Load { dr, pc_offset9 } => pack_reg(dr, field9(pc_offset9)),
            InstructionData::LoadIndirect { dr, pc_offset9 } => pack_reg(
                dr,
                field9(pc_offset9),
            ),
            InstructionData::LoadRegister { dr, base_r, offset6 } => pack_regs(
                dr,
                base_r,
                field6(offset6),
            ),
            InstructionData::LoadEffectiveAddress { dr, pc_offset9 } => pack_reg(
                dr,
                field9(pc_offset9),
            ),
            InstructionData::Not { dr, sr } => pack_regs(dr, sr, 0b111111),
            InstructionData::Return => 0b000111000000,
            InstructionData::ReturnInterrupt => 0b000000000000,
            InstructionData::Store { sr, pc_offset9 } => pack_reg(sr, field9(pc_offset9)),
            InstructionData::StoreIndirect { sr, pc_offset9 } => pack_reg(
                sr,
                field9(pc_offset9),
            ),
            InstructionData::StoreRegister { sr, base_r, offset6 } => pack_regs(
                sr,
                base_r,
                field6(offset6),
            ),
            InstructionData::Trap { trapvect8 } => trapvect8 as u16,
        }
    }
}

/// Two registers in bits 11..9 and 8..6, and a 6-bit field below them.
fn pack_regs(a: u8, b: u8, low: u16) -> (r: u16)
    requires
        a < 8,
        b < 8,
        low < 64,
    ensures
        r == a * 512 + b * 64 + low,
{
    let a16 = a as u16;
    let b16 = b as u16;
    assert((a16 << 9u16) | (b16 << 6u16) | low == a16 * 512 + b16 * 64 + low) by (bit_vector)
        requires
            a16 < 8,
            b16 < 8,
            low < 64,
    ;
    (a16 << 9u16) | (b16 << 6u16) | low
}

/// A 3-bit field in bits 11..9 and a 9-bit field below it.
fn pack_reg(a: u8, low: u16) -> (r: u16)
    requires
        a < 8,
        low < 512,
    ensures
        r == a * 512 + low,
{
    let a16 = a as u16;
    assert((a16 << 9u16) | low == a16 * 512 + low) by (bit_vector)
        requires
            a16 < 8,
            low < 512,
    ;
    (a16 << 9u16) | low
}

/// The low 5 bits of `v` in two's complement.
fn field5(v: i8) -> (r: u16)
    requires
        -32 <= v < 32,
    ensures
        r == v % 32,
        r < 32,
{
    if v >= 0 {
        assert((v as u16) & 31u16 == v as u16) by (bit_vector)
            requires
                0 <= v < 32,
        ;
    } else {
        assert((v as u16) & 31u16 == (v + 32) as u16) by (bit_vector)
            requires
                -32 <= v < 0,
        ;
    }
    (v as u16) & 31u16
}

/// The low 6 bits of `v` in two's complement.
fn field6(v: i8) -> (r: u16)
    requires
        -64 <= v < 64,
    ensures
        r == v % 64,
        r < 64,
{
    if v >= 0 {
        assert((v as u16) & 63u16 == v as u16) by (bit_vector)
            requires
                0 <= v < 64,
        ;
    } else {
        assert((v as u16) & 63u16 == (v + 64) as u16) by (bit_vector)
            requires
                -64 <= v < 0,
        ;
    }
    (v as u16) & 63u16
}

/// The low 9 bits of `v` in two's complement.
fn field9(v: i16) -> (r: u16)
    requires
        -512 <= v < 512,
    ensures
        r == v % 512,
        r < 512,
{
    if v >= 0 {
        assert((v as u16) & 511u16 == v as u16) by (bit_vector)
            requires
                0 <= v < 512,
        ;
    } else {
        assert((v as u16) & 511u16 == (v + 512) as u16) by (bit_vector)
            requires
                -512 <= v < 0,
        ;
    }
    (v as u16) & 511u16
}

/// The low 11 bits of `v` in two's complement.
fn field11(v: i16) -> (r: u16)
    requires
        -2048 <= v < 2048,
    ensures
        r == v % 2048,
        r < 2048,
{
    if v >= 0 {
        assert((v as u16) & 2047u16 == v as u16) by (bit_vector)
            requires
                0 <= v < 2048,
        ;
    } else {
        assert((v as u16) & 2047u16 == (v + 2048) as u16) by (bit_vector)
            requires
                -2048 <= v < 0,
        ;
    }
    (v as u16) & 2047u16
}

/// The immediate-mode flag in bit 5 and a 5-bit immediate below it.
fn imm_field(v: i8) -> (r: u16)
    requires
        -16 <= v < 16,
    ensures
        r == 32 + v % 32,
        r < 64,
{
    let low = field5(v);
    assert(32u16 | low == 32 + low) by (bit_vector)
        requires
            low < 32,
    ;
    32u16 | low
}

proof fn lemma_set_bit_11(low: u16)
    requires
        low < 2048,
    ensures
        2048 | low == 2048 + low,
{
    assert(2048 | low == 2048 + low) by (bit_vector)
        requires
            low < 2048,
    ;
}

} // verus!
