use vstd::prelude::*;
use crate::data::{lemma_field_widths, InstructionData};
use crate::error::{AsmError, ErrorKind};
use crate::instruction::Instruction;
use crate::tokenizer::texts;
use crate::literal::{
    field_value,
    parse_condition,
    parse_register,
    read_signed,
    read_unsigned,
    register_of,
    signed_literal,
    unsigned_literal,
    condition_flags,
};

verus! {

/// An error of `kind` at token `p`.
pub open spec fn error_at(kind: ErrorKind, p: int) -> AsmError {
    AsmError { kind, token: p as usize }
}

/// Token `p` as a register.
pub open spec fn reg_at(t: Seq<Seq<char>>, p: int) -> Result<u8, AsmError> {
    match register_of(t[p]) {
        Some(r) => Ok(r),
        None => Err(error_at(ErrorKind::InvalidRegister, p)),
    }
}

/// Token `p` as a signed number in `lo..=hi`.
pub open spec fn signed_at(t: Seq<Seq<char>>, p: int, lo: int, hi: int, out_of_range: ErrorKind) -> Result<
    i64,
    AsmError,
> {
    match field_value(signed_literal(t[p]), lo, hi, out_of_range) {
        Ok(v) => Ok(v),
        Err(k) => Err(error_at(k, p)),
    }
}

/// Token `p` as an unsigned number in `lo..=hi`.
pub open spec fn unsigned_at(t: Seq<Seq<char>>, p: int, lo: int, hi: int) -> Result<i64, AsmError> {
    match field_value(unsigned_literal(t[p]), lo, hi, ErrorKind::OffsetOutOfRange) {
        Ok(v) => Ok(v),
        Err(k) => Err(error_at(k, p)),
    }
}

/// Token `p` as a 9-bit PC-relative offset.
pub open spec fn offset9_at(t: Seq<Seq<char>>, p: int) -> Result<i64, AsmError> {
    signed_at(t, p, -256, 255, ErrorKind::OffsetOutOfRange)
}

/// Token `p` as a 6-bit base-relative offset.
pub open spec fn offset6_at(t: Seq<Seq<char>>, p: int) -> Result<i64, AsmError> {
    signed_at(t, p, -32, 31, ErrorKind::OffsetOutOfRange)
}

/// The operands of `add` (or of `and`, where `is_and`) at tokens `p..p+3`:
/// two registers, then a register or else a 5-bit immediate.
pub open spec fn arith_operands(t: Seq<Seq<char>>, p: int, is_and: bool) -> Result<
    InstructionData,
    AsmError,
> {
    match (reg_at(t, p), reg_at(t, p + 1)) {
        (Err(e), _) => Err(e),
        (Ok(_), Err(e)) => Err(e),
        (Ok(dr), Ok(sr1)) => match reg_at(t, p + 2) {
            Ok(sr2) => Ok(
                if is_and {
                    InstructionData::And { dr, sr1, sr2 }
                } else {
                    InstructionData::Add { dr, sr1, sr2 }
                },
            ),
            Err(_) => match signed_at(t, p + 2, -16, 15, ErrorKind::InvalidImmediate) {
                Err(e) => Err(e),
                Ok(v) => Ok(
                    if is_and {
                        InstructionData::AndImmediate { dr, sr1, imm5: v as i8 }
                    } else {
                        InstructionData::AddImmediate { dr, sr1, imm5: v as i8 }
                    },
                ),
            },
        },
    }
}

/// A register at `p` and a 9-bit offset at `p + 1`, as (register, offset).
pub open spec fn reg_offset9(t: Seq<Seq<char>>, p: int) -> Result<(u8, i16), AsmError> {
    match (reg_at(t, p), offset9_at(t, p + 1)) {
        (Err(e), _) => Err(e),
        (Ok(_), Err(e)) => Err(e),
        (Ok(r), Ok(v)) => Ok((r, v as i16)),
    }
}

/// Two registers at `p`, `p + 1` and a 6-bit offset at `p + 2`.
pub open spec fn regs_offset6(t: Seq<Seq<char>>, p: int) -> Result<(u8, u8, i8), AsmError> {
    match (reg_at(t, p), reg_at(t, p + 1), offset6_at(t, p + 2)) {
        (Err(e), _, _) => Err(e),
        (Ok(_), Err(e), _) => Err(e),
        (Ok(_), Ok(_), Err(e)) => Err(e),
        (Ok(a), Ok(b), Ok(v)) => Ok((a, b, v as i8)),
    }
}

/// The operand record of instruction `i` read from the tokens that start
/// at `p`; the first operand that fails decides the error.
pub open spec fn operands_of(i: Instruction, t: Seq<Seq<char>>, p: int) -> Result<
    InstructionData,
    AsmError,
> {
    match i {
        Instruction::Add => arith_operands(t, p, false),
        Instruction::And => arith_operands(t, p, true),
        Instruction::Branch => match offset9_at(t, p + 1) {
            Ok(v) => Ok(InstructionData::Branch { nzp: condition_flags(t[p]), pc_offset9: v as i16 }),
            Err(e) => Err(e),
        },
        Instruction::Jump => match reg_at(t, p) {
            Ok(r) => Ok(InstructionData::Jump { base_r: r }),
            Err(e) => Err(e),
        },
        Instruction::JumpSubroutine => match signed_at(t, p, -1024, 1023, ErrorKind::OffsetOutOfRange) {
            Ok(v) => Ok(InstructionData::JumpSubroutine { pc_offset11: v as i16 }),
            Err(e) => Err(e),
        },
        Instruction::JumpSubroutineRegister => match reg_at(t, p) {
            Ok(r) => Ok(InstructionData::JumpSubroutineRegister { base_r: r }),
            Err(e) => Err(e),
        },
        Instruction::Load => match reg_offset9(t, p) {
            Ok((dr, v)) => Ok(InstructionData::Load { dr, pc_offset9: v }),
            Err(e) => Err(e),
        },
        Instruction::LoadIndirect => match (reg_at(t, p), unsigned_at(t, p + 1, 0, 511)) {
            (Err(e), _) => Err(e),
            (Ok(_), Err(e)) => Err(e),
            (Ok(dr), Ok(v)) => Ok(InstructionData::LoadIndirect { dr, pc_offset9: v as i16 }),
        },
        Instruction::LoadRegister => match regs_offset6(t, p) {
            Ok((dr, base_r, v)) => Ok(InstructionData::LoadRegister { dr, base_r, offset6: v }),
            Err(e) => Err(e),
        },
        Instruction::LoadEffectiveAddress => match reg_offset9(t, p) {
            Ok((dr, v)) => Ok(InstructionData::LoadEffectiveAddress { dr, pc_offset9: v }),
            Err(e) => Err(e),
        },
        Instruction::Not => match (reg_at(t, p), reg_at(t, p + 1)) {
            (Err(e), _) => Err(e),
            (Ok(_), Err(e)) => Err(e),
            (Ok(dr), Ok(sr)) => Ok(InstructionData::Not { dr, sr }),
        },
        Instruction::Return => Ok(InstructionData::Return),
        Instruction::ReturnInterrupt => Ok(InstructionData::ReturnInterrupt),
        Instruction::Store => match reg_offset9(t, p) {
            Ok((sr, v)) => Ok(InstructionData::Store { sr, pc_offset9: v }),
            Err(e) => Err(e),
        },
        Instruction::StoreIndirect => match reg_offset9(t, p) {
            Ok((sr, v)) => Ok(InstructionData::StoreIndirect { sr, pc_offset9: v }),
            Err(e) => Err(e),
        },
        Instruction::StoreRegister => match regs_offset6(t, p) {
            Ok((sr, base_r, v)) => Ok(InstructionData::StoreRegister { sr, base_r, offset6: v }),
            Err(e) => Err(e),
        },
        Instruction::Trap => match unsigned_at(t, p, 0, 255) {
            Ok(v) => Ok(InstructionData::Trap { trapvect8: v as u8 }),
            Err(e) => Err(e),
        },
    }
}

/// Reads token `p` as a register.
fn reg_token(tokens: &[&str], p: usize) -> (r: Result<u8, AsmError>)
    requires
        p < tokens@.len(),
    ensures
        r == reg_at(texts(tokens@), p as int),
{
    match parse_register(tokens[p]) {
        Ok(reg) => Ok(reg),
        Err(kind) => Err(AsmError { kind, token: p }),
    }
}

/// Reads token `p` as a signed number in `lo..=hi`.
fn signed_token(tokens: &[&str], p: usize, lo: i64, hi: i64, out_of_range: ErrorKind) -> (r: Result<
    i64,
    AsmError,
>)
    requires
        p < tokens@.len(),
    ensures
        r == signed_at(texts(tokens@), p as int, lo as int, hi as int, out_of_range),
{
    match read_signed(tokens[p], lo, hi, out_of_range) {
        Ok(v) => Ok(v),
        Err(kind) => Err(AsmError { kind, token: p }),
    }
}

/// Reads token `p` as an unsigned number in `lo..=hi`.
fn unsigned_token(tokens: &[&str], p: usize, lo: i64, hi: i64) -> (r: Result<i64, AsmError>)
    requires
        p < tokens@.len(),
    ensures
        r == unsigned_at(texts(tokens@), p as int, lo as int, hi as int),
{
    match read_unsigned(tokens[p], lo, hi, ErrorKind::OffsetOutOfRange) {
        Ok(v) => Ok(v),
        Err(kind) => Err(AsmError { kind, token: p }),
    }
}

/// Reads the operands of `add` (or of `and`, where `is_and`).
fn parse_arith(tokens: &[&str], p: usize, is_and: bool) -> (r: Result<InstructionData, AsmError>)
    requires
        p + 3 <= tokens.len(),
    ensures
        r == arith_operands(texts(tokens@), p as int, is_and),
{
    let dr = match reg_token(tokens, p) {
        Ok(v) => v,
        Err(e) => return Err(e),
    };
    let sr1 = match reg_token(tokens, p + 1) {
        Ok(v) => v,
        Err(e) => return Err(e),
    };
    // The third operand is a register where it reads as one, else an immediate.
    if let Ok(sr2) = reg_token(tokens, p + 2) {
        if is_and {
            Ok(InstructionData::And { dr, sr1, sr2 })
        } else {
            Ok(InstructionData::Add { dr, sr1, sr2 })
        }
    } else {
        let imm5 = match signed_token(tokens, p + 2, -16, 15, ErrorKind::InvalidImmediate) {
            Ok(v) => v as i8,
            Err(e) => return Err(e),
        };
        if is_and {
            Ok(InstructionData::AndImmediate { dr, sr1, imm5 })
        } else {
            Ok(InstructionData::AddImmediate { dr, sr1, imm5 })
        }
    }
}

/// Reads a register and a 9-bit offset.
fn parse_reg_offset9(tokens: &[&str], p: usize) -> (r: Result<(u8, i16), AsmError>)
    requires
        p + 2 <= tokens.len(),
    ensures
        r == reg_offset9(texts(tokens@), p as int),
{
    let reg = match reg_token(tokens, p) {
        Ok(v) => v,
        Err(e) => return Err(e),
    };
    match signed_token(tokens, p + 1, -256, 255, ErrorKind::OffsetOutOfRange) {
        Ok(v) => Ok((reg, v as i16)),
        Err(e) => Err(e),
    }
}

/// Reads two registers and a 6-bit offset.
fn parse_regs_offset6(tokens: &[&str], p: usize) -> (r: Result<(u8, u8, i8), AsmError>)
    requires
        p + 3 <= tokens.len(),
    ensures
        r == regs_offset6(texts(tokens@), p as int),
{
    let a = match reg_token(tokens, p) {
        Ok(v) => v,
        Err(e) => return Err(e),
    };
    let b = match reg_token(tokens, p + 1) {
        Ok(v) => v,
        Err(e) => return Err(e),
    };
    match signed_token(tokens, p + 2, -32, 31, ErrorKind::OffsetOutOfRange) {
        Ok(v) => Ok((a, b, v as i8)),
        Err(e) => Err(e),
    }
}

/// Reads the operand record of `instruction` from the tokens that start at
/// `p`. Exactly `instruction.arity()` tokens are read, whatever form the
/// operands take.
pub fn parse_operands(instruction: Instruction, tokens: &[&str], p: usize) -> (r: Result<
    InstructionData,
    AsmError,
>)
    requires
        p + instruction.arity() <= tokens.len(),
    ensures
        r == operands_of(instruction, texts(tokens@), p as int),
{
    match instruction {
        Instruction::Add => parse_arith(tokens, p, false),
        Instruction::And => parse_arith(tokens, p, true),
        Instruction::Branch => {
            let nzp = parse_condition(tokens[p]);
            match signed_token(tokens, p + 1, -256, 255, ErrorKind::OffsetOutOfRange) {
                Ok(v) => Ok(InstructionData::Branch { nzp, pc_offset9: v as i16 }),
                Err(e) => Err(e),
            }
        },
        Instruction::Jump => match reg_token(tokens, p) {
            Ok(r) => Ok(InstructionData::Jump { base_r: r }),
            Err(e) => Err(e),
        },
        Instruction::JumpSubroutine => match signed_token(
            tokens,
            p,
            -1024,
            1023,
            ErrorKind::OffsetOutOfRange,
        ) {
            Ok(v) => Ok(InstructionData::JumpSubroutine { pc_offset11: v as i16 }),
            Err(e) => Err(e),
        },
        Instruction::JumpSubroutineRegister => match reg_token(tokens, p) {
            Ok(r) => Ok(InstructionData::JumpSubroutineRegister { base_r: r }),
            Err(e) => Err(e),
        },
        Instruction::Load => match parse_reg_offset9(tokens, p) {
            Ok((dr, v)) => Ok(InstructionData::Load { dr, pc_offset9: v }),
            Err(e) => Err(e),
        },
        Instruction::LoadIndirect => {
            let dr = match reg_token(tokens, p) {
                Ok(v) => v,
                Err(e) => return Err(e),
            };
            match unsigned_token(tokens, p + 1, 0, 511) {
                Ok(v) => Ok(InstructionData::LoadIndirect { dr, pc_offset9: v as i16 }),
                Err(e) => Err(e),
            }
        },
        Instruction::LoadRegister => match parse_regs_offset6(tokens, p) {
            Ok((dr, base_r, v)) => Ok(InstructionData::LoadRegister { dr, base_r, offset6: v }),
            Err(e) => Err(e),
        },
        Instruction::LoadEffectiveAddress => match parse_reg_offset9(tokens, p) {
            Ok((dr, v)) => Ok(InstructionData::LoadEffectiveAddress { dr, pc_offset9: v }),
            Err(e) => Err(e),
        },
        Instruction::Not => {
            let dr = match reg_token(tokens, p) {
                Ok(v) => v,
                Err(e) => return Err(e),
            };
            match reg_token(tokens, p + 1) {
                Ok(sr) => Ok(InstructionData::Not { dr, sr }),
                Err(e) => Err(e),
            }
        },
        Instruction::Return => Ok(InstructionData::Return),
        Instruction::ReturnInterrupt => Ok(InstructionData::ReturnInterrupt),
        Instruction::Store => match parse_reg_offset9(tokens, p) {
            Ok((sr, v)) => Ok(InstructionData::Store { sr, pc_offset9: v }),
            Err(e) => Err(e),
        },
        Instruction::StoreIndirect => match parse_reg_offset9(tokens, p) {
            Ok((sr, v)) => Ok(InstructionData::StoreIndirect { sr, pc_offset9: v }),
            Err(e) => Err(e),
        },
        Instruction::StoreRegister => match parse_regs_offset6(tokens, p) {
            Ok((sr, base_r, v)) => Ok(InstructionData::StoreRegister { sr, base_r, offset6: v }),
            Err(e) => Err(e),
        },
        Instruction::Trap => match unsigned_token(tokens, p, 0, 255) {
            Ok(v) => Ok(InstructionData::Trap { trapvect8: v as u8 }),
            Err(e) => Err(e),
        },
    }
}

/// What `parse` makes of the tokens from index `p` on: the instruction
/// named at `p` and its operands.
pub open spec fn parse_at(t: Seq<Seq<char>>, p: int) -> Result<(Instruction, InstructionData), AsmError> {
    if p >= t.len() {
        Err(error_at(ErrorKind::NoInstruction, p))
    } else {
        match Instruction::of_keyword(t[p]) {
            None => Err(error_at(ErrorKind::UnknownMnemonic, p)),
            Some(i) => if p + 1 + i.arity() > t.len() {
                Err(error_at(ErrorKind::InsufficientOperands, p))
            } else {
                match operands_of(i, t, p + 1) {
                    Ok(d) => Ok((i, d)),
                    Err(e) => Err(e),
                }
            },
        }
    }
}

/// A successful operand read yields a record of the same instruction whose
/// fields fit their widths.
pub proof fn lemma_operands_wf(i: Instruction, t: Seq<Seq<char>>, p: int)
    requires
        0 <= p,
        p + i.arity() <= t.len(),
    ensures
        operands_of(i, t, p) matches Ok(d) ==> d.wf() && d.instruction() == i,
{
    lemma_field_widths();
}

/// Reads one instruction and its operands from the tokens at `*pos`, and on
/// success moves `*pos` past them; on failure `*pos` is left as it was.
pub fn parse(tokens: &[&str], pos: &mut usize) -> (r: Result<(Instruction, InstructionData), AsmError>)
    ensures
        r == parse_at(texts(tokens@), *old(pos) as int),
        r matches Ok((i, d)) ==> *final(pos) == *old(pos) + 1 + i.arity() && d.wf()
            && d.instruction() == i,
        r is Err ==> *final(pos) == *old(pos),
{
    let p = *pos;
    if p >= tokens.len() {
        return Err(AsmError { kind: ErrorKind::NoInstruction, token: p });
    }
    let instruction = match Instruction::from_keyword(tokens[p]) {
        Some(i) => i,
        None => return Err(AsmError { kind: ErrorKind::UnknownMnemonic, token: p }),
    };
    let n = instruction.num_args();
    if n > tokens.len() - p - 1 {
        return Err(AsmError { kind: ErrorKind::InsufficientOperands, token: p });
    }
    proof {
        lemma_operands_wf(instruction, texts(tokens@), p + 1);
    }
    match parse_operands(instruction, tokens, p + 1) {
        Ok(data) => {
            *pos = p + 1 + n;
            Ok((instruction, data))
        },
        Err(e) => Err(e),
    }
}

} // verus!
