use vstd::prelude::*;
use crate::assembler::{line_word, word};
use crate::data::InstructionData;
use crate::error::{AsmError, ErrorKind};
use crate::instruction::Instruction;
use crate::literal::{register_of, signed_literal, unsigned_literal};
use crate::parser::{error_at, lemma_operands_wf, operands_of};

verus! {

/// A numeric token that reads as a number in `lo..=hi`.
pub open spec fn number_in(lit: Option<i64>, lo: int, hi: int) -> bool {
    lit matches Some(v) && lo <= v <= hi
}

/// Whether token `s` is well formed as operand `k` of instruction `i`.
pub open spec fn operand_ok(i: Instruction, k: int, s: Seq<char>) -> bool {
    let reg = register_of(s) is Some;
    let signed = |lo: int, hi: int| number_in(signed_literal(s), lo, hi);
    match i {
        Instruction::Add | Instruction::And => if k < 2 {
            reg
        } else {
            reg || signed(-16, 15)
        },
        Instruction::Branch => k == 0 || signed(-256, 255),
        Instruction::Load | Instruction::LoadEffectiveAddress | Instruction::Store
        | Instruction::StoreIndirect => if k == 0 {
            reg
        } else {
            signed(-256, 255)
        },
        Instruction::LoadIndirect => if k == 0 {
            reg
        } else {
            number_in(unsigned_literal(s), 0, 511)
        },
        Instruction::LoadRegister | Instruction::StoreRegister => if k < 2 {
            reg
        } else {
            signed(-32, 31)
        },
        Instruction::JumpSubroutine => signed(-1024, 1023),
        Instruction::Jump | Instruction::JumpSubroutineRegister | Instruction::Not => reg,
        Instruction::Trap => number_in(unsigned_literal(s), 0, 255),
        Instruction::Return | Instruction::ReturnInterrupt => true,
    }
}

/// Every operand of `i` in the tokens from `p` on is well formed.
pub open spec fn operands_valid(i: Instruction, t: Seq<Seq<char>>, p: int) -> bool {
    forall|k: int| 0 <= k < i.arity() ==> operand_ok(i, k, #[trigger] t[p + k])
}

/// Well-formed operands always parse, into a record of the same
/// instruction whose fields fit their widths.
pub proof fn lemma_valid_operands_parse(i: Instruction, t: Seq<Seq<char>>, p: int)
    requires
        0 <= p,
        p + i.arity() <= t.len(),
        operands_valid(i, t, p),
    ensures
        operands_of(i, t, p) is Ok,
        operands_of(i, t, p)->Ok_0.wf(),
        operands_of(i, t, p)->Ok_0.instruction() == i,
{
    if i.arity() > 0 {
        assert(operand_ok(i, 0, t[p + 0]));
    }
    if i.arity() > 1 {
        assert(operand_ok(i, 1, t[p + 1]));
    }
    if i.arity() > 2 {
        assert(operand_ok(i, 2, t[p + 2]));
    }
    lemma_operands_wf(i, t, p);
}

/// A line that holds a mnemonic and exactly as many well-formed operands as
/// it takes always encodes, and its word is determined by the instruction
/// and its operand tokens: the word of the parsed record.
pub proof fn lemma_valid_line_encodes(t: Seq<Seq<char>>, i: Instruction)
    requires
        t.len() == 1 + i.arity(),
        Instruction::of_keyword(t[0]) == Some(i),
        operands_valid(i, t, 1),
    ensures
        line_word(t) == Ok::<u16, AsmError>(word(i, operands_of(i, t, 1)->Ok_0)),
{
    lemma_valid_operands_parse(i, t, 1);
}

/// `ret` and `rti` take no operands and encode to two distinct constant
/// words; on a line, any token after them is an error.
pub proof fn lemma_fixed_forms(t: Seq<Seq<char>>)
    requires
        t.len() >= 1,
        t[0] == "ret"@ || t[0] == "rti"@,
    ensures
        t.len() == 1 && t[0] == "ret"@ ==> line_word(t) == Ok::<u16, AsmError>(
            0xc1c0,
        ),
        t.len() == 1 && t[0] == "rti"@ ==> line_word(t) == Ok::<u16, AsmError>(
            0xc000,
        ),
        t.len() > 1 ==> line_word(t) == Err::<u16, AsmError>(
            error_at(ErrorKind::TrailingTokens, 1),
        ),
{
    reveal_strlit("add");
    reveal_strlit("and");
    reveal_strlit("br");
    reveal_strlit("jmp");
    reveal_strlit("jsr");
    reveal_strlit("jsrr");
    reveal_strlit("ld");
    reveal_strlit("ldi");
    reveal_strlit("ldr");
    reveal_strlit("lea");
    reveal_strlit("not");
    reveal_strlit("ret");
    reveal_strlit("rti");
    // Each earlier keyword differs from both in its first letter.
    assert("add"@[0] != 'r' && "and"@[0] != 'r' && "br"@[0] != 'r' && "jmp"@[0] != 'r');
    assert("jsr"@[0] != 'r' && "jsrr"@[0] != 'r' && "ld"@[0] != 'r' && "ldi"@[0] != 'r');
    assert("ldr"@[0] != 'r' && "lea"@[0] != 'r' && "not"@[0] != 'r');
    assert("ret"@[0] == 'r' && "rti"@[0] == 'r' && "ret"@[1] != "rti"@[1]);
    assert(word(Instruction::Return, InstructionData::Return) == 0xc1c0);
}

} // verus!
