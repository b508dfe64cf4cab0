use vstd::prelude::*;
use crate::data::InstructionData;
use crate::error::{AsmError, ErrorKind};
use crate::instruction::Instruction;
use crate::parser::{error_at, parse, parse_at};
use crate::tokenizer::{texts, tokenize, tokens_of};

verus! {

/// The 16-bit word of an instruction: the opcode in the top four bits and
/// the operand fields below.
pub open spec fn word(i: Instruction, d: InstructionData) -> u16 {
    (i.opcode() * 4096 + d.payload()) as u16
}

/// Packs an instruction and its operands into one word.
pub fn encode(instruction: Instruction, data: InstructionData) -> (r: u16)
    requires
        data.wf(),
    ensures
        r == word(instruction, data),
        r == instruction.opcode() * 4096 + data.payload(),
{
    let op = instruction.binary();
    let low = data.binary();
    assert((op << 12u16) | low == op * 4096 + low) by (bit_vector)
        requires
            op < 16,
            low < 4096,
    ;
    (op << 12u16) | low
}

/// The words of the tokens from index `p` on, one per instruction, in
/// order; the first failure ends the run.
pub open spec fn assemble_from(t: Seq<Seq<char>>, p: int) -> Result<Seq<u16>, AsmError>
    decreases t.len() - p,
{
    if p >= t.len() {
        Ok(seq![])
    } else {
        match parse_at(t, p) {
            Err(e) => Err(e),
            Ok((i, d)) => match assemble_from(t, p + 1 + i.arity()) {
                Ok(ws) => Ok(seq![word(i, d)] + ws),
                Err(e) => Err(e),
            },
        }
    }
}

/// The word of a line that must hold exactly one instruction.
pub open spec fn line_word(t: Seq<Seq<char>>) -> Result<u16, AsmError> {
    match parse_at(t, 0) {
        Err(e) => Err(e),
        Ok((i, d)) => if 1 + i.arity() < t.len() {
            Err(error_at(ErrorKind::TrailingTokens, (1 + i.arity()) as int))
        } else {
            Ok(word(i, d))
        },
    }
}

/// Encodes a whole token stream, one word per instruction.
pub fn assemble(tokens: &[&str]) -> (r: Result<Vec<u16>, AsmError>)
    ensures
        match r {
            Ok(ws) => assemble_from(texts(tokens@), 0) == Ok::<Seq<u16>, AsmError>(ws@),
            Err(e) => assemble_from(texts(tokens@), 0) == Err::<Seq<u16>, AsmError>(e),
        },
{
    let ghost t = texts(tokens@);
    let mut words: Vec<u16> = Vec::new();
    let mut pos: usize = 0;
    while pos < tokens.len()
        invariant
            t == texts(tokens@),
            assemble_from(t, 0) == match assemble_from(t, pos as int) {
                Ok(ws) => Ok(words@ + ws),
                Err(e) => Err(e),
            },
        decreases tokens@.len() - pos,
    {
        let ghost before = words@;
        let ghost p0 = pos as int;
        match parse(tokens, &mut pos) {
            Ok((instruction, data)) => {
                let w = encode(instruction, data);
                words.push(w);
                proof {
                    match assemble_from(t, pos as int) {
                        Ok(ws) => {
                            assert(before + (seq![w] + ws) =~= words@ + ws);
                        },
                        Err(e) => {},
                    }
                }
            },
            Err(e) => {
                return Err(e);
            },
        }
    }
    assert(words@ + seq![] =~= words@);
    Ok(words)
}

/// Encodes a line that must hold exactly one instruction.
pub fn assemble_line(tokens: &[&str]) -> (r: Result<u16, AsmError>)
    ensures
        r == line_word(texts(tokens@)),
{
    let mut pos: usize = 0;
    match parse(tokens, &mut pos) {
        Ok((instruction, data)) => {
            if pos < tokens.len() {
                Err(AsmError { kind: ErrorKind::TrailingTokens, token: pos })
            } else {
                Ok(encode(instruction, data))
            }
        },
        Err(e) => Err(e),
    }
}

/// Splits a text into tokens and encodes them all.
pub fn assemble_source(text: &str) -> (r: Result<Vec<u16>, AsmError>)
    ensures
        match r {
            Ok(ws) => assemble_from(tokens_of(text@), 0) == Ok::<Seq<u16>, AsmError>(ws@),
            Err(e) => assemble_from(tokens_of(text@), 0) == Err::<Seq<u16>, AsmError>(e),
        },
{
    let tokens = tokenize(text);
    assemble(tokens.as_slice())
}

/// Splits one line into tokens and encodes its one instruction.
pub fn assemble_text_line(line: &str) -> (r: Result<u16, AsmError>)
    ensures
        r == line_word(tokens_of(line@)),
{
    let tokens = tokenize(line);
    assemble_line(tokens.as_slice())
}

} // verus!
