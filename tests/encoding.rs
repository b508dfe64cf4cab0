use lc3_assembler::{
    assemble, assemble_line, assemble_source, assemble_text_line, check_field, encode,
    is_delimiter_char, parse, parse_condition, parse_operands, parse_register, read_signed,
    read_unsigned, tokenize, AsmError, ErrorKind, Instruction, InstructionData, Tokenizer,
};

fn line(text: &str) -> Result<u16, AsmError> {
    assemble_text_line(text)
}

fn err(kind: ErrorKind, token: usize) -> Result<u16, AsmError> {
    Err(AsmError { kind, token })
}

#[test]
fn registers_r0_to_r7_parse() {
    let names = ["r0", "r1", "r2", "r3", "r4", "r5", "r6", "r7"];
    for (i, name) in names.iter().enumerate() {
        assert_eq!(parse_register(name), Ok(i as u8));
    }
    assert_eq!(parse_register("R5"), Ok(5));
}

#[test]
fn malformed_registers_fail() {
    for name in ["r8", "x1", "r", "", "r12", "r-1", "7", "rr"] {
        assert_eq!(parse_register(name), Err(ErrorKind::InvalidRegister), "{name}");
    }
}

#[test]
fn add_register_form_clears_bit_5() {
    let w = line("add r0 r1 r2").unwrap();
    assert_eq!(w, 0x1042);
    assert_eq!(w & (1 << 5), 0);
}

#[test]
fn add_immediate_form_sets_bit_5() {
    let w = line("add r0 r1 5").unwrap();
    assert_eq!(w, 0x1065);
    assert_ne!(w & (1 << 5), 0);
    assert_eq!(w & 0x1f, 0b00101);
}

#[test]
fn add_immediate_out_of_range() {
    assert_eq!(line("add r0 r1 16"), err(ErrorKind::InvalidImmediate, 3));
    assert_eq!(line("add r0 r1 -17"), err(ErrorKind::InvalidImmediate, 3));
    assert_eq!(line("add r0 r1 -16").unwrap() & 0x1f, 0b10000);
    assert_eq!(line("add r0 r1 15").unwrap() & 0x1f, 0b01111);
}

#[test]
fn add_third_operand_not_a_number() {
    assert_eq!(line("add r0 r1 r9"), err(ErrorKind::InvalidImmediate, 3));
    assert_eq!(line("add r0 x1 r2"), err(ErrorKind::InvalidRegister, 2));
}

#[test]
fn branch_flags_all() {
    let w = line("br nzp 10").unwrap();
    assert_eq!(w >> 9, 0b111);
    assert_eq!(w, 0x0e0a);
}

#[test]
fn branch_flags_zero_only() {
    let w = line("br z -1").unwrap();
    assert_eq!((w >> 9) & 0b111, 0b010);
    assert_eq!(w, 0x05ff);
}

#[test]
fn branch_without_condition_letters() {
    // `br` always takes a condition token and an offset.
    assert_eq!(line("br 5"), err(ErrorKind::InsufficientOperands, 0));
    let w = line("br 5 5").unwrap();
    assert_eq!((w >> 9) & 0b111, 0b000);
    assert_eq!(line("br abc 0").unwrap(), 0x0000);
    // Only the letters count: the `z` in `xyz` sets the zero flag.
    assert_eq!(line("br xyz 0").unwrap(), 0x0400);
    assert_eq!(parse_condition("pnz"), 0b111);
    assert_eq!(parse_condition("zzz"), 0b010);
    assert_eq!(parse_condition(""), 0);
}

#[test]
fn jsr_offset_field_limits() {
    assert_eq!(line("jsr 1023").unwrap(), 0x4bff);
    assert_eq!(line("jsr 1023").unwrap() & 0x7ff, 0b011_1111_1111);
    assert_eq!(line("jsr -1024").unwrap() & 0x7ff, 0b100_0000_0000);
    assert_eq!(line("jsr -1").unwrap(), 0x4fff);
}

#[test]
fn jsr_out_of_range_fails() {
    assert_eq!(line("jsr 2048"), err(ErrorKind::OffsetOutOfRange, 1));
    assert_eq!(line("jsr 2047"), err(ErrorKind::OffsetOutOfRange, 1));
    assert_eq!(line("jsr -2048"), err(ErrorKind::OffsetOutOfRange, 1));
    assert_eq!(line("jsr 1024"), err(ErrorKind::OffsetOutOfRange, 1));
    assert_eq!(line("jsr -1025"), err(ErrorKind::OffsetOutOfRange, 1));
}

#[test]
fn ret_and_rti_are_fixed() {
    assert_eq!(line("ret"), Ok(0xc1c0));
    assert_eq!(line("rti"), Ok(0xc000));
    assert_ne!(line("ret"), line("rti"));
}

#[test]
fn ret_and_rti_reject_trailing_tokens() {
    assert_eq!(line("ret r1"), err(ErrorKind::TrailingTokens, 1));
    assert_eq!(line("rti 0"), err(ErrorKind::TrailingTokens, 1));
}

#[test]
fn scenario_add_three_registers() {
    assert_eq!(line("add r1 r2 r3"), Ok(0b0001_001_010_000_011));
}

#[test]
fn scenario_and_immediate_minus_one() {
    assert_eq!(line("and r0 r0 -1"), Ok(0b0101_000_000_1_11111));
}

#[test]
fn scenario_ldr() {
    assert_eq!(line("ldr r3 r4 10"), Ok(0b0110_011_100_001010));
}

#[test]
fn scenario_trap_decimal() {
    let w = line("trap 37").unwrap();
    assert_eq!(w & 0xff, 0b0010_0101);
    assert_eq!(w, 0xf025);
}

#[test]
fn scenario_jmp() {
    assert_eq!(line("jmp r7"), Ok(0b1100_000_111_000000));
}

#[test]
fn scenario_unknown_mnemonic() {
    assert_eq!(line("badop r1 r2"), err(ErrorKind::UnknownMnemonic, 0));
    assert_eq!(
        assemble_source("add r1 r2 r3\nbadop r1 r2\n"),
        Err(AsmError { kind: ErrorKind::UnknownMnemonic, token: 4 })
    );
}

#[test]
fn every_instruction_shape() {
    assert_eq!(line("not r1 r2"), Ok(0x92bf));
    assert_eq!(line("lea r2 -256"), Ok(0xe500));
    assert_eq!(line("lea r2 256"), err(ErrorKind::OffsetOutOfRange, 2));
    assert_eq!(line("ld r0 255"), Ok(0x20ff));
    assert_eq!(line("ldi r0 511"), Ok(0x21ff));
    assert_eq!(line("ldi r0 512"), err(ErrorKind::OffsetOutOfRange, 2));
    assert_eq!(line("ldi r0 -1"), err(ErrorKind::InvalidImmediate, 2));
    assert_eq!(line("st r1 -1"), Ok(0x33ff));
    assert_eq!(line("sti r1 5"), Ok(0x3205));
    assert_eq!(line("str r1 r2 -32"), Ok(0x72a0));
    assert_eq!(line("str r1 r2 32"), err(ErrorKind::OffsetOutOfRange, 3));
    assert_eq!(line("jsrr r3"), Ok(0x40c0));
    assert_eq!(line("trap 255"), Ok(0xf0ff));
    assert_eq!(line("trap 256"), err(ErrorKind::OffsetOutOfRange, 1));
}

#[test]
fn numeric_literal_forms() {
    assert_eq!(line("trap 0x25"), Ok(0xf025));
    assert_eq!(line("add r0 r0 +3"), Ok(0x1023));
    assert_eq!(line("ld r0 12abc"), Ok(0x200c));
    assert_eq!(line("ld r0 abc"), err(ErrorKind::InvalidImmediate, 2));
    assert_eq!(line("ld r0 00000000000000001"), Ok(0x2001));
    assert_eq!(line("ld r0 000000000000000001"), err(ErrorKind::InvalidImmediate, 2));
}

#[test]
fn missing_operands_and_empty_input() {
    assert_eq!(line("add r0 r1"), err(ErrorKind::InsufficientOperands, 0));
    assert_eq!(line(""), err(ErrorKind::NoInstruction, 0));
    assert_eq!(assemble_source("  \n, "), Ok(vec![]));
}

#[test]
fn field_checks() {
    assert_eq!(check_field(Some(16), -16, 15, ErrorKind::InvalidImmediate), Err(ErrorKind::InvalidImmediate));
    assert_eq!(check_field(Some(-16), -16, 15, ErrorKind::InvalidImmediate), Ok(-16));
    assert_eq!(check_field(None, 0, 255, ErrorKind::OffsetOutOfRange), Err(ErrorKind::InvalidImmediate));
    assert_eq!(check_field(Some(300), 0, 255, ErrorKind::OffsetOutOfRange), Err(ErrorKind::OffsetOutOfRange));
    assert_eq!(read_signed("-7", -16, 15, ErrorKind::InvalidImmediate), Ok(-7));
    assert_eq!(read_unsigned("-7", 0, 255, ErrorKind::OffsetOutOfRange), Err(ErrorKind::InvalidImmediate));
    assert_eq!(read_unsigned("0x10", 0, 255, ErrorKind::OffsetOutOfRange), Ok(16));
}

#[test]
fn tokenizer_splits_on_whitespace_and_commas() {
    assert_eq!(tokenize("add r1, r2,r3\n  not\tr0 ,, r1 "), vec!["add", "r1", "r2", "r3", "not", "r0", "r1"]);
    assert_eq!(tokenize(""), Vec::<&str>::new());
    assert_eq!(tokenize(" ,\n"), Vec::<&str>::new());
    assert_eq!(tokenize("a\u{3000}b\u{a0}c"), vec!["a", "b", "c"]);
    assert_eq!(tokenize("é,ü"), vec!["é", "ü"]);
    let mut t = Tokenizer::new("ld r0, 5");
    assert_eq!(t.next(), Some("ld"));
    assert_eq!(t.next(), Some("r0"));
    assert_eq!(t.next(), Some("5"));
    assert_eq!(t.next(), None);
    assert_eq!(t.next(), None);
}

#[test]
fn delimiters_match_std_whitespace() {
    for u in 0u32..0x11_0000 {
        if let Some(c) = char::from_u32(u) {
            assert_eq!(is_delimiter_char(c), c.is_whitespace() || c == ',', "{u:#x}");
        }
    }
}

#[test]
fn stream_keeps_order() {
    let words = assemble_source("add r1 r2 r3\nret\njmp r7\ntrap 37\n").unwrap();
    assert_eq!(words, vec![0x1283, 0xc1c0, 0xc1c0, 0xf025]);
    let tokens = tokenize("not r0 r0 add r0 r0 1");
    assert_eq!(assemble(&tokens), Ok(vec![0x903f, 0x1021]));
}

#[test]
fn parse_moves_cursor() {
    let tokens = tokenize("ldr r3 r4 10 ret");
    let mut pos = 0usize;
    let (i, d) = parse(&tokens, &mut pos).unwrap();
    assert_eq!(i, Instruction::LoadRegister);
    assert_eq!(d, InstructionData::LoadRegister { dr: 3, base_r: 4, offset6: 10 });
    assert_eq!(pos, 4);
    assert_eq!(parse(&tokens, &mut pos), Ok((Instruction::Return, InstructionData::Return)));
    assert_eq!(pos, 5);
    assert_eq!(parse(&tokens, &mut pos), Err(AsmError { kind: ErrorKind::NoInstruction, token: 5 }));
    assert_eq!(pos, 5);
    let bad = tokenize("add r0 r9 1");
    let mut p = 0usize;
    assert!(parse(&bad, &mut p).is_err());
    assert_eq!(p, 0);
}

#[test]
fn operands_and_encoding() {
    let tokens = tokenize("r1 r2 -3");
    assert_eq!(
        parse_operands(Instruction::And, &tokens, 0),
        Ok(InstructionData::AndImmediate { dr: 1, sr1: 2, imm5: -3 })
    );
    assert_eq!(encode(Instruction::And, InstructionData::AndImmediate { dr: 1, sr1: 2, imm5: -3 }), 0x52bd);
    assert_eq!(Instruction::Trap.binary(), 0b1111);
    assert_eq!(Instruction::Add.num_args(), 3);
    assert_eq!(Instruction::from_keyword("jsrr"), Some(Instruction::JumpSubroutineRegister));
    assert_eq!(Instruction::from_keyword("ADD"), None);
    assert_eq!(InstructionData::Trap { trapvect8: 0x25 }.binary(), 0x25);
    assert_eq!(assemble_line(&tokenize("jmp r2")), Ok(0xc080));
    assert_eq!(ErrorKind::UnknownMnemonic.message(), "unknown mnemonic");
}
