//! An encoder from LC-3 assembly text to 16-bit instruction words.
//!
//! The pipeline is: split the text into tokens, classify each mnemonic,
//! parse its operands into a validated record, and pack that record into
//! a word. Every step is stated as a contract over mathematical models and
//! proved.

pub mod instruction;
pub mod data;
pub mod error;
pub mod literal;
pub mod parser;
pub mod tokenizer;
pub mod assembler;
pub mod laws;

pub use assembler::{assemble, assemble_line, assemble_source, assemble_text_line, encode};
pub use data::InstructionData;
pub use error::{AsmError, ErrorKind};
pub use instruction::Instruction;
pub use literal::{check_field, parse_condition, parse_register, read_signed, read_unsigned};
pub use parser::{parse, parse_operands};
pub use tokenizer::{is_delimiter_char, tokenize, Tokenizer};
