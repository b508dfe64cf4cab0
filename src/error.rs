use vstd::prelude::*;

verus! {

/// Why a token stream could not be encoded.
#[derive(Debug, Clone, Copy, PartialEq, Eq, Structural)]
pub enum ErrorKind {
    /// An instruction was expected and the stream had ended.
    NoInstruction,
    /// The token in mnemonic position names no instruction.
    UnknownMnemonic,
    /// Fewer tokens remain than the instruction takes operands.
    InsufficientOperands,
    /// A register operand is not `r` or `R` followed by one digit in `0..8`.
    InvalidRegister,
    /// A numeric operand is not a number, or an immediate does not fit
    /// its five bits.
    InvalidImmediate,
    /// An offset or a trap vector does not fit its field.
    OffsetOutOfRange,
    /// A line holds tokens after its one instruction.
    TrailingTokens,
}

/// A failure, with the index of the token it concerns in the stream (for
/// a missing instruction or missing operands, where the stream ended or
/// the instruction began).
#[derive(Debug, Clone, Copy, PartialEq, Eq, Structural)]
pub struct AsmError {
    pub kind: ErrorKind,
    pub token: usize,
}

impl ErrorKind {
    /// A short description of the failure, for diagnostics.
    pub fn message(self) -> (r: &'static str) {
        match self {
            ErrorKind::NoInstruction => "no instruction",
            ErrorKind::UnknownMnemonic => "unknown mnemonic",
            ErrorKind::InsufficientOperands => "too few operands",
            ErrorKind::InvalidRegister => "invalid register",
            ErrorKind::InvalidImmediate => "invalid immediate",
            ErrorKind::OffsetOutOfRange => "value out of range",
            ErrorKind::TrailingTokens => "unexpected tokens after the instruction",
        }
    }
}

} // verus!
