use vstd::prelude::*;

verus! {

/// One instruction of the set, by meaning rather than by opcode: `jmp`,
/// `ret` and `rti` share an opcode but parse and encode differently.
#[derive(Debug, Clone, Copy, PartialEq, Eq, Structural)]
pub enum Instruction {
    Add,
    And,
    Branch,
    Jump,
    JumpSubroutine,
    JumpSubroutineRegister,
    Load,
    LoadIndirect,
    LoadRegister,
    LoadEffectiveAddress,
    Not,
    Return,
    ReturnInterrupt,
    Store,
    StoreIndirect,
    StoreRegister,
    Trap,
}

impl Instruction {
    /// The 4-bit opcode that heads the encoded word. Here `ldi` and `sti`
    /// carry the opcodes of `ld` and `st`, and `rti` that of `jmp`.
    pub open spec fn opcode(self) -> u16 {
        match self {
            Instruction::Add => 0b0001,
            Instruction::And => 0b0101,
            Instruction::Branch => 0b0000,
            Instruction::Jump => 0b1100,
            Instruction::JumpSubroutine => 0b0100,
            Instruction::JumpSubroutineRegister => 0b0100,
            Instruction::Load => 0b0010,
            Instruction::LoadIndirect => 0b0010,
            Instruction::LoadRegister => 0b0110,
            Instruction::LoadEffectiveAddress => 0b1110,
            Instruction::Not => 0b1001,
            Instruction::Return => 0b1100,
            Instruction::ReturnInterrupt => 0b1100,
            Instruction::Store => 0b0011,
            Instruction::StoreIndirect => 0b0011,
            Instruction::StoreRegister => 0b0111,
            Instruction::Trap => 0b1111,
        }
    }

    /// The number of operand tokens that follow the mnemonic.
    pub open spec fn arity(self) -> nat {
        match self {
            Instruction::Add | Instruction::And => 3,
            Instruction::LoadRegister | Instruction::StoreRegister => 3,
            Instruction::Branch | Instruction::Load | Instruction::LoadIndirect => 2,
            Instruction::LoadEffectiveAddress | Instruction::Not => 2,
            Instruction::Store | Instruction::StoreIndirect => 2,
            Instruction::Jump | Instruction::JumpSubroutine => 1,
            Instruction::JumpSubroutineRegister | Instruction::Trap => 1,
            Instruction::Return | Instruction::ReturnInterrupt => 0,
        }
    }

    /// The instruction that a lowercase keyword names, if any.
    pub open spec fn of_keyword(s: Seq<char>) -> Option<Instruction> {
        if s == "add"@ {
            Some(Instruction::Add)
        } else if s == "and"@ {
            Some(Instruction::And)
        } else if s == "br"@ {
            Some(Instruction::Branch)
        } else if s == "jmp"@ {
            Some(Instruction::Jump)
        } else if s == "jsr"@ {
            Some(Instruction::JumpSubroutine)
        } else if s == "jsrr"@ {
            Some(Instruction::JumpSubroutineRegister)
        } else if s == "ld"@ {
            Some(Instruction::Load)
        } else if s == "ldi"@ {
            Some(Instruction::LoadIndirect)
        } else if s == "ldr"@ {
            Some(Instruction::LoadRegister)
        } else if s == "lea"@ {
            Some(Instruction::LoadEffectiveAddress)
        } else if s == "not"@ {
            Some(Instruction::Not)
        } else if s == "ret"@ {
            Some(Instruction::Return)
        } else if s == "rti"@ {
            Some(Instruction::ReturnInterrupt)
        } else if s == "st"@ {
            Some(Instruction::Store)
        } else if s == "sti"@ {
            Some(Instruction::StoreIndirect)
        } else if s == "str"@ {
            Some(Instruction::StoreRegister)
        } else if s == "trap"@ {
            Some(Instruction::Trap)
        } else {
            None
        }
    }

    /// The opcode of this instruction.
    pub fn binary(self) -> (r: u16)
        ensures
            r == self.opcode(),
            r < 16,
    {
        match self {
            Instruction::Add => 0b0001,
            Instruction::And => 0b0101,
            Instruction::Branch => 0b0000,
            Instruction::Jump => 0b1100,
            Instruction::JumpSubroutine => 0b0100,
            Instruction::JumpSubroutineRegister => 0b0100,
            Instruction::Load => 0b0010,
            Instruction::LoadIndirect => 0b0010,
            Instruction::LoadRegister => 0b0110,
            Instruction::LoadEffectiveAddress => 0b1110,
            Instruction::Not => 0b1001,
            Instruction::Return => 0b1100,
            Instruction::ReturnInterrupt => 0b1100,
            Instruction::Store => 0b0011,
            Instruction::StoreIndirect => 0b0011,
            Instruction::StoreRegister => 0b0111,
            Instruction::Trap => 0b1111,
        }
    }

    /// How many operand tokens this instruction takes.
    pub fn num_args(self) -> (r: usize)
        ensures
            r == self.arity(),
            r <= 3,
    {
        match self {
            Instruction::Add | Instruction::And => 3,
            Instruction::LoadRegister | Instruction::StoreRegister => 3,
            Instruction::Branch | Instruction::Load | Instruction::LoadIndirect => 2,
            Instruction::LoadEffectiveAddress | Instruction::Not => 2,
            Instruction::Store | Instruction::StoreIndirect => 2,
            Instruction::Jump | Instruction::JumpSubroutine => 1,
            Instruction::JumpSubroutineRegister | Instruction::Trap => 1,
            Instruction::Return | Instruction::ReturnInterrupt => 0,
        }
    }

    /// Classifies a lowercase keyword; `None` for an unknown one.
    pub fn from_keyword(s: &str) -> (r: Option<Instruction>)
        ensures
            r == Instruction::of_keyword(s@),
    {
        if same_text(s, "add") {
            Some(Instruction::Add)
        } else if same_text(s, "and") {
            Some(Instruction::And)
        } else if same_text(s, "br") {
            Some(Instruction::Branch)
        } else if same_text(s, "jmp") {
            Some(Instruction::Jump)
        } else if same_text(s, "jsr") {
            Some(Instruction::JumpSubroutine)
        } else if same_text(s, "jsrr") {
            Some(Instruction::JumpSubroutineRegister)
        } else if same_text(s, "ld") {
            Some(Instruction::Load)
        } else if same_text(s, "ldi") {
            Some(Instruction::LoadIndirect)
        } else if same_text(s, "ldr") {
            Some(Instruction::LoadRegister)
        } else if same_text(s, "lea") {
            Some(Instruction::LoadEffectiveAddress)
        } else if same_text(s, "not") {
            Some(Instruction::Not)
        } else if same_text(s, "ret") {
            Some(Instruction::Return)
        } else if same_text(s, "rti") {
            Some(Instruction::ReturnInterrupt)
        } else if same_text(s, "st") {
            Some(Instruction::Store)
        } else if same_text(s, "sti") {
            Some(Instruction::StoreIndirect)
        } else if same_text(s, "str") {
            Some(Instruction::StoreRegister)
        } else if same_text(s, "trap") {
            Some(Instruction::Trap)
        } else {
            None
        }
    }
}

/// Whether two texts hold the same characters.
pub fn same_text(a: &str, b: &str) -> (r: bool)
    ensures
        r == (a@ == b@),
{
    let n = a.unicode_len();
    if n != b.unicode_len() {
        return false;
    }
    let mut i: usize = 0;
    while i < n
        invariant
            n == a@.len(),
            n == b@.len(),
            i <= n,
            a@.subrange(0, i as int) == b@.subrange(0, i as int),
        decreases n - i,
    {
        if a.get_char(i) != b.get_char(i) {
            return false;
        }
        assert(a@.subrange(0, i + 1) == a@.subrange(0, i as int).push(a@[i as int]));
        assert(b@.subrange(0, i + 1) == b@.subrange(0, i as int).push(b@[i as int]));
        i += 1;
    }
    assert(a@ == a@.subrange(0, n as int));
    assert(b@ == b@.subrange(0, n as int));
    true
}

} // verus!
