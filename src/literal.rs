use vstd::prelude::*;
use crate::error::ErrorKind;

verus! {

/// The longest numeric token that is read: with at most this many
/// characters a decimal or `0x` hexadecimal number stays below 2^60, so
/// reading it into an `i64` cannot overflow. Longer tokens are rejected.
pub const MAX_LITERAL_LEN: usize = 17;

/// What `num_parse::parse_int::<i64>` reads from a text.
pub uninterp spec fn int_prefix_of(s: Seq<char>) -> Option<i64>;

/// What `num_parse::parse_uint::<i64>` reads from a text.
pub uninterp spec fn uint_prefix_of(s: Seq<char>) -> Option<i64>;

/// Relies on `num_parse::parse_int`: it skips leading whitespace, takes an
/// optional sign, then reads a decimal (or `0x` hexadecimal) number and
/// ignores what follows; `None` where no digit comes. It panics only when
/// the number overflows, which a text of `MAX_LITERAL_LEN` characters
/// cannot do in an `i64`.
#[verifier::external_body]
fn parse_int_prefix(s: &str) -> (r: Option<i64>)
    requires
        s@.len() <= MAX_LITERAL_LEN,
    ensures
        r == int_prefix_of(s@),
{
    num_parse::parse_int::<i64>(s)
}

/// Relies on `num_parse::parse_uint`: as `parse_int`, without a minus sign.
#[verifier::external_body]
fn parse_uint_prefix(s: &str) -> (r: Option<i64>)
    requires
        s@.len() <= MAX_LITERAL_LEN,
    ensures
        r == uint_prefix_of(s@),
{
    num_parse::parse_uint::<i64>(s)
}

/// The signed number a token reads as, if any.
pub open spec fn signed_literal(s: Seq<char>) -> Option<i64> {
    if s.len() <= MAX_LITERAL_LEN {
        int_prefix_of(s)
    } else {
        None
    }
}

/// The unsigned number a token reads as, if any.
pub open spec fn unsigned_literal(s: Seq<char>) -> Option<i64> {
    if s.len() <= MAX_LITERAL_LEN {
        uint_prefix_of(s)
    } else {
        None
    }
}

/// The value of a field read as `lit`, which must lie in `lo..=hi`.
/// No number is `InvalidImmediate`; a number out of range is `out_of_range`.
pub open spec fn field_value(lit: Option<i64>, lo: int, hi: int, out_of_range: ErrorKind) -> Result<
    i64,
    ErrorKind,
> {
    match lit {
        None => Err(ErrorKind::InvalidImmediate),
        Some(v) => if lo <= v <= hi {
            Ok(v)
        } else {
            Err(out_of_range)
        },
    }
}

/// Checks a number read from a token against its field's range.
pub fn check_field(lit: Option<i64>, lo: i64, hi: i64, out_of_range: ErrorKind) -> (r: Result<
    i64,
    ErrorKind,
>)
    ensures
        r == field_value(lit, lo as int, hi as int, out_of_range),
{
    match lit {
        None => Err(ErrorKind::InvalidImmediate),
        Some(v) => if lo <= v && v <= hi {
            Ok(v)
        } else {
            Err(out_of_range)
        },
    }
}

/// Reads a signed number for a field with range `lo..=hi`.
pub fn read_signed(tok: &str, lo: i64, hi: i64, out_of_range: ErrorKind) -> (r: Result<
    i64,
    ErrorKind,
>)
    ensures
        r == field_value(signed_literal(tok@), lo as int, hi as int, out_of_range),
{
    let lit = if tok.unicode_len() <= MAX_LITERAL_LEN {
        parse_int_prefix(tok)
    } else {
        None
    };
    check_field(lit, lo, hi, out_of_range)
}

/// Reads an unsigned number for a field with range `lo..=hi`.
pub fn read_unsigned(tok: &str, lo: i64, hi: i64, out_of_range: ErrorKind) -> (r: Result<
    i64,
    ErrorKind,
>)
    ensures
        r == field_value(unsigned_literal(tok@), lo as int, hi as int, out_of_range),
{
    let lit = if tok.unicode_len() <= MAX_LITERAL_LEN {
        parse_uint_prefix(tok)
    } else {
        None
    };
    check_field(lit, lo, hi, out_of_range)
}

/// The register a token names: exactly `r` or `R` and one digit `0..=7`.
pub open spec fn register_of(s: Seq<char>) -> Option<u8> {
    if s.len() == 2 && (s[0] == 'r' || s[0] == 'R') && 48 <= (s[1] as u32) <= 55 {
        Some(((s[1] as u32) - 48) as u8)
    } else {
        None
    }
}

/// Parses a register operand.
pub fn parse_register(s: &str) -> (r: Result<u8, ErrorKind>)
    ensures
        r == match register_of(s@) {
            Some(reg) => Ok(reg),
            None => Err(ErrorKind::InvalidRegister),
        },
        r matches Ok(reg) ==> reg < 8,
{
    if s.unicode_len() != 2 {
        return Err(ErrorKind::InvalidRegister);
    }
    let first = s.get_char(0);
    if first != 'r' && first != 'R' {
        return Err(ErrorKind::InvalidRegister);
    }
    let digit = s.get_char(1) as u32;
    if 48 <= digit && digit <= 55 {
        Ok((digit - 48) as u8)
    } else {
        Err(ErrorKind::InvalidRegister)
    }
}

/// The condition mask of a branch: `n`, `z` and `p` anywhere in the token
/// set bits 2, 1 and 0; any other character is ignored.
pub open spec fn condition_flags(s: Seq<char>) -> u8 {
    ((if s.contains('n') {
        4int
    } else {
        0
    }) + (if s.contains('z') {
        2int
    } else {
        0
    }) + (if s.contains('p') {
        1int
    } else {
        0
    })) as u8
}

/// Whether a text holds a character.
pub fn has_char(s: &str, c: char) -> (r: bool)
    ensures
        r == s@.contains(c),
{
    let n = s.unicode_len();
    let mut i: usize = 0;
    while i < n
        invariant
            n == s@.len(),
            i <= n,
            forall|k: int| 0 <= k < i ==> s@[k] != c,
        decreases n - i,
    {
        if s.get_char(i) == c {
            return true;
        }
        i += 1;
    }
    false
}

/// Reads the condition mask of a branch; never fails.
pub fn parse_condition(s: &str) -> (r: u8)
    ensures
        r == condition_flags(s@),
        r < 8,
{
    let mut nzp: u8 = 0;
    if has_char(s, 'n') {
        nzp = nzp + 4;
    }
    if has_char(s, 'z') {
        nzp = nzp + 2;
    }
    if has_char(s, 'p') {
        nzp = nzp + 1;
    }
    nzp
}

} // verus!
