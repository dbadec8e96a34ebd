//! Numbers as text: decimal and hexadecimal digits out, decimal digits in.
use vstd::prelude::*;

verus! {

/// The decimal digit of a number below ten.
pub open spec fn digit_char(d: nat) -> char {
    (('0' as nat) + d) as char
}

/// A number in decimal digits, without leading zeros.
pub open spec fn decimal(n: nat) -> Seq<char>
    decreases n,
{
    if n < 10 {
        seq![digit_char(n)]
    } else {
        decimal(n / 10).push(digit_char(n % 10))
    }
}

/// The upper-case hexadecimal digit of a number below sixteen.
pub open spec fn hex_char(d: nat) -> char {
    if d < 10 {
        digit_char(d)
    } else {
        (('A' as nat) + d - 10) as char
    }
}

/// The last `width` upper-case hexadecimal digits of a number.
pub open spec fn hexadecimal(n: nat, width: nat) -> Seq<char>
    decreases width,
{
    if width == 0 {
        Seq::empty()
    } else {
        hexadecimal(n / 16, (width - 1) as nat).push(hex_char(n % 16))
    }
}

/// Why a text is not a number of 32 bits.
#[derive(Debug, Clone, Copy, PartialEq, Eq, Structural)]
pub enum ParseIntError {
    /// There is no character at all.
    Empty,
    /// A character that is no decimal digit stands where a digit should.
    InvalidDigit,
    /// The digits read so far are already too many for 32 bits.
    PosOverflow,
}

/// Whether a character is a decimal digit.
pub open spec fn is_digit(c: char) -> bool {
    '0' <= c <= '9'
}

/// The number that a decimal digit stands for.
pub open spec fn digit_value(c: char) -> nat {
    (c as nat - '0' as nat) as nat
}

/// The number that `value` becomes when the digits of `s` are written behind it. The first
/// character that is no digit, or that takes the number past 32 bits, decides the error.
pub open spec fn read_digits(value: nat, s: Seq<char>) -> Result<nat, ParseIntError>
    decreases s.len(),
{
    if s.len() == 0 {
        Ok(value)
    } else if !is_digit(s[0]) {
        Err(ParseIntError::InvalidDigit)
    } else if value * 10 + digit_value(s[0]) > u32::MAX {
        Err(ParseIntError::PosOverflow)
    } else {
        read_digits(value * 10 + digit_value(s[0]), s.skip(1))
    }
}

/// The number of 32 bits that a text holds: decimal digits, at least one, behind an optional `+`.
pub open spec fn parsed_u32(s: Seq<char>) -> Result<nat, ParseIntError> {
    if s.len() == 0 {
        Err(ParseIntError::Empty)
    } else if s[0] == '+' && s.len() > 1 {
        read_digits(0, s.skip(1))
    } else {
        read_digits(0, s)
    }
}

/// A result of 32 bits, seen as a natural number.
pub open spec fn number_view(result: Result<u32, ParseIntError>) -> Result<nat, ParseIntError> {
    match result {
        Ok(value) => Ok(value as nat),
        Err(error) => Err(error),
    }
}

impl ParseIntError {
    /// What the error says.
    pub open spec fn message(self) -> Seq<char> {
        match self {
            ParseIntError::Empty => "cannot parse integer from empty string"@,
            ParseIntError::InvalidDigit => "invalid digit found in string"@,
            ParseIntError::PosOverflow => "number too large to fit in target type"@,
        }
    }

    /// What the error says.
    pub fn text(self) -> (text: &'static str)
        ensures
            text@ == self.message(),
    {
        match self {
            ParseIntError::Empty => "cannot parse integer from empty string",
            ParseIntError::InvalidDigit => "invalid digit found in string",
            ParseIntError::PosOverflow => "number too large to fit in target type",
        }
    }
}

/// Writes a number in decimal digits behind a text.
pub fn push_decimal(text: &mut String, n: u128)
    ensures
        final(text)@ == old(text)@ + decimal(n as nat),
    decreases n,
{
    if n >= 10 {
        push_decimal(text, n / 10);
    }
    let digit: u8 = 48 + (n % 10) as u8;
    text.push(digit as char);
    assert(text@ =~= old(text)@ + decimal(n as nat));
}

/// Writes the last `width` hexadecimal digits of a number behind a text.
pub fn push_hexadecimal(text: &mut String, n: u32, width: u32)
    ensures
        final(text)@ == old(text)@ + hexadecimal(n as nat, width as nat),
    decreases width,
{
    if width > 0 {
        push_hexadecimal(text, n / 16, width - 1);
        let digit: u8 = (n % 16) as u8;
        let code: u8 = if digit < 10 {
            48 + digit
        } else {
            55 + digit
        };
        text.push(code as char);
    }
    assert(text@ =~= old(text)@ + hexadecimal(n as nat, width as nat));
}

/// Reads a text as a number of 32 bits.
pub fn parse_u32(text: &str) -> (result: Result<u32, ParseIntError>)
    ensures
        number_view(result) == parsed_u32(text@),
{
    let chars = crate::text::characters(text);
    let total: usize = chars.len();
    if total == 0 {
        return Err(ParseIntError::Empty);
    }
    let mut i: usize = 0;
    if chars[0] == '+' && total > 1 {
        i = 1;
    }
    let mut value: u32 = 0;
    assert(chars@.skip(0) == text@);
    while i < total
        invariant
            i <= total,
            total == chars@.len(),
            read_digits(value as nat, chars@.skip(i as int)) == parsed_u32(text@),
        decreases total - i,
    {
        let c: char = chars[i];
        if c < '0' || '9' < c {
            return Err(ParseIntError::InvalidDigit);
        }
        let next: u64 = value as u64 * 10 + (c as u32 - 48) as u64;
        if next > 0xffff_ffff {
            return Err(ParseIntError::PosOverflow);
        }
        assert(chars@.skip(i as int).skip(1) =~= chars@.skip(i + 1));
        value = next as u32;
        i = i + 1;
    }
    Ok(value)
}

proof fn lemma_read_digits_push(value: nat, s: Seq<char>, c: char)
    requires
        is_digit(c),
    ensures
        read_digits(value, s.push(c)) == (match read_digits(value, s) {
            Ok(v) => if v * 10 + digit_value(c) > u32::MAX {
                Err(ParseIntError::PosOverflow)
            } else {
                Ok(v * 10 + digit_value(c))
            },
            Err(e) => Err(e),
        }),
    decreases s.len(),
{
    reveal_with_fuel(read_digits, 2);
    if s.len() == 0 {
        assert(s.push(c).skip(1) =~= Seq::<char>::empty());
    } else {
        assert(s.push(c).skip(1) =~= s.skip(1).push(c));
        if is_digit(s[0]) && value * 10 + digit_value(s[0]) <= u32::MAX {
            lemma_read_digits_push(value * 10 + digit_value(s[0]), s.skip(1), c);
        }
    }
}

proof fn lemma_read_decimal(n: nat)
    requires
        n <= u32::MAX,
    ensures
        read_digits(0, decimal(n)) == Ok::<nat, ParseIntError>(n),
        decimal(n).len() > 0,
        decimal(n)[0] != '+',
    decreases n,
{
    reveal_with_fuel(read_digits, 2);
    if n < 10 {
        assert(decimal(n).skip(1) =~= Seq::<char>::empty());
    } else {
        lemma_read_decimal(n / 10);
        lemma_read_digits_push(0, decimal(n / 10), digit_char(n % 10));
    }
}

/// A number of 32 bits that is written in decimal digits is read back unchanged.
pub proof fn law_decimal_is_read_back(n: nat)
    requires
        n <= u32::MAX,
    ensures
        parsed_u32(decimal(n)) == Ok::<nat, ParseIntError>(n),
{
    lemma_read_decimal(n);
}

} // verus!
