//! Laws of numbers that are written and read.
use vstd::prelude::*;
use vstd::arithmetic::div_mod::lemma_div_denominator;
use vstd::arithmetic::power::{lemma_pow0, lemma_pow1, lemma_pow_positive, pow};
use crate::number::{
    decimal, digit_value, hexadecimal, is_digit, parse_u32, push_decimal, push_hexadecimal,
    read_digits, ParseIntError,
};

verus! {

/// The character that stands for a number below ten.
pub open spec fn digit(d: int) -> char {
    ('0' as int + d) as char
}

/// Whether a text is a number in decimal digits: as many as it needs and no more, and behind each of
/// them as many others as its weight has zeros.
pub open spec fn writes(text: Seq<char>, n: int) -> bool {
    &&& text.len() > 0
    &&& n < pow(10, text.len())
    &&& text.len() > 1 ==> pow(10, (text.len() - 1) as nat) <= n
    &&& forall|i: int|
        0 <= i < text.len() ==> #[trigger] text[text.len() - 1 - i] == digit(
            (n / pow(10, i as nat)) % 10,
        )
}

pub proof fn lemma_decimal(n: nat)
    ensures
        writes(decimal(n), n as int),
    decreases n,
{
    lemma_pow0(10);
    lemma_pow1(10);
    if n >= 10 {
        let m = n / 10;
        lemma_decimal(m);
        let shorter = decimal(m);
        let text = decimal(n);
        let length = shorter.len();
        reveal(pow);
        assert(pow(10, length + 1) == 10 * pow(10, length));
        assert(length > 1 ==> pow(10, length) == 10 * pow(10, (length - 1) as nat));
        assert forall|i: int| 0 <= i < text.len() implies #[trigger] text[text.len() - 1 - i]
            == digit((n as int / pow(10, i as nat)) % 10) by {
            if i > 0 {
                let k = (i - 1) as nat;
                lemma_pow_positive(10, k);
                assert(pow(10, i as nat) == 10 * pow(10, k));
                lemma_div_denominator(n as int, 10, pow(10, k));
                assert(text[text.len() - 1 - i] == shorter[length - 1 - k]);
            } else {
                assert(n as int / 1 == n);
            }
        }
    }
}

/// A number is written behind a text in decimal digits, and the text in front of it stays.
pub proof fn law_numbers_are_written_in_decimal_digits(text: &mut String, n: u128)
    requires
        call_ensures(push_decimal, (text, n), ()),
    ensures
        exists|digits: Seq<char>|
            final(text)@ == old(text)@ + digits && #[trigger] writes(digits, n as int),
{
    lemma_decimal(n as nat);
    assert(final(text)@ == old(text)@ + decimal(n as nat));
}

proof fn lemma_hexadecimal(n: nat, width: nat, i: int)
    requires
        0 <= i < width,
    ensures
        hexadecimal(n, width).len() == width,
        hexadecimal(n, width)[width - 1 - i] == "0123456789ABCDEF"@[(n as int / pow(16, i as nat))
            % 16],
    decreases width,
{
    reveal_strlit("0123456789ABCDEF");
    lemma_pow0(16);
    reveal_with_fuel(hexadecimal, 2);
    if i > 0 {
        let k = (i - 1) as nat;
        reveal(pow);
        lemma_pow_positive(16, k);
        lemma_hexadecimal(n / 16, (width - 1) as nat, i - 1);
        lemma_div_denominator(n as int, 16, pow(16, k));
        assert(pow(16, i as nat) == 16 * pow(16, k));
    } else {
        assert(n as int / 1 == n);
        if width > 1 {
            lemma_hexadecimal(n / 16, (width - 1) as nat, 0);
        }
    }
}

/// The last hexadecimal digits of a number are written behind a text, each in its place, and the text
/// in front of them stays.
pub proof fn law_last_hexadecimal_digits_are_written(text: &mut String, n: u32, width: u32, i: int)
    requires
        call_ensures(push_hexadecimal, (text, n, width), ()),
        0 <= i < width,
    ensures
        final(text)@.len() == old(text)@.len() + width,
        final(text)@.take(old(text)@.len() as int) == old(text)@,
        final(text)@[final(text)@.len() - 1 - i] == "0123456789ABCDEF"@[(n as int / pow(
            16,
            i as nat,
        )) % 16],
{
    lemma_hexadecimal(n as nat, width as nat, i);
    assert(final(text)@.take(old(text)@.len() as int) =~= old(text)@);
}

/// A text with one digit more is read as ten times the number and the digit; what is no digit, or
/// leads past 32 bits, is an error, and so is whatever stands behind an error.
pub proof fn law_one_more_digit(
    shorter: &str,
    longer: &str,
    c: char,
    before: Result<u32, ParseIntError>,
    after: Result<u32, ParseIntError>,
)
    requires
        shorter@.len() > 0,
        shorter@ != seq!['+'],
        longer@ == shorter@.push(c),
        call_ensures(parse_u32, (shorter,), before),
        call_ensures(parse_u32, (longer,), after),
    ensures
        before matches Err(error) ==> after == Err::<u32, ParseIntError>(error),
        before matches Ok(value) ==> {
            let next = value * 10 + (c as int - '0' as int);
            if c < '0' || '9' < c {
                after == Err::<u32, ParseIntError>(ParseIntError::InvalidDigit)
            } else if next > u32::MAX {
                after == Err::<u32, ParseIntError>(ParseIntError::PosOverflow)
            } else {
                after is Ok && after->Ok_0 == next
            }
        },
{
    let s = shorter@;
    if s[0] == '+' && s.len() > 1 {
        assert(s.push(c).skip(1) =~= s.skip(1).push(c));
        lemma_behind_digits(0, s.skip(1), c);
    } else {
        if s[0] == '+' {
            assert(s =~= seq!['+']);
        }
        lemma_behind_digits(0, s, c);
    }
}

proof fn lemma_behind_digits(value: nat, s: Seq<char>, c: char)
    ensures
        read_digits(value, s.push(c)) == (match read_digits(value, s) {
            Ok(v) => if !is_digit(c) {
                Err(ParseIntError::InvalidDigit)
            } else if v * 10 + digit_value(c) > u32::MAX {
                Err(ParseIntError::PosOverflow)
            } else {
                Ok(v * 10 + digit_value(c))
            },
            Err(e) => Err(e),
        }),
    decreases s.len(),
{
    reveal_with_fuel(read_digits, 2);
    if s.len() == 0 {
        assert(s.push(c).skip(1) =~= Seq::<char>::empty());
    } else {
        assert(s.push(c).skip(1) =~= s.skip(1).push(c));
        if is_digit(s[0]) && value * 10 + digit_value(s[0]) <= u32::MAX {
            lemma_behind_digits(value * 10 + digit_value(s[0]), s.skip(1), c);
        }
    }
}

/// No character is no number, one character is a number exactly when it is a digit, and a plus in
/// front of one character changes nothing.
pub proof fn law_short_numbers(
    text: &str,
    marked: &str,
    read: Result<u32, ParseIntError>,
    read_marked: Result<u32, ParseIntError>,
)
    requires
        text@.len() <= 1,
        marked@ == seq!['+'] + text@,
        call_ensures(parse_u32, (text,), read),
        call_ensures(parse_u32, (marked,), read_marked),
    ensures
        text@.len() == 0 ==> read == Err::<u32, ParseIntError>(ParseIntError::Empty),
        text@.len() == 0 ==> read_marked == Err::<u32, ParseIntError>(ParseIntError::InvalidDigit),
        text@.len() == 1 && '0' <= text@[0] <= '9' ==> read is Ok && read->Ok_0 == text@[0] as int
            - '0' as int,
        text@.len() == 1 && !('0' <= text@[0] <= '9') ==> read == Err::<u32, ParseIntError>(
            ParseIntError::InvalidDigit,
        ),
        text@.len() == 1 ==> read_marked == read,
{
    reveal_with_fuel(read_digits, 2);
    assert(marked@.skip(1) =~= text@);
    if text@.len() == 1 {
        assert(text@.skip(1) =~= Seq::<char>::empty());
    }
}

} // verus!
