//! Decimal notation of integers: what a digit string denotes, how a number is
//! written, and the conversions between text and numbers built on both.

use vstd::prelude::*;
use vstd::string::*;

verus! {

/// True of the ten characters `0` to `9`.
pub open spec fn is_digit(c: char) -> bool {
    '0' <= c && c <= '9'
}

/// The number a digit character stands for.
pub open spec fn digit_value(c: char) -> int {
    c as int - '0' as int
}

/// The character that stands for a number below ten.
pub open spec fn digit_char(d: int) -> char {
    (d + '0' as int) as char
}

/// True when every character of `s` is a decimal digit.
pub open spec fn all_digits(s: Seq<char>) -> bool {
    forall|i: int| 0 <= i < s.len() ==> is_digit(#[trigger] s[i])
}

/// The number that the digits of `s` denote, most significant digit first.
pub open spec fn digits_value(s: Seq<char>) -> nat
    decreases s.len(),
{
    if s.len() == 0 {
        0
    } else {
        (digits_value(s.drop_last()) * 10 + digit_value(s.last())) as nat
    }
}

/// The shortest decimal notation of `n`.
pub open spec fn decimal(n: nat) -> Seq<char>
    decreases n,
{
    if n < 10 {
        seq![digit_char(n as int)]
    } else {
        decimal(n / 10).push(digit_char((n % 10) as int))
    }
}

/// The decimal notation of `n`, with a leading `-` below zero.
pub open spec fn signed_decimal(n: int) -> Seq<char> {
    if n < 0 {
        seq!['-'] + decimal((-n) as nat)
    } else {
        decimal(n as nat)
    }
}

/// The characters of `s`, in order.
pub fn chars_of(s: &str) -> (chars: Vec<char>)
    ensures
        chars@ == s@,
{
    let mut chars: Vec<char> = Vec::new();
    for c in it: s.chars()
        invariant
            chars@ == it.seq().take(it.index() as int),
    {
        chars.push(c);
    }
    chars
}

/// Why a text is not the decimal notation of a number in range.
#[derive(Clone, Copy, Debug, PartialEq, Eq, Structural)]
pub enum DigitsError {
    /// There is no character at all.
    Empty,
    /// Some character is not a decimal digit.
    NotDigit,
    /// The digits denote a number above the bound.
    TooLarge,
}

/// What reading `s` as a number of at most `max` gives.
pub open spec fn read_digits(s: Seq<char>, max: nat) -> Result<nat, DigitsError> {
    if s.len() == 0 {
        Err(DigitsError::Empty)
    } else if !all_digits(s) {
        Err(DigitsError::NotDigit)
    } else if digits_value(s) > max {
        Err(DigitsError::TooLarge)
    } else {
        Ok(digits_value(s))
    }
}

/// Reads `text` as a decimal number of at most `max`.
pub fn parse_digits(text: &str, max: u64) -> (r: Result<u64, DigitsError>)
    ensures
        match r {
            Ok(v) => read_digits(text@, max as nat) == Ok::<nat, DigitsError>(v as nat),
            Err(e) => read_digits(text@, max as nat) == Err::<nat, DigitsError>(e),
        },
{
    let chars = chars_of(text);
    assert(chars@.skip(0) =~= text@);
    parse_digits_from(&chars, 0, max)
}

/// Reads the characters of `chars` from position `start` on as a decimal
/// number of at most `max`.
pub(crate) fn parse_digits_from(chars: &Vec<char>, start: usize, max: u64) -> (r: Result<
    u64,
    DigitsError,
>)
    requires
        start <= chars.len(),
    ensures
        match r {
            Ok(v) => read_digits(chars@.skip(start as int), max as nat) == Ok::<nat, DigitsError>(
                v as nat,
            ),
            Err(e) => read_digits(chars@.skip(start as int), max as nat) == Err::<nat, DigitsError>(
                e,
            ),
        },
{
    let ghost text = chars@.skip(start as int);
    if start == chars.len() {
        return Err(DigitsError::Empty);
    }
    let mut value: u64 = 0;
    let mut too_large = false;
    let mut i: usize = start;
    while i < chars.len()
        invariant
            start <= i <= chars.len(),
            text == chars@.skip(start as int),
            all_digits(text.take(i - start)),
            !too_large ==> value == digits_value(text.take(i - start)) && value <= max,
            too_large ==> digits_value(text.take(i - start)) > max,
        decreases chars.len() - i,
    {
        let c = chars[i];
        let ghost k = i - start;
        assert(text.take(k + 1).drop_last() == text.take(k));
        if c < '0' || c > '9' {
            assert(!is_digit(text[k]));
            return Err(DigitsError::NotDigit);
        }
        let d: u64 = (c as u32 - '0' as u32) as u64;
        if !too_large {
            if d > max || value > (max - d) / 10 {
                too_large = true;
            } else {
                value = value * 10 + d;
            }
        }
        assert forall|j: int| 0 <= j < k + 1 implies is_digit(#[trigger] text.take(k + 1)[j]) by {
            if j < k {
                assert(text.take(k + 1)[j] == text.take(k)[j]);
            }
        }
        i = i + 1;
    }
    assert(text.take(i - start) == text);
    if too_large {
        Err(DigitsError::TooLarge)
    } else {
        Ok(value)
    }
}

/// The one-character text of a digit.
fn digit_str(d: u8) -> (text: &'static str)
    requires
        d < 10,
    ensures
        text@ == seq![digit_char(d as int)],
{
    proof {
        reveal_strlit("0");
        reveal_strlit("1");
        reveal_strlit("2");
        reveal_strlit("3");
        reveal_strlit("4");
        reveal_strlit("5");
        reveal_strlit("6");
        reveal_strlit("7");
        reveal_strlit("8");
        reveal_strlit("9");
    }
    let text = match d {
        0 => "0",
        1 => "1",
        2 => "2",
        3 => "3",
        4 => "4",
        5 => "5",
        6 => "6",
        7 => "7",
        8 => "8",
        _ => "9",
    };
    text
}

/// Writes `n` in decimal notation.
pub fn decimal_string(n: u128) -> (text: String)
    ensures
        text@ == decimal(n as nat),
    decreases n,
{
    if n < 10 {
        String::from_str(digit_str(n as u8))
    } else {
        let mut text = decimal_string(n / 10);
        text.append(digit_str((n % 10) as u8));
        text
    }
}

/// Writes `n` in decimal notation, with a leading `-` below zero.
pub fn signed_decimal_string(n: i64) -> (text: String)
    ensures
        text@ == signed_decimal(n as int),
{
    if n < 0 {
        proof {
            reveal_strlit("-");
        }
        let mut text = String::from_str("-");
        let digits = decimal_string((-(n as i128)) as u128);
        text.append(digits.as_str());
        text
    } else {
        decimal_string(n as u128)
    }
}

/// The notation of a number consists of digits, at least one of them, and
/// denotes that number.
pub proof fn lemma_decimal_round_trip(n: nat)
    ensures
        decimal(n).len() >= 1,
        all_digits(decimal(n)),
        digits_value(decimal(n)) == n,
    decreases n,
{
    if n < 10 {
        assert(digits_value(decimal(n).drop_last()) == 0);
    } else {
        lemma_decimal_round_trip(n / 10);
        assert(decimal(n).drop_last() =~= decimal(n / 10));
    }
}

} // verus!
