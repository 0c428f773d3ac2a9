//! Identities as texts: 128-bit numbers in 26 base-32 digits, through `ulid`.

use vstd::arithmetic::div_mod::lemma_small_mod;
use vstd::prelude::*;
use vstd::utf8::{encode_utf8, is_ascii_chars, is_ascii_chars_encode_utf8};

verus! {

/// Why a text is no identity.
#[derive(Clone, Copy, Debug, Eq, PartialEq, Structural)]
pub enum JobIdError {
    InvalidLength,
    InvalidChar,
}

/// The character of a base-32 digit: the digits, then the capital letters without
/// `I`, `L`, `O` and `U`.
pub open spec fn digit_char(digit: int) -> char {
    if digit < 10 {
        ('0' as int + digit) as char
    } else if digit < 18 {
        ('A' as int + digit - 10) as char
    } else if digit < 20 {
        ('J' as int + digit - 18) as char
    } else if digit < 22 {
        ('M' as int + digit - 20) as char
    } else if digit < 27 {
        ('P' as int + digit - 22) as char
    } else {
        ('V' as int + digit - 27) as char
    }
}

/// The base-32 digit of a character, whether it is a capital letter or a small one.
pub open spec fn char_digit(character: char) -> Option<int> {
    let code = if 'a' <= character <= 'z' {
        character as int - 32
    } else {
        character as int
    };
    if '0' as int <= code <= '9' as int {
        Some(code - '0' as int)
    } else if 'A' as int <= code <= 'H' as int {
        Some(code - 'A' as int + 10)
    } else if 'J' as int <= code <= 'K' as int {
        Some(code - 'J' as int + 18)
    } else if 'M' as int <= code <= 'N' as int {
        Some(code - 'M' as int + 20)
    } else if 'P' as int <= code <= 'T' as int {
        Some(code - 'P' as int + 22)
    } else if 'V' as int <= code <= 'Z' as int {
        Some(code - 'V' as int + 27)
    } else {
        None
    }
}

/// The last `count` base-32 digits of a number.
pub open spec fn digits_of(value: nat, count: nat) -> Seq<char>
    decreases count,
{
    if count == 0 {
        Seq::empty()
    } else {
        digits_of(value / 32, (count - 1) as nat).push(digit_char((value % 32) as int))
    }
}

/// The number that base-32 digits stand for, if they all are digits.
pub open spec fn digits_value(text: Seq<char>) -> Option<nat>
    decreases text.len(),
{
    if text.len() == 0 {
        Some(0)
    } else {
        match (digits_value(text.drop_last()), char_digit(text.last())) {
            (Some(high), Some(low)) => Some((high * 32 + low) as nat),
            _ => None,
        }
    }
}

/// How many digits an identity has.
pub const ULID_LEN: usize = 26;

/// The text of an identity.
pub open spec fn ulid_text(value: u128) -> Seq<char> {
    digits_of(value as nat, ULID_LEN as nat)
}

/// The identity that a text stands for. The digits hold two bits more than the identity,
/// which are dropped.
pub open spec fn ulid_parsed(text: Seq<char>) -> Result<u128, JobIdError> {
    if encode_utf8(text).len() != ULID_LEN {
        Err(JobIdError::InvalidLength)
    } else {
        match digits_value(text) {
            Some(value) => Ok((value % (u128::MAX as nat + 1)) as u128),
            None => Err(JobIdError::InvalidChar),
        }
    }
}

/// `ulid::Ulid::new`: drawn from the clock and at random, so that nothing holds of
/// every value.
#[verifier::external_body]
pub(crate) fn fresh_ulid() -> u128 {
    ulid::Ulid::new().0
}

/// `ulid::Ulid::to_string`: the number in base-32 digits.
#[verifier::external_body]
pub(crate) fn show_ulid(value: u128) -> (text: String)
    ensures
        text@ == ulid_text(value),
{
    ulid::Ulid(value).to_string()
}

/// `ulid::Ulid::from_string`, with its error kind for kind: a text of 26 bytes, each of
/// them a digit.
#[verifier::external_body]
pub(crate) fn parse_ulid(text: &str) -> (result: Result<u128, JobIdError>)
    ensures
        result == ulid_parsed(text@),
{
    match ulid::Ulid::from_string(text) {
        Ok(ulid) => Ok(ulid.0),
        Err(ulid::DecodeError::InvalidLength) => Err(JobIdError::InvalidLength),
        Err(ulid::DecodeError::InvalidChar) => Err(JobIdError::InvalidChar),
    }
}

/// What is left of a number once its last `count` base-32 digits are taken off.
spec fn without_digits(value: nat, count: nat) -> nat
    decreases count,
{
    if count == 0 {
        value
    } else {
        without_digits(value / 32, (count - 1) as nat)
    }
}

/// Digits stand for the number that they were taken from, where they are all of it.
proof fn lemma_digits_are_read_back(value: nat, count: nat)
    requires
        without_digits(value, count) == 0,
    ensures
        digits_of(value, count).len() == count,
        is_ascii_chars(digits_of(value, count)),
        digits_value(digits_of(value, count)) == Some(value),
    decreases count,
{
    if count > 0 {
        let high = digits_of(value / 32, (count - 1) as nat);
        let low = digit_char((value % 32) as int);
        lemma_digits_are_read_back(value / 32, (count - 1) as nat);
        assert(char_digit(low) == Some((value % 32) as int));
        assert(digits_of(value, count) == high.push(low));
        assert(high.push(low).drop_last() =~= high);
        assert(high.push(low).last() == low);
        assert(value == (value / 32) * 32 + value % 32);
    }
}

/// The text of an identity has 26 characters and is read back as that identity.
pub proof fn law_identities_are_read_back(value: u128)
    ensures
        ulid_text(value).len() == ULID_LEN,
        ulid_parsed(ulid_text(value)) == Ok::<_, JobIdError>(value),
{
    reveal_with_fuel(without_digits, 27);
    assert(without_digits(value as nat, 26) == 0);
    lemma_digits_are_read_back(value as nat, 26);
    is_ascii_chars_encode_utf8(ulid_text(value));
    lemma_small_mod(value as nat, (u128::MAX as nat + 1) as nat);
}

} // verus!
