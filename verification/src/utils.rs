//! Shared constants and small helpers.
use vstd::prelude::*;
use vstd::string::StringExecFns;

verus! {

/// The blue of the indicator, as a colour name.
pub const TATTOY_BLUE: &'static str = "#0034a1";

/// The line ending.
pub const NEWLINE: &'static str = "\n";

/// Resets every colour that was set.
pub const RESET_COLOUR: &'static str = "\x1b[m";

/// Clears the screen.
pub const CLEAR_SCREEN: &'static str = "\x1b[2J";

/// Resets the terminal.
pub const RESET_SCREEN: &'static str = "\x1bc";

/// The escape character.
pub const ESCAPE: &'static str = "\x1b";

/// The string terminator.
pub const STRING_TERMINATOR: &'static str = "\x1c";

/// The bell character.
pub const BELL: &'static str = "\x07";

/// `String::push` of std: appends one character to the end of the string.
pub assume_specification[ String::push ](text: &mut String, character: char)
    ensures
        final(text)@ == old(text)@.push(character),
;

/// One more than the largest unsigned 64-bit number.
pub open spec fn modulus() -> int {
    0x1_0000_0000_0000_0000
}

/// The hash after one more byte: thirty-three times the hash before, plus the
/// byte, without what no longer fits in 64 bits.
pub open spec fn hash_step(hash: u64, byte: u8) -> u64 {
    ((33 * hash + byte) % modulus()) as u64
}

/// The hash of a sequence of bytes: `hash_step` over each byte in turn,
/// starting from zero.
pub open spec fn hash_of(input: Seq<u8>) -> u64
    decreases input.len(),
{
    if input.len() == 0 {
        0
    } else {
        hash_step(hash_of(input.drop_last()), input.last())
    }
}

/// Adds two unsigned 64-bit numbers, wrapping around on overflow.
pub fn safe_add(left: u64, right: u64) -> (sum: u64)
    ensures
        sum == (left + right) % modulus(),
{
    match left.checked_add(right) {
        Some(result) => result,
        None => {
            let wrapped: u128 = (left as u128 + right as u128) % (u64::MAX as u128 + 1);
            wrapped as u64
        },
    }
}

proof fn lemma_shift_is_product(hash: u64)
    ensures
        (hash << 5u64) == (32 * hash) % modulus(),
{
    assert((hash << 5u64) == (32 * hash) % 0x1_0000_0000_0000_0000) by (bit_vector);
}

/// A simple hash of a sequence of bytes.
pub fn simple_hash(input: &[u8]) -> (hash: u64)
    ensures
        hash == hash_of(input@),
{
    let mut hash: u64 = 0;
    let mut index: usize = 0;
    while index < input.len()
        invariant
            index <= input.len(),
            hash == hash_of(input@.take(index as int)),
        decreases input.len() - index,
    {
        let byte: u64 = input[index] as u64;
        let shifted = safe_add(hash << 5u64, hash);
        proof {
            lemma_shift_is_product(hash);
            assert(input@.take(index + 1).drop_last() =~= input@.take(index as int));
        }
        hash = safe_add(shifted, byte);
        index = index + 1;
    }
    proof {
        assert(input@.take(index as int) =~= input@);
    }
    hash
}

/// The character of a decimal digit.
pub open spec fn digit_character(digit: int) -> char {
    if digit == 0 {
        '0'
    } else if digit == 1 {
        '1'
    } else if digit == 2 {
        '2'
    } else if digit == 3 {
        '3'
    } else if digit == 4 {
        '4'
    } else if digit == 5 {
        '5'
    } else if digit == 6 {
        '6'
    } else if digit == 7 {
        '7'
    } else if digit == 8 {
        '8'
    } else {
        '9'
    }
}

/// A number written in decimal, without leading zeros.
pub open spec fn decimal(number: nat) -> Seq<char>
    decreases number,
{
    if number < 10 {
        seq![digit_character(number as int)]
    } else {
        decimal(number / 10).push(digit_character((number % 10) as int))
    }
}

fn digit(value: usize) -> (character: char)
    requires
        value < 10,
    ensures
        character == digit_character(value as int),
{
    if value == 0 {
        '0'
    } else if value == 1 {
        '1'
    } else if value == 2 {
        '2'
    } else if value == 3 {
        '3'
    } else if value == 4 {
        '4'
    } else if value == 5 {
        '5'
    } else if value == 6 {
        '6'
    } else if value == 7 {
        '7'
    } else if value == 8 {
        '8'
    } else {
        '9'
    }
}

/// A number written in decimal, as characters.
pub fn decimal_chars(number: usize) -> (characters: Vec<char>)
    ensures
        characters@ == decimal(number as nat),
    decreases number,
{
    if number < 10 {
        let mut characters: Vec<char> = Vec::new();
        characters.push(digit(number));
        characters
    } else {
        let mut characters = decimal_chars(number / 10);
        characters.push(digit(number % 10));
        characters
    }
}

/// Appends a number in decimal to a text.
pub fn push_decimal(text: &mut String, number: usize)
    ensures
        final(text)@ == old(text)@ + decimal(number as nat),
{
    let characters = decimal_chars(number);
    let mut index: usize = 0;
    while index < characters.len()
        invariant
            index <= characters.len(),
            text@ == old(text)@ + characters@.take(index as int),
        decreases characters.len() - index,
    {
        text.push(characters[index]);
        proof {
            assert((old(text)@ + characters@.take(index as int)).push(characters@[index as int])
                =~= old(text)@ + characters@.take(index + 1));
        }
        index = index + 1;
    }
}

/// Appends a text to a text.
pub fn push_text(text: &mut String, more: &str)
    ensures
        final(text)@ == old(text)@ + more@,
{
    text.append(more);
}

} // verus!
