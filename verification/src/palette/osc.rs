//! Asking the terminal for its palette: the query, and reading the replies.
//!
//! The terminal answers each query with a sequence like
//! `ESC]4;1;rgb:c0c0/2222/eaeaBELL`. In the replies as they are parsed here the
//! escape, the string terminator and the bell are already written out as the
//! words `ESC`, `ST` and `BELL`.
use crate::colour::PaletteColour;
use crate::palette::main::PaletteHashMap;
use crate::palette::main::BACKGROUND_COLOUR_KEY;
use crate::palette::main::FOREGROUND_COLOUR_KEY;
use crate::text::copy_range;
use crate::text::first_chars;
use crate::text::from_chars;
use crate::text::has_prefix;
use crate::text::last_chars;
use crate::text::pieces_view;
use crate::text::replace_all;
use crate::text::replaced;
use crate::text::split;
use crate::text::split_at_each;
use crate::text::starts_with;
use crate::text::to_chars;
use crate::utils::decimal;
use crate::utils::decimal_chars;
use vstd::prelude::*;

verus! {

/// How many seconds to wait for the terminal to answer.
pub const WAIT_FOR_RESPONSE_TIMEOUT: u64 = 1;

/// The code of the query for a colour of the palette.
pub const OSC_PALETTE_QUERY: u8 = 4;

/// The code of the query for the foreground colour.
pub const OSC_FOREGROUND_QUERY: u8 = 10;

/// The code of the query for the background colour.
pub const OSC_BACKGROUND_QUERY: u8 = 11;

/// How many colours a whole palette has: 256 indexed colours, the foreground
/// and the background.
pub const REQUIRED_COLOURS: u16 = 258;

/// After how many reads the terminal is given up on.
pub const MAX_READ_ATTEMPTS: u16 = 300;

/// Queries and replies for the palette of the terminal.
#[derive(Clone, Copy, Debug, Default)]
pub struct OSC;

/// Why a reply could not be parsed.
#[derive(Clone, Copy, Debug, PartialEq, Eq, Structural)]
pub enum ParseError {
    /// A reply for an indexed colour has no index from 0 to 255 in front.
    InvalidIndex,
    /// A reply for an indexed colour ends after its index.
    ColourNotFound,
    /// A colour has no second channel.
    GreenNotFound,
    /// A colour has no third channel.
    BlueNotFound,
    /// The red channel is no hexadecimal number.
    InvalidRed,
    /// The green channel is no hexadecimal number.
    InvalidGreen,
    /// The blue channel is no hexadecimal number.
    InvalidBlue,
}

/// The value of a hexadecimal digit.
pub open spec fn hex_digit(character: char) -> Option<nat> {
    if '0' <= character <= '9' {
        Some((character as int - '0' as int) as nat)
    } else if 'a' <= character <= 'f' {
        Some((character as int - 'a' as int + 10) as nat)
    } else if 'A' <= character <= 'F' {
        Some((character as int - 'A' as int + 10) as nat)
    } else {
        None
    }
}

/// The value of a sequence of hexadecimal digits, if each of them is one.
pub open spec fn digits_value(digits: Seq<char>) -> Option<nat>
    decreases digits.len(),
{
    if digits.len() == 0 {
        Some(0)
    } else {
        match (digits_value(digits.drop_last()), hex_digit(digits.last())) {
            (Some(value), Some(digit)) => Some(16 * value + digit),
            _ => None,
        }
    }
}

/// The value of a channel: a hexadecimal number of at least one digit, which
/// may follow a plus sign, and which is at most 255.
pub open spec fn channel(text: Seq<char>) -> Option<u8> {
    let digits = if text.len() > 0 && text[0] == '+' {
        text.skip(1)
    } else {
        text
    };
    if digits.len() == 0 {
        None
    } else {
        match digits_value(digits) {
            Some(value) => if value <= 255 {
                Some(value as u8)
            } else {
                None
            },
            None => None,
        }
    }
}

/// The separator of the channels of a colour.
pub open spec fn slash() -> Seq<char> {
    seq!['/']
}

/// The separator of the fields of a reply.
pub open spec fn semicolon() -> Seq<char> {
    seq![';']
}

/// The colour in a text like `rgb:dada/dada/dadaBELL`. The channels stand
/// between slashes. Terminals pad each channel to sixteen bits, of which only
/// eight count: the last two digits of red and of green, and the first two
/// of blue.
pub open spec fn rgb_of(colourish: Seq<char>) -> Result<PaletteColour, ParseError> {
    let channels = split(colourish, slash());
    if channels.len() < 2 {
        Err(ParseError::GreenNotFound)
    } else if channels.len() < 3 {
        Err(ParseError::BlueNotFound)
    } else {
        match channel(last_chars(channels[0], 2)) {
            None => Err(ParseError::InvalidRed),
            Some(red) => match channel(last_chars(channels[1], 2)) {
                None => Err(ParseError::InvalidGreen),
                Some(green) => match channel(first_chars(channels[2], 2)) {
                    None => Err(ParseError::InvalidBlue),
                    Some(blue) => Ok((red, green, blue)),
                },
            },
        }
    }
}

/// Whether a text is the index of a colour of the palette: a number from 0
/// to 255, written in decimal without leading zeros.
pub open spec fn is_index(text: Seq<char>) -> bool {
    exists|index: u8| text == #[trigger] decimal(index as nat)
}

/// Whether a text is a key of the palette: the index of a colour, or the name
/// of the foreground or of the background.
pub open spec fn is_key(text: Seq<char>) -> bool {
    is_index(text) || text == FOREGROUND_COLOUR_KEY@ || text == BACKGROUND_COLOUR_KEY@
}

/// The index and the colour in a reply like `1;rgb:c0c0/2222/eaeaBELL`.
pub open spec fn entry_of(sequence: Seq<char>) -> Result<(Seq<char>, PaletteColour), ParseError> {
    let fields = split(sequence, semicolon());
    if !is_index(fields[0]) {
        Err(ParseError::InvalidIndex)
    } else if fields.len() < 2 {
        Err(ParseError::ColourNotFound)
    } else {
        match rgb_of(fields[1]) {
            Err(error) => Err(error),
            Ok(colour) => Ok((fields[0], colour)),
        }
    }
}

/// The table after the replies for indexed colours have been added to it, one
/// after the other. An empty reply adds nothing. The first reply that cannot
/// be parsed ends it all.
pub open spec fn palette_pass(
    sequences: Seq<Seq<char>>,
    table: Map<Seq<char>, PaletteColour>,
) -> Result<Map<Seq<char>, PaletteColour>, ParseError>
    decreases sequences.len(),
{
    if sequences.len() == 0 {
        Ok(table)
    } else if sequences[0].len() == 0 {
        palette_pass(sequences.drop_first(), table)
    } else {
        match entry_of(sequences[0]) {
            Err(error) => Err(error),
            Ok((index, colour)) => palette_pass(sequences.drop_first(), table.insert(index, colour)),
        }
    }
}

/// The table after the replies for one named colour have been added to it,
/// one after the other. Only a reply that begins with `rgb` counts. The
/// first of them that cannot be parsed ends it all.
pub open spec fn named_pass(
    sequences: Seq<Seq<char>>,
    name: Seq<char>,
    table: Map<Seq<char>, PaletteColour>,
) -> Result<Map<Seq<char>, PaletteColour>, ParseError>
    decreases sequences.len(),
{
    if sequences.len() == 0 {
        Ok(table)
    } else if sequences[0].len() == 0 || !starts_with(sequences[0], "rgb"@) {
        named_pass(sequences.drop_first(), name, table)
    } else {
        match rgb_of(sequences[0]) {
            Err(error) => Err(error),
            Ok(colour) => named_pass(sequences.drop_first(), name, table.insert(name, colour)),
        }
    }
}

/// The words that begin the reply to a query.
pub open spec fn signature(query: u8) -> Seq<char> {
    "ESC]"@ + decimal(query as nat) + ";"@
}

/// The replies to a query among what a terminal sent: the texts that follow
/// the words that begin such a reply, each up to the next such words. What
/// stands in front of the first of them is no reply.
pub open spec fn replies(response: Seq<char>, query: u8) -> Seq<Seq<char>> {
    split(response, signature(query)).skip(1)
}

/// The table that the replies of a terminal stand for: the indexed colours
/// first, then the foreground, then the background.
pub open spec fn parsed(response: Seq<char>) -> Result<Map<Seq<char>, PaletteColour>, ParseError> {
    match palette_pass(replies(response, OSC_PALETTE_QUERY), Map::<Seq<char>, PaletteColour>::empty()) {
        Err(error) => Err(error),
        Ok(indexed) => match named_pass(
            replies(response, OSC_FOREGROUND_QUERY),
            FOREGROUND_COLOUR_KEY@,
            indexed,
        ) {
            Err(error) => Err(error),
            Ok(with_foreground) => named_pass(
                replies(response, OSC_BACKGROUND_QUERY),
                BACKGROUND_COLOUR_KEY@,
                with_foreground,
            ),
        },
    }
}

/// Whether every key of a table is a key of the palette.
pub open spec fn only_keys(table: Map<Seq<char>, PaletteColour>) -> bool {
    forall|key: Seq<char>| #[trigger] table.contains_key(key) ==> is_key(key)
}

/// Replies for indexed colours add keys of the palette only.
pub proof fn lemma_palette_pass_keys(sequences: Seq<Seq<char>>, table: Map<Seq<char>, PaletteColour>)
    requires
        only_keys(table),
    ensures
        palette_pass(sequences, table) matches Ok(after) ==> only_keys(after),
    decreases sequences.len(),
{
    if sequences.len() > 0 {
        if sequences[0].len() == 0 {
            lemma_palette_pass_keys(sequences.drop_first(), table);
        } else if let Ok((index, colour)) = entry_of(sequences[0]) {
            lemma_palette_pass_keys(sequences.drop_first(), table.insert(index, colour));
        }
    }
}

/// Replies for a named colour add that name only.
pub proof fn lemma_named_pass_keys(
    sequences: Seq<Seq<char>>,
    name: Seq<char>,
    table: Map<Seq<char>, PaletteColour>,
)
    requires
        only_keys(table),
        is_key(name),
    ensures
        named_pass(sequences, name, table) matches Ok(after) ==> only_keys(after),
    decreases sequences.len(),
{
    if sequences.len() > 0 {
        if sequences[0].len() == 0 || !starts_with(sequences[0], "rgb"@) {
            lemma_named_pass_keys(sequences.drop_first(), name, table);
        } else if let Ok(colour) = rgb_of(sequences[0]) {
            lemma_named_pass_keys(sequences.drop_first(), name, table.insert(name, colour));
        }
    }
}

/// Whatever a terminal sent, the table that is read from it holds no key
/// but the indices from 0 to 255, the foreground and the background.
pub proof fn lemma_parsed_keys(response: Seq<char>)
    ensures
        parsed(response) matches Ok(table) ==> only_keys(table),
{
    let empty = Map::<Seq<char>, PaletteColour>::empty();
    lemma_palette_pass_keys(replies(response, OSC_PALETTE_QUERY), empty);
    if let Ok(indexed) = palette_pass(replies(response, OSC_PALETTE_QUERY), empty) {
        lemma_named_pass_keys(replies(response, OSC_FOREGROUND_QUERY), FOREGROUND_COLOUR_KEY@, indexed);
        if let Ok(with_foreground) = named_pass(
            replies(response, OSC_FOREGROUND_QUERY),
            FOREGROUND_COLOUR_KEY@,
            indexed,
        ) {
            lemma_named_pass_keys(
                replies(response, OSC_BACKGROUND_QUERY),
                BACKGROUND_COLOUR_KEY@,
                with_foreground,
            );
        }
    }
}

/// The number that decimal digits stand for. What is no digit counts as nine.
pub open spec fn number_of(digits: Seq<char>) -> nat
    decreases digits.len(),
{
    if digits.len() == 0 {
        0
    } else {
        10 * number_of(digits.drop_last()) + digit_of(digits.last())
    }
}

/// The value of a decimal digit, or nine for what is none.
pub open spec fn digit_of(character: char) -> nat {
    if '0' <= character <= '8' {
        (character as int - '0' as int) as nat
    } else {
        9
    }
}

/// An index of the palette is made of one to three decimal digits and
/// nothing else, and stands for a number up to 255.
pub proof fn lemma_index_is_digits(text: Seq<char>)
    requires
        is_index(text),
    ensures
        1 <= text.len() <= 3,
        forall|i: int| 0 <= i < text.len() ==> '0' <= #[trigger] text[i] <= '9',
        number_of(text) <= 255,
        text == decimal(number_of(text)),
{
    let index = choose|index: u8| text == #[trigger] decimal(index as nat);
    lemma_decimal_reads(index as nat);
}

/// A number in decimal is made of digits that stand for the number, and of
/// no more than three of them where the number is below a thousand.
pub proof fn lemma_decimal_reads(number: nat)
    ensures
        number_of(decimal(number)) == number,
        decimal(number).len() >= 1,
        number < 1000 ==> decimal(number).len() <= 3,
        forall|i: int| 0 <= i < decimal(number).len() ==> '0' <= #[trigger] decimal(number)[i] <= '9',
    decreases number,
{
    if number < 10 {
        let written = decimal(number);
        assert(written.drop_last() =~= Seq::<char>::empty());
        assert(number_of(written.drop_last()) == 0);
    } else {
        lemma_decimal_reads(number / 10);
        let front = decimal(number / 10);
        let written = front.push(crate::utils::digit_character((number % 10) as int));
        assert(written.drop_last() =~= front);
        if number < 1000 {
            lemma_decimal_reads(number / 100);
            assert(number / 10 < 100);
            if number / 10 >= 10 {
                assert(number / 10 / 10 < 10);
            }
        }
    }
}

/// What the leading digits of a hexadecimal number are worth is never more
/// than what the whole number is worth.
pub proof fn lemma_digits_prefix(digits: Seq<char>, count: int)
    requires
        0 <= count <= digits.len(),
        digits_value(digits) is Some,
    ensures
        digits_value(digits.take(count)) is Some,
        digits_value(digits.take(count))->0 <= digits_value(digits)->0,
    decreases digits.len(),
{
    if count == digits.len() {
        assert(digits.take(count) =~= digits);
    } else {
        assert(digits.drop_last().take(count) =~= digits.take(count));
        lemma_digits_prefix(digits.drop_last(), count);
    }
}

fn hex_value(character: char) -> (value: Option<u32>)
    ensures
        value is None <==> hex_digit(character) is None,
        value matches Some(digit) ==> hex_digit(character) == Some(digit as nat) && digit < 16,
{
    if '0' <= character && character <= '9' {
        Some(character as u32 - '0' as u32)
    } else if 'a' <= character && character <= 'f' {
        Some(character as u32 - 'a' as u32 + 10)
    } else if 'A' <= character && character <= 'F' {
        Some(character as u32 - 'A' as u32 + 10)
    } else {
        None
    }
}

/// Reads a channel.
#[verifier::loop_isolation(false)]
pub fn parse_channel(text: &[char]) -> (value: Option<u8>)
    ensures
        value == channel(text@),
{
    let start: usize = if text.len() > 0 && text[0] == '+' {
        1
    } else {
        0
    };
    if start == text.len() {
        return None;
    }
    let ghost digits = text@.skip(start as int);
    let mut value: u32 = 0;
    let mut index: usize = start;
    proof {
        assert(text@.skip(0) =~= text@);
    }
    while index < text.len()
        invariant
            start <= index <= text.len(),
            digits == text@.skip(start as int),
            value <= 255,
            digits_value(digits.take(index - start)) == Some(value as nat),
        decreases text.len() - index,
    {
        let ghost seen = digits.take(index - start + 1);
        proof {
            assert(seen.drop_last() =~= digits.take(index - start));
        }
        match hex_value(text[index]) {
            None => {
                proof {
                    if digits_value(digits) is Some {
                        lemma_digits_prefix(digits, index - start + 1);
                    }
                }
                return None;
            },
            Some(digit) => {
                let next: u32 = value * 16 + digit;
                if next > 255 {
                    proof {
                        if digits_value(digits) is Some {
                            lemma_digits_prefix(digits, index - start + 1);
                        }
                    }
                    return None;
                }
                value = next;
            },
        }
        index = index + 1;
    }
    proof {
        assert(digits.take(index - start) =~= digits);
    }
    Some(value as u8)
}

impl OSC {
    /// The first `count` characters of a text.
    pub fn get_first_chars(string: &str, count: usize) -> (first: String)
        ensures
            first@ == first_chars(string@, count as nat),
    {
        let characters = to_chars(string);
        let first = OSC::first_of(characters.as_slice(), count);
        from_chars(first.as_slice())
    }

    /// The last `count` characters of a text.
    pub fn get_last_chars(string: &str, count: usize) -> (last: String)
        ensures
            last@ == last_chars(string@, count as nat),
    {
        let characters = to_chars(string);
        let last = OSC::last_of(characters.as_slice(), count);
        from_chars(last.as_slice())
    }

    fn first_of(text: &[char], count: usize) -> (first: Vec<char>)
        ensures
            first@ == first_chars(text@, count as nat),
    {
        if count >= text.len() {
            let first = copy_range(text, 0, text.len());
            first
        } else {
            copy_range(text, 0, count)
        }
    }

    fn last_of(text: &[char], count: usize) -> (last: Vec<char>)
        ensures
            last@ == last_chars(text@, count as nat),
    {
        if count >= text.len() {
            let last = copy_range(text, 0, text.len());
            last
        } else {
            copy_range(text, text.len() - count, text.len())
        }
    }

    /// Reads the colour in a text like `rgb:dada/dada/dadaBELL`.
    pub fn parse_rgb(colourish: &[char]) -> (colour: Result<PaletteColour, ParseError>)
        ensures
            colour == rgb_of(colourish@),
    {
        let mut separator: Vec<char> = Vec::new();
        separator.push('/');
        let channels = split_at_each(colourish, separator.as_slice());
        if channels.len() < 2 {
            return Err(ParseError::GreenNotFound);
        }
        if channels.len() < 3 {
            return Err(ParseError::BlueNotFound);
        }
        let red = OSC::last_of(channels[0].as_slice(), 2);
        let green = OSC::last_of(channels[1].as_slice(), 2);
        let blue = OSC::first_of(channels[2].as_slice(), 2);
        let Some(red) = parse_channel(red.as_slice()) else {
            return Err(ParseError::InvalidRed);
        };
        let Some(green) = parse_channel(green.as_slice()) else {
            return Err(ParseError::InvalidGreen);
        };
        let Some(blue) = parse_channel(blue.as_slice()) else {
            return Err(ParseError::InvalidBlue);
        };
        Ok((red, green, blue))
    }

    /// The words that begin the reply to a query.
    pub fn reply_signature(query: u8) -> (words: Vec<char>)
        ensures
            words@ == signature(query),
            words.len() > 0,
    {
        let mut words = to_chars("ESC]");
        let mut digits = decimal_chars(query as usize);
        words.append(&mut digits);
        words.push(';');
        proof {
            reveal_strlit(";");
        }
        words
    }

    /// Whether a text is the index of a colour of the palette.
    pub fn is_palette_index(text: &[char]) -> (valid: bool)
        ensures
            valid == is_index(text@),
    {
        if text.len() == 0 || text.len() > 3 {
            proof {
                assert forall|index: u8| text@ != #[trigger] decimal(index as nat) by {
                    lemma_decimal_reads(index as nat);
                }
            }
            return false;
        }
        let mut value: usize = 0;
        let mut at: usize = 0;
        while at < text.len()
            invariant
                at <= text.len() <= 3,
                value == number_of(text@.take(at as int)),
                at == 0 ==> value == 0,
                at == 1 ==> value < 10,
                at == 2 ==> value < 100,
                at == 3 ==> value < 1000,
                forall|i: int| 0 <= i < at ==> '0' <= #[trigger] text@[i] <= '9',
            decreases text.len() - at,
        {
            let character = text[at];
            if !('0' <= character && character <= '9') {
                proof {
                    assert forall|index: u8| text@ != #[trigger] decimal(index as nat) by {
                        lemma_decimal_reads(index as nat);
                    }
                }
                return false;
            }
            proof {
                assert(text@.take(at + 1).drop_last() =~= text@.take(at as int));
            }
            value = value * 10 + (character as usize - '0' as usize);
            at = at + 1;
        }
        proof {
            assert(text@.take(at as int) =~= text@);
            assert forall|index: u8| text@ == #[trigger] decimal(index as nat) implies value
                == index by {
                lemma_decimal_reads(index as nat);
            }
        }
        if value > 255 {
            return false;
        }
        let written = decimal_chars(value);
        let same = crate::text::same_chars(text, written.as_slice());
        proof {
            if same {
                assert(text@ == decimal((value as u8) as nat));
            }
        }
        same
    }

    #[verifier::loop_isolation(false)]
    fn parse_indexed(response: &[char], palette: &mut PaletteHashMap) -> (done: Result<
        (),
        ParseError,
    >)
        requires
            old(palette).wf(),
        ensures
            final(palette).wf(),
            match palette_pass(replies(response@, OSC_PALETTE_QUERY), old(palette)@) {
                Ok(table) => done is Ok && final(palette)@ == table,
                Err(error) => done == Err::<(), ParseError>(error),
            },
    {
        let words = OSC::reply_signature(OSC_PALETTE_QUERY);
        let sequences = split_at_each(response, words.as_slice());
        let ghost all = pieces_view(sequences@);
        let mut separator: Vec<char> = Vec::new();
        separator.push(';');
        let mut index: usize = 1;
        while index < sequences.len()
            invariant
                palette.wf(),
                1 <= index <= sequences.len(),
                all == pieces_view(sequences@),
                separator@ == semicolon(),
                palette_pass(all.skip(1), old(palette)@) == palette_pass(
                    all.skip(index as int),
                    palette@,
                ),
            decreases sequences.len() - index,
        {
            let ghost rest = all.skip(index as int);
            proof {
                assert(rest.drop_first() =~= all.skip(index + 1));
            }
            let sequence = &sequences[index];
            if sequence.len() > 0 {
                let fields = split_at_each(sequence.as_slice(), separator.as_slice());
                if !OSC::is_palette_index(fields[0].as_slice()) {
                    return Err(ParseError::InvalidIndex);
                }
                if fields.len() < 2 {
                    return Err(ParseError::ColourNotFound);
                }
                match OSC::parse_rgb(fields[1].as_slice()) {
                    Err(error) => {
                        return Err(error);
                    },
                    Ok(colour) => {
                        let key = copy_range(fields[0].as_slice(), 0, fields[0].len());
                        assert(key@ =~= fields[0]@);
                        palette.insert(key, colour);
                    },
                }
            }
            index = index + 1;
        }
        Ok(())
    }

    #[verifier::loop_isolation(false)]
    fn parse_named(response: &[char], query: u8, name: &str, palette: &mut PaletteHashMap) -> (done:
        Result<(), ParseError>)
        requires
            old(palette).wf(),
        ensures
            final(palette).wf(),
            match named_pass(replies(response@, query), name@, old(palette)@) {
                Ok(table) => done is Ok && final(palette)@ == table,
                Err(error) => done == Err::<(), ParseError>(error),
            },
    {
        let words = OSC::reply_signature(query);
        let sequences = split_at_each(response, words.as_slice());
        let ghost all = pieces_view(sequences@);
        let prefix = to_chars("rgb");
        let mut index: usize = 1;
        while index < sequences.len()
            invariant
                palette.wf(),
                1 <= index <= sequences.len(),
                all == pieces_view(sequences@),
                prefix@ == "rgb"@,
                named_pass(all.skip(1), name@, old(palette)@) == named_pass(
                    all.skip(index as int),
                    name@,
                    palette@,
                ),
            decreases sequences.len() - index,
        {
            let ghost rest = all.skip(index as int);
            proof {
                assert(rest.drop_first() =~= all.skip(index + 1));
            }
            let sequence = &sequences[index];
            if sequence.len() > 0 && has_prefix(sequence.as_slice(), prefix.as_slice()) {
                match OSC::parse_rgb(sequence.as_slice()) {
                    Err(error) => {
                        return Err(error);
                    },
                    Ok(colour) => {
                        palette.insert(to_chars(name), colour);
                    },
                }
            }
            index = index + 1;
        }
        Ok(())
    }

    /// Reads the replies of a terminal into a table of colours.
    pub fn parse_colours(response: &str) -> (palette: Result<PaletteHashMap, ParseError>)
        ensures
            match parsed(response@) {
                Ok(table) => palette is Ok && palette->Ok_0@ == table && palette->Ok_0.wf(),
                Err(error) => palette == Err::<PaletteHashMap, ParseError>(error),
            },
            palette matches Ok(found) ==> only_keys(found@),
    {
        proof {
            lemma_parsed_keys(response@);
        }
        let characters = to_chars(response);
        let mut palette = PaletteHashMap::new();
        if let Err(error) = OSC::parse_indexed(characters.as_slice(), &mut palette) {
            return Err(error);
        }
        if let Err(error) = OSC::parse_named(
            characters.as_slice(),
            OSC_FOREGROUND_QUERY,
            FOREGROUND_COLOUR_KEY,
            &mut palette,
        ) {
            return Err(error);
        }
        if let Err(error) = OSC::parse_named(
            characters.as_slice(),
            OSC_BACKGROUND_QUERY,
            BACKGROUND_COLOUR_KEY,
            &mut palette,
        ) {
            return Err(error);
        }
        Ok(palette)
    }
}

/// The text that lossy decoding of UTF-8 makes of bytes.
pub uninterp spec fn lossy_text(bytes: Seq<u8>) -> Seq<char>;

/// `String::from_utf8_lossy` of std. The contract names the text that comes
/// back, a function of the bytes alone, and claims nothing of what it holds.
#[verifier::external_body]
fn decode_lossy(bytes: &[u8]) -> (text: String)
    ensures
        text@ == lossy_text(bytes@),
{
    String::from_utf8_lossy(bytes).into_owned()
}

/// The bytes without the zeros among them.
pub open spec fn without_zeros(bytes: Seq<u8>) -> Seq<u8>
    decreases bytes.len(),
{
    if bytes.len() == 0 {
        Seq::empty()
    } else if bytes.last() == 0 {
        without_zeros(bytes.drop_last())
    } else {
        without_zeros(bytes.drop_last()).push(bytes.last())
    }
}

/// A reply with its control characters written out as words: `ESC` for the
/// escape, `ST` for the string terminator, `BELL` for the bell.
pub open spec fn written_out(text: Seq<char>) -> Seq<char> {
    replaced(
        replaced(replaced(text, crate::utils::ESCAPE@, "ESC"@), crate::utils::STRING_TERMINATOR@, "ST"@),
        crate::utils::BELL@,
        "BELL"@,
    )
}

/// The query for one colour of the palette.
pub open spec fn index_query(index: nat) -> Seq<char> {
    crate::utils::ESCAPE@ + "]"@ + decimal(OSC_PALETTE_QUERY as nat) + ";"@ + decimal(index) + ";?"@
        + crate::utils::BELL@
}

/// The query for the foreground or the background.
pub open spec fn named_query(query: u8) -> Seq<char> {
    crate::utils::ESCAPE@ + "]"@ + decimal(query as nat) + ";?"@ + crate::utils::BELL@
}

/// The queries for the first `count` colours of the palette, one after the other.
pub open spec fn index_queries(count: nat) -> Seq<char>
    decreases count,
{
    if count == 0 {
        Seq::empty()
    } else {
        index_queries((count - 1) as nat) + index_query((count - 1) as nat)
    }
}

/// Everything that is asked of the terminal: its 256 indexed colours, its
/// foreground and its background.
pub open spec fn palette_query() -> Seq<char> {
    index_queries(256) + named_query(OSC_FOREGROUND_QUERY) + named_query(OSC_BACKGROUND_QUERY)
}

/// What has been read of the terminal's replies so far.
#[derive(Debug)]
pub struct ResponseReader {
    /// Every byte that was read, without zeros.
    pub all: Vec<u8>,
    /// How often the terminal has been read from.
    pub attempts: u16,
    /// How many colours the replies held when they were last parsed.
    pub found_count: usize,
}

/// What came of one read from the terminal.
#[derive(Debug)]
pub enum ReadEvent {
    /// Nothing came within the time allowed.
    TimedOut,
    /// The buffer after the read: what was read, and zeros behind it.
    Read(Vec<u8>),
}

/// What to do after one read from the terminal.
#[derive(Debug)]
pub enum ReadStep {
    /// The palette is whole.
    Complete(PaletteHashMap),
    /// Colours are still missing: read again.
    Again,
    /// The terminal took too long, or too many reads were needed.
    GiveUp { found_count: usize },
}

/// One more attempt, counted.
pub open spec fn counted(attempts: u16) -> u16 {
    if attempts < u16::MAX {
        (attempts + 1) as u16
    } else {
        attempts
    }
}

impl ReadStep {
    /// Whether a step is the one that follows from what the replies hold so far.
    pub open spec fn follows(self, all: Seq<u8>, found_before: usize, found_after: usize) -> bool {
        match parsed(written_out(lossy_text(all))) {
            Ok(table) => if table.dom().len() == REQUIRED_COLOURS {
                &&& self matches ReadStep::Complete(palette)
                &&& palette.wf()
                &&& palette@ == table
                &&& found_after == found_before
            } else {
                &&& self is Again
                &&& found_after == table.dom().len()
            },
            Err(_) => self is Again && found_after == found_before,
        }
    }
}

impl ResponseReader {
    /// A reader that has read nothing yet.
    pub fn new() -> (reader: ResponseReader)
        ensures
            reader.all@ == Seq::<u8>::empty(),
            reader.attempts == 0,
            reader.found_count == 0,
    {
        ResponseReader { all: Vec::new(), attempts: 0, found_count: 0 }
    }
}

impl OSC {
    /// Everything that is asked of the terminal, as one text.
    pub fn query() -> (command: String)
        ensures
            command@ == palette_query(),
    {
        let mut command = String::new();
        let mut index: usize = 0;
        while index < 256
            invariant
                index <= 256,
                command@ == index_queries(index as nat),
            decreases 256 - index,
        {
            crate::utils::push_text(&mut command, crate::utils::ESCAPE);
            crate::utils::push_text(&mut command, "]");
            crate::utils::push_decimal(&mut command, OSC_PALETTE_QUERY as usize);
            crate::utils::push_text(&mut command, ";");
            crate::utils::push_decimal(&mut command, index);
            crate::utils::push_text(&mut command, ";?");
            crate::utils::push_text(&mut command, crate::utils::BELL);
            index = index + 1;
        }
        crate::utils::push_text(&mut command, crate::utils::ESCAPE);
        crate::utils::push_text(&mut command, "]");
        crate::utils::push_decimal(&mut command, OSC_FOREGROUND_QUERY as usize);
        crate::utils::push_text(&mut command, ";?");
        crate::utils::push_text(&mut command, crate::utils::BELL);
        crate::utils::push_text(&mut command, crate::utils::ESCAPE);
        crate::utils::push_text(&mut command, "]");
        crate::utils::push_decimal(&mut command, OSC_BACKGROUND_QUERY as usize);
        crate::utils::push_text(&mut command, ";?");
        crate::utils::push_text(&mut command, crate::utils::BELL);
        command
    }

    /// The replies as they are parsed: decoded, with the control characters
    /// written out as words.
    pub fn decode_response(all: &[u8]) -> (response: String)
        ensures
            response@ == written_out(lossy_text(all@)),
    {
        let decoded = decode_lossy(all);
        let characters = to_chars(decoded.as_str());
        let escape = to_chars(crate::utils::ESCAPE);
        let terminator = to_chars(crate::utils::STRING_TERMINATOR);
        let bell = to_chars(crate::utils::BELL);
        proof {
            reveal_strlit("\x1b");
            reveal_strlit("\x1c");
            reveal_strlit("\x07");
        }
        let first = replace_all(characters.as_slice(), escape.as_slice(), to_chars("ESC").as_slice());
        let second = replace_all(first.as_slice(), terminator.as_slice(), to_chars("ST").as_slice());
        let third = replace_all(second.as_slice(), bell.as_slice(), to_chars("BELL").as_slice());
        from_chars(third.as_slice())
    }

    /// Takes in what one read from the terminal brought, and says how to go on.
    ///
    /// A read that timed out ends it, and so does one read too many. Of a
    /// buffer everything but zeros is kept. The replies so far are then
    /// parsed: a table with every colour is the palette; with fewer, or with
    /// replies that cannot be parsed yet, the terminal is read again.
    pub fn read_response_step(reader: &mut ResponseReader, event: ReadEvent) -> (step: ReadStep)
        ensures
            final(reader).attempts == counted(old(reader).attempts),
            match event {
                ReadEvent::TimedOut => {
                    &&& step == (ReadStep::GiveUp { found_count: old(reader).found_count })
                    &&& final(reader).all == old(reader).all
                    &&& final(reader).found_count == old(reader).found_count
                },
                ReadEvent::Read(buffer) => if counted(old(reader).attempts) > MAX_READ_ATTEMPTS {
                    &&& step == (ReadStep::GiveUp { found_count: old(reader).found_count })
                    &&& final(reader).all == old(reader).all
                    &&& final(reader).found_count == old(reader).found_count
                } else {
                    &&& final(reader).all@ == old(reader).all@ + without_zeros(buffer@)
                    &&& step.follows(
                        final(reader).all@,
                        old(reader).found_count,
                        final(reader).found_count,
                    )
                },
            },
    {
        if reader.attempts < u16::MAX {
            reader.attempts = reader.attempts + 1;
        }
        let buffer = match event {
            ReadEvent::TimedOut => {
                return ReadStep::GiveUp { found_count: reader.found_count };
            },
            ReadEvent::Read(buffer) => buffer,
        };
        if reader.attempts > MAX_READ_ATTEMPTS {
            return ReadStep::GiveUp { found_count: reader.found_count };
        }
        let mut index: usize = 0;
        while index < buffer.len()
            invariant
                index <= buffer.len(),
                reader.attempts == counted(old(reader).attempts),
                reader.found_count == old(reader).found_count,
                reader.all@ == old(reader).all@ + without_zeros(buffer@.take(index as int)),
            decreases buffer.len() - index,
        {
            proof {
                assert(buffer@.take(index + 1).drop_last() =~= buffer@.take(index as int));
            }
            if buffer[index] != 0 {
                reader.all.push(buffer[index]);
            }
            index = index + 1;
        }
        proof {
            assert(buffer@.take(index as int) =~= buffer@);
        }
        let response = OSC::decode_response(reader.all.as_slice());
        match OSC::parse_colours(response.as_str()) {
            Ok(colours) => {
                let found = colours.len();
                if found == REQUIRED_COLOURS as usize {
                    return ReadStep::Complete(colours);
                }
                reader.found_count = found;
                ReadStep::Again
            },
            Err(_) => ReadStep::Again,
        }
    }
}

impl crate::palette::converter::Palette {
    /// The palette that the replies of a terminal stand for. There is none
    /// unless the replies can be parsed and hold every colour: the 256
    /// indexed colours, the foreground and the background.
    pub fn from_osc(response: &str) -> (palette: Option<crate::palette::converter::Palette>)
        ensures
            match parsed(response@) {
                Ok(table) => if table.dom().len() == REQUIRED_COLOURS {
                    &&& palette matches Some(whole)
                    &&& whole.map.wf()
                    &&& whole.map@ == table
                } else {
                    palette is None
                },
                Err(_) => palette is None,
            },
    {
        match OSC::parse_colours(response) {
            Ok(map) => {
                if map.len() == REQUIRED_COLOURS as usize {
                    Some(crate::palette::converter::Palette { map })
                } else {
                    None
                }
            },
            Err(_) => None,
        }
    }
}

} // verus!
