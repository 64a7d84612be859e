//! Cells: one character position of a terminal, with its text and colours.
use crate::colour::ColourAttribute;
use vstd::prelude::*;
use vstd::std_specs::iter::IteratorSpec;

verus! {

/// The glyph whose upper half is filled: the upper of the two pixels of a cell.
pub const UPPER_HALF_BLOCK: char = '\u{2580}';

/// The glyph whose lower half is filled: the lower of the two pixels of a cell.
pub const LOWER_HALF_BLOCK: char = '\u{2584}';

/// The first character that is no control character.
pub const FIRST_PRINTABLE: char = ' ';

/// The one control character that follows the printable ASCII characters.
pub const DELETE: char = '\u{7f}';

/// Whether a character is white space as Unicode defines it.
pub uninterp spec fn is_whitespace(character: char) -> bool;

/// `char::is_whitespace` of std. The documentation refers to the Unicode
/// property `White_Space`, which the contract names without spelling it out;
/// it adds only that the space character has the property.
pub assume_specification[ char::is_whitespace ](character: char) -> (whitespace: bool)
    ensures
        whitespace == is_whitespace(character),
        character == ' ' ==> whitespace,
;

/// The colours and style of a cell.
#[derive(Clone, Copy, Debug, PartialEq, Eq, Structural)]
pub struct CellAttributes {
    pub foreground: ColourAttribute,
    pub background: ColourAttribute,
    /// Bold, underline and the other styles, one bit each.
    pub style: u32,
}

impl CellAttributes {
    /// Attributes without colours and without style.
    pub fn blank() -> (attributes: CellAttributes)
        ensures
            attributes == (CellAttributes {
                foreground: ColourAttribute::Default,
                background: ColourAttribute::Default,
                style: 0,
            }),
    {
        CellAttributes {
            foreground: ColourAttribute::Default,
            background: ColourAttribute::Default,
            style: 0,
        }
    }

    /// The colour of the text.
    pub fn foreground(&self) -> (attribute: ColourAttribute)
        ensures
            attribute == self.foreground,
    {
        self.foreground
    }

    /// The colour behind the text.
    pub fn background(&self) -> (attribute: ColourAttribute)
        ensures
            attribute == self.background,
    {
        self.background
    }

    /// Gives the text another colour.
    pub fn set_foreground(&mut self, attribute: ColourAttribute)
        ensures
            *final(self) == (CellAttributes { foreground: attribute, ..*old(self) }),
    {
        self.foreground = attribute;
    }

    /// Puts another colour behind the text.
    pub fn set_background(&mut self, attribute: ColourAttribute)
        ensures
            *final(self) == (CellAttributes { background: attribute, ..*old(self) }),
    {
        self.background = attribute;
    }
}

/// What kind of thing a cell shows.
#[derive(Clone, Copy, Debug, PartialEq, Eq, Structural)]
pub enum Glyph {
    /// Nothing: no text at all, or one space.
    Empty,
    /// The upper half block.
    UpperHalf,
    /// The lower half block.
    LowerHalf,
    /// Anything else.
    Text,
}

impl Glyph {
    /// Whether the glyph is one of the two half blocks.
    pub open spec fn is_pixel(self) -> bool {
        self is UpperHalf || self is LowerHalf
    }
}

/// The kind of a cell's text.
pub open spec fn glyph_of(text: Seq<char>) -> Glyph {
    if text.len() == 0 || text == seq![' '] {
        Glyph::Empty
    } else if text == seq![UPPER_HALF_BLOCK] {
        Glyph::UpperHalf
    } else if text == seq![LOWER_HALF_BLOCK] {
        Glyph::LowerHalf
    } else {
        Glyph::Text
    }
}

/// Whether a text holds nothing to read: only white space and half blocks.
pub open spec fn is_unreadable(text: Seq<char>) -> bool {
    forall|i: int|
        0 <= i < text.len() ==> is_whitespace(#[trigger] text[i]) || text[i] == UPPER_HALF_BLOCK
            || text[i] == LOWER_HALF_BLOCK
}

/// A character as a cell shows it: a control character becomes a space.
pub open spec fn shown_character(character: char) -> char {
    if character < FIRST_PRINTABLE || character == DELETE {
        ' '
    } else {
        character
    }
}

/// A text as a cell holds it: an empty text, a carriage return with a line
/// feed, and a single control character each become one space.
pub open spec fn shown_text(text: Seq<char>) -> Seq<char> {
    if text.len() == 0 || text == seq!['\r', '\n'] {
        seq![' ']
    } else if text.len() == 1 {
        seq![shown_character(text[0])]
    } else {
        text
    }
}

/// One character position: its text and its attributes.
#[derive(Debug)]
pub struct Cell {
    pub text: String,
    pub attrs: CellAttributes,
}

/// A cell as a value: its characters and its attributes.
pub struct CellView {
    pub text: Seq<char>,
    pub attrs: CellAttributes,
}

impl View for Cell {
    type V = CellView;

    open spec fn view(&self) -> CellView {
        CellView { text: self.text@, attrs: self.attrs }
    }
}

impl Clone for Cell {
    fn clone(&self) -> (copy: Cell)
        ensures
            copy@ == self@,
    {
        Cell { text: self.text.clone(), attrs: self.attrs }
    }
}

impl Cell {
    /// A cell that shows one space, without colours or style.
    pub fn blank() -> (cell: Cell)
        ensures
            cell@.text == seq![' '],
            cell@.attrs == (CellAttributes {
                foreground: ColourAttribute::Default,
                background: ColourAttribute::Default,
                style: 0,
            }),
    {
        Cell::new(' ', CellAttributes::blank())
    }

    /// A cell that shows one character. A control character is shown as a space.
    pub fn new(character: char, attrs: CellAttributes) -> (cell: Cell)
        ensures
            cell@.text == seq![shown_character(character)],
            cell@.attrs == attrs,
    {
        let shown: char = if character < FIRST_PRINTABLE || character == DELETE {
            ' '
        } else {
            character
        };
        let mut text = String::new();
        text.push(shown);
        Cell { text, attrs }
    }

    /// A cell that shows a whole grapheme: a character with what combines with it.
    pub fn new_grapheme(text: &str, attrs: CellAttributes) -> (cell: Cell)
        ensures
            cell@.text == shown_text(text@),
            cell@.attrs == attrs,
    {
        let mut chars = text.chars();
        let first = chars.next();
        let second = chars.next();
        let third = chars.next();
        match (first, second, third) {
            (None, _, _) => Cell::new(' ', attrs),
            (Some(only), None, _) => {
                Cell::new(only, attrs)
            },
            (Some('\r'), Some('\n'), None) => {
                assert(text@ =~= seq!['\r', '\n']);
                Cell::new(' ', attrs)
            },
            _ => {
                assert(text@ != seq!['\r', '\n']);
                Cell { text: text.to_owned(), attrs }
            },
        }
    }

    /// The text of the cell.
    pub fn str(&self) -> (text: &str)
        ensures
            text@ == self@.text,
    {
        self.text.as_str()
    }

    /// The attributes of the cell.
    pub fn attrs(&self) -> (attrs: &CellAttributes)
        ensures
            *attrs == self@.attrs,
    {
        &self.attrs
    }

    /// The attributes of the cell, to change them.
    pub fn attrs_mut(&mut self) -> (attrs: &mut CellAttributes)
        ensures
            *attrs == old(self)@.attrs,
            final(self)@.text == old(self)@.text,
            final(self)@.attrs == *final(attrs),
    {
        &mut self.attrs
    }

    /// What kind of thing the cell shows.
    pub fn glyph(&self) -> (glyph: Glyph)
        ensures
            glyph == glyph_of(self@.text),
    {
        let mut chars = self.text.as_str().chars();
        let first = chars.next();
        let second = chars.next();
        match (first, second) {
            (None, _) => Glyph::Empty,
            (Some(only), None) => {
                assert(self.text@ =~= seq![only]);
                if only == ' ' {
                    Glyph::Empty
                } else if only == UPPER_HALF_BLOCK {
                    Glyph::UpperHalf
                } else if only == LOWER_HALF_BLOCK {
                    Glyph::LowerHalf
                } else {
                    Glyph::Text
                }
            },
            (Some(_), Some(_)) => {
                Glyph::Text
            },
        }
    }

    /// Whether the cell holds nothing to read: only white space and half blocks.
    pub fn is_unreadable(&self) -> (unreadable: bool)
        ensures
            unreadable == is_unreadable(self@.text),
    {
        let mut chars = self.text.as_str().chars();
        let ghost all: Seq<char> = self.text@;
        let ghost mut seen: int = 0;
        loop
            invariant
                0 <= seen <= all.len(),
                all == self.text@,
                chars.remaining() == all.subrange(seen, all.len() as int),
                forall|i: int|
                    0 <= i < seen ==> is_whitespace(#[trigger] all[i]) || all[i]
                        == UPPER_HALF_BLOCK || all[i] == LOWER_HALF_BLOCK,
            decreases all.len() - seen,
        {
            match chars.next() {
                None => {
                    return true;
                },
                Some(character) => {
                    if !(character.is_whitespace() || character == UPPER_HALF_BLOCK || character
                        == LOWER_HALF_BLOCK) {
                        return false;
                    }
                    proof {
                        assert(all.subrange(seen, all.len() as int).drop_first() =~= all.subrange(
                            seen + 1,
                            all.len() as int,
                        ));
                        seen = seen + 1;
                    }
                },
            }
        }
    }

    /// The first character of the cell's text, or a space where it has none.
    pub fn first_character(&self) -> (character: char)
        ensures
            character == first_or_space(self@.text),
    {
        let mut chars = self.text.as_str().chars();
        match chars.next() {
            Some(character) => character,
            None => ' ',
        }
    }
}

/// The first character of a text, or a space where it has none.
pub open spec fn first_or_space(text: Seq<char>) -> char {
    if text.len() > 0 {
        text[0]
    } else {
        ' '
    }
}

} // verus!
