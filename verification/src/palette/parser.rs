//! The palette as it is printed: a square of all its colours, framed and
//! marked so that it can be found again in a screenshot.
use crate::colour::PaletteColour;
use crate::palette::converter::Palette;
use crate::text::same_text;
use crate::utils::decimal;
use crate::utils::decimal_chars;
use crate::utils::push_decimal;
use crate::utils::push_text;
use crate::utils::NEWLINE;
use crate::utils::RESET_COLOUR;
use vstd::prelude::*;

verus! {

/// How many colours of the palette stand in a row of the square, each
/// cell holding two.
pub const PALETTE_ROW_SIZE: u8 = 16;

/// How many rows the square has.
pub const PALETTE_ROWS: u8 = 8;

/// The lower half block, in whose two halves two colours show.
pub const HALF_BLOCK: &'static str = "\u{2584}";

/// The top of the frame.
pub const FRAME_TOP: &'static str =
    "\u{256d}\u{2500}\u{2500}\u{2500}\u{2500}\u{2500}\u{2500}\u{2500}\u{2500}\u{2500}\u{2500}\u{2500}\u{2500}\u{2500}\u{2500}\u{2500}\u{2500}\u{2500}\u{2500}\u{256e}";

/// The bottom of the frame.
pub const FRAME_BOTTOM: &'static str =
    "\u{2570}\u{2500}\u{2500}\u{2500}\u{2500}\u{2500}\u{2500}\u{2500}\u{2500}\u{2500}\u{2500}\u{2500}\u{2500}\u{2500}\u{2500}\u{2500}\u{2500}\u{2500}\u{2500}\u{256f}";

/// The side of the frame.
pub const FRAME_SIDE: &'static str = "\u{2502}";

/// The answer that takes a screenshot.
pub const ANSWER_YES: &'static str = "y\n";

/// The answer that takes the default palette.
pub const ANSWER_DEFAULT: &'static str = "d\n";

/// The printing and parsing of the palette.
#[derive(Clone, Copy, Debug, Default)]
pub struct Parser;

/// What the user wants after the palette has been printed.
#[derive(Clone, Copy, Debug, PartialEq, Eq, Structural)]
pub enum ScreenshotChoice {
    /// A screenshot is taken and parsed.
    Screenshot,
    /// The default palette is used.
    DefaultPalette,
    /// Nothing: the program ends.
    Cancel,
}

/// A colour of the palette is missing.
#[derive(Clone, Copy, Debug, PartialEq, Eq, Structural)]
pub struct MissingColour {
    pub index: u8,
}

/// A text, and then the cell that shows two true colours: the first behind
/// the half block and the second in it.
pub open spec fn with_two_colours(text: Seq<char>, top: PaletteColour, bottom: PaletteColour) -> Seq<
    char,
> {
    text + "\x1b[48;2;"@ + decimal(top.0 as nat) + ";"@ + decimal(top.1 as nat) + ";"@ + decimal(
        top.2 as nat,
    ) + "m\x1b[38;2;"@ + decimal(bottom.0 as nat) + ";"@ + decimal(bottom.1 as nat) + ";"@
        + decimal(bottom.2 as nat) + "m"@ + HALF_BLOCK@ + RESET_COLOUR@
}

/// A text, and then the cell that shows two colours of the palette by
/// their indexes: the first behind the half block and the second in it.
pub open spec fn with_two_indexes(text: Seq<char>, background: u8, foreground: u8) -> Seq<char> {
    text + "\x1b[48;5;"@ + decimal(background as nat) + "m\x1b[38;5;"@ + decimal(foreground as nat)
        + "m"@ + HALF_BLOCK@ + RESET_COLOUR@
}

/// A text, and then the beginning of a row of the square: the side of the
/// frame, the red mark that numbers the row, and the blue mark.
pub open spec fn with_row_start(text: Seq<char>, y: u8) -> Seq<char> {
    with_two_colours(
        with_two_colours(
            text + FRAME_SIDE@,
            (255u8, (y * 2) as u8, 0u8),
            (255u8, (y * 2 + 1) as u8, 0u8),
        ),
        (0u8, 0u8, 255u8),
        (0u8, 0u8, 255u8),
    )
}

/// The index of the palette that stands behind the half block in column
/// `x` of row `y` of the square. The index in the half block is one row
/// of colours further.
pub open spec fn index_at(x: u8, y: u8) -> int {
    y * PALETTE_ROW_SIZE * 2 + x
}

/// A text, and then the first `count` cells of a row of the square drawn
/// by the indexes of the palette.
pub open spec fn with_native_cells(text: Seq<char>, y: u8, count: int) -> Seq<char>
    decreases count,
{
    if count <= 0 {
        text
    } else {
        with_two_indexes(
            with_native_cells(text, y, count - 1),
            index_at((count - 1) as u8, y) as u8,
            (index_at((count - 1) as u8, y) + PALETTE_ROW_SIZE) as u8,
        )
    }
}

/// A text, and then the first `count` rows of the square drawn by the
/// indexes of the palette.
pub open spec fn with_native_rows(text: Seq<char>, count: int) -> Seq<char>
    decreases count,
{
    if count <= 0 {
        text
    } else {
        with_native_cells(
            with_row_start(with_native_rows(text, count - 1), (count - 1) as u8),
            (count - 1) as u8,
            PALETTE_ROW_SIZE as int,
        ) + FRAME_SIDE@ + NEWLINE@
    }
}

/// The square of the palette, drawn by the indexes of its colours.
pub open spec fn native_palette() -> Seq<char> {
    with_native_rows(FRAME_TOP@ + NEWLINE@, PALETTE_ROWS as int) + FRAME_BOTTOM@ + NEWLINE@
}

/// A text, and then the first `count` cells of a row of the square drawn
/// in the true colours of a palette.
pub open spec fn with_true_cells(text: Seq<char>, palette: Palette, y: u8, count: int) -> Seq<char>
    decreases count,
{
    if count <= 0 {
        text
    } else {
        with_two_colours(
            with_true_cells(text, palette, y, count - 1),
            palette.map@[decimal(index_at((count - 1) as u8, y) as nat)],
            palette.map@[decimal((index_at((count - 1) as u8, y) + PALETTE_ROW_SIZE) as nat)],
        )
    }
}

/// A text, and then the first `count` rows of the square drawn in the true
/// colours of a palette.
pub open spec fn with_true_rows(text: Seq<char>, palette: Palette, count: int) -> Seq<char>
    decreases count,
{
    if count <= 0 {
        text
    } else {
        with_true_cells(
            with_row_start(with_true_rows(text, palette, count - 1), (count - 1) as u8),
            palette,
            (count - 1) as u8,
            PALETTE_ROW_SIZE as int,
        ) + FRAME_SIDE@ + NEWLINE@
    }
}

/// The square of a palette, drawn in its true colours.
pub open spec fn true_colour_palette(palette: Palette) -> Seq<char> {
    with_true_rows(FRAME_TOP@ + NEWLINE@, palette, PALETTE_ROWS as int) + FRAME_BOTTOM@ + NEWLINE@
}

/// What the user wants, by the answer.
pub open spec fn choice_of(answer: Seq<char>) -> ScreenshotChoice {
    if answer == ANSWER_YES@ {
        ScreenshotChoice::Screenshot
    } else if answer == ANSWER_DEFAULT@ {
        ScreenshotChoice::DefaultPalette
    } else {
        ScreenshotChoice::Cancel
    }
}

impl Parser {
    /// Appends the cell that shows two true colours in one: the first
    /// behind a half block and the second in it.
    pub fn print_2_true_colours_in_1(text: &mut String, top: PaletteColour, bottom: PaletteColour)
        ensures
            final(text)@ == with_two_colours(old(text)@, top, bottom),
    {
        push_text(text, "\x1b[48;2;");
        push_decimal(text, top.0 as usize);
        push_text(text, ";");
        push_decimal(text, top.1 as usize);
        push_text(text, ";");
        push_decimal(text, top.2 as usize);
        push_text(text, "m\x1b[38;2;");
        push_decimal(text, bottom.0 as usize);
        push_text(text, ";");
        push_decimal(text, bottom.1 as usize);
        push_text(text, ";");
        push_decimal(text, bottom.2 as usize);
        push_text(text, "m");
        push_text(text, HALF_BLOCK);
        push_text(text, RESET_COLOUR);
    }

    /// Appends the cell that shows two colours of the palette in one, by
    /// their indexes.
    pub fn print_2_indexes_in_1(text: &mut String, background: u8, foreground: u8)
        ensures
            final(text)@ == with_two_indexes(old(text)@, background, foreground),
    {
        push_text(text, "\x1b[48;5;");
        push_decimal(text, background as usize);
        push_text(text, "m\x1b[38;5;");
        push_decimal(text, foreground as usize);
        push_text(text, "m");
        push_text(text, HALF_BLOCK);
        push_text(text, RESET_COLOUR);
    }

    fn print_row_start(text: &mut String, y: u8)
        requires
            y < PALETTE_ROWS,
        ensures
            final(text)@ == with_row_start(old(text)@, y),
    {
        push_text(text, FRAME_SIDE);
        Parser::print_2_true_colours_in_1(text, (255, y * 2, 0), (255, y * 2 + 1, 0));
        Parser::print_2_true_colours_in_1(text, (0, 0, 255), (0, 0, 255));
    }

    /// The index of the palette that stands behind the half block in
    /// column `x` of row `y` of the square.
    pub fn palette_index(x: u8, y: u8) -> (index: u8)
        requires
            x < PALETTE_ROW_SIZE,
            y < PALETTE_ROWS,
        ensures
            index == index_at(x, y),
            index + PALETTE_ROW_SIZE <= u8::MAX,
    {
        y * PALETTE_ROW_SIZE * 2 + x
    }

    /// The square of the palette, drawn by the indexes of its colours.
    pub fn print_native_palette() -> (text: String)
        ensures
            text@ == native_palette(),
    {
        let mut text = String::new();
        push_text(&mut text, FRAME_TOP);
        push_text(&mut text, NEWLINE);
        let ghost top = text@;
        let mut y: u8 = 0;
        while y < PALETTE_ROWS
            invariant
                y <= PALETTE_ROWS,
                text@ == with_native_rows(top, y as int),
            decreases PALETTE_ROWS - y,
        {
            Parser::print_row_start(&mut text, y);
            let ghost start = text@;
            let mut x: u8 = 0;
            while x < PALETTE_ROW_SIZE
                invariant
                    y < PALETTE_ROWS,
                    x <= PALETTE_ROW_SIZE,
                    text@ == with_native_cells(start, y, x as int),
                decreases PALETTE_ROW_SIZE - x,
            {
                let palette_index = Parser::palette_index(x, y);
                Parser::print_2_indexes_in_1(
                    &mut text,
                    palette_index,
                    palette_index + PALETTE_ROW_SIZE,
                );
                x = x + 1;
            }
            push_text(&mut text, FRAME_SIDE);
            push_text(&mut text, NEWLINE);
            y = y + 1;
        }
        push_text(&mut text, FRAME_BOTTOM);
        push_text(&mut text, NEWLINE);
        text
    }

    /// What the user wants, by the answer: a screenshot, the default
    /// palette, or to give up.
    pub fn screenshot_choice(answer: &str) -> (choice: ScreenshotChoice)
        ensures
            choice == choice_of(answer@),
    {
        if same_text(answer, ANSWER_YES) {
            ScreenshotChoice::Screenshot
        } else if same_text(answer, ANSWER_DEFAULT) {
            ScreenshotChoice::DefaultPalette
        } else {
            ScreenshotChoice::Cancel
        }
    }

    /// Whether the palette is saved after the user has been asked if the
    /// two squares look the same: it is, on any answer but a plain yes.
    pub fn ask_if_palettes_look_the_same(answer: &str) -> (saved: bool)
        ensures
            saved == (answer@ != ANSWER_YES@),
    {
        !same_text(answer, ANSWER_YES)
    }
}

impl Palette {
    /// The square of the palette, drawn in its true colours, to be held
    /// against the square that the terminal draws by itself. A palette
    /// that lacks a colour cannot be drawn.
    pub fn print_true_colour_palette(&self) -> (made: Result<String, MissingColour>)
        requires
            self.map.wf(),
        ensures
            made is Ok <==> self.wf(),
            made matches Ok(text) ==> text@ == true_colour_palette(*self),
            made matches Err(missing) ==> !self.has_index(missing.index),
    {
        let mut text = String::new();
        push_text(&mut text, FRAME_TOP);
        push_text(&mut text, NEWLINE);
        let ghost top = text@;
        let mut y: u8 = 0;
        while y < PALETTE_ROWS
            invariant
                self.map.wf(),
                y <= PALETTE_ROWS,
                text@ == with_true_rows(top, *self, y as int),
                forall|index: u8| index < y * 32 ==> self.has_index(index),
            decreases PALETTE_ROWS - y,
        {
            Parser::print_row_start(&mut text, y);
            let ghost start = text@;
            let mut x: u8 = 0;
            while x < PALETTE_ROW_SIZE
                invariant
                    self.map.wf(),
                    y < PALETTE_ROWS,
                    x <= PALETTE_ROW_SIZE,
                    text@ == with_true_cells(start, *self, y, x as int),
                    forall|index: u8| index < y * 32 ==> self.has_index(index),
                    forall|index: u8| y * 32 <= index < y * 32 + x ==> self.has_index(index),
                    forall|index: u8| y * 32 + 16 <= index < y * 32 + 16 + x ==> self.has_index(index),
                decreases PALETTE_ROW_SIZE - x,
            {
                let palette_index = Parser::palette_index(x, y);
                let upper = decimal_chars(palette_index as usize);
                let lower = decimal_chars((palette_index + PALETTE_ROW_SIZE) as usize);
                let Some(bg) = self.map.get_chars(upper.as_slice()) else {
                    assert(!self.has_index(palette_index));
                    return Err(MissingColour { index: palette_index });
                };
                let Some(fg) = self.map.get_chars(lower.as_slice()) else {
                    assert(!self.has_index((palette_index + PALETTE_ROW_SIZE) as u8));
                    return Err(MissingColour { index: palette_index + PALETTE_ROW_SIZE });
                };
                Parser::print_2_true_colours_in_1(&mut text, bg, fg);
                x = x + 1;
            }
            push_text(&mut text, FRAME_SIDE);
            push_text(&mut text, NEWLINE);
            y = y + 1;
        }
        push_text(&mut text, FRAME_BOTTOM);
        push_text(&mut text, NEWLINE);
        Ok(text)
    }
}

} // verus!
