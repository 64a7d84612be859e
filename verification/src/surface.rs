//! Surfaces: the grid that one layer draws on, with text and with pixels.
use crate::blender::paint;
use crate::blender::Blender;
use crate::blender::Kind;
use crate::cell::glyph_of;
use crate::cell::shown_character;
use crate::cell::Cell;
use crate::cell::CellAttributes;
use crate::cell::CellView;
use crate::cell::Glyph;
use crate::cell::LOWER_HALF_BLOCK;
use crate::cell::UPPER_HALF_BLOCK;
use crate::colour::Colour;
use crate::colour::ColourAttribute;
use crate::colour::ColourMath;
use crate::compositor::lemma_half_blocks;
use crate::compositor::Axis;
use crate::compositor::CoordError;
use crate::grid::Grid;
use crate::scalar::Scalar;
use crate::scalar::ONE_BITS;
use vstd::prelude::*;
use vstd::std_specs::iter::IteratorSpec;

verus! {

/// Opaque white.
pub open spec fn white() -> Colour {
    Colour {
        red: Scalar { bits: ONE_BITS },
        green: Scalar { bits: ONE_BITS },
        blue: Scalar { bits: ONE_BITS },
        alpha: Scalar { bits: ONE_BITS },
    }
}

/// Opaque white: the colour of a pixel that names none.
pub fn white_colour() -> (colour: Colour)
    ensures
        colour == white(),
{
    Colour { red: Scalar::one(), green: Scalar::one(), blue: Scalar::one(), alpha: Scalar::one() }
}

/// One layer of the final picture: a grid of cells under a name, with the
/// layer that it lies on and its opacity.
///
/// A cell holds two pixels, one above the other. The upper half block shows
/// the upper pixel in the foreground colour and the lower pixel in the
/// background colour. A lower half block shows a lower pixel alone, in the
/// foreground colour.
#[derive(Debug)]
pub struct Surface {
    pub id: String,
    /// The width that the surface announces. Zero says that the layer is gone.
    pub width: usize,
    /// The height that the surface announces. Zero says that the layer is gone.
    pub height: usize,
    /// Below zero the layer lies under the terminal's own screen, above zero
    /// over it, and at zero it takes its place.
    pub layer: i16,
    pub opacity: Scalar,
    pub grid: Grid,
}

/// The attribute of a colour that may be missing.
pub open spec fn optional_paint(colour: Option<Colour>) -> ColourAttribute {
    match colour {
        Some(colour) => paint(colour),
        None => ColourAttribute::Default,
    }
}

/// A cell that shows no text, after a pixel has been added to its upper or
/// its lower half.
pub open spec fn with_pixel(cell: CellView, is_top: bool, colour: Colour) -> CellView {
    match glyph_of(cell.text) {
        Glyph::LowerHalf => if is_top {
            CellView {
                text: seq![UPPER_HALF_BLOCK],
                attrs: CellAttributes {
                    foreground: paint(colour),
                    background: cell.attrs.foreground,
                    ..cell.attrs
                },
            }
        } else {
            CellView { attrs: CellAttributes { foreground: paint(colour), ..cell.attrs }, ..cell }
        },
        Glyph::UpperHalf => if is_top {
            CellView { attrs: CellAttributes { foreground: paint(colour), ..cell.attrs }, ..cell }
        } else {
            CellView { attrs: CellAttributes { background: paint(colour), ..cell.attrs }, ..cell }
        },
        _ => CellView {
            text: if is_top {
                seq![UPPER_HALF_BLOCK]
            } else {
                seq![LOWER_HALF_BLOCK]
            },
            attrs: CellAttributes { foreground: paint(colour), ..cell.attrs },
        },
    }
}

/// The colour of the upper pixel of a cell, if it shows one.
pub open spec fn upper_pixel(cell: CellView) -> Option<Colour> {
    match glyph_of(cell.text) {
        Glyph::UpperHalf => cell.attrs.foreground.colour(),
        _ => None,
    }
}

/// The colour of the lower pixel of a cell, if it shows one.
pub open spec fn lower_pixel(cell: CellView) -> Option<Colour> {
    match glyph_of(cell.text) {
        Glyph::UpperHalf => cell.attrs.background.colour(),
        Glyph::LowerHalf => cell.attrs.foreground.colour(),
        _ => None,
    }
}

/// What a cell is after a pixel has been added: a cell without text is
/// `with_pixel`. A cell with text keeps text and foreground; the pixel
/// becomes its background, blended over the colour that the background had
/// if it had one.
pub open spec fn pixel_added<M: ColourMath>(math: M, before: CellView, is_top: bool, colour: Colour) -> CellView {
    if glyph_of(before.text) is Text {
        CellView {
            text: before.text,
            attrs: CellAttributes {
                background: match before.attrs.background.colour() {
                    Some(behind) => paint(
                        math.blend_of(behind, colour, Scalar { bits: ONE_BITS }),
                    ),
                    None => paint(colour),
                },
                ..before.attrs
            },
        }
    } else {
        with_pixel(before, is_top, colour)
    }
}

/// The cell that a character of a text is written as.
pub open spec fn text_cell(character: char, bg: Option<Colour>, fg: Option<Colour>) -> CellView {
    CellView {
        text: seq![shown_character(character)],
        attrs: CellAttributes {
            foreground: optional_paint(fg),
            background: optional_paint(bg),
            style: 0,
        },
    }
}

/// The error of adding a pixel in column `x` and pixel row `y`, if there is no cell for it.
pub open spec fn pixel_error(grid: &Grid, x: usize, y: usize) -> Option<CoordError> {
    if y / 2 >= grid.height {
        Some(CoordError { axis: Axis::Y, coord: y })
    } else if x >= grid.width {
        Some(CoordError { axis: Axis::X, coord: x })
    } else {
        None
    }
}

impl Surface {
    /// The grid is a rectangle.
    pub open spec fn wf(&self) -> bool {
        self.grid.wf()
    }

    /// Whether the surface says that its layer is gone.
    pub open spec fn is_removal(&self) -> bool {
        self.width == 0 || self.height == 0
    }

    /// A surface of blank cells.
    pub fn new(id: String, width: usize, height: usize, layer: i16, opacity: Scalar) -> (surface:
        Surface)
        ensures
            surface.wf(),
            surface.id == id,
            surface.width == width,
            surface.height == height,
            surface.layer == layer,
            surface.opacity == opacity,
            surface.grid.width == width,
            surface.grid.height == height,
            forall|x: int, y: int|
                surface.grid.contains(x, y) ==> #[trigger] surface.grid.cell(x, y)
                    == crate::grid::blank_cell(),
    {
        Surface { id, width, height, layer, opacity, grid: Grid::new(width, height) }
    }

    /// A copy of the surface.
    pub fn duplicate(&self) -> (copy: Surface)
        requires
            self.wf(),
        ensures
            copy.wf(),
            copy.id@ == self.id@,
            copy.width == self.width,
            copy.height == self.height,
            copy.layer == self.layer,
            copy.opacity == self.opacity,
            copy.grid.same_size(&self.grid),
            copy.grid.cursor == self.grid.cursor,
            forall|x: int, y: int|
                self.grid.contains(x, y) ==> #[trigger] copy.grid.cell(x, y) == self.grid.cell(x, y),
    {
        Surface {
            id: self.id.clone(),
            width: self.width,
            height: self.height,
            layer: self.layer,
            opacity: self.opacity,
            grid: self.grid.duplicate(),
        }
    }

    /// Writes a text into row `y`, from column `x` to the right, one
    /// character to a cell, with the given colours and no style. What does
    /// not fit into the row is left out.
    pub fn add_text(&mut self, x: usize, y: usize, text: String, bg: Option<Colour>, fg: Option<Colour>)
        requires
            old(self).wf(),
        ensures
            final(self).wf(),
            final(self).id == old(self).id,
            final(self).width == old(self).width,
            final(self).height == old(self).height,
            final(self).layer == old(self).layer,
            final(self).opacity == old(self).opacity,
            final(self).grid.same_size(&old(self).grid),
            final(self).grid.cursor == old(self).grid.cursor,
            forall|i: int, j: int|
                old(self).grid.contains(i, j) ==> #[trigger] final(self).grid.cell(i, j) == (if j == y
                    && x <= i < x + text@.len() {
                    text_cell(text@[i - x], bg, fg)
                } else {
                    old(self).grid.cell(i, j)
                }),
    {
        if y >= self.grid.height || x >= self.grid.width {
            return ;
        }
        let room: usize = self.grid.width - x;
        let foreground = match fg {
            Some(colour) => ColourAttribute::TrueColourWithDefaultFallback(colour),
            None => ColourAttribute::Default,
        };
        let background = match bg {
            Some(colour) => ColourAttribute::TrueColourWithDefaultFallback(colour),
            None => ColourAttribute::Default,
        };
        let attrs = CellAttributes { foreground, background, style: 0 };
        let mut chars = text.as_str().chars();
        let mut written: usize = 0;
        while written < room
            invariant
                self.wf(),
                y < self.grid.height,
                x < self.grid.width,
                room == self.grid.width - x,
                written <= room,
                written <= text@.len(),
                chars.remaining() == text@.subrange(written as int, text@.len() as int),
                attrs == text_cell(' ', bg, fg).attrs,
                self.id == old(self).id,
                self.width == old(self).width,
                self.height == old(self).height,
                self.layer == old(self).layer,
                self.opacity == old(self).opacity,
                self.grid.same_size(&old(self).grid),
                self.grid.cursor == old(self).grid.cursor,
                forall|i: int, j: int|
                    old(self).grid.contains(i, j) ==> #[trigger] self.grid.cell(i, j) == (if j == y
                        && x <= i < x + written {
                        text_cell(text@[i - x], bg, fg)
                    } else {
                        old(self).grid.cell(i, j)
                    }),
            ensures
                written == room || written == text@.len(),
            decreases room - written,
        {
            match chars.next() {
                None => {
                    break ;
                },
                Some(character) => {
                    self.grid.set(x + written, y, Cell::new(character, attrs));
                    written = written + 1;
                },
            }
        }
    }

    /// Adds a pixel in column `x` and pixel row `y`. The rows of pixels are
    /// counted from the top, two to each row of cells.
    ///
    /// On a cell without text the pixel becomes the upper or the lower half of
    /// a half block, and what the other half showed stays. On a cell with
    /// text the text stays, and the pixel is laid over its background.
    pub fn add_pixel<M: ColourMath>(&mut self, x: usize, y: usize, colour: Colour, math: &M) -> (added:
        Result<(), CoordError>)
        requires
            old(self).wf(),
        ensures
            final(self).wf(),
            final(self).id == old(self).id,
            final(self).width == old(self).width,
            final(self).height == old(self).height,
            final(self).layer == old(self).layer,
            final(self).opacity == old(self).opacity,
            pixel_error(&old(self).grid, x, y) matches Some(error) ==> {
                &&& added == Err::<(), CoordError>(error)
                &&& final(self).grid == old(self).grid
            },
            pixel_error(&old(self).grid, x, y) is None ==> {
                &&& added is Ok
                &&& final(self).grid.same_but_at(&old(self).grid, x as int, y as int / 2)
                &&& final(self).grid.cell(x as int, y as int / 2) == pixel_added(
                    *math,
                    old(self).grid.cell(x as int, y as int / 2),
                    y % 2 == 0,
                    colour,
                )
            },
    {
        let row: usize = y / 2;
        let is_top: bool = y % 2 == 0;
        if row >= self.grid.height {
            return Err(CoordError { axis: Axis::Y, coord: y });
        }
        if x >= self.grid.width {
            return Err(CoordError { axis: Axis::X, coord: x });
        }
        let attribute = ColourAttribute::TrueColourWithDefaultFallback(colour);
        let cell = &mut self.grid.rows[row][x];
        proof {
            lemma_half_blocks();
        }
        match cell.glyph() {
            Glyph::Text => {
                match Blender::extract_colour(cell.attrs.background) {
                    Some(_) => {
                        let blender = Blender::new(colour, Scalar::one());
                        blender.blend(cell, Kind::Background, colour, math);
                    },
                    None => {
                        cell.attrs.background = attribute;
                    },
                }
            },
            Glyph::LowerHalf => {
                if is_top {
                    let mut attrs = cell.attrs;
                    attrs.background = cell.attrs.foreground;
                    attrs.foreground = attribute;
                    *cell = Cell::new(UPPER_HALF_BLOCK, attrs);
                } else {
                    cell.attrs.foreground = attribute;
                }
            },
            Glyph::UpperHalf => {
                if is_top {
                    cell.attrs.foreground = attribute;
                } else {
                    cell.attrs.background = attribute;
                }
            },
            Glyph::Empty => {
                let mut attrs = cell.attrs;
                attrs.foreground = attribute;
                if is_top {
                    *cell = Cell::new(UPPER_HALF_BLOCK, attrs);
                } else {
                    *cell = Cell::new(LOWER_HALF_BLOCK, attrs);
                }
            },
        }
        Ok(())
    }
}

/// Two pixels go into one cell and come out again: after a pixel has been
/// added to the upper half of a cell without text and another to its lower
/// half, in either order, the cell is an upper half block whose upper pixel
/// is the first colour and whose lower pixel is the second.
pub proof fn lemma_pixels_round_trip(cell: CellView, upper: Colour, lower: Colour)
    requires
        !(glyph_of(cell.text) is Text),
    ensures
        with_pixel(with_pixel(cell, true, upper), false, lower).text == seq![UPPER_HALF_BLOCK],
        upper_pixel(with_pixel(with_pixel(cell, true, upper), false, lower)) == Some(upper),
        lower_pixel(with_pixel(with_pixel(cell, true, upper), false, lower)) == Some(lower),
        with_pixel(with_pixel(cell, false, lower), true, upper) == with_pixel(
            with_pixel(cell, true, upper),
            false,
            lower,
        ),
{
    lemma_half_blocks();
}

} // verus!
