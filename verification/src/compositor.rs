//! Compositing: merging one cell with the cell of a layer above it.
use crate::blender::laid_over;
use crate::blender::Blender;
use crate::blender::Kind;
use crate::cell::first_or_space;
use crate::cell::glyph_of;
use crate::cell::is_unreadable;
use crate::cell::shown_character;
use crate::cell::Cell;
use crate::cell::CellAttributes;
use crate::cell::CellView;
use crate::cell::Glyph;
use crate::cell::LOWER_HALF_BLOCK;
use crate::cell::UPPER_HALF_BLOCK;
use crate::colour::Colour;
use crate::colour::ColourMath;
use crate::grid::Grid;
use crate::scalar::Scalar;
use crate::utils::decimal;
use crate::utils::push_decimal;
use crate::utils::push_text;
use vstd::prelude::*;

verus! {

/// Composites cells: alpha blending, text and pixels.
#[derive(Clone, Copy, Debug, Default)]
pub struct Compositor;

/// One of the two coordinates of a cell.
#[derive(Clone, Copy, Debug, PartialEq, Eq, Structural)]
pub enum Axis {
    X,
    Y,
}

/// A grid has no cell at a coordinate.
#[derive(Clone, Copy, Debug, PartialEq, Eq, Structural)]
pub struct CoordError {
    /// The coordinate that lies outside the grid; the row, where both do.
    pub axis: Axis,
    pub coord: usize,
}

/// The error of looking for a cell in column `x` of row `y`, if there is none.
pub open spec fn coord_error(cells: &Grid, x: usize, y: usize) -> Option<CoordError> {
    if y >= cells.height {
        Some(CoordError { axis: Axis::Y, coord: y })
    } else if x >= cells.width {
        Some(CoordError { axis: Axis::X, coord: x })
    } else {
        None
    }
}

/// Whether the cell above takes the place of the cell below: text always
/// does, a pixel does unless a pixel is below.
pub open spec fn replaces(below: Seq<char>, above: Seq<char>) -> bool {
    glyph_of(above) is Text || (glyph_of(above).is_pixel() && !glyph_of(below).is_pixel())
}

/// The text of a cell after the cell above has been composited onto it.
pub open spec fn composited_text(below: Seq<char>, above: Seq<char>) -> Seq<char> {
    if replaces(below, above) {
        seq![shown_character(first_or_space(above))]
    } else if below == seq![LOWER_HALF_BLOCK] && above == seq![UPPER_HALF_BLOCK] {
        seq![UPPER_HALF_BLOCK]
    } else {
        below
    }
}

/// The style of a cell after the cell above has been composited onto it.
pub open spec fn composited_style(below: CellView, above: CellView) -> u32 {
    if replaces(below.text, above.text) {
        above.attrs.style
    } else {
        below.attrs.style
    }
}

/// A cell after the cell above has taken its place, where it does: the
/// cell then takes the first character and the style of the cell above, and
/// keeps its own colours.
pub open spec fn placed_glyph(below: CellView, above: CellView) -> CellView {
    CellView {
        text: if replaces(below.text, above.text) {
            seq![shown_character(first_or_space(above.text))]
        } else {
            below.text
        },
        attrs: CellAttributes { style: composited_style(below, above), ..below.attrs },
    }
}

/// A cell with a lower half block under an upper half block turned into an
/// upper half block.
pub open spec fn canonical(cell: CellView, above: CellView) -> CellView {
    CellView {
        text: if cell.text == seq![LOWER_HALF_BLOCK] && above.text == seq![UPPER_HALF_BLOCK] {
            seq![UPPER_HALF_BLOCK]
        } else {
            cell.text
        },
        attrs: cell.attrs,
    }
}

/// A cell after the cell above has been composited onto it: the glyph is
/// placed, both colours of the cell above are laid over the colours that the
/// cell had, and a lower half block under an upper one becomes an upper one.
pub open spec fn composited_cell<M: ColourMath>(
    math: M,
    below: CellView,
    above: CellView,
    opacity: Scalar,
    default_bg_colour: Colour,
) -> CellView {
    canonical(
        (Blender { default_background: default_bg_colour, opacity }).all_blended(
            math,
            placed_glyph(below, above),
            above,
        ),
        above,
    )
}

/// A cell after the cell above has given it its foreground: a cell with
/// something to read takes the foreground that the cell above has when it is
/// composited onto a blank cell, whatever its own foreground was. A cell
/// with nothing to read stays as it is.
pub open spec fn tinted<M: ColourMath>(math: M, base: CellView, above: CellView, default_bg_colour: Colour) -> CellView {
    if is_unreadable(base.text) {
        base
    } else {
        CellView {
            text: base.text,
            attrs: CellAttributes {
                foreground: composited_cell(
                    math,
                    crate::grid::blank_cell(),
                    above,
                    Scalar { bits: crate::scalar::ONE_BITS },
                    default_bg_colour,
                ).attrs.foreground,
                ..base.attrs
            },
        }
    }
}

/// The colour that the pixels of a cell lay over a background: half way
/// between its two colours where it has both, the one colour where it has
/// one, and none where it has none.
pub open spec fn cursor_pixel_colour<M: ColourMath>(math: M, above: CellView) -> Option<Colour> {
    match (above.attrs.background.colour(), above.attrs.foreground.colour()) {
        (Some(background), Some(foreground)) => Some(math.mix_of(background, foreground)),
        (None, Some(foreground)) => Some(foreground),
        (Some(background), None) => Some(background),
        (None, None) => None,
    }
}

/// A cell after the pixels of the cell above have been laid over its
/// background. Everything else of the cell stays.
pub open spec fn cursor_blended<M: ColourMath>(
    math: M,
    base: CellView,
    above: CellView,
    opacity: Scalar,
    default_bg_colour: Colour,
) -> CellView {
    CellView {
        text: base.text,
        attrs: CellAttributes {
            background: laid_over(
                math,
                base.attrs.background,
                cursor_pixel_colour(math, above),
                default_bg_colour,
                opacity,
            ),
            ..base.attrs
        },
    }
}

/// Compositing a cell shows what `composited_text` and `composited_style` say.
pub proof fn lemma_composited_shows<M: ColourMath>(
    math: M,
    below: CellView,
    above: CellView,
    opacity: Scalar,
    default_bg_colour: Colour,
)
    ensures
        composited_cell(math, below, above, opacity, default_bg_colour).text == composited_text(
            below.text,
            above.text,
        ),
        composited_cell(math, below, above, opacity, default_bg_colour).attrs.style
            == composited_style(below, above),
{
    lemma_half_blocks();
}

/// The message that says which coordinate has no cell.
pub open spec fn coord_message(axis: Seq<char>, coord: usize) -> Seq<char> {
    "No "@ + axis + " coord ("@ + decimal(coord as nat) + ") for cell"@
}

impl CoordError {
    /// The error as a sentence.
    pub fn message(&self) -> (text: String)
        ensures
            self.axis == Axis::X ==> text@ == coord_message("x"@, self.coord),
            self.axis == Axis::Y ==> text@ == coord_message("y"@, self.coord),
    {
        match self.axis {
            Axis::X => Compositor::no_coord_error_message("x", self.coord),
            Axis::Y => Compositor::no_coord_error_message("y", self.coord),
        }
    }
}

impl Compositor {
    /// The cell in column `x` of row `y`, to change it.
    pub fn get_cell_mut(cells: &mut Grid, x: usize, y: usize) -> (found: Result<
        &mut Cell,
        CoordError,
    >)
        requires
            old(cells).wf(),
        ensures
            coord_error(old(cells), x, y) matches Some(error) ==> {
                &&& found == Err::<&mut Cell, CoordError>(error)
                &&& *final(cells) == *old(cells)
            },
            coord_error(old(cells), x, y) is None ==> {
                &&& found is Ok
                &&& (*found->Ok_0)@ == old(cells).cell(x as int, y as int)
                &&& final(cells).wf()
                &&& final(cells).same_but_at(old(cells), x as int, y as int)
                &&& final(cells).cell(x as int, y as int) == (*final(found->Ok_0))@
            },
    {
        if y >= cells.height {
            return Err(CoordError { axis: Axis::Y, coord: y });
        }
        if x >= cells.width {
            return Err(CoordError { axis: Axis::X, coord: x });
        }
        Ok(&mut cells.rows[y][x])
    }

    /// The cell in column `x` of row `y`.
    pub fn get_cell(cells: &Grid, x: usize, y: usize) -> (found: Result<&Cell, CoordError>)
        requires
            cells.wf(),
        ensures
            coord_error(cells, x, y) matches Some(error) ==> found == Err::<&Cell, CoordError>(
                error,
            ),
            coord_error(cells, x, y) is None ==> found is Ok && (*found->Ok_0)@ == cells.cell(
                x as int,
                y as int,
            ),
    {
        if y >= cells.height {
            return Err(CoordError { axis: Axis::Y, coord: y });
        }
        if x >= cells.width {
            return Err(CoordError { axis: Axis::X, coord: x });
        }
        Ok(&cells.rows[y][x])
    }

    /// The message for a coordinate at which a grid has no cell.
    pub fn no_coord_error_message(axis: &str, coord: usize) -> (message: String)
        ensures
            message@ == coord_message(axis@, coord),
    {
        let mut message = String::new();
        push_text(&mut message, "No ");
        push_text(&mut message, axis);
        push_text(&mut message, " coord (");
        push_decimal(&mut message, coord);
        push_text(&mut message, ") for cell");
        message
    }

    /// Gives the cell below the foreground that the cell above would have
    /// on an empty cell. A cell that holds nothing to read is left alone.
    pub fn composite_fg_colour_only<M: ColourMath>(
        base_cell: &mut Cell,
        cell_above: &Cell,
        default_bg_colour: Colour,
        math: &M,
    )
        ensures
            final(base_cell)@ == tinted(*math, old(base_cell)@, cell_above@, default_bg_colour),
    {
        if base_cell.is_unreadable() {
            return ;
        }
        let mut draft = Cell::blank();
        Compositor::composite_cells(&mut draft, cell_above, Scalar::one(), default_bg_colour, math);
        let colour = draft.attrs.foreground;
        base_cell.attrs.foreground = colour;
    }

    /// Blends the pixels of the cell above into the background of the cell
    /// below, and into nothing else: with both colours, half way between them;
    /// with one, that one.
    pub fn blend_cursor_pixel_into_text<M: ColourMath>(
        base_cell: &mut Cell,
        cell_above: &Cell,
        opacity: Scalar,
        default_bg_colour: Colour,
        math: &M,
    )
        ensures
            final(base_cell)@ == cursor_blended(
                *math,
                old(base_cell)@,
                cell_above@,
                opacity,
                default_bg_colour,
            ),
    {
        let blender = Blender::new(default_bg_colour, opacity);
        let maybe_foreground = Blender::extract_colour(cell_above.attrs.foreground);
        let maybe_background = Blender::extract_colour(cell_above.attrs.background);
        match (maybe_background, maybe_foreground) {
            (Some(bg_colour), Some(fg_colour)) => {
                let blended_colour = math.mix(bg_colour, fg_colour);
                blender.blend(base_cell, Kind::Background, blended_colour, math);
            },
            (None, Some(fg_colour)) => {
                blender.blend(base_cell, Kind::Background, fg_colour, math);
            },
            (Some(bg_colour), None) => {
                blender.blend(base_cell, Kind::Background, bg_colour, math);
            },
            (None, None) => {},
        }
    }

    /// Lets the cell above take the place of the cell below, where it does:
    /// the cell below then takes the first character and the style of the
    /// cell above, and keeps its own colours.
    pub fn place_glyph(composited_cell: &mut Cell, cell_above: &Cell)
        ensures
            final(composited_cell)@ == placed_glyph(old(composited_cell)@, cell_above@),
    {
        let glyph_above = cell_above.glyph();
        let is_composited_cell_pixel = match composited_cell.glyph() {
            Glyph::UpperHalf => true,
            Glyph::LowerHalf => true,
            _ => false,
        };
        let is_character_above_pixel = match glyph_above {
            Glyph::UpperHalf => true,
            Glyph::LowerHalf => true,
            _ => false,
        };
        let is_character_above_text = match glyph_above {
            Glyph::Text => true,
            _ => false,
        };
        let is_pixel_onto_non_pixel = is_character_above_pixel && !is_composited_cell_pixel;

        if is_character_above_text || is_pixel_onto_non_pixel {
            let character = cell_above.first_character();
            let mut attributes = cell_above.attrs;
            attributes.foreground = composited_cell.attrs.foreground;
            attributes.background = composited_cell.attrs.background;
            *composited_cell = Cell::new(character, attributes);
        }
    }

    /// Turns a lower half block under an upper half block into an upper
    /// half block. The attributes stay.
    pub fn canonicalise(composited_cell: &mut Cell, cell_above: &Cell)
        ensures
            final(composited_cell)@ == canonical(old(composited_cell)@, cell_above@),
    {
        let is_lower_below = match composited_cell.glyph() {
            Glyph::LowerHalf => true,
            _ => false,
        };
        let is_upper_above = match cell_above.glyph() {
            Glyph::UpperHalf => true,
            _ => false,
        };
        proof {
            lemma_half_blocks();
        }
        if is_lower_below && is_upper_above {
            *composited_cell = Cell::new(UPPER_HALF_BLOCK, composited_cell.attrs);
        }
    }

    /// Composites the cell above onto the cell below.
    ///
    /// Text above takes the place of whatever is below. A pixel above takes
    /// the place of what is no pixel. Where the cell below is replaced it
    /// takes the first character and the style of the cell above, and keeps
    /// its own colours for the blend. Both colours of the cell above are then
    /// laid over those of the cell below. A lower half block under an upper
    /// half block becomes an upper half block.
    pub fn composite_cells<M: ColourMath>(
        composited_cell: &mut Cell,
        cell_above: &Cell,
        opacity: Scalar,
        default_bg_colour: Colour,
        math: &M,
    )
        ensures
            final(composited_cell)@ == crate::compositor::composited_cell(
                *math,
                old(composited_cell)@,
                cell_above@,
                opacity,
                default_bg_colour,
            ),
    {
        Compositor::place_glyph(composited_cell, cell_above);
        let blender = Blender::new(default_bg_colour, opacity);
        blender.blend_all(composited_cell, cell_above, math);
        proof {
            lemma_half_blocks();
        }
        Compositor::canonicalise(composited_cell, cell_above);
    }

    /// Moves the foreground of a cell away from its background until the two
    /// are `target_text_contrast` apart.
    pub fn auto_text_contrast<M: ColourMath>(
        composited_cell: &mut Cell,
        target_text_contrast: Scalar,
        apply_to_readable_text_only: bool,
        default_bg_colour: Colour,
        math: &M,
    )
        ensures
            final(composited_cell)@ == (Blender {
                default_background: default_bg_colour,
                opacity: Scalar { bits: crate::scalar::ONE_BITS },
            }).contrasted(
                *math,
                old(composited_cell)@,
                target_text_contrast,
                apply_to_readable_text_only,
            ),
    {
        let blender = Blender::new(default_bg_colour, Scalar::one());
        blender.ensure_readable_contrast(
            composited_cell,
            target_text_contrast,
            apply_to_readable_text_only,
            math,
        );
    }

    /// Composites the indicator onto the cell in column `x` of row `y`.
    pub fn add_indicator<M: ColourMath>(
        cells: &mut Grid,
        indicator_cell: &Cell,
        x: usize,
        y: usize,
        default_bg_colour: Colour,
        math: &M,
    ) -> (added: Result<(), CoordError>)
        requires
            old(cells).wf(),
        ensures
            final(cells).wf(),
            coord_error(old(cells), x, y) matches Some(error) ==> {
                &&& added == Err::<(), CoordError>(error)
                &&& *final(cells) == *old(cells)
            },
            coord_error(old(cells), x, y) is None ==> {
                &&& added is Ok
                &&& final(cells).same_but_at(old(cells), x as int, y as int)
                &&& final(cells).cell(x as int, y as int) == composited_cell(
                    *math,
                    old(cells).cell(x as int, y as int),
                    indicator_cell@,
                    Scalar { bits: crate::scalar::ONE_BITS },
                    default_bg_colour,
                )
            },
    {
        match Compositor::get_cell_mut(cells, x, y) {
            Err(error) => Err(error),
            Ok(composited_cell) => {
                Compositor::composite_cells(
                    composited_cell,
                    indicator_cell,
                    Scalar::one(),
                    default_bg_colour,
                    math,
                );
                Ok(())
            },
        }
    }

    /// The text of the cell under the cursor once it is cleaned: a half
    /// block becomes a space.
    pub open spec fn cleaned_text(text: Seq<char>) -> Seq<char> {
        if glyph_of(text).is_pixel() {
            seq![' ']
        } else {
            text
        }
    }

    /// Takes a half block out of the cell under the cursor, so that cursor and
    /// pixels do not meet. The attributes stay. Without a cell under the
    /// cursor nothing changes.
    pub fn clean_cursor_cell(cells: &mut Grid, cursor_x: usize, cursor_y: usize)
        requires
            old(cells).wf(),
        ensures
            final(cells).wf(),
            !old(cells).contains(cursor_x as int, cursor_y as int) ==> *final(cells) == *old(cells),
            old(cells).contains(cursor_x as int, cursor_y as int) ==> {
                &&& final(cells).same_but_at(old(cells), cursor_x as int, cursor_y as int)
                &&& final(cells).cell(cursor_x as int, cursor_y as int).text
                    == Compositor::cleaned_text(old(cells).cell(cursor_x as int, cursor_y as int).text)
                &&& final(cells).cell(cursor_x as int, cursor_y as int).attrs == old(cells).cell(
                    cursor_x as int,
                    cursor_y as int,
                ).attrs
            },
    {
        match Compositor::get_cell_mut(cells, cursor_x, cursor_y) {
            Err(_) => {},
            Ok(composited_cell) => {
                match composited_cell.glyph() {
                    Glyph::UpperHalf => {
                        *composited_cell = Cell::new(' ', composited_cell.attrs);
                    },
                    Glyph::LowerHalf => {
                        *composited_cell = Cell::new(' ', composited_cell.attrs);
                    },
                    _ => {},
                }
            },
        }
    }
}

/// The two half blocks are glyphs of their own: neither is empty, and they differ.
pub proof fn lemma_half_blocks()
    ensures
        glyph_of(seq![UPPER_HALF_BLOCK]) == Glyph::UpperHalf,
        glyph_of(seq![LOWER_HALF_BLOCK]) == Glyph::LowerHalf,
        glyph_of(seq![' ']) == Glyph::Empty,
        forall|text: Seq<char>| glyph_of(text) == Glyph::UpperHalf ==> text == seq![UPPER_HALF_BLOCK],
        forall|text: Seq<char>| glyph_of(text) == Glyph::LowerHalf ==> text == seq![LOWER_HALF_BLOCK],
{
    assert(seq![UPPER_HALF_BLOCK][0] == UPPER_HALF_BLOCK);
    assert(seq![LOWER_HALF_BLOCK][0] == LOWER_HALF_BLOCK);
}

} // verus!
