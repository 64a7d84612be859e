//! The renderer: keeps the latest surface of every layer and composites them
//! with the screen of the terminal into one frame.
use crate::blender::Blender;
use crate::cell::glyph_of;
use crate::cell::Cell;
use crate::cell::CellAttributes;
use crate::cell::CellView;
use crate::cell::UPPER_HALF_BLOCK;
use crate::colour::Colour;
use crate::colour::ColourAttribute;
use crate::colour::ColourMath;
use crate::blender::graded_cell;
use crate::compositor::composited_cell;
use crate::compositor::composited_style;
use crate::compositor::composited_text;
use crate::compositor::cursor_blended;
use crate::compositor::lemma_composited_shows;
use crate::compositor::tinted;
use crate::compositor::coord_error;
use crate::compositor::Compositor;
use crate::compositor::CoordError;
use crate::config::Config;
use crate::grid::CursorShape;
use crate::grid::CursorVisibility;
use crate::grid::Grid;
use crate::run::FrameUpdate;
use crate::run::Protocol;
use crate::scalar::Scalar;
use crate::scalar::ONE_BITS;
use crate::surface::Surface;
use crate::text::comes_before;
use crate::text::is_before;
use crate::text::lemma_before_is_total;
use crate::text::lemma_before_is_transitive;
use crate::text::same_text;
use vstd::prelude::*;

verus! {

/// How many microseconds a second has.
pub const ONE_MICROSECOND: u64 = 1_000_000;

/// After how many milliseconds without any update the size of the user's
/// terminal is looked at again.
pub const CHECK_FOR_RESIZE_RATE: u64 = 30;

/// How many updates may wait for the renderer. While any waits, the renderer
/// takes updates in and paints nothing.
pub const MAX_FRAME_BACKLOG: usize = 100;

/// With how many waiting updates the backlog is worth a warning.
pub const BACKLOG_WARNING: usize = 5;

/// The name of the layer of the shader.
pub const SHADER_ID: &'static str = "shader";

/// The name of the layer of the animated cursor.
pub const ANIMATED_CURSOR_ID: &'static str = "animated_cursor";

/// The bit pattern of the alpha of the indicator: seven tenths.
pub const INDICATOR_ALPHA_BITS: u32 = 0x3f33_3333;

/// Where a layer lies relative to the screen of the terminal.
#[derive(Clone, Copy, Debug, PartialEq, Eq, Structural)]
pub enum Level {
    Below,
    /// In place of the screen.
    Replacing,
    Above,
}

/// The level of a layer.
pub open spec fn level_of(layer: i16) -> Level {
    if layer < 0 {
        Level::Below
    } else if layer == 0 {
        Level::Replacing
    } else {
        Level::Above
    }
}

/// Whether a layer is drawn among those of a level. A layer of another
/// size than the frame is left out, and so is the shader where it is not to
/// be drawn, and the animated cursor where it lies just below zero.
pub open spec fn is_drawn(surface: Surface, level: Level, config: Config, size: (usize, usize)) -> bool {
    &&& level_of(surface.layer) == level
    &&& !(surface.id@ == SHADER_ID@ && !config.shader.render)
    &&& !(surface.id@ == ANIMATED_CURSOR_ID@ && config.animated_cursor.layer == -1)
    &&& (surface.grid.width, surface.grid.height) == size
}

/// The cell in column `x` of row `y` after the first `count` layers have
/// been composited onto `base`, each that is drawn in its turn and at its
/// own opacity. A layer that is not drawn leaves the cell as it was.
pub open spec fn stacked<M: ColourMath>(
    math: M,
    tattoys: Seq<Surface>,
    count: int,
    level: Level,
    config: Config,
    size: (usize, usize),
    default_bg_colour: Colour,
    base: CellView,
    x: int,
    y: int,
) -> CellView
    decreases count,
{
    if count <= 0 {
        base
    } else {
        let below = stacked(math, tattoys, count - 1, level, config, size, default_bg_colour, base, x, y);
        if is_drawn(tattoys[count - 1], level, config, size) {
            composited_cell(
                math,
                below,
                tattoys[count - 1].grid.cell(x, y),
                tattoys[count - 1].opacity,
                default_bg_colour,
            )
        } else {
            below
        }
    }
}

/// The surface of a name among the surfaces, if there is one.
pub open spec fn layer_named(tattoys: Seq<Surface>, id: Seq<char>) -> Option<Surface>
    decreases tattoys.len(),
{
    if tattoys.len() == 0 {
        None
    } else if tattoys.last().id@ == id {
        Some(tattoys.last())
    } else {
        layer_named(tattoys.drop_last(), id)
    }
}

/// Among surfaces of distinct names, the surface of a name is the one that
/// bears it, wherever it stands; and there is none where no surface bears it.
pub proof fn lemma_layer_named(tattoys: Seq<Surface>, id: Seq<char>)
    requires
        distinct_ids(tattoys),
    ensures
        (forall|i: int| 0 <= i < tattoys.len() ==> (#[trigger] tattoys[i]).id@ != id) ==> layer_named(
            tattoys,
            id,
        ) is None,
        forall|at: int|
            0 <= at < tattoys.len() && (#[trigger] tattoys[at]).id@ == id ==> layer_named(tattoys, id)
                == Some(tattoys[at]),
    decreases tattoys.len(),
{
    if tattoys.len() > 0 {
        let front = tattoys.drop_last();
        lemma_layer_named(front, id);
        assert(tattoys[tattoys.len() - 1] == tattoys.last());
        assert forall|at: int| 0 <= at < tattoys.len() && (#[trigger] tattoys[at]).id@ == id implies layer_named(
            tattoys,
            id,
        ) == Some(tattoys[at]) by {
            if at < tattoys.len() - 1 {
                assert(front[at] == tattoys[at]);
            }
        }
    }
}

/// The surfaces without the one of a name.
pub open spec fn without(tattoys: Seq<Surface>, id: Seq<char>) -> Seq<Surface>
    decreases tattoys.len(),
{
    if tattoys.len() == 0 {
        Seq::empty()
    } else if tattoys.last().id@ == id {
        without(tattoys.drop_last(), id)
    } else {
        without(tattoys.drop_last(), id).push(tattoys.last())
    }
}

/// Whether one surface is drawn before another: the one of the lower layer
/// is, and of two surfaces of one layer the one whose name comes first in
/// the dictionary.
pub open spec fn goes_before(first: Surface, second: Surface) -> bool {
    first.layer < second.layer || (first.layer == second.layer && comes_before(
        first.id@,
        second.id@,
    ))
}

/// The surfaces with one more, which stands behind every surface that is
/// drawn before it.
pub open spec fn placed(tattoys: Seq<Surface>, surface: Surface) -> Seq<Surface>
    decreases tattoys.len(),
{
    if tattoys.len() == 0 {
        seq![surface]
    } else if goes_before(tattoys.last(), surface) {
        tattoys.push(surface)
    } else {
        placed(tattoys.drop_last(), surface).push(tattoys.last())
    }
}

/// The surfaces after an update: the surface of the same name is gone, and
/// the new one is in its layer unless it says that the layer is gone.
pub open spec fn updated(tattoys: Seq<Surface>, surface: Surface) -> Seq<Surface> {
    if surface.is_removal() {
        without(tattoys, surface.id@)
    } else {
        placed(without(tattoys, surface.id@), surface)
    }
}

/// No name stands twice among the surfaces.
pub open spec fn distinct_ids(tattoys: Seq<Surface>) -> bool {
    forall|i: int, j: int|
        0 <= i < j < tattoys.len() ==> (#[trigger] tattoys[i]).id@ != (#[trigger] tattoys[j]).id@
}

/// The surfaces stand in the order in which they are drawn: by their
/// layers, the lowest first, and within a layer by their names.
pub open spec fn ordered(tattoys: Seq<Surface>) -> bool {
    forall|i: int, j: int|
        0 <= i < j < tattoys.len() ==> goes_before(#[trigger] tattoys[i], #[trigger] tattoys[j])
}

/// What is drawn before a surface is drawn before everything that the
/// surface is drawn before.
pub proof fn lemma_goes_before_is_transitive(first: Surface, second: Surface, third: Surface)
    requires
        goes_before(first, second),
        goes_before(second, third),
    ensures
        goes_before(first, third),
{
    if first.layer == second.layer && second.layer == third.layer {
        lemma_before_is_transitive(first.id@, second.id@, third.id@);
    }
}

/// Every surface is a rectangle.
pub open spec fn all_wf(tattoys: Seq<Surface>) -> bool {
    forall|i: int| 0 <= i < tattoys.len() ==> (#[trigger] tattoys[i]).wf()
}

/// Without the surface of a name, the surfaces are what they were with that
/// one taken out; and what they were, if none had the name.
pub proof fn lemma_without(tattoys: Seq<Surface>, id: Seq<char>)
    requires
        distinct_ids(tattoys),
    ensures
        (forall|i: int| 0 <= i < tattoys.len() ==> (#[trigger] tattoys[i]).id@ != id) ==> without(
            tattoys,
            id,
        ) == tattoys,
        forall|at: int|
            0 <= at < tattoys.len() && (#[trigger] tattoys[at]).id@ == id ==> without(tattoys, id)
                == tattoys.remove(at),
    decreases tattoys.len(),
{
    if tattoys.len() > 0 {
        let front = tattoys.drop_last();
        lemma_without(front, id);
        if forall|i: int| 0 <= i < tattoys.len() ==> (#[trigger] tattoys[i]).id@ != id {
            assert(tattoys[tattoys.len() - 1].id@ != id);
            assert(front.push(tattoys.last()) =~= tattoys);
        }
    }
}

/// A surface that is placed among ordered surfaces stands behind the
/// surfaces that are drawn before it and in front of all others, and the
/// surfaces are ordered still.
pub proof fn lemma_placed(tattoys: Seq<Surface>, surface: Surface, at: int)
    requires
        ordered(tattoys),
        0 <= at <= tattoys.len(),
        forall|i: int| 0 <= i < tattoys.len() ==> (#[trigger] tattoys[i]).id@ != surface.id@,
        forall|i: int| 0 <= i < at ==> goes_before(#[trigger] tattoys[i], surface),
        forall|i: int| at <= i < tattoys.len() ==> !goes_before(#[trigger] tattoys[i], surface),
    ensures
        placed(tattoys, surface) == tattoys.insert(at, surface),
        ordered(tattoys.insert(at, surface)),
    decreases tattoys.len(),
{
    let result = tattoys.insert(at, surface);
    assert(ordered(result)) by {
        assert forall|i: int, j: int| 0 <= i < j < result.len() implies goes_before(
            #[trigger] result[i],
            #[trigger] result[j],
        ) by {
            if i == at {
                lemma_before_is_total(tattoys[j - 1].id@, surface.id@);
            }
        }
    }
    if 0 < tattoys.len() && at < tattoys.len() {
        lemma_placed(tattoys.drop_last(), surface, at);
    }
}

/// The keeper of the frame.
#[derive(Debug)]
pub struct Renderer {
    /// The width of the user's terminal.
    pub width: u16,
    /// The height of the user's terminal.
    pub height: u16,
    /// The latest surface of every layer, the lowest layer first. Surfaces
    /// of one layer stand in the order of their names.
    pub tattoys: Vec<Surface>,
    /// The latest screen of the shadow terminal.
    pub pty: Grid,
    /// The frame that everything is composited onto.
    pub frame: Grid,
    /// The little mark that shows that the compositor runs.
    pub indicator_cell: Cell,
    /// Whether the cursor may show.
    pub is_cursor_visible: bool,
}

/// How the cursor of the user's terminal is to be left after a frame has
/// been painted.
#[derive(Clone, Copy, Debug, PartialEq, Eq, Structural)]
pub struct CursorPlan {
    pub x: usize,
    pub y: usize,
    pub shape: Option<CursorShape>,
    pub visibility: CursorVisibility,
}

/// The colour of the indicator: the blue of the program, somewhat transparent.
pub open spec fn indicator_colour() -> Option<Colour> {
    match crate::colour::colour_of_name(crate::utils::TATTOY_BLUE@) {
        Some(colour) => Some(Colour { alpha: Scalar { bits: INDICATOR_ALPHA_BITS }, ..colour }),
        None => None,
    }
}

/// The indicator could not be made: its colour is no colour.
#[derive(Clone, Copy, Debug, PartialEq, Eq, Structural)]
pub struct IndicatorError;

/// Whether the cell of the animated cursor has a colour to lay over a
/// background: its foreground is a colour, and not black without any
/// transparency.
pub open spec fn cursor_shows(cursor: CellView) -> bool {
    match cursor.attrs.foreground.colour() {
        Some(colour) => !colour.is_opaque_black(),
        None => false,
    }
}

/// A cell of the frame after the cell of the screen has been composited onto
/// it at full opacity. While layers are drawn, three things follow in this
/// order: the cell of the shader, where there is one, gives what can be read
/// its foreground; the cell of the animated cursor, where there is one and it
/// has a colour to show, is laid over the background; and the contrast of the
/// foreground is secured where the settings ask for it.
pub open spec fn screen_cell<M: ColourMath>(
    math: M,
    is_rendering: bool,
    config: Config,
    default_bg_colour: Colour,
    below: CellView,
    pty: CellView,
    shader: Option<CellView>,
    cursor: Option<CellView>,
) -> CellView {
    let placed = composited_cell(math, below, pty, Scalar { bits: ONE_BITS }, default_bg_colour);
    if !is_rendering {
        placed
    } else {
        let coloured = match shader {
            Some(above) => tinted(math, placed, above, default_bg_colour),
            None => placed,
        };
        let lit = match cursor {
            Some(above) => if cursor_shows(above) {
                cursor_blended(math, coloured, above, config.animated_cursor.opacity, default_bg_colour)
            } else {
                coloured
            },
            None => coloured,
        };
        if config.text_contrast.enabled {
            (Blender { default_background: default_bg_colour, opacity: Scalar { bits: ONE_BITS } }).contrasted(
                math,
                lit,
                config.text_contrast.target_contrast,
                config.text_contrast.apply_to_readable_text_only,
            )
        } else {
            lit
        }
    }
}

/// The screen cell shows what compositing the cell of the screen shows:
/// shader, cursor and contrast change colours only.
pub proof fn lemma_screen_cell_shows<M: ColourMath>(
    math: M,
    is_rendering: bool,
    config: Config,
    default_bg_colour: Colour,
    below: CellView,
    pty: CellView,
    shader: Option<CellView>,
    cursor: Option<CellView>,
)
    ensures
        screen_cell(math, is_rendering, config, default_bg_colour, below, pty, shader, cursor).text
            == composited_text(below.text, pty.text),
        screen_cell(math, is_rendering, config, default_bg_colour, below, pty, shader, cursor).attrs.style
            == composited_style(below, pty),
{
    lemma_composited_shows(math, below, pty, Scalar { bits: ONE_BITS }, default_bg_colour);
}

/// Composites a layer onto a frame of the same size, cell by cell.
pub fn composite_layer<M: ColourMath>(
    frame: &mut Grid,
    layer: &Grid,
    opacity: Scalar,
    default_bg_colour: Colour,
    math: &M,
)
    requires
        old(frame).wf(),
        layer.wf(),
        layer.same_size(old(frame)),
    ensures
        final(frame).wf(),
        final(frame).same_size(old(frame)),
        final(frame).cursor == old(frame).cursor,
        forall|x: int, y: int|
            old(frame).contains(x, y) ==> #[trigger] final(frame).cell(x, y) == composited_cell(
                *math,
                old(frame).cell(x, y),
                layer.cell(x, y),
                opacity,
                default_bg_colour,
            ),
{
    let mut y: usize = 0;
    while y < frame.height
        invariant
            frame.wf(),
            layer.wf(),
            layer.same_size(frame),
            frame.same_size(old(frame)),
            frame.cursor == old(frame).cursor,
            y <= frame.height,
            forall|i: int, j: int|
                old(frame).contains(i, j) ==> (if j < y {
                    #[trigger] frame.cell(i, j) == composited_cell(
                        *math,
                        old(frame).cell(i, j),
                        layer.cell(i, j),
                        opacity,
                        default_bg_colour,
                    )
                } else {
                    frame.cell(i, j) == old(frame).cell(i, j)
                }),
        decreases frame.height - y,
    {
        let mut x: usize = 0;
        while x < frame.width
            invariant
                frame.wf(),
                layer.wf(),
                layer.same_size(frame),
                frame.same_size(old(frame)),
                frame.cursor == old(frame).cursor,
                y < frame.height,
                x <= frame.width,
                forall|i: int, j: int|
                    old(frame).contains(i, j) ==> (if j < y || (j == y && i < x) {
                        #[trigger] frame.cell(i, j) == composited_cell(
                            *math,
                            old(frame).cell(i, j),
                            layer.cell(i, j),
                            opacity,
                            default_bg_colour,
                        )
                    } else {
                        frame.cell(i, j) == old(frame).cell(i, j)
                    }),
            decreases frame.width - x,
        {
            let ghost before = *frame;
            let cell = &mut frame.rows[y][x];
            Compositor::composite_cells(cell, &layer.rows[y][x], opacity, default_bg_colour, math);
            proof {
                assert forall|i: int, j: int| old(frame).contains(i, j) implies (if j < y || (j == y
                    && i < x + 1) {
                    #[trigger] frame.cell(i, j) == composited_cell(
                        *math,
                        old(frame).cell(i, j),
                        layer.cell(i, j),
                        opacity,
                        default_bg_colour,
                    )
                } else {
                    frame.cell(i, j) == old(frame).cell(i, j)
                }) by {
                    if !(i == x && j == y) {
                        assert(frame.cell(i, j) == before.cell(i, j));
                    }
                }
            }
            x = x + 1;
        }
        y = y + 1;
    }
}

/// Grades the colours of every cell of a frame. What the cells show stays.
pub fn grade_frame<M: ColourMath>(
    frame: &mut Grid,
    saturation: Scalar,
    brightness: Scalar,
    hue: Scalar,
    math: &M,
)
    requires
        old(frame).wf(),
    ensures
        final(frame).wf(),
        final(frame).same_size(old(frame)),
        final(frame).cursor == old(frame).cursor,
        forall|x: int, y: int|
            old(frame).contains(x, y) ==> #[trigger] final(frame).cell(x, y) == graded_cell(
                *math,
                old(frame).cell(x, y),
                saturation,
                brightness,
                hue,
            ),
{
    let mut y: usize = 0;
    while y < frame.height
        invariant
            frame.wf(),
            frame.same_size(old(frame)),
            frame.cursor == old(frame).cursor,
            y <= frame.height,
            forall|i: int, j: int|
                old(frame).contains(i, j) ==> (if j < y {
                    #[trigger] frame.cell(i, j) == graded_cell(*math, old(frame).cell(i, j), saturation, brightness, hue)
                } else {
                    frame.cell(i, j) == old(frame).cell(i, j)
                }),
        decreases frame.height - y,
    {
        let mut x: usize = 0;
        while x < frame.width
            invariant
                frame.wf(),
                frame.same_size(old(frame)),
                frame.cursor == old(frame).cursor,
                y < frame.height,
                x <= frame.width,
                forall|i: int, j: int|
                    old(frame).contains(i, j) ==> (if j < y || (j == y && i < x) {
                        #[trigger] frame.cell(i, j) == graded_cell(*math, old(frame).cell(i, j), saturation, brightness, hue)
                    } else {
                        frame.cell(i, j) == old(frame).cell(i, j)
                    }),
            decreases frame.width - x,
        {
            let ghost before = *frame;
            let cell = &mut frame.rows[y][x];
            Blender::grade(cell, saturation, brightness, hue, math);
            proof {
                assert forall|i: int, j: int| old(frame).contains(i, j) implies (if j < y || (j == y
                    && i < x + 1) {
                    #[trigger] frame.cell(i, j) == graded_cell(*math, old(frame).cell(i, j), saturation, brightness, hue)
                } else {
                    frame.cell(i, j) == old(frame).cell(i, j)
                }) by {
                    if !(i == x && j == y) {
                        assert(frame.cell(i, j) == before.cell(i, j));
                    }
                }
            }
            x = x + 1;
        }
        y = y + 1;
    }
}

/// Composites the screen of the terminal onto one cell of the frame, and
/// lets the shader, the animated cursor and the contrast act on the result.
///
/// The cell of the shader gives the text its colour. The cell of the
/// animated cursor is laid over the background, unless its foreground is
/// missing or opaque black. None of them changes what the cell shows.
pub fn render_pty_cell<M: ColourMath>(
    frame_cell: &mut Cell,
    pty_cell: &Cell,
    shader_cell: Option<&Cell>,
    cursor_cell: Option<&Cell>,
    is_rendering: bool,
    config: &Config,
    default_bg_colour: Colour,
    math: &M,
)
    ensures
        final(frame_cell)@ == screen_cell(
            *math,
            is_rendering,
            *config,
            default_bg_colour,
            old(frame_cell)@,
            pty_cell@,
            match shader_cell {
                Some(cell) => Some(cell@),
                None => None,
            },
            match cursor_cell {
                Some(cell) => Some(cell@),
                None => None,
            },
        ),
{
    Compositor::composite_cells(frame_cell, pty_cell, Scalar::one(), default_bg_colour, math);
    if !is_rendering {
        return ;
    }
    if let Some(shader_cell) = shader_cell {
        Compositor::composite_fg_colour_only(frame_cell, shader_cell, default_bg_colour, math);
    }
    if let Some(cursor_cell) = cursor_cell {
        let maybe_fg = Blender::extract_colour(cursor_cell.attrs.foreground);
        if let Some(fg) = maybe_fg {
            if !fg.equals(Colour::opaque_black()) {
                Compositor::blend_cursor_pixel_into_text(
                    frame_cell,
                    cursor_cell,
                    config.animated_cursor.opacity,
                    default_bg_colour,
                    math,
                );
            }
        }
    }
    if config.text_contrast.enabled {
        Compositor::auto_text_contrast(
            frame_cell,
            config.text_contrast.target_contrast,
            config.text_contrast.apply_to_readable_text_only,
            default_bg_colour,
            math,
        );
    }
}

impl Renderer {
    /// Every grid is a rectangle, no name stands twice among the layers, and
    /// the layers stand in their order.
    pub open spec fn wf(&self) -> bool {
        &&& self.pty.wf()
        &&& self.frame.wf()
        &&& all_wf(self.tattoys@)
        &&& distinct_ids(self.tattoys@)
        &&& ordered(self.tattoys@)
    }

    /// The size of the user's terminal.
    pub open spec fn size(&self) -> (usize, usize) {
        (self.width as usize, self.height as usize)
    }

    /// Whether a layer takes the place of the screen.
    pub open spec fn is_replaced(&self) -> bool {
        exists|i: int| 0 <= i < self.tattoys.len() && (#[trigger] self.tattoys[i]).layer == 0
    }

    /// The little mark that shows that the compositor runs: an upper half
    /// block in the blue of the program.
    pub fn indicator_cell() -> (made: Result<Cell, IndicatorError>)
        ensures
            match indicator_colour() {
                Some(colour) => {
                    &&& made is Ok
                    &&& made->Ok_0@.text == seq![UPPER_HALF_BLOCK]
                    &&& made->Ok_0@.attrs == (CellAttributes {
                        foreground: ColourAttribute::TrueColourWithDefaultFallback(colour),
                        background: ColourAttribute::Default,
                        style: 0,
                    })
                },
                None => made is Err,
            },
    {
        match Colour::from_name(crate::utils::TATTOY_BLUE) {
            Some(rgba) => {
                let colour = rgba.with_alpha(Scalar::from_bits(INDICATOR_ALPHA_BITS));
                let mut attributes = CellAttributes::blank();
                attributes.set_foreground(ColourAttribute::TrueColourWithDefaultFallback(colour));
                Ok(Cell::new(UPPER_HALF_BLOCK, attributes))
            },
            None => Err(IndicatorError),
        }
    }

    /// A renderer for a terminal of the given size, without layers yet.
    pub fn new(width: u16, height: u16) -> (made: Result<Renderer, IndicatorError>)
        ensures
            indicator_colour() is Some <==> made is Ok,
            made matches Ok(renderer) ==> {
                &&& renderer.wf()
                &&& renderer.width == width
                &&& renderer.height == height
                &&& renderer.tattoys.len() == 0
                &&& renderer.is_cursor_visible
                &&& (renderer.frame.width, renderer.frame.height) == renderer.size()
                &&& (renderer.pty.width, renderer.pty.height) == renderer.size()
            },
    {
        match Renderer::indicator_cell() {
            Err(error) => Err(error),
            Ok(indicator_cell) => Ok(
                Renderer {
                    width,
                    height,
                    tattoys: Vec::new(),
                    pty: Grid::new(width as usize, height as usize),
                    frame: Grid::new(width as usize, height as usize),
                    indicator_cell,
                    is_cursor_visible: true,
                },
            ),
        }
    }

    /// Where the layer of a name stands among the layers.
    pub fn position_of(&self, id: &str) -> (found: Option<usize>)
        ensures
            found matches Some(at) ==> at < self.tattoys.len() && self.tattoys[at as int].id@ == id@,
            found is None ==> forall|i: int|
                0 <= i < self.tattoys.len() ==> (#[trigger] self.tattoys[i]).id@ != id@,
    {
        let mut index: usize = 0;
        while index < self.tattoys.len()
            invariant
                index <= self.tattoys.len(),
                forall|i: int| 0 <= i < index ==> (#[trigger] self.tattoys[i]).id@ != id@,
            decreases self.tattoys.len() - index,
        {
            if same_text(self.tattoys[index].id.as_str(), id) {
                return Some(index);
            }
            index = index + 1;
        }
        None
    }

    /// Decides `goes_before`.
    pub fn is_drawn_before(first: &Surface, second: &Surface) -> (before: bool)
        ensures
            before == goes_before(*first, *second),
    {
        if first.layer != second.layer {
            return first.layer < second.layer;
        }
        let first_id = crate::text::to_chars(first.id.as_str());
        let second_id = crate::text::to_chars(second.id.as_str());
        is_before(first_id.as_slice(), second_id.as_slice())
    }

    /// Takes the layer of a name away.
    pub fn remove_tattoy(&mut self, id: &str)
        requires
            old(self).wf(),
        ensures
            final(self).wf(),
            final(self).tattoys@ == without(old(self).tattoys@, id@),
            final(self).width == old(self).width,
            final(self).height == old(self).height,
            final(self).pty == old(self).pty,
            final(self).frame == old(self).frame,
            final(self).indicator_cell == old(self).indicator_cell,
            final(self).is_cursor_visible == old(self).is_cursor_visible,
            forall|i: int|
                0 <= i < final(self).tattoys.len() ==> (#[trigger] final(self).tattoys[i]).id@ != id@,
    {
        proof {
            lemma_without(self.tattoys@, id@);
        }
        match self.position_of(id) {
            None => {},
            Some(at) => {
                self.tattoys.remove(at);
            },
        }
    }

    /// Puts a surface among the layers, in place of the one of its name.
    pub fn insert_tattoy(&mut self, surface: Surface)
        requires
            old(self).wf(),
            surface.wf(),
        ensures
            final(self).wf(),
            final(self).tattoys@ == placed(without(old(self).tattoys@, surface.id@), surface),
            final(self).width == old(self).width,
            final(self).height == old(self).height,
            final(self).pty == old(self).pty,
            final(self).frame == old(self).frame,
            final(self).indicator_cell == old(self).indicator_cell,
            final(self).is_cursor_visible == old(self).is_cursor_visible,
    {
        self.remove_tattoy(surface.id.as_str());
        let mut at: usize = self.tattoys.len();
        while at > 0 && !Renderer::is_drawn_before(&self.tattoys[at - 1], &surface)
            invariant
                at <= self.tattoys.len(),
                forall|i: int|
                    at <= i < self.tattoys.len() ==> !goes_before(
                        #[trigger] self.tattoys[i],
                        surface,
                    ),
            decreases at,
        {
            at = at - 1;
        }
        let ghost before = self.tattoys@;
        proof {
            assert forall|i: int| 0 <= i < at implies goes_before(#[trigger] before[i], surface) by {
                if i < at - 1 {
                    lemma_goes_before_is_transitive(before[i], before[at - 1], surface);
                }
            }
            lemma_placed(before, surface, at as int);
        }
        self.tattoys.insert(at, surface);
    }

    /// Takes in the new surface of a layer. A surface without width or
    /// height takes the layer away.
    pub fn update_tattoy(&mut self, surface: Surface)
        requires
            old(self).wf(),
            surface.wf(),
        ensures
            final(self).wf(),
            final(self).tattoys@ == updated(old(self).tattoys@, surface),
            final(self).width == old(self).width,
            final(self).height == old(self).height,
            final(self).pty == old(self).pty,
            final(self).frame == old(self).frame,
            final(self).indicator_cell == old(self).indicator_cell,
            final(self).is_cursor_visible == old(self).is_cursor_visible,
    {
        if surface.width == 0 || surface.height == 0 {
            self.remove_tattoy(surface.id.as_str());
        } else {
            self.insert_tattoy(surface);
        }
    }

    /// Takes the latest screen of the shadow terminal as its own.
    pub fn get_updated_pty_frame(&mut self, shadow_tty_screen: &Grid)
        requires
            old(self).wf(),
            shadow_tty_screen.wf(),
        ensures
            final(self).wf(),
            final(self).pty.same_size(shadow_tty_screen),
            final(self).pty.cursor == shadow_tty_screen.cursor,
            forall|x: int, y: int|
                shadow_tty_screen.contains(x, y) ==> #[trigger] final(self).pty.cell(x, y)
                    == shadow_tty_screen.cell(x, y),
            final(self).tattoys == old(self).tattoys,
            final(self).width == old(self).width,
            final(self).height == old(self).height,
            final(self).frame == old(self).frame,
            final(self).indicator_cell == old(self).indicator_cell,
            final(self).is_cursor_visible == old(self).is_cursor_visible,
    {
        self.pty = shadow_tty_screen.duplicate();
    }

    /// Whether a frame is painted after an update: only when no further
    /// update waits.
    pub fn maybe_paint(backlog: usize) -> (paints: bool)
        ensures
            paints == (backlog == 0),
    {
        backlog == 0
    }

    /// Whether the backlog is worth a warning.
    pub fn is_backlog_worrying(backlog: usize) -> (worrying: bool)
        ensures
            worrying == (backlog > BACKLOG_WARNING),
    {
        backlog > BACKLOG_WARNING
    }

    /// Makes the frame blank again, in the size of the user's terminal.
    pub fn reset_frame(&mut self)
        ensures
            final(self).frame.wf(),
            (final(self).frame.width, final(self).frame.height) == old(self).size(),
            forall|x: int, y: int|
                final(self).frame.contains(x, y) ==> #[trigger] final(self).frame.cell(x, y)
                    == crate::grid::blank_cell(),
            final(self).tattoys == old(self).tattoys,
            final(self).width == old(self).width,
            final(self).height == old(self).height,
            final(self).pty == old(self).pty,
            final(self).indicator_cell == old(self).indicator_cell,
            final(self).is_cursor_visible == old(self).is_cursor_visible,
    {
        self.frame = Grid::new(self.width as usize, self.height as usize);
    }

    /// Whether a layer takes the place of the screen.
    pub fn is_a_plugin_replacing_the_pty_layer(&self) -> (replaced: bool)
        ensures
            replaced == self.is_replaced(),
    {
        let mut index: usize = 0;
        while index < self.tattoys.len()
            invariant
                index <= self.tattoys.len(),
                forall|i: int| 0 <= i < index ==> (#[trigger] self.tattoys[i]).layer != 0,
            decreases self.tattoys.len() - index,
        {
            if self.tattoys[index].layer == 0 {
                return true;
            }
            index = index + 1;
        }
        false
    }

    /// Whether a layer is left out of the frames of this renderer because
    /// its size is not that of the user's terminal: worth a warning.
    pub fn is_of_another_size(&self, surface: &Surface) -> (other: bool)
        ensures
            other == ((surface.grid.width, surface.grid.height) != self.size()),
    {
        surface.grid.width != self.width as usize || surface.grid.height != self.height as usize
    }

    fn draws(surface: &Surface, level: Level, config: &Config, size: (usize, usize)) -> (drawn: bool)
        ensures
            drawn == is_drawn(*surface, level, *config, size),
    {
        let at_level = match level {
            Level::Below => surface.layer < 0,
            Level::Replacing => surface.layer == 0,
            Level::Above => surface.layer > 0,
        };
        if !at_level {
            return false;
        }
        if same_text(surface.id.as_str(), SHADER_ID) && !config.shader.render {
            return false;
        }
        if same_text(surface.id.as_str(), ANIMATED_CURSOR_ID) && config.animated_cursor.layer == -1 {
            return false;
        }
        surface.grid.width == size.0 && surface.grid.height == size.1
    }

    /// Composites the layers of one level onto the frame, the lowest first.
    /// A layer whose size is not that of the frame is left out.
    pub fn render_tattoys<M: ColourMath>(
        &mut self,
        level: Level,
        config: &Config,
        default_bg_colour: Colour,
        math: &M,
    )
        requires
            old(self).wf(),
        ensures
            final(self).wf(),
            final(self).frame.same_size(&old(self).frame),
            final(self).frame.cursor == old(self).frame.cursor,
            final(self).tattoys == old(self).tattoys,
            final(self).width == old(self).width,
            final(self).height == old(self).height,
            final(self).pty == old(self).pty,
            final(self).indicator_cell == old(self).indicator_cell,
            final(self).is_cursor_visible == old(self).is_cursor_visible,
            forall|x: int, y: int|
                old(self).frame.contains(x, y) ==> #[trigger] final(self).frame.cell(x, y) == stacked(
                    *math,
                    old(self).tattoys@,
                    old(self).tattoys.len() as int,
                    level,
                    *config,
                    (old(self).frame.width, old(self).frame.height),
                    default_bg_colour,
                    old(self).frame.cell(x, y),
                    x,
                    y,
                ),
    {
        let size = (self.frame.width, self.frame.height);
        let mut index: usize = 0;
        while index < self.tattoys.len()
            invariant
                self.wf(),
                index <= self.tattoys.len(),
                size == (old(self).frame.width, old(self).frame.height),
                self.frame.same_size(&old(self).frame),
                self.frame.cursor == old(self).frame.cursor,
                self.tattoys == old(self).tattoys,
                self.width == old(self).width,
                self.height == old(self).height,
                self.pty == old(self).pty,
                self.indicator_cell == old(self).indicator_cell,
                self.is_cursor_visible == old(self).is_cursor_visible,
                forall|x: int, y: int|
                    old(self).frame.contains(x, y) ==> #[trigger] self.frame.cell(x, y) == stacked(
                        *math,
                        old(self).tattoys@,
                        index as int,
                        level,
                        *config,
                        size,
                        default_bg_colour,
                        old(self).frame.cell(x, y),
                        x,
                        y,
                    ),
            decreases self.tattoys.len() - index,
        {
            if Renderer::draws(&self.tattoys[index], level, config, size) {
                let opacity = self.tattoys[index].opacity;
                composite_layer(
                    &mut self.frame,
                    &self.tattoys[index].grid,
                    opacity,
                    default_bg_colour,
                    math,
                );
            }
            index = index + 1;
        }
    }

    /// Composites the layers that lie below the screen.
    pub fn render_tattoys_below<M: ColourMath>(
        &mut self,
        config: &Config,
        default_bg_colour: Colour,
        math: &M,
    )
        requires
            old(self).wf(),
        ensures
            final(self).wf(),
            final(self).frame.same_size(&old(self).frame),
            final(self).frame.cursor == old(self).frame.cursor,
            final(self).tattoys == old(self).tattoys,
            final(self).width == old(self).width,
            final(self).height == old(self).height,
            final(self).pty == old(self).pty,
            final(self).indicator_cell == old(self).indicator_cell,
            final(self).is_cursor_visible == old(self).is_cursor_visible,
            forall|x: int, y: int|
                old(self).frame.contains(x, y) ==> #[trigger] final(self).frame.cell(x, y) == stacked(
                    *math,
                    old(self).tattoys@,
                    old(self).tattoys.len() as int,
                    Level::Below,
                    *config,
                    (old(self).frame.width, old(self).frame.height),
                    default_bg_colour,
                    old(self).frame.cell(x, y),
                    x,
                    y,
                ),
    {
        self.render_tattoys(Level::Below, config, default_bg_colour, math)
    }

    /// Composites the layers that lie above the screen.
    pub fn render_tattoys_above<M: ColourMath>(
        &mut self,
        config: &Config,
        default_bg_colour: Colour,
        math: &M,
    )
        requires
            old(self).wf(),
        ensures
            final(self).wf(),
            final(self).frame.same_size(&old(self).frame),
            final(self).frame.cursor == old(self).frame.cursor,
            final(self).tattoys == old(self).tattoys,
            final(self).width == old(self).width,
            final(self).height == old(self).height,
            final(self).pty == old(self).pty,
            final(self).indicator_cell == old(self).indicator_cell,
            final(self).is_cursor_visible == old(self).is_cursor_visible,
            forall|x: int, y: int|
                old(self).frame.contains(x, y) ==> #[trigger] final(self).frame.cell(x, y) == stacked(
                    *math,
                    old(self).tattoys@,
                    old(self).tattoys.len() as int,
                    Level::Above,
                    *config,
                    (old(self).frame.width, old(self).frame.height),
                    default_bg_colour,
                    old(self).frame.cell(x, y),
                    x,
                    y,
                ),
    {
        self.render_tattoys(Level::Above, config, default_bg_colour, math)
    }

    /// The cells of a layer, if the layer is there and has the size of the frame.
    pub fn get_shader_cells(maybe_shaders: Option<&Surface>, frame_size: (usize, usize)) -> (cells:
        Option<&Grid>)
        ensures
            match maybe_shaders {
                Some(shader) => if (shader.grid.width, shader.grid.height) == frame_size {
                    cells == Some(&shader.grid)
                } else {
                    cells is None
                },
                None => cells is None,
            },
    {
        match maybe_shaders {
            Some(shader) => {
                if shader.grid.width == frame_size.0 && shader.grid.height == frame_size.1 {
                    Some(&shader.grid)
                } else {
                    None
                }
            },
            None => None,
        }
    }

    /// The cell of the shader that colours the text in column `x` of row
    /// `y`: there is one where the settings ask for it and the layer of the
    /// shader has the given size.
    pub open spec fn shader_cell(&self, config: Config, size: (usize, usize), x: int, y: int) -> Option<
        CellView,
    > {
        match layer_named(self.tattoys@, SHADER_ID@) {
            Some(shader) => if config.shader.render_shader_colours_to_text && (
            shader.grid.width, shader.grid.height) == size {
                Some(shader.grid.cell(x, y))
            } else {
                None
            },
            None => None,
        }
    }

    /// The cell of the animated cursor that is laid over the background in
    /// column `x` of row `y`: there is one where the layer of the animated
    /// cursor lies just below zero and has the given size.
    pub open spec fn cursor_cell(&self, size: (usize, usize), x: int, y: int) -> Option<CellView> {
        match layer_named(self.tattoys@, ANIMATED_CURSOR_ID@) {
            Some(cursor) => if cursor.layer == -1 && (cursor.grid.width, cursor.grid.height) == size {
                Some(cursor.grid.cell(x, y))
            } else {
                None
            },
            None => None,
        }
    }

    /// A cell of a frame of the given size after the screen has been
    /// composited onto it: the screen is left out where its size is not that
    /// of the frame, and the cell then stays as it was.
    pub open spec fn with_pty<M: ColourMath>(
        &self,
        math: M,
        is_rendering: bool,
        config: Config,
        default_bg_colour: Colour,
        size: (usize, usize),
        below: CellView,
        x: int,
        y: int,
    ) -> CellView {
        if (self.pty.width, self.pty.height) == size {
            screen_cell(
                math,
                is_rendering,
                config,
                default_bg_colour,
                below,
                self.pty.cell(x, y),
                self.shader_cell(config, size, x, y),
                self.cursor_cell(size, x, y),
            )
        } else {
            below
        }
    }

    /// Composites the screen of the terminal onto the frame.
    ///
    /// While layers are drawn, the shader colours the text where the user
    /// asks for it, the animated cursor that lies just below zero is laid
    /// over the backgrounds, and the contrast of the text is secured.
    pub fn render_pty<M: ColourMath>(
        &mut self,
        is_rendering: bool,
        config: &Config,
        default_bg_colour: Colour,
        math: &M,
    )
        requires
            old(self).wf(),
        ensures
            final(self).wf(),
            final(self).frame.same_size(&old(self).frame),
            final(self).frame.cursor == old(self).frame.cursor,
            final(self).tattoys == old(self).tattoys,
            final(self).width == old(self).width,
            final(self).height == old(self).height,
            final(self).pty == old(self).pty,
            final(self).indicator_cell == old(self).indicator_cell,
            final(self).is_cursor_visible == old(self).is_cursor_visible,
            forall|x: int, y: int|
                old(self).frame.contains(x, y) ==> #[trigger] final(self).frame.cell(x, y) == old(
                    self,
                ).with_pty(
                    *math,
                    is_rendering,
                    *config,
                    default_bg_colour,
                    (old(self).frame.width, old(self).frame.height),
                    old(self).frame.cell(x, y),
                    x,
                    y,
                ),
    {
        let frame_size = (self.frame.width, self.frame.height);
        if self.pty.width != frame_size.0 || self.pty.height != frame_size.1 {
            return ;
        }
        proof {
            lemma_layer_named(self.tattoys@, SHADER_ID@);
            lemma_layer_named(self.tattoys@, ANIMATED_CURSOR_ID@);
        }
        let shader_at: Option<usize> = if config.shader.render_shader_colours_to_text {
            match self.position_of(SHADER_ID) {
                Some(at) => {
                    if self.tattoys[at].grid.width == frame_size.0 && self.tattoys[at].grid.height
                        == frame_size.1 {
                        Some(at)
                    } else {
                        None
                    }
                },
                None => None,
            }
        } else {
            None
        };
        let cursor_at: Option<usize> = match self.position_of(ANIMATED_CURSOR_ID) {
            Some(at) => {
                if self.tattoys[at].layer == -1 && self.tattoys[at].grid.width == frame_size.0
                    && self.tattoys[at].grid.height == frame_size.1 {
                    Some(at)
                } else {
                    None
                }
            },
            None => None,
        };
        let ghost shaders = match shader_at {
            Some(at) => Some(self.tattoys[at as int].grid),
            None => None,
        };
        let ghost cursors = match cursor_at {
            Some(at) => Some(self.tattoys[at as int].grid),
            None => None,
        };
        let mut y: usize = 0;
        while y < self.frame.height
            invariant
                self.wf(),
                self.frame.same_size(&old(self).frame),
                self.pty.same_size(&self.frame),
                old(self).pty.same_size(&old(self).frame),
                frame_size == (self.frame.width, self.frame.height),
                self.frame.cursor == old(self).frame.cursor,
                self.tattoys == old(self).tattoys,
                self.width == old(self).width,
                self.height == old(self).height,
                self.pty == old(self).pty,
                self.indicator_cell == old(self).indicator_cell,
                self.is_cursor_visible == old(self).is_cursor_visible,
                shader_at matches Some(at) ==> at < self.tattoys.len() && (
                self.tattoys[at as int].grid.width, self.tattoys[at as int].grid.height)
                    == frame_size,
                cursor_at matches Some(at) ==> at < self.tattoys.len() && (
                self.tattoys[at as int].grid.width, self.tattoys[at as int].grid.height)
                    == frame_size,
                shaders == (match shader_at {
                    Some(at) => Some(self.tattoys[at as int].grid),
                    None => None,
                }),
                cursors == (match cursor_at {
                    Some(at) => Some(self.tattoys[at as int].grid),
                    None => None,
                }),
                y <= self.frame.height,
                forall|i: int, j: int|
                    old(self).frame.contains(i, j) ==> #[trigger] self.frame.cell(i, j) == (if j < y {
                        screen_cell(
                            *math,
                            is_rendering,
                            *config,
                            default_bg_colour,
                            old(self).frame.cell(i, j),
                            self.pty.cell(i, j),
                            match shaders {
                                Some(grid) => Some(grid.cell(i, j)),
                                None => None,
                            },
                            match cursors {
                                Some(grid) => Some(grid.cell(i, j)),
                                None => None,
                            },
                        )
                    } else {
                        old(self).frame.cell(i, j)
                    }),
            decreases self.frame.height - y,
        {
            let mut x: usize = 0;
            while x < self.frame.width
                invariant
                    self.wf(),
                    self.frame.same_size(&old(self).frame),
                    self.pty.same_size(&self.frame),
                    frame_size == (self.frame.width, self.frame.height),
                    self.frame.cursor == old(self).frame.cursor,
                    self.tattoys == old(self).tattoys,
                    self.width == old(self).width,
                    self.height == old(self).height,
                    self.pty == old(self).pty,
                    self.indicator_cell == old(self).indicator_cell,
                    self.is_cursor_visible == old(self).is_cursor_visible,
                    shader_at matches Some(at) ==> at < self.tattoys.len() && (
                    self.tattoys[at as int].grid.width, self.tattoys[at as int].grid.height)
                        == frame_size,
                    cursor_at matches Some(at) ==> at < self.tattoys.len() && (
                    self.tattoys[at as int].grid.width, self.tattoys[at as int].grid.height)
                        == frame_size,
                    shaders == (match shader_at {
                        Some(at) => Some(self.tattoys[at as int].grid),
                        None => None,
                    }),
                    cursors == (match cursor_at {
                        Some(at) => Some(self.tattoys[at as int].grid),
                        None => None,
                    }),
                    y < self.frame.height,
                    x <= self.frame.width,
                    forall|i: int, j: int|
                        old(self).frame.contains(i, j) ==> #[trigger] self.frame.cell(i, j) == (if j < y
                            || (j == y && i < x) {
                            screen_cell(
                                *math,
                                is_rendering,
                                *config,
                                default_bg_colour,
                                old(self).frame.cell(i, j),
                                self.pty.cell(i, j),
                                match shaders {
                                    Some(grid) => Some(grid.cell(i, j)),
                                    None => None,
                                },
                                match cursors {
                                    Some(grid) => Some(grid.cell(i, j)),
                                    None => None,
                                },
                            )
                        } else {
                            old(self).frame.cell(i, j)
                        }),
                decreases self.frame.width - x,
            {
                let ghost before = self.frame;
                let shader_cell: Option<&Cell> = match shader_at {
                    Some(at) => {
                        Some(&self.tattoys[at].grid.rows[y][x])
                    },
                    None => None,
                };
                let cursor_cell: Option<&Cell> = match cursor_at {
                    Some(at) => {
                        Some(&self.tattoys[at].grid.rows[y][x])
                    },
                    None => None,
                };
                let frame_cell = &mut self.frame.rows[y][x];
                render_pty_cell(
                    frame_cell,
                    &self.pty.rows[y][x],
                    shader_cell,
                    cursor_cell,
                    is_rendering,
                    config,
                    default_bg_colour,
                    math,
                );
                proof {
                    assert forall|i: int, j: int| old(self).frame.contains(i, j) implies #[trigger] self.frame.cell(
                        i,
                        j,
                    ) == (if j < y || (j == y && i < x + 1) {
                        screen_cell(
                            *math,
                            is_rendering,
                            *config,
                            default_bg_colour,
                            old(self).frame.cell(i, j),
                            self.pty.cell(i, j),
                            match shaders {
                                Some(grid) => Some(grid.cell(i, j)),
                                None => None,
                            },
                            match cursors {
                                Some(grid) => Some(grid.cell(i, j)),
                                None => None,
                            },
                        )
                    } else {
                        old(self).frame.cell(i, j)
                    }) by {
                        if !(i == x && j == y) {
                            assert(self.frame.cell(i, j) == before.cell(i, j));
                        }
                    }
                }
                x = x + 1;
            }
            y = y + 1;
        }
    }

    /// Grades the colours of the frame as the user has set it: every colour
    /// of every cell is handed to the arithmetic with the saturation, the
    /// brightness and the hue of the settings, and what comes back takes its
    /// place. An attribute without a colour stays, and so does what the
    /// cells show.
    pub fn colour_grade<M: ColourMath>(&mut self, config: &Config, math: &M)
        requires
            old(self).wf(),
        ensures
            final(self).wf(),
            final(self).frame.same_size(&old(self).frame),
            final(self).frame.cursor == old(self).frame.cursor,
            final(self).tattoys == old(self).tattoys,
            final(self).width == old(self).width,
            final(self).height == old(self).height,
            final(self).pty == old(self).pty,
            final(self).indicator_cell == old(self).indicator_cell,
            final(self).is_cursor_visible == old(self).is_cursor_visible,
            forall|x: int, y: int|
                old(self).frame.contains(x, y) ==> #[trigger] final(self).frame.cell(x, y)
                    == graded_cell(
                    *math,
                    old(self).frame.cell(x, y),
                    config.color.saturation,
                    config.color.brightness,
                    config.color.hue,
                ),
    {
        grade_frame(
            &mut self.frame,
            config.color.saturation,
            config.color.brightness,
            config.color.hue,
            math,
        );
    }
}

/// The size of the user's terminal was asked for and is too large to count.
#[derive(Clone, Copy, Debug, PartialEq, Eq, Structural)]
pub struct ResizeError;

impl Renderer {
    /// The column of the indicator: the last one. A terminal without columns
    /// has none, and the indicator then falls outside the frame.
    pub open spec fn indicator_column(&self) -> usize {
        if self.width == 0 {
            u16::MAX as usize
        } else {
            (self.width - 1) as usize
        }
    }

    /// The cell in column `x` of row `y` of the frame once everything has
    /// been composited.
    ///
    /// The frame starts blank. While layers are drawn, the layers below the
    /// screen come first. Then comes the screen, or in its place the layers
    /// that replace it. While layers are drawn, the layers above the screen
    /// follow, then the colours are graded, then the indicator comes in the
    /// last column of the first row, and at last a half block under a visible
    /// cursor gives way to a space.
    pub open spec fn frame_cell<M: ColourMath>(
        &self,
        math: M,
        is_rendering_enabled: bool,
        config: Config,
        default_bg_colour: Colour,
        x: int,
        y: int,
    ) -> CellView {
        let count = self.tattoys.len() as int;
        let size = self.size();
        let blank = crate::grid::blank_cell();
        let below = if is_rendering_enabled {
            stacked(math, self.tattoys@, count, Level::Below, config, size, default_bg_colour, blank, x, y)
        } else {
            blank
        };
        let middle = if self.is_replaced() && is_rendering_enabled {
            stacked(
                math,
                self.tattoys@,
                count,
                Level::Replacing,
                config,
                size,
                default_bg_colour,
                below,
                x,
                y,
            )
        } else {
            self.with_pty(math, is_rendering_enabled, config, default_bg_colour, size, below, x, y)
        };
        if !is_rendering_enabled {
            middle
        } else {
            let above = stacked(
                math,
                self.tattoys@,
                count,
                Level::Above,
                config,
                size,
                default_bg_colour,
                middle,
                x,
                y,
            );
            let graded = graded_cell(
                math,
                above,
                config.color.saturation,
                config.color.brightness,
                config.color.hue,
            );
            let marked = if config.show_tattoy_indicator && x == self.indicator_column() && y == 0 {
                composited_cell(
                    math,
                    graded,
                    self.indicator_cell@,
                    Scalar { bits: ONE_BITS },
                    default_bg_colour,
                )
            } else {
                graded
            };
            if self.is_cursor_visible && x == self.pty.cursor.x && y == self.pty.cursor.y {
                CellView { text: Compositor::cleaned_text(marked.text), attrs: marked.attrs }
            } else {
                marked
            }
        }
    }

    /// Whether the indicator is asked for and has no cell to stand in.
    pub open spec fn indicator_fails(&self, is_rendering_enabled: bool, config: Config) -> bool {
        is_rendering_enabled && config.show_tattoy_indicator && (self.width == 0 || self.height == 0)
    }

    /// Whether `after` is this renderer with its frame composited anew: the
    /// frame has the size of the user's terminal, each of its cells is what
    /// `frame_cell` says, and nothing else has changed.
    pub open spec fn composes<M: ColourMath>(
        &self,
        after: &Renderer,
        math: M,
        is_rendering_enabled: bool,
        config: Config,
        default_bg_colour: Colour,
    ) -> bool {
        &&& after.wf()
        &&& (after.frame.width, after.frame.height) == self.size()
        &&& after.tattoys == self.tattoys
        &&& after.width == self.width
        &&& after.height == self.height
        &&& after.pty == self.pty
        &&& after.indicator_cell == self.indicator_cell
        &&& after.is_cursor_visible == self.is_cursor_visible
        &&& forall|x: int, y: int|
            after.frame.contains(x, y) ==> #[trigger] after.frame.cell(x, y) == self.frame_cell(
                math,
                is_rendering_enabled,
                config,
                default_bg_colour,
                x,
                y,
            )
    }

    /// Composites the indicator onto the last cell of the first row, if the
    /// user wants to see it.
    pub fn add_indicator<M: ColourMath>(&mut self, config: &Config, default_bg_colour: Colour, math: &M) -> (added:
        Result<(), CoordError>)
        requires
            old(self).wf(),
        ensures
            final(self).wf(),
            final(self).frame.same_size(&old(self).frame),
            final(self).frame.cursor == old(self).frame.cursor,
            final(self).tattoys == old(self).tattoys,
            final(self).width == old(self).width,
            final(self).height == old(self).height,
            final(self).pty == old(self).pty,
            final(self).indicator_cell == old(self).indicator_cell,
            final(self).is_cursor_visible == old(self).is_cursor_visible,
            !config.show_tattoy_indicator ==> added is Ok && final(self).frame == old(self).frame,
            config.show_tattoy_indicator ==> {
                let x = old(self).indicator_column();
                match coord_error(&old(self).frame, x, 0) {
                    Some(error) => added == Err::<(), CoordError>(error) && final(self).frame == old(
                        self,
                    ).frame,
                    None => {
                        &&& added is Ok
                        &&& final(self).frame.same_but_at(&old(self).frame, x as int, 0)
                        &&& final(self).frame.cell(x as int, 0) == composited_cell(
                            *math,
                            old(self).frame.cell(x as int, 0),
                            old(self).indicator_cell@,
                            Scalar { bits: ONE_BITS },
                            default_bg_colour,
                        )
                    },
                }
            },
    {
        if !config.show_tattoy_indicator {
            return Ok(());
        }
        let x: usize = if self.width == 0 {
            u16::MAX as usize
        } else {
            (self.width - 1) as usize
        };
        Compositor::add_indicator(&mut self.frame, &self.indicator_cell, x, 0, default_bg_colour, math)
    }

    /// Composites every layer and the screen of the terminal into the frame.
    ///
    /// The only failure is an indicator without a cell to stand in.
    pub fn composite<M: ColourMath>(
        &mut self,
        is_rendering_enabled: bool,
        config: &Config,
        default_bg_colour: Colour,
        math: &M,
    ) -> (done: Result<(), CoordError>)
        requires
            old(self).wf(),
        ensures
            old(self).composes(final(self), *math, is_rendering_enabled, *config, default_bg_colour),
            done is Err <==> old(self).indicator_fails(is_rendering_enabled, *config),
    {
        self.reset_frame();
        if is_rendering_enabled {
            self.render_tattoys_below(config, default_bg_colour, math);
        }
        if self.is_a_plugin_replacing_the_pty_layer() && is_rendering_enabled {
            self.render_tattoys(Level::Replacing, config, default_bg_colour, math);
        } else {
            self.render_pty(is_rendering_enabled, config, default_bg_colour, math);
        }
        if is_rendering_enabled {
            self.render_tattoys_above(config, default_bg_colour, math);
            self.colour_grade(config, math);
            let added = self.add_indicator(config, default_bg_colour, math);
            if let Err(error) = added {
                return Err(error);
            }
            if self.is_cursor_visible {
                let cursor = self.pty.cursor_position();
                Compositor::clean_cursor_cell(&mut self.frame, cursor.0, cursor.1);
            }
        }
        Ok(())
    }

    /// How the cursor is to be left after a frame: where the cursor of the
    /// screen is, in its shape, and hidden if the screen hides it or if the
    /// cursor may not show.
    pub open spec fn cursor_plan(&self) -> CursorPlan {
        CursorPlan {
            x: self.pty.cursor.x,
            y: self.pty.cursor.y,
            shape: self.pty.cursor.shape,
            visibility: if self.is_cursor_visible {
                self.pty.cursor.visibility
            } else {
                CursorVisibility::Hidden
            },
        }
    }

    /// Composites the frame for painting, and says how to leave the cursor.
    pub fn paint<M: ColourMath>(
        &mut self,
        is_rendering_enabled: bool,
        config: &Config,
        default_bg_colour: Colour,
        math: &M,
    ) -> (plan: Result<CursorPlan, CoordError>)
        requires
            old(self).wf(),
        ensures
            old(self).composes(final(self), *math, is_rendering_enabled, *config, default_bg_colour),
            plan is Err <==> old(self).indicator_fails(is_rendering_enabled, *config),
            plan matches Ok(cursor) ==> cursor == old(self).cursor_plan(),
    {
        if let Err(error) = self.composite(is_rendering_enabled, config, default_bg_colour, math) {
            return Err(error);
        }
        let visibility = if self.is_cursor_visible {
            self.pty.cursor.visibility
        } else {
            CursorVisibility::Hidden
        };
        Ok(
            CursorPlan {
                x: self.pty.cursor.x,
                y: self.pty.cursor.y,
                shape: self.pty.cursor.shape,
                visibility,
            },
        )
    }

    /// Whether `after` is this renderer after it has taken an update in:
    /// a surface is among the layers or gone from them, and for the screen
    /// the latest screen of the shadow terminal has become its own.
    pub open spec fn absorbs(&self, after: &Renderer, update: FrameUpdate, shadow_tty_screen: &Grid) -> bool {
        &&& after.wf()
        &&& after.width == self.width
        &&& after.height == self.height
        &&& after.frame == self.frame
        &&& after.indicator_cell == self.indicator_cell
        &&& after.is_cursor_visible == self.is_cursor_visible
        &&& match update {
            FrameUpdate::TattoySurface(surface) => {
                &&& after.tattoys@ == updated(self.tattoys@, surface)
                &&& after.pty == self.pty
            },
            FrameUpdate::PTYSurface => {
                &&& after.tattoys == self.tattoys
                &&& after.pty.same_size(shadow_tty_screen)
                &&& after.pty.cursor == shadow_tty_screen.cursor
                &&& forall|x: int, y: int|
                    shadow_tty_screen.contains(x, y) ==> #[trigger] after.pty.cell(x, y)
                        == shadow_tty_screen.cell(x, y)
            },
        }
    }

    /// Takes an update in.
    pub fn handle_frame_update(&mut self, update: FrameUpdate, shadow_tty_screen: &Grid)
        requires
            old(self).wf(),
            shadow_tty_screen.wf(),
            update matches FrameUpdate::TattoySurface(surface) ==> surface.wf(),
        ensures
            old(self).absorbs(final(self), update, shadow_tty_screen),
    {
        match update {
            FrameUpdate::TattoySurface(surface) => {
                self.update_tattoy(surface);
            },
            FrameUpdate::PTYSurface => {
                self.get_updated_pty_frame(shadow_tty_screen);
            },
        }
    }

    /// Takes an update in and, if no further update waits, composites the
    /// frame for painting. While updates wait nothing is painted, and the
    /// frame stays as it is.
    pub fn render<M: ColourMath>(
        &mut self,
        backlog: usize,
        update: FrameUpdate,
        shadow_tty_screen: &Grid,
        is_rendering_enabled: bool,
        config: &Config,
        default_bg_colour: Colour,
        math: &M,
    ) -> (plan: Result<Option<CursorPlan>, CoordError>)
        requires
            old(self).wf(),
            shadow_tty_screen.wf(),
            update matches FrameUpdate::TattoySurface(surface) ==> surface.wf(),
        ensures
            backlog > 0 ==> {
                &&& plan == Ok::<Option<CursorPlan>, CoordError>(None)
                &&& old(self).absorbs(final(self), update, shadow_tty_screen)
            },
            backlog == 0 ==> exists|absorbed: Renderer|
                {
                    &&& #[trigger] old(self).absorbs(&absorbed, update, shadow_tty_screen)
                    &&& absorbed.composes(final(self), *math, is_rendering_enabled, *config, default_bg_colour)
                    &&& plan is Err <==> absorbed.indicator_fails(is_rendering_enabled, *config)
                    &&& plan matches Ok(cursor) ==> cursor == Some(absorbed.cursor_plan())
                },
    {
        self.handle_frame_update(update, shadow_tty_screen);
        if !Renderer::maybe_paint(backlog) {
            return Ok(None);
        }
        match self.paint(is_rendering_enabled, config, default_bg_colour, math) {
            Err(error) => Err(error),
            Ok(cursor) => Ok(Some(cursor)),
        }
    }

    /// Acts on a message to every task: a word on the cursor is noted, a
    /// call to repaint composites the frame for painting, and everything
    /// else is passed over.
    pub fn handle_protocol_message<M: ColourMath>(
        &mut self,
        message: &Protocol,
        is_rendering_enabled: bool,
        config: &Config,
        default_bg_colour: Colour,
        math: &M,
    ) -> (plan: Result<Option<CursorPlan>, CoordError>)
        requires
            old(self).wf(),
        ensures
            final(self).wf(),
            match *message {
                Protocol::CursorVisibility(is_visible) => {
                    &&& plan == Ok::<Option<CursorPlan>, CoordError>(None)
                    &&& *final(self) == (Renderer { is_cursor_visible: is_visible, ..*old(self) })
                },
                Protocol::Repaint => {
                    &&& old(self).composes(final(self), *math, is_rendering_enabled, *config, default_bg_colour)
                    &&& plan is Err <==> old(self).indicator_fails(is_rendering_enabled, *config)
                    &&& plan matches Ok(cursor) ==> cursor == Some(old(self).cursor_plan())
                },
                _ => plan == Ok::<Option<CursorPlan>, CoordError>(None) && *final(self) == *old(self),
            },
    {
        match message {
            Protocol::CursorVisibility(is_visible) => {
                self.is_cursor_visible = *is_visible;
                Ok(None)
            },
            Protocol::Repaint => {
                match self.paint(is_rendering_enabled, config, default_bg_colour, math) {
                    Err(error) => Err(error),
                    Ok(cursor) => Ok(Some(cursor)),
                }
            },
            _ => Ok(None),
        }
    }

    /// Whether a size is no size at all: neither a column nor a row.
    pub open spec fn is_no_size(dimensions: (usize, usize)) -> bool {
        dimensions.0 == 0 && dimensions.1 == 0
    }

    /// Takes the size of the user's terminal as its own, after the terminal
    /// has found that it was resized. Returns the new size, to be told to
    /// every task. A size without columns and rows is passed over: the
    /// renderer keeps the size that it has, and there is nothing to tell. A
    /// size that cannot be counted in sixteen bits is an error; a width that
    /// can be is kept even where the height cannot.
    pub fn check_for_user_resize(&mut self, is_resized: bool, dimensions: (usize, usize)) -> (resized:
        Result<Option<(u16, u16)>, ResizeError>)
        ensures
            final(self).tattoys == old(self).tattoys,
            final(self).pty == old(self).pty,
            final(self).frame == old(self).frame,
            final(self).indicator_cell == old(self).indicator_cell,
            final(self).is_cursor_visible == old(self).is_cursor_visible,
            !is_resized || Renderer::is_no_size(dimensions) ==> resized == Ok::<
                Option<(u16, u16)>,
                ResizeError,
            >(None) && *final(self) == *old(self),
            is_resized && dimensions.0 > u16::MAX ==> resized is Err && *final(self) == *old(self),
            is_resized && dimensions.0 <= u16::MAX && dimensions.1 > u16::MAX ==> {
                &&& resized is Err
                &&& final(self).width == dimensions.0
                &&& final(self).height == old(self).height
            },
            is_resized && !Renderer::is_no_size(dimensions) && dimensions.0 <= u16::MAX && dimensions.1
                <= u16::MAX ==> {
                &&& resized == Ok::<Option<(u16, u16)>, ResizeError>(
                    Some((dimensions.0 as u16, dimensions.1 as u16)),
                )
                &&& final(self).width == dimensions.0
                &&& final(self).height == dimensions.1
            },
    {
        if !is_resized {
            return Ok(None);
        }
        if dimensions.0 == 0 && dimensions.1 == 0 {
            return Ok(None);
        }
        if dimensions.0 > u16::MAX as usize {
            return Err(ResizeError);
        }
        self.width = dimensions.0 as u16;
        if dimensions.1 > u16::MAX as usize {
            return Err(ResizeError);
        }
        self.height = dimensions.1 as u16;
        Ok(Some((self.width, self.height)))
    }
}

/// A cell above that shows nothing leaves what the cell below shows.
pub proof fn lemma_empty_above_changes_nothing<M: ColourMath>(
    math: M,
    below: CellView,
    above: CellView,
    opacity: Scalar,
    default_bg_colour: Colour,
)
    requires
        glyph_of(above.text) is Empty,
    ensures
        composited_cell(math, below, above, opacity, default_bg_colour).text == below.text,
        composited_cell(math, below, above, opacity, default_bg_colour).attrs.style == below.attrs.style,
{
    crate::compositor::lemma_half_blocks();
}

/// Text above always shows: its first character takes the place of whatever
/// is below.
pub proof fn lemma_text_above_shows<M: ColourMath>(
    math: M,
    below: CellView,
    above: CellView,
    opacity: Scalar,
    default_bg_colour: Colour,
)
    requires
        glyph_of(above.text) is Text,
    ensures
        composited_cell(math, below, above, opacity, default_bg_colour).text == seq![
            crate::cell::shown_character(crate::cell::first_or_space(above.text)),
        ],
        composited_cell(math, below, above, opacity, default_bg_colour).attrs.style == above.attrs.style,
{
    crate::compositor::lemma_half_blocks();
}

/// A pixel above leaves a pixel to show, and never text.
pub proof fn lemma_pixel_above_shows_pixel<M: ColourMath>(
    math: M,
    below: CellView,
    above: CellView,
    opacity: Scalar,
    default_bg_colour: Colour,
)
    requires
        glyph_of(above.text).is_pixel(),
    ensures
        glyph_of(composited_cell(math, below, above, opacity, default_bg_colour).text).is_pixel(),
{
    crate::compositor::lemma_half_blocks();
}

/// What a cell shows after the layers does not depend on the colours below:
/// two cells that show the same show the same after the same layers.
pub proof fn lemma_stacked_shows<M: ColourMath>(
    math: M,
    tattoys: Seq<Surface>,
    count: int,
    level: Level,
    config: Config,
    size: (usize, usize),
    default_bg_colour: Colour,
    first: CellView,
    second: CellView,
    x: int,
    y: int,
)
    requires
        first.text == second.text,
        first.attrs.style == second.attrs.style,
    ensures
        stacked(math, tattoys, count, level, config, size, default_bg_colour, first, x, y).text
            == stacked(math, tattoys, count, level, config, size, default_bg_colour, second, x, y).text,
        stacked(math, tattoys, count, level, config, size, default_bg_colour, first, x, y).attrs.style
            == stacked(
            math,
            tattoys,
            count,
            level,
            config,
            size,
            default_bg_colour,
            second,
            x,
            y,
        ).attrs.style,
    decreases count,
{
    if count > 0 {
        lemma_stacked_shows(math, tattoys, count - 1, level, config, size, default_bg_colour, first, second, x, y);
        crate::compositor::lemma_half_blocks();
    }
}

/// The topmost cell that shows anything decides: where a drawn layer has
/// text in a cell and every drawn layer over it has nothing there, the
/// cell shows the first character of that text, whatever lies below. So no
/// pixel of a lower layer ever covers text.
pub proof fn lemma_topmost_text_shows<M: ColourMath>(
    math: M,
    tattoys: Seq<Surface>,
    count: int,
    level: Level,
    config: Config,
    size: (usize, usize),
    default_bg_colour: Colour,
    base: CellView,
    x: int,
    y: int,
    top: int,
)
    requires
        0 <= top < count <= tattoys.len(),
        is_drawn(tattoys[top], level, config, size),
        glyph_of(tattoys[top].grid.cell(x, y).text) is Text,
        forall|k: int|
            top < k < count && is_drawn(#[trigger] tattoys[k], level, config, size) ==> glyph_of(
                tattoys[k].grid.cell(x, y).text,
            ) is Empty,
    ensures
        stacked(math, tattoys, count, level, config, size, default_bg_colour, base, x, y).text == seq![
            crate::cell::shown_character(
                crate::cell::first_or_space(tattoys[top].grid.cell(x, y).text),
            ),
        ],
    decreases count,
{
    let below = stacked(math, tattoys, count - 1, level, config, size, default_bg_colour, base, x, y);
    let layer = tattoys[count - 1];
    if top == count - 1 {
        lemma_text_above_shows(math, below, layer.grid.cell(x, y), layer.opacity, default_bg_colour);
    } else {
        lemma_topmost_text_shows(math, tattoys, count - 1, level, config, size, default_bg_colour, base, x, y, top);
        if is_drawn(layer, level, config, size) {
            lemma_empty_above_changes_nothing(
                math,
                below,
                layer.grid.cell(x, y),
                layer.opacity,
                default_bg_colour,
            );
        }
    }
}

/// The text that shows for a text above is no half block, unless the text
/// above begins with one.
pub proof fn lemma_text_is_no_pixel<M: ColourMath>(
    math: M,
    below: CellView,
    above: CellView,
    opacity: Scalar,
    default_bg_colour: Colour,
)
    requires
        glyph_of(above.text) is Text,
        crate::cell::first_or_space(above.text) != UPPER_HALF_BLOCK,
        crate::cell::first_or_space(above.text) != crate::cell::LOWER_HALF_BLOCK,
    ensures
        !glyph_of(composited_cell(math, below, above, opacity, default_bg_colour).text).is_pixel(),
{
    crate::compositor::lemma_half_blocks();
    let shown = composited_cell(math, below, above, opacity, default_bg_colour).text;
    assert(shown[0] == crate::cell::shown_character(crate::cell::first_or_space(above.text)));
}

/// A layer that is not of the size of the frame is never drawn, and leaves
/// every cell of the frame, colours and all, as the layers before it left it.
pub proof fn lemma_mismatched_layer_is_skipped<M: ColourMath>(
    math: M,
    tattoys: Seq<Surface>,
    count: int,
    level: Level,
    config: Config,
    size: (usize, usize),
    default_bg_colour: Colour,
    base: CellView,
    x: int,
    y: int,
)
    requires
        0 < count <= tattoys.len(),
        (tattoys[count - 1].grid.width, tattoys[count - 1].grid.height) != size,
    ensures
        stacked(math, tattoys, count, level, config, size, default_bg_colour, base, x, y) == stacked(
            math,
            tattoys,
            count - 1,
            level,
            config,
            size,
            default_bg_colour,
            base,
            x,
            y,
        ),
{
}

/// Where no layer is drawn, every cell stays as it was, colours and all.
pub proof fn lemma_undrawn_layers_change_nothing<M: ColourMath>(
    math: M,
    tattoys: Seq<Surface>,
    count: int,
    level: Level,
    config: Config,
    size: (usize, usize),
    default_bg_colour: Colour,
    base: CellView,
    x: int,
    y: int,
)
    requires
        0 <= count <= tattoys.len(),
        forall|k: int| 0 <= k < count ==> !is_drawn(#[trigger] tattoys[k], level, config, size),
    ensures
        stacked(math, tattoys, count, level, config, size, default_bg_colour, base, x, y) == base,
    decreases count,
{
    if count > 0 {
        lemma_undrawn_layers_change_nothing(
            math,
            tattoys,
            count - 1,
            level,
            config,
            size,
            default_bg_colour,
            base,
            x,
            y,
        );
    }
}

/// Layers that show nothing in a cell leave what the cell shows.
pub proof fn lemma_empty_layers_change_nothing<M: ColourMath>(
    math: M,
    tattoys: Seq<Surface>,
    count: int,
    level: Level,
    config: Config,
    size: (usize, usize),
    default_bg_colour: Colour,
    base: CellView,
    x: int,
    y: int,
)
    requires
        0 <= count <= tattoys.len(),
        forall|k: int|
            0 <= k < count && is_drawn(#[trigger] tattoys[k], level, config, size) ==> glyph_of(
                tattoys[k].grid.cell(x, y).text,
            ) is Empty,
    ensures
        stacked(math, tattoys, count, level, config, size, default_bg_colour, base, x, y).text
            == base.text,
        stacked(math, tattoys, count, level, config, size, default_bg_colour, base, x, y).attrs.style
            == base.attrs.style,
    decreases count,
{
    if count > 0 {
        lemma_empty_layers_change_nothing(
            math,
            tattoys,
            count - 1,
            level,
            config,
            size,
            default_bg_colour,
            base,
            x,
            y,
        );
        let layer = tattoys[count - 1];
        if is_drawn(layer, level, config, size) {
            lemma_empty_above_changes_nothing(
                math,
                stacked(math, tattoys, count - 1, level, config, size, default_bg_colour, base, x, y),
                layer.grid.cell(x, y),
                layer.opacity,
                default_bg_colour,
            );
        }
    }
}

/// The text of the screen shows in the frame, whatever the layers below the
/// screen hold: where no layer takes the place of the screen, the screen is
/// as large as the terminal and has text in a cell, every drawn layer above
/// the screen has nothing there, and neither the indicator nor the cursor
/// stands in the cell, the frame shows the first character of that text. So
/// no pixel of a layer below ever covers the text of the screen.
pub proof fn lemma_frame_shows_screen_text<M: ColourMath>(
    math: M,
    renderer: Renderer,
    config: Config,
    default_bg_colour: Colour,
    x: int,
    y: int,
)
    requires
        !renderer.is_replaced(),
        (renderer.pty.width, renderer.pty.height) == renderer.size(),
        glyph_of(renderer.pty.cell(x, y).text) is Text,
        forall|k: int|
            0 <= k < renderer.tattoys.len() && is_drawn(
                #[trigger] renderer.tattoys[k],
                Level::Above,
                config,
                renderer.size(),
            ) ==> glyph_of(renderer.tattoys[k].grid.cell(x, y).text) is Empty,
        !(config.show_tattoy_indicator && x == renderer.indicator_column() && y == 0),
        !(renderer.is_cursor_visible && x == renderer.pty.cursor.x && y == renderer.pty.cursor.y),
    ensures
        renderer.frame_cell(math, true, config, default_bg_colour, x, y).text == seq![
            crate::cell::shown_character(crate::cell::first_or_space(renderer.pty.cell(x, y).text)),
        ],
        renderer.frame_cell(math, false, config, default_bg_colour, x, y).text == renderer.frame_cell(
            math,
            true,
            config,
            default_bg_colour,
            x,
            y,
        ).text,
{
    let count = renderer.tattoys.len() as int;
    let size = renderer.size();
    let blank = crate::grid::blank_cell();
    let below = stacked(
        math,
        renderer.tattoys@,
        count,
        Level::Below,
        config,
        size,
        default_bg_colour,
        blank,
        x,
        y,
    );
    let pty = renderer.pty.cell(x, y);
    let middle = renderer.with_pty(math, true, config, default_bg_colour, size, below, x, y);
    lemma_screen_cell_shows(
        math,
        true,
        config,
        default_bg_colour,
        below,
        pty,
        renderer.shader_cell(config, size, x, y),
        renderer.cursor_cell(size, x, y),
    );
    lemma_screen_cell_shows(
        math,
        false,
        config,
        default_bg_colour,
        blank,
        pty,
        renderer.shader_cell(config, size, x, y),
        renderer.cursor_cell(size, x, y),
    );
    crate::compositor::lemma_half_blocks();
    lemma_empty_layers_change_nothing(
        math,
        renderer.tattoys@,
        count,
        Level::Above,
        config,
        size,
        default_bg_colour,
        middle,
        x,
        y,
    );
}

/// Text on a layer above the screen shows in the frame, whatever the
/// screen and the layers below it hold: where a drawn layer above the screen
/// has text in a cell, every drawn layer over it has nothing there, and
/// neither the indicator nor the cursor stands in the cell, the frame shows
/// the first character of that text.
pub proof fn lemma_frame_shows_topmost_text<M: ColourMath>(
    math: M,
    renderer: Renderer,
    config: Config,
    default_bg_colour: Colour,
    x: int,
    y: int,
    top: int,
)
    requires
        0 <= top < renderer.tattoys.len(),
        is_drawn(renderer.tattoys[top], Level::Above, config, renderer.size()),
        glyph_of(renderer.tattoys[top].grid.cell(x, y).text) is Text,
        forall|k: int|
            top < k < renderer.tattoys.len() && is_drawn(
                #[trigger] renderer.tattoys[k],
                Level::Above,
                config,
                renderer.size(),
            ) ==> glyph_of(renderer.tattoys[k].grid.cell(x, y).text) is Empty,
        !(config.show_tattoy_indicator && x == renderer.indicator_column() && y == 0),
        !(renderer.is_cursor_visible && x == renderer.pty.cursor.x && y == renderer.pty.cursor.y),
    ensures
        renderer.frame_cell(math, true, config, default_bg_colour, x, y).text == seq![
            crate::cell::shown_character(
                crate::cell::first_or_space(renderer.tattoys[top].grid.cell(x, y).text),
            ),
        ],
{
    let count = renderer.tattoys.len() as int;
    let size = renderer.size();
    let below = stacked(
        math,
        renderer.tattoys@,
        count,
        Level::Below,
        config,
        size,
        default_bg_colour,
        crate::grid::blank_cell(),
        x,
        y,
    );
    let middle = if renderer.is_replaced() {
        stacked(math, renderer.tattoys@, count, Level::Replacing, config, size, default_bg_colour, below, x, y)
    } else {
        renderer.with_pty(math, true, config, default_bg_colour, size, below, x, y)
    };
    lemma_topmost_text_shows(
        math,
        renderer.tattoys@,
        count,
        Level::Above,
        config,
        size,
        default_bg_colour,
        middle,
        x,
        y,
        top,
    );
}

/// While layers are not drawn, the frame holds the screen alone, composited
/// onto blank cells; no layer, no grading and no indicator has a part in it.
pub proof fn lemma_frame_without_layers<M: ColourMath>(
    math: M,
    renderer: Renderer,
    config: Config,
    default_bg_colour: Colour,
    x: int,
    y: int,
)
    ensures
        renderer.frame_cell(math, false, config, default_bg_colour, x, y) == (if (
        renderer.pty.width, renderer.pty.height) == renderer.size() {
            composited_cell(
                math,
                crate::grid::blank_cell(),
                renderer.pty.cell(x, y),
                Scalar { bits: ONE_BITS },
                default_bg_colour,
            )
        } else {
            crate::grid::blank_cell()
        }),
{
}

} // verus!
