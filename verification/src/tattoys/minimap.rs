//! The minimap: a small picture of the scrollback at the right edge, which
//! slides in when the mouse comes near.
use crate::cell::glyph_of;
use crate::cell::CellView;
use crate::cell::Cell;
use crate::colour::Colour;
use crate::colour::ColourMath;
use crate::compositor::lemma_half_blocks;
use crate::grid::blank_cell;
use crate::grid::Grid;
use crate::output::SurfaceKind;
use crate::picture::lanczos3_rows;
use crate::picture::resize_lanczos3;
use crate::picture::ColourImage;
use crate::picture::PixelImage;
use crate::blender::Blender;
use crate::run::FrameUpdate;
use crate::run::Input;
use crate::run::Protocol;
use crate::scalar::Scalar;
use crate::scalar::ONE_BITS;
use crate::surface::text_cell;
use crate::surface::with_pixel;
use crate::tattoys::tattoyer::Tattoyer;
use vstd::prelude::*;

verus! {

/// The name of the layer.
pub const MINIMAP_ID: &'static str = "minimap";

/// The layer of the minimap.
pub const MINIMAP_LAYER: i16 = 90;

/// The bit pattern of two tenths: each channel of the backdrop.
pub const BACKDROP_CHANNEL_BITS: u32 = 0x3e4c_cccd;

/// The bit pattern of eight tenths: the alpha of the backdrop.
pub const BACKDROP_ALPHA_BITS: u32 = 0x3f4c_cccd;

/// The bit pattern of ninety-five hundredths: the alpha of every pixel.
pub const PIXEL_ALPHA_BITS: u32 = 0x3f73_3333;

/// The arithmetic on fractions that the animation leaves to the program
/// around it.
///
/// Each operation has a name for its result. The contracts claim only that
/// a result is a function of the arguments: whoever implements the
/// arithmetic vouches for that, and nothing here says what the numbers are.
pub trait Arithmetic {
    /// The sum of two numbers.
    spec fn sum_of(&self, left: Scalar, right: Scalar) -> Scalar;

    /// The first number less the second.
    spec fn difference_of(&self, left: Scalar, right: Scalar) -> Scalar;

    /// A length scaled by a factor, without what is behind the point.
    spec fn scale_of(&self, length: usize, factor: Scalar) -> usize;

    /// Computes `sum_of`.
    fn sum(&self, left: Scalar, right: Scalar) -> (total: Scalar)
        ensures
            total == self.sum_of(left, right),
    ;

    /// Computes `difference_of`.
    fn difference(&self, left: Scalar, right: Scalar) -> (rest: Scalar)
        ensures
            rest == self.difference_of(left, right),
    ;

    /// Computes `scale_of`.
    fn scale(&self, length: usize, factor: Scalar) -> (scaled: usize)
        ensures
            scaled == self.scale_of(length, factor),
    ;
}

/// Where the minimap is on its way in or out.
#[derive(Clone, Copy, Debug, PartialEq, Eq, Structural)]
pub enum AnimationStep {
    Hidden,
    /// On its way in; how much of it shows, from nothing to all.
    Showing(Scalar),
    Shown,
    /// On its way out; how much of it shows, from all to nothing.
    Hiding(Scalar),
}

/// Why the minimap could not be built or drawn.
#[derive(Clone, Copy, Debug, PartialEq, Eq, Structural)]
pub enum MinimapError {
    /// A cell has text without a colour: the palette has not been applied.
    NoPalette,
    /// A picture would be larger than can be counted.
    TooLarge,
    /// The minimap is larger than the terminal.
    DoesNotFit,
    /// The picture of the screen has no pixel where one is to be drawn.
    MissingPixel,
}

/// The minimap.
#[derive(Debug)]
pub struct Minimap {
    pub tattoy: Tattoyer,
    /// The small picture of the scrollback.
    pub scrollback: ColourImage,
    /// The small picture of the screen.
    pub screen: ColourImage,
    /// Whether the terminal has changed since the last frame.
    pub output_changed: bool,
    pub animation_step: AnimationStep,
}

/// The step after a step on the way in, once `moved` of the minimap shows.
pub open spec fn shown_further(moved: Scalar) -> AnimationStep {
    if (Scalar { bits: ONE_BITS }).below(moved) || moved.same_number(Scalar { bits: ONE_BITS }) {
        AnimationStep::Shown
    } else {
        AnimationStep::Showing(moved)
    }
}

/// The step after a step on the way out, once `moved` of the minimap shows.
pub open spec fn hidden_further(moved: Scalar) -> AnimationStep {
    if moved.below(Scalar { bits: 0 }) || moved.same_number(Scalar { bits: 0 }) {
        AnimationStep::Hidden
    } else {
        AnimationStep::Hiding(moved)
    }
}

/// The colour of a pixel of the minimap: that of the picture, nearly opaque.
pub open spec fn minimap_pixel(colour: Colour) -> Colour {
    Colour { alpha: Scalar { bits: PIXEL_ALPHA_BITS }, ..colour }
}

/// The colour behind the part of the minimap that holds no picture.
pub open spec fn backdrop() -> Colour {
    Colour {
        red: Scalar { bits: BACKDROP_CHANNEL_BITS },
        green: Scalar { bits: BACKDROP_CHANNEL_BITS },
        blue: Scalar { bits: BACKDROP_CHANNEL_BITS },
        alpha: Scalar { bits: BACKDROP_ALPHA_BITS },
    }
}

/// Opaque black.
pub open spec fn black() -> Colour {
    Colour {
        red: Scalar { bits: 0 },
        green: Scalar { bits: 0 },
        blue: Scalar { bits: 0 },
        alpha: Scalar { bits: ONE_BITS },
    }
}

/// The colour that stands for a cell in the picture of a surface: the
/// background of a cell that shows a space, or the default where it has
/// none; the foreground of any other cell, if it has one.
pub open spec fn raster_colour(cell: CellView, default_colour: Colour) -> Option<Colour> {
    if cell.text == seq![' '] {
        match cell.attrs.background.colour() {
            Some(colour) => Some(colour),
            None => Some(default_colour),
        }
    } else {
        cell.attrs.foreground.colour()
    }
}

fn cell_raster_colour(cell: &Cell, default_colour: Colour) -> (colour: Option<Colour>)
    ensures
        colour == raster_colour(cell@, default_colour),
{
    let is_space = crate::text::same_text(cell.str(), " ");
    proof {
        reveal_strlit(" ");
        assert(" "@ =~= seq![' ']);
    }
    if is_space {
        match Blender::extract_colour(cell.attrs.background) {
            Some(colour) => Some(colour),
            None => Some(default_colour),
        }
    } else {
        Blender::extract_colour(cell.attrs.foreground)
    }
}

impl Minimap {
    /// The surfaces and the pictures are rectangles.
    pub open spec fn wf(&self) -> bool {
        &&& self.tattoy.wf()
        &&& self.scrollback.wf()
        &&& self.screen.wf()
    }

    /// A minimap that is hidden and has no pictures yet.
    pub fn new(width: u16, height: u16, target_frame_rate: u32) -> (minimap: Minimap)
        ensures
            minimap.wf(),
            minimap.animation_step == AnimationStep::Hidden,
            minimap.output_changed,
            minimap.tattoy.layer == MINIMAP_LAYER,
            minimap.tattoy.id@ == MINIMAP_ID@,
            minimap.tattoy.width == width,
            minimap.tattoy.height == height,
            minimap.scrollback.width == 0,
            minimap.scrollback.height == 0,
            minimap.screen.width == 0,
            minimap.screen.height == 0,
    {
        let tattoy = Tattoyer::new(
            MINIMAP_ID.to_owned(),
            MINIMAP_LAYER,
            Scalar::one(),
            width,
            height,
            target_frame_rate,
        );
        Minimap {
            tattoy,
            scrollback: ColourImage::empty(),
            screen: ColourImage::empty(),
            output_changed: true,
            animation_step: AnimationStep::Hidden,
        }
    }

    /// Whether the minimap is hidden altogether.
    pub fn is_hidden(&self) -> (hidden: bool)
        ensures
            hidden == (self.animation_step == AnimationStep::Hidden),
    {
        match self.animation_step {
            AnimationStep::Hidden => true,
            _ => false,
        }
    }

    /// Whether the minimap shows altogether.
    pub fn is_shown(&self) -> (shown: bool)
        ensures
            shown == (self.animation_step == AnimationStep::Shown),
    {
        match self.animation_step {
            AnimationStep::Shown => true,
            _ => false,
        }
    }

    /// Whether a frame is to be drawn: the terminal has changed, or the
    /// minimap is not hidden.
    pub fn needs_rerendering(&self) -> (needed: bool)
        ensures
            needed == (self.output_changed || self.animation_step != AnimationStep::Hidden),
    {
        self.output_changed || !self.is_hidden()
    }

    /// Lets a hidden minimap begin to slide in.
    pub fn show(&mut self)
        ensures
            *final(self) == (Minimap {
                animation_step: if old(self).animation_step == AnimationStep::Hidden {
                    AnimationStep::Showing(Scalar { bits: 0 })
                } else {
                    old(self).animation_step
                },
                ..*old(self)
            }),
    {
        if self.is_hidden() {
            self.animation_step = AnimationStep::Showing(Scalar::zero());
        }
    }

    /// Lets a minimap that shows altogether begin to slide out.
    pub fn slide_out(&mut self)
        ensures
            *final(self) == (Minimap {
                animation_step: if old(self).animation_step == AnimationStep::Shown {
                    AnimationStep::Hiding(Scalar { bits: ONE_BITS })
                } else {
                    old(self).animation_step
                },
                ..*old(self)
            }),
    {
        if self.is_shown() {
            self.animation_step = AnimationStep::Hiding(Scalar::one());
        }
    }

    /// The step after the mouse has been seen in column `x`, counted from
    /// one. A hidden minimap begins to slide in when the mouse is in one of
    /// the last two columns. A minimap that shows altogether begins to slide
    /// out when the mouse is to the left of it.
    pub open spec fn after_mouse(&self, x: u16) -> AnimationStep {
        if self.animation_step == AnimationStep::Hidden && x > self.tattoy.width - 2 {
            AnimationStep::Showing(Scalar { bits: 0 })
        } else if self.animation_step == AnimationStep::Shown && x - 1 < self.tattoy.width
            - self.scrollback.width {
            AnimationStep::Hiding(Scalar { bits: ONE_BITS })
        } else {
            self.animation_step
        }
    }

    /// Lets the minimap slide in or out as the mouse comes and goes.
    pub fn check_if_mouse_is_over_right_columns(&mut self, message: &Protocol)
        ensures
            *final(self) == (Minimap {
                animation_step: match *message {
                    Protocol::Input(Input::Mouse { x, y }) => old(self).after_mouse(x),
                    _ => old(self).animation_step,
                },
                ..*old(self)
            }),
    {
        let Protocol::Input(Input::Mouse { x, y }) = message else {
            return ;
        };
        let column: u64 = *x as u64;
        let width: u64 = self.tattoy.width as u64;
        if self.is_hidden() && column + 2 > width {
            self.show();
            return ;
        }
        let left: u128 = column as u128 + self.scrollback.width as u128;
        let right: u128 = width as u128 + 1;
        let is_mouse_outside_minimap = left < right;
        if self.is_shown() && is_mouse_outside_minimap {
            self.slide_out();
        }
    }

    /// What comes of one step of the animation: the step that follows, and
    /// how much of the minimap shows in this frame, if a frame is drawn.
    ///
    /// `moved` is how much shows after this step of a minimap on its way:
    /// what showed before, more or less the speed of the animation.
    pub open spec fn transition(step: AnimationStep, output_changed: bool, moved: Scalar) -> (
        AnimationStep,
        Option<Scalar>,
    ) {
        match step {
            AnimationStep::Hidden => (step, None),
            AnimationStep::Shown => if output_changed {
                (step, Some(Scalar { bits: ONE_BITS }))
            } else {
                (step, None)
            },
            AnimationStep::Showing(_) => (shown_further(moved), Some(moved.clamped_to_unit())),
            AnimationStep::Hiding(_) => (hidden_further(moved), Some(moved.clamped_to_unit())),
        }
    }

    /// Decides `transition`.
    pub fn step_transition(step: AnimationStep, output_changed: bool, moved: Scalar) -> (next: (
        AnimationStep,
        Option<Scalar>,
    ))
        ensures
            next == Minimap::transition(step, output_changed, moved),
    {
        match step {
            AnimationStep::Hidden => (step, None),
            AnimationStep::Shown => {
                if output_changed {
                    (step, Some(Scalar::one()))
                } else {
                    (step, None)
                }
            },
            AnimationStep::Showing(_) => {
                let next = if moved.is_at_least(Scalar::one()) {
                    AnimationStep::Shown
                } else {
                    AnimationStep::Showing(moved)
                };
                (next, Some(moved.clamp_to_unit()))
            },
            AnimationStep::Hiding(_) => {
                let next = if moved.is_at_most(Scalar::zero()) {
                    AnimationStep::Hidden
                } else {
                    AnimationStep::Hiding(moved)
                };
                (next, Some(moved.clamp_to_unit()))
            },
        }
    }

    /// How much of the minimap shows after one more step of the animation:
    /// on the way in, what showed before and the speed of the animation
    /// together; on the way out, what showed before less the speed. A minimap
    /// that is not on its way does not move.
    pub open spec fn moved_on<A: Arithmetic>(arithmetic: A, step: AnimationStep, animation_speed: Scalar) -> Scalar {
        match step {
            AnimationStep::Showing(offset) => arithmetic.sum_of(offset, animation_speed),
            AnimationStep::Hiding(offset) => arithmetic.difference_of(offset, animation_speed),
            _ => Scalar { bits: 0 },
        }
    }

    /// Moves the animation on by one frame, and says how much of the
    /// minimap shows in it: nothing where no frame is to be drawn.
    pub fn get_transition_state<A: Arithmetic>(&mut self, animation_speed: Scalar, arithmetic: &A) -> (
        shown: Option<Scalar>)
        ensures
            final(self).tattoy == old(self).tattoy,
            final(self).scrollback == old(self).scrollback,
            final(self).screen == old(self).screen,
            final(self).output_changed == old(self).output_changed,
            (final(self).animation_step, shown) == Minimap::transition(
                old(self).animation_step,
                old(self).output_changed,
                Minimap::moved_on(*arithmetic, old(self).animation_step, animation_speed),
            ),
    {
        let moved = match self.animation_step {
            AnimationStep::Showing(offset) => arithmetic.sum(offset, animation_speed),
            AnimationStep::Hiding(offset) => arithmetic.difference(offset, animation_speed),
            _ => Scalar::zero(),
        };
        let (next, shown) = Minimap::step_transition(self.animation_step, self.output_changed, moved);
        self.animation_step = next;
        shown
    }

    /// The layer's copy of a surface.
    pub open spec fn copy_of(&self, kind: SurfaceKind) -> Grid {
        self.tattoy.copy_of(kind)
    }

    /// Whether a cell of a grid has text without a colour.
    pub open spec fn lacks_palette(grid: Grid, default_colour: Colour) -> bool {
        exists|x: int, y: int|
            grid.contains(x, y) && raster_colour(#[trigger] grid.cell(x, y), default_colour) is None
    }

    /// A picture of a surface: two pixels for each cell, one above the
    /// other, both in the colour that stands for the cell. Text without a
    /// colour is an error, because the palette has not been applied to it.
    pub fn rasterise(&self, kind: SurfaceKind, default_colour: Colour) -> (made: Result<
        ColourImage,
        MinimapError,
    >)
        requires
            self.wf(),
        ensures
            match made {
                Ok(image) => {
                    &&& Tattoyer::is_countable(self.copy_of(kind))
                    &&& image.wf()
                    &&& image.width == self.copy_of(kind).width
                    &&& image.height == self.copy_of(kind).height * 2
                    &&& forall|x: int, y: int|
                        image.contains(x, y) ==> Some(#[trigger] image.pixel(x, y)) == raster_colour(
                            self.copy_of(kind).cell(x, y / 2),
                            default_colour,
                        )
                },
                Err(error) => if Tattoyer::is_countable(self.copy_of(kind)) {
                    error == MinimapError::NoPalette && Minimap::lacks_palette(
                        self.copy_of(kind),
                        default_colour,
                    )
                } else {
                    error == MinimapError::TooLarge
                },
            },
    {
        let surface = match kind {
            SurfaceKind::Scrollback => &self.tattoy.scrollback.surface,
            SurfaceKind::Screen => &self.tattoy.screen.surface,
        };
        let limit: usize = u32::MAX as usize;
        if surface.width > limit || surface.height > limit / 2 {
            return Err(MinimapError::TooLarge);
        }
        let height: usize = surface.height * 2;
        let mut rows: Vec<Vec<Colour>> = Vec::new();
        let mut y: usize = 0;
        while y < height
            invariant
                surface.wf(),
                surface == self.copy_of(kind),
                Tattoyer::is_countable(*surface),
                height == surface.height * 2,
                y <= height,
                rows.len() == y,
                forall|j: int| 0 <= j < rows.len() ==> (#[trigger] rows[j]).len() == surface.width,
                forall|i: int, j: int|
                    0 <= j < rows.len() && 0 <= i < surface.width ==> Some(#[trigger] rows[j][i])
                        == raster_colour(surface.cell(i, j / 2), default_colour),
            decreases height - y,
        {
            let line: usize = y / 2;
            let mut row: Vec<Colour> = Vec::new();
            let mut x: usize = 0;
            while x < surface.width
                invariant
                    surface.wf(),
                    surface == self.copy_of(kind),
                    Tattoyer::is_countable(*surface),
                    line == y / 2,
                    line < surface.height,
                    x <= surface.width,
                    row.len() == x,
                    forall|i: int|
                        0 <= i < row.len() ==> Some(#[trigger] row[i]) == raster_colour(
                            surface.cell(i, line as int),
                            default_colour,
                        ),
                decreases surface.width - x,
            {
                match cell_raster_colour(&surface.rows[line][x], default_colour) {
                    Some(colour) => {
                        row.push(colour);
                    },
                    None => {
                        proof {
                            assert(raster_colour(surface.cell(x as int, line as int), default_colour) is None);
                        }
                        return Err(MinimapError::NoPalette);
                    },
                }
                x = x + 1;
            }
            rows.push(row);
            y = y + 1;
        }
        Ok(ColourImage { width: surface.width, height, rows })
    }

    /// The width that the minimap is fitted into: the widest that the user
    /// allows, but no wider than the terminal.
    pub open spec fn fitted_width(&self, max_width: u16) -> u32 {
        if max_width < self.tattoy.width {
            max_width as u32
        } else {
            self.tattoy.width as u32
        }
    }

    /// Whether a small picture fits into a width and the pixels of so many
    /// rows of the terminal: it is no wider and no higher, but for the one
    /// pixel that each side of a picture has at least.
    pub open spec fn fits(picture: ColourImage, width: u32, rows: u16) -> bool {
        &&& 1 <= picture.width <= crate::picture::at_least_one(width)
        &&& 1 <= picture.height <= crate::picture::at_least_one((rows * 2) as u32)
    }

    /// Takes the picture of a surface, made small, as the minimap of that
    /// surface. The picture is fitted into the width that the minimap may
    /// take and the height of the terminal in pixels. A picture without
    /// pixels, or with too few bytes for its size, changes nothing, and the
    /// answer is `false`.
    pub fn build_minimap(&mut self, kind: SurfaceKind, picture: &PixelImage, max_width: u16) -> (built:
        bool)
        requires
            old(self).wf(),
        ensures
            final(self).wf(),
            final(self).tattoy == old(self).tattoy,
            final(self).animation_step == old(self).animation_step,
            final(self).output_changed == old(self).output_changed,
            built == (picture.wf() && picture.width > 0 && picture.height > 0),
            !built ==> *final(self) == *old(self),
            built ==> match kind {
                SurfaceKind::Scrollback => Minimap::fits(
                    final(self).scrollback,
                    old(self).fitted_width(max_width),
                    old(self).tattoy.height,
                ),
                SurfaceKind::Screen => Minimap::fits(
                    final(self).screen,
                    old(self).fitted_width(max_width),
                    old(self).tattoy.height,
                ),
            },
            built ==> {
                let rows = lanczos3_rows(
                    picture.bytes@,
                    picture.width,
                    picture.height,
                    old(self).fitted_width(max_width),
                    (old(self).tattoy.height * 2) as u32,
                );
                match kind {
                    SurfaceKind::Scrollback => {
                        &&& final(self).scrollback.rows_view() == rows
                        &&& final(self).screen == old(self).screen
                    },
                    SurfaceKind::Screen => {
                        &&& final(self).screen.rows_view() == rows
                        &&& final(self).scrollback == old(self).scrollback
                    },
                }
            },
    {
        if picture.width == 0 || picture.height == 0 {
            return false;
        }
        proof {
            assert(picture.width * picture.height <= 0xffff_ffff * 0xffff_ffff) by (nonlinear_arith)
                requires
                    picture.width <= 0xffff_ffff,
                    picture.height <= 0xffff_ffff,
            ;
        }
        let needed: u128 = picture.width as u128 * picture.height as u128 * 4;
        if picture.bytes.len() as u128 != needed {
            return false;
        }
        let width: u32 = if max_width < self.tattoy.width {
            max_width as u32
        } else {
            self.tattoy.width as u32
        };
        let minimap = resize_lanczos3(picture, width, self.tattoy.height as u32 * 2);
        match kind {
            SurfaceKind::Scrollback => {
                self.scrollback = minimap;
            },
            SurfaceKind::Screen => {
                self.screen = minimap;
            },
        }
        true
    }

    /// Takes a message in: the mouse may call the minimap in or send it
    /// out, the layer takes the message in as every layer does, and a change
    /// of the terminal is noted. Says what is left to do to the layer's copy
    /// of the terminal, and which of the surfaces have to be drawn small
    /// again afterwards: the scrollback, and the screen.
    pub fn handle_protocol_message(&mut self, message: Protocol) -> (work: Result<
        (crate::tattoys::tattoyer::SurfaceWork, bool, bool),
        crate::tattoys::tattoyer::SizeError,
    >)
        requires
            old(self).wf(),
            message matches Protocol::Output(output) ==> output.wf(),
        ensures
            final(self).wf(),
            final(self).scrollback == old(self).scrollback,
            final(self).screen == old(self).screen,
            final(self).animation_step == (match message {
                Protocol::Input(Input::Mouse { x, y }) => old(self).after_mouse(x),
                _ => old(self).animation_step,
            }),
            match work {
                Ok(done) => {
                    &&& old(self).tattoy.takes_message(&final(self).tattoy, message, Ok(done.0))
                    &&& done.1 == crate::tattoys::tattoyer::changes_surface(
                        message,
                        SurfaceKind::Scrollback,
                    )
                    &&& done.2 == crate::tattoys::tattoyer::changes_surface(message, SurfaceKind::Screen)
                    &&& final(self).output_changed == (old(self).output_changed || done.1 || done.2)
                },
                Err(error) => {
                    &&& old(self).tattoy.takes_message(&final(self).tattoy, message, Err(error))
                    &&& final(self).output_changed == old(self).output_changed
                },
            },
            work is Err <==> (message matches Protocol::Output(
                crate::output::Output::Diff(crate::output::SurfaceDiff::Screen(diff)),
            ) && (diff.size.0 > u16::MAX || diff.size.1 > u16::MAX)),
    {
        self.check_if_mouse_is_over_right_columns(&message);
        let scrollback = Tattoyer::is_scrollback_output_changed(&message);
        let screen = Tattoyer::is_screen_output_changed(&message);
        match self.tattoy.handle_common_protocol_messages(message) {
            Err(error) => Err(error),
            Ok(work) => {
                if scrollback || screen {
                    self.output_changed = true;
                }
                Ok((work, scrollback, screen))
            },
        }
    }

    /// Notes that the terminal has changed, if a message says so, and says
    /// which of the surfaces have to be drawn small again: the scrollback
    /// first, then the screen.
    pub fn check_if_pty_has_changed(&mut self, message: &Protocol) -> (changed: (bool, bool))
        ensures
            changed == (
                crate::tattoys::tattoyer::changes_surface(*message, SurfaceKind::Scrollback),
                crate::tattoys::tattoyer::changes_surface(*message, SurfaceKind::Screen),
            ),
            *final(self) == (Minimap {
                output_changed: old(self).output_changed || changed.0 || changed.1,
                ..*old(self)
            }),
    {
        let scrollback = Tattoyer::is_scrollback_output_changed(message);
        let screen = Tattoyer::is_screen_output_changed(message);
        if scrollback || screen {
            self.output_changed = true;
        }
        (scrollback, screen)
    }
}

/// The two small pictures and how they are laid out in the terminal.
pub struct Layout<'a> {
    pub scrollback: &'a ColourImage,
    pub screen: &'a ColourImage,
    /// The width of the terminal.
    pub width: usize,
    /// The height of the terminal in pixels.
    pub pixel_rows: usize,
    /// Whether the terminal shows its alternate screen.
    pub is_alternate: bool,
    /// How many columns of the minimap are still out of sight.
    pub hidden: usize,
}

impl<'a> Layout<'a> {
    /// The pictures are rectangles, and fit into the terminal.
    pub open spec fn wf(&self) -> bool {
        &&& self.scrollback.wf()
        &&& self.screen.wf()
        &&& self.scrollback.width <= self.width
        &&& self.scrollback.height <= self.pixel_rows
        &&& self.screen.height <= self.pixel_rows
        &&& self.pixel_rows % 2 == 0
    }

    /// How many rows of pixels above the minimap hold no picture.
    pub open spec fn empty_rows(&self) -> int {
        self.pixel_rows - self.scrollback.height
    }

    /// The row of pixels in which the picture of the screen begins.
    pub open spec fn screen_offset(&self) -> int {
        self.pixel_rows - self.screen.height
    }

    /// How many columns of the minimap are in sight.
    pub open spec fn visible(&self) -> int {
        if self.hidden >= self.scrollback.width {
            0
        } else {
            self.scrollback.width - self.hidden
        }
    }

    /// The first column of the terminal in which the minimap is in sight.
    pub open spec fn first_column(&self) -> int {
        self.width - self.visible()
    }

    /// The pixel of the pictures that is drawn in a column of the minimap
    /// and a row of pixels of the terminal: one of the scrollback, but one
    /// of the screen in the rows of the screen while the terminal shows its
    /// alternate screen. The picture of the screen may have none there.
    pub open spec fn source(&self, column: int, y: int) -> Option<Colour> {
        if y < self.screen_offset() || !self.is_alternate {
            Some(self.scrollback.pixel(column, y - self.empty_rows()))
        } else if self.screen.contains(column, y - self.screen_offset()) {
            Some(self.screen.pixel(column, y - self.screen_offset()))
        } else {
            None
        }
    }

    /// A cell after one of its two rows of pixels has been drawn. Above the
    /// picture, the upper row draws the backdrop and the lower row nothing.
    pub open spec fn drawn_row(&self, cell: CellView, column: int, y: int) -> CellView {
        if y < self.empty_rows() {
            if y % 2 == 0 {
                text_cell(' ', Some(backdrop()), Some(black()))
            } else {
                cell
            }
        } else {
            match self.source(column, y) {
                Some(colour) => with_pixel(cell, y % 2 == 0, minimap_pixel(colour)),
                None => cell,
            }
        }
    }

    /// A cell of the minimap after the first `rows_done` rows of pixels of
    /// the terminal have been drawn.
    pub open spec fn drawn_cell(&self, column: int, row: int, rows_done: int) -> CellView {
        let first = if 2 * row < rows_done {
            self.drawn_row(blank_cell(), column, 2 * row)
        } else {
            blank_cell()
        };
        if 2 * row + 1 < rows_done {
            self.drawn_row(first, column, 2 * row + 1)
        } else {
            first
        }
    }

    /// Whether a pixel that is to be drawn is missing from the pictures.
    pub open spec fn misses_pixel(&self) -> bool {
        exists|column: int, y: int|
            0 <= column < self.visible() && self.empty_rows() <= y < self.pixel_rows
                && #[trigger] self.source(column, y) is None
    }

    /// A cell of the surface after the first `rows_done` rows of pixels have
    /// been drawn in every column of the minimap, and one row more in its
    /// first `columns_done` columns.
    pub open spec fn expected(&self, x: int, y: int, rows_done: int, columns_done: int) -> CellView {
        if x < self.first_column() {
            blank_cell()
        } else {
            let column = x - self.first_column();
            self.drawn_cell(
                column,
                y,
                if column < columns_done {
                    rows_done + 1
                } else {
                    rows_done
                },
            )
        }
    }
}

/// Whatever has been drawn of a cell of the minimap, it shows no text.
pub proof fn lemma_drawn_cell_is_no_text(layout: Layout, column: int, row: int, rows_done: int)
    ensures
        !(glyph_of(layout.drawn_cell(column, row, rows_done).text) is Text),
{
    lemma_half_blocks();
}

/// Draws the minimap onto a blank surface as large as the terminal: in the
/// columns that are in sight, from the top, the backdrop and then the
/// pictures, pixel by pixel.
fn draw_minimap<M: ColourMath>(surface: &mut crate::surface::Surface, layout: &Layout, math: &M) -> (drawn:
    Result<(), MinimapError>)
    requires
        old(surface).wf(),
        layout.wf(),
        old(surface).grid.width == layout.width,
        old(surface).grid.height * 2 == layout.pixel_rows,
        forall|x: int, y: int|
            old(surface).grid.contains(x, y) ==> #[trigger] old(surface).grid.cell(x, y)
                == blank_cell(),
    ensures
        final(surface).wf(),
        final(surface).id == old(surface).id,
        final(surface).width == old(surface).width,
        final(surface).height == old(surface).height,
        final(surface).layer == old(surface).layer,
        final(surface).opacity == old(surface).opacity,
        final(surface).grid.same_size(&old(surface).grid),
        drawn is Err <==> layout.misses_pixel(),
        drawn matches Err(error) ==> error == MinimapError::MissingPixel,
        drawn is Ok ==> forall|x: int, y: int|
            old(surface).grid.contains(x, y) ==> #[trigger] final(surface).grid.cell(x, y)
                == layout.expected(x, y, layout.pixel_rows as int, 0),
{
    let visible: usize = if layout.hidden >= layout.scrollback.width {
        0
    } else {
        layout.scrollback.width - layout.hidden
    };
    let first_column: usize = layout.width - visible;
    let empty_height: usize = layout.pixel_rows - layout.scrollback.height;
    let screen_offset: usize = layout.pixel_rows - layout.screen.height;
    let shade = Colour::from_bits(
        BACKDROP_CHANNEL_BITS,
        BACKDROP_CHANNEL_BITS,
        BACKDROP_CHANNEL_BITS,
        BACKDROP_ALPHA_BITS,
    );
    let ink = Colour::opaque_black();
    let mut y: usize = 0;
    while y < layout.pixel_rows
        invariant
            surface.wf(),
            layout.wf(),
            surface.id == old(surface).id,
            surface.width == old(surface).width,
            surface.height == old(surface).height,
            surface.layer == old(surface).layer,
            surface.opacity == old(surface).opacity,
            surface.grid.same_size(&old(surface).grid),
            surface.grid.width == layout.width,
            surface.grid.height * 2 == layout.pixel_rows,
            visible == layout.visible(),
            first_column == layout.first_column(),
            empty_height == layout.empty_rows(),
            screen_offset == layout.screen_offset(),
            shade == backdrop(),
            ink == black(),
            y <= layout.pixel_rows,
            forall|i: int, j: int|
                surface.grid.contains(i, j) ==> #[trigger] surface.grid.cell(i, j) == layout.expected(
                    i,
                    j,
                    y as int,
                    0,
                ),
            forall|column: int, row: int|
                0 <= column < visible && empty_height <= row < y ==> #[trigger] layout.source(
                    column,
                    row,
                ) is Some,
        decreases layout.pixel_rows - y,
    {
        let mut column: usize = 0;
        while column < visible
            invariant
                surface.wf(),
                layout.wf(),
                surface.id == old(surface).id,
                surface.width == old(surface).width,
                surface.height == old(surface).height,
                surface.layer == old(surface).layer,
                surface.opacity == old(surface).opacity,
                surface.grid.same_size(&old(surface).grid),
                surface.grid.width == layout.width,
                surface.grid.height * 2 == layout.pixel_rows,
                visible == layout.visible(),
                first_column == layout.first_column(),
                empty_height == layout.empty_rows(),
                screen_offset == layout.screen_offset(),
                shade == backdrop(),
                ink == black(),
                y < layout.pixel_rows,
                column <= visible,
                forall|i: int, j: int|
                    surface.grid.contains(i, j) ==> #[trigger] surface.grid.cell(i, j)
                        == layout.expected(i, j, y as int, column as int),
                forall|c: int, row: int|
                    0 <= c < visible && empty_height <= row < y ==> #[trigger] layout.source(c, row) is Some,
                forall|c: int|
                    0 <= c < column && empty_height <= y ==> #[trigger] layout.source(c, y as int) is Some,
            decreases visible - column,
        {
            let x: usize = first_column + column;
            let row: usize = y / 2;
            proof {
                lemma_drawn_cell_is_no_text(*layout, column as int, row as int, y as int);
            }
            if y < empty_height {
                if y % 2 == 0 {
                    proof {
                        reveal_strlit(" ");
                    }
                    surface.add_text(x, row, " ".to_owned(), Some(shade), Some(ink));
                }
            } else {
                let found = if y < screen_offset || !layout.is_alternate {
                    layout.scrollback.get_pixel_checked(column, y - empty_height)
                } else {
                    layout.screen.get_pixel_checked(column, y - screen_offset)
                };
                let Some(pixel) = found else {
                    return Err(MinimapError::MissingPixel);
                };
                let colour = pixel.with_alpha(Scalar::from_bits(PIXEL_ALPHA_BITS));
                let added = surface.add_pixel(x, y, colour, math);
                if added.is_err() {
                    return Err(MinimapError::MissingPixel);
                }
            }
            column = column + 1;
        }
        y = y + 1;
    }
    Ok(())
}

impl Minimap {
    /// How the pictures are laid out in the terminal, with `hidden` columns
    /// of the minimap out of sight.
    pub open spec fn layout(&self, hidden: usize) -> Layout {
        Layout {
            scrollback: &self.scrollback,
            screen: &self.screen,
            width: self.tattoy.width as usize,
            pixel_rows: (self.tattoy.height * 2) as usize,
            is_alternate: self.tattoy.screen.mode == crate::output::ScreenMode::Alternate,
            hidden,
        }
    }

    /// Whether `after` and `drawn` are what comes of drawing a frame of this
    /// minimap with `hidden` of its columns out of sight.
    pub open spec fn frames(&self, after: &Minimap, hidden: usize, drawn: Result<
        FrameUpdate,
        MinimapError,
    >) -> bool {
        &&& after.wf()
        &&& after.scrollback == self.scrollback
        &&& after.screen == self.screen
        &&& after.animation_step == self.animation_step
        &&& if !self.layout(hidden).wf() {
            drawn == Err::<FrameUpdate, MinimapError>(MinimapError::DoesNotFit)
        } else if self.layout(hidden).misses_pixel() {
            drawn == Err::<FrameUpdate, MinimapError>(MinimapError::MissingPixel)
        } else {
            &&& !after.output_changed
            &&& drawn matches Ok(FrameUpdate::TattoySurface(surface))
            &&& surface.wf()
            &&& surface.id@ == self.tattoy.id@
            &&& surface.layer == self.tattoy.layer
            &&& surface.width == self.tattoy.width
            &&& surface.height == self.tattoy.height
            &&& surface.grid.width == self.tattoy.width
            &&& surface.grid.height == self.tattoy.height
            &&& forall|x: int, y: int|
                surface.grid.contains(x, y) ==> #[trigger] surface.grid.cell(x, y) == self.layout(
                    hidden,
                ).expected(x, y, self.tattoy.height * 2, 0)
        }
    }

    /// Draws one frame of the minimap, with `hidden` of its columns out of
    /// sight, and hands out the surface to be sent to the renderer.
    ///
    /// A minimap that is larger than the terminal is not drawn, and neither
    /// is one whose pictures lack a pixel that is to be drawn.
    pub fn draw<M: ColourMath>(&mut self, hidden: usize, math: &M) -> (drawn: Result<
        FrameUpdate,
        MinimapError,
    >)
        requires
            old(self).wf(),
        ensures
            old(self).frames(final(self), hidden, drawn),
    {
        let width: usize = self.tattoy.width as usize;
        let pixel_rows: usize = self.tattoy.height as usize * 2;
        if self.scrollback.width > width || self.scrollback.height > pixel_rows || self.screen.height
            > pixel_rows {
            return Err(MinimapError::DoesNotFit);
        }
        self.tattoy.initialise_surface();
        let layout = Layout {
            scrollback: &self.scrollback,
            screen: &self.screen,
            width,
            pixel_rows,
            is_alternate: self.tattoy.is_alternate_screen(),
            hidden,
        };
        if let Err(error) = draw_minimap(&mut self.tattoy.surface, &layout, math) {
            return Err(error);
        }
        let update = self.tattoy.send_output();
        self.output_changed = false;
        Ok(update)
    }

    /// How many columns of a minimap of the given width are out of sight
    /// while `shown` of it shows: the width scaled by what is left to one.
    pub open spec fn out_of_sight<A: Arithmetic>(arithmetic: A, width: usize, shown: Scalar) -> usize {
        arithmetic.scale_of(width, arithmetic.difference_of(Scalar { bits: ONE_BITS }, shown))
    }

    /// Whether `after` and `drawn` are what comes of one frame of this
    /// minimap at the given speed of the animation: the animation has moved
    /// on by one step, and where a frame is to be drawn it is drawn with as
    /// many columns out of sight as `out_of_sight` says.
    pub open spec fn renders<A: Arithmetic>(
        &self,
        after: &Minimap,
        arithmetic: A,
        animation_speed: Scalar,
        drawn: Result<Option<FrameUpdate>, MinimapError>,
    ) -> bool {
        let next = Minimap::transition(
            self.animation_step,
            self.output_changed,
            Minimap::moved_on(arithmetic, self.animation_step, animation_speed),
        );
        let stepped = Minimap { animation_step: next.0, ..*self };
        match next.1 {
            None => drawn matches Ok(None) && *after == stepped,
            Some(shown) => {
                let hidden = Minimap::out_of_sight(arithmetic, self.scrollback.width, shown);
                match drawn {
                    Ok(Some(update)) => stepped.frames(after, hidden, Ok(update)),
                    Ok(None) => false,
                    Err(error) => stepped.frames(after, hidden, Err(error)),
                }
            },
        }
    }

    /// Moves the animation on by one frame and draws the frame, if one is
    /// to be drawn. How many columns are out of sight follows from how much
    /// of the minimap shows.
    pub fn render<A: Arithmetic, M: ColourMath>(&mut self, animation_speed: Scalar, arithmetic: &A, math: &M) -> (drawn:
        Result<Option<FrameUpdate>, MinimapError>)
        requires
            old(self).wf(),
        ensures
            final(self).wf(),
            old(self).renders(final(self), *arithmetic, animation_speed, drawn),
    {
        let shown = self.get_transition_state(animation_speed, arithmetic);
        let Some(transition_state) = shown else {
            return Ok(None);
        };
        let out_of_sight = arithmetic.difference(Scalar::one(), transition_state);
        let hidden = arithmetic.scale(self.scrollback.width, out_of_sight);
        let drawn = self.draw(hidden, math);
        match drawn {
            Err(error) => Err(error),
            Ok(update) => Ok(Some(update)),
        }
    }
}

/// The mouse in one of the last two columns calls a hidden minimap in: it
/// begins to slide in, with nothing of it in sight yet.
pub proof fn lemma_mouse_at_the_edge_calls_the_minimap(minimap: Minimap, x: u16)
    requires
        minimap.animation_step == AnimationStep::Hidden,
        x + 2 > minimap.tattoy.width,
    ensures
        minimap.after_mouse(x) == AnimationStep::Showing(Scalar { bits: 0 }),
{
}

/// Where the pictures reach, the minimap is a column of half blocks: once
/// every row of pixels is drawn, a cell of a column in sight that lies
/// wholly below the backdrop is an upper half block, and its two pixels are
/// the two pixels of the pictures that belong there.
pub proof fn lemma_minimap_is_made_of_half_blocks(layout: Layout, column: int, row: int)
    requires
        layout.wf(),
        !layout.misses_pixel(),
        0 <= column < layout.visible(),
        layout.empty_rows() <= 2 * row,
        2 * row + 1 < layout.pixel_rows,
    ensures
        layout.drawn_cell(column, row, layout.pixel_rows as int).text == seq![
            crate::cell::UPPER_HALF_BLOCK,
        ],
        layout.source(column, 2 * row) matches Some(colour) && crate::surface::upper_pixel(
            layout.drawn_cell(column, row, layout.pixel_rows as int),
        ) == Some(minimap_pixel(colour)),
        layout.source(column, 2 * row + 1) matches Some(colour) && crate::surface::lower_pixel(
            layout.drawn_cell(column, row, layout.pixel_rows as int),
        ) == Some(minimap_pixel(colour)),
{
    lemma_half_blocks();
    assert(layout.source(column, 2 * row) is Some);
    assert(layout.source(column, 2 * row + 1) is Some);
    crate::surface::lemma_pixels_round_trip(
        blank_cell(),
        minimap_pixel(layout.source(column, 2 * row)->0),
        minimap_pixel(layout.source(column, 2 * row + 1)->0),
    );
}

/// A minimap whose pictures were fitted into a terminal with columns and
/// rows, under a widest width of at least one column, is no wider than that
/// width and than the terminal, and no higher than the terminal in pixels. So
/// it has room in the terminal, however many of its columns are out of sight.
pub proof fn lemma_fitted_minimap_has_room(minimap: Minimap, max_width: u16, hidden: usize)
    requires
        minimap.wf(),
        minimap.tattoy.width >= 1,
        minimap.tattoy.height >= 1,
        max_width >= 1,
        Minimap::fits(minimap.scrollback, minimap.fitted_width(max_width), minimap.tattoy.height),
        Minimap::fits(minimap.screen, minimap.fitted_width(max_width), minimap.tattoy.height),
    ensures
        minimap.scrollback.width <= max_width,
        minimap.scrollback.width <= minimap.tattoy.width,
        minimap.scrollback.height <= 2 * minimap.tattoy.height,
        minimap.screen.width <= max_width,
        minimap.screen.width <= minimap.tattoy.width,
        minimap.screen.height <= 2 * minimap.tattoy.height,
        minimap.layout(hidden).wf(),
{
}

} // verus!
