//! What every layer has and does: its surface, its copy of the terminal's
//! output and the pace of its frames.
use crate::blender::Blender;
use crate::cell::Cell;
use crate::cell::CellView;
use crate::colour::Colour;
use crate::config::Config;
use crate::grid::Grid;
use crate::output::Change;
use crate::output::CompleteScreen;
use crate::output::CompleteScrollback;
use crate::output::CompleteSurface;
use crate::output::Output;
use crate::output::ScreenMode;
use crate::output::SurfaceDiff;
use crate::output::SurfaceKind;
use crate::picture::ColourImage;
use crate::renderer::ONE_MICROSECOND;
use crate::run::FrameUpdate;
use crate::run::Protocol;
use crate::scalar::Scalar;
use crate::surface::white;
use crate::surface::white_colour;
use crate::surface::Surface;
use vstd::prelude::*;

verus! {

/// How many pixels one above the other a cell has.
pub const PIXELS_PER_LINE: usize = 2;

/// How many nanoseconds a microsecond has.
pub const NANOSECONDS_PER_MICROSECOND: u64 = 1000;

/// What every layer has: its surface and its copy of the terminal's output.
#[derive(Debug)]
pub struct Tattoyer {
    /// The name of the layer.
    pub id: String,
    /// The layer. Zero is the screen of the terminal itself.
    pub layer: i16,
    pub opacity: Scalar,
    /// The surface that the next frame is drawn on.
    pub surface: Surface,
    /// The width of the terminal.
    pub width: u16,
    /// The height of the terminal.
    pub height: u16,
    /// The layer's own copy of the scrollback.
    pub scrollback: CompleteScrollback,
    /// The layer's own copy of the screen.
    pub screen: CompleteScreen,
    /// How many frames are drawn in a second.
    pub target_frame_rate: u32,
    /// How far the user had scrolled back when the last frame was sent.
    pub last_scroll_position: usize,
}

/// What is left to do to the layer's copy of a surface after a report of
/// changes: the copy takes the new size, and the changes are applied to it.
#[derive(Debug)]
pub enum SurfaceWork {
    /// Nothing: the report brought a whole surface.
    Nothing,
    Apply { kind: SurfaceKind, width: usize, height: usize, changes: Vec<Change> },
}

/// The screen is larger than can be counted in sixteen bits.
#[derive(Clone, Copy, Debug, PartialEq, Eq, Structural)]
pub struct SizeError;

/// A picture would be larger than can be counted.
#[derive(Clone, Copy, Debug, PartialEq, Eq, Structural)]
pub struct ImageError;

/// Whether a message brings changes to a surface: any resize does, a whole
/// surface of that kind does, and a report of changes to it does if it holds
/// more than the one change that places the cursor.
pub open spec fn changes_surface(message: Protocol, kind: SurfaceKind) -> bool {
    match message {
        Protocol::Resize { .. } => true,
        Protocol::Output(Output::Diff(SurfaceDiff::Scrollback(diff))) => kind == SurfaceKind::Scrollback
            && diff.changes.len() > 1,
        Protocol::Output(Output::Diff(SurfaceDiff::Screen(diff))) => kind == SurfaceKind::Screen
            && diff.changes.len() > 1,
        Protocol::Output(Output::Complete(CompleteSurface::Scrollback(_))) => kind
            == SurfaceKind::Scrollback,
        Protocol::Output(Output::Complete(CompleteSurface::Screen(_))) => kind == SurfaceKind::Screen,
        _ => false,
    }
}

/// The colour of the pixel that stands for a cell: the background of a cell
/// that shows a space, and otherwise the foreground where characters count
/// and the background where they do not. A background that is missing is the
/// default background, and a foreground that is missing is white.
pub open spec fn pixel_colour(cell: CellView, is_convert_characters: bool, default_background: Colour) -> Colour {
    if cell.text != seq![' '] && is_convert_characters {
        match cell.attrs.foreground.colour() {
            Some(colour) => colour,
            None => white(),
        }
    } else {
        match cell.attrs.background.colour() {
            Some(colour) => colour,
            None => default_background,
        }
    }
}

/// How long to wait, in nanoseconds, until the next frame is due: what is
/// left of the time of one frame, or nothing where it has passed already.
pub open spec fn frame_wait(frame_rate: u32, elapsed_nanoseconds: u128) -> Option<u64>
    recommends
        frame_rate > 0,
{
    let target = (ONE_MICROSECOND / frame_rate as u64) * NANOSECONDS_PER_MICROSECOND;
    if elapsed_nanoseconds <= target {
        Some((target - elapsed_nanoseconds) as u64)
    } else {
        None
    }
}

fn cell_pixel_colour(cell: &Cell, is_convert_characters: bool, default_background: Colour) -> (colour:
    Colour)
    ensures
        colour == pixel_colour(cell@, is_convert_characters, default_background),
{
    let is_space = crate::text::same_text(cell.str(), " ");
    proof {
        reveal_strlit(" ");
        assert(" "@ =~= seq![' ']);
    }
    if !is_space && is_convert_characters {
        match Blender::extract_colour(cell.attrs.foreground) {
            Some(colour) => colour,
            None => white_colour(),
        }
    } else {
        match Blender::extract_colour(cell.attrs.background) {
            Some(colour) => colour,
            None => default_background,
        }
    }
}

impl Tattoyer {
    /// The surfaces are rectangles.
    pub open spec fn wf(&self) -> bool {
        &&& self.surface.wf()
        &&& self.scrollback.surface.wf()
        &&& self.screen.surface.wf()
    }

    /// A layer that has seen nothing of the terminal yet.
    pub fn new(id: String, layer: i16, opacity: Scalar, width: u16, height: u16, target_frame_rate: u32) -> (tattoy:
        Tattoyer)
        ensures
            tattoy.wf(),
            tattoy.id@ == id@,
            tattoy.layer == layer,
            tattoy.opacity == opacity,
            tattoy.width == width,
            tattoy.height == height,
            tattoy.target_frame_rate == target_frame_rate,
            tattoy.last_scroll_position == 0,
            tattoy.scrollback.position == 0,
            tattoy.screen.mode == ScreenMode::Main,
            tattoy.surface.width == 0,
            tattoy.surface.height == 0,
    {
        Tattoyer {
            id: id.clone(),
            layer,
            opacity,
            surface: Surface::new(id, 0, 0, layer, opacity),
            width,
            height,
            scrollback: CompleteScrollback::default(),
            screen: CompleteScreen::default(),
            target_frame_rate,
            last_scroll_position: 0,
        }
    }

    /// Whether `after` is this layer with a fresh surface: blank, of the
    /// size of the terminal, under the layer's name, layer and opacity.
    pub open spec fn initialises(&self, after: &Tattoyer) -> bool {
        &&& after.wf()
        &&& after.surface.id@ == self.id@
        &&& after.surface.width == self.width
        &&& after.surface.height == self.height
        &&& after.surface.grid.width == self.width
        &&& after.surface.grid.height == self.height
        &&& after.surface.layer == self.layer
        &&& after.surface.opacity == self.opacity
        &&& forall|x: int, y: int|
            after.surface.grid.contains(x, y) ==> #[trigger] after.surface.grid.cell(x, y)
                == crate::grid::blank_cell()
        &&& after.id == self.id
        &&& after.layer == self.layer
        &&& after.opacity == self.opacity
        &&& after.width == self.width
        &&& after.height == self.height
        &&& after.scrollback == self.scrollback
        &&& after.screen == self.screen
        &&& after.target_frame_rate == self.target_frame_rate
        &&& after.last_scroll_position == self.last_scroll_position
    }

    /// Makes a blank surface for the next frame.
    pub fn initialise_surface(&mut self)
        requires
            old(self).wf(),
        ensures
            old(self).initialises(final(self)),
    {
        self.surface = Surface::new(
            self.id.clone(),
            self.width as usize,
            self.height as usize,
            self.layer,
            self.opacity,
        );
    }

    /// Notes the size of the terminal.
    pub fn set_tty_size(&mut self, width: u16, height: u16)
        ensures
            *final(self) == (Tattoyer { width, height, ..*old(self) }),
    {
        self.width = width;
        self.height = height;
    }

    /// Whether the user has scrolled back.
    pub fn is_scrolling(&self) -> (scrolling: bool)
        ensures
            scrolling == (self.scrollback.position != 0),
    {
        self.scrollback.position != 0
    }

    /// Whether the user has just stopped scrolling.
    pub fn is_scrolling_end(&self) -> (ended: bool)
        ensures
            ended == (self.last_scroll_position != 0 && self.scrollback.position == 0),
    {
        self.last_scroll_position != 0 && !self.is_scrolling()
    }

    /// Whether the terminal shows its alternate screen.
    pub fn is_alternate_screen(&self) -> (alternate: bool)
        ensures
            alternate == (self.screen.mode == ScreenMode::Alternate),
    {
        match self.screen.mode {
            ScreenMode::Alternate => true,
            ScreenMode::Main => false,
        }
    }

    /// Whether `after` is this layer after it has taken a report in, and
    /// `work` what is then left to do.
    pub open spec fn takes_output(&self, after: &Tattoyer, output: Output, work: Result<
        SurfaceWork,
        SizeError,
    >) -> bool {
        match output {
            Output::Diff(SurfaceDiff::Scrollback(diff)) => {
                &&& work matches Ok(SurfaceWork::Apply { kind, width, height, changes })
                &&& kind == SurfaceKind::Scrollback
                &&& width == diff.size.0
                &&& height == diff.height
                &&& changes == diff.changes
                &&& after.scrollback.position == diff.position
                &&& after.scrollback.surface == self.scrollback.surface
                &&& after.screen == self.screen
                &&& after.width == self.width
                &&& after.height == self.height
            },
            Output::Diff(SurfaceDiff::Screen(diff)) => if diff.size.0 <= u16::MAX && diff.size.1
                <= u16::MAX {
                &&& work matches Ok(SurfaceWork::Apply { kind, width, height, changes })
                &&& kind == SurfaceKind::Screen
                &&& width == diff.size.0
                &&& height == diff.size.1
                &&& changes == diff.changes
                &&& after.width == diff.size.0
                &&& after.height == diff.size.1
                &&& after.scrollback == self.scrollback
                &&& after.screen == self.screen
            } else {
                &&& work is Err
                &&& *after == *self
            },
            Output::Complete(CompleteSurface::Scrollback(complete)) => {
                &&& work matches Ok(SurfaceWork::Nothing)
                &&& after.scrollback == complete
                &&& after.screen == self.screen
                &&& after.width == self.width
                &&& after.height == self.height
            },
            Output::Complete(CompleteSurface::Screen(complete)) => {
                &&& work matches Ok(SurfaceWork::Nothing)
                &&& after.screen == complete
                &&& after.scrollback == self.scrollback
                &&& after.width == self.width
                &&& after.height == self.height
            },
        }
    }

    /// Takes in a report of the shadow terminal.
    ///
    /// A whole surface becomes the layer's copy. Of a report of changes the
    /// layer notes the scroll position or the size of the screen, and hands
    /// back what is left to do to its copy. A screen that is too large to
    /// count is an error, and nothing is noted.
    pub fn handle_pty_output(&mut self, output: Output) -> (work: Result<SurfaceWork, SizeError>)
        requires
            old(self).wf(),
            output.wf(),
        ensures
            final(self).wf(),
            final(self).id == old(self).id,
            final(self).layer == old(self).layer,
            final(self).opacity == old(self).opacity,
            final(self).surface == old(self).surface,
            final(self).target_frame_rate == old(self).target_frame_rate,
            final(self).last_scroll_position == old(self).last_scroll_position,
            old(self).takes_output(final(self), output, work),
    {
        match output {
            Output::Diff(SurfaceDiff::Scrollback(scrollback_diff)) => {
                self.scrollback.position = scrollback_diff.position;
                Ok(
                    SurfaceWork::Apply {
                        kind: SurfaceKind::Scrollback,
                        width: scrollback_diff.size.0,
                        height: scrollback_diff.height,
                        changes: scrollback_diff.changes,
                    },
                )
            },
            Output::Diff(SurfaceDiff::Screen(screen_diff)) => {
                if screen_diff.size.0 > u16::MAX as usize || screen_diff.size.1 > u16::MAX as usize {
                    return Err(SizeError);
                }
                self.set_tty_size(screen_diff.size.0 as u16, screen_diff.size.1 as u16);
                Ok(
                    SurfaceWork::Apply {
                        kind: SurfaceKind::Screen,
                        width: screen_diff.size.0,
                        height: screen_diff.size.1,
                        changes: screen_diff.changes,
                    },
                )
            },
            Output::Complete(CompleteSurface::Scrollback(complete_scrollback)) => {
                self.scrollback = complete_scrollback;
                Ok(SurfaceWork::Nothing)
            },
            Output::Complete(CompleteSurface::Screen(complete_screen)) => {
                self.screen = complete_screen;
                Ok(SurfaceWork::Nothing)
            },
        }
    }

    /// Takes a surface as the layer's copy, after the changes of a report
    /// have been applied to it.
    pub fn replace_surface(&mut self, kind: SurfaceKind, surface: Grid)
        requires
            old(self).wf(),
            surface.wf(),
        ensures
            final(self).wf(),
            kind == SurfaceKind::Scrollback ==> *final(self) == (Tattoyer {
                scrollback: CompleteScrollback { surface, ..old(self).scrollback },
                ..*old(self)
            }),
            kind == SurfaceKind::Screen ==> *final(self) == (Tattoyer {
                screen: CompleteScreen { surface, ..old(self).screen },
                ..*old(self)
            }),
    {
        match kind {
            SurfaceKind::Scrollback => {
                self.scrollback.surface = surface;
            },
            SurfaceKind::Screen => {
                self.screen.surface = surface;
            },
        }
    }

    /// Whether `after` is this layer after it has taken a message in, and
    /// `work` what is then left to do: a resize and new settings are noted,
    /// a report of the shadow terminal is taken in, and everything else is
    /// passed over.
    pub open spec fn takes_message(&self, after: &Tattoyer, message: Protocol, work: Result<
        SurfaceWork,
        SizeError,
    >) -> bool {
        match message {
            Protocol::Resize { width, height } => {
                &&& work matches Ok(SurfaceWork::Nothing)
                &&& *after == (Tattoyer { width, height, ..*self })
            },
            Protocol::Config(config) => {
                &&& work matches Ok(SurfaceWork::Nothing)
                &&& *after == (Tattoyer { target_frame_rate: config.frame_rate, ..*self })
            },
            Protocol::Output(output) => {
                &&& after.id == self.id
                &&& after.layer == self.layer
                &&& after.opacity == self.opacity
                &&& after.surface == self.surface
                &&& after.last_scroll_position == self.last_scroll_position
                &&& after.target_frame_rate == self.target_frame_rate
                &&& self.takes_output(after, output, work)
            },
            _ => work matches Ok(SurfaceWork::Nothing) && *after == *self,
        }
    }

    /// Acts on the messages that every layer acts on: a resize, a report of
    /// the shadow terminal, and new settings.
    pub fn handle_common_protocol_messages(&mut self, message: Protocol) -> (work: Result<
        SurfaceWork,
        SizeError,
    >)
        requires
            old(self).wf(),
            message matches Protocol::Output(output) ==> output.wf(),
        ensures
            final(self).wf(),
            final(self).id == old(self).id,
            final(self).layer == old(self).layer,
            final(self).opacity == old(self).opacity,
            final(self).surface == old(self).surface,
            final(self).last_scroll_position == old(self).last_scroll_position,
            old(self).takes_message(final(self), message, work),
            work is Err <==> (message matches Protocol::Output(
                Output::Diff(SurfaceDiff::Screen(diff)),
            ) && (diff.size.0 > u16::MAX || diff.size.1 > u16::MAX)),
    {
        match message {
            Protocol::Resize { width, height } => {
                self.set_tty_size(width, height);
                Ok(SurfaceWork::Nothing)
            },
            Protocol::Output(output) => self.handle_pty_output(output),
            Protocol::Config(config) => {
                self.target_frame_rate = config.frame_rate;
                Ok(SurfaceWork::Nothing)
            },
            _ => Ok(SurfaceWork::Nothing),
        }
    }

    /// Hands out the surface of the frame, to be sent to the renderer, and
    /// notes how far the user has scrolled back.
    pub fn send_output(&mut self) -> (update: FrameUpdate)
        requires
            old(self).wf(),
        ensures
            *final(self) == (Tattoyer {
                last_scroll_position: old(self).scrollback.position,
                ..*old(self)
            }),
            update matches FrameUpdate::TattoySurface(surface) && {
                &&& surface.wf()
                &&& surface.id@ == old(self).surface.id@
                &&& surface.width == old(self).surface.width
                &&& surface.height == old(self).surface.height
                &&& surface.layer == old(self).surface.layer
                &&& surface.opacity == old(self).surface.opacity
                &&& surface.grid.same_size(&old(self).surface.grid)
                &&& forall|x: int, y: int|
                    surface.grid.contains(x, y) ==> #[trigger] surface.grid.cell(x, y) == old(
                        self,
                    ).surface.grid.cell(x, y)
            },
    {
        let surface = self.surface.duplicate();
        self.last_scroll_position = self.scrollback.position;
        FrameUpdate::TattoySurface(surface)
    }

    /// Hands out a surface without width and height, which tells the
    /// renderer that the layer is gone.
    pub fn send_blank_output(&mut self) -> (update: FrameUpdate)
        requires
            old(self).wf(),
        ensures
            final(self).wf(),
            final(self).last_scroll_position == old(self).scrollback.position,
            final(self).surface.is_removal(),
            update matches FrameUpdate::TattoySurface(surface) && {
                &&& surface.wf()
                &&& surface.is_removal()
                &&& surface.id@ == old(self).id@
            },
    {
        self.initialise_surface();
        self.surface.width = 0;
        self.surface.height = 0;
        self.send_output()
    }

    /// How long to wait until the next frame is due, in nanoseconds, given
    /// how long ago the last frame was. Nothing, where the frame is overdue.
    pub fn sleep_until_next_frame_tick(&self, elapsed_nanoseconds: u128) -> (wait: Option<u64>)
        requires
            self.target_frame_rate > 0,
        ensures
            wait == frame_wait(self.target_frame_rate, elapsed_nanoseconds),
    {
        let target_microseconds: u64 = ONE_MICROSECOND / (self.target_frame_rate as u64);
        let target: u64 = target_microseconds * NANOSECONDS_PER_MICROSECOND;
        if elapsed_nanoseconds <= target as u128 {
            Some(target - elapsed_nanoseconds as u64)
        } else {
            None
        }
    }

    /// Whether a message brings changes to the scrollback.
    pub fn is_scrollback_output_changed(message: &Protocol) -> (changed: bool)
        ensures
            changed == changes_surface(*message, SurfaceKind::Scrollback),
    {
        match message {
            Protocol::Resize { .. } => true,
            Protocol::Output(Output::Diff(SurfaceDiff::Scrollback(diff))) => diff.changes.len() > 1,
            Protocol::Output(Output::Complete(CompleteSurface::Scrollback(_))) => true,
            _ => false,
        }
    }

    /// Whether a message brings changes to the screen.
    pub fn is_screen_output_changed(message: &Protocol) -> (changed: bool)
        ensures
            changed == changes_surface(*message, SurfaceKind::Screen),
    {
        match message {
            Protocol::Resize { .. } => true,
            Protocol::Output(Output::Diff(SurfaceDiff::Screen(diff))) => diff.changes.len() > 1,
            Protocol::Output(Output::Complete(CompleteSurface::Screen(_))) => true,
            _ => false,
        }
    }

    /// Which surface a message brings changes to, if any: the scrollback
    /// where it changes both.
    pub fn is_pty_changed(message: &Protocol) -> (changed: Option<SurfaceKind>)
        ensures
            changed == (if changes_surface(*message, SurfaceKind::Scrollback) {
                Some(SurfaceKind::Scrollback)
            } else if changes_surface(*message, SurfaceKind::Screen) {
                Some(SurfaceKind::Screen)
            } else {
                None
            }),
    {
        if Tattoyer::is_scrollback_output_changed(message) {
            return Some(SurfaceKind::Scrollback);
        }
        if Tattoyer::is_screen_output_changed(message) {
            return Some(SurfaceKind::Screen);
        }
        None
    }

    /// The layer's copy of a surface.
    pub open spec fn copy_of(&self, kind: SurfaceKind) -> Grid {
        match kind {
            SurfaceKind::Scrollback => self.scrollback.surface,
            SurfaceKind::Screen => self.screen.surface,
        }
    }

    /// Whether a picture of a grid can be counted: its width and twice its
    /// height in thirty-two bits.
    pub open spec fn is_countable(grid: Grid) -> bool {
        grid.width <= u32::MAX && grid.height * 2 <= u32::MAX
    }

    /// A picture of the terminal's content: two pixels for each cell, one
    /// above the other, both in the colour that stands for the cell.
    pub fn convert_pty_to_pixel_image(
        &self,
        kind: &SurfaceKind,
        is_convert_characters: bool,
        default_background_colour: Colour,
    ) -> (made: Result<ColourImage, ImageError>)
        requires
            self.wf(),
        ensures
            made is Ok <==> Tattoyer::is_countable(self.copy_of(*kind)),
            made matches Ok(image) ==> {
                &&& image.wf()
                &&& image.width == self.copy_of(*kind).width
                &&& image.height == self.copy_of(*kind).height * 2
                &&& forall|x: int, y: int|
                    image.contains(x, y) ==> #[trigger] image.pixel(x, y) == pixel_colour(
                        self.copy_of(*kind).cell(x, y / 2),
                        is_convert_characters,
                        default_background_colour,
                    )
            },
    {
        let surface = match kind {
            SurfaceKind::Scrollback => &self.scrollback.surface,
            SurfaceKind::Screen => &self.screen.surface,
        };
        let limit: usize = u32::MAX as usize;
        if surface.width > limit || surface.height > limit / 2 {
            return Err(ImageError);
        }
        let height: usize = surface.height * PIXELS_PER_LINE;
        let mut rows: Vec<Vec<Colour>> = Vec::new();
        let mut y: usize = 0;
        while y < height
            invariant
                surface.wf(),
                height == surface.height * 2,
                y <= height,
                rows.len() == y,
                forall|j: int| 0 <= j < rows.len() ==> (#[trigger] rows[j]).len() == surface.width,
                forall|i: int, j: int|
                    0 <= j < rows.len() && 0 <= i < surface.width ==> #[trigger] rows[j][i]
                        == pixel_colour(
                        surface.cell(i, j / 2),
                        is_convert_characters,
                        default_background_colour,
                    ),
            decreases height - y,
        {
            let line: usize = y / PIXELS_PER_LINE;
            let mut row: Vec<Colour> = Vec::new();
            let mut x: usize = 0;
            while x < surface.width
                invariant
                    surface.wf(),
                    line == y / 2,
                    line < surface.height,
                    x <= surface.width,
                    row.len() == x,
                    forall|i: int|
                        0 <= i < row.len() ==> #[trigger] row[i] == pixel_colour(
                            surface.cell(i, line as int),
                            is_convert_characters,
                            default_background_colour,
                        ),
                decreases surface.width - x,
            {
                row.push(
                    cell_pixel_colour(
                        &surface.rows[line][x],
                        is_convert_characters,
                        default_background_colour,
                    ),
                );
                x = x + 1;
            }
            rows.push(row);
            y = y + 1;
        }
        Ok(ColourImage { width: surface.width, height, rows })
    }

    /// A picture as large as the terminal, all in opaque black: for a
    /// shader that expects a picture of the terminal where none is wanted.
    pub fn pure_black_image(&self) -> (image: ColourImage)
        ensures
            image.wf(),
            image.width == self.width,
            image.height == self.height * 2,
            forall|x: int, y: int|
                image.contains(x, y) ==> (#[trigger] image.pixel(x, y)).is_opaque_black(),
    {
        let height: usize = self.height as usize * PIXELS_PER_LINE;
        let width: usize = self.width as usize;
        let mut rows: Vec<Vec<Colour>> = Vec::new();
        let mut y: usize = 0;
        while y < height
            invariant
                y <= height,
                rows.len() == y,
                forall|j: int| 0 <= j < rows.len() ==> (#[trigger] rows[j]).len() == width,
                forall|i: int, j: int|
                    0 <= j < rows.len() && 0 <= i < width ==> (
                    #[trigger] rows[j][i]).is_opaque_black(),
            decreases height - y,
        {
            let mut row: Vec<Colour> = Vec::new();
            let mut x: usize = 0;
            while x < width
                invariant
                    x <= width,
                    row.len() == x,
                    forall|i: int| 0 <= i < row.len() ==> (#[trigger] row[i]).is_opaque_black(),
                decreases width - x,
            {
                row.push(Colour::opaque_black());
                x = x + 1;
            }
            rows.push(row);
            y = y + 1;
        }
        ColourImage { width, height, rows }
    }

    /// The picture of the terminal that a shader is given: the screen as
    /// pixels, upside down, or a black picture where the screen is not wanted.
    pub fn get_tty_image_for_upload(
        &self,
        is_upload_tty_as_pixels: bool,
        is_upload_characters: bool,
        default_background_colour: Colour,
    ) -> (made: Result<ColourImage, ImageError>)
        requires
            self.wf(),
        ensures
            made is Ok <==> (!is_upload_tty_as_pixels || Tattoyer::is_countable(self.screen.surface)),
            made matches Ok(image) ==> {
                &&& image.wf()
                &&& if is_upload_tty_as_pixels {
                    &&& image.width == self.screen.surface.width
                    &&& image.height == self.screen.surface.height * 2
                    &&& forall|x: int, y: int|
                        image.contains(x, y) ==> #[trigger] image.pixel(x, y) == pixel_colour(
                            self.screen.surface.cell(x, (image.height - 1 - y) / 2),
                            is_upload_characters,
                            default_background_colour,
                        )
                } else {
                    &&& image.width == self.width
                    &&& image.height == self.height * 2
                    &&& forall|x: int, y: int|
                        image.contains(x, y) ==> (#[trigger] image.pixel(x, y)).is_opaque_black()
                }
            },
    {
        if is_upload_tty_as_pixels {
            match self.convert_pty_to_pixel_image(
                &SurfaceKind::Screen,
                is_upload_characters,
                default_background_colour,
            ) {
                Err(error) => Err(error),
                Ok(image) => {
                    let flipped = image.flipv();
                    Ok(flipped)
                },
            }
        } else {
            Ok(self.pure_black_image())
        }
    }
}

} // verus!
