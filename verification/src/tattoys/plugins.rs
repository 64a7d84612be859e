//! Plugins: programs of the user's that draw a layer. They are told what
//! the terminal shows, and answer with text, cells or pixels.
use crate::cell::first_or_space;
use crate::cell::glyph_of;
use crate::cell::CellView;
use crate::cell::Glyph;
use crate::colour::Colour;
use crate::colour::ColourMath;
use crate::compositor::lemma_half_blocks;
use crate::compositor::CoordError;
use crate::grid::blank_cell;
use crate::grid::Grid;
use crate::palette::converter::Palette;
use crate::run::FrameUpdate;
use crate::run::Protocol;
use crate::scalar::Scalar;
use crate::scalar::ONE_BITS;
use crate::surface::pixel_error;
use crate::surface::text_cell;
use crate::surface::white;
use crate::surface::white_colour;
use crate::surface::with_pixel;
use crate::surface::Surface;
use crate::tattoys::tattoyer::Tattoyer;
use crate::utils::push_text;
use vstd::prelude::*;

verus! {

/// The layer of a plugin that names none.
pub const DEFAULT_LAYER: i16 = -10;

/// The bit pattern of the opacity of a plugin that names none: one.
pub const DEFAULT_OPACITY_BITS: u32 = ONE_BITS;

/// The settings of one plugin.
#[derive(Clone, Debug)]
pub struct Config {
    /// The name of the plugin.
    pub name: String,
    /// The program of the plugin.
    pub path: String,
    /// The layer that the plugin draws on.
    pub layer: Option<i16>,
    /// The opacity of what the plugin draws.
    pub opacity: Option<Scalar>,
    /// Whether the plugin runs.
    pub enabled: Option<bool>,
}

/// One character of a message, with its place and its colours.
#[derive(Clone, Copy, Debug)]
pub struct PluginCell {
    pub character: char,
    /// Column and row, from the top left.
    pub coordinates: (u32, u32),
    pub bg: Option<Colour>,
    pub fg: Option<Colour>,
}

/// One pixel of a message, with its place and its colour.
#[derive(Clone, Copy, Debug)]
pub struct PluginPixel {
    /// Column and row of pixels, from the top left.
    pub coordinates: (u32, u32),
    pub color: Option<Colour>,
}

/// What a plugin is told.
#[derive(Debug)]
pub enum PluginInputMessages {
    /// What the screen of the terminal shows: every cell but the blank ones.
    PTYUpdate { size: (u16, u16), cells: Vec<PluginCell>, cursor: (u16, u16) },
    /// The new size of the terminal.
    TTYResize { width: u16, height: u16 },
}

/// What a plugin answers.
#[derive(Debug)]
pub enum PluginOutputMessages {
    /// A text.
    OutputText { text: String, coordinates: (u32, u32), bg: Option<Colour>, fg: Option<Colour> },
    /// Any number of cells.
    OutputCells(Vec<PluginCell>),
    /// Any number of pixels.
    OutputPixels(Vec<PluginPixel>),
}

/// Why a plugin could not be told of the terminal.
#[derive(Clone, Copy, Debug, PartialEq, Eq, Structural)]
pub enum PluginError {
    /// The screen is further across or down than can be counted in thirty-two bits.
    CellOutOfRange,
    /// The cursor is further out than can be counted in sixteen bits.
    CursorOutOfRange,
}

/// What the reader of a plugin's answers has just seen of the task that owns it.
#[derive(Clone, Copy, Debug, PartialEq, Eq, Structural)]
pub enum ListenerSignal {
    /// The program ends.
    End,
    /// Any other message.
    Other,
    /// No message.
    Empty,
    /// The task is gone.
    Closed,
}

/// How the reader of a plugin's answers goes on.
#[derive(Clone, Copy, Debug, PartialEq, Eq, Structural)]
pub enum ListenerStep {
    /// It reads on, after a short rest.
    Continue,
    /// It stops, because the program ends.
    Stop,
    /// It stops, because the plugin has gone away by itself. The user is told.
    Exited,
}

/// A plugin.
#[derive(Debug)]
pub struct Plugin {
    pub tattoy: Tattoyer,
    /// The palette of the terminal.
    pub palette: Palette,
}

/// The cell of the surface in column `x` of row `y` after the cells of a
/// message have been written, each in its turn.
pub open spec fn cells_written(cells: Seq<PluginCell>, x: int, y: int) -> CellView
    decreases cells.len(),
{
    if cells.len() == 0 {
        blank_cell()
    } else if cells.last().coordinates.0 == x && cells.last().coordinates.1 == y {
        text_cell(cells.last().character, cells.last().bg, cells.last().fg)
    } else {
        cells_written(cells.drop_last(), x, y)
    }
}

/// The colour of a pixel of a message: white where it names none.
pub open spec fn pixel_paint(pixel: PluginPixel) -> Colour {
    match pixel.color {
        Some(colour) => colour,
        None => white(),
    }
}

/// The cell of the surface in column `x` of row `y` after the pixels of a
/// message have been added, each in its turn.
pub open spec fn pixels_added(pixels: Seq<PluginPixel>, x: int, y: int) -> CellView
    decreases pixels.len(),
{
    if pixels.len() == 0 {
        blank_cell()
    } else {
        let before = pixels_added(pixels.drop_last(), x, y);
        let pixel = pixels.last();
        if pixel.coordinates.0 == x && pixel.coordinates.1 / 2 == y {
            with_pixel(before, pixel.coordinates.1 % 2 == 0, pixel_paint(pixel))
        } else {
            before
        }
    }
}

/// Whether a pixel of a message lies outside a grid.
pub open spec fn has_stray_pixel(pixels: Seq<PluginPixel>, grid: &Grid) -> bool {
    exists|i: int|
        0 <= i < pixels.len() && pixel_error(
            grid,
            (#[trigger] pixels[i]).coordinates.0 as usize,
            pixels[i].coordinates.1 as usize,
        ) is Some
}

/// Whatever pixels have been added to a cell, it shows no text.
pub proof fn lemma_pixels_are_no_text(pixels: Seq<PluginPixel>, x: int, y: int)
    ensures
        !(glyph_of(pixels_added(pixels, x, y).text) is Text),
    decreases pixels.len(),
{
    lemma_half_blocks();
    if pixels.len() > 0 {
        lemma_pixels_are_no_text(pixels.drop_last(), x, y);
    }
}

/// How the reader of a plugin's answers goes on: it stops when reading
/// has failed, when the program ends, and when the task that owns it is gone.
pub open spec fn listener_step(listener_failed: bool, signal: ListenerSignal) -> ListenerStep {
    if listener_failed {
        ListenerStep::Exited
    } else {
        match signal {
            ListenerSignal::End => ListenerStep::Stop,
            ListenerSignal::Closed => ListenerStep::Exited,
            _ => ListenerStep::Continue,
        }
    }
}

impl Plugin {
    /// The surfaces are rectangles, and the palette is whole.
    pub open spec fn wf(&self) -> bool {
        self.tattoy.wf() && self.palette.wf()
    }

    /// A plugin under its name, on its layer or else ten below the screen,
    /// with its opacity or else opaque.
    pub fn new(config: &Config, width: u16, height: u16, target_frame_rate: u32, palette: Palette) -> (plugin:
        Plugin)
        requires
            palette.wf(),
        ensures
            plugin.wf(),
            plugin.palette == palette,
            plugin.tattoy.id@ == config.name@,
            plugin.tattoy.layer == (match config.layer {
                Some(layer) => layer,
                None => DEFAULT_LAYER,
            }),
            plugin.tattoy.opacity == (match config.opacity {
                Some(opacity) => opacity,
                None => Scalar { bits: DEFAULT_OPACITY_BITS },
            }),
            plugin.tattoy.width == width,
            plugin.tattoy.height == height,
            plugin.tattoy.target_frame_rate == target_frame_rate,
    {
        let layer = match config.layer {
            Some(layer) => layer,
            None => DEFAULT_LAYER,
        };
        let opacity = match config.opacity {
            Some(opacity) => opacity,
            None => Scalar::from_bits(DEFAULT_OPACITY_BITS),
        };
        let tattoy = Tattoyer::new(config.name.clone(), layer, opacity, width, height, target_frame_rate);
        Plugin { tattoy, palette }
    }

    /// Decides `listener_step`.
    pub fn supervise_listener(listener_failed: bool, signal: ListenerSignal) -> (step: ListenerStep)
        ensures
            step == listener_step(listener_failed, signal),
    {
        if listener_failed {
            return ListenerStep::Exited;
        }
        match signal {
            ListenerSignal::End => ListenerStep::Stop,
            ListenerSignal::Closed => ListenerStep::Exited,
            _ => ListenerStep::Continue,
        }
    }

    /// What the user is told when a plugin has gone away by itself: a
    /// title, and what the plugin has written of errors.
    pub fn exit_notification(name: &str, error_output: &str) -> (notification: (String, String))
        ensures
            notification.0@ == "'"@ + name@ + "' plugin exited"@,
            notification.1@ == "STDERR output:\n"@ + error_output@,
    {
        let mut title = String::new();
        push_text(&mut title, "'");
        push_text(&mut title, name);
        push_text(&mut title, "' plugin exited");
        let mut body = String::new();
        push_text(&mut body, "STDERR output:\n");
        push_text(&mut body, error_output);
        (title, body)
    }

    /// The title of what the user is told when a plugin could not be started.
    pub fn error_title(name: &str) -> (title: String)
        ensures
            title@ == "'"@ + name@ + "' plugin error"@,
    {
        let mut title = String::new();
        push_text(&mut title, "'");
        push_text(&mut title, name);
        push_text(&mut title, "' plugin error");
        title
    }

    /// The message that tells a plugin of the new size of the terminal.
    pub fn send_tty_size(width: u16, height: u16) -> (message: PluginInputMessages)
        ensures
            message matches PluginInputMessages::TTYResize { width: w, height: h } && w == width && h
                == height,
    {
        PluginInputMessages::TTYResize { width, height }
    }

    /// A cell of the screen as a plugin is told of it: its first character,
    /// its place, and its colours resolved by the palette. A background
    /// that the cell does not name is the background of the palette.
    pub open spec fn told_cell(&self, x: int, y: int) -> PluginCell {
        let cell = self.tattoy.screen.surface.cell(x, y);
        PluginCell {
            character: first_or_space(cell.text),
            coordinates: (x as u32, y as u32),
            bg: Some(
                match self.palette.true_background(cell.attrs.background).colour() {
                    Some(colour) => colour,
                    None => self.palette.default_background(),
                },
            ),
            fg: Some(
                match self.palette.true_foreground(cell.attrs.foreground).colour() {
                    Some(colour) => colour,
                    None => self.palette.default_foreground(),
                },
            ),
        }
    }

    /// The cells of the first `columns` columns of a row that a plugin is
    /// told of: every cell that shows anything, from the left.
    pub open spec fn told_row(&self, y: int, columns: int) -> Seq<PluginCell>
        decreases columns,
    {
        if columns <= 0 {
            Seq::empty()
        } else {
            let before = self.told_row(y, columns - 1);
            if glyph_of(self.tattoy.screen.surface.cell(columns - 1, y).text) is Empty {
                before
            } else {
                before.push(self.told_cell(columns - 1, y))
            }
        }
    }

    /// The cells of the first `rows` rows that a plugin is told of.
    pub open spec fn told_rows(&self, rows: int) -> Seq<PluginCell>
        decreases rows,
    {
        if rows <= 0 {
            Seq::empty()
        } else {
            self.told_rows(rows - 1) + self.told_row(
                rows - 1,
                self.tattoy.screen.surface.width as int,
            )
        }
    }

    /// Why a plugin cannot be told of the screen, if it cannot.
    pub open spec fn update_error(&self) -> Option<PluginError> {
        let screen = self.tattoy.screen.surface;
        if screen.width > u32::MAX || screen.height > u32::MAX {
            Some(PluginError::CellOutOfRange)
        } else if screen.cursor.x > u16::MAX || screen.cursor.y > u16::MAX {
            Some(PluginError::CursorOutOfRange)
        } else {
            None
        }
    }

    /// The message that tells a plugin what the screen shows.
    pub fn send_pty_output(&self) -> (message: Result<PluginInputMessages, PluginError>)
        requires
            self.wf(),
        ensures
            match self.update_error() {
                Some(error) => message == Err::<PluginInputMessages, PluginError>(error),
                None => {
                    &&& message matches Ok(PluginInputMessages::PTYUpdate { size, cells, cursor })
                    &&& size == (self.tattoy.width, self.tattoy.height)
                    &&& cells@ == self.told_rows(self.tattoy.screen.surface.height as int)
                    &&& cursor == (
                        self.tattoy.screen.surface.cursor.x as u16,
                        self.tattoy.screen.surface.cursor.y as u16,
                    )
                },
            },
    {
        let screen = &self.tattoy.screen.surface;
        if screen.width > u32::MAX as usize || screen.height > u32::MAX as usize {
            return Err(PluginError::CellOutOfRange);
        }
        let mut cells: Vec<PluginCell> = Vec::new();
        let mut y: usize = 0;
        while y < screen.height
            invariant
                self.wf(),
                screen == &self.tattoy.screen.surface,
                screen.width <= u32::MAX,
                screen.height <= u32::MAX,
                y <= screen.height,
                cells@ == self.told_rows(y as int),
            decreases screen.height - y,
        {
            let ghost before = cells@;
            let mut x: usize = 0;
            while x < screen.width
                invariant
                    self.wf(),
                    screen == &self.tattoy.screen.surface,
                    screen.width <= u32::MAX,
                    screen.height <= u32::MAX,
                    y < screen.height,
                    x <= screen.width,
                    before == self.told_rows(y as int),
                    cells@ == before + self.told_row(y as int, x as int),
                decreases screen.width - x,
            {
                let cell = &screen.rows[y][x];
                let is_blank = match cell.glyph() {
                    Glyph::Empty => true,
                    _ => false,
                };
                if !is_blank {
                    let mut attrs = cell.attrs;
                    self.palette.cell_attributes_to_true_colour(&mut attrs);
                    let bg = match crate::blender::Blender::extract_colour(attrs.background) {
                        Some(colour) => colour,
                        None => self.palette.background_colour(),
                    };
                    let fg = match crate::blender::Blender::extract_colour(attrs.foreground) {
                        Some(colour) => colour,
                        None => self.palette.foreground_colour(),
                    };
                    cells.push(
                        PluginCell {
                            character: cell.first_character(),
                            coordinates: (x as u32, y as u32),
                            bg: Some(bg),
                            fg: Some(fg),
                        },
                    );
                }
                x = x + 1;
            }
            y = y + 1;
        }
        let cursor_position = screen.cursor_position();
        if cursor_position.0 > u16::MAX as usize || cursor_position.1 > u16::MAX as usize {
            return Err(PluginError::CursorOutOfRange);
        }
        Ok(
            PluginInputMessages::PTYUpdate {
                size: (self.tattoy.width, self.tattoy.height),
                cells,
                cursor: (cursor_position.0 as u16, cursor_position.1 as u16),
            },
        )
    }

    /// What a plugin is told on a message to every task: the new size on a
    /// resize, the screen on new output, and otherwise nothing.
    pub fn handle_protocol_messages(&self, message: &Protocol) -> (told: Result<
        Option<PluginInputMessages>,
        PluginError,
    >)
        requires
            self.wf(),
        ensures
            match *message {
                Protocol::Resize { width, height } => {
                    &&& told matches Ok(Some(PluginInputMessages::TTYResize { width: w, height: h }))
                    &&& w == width
                    &&& h == height
                },
                Protocol::Output(_) => match self.update_error() {
                    Some(error) => told == Err::<Option<PluginInputMessages>, PluginError>(error),
                    None => {
                        &&& told matches Ok(
                            Some(PluginInputMessages::PTYUpdate { size, cells, cursor }),
                        )
                        &&& size == (self.tattoy.width, self.tattoy.height)
                        &&& cells@ == self.told_rows(self.tattoy.screen.surface.height as int)
                        &&& cursor == (
                            self.tattoy.screen.surface.cursor.x as u16,
                            self.tattoy.screen.surface.cursor.y as u16,
                        )
                    },
                },
                _ => told matches Ok(None),
            },
    {
        match message {
            Protocol::Resize { width, height } => Ok(Some(Plugin::send_tty_size(*width, *height))),
            Protocol::Output(_) => {
                match self.send_pty_output() {
                    Ok(update) => Ok(Some(update)),
                    Err(error) => Err(error),
                }
            },
            _ => Ok(None),
        }
    }
}

/// Writes the cells of a message onto a surface, each in its turn.
fn write_cells(surface: &mut Surface, cells: &Vec<PluginCell>)
    requires
        old(surface).wf(),
        forall|x: int, y: int|
            old(surface).grid.contains(x, y) ==> #[trigger] old(surface).grid.cell(x, y)
                == blank_cell(),
    ensures
        final(surface).wf(),
        final(surface).id == old(surface).id,
        final(surface).width == old(surface).width,
        final(surface).height == old(surface).height,
        final(surface).layer == old(surface).layer,
        final(surface).opacity == old(surface).opacity,
        final(surface).grid.same_size(&old(surface).grid),
        forall|x: int, y: int|
            old(surface).grid.contains(x, y) ==> #[trigger] final(surface).grid.cell(x, y)
                == cells_written(cells@, x, y),
{
    let mut index: usize = 0;
    while index < cells.len()
        invariant
            surface.wf(),
            surface.id == old(surface).id,
            surface.width == old(surface).width,
            surface.height == old(surface).height,
            surface.layer == old(surface).layer,
            surface.opacity == old(surface).opacity,
            surface.grid.same_size(&old(surface).grid),
            index <= cells.len(),
            forall|x: int, y: int|
                old(surface).grid.contains(x, y) ==> #[trigger] surface.grid.cell(x, y)
                    == cells_written(cells@.take(index as int), x, y),
        decreases cells.len() - index,
    {
        let cell = cells[index];
        let mut text = String::new();
        text.push(cell.character);
        proof {
            assert(cells@.take(index + 1).drop_last() =~= cells@.take(index as int));
        }
        surface.add_text(cell.coordinates.0 as usize, cell.coordinates.1 as usize, text, cell.bg, cell.fg);
        index = index + 1;
    }
    proof {
        assert(cells@.take(index as int) =~= cells@);
    }
}

/// Adds the pixels of a message to a surface, each in its turn. A pixel
/// outside the surface ends it.
fn add_pixels<M: ColourMath>(surface: &mut Surface, pixels: &Vec<PluginPixel>, math: &M) -> (added:
    Result<(), CoordError>)
    requires
        old(surface).wf(),
        forall|x: int, y: int|
            old(surface).grid.contains(x, y) ==> #[trigger] old(surface).grid.cell(x, y)
                == blank_cell(),
    ensures
        final(surface).wf(),
        final(surface).id == old(surface).id,
        final(surface).width == old(surface).width,
        final(surface).height == old(surface).height,
        final(surface).layer == old(surface).layer,
        final(surface).opacity == old(surface).opacity,
        final(surface).grid.same_size(&old(surface).grid),
        added is Err <==> has_stray_pixel(pixels@, &old(surface).grid),
        added is Ok ==> forall|x: int, y: int|
            old(surface).grid.contains(x, y) ==> #[trigger] final(surface).grid.cell(x, y)
                == pixels_added(pixels@, x, y),
{
    let mut index: usize = 0;
    while index < pixels.len()
        invariant
            surface.wf(),
            surface.id == old(surface).id,
            surface.width == old(surface).width,
            surface.height == old(surface).height,
            surface.layer == old(surface).layer,
            surface.opacity == old(surface).opacity,
            surface.grid.same_size(&old(surface).grid),
            index <= pixels.len(),
            forall|i: int|
                0 <= i < index ==> pixel_error(
                    &old(surface).grid,
                    (#[trigger] pixels[i]).coordinates.0 as usize,
                    pixels[i].coordinates.1 as usize,
                ) is None,
            forall|x: int, y: int|
                old(surface).grid.contains(x, y) ==> #[trigger] surface.grid.cell(x, y)
                    == pixels_added(pixels@.take(index as int), x, y),
        decreases pixels.len() - index,
    {
        let pixel = pixels[index];
        let colour = match pixel.color {
            Some(colour) => colour,
            None => white_colour(),
        };
        proof {
            assert(pixels@.take(index + 1).drop_last() =~= pixels@.take(index as int));
            lemma_pixels_are_no_text(
                pixels@.take(index as int),
                pixel.coordinates.0 as int,
                pixel.coordinates.1 as int / 2,
            );
        }
        let added = surface.add_pixel(
            pixel.coordinates.0 as usize,
            pixel.coordinates.1 as usize,
            colour,
            math,
        );
        if let Err(error) = added {
            return Err(error);
        }
        index = index + 1;
    }
    proof {
        assert(pixels@.take(index as int) =~= pixels@);
        if has_stray_pixel(pixels@, &old(surface).grid) {
            let i = choose|i: int|
                0 <= i < pixels.len() && pixel_error(
                    &old(surface).grid,
                    (#[trigger] pixels[i]).coordinates.0 as usize,
                    pixels[i].coordinates.1 as usize,
                ) is Some;
        }
    }
    Ok(())
}

impl Plugin {
    /// What a cell of the surface shows after an answer of the plugin has
    /// been drawn onto a blank surface.
    pub open spec fn answered(output: PluginOutputMessages, x: int, y: int) -> CellView {
        match output {
            PluginOutputMessages::OutputText { text, coordinates, bg, fg } => if y == coordinates.1
                && coordinates.0 <= x < coordinates.0 + text@.len() {
                text_cell(text@[x - coordinates.0], bg, fg)
            } else {
                blank_cell()
            },
            PluginOutputMessages::OutputPixels(pixels) => pixels_added(pixels@, x, y),
            PluginOutputMessages::OutputCells(cells) => cells_written(cells@, x, y),
        }
    }

    /// Whether an answer of the plugin has a pixel outside the terminal.
    pub open spec fn strays(&self, output: PluginOutputMessages) -> bool {
        match output {
            PluginOutputMessages::OutputPixels(pixels) => exists|i: int|
                0 <= i < pixels.len() && ((#[trigger] pixels[i]).coordinates.1 / 2 >= self.tattoy.height
                    || pixels[i].coordinates.0 >= self.tattoy.width),
            _ => false,
        }
    }

    /// Draws an answer of the plugin onto a fresh surface, and hands out
    /// the surface to be sent to the renderer. A pixel outside the
    /// terminal is an error.
    pub fn render<M: ColourMath>(&mut self, output: PluginOutputMessages, math: &M) -> (drawn: Result<
        FrameUpdate,
        CoordError,
    >)
        requires
            old(self).wf(),
        ensures
            final(self).wf(),
            final(self).palette == old(self).palette,
            drawn is Err <==> old(self).strays(output),
            drawn matches Ok(update) ==> {
                &&& update matches FrameUpdate::TattoySurface(surface)
                &&& surface.wf()
                &&& surface.id@ == old(self).tattoy.id@
                &&& surface.layer == old(self).tattoy.layer
                &&& surface.opacity == old(self).tattoy.opacity
                &&& surface.width == old(self).tattoy.width
                &&& surface.height == old(self).tattoy.height
                &&& surface.grid.width == old(self).tattoy.width
                &&& surface.grid.height == old(self).tattoy.height
                &&& forall|x: int, y: int|
                    surface.grid.contains(x, y) ==> #[trigger] surface.grid.cell(x, y)
                        == Plugin::answered(output, x, y)
            },
    {
        self.tattoy.initialise_surface();
        let ghost blank = self.tattoy.surface.grid;
        match output {
            PluginOutputMessages::OutputText { text, coordinates, bg, fg } => {
                self.tattoy.surface.add_text(coordinates.0 as usize, coordinates.1 as usize, text, bg, fg);
            },
            PluginOutputMessages::OutputPixels(pixels) => {
                let added = add_pixels(&mut self.tattoy.surface, &pixels, math);
                proof {
                    if has_stray_pixel(pixels@, &blank) {
                        let i = choose|i: int|
                            0 <= i < pixels.len() && pixel_error(
                                &blank,
                                (#[trigger] pixels[i]).coordinates.0 as usize,
                                pixels[i].coordinates.1 as usize,
                            ) is Some;
                    }
                    if old(self).strays(output) {
                        let i = choose|i: int|
                            0 <= i < pixels.len() && ((#[trigger] pixels[i]).coordinates.1 / 2 >= old(
                                self,
                            ).tattoy.height || pixels[i].coordinates.0 >= old(self).tattoy.width);
                    }
                }
                if let Err(error) = added {
                    return Err(error);
                }
            },
            PluginOutputMessages::OutputCells(cells) => {
                write_cells(&mut self.tattoy.surface, &cells);
            },
        }
        let update = self.tattoy.send_output();
        Ok(update)
    }
}

} // verus!
