//! What the layers of shaders have in common: a shader draws a picture, and
//! the picture becomes the pixels of a surface.
use crate::cell::glyph_of;
use crate::cell::CellView;
use crate::colour::srgba_of_rgba;
use crate::colour::Colour;
use crate::colour::ColourMath;
use crate::compositor::lemma_half_blocks;
use crate::config::Config;
use crate::grid::blank_cell;
use crate::picture::PixelImage;
use crate::run::FrameUpdate;
use crate::run::Protocol;
use crate::scalar::Scalar;
use crate::scalar::ONE_BITS;
use crate::surface::with_pixel;
use crate::surface::Surface;
use crate::tattoys::gpu::handle_messages::GpuWork;
use crate::tattoys::gpu::handle_messages::ResolutionError;
use crate::tattoys::gpu::pipeline::GPU;
use crate::tattoys::tattoyer::SizeError;
use crate::tattoys::tattoyer::SurfaceWork;
use crate::tattoys::tattoyer::Tattoyer;
use crate::utils::hash_of;
use crate::utils::simple_hash;
use vstd::prelude::*;

verus! {

/// The name of the layer of the shader.
pub const SHADER_ID: &'static str = "shader";

/// The name of the layer of the animated cursor.
pub const ANIMATED_CURSOR_ID: &'static str = "animated_cursor";

/// The layer of the animated cursor: below every other layer.
pub const ANIMATED_CURSOR_LAYER: i16 = i16::MIN;

/// Where a short animation stands, so that nothing is drawn when nothing moves.
#[derive(Clone, Copy, Debug, PartialEq, Eq, Structural)]
pub enum HashedRender {
    /// Something has changed, and a frame is needed.
    NeedsRendering,
    /// A frame has been drawn; the hash of what it drew.
    Rendering(u64),
    /// The last two frames drew the same.
    Finished,
}

/// How a layer of a shader is set up.
#[derive(Clone, Copy, Debug, PartialEq, Eq, Structural)]
pub struct ShaderSettings {
    /// Whether the shader is given the terminal as pixels. Then only the
    /// pixels that the shader has changed are drawn.
    pub is_upload_tty_as_pixels: bool,
    /// Whether the characters of the terminal are part of those pixels.
    pub is_upload_tty_with_characters: bool,
    /// Whether what is drawn is hashed.
    pub is_should_hash_render: bool,
    pub layer: i16,
    pub opacity: Scalar,
    pub cursor_scale: Scalar,
}

/// Why a frame of a shader could not be drawn.
#[derive(Clone, Copy, Debug, PartialEq, Eq, Structural)]
pub enum ShaderError {
    /// The screen has no row for the cursor.
    NoCursorRow,
    /// The screen has no column for the cursor.
    NoCursorColumn,
    /// The cell under the cursor has no foreground colour.
    NoCursorColour,
    /// The cursor is further out than can be counted in sixteen bits.
    CursorOutOfRange,
    /// The picture of the shader has no pixel where one is to be drawn.
    MissingPixel,
}

/// What came of drawing a frame.
#[derive(Debug)]
pub enum RenderOutcome {
    /// Nothing was drawn: the picture of the terminal is not there yet, or
    /// is of another size than the picture of the shader.
    NotReady,
    /// The surface to be sent to the renderer, and the hash of what was
    /// drawn where it is hashed.
    Drawn { update: FrameUpdate, hash: Option<u64> },
}

/// A layer that a shader draws.
#[derive(Debug)]
pub struct Shaderer {
    pub tattoy: Tattoyer,
    pub gpu: GPU,
}

/// The settings of the layer of the shader.
pub struct Shaders;

/// The settings of the layer of the animated cursor.
pub struct AnimatedCursor;

/// A pixel with its place, as the ten bytes that are hashed: the column in
/// two bytes, the row in four, and the four bytes of the pixel.
pub open spec fn pixel_record(x: u16, y: u32, pixel: (u8, u8, u8, u8)) -> Seq<u8> {
    seq![
        (x / 256) as u8,
        (x % 256) as u8,
        (y / 0x100_0000) as u8,
        ((y / 0x1_0000) % 256) as u8,
        ((y / 256) % 256) as u8,
        (y % 256) as u8,
        pixel.0,
        pixel.1,
        pixel.2,
        pixel.3,
    ]
}

/// The picture of a shader and how it is laid onto the terminal.
pub struct Canvas<'a> {
    /// The picture that the shader has drawn, upside down.
    pub rendered: &'a PixelImage,
    /// The picture of the terminal that the shader was given, upside down.
    pub tty: &'a PixelImage,
    /// The width of the terminal.
    pub width: u16,
    /// The height of the terminal in pixels.
    pub pixel_rows: u32,
    /// Whether only the pixels that the shader has changed are drawn.
    pub only_changes: bool,
    /// Whether what is drawn is hashed.
    pub hashed: bool,
}

impl<'a> Canvas<'a> {
    /// The pictures have their bytes, the picture of the shader covers the
    /// terminal, and where only changes are drawn the two pictures are of
    /// one size.
    pub open spec fn wf(&self) -> bool {
        &&& self.rendered.wf()
        &&& self.tty.wf()
        &&& self.pixel_rows % 2 == 0
        &&& self.width <= self.rendered.width
        &&& self.pixel_rows <= self.rendered.height
        &&& self.only_changes ==> self.tty.width == self.rendered.width && self.tty.height
            == self.rendered.height
    }

    /// The row of the pictures that is drawn in a row of pixels of the terminal.
    pub open spec fn reversed(&self, y: int) -> int {
        self.pixel_rows - y - 1
    }

    /// Whether a pixel of the terminal is drawn.
    pub open spec fn is_painted(&self, x: int, y: int) -> bool {
        !self.only_changes || self.rendered.pixel(x, self.reversed(y)) != self.tty.pixel(
            x,
            self.reversed(y),
        )
    }

    /// The colour in which a pixel of the terminal is drawn.
    pub open spec fn paint(&self, x: int, y: int) -> Colour {
        let pixel = self.rendered.pixel(x, self.reversed(y));
        srgba_of_rgba(pixel.0, pixel.1, pixel.2, pixel.3)
    }

    /// A cell after one of its two rows of pixels has been drawn.
    pub open spec fn drawn_row(&self, cell: CellView, x: int, y: int) -> CellView {
        if self.is_painted(x, y) {
            with_pixel(cell, y % 2 == 0, self.paint(x, y))
        } else {
            cell
        }
    }

    /// A cell after the first `rows_done` rows of pixels of the terminal
    /// have been drawn.
    pub open spec fn drawn_cell(&self, x: int, row: int, rows_done: int) -> CellView {
        let first = if 2 * row < rows_done {
            self.drawn_row(blank_cell(), x, 2 * row)
        } else {
            blank_cell()
        };
        if 2 * row + 1 < rows_done {
            self.drawn_row(first, x, 2 * row + 1)
        } else {
            first
        }
    }

    /// A cell after the first `rows_done` rows of pixels have been drawn in
    /// every column, and one row more in the first `columns_done` columns.
    pub open spec fn expected(&self, x: int, row: int, rows_done: int, columns_done: int) -> CellView {
        self.drawn_cell(
            x,
            row,
            if x < columns_done {
                rows_done + 1
            } else {
                rows_done
            },
        )
    }

    /// The bytes that are hashed of the first `columns` pixels of a row:
    /// the record of each pixel that is drawn, from the left.
    pub open spec fn row_bytes(&self, y: int, columns: int) -> Seq<u8>
        decreases columns,
    {
        if columns <= 0 || !self.hashed || !self.only_changes {
            Seq::empty()
        } else {
            self.row_bytes(y, columns - 1) + if self.is_painted(columns - 1, y) {
                pixel_record(
                    (columns - 1) as u16,
                    self.reversed(y) as u32,
                    self.rendered.pixel(columns - 1, self.reversed(y)),
                )
            } else {
                Seq::empty()
            }
        }
    }

    /// The bytes that are hashed of the first `rows` rows of pixels.
    pub open spec fn frame_bytes(&self, rows: int) -> Seq<u8>
        decreases rows,
    {
        if rows <= 0 {
            Seq::empty()
        } else {
            self.frame_bytes(rows - 1) + self.row_bytes(rows - 1, self.width as int)
        }
    }
}

/// Whatever has been drawn of a cell, it shows no text.
pub proof fn lemma_drawn_cell_is_no_text(canvas: Canvas, x: int, row: int, rows_done: int)
    ensures
        !(glyph_of(canvas.drawn_cell(x, row, rows_done).text) is Text),
{
    lemma_half_blocks();
}

/// Draws the picture of a shader onto a blank surface as large as the
/// terminal, pixel by pixel, and collects the bytes that are hashed.
fn draw_canvas<M: ColourMath>(surface: &mut Surface, canvas: &Canvas, math: &M) -> (hashable: Vec<u8>)
    requires
        old(surface).wf(),
        canvas.wf(),
        old(surface).grid.width == canvas.width,
        old(surface).grid.height * 2 == canvas.pixel_rows,
        forall|x: int, y: int|
            old(surface).grid.contains(x, y) ==> #[trigger] old(surface).grid.cell(x, y)
                == blank_cell(),
    ensures
        final(surface).wf(),
        final(surface).id == old(surface).id,
        final(surface).width == old(surface).width,
        final(surface).height == old(surface).height,
        final(surface).layer == old(surface).layer,
        final(surface).opacity == old(surface).opacity,
        final(surface).grid.same_size(&old(surface).grid),
        forall|x: int, y: int|
            old(surface).grid.contains(x, y) ==> #[trigger] final(surface).grid.cell(x, y)
                == canvas.drawn_cell(x, y, canvas.pixel_rows as int),
        hashable@ == canvas.frame_bytes(canvas.pixel_rows as int),
{
    let mut hashable: Vec<u8> = Vec::new();
    let mut y: u32 = 0;
    while y < canvas.pixel_rows
        invariant
            surface.wf(),
            canvas.wf(),
            surface.id == old(surface).id,
            surface.width == old(surface).width,
            surface.height == old(surface).height,
            surface.layer == old(surface).layer,
            surface.opacity == old(surface).opacity,
            surface.grid.same_size(&old(surface).grid),
            surface.grid.width == canvas.width,
            surface.grid.height * 2 == canvas.pixel_rows,
            y <= canvas.pixel_rows,
            forall|i: int, j: int|
                surface.grid.contains(i, j) ==> #[trigger] surface.grid.cell(i, j) == canvas.expected(
                    i,
                    j,
                    y as int,
                    0,
                ),
            hashable@ == canvas.frame_bytes(y as int),
        decreases canvas.pixel_rows - y,
    {
        let y_reversed: u32 = canvas.pixel_rows - y - 1;
        let ghost row_start = hashable@;
        let mut x: u16 = 0;
        while x < canvas.width
            invariant
                surface.wf(),
                canvas.wf(),
                surface.id == old(surface).id,
                surface.width == old(surface).width,
                surface.height == old(surface).height,
                surface.layer == old(surface).layer,
                surface.opacity == old(surface).opacity,
                surface.grid.same_size(&old(surface).grid),
                surface.grid.width == canvas.width,
                surface.grid.height * 2 == canvas.pixel_rows,
                y < canvas.pixel_rows,
                y_reversed == canvas.reversed(y as int),
                x <= canvas.width,
                forall|i: int, j: int|
                    surface.grid.contains(i, j) ==> #[trigger] surface.grid.cell(i, j)
                        == canvas.expected(i, j, y as int, x as int),
                row_start == canvas.frame_bytes(y as int),
                hashable@ == row_start + canvas.row_bytes(y as int, x as int),
            decreases canvas.width - x,
        {
            let row: usize = (y / 2) as usize;
            proof {
                lemma_drawn_cell_is_no_text(*canvas, x as int, row as int, y as int);
            }
            let pixel_u8 = canvas.rendered.get_pixel_checked(x as u32, y_reversed).unwrap();
            let is_painted = if canvas.only_changes {
                let old_pixel = canvas.tty.get_pixel_checked(x as u32, y_reversed).unwrap();
                !(pixel_u8.0 == old_pixel.0 && pixel_u8.1 == old_pixel.1 && pixel_u8.2 == old_pixel.2
                    && pixel_u8.3 == old_pixel.3)
            } else {
                true
            };
            if is_painted {
                if canvas.only_changes && canvas.hashed {
                    let mut record = Shaderer::convert_pixel_to_binary(x, y_reversed, pixel_u8);
                    hashable.append(&mut record);
                }
                let colour = Colour::from_rgba8(pixel_u8.0, pixel_u8.1, pixel_u8.2, pixel_u8.3);
                let _ = surface.add_pixel(x as usize, y as usize, colour, math);
            }
            x = x + 1;
        }
        y = y + 1;
    }
    hashable
}

impl Shaders {
    /// How the layer of the shader is set up.
    pub fn settings(config: &Config) -> (settings: ShaderSettings)
        ensures
            settings == (ShaderSettings {
                is_upload_tty_as_pixels: config.shader.upload_tty_as_pixels,
                is_upload_tty_with_characters: true,
                is_should_hash_render: false,
                layer: config.shader.layer,
                opacity: config.shader.opacity,
                cursor_scale: Scalar { bits: ONE_BITS },
            }),
    {
        ShaderSettings {
            is_upload_tty_as_pixels: config.shader.upload_tty_as_pixels,
            is_upload_tty_with_characters: true,
            is_should_hash_render: false,
            layer: config.shader.layer,
            opacity: config.shader.opacity,
            cursor_scale: Scalar::one(),
        }
    }
}

impl AnimatedCursor {
    /// How the layer of the animated cursor is set up.
    pub fn settings(config: &Config) -> (settings: ShaderSettings)
        ensures
            settings == (ShaderSettings {
                is_upload_tty_as_pixels: true,
                is_upload_tty_with_characters: false,
                is_should_hash_render: false,
                layer: ANIMATED_CURSOR_LAYER,
                opacity: config.animated_cursor.opacity,
                cursor_scale: config.animated_cursor.cursor_scale,
            }),
    {
        ShaderSettings {
            is_upload_tty_as_pixels: true,
            is_upload_tty_with_characters: false,
            is_should_hash_render: false,
            layer: ANIMATED_CURSOR_LAYER,
            opacity: config.animated_cursor.opacity,
            cursor_scale: config.animated_cursor.cursor_scale,
        }
    }
}

impl Shaderer {
    /// The surfaces are rectangles, and the picture of the terminal has its bytes.
    pub open spec fn wf(&self) -> bool {
        self.tattoy.wf() && self.gpu.wf()
    }

    /// A pixel with its place, as the bytes that are hashed.
    pub fn convert_pixel_to_binary(x: u16, y: u32, pixel: (u8, u8, u8, u8)) -> (record: Vec<u8>)
        ensures
            record@ == pixel_record(x, y, pixel),
    {
        let mut record: Vec<u8> = Vec::new();
        record.push((x / 256) as u8);
        record.push((x % 256) as u8);
        record.push((y / 0x100_0000) as u8);
        record.push(((y / 0x1_0000) % 256) as u8);
        record.push(((y / 256) % 256) as u8);
        record.push((y % 256) as u8);
        record.push(pixel.0);
        record.push(pixel.1);
        record.push(pixel.2);
        record.push(pixel.3);
        record
    }

    /// Whether the shader has changed a pixel of the picture that it was
    /// given. A pixel that the picture of the terminal does not have is an error.
    pub fn are_pixels_different(&self, x: u32, y_reversed: u32, new_pixel: (u8, u8, u8, u8)) -> (different:
        Result<bool, ShaderError>)
        requires
            self.gpu.wf(),
        ensures
            different == (if self.gpu.tty_pixels.contains(x as int, y_reversed as int) {
                Ok::<bool, ShaderError>(
                    new_pixel != self.gpu.tty_pixels.pixel(x as int, y_reversed as int),
                )
            } else {
                Err::<bool, ShaderError>(ShaderError::MissingPixel)
            }),
    {
        match self.gpu.tty_pixels.get_pixel_checked(x, y_reversed) {
            Some(old_pixel) => Ok(
                !(new_pixel.0 == old_pixel.0 && new_pixel.1 == old_pixel.1 && new_pixel.2
                    == old_pixel.2 && new_pixel.3 == old_pixel.3),
            ),
            None => Err(ShaderError::MissingPixel),
        }
    }

    /// The colour of the cursor: the foreground of the cell under it. On a
    /// screen without rows the cursor has no colour at all, which is no error.
    pub open spec fn cursor_colour(&self, x: usize, y: usize) -> Result<Colour, ShaderError> {
        let screen = self.tattoy.screen.surface;
        if screen.height == 0 {
            Ok(
                Colour {
                    red: Scalar { bits: 0 },
                    green: Scalar { bits: 0 },
                    blue: Scalar { bits: 0 },
                    alpha: Scalar { bits: 0 },
                },
            )
        } else if y >= screen.height {
            Err(ShaderError::NoCursorRow)
        } else if x >= screen.width {
            Err(ShaderError::NoCursorColumn)
        } else {
            match screen.cell(x as int, y as int).attrs.foreground.colour() {
                Some(colour) => Ok(colour),
                None => Err(ShaderError::NoCursorColour),
            }
        }
    }

    /// The colour of the cursor.
    pub fn get_cursor_colour(&self, x: usize, y: usize) -> (colour: Result<Colour, ShaderError>)
        requires
            self.tattoy.wf(),
        ensures
            colour == self.cursor_colour(x, y),
    {
        let screen = &self.tattoy.screen.surface;
        if screen.height == 0 {
            return Ok(Colour::from_bits(0, 0, 0, 0));
        }
        if y >= screen.height {
            return Err(ShaderError::NoCursorRow);
        }
        if x >= screen.width {
            return Err(ShaderError::NoCursorColumn);
        }
        match crate::blender::Blender::extract_colour(screen.rows[y][x].attrs.foreground) {
            Some(colour) => Ok(colour),
            None => Err(ShaderError::NoCursorColour),
        }
    }

    /// Takes the picture of the terminal that the shader is given next.
    pub fn upload_tty_as_pixels(&mut self, picture: PixelImage)
        ensures
            *final(self) == (Shaderer {
                gpu: GPU { tty_pixels: picture, ..old(self).gpu },
                ..*old(self)
            }),
    {
        self.gpu.tty_pixels = picture;
    }

    /// Whether a frame is not drawn because the picture of the terminal is
    /// not there yet, or is of another size than the picture of the shader.
    pub open spec fn is_not_ready(&self, rendered: &PixelImage, settings: ShaderSettings) -> bool {
        settings.is_upload_tty_as_pixels && (self.gpu.tty_pixels.height == 0 || (
        self.gpu.tty_pixels.width, self.gpu.tty_pixels.height) != (rendered.width, rendered.height))
    }

    /// Why a frame cannot be drawn, if it cannot: the cursor has no
    /// colour, or is too far out, or the picture of the shader does not
    /// cover the terminal.
    pub open spec fn render_error(&self, rendered: &PixelImage) -> Option<ShaderError> {
        let cursor = self.tattoy.screen.surface.cursor;
        match self.cursor_colour(cursor.x, cursor.y) {
            Err(error) => Some(error),
            Ok(_) => if cursor.x > u16::MAX || cursor.y > u16::MAX {
                Some(ShaderError::CursorOutOfRange)
            } else if self.tattoy.width > 0 && self.tattoy.height > 0 && (rendered.width
                < self.tattoy.width || rendered.height < self.tattoy.height * 2) {
                Some(ShaderError::MissingPixel)
            } else {
                None
            },
        }
    }

    /// The picture of a shader as it is laid onto the terminal.
    pub open spec fn canvas<'a>(&'a self, rendered: &'a PixelImage, settings: ShaderSettings) -> Canvas<'a> {
        Canvas {
            rendered,
            tty: &self.gpu.tty_pixels,
            width: if self.tattoy.height == 0 {
                0
            } else {
                self.tattoy.width
            },
            pixel_rows: if self.tattoy.width == 0 {
                0
            } else {
                (self.tattoy.height * 2) as u32
            },
            only_changes: settings.is_upload_tty_as_pixels,
            hashed: settings.is_should_hash_render,
        }
    }

    /// Draws a frame from the picture that the shader has drawn.
    ///
    /// The shader is told of the cursor: where it is, the colour of the
    /// cell under it, and its scale. Then every pixel of the picture becomes
    /// a pixel of a fresh surface, the picture upside down; where the shader
    /// was given the terminal as pixels, only the pixels that it has changed.
    pub fn render<M: ColourMath>(&mut self, rendered_pixels: &PixelImage, settings: &ShaderSettings, math: &M) -> (outcome:
        Result<RenderOutcome, ShaderError>)
        requires
            old(self).wf(),
            rendered_pixels.wf(),
        ensures
            final(self).wf(),
            old(self).is_not_ready(rendered_pixels, *settings) ==> {
                &&& outcome matches Ok(RenderOutcome::NotReady)
                &&& *final(self) == *old(self)
            },
            !old(self).is_not_ready(rendered_pixels, *settings) ==> match old(self).render_error(
                rendered_pixels,
            ) {
                Some(error) => outcome == Err::<RenderOutcome, ShaderError>(error),
                None => {
                    &&& outcome matches Ok(RenderOutcome::Drawn { update, hash })
                    &&& update matches FrameUpdate::TattoySurface(surface)
                    &&& surface.wf()
                    &&& surface.id@ == old(self).tattoy.id@
                    &&& surface.layer == settings.layer
                    &&& surface.opacity == settings.opacity
                    &&& surface.width == old(self).tattoy.width
                    &&& surface.height == old(self).tattoy.height
                    &&& surface.grid.width == old(self).tattoy.width
                    &&& surface.grid.height == old(self).tattoy.height
                    &&& forall|x: int, y: int|
                        surface.grid.contains(x, y) ==> #[trigger] surface.grid.cell(x, y) == old(
                            self,
                        ).canvas(rendered_pixels, *settings).drawn_cell(
                            x,
                            y,
                            old(self).tattoy.height * 2,
                        )
                    &&& hash == (if settings.is_should_hash_render {
                        Some(
                            hash_of(
                                old(self).canvas(rendered_pixels, *settings).frame_bytes(
                                    old(self).canvas(rendered_pixels, *settings).pixel_rows as int,
                                ),
                            ),
                        )
                    } else {
                        None
                    })
                    &&& final(self).gpu.cursor == Some(
                        crate::tattoys::gpu::pipeline::ShaderCursor {
                            x: old(self).tattoy.screen.surface.cursor.x as u16,
                            y: old(self).tattoy.screen.surface.cursor.y as u16,
                            colour: old(self).cursor_colour(
                                old(self).tattoy.screen.surface.cursor.x,
                                old(self).tattoy.screen.surface.cursor.y,
                            )->Ok_0,
                            scale: settings.cursor_scale,
                        },
                    )
                    &&& final(self).tattoy.layer == settings.layer
                    &&& final(self).tattoy.opacity == settings.opacity
                },
            },
    {
        if settings.is_upload_tty_as_pixels {
            if self.gpu.tty_pixels.height == 0 {
                return Ok(RenderOutcome::NotReady);
            }
            if self.gpu.tty_pixels.width != rendered_pixels.width || self.gpu.tty_pixels.height
                != rendered_pixels.height {
                return Ok(RenderOutcome::NotReady);
            }
        }
        let cursor_position = self.tattoy.screen.surface.cursor_position();
        let cursor_colour = match self.get_cursor_colour(cursor_position.0, cursor_position.1) {
            Ok(colour) => colour,
            Err(error) => {
                return Err(error);
            },
        };
        if cursor_position.0 > u16::MAX as usize || cursor_position.1 > u16::MAX as usize {
            return Err(ShaderError::CursorOutOfRange);
        }
        let width = self.tattoy.width;
        let height = self.tattoy.height;
        self.gpu.update_cursor(
            cursor_position.0 as u16,
            cursor_position.1 as u16,
            cursor_colour,
            settings.cursor_scale,
        );
        self.tattoy.opacity = settings.opacity;
        self.tattoy.layer = settings.layer;
        self.tattoy.initialise_surface();
        if width > 0 && height > 0 && (rendered_pixels.width < width as u32 || rendered_pixels.height
            < height as u32 * 2) {
            return Err(ShaderError::MissingPixel);
        }
        let canvas = Canvas {
            rendered: rendered_pixels,
            tty: &self.gpu.tty_pixels,
            width: if height == 0 {
                0
            } else {
                width
            },
            pixel_rows: if width == 0 {
                0
            } else {
                height as u32 * 2
            },
            only_changes: settings.is_upload_tty_as_pixels,
            hashed: settings.is_should_hash_render,
        };
        let hash = if width == 0 || height == 0 {
            if settings.is_should_hash_render {
                let nothing: Vec<u8> = Vec::new();
                Some(simple_hash(nothing.as_slice()))
            } else {
                None
            }
        } else {
            let hashable_render = draw_canvas(&mut self.tattoy.surface, &canvas, math);
            if settings.is_should_hash_render {
                Some(simple_hash(hashable_render.as_slice()))
            } else {
                None
            }
        };
        let update = self.tattoy.send_output();
        Ok(RenderOutcome::Drawn { update, hash })
    }

    /// Whether `after` is this layer after it has taken a message in, and
    /// `work` what is then left to do outside. The pipeline of the shader
    /// takes the message first, then the layer; the first of them that
    /// fails ends it.
    pub open spec fn takes_message(&self, after: &Shaderer, message: Protocol, work: Result<
        ShaderWork,
        MessageError,
    >) -> bool {
        match work {
            Ok(done) => {
                &&& done.upload == (message is Repaint)
                &&& self.gpu.takes_message(&after.gpu, message, Ok(done.gpu))
                &&& self.tattoy.takes_message(&after.tattoy, message, Ok(done.surface))
            },
            Err(MessageError::Resolution) => {
                &&& self.gpu.takes_message(&after.gpu, message, Err(ResolutionError))
                &&& after.tattoy == self.tattoy
            },
            Err(MessageError::Size) => {
                &&& self.gpu.takes_message(&after.gpu, message, Ok(GpuWork::Repaint))
                &&& self.tattoy.takes_message(&after.tattoy, message, Err(SizeError))
            },
        }
    }

    /// Takes a message in, and says what is left to do outside.
    ///
    /// On a call to repaint the shader is to be given the terminal anew.
    /// Every message then goes to the pipeline of the shader and to the
    /// layer, in that order; the first of them that fails ends it.
    pub fn handle_protocol_message(&mut self, message: Protocol) -> (work: Result<
        ShaderWork,
        MessageError,
    >)
        requires
            old(self).wf(),
            message matches Protocol::Output(output) ==> output.wf(),
        ensures
            final(self).wf(),
            old(self).takes_message(final(self), message, work),
            work matches Err(MessageError::Resolution) <==> (message matches Protocol::Resize {
                height,
                ..
            } && height * 2 > u16::MAX),
            work matches Err(MessageError::Size) <==> (message matches Protocol::Output(
                crate::output::Output::Diff(crate::output::SurfaceDiff::Screen(diff)),
            ) && (diff.size.0 > u16::MAX || diff.size.1 > u16::MAX)),
    {
        let upload = match message {
            Protocol::Repaint => true,
            _ => false,
        };
        let gpu = match self.gpu.handle_protocol_message(&message) {
            Ok(work) => work,
            Err(_) => {
                return Err(MessageError::Resolution);
            },
        };
        match self.tattoy.handle_common_protocol_messages(message) {
            Ok(surface) => Ok(ShaderWork { upload, gpu, surface }),
            Err(_) => Err(MessageError::Size),
        }
    }
}

/// What is left to do outside after a layer of a shader has taken a message in.
#[derive(Debug)]
pub struct ShaderWork {
    /// Whether the shader is to be given the terminal anew.
    pub upload: bool,
    /// What is left to do for the pipeline of the shader.
    pub gpu: GpuWork,
    /// What is left to do to the layer's copy of the terminal.
    pub surface: SurfaceWork,
}

/// Why a message could not be taken in.
#[derive(Clone, Copy, Debug, PartialEq, Eq, Structural)]
pub enum MessageError {
    /// The terminal is higher than a picture of it can be counted.
    Resolution,
    /// The screen is larger than can be counted in sixteen bits.
    Size,
}

/// A canvas without columns has nothing to hash.
pub proof fn lemma_nothing_to_hash(canvas: Canvas, rows: int)
    requires
        canvas.width == 0 || canvas.pixel_rows == 0,
        rows <= canvas.pixel_rows,
    ensures
        canvas.frame_bytes(rows) =~= Seq::<u8>::empty(),
    decreases rows,
{
    if rows > 0 {
        lemma_nothing_to_hash(canvas, rows - 1);
    }
}

} // verus!
