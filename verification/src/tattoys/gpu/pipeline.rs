//! What this crate keeps of the pipeline that runs a shader.
use crate::colour::Colour;
use crate::picture::PixelImage;
use crate::scalar::Scalar;
use vstd::prelude::*;

verus! {

/// The cursor as a shader is told of it.
#[derive(Clone, Copy, Debug, PartialEq, Eq, Structural)]
pub struct ShaderCursor {
    pub x: u16,
    pub y: u16,
    pub colour: Colour,
    pub scale: Scalar,
}

/// What this crate keeps of the pipeline that runs a shader.
#[derive(Debug)]
pub struct GPU {
    /// The file of the shader.
    pub shader_path: String,
    /// The picture of the terminal that the shader was last given.
    pub tty_pixels: PixelImage,
    /// The width of the picture that the shader draws.
    pub width: u16,
    /// The height of the picture that the shader draws.
    pub height: u16,
    /// Where the mouse was last seen.
    pub mouse: (u16, u16),
    /// The cursor as the shader was last told of it.
    pub cursor: Option<ShaderCursor>,
}

impl GPU {
    /// The picture of the terminal has four bytes for every pixel.
    pub open spec fn wf(&self) -> bool {
        self.tty_pixels.wf()
    }

    /// A pipeline for a shader that draws a picture of the given size.
    pub fn new(shader_path: String, width: u16, height: u16) -> (gpu: GPU)
        ensures
            gpu.wf(),
            gpu.shader_path == shader_path,
            gpu.width == width,
            gpu.height == height,
            gpu.tty_pixels.width == 0,
            gpu.tty_pixels.height == 0,
            gpu.mouse == (0u16, 0u16),
            gpu.cursor is None,
    {
        GPU {
            shader_path,
            tty_pixels: PixelImage { width: 0, height: 0, bytes: Vec::new() },
            width,
            height,
            mouse: (0, 0),
            cursor: None,
        }
    }

    /// The size of the picture that the shader draws.
    pub fn get_image_size(&self) -> (size: (u16, u16))
        ensures
            size == (self.width, self.height),
    {
        (self.width, self.height)
    }

    /// Notes the size of the picture that the shader draws.
    pub fn update_resolution(&mut self, width: u16, height: u16)
        ensures
            *final(self) == (GPU { width, height, ..*old(self) }),
    {
        self.width = width;
        self.height = height;
    }

    /// Notes where the mouse is.
    pub fn update_mouse_position(&mut self, x: u16, y: u16)
        ensures
            *final(self) == (GPU { mouse: (x, y), ..*old(self) }),
    {
        self.mouse = (x, y);
    }

    /// Notes the cursor that the shader is to be told of.
    pub fn update_cursor(&mut self, x: u16, y: u16, colour: Colour, scale: Scalar)
        ensures
            *final(self) == (GPU {
                cursor: Some(ShaderCursor { x, y, colour, scale }),
                ..*old(self)
            }),
    {
        self.cursor = Some(ShaderCursor { x, y, colour, scale });
    }
}

} // verus!
