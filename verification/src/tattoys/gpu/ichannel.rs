//! The picture of the terminal that a shader reads from its first channel.
use crate::tattoys::gpu::pipeline::GPU;
use vstd::prelude::*;

verus! {

/// How many dimensions a texture has.
#[derive(Clone, Copy, Debug, PartialEq, Eq, Structural)]
pub enum TextureDimension {
    D1,
    D2,
    D3,
}

/// How the pixels of a texture are stored.
#[derive(Clone, Copy, Debug, PartialEq, Eq, Structural)]
pub enum TextureFormat {
    /// Red, green, blue and alpha, eight bits each, in the sRGB space.
    Rgba8UnormSrgb,
}

/// What a texture is used for.
#[derive(Clone, Copy, Debug, PartialEq, Eq, Structural)]
pub struct TextureUsages {
    /// Data is copied into it.
    pub copy_dst: bool,
    /// A shader reads from it.
    pub texture_binding: bool,
}

/// What there is to say of a texture before it is made.
#[derive(Clone, Copy, Debug)]
pub struct TextureDescriptor {
    pub width: u32,
    pub height: u32,
    pub depth_or_array_layers: u32,
    pub mip_level_count: u32,
    pub sample_count: u32,
    pub dimension: TextureDimension,
    pub format: TextureFormat,
    pub usage: TextureUsages,
    pub label: &'static str,
}

/// How a picture is copied into a texture.
#[derive(Clone, Copy, Debug, PartialEq, Eq, Structural)]
pub struct TextureUpload {
    /// How many bytes a row of the picture has.
    pub bytes_per_row: u32,
    pub rows_per_image: u32,
    pub width: u32,
    pub height: u32,
}

/// The name of the texture.
pub const ICHANNEL_LABEL: &'static str = "ichannel_texture";

/// The descriptor of the texture for a picture of the given size.
pub open spec fn descriptor_for(width: u16, height: u16) -> TextureDescriptor {
    TextureDescriptor {
        width: width as u32,
        height: height as u32,
        depth_or_array_layers: 1,
        mip_level_count: 1,
        sample_count: 1,
        dimension: TextureDimension::D2,
        format: TextureFormat::Rgba8UnormSrgb,
        usage: TextureUsages { copy_dst: true, texture_binding: true },
        label: ICHANNEL_LABEL,
    }
}

impl GPU {
    /// Whether the picture of the terminal has the size of the picture
    /// that the shader draws.
    pub open spec fn picture_fits(&self) -> bool {
        self.tty_pixels.width == self.width && self.tty_pixels.height == self.height
    }

    /// How the picture of the terminal is to be copied into the texture
    /// that the shader reads: not at all, unless the picture has the size
    /// of the picture that the shader draws.
    pub fn update_ichannel_texture_data(&self) -> (upload: Option<TextureUpload>)
        ensures
            upload == (if self.picture_fits() {
                Some(
                    TextureUpload {
                        bytes_per_row: (4 * self.tty_pixels.width) as u32,
                        rows_per_image: self.tty_pixels.height,
                        width: self.tty_pixels.width,
                        height: self.tty_pixels.height,
                    },
                )
            } else {
                None
            }),
    {
        let tty_image_width = self.tty_pixels.width;
        let tty_image_height = self.tty_pixels.height;
        let output_image_size = self.get_image_size();
        if tty_image_width != output_image_size.0 as u32 || tty_image_height
            != output_image_size.1 as u32 {
            return None;
        }
        Some(
            TextureUpload {
                bytes_per_row: 4 * tty_image_width,
                rows_per_image: tty_image_height,
                width: tty_image_width,
                height: tty_image_height,
            },
        )
    }

    /// The descriptor of the texture that is to be made anew, for a picture
    /// of the size that the shader draws now.
    pub fn recreate_ichannel_texture(&mut self) -> (descriptor: TextureDescriptor)
        ensures
            *final(self) == *old(self),
            descriptor == descriptor_for(old(self).width, old(self).height),
    {
        let image_size = self.get_image_size();
        GPU::ichannel_texture_descriptor(image_size.0, image_size.1)
    }

    /// The descriptor of the texture for a picture of the given size.
    pub fn ichannel_texture_descriptor(width: u16, height: u16) -> (descriptor: TextureDescriptor)
        ensures
            descriptor == descriptor_for(width, height),
    {
        TextureDescriptor {
            width: width as u32,
            height: height as u32,
            depth_or_array_layers: 1,
            mip_level_count: 1,
            sample_count: 1,
            dimension: TextureDimension::D2,
            format: TextureFormat::Rgba8UnormSrgb,
            usage: TextureUsages { copy_dst: true, texture_binding: true },
            label: ICHANNEL_LABEL,
        }
    }
}

} // verus!
