//! The settings that the user can make, as far as this crate reads them.
use crate::scalar::Scalar;
use vstd::prelude::*;

verus! {

/// How text is kept readable over what lies behind it.
#[derive(Clone, Copy, Debug)]
pub struct TextContrast {
    pub enabled: bool,
    /// The contrast between text and background that is aimed at.
    pub target_contrast: Scalar,
    /// Whether cells with nothing to read are left alone.
    pub apply_to_readable_text_only: bool,
}

/// How the colours of the final frame are graded.
#[derive(Clone, Copy, Debug)]
pub struct ColourGrade {
    pub saturation: Scalar,
    pub brightness: Scalar,
    pub hue: Scalar,
}

/// The settings of the minimap.
#[derive(Clone, Copy, Debug)]
pub struct MinimapConfig {
    pub enabled: bool,
    /// How many columns the minimap may take.
    pub max_width: u16,
    /// How far the minimap moves in or out with each frame.
    pub animation_speed: Scalar,
}

/// The settings of the shader layer.
#[derive(Clone, Debug)]
pub struct ShaderConfig {
    pub enabled: bool,
    /// The file of the shader, below the configuration directory.
    pub path: String,
    pub opacity: Scalar,
    pub layer: i16,
    /// Whether the shader is drawn as a layer of its own.
    pub render: bool,
    /// Whether the shader gets to see the screen as pixels.
    pub upload_tty_as_pixels: bool,
    /// Whether text takes the colour of the shader pixel behind it.
    pub render_shader_colours_to_text: bool,
}

/// The settings of the animated cursor.
#[derive(Clone, Debug)]
pub struct AnimatedCursorConfig {
    pub enabled: bool,
    /// The file of the shader, below the configuration directory.
    pub path: String,
    pub opacity: Scalar,
    /// The layer of the cursor. Just below zero the cursor lies between the
    /// text of the terminal and its background.
    pub layer: i16,
    pub cursor_scale: Scalar,
}

/// Everything that the user has set.
#[derive(Clone, Debug)]
pub struct Config {
    /// How many frames each layer draws in a second.
    pub frame_rate: u32,
    pub show_startup_logo: bool,
    pub show_tattoy_indicator: bool,
    pub text_contrast: TextContrast,
    pub color: ColourGrade,
    pub minimap: MinimapConfig,
    pub shader: ShaderConfig,
    pub animated_cursor: AnimatedCursorConfig,
    pub notifications_enabled: bool,
    pub bg_command_enabled: bool,
    pub plugins: Vec<crate::tattoys::plugins::Config>,
}

/// The bit pattern of the speed of the minimap that is set to none: fifteen hundredths.
pub const DEFAULT_ANIMATION_SPEED_BITS: u32 = 0x3e19_999a;

/// The bit pattern of the opacity of a shader that is set to none: three quarters.
pub const DEFAULT_SHADER_OPACITY_BITS: u32 = 0x3f40_0000;

/// The width that the minimap may take where none is set.
pub const DEFAULT_MINIMAP_WIDTH: u16 = 15;

/// The layer of a shader where none is set.
pub const DEFAULT_SHADER_LAYER: i16 = -10;

impl MinimapConfig {
    /// The settings of a minimap that the user has not set: switched on,
    /// fifteen columns wide at most.
    pub fn default() -> (config: MinimapConfig)
        ensures
            config.enabled,
            config.max_width == DEFAULT_MINIMAP_WIDTH,
            config.animation_speed == (Scalar { bits: DEFAULT_ANIMATION_SPEED_BITS }),
    {
        MinimapConfig {
            enabled: true,
            max_width: DEFAULT_MINIMAP_WIDTH,
            animation_speed: Scalar::from_bits(DEFAULT_ANIMATION_SPEED_BITS),
        }
    }
}

impl ShaderConfig {
    /// The settings of a shader that the user has not set: switched off,
    /// drawn as a layer below the screen, and given the screen as pixels.
    pub fn default(path: String) -> (config: ShaderConfig)
        ensures
            !config.enabled,
            config.path == path,
            config.opacity == (Scalar { bits: DEFAULT_SHADER_OPACITY_BITS }),
            config.layer == DEFAULT_SHADER_LAYER,
            config.render,
            config.upload_tty_as_pixels,
            !config.render_shader_colours_to_text,
    {
        ShaderConfig {
            enabled: false,
            path,
            opacity: Scalar::from_bits(DEFAULT_SHADER_OPACITY_BITS),
            layer: DEFAULT_SHADER_LAYER,
            render: true,
            upload_tty_as_pixels: true,
            render_shader_colours_to_text: false,
        }
    }
}

impl AnimatedCursorConfig {
    /// The settings of an animated cursor that the user has not set:
    /// switched off, below every other layer, in its own size.
    pub fn default(path: String) -> (config: AnimatedCursorConfig)
        ensures
            !config.enabled,
            config.path == path,
            config.opacity == (Scalar { bits: DEFAULT_SHADER_OPACITY_BITS }),
            config.layer == i16::MIN,
            config.cursor_scale == (Scalar { bits: crate::scalar::ONE_BITS }),
    {
        AnimatedCursorConfig {
            enabled: false,
            path,
            opacity: Scalar::from_bits(DEFAULT_SHADER_OPACITY_BITS),
            layer: i16::MIN,
            cursor_scale: Scalar::one(),
        }
    }
}

} // verus!
