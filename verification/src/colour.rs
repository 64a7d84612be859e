//! Colours and colour attributes of cells.
use crate::scalar::Scalar;
use crate::scalar::ONE_BITS;
use vstd::prelude::*;

verus! {

/// A colour in the sRGB space with an alpha channel. Each channel is a number
/// from zero to one.
#[derive(Clone, Copy, Debug, PartialEq, Eq, Structural)]
pub struct Colour {
    pub red: Scalar,
    pub green: Scalar,
    pub blue: Scalar,
    pub alpha: Scalar,
}

/// What a cell says about one of its two colours.
#[derive(Clone, Copy, Debug, PartialEq, Eq, Structural)]
pub enum ColourAttribute {
    /// The terminal's own default.
    Default,
    /// An entry of the terminal's palette, not yet resolved to a colour.
    PaletteIndex(u8),
    /// A colour, together with the palette entry that it was resolved from.
    TrueColourWithPaletteFallback(Colour, u8),
    /// A colour.
    TrueColourWithDefaultFallback(Colour),
}

/// One colour of a palette: red, green and blue with eight bits each.
pub type PaletteColour = (u8, u8, u8);

/// The colour that the terminal library makes of eight-bit red, green and
/// blue: fully opaque, each channel scaled to the range from zero to one.
pub uninterp spec fn srgba_of_rgb(red: u8, green: u8, blue: u8) -> Colour;

/// The colour that the terminal library makes of eight-bit red, green, blue
/// and alpha, each scaled to the range from zero to one.
pub uninterp spec fn srgba_of_rgba(red: u8, green: u8, blue: u8, alpha: u8) -> Colour;

/// Calls `termwiz::color::RgbColor::new_8bpc` and converts the result into a
/// `termwiz::color::SrgbaTuple`. The contract names the colour that comes
/// back, a function of the three channels alone. Of its value it claims
/// only that the alpha is one: the conversion sets it so.
#[verifier::external_body]
pub(crate) fn rgb_to_colour(red: u8, green: u8, blue: u8) -> (colour: Colour)
    ensures
        colour == srgba_of_rgb(red, green, blue),
        colour.alpha.bits == ONE_BITS,
{
    let tuple: termwiz::color::SrgbaTuple = termwiz::color::RgbColor::new_8bpc(
        red,
        green,
        blue,
    ).into();
    Colour {
        red: Scalar { bits: tuple.0.to_bits() },
        green: Scalar { bits: tuple.1.to_bits() },
        blue: Scalar { bits: tuple.2.to_bits() },
        alpha: Scalar { bits: tuple.3.to_bits() },
    }
}

/// Calls the conversion of `termwiz::color::SrgbaTuple` from a tuple of four
/// bytes. The contract names the colour that comes back, a function of the
/// four channels alone, and claims nothing of its value.
#[verifier::external_body]
pub(crate) fn rgba_to_colour(red: u8, green: u8, blue: u8, alpha: u8) -> (colour: Colour)
    ensures
        colour == srgba_of_rgba(red, green, blue, alpha),
{
    let tuple: termwiz::color::SrgbaTuple = (red, green, blue, alpha).into();
    Colour {
        red: Scalar { bits: tuple.0.to_bits() },
        green: Scalar { bits: tuple.1.to_bits() },
        blue: Scalar { bits: tuple.2.to_bits() },
        alpha: Scalar { bits: tuple.3.to_bits() },
    }
}

/// The colour that the terminal library reads out of a text such as
/// `#0034a1`, if it reads one.
pub uninterp spec fn colour_of_name(name: Seq<char>) -> Option<Colour>;

/// Calls the parser of `termwiz::color::SrgbaTuple` (its `FromStr`). The
/// contract names what comes back, a function of the text alone, and
/// claims nothing of its value.
#[verifier::external_body]
pub(crate) fn parse_colour(name: &str) -> (colour: Option<Colour>)
    ensures
        colour == colour_of_name(name@),
{
    match name.parse::<termwiz::color::SrgbaTuple>() {
        Ok(tuple) => Some(
            Colour {
                red: Scalar { bits: tuple.0.to_bits() },
                green: Scalar { bits: tuple.1.to_bits() },
                blue: Scalar { bits: tuple.2.to_bits() },
                alpha: Scalar { bits: tuple.3.to_bits() },
            },
        ),
        Err(()) => None,
    }
}

impl Colour {
    /// The colour that a text such as `#0034a1` names.
    pub fn from_name(name: &str) -> (colour: Option<Colour>)
        ensures
            colour == colour_of_name(name@),
    {
        parse_colour(name)
    }

    /// The colour with the given channels.
    pub fn new(red: Scalar, green: Scalar, blue: Scalar, alpha: Scalar) -> (colour: Colour)
        ensures
            colour == (Colour { red, green, blue, alpha }),
    {
        Colour { red, green, blue, alpha }
    }

    /// The colour whose channels have the given bit patterns.
    pub fn from_bits(red: u32, green: u32, blue: u32, alpha: u32) -> (colour: Colour)
        ensures
            colour.red.bits == red,
            colour.green.bits == green,
            colour.blue.bits == blue,
            colour.alpha.bits == alpha,
    {
        Colour {
            red: Scalar { bits: red },
            green: Scalar { bits: green },
            blue: Scalar { bits: blue },
            alpha: Scalar { bits: alpha },
        }
    }

    /// The colour of an eight-bit pixel with alpha.
    pub fn from_rgba8(red: u8, green: u8, blue: u8, alpha: u8) -> (colour: Colour)
        ensures
            colour == srgba_of_rgba(red, green, blue, alpha),
    {
        rgba_to_colour(red, green, blue, alpha)
    }

    /// The colour of an eight-bit palette entry.
    pub fn from_rgb8(red: u8, green: u8, blue: u8) -> (colour: Colour)
        ensures
            colour == srgba_of_rgb(red, green, blue),
            colour.alpha.bits == ONE_BITS,
    {
        rgb_to_colour(red, green, blue)
    }

    /// The same colour with another alpha.
    pub fn with_alpha(self, alpha: Scalar) -> (colour: Colour)
        ensures
            colour == (Colour { alpha, ..self }),
    {
        Colour { red: self.red, green: self.green, blue: self.blue, alpha }
    }

    /// Whether every channel equals, as a number, the same channel of `other`.
    pub open spec fn same_colour(self, other: Colour) -> bool {
        &&& self.red.same_number(other.red)
        &&& self.green.same_number(other.green)
        &&& self.blue.same_number(other.blue)
        &&& self.alpha.same_number(other.alpha)
    }

    /// Decides `same_colour`.
    pub fn equals(self, other: Colour) -> (equal: bool)
        ensures
            equal == self.same_colour(other),
    {
        self.red.equals(other.red) && self.green.equals(other.green) && self.blue.equals(
            other.blue,
        ) && self.alpha.equals(other.alpha)
    }

    /// Whether the colour is black without any transparency.
    pub open spec fn is_opaque_black(self) -> bool {
        self.same_colour(
            Colour {
                red: Scalar { bits: 0 },
                green: Scalar { bits: 0 },
                blue: Scalar { bits: 0 },
                alpha: Scalar { bits: ONE_BITS },
            },
        )
    }

    /// Black without any transparency.
    pub fn opaque_black() -> (colour: Colour)
        ensures
            colour == (Colour {
                red: Scalar { bits: 0 },
                green: Scalar { bits: 0 },
                blue: Scalar { bits: 0 },
                alpha: Scalar { bits: ONE_BITS },
            }),
    {
        Colour { red: Scalar::zero(), green: Scalar::zero(), blue: Scalar::zero(), alpha: Scalar::one() }
    }
}

impl ColourAttribute {
    /// The colour that an attribute carries, if it carries one.
    pub open spec fn colour(self) -> Option<Colour> {
        match self {
            ColourAttribute::TrueColourWithPaletteFallback(colour, _) => Some(colour),
            ColourAttribute::TrueColourWithDefaultFallback(colour) => Some(colour),
            ColourAttribute::PaletteIndex(_) => None,
            ColourAttribute::Default => None,
        }
    }

    /// Whether the attribute still names a palette entry in place of a colour.
    pub open spec fn is_palette_index(self) -> bool {
        self is PaletteIndex
    }
}

/// The arithmetic on colours that this crate leaves to the program around it.
///
/// Every method computes on fractional numbers. The crate decides which
/// colours meet and where the result goes. Of the result itself each
/// contract says one thing only: that it is a function of the arguments,
/// which the contract names. Whoever implements the trait vouches for that;
/// nothing in this crate checks it.
pub trait ColourMath {
    /// What `blend` makes of its arguments.
    spec fn blend_of(&self, destination: Colour, source: Colour, opacity: Scalar) -> Colour;

    /// What `mix` makes of its arguments.
    spec fn mix_of(&self, first: Colour, second: Colour) -> Colour;

    /// What `readable_foreground` makes of its arguments.
    spec fn readable_of(&self, foreground: Colour, background: Colour, target: Scalar) -> Colour;

    /// What `grade` makes of its arguments.
    spec fn grade_of(&self, colour: Colour, saturation: Scalar, brightness: Scalar, hue: Scalar) -> Colour;

    /// Lays `source` over `destination`. The alpha of `source` is scaled by
    /// `opacity` first.
    fn blend(&self, destination: Colour, source: Colour, opacity: Scalar) -> (colour: Colour)
        ensures
            colour == self.blend_of(destination, source, opacity),
    ;

    /// The colour half way between two colours.
    fn mix(&self, first: Colour, second: Colour) -> (colour: Colour)
        ensures
            colour == self.mix_of(first, second),
    ;

    /// A foreground near `foreground` whose contrast to `background` reaches
    /// `target`, as far as lightening or darkening can take it.
    fn readable_foreground(&self, foreground: Colour, background: Colour, target: Scalar) -> (colour:
        Colour)
        ensures
            colour == self.readable_of(foreground, background, target),
    ;

    /// The colour after saturation, brightness and hue have been adjusted.
    fn grade(&self, colour: Colour, saturation: Scalar, brightness: Scalar, hue: Scalar) -> (graded:
        Colour)
        ensures
            graded == self.grade_of(colour, saturation, brightness, hue),
    ;
}

} // verus!
