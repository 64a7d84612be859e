//! Blending the colours of one cell with those of a cell above it.
use crate::cell::is_unreadable;
use crate::cell::Cell;
use crate::cell::CellAttributes;
use crate::cell::CellView;
use crate::colour::Colour;
use crate::colour::ColourAttribute;
use crate::colour::ColourMath;
use crate::scalar::Scalar;
use vstd::prelude::*;

verus! {

/// Which of the two colours of a cell is meant.
#[derive(Clone, Copy, Debug, PartialEq, Eq, Structural)]
pub enum Kind {
    Foreground,
    Background,
}

/// Blends into cells: lays colours over the colours that a cell has.
#[derive(Clone, Copy, Debug)]
pub struct Blender {
    /// The colour that stands for a background that a cell does not name.
    pub default_background: Colour,
    /// How much of the incoming colour shows: scales its alpha.
    pub opacity: Scalar,
}

/// The colour that is laid over the background below: the background of the
/// cell above, or the default background where that cell asks for the default.
pub open spec fn background_source(above: ColourAttribute, default_background: Colour) -> Option<
    Colour,
> {
    match above {
        ColourAttribute::Default => Some(default_background),
        _ => above.colour(),
    }
}

/// The attribute of a colour.
pub open spec fn paint(colour: Colour) -> ColourAttribute {
    ColourAttribute::TrueColourWithDefaultFallback(colour)
}

/// The colour that an attribute carries, or else another.
pub open spec fn colour_or(attribute: ColourAttribute, otherwise: Colour) -> Colour {
    match attribute.colour() {
        Some(colour) => colour,
        None => otherwise,
    }
}

/// An attribute after a colour has been laid over it: it stays where nothing
/// comes in. Otherwise it is the blend of what comes in over the colour that
/// the attribute carries, or over the default background where it carries none.
pub open spec fn laid_over<M: ColourMath>(
    math: M,
    before: ColourAttribute,
    source: Option<Colour>,
    default_background: Colour,
    opacity: Scalar,
) -> ColourAttribute {
    match source {
        None => before,
        Some(colour) => paint(math.blend_of(colour_or(before, default_background), colour, opacity)),
    }
}

/// An attribute after grading: it stays where it carries no colour, and is
/// the graded colour otherwise.
pub open spec fn graded_attribute<M: ColourMath>(
    math: M,
    before: ColourAttribute,
    saturation: Scalar,
    brightness: Scalar,
    hue: Scalar,
) -> ColourAttribute {
    match before.colour() {
        None => before,
        Some(colour) => paint(math.grade_of(colour, saturation, brightness, hue)),
    }
}

/// A cell after grading: both its colours are graded, and what it shows stays.
pub open spec fn graded_cell<M: ColourMath>(
    math: M,
    cell: CellView,
    saturation: Scalar,
    brightness: Scalar,
    hue: Scalar,
) -> CellView {
    CellView {
        text: cell.text,
        attrs: CellAttributes {
            foreground: graded_attribute(math, cell.attrs.foreground, saturation, brightness, hue),
            background: graded_attribute(math, cell.attrs.background, saturation, brightness, hue),
            style: cell.attrs.style,
        },
    }
}

/// A cell with one of its colours set anew.
pub open spec fn with_attribute(cell: CellView, kind: Kind, attribute: ColourAttribute) -> CellView {
    CellView {
        text: cell.text,
        attrs: match kind {
            Kind::Foreground => CellAttributes { foreground: attribute, ..cell.attrs },
            Kind::Background => CellAttributes { background: attribute, ..cell.attrs },
        },
    }
}

/// One of the colours of a cell.
pub open spec fn attribute_of(cell: CellView, kind: Kind) -> ColourAttribute {
    match kind {
        Kind::Foreground => cell.attrs.foreground,
        Kind::Background => cell.attrs.background,
    }
}

impl Blender {
    /// A blender with the given default background and opacity.
    pub fn new(default_background: Colour, opacity: Scalar) -> (blender: Blender)
        ensures
            blender.default_background == default_background,
            blender.opacity == opacity,
    {
        Blender { default_background, opacity }
    }

    /// The colour that an attribute carries. The default and an unresolved
    /// palette entry carry none.
    pub fn extract_colour(attribute: ColourAttribute) -> (colour: Option<Colour>)
        ensures
            colour == attribute.colour(),
    {
        match attribute {
            ColourAttribute::TrueColourWithPaletteFallback(colour, _) => Some(colour),
            ColourAttribute::TrueColourWithDefaultFallback(colour) => Some(colour),
            ColourAttribute::PaletteIndex(_) => None,
            ColourAttribute::Default => None,
        }
    }

    /// The colour of a cell that an incoming colour is laid over: the colour
    /// that the cell has there, or the default background where it has none.
    pub open spec fn destination(&self, cell: CellView, kind: Kind) -> Colour {
        colour_or(attribute_of(cell, kind), self.default_background)
    }

    /// Decides `destination`.
    pub fn destination_colour(&self, cell: &Cell, kind: Kind) -> (colour: Colour)
        ensures
            colour == self.destination(cell@, kind),
    {
        let current = match kind {
            Kind::Foreground => cell.attrs.foreground,
            Kind::Background => cell.attrs.background,
        };
        match Blender::extract_colour(current) {
            Some(colour) => colour,
            None => self.default_background,
        }
    }

    /// Gives one colour of a cell a new value, and leaves the rest of the cell.
    pub fn set_colour(cell: &mut Cell, kind: Kind, colour: Colour)
        ensures
            final(cell)@ == with_attribute(old(cell)@, kind, paint(colour)),
    {
        match kind {
            Kind::Foreground => {
                cell.attrs.foreground = ColourAttribute::TrueColourWithDefaultFallback(colour);
            },
            Kind::Background => {
                cell.attrs.background = ColourAttribute::TrueColourWithDefaultFallback(colour);
            },
        }
    }

    /// A cell after `source` has been laid over one of its colours.
    pub open spec fn blended_cell<M: ColourMath>(&self, math: M, cell: CellView, kind: Kind, source: Colour) -> CellView {
        with_attribute(
            cell,
            kind,
            laid_over(math, attribute_of(cell, kind), Some(source), self.default_background, self.opacity),
        )
    }

    /// Lays `source` over one colour of `cell`: that colour becomes the
    /// blend of `source`, at the opacity of the blender, over the colour
    /// that the cell had there, or over the default background where it had
    /// none. The rest of the cell stays.
    pub fn blend<M: ColourMath>(&self, cell: &mut Cell, kind: Kind, source: Colour, math: &M)
        ensures
            final(cell)@ == self.blended_cell(*math, old(cell)@, kind, source),
    {
        let destination = self.destination_colour(cell, kind);
        let result = math.blend(destination, source, self.opacity);
        Blender::set_colour(cell, kind, result);
    }

    /// A cell after both colours of the cell above have been laid over its own.
    pub open spec fn all_blended<M: ColourMath>(&self, math: M, cell: CellView, above: CellView) -> CellView {
        CellView {
            text: cell.text,
            attrs: CellAttributes {
                foreground: laid_over(
                    math,
                    cell.attrs.foreground,
                    above.attrs.foreground.colour(),
                    self.default_background,
                    self.opacity,
                ),
                background: laid_over(
                    math,
                    cell.attrs.background,
                    background_source(above.attrs.background, self.default_background),
                    self.default_background,
                    self.opacity,
                ),
                style: cell.attrs.style,
            },
        }
    }

    /// Lays both colours of `above` over those of `cell`. A colour that
    /// `above` does not carry leaves the cell's colour as it is, but for a
    /// default background, which comes in as the default background colour.
    pub fn blend_all<M: ColourMath>(&self, cell: &mut Cell, above: &Cell, math: &M)
        ensures
            final(cell)@ == self.all_blended(*math, old(cell)@, above@),
    {
        let background = match above.attrs.background {
            ColourAttribute::Default => Some(self.default_background),
            other => Blender::extract_colour(other),
        };
        if let Some(colour) = background {
            self.blend(cell, Kind::Background, colour, math);
        }
        if let Some(colour) = Blender::extract_colour(above.attrs.foreground) {
            self.blend(cell, Kind::Foreground, colour, math);
        }
    }

    /// Whether the contrast of a cell is left alone: it is, where only what
    /// can be read counts and the cell holds nothing to read, and where the
    /// cell has no foreground colour to adjust.
    pub open spec fn leaves_contrast(cell: CellView, readable_only: bool) -> bool {
        (readable_only && is_unreadable(cell.text)) || cell.attrs.foreground.colour() is None
    }

    /// The two colours whose contrast is measured: the foreground of the
    /// cell, and its background or else the default background. There are
    /// none where the contrast of the cell is left alone.
    pub open spec fn contrast_pair(&self, cell: CellView, readable_only: bool) -> Option<(Colour, Colour)> {
        if Blender::leaves_contrast(cell, readable_only) {
            None
        } else {
            Some((cell.attrs.foreground.colour()->0, self.destination(cell, Kind::Background)))
        }
    }

    /// Decides `contrast_pair`.
    pub fn contrast_colours(&self, cell: &Cell, readable_only: bool) -> (pair: Option<(Colour, Colour)>)
        ensures
            pair == self.contrast_pair(cell@, readable_only),
    {
        if readable_only && cell.is_unreadable() {
            return None;
        }
        let Some(foreground) = Blender::extract_colour(cell.attrs.foreground) else {
            return None;
        };
        Some((foreground, self.destination_colour(cell, Kind::Background)))
    }

    /// A cell after its contrast has been secured: where the contrast is
    /// not left alone, the foreground is what the arithmetic makes of the
    /// two colours of `contrast_pair` and the target.
    pub open spec fn contrasted<M: ColourMath>(&self, math: M, cell: CellView, target: Scalar, readable_only: bool) -> CellView {
        match self.contrast_pair(cell, readable_only) {
            None => cell,
            Some(pair) => with_attribute(
                cell,
                Kind::Foreground,
                paint(math.readable_of(pair.0, pair.1, target)),
            ),
        }
    }

    /// Moves the foreground of `cell` away from its background until the two
    /// are `target` apart in contrast. The background that a cell does not
    /// name is the default background. A cell without a foreground colour is
    /// left alone, and so is a cell with nothing to read where only what can
    /// be read counts.
    pub fn ensure_readable_contrast<M: ColourMath>(
        &self,
        cell: &mut Cell,
        target: Scalar,
        readable_only: bool,
        math: &M,
    )
        ensures
            final(cell)@ == self.contrasted(*math, old(cell)@, target, readable_only),
    {
        let Some((foreground, background)) = self.contrast_colours(cell, readable_only) else {
            return ;
        };
        let adjusted = math.readable_foreground(foreground, background, target);
        Blender::set_colour(cell, Kind::Foreground, adjusted);
    }

    /// Adjusts saturation, brightness and hue of both colours of `cell`.
    pub fn grade<M: ColourMath>(
        cell: &mut Cell,
        saturation: Scalar,
        brightness: Scalar,
        hue: Scalar,
        math: &M,
    )
        ensures
            final(cell)@ == graded_cell(*math, old(cell)@, saturation, brightness, hue),
    {
        if let Some(colour) = Blender::extract_colour(cell.attrs.foreground) {
            let graded = math.grade(colour, saturation, brightness, hue);
            cell.attrs.foreground = ColourAttribute::TrueColourWithDefaultFallback(graded);
        }
        if let Some(colour) = Blender::extract_colour(cell.attrs.background) {
            let graded = math.grade(colour, saturation, brightness, hue);
            cell.attrs.background = ColourAttribute::TrueColourWithDefaultFallback(graded);
        }
    }
}

} // verus!
