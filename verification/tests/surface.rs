use tattoy::cell::Cell;
use tattoy::cell::CellAttributes;
use tattoy::cell::Glyph;
use tattoy::colour::Colour;
use tattoy::colour::ColourAttribute;
use tattoy::colour::ColourMath;
use tattoy::compositor::Axis;
use tattoy::compositor::CoordError;
use tattoy::scalar::Scalar;
use tattoy::surface::Surface;

fn number(scalar: Scalar) -> f32 {
    f32::from_bits(scalar.to_bits())
}

fn scalar(value: f32) -> Scalar {
    Scalar::from_bits(value.to_bits())
}

fn colour(red: f32, green: f32, blue: f32, alpha: f32) -> Colour {
    Colour::from_bits(red.to_bits(), green.to_bits(), blue.to_bits(), alpha.to_bits())
}

fn paint(colour: Colour) -> ColourAttribute {
    ColourAttribute::TrueColourWithDefaultFallback(colour)
}

struct Maths;

impl ColourMath for Maths {
    fn blend_of(&self, destination: Colour, source: Colour, opacity: Scalar) -> Colour {
        self.blend(destination, source, opacity)
    }

    fn mix_of(&self, first: Colour, second: Colour) -> Colour {
        self.mix(first, second)
    }

    fn readable_of(&self, foreground: Colour, background: Colour, target: Scalar) -> Colour {
        self.readable_foreground(foreground, background, target)
    }

    fn grade_of(&self, colour: Colour, saturation: Scalar, brightness: Scalar, hue: Scalar) -> Colour {
        self.grade(colour, saturation, brightness, hue)
    }

    fn blend(&self, destination: Colour, source: Colour, opacity: Scalar) -> Colour {
        let alpha = number(source.alpha) * number(opacity);
        let mix = |below: Scalar, above: Scalar| scalar(number(below) * (1.0 - alpha) + number(above) * alpha);
        Colour::new(
            mix(destination.red, source.red),
            mix(destination.green, source.green),
            mix(destination.blue, source.blue),
            scalar(number(destination.alpha) + alpha * (1.0 - number(destination.alpha))),
        )
    }

    fn mix(&self, first: Colour, second: Colour) -> Colour {
        let half = |left: Scalar, right: Scalar| scalar((number(left) + number(right)) / 2.0);
        Colour::new(
            half(first.red, second.red),
            half(first.green, second.green),
            half(first.blue, second.blue),
            half(first.alpha, second.alpha),
        )
    }

    fn readable_foreground(&self, foreground: Colour, _background: Colour, _target: Scalar) -> Colour {
        foreground
    }

    fn grade(&self, colour: Colour, _saturation: Scalar, _brightness: Scalar, _hue: Scalar) -> Colour {
        colour
    }
}

fn surface(width: usize, height: usize) -> Surface {
    Surface::new("test".to_owned(), width, height, -1, scalar(1.0))
}

#[test]
fn a_new_surface_is_blank() {
    let surface = Surface::new("logo".to_owned(), 3, 2, 7, scalar(0.5));
    assert_eq!(surface.id, "logo");
    assert_eq!((surface.width, surface.height), (3, 2));
    assert_eq!(surface.layer, 7);
    assert_eq!(surface.opacity, scalar(0.5));
    assert_eq!(surface.grid.dimensions(), (3, 2));
    for y in 0..2 {
        for x in 0..3 {
            let cell = surface.grid.get(x, y).unwrap();
            assert_eq!(cell.str(), " ");
            assert_eq!(*cell.attrs(), CellAttributes::blank());
        }
    }
    assert!(surface.grid.get(3, 0).is_none());
    assert!(surface.grid.get(0, 2).is_none());
}

#[test]
fn cells_show_control_characters_as_spaces() {
    assert_eq!(Cell::new('a', CellAttributes::blank()).str(), "a");
    assert_eq!(Cell::new('\n', CellAttributes::blank()).str(), " ");
    assert_eq!(Cell::new('\u{7f}', CellAttributes::blank()).str(), " ");
    assert_eq!(Cell::new_grapheme("", CellAttributes::blank()).str(), " ");
    assert_eq!(Cell::new_grapheme("\r\n", CellAttributes::blank()).str(), " ");
    assert_eq!(Cell::new_grapheme("\t", CellAttributes::blank()).str(), " ");
    assert_eq!(Cell::new_grapheme("e\u{301}", CellAttributes::blank()).str(), "e\u{301}");
    assert_eq!(Cell::blank().str(), " ");
}

#[test]
fn cells_know_what_they_show() {
    assert_eq!(Cell::blank().glyph(), Glyph::Empty);
    assert_eq!(Cell::new('\u{2580}', CellAttributes::blank()).glyph(), Glyph::UpperHalf);
    assert_eq!(Cell::new('\u{2584}', CellAttributes::blank()).glyph(), Glyph::LowerHalf);
    assert_eq!(Cell::new('x', CellAttributes::blank()).glyph(), Glyph::Text);
    assert_eq!(Cell::new_grapheme("\u{2580}\u{301}", CellAttributes::blank()).glyph(), Glyph::Text);
    assert!(Cell::blank().is_unreadable());
    assert!(Cell::new('\u{2584}', CellAttributes::blank()).is_unreadable());
    assert!(Cell::new('\u{a0}', CellAttributes::blank()).is_unreadable());
    assert!(!Cell::new('x', CellAttributes::blank()).is_unreadable());
    assert_eq!(Cell::new_grapheme("e\u{301}", CellAttributes::blank()).first_character(), 'e');
}

#[test]
fn text_is_written_one_character_to_a_cell() {
    let mut surface = surface(4, 2);
    let background = colour(0.2, 0.2, 0.2, 0.8);
    let foreground = colour(0.0, 0.0, 0.0, 1.0);
    surface.add_text(1, 1, "ab".to_owned(), Some(background), Some(foreground));
    assert_eq!(surface.grid.get(0, 1).unwrap().str(), " ");
    assert_eq!(surface.grid.get(1, 1).unwrap().str(), "a");
    assert_eq!(surface.grid.get(2, 1).unwrap().str(), "b");
    assert_eq!(surface.grid.get(3, 1).unwrap().str(), " ");
    let attrs = *surface.grid.get(2, 1).unwrap().attrs();
    assert_eq!(attrs.foreground, paint(foreground));
    assert_eq!(attrs.background, paint(background));
    assert_eq!(*surface.grid.get(1, 0).unwrap().attrs(), CellAttributes::blank());
}

#[test]
fn text_that_does_not_fit_is_left_out() {
    let mut surface = surface(3, 1);
    surface.add_text(1, 0, "wxyz".to_owned(), None, None);
    assert_eq!(surface.grid.get(0, 0).unwrap().str(), " ");
    assert_eq!(surface.grid.get(1, 0).unwrap().str(), "w");
    assert_eq!(surface.grid.get(2, 0).unwrap().str(), "x");
    assert_eq!(surface.grid.get(2, 0).unwrap().attrs().foreground(), ColourAttribute::Default);
    surface.add_text(0, 5, "below".to_owned(), None, None);
    surface.add_text(9, 0, "right".to_owned(), None, None);
    assert_eq!(surface.grid.get(0, 0).unwrap().str(), " ");
}

#[test]
fn an_upper_pixel_is_an_upper_half_block() {
    let mut surface = surface(2, 2);
    let red = colour(1.0, 0.0, 0.0, 1.0);
    assert_eq!(surface.add_pixel(1, 2, red, &Maths), Ok(()));
    let cell = surface.grid.get(1, 1).unwrap();
    assert_eq!(cell.str(), "\u{2580}");
    assert_eq!(cell.attrs().foreground(), paint(red));
    assert_eq!(cell.attrs().background(), ColourAttribute::Default);
    assert_eq!(surface.grid.get(0, 1).unwrap().str(), " ");
}

#[test]
fn a_lower_pixel_alone_is_a_lower_half_block() {
    let mut surface = surface(2, 2);
    let blue = colour(0.0, 0.0, 1.0, 1.0);
    assert_eq!(surface.add_pixel(0, 1, blue, &Maths), Ok(()));
    let cell = surface.grid.get(0, 0).unwrap();
    assert_eq!(cell.str(), "\u{2584}");
    assert_eq!(cell.attrs().foreground(), paint(blue));
    assert_eq!(cell.attrs().background(), ColourAttribute::Default);
}

#[test]
fn two_pixels_share_a_cell() {
    let red = colour(1.0, 0.0, 0.0, 1.0);
    let blue = colour(0.0, 0.0, 1.0, 0.5);
    for upper_first in [true, false] {
        let mut surface = surface(3, 3);
        if upper_first {
            surface.add_pixel(2, 4, red, &Maths).unwrap();
            surface.add_pixel(2, 5, blue, &Maths).unwrap();
        } else {
            surface.add_pixel(2, 5, blue, &Maths).unwrap();
            surface.add_pixel(2, 4, red, &Maths).unwrap();
        }
        let cell = surface.grid.get(2, 2).unwrap();
        assert_eq!(cell.str(), "\u{2580}");
        assert_eq!(cell.attrs().foreground(), paint(red));
        assert_eq!(cell.attrs().background(), paint(blue));
    }
}

#[test]
fn a_pixel_replaces_the_pixel_of_its_half() {
    let mut surface = surface(1, 1);
    let red = colour(1.0, 0.0, 0.0, 1.0);
    let green = colour(0.0, 1.0, 0.0, 1.0);
    let blue = colour(0.0, 0.0, 1.0, 1.0);
    surface.add_pixel(0, 0, red, &Maths).unwrap();
    surface.add_pixel(0, 1, blue, &Maths).unwrap();
    surface.add_pixel(0, 0, green, &Maths).unwrap();
    let cell = surface.grid.get(0, 0).unwrap();
    assert_eq!(cell.str(), "\u{2580}");
    assert_eq!(cell.attrs().foreground(), paint(green));
    assert_eq!(cell.attrs().background(), paint(blue));
}

#[test]
fn a_pixel_on_text_goes_behind_the_text() {
    let mut surface = surface(2, 1);
    let white = colour(1.0, 1.0, 1.0, 1.0);
    let grey = colour(0.5, 0.5, 0.5, 1.0);
    let red = colour(1.0, 0.0, 0.0, 0.5);
    surface.add_text(0, 0, "a".to_owned(), None, Some(white));
    surface.add_text(1, 0, "b".to_owned(), Some(grey), Some(white));
    surface.add_pixel(0, 0, red, &Maths).unwrap();
    surface.add_pixel(1, 1, red, &Maths).unwrap();
    let bare = surface.grid.get(0, 0).unwrap();
    assert_eq!(bare.str(), "a");
    assert_eq!(bare.attrs().foreground(), paint(white));
    assert_eq!(bare.attrs().background(), paint(red));
    let backed = surface.grid.get(1, 0).unwrap();
    assert_eq!(backed.str(), "b");
    assert_eq!(backed.attrs().foreground(), paint(white));
    assert_eq!(backed.attrs().background(), paint(colour(0.75, 0.25, 0.25, 1.0)));
}

#[test]
fn a_pixel_outside_the_surface_is_an_error() {
    let mut surface = surface(2, 2);
    let red = colour(1.0, 0.0, 0.0, 1.0);
    assert_eq!(surface.add_pixel(0, 4, red, &Maths), Err(CoordError { axis: Axis::Y, coord: 4 }));
    assert_eq!(surface.add_pixel(2, 3, red, &Maths), Err(CoordError { axis: Axis::X, coord: 2 }));
    assert_eq!(surface.add_pixel(5, 9, red, &Maths), Err(CoordError { axis: Axis::Y, coord: 9 }));
    assert_eq!(surface.add_pixel(1, 3, red, &Maths), Ok(()));
}

#[test]
fn a_copy_of_a_surface_shows_the_same() {
    let mut surface = surface(2, 2);
    surface.add_text(0, 1, "hi".to_owned(), None, Some(colour(1.0, 1.0, 1.0, 1.0)));
    let copy = surface.duplicate();
    assert_eq!(copy.id, "test");
    assert_eq!(copy.grid.get(1, 1).unwrap().str(), "i");
    assert_eq!(copy.grid.get(1, 1).unwrap().attrs(), surface.grid.get(1, 1).unwrap().attrs());
}

#[test]
fn the_attributes_of_a_cell_can_be_changed_in_place() {
    let mut cell = Cell::new('a', CellAttributes::blank());
    let red = colour(1.0, 0.0, 0.0, 1.0);
    cell.attrs_mut().set_foreground(paint(red));
    cell.attrs_mut().set_background(ColourAttribute::PaletteIndex(4));
    assert_eq!(cell.str(), "a");
    assert_eq!(cell.attrs().foreground(), paint(red));
    assert_eq!(cell.attrs().background(), ColourAttribute::PaletteIndex(4));
    let copy = cell.clone();
    assert_eq!(copy.str(), "a");
    assert_eq!(copy.attrs(), cell.attrs());
}
