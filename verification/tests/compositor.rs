use tattoy::blender::Blender;
use tattoy::blender::Kind;
use tattoy::cell::Cell;
use tattoy::cell::CellAttributes;
use tattoy::colour::Colour;
use tattoy::colour::ColourAttribute;
use tattoy::colour::ColourMath;
use tattoy::compositor::Axis;
use tattoy::compositor::Compositor;
use tattoy::compositor::CoordError;
use tattoy::grid::Grid;
use tattoy::scalar::Scalar;

fn number(scalar: Scalar) -> f32 {
    f32::from_bits(scalar.to_bits())
}

fn scalar(value: f32) -> Scalar {
    Scalar::from_bits(value.to_bits())
}

fn colour(red: f32, green: f32, blue: f32, alpha: f32) -> Colour {
    Colour::from_bits(red.to_bits(), green.to_bits(), blue.to_bits(), alpha.to_bits())
}

fn paint(colour: Colour) -> ColourAttribute {
    ColourAttribute::TrueColourWithDefaultFallback(colour)
}

fn cell(character: char, foreground: ColourAttribute, background: ColourAttribute, style: u32) -> Cell {
    Cell::new(character, CellAttributes { foreground, background, style })
}

struct Maths;

impl ColourMath for Maths {
    fn blend_of(&self, destination: Colour, source: Colour, opacity: Scalar) -> Colour {
        self.blend(destination, source, opacity)
    }

    fn mix_of(&self, first: Colour, second: Colour) -> Colour {
        self.mix(first, second)
    }

    fn readable_of(&self, foreground: Colour, background: Colour, target: Scalar) -> Colour {
        self.readable_foreground(foreground, background, target)
    }

    fn grade_of(&self, colour: Colour, saturation: Scalar, brightness: Scalar, hue: Scalar) -> Colour {
        self.grade(colour, saturation, brightness, hue)
    }

    fn blend(&self, destination: Colour, source: Colour, opacity: Scalar) -> Colour {
        let alpha = number(source.alpha) * number(opacity);
        let mix = |below: Scalar, above: Scalar| scalar(number(below) * (1.0 - alpha) + number(above) * alpha);
        Colour::new(
            mix(destination.red, source.red),
            mix(destination.green, source.green),
            mix(destination.blue, source.blue),
            scalar(number(destination.alpha) + alpha * (1.0 - number(destination.alpha))),
        )
    }

    fn mix(&self, first: Colour, second: Colour) -> Colour {
        let half = |left: Scalar, right: Scalar| scalar((number(left) + number(right)) / 2.0);
        Colour::new(
            half(first.red, second.red),
            half(first.green, second.green),
            half(first.blue, second.blue),
            half(first.alpha, second.alpha),
        )
    }

    fn readable_foreground(&self, _foreground: Colour, background: Colour, target: Scalar) -> Colour {
        Colour::new(target, background.green, background.blue, scalar(1.0))
    }

    fn grade(&self, colour: Colour, saturation: Scalar, brightness: Scalar, hue: Scalar) -> Colour {
        Colour::new(saturation, brightness, hue, colour.alpha)
    }
}

const BLACK: (f32, f32, f32, f32) = (0.0, 0.0, 0.0, 1.0);

fn black() -> Colour {
    colour(BLACK.0, BLACK.1, BLACK.2, BLACK.3)
}

fn white() -> Colour {
    colour(1.0, 1.0, 1.0, 1.0)
}

fn red() -> Colour {
    colour(1.0, 0.0, 0.0, 1.0)
}

#[test]
fn colours_are_extracted_from_true_colours_only() {
    assert_eq!(Blender::extract_colour(ColourAttribute::Default), None);
    assert_eq!(Blender::extract_colour(ColourAttribute::PaletteIndex(3)), None);
    assert_eq!(Blender::extract_colour(paint(red())), Some(red()));
    assert_eq!(
        Blender::extract_colour(ColourAttribute::TrueColourWithPaletteFallback(white(), 15)),
        Some(white())
    );
}

#[test]
fn blending_lays_a_colour_over_one_colour_of_a_cell() {
    let blender = Blender::new(black(), scalar(0.5));
    let mut below = cell('a', paint(white()), ColourAttribute::Default, 3);
    blender.blend(&mut below, Kind::Background, red(), &Maths);
    assert_eq!(below.str(), "a");
    assert_eq!(below.attrs().foreground(), paint(white()));
    assert_eq!(below.attrs().background(), paint(colour(0.5, 0.0, 0.0, 1.0)));
    assert_eq!(below.attrs().style, 3);
    blender.blend(&mut below, Kind::Foreground, red(), &Maths);
    assert_eq!(below.attrs().foreground(), paint(colour(1.0, 0.5, 0.5, 1.0)));
}

#[test]
fn blending_all_takes_the_default_background_for_a_default() {
    let blender = Blender::new(colour(0.0, 0.0, 1.0, 1.0), scalar(1.0));
    let mut below = cell('a', ColourAttribute::PaletteIndex(1), paint(red()), 0);
    let above = cell(' ', ColourAttribute::Default, ColourAttribute::Default, 0);
    blender.blend_all(&mut below, &above, &Maths);
    assert_eq!(below.attrs().foreground(), ColourAttribute::PaletteIndex(1));
    assert_eq!(below.attrs().background(), paint(colour(0.0, 0.0, 1.0, 1.0)));
    let mut kept = cell('a', paint(white()), paint(red()), 0);
    let unresolved = cell(' ', ColourAttribute::PaletteIndex(2), ColourAttribute::PaletteIndex(3), 0);
    blender.blend_all(&mut kept, &unresolved, &Maths);
    assert_eq!(kept.attrs().foreground(), paint(white()));
    assert_eq!(kept.attrs().background(), paint(red()));
}

#[test]
fn text_takes_the_place_of_anything() {
    for below_character in [' ', 'x', '\u{2580}', '\u{2584}'] {
        let mut below = cell(below_character, paint(white()), paint(black()), 1);
        let above = cell('a', paint(red()), paint(colour(0.0, 1.0, 0.0, 1.0)), 9);
        Compositor::composite_cells(&mut below, &above, scalar(1.0), black(), &Maths);
        assert_eq!(below.str(), "a");
        assert_eq!(below.attrs().style, 9);
        assert_eq!(below.attrs().foreground(), paint(red()));
        assert_eq!(below.attrs().background(), paint(colour(0.0, 1.0, 0.0, 1.0)));
    }
}

#[test]
fn only_the_first_character_of_text_is_taken() {
    let mut below = Cell::blank();
    let above = Cell::new_grapheme("e\u{301}", CellAttributes::blank());
    Compositor::composite_cells(&mut below, &above, scalar(1.0), black(), &Maths);
    assert_eq!(below.str(), "e");
}

#[test]
fn a_pixel_takes_the_place_of_what_is_no_pixel() {
    for below_character in [' ', 'x'] {
        let mut below = cell(below_character, paint(white()), paint(black()), 1);
        let above = cell('\u{2584}', paint(red()), ColourAttribute::PaletteIndex(4), 2);
        Compositor::composite_cells(&mut below, &above, scalar(0.5), black(), &Maths);
        assert_eq!(below.str(), "\u{2584}");
        assert_eq!(below.attrs().style, 2);
        assert_eq!(below.attrs().foreground(), paint(colour(1.0, 0.5, 0.5, 1.0)));
        assert_eq!(below.attrs().background(), paint(black()));
    }
}

#[test]
fn a_pixel_over_a_pixel_keeps_the_glyph_below() {
    let mut below = cell('\u{2580}', paint(white()), paint(black()), 1);
    let above = cell('\u{2584}', paint(red()), paint(red()), 2);
    Compositor::composite_cells(&mut below, &above, scalar(1.0), black(), &Maths);
    assert_eq!(below.str(), "\u{2580}");
    assert_eq!(below.attrs().style, 1);
    assert_eq!(below.attrs().foreground(), paint(red()));
    assert_eq!(below.attrs().background(), paint(red()));
}

#[test]
fn a_lower_half_under_an_upper_half_becomes_an_upper_half() {
    let mut below = cell('\u{2584}', paint(white()), paint(black()), 1);
    let above = cell('\u{2580}', paint(red()), ColourAttribute::PaletteIndex(0), 2);
    Compositor::composite_cells(&mut below, &above, scalar(1.0), black(), &Maths);
    assert_eq!(below.str(), "\u{2580}");
    assert_eq!(below.attrs().style, 1);
    assert_eq!(below.attrs().foreground(), paint(red()));
    assert_eq!(below.attrs().background(), paint(black()));
}

#[test]
fn nothing_above_leaves_the_glyph_below() {
    for above_text in ["", " "] {
        let mut below = cell('q', paint(white()), paint(black()), 1);
        let above = Cell { text: above_text.to_owned(), attrs: CellAttributes::blank() };
        Compositor::composite_cells(&mut below, &above, scalar(1.0), red(), &Maths);
        assert_eq!(below.str(), "q");
        assert_eq!(below.attrs().style, 1);
        assert_eq!(below.attrs().foreground(), paint(white()));
        assert_eq!(below.attrs().background(), paint(red()));
    }
}

#[test]
fn only_the_foreground_is_taken_for_text() {
    let above = cell('\u{2580}', paint(red()), paint(white()), 7);
    let mut text = cell('a', paint(white()), paint(black()), 1);
    Compositor::composite_fg_colour_only(&mut text, &above, black(), &Maths);
    assert_eq!(text.str(), "a");
    assert_eq!(text.attrs().foreground(), paint(red()));
    assert_eq!(text.attrs().background(), paint(black()));
    assert_eq!(text.attrs().style, 1);
    for unreadable in [' ', '\u{2580}', '\u{2584}', '\t'] {
        let mut skipped = Cell { text: unreadable.to_string(), attrs: text.attrs };
        let before = skipped.attrs;
        Compositor::composite_fg_colour_only(&mut skipped, &above, black(), &Maths);
        assert_eq!(skipped.attrs, before);
    }
    let colourless = cell('\u{2580}', ColourAttribute::Default, paint(white()), 7);
    let mut reset = cell('a', paint(white()), paint(black()), 1);
    Compositor::composite_fg_colour_only(&mut reset, &colourless, black(), &Maths);
    assert_eq!(reset.attrs().foreground(), ColourAttribute::Default);
}

#[test]
fn a_cursor_pixel_goes_into_the_background() {
    let mut text = cell('a', paint(white()), paint(black()), 1);
    let both = cell('\u{2580}', paint(red()), paint(colour(0.0, 0.0, 1.0, 1.0)), 0);
    Compositor::blend_cursor_pixel_into_text(&mut text, &both, scalar(1.0), black(), &Maths);
    assert_eq!(text.str(), "a");
    assert_eq!(text.attrs().foreground(), paint(white()));
    assert_eq!(text.attrs().background(), paint(colour(0.5, 0.0, 0.5, 1.0)));
    let mut text = cell('a', paint(white()), paint(black()), 1);
    let upper = cell('\u{2580}', paint(red()), ColourAttribute::Default, 0);
    Compositor::blend_cursor_pixel_into_text(&mut text, &upper, scalar(0.5), black(), &Maths);
    assert_eq!(text.attrs().background(), paint(colour(0.5, 0.0, 0.0, 1.0)));
    let mut text = cell('a', paint(white()), paint(black()), 1);
    let neither = cell(' ', ColourAttribute::Default, ColourAttribute::PaletteIndex(1), 0);
    Compositor::blend_cursor_pixel_into_text(&mut text, &neither, scalar(0.5), black(), &Maths);
    assert_eq!(text.attrs().background(), paint(black()));
}

#[test]
fn contrast_is_left_alone_where_nothing_is_to_be_read() {
    let target = scalar(0.25);
    let mut text = cell('a', paint(white()), paint(black()), 1);
    Compositor::auto_text_contrast(&mut text, target, true, red(), &Maths);
    assert_eq!(text.attrs().foreground(), paint(colour(0.25, 0.0, 0.0, 1.0)));
    assert_eq!(text.attrs().background(), paint(black()));
    let mut pixel = cell('\u{2580}', paint(white()), paint(black()), 1);
    Compositor::auto_text_contrast(&mut pixel, target, true, red(), &Maths);
    assert_eq!(pixel.attrs().foreground(), paint(white()));
    Compositor::auto_text_contrast(&mut pixel, target, false, red(), &Maths);
    assert_eq!(pixel.attrs().foreground(), paint(colour(0.25, 0.0, 0.0, 1.0)));
    let mut bare = cell('a', paint(white()), ColourAttribute::Default, 1);
    Compositor::auto_text_contrast(&mut bare, target, true, red(), &Maths);
    assert_eq!(bare.attrs().foreground(), paint(colour(0.25, 0.0, 0.0, 1.0)));
    let mut colourless = cell('a', ColourAttribute::Default, paint(black()), 1);
    Compositor::auto_text_contrast(&mut colourless, target, false, red(), &Maths);
    assert_eq!(colourless.attrs().foreground(), ColourAttribute::Default);
}

#[test]
fn grading_changes_colours_only() {
    let mut graded = cell('a', paint(white()), ColourAttribute::Default, 1);
    Blender::grade(&mut graded, scalar(0.1), scalar(0.2), scalar(0.3), &Maths);
    assert_eq!(graded.str(), "a");
    assert_eq!(graded.attrs().foreground(), paint(colour(0.1, 0.2, 0.3, 1.0)));
    assert_eq!(graded.attrs().background(), ColourAttribute::Default);
}

#[test]
fn cells_are_found_by_their_coordinates() {
    let mut cells = Grid::new(3, 2);
    cells.set(2, 1, Cell::new('z', CellAttributes::blank()));
    assert_eq!(Compositor::get_cell(&cells, 2, 1).unwrap().str(), "z");
    assert_eq!(Compositor::get_cell(&cells, 3, 1).unwrap_err(), CoordError { axis: Axis::X, coord: 3 });
    assert_eq!(Compositor::get_cell(&cells, 0, 2).unwrap_err(), CoordError { axis: Axis::Y, coord: 2 });
    assert_eq!(Compositor::get_cell(&cells, 9, 9).unwrap_err(), CoordError { axis: Axis::Y, coord: 9 });
    *Compositor::get_cell_mut(&mut cells, 0, 0).unwrap() = Cell::new('a', CellAttributes::blank());
    assert_eq!(cells.get(0, 0).unwrap().str(), "a");
    assert_eq!(
        Compositor::get_cell_mut(&mut cells, 3, 0).unwrap_err(),
        CoordError { axis: Axis::X, coord: 3 }
    );
}

#[test]
fn a_missing_cell_is_named_in_words() {
    assert_eq!(Compositor::no_coord_error_message("x", 5), "No x coord (5) for cell");
    assert_eq!(Compositor::no_coord_error_message("y", 120), "No y coord (120) for cell");
    assert_eq!(CoordError { axis: Axis::Y, coord: 0 }.message(), "No y coord (0) for cell");
    assert_eq!(CoordError { axis: Axis::X, coord: 65535 }.message(), "No x coord (65535) for cell");
}

#[test]
fn the_indicator_is_composited_onto_one_cell() {
    let mut cells = Grid::new(3, 2);
    let indicator = cell('\u{2580}', paint(colour(0.0, 0.2, 0.6, 0.5)), ColourAttribute::PaletteIndex(0), 0);
    assert_eq!(Compositor::add_indicator(&mut cells, &indicator, 2, 0, black(), &Maths), Ok(()));
    assert_eq!(cells.get(2, 0).unwrap().str(), "\u{2580}");
    assert_eq!(cells.get(2, 0).unwrap().attrs().foreground(), paint(colour(0.0, 0.1, 0.3, 1.0)));
    assert_eq!(cells.get(1, 0).unwrap().str(), " ");
    assert_eq!(
        Compositor::add_indicator(&mut cells, &indicator, 3, 0, black(), &Maths),
        Err(CoordError { axis: Axis::X, coord: 3 })
    );
}

#[test]
fn a_half_block_under_the_cursor_gives_way() {
    let mut cells = Grid::new(2, 2);
    cells.set(0, 0, cell('\u{2580}', paint(red()), paint(black()), 4));
    cells.set(1, 0, cell('\u{2584}', paint(red()), paint(black()), 4));
    cells.set(0, 1, cell('a', paint(red()), paint(black()), 4));
    Compositor::clean_cursor_cell(&mut cells, 0, 0);
    Compositor::clean_cursor_cell(&mut cells, 1, 0);
    Compositor::clean_cursor_cell(&mut cells, 0, 1);
    Compositor::clean_cursor_cell(&mut cells, 7, 7);
    assert_eq!(cells.get(0, 0).unwrap().str(), " ");
    assert_eq!(cells.get(1, 0).unwrap().str(), " ");
    assert_eq!(cells.get(0, 1).unwrap().str(), "a");
    assert_eq!(cells.get(0, 0).unwrap().attrs().foreground(), paint(red()));
    assert_eq!(cells.get(0, 0).unwrap().attrs().style, 4);
    assert_eq!(cells.get(1, 1).unwrap().str(), " ");
}

#[test]
fn the_pieces_of_a_blend_are_exact() {
    let blender = Blender::new(red(), scalar(0.5));
    let bare = cell('a', paint(white()), ColourAttribute::Default, 3);
    assert_eq!(blender.destination_colour(&bare, Kind::Foreground), white());
    assert_eq!(blender.destination_colour(&bare, Kind::Background), red());
    assert_eq!(blender.contrast_colours(&bare, true), Some((white(), red())));
    let blank = cell(' ', paint(white()), paint(black()), 3);
    assert_eq!(blender.contrast_colours(&blank, true), None);
    assert_eq!(blender.contrast_colours(&blank, false), Some((white(), black())));
    let colourless = cell('a', ColourAttribute::PaletteIndex(1), paint(black()), 3);
    assert_eq!(blender.contrast_colours(&colourless, false), None);
    let mut painted = cell('a', paint(white()), ColourAttribute::Default, 3);
    Blender::set_colour(&mut painted, Kind::Background, black());
    assert_eq!(painted.str(), "a");
    assert_eq!(
        *painted.attrs(),
        CellAttributes { foreground: paint(white()), background: paint(black()), style: 3 }
    );
}

#[test]
fn a_glyph_is_placed_before_the_colours_are_blended() {
    let mut below = cell('x', paint(white()), paint(black()), 1);
    let above = cell('\u{2584}', paint(red()), ColourAttribute::Default, 2);
    Compositor::place_glyph(&mut below, &above);
    assert_eq!(below.str(), "\u{2584}");
    assert_eq!(*below.attrs(), CellAttributes { foreground: paint(white()), background: paint(black()), style: 2 });
    let upper = cell('\u{2580}', paint(red()), ColourAttribute::Default, 5);
    Compositor::place_glyph(&mut below, &upper);
    assert_eq!(below.str(), "\u{2584}");
    assert_eq!(below.attrs().style, 2);
    Compositor::canonicalise(&mut below, &upper);
    assert_eq!(below.str(), "\u{2580}");
    assert_eq!(below.attrs().style, 2);
    Compositor::canonicalise(&mut below, &above);
    assert_eq!(below.str(), "\u{2580}");
}
