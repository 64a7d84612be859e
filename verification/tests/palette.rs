use tattoy::cell::Cell;
use tattoy::cell::CellAttributes;
use tattoy::colour::Colour;
use tattoy::colour::ColourAttribute;
use tattoy::grid::Grid;
use tattoy::output::Change;
use tattoy::output::CompleteScreen;
use tattoy::output::CompleteSurface;
use tattoy::output::Output;
use tattoy::output::ScreenDiff;
use tattoy::output::ScreenMode;
use tattoy::output::SurfaceDiff;
use tattoy::palette::converter::Palette;
use tattoy::palette::main::PaletteHashMap;
use tattoy::palette::parser::Parser;
use tattoy::palette::parser::ScreenshotChoice;

fn colour(red: f32, green: f32, blue: f32, alpha: f32) -> Colour {
    Colour::from_bits(red.to_bits(), green.to_bits(), blue.to_bits(), alpha.to_bits())
}

fn rgb(red: u8, green: u8, blue: u8) -> Colour {
    colour(f32::from(red) / 255.0, f32::from(green) / 255.0, f32::from(blue) / 255.0, 1.0)
}

fn palette_of_indexes() -> Palette {
    let mut map = PaletteHashMap::new();
    for index in 0..=255u8 {
        map.insert(index.to_string().chars().collect(), (index, 255 - index, 7));
    }
    Palette { map }
}

fn attributes(foreground: ColourAttribute, background: ColourAttribute) -> CellAttributes {
    CellAttributes { foreground, background, style: 5 }
}

#[test]
fn palette_table_replaces_and_counts() {
    let mut map = PaletteHashMap::new();
    assert_eq!(map.len(), 0);
    map.insert("1".chars().collect(), (1, 2, 3));
    map.insert("foreground".chars().collect(), (4, 5, 6));
    map.insert("1".chars().collect(), (7, 8, 9));
    assert_eq!(map.len(), 2);
    assert_eq!(map.get("1"), Some((7, 8, 9)));
    assert_eq!(map.get("foreground"), Some((4, 5, 6)));
    assert_eq!(map.get("background"), None);
}

#[test]
fn an_index_becomes_its_true_colour() {
    let mut map = PaletteHashMap::new();
    map.insert("1".chars().collect(), (247, 118, 142));
    let palette = Palette { map };
    let expected = colour(247.0 / 255.0, 118.0 / 255.0, 142.0 / 255.0, 1.0);
    assert_eq!(palette.true_colour_tuple_from_index(1), expected);
    assert_eq!(
        palette.true_colour_attribute_from_index(1),
        ColourAttribute::TrueColourWithPaletteFallback(expected, 1)
    );
    assert_eq!(Palette::palette_colour_to_srgba((0, 255, 51)), colour(0.0, 1.0, 0.2, 1.0));
}

#[test]
fn default_colours_fall_back_to_indexes() {
    let palette = palette_of_indexes();
    assert_eq!(palette.foreground_colour(), rgb(7, 248, 7));
    assert_eq!(palette.background_colour(), rgb(0, 255, 7));
    let mut palette = palette_of_indexes();
    palette.map.insert("foreground".chars().collect(), (192, 202, 245));
    palette.map.insert("background".chars().collect(), (26, 27, 38));
    assert_eq!(palette.foreground_colour(), rgb(192, 202, 245));
    assert_eq!(palette.background_colour(), rgb(26, 27, 38));
}

#[test]
fn rewriting_resolves_every_palette_index() {
    let palette = palette_of_indexes();
    let mut resolved = attributes(ColourAttribute::PaletteIndex(9), ColourAttribute::PaletteIndex(200));
    palette.cell_attributes_to_true_colour(&mut resolved);
    assert_eq!(resolved.foreground, ColourAttribute::TrueColourWithPaletteFallback(rgb(9, 246, 7), 9));
    assert_eq!(resolved.background, ColourAttribute::TrueColourWithPaletteFallback(rgb(200, 55, 7), 200));
    assert_eq!(resolved.style, 5);
}

#[test]
fn rewriting_keeps_a_default_background_and_true_colours() {
    let palette = palette_of_indexes();
    let red = colour(1.0, 0.0, 0.0, 0.5);
    let mut resolved = attributes(ColourAttribute::Default, ColourAttribute::Default);
    palette.cell_attributes_to_true_colour(&mut resolved);
    assert_eq!(resolved.foreground, ColourAttribute::TrueColourWithDefaultFallback(rgb(7, 248, 7)));
    assert_eq!(resolved.background, ColourAttribute::Default);
    let mut kept = attributes(
        ColourAttribute::TrueColourWithDefaultFallback(red),
        ColourAttribute::TrueColourWithPaletteFallback(red, 3),
    );
    palette.cell_attributes_to_true_colour(&mut kept);
    assert_eq!(kept.foreground, ColourAttribute::TrueColourWithDefaultFallback(red));
    assert_eq!(kept.background, ColourAttribute::TrueColourWithPaletteFallback(red, 3));
}

#[test]
fn rewriting_twice_is_rewriting_once() {
    let palette = palette_of_indexes();
    let samples = [
        attributes(ColourAttribute::Default, ColourAttribute::Default),
        attributes(ColourAttribute::PaletteIndex(1), ColourAttribute::PaletteIndex(255)),
        attributes(
            ColourAttribute::TrueColourWithDefaultFallback(colour(0.1, 0.2, 0.3, 0.4)),
            ColourAttribute::PaletteIndex(0),
        ),
    ];
    for sample in samples {
        let mut once = sample;
        palette.cell_attributes_to_true_colour(&mut once);
        let mut twice = once;
        palette.cell_attributes_to_true_colour(&mut twice);
        assert_eq!(once, twice);
        assert!(!matches!(once.foreground, ColourAttribute::PaletteIndex(_)));
        assert!(!matches!(once.background, ColourAttribute::PaletteIndex(_)));
    }
}

#[test]
fn a_whole_surface_is_resolved() {
    let palette = palette_of_indexes();
    let mut surface = Grid::new(2, 1);
    surface.set(
        1,
        0,
        Cell::new('9', attributes(ColourAttribute::PaletteIndex(1), ColourAttribute::Default)),
    );
    let mut output = Output::Complete(CompleteSurface::Screen(CompleteScreen {
        surface,
        mode: ScreenMode::Main,
    }));
    palette.convert_cells_to_true_colour(&mut output);
    let Output::Complete(CompleteSurface::Screen(screen)) = output else {
        panic!("the report has changed its kind");
    };
    let cell = screen.surface.get(1, 0).unwrap();
    assert_eq!(cell.str(), "9");
    assert_eq!(
        cell.attrs().foreground(),
        ColourAttribute::TrueColourWithPaletteFallback(rgb(1, 254, 7), 1)
    );
    assert_eq!(cell.attrs().background(), ColourAttribute::Default);
    let blank = screen.surface.get(0, 0).unwrap();
    assert_eq!(blank.attrs().foreground(), ColourAttribute::TrueColourWithDefaultFallback(rgb(7, 248, 7)));
}

#[test]
fn the_changes_of_a_report_are_resolved() {
    let palette = palette_of_indexes();
    let changes = vec![
        Change::Other,
        Change::AllAttributes(attributes(ColourAttribute::PaletteIndex(2), ColourAttribute::PaletteIndex(3))),
    ];
    let mut output = Output::Diff(SurfaceDiff::Screen(ScreenDiff { changes, size: (80, 24) }));
    palette.convert_cells_to_true_colour(&mut output);
    let Output::Diff(SurfaceDiff::Screen(diff)) = output else {
        panic!("the report has changed its kind");
    };
    assert_eq!(diff.size, (80, 24));
    assert_eq!(diff.changes[0], Change::Other);
    assert_eq!(
        diff.changes[1],
        Change::AllAttributes(attributes(
            ColourAttribute::TrueColourWithPaletteFallback(rgb(2, 253, 7), 2),
            ColourAttribute::TrueColourWithPaletteFallback(rgb(3, 252, 7), 3),
        ))
    );
}

#[test]
fn two_true_colours_are_printed_in_one_cell() {
    let mut text = String::new();
    Parser::print_2_true_colours_in_1(&mut text, (255, 2, 0), (1, 20, 255));
    assert_eq!(text, "\x1b[48;2;255;2;0m\x1b[38;2;1;20;255m\u{2584}\x1b[m");
}

#[test]
fn the_native_palette_is_a_framed_square() {
    let text = Parser::print_native_palette();
    let lines: Vec<&str> = text.lines().collect();
    assert_eq!(lines.len(), 10);
    assert_eq!(lines[0], "\u{256d}\u{2500}\u{2500}\u{2500}\u{2500}\u{2500}\u{2500}\u{2500}\u{2500}\u{2500}\u{2500}\u{2500}\u{2500}\u{2500}\u{2500}\u{2500}\u{2500}\u{2500}\u{2500}\u{256e}");
    assert!(lines[1].starts_with(
        "\u{2502}\x1b[48;2;255;0;0m\x1b[38;2;255;1;0m\u{2584}\x1b[m\x1b[48;2;0;0;255m\x1b[38;2;0;0;255m\u{2584}\x1b[m\x1b[48;5;0m\x1b[38;5;16m\u{2584}\x1b[m\x1b[48;5;1m\x1b[38;5;17m"
    ));
    assert!(lines[8].ends_with("\x1b[48;5;239m\x1b[38;5;255m\u{2584}\x1b[m\u{2502}"));
    assert!(lines[8].starts_with("\u{2502}\x1b[48;2;255;14;0m\x1b[38;2;255;15;0m"));
    assert_eq!(Parser::palette_index(3, 2), 67);
}

#[test]
fn the_true_colour_palette_needs_every_colour() {
    let palette = palette_of_indexes();
    let text = palette.print_true_colour_palette().unwrap();
    let lines: Vec<&str> = text.lines().collect();
    assert_eq!(lines.len(), 10);
    assert!(lines[1].contains("\x1b[48;2;0;255;7m\x1b[38;2;16;239;7m\u{2584}\x1b[m"));
    let mut map = PaletteHashMap::new();
    map.insert("0".chars().collect(), (0, 0, 0));
    let lacking = Palette { map };
    assert_eq!(lacking.print_true_colour_palette().unwrap_err().index, 16);
}

#[test]
fn answers_choose_what_happens_next() {
    assert_eq!(Parser::screenshot_choice("y\n"), ScreenshotChoice::Screenshot);
    assert_eq!(Parser::screenshot_choice("d\n"), ScreenshotChoice::DefaultPalette);
    assert_eq!(Parser::screenshot_choice("n\n"), ScreenshotChoice::Cancel);
    assert_eq!(Parser::screenshot_choice(""), ScreenshotChoice::Cancel);
    assert!(!Parser::ask_if_palettes_look_the_same("y\n"));
    assert!(Parser::ask_if_palettes_look_the_same("no\n"));
}

#[test]
fn a_palette_colour_is_opaque() {
    for (red, green, blue) in [(0u8, 0u8, 0u8), (255, 255, 255), (192, 34, 234), (1, 2, 3)] {
        assert_eq!(f32::from_bits(Colour::from_rgb8(red, green, blue).alpha.to_bits()), 1.0);
        let srgba = Palette::palette_colour_to_srgba((red, green, blue));
        assert_eq!(f32::from_bits(srgba.alpha.to_bits()), 1.0);
    }
    let palette = palette_of_indexes();
    assert_eq!(f32::from_bits(palette.true_colour_tuple_from_index(7).alpha.to_bits()), 1.0);
    assert_eq!(f32::from_bits(palette.background_colour().alpha.to_bits()), 1.0);
    assert_eq!(f32::from_bits(palette.foreground_colour().alpha.to_bits()), 1.0);
}
