use tattoy::cell::Cell;
use tattoy::cell::CellAttributes;
use tattoy::colour::Colour;
use tattoy::colour::ColourAttribute;
use tattoy::colour::ColourMath;
use tattoy::grid::Cursor;
use tattoy::grid::CursorVisibility;
use tattoy::grid::Grid;
use tattoy::output::SurfaceKind;
use tattoy::palette::converter::Palette;
use tattoy::palette::main::PaletteHashMap;
use tattoy::run::FrameUpdate;
use tattoy::run::Protocol;
use tattoy::scalar::Scalar;
use tattoy::tattoys::plugins::Config;
use tattoy::tattoys::plugins::ListenerSignal;
use tattoy::tattoys::plugins::ListenerStep;
use tattoy::tattoys::plugins::Plugin;
use tattoy::tattoys::plugins::PluginCell;
use tattoy::tattoys::plugins::PluginError;
use tattoy::tattoys::plugins::PluginInputMessages;
use tattoy::tattoys::plugins::PluginOutputMessages;
use tattoy::tattoys::plugins::PluginPixel;

fn scalar(value: f32) -> Scalar {
    Scalar::from_bits(value.to_bits())
}

fn colour(red: f32, green: f32, blue: f32, alpha: f32) -> Colour {
    Colour::from_bits(red.to_bits(), green.to_bits(), blue.to_bits(), alpha.to_bits())
}

fn rgb(red: u8, green: u8, blue: u8) -> Colour {
    colour(f32::from(red) / 255.0, f32::from(green) / 255.0, f32::from(blue) / 255.0, 1.0)
}

fn paint(colour: Colour) -> ColourAttribute {
    ColourAttribute::TrueColourWithDefaultFallback(colour)
}

struct Maths;

impl ColourMath for Maths {
    fn blend_of(&self, destination: Colour, source: Colour, opacity: Scalar) -> Colour {
        self.blend(destination, source, opacity)
    }

    fn mix_of(&self, first: Colour, second: Colour) -> Colour {
        self.mix(first, second)
    }

    fn readable_of(&self, foreground: Colour, background: Colour, target: Scalar) -> Colour {
        self.readable_foreground(foreground, background, target)
    }

    fn grade_of(&self, colour: Colour, saturation: Scalar, brightness: Scalar, hue: Scalar) -> Colour {
        self.grade(colour, saturation, brightness, hue)
    }

    fn blend(&self, _destination: Colour, source: Colour, _opacity: Scalar) -> Colour {
        source
    }

    fn mix(&self, first: Colour, _second: Colour) -> Colour {
        first
    }

    fn readable_foreground(&self, foreground: Colour, _background: Colour, _target: Scalar) -> Colour {
        foreground
    }

    fn grade(&self, colour: Colour, _saturation: Scalar, _brightness: Scalar, _hue: Scalar) -> Colour {
        colour
    }
}

fn palette() -> Palette {
    let mut map = PaletteHashMap::new();
    for index in 0..=255u8 {
        map.insert(index.to_string().chars().collect(), (index, index, index));
    }
    map.insert("background".chars().collect(), (26, 27, 38));
    Palette { map }
}

fn plugin(width: u16, height: u16) -> Plugin {
    let config = Config {
        name: "test-plugin".to_owned(),
        path: "/bin/true".to_owned(),
        layer: None,
        opacity: None,
        enabled: None,
    };
    Plugin::new(&config, width, height, 30, palette())
}

fn row(update: &FrameUpdate, y: usize) -> String {
    let FrameUpdate::TattoySurface(surface) = update else {
        panic!("a surface was expected");
    };
    (0..surface.grid.width).map(|x| surface.grid.get(x, y).unwrap().str().to_owned()).collect()
}

#[test]
fn a_plugin_takes_its_layer_and_opacity_from_its_settings() {
    let plain = plugin(4, 2);
    assert_eq!(plain.tattoy.id, "test-plugin");
    assert_eq!(plain.tattoy.layer, -10);
    assert_eq!(plain.tattoy.opacity, scalar(1.0));
    let config = Config {
        name: "other".to_owned(),
        path: "/bin/true".to_owned(),
        layer: Some(7),
        opacity: Some(scalar(0.25)),
        enabled: Some(true),
    };
    let set = Plugin::new(&config, 4, 2, 30, palette());
    assert_eq!(set.tattoy.layer, 7);
    assert_eq!(set.tattoy.opacity, scalar(0.25));
}

#[test]
fn the_text_of_a_plugin_is_drawn() {
    let mut plugin = plugin(8, 2);
    let red = colour(1.0, 0.0, 0.0, 1.0);
    let output = PluginOutputMessages::OutputText {
        text: "yottat".to_owned(),
        coordinates: (1, 1),
        bg: None,
        fg: Some(red),
    };
    let update = plugin.render(output, &Maths).unwrap();
    assert_eq!(row(&update, 0), "        ");
    assert_eq!(row(&update, 1), " yottat ");
    let FrameUpdate::TattoySurface(surface) = update else { unreachable!() };
    assert_eq!(surface.id, "test-plugin");
    assert_eq!(surface.layer, -10);
    assert_eq!(surface.grid.get(3, 1).unwrap().attrs().foreground(), paint(red));
    assert_eq!(surface.grid.get(3, 1).unwrap().attrs().background(), ColourAttribute::Default);
}

#[test]
fn the_cells_of_a_plugin_are_drawn() {
    let mut plugin = plugin(3, 2);
    let red = colour(1.0, 0.0, 0.0, 1.0);
    let blue = colour(0.0, 0.0, 1.0, 1.0);
    let cells = vec![
        PluginCell { character: 'a', coordinates: (0, 0), bg: None, fg: Some(red) },
        PluginCell { character: 'b', coordinates: (2, 1), bg: Some(blue), fg: None },
        PluginCell { character: 'c', coordinates: (0, 0), bg: Some(blue), fg: Some(red) },
        PluginCell { character: 'd', coordinates: (3, 0), bg: None, fg: None },
    ];
    let update = plugin.render(PluginOutputMessages::OutputCells(cells), &Maths).unwrap();
    assert_eq!(row(&update, 0), "c  ");
    assert_eq!(row(&update, 1), "  b");
    let FrameUpdate::TattoySurface(surface) = update else { unreachable!() };
    assert_eq!(surface.grid.get(0, 0).unwrap().attrs().background(), paint(blue));
    assert_eq!(surface.grid.get(2, 1).unwrap().attrs().foreground(), ColourAttribute::Default);
}

#[test]
fn the_pixels_of_a_plugin_are_drawn() {
    let mut plugin = plugin(2, 2);
    let red = colour(1.0, 0.0, 0.0, 1.0);
    let white = colour(1.0, 1.0, 1.0, 1.0);
    let pixels = vec![
        PluginPixel { coordinates: (0, 1), color: Some(red) },
        PluginPixel { coordinates: (1, 2), color: None },
        PluginPixel { coordinates: (0, 0), color: None },
    ];
    let update = plugin.render(PluginOutputMessages::OutputPixels(pixels), &Maths).unwrap();
    assert_eq!(row(&update, 0), "\u{2580} ");
    assert_eq!(row(&update, 1), " \u{2580}");
    let FrameUpdate::TattoySurface(surface) = update else { unreachable!() };
    assert_eq!(surface.grid.get(0, 0).unwrap().attrs().foreground(), paint(white));
    assert_eq!(surface.grid.get(0, 0).unwrap().attrs().background(), paint(red));
    assert_eq!(surface.grid.get(1, 1).unwrap().attrs().foreground(), paint(white));
    let stray = vec![PluginPixel { coordinates: (0, 0), color: None }, PluginPixel { coordinates: (0, 4), color: None }];
    assert!(plugin.render(PluginOutputMessages::OutputPixels(stray), &Maths).is_err());
    let stray = vec![PluginPixel { coordinates: (2, 0), color: None }];
    assert!(plugin.render(PluginOutputMessages::OutputPixels(stray), &Maths).is_err());
}

#[test]
fn a_plugin_is_told_what_the_screen_shows() {
    let mut plugin = plugin(3, 2);
    let red = colour(1.0, 0.0, 0.0, 1.0);
    let mut screen = Grid::new(3, 2);
    screen.set(
        1,
        0,
        Cell::new('l', CellAttributes { foreground: paint(red), background: ColourAttribute::PaletteIndex(4), style: 0 }),
    );
    screen.set(
        2,
        1,
        Cell::new_grapheme(
            "s\u{301}",
            CellAttributes { foreground: ColourAttribute::Default, background: ColourAttribute::Default, style: 0 },
        ),
    );
    screen.cursor = Cursor { x: 2, y: 1, shape: None, visibility: CursorVisibility::Visible };
    plugin.tattoy.replace_surface(SurfaceKind::Screen, screen);
    let message = plugin.handle_protocol_messages(&Protocol::Repaint).unwrap();
    assert!(message.is_none());
    let output = Protocol::Output(tattoy::output::Output::Diff(tattoy::output::SurfaceDiff::Screen(
        tattoy::output::ScreenDiff { changes: Vec::new(), size: (3, 2) },
    )));
    let Some(PluginInputMessages::PTYUpdate { size, cells, cursor }) =
        plugin.handle_protocol_messages(&output).unwrap()
    else {
        panic!("an update was expected");
    };
    assert_eq!(size, (3, 2));
    assert_eq!(cursor, (2, 1));
    assert_eq!(cells.len(), 2);
    assert_eq!(cells[0].character, 'l');
    assert_eq!(cells[0].coordinates, (1, 0));
    assert_eq!(cells[0].fg, Some(red));
    assert_eq!(cells[0].bg, Some(rgb(4, 4, 4)));
    assert_eq!(cells[1].character, 's');
    assert_eq!(cells[1].coordinates, (2, 1));
    assert_eq!(cells[1].fg, Some(rgb(7, 7, 7)));
    assert_eq!(cells[1].bg, Some(rgb(26, 27, 38)));
    plugin.tattoy.screen.surface.cursor.x = 70_000;
    assert_eq!(plugin.send_pty_output().unwrap_err(), PluginError::CursorOutOfRange);
}

#[test]
fn a_plugin_is_told_of_a_resize() {
    let plugin = plugin(3, 2);
    let told = plugin.handle_protocol_messages(&Protocol::Resize { width: 53, height: 13 }).unwrap();
    assert!(matches!(told, Some(PluginInputMessages::TTYResize { width: 53, height: 13 })));
    assert!(matches!(Plugin::send_tty_size(1, 2), PluginInputMessages::TTYResize { width: 1, height: 2 }));
}

#[test]
fn the_reader_of_a_plugin_knows_when_to_stop() {
    assert_eq!(Plugin::supervise_listener(true, ListenerSignal::Empty), ListenerStep::Exited);
    assert_eq!(Plugin::supervise_listener(true, ListenerSignal::End), ListenerStep::Exited);
    assert_eq!(Plugin::supervise_listener(false, ListenerSignal::End), ListenerStep::Stop);
    assert_eq!(Plugin::supervise_listener(false, ListenerSignal::Closed), ListenerStep::Exited);
    assert_eq!(Plugin::supervise_listener(false, ListenerSignal::Empty), ListenerStep::Continue);
    assert_eq!(Plugin::supervise_listener(false, ListenerSignal::Other), ListenerStep::Continue);
}

#[test]
fn the_user_is_told_of_a_plugin_that_failed() {
    assert_eq!(
        Plugin::exit_notification("test-plugin", "Something went wrong"),
        ("'test-plugin' plugin exited".to_owned(), "STDERR output:\nSomething went wrong".to_owned())
    );
    assert_eq!(Plugin::error_title("test-plugin"), "'test-plugin' plugin error");
}
