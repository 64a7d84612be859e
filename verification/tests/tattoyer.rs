use tattoy::cell::Cell;
use tattoy::cell::CellAttributes;
use tattoy::colour::Colour;
use tattoy::colour::ColourAttribute;
use tattoy::config::AnimatedCursorConfig;
use tattoy::config::ColourGrade;
use tattoy::config::Config;
use tattoy::config::MinimapConfig;
use tattoy::config::ShaderConfig;
use tattoy::config::TextContrast;
use tattoy::grid::Grid;
use tattoy::output::Change;
use tattoy::output::CompleteScreen;
use tattoy::output::CompleteScrollback;
use tattoy::output::CompleteSurface;
use tattoy::output::Output;
use tattoy::output::ScreenDiff;
use tattoy::output::ScreenMode;
use tattoy::output::ScrollbackDiff;
use tattoy::output::SurfaceDiff;
use tattoy::output::SurfaceKind;
use tattoy::run::FrameUpdate;
use tattoy::run::Input;
use tattoy::run::Protocol;
use tattoy::scalar::Scalar;
use tattoy::tattoys::tattoyer::ImageError;
use tattoy::tattoys::tattoyer::SizeError;
use tattoy::tattoys::tattoyer::SurfaceWork;
use tattoy::tattoys::tattoyer::Tattoyer;

fn scalar(value: f32) -> Scalar {
    Scalar::from_bits(value.to_bits())
}

fn colour(red: f32, green: f32, blue: f32, alpha: f32) -> Colour {
    Colour::from_bits(red.to_bits(), green.to_bits(), blue.to_bits(), alpha.to_bits())
}

fn paint(colour: Colour) -> ColourAttribute {
    ColourAttribute::TrueColourWithDefaultFallback(colour)
}

fn tattoyer() -> Tattoyer {
    Tattoyer::new("test".to_owned(), -3, scalar(0.5), 4, 2, 30)
}

fn config(frame_rate: u32) -> Config {
    Config {
        frame_rate,
        show_startup_logo: false,
        show_tattoy_indicator: false,
        text_contrast: TextContrast {
            enabled: false,
            target_contrast: scalar(2.0),
            apply_to_readable_text_only: true,
        },
        color: ColourGrade { saturation: scalar(0.0), brightness: scalar(0.0), hue: scalar(0.0) },
        minimap: MinimapConfig { enabled: false, max_width: 15, animation_speed: scalar(0.15) },
        shader: ShaderConfig {
            enabled: false,
            path: String::new(),
            opacity: scalar(0.75),
            layer: -10,
            render: true,
            upload_tty_as_pixels: true,
            render_shader_colours_to_text: false,
        },
        animated_cursor: AnimatedCursorConfig {
            enabled: false,
            path: String::new(),
            opacity: scalar(0.75),
            layer: -1,
            cursor_scale: scalar(1.0),
        },
        notifications_enabled: false,
        bg_command_enabled: false,
        plugins: Vec::new(),
    }
}

fn screen_diff(changes: usize, size: (usize, usize)) -> Protocol {
    Protocol::Output(Output::Diff(SurfaceDiff::Screen(ScreenDiff { changes: vec![Change::Other; changes], size })))
}

fn scrollback_diff(changes: usize, position: usize) -> Protocol {
    Protocol::Output(Output::Diff(SurfaceDiff::Scrollback(ScrollbackDiff {
        changes: vec![Change::Other; changes],
        size: (4, 2),
        position,
        height: 40,
    })))
}

fn complete_screen(mode: ScreenMode) -> Protocol {
    Protocol::Output(Output::Complete(CompleteSurface::Screen(CompleteScreen { surface: Grid::new(4, 2), mode })))
}

fn complete_scrollback(position: usize) -> Protocol {
    Protocol::Output(Output::Complete(CompleteSurface::Scrollback(CompleteScrollback {
        surface: Grid::new(4, 9),
        position,
    })))
}

#[test]
fn a_fresh_surface_has_the_size_of_the_terminal() {
    let mut tattoy = tattoyer();
    assert_eq!(tattoy.surface.grid.dimensions(), (0, 0));
    tattoy.initialise_surface();
    assert_eq!(tattoy.surface.id, "test");
    assert_eq!(tattoy.surface.layer, -3);
    assert_eq!(tattoy.surface.opacity, scalar(0.5));
    assert_eq!((tattoy.surface.width, tattoy.surface.height), (4, 2));
    assert_eq!(tattoy.surface.grid.dimensions(), (4, 2));
    tattoy.set_tty_size(9, 7);
    tattoy.initialise_surface();
    assert_eq!(tattoy.surface.grid.dimensions(), (9, 7));
}

#[test]
fn the_next_frame_is_due_after_the_time_of_one_frame() {
    let tattoy = tattoyer();
    assert_eq!(tattoy.sleep_until_next_frame_tick(0), Some(33_333_000));
    assert_eq!(tattoy.sleep_until_next_frame_tick(10_000_000), Some(23_333_000));
    assert_eq!(tattoy.sleep_until_next_frame_tick(33_333_000), Some(0));
    assert_eq!(tattoy.sleep_until_next_frame_tick(33_333_001), None);
    assert_eq!(tattoy.sleep_until_next_frame_tick(u128::MAX), None);
    let mut fast = tattoyer();
    fast.handle_common_protocol_messages(Protocol::Config(config(2_000_000))).unwrap();
    assert_eq!(fast.target_frame_rate, 2_000_000);
    assert_eq!(fast.sleep_until_next_frame_tick(0), Some(0));
}

#[test]
fn common_messages_are_taken_in() {
    let mut tattoy = tattoyer();
    let work = tattoy.handle_common_protocol_messages(Protocol::Resize { width: 53, height: 13 }).unwrap();
    assert!(matches!(work, SurfaceWork::Nothing));
    assert_eq!((tattoy.width, tattoy.height), (53, 13));
    let work = tattoy.handle_common_protocol_messages(Protocol::Repaint).unwrap();
    assert!(matches!(work, SurfaceWork::Nothing));
    let work = tattoy.handle_common_protocol_messages(Protocol::Input(Input::Mouse { x: 1, y: 1 })).unwrap();
    assert!(matches!(work, SurfaceWork::Nothing));
    assert_eq!((tattoy.width, tattoy.height), (53, 13));
}

#[test]
fn reports_of_the_terminal_are_taken_in() {
    let mut tattoy = tattoyer();
    let Protocol::Output(output) = scrollback_diff(3, 7) else { unreachable!() };
    let work = tattoy.handle_pty_output(output).unwrap();
    match work {
        SurfaceWork::Apply { kind, width, height, changes } => {
            assert_eq!(kind, SurfaceKind::Scrollback);
            assert_eq!((width, height), (4, 40));
            assert_eq!(changes.len(), 3);
        }
        SurfaceWork::Nothing => panic!("the changes are lost"),
    }
    assert!(tattoy.is_scrolling());
    assert!(!tattoy.is_scrolling_end());
    let Protocol::Output(output) = screen_diff(2, (10, 5)) else { unreachable!() };
    let work = tattoy.handle_pty_output(output).unwrap();
    assert!(matches!(work, SurfaceWork::Apply { kind: SurfaceKind::Screen, width: 10, height: 5, .. }));
    assert_eq!((tattoy.width, tattoy.height), (10, 5));
    let Protocol::Output(output) = screen_diff(2, (70_000, 5)) else { unreachable!() };
    assert_eq!(tattoy.handle_pty_output(output).unwrap_err(), SizeError);
    assert_eq!((tattoy.width, tattoy.height), (10, 5));
    let Protocol::Output(output) = complete_screen(ScreenMode::Alternate) else { unreachable!() };
    assert!(matches!(tattoy.handle_pty_output(output), Ok(SurfaceWork::Nothing)));
    assert!(tattoy.is_alternate_screen());
    assert_eq!(tattoy.screen.surface.dimensions(), (4, 2));
    let Protocol::Output(output) = complete_scrollback(0) else { unreachable!() };
    assert!(matches!(tattoy.handle_pty_output(output), Ok(SurfaceWork::Nothing)));
    assert!(!tattoy.is_scrolling());
    assert_eq!(tattoy.scrollback.surface.dimensions(), (4, 9));
    tattoy.replace_surface(SurfaceKind::Screen, Grid::new(6, 6));
    assert_eq!(tattoy.screen.surface.dimensions(), (6, 6));
    assert!(tattoy.is_alternate_screen());
}

#[test]
fn the_end_of_scrolling_is_noticed() {
    let mut tattoy = tattoyer();
    tattoy.handle_common_protocol_messages(scrollback_diff(1, 5)).unwrap();
    tattoy.initialise_surface();
    let update = tattoy.send_output();
    assert!(matches!(update, FrameUpdate::TattoySurface(surface) if surface.id == "test" && surface.width == 4));
    assert_eq!(tattoy.last_scroll_position, 5);
    tattoy.handle_common_protocol_messages(scrollback_diff(1, 0)).unwrap();
    assert!(tattoy.is_scrolling_end());
    tattoy.send_output();
    assert!(!tattoy.is_scrolling_end());
}

#[test]
fn a_blank_output_takes_the_layer_away() {
    let mut tattoy = tattoyer();
    let FrameUpdate::TattoySurface(surface) = tattoy.send_blank_output() else {
        panic!("a surface was expected");
    };
    assert_eq!(surface.id, "test");
    assert_eq!((surface.width, surface.height), (0, 0));
}

#[test]
fn changes_are_told_from_mere_cursor_moves() {
    assert!(Tattoyer::is_screen_output_changed(&Protocol::Resize { width: 1, height: 1 }));
    assert!(Tattoyer::is_scrollback_output_changed(&Protocol::Resize { width: 1, height: 1 }));
    assert!(!Tattoyer::is_screen_output_changed(&screen_diff(1, (4, 2))));
    assert!(Tattoyer::is_screen_output_changed(&screen_diff(2, (4, 2))));
    assert!(!Tattoyer::is_scrollback_output_changed(&screen_diff(2, (4, 2))));
    assert!(!Tattoyer::is_scrollback_output_changed(&scrollback_diff(1, 0)));
    assert!(Tattoyer::is_scrollback_output_changed(&scrollback_diff(2, 0)));
    assert!(Tattoyer::is_screen_output_changed(&complete_screen(ScreenMode::Main)));
    assert!(!Tattoyer::is_scrollback_output_changed(&complete_screen(ScreenMode::Main)));
    assert!(Tattoyer::is_scrollback_output_changed(&complete_scrollback(0)));
    assert!(!Tattoyer::is_screen_output_changed(&Protocol::Repaint));
    assert_eq!(Tattoyer::is_pty_changed(&Protocol::Resize { width: 1, height: 1 }), Some(SurfaceKind::Scrollback));
    assert_eq!(Tattoyer::is_pty_changed(&screen_diff(2, (4, 2))), Some(SurfaceKind::Screen));
    assert_eq!(Tattoyer::is_pty_changed(&scrollback_diff(2, 0)), Some(SurfaceKind::Scrollback));
    assert_eq!(Tattoyer::is_pty_changed(&Protocol::End), None);
}

#[test]
fn the_terminal_becomes_a_picture() {
    let mut tattoy = tattoyer();
    let red = colour(1.0, 0.0, 0.0, 1.0);
    let blue = colour(0.0, 0.0, 1.0, 1.0);
    let grey = colour(0.5, 0.5, 0.5, 1.0);
    let white = colour(1.0, 1.0, 1.0, 1.0);
    let mut screen = Grid::new(2, 2);
    screen.set(0, 0, Cell::new('a', CellAttributes { foreground: paint(red), background: paint(blue), style: 0 }));
    screen.set(1, 0, Cell::new(' ', CellAttributes { foreground: paint(red), background: paint(blue), style: 0 }));
    screen.set(0, 1, Cell::new('b', CellAttributes::blank()));
    tattoy.replace_surface(SurfaceKind::Screen, screen);
    let image = tattoy.convert_pty_to_pixel_image(&SurfaceKind::Screen, true, grey).unwrap();
    assert_eq!((image.width, image.height), (2, 4));
    assert_eq!(image.rows, vec![vec![red, blue], vec![red, blue], vec![white, grey], vec![white, grey]]);
    let image = tattoy.convert_pty_to_pixel_image(&SurfaceKind::Screen, false, grey).unwrap();
    assert_eq!(image.rows, vec![vec![blue, blue], vec![blue, blue], vec![grey, grey], vec![grey, grey]]);
    let upload = tattoy.get_tty_image_for_upload(true, true, grey).unwrap();
    assert_eq!(upload.rows, vec![vec![white, grey], vec![white, grey], vec![red, blue], vec![red, blue]]);
    assert_eq!(upload.get_pixel_checked(1, 3), Some(blue));
    assert_eq!(upload.get_pixel_checked(2, 0), None);
    let scrollback = tattoy.convert_pty_to_pixel_image(&SurfaceKind::Scrollback, true, grey).unwrap();
    assert_eq!((scrollback.width, scrollback.height), (0, 0));
}

#[test]
fn a_black_picture_stands_in_for_the_terminal() {
    let tattoy = tattoyer();
    let black = colour(0.0, 0.0, 0.0, 1.0);
    let image = tattoy.get_tty_image_for_upload(false, true, colour(0.5, 0.5, 0.5, 1.0)).unwrap();
    assert_eq!((image.width, image.height), (4, 4));
    assert_eq!(image.rows, vec![vec![black; 4]; 4]);
    let _ = ImageError;
}

#[test]
fn empty_surfaces_have_their_cursor_in_the_corner() {
    let scrollback = CompleteScrollback::default();
    assert_eq!(scrollback.surface.dimensions(), (0, 0));
    assert_eq!(scrollback.surface.cursor_position(), (0, 0));
    assert_eq!(scrollback.surface.cursor.visibility, tattoy::grid::CursorVisibility::Visible);
    assert_eq!(scrollback.surface.cursor.shape, None);
    assert_eq!(scrollback.position, 0);
    let screen = CompleteScreen::default();
    assert_eq!(screen.surface.dimensions(), (0, 0));
    assert_eq!(screen.surface.cursor_position(), (0, 0));
    assert_eq!(screen.surface.cursor.visibility, tattoy::grid::CursorVisibility::Visible);
    assert_eq!(screen.mode, ScreenMode::Main);
}
