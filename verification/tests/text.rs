use tattoy::colour::Colour;
use tattoy::config::AnimatedCursorConfig;
use tattoy::config::MinimapConfig;
use tattoy::config::ShaderConfig;
use tattoy::grid::Grid;
use tattoy::picture::ColourImage;
use tattoy::picture::PixelImage;
use tattoy::renderer::Renderer;
use tattoy::scalar::Scalar;
use tattoy::surface::Surface;
use tattoy::text::copy_range;
use tattoy::text::find;
use tattoy::text::from_chars;
use tattoy::text::has_prefix;
use tattoy::text::is_match_at;
use tattoy::text::replace_all;
use tattoy::text::same_text;
use tattoy::text::split_at_each;
use tattoy::text::to_chars;

fn chars(text: &str) -> Vec<char> {
    text.chars().collect()
}

fn text(characters: &[char]) -> String {
    characters.iter().collect()
}

fn scalar(value: f32) -> Scalar {
    Scalar::from_bits(value.to_bits())
}

fn colour(red: f32, green: f32, blue: f32, alpha: f32) -> Colour {
    Colour::from_bits(red.to_bits(), green.to_bits(), blue.to_bits(), alpha.to_bits())
}

#[test]
fn texts_are_sequences_of_characters() {
    assert_eq!(to_chars("a\u{2580}b"), ['a', '\u{2580}', 'b']);
    assert_eq!(from_chars(&['x', '\u{e9}']), "x\u{e9}");
    assert_eq!(copy_range(&chars("abcdef"), 2, 4), ['c', 'd']);
    assert!(same_text("abc", "abc"));
    assert!(!same_text("abc", "abd"));
    assert!(!same_text("abc", "ab"));
}

#[test]
fn patterns_are_found_from_left_to_right() {
    let haystack = chars("ESC]4;1ESC]4;2");
    let needle = chars("ESC]4;");
    assert_eq!(find(&haystack, &needle, 0), Some(0));
    assert_eq!(find(&haystack, &needle, 1), Some(7));
    assert_eq!(find(&haystack, &needle, 8), None);
    assert_eq!(find(&haystack, &chars("ESC]4;1ESC]4;2x"), 0), None);
    assert!(is_match_at(&haystack, &needle, 7));
    assert!(!is_match_at(&haystack, &needle, 9));
    assert!(has_prefix(&haystack, &chars("ESC")));
    assert!(!has_prefix(&haystack, &chars("SC")));
}

#[test]
fn texts_are_split_as_the_standard_library_splits_them() {
    for (whole, pattern) in [
        ("a/b/c", "/"),
        ("/a//b/", "/"),
        ("", "/"),
        ("abc", "/"),
        ("aaaa", "aa"),
        ("aaa", "aa"),
        ("ESC]4;1;rgb:1/2/3BELLESC]4;2;rgb:4/5/6BELL", "ESC]4;"),
    ] {
        let pieces: Vec<String> =
            split_at_each(&chars(whole), &chars(pattern)).iter().map(|piece| text(piece)).collect();
        let expected: Vec<String> = whole.split(pattern).map(str::to_owned).collect();
        assert_eq!(pieces, expected, "{whole:?} split at {pattern:?}");
    }
}

#[test]
fn patterns_are_replaced_as_the_standard_library_replaces_them() {
    for (whole, pattern, replacement) in
        [("\x1b]4;\x07", "\x1b", "ESC"), ("aaa", "aa", "b"), ("abc", "x", "y"), ("", "x", "y"), ("xx", "x", "")]
    {
        let replaced = text(&replace_all(&chars(whole), &chars(pattern), &chars(replacement)));
        assert_eq!(replaced, whole.replace(pattern, replacement));
    }
}

#[test]
fn colours_are_made_of_bytes_and_names() {
    assert_eq!(Colour::from_rgb8(255, 0, 51), colour(1.0, 0.0, 0.2, 1.0));
    assert_eq!(Colour::from_rgba8(0, 255, 102, 51), colour(0.0, 1.0, 0.4, 0.2));
    assert_eq!(Colour::from_name("#ff0033"), Some(colour(1.0, 0.0, 0.2, 1.0)));
    assert_eq!(Colour::from_name("no colour at all"), None);
    assert!(colour(0.0, -0.0, 0.0, 1.0).equals(Colour::opaque_black()));
    assert!(!colour(0.0, 0.0, 0.0, 0.5).equals(Colour::opaque_black()));
    assert_eq!(colour(0.1, 0.2, 0.3, 0.4).with_alpha(scalar(0.95)), colour(0.1, 0.2, 0.3, 0.95));
}

#[test]
fn pictures_are_turned_upside_down() {
    let image = ColourImage {
        width: 2,
        height: 3,
        rows: (0..3).map(|y| (0..2).map(|x| colour(x as f32, y as f32, 0.0, 1.0)).collect()).collect(),
    };
    let flipped = image.flipv();
    assert_eq!((flipped.width, flipped.height), (2, 3));
    assert_eq!(flipped.get_pixel_checked(1, 0), Some(colour(1.0, 2.0, 0.0, 1.0)));
    assert_eq!(flipped.get_pixel_checked(0, 2), Some(colour(0.0, 0.0, 0.0, 1.0)));
    assert_eq!(flipped.get_pixel_checked(0, 3), None);
    let bytes = PixelImage { width: 2, height: 1, bytes: vec![1, 2, 3, 4, 5, 6, 7, 8] };
    assert_eq!(bytes.dimensions(), (2, 1));
    assert_eq!(bytes.get_pixel_checked(1, 0), Some((5, 6, 7, 8)));
    assert_eq!(bytes.get_pixel_checked(2, 0), None);
    assert_eq!(bytes.get_pixel_checked(0, 1), None);
}

#[test]
fn the_cells_of_a_layer_are_handed_out_if_they_fit() {
    let shader = Surface::new("shader".to_owned(), 3, 2, -10, scalar(1.0));
    assert!(Renderer::get_shader_cells(Some(&shader), (3, 2)).is_some());
    assert!(Renderer::get_shader_cells(Some(&shader), (3, 3)).is_none());
    assert!(Renderer::get_shader_cells(None, (3, 2)).is_none());
    let copy = Grid::new(2, 2).duplicate();
    assert_eq!(copy.dimensions(), (2, 2));
    assert_eq!(copy.cursor_position(), (0, 0));
}

#[test]
fn settings_that_are_not_set_have_their_defaults() {
    let minimap = MinimapConfig::default();
    assert!(minimap.enabled);
    assert_eq!(minimap.max_width, 15);
    assert_eq!(minimap.animation_speed, scalar(0.15));
    let shader = ShaderConfig::default("shaders/point_lights.glsl".to_owned());
    assert!(!shader.enabled && shader.render && shader.upload_tty_as_pixels);
    assert!(!shader.render_shader_colours_to_text);
    assert_eq!(shader.opacity, scalar(0.75));
    assert_eq!(shader.layer, -10);
    assert_eq!(shader.path, "shaders/point_lights.glsl");
    let cursor = AnimatedCursorConfig::default("shaders/cursors/smear_fade.glsl".to_owned());
    assert!(!cursor.enabled);
    assert_eq!(cursor.opacity, scalar(0.75));
    assert_eq!(cursor.cursor_scale, scalar(1.0));
    assert_eq!(cursor.layer, i16::MIN);
}
