use tattoy::colour::Colour;
use tattoy::colour::ColourAttribute;
use tattoy::colour::ColourMath;
use tattoy::run::FrameUpdate;
use tattoy::run::Protocol;
use tattoy::scalar::Scalar;
use tattoy::tattoys::random_walker::Drift;
use tattoy::tattoys::random_walker::RandomWalker;

fn number(scalar: Scalar) -> f32 {
    f32::from_bits(scalar.to_bits())
}

fn scalar(value: f32) -> Scalar {
    Scalar::from_bits(value.to_bits())
}

struct Maths;

impl ColourMath for Maths {
    fn blend_of(&self, destination: Colour, source: Colour, opacity: Scalar) -> Colour {
        self.blend(destination, source, opacity)
    }

    fn mix_of(&self, first: Colour, second: Colour) -> Colour {
        self.mix(first, second)
    }

    fn readable_of(&self, foreground: Colour, background: Colour, target: Scalar) -> Colour {
        self.readable_foreground(foreground, background, target)
    }

    fn grade_of(&self, colour: Colour, saturation: Scalar, brightness: Scalar, hue: Scalar) -> Colour {
        self.grade(colour, saturation, brightness, hue)
    }

    fn blend(&self, _destination: Colour, source: Colour, _opacity: Scalar) -> Colour {
        source
    }

    fn mix(&self, first: Colour, _second: Colour) -> Colour {
        first
    }

    fn readable_foreground(&self, foreground: Colour, _background: Colour, _target: Scalar) -> Colour {
        foreground
    }

    fn grade(&self, colour: Colour, _saturation: Scalar, _brightness: Scalar, _hue: Scalar) -> Colour {
        colour
    }
}

struct Upwards;

impl Drift for Upwards {
    fn first_channel(&self) -> Scalar {
        scalar(0.5)
    }

    fn drifted(&self, channel: Scalar, rate: Scalar) -> Scalar {
        scalar(number(channel) + number(rate))
    }
}

#[test]
fn the_walker_starts_in_the_corner() {
    let walker = RandomWalker::new(50, 10, 30, &Upwards);
    assert_eq!(walker.position, (0, 0));
    assert_eq!(walker.colour, Colour::new(scalar(0.5), scalar(0.5), scalar(0.5), scalar(1.0)));
    assert_eq!(walker.tattoy.id, "random_walker");
    assert_eq!(walker.tattoy.layer, -10);
}

#[test]
fn a_step_is_held_to_the_terminal() {
    let mut walker = RandomWalker::new(50, 10, 30, &Upwards);
    walker.step((0, 0));
    assert_eq!(walker.position, (1, 1));
    walker.position = (10, 10);
    walker.step((2, 0));
    assert_eq!(walker.position, (11, 9));
    walker.step((1, 1));
    assert_eq!(walker.position, (11, 9));
    walker.position = (49, 19);
    walker.step((2, 2));
    assert_eq!(walker.position, (49, 19));
    walker.position = (500, -500);
    walker.step((1, 1));
    assert_eq!(walker.position, (49, 1));
    let mut cramped = RandomWalker::new(1, 0, 30, &Upwards);
    cramped.step((2, 2));
    assert_eq!(cramped.position, (1, 1));
}

#[test]
fn the_walker_wanders_and_draws_one_pixel() {
    let mut walker = RandomWalker::new(8, 4, 30, &Upwards);
    let mut places = std::collections::HashSet::new();
    for _ in 0..300 {
        let before = walker.position;
        let FrameUpdate::TattoySurface(surface) = walker.render(&Upwards, &Maths).unwrap() else {
            panic!("a surface was expected");
        };
        let (x, y) = walker.position;
        assert!((1..=7).contains(&x) && (1..=7).contains(&y));
        assert!((x - before.0).abs() <= 1 && (y - before.1).abs() <= 1);
        places.insert(walker.position);
        let mut drawn = 0;
        for row in 0..4 {
            for column in 0..8 {
                let cell = surface.grid.get(column, row).unwrap();
                if cell.str() != " " {
                    drawn += 1;
                    assert_eq!((column, row), (x as usize, y as usize / 2));
                    assert_eq!(cell.str(), if y % 2 == 0 { "\u{2580}" } else { "\u{2584}" });
                    assert_eq!(
                        cell.attrs().foreground(),
                        ColourAttribute::TrueColourWithDefaultFallback(walker.colour)
                    );
                }
            }
        }
        assert_eq!(drawn, 1);
    }
    assert!(places.len() > 3);
    assert_eq!(walker.colour, Colour::new(scalar(1.0), scalar(1.0), scalar(1.0), scalar(1.0)));
}

#[test]
fn a_resize_puts_the_walker_somewhere_in_the_new_terminal() {
    let mut walker = RandomWalker::new(50, 10, 30, &Upwards);
    let mut places = std::collections::HashSet::new();
    for _ in 0..200 {
        walker.handle_protocol_message(&Protocol::Resize { width: 3, height: 2 });
        let (x, y) = walker.position;
        assert!((0..3).contains(&x) && (0..4).contains(&y));
        places.insert(walker.position);
    }
    assert!(places.len() > 3);
    let before = walker.position;
    walker.handle_protocol_message(&Protocol::Resize { width: 0, height: 2 });
    walker.handle_protocol_message(&Protocol::Repaint);
    assert_eq!(walker.position, before);
}

#[test]
fn a_terminal_too_small_holds_no_walker() {
    let mut narrow = RandomWalker::new(1, 4, 30, &Upwards);
    assert!(narrow.render(&Upwards, &Maths).is_err());
    let mut flat = RandomWalker::new(4, 0, 30, &Upwards);
    assert!(flat.render(&Upwards, &Maths).is_err());
    let mut smallest = RandomWalker::new(2, 1, 30, &Upwards);
    assert!(smallest.render(&Upwards, &Maths).is_ok());
    assert_eq!(smallest.position, (1, 1));
}
