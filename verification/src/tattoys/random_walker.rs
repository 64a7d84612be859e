//! The random walker: one pixel that wanders over the terminal and slowly
//! changes its colour.
use crate::colour::Colour;
use crate::colour::ColourMath;
use crate::compositor::CoordError;
use crate::grid::blank_cell;
use crate::run::FrameUpdate;
use crate::run::Protocol;
use crate::scalar::Scalar;
use crate::scalar::ONE_BITS;
use crate::surface::with_pixel;
use crate::tattoys::tattoyer::Tattoyer;
use vstd::prelude::*;

verus! {

/// The name of the layer.
pub const RANDOM_WALKER_ID: &'static str = "random_walker";

/// The layer of the random walker.
pub const RANDOM_WALKER_LAYER: i16 = -10;

/// The bit pattern of the rate at which the colour changes: three tenths.
pub const COLOUR_CHANGE_RATE_BITS: u32 = 0x3e99_999a;

/// Where the pixel is: column and row of pixels.
pub type Position = (i32, i32);

/// The chances that the colour of the walker takes. They are numbers with
/// fractions, which the program around this crate draws. No contract says
/// anything of a result.
pub trait Drift {
    /// A channel to begin with: somewhere from a tenth up to one.
    fn first_channel(&self) -> Scalar;

    /// A channel that has drifted up or down by up to half of the rate.
    fn drifted(&self, channel: Scalar, rate: Scalar) -> Scalar;
}

/// Calls `gen_range` of `rand::Rng` on the generator of the thread, with an
/// inclusive range. The documentation promises a value in the range, and a
/// panic on an empty range, which the contract leaves out.
#[verifier::external_body]
fn random_between(low: i32, high: i32) -> (value: i32)
    requires
        low <= high,
    ensures
        low <= value <= high,
{
    rand::Rng::gen_range(&mut rand::thread_rng(), low..=high)
}

/// The random walker.
#[derive(Debug)]
pub struct RandomWalker {
    pub tattoy: Tattoyer,
    /// Where the pixel is.
    pub position: Position,
    /// The colour of the pixel.
    pub colour: Colour,
}

/// A coordinate held to the terminal: at least one, and at most one less
/// than the length of the terminal, or one where the terminal is shorter.
pub open spec fn held(coordinate: int, length: int) -> int {
    if coordinate < 1 || length < 2 {
        1
    } else if coordinate > length - 1 {
        length - 1
    } else {
        coordinate
    }
}

/// Where the pixel is after a step: each coordinate one less, the same or
/// one more, as the steps from nought to two say, and held to the terminal.
pub open spec fn stepped(position: Position, steps: (i32, i32), width: u16, height: u16) -> Position {
    (
        held(position.0 + steps.0 - 1, width as int) as i32,
        held(position.1 + steps.1 - 1, height * 2) as i32,
    )
}

impl RandomWalker {
    /// The surfaces are rectangles.
    pub open spec fn wf(&self) -> bool {
        self.tattoy.wf()
    }

    /// A walker in the top left corner, in a colour of chance.
    pub fn new<D: Drift>(width: u16, height: u16, target_frame_rate: u32, drift: &D) -> (walker:
        RandomWalker)
        ensures
            walker.wf(),
            walker.position == (0i32, 0i32),
            walker.colour.alpha == (Scalar { bits: ONE_BITS }),
            walker.tattoy.id@ == RANDOM_WALKER_ID@,
            walker.tattoy.layer == RANDOM_WALKER_LAYER,
            walker.tattoy.width == width,
            walker.tattoy.height == height,
    {
        let tattoy = Tattoyer::new(
            RANDOM_WALKER_ID.to_owned(),
            RANDOM_WALKER_LAYER,
            Scalar::one(),
            width,
            height,
            target_frame_rate,
        );
        let colour = Colour::new(
            drift.first_channel(),
            drift.first_channel(),
            drift.first_channel(),
            Scalar::one(),
        );
        RandomWalker { tattoy, position: (0, 0), colour }
    }

    /// On a resize the pixel jumps to a place of chance in the new terminal.
    /// In a terminal without columns or rows it stays where it is. Nothing
    /// else moves it.
    pub fn handle_protocol_message(&mut self, message: &Protocol)
        ensures
            final(self).tattoy == old(self).tattoy,
            final(self).colour == old(self).colour,
            match *message {
                Protocol::Resize { width, height } => if width > 0 && height > 0 {
                    &&& 0 <= final(self).position.0 < width
                    &&& 0 <= final(self).position.1 < height * 2
                } else {
                    final(self).position == old(self).position
                },
                _ => final(self).position == old(self).position,
            },
    {
        match message {
            Protocol::Resize { width, height } => {
                if *width > 0 && *height > 0 {
                    self.position = (
                        random_between(0, *width as i32 - 1),
                        random_between(0, *height as i32 * 2 - 1),
                    );
                }
            },
            _ => {},
        }
    }

    /// Moves the pixel by the given steps and holds it to the terminal.
    pub fn step(&mut self, steps: (i32, i32))
        requires
            0 <= steps.0 <= 2,
            0 <= steps.1 <= 2,
        ensures
            *final(self) == (RandomWalker {
                position: stepped(
                    old(self).position,
                    steps,
                    old(self).tattoy.width,
                    old(self).tattoy.height,
                ),
                ..*old(self)
            }),
    {
        let width: i64 = self.tattoy.width as i64;
        let height: i64 = self.tattoy.height as i64 * 2;
        let x: i64 = self.position.0 as i64 + steps.0 as i64 - 1;
        let y: i64 = self.position.1 as i64 + steps.1 as i64 - 1;
        self.position = (RandomWalker::hold(x, width), RandomWalker::hold(y, height));
    }

    fn hold(coordinate: i64, length: i64) -> (result: i32)
        requires
            0 <= length <= 2 * u16::MAX,
        ensures
            result == held(coordinate as int, length as int),
    {
        if coordinate < 1 || length < 2 {
            1
        } else if coordinate > length - 1 {
            (length - 1) as i32
        } else {
            coordinate as i32
        }
    }

    /// Draws a frame: the pixel takes a step of chance, its colour drifts,
    /// and it is drawn alone onto a fresh surface. In a terminal too small
    /// to hold the pixel nothing can be drawn, which is an error.
    pub fn render<D: Drift, M: ColourMath>(&mut self, drift: &D, math: &M) -> (drawn: Result<
        FrameUpdate,
        CoordError,
    >)
        requires
            old(self).wf(),
        ensures
            final(self).wf(),
            exists|steps: (i32, i32)|
                0 <= steps.0 <= 2 && 0 <= steps.1 <= 2 && final(self).position == #[trigger] stepped(
                    old(self).position,
                    steps,
                    old(self).tattoy.width,
                    old(self).tattoy.height,
                ),
            final(self).colour.alpha == old(self).colour.alpha,
            !final(self).colour.red.is_nan() ==> 0 <= final(self).colour.red.position() <= ONE_BITS,
            !final(self).colour.green.is_nan() ==> 0 <= final(self).colour.green.position()
                <= ONE_BITS,
            !final(self).colour.blue.is_nan() ==> 0 <= final(self).colour.blue.position() <= ONE_BITS,
            drawn is Err <==> old(self).tattoy.width < 2 || old(self).tattoy.height < 1,
            drawn matches Ok(update) ==> {
                &&& update matches FrameUpdate::TattoySurface(surface)
                &&& surface.wf()
                &&& surface.id@ == old(self).tattoy.id@
                &&& surface.grid.width == old(self).tattoy.width
                &&& surface.grid.height == old(self).tattoy.height
                &&& forall|x: int, y: int|
                    surface.grid.contains(x, y) ==> #[trigger] surface.grid.cell(x, y) == (if x
                        == final(self).position.0 && y == final(self).position.1 / 2 {
                        with_pixel(
                            blank_cell(),
                            final(self).position.1 % 2 == 0,
                            final(self).colour,
                        )
                    } else {
                        blank_cell()
                    })
            },
    {
        let steps = (random_between(0, 2), random_between(0, 2));
        self.step(steps);
        let rate = Scalar::from_bits(COLOUR_CHANGE_RATE_BITS);
        self.colour.red = drift.drifted(self.colour.red, rate).clamp_to_unit();
        self.colour.green = drift.drifted(self.colour.green, rate).clamp_to_unit();
        self.colour.blue = drift.drifted(self.colour.blue, rate).clamp_to_unit();
        proof {
            crate::scalar::lemma_clamped_in_unit_range(self.colour.red);
            crate::scalar::lemma_clamped_in_unit_range(self.colour.green);
            crate::scalar::lemma_clamped_in_unit_range(self.colour.blue);
        }
        self.tattoy.initialise_surface();
        let x_usize: usize = self.position.0 as usize;
        let y_usize: usize = self.position.1 as usize;
        proof {
            crate::compositor::lemma_half_blocks();
        }
        if let Err(error) = self.tattoy.surface.add_pixel(x_usize, y_usize, self.colour, math) {
            return Err(error);
        }
        proof {
            assert forall|x: int, y: int| self.tattoy.surface.grid.contains(x, y) implies
                #[trigger] self.tattoy.surface.grid.cell(x, y) == (if x == self.position.0 && y
                == self.position.1 / 2 {
                with_pixel(blank_cell(), self.position.1 % 2 == 0, self.colour)
            } else {
                blank_cell()
            }) by {}
        }
        Ok(self.tattoy.send_output())
    }
}

} // verus!
