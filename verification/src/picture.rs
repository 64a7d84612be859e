//! Pictures: rectangles of pixels, as colours and as bytes.
use crate::colour::Colour;
use vstd::prelude::*;

verus! {

/// A picture whose pixels are colours: its rows from the top, each from the left.
#[derive(Debug)]
pub struct ColourImage {
    pub width: usize,
    pub height: usize,
    pub rows: Vec<Vec<Colour>>,
}

/// A picture whose pixels are four bytes each: red, green, blue and alpha.
/// The pixels stand row by row from the top.
#[derive(Debug)]
pub struct PixelImage {
    pub width: u32,
    pub height: u32,
    pub bytes: Vec<u8>,
}

/// How many bytes a pixel has.
pub const BYTES_PER_PIXEL: usize = 4;

impl ColourImage {
    /// Every row is there, and every row is as wide as the picture.
    pub open spec fn wf(&self) -> bool {
        &&& self.rows.len() == self.height
        &&& forall|y: int| 0 <= y < self.rows.len() ==> (#[trigger] self.rows[y]).len() == self.width
    }

    /// Whether the picture has a pixel in column `x` of row `y`.
    pub open spec fn contains(&self, x: int, y: int) -> bool {
        0 <= x < self.width && 0 <= y < self.height
    }

    /// The pixel in column `x` of row `y`.
    pub open spec fn pixel(&self, x: int, y: int) -> Colour
        recommends
            self.wf(),
            self.contains(x, y),
    {
        self.rows[y][x]
    }

    /// The pixel in column `x` of row `y`, if the picture has one there.
    pub fn get_pixel_checked(&self, x: usize, y: usize) -> (found: Option<Colour>)
        requires
            self.wf(),
        ensures
            found == (if self.contains(x as int, y as int) {
                Some(self.pixel(x as int, y as int))
            } else {
                None
            }),
    {
        if x < self.width && y < self.height {
            Some(self.rows[y][x])
        } else {
            None
        }
    }

    /// A picture without pixels.
    pub fn empty() -> (image: ColourImage)
        ensures
            image.wf(),
            image.width == 0,
            image.height == 0,
    {
        ColourImage { width: 0, height: 0, rows: Vec::new() }
    }

    /// The picture upside down: its rows from the bottom.
    pub fn flipv(self) -> (flipped: ColourImage)
        requires
            self.wf(),
        ensures
            flipped.wf(),
            flipped.width == self.width,
            flipped.height == self.height,
            forall|x: int, y: int|
                self.contains(x, y) ==> #[trigger] flipped.pixel(x, y) == self.pixel(
                    x,
                    self.height - 1 - y,
                ),
    {
        let width = self.width;
        let height = self.height;
        let mut rows = self.rows;
        let ghost before = rows@;
        let mut flipped: Vec<Vec<Colour>> = Vec::new();
        while rows.len() > 0
            invariant
                rows.len() + flipped.len() == height,
                rows@ == before.take(rows.len() as int),
                before.len() == height,
                forall|y: int| 0 <= y < before.len() ==> (#[trigger] before[y]).len() == width,
                forall|y: int|
                    0 <= y < flipped.len() ==> #[trigger] flipped[y] == before[height - 1 - y],
            decreases rows.len(),
        {
            let row = rows.pop().unwrap();
            flipped.push(row);
        }
        ColourImage { width, height, rows: flipped }
    }
}

impl PixelImage {
    /// There are four bytes for every pixel.
    pub open spec fn wf(&self) -> bool {
        self.bytes.len() == self.width * self.height * 4
    }

    /// Whether the picture has a pixel in column `x` of row `y`.
    pub open spec fn contains(&self, x: int, y: int) -> bool {
        0 <= x < self.width && 0 <= y < self.height
    }

    /// The four bytes of the pixel in column `x` of row `y`.
    pub open spec fn pixel(&self, x: int, y: int) -> (u8, u8, u8, u8)
        recommends
            self.wf(),
            self.contains(x, y),
    {
        let at = (y * self.width + x) * 4;
        (self.bytes[at], self.bytes[at + 1], self.bytes[at + 2], self.bytes[at + 3])
    }

    /// Width and height.
    pub fn dimensions(&self) -> (size: (u32, u32))
        ensures
            size == (self.width, self.height),
    {
        (self.width, self.height)
    }

    /// The pixel in column `x` of row `y`, if the picture has one there.
    pub fn get_pixel_checked(&self, x: u32, y: u32) -> (found: Option<(u8, u8, u8, u8)>)
        requires
            self.wf(),
        ensures
            found == (if self.contains(x as int, y as int) {
                Some(self.pixel(x as int, y as int))
            } else {
                None
            }),
    {
        if x < self.width && y < self.height {
            proof {
                lemma_pixel_index(self.width as int, self.height as int, x as int, y as int);
            }
            let at: usize = (y as usize * self.width as usize + x as usize) * 4;
            Some((self.bytes[at], self.bytes[at + 1], self.bytes[at + 2], self.bytes[at + 3]))
        } else {
            None
        }
    }
}

/// The pixels of a rectangle, counted row by row, all have their own place.
pub proof fn lemma_pixel_index(width: int, height: int, x: int, y: int)
    requires
        0 <= x < width,
        0 <= y < height,
    ensures
        0 <= y * width + x < width * height,
        0 <= y * width,
{
    assert(y * width + x < width * height) by (nonlinear_arith)
        requires
            0 <= x < width,
            0 <= y < height,
    {
    }
}

/// The rows of the picture that Lanczos resampling makes of a picture of
/// bytes, when it is fitted into a new width and height with its
/// proportions kept. Each channel of the result is a fraction of one.
pub uninterp spec fn lanczos3_rows(
    bytes: Seq<u8>,
    width: u32,
    height: u32,
    nwidth: u32,
    nheight: u32,
) -> Seq<Seq<Colour>>;

impl ColourImage {
    /// The rows of the picture.
    pub open spec fn rows_view(&self) -> Seq<Seq<Colour>> {
        self.rows@.map_values(|row: Vec<Colour>| row@)
    }
}

/// The larger of a bound and one: the most that a side of a fitted picture measures.
pub open spec fn at_least_one(bound: u32) -> int {
    if bound < 1 {
        1
    } else {
        bound as int
    }
}

/// Calls `resize` of `image::DynamicImage` with the filter `Lanczos3`, and
/// `to_rgba32f` on what comes back. The contract names the rows of the
/// result, a function of the picture and the bounds alone, and claims
/// nothing of their content. Of the size it claims what the crate says of
/// a picture that is fitted into bounds: each side measures at least one
/// pixel, and no more than its bound, or than one where the bound is zero.
/// A picture without pixels is left out: of a picture with pixels the crate
/// makes a picture with pixels, whose rows it then hands out one by one,
/// each as wide as the picture.
#[verifier::external_body]
pub(crate) fn resize_lanczos3(image: &PixelImage, nwidth: u32, nheight: u32) -> (resized: ColourImage)
    requires
        image.wf(),
        image.width > 0,
        image.height > 0,
    ensures
        resized.wf(),
        resized.rows_view() == lanczos3_rows(image.bytes@, image.width, image.height, nwidth, nheight),
        1 <= resized.width <= at_least_one(nwidth),
        1 <= resized.height <= at_least_one(nheight),
{
    let buffer = image::RgbaImage::from_raw(image.width, image.height, image.bytes.clone()).unwrap();
    let resized = image::DynamicImage::ImageRgba8(buffer).resize(
        nwidth,
        nheight,
        image::imageops::Lanczos3,
    ).to_rgba32f();
    let rows: Vec<Vec<Colour>> = resized.rows().map(
        |row| row.map(|pixel| Colour::from_bits(pixel.0[0].to_bits(), pixel.0[1].to_bits(), pixel.0[2].to_bits(), pixel.0[3].to_bits())).collect(),
    ).collect();
    ColourImage { width: resized.width() as usize, height: resized.height() as usize, rows }
}

} // verus!
