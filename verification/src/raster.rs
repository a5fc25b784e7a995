//! Decoded RGB images, kept in the `image` crate's pixel buffer.

use vstd::prelude::*;

verus! {

/// One pixel: its red, green and blue samples.
#[derive(Clone, Copy, Debug, PartialEq, Eq, Structural)]
pub struct Color {
    pub r: u8,
    pub g: u8,
    pub b: u8,
}

/// What a [`Raster`] is to a contract: its size and its samples, three per
/// pixel, pixel after pixel along a row and row after row from the top.
#[verifier::ext_equal]
pub struct RasterView {
    pub width: nat,
    pub height: nat,
    pub samples: Seq<u8>,
}

impl RasterView {
    /// Where the red sample of the pixel in column `x` of row `y` lies.
    pub open spec fn offset(self, x: int, y: int) -> int {
        (y * self.width + x) * 3
    }

    /// The pixel in column `x` of row `y`.
    pub open spec fn pixel(self, x: int, y: int) -> Color {
        Color {
            r: self.samples[self.offset(x, y)],
            g: self.samples[self.offset(x, y) + 1],
            b: self.samples[self.offset(x, y) + 2],
        }
    }
}

/// Whether a buffer of `len` samples holds an RGB image of the given size,
/// with the sample count computed in `usize` without overflow.
pub open spec fn buffer_fits(width: u32, height: u32, len: nat) -> bool {
    &&& 3 * width <= usize::MAX
    &&& 3 * width * height <= len
}

/// A decoded RGB image with eight bits per sample.
///
/// The pixels live in an `image::RgbImage`. Nothing of that buffer is proved
/// here: what the functions below say of it is taken from the `image` crate.
#[verifier::external_body]
pub struct Raster {
    inner: image::RgbImage,
}

/// The width that the buffer inside `img` was made with.
pub uninterp spec fn raster_width(img: Raster) -> u32;

/// The height that the buffer inside `img` was made with.
pub uninterp spec fn raster_height(img: Raster) -> u32;

/// The samples that the buffer inside `img` holds, in storage order.
pub uninterp spec fn raster_samples(img: Raster) -> Seq<u8>;

impl View for Raster {
    type V = RasterView;

    open spec fn view(&self) -> RasterView {
        RasterView {
            width: raster_width(*self) as nat,
            height: raster_height(*self) as nat,
            samples: raster_samples(*self),
        }
    }
}

/// `image::ImageBuffer::from_raw` for RGB pixels over a `Vec<u8>`. It
/// multiplies three by the width and then by the height with overflow
/// checks, and keeps the buffer, untouched and together with the two sizes,
/// exactly when that product exists and the buffer is at least as long.
#[verifier::external_body]
fn buffer_from_raw(width: u32, height: u32, samples: Vec<u8>) -> (res: Option<Raster>)
    ensures
        res.is_some() <==> buffer_fits(width, height, samples@.len()),
        res matches Some(img) ==> {
            &&& raster_width(img) == width
            &&& raster_height(img) == height
            &&& raster_samples(img) == samples@
        },
{
    match image::RgbImage::from_raw(width, height, samples) {
        Some(inner) => Some(Raster { inner }),
        None => None,
    }
}

/// `image::ImageBuffer::width`, which returns the stored width.
#[verifier::external_body]
fn buffer_width(img: &Raster) -> (w: u32)
    ensures
        w == raster_width(*img),
{
    img.inner.width()
}

/// `image::ImageBuffer::height`, which returns the stored height.
#[verifier::external_body]
fn buffer_height(img: &Raster) -> (h: u32)
    ensures
        h == raster_height(*img),
{
    img.inner.height()
}

/// `image::ImageBuffer::get_pixel`. It panics outside the image, which the
/// precondition excludes. Inside, it reads the three samples that start at
/// `(y * width + x) * 3`: red, green, blue.
#[verifier::external_body]
fn buffer_get_pixel(img: &Raster, x: u32, y: u32) -> (c: Color)
    requires
        x < raster_width(*img),
        y < raster_height(*img),
    ensures
        c.r == raster_samples(*img)[(y * raster_width(*img) + x) * 3],
        c.g == raster_samples(*img)[(y * raster_width(*img) + x) * 3 + 1],
        c.b == raster_samples(*img)[(y * raster_width(*img) + x) * 3 + 2],
{
    let p = img.inner.get_pixel(x, y);
    Color { r: p.0[0], g: p.0[1], b: p.0[2] }
}

impl Raster {
    /// Makes an image of `width` by `height` pixels from its samples: red,
    /// green and blue of each pixel, row after row. Returns `None` when the
    /// buffer is too short for that size; a longer buffer is kept whole.
    pub fn from_raw(width: u32, height: u32, samples: Vec<u8>) -> (res: Option<Raster>)
        ensures
            res.is_some() <==> buffer_fits(width, height, samples@.len()),
            res matches Some(img) ==> img@ == (RasterView {
                width: width as nat,
                height: height as nat,
                samples: samples@,
            }),
    {
        buffer_from_raw(width, height, samples)
    }

    /// The number of pixel columns.
    pub fn width(&self) -> (w: u32)
        ensures
            w == self@.width,
    {
        buffer_width(self)
    }

    /// The number of pixel rows.
    pub fn height(&self) -> (h: u32)
        ensures
            h == self@.height,
    {
        buffer_height(self)
    }

    /// The pixel in column `x` of row `y`.
    pub fn get_pixel(&self, x: u32, y: u32) -> (c: Color)
        requires
            x < self@.width,
            y < self@.height,
        ensures
            c == self@.pixel(x as int, y as int),
    {
        buffer_get_pixel(self, x, y)
    }
}

} // verus!
