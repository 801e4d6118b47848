//! Textures: decoded RGB images sampled by pixel coordinate.

use crate::color::Color;
use image::RgbImage;
use vstd::prelude::*;

verus! {

/// An RGB image held by the `image` crate. Verus sees nothing inside it; what
/// it holds is named by `raster_samples` and `raster_dimensions`.
#[verifier::external_body]
pub struct Raster {
    image: RgbImage,
}

/// The samples a raster holds: three bytes (red, green, blue) for each pixel,
/// row after row.
pub uninterp spec fn raster_samples(raster: Raster) -> Seq<u8>;

/// The width and the height a raster was made with, in pixels.
pub uninterp spec fn raster_dimensions(raster: Raster) -> (u32, u32);

/// `ImageBuffer::from_raw`: an image of the given size over `samples`. The
/// outside function gives `None` exactly when `samples` is too short for
/// `width * height` pixels of three bytes; a longer buffer is accepted. It
/// multiplies with overflow checks, which agree with the product below as
/// long as neither side is zero.
#[verifier::external_body]
fn raster_from_raw(width: u32, height: u32, samples: Vec<u8>) -> (made: Option<Raster>)
    requires
        width > 0,
        height > 0,
    ensures
        made.is_some() <==> 3 * width * height <= samples@.len(),
        made.is_some() ==> raster_dimensions(made.unwrap()) == (width, height),
        made.is_some() ==> raster_samples(made.unwrap()) == samples@,
{
    match RgbImage::from_raw(width, height, samples) {
        Some(image) => Some(Raster { image }),
        None => None,
    }
}

/// `ImageBuffer::get_pixel`: the three samples of the pixel in column `x` of
/// row `y`. The outside function panics outside the image, so both are asked
/// to lie inside it.
#[verifier::external_body]
fn raster_pixel(raster: &Raster, x: u32, y: u32) -> (rgb: (u8, u8, u8))
    requires
        x < raster_dimensions(*raster).0,
        y < raster_dimensions(*raster).1,
    ensures
        rgb.0 == raster_samples(*raster)[3 * (y * raster_dimensions(*raster).0 + x)],
        rgb.1 == raster_samples(*raster)[3 * (y * raster_dimensions(*raster).0 + x) + 1],
        rgb.2 == raster_samples(*raster)[3 * (y * raster_dimensions(*raster).0 + x) + 2],
{
    let rgb = raster.image.get_pixel(x, y);
    (rgb[0], rgb[1], rgb[2])
}

/// A grid of `width` by `height` colours (both at least 1) that never
/// changes once made.
pub struct Texture {
    raster: Raster,
    width: u32,
    height: u32,
}

impl Texture {
    #[verifier::type_invariant]
    spec fn inv(self) -> bool {
        &&& self.width > 0
        &&& self.height > 0
        &&& raster_dimensions(self.raster) == (self.width, self.height)
    }

    /// The number of columns.
    pub closed spec fn spec_width(&self) -> u32 {
        self.width
    }

    /// The number of rows.
    pub closed spec fn spec_height(&self) -> u32 {
        self.height
    }

    /// The samples of the texture: red, green and blue of each texel, row
    /// after row.
    pub closed spec fn samples(&self) -> Seq<u8> {
        raster_samples(self.raster)
    }

    /// The colour of the texel in column `x` of row `y`.
    pub open spec fn texel(&self, x: int, y: int) -> Color
        recommends
            0 <= x < self.spec_width(),
            0 <= y < self.spec_height(),
    {
        let first = 3 * (y * self.spec_width() + x);
        Color {
            r: self.samples()[first],
            g: self.samples()[first + 1],
            b: self.samples()[first + 2],
        }
    }

    /// Makes a texture from decoded samples. There is none for an image
    /// without pixels, or when `samples` holds fewer than `width * height`
    /// triples.
    pub fn new(width: u32, height: u32, samples: Vec<u8>) -> (made: Option<Texture>)
        ensures
            made.is_some() <==> width > 0 && height > 0 && 3 * width * height <= samples@.len(),
            made.is_some() ==> made.unwrap().spec_width() == width,
            made.is_some() ==> made.unwrap().spec_height() == height,
            made.is_some() ==> made.unwrap().samples() == samples@,
    {
        if width == 0 || height == 0 {
            return None;
        }
        match raster_from_raw(width, height, samples) {
            Some(raster) => Some(Texture { raster, width, height }),
            None => None,
        }
    }

    /// The number of columns.
    #[verifier::when_used_as_spec(spec_width)]
    pub fn width(&self) -> (w: u32)
        ensures
            w == self.spec_width(),
            w > 0,
    {
        proof {
            use_type_invariant(self);
        }
        self.width
    }

    /// The number of rows.
    #[verifier::when_used_as_spec(spec_height)]
    pub fn height(&self) -> (h: u32)
        ensures
            h == self.spec_height(),
            h > 0,
    {
        proof {
            use_type_invariant(self);
        }
        self.height
    }

    /// The colour of the texel at `(x, y)`; a coordinate past the last column
    /// or row is taken as the last one.
    pub fn get_pixel(&self, x: usize, y: usize) -> (c: Color)
        ensures
            c == self.texel(
                if x < self.spec_width() {
                    x as int
                } else {
                    self.spec_width() - 1
                },
                if y < self.spec_height() {
                    y as int
                } else {
                    self.spec_height() - 1
                },
            ),
    {
        proof {
            use_type_invariant(self);
        }
        let last_x: u32 = self.width - 1;
        let last_y: u32 = self.height - 1;
        let clamped_x: u32 = if x < last_x as usize {
            x as u32
        } else {
            last_x
        };
        let clamped_y: u32 = if y < last_y as usize {
            y as u32
        } else {
            last_y
        };
        let rgb = raster_pixel(&self.raster, clamped_x, clamped_y);
        Color::new(rgb.0 as i32, rgb.1 as i32, rgb.2 as i32)
    }
}

} // verus!
