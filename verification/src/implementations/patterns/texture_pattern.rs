use vstd::prelude::*;

use crate::implementations::fx::{
    f_of_int, fabs, fadd, fdiv, fmul, tdiv, Fx, SCALE,
};
use crate::implementations::matrices::Matrix4x4;
use crate::implementations::tuples::{sv_color, Vec4};

verus! {

/// An owned raster image, kept opaque: the pixel grid and the dimensions are
/// named by the two specification functions below, and every verified use
/// goes through the contracted accessors.
#[verifier::external_body]
pub struct TextureMap {
    img: image::RgbImage,
}

/// The pixel grid of a `TextureMap`: the RGB bytes at each in-range
/// column/row pair.
pub uninterp spec fn texture_pixels(t: TextureMap) -> Map<(u32, u32), (u8, u8, u8)>;

/// The dimensions (width, height) of a `TextureMap`.
pub uninterp spec fn texture_dims(t: TextureMap) -> (u32, u32);

impl TextureMap {
    /// Relies on `image::ImageBuffer::from_raw`: it returns `Some` exactly
    /// when the buffer holds at least `3 * width * height` bytes, and the
    /// pixel at `(x, y)` is then the three bytes starting at
    /// `3 * (y * width + x)` of the row-major buffer.
    #[verifier::external_body]
    pub fn from_raw(width: u32, height: u32, data: Vec<u8>) -> (r: Option<TextureMap>)
        ensures
            (r is Some) <==> 3 * width * height <= data@.len(),
            r matches Some(t) ==> texture_dims(t) == (width, height) && forall|x: u32, y: u32|
                x < width && y < height ==> texture_pixels(t)[(x, y)] == (
                    data@[3 * (y * width + x)],
                    data@[3 * (y * width + x) + 1],
                    data@[3 * (y * width + x) + 2],
                ),
    {
        image::RgbImage::from_raw(width, height, data).map(|img| TextureMap { img })
    }

    /// Relies on `image::ImageBuffer::width`.
    #[verifier::external_body]
    pub fn width(&self) -> (r: u32)
        ensures
            r == texture_dims(*self).0,
    {
        self.img.width()
    }

    /// Relies on `image::ImageBuffer::height`.
    #[verifier::external_body]
    pub fn height(&self) -> (r: u32)
        ensures
            r == texture_dims(*self).1,
    {
        self.img.height()
    }

    /// Relies on `image::ImageBuffer::get_pixel`: in bounds, it returns the
    /// three bytes at offset `3 * (y * width + x)`; out of bounds it panics,
    /// which the precondition rules out.
    #[verifier::external_body]
    pub fn pixel_at(&self, x: u32, y: u32) -> (r: (u8, u8, u8))
        requires
            x < texture_dims(*self).0,
            y < texture_dims(*self).1,
        ensures
            r == texture_pixels(*self)[(x, y)],
    {
        let p = self.img.get_pixel(x, y);
        (p.0[0], p.0[1], p.0[2])
    }
}

impl Clone for TextureMap {
    /// Relies on the derived `Clone` of `image::ImageBuffer`, which copies
    /// the dimensions and the whole pixel buffer.
    #[verifier::external_body]
    fn clone(&self) -> (r: TextureMap)
        ensures
            r == *self,
    {
        TextureMap { img: self.img.clone() }
    }
}

/// A pattern that samples colors from a raster image, tiling it across the
/// surface by absolute world coordinates.
#[derive(Clone)]
pub struct TexturePattern {
    pub width: u32,
    pub height: u32,
    pub image_pixels: TextureMap,
    pub transform: Matrix4x4,
    pub image_scale_x: Fx,
    pub image_scale_y: Fx,
    pub z_oriented: bool,
    pub flipped: bool,
    pub offset_x: Fx,
}

/// The cached dimensions agree with the image and are nonzero, so every
/// sampled coordinate is in range.
pub open spec fn twf(t: TexturePattern) -> bool {
    &&& t.width > 0
    &&& t.height > 0
    &&& texture_dims(t.image_pixels) == (t.width, t.height)
}

/// A scalar truncated to a whole number and clamped into the `u32` range,
/// mirroring a float-to-`u32` conversion.
pub open spec fn u32_of_scalar(v: int) -> int {
    let units = tdiv(v, SCALE as int);
    if units < 0 {
        0
    } else if units > u32::MAX {
        u32::MAX as int
    } else {
        units
    }
}

/// The image column sampled for a surface point: `|x| + offset`, scaled,
/// truncated, and wrapped by the image width.
pub open spec fn stexture_col(t: TexturePattern, p: Vec4) -> int {
    u32_of_scalar(fmul(fadd(fabs(p.0 as int), t.offset_x as int), t.image_scale_x as int)) % (
    t.width as int)
}

/// The image row: from `|z|` for floor-like surfaces, else from `|y|`.
pub open spec fn stexture_row(t: TexturePattern, p: Vec4) -> int {
    if t.z_oriented {
        u32_of_scalar(fmul(fabs(p.2 as int), t.image_scale_y as int)) % (t.height as int)
    } else {
        u32_of_scalar(fmul(fabs(p.1 as int), t.image_scale_y as int)) % (t.height as int)
    }
}

pub open spec fn s_rgb_color(px: (u8, u8, u8)) -> Vec4 {
    sv_color(
        fdiv(f_of_int(px.0 as int), 255 * SCALE),
        fdiv(f_of_int(px.1 as int), 255 * SCALE),
        fdiv(f_of_int(px.2 as int), 255 * SCALE),
    )
}

/// The color a texture pattern yields at a world point: sample the wrapped
/// (and possibly mirrored) pixel and scale each byte into `[0, 1]`.
pub open spec fn s_texture_at(t: TexturePattern, p: Vec4) -> Vec4 {
    let col = if t.flipped {
        t.width - 1 - stexture_col(t, p)
    } else {
        stexture_col(t, p)
    };
    let row = if t.flipped {
        t.height - 1 - stexture_row(t, p)
    } else {
        stexture_row(t, p)
    };
    s_rgb_color(texture_pixels(t.image_pixels)[(col as u32, row as u32)])
}

/// Scale and truncate one scalar coordinate, then wrap it by `modulus`.
fn sample_coord(v: Fx, modulus: u32) -> (r: u32)
    requires
        modulus > 0,
    ensures
        r == u32_of_scalar(v as int) % (modulus as int),
{
    let units: u32 = if v <= 0 {
        0
    } else {
        let u: u128 = (v as u128) / (SCALE as u128);
        if u > u32::MAX as u128 {
            u32::MAX
        } else {
            u as u32
        }
    };
    units % modulus
}

impl TexturePattern {
    /// Wrap an already-loaded image as a pattern; an image with a zero
    /// dimension cannot be sampled and is rejected.
    pub fn new(
        image_pixels: TextureMap,
        image_scale_x: Fx,
        image_scale_y: Fx,
        offset_x: Fx,
        z_oriented: bool,
        flipped: bool,
    ) -> (r: Option<TexturePattern>)
        ensures
            (r is Some) <==> (texture_dims(image_pixels).0 > 0 && texture_dims(
                image_pixels,
            ).1 > 0),
            r matches Some(t) ==> twf(t) && t.image_pixels == image_pixels && t.transform
                == crate::implementations::matrices::sident() && t.image_scale_x == image_scale_x
                && t.image_scale_y == image_scale_y && t.offset_x == offset_x && t.z_oriented
                == z_oriented && t.flipped == flipped,
    {
        let width: u32 = image_pixels.width();
        let height: u32 = image_pixels.height();
        if width == 0 || height == 0 {
            return None;
        }
        Some(
            TexturePattern {
                width,
                height,
                image_pixels,
                transform: Matrix4x4::ident(),
                image_scale_x,
                image_scale_y,
                z_oriented,
                flipped,
                offset_x,
            },
        )
    }

    pub fn color_at(&self, point: &Vec4) -> (r: Vec4)
        requires
            twf(*self),
        ensures
            r == s_texture_at(*self, *point),
    {
        let scaled_x: Fx = crate::implementations::fx::fx_mul(
            crate::implementations::fx::fx_add(
                crate::implementations::fx::fx_abs(point.0),
                self.offset_x,
            ),
            self.image_scale_x,
        );
        let mut first_coord: u32 = sample_coord(scaled_x, self.width);
        let scaled_other: Fx = if self.z_oriented {
            crate::implementations::fx::fx_mul(
                crate::implementations::fx::fx_abs(point.2),
                self.image_scale_y,
            )
        } else {
            crate::implementations::fx::fx_mul(
                crate::implementations::fx::fx_abs(point.1),
                self.image_scale_y,
            )
        };
        let mut second_coord: u32 = sample_coord(scaled_other, self.height);
        if self.flipped {
            second_coord = self.height - 1 - second_coord;
            first_coord = self.width - 1 - first_coord;
        }
        let px: (u8, u8, u8) = self.image_pixels.pixel_at(first_coord, second_coord);
        crate::implementations::tuples::color(
            crate::implementations::fx::fx_div(
                crate::implementations::fx::fx_from_int(px.0 as i64),
                255 * SCALE,
            ),
            crate::implementations::fx::fx_div(
                crate::implementations::fx::fx_from_int(px.1 as i64),
                255 * SCALE,
            ),
            crate::implementations::fx::fx_div(
                crate::implementations::fx::fx_from_int(px.2 as i64),
                255 * SCALE,
            ),
        )
    }
}

} // verus!
