use vstd::prelude::*;

use crate::implementations::fx::{fmul, fround, Fx, SCALE};
use crate::implementations::tuples::{sv_color, Vec4};

verus! {

/// A width x height grid of colors, stored row-major; pixel `(x, y)` lives
/// at flat index `y * width + x`.
pub struct Canvas {
    width: usize,
    height: usize,
    pixels: Vec<Vec4>,
}

/// Pixel `(x, y)` of a row-major grid of row length `w`.
pub open spec fn spixel(s: Seq<Vec4>, w: int, x: int, y: int) -> Vec4 {
    s[y * w + x]
}

/// One color channel scaled to the 8-bit pixel range: multiplied by 255,
/// rounded, and clamped into `[0, 255]` (the tracer itself never clamps).
pub open spec fn s_channel255(v: int) -> int {
    let units = fround(fmul(v, 255 * SCALE)) / (SCALE as int);
    if units < 0 {
        0
    } else if units > 255 {
        255
    } else {
        units
    }
}

impl Canvas {
    pub closed spec fn spec_width(&self) -> usize {
        self.width
    }

    pub closed spec fn spec_height(&self) -> usize {
        self.height
    }

    pub closed spec fn pixel_grid(&self) -> Seq<Vec4> {
        self.pixels@
    }

    pub open spec fn wf(&self) -> bool {
        &&& self.spec_width() <= 10_000
        &&& self.spec_height() <= 10_000
        &&& self.pixel_grid().len() == self.spec_width() * self.spec_height()
    }

    pub open spec fn pixel(&self, x: int, y: int) -> Vec4 {
        spixel(self.pixel_grid(), self.spec_width() as int, x, y)
    }

    /// A canvas of the given size with every pixel black.
    pub fn new(width: usize, height: usize) -> (c: Canvas)
        requires
            width <= 10_000,
            height <= 10_000,
        ensures
            c.wf(),
            c.spec_width() == width,
            c.spec_height() == height,
            forall|i: int| 0 <= i < width * height ==> c.pixel_grid()[i] == sv_color(0, 0, 0),
    {
        proof {
            assert(width * height <= 10_000 * 10_000) by (nonlinear_arith)
                requires
                    width <= 10_000,
                    height <= 10_000,
            ;
        }
        let total: usize = width * height;
        let mut pixels: Vec<Vec4> = Vec::new();
        let mut i: usize = 0;
        while i < total
            invariant
                i <= total,
                pixels@.len() == i,
                forall|k: int| 0 <= k < i ==> pixels@[k] == sv_color(0, 0, 0),
            decreases total - i,
        {
            pixels.push(crate::implementations::tuples::color(0, 0, 0));
            i = i + 1;
        }
        Canvas { width, height, pixels }
    }

    /// Addressing a pixel outside the grid is a caller error, excluded by
    /// precondition.
    pub fn get(&self, x: usize, y: usize) -> (r: Vec4)
        requires
            self.wf(),
            x < self.spec_width(),
            y < self.spec_height(),
        ensures
            r == self.pixel(x as int, y as int),
    {
        proof {
            lemma_flat_index_in_range(
                self.spec_width() as int,
                self.spec_height() as int,
                x as int,
                y as int,
            );
        }
        let idx: usize = y * self.width + x;
        self.pixels[idx]
    }

    pub fn set(&mut self, x: usize, y: usize, color: Vec4)
        requires
            old(self).wf(),
            x < old(self).spec_width(),
            y < old(self).spec_height(),
        ensures
            final(self).wf(),
            final(self).spec_width() == old(self).spec_width(),
            final(self).spec_height() == old(self).spec_height(),
            final(self).pixel_grid() == old(self).pixel_grid().update(
                y * old(self).spec_width() + x,
                color,
            ),
    {
        proof {
            lemma_flat_index_in_range(
                self.spec_width() as int,
                self.spec_height() as int,
                x as int,
                y as int,
            );
        }
        let idx: usize = y * self.width + x;
        self.pixels[idx] = color;
    }

    pub fn width(&self) -> (r: usize)
        ensures
            r == self.spec_width(),
    {
        self.width
    }

    pub fn height(&self) -> (r: usize)
        ensures
            r == self.spec_height(),
    {
        self.height
    }

    /// One pixel as clamped 8-bit RGB, ready for an image file.
    pub fn pixel_rgb255(&self, x: usize, y: usize) -> (r: (u8, u8, u8))
        requires
            self.wf(),
            x < self.spec_width(),
            y < self.spec_height(),
        ensures
            r.0 == s_channel255(self.pixel(x as int, y as int).0 as int),
            r.1 == s_channel255(self.pixel(x as int, y as int).1 as int),
            r.2 == s_channel255(self.pixel(x as int, y as int).2 as int),
    {
        let p: Vec4 = self.get(x, y);
        (channel255(p.0), channel255(p.1), channel255(p.2))
    }
}

/// Scale one channel into `[0, 255]`.
fn channel255(v: Fx) -> (r: u8)
    ensures
        r == s_channel255(v as int),
{
    let scaled: Fx = crate::implementations::fx::fx_round(
        crate::implementations::fx::fx_mul(v, 255 * SCALE),
    );
    if scaled <= 0 {
        proof {
            if scaled < 0 {
                lemma_neg_div(scaled as int, SCALE as int);
            }
        }
        0
    } else {
        let units: u128 = (scaled as u128) / (SCALE as u128);
        if units > 255 {
            255
        } else {
            units as u8
        }
    }
}

proof fn lemma_neg_div(a: int, d: int)
    requires
        a < 0,
        d > 0,
    ensures
        a / d < 0,
{
    assert(a / d < 0) by (nonlinear_arith)
        requires
            a < 0,
            d > 0,
    ;
}

pub proof fn lemma_flat_index_in_range(w: int, h: int, x: int, y: int)
    requires
        0 <= x < w,
        0 <= y < h,
        w <= 10_000,
        h <= 10_000,
    ensures
        0 <= y * w + x < w * h <= 100_000_000,
{
    assert(0 <= y * w + x < w * h <= 100_000_000) by (nonlinear_arith)
        requires
            0 <= x < w,
            0 <= y < h,
            w <= 10_000,
            h <= 10_000,
    ;
}

/// Updating one pixel of a well-formed grid leaves every other pixel as it
/// was.
pub proof fn lemma_set_frame(
    pre: Seq<Vec4>,
    post: Seq<Vec4>,
    w: int,
    h: int,
    x: int,
    y: int,
    c: Vec4,
)
    requires
        w <= 10_000,
        h <= 10_000,
        pre.len() == w * h,
        0 <= x < w,
        0 <= y < h,
        post == pre.update(y * w + x, c),
    ensures
        post.len() == w * h,
        spixel(post, w, x, y) == c,
        forall|xx: int, yy: int|
            0 <= xx < w && 0 <= yy < h && !(xx == x && yy == y) ==> #[trigger] spixel(
                post,
                w,
                xx,
                yy,
            ) == spixel(pre, w, xx, yy),
{
    lemma_flat_index_in_range(w, h, x, y);
    assert forall|xx: int, yy: int|
        0 <= xx < w && 0 <= yy < h && !(xx == x && yy == y) implies #[trigger] spixel(
        post,
        w,
        xx,
        yy,
    ) == spixel(pre, w, xx, yy) by {
        lemma_flat_index_unique(w, xx, yy, x, y);
        lemma_flat_index_in_range(w, h, xx, yy);
    }
}

/// Distinct pixel coordinates always map to distinct flat indices.
pub proof fn lemma_flat_index_unique(w: int, x1: int, y1: int, x2: int, y2: int)
    requires
        0 <= x1 < w,
        0 <= x2 < w,
        0 <= y1,
        0 <= y2,
        x1 != x2 || y1 != y2,
    ensures
        y1 * w + x1 != y2 * w + x2,
{
    assert(y1 * w + x1 != y2 * w + x2) by (nonlinear_arith)
        requires
            0 <= x1 < w,
            0 <= x2 < w,
            0 <= y1,
            0 <= y2,
            x1 != x2 || y1 != y2,
    ;
}

} // verus!
