use vstd::prelude::*;

use crate::implementations::canvas::Canvas;
use crate::implementations::fx::{
    f_of_int, fadd, fdiv, fmul, fneg, fsub, Fx, HALF_UNIT, SCALE,
};
use crate::implementations::matrices::{sdeg2rad, sdet4, sinv4, smul4v, Matrix4x4};
use crate::implementations::ray::Ray;
use crate::implementations::trig::ftan;
use crate::implementations::tuples::{sv_point, vnormalize, vsub, Vec4};
use crate::implementations::world::{s_color_at, world_wf, World};

verus! {

/// The camera: pixel grid dimensions, a vertical field of view in degrees,
/// the world-to-camera view transform, and the derived canvas geometry.
pub struct Camera {
    pub hsize: usize,
    pub vsize: usize,
    pub field_of_view: Fx,
    pub transform: Matrix4x4,
    pub half_height: Fx,
    pub half_width: Fx,
    pub pixel_size: Fx,
}

/// Half the canvas extent at distance 1: the tangent of half the field of
/// view.
pub open spec fn s_half_view(fov: int) -> int {
    ftan(fdiv(sdeg2rad(fov), 2 * SCALE))
}

pub open spec fn s_aspect(h: int, v: int) -> int {
    fdiv(f_of_int(h), f_of_int(v))
}

pub open spec fn s_half_width(h: int, v: int, fov: int) -> int {
    if s_aspect(h, v) >= SCALE {
        s_half_view(fov)
    } else {
        fmul(s_half_view(fov), s_aspect(h, v))
    }
}

pub open spec fn s_half_height(h: int, v: int, fov: int) -> int {
    if s_aspect(h, v) >= SCALE {
        fdiv(s_half_view(fov), s_aspect(h, v))
    } else {
        s_half_view(fov)
    }
}

pub open spec fn s_pixel_size(h: int, v: int, fov: int) -> int {
    fdiv(fmul(s_half_width(h, v, fov), 2 * SCALE), f_of_int(h))
}

/// A camera whose stored derived fields agree with its dimensions and whose
/// view transform is invertible.
pub open spec fn camera_wf(c: Camera) -> bool {
    &&& 1 <= c.hsize <= 10_000
    &&& 1 <= c.vsize <= 10_000
    &&& sdet4(c.transform) != 0
}

/// The world-space ray through the center of pixel `(px, py)`: the pixel is
/// projected onto the canvas plane `z == -1` in camera space and both it
/// and the camera origin are carried to world space by the inverse view
/// transform.
pub open spec fn s_ray_for_pixel(c: Camera, px: int, py: int) -> Ray {
    let xoffset = fmul(fadd(f_of_int(px), HALF_UNIT as int), c.pixel_size as int);
    let yoffset = fmul(fadd(f_of_int(py), HALF_UNIT as int), c.pixel_size as int);
    let world_x = fsub(c.half_width as int, xoffset);
    let world_y = fsub(c.half_height as int, yoffset);
    let inv = sinv4(c.transform);
    let pixel = smul4v(inv, sv_point(world_x, world_y, fneg(SCALE as int)));
    let origin = smul4v(inv, sv_point(0, 0, 0));
    Ray { origin, direction: vnormalize(vsub(pixel, origin)) }
}

impl Camera {
    pub fn new(hsize: usize, vsize: usize, field_of_view: Fx) -> (c: Camera)
        requires
            1 <= hsize <= 10_000,
            1 <= vsize <= 10_000,
        ensures
            c.hsize == hsize,
            c.vsize == vsize,
            c.field_of_view == field_of_view,
            c.transform == crate::implementations::matrices::sident(),
            c.half_width == s_half_width(hsize as int, vsize as int, field_of_view as int),
            c.half_height == s_half_height(hsize as int, vsize as int, field_of_view as int),
            c.pixel_size == s_pixel_size(hsize as int, vsize as int, field_of_view as int),
    {
        let half_view: Fx = crate::implementations::trig::fx_tan(
            crate::implementations::fx::fx_div(
                crate::implementations::matrices::degrees_to_radians(field_of_view),
                2 * SCALE,
            ),
        );
        let aspect: Fx = crate::implementations::fx::fx_div(
            crate::implementations::fx::fx_from_int(hsize as i64),
            crate::implementations::fx::fx_from_int(vsize as i64),
        );
        let half_width: Fx;
        let half_height: Fx;
        if aspect >= SCALE {
            half_width = half_view;
            half_height = crate::implementations::fx::fx_div(half_view, aspect);
        } else {
            half_width = crate::implementations::fx::fx_mul(half_view, aspect);
            half_height = half_view;
        }
        Camera {
            hsize,
            vsize,
            field_of_view,
            transform: Matrix4x4::ident(),
            half_height,
            half_width,
            pixel_size: crate::implementations::fx::fx_div(
                crate::implementations::fx::fx_mul(half_width, 2 * SCALE),
                crate::implementations::fx::fx_from_int(hsize as i64),
            ),
        }
    }

    pub fn ray_for_pixel(&self, px: usize, py: usize) -> (r: Ray)
        requires
            sdet4(self.transform) != 0,
            px <= 1_000_000,
            py <= 1_000_000,
        ensures
            r == s_ray_for_pixel(*self, px as int, py as int),
    {
        let xoffset: Fx = crate::implementations::fx::fx_mul(
            crate::implementations::fx::fx_add(
                crate::implementations::fx::fx_from_int(px as i64),
                HALF_UNIT,
            ),
            self.pixel_size,
        );
        let yoffset: Fx = crate::implementations::fx::fx_mul(
            crate::implementations::fx::fx_add(
                crate::implementations::fx::fx_from_int(py as i64),
                HALF_UNIT,
            ),
            self.pixel_size,
        );
        let world_x: Fx = crate::implementations::fx::fx_sub(self.half_width, xoffset);
        let world_y: Fx = crate::implementations::fx::fx_sub(self.half_height, yoffset);
        let inverse: Matrix4x4 = self.transform.invert();
        let pixel: Vec4 = inverse.times_vec(
            &crate::implementations::tuples::point(
                world_x,
                world_y,
                crate::implementations::fx::fx_neg(SCALE),
            ),
        );
        let origin: Vec4 = inverse.times_vec(&crate::implementations::tuples::point(0, 0, 0));
        let direction: Vec4 = pixel.minus(&origin).normalize();
        Ray { origin, direction }
    }

    /// Render the scene: one ray through every pixel, colored by the
    /// recursive shading of the world, bounded by `reflection_limit`.
    #[verifier::rlimit(100)]
    #[verifier::spinoff_prover]
    pub fn render(&self, world: &World, reflection_limit: u32) -> (c: Canvas)
        requires
            camera_wf(*self),
            world_wf(*world),
        ensures
            c.wf(),
            c.spec_width() == self.hsize,
            c.spec_height() == self.vsize,
            forall|x: int, y: int|
                0 <= x < self.hsize && 0 <= y < self.vsize ==> c.pixel(x, y) == s_color_at(
                    world.shapes@,
                    world.light,
                    world.quick_rendered,
                    s_ray_for_pixel(*self, x, y),
                    reflection_limit,
                ),
    {
        let mut canvas: Canvas = Canvas::new(self.hsize, self.vsize);
        let mut y: usize = 0;
        while y < self.vsize
            invariant
                camera_wf(*self),
                world_wf(*world),
                y <= self.vsize,
                canvas.wf(),
                canvas.spec_width() == self.hsize,
                canvas.spec_height() == self.vsize,
                forall|xx: int, yy: int|
                    0 <= xx < self.hsize && 0 <= yy < y ==> #[trigger] crate::implementations::canvas::spixel(
                        canvas.pixel_grid(),
                        self.hsize as int,
                        xx,
                        yy,
                    ) == s_color_at(
                        world.shapes@,
                        world.light,
                        world.quick_rendered,
                        s_ray_for_pixel(*self, xx, yy),
                        reflection_limit,
                    ),
            decreases self.vsize - y,
        {
            let mut x: usize = 0;
            while x < self.hsize
                invariant
                    camera_wf(*self),
                    world_wf(*world),
                    y < self.vsize,
                    x <= self.hsize,
                    canvas.wf(),
                    canvas.spec_width() == self.hsize,
                    canvas.spec_height() == self.vsize,
                    forall|xx: int, yy: int|
                        0 <= xx < self.hsize && 0 <= yy < y ==> #[trigger] crate::implementations::canvas::spixel(
                            canvas.pixel_grid(),
                            self.hsize as int,
                            xx,
                            yy,
                        ) == s_color_at(
                            world.shapes@,
                            world.light,
                            world.quick_rendered,
                            s_ray_for_pixel(*self, xx, yy),
                            reflection_limit,
                        ),
                    forall|xx: int|
                        0 <= xx < x ==> #[trigger] crate::implementations::canvas::spixel(
                            canvas.pixel_grid(),
                            self.hsize as int,
                            xx,
                            y as int,
                        ) == s_color_at(
                            world.shapes@,
                            world.light,
                            world.quick_rendered,
                            s_ray_for_pixel(*self, xx, y as int),
                            reflection_limit,
                        ),
                decreases self.hsize - x,
            {
                let ray: Ray = self.ray_for_pixel(x, y);
                let color: Vec4 = world.color_at(&ray, reflection_limit);
                let ghost pre = canvas.pixel_grid();
                canvas.set(x, y, color);
                proof {
                    crate::implementations::canvas::lemma_set_frame(
                        pre,
                        canvas.pixel_grid(),
                        self.hsize as int,
                        self.vsize as int,
                        x as int,
                        y as int,
                        color,
                    );
                }
                x = x + 1;
            }
            y = y + 1;
        }
        proof {
            assert forall|x: int, yy: int|
                0 <= x < self.hsize && 0 <= yy < self.vsize implies canvas.pixel(x, yy)
                == s_color_at(
                world.shapes@,
                world.light,
                world.quick_rendered,
                s_ray_for_pixel(*self, x, yy),
                reflection_limit,
            ) by {
                assert(crate::implementations::canvas::spixel(
                    canvas.pixel_grid(),
                    self.hsize as int,
                    x,
                    yy,
                ) == s_color_at(
                    world.shapes@,
                    world.light,
                    world.quick_rendered,
                    s_ray_for_pixel(*self, x, yy),
                    reflection_limit,
                ));
            }
        }
        canvas
    }
}

} // verus!
