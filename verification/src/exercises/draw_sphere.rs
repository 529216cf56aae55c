use vstd::prelude::*;

use crate::implementations::canvas::{lemma_set_frame, spixel, Canvas};
use crate::implementations::fx::{f_of_int, fadd, fdiv, fmul, fneg, fsub, Fx, SCALE};
use crate::implementations::intersection::{spec_hit, Intersection};
use crate::implementations::light::{black, s_lighting, Light};
use crate::implementations::material::{default_material, Material};
use crate::implementations::ray::{sposition, Ray};
use crate::implementations::shape::{
    s_intersect, s_normal_at, shape_wf, sshape_new, Shape, ShapeType,
};
use crate::implementations::tuples::{sv_color, sv_point, vneg, vnormalize, vsub, Vec4};
use crate::implementations::world::shape_check;

verus! {

/// The silhouette scene: a red unit sphere in front of a wall.
pub open spec fn s_demo_shape() -> Shape {
    Shape {
        material: Material { color: sv_color(SCALE as int, 0, 0), ..default_material() },
        ..sshape_new(ShapeType::Sphere)
    }
}

pub open spec fn s_demo_light() -> Light {
    Light {
        position: sv_point(-10 * SCALE as int, 10 * SCALE as int, -10 * SCALE as int),
        intensity: sv_color(SCALE as int, SCALE as int, SCALE as int),
    }
}

/// The color of one pixel of the silhouette render: a ray from `(0,0,-5)`
/// toward the wall point behind pixel `(x, y)`, shaded without shadows
/// where it hits the sphere and black where it misses.
pub open spec fn s_draw_sphere_pixel(x: int, y: int) -> Vec4 {
    if !shape_wf(s_demo_shape()) {
        black()
    } else {
        let wall_size = 7 * SCALE as int;
        let pixel_size = fdiv(wall_size, 100 * SCALE as int);
        let half = fdiv(wall_size, 2 * SCALE as int);
        let world_y = fsub(half, fmul(pixel_size, f_of_int(y)));
        let world_x = fadd(fneg(half), fmul(pixel_size, f_of_int(x)));
        let ray_origin = sv_point(0, 0, -5 * SCALE as int);
        let position = sv_point(world_x, world_y, 10 * SCALE as int);
        let ray = Ray { origin: ray_origin, direction: vnormalize(vsub(position, ray_origin)) };
        match spec_hit(s_intersect(s_demo_shape(), 0, ray)) {
            Some(h) => {
                let point = sposition(ray, h.t as int);
                let normal = s_normal_at(s_demo_shape(), point);
                let eye = vneg(ray.direction);
                s_lighting(
                    s_demo_shape().material,
                    s_demo_shape(),
                    s_demo_light(),
                    point,
                    eye,
                    normal,
                    SCALE as int,
                )
            },
            None => black(),
        }
    }
}

/// Render the sphere silhouette demo scene onto a 100 x 100 canvas.
pub fn draw_sphere() -> (c: Canvas)
    ensures
        c.wf(),
        c.spec_width() == 100,
        c.spec_height() == 100,
        forall|x: int, y: int|
            0 <= x < 100 && 0 <= y < 100 ==> c.pixel(x, y) == s_draw_sphere_pixel(x, y),
{
    let mut canvas: Canvas = Canvas::new(100, 100);
    let ray_origin: Vec4 = crate::implementations::tuples::point(0, 0, -5 * SCALE);
    let wall_size: Fx = 7 * SCALE;
    let pixel_size: Fx = crate::implementations::fx::fx_div(wall_size, 100 * SCALE);
    let half: Fx = crate::implementations::fx::fx_div(wall_size, 2 * SCALE);

    let mut shape: Shape = Shape::new(ShapeType::Sphere);
    shape.material.color = crate::implementations::tuples::color(SCALE, 0, 0);

    let light = Light {
        position: crate::implementations::tuples::point(-10 * SCALE, 10 * SCALE, -10 * SCALE),
        intensity: crate::implementations::tuples::color(SCALE, SCALE, SCALE),
    };

    let ok: bool = shape_check(&shape);
    let mut y: usize = 0;
    while y < 100
        invariant
            y <= 100,
            canvas.wf(),
            canvas.spec_width() == 100,
            canvas.spec_height() == 100,
            shape == s_demo_shape(),
            ok == shape_wf(s_demo_shape()),
            light == s_demo_light(),
            ray_origin == sv_point(0, 0, -5 * SCALE as int),
            pixel_size == fdiv(7 * SCALE as int, 100 * SCALE as int),
            half == fdiv(7 * SCALE as int, 2 * SCALE as int),
            forall|xx: int, yy: int|
                0 <= xx < 100 && 0 <= yy < y ==> #[trigger] spixel(
                    canvas.pixel_grid(),
                    100,
                    xx,
                    yy,
                ) == s_draw_sphere_pixel(xx, yy),
        decreases 100 - y,
    {
        let world_y: Fx = crate::implementations::fx::fx_sub(
            half,
            crate::implementations::fx::fx_mul(
                pixel_size,
                crate::implementations::fx::fx_from_int(y as i64),
            ),
        );
        let mut x: usize = 0;
        while x < 100
            invariant
                y < 100,
                x <= 100,
                canvas.wf(),
                canvas.spec_width() == 100,
                canvas.spec_height() == 100,
                shape == s_demo_shape(),
                ok == shape_wf(s_demo_shape()),
                light == s_demo_light(),
                ray_origin == sv_point(0, 0, -5 * SCALE as int),
                pixel_size == fdiv(7 * SCALE as int, 100 * SCALE as int),
                half == fdiv(7 * SCALE as int, 2 * SCALE as int),
                world_y == fsub(
                    fdiv(7 * SCALE as int, 2 * SCALE as int),
                    fmul(fdiv(7 * SCALE as int, 100 * SCALE as int), f_of_int(y as int)),
                ),
                forall|xx: int, yy: int|
                    0 <= xx < 100 && 0 <= yy < y ==> #[trigger] spixel(
                        canvas.pixel_grid(),
                        100,
                        xx,
                        yy,
                    ) == s_draw_sphere_pixel(xx, yy),
                forall|xx: int|
                    0 <= xx < x ==> #[trigger] spixel(canvas.pixel_grid(), 100, xx, y as int)
                        == s_draw_sphere_pixel(xx, y as int),
            decreases 100 - x,
        {
            let color: Vec4 = if ok {
                let world_x: Fx = crate::implementations::fx::fx_add(
                    crate::implementations::fx::fx_neg(half),
                    crate::implementations::fx::fx_mul(
                        pixel_size,
                        crate::implementations::fx::fx_from_int(x as i64),
                    ),
                );
                let position: Vec4 = crate::implementations::tuples::point(
                    world_x,
                    world_y,
                    10 * SCALE,
                );
                let r = Ray {
                    origin: ray_origin,
                    direction: position.minus(&ray_origin).normalize(),
                };
                let intersections: Vec<Intersection> = shape.intersect(&r, 0);
                match crate::implementations::intersection::hit(&intersections) {
                    Some(h) => {
                        let point: Vec4 = r.position(h.t);
                        let normal: Vec4 = shape.normal_at(&point);
                        let eye: Vec4 = r.direction.negated();
                        crate::implementations::light::lighting(
                            &shape.material,
                            &shape,
                            &light,
                            &point,
                            &eye,
                            &normal,
                            SCALE,
                        )
                    },
                    None => crate::implementations::tuples::color(0, 0, 0),
                }
            } else {
                crate::implementations::tuples::color(0, 0, 0)
            };
            let ghost pre = canvas.pixel_grid();
            canvas.set(x, y, color);
            proof {
                lemma_set_frame(
                    pre,
                    canvas.pixel_grid(),
                    100,
                    100,
                    x as int,
                    y as int,
                    color,
                );
            }
            x = x + 1;
        }
        y = y + 1;
    }
    proof {
        assert forall|x: int, yy: int|
            0 <= x < 100 && 0 <= yy < 100 implies canvas.pixel(x, yy) == s_draw_sphere_pixel(
            x,
            yy,
        ) by {
            assert(spixel(canvas.pixel_grid(), 100, x, yy) == s_draw_sphere_pixel(x, yy));
        }
    }
    canvas
}

} // verus!
