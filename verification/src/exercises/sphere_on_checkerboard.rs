use vstd::prelude::*;

use crate::implementations::camera::{
    s_half_height, s_half_width, s_pixel_size, s_ray_for_pixel, Camera,
};
use crate::implementations::canvas::{lemma_flat_index_in_range, Canvas};
use crate::implementations::fx::SCALE;
use crate::implementations::light::{black, Light};
use crate::implementations::material::{default_material, Material};
use crate::implementations::matrices::{
    sdet4, smul4, stranslation, sview_transform, Matrix4x4,
};
use crate::implementations::pattern::Pattern;
use crate::implementations::patterns::texture_pattern::TexturePattern;
use crate::implementations::shape::{sshape_new, Shape, ShapeType};
use crate::implementations::tuples::{sv_color, sv_point, sv_vector, Vec4};
use crate::implementations::world::{s_color_at, sworld_wf, World};

verus! {

pub open spec fn s_board_floor(fp: TexturePattern) -> Shape {
    Shape {
        material: Material { pattern: Some(Pattern::Texture(fp)), ..default_material() },
        ..sshape_new(ShapeType::Plane)
    }
}

pub open spec fn s_board_sphere(sp: TexturePattern) -> Shape {
    Shape {
        transform: stranslation(11_400_000_000_000, SCALE as int, 0),
        material: Material {
            reflective: 800_000_000_000i64,
            pattern: Some(Pattern::Texture(sp)),
            ..default_material()
        },
        ..sshape_new(ShapeType::Sphere)
    }
}

pub open spec fn s_board_shapes(fp: TexturePattern, sp: TexturePattern) -> Seq<Shape> {
    seq![s_board_floor(fp), s_board_sphere(sp)]
}

pub open spec fn s_board_light() -> Light {
    Light {
        position: sv_point(-9_600_000_000_000, 10 * SCALE as int, -30 * SCALE as int),
        intensity: sv_color(SCALE as int, SCALE as int, SCALE as int),
    }
}

pub open spec fn s_board_view() -> Matrix4x4 {
    smul4(
        sview_transform(
            sv_point(0, 1_500_000_000_000, -3 * SCALE as int),
            sv_point(0, SCALE as int, 0),
            sv_vector(0, SCALE as int, 0),
        ),
        stranslation(-11_400_000_000_000, 0, 0),
    )
}

pub open spec fn s_board_camera() -> Camera {
    Camera {
        hsize: 300,
        vsize: 200,
        field_of_view: (60 * SCALE as int) as i64,
        transform: s_board_view(),
        half_width: s_half_width(300, 200, 60 * SCALE as int) as i64,
        half_height: s_half_height(300, 200, 60 * SCALE as int) as i64,
        pixel_size: s_pixel_size(300, 200, 60 * SCALE as int) as i64,
    }
}

/// One pixel of the textured scene: the shaded world, or black when the
/// textures or the view transform cannot be used.
pub open spec fn s_board_pixel(fp: TexturePattern, sp: TexturePattern, x: int, y: int) -> Vec4 {
    if sworld_wf(s_board_shapes(fp, sp)) && sdet4(s_board_view()) != 0 {
        s_color_at(
            s_board_shapes(fp, sp),
            s_board_light(),
            false,
            s_ray_for_pixel(s_board_camera(), x, y),
            3,
        )
    } else {
        black()
    }
}

/// Render a textured floor and a reflective textured sphere with a bounce
/// budget of 3.  The caller supplies the two already-loaded textures.
pub fn draw_scene(floor_pattern: TexturePattern, sphere_pattern: TexturePattern) -> (c: Canvas)
    ensures
        c.wf(),
        c.spec_width() == 300,
        c.spec_height() == 200,
        forall|x: int, y: int|
            0 <= x < 300 && 0 <= y < 200 ==> c.pixel(x, y) == s_board_pixel(
                floor_pattern,
                sphere_pattern,
                x,
                y,
            ),
{
    let ghost fp = floor_pattern;
    let ghost sp = sphere_pattern;
    let mut floor: Shape = Shape::new(ShapeType::Plane);
    floor.material.set_pattern(Pattern::Texture(floor_pattern));

    let mut sphere: Shape = Shape::new(ShapeType::Sphere);
    sphere.material.set_pattern(Pattern::Texture(sphere_pattern));
    sphere.transform = crate::implementations::matrices::translation(
        11_400_000_000_000,
        SCALE,
        0,
    );
    sphere.material.reflective = 800_000_000_000;

    let mut world: World = World::new();
    let mut shapes: Vec<Shape> = Vec::new();
    shapes.push(floor);
    shapes.push(sphere);
    world.shapes = shapes;
    world.light = Light {
        position: crate::implementations::tuples::point(
            -9_600_000_000_000,
            10 * SCALE,
            -30 * SCALE,
        ),
        intensity: crate::implementations::tuples::color(SCALE, SCALE, SCALE),
    };
    proof {
        assert(world.shapes@ =~= s_board_shapes(fp, sp));
    }

    let mut camera: Camera = Camera::new(300, 200, 60 * SCALE);
    camera.transform = crate::implementations::matrices::view_transform(
        &crate::implementations::tuples::point(0, 1_500_000_000_000, -3 * SCALE),
        &crate::implementations::tuples::point(0, SCALE, 0),
        &crate::implementations::tuples::vector(0, SCALE, 0),
    ).translate(-11_400_000_000_000, 0, 0);
    proof {
        assert(camera == s_board_camera());
    }

    let ok: bool = world.is_well_formed() && camera.transform.determ() != 0;
    if ok {
        camera.render(&world, 3)
    } else {
        let blank: Canvas = Canvas::new(300, 200);
        proof {
            assert forall|x: int, y: int|
                0 <= x < 300 && 0 <= y < 200 implies blank.pixel(x, y) == s_board_pixel(
                fp,
                sp,
                x,
                y,
            ) by {
                lemma_flat_index_in_range(300, 200, x, y);
            }
        }
        blank
    }
}

} // verus!
