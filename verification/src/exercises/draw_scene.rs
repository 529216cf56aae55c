use vstd::prelude::*;

use crate::implementations::camera::{
    s_half_height, s_half_width, s_pixel_size, s_ray_for_pixel, Camera,
};
use crate::implementations::canvas::{lemma_flat_index_in_range, Canvas};
use crate::implementations::fx::SCALE;
use crate::implementations::light::{black, Light};
use crate::implementations::material::{default_material, Material};
use crate::implementations::matrices::{
    sdet4, smul4, sscaling, stranslation, sview_transform, Matrix4x4,
};
use crate::implementations::pattern::Pattern;
use crate::implementations::patterns::checker_pattern::CheckerPattern;
use crate::implementations::patterns::ring_pattern::RingPattern;
use crate::implementations::shape::{sshape_new, Shape, ShapeType};
use crate::implementations::tuples::{sv_color, sv_point, sv_vector, Vec4};
use crate::implementations::world::{s_color_at, sworld_wf, World};

verus! {

pub open spec fn s_floor() -> Shape {
    Shape {
        material: Material {
            pattern: Some(
                Pattern::Checker(
                    CheckerPattern {
                        a: sv_color(800_000_000_000, 800_000_000_000, 800_000_000_000),
                        b: sv_color(0, 0, 0),
                        transform: crate::implementations::matrices::sident(),
                    },
                ),
            ),
            ..default_material()
        },
        ..sshape_new(ShapeType::Plane)
    }
}

pub open spec fn s_middle() -> Shape {
    Shape {
        transform: stranslation(-500_000_000_000, SCALE as int, 500_000_000_000),
        material: Material {
            color: sv_color(100_000_000_000, SCALE as int, 500_000_000_000),
            diffuse: 700_000_000_000i64,
            specular: 300_000_000_000i64,
            pattern: Some(
                Pattern::Ring(
                    RingPattern {
                        a: sv_color(0, SCALE as int, 0),
                        b: sv_color(SCALE as int, 0, 0),
                        transform: crate::implementations::matrices::sident(),
                    },
                ),
            ),
            ..default_material()
        },
        ..sshape_new(ShapeType::Sphere)
    }
}

pub open spec fn s_right() -> Shape {
    Shape {
        transform: smul4(
            stranslation(1_500_000_000_000, 500_000_000_000, -500_000_000_000),
            sscaling(500_000_000_000, 500_000_000_000, 500_000_000_000),
        ),
        material: Material {
            color: sv_color(500_000_000_000, SCALE as int, 100_000_000_000),
            diffuse: 700_000_000_000i64,
            specular: 300_000_000_000i64,
            ..default_material()
        },
        ..sshape_new(ShapeType::Sphere)
    }
}

pub open spec fn s_left() -> Shape {
    Shape {
        transform: smul4(
            stranslation(-1_500_000_000_000, 330_000_000_000, -750_000_000_000),
            sscaling(330_000_000_000, 330_000_000_000, 330_000_000_000),
        ),
        material: Material {
            color: sv_color(SCALE as int, 800_000_000_000, 100_000_000_000),
            diffuse: 700_000_000_000i64,
            specular: 300_000_000_000i64,
            ..default_material()
        },
        ..sshape_new(ShapeType::Sphere)
    }
}

pub open spec fn s_scene_shapes() -> Seq<Shape> {
    seq![s_floor(), s_middle(), s_right(), s_left()]
}

pub open spec fn s_scene_light() -> Light {
    Light {
        position: sv_point(-10 * SCALE as int, 10 * SCALE as int, -10 * SCALE as int),
        intensity: sv_color(SCALE as int, SCALE as int, SCALE as int),
    }
}

pub open spec fn s_scene_view() -> Matrix4x4 {
    sview_transform(
        sv_point(0, 1_500_000_000_000, -5 * SCALE as int),
        sv_point(0, SCALE as int, 0),
        sv_vector(0, SCALE as int, 0),
    )
}

pub open spec fn s_scene_camera() -> Camera {
    Camera {
        hsize: 300,
        vsize: 150,
        field_of_view: (60 * SCALE as int) as i64,
        transform: s_scene_view(),
        half_width: s_half_width(300, 150, 60 * SCALE as int) as i64,
        half_height: s_half_height(300, 150, 60 * SCALE as int) as i64,
        pixel_size: s_pixel_size(300, 150, 60 * SCALE as int) as i64,
    }
}

/// One pixel of the patterned demo scene: the shaded world, or black when
/// some transform of the hand-built scene were degenerate.
pub open spec fn s_scene_pixel(x: int, y: int) -> Vec4 {
    if sworld_wf(s_scene_shapes()) && sdet4(s_scene_view()) != 0 {
        s_color_at(
            s_scene_shapes(),
            s_scene_light(),
            false,
            s_ray_for_pixel(s_scene_camera(), x, y),
            3,
        )
    } else {
        black()
    }
}

/// Render the demo scene (a checkered floor and three spheres, one ringed)
/// with a bounce budget of 3.
pub fn draw_scene() -> (c: Canvas)
    ensures
        c.wf(),
        c.spec_width() == 300,
        c.spec_height() == 150,
        forall|x: int, y: int|
            0 <= x < 300 && 0 <= y < 150 ==> c.pixel(x, y) == s_scene_pixel(x, y),
{
    let mut floor: Shape = Shape::new(ShapeType::Plane);
    floor.material.set_pattern(
        Pattern::Checker(
            CheckerPattern {
                a: crate::implementations::tuples::color(
                    800_000_000_000,
                    800_000_000_000,
                    800_000_000_000,
                ),
                b: crate::implementations::tuples::color(0, 0, 0),
                transform: Matrix4x4::ident(),
            },
        ),
    );

    let mut middle: Shape = Shape::new(ShapeType::Sphere);
    middle.transform = crate::implementations::matrices::translation(
        -500_000_000_000,
        SCALE,
        500_000_000_000,
    );
    middle.material.color = crate::implementations::tuples::color(
        100_000_000_000,
        SCALE,
        500_000_000_000,
    );
    middle.material.diffuse = 700_000_000_000;
    middle.material.specular = 300_000_000_000;
    middle.material.set_pattern(
        Pattern::Ring(
            RingPattern {
                a: crate::implementations::tuples::color(0, SCALE, 0),
                b: crate::implementations::tuples::color(SCALE, 0, 0),
                transform: Matrix4x4::ident(),
            },
        ),
    );

    let mut right: Shape = Shape::new(ShapeType::Sphere);
    right.transform = crate::implementations::matrices::translation(
        1_500_000_000_000,
        500_000_000_000,
        -500_000_000_000,
    ).scale(500_000_000_000, 500_000_000_000, 500_000_000_000);
    right.material.color = crate::implementations::tuples::color(
        500_000_000_000,
        SCALE,
        100_000_000_000,
    );
    right.material.diffuse = 700_000_000_000;
    right.material.specular = 300_000_000_000;

    let mut left: Shape = Shape::new(ShapeType::Sphere);
    left.transform = crate::implementations::matrices::translation(
        -1_500_000_000_000,
        330_000_000_000,
        -750_000_000_000,
    ).scale(330_000_000_000, 330_000_000_000, 330_000_000_000);
    left.material.color = crate::implementations::tuples::color(
        SCALE,
        800_000_000_000,
        100_000_000_000,
    );
    left.material.diffuse = 700_000_000_000;
    left.material.specular = 300_000_000_000;

    let mut world: World = World::new();
    let mut shapes: Vec<Shape> = Vec::new();
    shapes.push(floor);
    shapes.push(middle);
    shapes.push(right);
    shapes.push(left);
    world.shapes = shapes;
    world.light = Light {
        position: crate::implementations::tuples::point(-10 * SCALE, 10 * SCALE, -10 * SCALE),
        intensity: crate::implementations::tuples::color(SCALE, SCALE, SCALE),
    };
    proof {
        assert(world.shapes@ =~= s_scene_shapes());
    }

    let mut camera: Camera = Camera::new(300, 150, 60 * SCALE);
    camera.transform = crate::implementations::matrices::view_transform(
        &crate::implementations::tuples::point(0, 1_500_000_000_000, -5 * SCALE),
        &crate::implementations::tuples::point(0, SCALE, 0),
        &crate::implementations::tuples::vector(0, SCALE, 0),
    );
    proof {
        assert(camera == s_scene_camera());
    }

    let ok: bool = world.is_well_formed() && camera.transform.determ() != 0;
    if ok {
        camera.render(&world, 3)
    } else {
        let blank: Canvas = Canvas::new(300, 150);
        proof {
            assert forall|x: int, y: int|
                0 <= x < 300 && 0 <= y < 150 implies blank.pixel(x, y) == s_scene_pixel(
                x,
                y,
            ) by {
                lemma_flat_index_in_range(300, 150, x, y);
            }
        }
        blank
    }
}

} // verus!
