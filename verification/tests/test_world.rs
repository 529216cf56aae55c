use ray_tracer::implementations::camera::Camera;
use ray_tracer::implementations::intersection::Intersection;
use ray_tracer::implementations::light::Light;
use ray_tracer::implementations::matrices::{
    rotation_y, translation, view_transform, Matrix4x4,
};
use ray_tracer::implementations::ray::Ray;
use ray_tracer::implementations::shape::{Shape, ShapeType};
use ray_tracer::implementations::tuples::{color, point, vector, Vec4};
use ray_tracer::implementations::world::World;

fn fx(v: f64) -> i64 {
    (v * 1_000_000_000_000.0).round() as i64
}

fn approx(a: i64, b: i64) -> bool {
    (a - b).abs() <= 50_000_000
}

fn approx_v(a: &Vec4, b: &Vec4) -> bool {
    approx(a.0, b.0) && approx(a.1, b.1) && approx(a.2, b.2) && approx(a.3, b.3)
}

fn approx_m(a: &Matrix4x4, b: &Matrix4x4) -> bool {
    approx_v(&a.0, &b.0) && approx_v(&a.1, &b.1) && approx_v(&a.2, &b.2) && approx_v(&a.3, &b.3)
}

#[test]
fn intersect_world() {
    let world = World::new();
    let ray = Ray { origin: point(fx(0.0), fx(0.0), fx(-5.0)), direction: vector(fx(0.0), fx(0.0), fx(1.0)) };
    let intersections = world.intersect(&ray);
    assert_eq!(intersections.len(), 4);
    assert_eq!(intersections[0].t, fx(4.0));
    assert_eq!(intersections[1].t, fx(4.5));
    assert_eq!(intersections[2].t, fx(5.5));
    assert_eq!(intersections[3].t, fx(6.0));
}

#[test]
fn shade_hit() {
    let mut w = World::new();
    let r = Ray { origin: point(fx(0.0), fx(0.0), fx(-5.0)), direction: vector(fx(0.0), fx(0.0), fx(1.0)) };
    let i = Intersection { object: 0, t: fx(4.0) };
    let comps = i.prepare_computations(&r, &vec![i], &w.shapes);
    let c = w.shade_hit(&comps, 5);
    assert!(approx_v(&c, &color(fx(0.38066), fx(0.47583), fx(0.2855))));

    w.light = Light {
        position: point(fx(0.0), fx(0.25), fx(0.0)),
        intensity: color(fx(1.0), fx(1.0), fx(1.0)),
    };
    let r = Ray { origin: point(fx(0.0), fx(0.0), fx(0.0)), direction: vector(fx(0.0), fx(0.0), fx(1.0)) };
    let i = Intersection { object: 1, t: fx(0.5) };
    let comps = i.prepare_computations(&r, &vec![i], &w.shapes);
    let c = w.shade_hit(&comps, 5);
    assert!(approx_v(&c, &color(fx(0.90498), fx(0.90498), fx(0.90498))));
}

#[test]
fn color_at() {
    // ray misses
    let mut w = World::new();
    let r = Ray { origin: point(fx(0.0), fx(0.0), fx(-5.0)), direction: vector(fx(0.0), fx(1.0), fx(0.0)) };
    let c = w.color_at(&r, 5);
    assert_eq!(c, color(fx(0.0), fx(0.0), fx(0.0)));

    // ray hits
    let r = Ray { origin: point(fx(0.0), fx(0.0), fx(-5.0)), direction: vector(fx(0.0), fx(0.0), fx(1.0)) };
    let c = w.color_at(&r, 5);
    assert!(approx_v(&c, &color(fx(0.38066), fx(0.47583), fx(0.2855))));

    // ray in-between two concentric spheres and pointed at inner:
    // color should be color of inner sphere
    w.shapes[0].material.ambient = fx(1.0);
    w.shapes[1].material.ambient = fx(1.0);
    let r = Ray { origin: point(fx(0.0), fx(0.0), fx(0.75)), direction: vector(fx(0.0), fx(0.0), fx(-1.0)) };
    let c = w.color_at(&r, 5);
    let inner_color = w.shapes[1].material.color;
    assert!(approx_v(&c, &inner_color));
}

#[test]
fn view_transform_test() {
    let from = point(fx(0.0), fx(0.0), fx(0.0));
    let to = point(fx(0.0), fx(0.0), fx(-1.0));
    let up = vector(fx(0.0), fx(1.0), fx(0.0));
    let t = view_transform(&from, &to, &up);
    assert!(approx_m(&t, &Matrix4x4::ident()));

    let from = point(fx(1.0), fx(3.0), fx(2.0));
    let to = point(fx(4.0), fx(-2.0), fx(8.0));
    let up = vector(fx(1.0), fx(1.0), fx(0.0));
    let t = view_transform(&from, &to, &up);
    assert!(approx_m(
        &t,
        &Matrix4x4(
            Vec4(fx(-0.50709), fx(0.50709), fx(0.67612), fx(-2.36643)),
            Vec4(fx(0.76772), fx(0.60609), fx(0.12122), fx(-2.82843)),
            Vec4(fx(-0.35857), fx(0.59761), fx(-0.71714), fx(0.0)),
            Vec4(fx(0.0), fx(0.0), fx(0.0), fx(1.0)),
        )
    ));
}

#[test]
fn pixel_size() {
    let c = Camera::new(200, 125, fx(90.0));
    assert!(approx(c.pixel_size, fx(0.01)));

    let c = Camera::new(125, 200, fx(90.0));
    assert!(approx(c.pixel_size, fx(0.01)));
}

#[test]
fn ray_for_pixel() {
    let mut c = Camera::new(201, 101, fx(90.0));
    let r = c.ray_for_pixel(100, 50);
    assert!(approx_v(&r.origin, &point(fx(0.0), fx(0.0), fx(0.0))));
    assert!(approx_v(&r.direction, &vector(fx(0.0), fx(0.0), fx(-1.0))));

    let r = c.ray_for_pixel(0, 0);
    assert!(approx_v(&r.origin, &point(fx(0.0), fx(0.0), fx(0.0))));
    assert!(approx_v(&r.direction, &vector(fx(0.66519), fx(0.33259), fx(-0.66851))));

    c.transform = rotation_y(fx(45.0)).translate(fx(0.0), fx(-2.0), fx(5.0));
    let r = c.ray_for_pixel(100, 50);
    let s2 = (2.0_f64).sqrt() / 2.0;
    assert!(approx_v(&r.origin, &point(fx(0.0), fx(2.0), fx(-5.0))));
    assert!(approx_v(&r.direction, &vector(fx(s2), fx(0.0), fx(-s2))));
}

#[test]
fn render_test() {
    let w = World::new();
    let mut c = Camera::new(11, 11, fx(90.0));
    let from = point(fx(0.0), fx(0.0), fx(-5.0));
    let to = point(fx(0.0), fx(0.0), fx(0.0));
    let up = vector(fx(0.0), fx(1.0), fx(0.0));
    c.transform = view_transform(&from, &to, &up);
    let image = c.render(&w, 4);
    assert!(approx_v(&image.get(5, 5), &color(fx(0.38066), fx(0.47583), fx(0.2855))));
}

#[test]
fn is_shadowed() {
    let w = World::new();
    let p = point(fx(0.0), fx(10.0), fx(0.0));
    assert_eq!(w.is_shadowed(&p), false);

    let p = point(fx(10.0), fx(-10.0), fx(10.0));
    assert_eq!(w.is_shadowed(&p), true);

    let p = point(fx(-20.0), fx(20.0), fx(-20.0));
    assert_eq!(w.is_shadowed(&p), false);

    let p = point(fx(-2.0), fx(2.0), fx(-2.0));
    assert_eq!(w.is_shadowed(&p), false);
}

#[test]
fn shade_hit_with_shadow() {
    let mut w = World::new();
    w.light = Light {
        position: point(fx(0.0), fx(0.0), fx(-10.0)),
        intensity: color(fx(1.0), fx(1.0), fx(1.0)),
    };

    let s1 = Shape::new(ShapeType::Sphere);
    let mut s2 = Shape::new(ShapeType::Sphere);
    s2.transform = translation(fx(0.0), fx(0.0), fx(10.0));

    w.shapes = vec![s1, s2];

    let r = Ray { origin: point(fx(0.0), fx(0.0), fx(5.0)), direction: vector(fx(0.0), fx(0.0), fx(1.0)) };
    let i = Intersection { object: 1, t: fx(4.0) };
    let comps = i.prepare_computations(&r, &vec![i], &w.shapes);
    let c = w.shade_hit(&comps, 5);
    assert!(approx_v(&c, &color(fx(0.1), fx(0.1), fx(0.1))));
}
