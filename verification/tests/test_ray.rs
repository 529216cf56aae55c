use ray_tracer::implementations::fx::EPSILON;
use ray_tracer::implementations::intersection::{hit, Intersection};
use ray_tracer::implementations::light::{lighting, Light};
use ray_tracer::implementations::material::Material;
use ray_tracer::implementations::matrices::{scaling, translation};
use ray_tracer::implementations::ray::Ray;
use ray_tracer::implementations::shape::{glass_sphere, Shape, ShapeType};
use ray_tracer::implementations::tuples::{color, point, vector, Vec4};
use ray_tracer::implementations::world::World;

fn fx(v: f64) -> i64 {
    (v * 1_000_000_000_000.0).round() as i64
}

fn approx(a: i64, b: i64) -> bool {
    (a - b).abs() <= 50_000_000
}

fn approx_v(a: &Vec4, b: &Vec4) -> bool {
    approx(a.0, b.0) && approx(a.1, b.1) && approx(a.2, b.2) && approx(a.3, b.3)
}

#[test]
fn sphere_ray_intersections() {
    let r = Ray { origin: point(fx(0.0), fx(0.0), fx(0.0)), direction: vector(fx(0.0), fx(0.0), fx(1.0)) };
    let s = Shape::new(ShapeType::Sphere);
    let intersections = s.intersect(&r, 0);
    assert_ne!(intersections.len(), 0);
    let i1 = &intersections[0];
    let i2 = &intersections[1];
    assert_eq!(i1.object, 0);
    assert_eq!(i1.t, fx(-1.0));
    assert_eq!(i2.t, fx(1.0));

    let r = Ray { origin: point(fx(0.0), fx(0.0), fx(5.0)), direction: vector(fx(0.0), fx(0.0), fx(1.0)) };
    let intersections = s.intersect(&r, 0);
    assert_ne!(intersections.len(), 0);
    let i1 = &intersections[0];
    let i2 = &intersections[1];
    assert_eq!(i1.object, 0);
    assert_eq!(i1.t, fx(-6.0));
    assert_eq!(i2.t, fx(-4.0));
}

#[test]
fn through_center_intersections() {
    let r = Ray { origin: point(fx(0.0), fx(0.0), fx(-5.0)), direction: vector(fx(0.0), fx(0.0), fx(1.0)) };
    let s = Shape::new(ShapeType::Sphere);
    let intersections = s.intersect(&r, 0);
    assert_eq!(intersections.len(), 2);
    assert_eq!(intersections[0].t, fx(4.0));
    assert_eq!(intersections[1].t, fx(6.0));

    let r = Ray { origin: point(fx(0.0), fx(2.0), fx(-5.0)), direction: vector(fx(0.0), fx(0.0), fx(1.0)) };
    let intersections = s.intersect(&r, 0);
    assert_eq!(intersections.len(), 0);
}

#[test]
fn test_hit() {
    let i1 = Intersection { object: 0, t: fx(1.0) };
    let i2 = Intersection { object: 0, t: fx(2.0) };
    let intersections = vec![i1, i2];
    let i = hit(&intersections);
    assert_ne!(i, None);
    assert_eq!(i.unwrap(), i1);

    let i1 = Intersection { object: 0, t: fx(-1.0) };
    let i2 = Intersection { object: 0, t: fx(1.0) };
    let intersections = vec![i1, i2];
    let i = hit(&intersections);
    assert_ne!(i, None);
    assert_eq!(i.unwrap(), i2);

    let i1 = Intersection { object: 0, t: fx(-2.0) };
    let i2 = Intersection { object: 0, t: fx(-1.0) };
    let intersections = vec![i1, i2];
    let i = hit(&intersections);
    assert_eq!(i, None);

    let i1 = Intersection { object: 0, t: fx(5.0) };
    let i2 = Intersection { object: 0, t: fx(7.0) };
    let i3 = Intersection { object: 0, t: fx(-3.0) };
    let i4 = Intersection { object: 0, t: fx(2.0) };
    let intersections = vec![i1, i2, i3, i4];
    let i = hit(&intersections);
    assert_ne!(i, None);
    assert_eq!(i.unwrap(), i4);
}

#[test]
fn transform_ray() {
    let r = Ray { origin: point(fx(1.0), fx(2.0), fx(3.0)), direction: vector(fx(0.0), fx(1.0), fx(0.0)) };
    let m = translation(fx(3.0), fx(4.0), fx(5.0));
    let r2 = r.transform(&m);
    assert_eq!(r2.origin, point(fx(4.0), fx(6.0), fx(8.0)));
    assert_eq!(r2.direction, vector(fx(0.0), fx(1.0), fx(0.0)));

    let m = scaling(fx(2.0), fx(3.0), fx(4.0));
    let r2 = r.transform(&m);
    assert_eq!(r2.origin, point(fx(2.0), fx(6.0), fx(12.0)));
    assert_eq!(r2.direction, vector(fx(0.0), fx(3.0), fx(0.0)));
}

#[test]
fn intersect_transformed_spheres() {
    let r = Ray { origin: point(fx(0.0), fx(0.0), fx(-5.0)), direction: vector(fx(0.0), fx(0.0), fx(1.0)) };
    let mut s = Shape::new(ShapeType::Sphere);
    s.transform = scaling(fx(2.0), fx(2.0), fx(2.0));
    let intersections = s.intersect(&r, 0);
    assert_eq!(intersections.len(), 2);
    assert_eq!(intersections[0].t, fx(3.0));
    assert_eq!(intersections[1].t, fx(7.0));

    s.transform = translation(fx(5.0), fx(0.0), fx(0.0));
    let intersections = s.intersect(&r, 0);
    assert_eq!(intersections.len(), 0);
}

#[test]
fn sphere_surface_normals() {
    let s = Shape::new(ShapeType::Sphere);
    let n = s.normal_at(&point(fx(1.0), fx(0.0), fx(0.0)));
    assert!(approx_v(&n, &vector(fx(1.0), fx(0.0), fx(0.0))));

    let n = s.normal_at(&point(fx(0.0), fx(1.0), fx(0.0)));
    assert!(approx_v(&n, &vector(fx(0.0), fx(1.0), fx(0.0))));

    let n = s.normal_at(&point(fx(0.0), fx(0.0), fx(1.0)));
    assert!(approx_v(&n, &vector(fx(0.0), fx(0.0), fx(1.0))));

    let coord = (3.0_f64).cbrt() / 3.0;
    let n = s.normal_at(&point(fx(coord), fx(coord), fx(coord)));
    assert!(approx_v(&n, &vector(fx(coord), fx(coord), fx(coord)).normalize()));
}

#[test]
fn transformed_sphere_surface_normals() {
    let mut s = Shape::new(ShapeType::Sphere);
    s.transform = translation(fx(0.0), fx(1.0), fx(0.0));
    let n = s.normal_at(&point(fx(0.0), fx(1.70711), fx(-0.70711)));
    assert!(approx_v(&n, &vector(fx(0.0), fx(0.70711), fx(-0.70711))));

    s.transform = scaling(fx(1.0), fx(0.5), fx(1.0)).times_matrix(
        &ray_tracer::implementations::matrices::rotation_z(fx(36.0)),
    );
    let s2 = (2.0_f64).sqrt() / 2.0;
    let n = s.normal_at(&point(fx(0.0), fx(s2), fx(-s2)));
    assert!(approx_v(&n, &vector(fx(0.0), fx(0.97014), fx(-0.24254))));
}

#[test]
fn reflect_vector() {
    let v = vector(fx(1.0), fx(-1.0), fx(0.0));
    let n = vector(fx(0.0), fx(1.0), fx(0.0));
    let r = v.reflect(&n);
    assert!(approx_v(&r, &vector(fx(1.0), fx(1.0), fx(0.0))));

    let v = vector(fx(0.0), fx(-1.0), fx(0.0));
    let coord = (2.0_f64).sqrt() / 2.0;
    let n = vector(fx(coord), fx(coord), fx(0.0));
    let r = v.reflect(&n);
    assert!(approx_v(&r, &vector(fx(1.0), fx(0.0), fx(0.0))));
}

#[test]
fn lighting_test() {
    let m = Material::new();
    let position = point(fx(0.0), fx(0.0), fx(0.0));

    let shape = Shape::new(ShapeType::Sphere);

    // light and eye opposite to normal
    let eyev = vector(fx(0.0), fx(0.0), fx(-1.0));
    let normalv = vector(fx(0.0), fx(0.0), fx(-1.0));
    let light = Light {
        position: point(fx(0.0), fx(0.0), fx(-10.0)),
        intensity: color(fx(1.0), fx(1.0), fx(1.0)),
    };
    let result = lighting(&m, &shape, &light, &position, &eyev, &normalv, fx(1.0));
    assert!(approx_v(&result, &color(fx(1.9), fx(1.9), fx(1.9))));

    // light opposite to normal, eye at 45 degrees
    let s2 = (2.0_f64).sqrt() / 2.0;
    let eyev = vector(fx(0.0), fx(s2), fx(-s2));
    let normalv = vector(fx(0.0), fx(0.0), fx(-1.0));
    let result = lighting(&m, &shape, &light, &position, &eyev, &normalv, fx(1.0));
    assert!(approx_v(&result, &color(fx(1.0), fx(1.0), fx(1.0))));

    // eye directly opposite to surface normal, light at 45 degrees
    let eyev = vector(fx(0.0), fx(0.0), fx(-1.0));
    let normalv = vector(fx(0.0), fx(0.0), fx(-1.0));
    let light = Light {
        position: vector(fx(0.0), fx(10.0), fx(-10.0)),
        intensity: color(fx(1.0), fx(1.0), fx(1.0)),
    };
    let result = lighting(&m, &shape, &light, &position, &eyev, &normalv, fx(1.0));
    assert!(approx_v(&result, &color(fx(0.73481), fx(0.73481), fx(0.73481))));

    // eye and sun at opposing 45 degrees
    let eyev = vector(fx(0.0), fx(-s2), fx(-s2));
    let normalv = vector(fx(0.0), fx(0.0), fx(-1.0));
    let light = Light {
        position: point(fx(0.0), fx(10.0), fx(-10.0)),
        intensity: color(fx(1.0), fx(1.0), fx(1.0)),
    };
    let result = lighting(&m, &shape, &light, &position, &eyev, &normalv, fx(1.0));
    assert!(approx_v(&result, &color(fx(1.6363853), fx(1.6363853), fx(1.6363853))));

    // light behind surface
    let eyev = vector(fx(0.0), fx(0.0), fx(-1.0));
    let normalv = vector(fx(0.0), fx(0.0), fx(-1.0));
    let light = Light {
        position: point(fx(0.0), fx(0.0), fx(10.0)),
        intensity: color(fx(1.0), fx(1.0), fx(1.0)),
    };
    let result = lighting(&m, &shape, &light, &position, &eyev, &normalv, fx(1.0));
    assert!(approx_v(&result, &color(fx(0.1), fx(0.1), fx(0.1))));
}

#[test]
fn prepare_computations() {
    let r = Ray { origin: point(fx(0.0), fx(0.0), fx(-5.0)), direction: vector(fx(0.0), fx(0.0), fx(1.0)) };
    let shape = Shape::new(ShapeType::Sphere);
    let shapes = vec![shape];
    let i = Intersection { object: 0, t: fx(4.0) };
    let comps = i.prepare_computations(&r, &vec![i], &shapes);
    assert_eq!(comps.object, i.object);
    assert!(approx_v(&comps.point, &point(fx(0.0), fx(0.0), fx(-1.0))));
    assert!(approx_v(&comps.eyev, &vector(fx(0.0), fx(0.0), fx(-1.0))));
    assert!(approx_v(&comps.normalv, &vector(fx(0.0), fx(0.0), fx(-1.0))));
    assert_eq!(comps.inside, false);

    // intersection inside object
    let r = Ray { origin: point(fx(0.0), fx(0.0), fx(0.0)), direction: vector(fx(0.0), fx(0.0), fx(1.0)) };
    let i = Intersection { object: 0, t: fx(1.0) };
    let comps = i.prepare_computations(&r, &vec![i], &shapes);
    assert!(approx_v(&comps.point, &point(fx(0.0), fx(0.0), fx(1.0))));
    assert!(approx_v(&comps.eyev, &vector(fx(0.0), fx(0.0), fx(-1.0))));
    assert!(approx_v(&comps.normalv, &vector(fx(0.0), fx(0.0), fx(-1.0))));
    assert_eq!(comps.inside, true);
}

#[test]
fn reflect_vector_test() {
    let shape = Shape::new(ShapeType::Plane);
    let shapes = vec![shape];
    let s2 = (2.0_f64).sqrt() / 2.0;
    let r = Ray { origin: point(fx(0.0), fx(1.0), fx(-1.0)), direction: vector(fx(0.0), fx(-s2), fx(s2)) };
    let i = Intersection { object: 0, t: fx((2.0_f64).sqrt()) };
    let comps = i.prepare_computations(&r, &vec![i], &shapes);
    assert!(approx_v(&comps.reflectv, &vector(fx(0.0), fx(s2), fx(s2))));
}

#[test]
fn reflective_surface() {
    let mut w = World::new();
    let mut shape = Shape::new(ShapeType::Plane);
    shape.material.reflective = fx(0.5);
    shape.transform = translation(fx(0.0), fx(-1.0), fx(0.0));
    w.shapes.push(shape);
    let s2 = (2.0_f64).sqrt() / 2.0;
    let r = Ray { origin: point(fx(0.0), fx(0.0), fx(-3.0)), direction: vector(fx(0.0), fx(-s2), fx(s2)) };
    let i = Intersection { object: 2, t: fx((2.0_f64).sqrt()) };
    let comps = i.prepare_computations(&r, &vec![i], &w.shapes);
    let c = w.reflected_color(&comps, 1);
    assert!(approx_v(&c, &color(fx(0.19205), fx(0.24006), fx(0.14404))));
}

fn test_refraction_n1_n2_helper(index: usize, n1: f64, n2: f64) {
    let mut a = glass_sphere();
    a.transform = scaling(fx(2.0), fx(2.0), fx(2.0));
    a.material.refractive_index = fx(1.5);

    let mut b = glass_sphere();
    b.transform = translation(fx(0.0), fx(0.0), fx(-0.25));
    b.material.refractive_index = fx(2.0);

    let mut c = glass_sphere();
    c.transform = translation(fx(0.0), fx(0.0), fx(0.25));
    c.material.refractive_index = fx(2.5);

    let shapes = vec![a, b, c];

    let r = Ray { origin: point(fx(0.0), fx(0.0), fx(-4.0)), direction: vector(fx(0.0), fx(0.0), fx(1.0)) };

    let intersections = vec![
        Intersection { t: fx(2.0), object: 0 },
        Intersection { t: fx(2.75), object: 1 },
        Intersection { t: fx(3.25), object: 2 },
        Intersection { t: fx(4.75), object: 1 },
        Intersection { t: fx(5.25), object: 2 },
        Intersection { t: fx(6.0), object: 0 },
    ];

    let the_hit = intersections[index];
    let comps = the_hit.prepare_computations(&r, &intersections, &shapes);
    assert_eq!(comps.n1, Some(fx(n1)));
    assert_eq!(comps.n2, Some(fx(n2)));
}

#[test]
fn test_refraction_n1_n2() {
    test_refraction_n1_n2_helper(0, 1.0, 1.5);
    test_refraction_n1_n2_helper(1, 1.5, 2.0);
    test_refraction_n1_n2_helper(2, 2.0, 2.5);
    test_refraction_n1_n2_helper(3, 2.5, 2.5);
    test_refraction_n1_n2_helper(4, 2.5, 1.5);
    test_refraction_n1_n2_helper(5, 1.5, 1.0);
}

#[test]
fn under_point_test() {
    let r = Ray { origin: point(fx(0.0), fx(0.0), fx(-5.0)), direction: vector(fx(0.0), fx(0.0), fx(1.0)) };
    let mut shape = glass_sphere();
    shape.transform = translation(fx(0.0), fx(0.0), fx(1.0));
    let shapes = vec![shape];

    let i = Intersection { t: fx(5.0), object: 0 };
    let comps = i.prepare_computations(&r, &vec![i], &shapes);
    assert!(comps.under_point.2 > EPSILON / 2);
    assert!(comps.point.2 < comps.under_point.2);
}

#[test]
fn refraction_when_transparent() {
    let w = World::new();
    let r = Ray { origin: point(fx(0.0), fx(0.0), fx(-5.0)), direction: vector(fx(0.0), fx(0.0), fx(1.0)) };
    let intersections = vec![
        Intersection { t: fx(4.0), object: 0 },
        Intersection { t: fx(6.0), object: 0 },
    ];
    let comps = intersections[0].prepare_computations(&r, &intersections, &w.shapes);
    let c = w.refracted_color(&comps, 5);
    assert_eq!(c, color(fx(0.0), fx(0.0), fx(0.0)));
}

#[test]
fn total_internal_refraction() {
    let mut w = World::new();
    w.shapes[0].material.transparency = fx(1.0);
    w.shapes[0].material.refractive_index = fx(1.5);
    let s2 = (2.0_f64).sqrt() / 2.0;
    let r = Ray { origin: point(fx(0.0), fx(0.0), fx(s2)), direction: vector(fx(0.0), fx(1.0), fx(0.0)) };
    let intersections = vec![
        Intersection { t: fx(-s2), object: 0 },
        Intersection { t: fx(s2), object: 0 },
    ];
    let the_hit = intersections[1];
    let comps = the_hit.prepare_computations(&r, &intersections, &w.shapes);
    assert_eq!(w.refracted_color(&comps, 5), color(fx(0.0), fx(0.0), fx(0.0)));
}
