use ray_tracer::implementations::matrices::{scaling, translation, Matrix4x4};
use ray_tracer::implementations::pattern::Pattern;
use ray_tracer::implementations::patterns::checker_pattern::CheckerPattern;
use ray_tracer::implementations::patterns::gradient_pattern::GradientPattern;
use ray_tracer::implementations::patterns::ring_pattern::RingPattern;
use ray_tracer::implementations::patterns::striped_pattern::StripedPattern;
use ray_tracer::implementations::shape::{Shape, ShapeType};
use ray_tracer::implementations::tuples::{color, point, Vec4};

fn fx(v: f64) -> i64 {
    (v * 1_000_000_000_000.0).round() as i64
}

fn white() -> Vec4 {
    Vec4(fx(1.0), fx(1.0), fx(1.0), 0)
}

fn black() -> Vec4 {
    Vec4(fx(0.0), fx(0.0), fx(0.0), 0)
}

#[test]
fn test() {
    let striped_pattern = StripedPattern { a: white(), b: black(), transform: Matrix4x4::ident() };

    let shape = Shape::new(ShapeType::Sphere);

    assert_eq!(striped_pattern.color_at(&shape, &point(fx(0.0), fx(0.0), fx(0.0))), white());
    assert_eq!(striped_pattern.color_at(&shape, &point(fx(0.0), fx(1.0), fx(0.0))), white());
    assert_eq!(striped_pattern.color_at(&shape, &point(fx(0.0), fx(2.0), fx(0.0))), white());

    assert_eq!(striped_pattern.color_at(&shape, &point(fx(0.0), fx(0.0), fx(0.0))), white());
    assert_eq!(striped_pattern.color_at(&shape, &point(fx(0.0), fx(0.0), fx(1.0))), white());
    assert_eq!(striped_pattern.color_at(&shape, &point(fx(0.0), fx(0.0), fx(2.0))), white());

    assert_eq!(striped_pattern.color_at(&shape, &point(fx(0.0), fx(0.0), fx(0.0))), white());
    assert_eq!(striped_pattern.color_at(&shape, &point(fx(0.9), fx(0.0), fx(0.0))), white());
    assert_eq!(striped_pattern.color_at(&shape, &point(fx(1.0), fx(0.0), fx(2.0))), black());
    assert_eq!(striped_pattern.color_at(&shape, &point(fx(-0.1), fx(0.0), fx(2.0))), black());
    assert_eq!(striped_pattern.color_at(&shape, &point(fx(-1.0), fx(0.0), fx(2.0))), black());
    assert_eq!(striped_pattern.color_at(&shape, &point(fx(-1.1), fx(0.0), fx(2.0))), white());
}

#[test]
fn stripes_with_object_transformation() {
    let mut shape = Shape::new(ShapeType::Sphere);
    shape.transform = scaling(fx(2.0), fx(2.0), fx(2.0));
    shape.material.pattern = Some(Pattern::Striped(StripedPattern {
        a: white(),
        b: black(),
        transform: Matrix4x4::ident(),
    }));
    if let Some(pattern) = &shape.material.pattern {
        let material_color = pattern.color_at(&shape, &point(fx(1.5), fx(0.0), fx(0.0)));
        assert_eq!(material_color, white());
    } else {
        panic!("Pattern was null when matching shape material");
    }

    let mut shape = Shape::new(ShapeType::Sphere);
    shape.material.pattern = Some(Pattern::Striped(StripedPattern {
        a: white(),
        b: black(),
        transform: scaling(fx(2.0), fx(2.0), fx(2.0)),
    }));
    if let Some(pattern) = &shape.material.pattern {
        let material_color = pattern.color_at(&shape, &point(fx(1.5), fx(0.0), fx(0.0)));
        assert_eq!(material_color, white());
    } else {
        panic!("Pattern was null when matching shape material");
    }

    let mut shape = Shape::new(ShapeType::Sphere);
    shape.material.pattern = Some(Pattern::Striped(StripedPattern {
        a: white(),
        b: black(),
        transform: translation(fx(0.5), fx(0.0), fx(0.0)),
    }));
    shape.transform = scaling(fx(2.0), fx(2.0), fx(2.0));
    if let Some(pattern) = &shape.material.pattern {
        let material_color = pattern.color_at(&shape, &point(fx(2.5), fx(0.0), fx(0.0)));
        assert_eq!(material_color, white());
    } else {
        panic!("Pattern was null when matching shape material");
    }
}

#[test]
fn gradient_pattern() {
    let pattern = GradientPattern { a: white(), b: black(), transform: Matrix4x4::ident() };
    let shape = Shape::new(ShapeType::Sphere);
    assert_eq!(pattern.color_at(&shape, &point(fx(0.0), fx(0.0), fx(0.0))), white());
    assert_eq!(
        pattern.color_at(&shape, &point(fx(0.25), fx(0.0), fx(0.0))),
        color(fx(0.75), fx(0.75), fx(0.75))
    );
    assert_eq!(
        pattern.color_at(&shape, &point(fx(0.5), fx(0.0), fx(0.0))),
        color(fx(0.5), fx(0.5), fx(0.5))
    );
    assert_eq!(
        pattern.color_at(&shape, &point(fx(0.75), fx(0.0), fx(0.0))),
        color(fx(0.25), fx(0.25), fx(0.25))
    );
}

#[test]
fn ring_patterns() {
    let pattern = RingPattern { a: white(), b: black(), transform: Matrix4x4::ident() };
    let shape = Shape::new(ShapeType::Sphere);
    assert_eq!(pattern.color_at(&shape, &point(fx(0.0), fx(0.0), fx(0.0))), white());
    assert_eq!(pattern.color_at(&shape, &point(fx(1.0), fx(0.0), fx(0.0))), black());
    assert_eq!(pattern.color_at(&shape, &point(fx(0.0), fx(0.0), fx(1.0))), black());

    assert_eq!(pattern.color_at(&shape, &point(fx(0.708), fx(0.0), fx(0.708))), black());
}

#[test]
fn checker_pattern() {
    let pattern = CheckerPattern { a: white(), b: black(), transform: Matrix4x4::ident() };
    let shape = Shape::new(ShapeType::Sphere);
    assert_eq!(pattern.color_at(&shape, &point(fx(0.0), fx(0.0), fx(0.0))), white());
    assert_eq!(pattern.color_at(&shape, &point(fx(0.99), fx(0.0), fx(0.0))), white());
    assert_eq!(pattern.color_at(&shape, &point(fx(1.01), fx(0.0), fx(0.0))), black());

    assert_eq!(pattern.color_at(&shape, &point(fx(0.0), fx(0.99), fx(0.0))), white());
    assert_eq!(pattern.color_at(&shape, &point(fx(0.0), fx(1.01), fx(0.0))), black());

    assert_eq!(pattern.color_at(&shape, &point(fx(0.0), fx(0.0), fx(0.99))), white());
    assert_eq!(pattern.color_at(&shape, &point(fx(0.0), fx(0.0), fx(1.01))), black());
}
