use ray_tracer::implementations::matrices::{
    rotation_x, rotation_y, rotation_z, scaling, shearing, translation, Matrix2x2, Matrix3x3,
    Matrix4x4,
};
use ray_tracer::implementations::tuples::{point, vector, Vec2, Vec3, Vec4};

fn fx(v: f64) -> i64 {
    (v * 1_000_000_000_000.0).round() as i64
}

fn approx(a: i64, b: i64) -> bool {
    (a - b).abs() <= 50_000_000
}

fn approx_v(a: &Vec4, b: &Vec4) -> bool {
    approx(a.0, b.0) && approx(a.1, b.1) && approx(a.2, b.2) && approx(a.3, b.3)
}

fn approx_m(a: &Matrix4x4, b: &Matrix4x4) -> bool {
    approx_v(&a.0, &b.0) && approx_v(&a.1, &b.1) && approx_v(&a.2, &b.2) && approx_v(&a.3, &b.3)
}

#[test]
fn construct_matrices() {
    let m = Matrix4x4(
        Vec4(fx(1.0), fx(2.0), fx(3.0), fx(4.0)),
        Vec4(fx(5.5), fx(6.5), fx(7.5), fx(8.5)),
        Vec4(fx(9.0), fx(10.0), fx(11.0), fx(12.0)),
        Vec4(fx(13.5), fx(14.5), fx(15.5), fx(16.5)),
    );
    assert_eq!((m.0).0, fx(1.0));
    assert_eq!((m.0).3, fx(4.0));
    assert_eq!((m.1).0, fx(5.5));
    assert_eq!((m.1).2, fx(7.5));
    assert_eq!((m.2).2, fx(11.0));
    assert_eq!((m.3).0, fx(13.5));
    assert_eq!((m.3).2, fx(15.5));

    let m = Matrix2x2(Vec2(fx(-3.0), fx(5.0)), Vec2(fx(1.0), fx(-2.0)));
    assert_eq!((m.0).0, fx(-3.0));
    assert_eq!((m.0).1, fx(5.0));
    assert_eq!((m.1).0, fx(1.0));
    assert_eq!((m.1).1, fx(-2.0));

    let m = Matrix3x3(
        Vec3(fx(-3.0), fx(5.0), fx(0.0)),
        Vec3(fx(-1.0), fx(-2.0), fx(-7.0)),
        Vec3(fx(0.0), fx(1.0), fx(1.0)),
    );
    assert_eq!((m.0).0, fx(-3.0));
    assert_eq!((m.1).1, fx(-2.0));
    assert_eq!((m.2).2, fx(1.0));
}

#[test]
fn matrix_equalities() {
    let m = Matrix4x4(
        Vec4(fx(1.0), fx(2.0), fx(3.0), fx(4.0)),
        Vec4(fx(5.0), fx(6.0), fx(7.0), fx(8.0)),
        Vec4(fx(9.0), fx(8.0), fx(7.0), fx(6.0)),
        Vec4(fx(5.0), fx(4.0), fx(3.0), fx(2.0)),
    );
    let m1 = Matrix4x4(
        Vec4(fx(1.0), fx(2.0), fx(3.0), fx(4.0)),
        Vec4(fx(5.0), fx(6.0), fx(7.0), fx(8.0)),
        Vec4(fx(9.0), fx(8.0), fx(7.0), fx(6.0)),
        Vec4(fx(5.0), fx(4.0), fx(3.0), fx(2.0)),
    );
    assert_eq!(&m, &m1);

    let m1 = Matrix4x4(
        Vec4(fx(5.0), fx(2.0), fx(3.0), fx(4.0)),
        Vec4(fx(5.0), fx(6.0), fx(7.0), fx(8.0)),
        Vec4(fx(9.0), fx(3.0), fx(7.0), fx(6.0)),
        Vec4(fx(5.0), fx(4.0), fx(8.0), fx(2.0)),
    );
    assert_ne!(&m, &m1);
}

#[test]
fn multiply_matrices() {
    let m1 = Matrix4x4(
        Vec4(fx(1.0), fx(2.0), fx(3.0), fx(4.0)),
        Vec4(fx(5.0), fx(6.0), fx(7.0), fx(8.0)),
        Vec4(fx(9.0), fx(8.0), fx(7.0), fx(6.0)),
        Vec4(fx(5.0), fx(4.0), fx(3.0), fx(2.0)),
    );
    let m2 = Matrix4x4(
        Vec4(fx(-2.0), fx(1.0), fx(2.0), fx(3.0)),
        Vec4(fx(3.0), fx(2.0), fx(1.0), fx(-1.0)),
        Vec4(fx(4.0), fx(3.0), fx(6.0), fx(5.0)),
        Vec4(fx(1.0), fx(2.0), fx(7.0), fx(8.0)),
    );
    assert_eq!(
        m1.times_matrix(&m2),
        Matrix4x4(
            Vec4(fx(20.0), fx(22.0), fx(50.0), fx(48.0)),
            Vec4(fx(44.0), fx(54.0), fx(114.0), fx(108.0)),
            Vec4(fx(40.0), fx(58.0), fx(110.0), fx(102.0)),
            Vec4(fx(16.0), fx(26.0), fx(46.0), fx(42.0)),
        )
    );
}

#[test]
fn multiply_matrix_and_vector() {
    let m = Matrix4x4(
        Vec4(fx(1.0), fx(2.0), fx(3.0), fx(4.0)),
        Vec4(fx(2.0), fx(4.0), fx(4.0), fx(2.0)),
        Vec4(fx(8.0), fx(6.0), fx(4.0), fx(1.0)),
        Vec4(fx(0.0), fx(0.0), fx(0.0), fx(1.0)),
    );
    let v = Vec4(fx(1.0), fx(2.0), fx(3.0), fx(1.0));
    assert_eq!(m.times_vec(&v), Vec4(fx(18.0), fx(24.0), fx(33.0), fx(1.0)));
    assert_eq!(m.times_matrix(&Matrix4x4::ident()), m);
}

#[test]
fn transpose_matrix() {
    let m = Matrix4x4(
        Vec4(fx(0.0), fx(9.0), fx(3.0), fx(0.0)),
        Vec4(fx(9.0), fx(8.0), fx(0.0), fx(8.0)),
        Vec4(fx(1.0), fx(8.0), fx(5.0), fx(3.0)),
        Vec4(fx(0.0), fx(0.0), fx(5.0), fx(8.0)),
    );
    assert_eq!(
        m.transpose(),
        Matrix4x4(
            Vec4(fx(0.0), fx(9.0), fx(1.0), fx(0.0)),
            Vec4(fx(9.0), fx(8.0), fx(8.0), fx(0.0)),
            Vec4(fx(3.0), fx(0.0), fx(5.0), fx(5.0)),
            Vec4(fx(0.0), fx(8.0), fx(3.0), fx(8.0)),
        )
    );
    assert_eq!(Matrix4x4::ident().transpose(), Matrix4x4::ident());
}

#[test]
fn determ_matrix() {
    let m = Matrix2x2(Vec2(fx(1.0), fx(5.0)), Vec2(fx(-3.0), fx(2.0)));
    assert_eq!(m.determ(), fx(17.0));
}

#[test]
fn submatrices() {
    let m = Matrix3x3(
        Vec3(fx(1.0), fx(5.0), fx(0.0)),
        Vec3(fx(-3.0), fx(2.0), fx(7.0)),
        Vec3(fx(0.0), fx(6.0), fx(-3.0)),
    );
    assert_eq!(
        m.sub(0, 2),
        Matrix2x2(Vec2(fx(-3.0), fx(2.0)), Vec2(fx(0.0), fx(6.0)))
    );
    let m = Matrix4x4(
        Vec4(fx(-6.0), fx(1.0), fx(1.0), fx(6.0)),
        Vec4(fx(-8.0), fx(5.0), fx(8.0), fx(6.0)),
        Vec4(fx(-1.0), fx(0.0), fx(8.0), fx(2.0)),
        Vec4(fx(-7.0), fx(1.0), fx(-1.0), fx(1.0)),
    );
    assert_eq!(
        m.sub(2, 1),
        Matrix3x3(
            Vec3(fx(-6.0), fx(1.0), fx(6.0)),
            Vec3(fx(-8.0), fx(8.0), fx(6.0)),
            Vec3(fx(-7.0), fx(-1.0), fx(1.0)),
        )
    )
}

#[test]
fn minor_and_cofactor() {
    let m = Matrix3x3(
        Vec3(fx(3.0), fx(5.0), fx(0.0)),
        Vec3(fx(2.0), fx(-1.0), fx(-7.0)),
        Vec3(fx(6.0), fx(-1.0), fx(5.0)),
    );
    assert_eq!(m.minor(0, 0), fx(-12.0));
    assert_eq!(m.cofactor(0, 0), fx(-12.0));
    assert_eq!(m.minor(1, 0), fx(25.0));
    assert_eq!(m.cofactor(1, 0), fx(-25.0));
}

#[test]
fn determinants() {
    let m = Matrix3x3(
        Vec3(fx(1.0), fx(2.0), fx(6.0)),
        Vec3(fx(-5.0), fx(8.0), fx(-4.0)),
        Vec3(fx(2.0), fx(6.0), fx(4.0)),
    );
    assert_eq!(m.cofactor(0, 0), fx(56.0));
    assert_eq!(m.cofactor(0, 1), fx(12.0));
    assert_eq!(m.cofactor(0, 2), fx(-46.0));
    assert_eq!(m.determ(), fx(-196.0));

    let m = Matrix4x4(
        Vec4(fx(-2.0), fx(-8.0), fx(3.0), fx(5.0)),
        Vec4(fx(-3.0), fx(1.0), fx(7.0), fx(3.0)),
        Vec4(fx(1.0), fx(2.0), fx(-9.0), fx(6.0)),
        Vec4(fx(-6.0), fx(7.0), fx(7.0), fx(-9.0)),
    );
    assert_eq!(m.cofactor(0, 0), fx(690.0));
    assert_eq!(m.cofactor(0, 1), fx(447.0));
    assert_eq!(m.cofactor(0, 2), fx(210.0));
    assert_eq!(m.cofactor(0, 3), fx(51.0));
    assert_eq!(m.determ(), fx(-4071.0));
}

#[test]
fn inverses() {
    let m = Matrix4x4(
        Vec4(fx(-5.0), fx(2.0), fx(6.0), fx(-8.0)),
        Vec4(fx(1.0), fx(-5.0), fx(1.0), fx(8.0)),
        Vec4(fx(7.0), fx(7.0), fx(-6.0), fx(-7.0)),
        Vec4(fx(1.0), fx(-3.0), fx(7.0), fx(4.0)),
    );
    assert_eq!(m.determ(), fx(532.0));
    assert_eq!(m.cofactor(2, 3), fx(-160.0));
    assert_eq!(m.cofactor(3, 2), fx(105.0));
    let inverse = m.invert();
    assert!(approx_m(
        &inverse,
        &Matrix4x4(
            Vec4(fx(0.21805), fx(0.45113), fx(0.24060), fx(-0.04511)),
            Vec4(fx(-0.80827), fx(-1.45677), fx(-0.44361), fx(0.52068)),
            Vec4(fx(-0.07895), fx(-0.22368), fx(-0.05263), fx(0.19737)),
            Vec4(fx(-0.52256), fx(-0.81391), fx(-0.30075), fx(0.30639)),
        )
    ));
    assert!(approx_m(&m.times_matrix(&inverse), &Matrix4x4::ident()));
}

#[test]
fn translation_matrix() {
    let transform = translation(fx(5.0), fx(-3.0), fx(2.0));
    let p = point(fx(-3.0), fx(4.0), fx(5.0));
    assert_eq!(transform.times_vec(&p), point(fx(2.0), fx(1.0), fx(7.0)));

    let inv = transform.invert();
    assert_eq!(inv.times_vec(&p), point(fx(-8.0), fx(7.0), fx(3.0)));

    let v = vector(fx(-3.0), fx(4.0), fx(5.0));
    assert_eq!(transform.times_vec(&v), v);
}

#[test]
fn scaling_matrix() {
    let transform = scaling(fx(2.0), fx(3.0), fx(4.0));
    let p = point(fx(-4.0), fx(6.0), fx(8.0));
    assert_eq!(transform.times_vec(&p), point(fx(-8.0), fx(18.0), fx(32.0)));

    let v = vector(fx(-4.0), fx(6.0), fx(8.0));
    assert_eq!(transform.times_vec(&v), vector(fx(-8.0), fx(18.0), fx(32.0)));

    let inv = transform.invert();
    assert!(approx_v(&inv.times_vec(&v), &vector(fx(-2.0), fx(2.0), fx(2.0))));

    let transform = scaling(fx(-1.0), fx(1.0), fx(1.0));
    let p = point(fx(2.0), fx(3.0), fx(4.0));
    assert_eq!(transform.times_vec(&p), point(fx(-2.0), fx(3.0), fx(4.0)));
}

#[test]
fn rotation_x_test() {
    let p = point(fx(0.0), fx(1.0), fx(0.0));
    let half_quarter = rotation_x(fx(45.0));
    let full_quarter = rotation_x(fx(90.0));
    let s2 = (2.0_f64).sqrt() / 2.0;
    assert!(approx_v(&half_quarter.times_vec(&p), &point(fx(0.0), fx(s2), fx(s2))));
    assert!(approx_v(&full_quarter.times_vec(&p), &point(fx(0.0), fx(0.0), fx(1.0))));

    let inv = half_quarter.invert();
    assert!(approx_v(&inv.times_vec(&p), &point(fx(0.0), fx(s2), fx(-s2))));
}

#[test]
fn rotation_y_test() {
    let p = point(fx(0.0), fx(0.0), fx(1.0));
    let half_quarter = rotation_y(fx(45.0));
    let full_quarter = rotation_y(fx(90.0));
    let s2 = (2.0_f64).sqrt() / 2.0;
    assert!(approx_v(&half_quarter.times_vec(&p), &point(fx(s2), fx(0.0), fx(s2))));
    assert!(approx_v(&full_quarter.times_vec(&p), &point(fx(1.0), fx(0.0), fx(0.0))));
}

#[test]
fn rotation_z_test() {
    let p = point(fx(0.0), fx(1.0), fx(0.0));
    let half_quarter = rotation_z(fx(45.0));
    let full_quarter = rotation_z(fx(90.0));
    let s2 = (2.0_f64).sqrt() / 2.0;
    assert!(approx_v(&half_quarter.times_vec(&p), &point(fx(-s2), fx(s2), fx(0.0))));
    assert!(approx_v(&full_quarter.times_vec(&p), &point(fx(-1.0), fx(0.0), fx(0.0))));
}

#[test]
fn shearing_test() {
    let p = point(fx(2.0), fx(3.0), fx(4.0));

    let transform = shearing(fx(1.0), fx(0.0), fx(0.0), fx(0.0), fx(0.0), fx(0.0));
    assert_eq!(transform.times_vec(&p), point(fx(5.0), fx(3.0), fx(4.0)));

    let transform = shearing(fx(0.0), fx(1.0), fx(0.0), fx(0.0), fx(0.0), fx(0.0));
    assert_eq!(transform.times_vec(&p), point(fx(6.0), fx(3.0), fx(4.0)));

    let transform = shearing(fx(0.0), fx(0.0), fx(1.0), fx(0.0), fx(0.0), fx(0.0));
    assert_eq!(transform.times_vec(&p), point(fx(2.0), fx(5.0), fx(4.0)));

    let transform = shearing(fx(0.0), fx(0.0), fx(0.0), fx(1.0), fx(0.0), fx(0.0));
    assert_eq!(transform.times_vec(&p), point(fx(2.0), fx(7.0), fx(4.0)));

    let transform = shearing(fx(0.0), fx(0.0), fx(0.0), fx(0.0), fx(1.0), fx(0.0));
    assert_eq!(transform.times_vec(&p), point(fx(2.0), fx(3.0), fx(6.0)));

    let transform = shearing(fx(0.0), fx(0.0), fx(0.0), fx(0.0), fx(0.0), fx(1.0));
    assert_eq!(transform.times_vec(&p), point(fx(2.0), fx(3.0), fx(7.0)));
}
