use vstd::prelude::*;

use crate::implementations::fx::{
    fabs, fadd, fdiv, fmul, fneg, fsqrt, fsub, spec_fequals, EPSILON, SCALE,
};
use crate::implementations::intersection::Intersection;
use crate::implementations::material::{default_material, mwf, Material};
use crate::implementations::matrices::{sdet4, sinv4, smul4v, stranspose, Matrix4x4};
use crate::implementations::ray::{stransform_ray, Ray};
use crate::implementations::tuples::{
    sv_point, sv_vector, vdot, vnormalize, vsub, Vec4,
};

verus! {

#[derive(Clone, Copy, Debug, PartialEq, Eq, Structural)]
pub enum ShapeType {
    Plane,
    Sphere,
}

/// A geometric primitive: its object-space origin, its object-to-world
/// transform, its material, and which local algorithm applies.  Shapes are
/// identified by their index in the scene's shape list; the intersection
/// records carry that index.
#[derive(Clone)]
pub struct Shape {
    pub origin: Vec4,
    pub transform: Matrix4x4,
    pub material: Material,
    pub shape_type: ShapeType,
}

/// A usable shape: an invertible transform (a zero determinant is a
/// malformed scene) and a usable material.
pub open spec fn shape_wf(s: Shape) -> bool {
    &&& sdet4(s.transform) != 0
    &&& mwf(s.material)
}

pub open spec fn sshape_new(shape_type: ShapeType) -> Shape {
    Shape {
        origin: sv_point(0, 0, 0),
        transform: crate::implementations::matrices::sident(),
        material: default_material(),
        shape_type,
    }
}

pub open spec fn sglass_material() -> Material {
    Material { transparency: SCALE, refractive_index: 1_500_000_000_000i64, ..default_material() }
}

/// The local-space intersections of a ray with the canonical primitive,
/// tagged with the shape's identity `object`.
///
/// For the unit sphere the quadratic `a t^2 + b t + c == 0` is solved: a
/// discriminant within EPSILON of zero is a tangent (one root), a negative
/// one a miss, otherwise the two roots come smaller first.  For the plane
/// `y == 0`, a ray whose direction is nearly parallel misses, otherwise the
/// single root is `-origin.y / direction.y`.
#[verifier::opaque]
pub open spec fn s_local_intersect(s: Shape, object: usize, r: Ray) -> Seq<Intersection> {
    match s.shape_type {
        ShapeType::Sphere => {
            let sphere_to_ray = vsub(r.origin, s.origin);
            let a = vdot(r.direction, r.direction);
            let b = fmul(vdot(r.direction, sphere_to_ray), 2 * SCALE);
            let c = fsub(vdot(sphere_to_ray, sphere_to_ray), SCALE as int);
            let discriminant = fsub(fmul(b, b), fmul(fmul(4 * SCALE, a), c));
            let discrim_sqrt = fsqrt(discriminant);
            if spec_fequals(discriminant, 0) {
                seq![
                    Intersection {
                        object,
                        t: fdiv(fsub(fneg(b), discrim_sqrt), fmul(2 * SCALE, a)) as i64,
                    },
                ]
            } else if discriminant > 0 {
                seq![
                    Intersection {
                        object,
                        t: fdiv(fsub(fneg(b), discrim_sqrt), fmul(2 * SCALE, a)) as i64,
                    },
                    Intersection {
                        object,
                        t: fdiv(fadd(fneg(b), discrim_sqrt), fmul(2 * SCALE, a)) as i64,
                    },
                ]
            } else {
                Seq::empty()
            }
        },
        ShapeType::Plane => {
            if fabs(r.direction.1 as int) < EPSILON {
                Seq::empty()
            } else {
                seq![
                    Intersection {
                        object,
                        t: fdiv(fneg(r.origin.1 as int), r.direction.1 as int) as i64,
                    },
                ]
            }
        },
    }
}

/// World-space intersection: the ray is carried into object space by the
/// inverse transform, then intersected locally.
pub open spec fn s_intersect(s: Shape, object: usize, r: Ray) -> Seq<Intersection> {
    s_local_intersect(s, object, stransform_ray(r, sinv4(s.transform)))
}

/// The local normal: constant `+y` for the plane, the radius vector for the
/// sphere.
pub open spec fn s_local_normal(s: Shape, p: Vec4) -> Vec4 {
    match s.shape_type {
        ShapeType::Plane => sv_vector(0, SCALE as int, 0),
        ShapeType::Sphere => vnormalize(vsub(p, s.origin)),
    }
}

/// The world normal: local normal mapped by the transpose of the inverse
/// transform, homogeneous component forced to zero, renormalized.
pub open spec fn s_normal_at(s: Shape, world_point: Vec4) -> Vec4 {
    let local_point = smul4v(sinv4(s.transform), world_point);
    let local_normal = s_local_normal(s, local_point);
    let world_normal = smul4v(stranspose(sinv4(s.transform)), local_normal);
    vnormalize(Vec4(world_normal.0, world_normal.1, world_normal.2, 0))
}

/// Every intersection record a shape produces carries the identity it was
/// given.
#[verifier::rlimit(100)]
#[verifier::spinoff_prover]
pub proof fn lemma_intersect_objects(s: Shape, object: usize, r: Ray)
    ensures
        forall|k: int|
            0 <= k < s_intersect(s, object, r).len() ==> (#[trigger] s_intersect(
                s,
                object,
                r,
            )[k]).object == object,
{
    reveal(s_local_intersect);
    let r2 = stransform_ray(r, sinv4(s.transform));
    let out = s_local_intersect(s, object, r2);
    assert forall|k: int| 0 <= k < out.len() implies out[k].object == object by {
        match s.shape_type {
            ShapeType::Sphere => {
            },
            ShapeType::Plane => {
            },
        }
    }
}

/// A unit sphere of fully transparent glass (refractive index 1.5).
pub fn glass_sphere() -> (s: Shape)
    ensures
        s == (Shape {
            material: sglass_material(),
            ..sshape_new(ShapeType::Sphere)
        }),
{
    let mut s = Shape::new(ShapeType::Sphere);
    s.material.transparency = SCALE;
    s.material.refractive_index = 1_500_000_000_000;
    s
}

impl Shape {
    /// A canonical unit primitive: identity transform, default material.
    pub fn new(shape_type: ShapeType) -> (s: Shape)
        ensures
            s == sshape_new(shape_type),
    {
        Shape {
            origin: crate::implementations::tuples::point(0, 0, 0),
            transform: Matrix4x4::ident(),
            material: Material::new(),
            shape_type,
        }
    }

    fn local_intersect(&self, ray: &Ray, object: usize) -> (r: Vec<Intersection>)
        ensures
            r@ == s_local_intersect(*self, object, *ray),
    {
        proof {
            reveal(s_local_intersect);
        }
        let mut out: Vec<Intersection> = Vec::new();
        match self.shape_type {
            ShapeType::Sphere => {
                let sphere_to_ray: Vec4 = ray.origin.minus(&self.origin);
                let a: i64 = ray.direction.dot(&ray.direction);
                let b: i64 = crate::implementations::fx::fx_mul(
                    ray.direction.dot(&sphere_to_ray),
                    2 * SCALE,
                );
                let c: i64 = crate::implementations::fx::fx_sub(
                    sphere_to_ray.dot(&sphere_to_ray),
                    SCALE,
                );
                let discriminant: i64 = crate::implementations::fx::fx_sub(
                    crate::implementations::fx::fx_mul(b, b),
                    crate::implementations::fx::fx_mul(
                        crate::implementations::fx::fx_mul(4 * SCALE, a),
                        c,
                    ),
                );
                let discrim_sqrt: i64 = crate::implementations::fx::fx_sqrt(discriminant);
                let denom: i64 = crate::implementations::fx::fx_mul(2 * SCALE, a);
                if crate::implementations::fx::fequals(discriminant, 0) {
                    let t1: i64 = crate::implementations::fx::fx_div(
                        crate::implementations::fx::fx_sub(
                            crate::implementations::fx::fx_neg(b),
                            discrim_sqrt,
                        ),
                        denom,
                    );
                    out.push(Intersection { object, t: t1 });
                } else if discriminant > 0 {
                    let t1: i64 = crate::implementations::fx::fx_div(
                        crate::implementations::fx::fx_sub(
                            crate::implementations::fx::fx_neg(b),
                            discrim_sqrt,
                        ),
                        denom,
                    );
                    let t2: i64 = crate::implementations::fx::fx_div(
                        crate::implementations::fx::fx_add(
                            crate::implementations::fx::fx_neg(b),
                            discrim_sqrt,
                        ),
                        denom,
                    );
                    out.push(Intersection { object, t: t1 });
                    out.push(Intersection { object, t: t2 });
                }
            },
            ShapeType::Plane => {
                let parallel: bool = crate::implementations::fx::fx_abs(ray.direction.1)
                    < EPSILON;
                if !parallel {
                    let t: i64 = crate::implementations::fx::fx_div(
                        crate::implementations::fx::fx_neg(ray.origin.1),
                        ray.direction.1,
                    );
                    out.push(Intersection { object, t });
                }
            },
        }
        proof {
            assert(out@ =~= s_local_intersect(*self, object, *ray));
        }
        out
    }

    /// All intersections of a world-space ray with this shape; `object` is
    /// the identity recorded on each intersection.
    pub fn intersect(&self, ray: &Ray, object: usize) -> (r: Vec<Intersection>)
        requires
            sdet4(self.transform) != 0,
        ensures
            r@ == s_intersect(*self, object, *ray),
    {
        let local_ray: Ray = ray.transform(&self.transform.invert());
        self.local_intersect(&local_ray, object)
    }

    fn local_normal_at(&self, point: &Vec4) -> (r: Vec4)
        ensures
            r == s_local_normal(*self, *point),
    {
        match self.shape_type {
            ShapeType::Plane => crate::implementations::tuples::vector(0, SCALE, 0),
            ShapeType::Sphere => point.minus(&self.origin).normalize(),
        }
    }

    pub fn normal_at(&self, point: &Vec4) -> (r: Vec4)
        requires
            sdet4(self.transform) != 0,
        ensures
            r == s_normal_at(*self, *point),
    {
        let inverse: Matrix4x4 = self.transform.invert();
        let local_point: Vec4 = inverse.times_vec(point);
        let local_normal: Vec4 = self.local_normal_at(&local_point);
        let world_normal: Vec4 = inverse.transpose().times_vec(&local_normal);
        Vec4(world_normal.0, world_normal.1, world_normal.2, 0).normalize()
    }
}

} // verus!
