use vstd::prelude::*;

use crate::implementations::camera::{s_ray_for_pixel, Camera};
use crate::implementations::canvas::Canvas;
use crate::implementations::computations::Computations;
use crate::implementations::fx::{
    clip, fadd, fdiv, fmul, fsqrt, iabs, tdiv, SCALE,
};
use crate::implementations::intersection::{s_refraction_indices, spec_hit, Intersection};
use crate::implementations::light::{black, Light};
use crate::implementations::ray::{stransform_ray, Ray};
use crate::implementations::shape::{s_intersect, s_local_intersect, Shape, ShapeType};
use crate::implementations::tuples::{vdot, Vec4};
use crate::implementations::world::{
    s_color_at, s_refracted_color, s_reflected_color, World,
};

verus! {

/// Hit selection picks the visible surface: it returns nothing exactly when
/// every candidate lies behind the ray origin, and otherwise it returns a
/// candidate at a non-negative distance that no other forward candidate
/// undercuts.
pub proof fn lemma_hit_selection(s: Seq<Intersection>)
    ensures
        (spec_hit(s) is None) <==> (forall|k: int| 0 <= k < s.len() ==> (#[trigger] s[k]).t < 0),
        spec_hit(s) matches Some(h) ==> s.contains(h) && h.t >= 0 && forall|k: int|
            0 <= k < s.len() && (#[trigger] s[k]).t >= 0 ==> h.t <= s[k].t,
    decreases s.len(),
{
    if s.len() > 0 {
        let dl = s.drop_last();
        lemma_hit_selection(dl);
        assert(forall|k: int| 0 <= k < dl.len() ==> dl[k] == s[k]);
        match spec_hit(s) {
            Some(h) => {
                match spec_hit(dl) {
                    Some(h0) => {
                        if h == h0 {
                            let j = choose|j: int| 0 <= j < dl.len() && dl[j] == h;
                            assert(s[j] == h);
                        } else {
                            assert(s[s.len() - 1] == h);
                        }
                    },
                    None => {
                        assert(s[s.len() - 1] == h);
                    },
                }
            },
            None => {
                assert(s.last().t < 0);
            },
        }
    }
}

proof fn lemma_clip_monotone(a: int, b: int)
    requires
        a <= b,
    ensures
        clip(a) <= clip(b),
{
}

proof fn lemma_tdiv_monotone(a: int, b: int, d: int)
    requires
        a <= b,
        d > 0,
    ensures
        tdiv(a, d) <= tdiv(b, d),
{
    assert((if (a < 0) != (d < 0) {
        -(iabs(a) / iabs(d))
    } else {
        iabs(a) / iabs(d)
    }) <= (if (b < 0) != (d < 0) {
        -(iabs(b) / iabs(d))
    } else {
        iabs(b) / iabs(d)
    })) by (nonlinear_arith)
        requires
            a <= b,
            d > 0,
    ;
}

proof fn lemma_fmul_square_nonneg(x: int)
    ensures
        fmul(x, x) >= 0,
{
    assert(x * x >= 0) by (nonlinear_arith);
    assert(tdiv(x * x, SCALE as int) >= 0) by (nonlinear_arith)
        requires
            x * x >= 0,
    ;
}

proof fn lemma_vdot_self_nonneg(v: Vec4)
    ensures
        vdot(v, v) >= 0,
{
    lemma_fmul_square_nonneg(v.0 as int);
    lemma_fmul_square_nonneg(v.1 as int);
    lemma_fmul_square_nonneg(v.2 as int);
    lemma_fmul_square_nonneg(v.3 as int);
}

proof fn lemma_fsqrt_nonneg(v: int)
    ensures
        fsqrt(v) >= 0,
{
}

/// A ray meets a sphere in at most two points, and when it meets it twice
/// the two parametric distances come back in ascending order: the nearer
/// boundary crossing is listed first.
pub proof fn lemma_sphere_roots_ordered(s: Shape, object: usize, r: Ray)
    requires
        s.shape_type == ShapeType::Sphere,
    ensures
        s_intersect(s, object, r).len() <= 2,
        s_intersect(s, object, r).len() == 2 ==> s_intersect(s, object, r)[0].t <= s_intersect(
            s,
            object,
            r,
        )[1].t,
{
    reveal(crate::implementations::shape::s_local_intersect);
    let r2 = stransform_ray(
        r,
        crate::implementations::matrices::sinv4(s.transform),
    );
    let out = s_local_intersect(s, object, r2);
    if out.len() == 2 {
        let sphere_to_ray = crate::implementations::tuples::vsub(r2.origin, s.origin);
        let a = vdot(r2.direction, r2.direction);
        let b = fmul(vdot(r2.direction, sphere_to_ray), 2 * SCALE);
        let c = crate::implementations::fx::fsub(
            vdot(sphere_to_ray, sphere_to_ray),
            SCALE as int,
        );
        let discriminant = crate::implementations::fx::fsub(
            fmul(b, b),
            fmul(fmul(4 * SCALE, a), c),
        );
        let sq = fsqrt(discriminant);
        let num1 = crate::implementations::fx::fsub(crate::implementations::fx::fneg(b), sq);
        let num2 = fadd(crate::implementations::fx::fneg(b), sq);
        let denom = fmul(2 * SCALE, a);
        lemma_fsqrt_nonneg(discriminant);
        lemma_clip_monotone(crate::implementations::fx::fneg(b) - sq, crate::implementations::fx::fneg(b) + sq);
        lemma_vdot_self_nonneg(r2.direction);
        assert(2 * SCALE * a >= 0) by (nonlinear_arith)
            requires
                a >= 0,
        ;
        assert(tdiv(2 * SCALE * a, SCALE as int) >= 0) by (nonlinear_arith)
            requires
                2 * SCALE * a >= 0,
        ;
        if denom == 0 {
            assert(fdiv(num1, denom) == 0);
            assert(fdiv(num2, denom) == 0);
        } else {
            lemma_tdiv_monotone(num1 * SCALE, num2 * SCALE, denom);
            lemma_clip_monotone(tdiv(num1 * SCALE, denom), tdiv(num2 * SCALE, denom));
            assert(num1 * SCALE <= num2 * SCALE) by (nonlinear_arith)
                requires
                    num1 <= num2,
                    SCALE > 0,
            ;
        }
    }
}

/// The containment-stack resolver never leaves a real hit unresolved: for
/// any hit that occurs in the intersection list it walks, both the entered
/// and the left medium's refractive indices come out.
pub proof fn lemma_refraction_indices_resolved(
    xs: Seq<Intersection>,
    the_hit: Intersection,
    shapes: Seq<Shape>,
)
    requires
        xs.contains(the_hit),
    ensures
        s_refraction_indices(xs, the_hit, shapes).0 is Some,
        s_refraction_indices(xs, the_hit, shapes).1 is Some,
{
    crate::implementations::world::lemma_walk_finds(xs, the_hit, shapes, Seq::empty());
}

/// A spent bounce budget ends the recursion: with no bounces left both the
/// reflected and the refracted contributions are black, whatever the scene
/// and the hit.
pub proof fn lemma_bounce_budget_exhausted(
    shapes: Seq<Shape>,
    light: Light,
    quick: bool,
    comps: Computations,
)
    ensures
        s_reflected_color(shapes, light, quick, comps, 0) == black(),
        s_refracted_color(shapes, light, quick, comps, 0) == black(),
{
}

/// Rendering is deterministic: two canvases that both satisfy the contract
/// of `Camera::render` for the same camera, world and bounce budget agree
/// on every pixel.
pub proof fn lemma_render_deterministic(
    cam: Camera,
    w: World,
    limit: u32,
    c1: Canvas,
    c2: Canvas,
)
    requires
        c1.spec_width() == cam.hsize,
        c1.spec_height() == cam.vsize,
        c2.spec_width() == cam.hsize,
        c2.spec_height() == cam.vsize,
        forall|x: int, y: int|
            0 <= x < cam.hsize && 0 <= y < cam.vsize ==> c1.pixel(x, y) == s_color_at(
                w.shapes@,
                w.light,
                w.quick_rendered,
                s_ray_for_pixel(cam, x, y),
                limit,
            ),
        forall|x: int, y: int|
            0 <= x < cam.hsize && 0 <= y < cam.vsize ==> c2.pixel(x, y) == s_color_at(
                w.shapes@,
                w.light,
                w.quick_rendered,
                s_ray_for_pixel(cam, x, y),
                limit,
            ),
    ensures
        forall|x: int, y: int|
            0 <= x < cam.hsize && 0 <= y < cam.vsize ==> c1.pixel(x, y) == c2.pixel(x, y),
{
}

} // verus!
