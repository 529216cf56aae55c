use vstd::prelude::*;

use crate::implementations::computations::{opt_scalar, s_schlick, Computations};
use crate::implementations::fx::{fdiv, fmul, fsqrt, fsub, spec_fequals, Fx, SCALE};
use crate::implementations::intersection::{
    hit, s_prepare, s_refraction_walk, spec_hit, Intersection,
};
use crate::implementations::light::{black, s_lighting, s_surface_color, Light};
use crate::implementations::matrices::sscaling;
use crate::implementations::pattern::Pattern;
use crate::implementations::ray::Ray;
use crate::implementations::shape::{
    s_intersect, shape_wf, sshape_new, Shape, ShapeType,
};
use crate::implementations::tuples::{
    sv_color, sv_point, vmag, vnormalize, vscale, vsub, Vec4,
};

verus! {

/// Half-width (0.01) of the sampling cube around the light used by the
/// soft-shadow test.
pub const SHADOW_OFFSET: i64 = 10_000_000_000;

/// The scene: its shapes (whose list positions are their identities), one
/// point light, and a flag selecting flat (unshaded) rendering.
pub struct World {
    pub shapes: Vec<Shape>,
    pub light: Light,
    pub quick_rendered: bool,
}

pub open spec fn sworld_wf(shapes: Seq<Shape>) -> bool {
    forall|i: int| 0 <= i < shapes.len() ==> shape_wf(#[trigger] shapes[i])
}

pub open spec fn world_wf(w: World) -> bool {
    sworld_wf(w.shapes@)
}

/// Every intersection of the ray with every shape, in shape-list order.
pub open spec fn s_gather(shapes: Seq<Shape>, r: Ray) -> Seq<Intersection>
    decreases shapes.len(),
{
    if shapes.len() == 0 {
        Seq::empty()
    } else {
        s_gather(shapes.drop_last(), r) + s_intersect(
            shapes.last(),
            (shapes.len() - 1) as usize,
            r,
        )
    }
}

/// Insertion of one record into an ascending-`t` list: it lands after every
/// record with `t` at most its own, so records gathered earlier stay first
/// among equals.
pub open spec fn insert_sorted(s: Seq<Intersection>, x: Intersection) -> Seq<Intersection>
    decreases s.len(),
{
    if s.len() == 0 {
        seq![x]
    } else if s.last().t > x.t {
        insert_sorted(s.drop_last(), x).push(s.last())
    } else {
        s.push(x)
    }
}

/// Stable insertion sort by ascending `t`.
pub open spec fn s_sort(s: Seq<Intersection>) -> Seq<Intersection>
    decreases s.len(),
{
    if s.len() == 0 {
        Seq::empty()
    } else {
        insert_sorted(s_sort(s.drop_last()), s.last())
    }
}

/// The ray's intersections with the whole scene, sorted by ascending `t`.
pub open spec fn s_world_intersect(shapes: Seq<Shape>, r: Ray) -> Seq<Intersection> {
    s_sort(s_gather(shapes, r))
}

/// Whether the segment from `p` toward the sample point `light_point` is
/// interrupted by any surface (a hit closer than the light).
pub open spec fn s_feeler(shapes: Seq<Shape>, light_point: Vec4, p: Vec4) -> bool {
    let diff = vsub(light_point, p);
    let distance = vmag(diff);
    let ray = Ray { origin: p, direction: vnormalize(diff) };
    match spec_hit(s_world_intersect(shapes, ray)) {
        Some(h) => (h.t as int) < distance,
        None => false,
    }
}

pub open spec fn s_offset_point(lp: Vec4, dx: int, dy: int, dz: int) -> Vec4 {
    sv_point(
        crate::implementations::fx::fadd(lp.0 as int, dx),
        crate::implementations::fx::fadd(lp.1 as int, dy),
        crate::implementations::fx::fadd(lp.2 as int, dz),
    )
}

pub open spec fn s_feeler_cost(shapes: Seq<Shape>, lp: Vec4, p: Vec4, dx: int, dy: int, dz: int)
    -> int {
    if s_feeler(shapes, s_offset_point(lp, dx, dy, dz), p) {
        SCALE as int
    } else {
        0
    }
}

/// The soft-shadow attenuation factor: eight occlusion feelers toward the
/// corners of a small cube around the light; the factor is the unoccluded
/// fraction, 1.0 for clear sight and 0 for full shadow.
pub open spec fn s_light_factor(shapes: Seq<Shape>, light: Light, p: Vec4) -> int {
    let lp = light.position;
    let d = SHADOW_OFFSET as int;
    let h1 = fsub(8 * SCALE as int, s_feeler_cost(shapes, lp, p, d, d, d));
    let h2 = fsub(h1, s_feeler_cost(shapes, lp, p, d, d, -d));
    let h3 = fsub(h2, s_feeler_cost(shapes, lp, p, d, -d, d));
    let h4 = fsub(h3, s_feeler_cost(shapes, lp, p, d, -d, -d));
    let h5 = fsub(h4, s_feeler_cost(shapes, lp, p, -d, d, d));
    let h6 = fsub(h5, s_feeler_cost(shapes, lp, p, -d, d, -d));
    let h7 = fsub(h6, s_feeler_cost(shapes, lp, p, -d, -d, d));
    let h8 = fsub(h7, s_feeler_cost(shapes, lp, p, -d, -d, -d));
    fdiv(h8, 8 * SCALE as int)
}

/// Direct shading plus the recursive reflected and refracted contributions,
/// blended by Schlick's reflectance when the material is both reflective
/// and transparent.
pub open spec fn s_shade_hit(
    shapes: Seq<Shape>,
    light: Light,
    quick: bool,
    comps: Computations,
    remaining: u32,
) -> Vec4
    decreases remaining, 1int,
{
    let shape = shapes[comps.object as int];
    let m = shape.material;
    let surface = s_lighting(
        m,
        shape,
        light,
        comps.point,
        comps.eyev,
        comps.normalv,
        s_light_factor(shapes, light, comps.over_point),
    );
    let reflected = s_reflected_color(shapes, light, quick, comps, remaining);
    let refracted = s_refracted_color(shapes, light, quick, comps, remaining);
    if m.reflective > 0 && m.transparency > 0 {
        let reflectance = s_schlick(comps);
        crate::implementations::tuples::vadd(
            surface,
            crate::implementations::tuples::vadd(
                vscale(reflected, reflectance),
                vscale(refracted, fsub(SCALE as int, reflectance)),
            ),
        )
    } else {
        crate::implementations::tuples::vadd(
            crate::implementations::tuples::vadd(surface, reflected),
            refracted,
        )
    }
}

/// The color a ray sees: black where it misses, otherwise the shaded
/// nearest hit (or, in quick mode, just the surface color there).
pub open spec fn s_color_at(
    shapes: Seq<Shape>,
    light: Light,
    quick: bool,
    r: Ray,
    remaining: u32,
) -> Vec4
    decreases remaining, 2int,
{
    let xs = s_world_intersect(shapes, r);
    match spec_hit(xs) {
        Some(h) => {
            let comps = s_prepare(h, r, xs, shapes);
            if quick {
                let shape = shapes[comps.object as int];
                s_surface_color(shape.material, shape, comps.over_point)
            } else {
                s_shade_hit(shapes, light, quick, comps, remaining)
            }
        },
        None => black(),
    }
}

/// Black when the bounce budget is spent or the surface is (nearly) not
/// reflective; otherwise the color along the reflection ray, scaled by the
/// reflective coefficient.
pub open spec fn s_reflected_color(
    shapes: Seq<Shape>,
    light: Light,
    quick: bool,
    comps: Computations,
    remaining: u32,
) -> Vec4
    decreases remaining, 0int,
{
    let m = shapes[comps.object as int].material;
    if remaining == 0 || spec_fequals(m.reflective as int, 0) {
        black()
    } else {
        let reflect_ray = Ray { origin: comps.over_point, direction: comps.reflectv };
        vscale(
            s_color_at(shapes, light, quick, reflect_ray, (remaining - 1) as u32),
            m.reflective as int,
        )
    }
}

/// Black for an opaque surface, a spent budget, or total internal
/// reflection; otherwise Snell's law gives the refracted direction and the
/// color along it is scaled by the transparency.
pub open spec fn s_refracted_color(
    shapes: Seq<Shape>,
    light: Light,
    quick: bool,
    comps: Computations,
    remaining: u32,
) -> Vec4
    decreases remaining, 0int,
{
    let m = shapes[comps.object as int].material;
    if m.transparency == 0 || remaining == 0 {
        black()
    } else {
        let n_ratio = fdiv(opt_scalar(comps.n1, SCALE as int), opt_scalar(comps.n2, SCALE as int));
        let cos_i = crate::implementations::tuples::vdot(comps.eyev, comps.normalv);
        let sin2_t = fmul(fmul(n_ratio, n_ratio), fsub(SCALE as int, fmul(cos_i, cos_i)));
        if sin2_t > SCALE {
            black()
        } else {
            let cos_t = fsqrt(fsub(SCALE as int, sin2_t));
            let direction = vsub(
                vscale(comps.normalv, fsub(fmul(n_ratio, cos_i), cos_t)),
                vscale(comps.eyev, n_ratio),
            );
            let refract_ray = Ray { origin: comps.under_point, direction: direction };
            vscale(
                s_color_at(shapes, light, quick, refract_ray, (remaining - 1) as u32),
                m.transparency as int,
            )
        }
    }
}

pub open spec fn s_default_s1() -> Shape {
    Shape {
        material: crate::implementations::material::Material {
            color: sv_color(800_000_000_000, SCALE as int, 600_000_000_000),
            diffuse: 700_000_000_000i64,
            specular: 200_000_000_000i64,
            ..crate::implementations::material::default_material()
        },
        ..sshape_new(ShapeType::Sphere)
    }
}

pub open spec fn s_default_s2() -> Shape {
    Shape {
        transform: sscaling(500_000_000_000, 500_000_000_000, 500_000_000_000),
        ..sshape_new(ShapeType::Sphere)
    }
}

pub open spec fn s_default_light() -> Light {
    Light {
        position: sv_point(-10 * SCALE as int, 10 * SCALE as int, -10 * SCALE as int),
        intensity: sv_color(SCALE as int, SCALE as int, SCALE as int),
    }
}

impl World {
    /// The default two-sphere scene lit by one white light.
    pub fn new() -> (w: World)
        ensures
            w.shapes@.len() == 2,
            w.shapes@[0] == s_default_s1(),
            w.shapes@[1] == s_default_s2(),
            w.light == s_default_light(),
            w.quick_rendered == false,
    {
        let mut s1: Shape = Shape::new(ShapeType::Sphere);
        s1.material.color = crate::implementations::tuples::color(
            800_000_000_000,
            SCALE,
            600_000_000_000,
        );
        s1.material.diffuse = 700_000_000_000;
        s1.material.specular = 200_000_000_000;
        let mut s2: Shape = Shape::new(ShapeType::Sphere);
        s2.transform = crate::implementations::matrices::scaling(
            500_000_000_000,
            500_000_000_000,
            500_000_000_000,
        );
        let mut shapes: Vec<Shape> = Vec::new();
        shapes.push(s1);
        shapes.push(s2);
        World {
            shapes,
            light: Light {
                position: crate::implementations::tuples::point(
                    -10 * SCALE,
                    10 * SCALE,
                    -10 * SCALE,
                ),
                intensity: crate::implementations::tuples::color(SCALE, SCALE, SCALE),
            },
            quick_rendered: false,
        }
    }

    /// Whether every shape of the scene can actually be rendered: all
    /// transforms (and pattern data) are usable.  Callers establish the
    /// preconditions of the rendering functions by testing this.
    pub fn is_well_formed(&self) -> (b: bool)
        ensures
            b == world_wf(*self),
    {
        let mut i: usize = 0;
        while i < self.shapes.len()
            invariant
                i <= self.shapes@.len(),
                forall|k: int| 0 <= k < i ==> shape_wf(#[trigger] self.shapes@[k]),
            decreases self.shapes@.len() - i,
        {
            if !shape_check(&self.shapes[i]) {
                return false;
            }
            i = i + 1;
        }
        true
    }

    /// All intersections of the ray with the scene, sorted ascending by `t`.
    pub fn intersect(&self, ray: &Ray) -> (r: Vec<Intersection>)
        requires
            world_wf(*self),
        ensures
            r@ == s_world_intersect(self.shapes@, *ray),
    {
        let gathered: Vec<Intersection> = self.gather(ray);
        sort_intersections(gathered)
    }

    fn gather(&self, ray: &Ray) -> (r: Vec<Intersection>)
        requires
            world_wf(*self),
        ensures
            r@ == s_gather(self.shapes@, *ray),
    {
        let ghost shapes = self.shapes@;
        let mut gathered: Vec<Intersection> = Vec::new();
        let mut si: usize = 0;
        proof {
            assert(shapes.take(0) =~= Seq::<Shape>::empty());
        }
        while si < self.shapes.len()
            invariant
                si <= shapes.len(),
                shapes == self.shapes@,
                sworld_wf(shapes),
                gathered@ == s_gather(shapes.take(si as int), *ray),
            decreases shapes.len() - si,
        {
            let mut these: Vec<Intersection> = self.shapes[si].intersect(ray, si);
            gathered.append(&mut these);
            si = si + 1;
            proof {
                let cur = shapes.take(si as int);
                assert(cur.drop_last() =~= shapes.take(si - 1));
                assert(cur.last() == shapes[si - 1]);
            }
        }
        proof {
            assert(shapes.take(shapes.len() as int) =~= shapes);
        }
        gathered
    }
}

/// Stable insertion sort of intersection records by ascending `t`.
fn sort_intersections(gathered: Vec<Intersection>) -> (r: Vec<Intersection>)
    ensures
        r@ == s_sort(gathered@),
{
    let mut sorted: Vec<Intersection> = Vec::new();
    let mut j: usize = 0;
    proof {
        assert(gathered@.take(0) =~= Seq::<Intersection>::empty());
    }
    while j < gathered.len()
        invariant
            j <= gathered@.len(),
            sorted@ == s_sort(gathered@.take(j as int)),
        decreases gathered@.len() - j,
    {
        let x: Intersection = gathered[j];
        let mut pos: usize = sorted.len();
        while pos > 0 && sorted[pos - 1].t > x.t
            invariant
                pos <= sorted@.len(),
                forall|k: int| pos <= k < sorted@.len() ==> sorted@[k].t > x.t,
            decreases pos,
        {
            pos = pos - 1;
        }
        proof {
            lemma_insert_position(sorted@, x, pos as int);
        }
        sorted.insert(pos, x);
        j = j + 1;
        proof {
            let cur = gathered@.take(j as int);
            assert(cur.drop_last() =~= gathered@.take(j - 1));
            assert(cur.last() == gathered@[j - 1]);
        }
    }
    proof {
        assert(gathered@.take(gathered@.len() as int) =~= gathered@);
    }
    sorted
}

impl World {

    fn test_shadow_feeler(&self, light_point: Vec4, point: &Vec4) -> (r: bool)
        requires
            world_wf(*self),
        ensures
            r == s_feeler(self.shapes@, light_point, *point),
    {
        let diff: Vec4 = light_point.minus(point);
        let distance: Fx = diff.mag();
        let ray = Ray { origin: *point, direction: diff.normalize() };
        match hit(&self.intersect(&ray)) {
            Some(h) => h.t < distance,
            None => false,
        }
    }

    /// The boolean shadow test: whether anything blocks the straight path
    /// from the point to the light.
    pub fn is_shadowed(&self, point: &Vec4) -> (r: bool)
        requires
            world_wf(*self),
        ensures
            r == s_feeler(self.shapes@, self.light.position, *point),
    {
        self.test_shadow_feeler(self.light.position, point)
    }

    /// The soft-shadow attenuation factor at a point, per `s_light_factor`.
    pub fn get_light_intensity_with_shadow(&self, p: &Vec4) -> (r: Fx)
        requires
            world_wf(*self),
        ensures
            r == s_light_factor(self.shapes@, self.light, *p),
    {
        let lp: Vec4 = self.light.position;
        let d: Fx = SHADOW_OFFSET;
        let mut hit_count: Fx = 8 * SCALE;
        if self.test_shadow_feeler(self.corner(lp, true, true, true), p) {
            hit_count = crate::implementations::fx::fx_sub(hit_count, SCALE);
        }
        if self.test_shadow_feeler(self.corner(lp, true, true, false), p) {
            hit_count = crate::implementations::fx::fx_sub(hit_count, SCALE);
        }
        if self.test_shadow_feeler(self.corner(lp, true, false, true), p) {
            hit_count = crate::implementations::fx::fx_sub(hit_count, SCALE);
        }
        if self.test_shadow_feeler(self.corner(lp, true, false, false), p) {
            hit_count = crate::implementations::fx::fx_sub(hit_count, SCALE);
        }
        if self.test_shadow_feeler(self.corner(lp, false, true, true), p) {
            hit_count = crate::implementations::fx::fx_sub(hit_count, SCALE);
        }
        if self.test_shadow_feeler(self.corner(lp, false, true, false), p) {
            hit_count = crate::implementations::fx::fx_sub(hit_count, SCALE);
        }
        if self.test_shadow_feeler(self.corner(lp, false, false, true), p) {
            hit_count = crate::implementations::fx::fx_sub(hit_count, SCALE);
        }
        if self.test_shadow_feeler(self.corner(lp, false, false, false), p) {
            hit_count = crate::implementations::fx::fx_sub(hit_count, SCALE);
        }
        crate::implementations::fx::fx_div(hit_count, 8 * SCALE)
    }

    fn corner(&self, lp: Vec4, px: bool, py: bool, pz: bool) -> (r: Vec4)
        ensures
            r == s_offset_point(
                lp,
                if px { SHADOW_OFFSET as int } else { -SHADOW_OFFSET as int },
                if py { SHADOW_OFFSET as int } else { -SHADOW_OFFSET as int },
                if pz { SHADOW_OFFSET as int } else { -SHADOW_OFFSET as int },
            ),
    {
        let x: Fx = if px {
            crate::implementations::fx::fx_add(lp.0, SHADOW_OFFSET)
        } else {
            crate::implementations::fx::fx_sub(lp.0, SHADOW_OFFSET)
        };
        let y: Fx = if py {
            crate::implementations::fx::fx_add(lp.1, SHADOW_OFFSET)
        } else {
            crate::implementations::fx::fx_sub(lp.1, SHADOW_OFFSET)
        };
        let z: Fx = if pz {
            crate::implementations::fx::fx_add(lp.2, SHADOW_OFFSET)
        } else {
            crate::implementations::fx::fx_sub(lp.2, SHADOW_OFFSET)
        };
        crate::implementations::tuples::point(x, y, z)
    }

    /// Shade one prepared hit: direct light plus reflection and refraction.
    pub fn shade_hit(&self, comps: &Computations, remaining: u32) -> (r: Vec4)
        requires
            world_wf(*self),
            comps.object < self.shapes@.len(),
            self.shapes@[comps.object as int].material.transparency != 0 ==> comps.n1 is Some
                && comps.n2 is Some,
        ensures
            r == s_shade_hit(self.shapes@, self.light, self.quick_rendered, *comps, remaining),
        decreases remaining, 1int,
    {
        let shadow_factor: Fx = self.get_light_intensity_with_shadow(&comps.over_point);
        let shape: &Shape = &self.shapes[comps.object];
        let surface: Vec4 = crate::implementations::light::lighting(
            &shape.material,
            shape,
            &self.light,
            &comps.point,
            &comps.eyev,
            &comps.normalv,
            shadow_factor,
        );
        let reflected: Vec4 = self.reflected_color(comps, remaining);
        let refracted: Vec4 = self.refracted_color(comps, remaining);
        let material = &self.shapes[comps.object].material;
        if material.reflective > 0 && material.transparency > 0 {
            let reflectance: Fx = comps.schlick();
            return crate::implementations::ray::vec4_add(
                &surface,
                &crate::implementations::ray::vec4_add(
                    &reflected.scaled(reflectance),
                    &refracted.scaled(crate::implementations::fx::fx_sub(SCALE, reflectance)),
                ),
            );
        }
        crate::implementations::ray::vec4_add(
            &crate::implementations::ray::vec4_add(&surface, &reflected),
            &refracted,
        )
    }

    /// The color the ray sees in the scene, with `remaining` bounces of
    /// reflection/refraction budget left.
    pub fn color_at(&self, ray: &Ray, remaining: u32) -> (r: Vec4)
        requires
            world_wf(*self),
        ensures
            r == s_color_at(self.shapes@, self.light, self.quick_rendered, *ray, remaining),
        decreases remaining, 2int,
    {
        let intersections: Vec<Intersection> = self.intersect(ray);
        proof {
            lemma_world_intersect_objects(self.shapes@, *ray);
        }
        match hit(&intersections) {
            Some(h) => {
                proof {
                    lemma_hit_member(intersections@);
                    lemma_walk_finds(intersections@, h, self.shapes@, Seq::empty());
                }
                let comps: Computations = h.prepare_computations(ray, &intersections, &self.shapes);
                if self.quick_rendered {
                    let shape: &Shape = &self.shapes[comps.object];
                    match &shape.material.pattern {
                        Some(pattern) => pattern.color_at(shape, &comps.over_point),
                        None => shape.material.color,
                    }
                } else {
                    self.shade_hit(&comps, remaining)
                }
            },
            None => crate::implementations::tuples::color(0, 0, 0),
        }
    }

    /// Black when the budget is spent or the surface is (nearly) not
    /// reflective; else the color along the bounced ray, attenuated.
    pub fn reflected_color(&self, comps: &Computations, remaining: u32) -> (r: Vec4)
        requires
            world_wf(*self),
            comps.object < self.shapes@.len(),
        ensures
            r == s_reflected_color(
                self.shapes@,
                self.light,
                self.quick_rendered,
                *comps,
                remaining,
            ),
        decreases remaining, 0int,
    {
        let reflective: Fx = self.shapes[comps.object].material.reflective;
        if remaining == 0 || crate::implementations::fx::fequals(reflective, 0) {
            return crate::implementations::tuples::color(0, 0, 0);
        }
        let reflect_ray = Ray { origin: comps.over_point, direction: comps.reflectv };
        let c: Vec4 = self.color_at(&reflect_ray, remaining - 1);
        c.scaled(reflective)
    }

    /// Black for an opaque surface, a spent budget, or total internal
    /// reflection; else the color along the refracted ray, attenuated.
    pub fn refracted_color(&self, comps: &Computations, remaining: u32) -> (r: Vec4)
        requires
            world_wf(*self),
            comps.object < self.shapes@.len(),
            self.shapes@[comps.object as int].material.transparency != 0 ==> comps.n1 is Some
                && comps.n2 is Some,
        ensures
            r == s_refracted_color(
                self.shapes@,
                self.light,
                self.quick_rendered,
                *comps,
                remaining,
            ),
        decreases remaining, 0int,
    {
        let transparency: Fx = self.shapes[comps.object].material.transparency;
        if transparency == 0 || remaining == 0 {
            return crate::implementations::tuples::color(0, 0, 0);
        }
        let n1: Fx = match comps.n1 {
            Some(v) => v,
            None => SCALE,
        };
        let n2: Fx = match comps.n2 {
            Some(v) => v,
            None => SCALE,
        };
        let n_ratio: Fx = crate::implementations::fx::fx_div(n1, n2);
        let cos_i: Fx = comps.eyev.dot(&comps.normalv);
        let sin2_t: Fx = crate::implementations::fx::fx_mul(
            crate::implementations::fx::fx_mul(n_ratio, n_ratio),
            crate::implementations::fx::fx_sub(
                SCALE,
                crate::implementations::fx::fx_mul(cos_i, cos_i),
            ),
        );
        if sin2_t > SCALE {
            return crate::implementations::tuples::color(0, 0, 0);
        }
        let cos_t: Fx = crate::implementations::fx::fx_sqrt(
            crate::implementations::fx::fx_sub(SCALE, sin2_t),
        );
        let direction: Vec4 = comps.normalv.scaled(
            crate::implementations::fx::fx_sub(
                crate::implementations::fx::fx_mul(n_ratio, cos_i),
                cos_t,
            ),
        ).minus(&comps.eyev.scaled(n_ratio));
        let refract_ray = Ray { origin: comps.under_point, direction };
        self.color_at(&refract_ray, remaining - 1).scaled(transparency)
    }
}

/// Runtime check of `shape_wf`: the transform is invertible and the
/// pattern, if any, is usable.
pub fn shape_check(s: &Shape) -> (b: bool)
    ensures
        b == shape_wf(*s),
{
    if s.transform.determ() == 0 {
        return false;
    }
    match &s.material.pattern {
        None => true,
        Some(Pattern::Texture(t)) => {
            t.width > 0 && t.height > 0 && t.image_pixels.width() == t.width
                && t.image_pixels.height() == t.height
        },
        Some(p) => p.get_transform().determ() != 0,
    }
}

proof fn lemma_insert_position(s: Seq<Intersection>, x: Intersection, pos: int)
    requires
        0 <= pos <= s.len(),
        forall|k: int| pos <= k < s.len() ==> s[k].t > x.t,
        pos > 0 ==> s[pos - 1].t <= x.t,
    ensures
        insert_sorted(s, x) == s.insert(pos, x),
    decreases s.len(),
{
    if s.len() == 0 {
        assert(insert_sorted(s, x) =~= s.insert(0, x));
    } else if pos == s.len() {
        assert(!(s.last().t > x.t));
        assert(s.push(x) =~= s.insert(pos, x));
    } else {
        assert(s.last().t > x.t);
        let s2 = s.drop_last();
        lemma_insert_position(s2, x, pos);
        assert(insert_sorted(s2, x).push(s.last()) =~= s.insert(pos, x));
    }
}

proof fn lemma_hit_member(s: Seq<Intersection>)
    ensures
        spec_hit(s) matches Some(h) ==> s.contains(h),
    decreases s.len(),
{
    if s.len() > 0 {
        lemma_hit_member(s.drop_last());
        match spec_hit(s) {
            Some(h) => {
                match spec_hit(s.drop_last()) {
                    Some(h0) => {
                        if h == h0 {
                            let j = choose|j: int|
                                0 <= j < s.drop_last().len() && s.drop_last()[j] == h;
                            assert(s[j] == h);
                        } else {
                            assert(s[s.len() - 1] == h);
                        }
                    },
                    None => {
                        assert(s[s.len() - 1] == h);
                    },
                }
            },
            None => {},
        }
    }
}

/// A walk over a list that contains its target always resolves both
/// refractive indices.
pub proof fn lemma_walk_finds(
    xs: Seq<Intersection>,
    the_hit: Intersection,
    shapes: Seq<Shape>,
    c: Seq<usize>,
)
    requires
        xs.contains(the_hit),
    ensures
        s_refraction_walk(xs, c, the_hit, shapes).0 is Some,
        s_refraction_walk(xs, c, the_hit, shapes).1 is Some,
    decreases xs.len(),
{
    if xs[0] != the_hit {
        assert(xs.drop_first().contains(the_hit)) by {
            let j = choose|j: int| 0 <= j < xs.len() && xs[j] == the_hit;
            assert(xs.drop_first()[j - 1] == the_hit);
        }
        lemma_walk_finds(
            xs.drop_first(),
            the_hit,
            shapes,
            crate::implementations::intersection::s_toggle(c, xs[0].object),
        );
    }
}

/// Every record gathered from the scene carries a shape index inside the
/// list, and sorting preserves that.
proof fn lemma_gather_objects(shapes: Seq<Shape>, r: Ray)
    ensures
        forall|k: int|
            0 <= k < s_gather(shapes, r).len() ==> (#[trigger] s_gather(shapes, r)[k]).object
                < shapes.len(),
    decreases shapes.len(),
{
    if shapes.len() > 0 {
        lemma_gather_objects(shapes.drop_last(), r);
        crate::implementations::shape::lemma_intersect_objects(
            shapes.last(),
            (shapes.len() - 1) as usize,
            r,
        );
        let left = s_gather(shapes.drop_last(), r);
        let right = s_intersect(shapes.last(), (shapes.len() - 1) as usize, r);
        let out = s_gather(shapes, r);
        assert forall|k: int| 0 <= k < out.len() implies out[k].object < shapes.len() by {
            if k < left.len() {
                assert(out[k] == left[k]);
            } else {
                assert(out[k] == right[k - left.len()]);
            }
        }
    }
}

proof fn lemma_insert_sorted_objects(s: Seq<Intersection>, x: Intersection, bound: int)
    requires
        forall|k: int| 0 <= k < s.len() ==> (#[trigger] s[k]).object < bound,
        x.object < bound,
    ensures
        forall|k: int|
            0 <= k < insert_sorted(s, x).len() ==> (#[trigger] insert_sorted(s, x)[k]).object
                < bound,
    decreases s.len(),
{
    let out = insert_sorted(s, x);
    if s.len() == 0 {
        assert forall|k: int| 0 <= k < out.len() implies out[k].object < bound by {
            assert(out[k] == x);
        }
    } else if s.last().t > x.t {
        lemma_insert_sorted_objects(s.drop_last(), x, bound);
        let rec = insert_sorted(s.drop_last(), x);
        assert forall|k: int| 0 <= k < out.len() implies out[k].object < bound by {
            if k < rec.len() {
                assert(out[k] == rec[k]);
            } else {
                assert(out[k] == s[s.len() - 1]);
            }
        }
    } else {
        assert forall|k: int| 0 <= k < out.len() implies out[k].object < bound by {
            if k < s.len() {
                assert(out[k] == s[k]);
            } else {
                assert(out[k] == x);
            }
        }
    }
}

proof fn lemma_sort_objects(s: Seq<Intersection>, bound: int)
    requires
        forall|k: int| 0 <= k < s.len() ==> (#[trigger] s[k]).object < bound,
    ensures
        forall|k: int|
            0 <= k < s_sort(s).len() ==> (#[trigger] s_sort(s)[k]).object < bound,
    decreases s.len(),
{
    if s.len() > 0 {
        lemma_sort_objects(s.drop_last(), bound);
        lemma_insert_sorted_objects(s_sort(s.drop_last()), s.last(), bound);
    }
}

/// Every record of a scene intersection names a shape of the scene.
pub proof fn lemma_world_intersect_objects(shapes: Seq<Shape>, r: Ray)
    ensures
        forall|k: int|
            0 <= k < s_world_intersect(shapes, r).len() ==> (#[trigger] s_world_intersect(
                shapes,
                r,
            )[k]).object < shapes.len(),
{
    lemma_gather_objects(shapes, r);
    lemma_sort_objects(s_gather(shapes, r), shapes.len() as int);
}

} // verus!
