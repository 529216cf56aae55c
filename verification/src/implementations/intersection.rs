use vstd::prelude::*;

use crate::implementations::computations::{Computations, BUMP_EPSILON};
use crate::implementations::fx::{Fx, SCALE};
use crate::implementations::ray::{sposition, vec4_add, Ray};
use crate::implementations::matrices::sdet4;
use crate::implementations::shape::{s_normal_at, Shape};
use crate::implementations::tuples::{vadd, vdot, vneg, vreflect, vscale, vsub, Vec4};

verus! {

/// One boundary crossing: the identity of the shape hit (its index in the
/// scene's shape list) and the parametric distance along the ray.
#[derive(Clone, Copy, Debug, PartialEq, Eq, Structural)]
pub struct Intersection {
    pub object: usize,
    pub t: Fx,
}

/// One fold step of hit selection: intersections behind the ray origin are
/// discarded, and of the rest the strictly smallest `t` wins (the earliest
/// of equals is kept).
pub open spec fn hit_step(acc: Option<Intersection>, el: Intersection) -> Option<Intersection> {
    if el.t < 0 {
        acc
    } else {
        match acc {
            None => Some(el),
            Some(a) => if el.t < a.t {
                Some(el)
            } else {
                Some(a)
            },
        }
    }
}

/// The visible hit of a candidate list: the record with the smallest
/// non-negative `t`, or `None` when every candidate lies behind the origin.
pub open spec fn spec_hit(s: Seq<Intersection>) -> Option<Intersection>
    decreases s.len(),
{
    if s.len() == 0 {
        None
    } else {
        hit_step(spec_hit(s.drop_last()), s.last())
    }
}

pub fn hit(intersections: &Vec<Intersection>) -> (r: Option<Intersection>)
    ensures
        r == spec_hit(intersections@),
{
    let mut acc: Option<Intersection> = None;
    let mut i: usize = 0;
    while i < intersections.len()
        invariant
            i <= intersections@.len(),
            acc == spec_hit(intersections@.take(i as int)),
        decreases intersections@.len() - i,
    {
        let el: Intersection = intersections[i];
        if el.t >= 0 {
            match acc {
                None => {
                    acc = Some(el);
                },
                Some(a) => {
                    if el.t < a.t {
                        acc = Some(el);
                    }
                },
            }
        }
        i = i + 1;
        proof {
            let pre = intersections@.take(i - 1);
            let cur = intersections@.take(i as int);
            assert(cur.drop_last() =~= pre);
            assert(cur.last() == intersections@[i - 1]);
        }
    }
    proof {
        assert(intersections@.take(intersections@.len() as int) =~= intersections@);
    }
    acc
}

/// Index of the first occurrence of `v` in `s` (meaningful when present).
pub open spec fn first_index_of(s: Seq<usize>, v: usize) -> int
    decreases s.len(),
{
    if s.len() == 0 {
        0
    } else if s[0] == v {
        0
    } else {
        1 + first_index_of(s.drop_first(), v)
    }
}

proof fn lemma_first_index(s: Seq<usize>, v: usize, j: int)
    requires
        0 <= j < s.len(),
        s[j] == v,
        forall|m: int| 0 <= m < j ==> s[m] != v,
    ensures
        first_index_of(s, v) == j,
    decreases j,
{
    if j > 0 {
        lemma_first_index(s.drop_first(), v, j - 1);
    }
}

proof fn lemma_first_index_range(s: Seq<usize>, v: usize)
    requires
        s.contains(v),
    ensures
        0 <= first_index_of(s, v) < s.len(),
        s[first_index_of(s, v)] == v,
    decreases s.len(),
{
    if s[0] != v {
        assert(s.drop_first().contains(v)) by {
            let j = choose|j: int| 0 <= j < s.len() && s[j] == v;
            assert(s.drop_first()[j - 1] == v);
        }
        lemma_first_index_range(s.drop_first(), v);
    }
}

proof fn lemma_toggle_bounded(c: Seq<usize>, obj: usize, bound: int)
    requires
        forall|m: int| 0 <= m < c.len() ==> c[m] < bound,
        obj < bound,
    ensures
        forall|m: int| 0 <= m < s_toggle(c, obj).len() ==> s_toggle(c, obj)[m] < bound,
{
    if c.contains(obj) {
        lemma_first_index_range(c, obj);
        let j = first_index_of(c, obj);
        let post = c.remove(j);
        assert forall|m: int| 0 <= m < post.len() implies post[m] < bound by {
            if m < j {
                assert(post[m] == c[m]);
            } else {
                assert(post[m] == c[m + 1]);
            }
        }
    }
}

/// One toggle of the containment stack: a shape already present leaves (the
/// ray exits it), an absent one enters at the top.
pub open spec fn s_toggle(c: Seq<usize>, obj: usize) -> Seq<usize> {
    if c.contains(obj) {
        c.remove(first_index_of(c, obj))
    } else {
        c.push(obj)
    }
}

/// The refractive index of the innermost medium: vacuum (1.0) for an empty
/// stack, else the index of the shape on top.
pub open spec fn s_top_ri(c: Seq<usize>, shapes: Seq<Shape>) -> Fx {
    if c.len() == 0 {
        SCALE
    } else {
        shapes[c.last() as int].material.refractive_index
    }
}

/// The containment walk: process intersections in order, toggling each
/// shape's membership; at the target hit, `n1` is the medium before the
/// toggle and `n2` the medium after it, and the walk stops.  A walk that
/// never meets the target resolves nothing.
pub open spec fn s_refraction_walk(
    xs: Seq<Intersection>,
    c: Seq<usize>,
    the_hit: Intersection,
    shapes: Seq<Shape>,
) -> (Option<Fx>, Option<Fx>)
    decreases xs.len(),
{
    if xs.len() == 0 {
        (None, None)
    } else {
        let i = xs[0];
        let c2 = s_toggle(c, i.object);
        if i == the_hit {
            (Some(s_top_ri(c, shapes)), Some(s_top_ri(c2, shapes)))
        } else {
            s_refraction_walk(xs.drop_first(), c2, the_hit, shapes)
        }
    }
}

/// The refractive indices on either side of the target hit, resolved from
/// the full ordered intersection list by the containment-stack walk.
pub open spec fn s_refraction_indices(
    xs: Seq<Intersection>,
    the_hit: Intersection,
    shapes: Seq<Shape>,
) -> (Option<Fx>, Option<Fx>) {
    s_refraction_walk(xs, Seq::empty(), the_hit, shapes)
}

/// All per-hit shading geometry as one value: the surface point, the eye
/// and (flipped-if-inside) normal vectors, the two bias-shifted points, the
/// reflection vector, and the resolved refractive indices.
pub open spec fn s_prepare(
    the_hit: Intersection,
    r: Ray,
    xs: Seq<Intersection>,
    shapes: Seq<Shape>,
) -> Computations {
    let nn = s_refraction_indices(xs, the_hit, shapes);
    let p = sposition(r, the_hit.t as int);
    let shape = shapes[the_hit.object as int];
    let normal0 = s_normal_at(shape, p);
    let eyev = vneg(r.direction);
    let inside = vdot(normal0, eyev) < 0;
    let normalv = if inside {
        vneg(normal0)
    } else {
        normal0
    };
    Computations {
        t: the_hit.t,
        object: the_hit.object,
        point: p,
        eyev: eyev,
        normalv: normalv,
        inside: inside,
        over_point: vadd(p, vscale(normalv, BUMP_EPSILON as int)),
        under_point: vsub(p, vscale(normalv, BUMP_EPSILON as int)),
        reflectv: vreflect(r.direction, normalv),
        n1: nn.0,
        n2: nn.1,
    }
}

fn toggle_containment(containers: &mut Vec<usize>, obj: usize)
    ensures
        final(containers)@ == s_toggle(old(containers)@, obj),
{
    let mut k: usize = 0;
    while k < containers.len()
        invariant
            containers@ == old(containers)@,
            k <= containers@.len(),
            forall|m: int| 0 <= m < k ==> containers@[m] != obj,
        decreases containers@.len() - k,
    {
        if containers[k] == obj {
            proof {
                assert(containers@.contains(obj)) by {
                    assert(containers@[k as int] == obj);
                }
                lemma_first_index(containers@, obj, k as int);
            }
            containers.remove(k);
            return ;
        }
        k = k + 1;
    }
    proof {
        assert(!containers@.contains(obj)) by {
            assert(forall|m: int|
                0 <= m < containers@.len() ==> containers@[m] != obj);
        }
    }
    containers.push(obj);
}

fn top_refractive(containers: &Vec<usize>, shapes: &Vec<Shape>) -> (r: Fx)
    requires
        forall|m: int| 0 <= m < containers@.len() ==> containers@[m] < shapes@.len(),
    ensures
        r == s_top_ri(containers@, shapes@),
{
    if containers.len() == 0 {
        SCALE
    } else {
        let top: usize = containers[containers.len() - 1];
        shapes[top].material.refractive_index
    }
}

impl Intersection {
    /// Precompute the shading geometry for this hit of `ray`, resolving
    /// `n1`/`n2` by walking the full sorted intersection list.
    pub fn prepare_computations(
        &self,
        ray: &Ray,
        intersections: &Vec<Intersection>,
        shapes: &Vec<Shape>,
    ) -> (c: Computations)
        requires
            self.object < shapes@.len(),
            sdet4(shapes@[self.object as int].transform) != 0,
            forall|m: int|
                0 <= m < intersections@.len() ==> intersections@[m].object < shapes@.len(),
        ensures
            c == s_prepare(*self, *ray, intersections@, shapes@),
    {
        let ghost xs = intersections@;
        let mut containers: Vec<usize> = Vec::new();
        let mut n1: Option<Fx> = None;
        let mut n2: Option<Fx> = None;
        let mut found: bool = false;
        let mut idx: usize = 0;
        proof {
            assert(xs.skip(0) =~= xs);
        }
        while idx < intersections.len() && !found
            invariant
                idx <= xs.len(),
                xs == intersections@,
                forall|m: int| 0 <= m < xs.len() ==> xs[m].object < shapes@.len(),
                forall|m: int| 0 <= m < containers@.len() ==> containers@[m] < shapes@.len(),
                !found ==> n1 is None && n2 is None,
                !found ==> s_refraction_indices(xs, *self, shapes@) == s_refraction_walk(
                    xs.skip(idx as int),
                    containers@,
                    *self,
                    shapes@,
                ),
                found ==> (n1, n2) == s_refraction_indices(xs, *self, shapes@),
            decreases xs.len() - idx,
        {
            let i: Intersection = intersections[idx];
            let is_the_hit: bool = i == *self;
            if is_the_hit {
                n1 = Some(top_refractive(&containers, shapes));
            }
            let ghost pre_containers = containers@;
            toggle_containment(&mut containers, i.object);
            proof {
                lemma_toggle_bounded(pre_containers, i.object, shapes@.len() as int);
                assert(xs.skip(idx as int)[0] == i);
                assert(xs.skip(idx as int).drop_first() =~= xs.skip(idx as int + 1));
            }
            if is_the_hit {
                n2 = Some(top_refractive(&containers, shapes));
                found = true;
            }
            idx = idx + 1;
        }
        proof {
            if !found {
                assert(xs.skip(xs.len() as int) =~= Seq::<Intersection>::empty());
            }
        }
        let ray_position: Vec4 = ray.position(self.t);
        let normal0: Vec4 = shapes[self.object].normal_at(&ray_position);
        let eyev: Vec4 = ray.direction.negated();
        let inside: bool = normal0.dot(&eyev) < 0;
        let normalv: Vec4 = if inside {
            normal0.negated()
        } else {
            normal0
        };
        Computations {
            t: self.t,
            object: self.object,
            point: ray_position,
            eyev,
            normalv,
            inside,
            over_point: vec4_add(&ray_position, &normalv.scaled(BUMP_EPSILON)),
            under_point: ray_position.minus(&normalv.scaled(BUMP_EPSILON)),
            reflectv: ray.direction.reflect(&normalv),
            n1,
            n2,
        }
    }
}

} // verus!
