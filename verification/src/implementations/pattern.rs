use vstd::prelude::*;

use crate::implementations::matrices::{sdet4, sinv4, smul4v, Matrix4x4};
use crate::implementations::patterns::checker_pattern::{s_checker_at, CheckerPattern};
use crate::implementations::patterns::gradient_pattern::{s_gradient_at, GradientPattern};
use crate::implementations::patterns::ring_pattern::{s_ring_at, RingPattern};
use crate::implementations::patterns::striped_pattern::{s_striped_at, StripedPattern};
use crate::implementations::patterns::texture_pattern::{s_texture_at, twf, TexturePattern};
use crate::implementations::shape::Shape;
use crate::implementations::tuples::Vec4;

verus! {

/// The closed family of surface patterns; each variant answers
/// `color_at(shape, world_point)` and carries its own pattern-space
/// transform.
#[derive(Clone)]
pub enum Pattern {
    Striped(StripedPattern),
    Gradient(GradientPattern),
    Ring(RingPattern),
    Checker(CheckerPattern),
    Texture(TexturePattern),
}

pub open spec fn spattern_transform(p: Pattern) -> Matrix4x4 {
    match p {
        Pattern::Striped(s) => s.transform,
        Pattern::Gradient(g) => g.transform,
        Pattern::Ring(r) => r.transform,
        Pattern::Checker(c) => c.transform,
        Pattern::Texture(t) => t.transform,
    }
}

/// What a pattern needs of its data before it can be sampled: an invertible
/// pattern transform, and for a texture a well-formed image.
pub open spec fn pattern_wf(p: Pattern) -> bool {
    match p {
        Pattern::Texture(t) => twf(t),
        _ => sdet4(spattern_transform(p)) != 0,
    }
}

/// A world point carried into pattern space: through the shape's inverse
/// transform, then the pattern's own inverse transform.
pub open spec fn spattern_point(ptf: Matrix4x4, shape_tf: Matrix4x4, wp: Vec4) -> Vec4 {
    smul4v(sinv4(ptf), smul4v(sinv4(shape_tf), wp))
}

/// The color a pattern yields for a shape at a world-space point.  Analytic
/// patterns sample in pattern space; a texture samples the world point
/// directly.
pub open spec fn spattern_color_at(p: Pattern, shape_tf: Matrix4x4, wp: Vec4) -> Vec4 {
    match p {
        Pattern::Striped(s) => s_striped_at(s, shape_tf, wp),
        Pattern::Gradient(g) => s_gradient_at(g, shape_tf, wp),
        Pattern::Ring(r) => s_ring_at(r, shape_tf, wp),
        Pattern::Checker(c) => s_checker_at(c, shape_tf, wp),
        Pattern::Texture(t) => s_texture_at(t, wp),
    }
}

pub(crate) fn pattern_space_point(ptf: &Matrix4x4, shape_tf: &Matrix4x4, point: &Vec4) -> (r:
    Vec4)
    requires
        sdet4(*ptf) != 0,
        sdet4(*shape_tf) != 0,
    ensures
        r == spattern_point(*ptf, *shape_tf, *point),
{
    let object_point: Vec4 = shape_tf.invert().times_vec(point);
    ptf.invert().times_vec(&object_point)
}

pub fn transform_point_to_pattern_space(pattern: &Pattern, shape: &Shape, point: &Vec4) -> (r:
    Vec4)
    requires
        sdet4(spattern_transform(*pattern)) != 0,
        sdet4(shape.transform) != 0,
    ensures
        r == spattern_point(spattern_transform(*pattern), shape.transform, *point),
{
    pattern_space_point(&pattern.get_transform(), &shape.transform, point)
}

impl Pattern {
    pub fn get_transform(&self) -> (r: Matrix4x4)
        ensures
            r == spattern_transform(*self),
    {
        match self {
            Pattern::Striped(s) => s.transform,
            Pattern::Gradient(g) => g.transform,
            Pattern::Ring(r) => r.transform,
            Pattern::Checker(c) => c.transform,
            Pattern::Texture(t) => t.transform,
        }
    }

    pub fn color_at(&self, shape: &Shape, point: &Vec4) -> (r: Vec4)
        requires
            pattern_wf(*self),
            sdet4(shape.transform) != 0,
        ensures
            r == spattern_color_at(*self, shape.transform, *point),
    {
        match self {
            Pattern::Striped(s) => s.color_at(shape, point),
            Pattern::Gradient(g) => g.color_at(shape, point),
            Pattern::Ring(r) => r.color_at(shape, point),
            Pattern::Checker(c) => c.color_at(shape, point),
            Pattern::Texture(t) => t.color_at(point),
        }
    }
}

} // verus!
