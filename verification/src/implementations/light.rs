use vstd::prelude::*;

use crate::implementations::fx::{fpow, Fx};
use crate::implementations::material::{mwf, Material};
use crate::implementations::matrices::sdet4;
use crate::implementations::pattern::spattern_color_at;
use crate::implementations::shape::Shape;
use crate::implementations::tuples::{
    sv_color, vdot, vmul, vneg, vnormalize, vreflect, vscale, vsub, Vec4,
};

verus! {

/// A single point light: a position and an intensity color.
#[derive(Clone, Copy, Debug, PartialEq, Eq, Structural)]
pub struct Light {
    pub intensity: Vec4,
    pub position: Vec4,
}

pub open spec fn black() -> Vec4 {
    sv_color(0, 0, 0)
}

/// The base surface color: the pattern's lookup if the material has one,
/// else the flat material color.
pub open spec fn s_surface_color(m: Material, shape: Shape, p: Vec4) -> Vec4 {
    match m.pattern {
        Some(pat) => spattern_color_at(pat, shape.transform, p),
        None => m.color,
    }
}

/// Phong lighting.  `intensity` is the occlusion factor in `[0, 1]` from
/// the shadow test: it attenuates the diffuse and specular contributions
/// but never the ambient one.
pub open spec fn s_lighting(
    m: Material,
    shape: Shape,
    light: Light,
    p: Vec4,
    eyev: Vec4,
    normalv: Vec4,
    intensity: int,
) -> Vec4 {
    let material_color = s_surface_color(m, shape, p);
    let effective_color = vmul(material_color, light.intensity);
    let lightv = vnormalize(vsub(light.position, p));
    let ambient = vscale(effective_color, m.ambient as int);
    let light_dot_normal = vdot(lightv, normalv);
    let diffuse = if light_dot_normal < 0 {
        black()
    } else {
        vscale(vscale(vscale(effective_color, m.diffuse as int), light_dot_normal), intensity)
    };
    let specular = if light_dot_normal < 0 {
        black()
    } else {
        let reflectv = vreflect(vneg(lightv), normalv);
        let reflect_dot_eye = vdot(reflectv, eyev);
        if reflect_dot_eye <= 0 {
            black()
        } else {
            vscale(
                vscale(
                    vscale(light.intensity, m.specular as int),
                    fpow(reflect_dot_eye, m.shininess as nat),
                ),
                intensity,
            )
        }
    };
    vadd3(specular, ambient, diffuse)
}

/// `(specular + ambient) + diffuse`, the summation order of the tracer.
pub open spec fn vadd3(specular: Vec4, ambient: Vec4, diffuse: Vec4) -> Vec4 {
    crate::implementations::tuples::vadd(
        crate::implementations::tuples::vadd(specular, ambient),
        diffuse,
    )
}

pub fn lighting(
    material: &Material,
    shape: &Shape,
    light: &Light,
    point: &Vec4,
    eyev: &Vec4,
    normalv: &Vec4,
    intensity: Fx,
) -> (r: Vec4)
    requires
        mwf(*material),
        sdet4(shape.transform) != 0,
    ensures
        r == s_lighting(*material, *shape, *light, *point, *eyev, *normalv, intensity as int),
{
    let material_color: Vec4 = match &material.pattern {
        Some(pattern) => pattern.color_at(shape, point),
        None => material.color,
    };
    let effective_color: Vec4 = material_color.times(&light.intensity);
    let lightv: Vec4 = light.position.minus(point).normalize();
    let ambient: Vec4 = effective_color.scaled(material.ambient);
    let light_dot_normal: Fx = lightv.dot(normalv);

    let diffuse: Vec4;
    let specular: Vec4;
    if light_dot_normal < 0 {
        diffuse = crate::implementations::tuples::color(0, 0, 0);
        specular = crate::implementations::tuples::color(0, 0, 0);
    } else {
        diffuse = effective_color.scaled(material.diffuse).scaled(light_dot_normal).scaled(
            intensity,
        );
        let reflectv: Vec4 = lightv.negated().reflect(normalv);
        let reflect_dot_eye: Fx = reflectv.dot(eyev);
        if reflect_dot_eye <= 0 {
            specular = crate::implementations::tuples::color(0, 0, 0);
        } else {
            let factor: Fx = crate::implementations::fx::fx_pow(
                reflect_dot_eye,
                material.shininess,
            );
            specular = light.intensity.scaled(material.specular).scaled(factor).scaled(intensity);
        }
    }
    crate::implementations::ray::vec4_add(
        &crate::implementations::ray::vec4_add(&specular, &ambient),
        &diffuse,
    )
}

} // verus!
