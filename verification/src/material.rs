//! Surface materials and the Phong lighting model.

use vstd::prelude::*;

verus! {

use crate::color::{Color, spec_color_mul, spec_color_scale, spec_color_add, color_approx};
use crate::fixed::{Fx, fx_powf, iabs, EPS_RAW, SCALE};
use crate::light::PointLight;
use crate::matrix::spec_inverse_rep;
use crate::pattern::{
    Pattern, spec_pattern_color_at_object, spec_template_approx, solid_pattern,
};
use crate::shape::Shape;
use crate::tuple::{Tuple, spec_sub, spec_neg, spec_dot, spec_normalize, spec_reflect};

/// Raw value of the default ambient coefficient, 0.1.
pub const AMBIENT_RAW: i64 = 429496730;

/// Raw value of the default diffuse and specular coefficients, 0.9.
pub const DIFFUSE_RAW: i64 = 3865470566;

/// Raw value of the default shininess, 200.
pub const SHININESS_RAW: i64 = 858993459200;

/// A surface's appearance: Phong coefficients, reflection and refraction
/// parameters, and a color pattern.
#[derive(Clone, Debug)]
pub struct Material {
    pub ambient: Fx,
    pub diffuse: Fx,
    pub specular: Fx,
    pub shininess: Fx,
    pub reflective: Fx,
    pub transparency: Fx,
    pub refractive_index: Fx,
    pub pattern: Pattern,
}

impl Material {
    pub open spec fn wf(self) -> bool {
        self.pattern.wf()
    }

    /// The default Phong block: ambient 0.1, diffuse 0.9, specular 0.9,
    /// shininess 200, and a solid white pattern with identity transforms.
    pub open spec fn default_phong(self) -> bool {
        &&& self.ambient == (Fx { raw: AMBIENT_RAW })
        &&& self.diffuse == (Fx { raw: DIFFUSE_RAW })
        &&& self.specular == (Fx { raw: DIFFUSE_RAW })
        &&& self.shininess == (Fx { raw: SHININESS_RAW })
        &&& self.pattern.template == crate::pattern::Template::Solid(crate::color::spec_white())
        &&& self.pattern.wf()
        &&& self.pattern.transform.rep() =~= crate::matrix::spec_identity_rep()
        &&& self.pattern.inverse.rep() =~= crate::matrix::spec_identity_rep()
    }

    /// The default material: the default Phong block with no reflection or
    /// transparency and refractive index 1.
    pub open spec fn is_default(self) -> bool {
        &&& self.default_phong()
        &&& self.reflective == (Fx { raw: 0 })
        &&& self.transparency == (Fx { raw: 0 })
        &&& self.refractive_index == (Fx { raw: SCALE })
    }

    pub fn new(
        ambient: Fx,
        diffuse: Fx,
        specular: Fx,
        shininess: Fx,
        reflective: Fx,
        transparency: Fx,
        refractive_index: Fx,
        pattern: Pattern,
    ) -> (m: Material)
        requires
            pattern.wf(),
        ensures
            m == (Material {
                ambient,
                diffuse,
                specular,
                shininess,
                reflective,
                transparency,
                refractive_index,
                pattern,
            }),
            m.wf(),
    {
        Material {
            ambient,
            diffuse,
            specular,
            shininess,
            reflective,
            transparency,
            refractive_index,
            pattern,
        }
    }

    pub fn default() -> (m: Material)
        ensures
            m.is_default(),
            m.wf(),
    {
        Material {
            ambient: Fx { raw: AMBIENT_RAW },
            diffuse: Fx { raw: DIFFUSE_RAW },
            specular: Fx { raw: DIFFUSE_RAW },
            shininess: Fx { raw: SHININESS_RAW },
            reflective: Fx { raw: 0 },
            transparency: Fx { raw: 0 },
            refractive_index: Fx { raw: SCALE },
            pattern: solid_pattern(Color::white()),
        }
    }

    pub fn pattern(&self) -> (p: &Pattern)
        requires
            self.wf(),
        ensures
            p == self.pattern,
    {
        &self.pattern
    }

    /// Phong lighting at a point, for one light.  The pattern is sampled in
    /// pattern space through the object's and the pattern's inverses; in
    /// shadow only the ambient term remains.  Fails exactly when the
    /// object's transform is not invertible.
    pub fn lighting(
        &self,
        object: &Shape,
        light: &PointLight,
        point: Tuple,
        eye_v: Tuple,
        normal_v: Tuple,
        in_shadow: bool,
    ) -> (res: Result<Color, ()>)
        requires
            self.wf(),
            object.wf(),
        ensures
            res is Err <==> !object.invertible(),
            res matches Ok(c) ==> c == spec_lighting(
                *self,
                *object,
                *light,
                point,
                eye_v,
                normal_v,
                in_shadow,
            ),
    {
        let inv = match object.transform.inverse() {
            Ok(m) => m,
            Err(()) => {
                return Err(());
            },
        };
        let object_point = inv.mul_tuple(point);
        let start_color = self.pattern.color_at_object(object_point);
        let effective_color = start_color.mul(light.intensity);
        let light_v = light.position.sub(point).normalize();
        let ambient = effective_color.scale(self.ambient);
        let light_dot_normal = light_v.dot(normal_v);
        let mut diffuse = Color::black();
        let mut specular = Color::black();
        if light_dot_normal.raw < 0 {
        } else {
            diffuse = effective_color.scale(self.diffuse).scale(light_dot_normal);
            let reflect_v = light_v.neg().reflect(normal_v);
            let reflect_dot_eye = reflect_v.dot(eye_v);
            if reflect_dot_eye.raw <= 0 {
            } else {
                let factor = reflect_dot_eye.powf(self.shininess);
                specular = light.intensity.scale(self.specular).scale(factor);
            }
        }
        let result: Color = if in_shadow {
            ambient
        } else {
            ambient.add(diffuse).add(specular)
        };
        proof {
            reveal(spec_lighting);
            assert(result == spec_lighting(*self, *object, *light, point, eye_v, normal_v, in_shadow));
        }
        Ok(result)
    }

    /// Tolerance-based equality on the Phong coefficients and the pattern.
    pub fn approx_eq(&self, rhs: &Material) -> (r: bool)
        requires
            self.wf(),
            rhs.wf(),
        ensures
            r == spec_material_approx(*self, *rhs),
    {
        self.ambient.approx_eq(rhs.ambient) && self.diffuse.approx_eq(rhs.diffuse)
            && self.specular.approx_eq(rhs.specular) && self.shininess.approx_eq(rhs.shininess)
            && self.pattern.approx_eq(&rhs.pattern)
    }
}

/// Tolerance-based material equality: the four Phong coefficients within
/// about 1e-5, and the patterns' rules and transforms close.
pub open spec fn spec_material_approx(a: Material, b: Material) -> bool {
    &&& iabs(a.ambient@ - b.ambient@) < EPS_RAW as int
    &&& iabs(a.diffuse@ - b.diffuse@) < EPS_RAW as int
    &&& iabs(a.specular@ - b.specular@) < EPS_RAW as int
    &&& iabs(a.shininess@ - b.shininess@) < EPS_RAW as int
    &&& spec_template_approx(a.pattern.template, b.pattern.template)
    &&& crate::matrix::matrix_approx(a.pattern.transform.rep(), b.pattern.transform.rep())
}

/// The Phong lighting result (assuming the object's transform is
/// invertible).
#[verifier::opaque]
pub open spec fn spec_lighting(
    m: Material,
    object: Shape,
    light: PointLight,
    point: Tuple,
    eye_v: Tuple,
    normal_v: Tuple,
    in_shadow: bool,
) -> Color {
    let inv = spec_inverse_rep(object.transform.rep(), 4);
    let object_point = crate::matrix::spec_mul_tuple(inv, 4, point);
    let start_color = spec_pattern_color_at_object(m.pattern, object_point);
    let effective_color = spec_color_mul(start_color, light.intensity);
    let light_v = spec_normalize(spec_sub(light.position, point));
    let ambient = spec_color_scale(effective_color, m.ambient);
    let light_dot_normal = spec_dot(light_v, normal_v);
    let diffuse = if light_dot_normal@ < 0 {
        crate::color::spec_black()
    } else {
        spec_color_scale(spec_color_scale(effective_color, m.diffuse), light_dot_normal)
    };
    let specular = if light_dot_normal@ < 0 {
        crate::color::spec_black()
    } else {
        let reflect_v = spec_reflect(spec_neg(light_v), normal_v);
        let reflect_dot_eye = spec_dot(reflect_v, eye_v);
        if reflect_dot_eye@ <= 0 {
            crate::color::spec_black()
        } else {
            let factor = fx_powf(reflect_dot_eye, m.shininess);
            spec_color_scale(spec_color_scale(light.intensity, m.specular), factor)
        }
    };
    if in_shadow {
        ambient
    } else {
        spec_color_add(spec_color_add(ambient, diffuse), specular)
    }
}

/// Every lighting result is inside the saturating raw range.
pub proof fn lemma_lighting_in_range(
    m: Material,
    object: Shape,
    light: PointLight,
    point: Tuple,
    eye_v: Tuple,
    normal_v: Tuple,
    in_shadow: bool,
)
    ensures
        ({
            let c = spec_lighting(m, object, light, point, eye_v, normal_v, in_shadow);
            -(crate::fixed::MAX_RAW as int) <= c.0@ <= crate::fixed::MAX_RAW as int
                && -(crate::fixed::MAX_RAW as int) <= c.1@ <= crate::fixed::MAX_RAW as int && -(
            crate::fixed::MAX_RAW as int) <= c.2@ <= crate::fixed::MAX_RAW as int
        }),
{
    reveal(spec_lighting);
}

/// Build a material from its coefficients and pattern.
pub fn material(
    ambient: Fx,
    diffuse: Fx,
    specular: Fx,
    shininess: Fx,
    reflective: Fx,
    transparency: Fx,
    refractive_index: Fx,
    pattern: Pattern,
) -> (m: Material)
    requires
        pattern.wf(),
    ensures
        m == (Material {
            ambient,
            diffuse,
            specular,
            shininess,
            reflective,
            transparency,
            refractive_index,
            pattern,
        }),
        m.wf(),
{
    Material::new(
        ambient,
        diffuse,
        specular,
        shininess,
        reflective,
        transparency,
        refractive_index,
        pattern,
    )
}

} // verus!
