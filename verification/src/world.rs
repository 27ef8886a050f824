//! The world: objects and lights, ray casting over all objects, shadow
//! tests, and the recursive reflect/refract shading bounded by a depth
//! counter.
//!
//! Every entry point tests up front that all placement transforms are
//! invertible and fails fast otherwise, so a render either completes or
//! reports the malformed scene.

use vstd::prelude::*;

verus! {

use crate::color::{Color, spec_color_add, spec_color_scale, spec_black};
use crate::fixed::{Fx, fx_add, fx_sub, fx_neg, fx_mul, fx_div, fx_sqrt, fx_powf, SCALE, TWO_RAW};
use crate::intersection::{
    Intersection, ComputedIntersection, ix_objects_ok, spec_sort_ix, spec_insert,
    spec_first_nonneg, spec_prepare, spec_refr_walk, spec_schlick, sort_intersections, hit_index,
    prepare,
};
use crate::light::PointLight;
use crate::material::{Material, spec_lighting};
use crate::matrix::spec_det;
use crate::pattern::solid_pattern;
use crate::ray::{Ray, spec_position};
use crate::shape::{Shape, ShapeKind, spec_shape_ts};
use crate::transform::{scale, spec_scale_rep};
use crate::tuple::{Tuple, spec_sub, spec_normalize, spec_magnitude};

/// Raw values of the default world's constants.
pub const C08_RAW: i64 = 3435973837;

pub const C06_RAW: i64 = 2576980378;

pub const C07_RAW: i64 = 3006477107;

pub const C02_RAW: i64 = 858993459;

pub const HALF_RAW: i64 = 2147483648;

pub const TEN_RAW: i64 = 42949672960;

/// A scene: an ordered list of shapes and a list of point lights.
#[derive(Clone, Debug)]
pub struct World {
    pub objects: Vec<Shape>,
    pub light_sources: Vec<PointLight>,
}

/// All shapes are well formed.
pub open spec fn all_wf(objects: Seq<Shape>) -> bool {
    forall|i: int| 0 <= i < objects.len() ==> #[trigger] objects[i].wf()
}

/// All placement transforms have nonzero determinants.
pub open spec fn all_invertible(objects: Seq<Shape>) -> bool {
    forall|i: int| 0 <= i < objects.len() ==> #[trigger] objects[i].invertible()
}

/// The intersections of a ray with the first `n` objects, in object order,
/// each parameter tagged with its object's index.
pub open spec fn spec_world_xs(objects: Seq<Shape>, r: Ray, n: nat) -> Seq<Intersection>
    decreases n,
{
    if n == 0 {
        Seq::empty()
    } else {
        let ts = spec_shape_ts(objects[n - 1], r);
        spec_world_xs(objects, r, (n - 1) as nat) + Seq::new(
            ts.len(),
            |i: int| Intersection { t: ts[i], object: (n - 1) as usize },
        )
    }
}

/// All of a ray's intersections with the world, sorted ascending by `t`.
#[verifier::opaque]
pub open spec fn spec_world_sorted(objects: Seq<Shape>, r: Ray) -> Seq<Intersection> {
    spec_sort_ix(spec_world_xs(objects, r, objects.len()))
}

/// Whether a point lies in shadow with respect to one light: something
/// blocks the segment from the point to the light.
#[verifier::opaque]
pub open spec fn spec_is_shadowed(w: World, point: Tuple, light: PointLight) -> bool {
    let v = spec_sub(light.position, point);
    let distance = spec_magnitude(v);
    let direction = spec_normalize(v);
    let r = Ray { origin: point, direction };
    let xs = spec_world_sorted(w.objects@, r);
    match spec_first_nonneg(xs) {
        Option::Some(i) => xs[i].t@ < distance@,
        Option::None => false,
    }
}

/// The color seen along a ray: black on a miss, otherwise the hit prepared
/// against the full sorted list and shaded.
pub open spec fn spec_color_at(w: World, r: Ray, remaining: nat) -> Color
    decreases remaining, 3nat, 0nat,
{
    let xs = spec_world_sorted(w.objects@, r);
    match spec_first_nonneg(xs) {
        Option::Some(i) => spec_shade_hit(w, spec_prepare(xs, i, r, w.objects@), remaining),
        Option::None => spec_black(),
    }
}

/// Shade a prepared hit: sum the per-light contributions.
pub open spec fn spec_shade_hit(w: World, comps: ComputedIntersection, remaining: nat) -> Color
    decreases remaining, 2nat, 0nat,
{
    spec_shade_lights(w, comps, remaining, w.light_sources@.len())
}

/// The sum of the first `n` lights' contributions: local lighting plus the
/// reflected and refracted colors, Fresnel-blended by the Schlick
/// reflectance when the surface is both reflective and transparent.
pub open spec fn spec_shade_lights(
    w: World,
    comps: ComputedIntersection,
    remaining: nat,
    n: nat,
) -> Color
    decreases remaining, 1nat, n,
{
    if n == 0 {
        spec_black()
    } else {
        let prev = spec_shade_lights(w, comps, remaining, (n - 1) as nat);
        let light = w.light_sources@[n - 1];
        let object = w.objects@[comps.object as int];
        let surface = spec_color_add(
            prev,
            spec_lighting(
                object.material,
                object,
                light,
                comps.over_point,
                comps.eye_v,
                comps.normal_v,
                spec_is_shadowed(w, comps.over_point, light),
            ),
        );
        let reflected = spec_reflected_color(w, comps, remaining);
        let refracted = spec_refracted_color(w, comps, remaining);
        let material = object.material;
        if material.reflective@ > 0 && material.transparency@ > 0 {
            let reflectance = spec_schlick(comps);
            spec_color_add(
                spec_color_add(surface, spec_color_scale(reflected, reflectance)),
                spec_color_scale(refracted, fx_sub(Fx { raw: SCALE }, reflectance)),
            )
        } else {
            spec_color_add(spec_color_add(surface, reflected), refracted)
        }
    }
}

/// No lights contribute nothing.
pub proof fn lemma_shade_lights_zero(w: World, comps: ComputedIntersection, remaining: nat)
    ensures
        spec_shade_lights(w, comps, remaining, 0) == spec_black(),
{
}

/// The reflected contribution: black for a dull surface or an exhausted
/// budget, else the color along the reflection ray from just above the
/// surface, scaled by the reflectivity.
pub open spec fn spec_reflected_color(
    w: World,
    comps: ComputedIntersection,
    remaining: nat,
) -> Color
    decreases remaining, 0nat, 0nat,
{
    if w.objects@[comps.object as int].material.reflective@ == 0 || remaining == 0 {
        spec_black()
    } else {
        let reflect_ray = Ray { origin: comps.over_point, direction: comps.reflect_v };
        spec_color_scale(
            spec_color_at(w, reflect_ray, (remaining - 1) as nat),
            w.objects@[comps.object as int].material.reflective,
        )
    }
}

/// The refracted contribution: black for an opaque surface, an exhausted
/// budget, or total internal reflection, else the color along the
/// refraction ray from just below the surface, scaled by the transparency.
pub open spec fn spec_refracted_color(
    w: World,
    comps: ComputedIntersection,
    remaining: nat,
) -> Color
    decreases remaining, 0nat, 0nat,
{
    if w.objects@[comps.object as int].material.transparency@ == 0 || remaining == 0 {
        spec_black()
    } else {
        let one = Fx { raw: SCALE };
        let n_ratio = fx_div(comps.n1, comps.n2);
        let cos_i = crate::tuple::spec_dot(comps.eye_v, comps.normal_v);
        let sin2_t = fx_mul(fx_powf(n_ratio, Fx { raw: TWO_RAW }), fx_sub(one, fx_powf(cos_i, Fx { raw: TWO_RAW })));
        if sin2_t@ > SCALE as int {
            spec_black()
        } else {
            let cos_t = fx_sqrt(fx_sub(one, sin2_t));
            let direction = spec_sub(
                crate::tuple::spec_scale(comps.normal_v, fx_sub(fx_mul(n_ratio, cos_i), cos_t)),
                crate::tuple::spec_scale(comps.eye_v, n_ratio),
            );
            let refract_ray = Ray { origin: comps.under_point, direction };
            spec_color_scale(
                spec_color_at(w, refract_ray, (remaining - 1) as nat),
                w.objects@[comps.object as int].material.transparency,
            )
        }
    }
}

/// Inserting keeps every intersection's object index inside the list.
proof fn lemma_insert_preserves_ok(s: Seq<Intersection>, x: Intersection, objects: Seq<Shape>)
    requires
        ix_objects_ok(s, objects),
        x.object < objects.len(),
    ensures
        ix_objects_ok(spec_insert(s, x), objects),
    decreases s.len(),
{
    if s.len() == 0 {
    } else if s[0].t@ <= x.t@ {
        assert(ix_objects_ok(s.drop_first(), objects));
        lemma_insert_preserves_ok(s.drop_first(), x, objects);
        assert forall|i: int|
            0 <= i < spec_insert(s, x).len() implies #[trigger] spec_insert(s, x)[i].object
            < objects.len() by {
            if i == 0 {
            } else {
                assert(spec_insert(s, x)[i] == spec_insert(s.drop_first(), x)[i - 1]);
            }
        }
    } else {
        assert forall|i: int|
            0 <= i < spec_insert(s, x).len() implies #[trigger] spec_insert(s, x)[i].object
            < objects.len() by {
            if i == 0 {
            } else {
                assert(spec_insert(s, x)[i] == s[i - 1]);
            }
        }
    }
}

/// Sorting keeps every intersection's object index inside the list.
proof fn lemma_sort_preserves_ok(s: Seq<Intersection>, objects: Seq<Shape>)
    requires
        ix_objects_ok(s, objects),
    ensures
        ix_objects_ok(spec_sort_ix(s), objects),
    decreases s.len(),
{
    if s.len() > 0 {
        assert(ix_objects_ok(s.drop_last(), objects));
        lemma_sort_preserves_ok(s.drop_last(), objects);
        assert(s.last().object < objects.len());
        lemma_insert_preserves_ok(spec_sort_ix(s.drop_last()), s.last(), objects);
    }
}

/// The concatenated per-object lists only name objects inside the list.
proof fn lemma_world_xs_ok(objects: Seq<Shape>, r: Ray, n: nat)
    requires
        n <= objects.len(),
    ensures
        ix_objects_ok(spec_world_xs(objects, r, n), objects),
    decreases n,
{
    if n > 0 {
        lemma_world_xs_ok(objects, r, (n - 1) as nat);
        let prev = spec_world_xs(objects, r, (n - 1) as nat);
        let ts = spec_shape_ts(objects[n - 1], r);
        let tagged = Seq::new(ts.len(), |i: int| Intersection { t: ts[i], object: (n - 1) as usize });
        assert forall|i: int|
            0 <= i < (prev + tagged).len() implies #[trigger] (prev + tagged)[i].object
            < objects.len() by {
            if i < prev.len() {
                assert((prev + tagged)[i] == prev[i]);
            } else {
                assert((prev + tagged)[i] == tagged[i - prev.len()]);
            }
        }
    }
}


impl World {
    pub open spec fn wf(self) -> bool {
        all_wf(self.objects@)
    }

    /// Whether every shape's placement transform is invertible.
    pub open spec fn invertible(self) -> bool {
        all_invertible(self.objects@)
    }

    pub fn new(objects: Vec<Shape>, light_sources: Vec<PointLight>) -> (w: World)
        requires
            all_wf(objects@),
        ensures
            w == (World { objects, light_sources }),
            w.wf(),
    {
        World { objects, light_sources }
    }

    /// The two-sphere, one-light default scene: an outer unit sphere with a
    /// greenish matte material, an inner sphere at half scale, and a white
    /// light up on the left behind the eye.
    pub fn default() -> (w: World)
        ensures
            w.wf(),
            w.light_sources@.len() == 1,
            w.light_sources@[0] == (PointLight {
                intensity: crate::color::spec_white(),
                position: Tuple {
                    x: Fx { raw: -42949672960i64 },
                    y: Fx { raw: TEN_RAW },
                    z: Fx { raw: -42949672960i64 },
                    w: Fx { raw: SCALE },
                },
            }),
            w.objects@.len() == 2,
            w.objects@[0].kind == ShapeKind::Sphere,
            w.objects@[0].transform.rep() =~= crate::matrix::spec_identity_rep(),
            w.objects@[0].material.ambient == (Fx { raw: crate::material::AMBIENT_RAW }),
            w.objects@[0].material.diffuse == (Fx { raw: C07_RAW }),
            w.objects@[0].material.specular == (Fx { raw: C02_RAW }),
            w.objects@[0].material.shininess == (Fx { raw: crate::material::SHININESS_RAW }),
            w.objects@[0].material.reflective == (Fx { raw: 0 }),
            w.objects@[0].material.transparency == (Fx { raw: 0 }),
            w.objects@[0].material.refractive_index == (Fx { raw: SCALE }),
            w.objects@[0].material.pattern.template == crate::pattern::Template::Solid(
                Color(Fx { raw: C08_RAW }, Fx { raw: SCALE }, Fx { raw: C06_RAW }),
            ),
            w.objects@[0].material.pattern.transform.rep() =~= crate::matrix::spec_identity_rep(),
            w.objects@[0].material.pattern.inverse.rep() =~= crate::matrix::spec_identity_rep(),
            w.objects@[1].kind == ShapeKind::Sphere,
            w.objects@[1].transform.rep() =~= spec_scale_rep(
                Fx { raw: HALF_RAW },
                Fx { raw: HALF_RAW },
                Fx { raw: HALF_RAW },
            ),
            w.objects@[1].material.is_default(),
    {
        let mut inner = Shape::sphere();
        inner.set_transform(
            scale(Fx { raw: HALF_RAW }, Fx { raw: HALF_RAW }, Fx { raw: HALF_RAW }),
        );

        let mut outer = Shape::sphere();
        let mut m = Material::default();
        m.pattern = solid_pattern(Color(Fx { raw: C08_RAW }, Fx { raw: SCALE }, Fx { raw: C06_RAW }));
        m.diffuse = Fx { raw: C07_RAW };
        m.specular = Fx { raw: C02_RAW };
        outer.set_material(m);

        let light = PointLight::new(
            Tuple::point(Fx { raw: -42949672960i64 }, Fx { raw: TEN_RAW }, Fx { raw: -42949672960i64 }),
            Color::white(),
        );

        let mut objects: Vec<Shape> = Vec::new();
        objects.push(outer);
        objects.push(inner);
        let mut light_sources: Vec<PointLight> = Vec::new();
        light_sources.push(light);
        World { objects, light_sources }
    }

    /// Whether every shape's transform is invertible, by testing each
    /// determinant.
    pub fn check_invertible(&self) -> (r: bool)
        requires
            self.wf(),
        ensures
            r == self.invertible(),
    {
        let mut i: usize = 0;
        while i < self.objects.len()
            invariant
                self.wf(),
                i <= self.objects@.len(),
                forall|k: int| 0 <= k < i ==> #[trigger] self.objects@[k].invertible(),
            decreases self.objects@.len() - i,
        {
            proof {
                assert(self.objects@[i as int].wf());
            }
            if !self.objects[i].transform.is_invertible() {
                proof {
                    assert(!self.objects@[i as int].invertible());
                }
                return false;
            }
            i = i + 1;
        }
        true
    }

    /// Every intersection of a ray with every object, sorted ascending by
    /// `t`.  Fails exactly when some shape's transform is not invertible.
    #[verifier::rlimit(100)]
    pub fn intersect(&self, r: &Ray) -> (res: Result<Vec<Intersection>, ()>)
        requires
            self.wf(),
        ensures
            res is Err <==> !self.invertible(),
            res matches Ok(v) ==> v@ == spec_world_sorted(self.objects@, *r) && ix_objects_ok(
                v@,
                self.objects@,
            ),
    {
        if !self.check_invertible() {
            return Err(());
        }
        let mut xs: Vec<Intersection> = Vec::new();
        let mut i: usize = 0;
        while i < self.objects.len()
            invariant
                self.wf(),
                self.invertible(),
                i <= self.objects@.len(),
                xs@ == spec_world_xs(self.objects@, *r, i as nat),
            decreases self.objects@.len() - i,
        {
            let ts = match self.objects[i].intersect(r) {
                Ok(ts) => ts,
                Err(()) => {
                    proof {
                        assert(self.objects@[i as int].invertible());
                    }
                    return Err(());
                },
            };
            let ghost before = xs@;
            let ghost ts_spec = spec_shape_ts(self.objects@[i as int], *r);
            let mut j: usize = 0;
            while j < ts.len()
                invariant
                    ts@ =~= ts_spec,
                    j <= ts@.len(),
                    i < self.objects@.len(),
                    xs@ == before + Seq::new(
                        j as nat,
                        |k: int| Intersection { t: ts_spec[k], object: i as usize },
                    ),
                decreases ts@.len() - j,
            {
                xs.push(Intersection { t: ts[j], object: i });
                proof {
                    assert(xs@ =~= before + Seq::new(
                        (j + 1) as nat,
                        |k: int| Intersection { t: ts_spec[k], object: i as usize },
                    ));
                }
                j = j + 1;
            }
            proof {
                assert(Seq::new(
                    ts_spec.len(),
                    |k: int| Intersection { t: ts_spec[k], object: i as usize },
                ) =~= Seq::new(
                    ts@.len() as nat,
                    |k: int| Intersection { t: ts_spec[k], object: i as usize },
                ));
            }
            i = i + 1;
        }
        let out = sort_intersections(&xs);
        proof {
            reveal(spec_world_sorted);
            lemma_world_xs_ok(self.objects@, *r, self.objects@.len());
            lemma_sort_preserves_ok(spec_world_xs(self.objects@, *r, self.objects@.len()), self.objects@);
            assert(out@ == spec_world_sorted(self.objects@, *r));
        }
        Ok(out)
    }

    /// Whether a point is in shadow with respect to one light.  Fails
    /// exactly when some shape's transform is not invertible.
    pub fn is_shadowed(&self, point: Tuple, light: &PointLight) -> (res: Result<bool, ()>)
        requires
            self.wf(),
        ensures
            res is Err <==> !self.invertible(),
            res matches Ok(b) ==> b == spec_is_shadowed(*self, point, *light),
    {
        let v = light.position.sub(point);
        let distance = v.magnitude();
        let direction = v.normalize();
        let r = Ray { origin: point, direction };
        let xs = match self.intersect(&r) {
            Ok(xs) => xs,
            Err(()) => {
                return Err(());
            },
        };
        let shadowed: bool = match hit_index(&xs) {
            Some(i) => xs[i].t.lt(distance),
            None => false,
        };
        proof {
            reveal(spec_is_shadowed);
            assert(shadowed == spec_is_shadowed(*self, point, *light));
        }
        Ok(shadowed)
    }

    /// The color seen along a ray, with `remaining` units of recursion
    /// budget for reflection and refraction.  Fails exactly when some
    /// shape's transform is not invertible.
    pub fn color_at(&self, r: &Ray, remaining: usize) -> (res: Result<Color, ()>)
        requires
            self.wf(),
        ensures
            res is Err <==> !self.invertible(),
            res matches Ok(c) ==> c == spec_color_at(*self, *r, remaining as nat),
        decreases remaining, 8int,
    {
        let xs = match self.intersect(r) {
            Ok(xs) => xs,
            Err(()) => {
                return Err(());
            },
        };
        match hit_index(&xs) {
            Some(i) => {
                let comps = match prepare(&xs, i, r, &self.objects) {
                    Ok(c) => c,
                    Err(()) => {
                        proof {
                            assert(self.objects@[xs@[i as int].object as int].invertible());
                        }
                        return Err(());
                    },
                };
                let c = match self.shade_hit(&comps, remaining) {
                    Ok(c) => c,
                    Err(()) => {
                        return Err(());
                    },
                };
                proof {
                                assert(c == spec_color_at(*self, *r, remaining as nat));
                }
                Ok(c)
            },
            None => {
                let c = Color::black();
                proof {
                                assert(c == spec_color_at(*self, *r, remaining as nat));
                }
                Ok(c)
            },
        }
    }

    /// Shade a prepared hit: sum every light's contribution.  Fails exactly
    /// when some shape's transform is not invertible.
    #[verifier::rlimit(100)]
    #[verifier::spinoff_prover]
    pub fn shade_hit(&self, comps: &ComputedIntersection, remaining: usize) -> (res: Result<
        Color,
        (),
    >)
        requires
            self.wf(),
            comps.object < self.objects@.len(),
        ensures
            res is Err <==> !self.invertible(),
            res matches Ok(c) ==> c == spec_shade_hit(*self, *comps, remaining as nat),
        decreases remaining, 6int,
    {
        if !self.check_invertible() {
            return Err(());
        }
        let mut acc = Color::black();
        proof {
            lemma_shade_lights_zero(*self, *comps, remaining as nat);
        }
        let mut n: usize = 0;
        while n < self.light_sources.len()
            invariant
                self.wf(),
                self.invertible(),
                comps.object < self.objects@.len(),
                n <= self.light_sources@.len(),
                acc == spec_shade_lights(*self, *comps, remaining as nat, n as nat),
            decreases self.light_sources@.len() - n,
        {
            acc = match self.shade_one_light(comps, remaining, acc, n) {
                Ok(c) => c,
                Err(()) => {
                    return Err(());
                },
            };
            n = n + 1;
        }
        Ok(acc)
    }

    /// One light's contribution added onto the sum so far: local lighting,
    /// plus the reflected and refracted colors, Fresnel-blended when the
    /// surface is both reflective and transparent.
    #[verifier::rlimit(100)]
    fn shade_one_light(
        &self,
        comps: &ComputedIntersection,
        remaining: usize,
        prev: Color,
        n: usize,
    ) -> (res: Result<Color, ()>)
        requires
            self.wf(),
            self.invertible(),
            comps.object < self.objects@.len(),
            n < self.light_sources@.len(),
            prev == spec_shade_lights(*self, *comps, remaining as nat, n as nat),
        ensures
            res is Err <==> !self.invertible(),
            res matches Ok(c) ==> c == spec_shade_lights(
                *self,
                *comps,
                remaining as nat,
                (n + 1) as nat,
            ),
        decreases remaining, 4int,
    {
        let light = self.light_sources[n];
        let shadowed = match self.is_shadowed(comps.over_point, &light) {
            Ok(b) => b,
            Err(()) => {
                return Err(());
            },
        };
        let object = &self.objects[comps.object];
        proof {
            assert(self.objects@[comps.object as int].wf());
        }
        let lighting = match object.material.lighting(
            object,
            &light,
            comps.over_point,
            comps.eye_v,
            comps.normal_v,
            shadowed,
        ) {
            Ok(c) => c,
            Err(()) => {
                proof {
                    assert(self.objects@[comps.object as int].invertible());
                }
                return Err(());
            },
        };
        let surface = prev.add(lighting);
        let reflected = match self.reflected_color(comps, remaining) {
            Ok(c) => c,
            Err(()) => {
                return Err(());
            },
        };
        let refracted = match self.refracted_color(comps, remaining) {
            Ok(c) => c,
            Err(()) => {
                return Err(());
            },
        };
        let result: Color;
        if object.material.reflective.raw > 0 && object.material.transparency.raw > 0 {
            let reflectance = comps.schlick();
            result = surface.add(reflected.scale(reflectance)).add(
                refracted.scale(Fx { raw: SCALE }.sub(reflectance)),
            );
        } else {
            result = surface.add(reflected).add(refracted);
        }
        proof {
            assert(result == spec_shade_lights(*self, *comps, remaining as nat, (n + 1) as nat));
        }
        Ok(result)
    }

    /// The reflected contribution of a hit.  Fails exactly when some
    /// shape's transform is not invertible.
    pub fn reflected_color(&self, comps: &ComputedIntersection, remaining: usize) -> (res: Result<
        Color,
        (),
    >)
        requires
            self.wf(),
            comps.object < self.objects@.len(),
        ensures
            res is Err <==> !self.invertible(),
            res matches Ok(c) ==> c == spec_reflected_color(*self, *comps, remaining as nat),
        decreases remaining, 2int,
    {
        if !self.check_invertible() {
            return Err(());
        }
        let result: Color;
        if self.objects[comps.object].material.reflective.raw == 0 || remaining == 0 {
            result = Color::black();
        } else {
            let reflect_ray = Ray { origin: comps.over_point, direction: comps.reflect_v };
            let c = match self.color_at(&reflect_ray, remaining - 1) {
                Ok(c) => c,
                Err(()) => {
                    return Err(());
                },
            };
            result = c.scale(self.objects[comps.object].material.reflective);
        }
        proof {
            assert(result == spec_reflected_color(*self, *comps, remaining as nat));
        }
        Ok(result)
    }

    /// The refracted contribution of a hit.  Fails exactly when some
    /// shape's transform is not invertible.
    pub fn refracted_color(&self, comps: &ComputedIntersection, remaining: usize) -> (res: Result<
        Color,
        (),
    >)
        requires
            self.wf(),
            comps.object < self.objects@.len(),
        ensures
            res is Err <==> !self.invertible(),
            res matches Ok(c) ==> c == spec_refracted_color(*self, *comps, remaining as nat),
        decreases remaining, 2int,
    {
        if !self.check_invertible() {
            return Err(());
        }
        let result: Color;
        if self.objects[comps.object].material.transparency.raw == 0 || remaining == 0 {
            result = Color::black();
        } else {
            let one = Fx { raw: SCALE };
            let two = Fx { raw: TWO_RAW };
            let n_ratio = comps.n1.div(comps.n2);
            let cos_i = comps.eye_v.dot(comps.normal_v);
            let sin2_t = n_ratio.powf(two).mul(one.sub(cos_i.powf(two)));
            if sin2_t.gt(one) {
                result = Color::black();
            } else {
                let cos_t = one.sub(sin2_t).sqrt();
                let direction = comps.normal_v.scale(n_ratio.mul(cos_i).sub(cos_t)).sub(
                    comps.eye_v.scale(n_ratio),
                );
                let refract_ray = Ray { origin: comps.under_point, direction };
                let c = match self.color_at(&refract_ray, remaining - 1) {
                    Ok(c) => c,
                    Err(()) => {
                        return Err(());
                    },
                };
                result = c.scale(self.objects[comps.object].material.transparency);
            }
        }
        proof {
            assert(result == spec_refracted_color(*self, *comps, remaining as nat));
        }
        Ok(result)
    }
}

/// The per-light sum of local lighting alone: no reflected or refracted
/// contribution.
pub open spec fn spec_surface_lights(w: World, comps: ComputedIntersection, n: nat) -> Color
    decreases n,
{
    if n == 0 {
        spec_black()
    } else {
        let light = w.light_sources@[n - 1];
        let object = w.objects@[comps.object as int];
        spec_color_add(
            spec_surface_lights(w, comps, (n - 1) as nat),
            spec_lighting(
                object.material,
                object,
                light,
                comps.over_point,
                comps.eye_v,
                comps.normal_v,
                spec_is_shadowed(w, comps.over_point, light),
            ),
        )
    }
}

/// Every component of the pure-surface sum stays in the raw range.
proof fn lemma_surface_lights_in_range(w: World, comps: ComputedIntersection, n: nat)
    ensures
        ({
            let c = spec_surface_lights(w, comps, n);
            -(crate::fixed::MAX_RAW as int) <= c.0@ <= crate::fixed::MAX_RAW as int
                && -(crate::fixed::MAX_RAW as int) <= c.1@ <= crate::fixed::MAX_RAW as int && -(
            crate::fixed::MAX_RAW as int) <= c.2@ <= crate::fixed::MAX_RAW as int
        }),
    decreases n,
{
    if n > 0 {
        lemma_surface_lights_in_range(w, comps, (n - 1) as nat);
    }
}

/// With the recursion budget exhausted, a shaded hit is pure local
/// lighting: the reflected and refracted terms contribute exactly nothing,
/// whether or not the surface Fresnel-blends them.
pub proof fn lemma_shade_hit_zero_budget_is_local(w: World, comps: ComputedIntersection)
    ensures
        spec_shade_hit(w, comps, 0) == spec_surface_lights(w, comps, w.light_sources@.len()),
{
    lemma_shade_lights_zero_budget(w, comps, w.light_sources@.len());
}

/// The per-light sum at zero budget equals the pure-surface sum.
proof fn lemma_shade_lights_zero_budget(w: World, comps: ComputedIntersection, n: nat)
    ensures
        spec_shade_lights(w, comps, 0, n) == spec_surface_lights(w, comps, n),
    decreases n,
{
    if n > 0 {
        lemma_shade_lights_zero_budget(w, comps, (n - 1) as nat);
        let light = w.light_sources@[n - 1];
        let object = w.objects@[comps.object as int];
        let prev = spec_shade_lights(w, comps, 0, (n - 1) as nat);
        let lighting = spec_lighting(
            object.material,
            object,
            light,
            comps.over_point,
            comps.eye_v,
            comps.normal_v,
            spec_is_shadowed(w, comps.over_point, light),
        );
        let surface = spec_color_add(prev, lighting);
        assert(spec_reflected_color(w, comps, 0) == spec_black());
        assert(spec_refracted_color(w, comps, 0) == spec_black());
        assert(spec_color_scale(spec_black(), spec_schlick(comps)) == spec_black());
        assert(spec_color_scale(
            spec_black(),
            fx_sub(Fx { raw: SCALE }, spec_schlick(comps)),
        ) == spec_black());
        assert(spec_color_add(surface, spec_black()) == surface);
        assert(spec_color_add(spec_color_add(surface, spec_black()), spec_black()) == surface);
        assert(spec_shade_lights(w, comps, 0, n) == surface);
        assert(spec_surface_lights(w, comps, n) == surface);
    }
}

/// An empty world: no objects, no lights.
pub fn world() -> (w: World)
    ensures
        w.wf(),
        w.objects@.len() == 0,
        w.light_sources@.len() == 0,
{
    World { objects: Vec::new(), light_sources: Vec::new() }
}

/// With the recursion budget exhausted, the reflected contribution is
/// exactly black.
pub proof fn lemma_reflected_black_at_zero(w: World, comps: ComputedIntersection)
    ensures
        spec_reflected_color(w, comps, 0) == spec_black(),
{
}

/// With the recursion budget exhausted, the refracted contribution is
/// exactly black.
pub proof fn lemma_refracted_black_at_zero(w: World, comps: ComputedIntersection)
    ensures
        spec_refracted_color(w, comps, 0) == spec_black(),
{
}

} // verus!
