//! Procedural color patterns, each a pure rule from a pattern-space point to
//! a color, carrying its own transform and that transform's inverse.

use vstd::prelude::*;

verus! {

use crate::color::{Color, spec_color_add, spec_color_sub, spec_color_scale, color_approx};
use crate::fixed::{
    Fx, fx_add, fx_sub, fx_mul, fx_sqrt, fx_floor_q, fxs, clamp_raw, even_i64, SCALE,
};
use crate::matrix::{Matrix, spec_det, spec_inverse_rep, matrix_approx};
use crate::tuple::Tuple;

/// A color rule: each variant maps a pattern-space point to a color.
#[derive(Clone, Copy, Debug, PartialEq, Eq, Structural)]
pub enum Template {
    Test,
    Solid(Color),
    Checkers(Color, Color),
    Gradient(Color, Color),
    Rings(Color, Color),
    Stripe(Color, Color),
}

/// The color a template yields at a pattern-space point.
pub open spec fn spec_template_color(t: Template, p: Tuple) -> Color {
    match t {
        Template::Solid(c) => c,
        Template::Test => Color(p.x, p.y, p.z),
        Template::Checkers(a, b) => {
            if (fx_floor_q(p.x@) + fx_floor_q(p.y@) + fx_floor_q(p.z@)) % 2 == 0 {
                a
            } else {
                b
            }
        },
        Template::Stripe(a, b) => {
            if fx_floor_q(p.x@) % 2 == 0 {
                a
            } else {
                b
            }
        },
        Template::Gradient(a, b) => {
            let distance = spec_color_sub(b, a);
            let fraction = fx_sub(p.x, fxs(clamp_raw(fx_floor_q(p.x@) * SCALE as int)));
            spec_color_add(a, spec_color_scale(distance, fraction))
        },
        Template::Rings(a, b) => {
            if fx_floor_q(fx_sqrt(fx_add(fx_mul(p.x, p.x), fx_mul(p.z, p.z)))@) % 2 == 0 {
                a
            } else {
                b
            }
        },
    }
}

impl Template {
    /// The color at a pattern-space point.
    pub fn color_at(&self, p: Tuple) -> (c: Color)
        ensures
            c == spec_template_color(*self, p),
    {
        match self {
            Template::Solid(c) => *c,
            Template::Test => Color(p.x, p.y, p.z),
            Template::Checkers(a, b) => {
                let k = p.x.floor_q() + p.y.floor_q() + p.z.floor_q();
                if even_i64(k) {
                    *a
                } else {
                    *b
                }
            },
            Template::Stripe(a, b) => {
                if even_i64(p.x.floor_q()) {
                    *a
                } else {
                    *b
                }
            },
            Template::Gradient(a, b) => {
                let distance = b.sub(*a);
                let fraction = p.x.sub(p.x.floor());
                a.add(distance.scale(fraction))
            },
            Template::Rings(a, b) => {
                let d = p.x.mul(p.x).add(p.z.mul(p.z)).sqrt();
                if even_i64(d.floor_q()) {
                    *a
                } else {
                    *b
                }
            },
        }
    }

    /// Tolerance-based equality: same rule, colors within about 1e-5.
    pub fn approx_eq(&self, rhs: &Template) -> (r: bool)
        ensures
            r == spec_template_approx(*self, *rhs),
    {
        match (self, rhs) {
            (Template::Test, Template::Test) => true,
            (Template::Solid(a), Template::Solid(b)) => a.approx_eq(*b),
            (Template::Checkers(a1, a2), Template::Checkers(b1, b2)) => a1.approx_eq(*b1)
                && a2.approx_eq(*b2),
            (Template::Gradient(a1, a2), Template::Gradient(b1, b2)) => a1.approx_eq(*b1)
                && a2.approx_eq(*b2),
            (Template::Rings(a1, a2), Template::Rings(b1, b2)) => a1.approx_eq(*b1)
                && a2.approx_eq(*b2),
            (Template::Stripe(a1, a2), Template::Stripe(b1, b2)) => a1.approx_eq(*b1)
                && a2.approx_eq(*b2),
            _ => false,
        }
    }
}

/// Tolerance-based template equality.
pub open spec fn spec_template_approx(a: Template, b: Template) -> bool {
    match (a, b) {
        (Template::Test, Template::Test) => true,
        (Template::Solid(x), Template::Solid(y)) => color_approx(x, y),
        (Template::Checkers(x1, x2), Template::Checkers(y1, y2)) => color_approx(x1, y1)
            && color_approx(x2, y2),
        (Template::Gradient(x1, x2), Template::Gradient(y1, y2)) => color_approx(x1, y1)
            && color_approx(x2, y2),
        (Template::Rings(x1, x2), Template::Rings(y1, y2)) => color_approx(x1, y1)
            && color_approx(x2, y2),
        (Template::Stripe(x1, x2), Template::Stripe(y1, y2)) => color_approx(x1, y1)
            && color_approx(x2, y2),
        _ => false,
    }
}

/// A pattern: a color rule plus its placement transform and that transform's
/// inverse, kept together so sampling never re-inverts.
#[derive(Clone, Debug)]
pub struct Pattern {
    pub template: Template,
    pub transform: Matrix,
    pub inverse: Matrix,
}

impl Pattern {
    pub open spec fn wf(self) -> bool {
        &&& self.transform.wf()
        &&& self.transform.size == 4
        &&& self.inverse.wf()
        &&& self.inverse.size == 4
    }

    /// The color at a pattern-space point.
    pub fn color_at(&self, p: Tuple) -> (c: Color)
        ensures
            c == spec_template_color(self.template, p),
    {
        self.template.color_at(p)
    }

    /// The color at an object-space point: carry the point through the
    /// pattern's inverse transform, then apply the rule.
    pub fn color_at_object(&self, object_point: Tuple) -> (c: Color)
        requires
            self.wf(),
        ensures
            c == spec_pattern_color_at_object(*self, object_point),
    {
        let pattern_point = self.inverse.mul_tuple(object_point);
        self.template.color_at(pattern_point)
    }

    /// Tolerance-based equality on rule and transform.
    pub fn approx_eq(&self, rhs: &Pattern) -> (r: bool)
        requires
            self.wf(),
            rhs.wf(),
        ensures
            r == (spec_template_approx(self.template, rhs.template) && matrix_approx(
                self.transform.rep(),
                rhs.transform.rep(),
            )),
    {
        self.template.approx_eq(&rhs.template) && self.transform.approx_eq(&rhs.transform)
    }
}

/// The color a pattern yields at an object-space point.
pub open spec fn spec_pattern_color_at_object(p: Pattern, object_point: Tuple) -> Color {
    spec_template_color(
        p.template,
        crate::matrix::spec_mul_tuple(p.inverse.rep(), 4, object_point),
    )
}

/// A pattern of one color everywhere; its transform is the identity.
pub fn solid_pattern(c: Color) -> (r: Pattern)
    ensures
        r.wf(),
        r.template == Template::Solid(c),
        r.transform.rep() =~= crate::matrix::spec_identity_rep(),
        r.inverse.rep() =~= crate::matrix::spec_identity_rep(),
{
    Pattern { template: Template::Solid(c), transform: Matrix::identity(), inverse: Matrix::identity() }
}

/// Build a pattern from a rule and a transform; fails exactly when the
/// transform's determinant is exactly zero.
fn pattern_with(template: Template, transform: Matrix) -> (r: Result<Pattern, ()>)
    requires
        transform.wf(),
        transform.size == 4,
    ensures
        r is Err <==> spec_det(transform.rep(), 4)@ == 0,
        r matches Ok(p) ==> p.wf() && p.template == template && p.transform == transform
            && p.inverse.rep() =~= spec_inverse_rep(transform.rep(), 4),
{
    let inverse = match transform.inverse() {
        Ok(m) => m,
        Err(()) => {
            return Err(());
        },
    };
    Ok(Pattern { template, transform, inverse })
}

/// Alternating stripes on `floor(x)`.
pub fn stripe_pattern(a: Color, b: Color, transform: Matrix) -> (r: Result<Pattern, ()>)
    requires
        transform.wf(),
        transform.size == 4,
    ensures
        r is Err <==> spec_det(transform.rep(), 4)@ == 0,
        r matches Ok(p) ==> p.wf() && p.template == Template::Stripe(a, b) && p.transform
            == transform && p.inverse.rep() =~= spec_inverse_rep(transform.rep(), 4),
{
    pattern_with(Template::Stripe(a, b), transform)
}

/// A linear blend of two colors over the unit interval of `x`.
pub fn gradient_pattern(a: Color, b: Color, transform: Matrix) -> (r: Result<Pattern, ()>)
    requires
        transform.wf(),
        transform.size == 4,
    ensures
        r is Err <==> spec_det(transform.rep(), 4)@ == 0,
        r matches Ok(p) ==> p.wf() && p.template == Template::Gradient(a, b) && p.transform
            == transform && p.inverse.rep() =~= spec_inverse_rep(transform.rep(), 4),
{
    pattern_with(Template::Gradient(a, b), transform)
}

/// Concentric rings in the x/z plane.
pub fn ring_pattern(a: Color, b: Color, transform: Matrix) -> (r: Result<Pattern, ()>)
    requires
        transform.wf(),
        transform.size == 4,
    ensures
        r is Err <==> spec_det(transform.rep(), 4)@ == 0,
        r matches Ok(p) ==> p.wf() && p.template == Template::Rings(a, b) && p.transform
            == transform && p.inverse.rep() =~= spec_inverse_rep(transform.rep(), 4),
{
    pattern_with(Template::Rings(a, b), transform)
}

/// A three-dimensional checker pattern.
pub fn checkers_pattern(a: Color, b: Color, transform: Matrix) -> (r: Result<Pattern, ()>)
    requires
        transform.wf(),
        transform.size == 4,
    ensures
        r is Err <==> spec_det(transform.rep(), 4)@ == 0,
        r matches Ok(p) ==> p.wf() && p.template == Template::Checkers(a, b) && p.transform
            == transform && p.inverse.rep() =~= spec_inverse_rep(transform.rep(), 4),
{
    pattern_with(Template::Checkers(a, b), transform)
}

/// A pattern that reports the sampled point as a color, for probing the
/// sampling pipeline.
pub fn test_pattern(transform: Matrix) -> (r: Result<Pattern, ()>)
    requires
        transform.wf(),
        transform.size == 4,
    ensures
        r is Err <==> spec_det(transform.rep(), 4)@ == 0,
        r matches Ok(p) ==> p.wf() && p.template == Template::Test && p.transform == transform
            && p.inverse.rep() =~= spec_inverse_rep(transform.rep(), 4),
{
    pattern_with(Template::Test, transform)
}

} // verus!
