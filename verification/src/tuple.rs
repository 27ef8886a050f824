//! Homogeneous 4-component tuples: points (`w` = 1) and vectors (`w` = 0).

use vstd::prelude::*;

verus! {

use crate::fixed::{
    Fx, fx_add, fx_sub, fx_neg, fx_mul, fx_div, fx_sqrt, iabs, EPS_RAW, SCALE, TWO_RAW,
};

/// A 4-component homogeneous tuple; `w` = 1 marks a point, `w` = 0 a vector.
#[derive(Clone, Copy, Debug, PartialEq, Eq, Structural)]
pub struct Tuple {
    pub x: Fx,
    pub y: Fx,
    pub z: Fx,
    pub w: Fx,
}

pub open spec fn spec_tuple(x: Fx, y: Fx, z: Fx, w: Fx) -> Tuple {
    Tuple { x, y, z, w }
}

pub open spec fn spec_add(a: Tuple, b: Tuple) -> Tuple {
    Tuple { x: fx_add(a.x, b.x), y: fx_add(a.y, b.y), z: fx_add(a.z, b.z), w: fx_add(a.w, b.w) }
}

pub open spec fn spec_sub(a: Tuple, b: Tuple) -> Tuple {
    Tuple { x: fx_sub(a.x, b.x), y: fx_sub(a.y, b.y), z: fx_sub(a.z, b.z), w: fx_sub(a.w, b.w) }
}

pub open spec fn spec_neg(a: Tuple) -> Tuple {
    Tuple { x: fx_neg(a.x), y: fx_neg(a.y), z: fx_neg(a.z), w: fx_neg(a.w) }
}

pub open spec fn spec_scale(a: Tuple, s: Fx) -> Tuple {
    Tuple { x: fx_mul(a.x, s), y: fx_mul(a.y, s), z: fx_mul(a.z, s), w: fx_mul(a.w, s) }
}

pub open spec fn spec_div_scalar(a: Tuple, s: Fx) -> Tuple {
    Tuple { x: fx_div(a.x, s), y: fx_div(a.y, s), z: fx_div(a.z, s), w: fx_div(a.w, s) }
}

pub open spec fn spec_dot(a: Tuple, b: Tuple) -> Fx {
    fx_add(
        fx_add(fx_add(fx_mul(a.x, b.x), fx_mul(a.y, b.y)), fx_mul(a.z, b.z)),
        fx_mul(a.w, b.w),
    )
}

pub open spec fn spec_cross(a: Tuple, b: Tuple) -> Tuple {
    Tuple {
        x: fx_sub(fx_mul(a.y, b.z), fx_mul(a.z, b.y)),
        y: fx_sub(fx_mul(a.z, b.x), fx_mul(a.x, b.z)),
        z: fx_sub(fx_mul(a.x, b.y), fx_mul(a.y, b.x)),
        w: Fx { raw: 0 },
    }
}

pub open spec fn spec_magnitude(a: Tuple) -> Fx {
    fx_sqrt(spec_dot(a, a))
}

pub open spec fn spec_normalize(a: Tuple) -> Tuple {
    spec_div_scalar(a, spec_magnitude(a))
}

/// `v` reflected about the normal `n`: `v - n * 2 * dot(v, n)`.
pub open spec fn spec_reflect(v: Tuple, n: Tuple) -> Tuple {
    spec_sub(v, spec_scale(n, fx_mul(Fx { raw: TWO_RAW }, spec_dot(v, n))))
}

/// Componentwise tolerance equality, within about 1e-5.
pub open spec fn tuple_approx(a: Tuple, b: Tuple) -> bool {
    &&& iabs(a.x@ - b.x@) < EPS_RAW as int
    &&& iabs(a.y@ - b.y@) < EPS_RAW as int
    &&& iabs(a.z@ - b.z@) < EPS_RAW as int
    &&& iabs(a.w@ - b.w@) < EPS_RAW as int
}

impl Tuple {
    pub open spec fn is_point_spec(self) -> bool {
        self.w@ == SCALE as int
    }

    pub open spec fn is_vector_spec(self) -> bool {
        self.w@ == 0
    }

    pub fn new(x: Fx, y: Fx, z: Fx, w: Fx) -> (r: Tuple)
        ensures
            r == spec_tuple(x, y, z, w),
    {
        Tuple { x, y, z, w }
    }

    /// A point: `w` = 1.
    pub fn point(x: Fx, y: Fx, z: Fx) -> (r: Tuple)
        ensures
            r == (Tuple { x, y, z, w: Fx { raw: SCALE } }),
            r.is_point_spec(),
    {
        Tuple { x, y, z, w: Fx { raw: SCALE } }
    }

    /// A vector: `w` = 0.
    pub fn vector(x: Fx, y: Fx, z: Fx) -> (r: Tuple)
        ensures
            r == (Tuple { x, y, z, w: Fx { raw: 0 } }),
            r.is_vector_spec(),
    {
        Tuple { x, y, z, w: Fx { raw: 0 } }
    }

    pub fn is_point(&self) -> (r: bool)
        ensures
            r == self.is_point_spec(),
    {
        self.w.raw == SCALE
    }

    pub fn is_vector(&self) -> (r: bool)
        ensures
            r == self.is_vector_spec(),
    {
        self.w.raw == 0
    }

    pub fn add(self, rhs: Tuple) -> (r: Tuple)
        ensures
            r == spec_add(self, rhs),
    {
        Tuple {
            x: self.x.add(rhs.x),
            y: self.y.add(rhs.y),
            z: self.z.add(rhs.z),
            w: self.w.add(rhs.w),
        }
    }

    pub fn sub(self, rhs: Tuple) -> (r: Tuple)
        ensures
            r == spec_sub(self, rhs),
    {
        Tuple {
            x: self.x.sub(rhs.x),
            y: self.y.sub(rhs.y),
            z: self.z.sub(rhs.z),
            w: self.w.sub(rhs.w),
        }
    }

    pub fn neg(self) -> (r: Tuple)
        ensures
            r == spec_neg(self),
    {
        Tuple { x: self.x.neg(), y: self.y.neg(), z: self.z.neg(), w: self.w.neg() }
    }

    /// Componentwise scaling by a scalar.
    pub fn scale(self, s: Fx) -> (r: Tuple)
        ensures
            r == spec_scale(self, s),
    {
        Tuple { x: self.x.mul(s), y: self.y.mul(s), z: self.z.mul(s), w: self.w.mul(s) }
    }

    /// Componentwise division by a scalar.
    pub fn div_scalar(self, s: Fx) -> (r: Tuple)
        ensures
            r == spec_div_scalar(self, s),
    {
        Tuple { x: self.x.div(s), y: self.y.div(s), z: self.z.div(s), w: self.w.div(s) }
    }

    pub fn dot(self, rhs: Tuple) -> (r: Fx)
        ensures
            r == spec_dot(self, rhs),
    {
        self.x.mul(rhs.x).add(self.y.mul(rhs.y)).add(self.z.mul(rhs.z)).add(self.w.mul(rhs.w))
    }

    pub fn cross(self, rhs: Tuple) -> (r: Tuple)
        ensures
            r == spec_cross(self, rhs),
    {
        Tuple {
            x: self.y.mul(rhs.z).sub(self.z.mul(rhs.y)),
            y: self.z.mul(rhs.x).sub(self.x.mul(rhs.z)),
            z: self.x.mul(rhs.y).sub(self.y.mul(rhs.x)),
            w: Fx { raw: 0 },
        }
    }

    pub fn magnitude(self) -> (r: Fx)
        ensures
            r == spec_magnitude(self),
    {
        self.dot(self).sqrt()
    }

    pub fn normalize(self) -> (r: Tuple)
        ensures
            r == spec_normalize(self),
    {
        let m = self.magnitude();
        self.div_scalar(m)
    }

    /// Reflect about a normal vector.
    pub fn reflect(self, n: Tuple) -> (r: Tuple)
        ensures
            r == spec_reflect(self, n),
    {
        self.sub(n.scale(Fx { raw: TWO_RAW }.mul(self.dot(n))))
    }

    /// Tolerance-based equality, within about 1e-5 per component.
    pub fn approx_eq(self, rhs: Tuple) -> (r: bool)
        ensures
            r == tuple_approx(self, rhs),
    {
        self.x.approx_eq(rhs.x) && self.y.approx_eq(rhs.y) && self.z.approx_eq(rhs.z)
            && self.w.approx_eq(rhs.w)
    }
}

/// Subtracting a vector from a point yields a point.
pub proof fn lemma_point_sub_vector_is_point(p: Tuple, v: Tuple)
    requires
        p.is_point_spec(),
        v.is_vector_spec(),
    ensures
        spec_sub(p, v).is_point_spec(),
{
}

/// Subtracting two points yields a vector.
pub proof fn lemma_point_sub_point_is_vector(a: Tuple, b: Tuple)
    requires
        a.is_point_spec(),
        b.is_point_spec(),
    ensures
        spec_sub(a, b).is_vector_spec(),
{
}

/// Subtracting two vectors yields a vector.
pub proof fn lemma_vector_sub_vector_is_vector(a: Tuple, b: Tuple)
    requires
        a.is_vector_spec(),
        b.is_vector_spec(),
    ensures
        spec_sub(a, b).is_vector_spec(),
{
}

/// Adding a vector to a point yields a point.
pub proof fn lemma_point_add_vector_is_point(p: Tuple, v: Tuple)
    requires
        p.is_point_spec(),
        v.is_vector_spec(),
    ensures
        spec_add(p, v).is_point_spec(),
{
}

/// The cross product of any two tuples is a vector.
pub proof fn lemma_cross_is_vector(a: Tuple, b: Tuple)
    ensures
        spec_cross(a, b).is_vector_spec(),
{
}

} // verus!
