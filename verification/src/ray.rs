//! Rays: an origin point and a direction vector.

use vstd::prelude::*;

verus! {

use crate::fixed::Fx;
use crate::matrix::{Matrix, spec_mul_tuple};
use crate::tuple::{Tuple, spec_add, spec_scale};

#[derive(Clone, Copy, Debug)]
pub struct Ray {
    pub origin: Tuple,
    pub direction: Tuple,
}

/// The point at parameter `t` along the ray.
pub open spec fn spec_position(r: Ray, t: Fx) -> Tuple {
    spec_add(r.origin, spec_scale(r.direction, t))
}

/// The ray carried through a matrix.
pub open spec fn spec_ray_transform(r: Ray, m: Seq<Fx>, size: nat) -> Ray {
    Ray {
        origin: spec_mul_tuple(m, size, r.origin),
        direction: spec_mul_tuple(m, size, r.direction),
    }
}

impl Ray {
    pub fn new(origin: Tuple, direction: Tuple) -> (r: Ray)
        ensures
            r == (Ray { origin, direction }),
    {
        Ray { origin, direction }
    }

    pub fn origin(&self) -> (r: Tuple)
        ensures
            r == self.origin,
    {
        self.origin
    }

    pub fn direction(&self) -> (r: Tuple)
        ensures
            r == self.direction,
    {
        self.direction
    }

    /// The point at parameter `t` along the ray.
    pub fn position(&self, t: Fx) -> (r: Tuple)
        ensures
            r == spec_position(*self, t),
    {
        self.origin.add(self.direction.scale(t))
    }

    /// The ray carried through a matrix.
    pub fn transform(&self, m: &Matrix) -> (r: Ray)
        requires
            m.wf(),
        ensures
            r == spec_ray_transform(*self, m.rep(), m.size as nat),
    {
        Ray { origin: m.mul_tuple(self.origin), direction: m.mul_tuple(self.direction) }
    }
}

/// Build a ray from an origin and a direction.
pub fn ray(origin: Tuple, direction: Tuple) -> (r: Ray)
    ensures
        r == (Ray { origin, direction }),
{
    Ray { origin, direction }
}

} // verus!
