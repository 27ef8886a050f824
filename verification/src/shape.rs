//! Geometric primitives: unit sphere, y=0 plane, and axis-aligned unit cube.
//!
//! Every shape owns a placement transform and a material.  Intersection and
//! normal computation happen in the shape's local space: the world ray or
//! point is carried through the transform's inverse first.  Both fail
//! exactly when the placement transform is not invertible.

use vstd::prelude::*;

verus! {

use crate::fixed::{
    Fx, fx_add, fx_sub, fx_neg, fx_mul, fx_div, fx_sqrt, fx_min_spec, fx_max_spec, fxs, clamp_raw,
    iabs, EPS_RAW, SCALE, TWO_RAW, MAX_RAW, MIN_RAW,
};
use crate::material::Material;
use crate::matrix::{Matrix, spec_det, spec_inverse_rep, spec_transpose_rep, spec_mul_tuple};
use crate::ray::{Ray, spec_ray_transform};
use crate::tuple::{Tuple, spec_sub, spec_normalize};

/// The scalar 4.0 in raw units.
pub const FOUR_RAW: i64 = 17179869184;

/// The kind of a primitive: its local-space surface.
#[derive(Clone, Copy, Debug, PartialEq, Eq, Structural)]
pub enum ShapeKind {
    Sphere,
    Plane,
    Cube,
}

/// A primitive with its placement transform and material.
#[derive(Clone, Debug)]
pub struct Shape {
    pub kind: ShapeKind,
    pub transform: Matrix,
    pub material: Material,
}

/// Local intersection parameters of a ray with the unit sphere at the
/// origin, by the quadratic formula; none when the discriminant is negative.
pub open spec fn spec_sphere_ts(r2: Ray) -> Seq<Fx> {
    let two = Fx { raw: TWO_RAW };
    let four = Fx { raw: FOUR_RAW };
    let sphere_to_ray = spec_sub(
        r2.origin,
        Tuple { x: Fx { raw: 0 }, y: Fx { raw: 0 }, z: Fx { raw: 0 }, w: Fx { raw: SCALE } },
    );
    let a = crate::tuple::spec_dot(r2.direction, r2.direction);
    let b = fx_mul(two, crate::tuple::spec_dot(r2.direction, sphere_to_ray));
    let c = fx_sub(crate::tuple::spec_dot(sphere_to_ray, sphere_to_ray), Fx { raw: SCALE });
    let disc = fx_sub(fx_mul(b, b), fx_mul(fx_mul(four, a), c));
    if disc@ < 0 {
        Seq::empty()
    } else {
        let sd = fx_sqrt(disc);
        let t1 = fx_div(fx_sub(fx_neg(b), sd), fx_mul(two, a));
        let t2 = fx_div(fx_add(fx_neg(b), sd), fx_mul(two, a));
        seq![t1, t2]
    }
}

/// Local intersection parameter with the plane y=0; none when the ray is
/// parallel to it.
pub open spec fn spec_plane_ts(r2: Ray) -> Seq<Fx> {
    if iabs(r2.direction.y@) < EPS_RAW as int {
        Seq::empty()
    } else {
        seq![fx_div(fx_neg(r2.origin.y), r2.direction.y)]
    }
}

/// One slab of the cube test: entry and exit parameters along one axis.
/// A near-zero direction divides by zero, saturating by the numerator's
/// sign, which plays the role of the infinite slab bounds.
pub open spec fn spec_check_axis(o: Fx, d: Fx) -> (Fx, Fx) {
    let tmin_n = fx_sub(Fx { raw: -4294967296i64 }, o);
    let tmax_n = fx_sub(Fx { raw: SCALE }, o);
    let dd = if iabs(d@) >= EPS_RAW as int {
        d
    } else {
        Fx { raw: 0 }
    };
    let tmin = fx_div(tmin_n, dd);
    let tmax = fx_div(tmax_n, dd);
    if tmin@ > tmax@ {
        (tmax, tmin)
    } else {
        (tmin, tmax)
    }
}

/// Local intersection parameters with the cube [-1,1]^3 by the slab method;
/// none when the entry parameter exceeds the exit parameter.
pub open spec fn spec_cube_ts(r2: Ray) -> Seq<Fx> {
    let xs = spec_check_axis(r2.origin.x, r2.direction.x);
    let ys = spec_check_axis(r2.origin.y, r2.direction.y);
    let zs = spec_check_axis(r2.origin.z, r2.direction.z);
    let tmin = fx_max_spec(fx_max_spec(xs.0, ys.0), zs.0);
    let tmax = fx_min_spec(fx_min_spec(xs.1, ys.1), zs.1);
    if tmin@ > tmax@ {
        Seq::empty()
    } else {
        seq![tmin, tmax]
    }
}

/// Local intersection parameters of a local-space ray with a kind.
pub open spec fn spec_local_ts(kind: ShapeKind, r2: Ray) -> Seq<Fx> {
    match kind {
        ShapeKind::Sphere => spec_sphere_ts(r2),
        ShapeKind::Plane => spec_plane_ts(r2),
        ShapeKind::Cube => spec_cube_ts(r2),
    }
}

/// Intersection parameters of a world ray with a shape (assuming its
/// transform is invertible): the ray is carried into local space first.
pub open spec fn spec_shape_ts(s: Shape, r: Ray) -> Seq<Fx> {
    spec_local_ts(
        s.kind,
        spec_ray_transform(r, spec_inverse_rep(s.transform.rep(), 4), 4),
    )
}

/// The local-space surface normal at a local-space point.
pub open spec fn spec_local_normal(kind: ShapeKind, op: Tuple) -> Tuple {
    match kind {
        ShapeKind::Sphere => spec_sub(
            op,
            Tuple { x: Fx { raw: 0 }, y: Fx { raw: 0 }, z: Fx { raw: 0 }, w: Fx { raw: SCALE } },
        ),
        ShapeKind::Plane => Tuple {
            x: Fx { raw: 0 },
            y: Fx { raw: SCALE },
            z: Fx { raw: 0 },
            w: Fx { raw: 0 },
        },
        ShapeKind::Cube => {
            let ax = clamp_raw(iabs(op.x@));
            let ay = clamp_raw(iabs(op.y@));
            let az = clamp_raw(iabs(op.z@));
            let maxc = if ax >= ay && ax >= az {
                ax
            } else if ay >= az {
                ay
            } else {
                az
            };
            if maxc == ax {
                Tuple { x: op.x, y: Fx { raw: 0 }, z: Fx { raw: 0 }, w: Fx { raw: 0 } }
            } else if maxc == ay {
                Tuple { x: Fx { raw: 0 }, y: op.y, z: Fx { raw: 0 }, w: Fx { raw: 0 } }
            } else {
                Tuple { x: Fx { raw: 0 }, y: Fx { raw: 0 }, z: op.z, w: Fx { raw: 0 } }
            }
        },
    }
}

/// The world-space surface normal at a world point (assuming the transform
/// is invertible): the local normal carried through the inverse transpose,
/// with `w` forced to 0, normalized.
pub open spec fn spec_normal_at(s: Shape, p: Tuple) -> Tuple {
    let inv = spec_inverse_rep(s.transform.rep(), 4);
    let op = spec_mul_tuple(inv, 4, p);
    let ln = spec_local_normal(s.kind, op);
    let wn = spec_mul_tuple(spec_transpose_rep(inv, 4), 4, ln);
    spec_normalize(Tuple { x: wn.x, y: wn.y, z: wn.z, w: Fx { raw: 0 } })
}

impl Shape {
    /// A shape is well formed when its transform is a 4x4 matrix and its
    /// material's pattern carries its transform pair.
    pub open spec fn wf(self) -> bool {
        &&& self.transform.wf()
        &&& self.transform.size == 4
        &&& self.material.wf()
    }

    /// Whether the placement transform has a nonzero determinant.
    pub open spec fn invertible(self) -> bool {
        spec_det(self.transform.rep(), 4)@ != 0
    }

    /// A unit sphere at the origin with the default material.
    pub fn sphere() -> (s: Shape)
        ensures
            s.wf(),
            s.kind == ShapeKind::Sphere,
            s.transform.rep() =~= crate::matrix::spec_identity_rep(),
            s.material.is_default(),
    {
        Shape { kind: ShapeKind::Sphere, transform: Matrix::identity(), material: Material::default() }
    }

    /// The plane y=0 with the default material.
    pub fn plane() -> (s: Shape)
        ensures
            s.wf(),
            s.kind == ShapeKind::Plane,
            s.transform.rep() =~= crate::matrix::spec_identity_rep(),
            s.material.is_default(),
    {
        Shape { kind: ShapeKind::Plane, transform: Matrix::identity(), material: Material::default() }
    }

    /// The axis-aligned cube [-1,1]^3 with the default material.
    pub fn cube() -> (s: Shape)
        ensures
            s.wf(),
            s.kind == ShapeKind::Cube,
            s.transform.rep() =~= crate::matrix::spec_identity_rep(),
            s.material.is_default(),
    {
        Shape { kind: ShapeKind::Cube, transform: Matrix::identity(), material: Material::default() }
    }

    /// Replace the placement transform.
    pub fn set_transform(&mut self, t: Matrix)
        requires
            t.wf(),
            t.size == 4,
            old(self).wf(),
        ensures
            final(self).wf(),
            final(self).transform == t,
            final(self).kind == old(self).kind,
            final(self).material == old(self).material,
    {
        self.transform = t;
    }

    /// Replace the material.
    pub fn set_material(&mut self, m: Material)
        requires
            m.wf(),
            old(self).wf(),
        ensures
            final(self).wf(),
            final(self).material == m,
            final(self).kind == old(self).kind,
            final(self).transform == old(self).transform,
    {
        self.material = m;
    }

    /// Intersection parameters of a world ray with this shape, in local
    /// order (not globally sorted).  Fails exactly when the placement
    /// transform's determinant is exactly zero.
    #[verifier::rlimit(100)]
    pub fn intersect(&self, r: &Ray) -> (res: Result<Vec<Fx>, ()>)
        requires
            self.wf(),
        ensures
            res is Err <==> !self.invertible(),
            res matches Ok(v) ==> v@ =~= spec_shape_ts(*self, *r),
    {
        let inv = match self.transform.inverse() {
            Ok(m) => m,
            Err(()) => {
                return Err(());
            },
        };
        let r2 = r.transform(&inv);
        let mut out: Vec<Fx> = Vec::new();
        match self.kind {
            ShapeKind::Sphere => {
                let two = Fx { raw: TWO_RAW };
                let four = Fx { raw: FOUR_RAW };
                let origin = Tuple::point(Fx { raw: 0 }, Fx { raw: 0 }, Fx { raw: 0 });
                let sphere_to_ray = r2.origin.sub(origin);
                let a = r2.direction.dot(r2.direction);
                let b = two.mul(r2.direction.dot(sphere_to_ray));
                let c = sphere_to_ray.dot(sphere_to_ray).sub(Fx { raw: SCALE });
                let disc = b.mul(b).sub(four.mul(a).mul(c));
                if disc.raw < 0 {
                } else {
                    let sd = disc.sqrt();
                    let denom = two.mul(a);
                    out.push(b.neg().sub(sd).div(denom));
                    out.push(b.neg().add(sd).div(denom));
                }
            },
            ShapeKind::Plane => {
                let dy = r2.direction.y;
                let mag = if dy.raw < 0 {
                    dy.neg()
                } else {
                    dy
                };
                if mag.raw < EPS_RAW {
                } else {
                    out.push(r2.origin.y.neg().div(dy));
                }
            },
            ShapeKind::Cube => {
                let (xmin, xmax) = check_axis(r2.origin.x, r2.direction.x);
                let (ymin, ymax) = check_axis(r2.origin.y, r2.direction.y);
                let (zmin, zmax) = check_axis(r2.origin.z, r2.direction.z);
                let tmin = xmin.max(ymin).max(zmin);
                let tmax = xmax.min(ymax).min(zmax);
                if tmin.gt(tmax) {
                } else {
                    out.push(tmin);
                    out.push(tmax);
                }
            },
        }
        Ok(out)
    }

    /// The world-space surface normal at a world point.  Fails exactly when
    /// the placement transform's determinant is exactly zero.
    pub fn normal_at(&self, p: Tuple) -> (res: Result<Tuple, ()>)
        requires
            self.wf(),
        ensures
            res is Err <==> !self.invertible(),
            res matches Ok(n) ==> n == spec_normal_at(*self, p),
    {
        let inv = match self.transform.inverse() {
            Ok(m) => m,
            Err(()) => {
                return Err(());
            },
        };
        let op = inv.mul_tuple(p);
        let ln = match self.kind {
            ShapeKind::Sphere => {
                let origin = Tuple::point(Fx { raw: 0 }, Fx { raw: 0 }, Fx { raw: 0 });
                op.sub(origin)
            },
            ShapeKind::Plane => Tuple::vector(Fx { raw: 0 }, Fx { raw: SCALE }, Fx { raw: 0 }),
            ShapeKind::Cube => {
                let ax = op.x.abs();
                let ay = op.y.abs();
                let az = op.z.abs();
                let maxc = if ax.raw >= ay.raw && ax.raw >= az.raw {
                    ax
                } else if ay.raw >= az.raw {
                    ay
                } else {
                    az
                };
                if maxc.raw == ax.raw {
                    Tuple::vector(op.x, Fx { raw: 0 }, Fx { raw: 0 })
                } else if maxc.raw == ay.raw {
                    Tuple::vector(Fx { raw: 0 }, op.y, Fx { raw: 0 })
                } else {
                    Tuple::vector(Fx { raw: 0 }, Fx { raw: 0 }, op.z)
                }
            },
        };
        let wn = inv.transpose().mul_tuple(ln);
        let forced = Tuple::vector(wn.x, wn.y, wn.z);
        Ok(forced.normalize())
    }
}

/// One slab of the cube test.
fn check_axis(o: Fx, d: Fx) -> (r: (Fx, Fx))
    ensures
        r == spec_check_axis(o, d),
{
    let tmin_n = Fx { raw: -4294967296i64 }.sub(o);
    let tmax_n = Fx { raw: SCALE }.sub(o);
    let mag = if d.raw < 0 {
        d.neg()
    } else {
        d
    };
    let dd = if mag.raw >= EPS_RAW {
        d
    } else {
        Fx { raw: 0 }
    };
    let tmin = tmin_n.div(dd);
    let tmax = tmax_n.div(dd);
    if tmin.gt(tmax) {
        (tmax, tmin)
    } else {
        (tmin, tmax)
    }
}

/// A sphere with the given placement and material.
pub fn sphere(transform: Matrix, material: Material) -> (s: Shape)
    requires
        transform.wf(),
        transform.size == 4,
        material.wf(),
    ensures
        s.wf(),
        s == (Shape { kind: ShapeKind::Sphere, transform, material }),
{
    Shape { kind: ShapeKind::Sphere, transform, material }
}

/// A glass sphere: fully transparent, refractive index 1.5.
pub fn glass_sphere() -> (s: Shape)
    ensures
        s.wf(),
        s.kind == ShapeKind::Sphere,
        s.transform.rep() =~= crate::matrix::spec_identity_rep(),
        s.material.default_phong(),
        s.material.reflective == (Fx { raw: 0 }),
        s.material.transparency == (Fx { raw: SCALE }),
        s.material.refractive_index == (Fx { raw: 6442450944 }),
{
    let mut s = Shape::sphere();
    s.material.transparency = Fx { raw: SCALE };
    s.material.refractive_index = Fx { raw: 6442450944 };
    s
}

} // verus!
