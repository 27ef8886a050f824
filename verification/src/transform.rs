//! Affine transform constructors: translation, scaling, rotation, shearing,
//! and the view transform.

use vstd::prelude::*;

verus! {

use crate::fixed::{Fx, fx_neg, SCALE};
use crate::matrix::{Matrix, spec_identity_rep, spec_mm_rep, g_at};
use crate::trig::{fx_cos, fx_sin};
use crate::tuple::{Tuple, spec_sub, spec_cross, spec_normalize, spec_neg};

/// Grid of the translation by `(x, y, z)`.
pub open spec fn spec_translate_rep(x: Fx, y: Fx, z: Fx) -> Seq<Fx> {
    spec_identity_rep().update(3, x).update(7, y).update(11, z)
}

/// Grid of the scaling by `(x, y, z)`.
pub open spec fn spec_scale_rep(x: Fx, y: Fx, z: Fx) -> Seq<Fx> {
    spec_identity_rep().update(0, x).update(5, y).update(10, z)
}

/// Grid of the rotation about the x axis by `r` radians.
pub open spec fn spec_rotate_x_rep(r: Fx) -> Seq<Fx> {
    spec_identity_rep().update(5, fx_cos(r)).update(6, fx_neg(fx_sin(r))).update(
        9,
        fx_sin(r),
    ).update(10, fx_cos(r))
}

/// Grid of the rotation about the y axis by `r` radians.
pub open spec fn spec_rotate_y_rep(r: Fx) -> Seq<Fx> {
    spec_identity_rep().update(0, fx_cos(r)).update(2, fx_sin(r)).update(
        8,
        fx_neg(fx_sin(r)),
    ).update(10, fx_cos(r))
}

/// Grid of the rotation about the z axis by `r` radians.
pub open spec fn spec_rotate_z_rep(r: Fx) -> Seq<Fx> {
    spec_identity_rep().update(0, fx_cos(r)).update(1, fx_neg(fx_sin(r))).update(
        4,
        fx_sin(r),
    ).update(5, fx_cos(r))
}

/// Grid of the shear with the six proportions.
pub open spec fn spec_shear_rep(xy: Fx, xz: Fx, yx: Fx, yz: Fx, zx: Fx, zy: Fx) -> Seq<Fx> {
    spec_identity_rep().update(1, xy).update(2, xz).update(4, yx).update(6, yz).update(
        8,
        zx,
    ).update(9, zy)
}

/// The 4x4 identity matrix.
pub fn identity() -> (r: Matrix)
    ensures
        r.wf(),
        r.size == 4,
        r.rep() =~= spec_identity_rep(),
{
    Matrix::identity()
}

/// Translation by `(x, y, z)`.
pub fn translate(x: Fx, y: Fx, z: Fx) -> (r: Matrix)
    ensures
        r.wf(),
        r.size == 4,
        r.rep() =~= spec_translate_rep(x, y, z),
{
    let one = Fx { raw: SCALE };
    let zero = Fx { raw: 0 };
    Matrix::from4(
        [
            [one, zero, zero, x],
            [zero, one, zero, y],
            [zero, zero, one, z],
            [zero, zero, zero, one],
        ],
    )
}

/// Scaling by `(x, y, z)`.
pub fn scale(x: Fx, y: Fx, z: Fx) -> (r: Matrix)
    ensures
        r.wf(),
        r.size == 4,
        r.rep() =~= spec_scale_rep(x, y, z),
{
    let one = Fx { raw: SCALE };
    let zero = Fx { raw: 0 };
    Matrix::from4(
        [
            [x, zero, zero, zero],
            [zero, y, zero, zero],
            [zero, zero, z, zero],
            [zero, zero, zero, one],
        ],
    )
}

/// Rotation about the x axis by `r` radians.
pub fn rotate_x(r: Fx) -> (m: Matrix)
    ensures
        m.wf(),
        m.size == 4,
        m.rep() =~= spec_rotate_x_rep(r),
{
    let one = Fx { raw: SCALE };
    let zero = Fx { raw: 0 };
    let c = r.cos();
    let s = r.sin();
    Matrix::from4(
        [
            [one, zero, zero, zero],
            [zero, c, s.neg(), zero],
            [zero, s, c, zero],
            [zero, zero, zero, one],
        ],
    )
}

/// Rotation about the y axis by `r` radians.
pub fn rotate_y(r: Fx) -> (m: Matrix)
    ensures
        m.wf(),
        m.size == 4,
        m.rep() =~= spec_rotate_y_rep(r),
{
    let one = Fx { raw: SCALE };
    let zero = Fx { raw: 0 };
    let c = r.cos();
    let s = r.sin();
    Matrix::from4(
        [
            [c, zero, s, zero],
            [zero, one, zero, zero],
            [s.neg(), zero, c, zero],
            [zero, zero, zero, one],
        ],
    )
}

/// Rotation about the z axis by `r` radians.
pub fn rotate_z(r: Fx) -> (m: Matrix)
    ensures
        m.wf(),
        m.size == 4,
        m.rep() =~= spec_rotate_z_rep(r),
{
    let one = Fx { raw: SCALE };
    let zero = Fx { raw: 0 };
    let c = r.cos();
    let s = r.sin();
    Matrix::from4(
        [
            [c, s.neg(), zero, zero],
            [s, c, zero, zero],
            [zero, zero, one, zero],
            [zero, zero, zero, one],
        ],
    )
}

/// Shear with the six proportions.
pub fn shear(xy: Fx, xz: Fx, yx: Fx, yz: Fx, zx: Fx, zy: Fx) -> (r: Matrix)
    ensures
        r.wf(),
        r.size == 4,
        r.rep() =~= spec_shear_rep(xy, xz, yx, yz, zx, zy),
{
    let one = Fx { raw: SCALE };
    let zero = Fx { raw: 0 };
    Matrix::from4(
        [
            [one, xy, xz, zero],
            [yx, one, yz, zero],
            [zx, zy, one, zero],
            [zero, zero, zero, one],
        ],
    )
}

impl Matrix {
    /// Left-compose a translation: `translate(x, y, z) * self`.
    pub fn translate(self, x: Fx, y: Fx, z: Fx) -> (r: Matrix)
        requires
            self.wf(),
            self.size == 4,
        ensures
            r.wf(),
            r.size == 4,
            r.rep() =~= spec_mm_rep(spec_translate_rep(x, y, z), self.rep(), 4),
    {
        translate(x, y, z).mul_mat(&self)
    }

    /// Left-compose a scaling: `scale(x, y, z) * self`.
    pub fn scale(self, x: Fx, y: Fx, z: Fx) -> (r: Matrix)
        requires
            self.wf(),
            self.size == 4,
        ensures
            r.wf(),
            r.size == 4,
            r.rep() =~= spec_mm_rep(spec_scale_rep(x, y, z), self.rep(), 4),
    {
        scale(x, y, z).mul_mat(&self)
    }

    /// Left-compose a rotation about the x axis.
    pub fn rotate_x(self, r: Fx) -> (m: Matrix)
        requires
            self.wf(),
            self.size == 4,
        ensures
            m.wf(),
            m.size == 4,
            m.rep() =~= spec_mm_rep(spec_rotate_x_rep(r), self.rep(), 4),
    {
        rotate_x(r).mul_mat(&self)
    }

    /// Left-compose a rotation about the y axis.
    pub fn rotate_y(self, r: Fx) -> (m: Matrix)
        requires
            self.wf(),
            self.size == 4,
        ensures
            m.wf(),
            m.size == 4,
            m.rep() =~= spec_mm_rep(spec_rotate_y_rep(r), self.rep(), 4),
    {
        rotate_y(r).mul_mat(&self)
    }

    /// Left-compose a rotation about the z axis.
    pub fn rotate_z(self, r: Fx) -> (m: Matrix)
        requires
            self.wf(),
            self.size == 4,
        ensures
            m.wf(),
            m.size == 4,
            m.rep() =~= spec_mm_rep(spec_rotate_z_rep(r), self.rep(), 4),
    {
        rotate_z(r).mul_mat(&self)
    }

    /// Left-compose a shear.
    pub fn shear(self, xy: Fx, xz: Fx, yx: Fx, yz: Fx, zx: Fx, zy: Fx) -> (r: Matrix)
        requires
            self.wf(),
            self.size == 4,
        ensures
            r.wf(),
            r.size == 4,
            r.rep() =~= spec_mm_rep(spec_shear_rep(xy, xz, yx, yz, zx, zy), self.rep(), 4),
    {
        shear(xy, xz, yx, yz, zx, zy).mul_mat(&self)
    }
}

/// Grid of the orientation part of a view transform.
pub open spec fn spec_orientation_rep(left: Tuple, true_up: Tuple, forward: Tuple) -> Seq<Fx> {
    spec_identity_rep().update(0, left.x).update(1, left.y).update(2, left.z).update(
        4,
        true_up.x,
    ).update(5, true_up.y).update(6, true_up.z).update(8, fx_neg(forward.x)).update(
        9,
        fx_neg(forward.y),
    ).update(10, fx_neg(forward.z))
}

/// The camera placement looking from `from` toward `to` with `up` overhead:
/// the orientation of the derived left/up/forward frame composed with the
/// translation moving `from` to the origin.
#[verifier::rlimit(60)]
pub fn view_transform(from: Tuple, to: Tuple, up: Tuple) -> (r: Matrix)
    ensures
        r.wf(),
        r.size == 4,
        ({
            let forward = spec_normalize(spec_sub(to, from));
            let left = spec_cross(forward, spec_normalize(up));
            let true_up = spec_cross(left, forward);
            r.rep() =~= spec_mm_rep(
                spec_orientation_rep(left, true_up, forward),
                spec_translate_rep(fx_neg(from.x), fx_neg(from.y), fx_neg(from.z)),
                4,
            )
        }),
{
    let forward = to.sub(from).normalize();
    let upn = up.normalize();
    let left = forward.cross(upn);
    let true_up = left.cross(forward);
    let one = Fx { raw: SCALE };
    let zero = Fx { raw: 0 };
    let orientation = Matrix::from4(
        [
            [left.x, left.y, left.z, zero],
            [true_up.x, true_up.y, true_up.z, zero],
            [forward.x.neg(), forward.y.neg(), forward.z.neg(), zero],
            [zero, zero, zero, one],
        ],
    );
    proof {
        assert(orientation.rep() =~= spec_orientation_rep(left, true_up, forward));
    }
    orientation.mul_mat(&translate(from.x.neg(), from.y.neg(), from.z.neg()))
}

} // verus!
