//! Fixed-point sine, cosine and tangent.
//!
//! Angles are reduced into `[-pi, pi]` by whole turns, folded into the first
//! quadrant, and evaluated by an alternating Taylor polynomial in fixed-point
//! arithmetic.  The result of every function is pinned exactly by a spec
//! function; the approximation of the true trigonometric value is within a
//! few 1e-9 for reduced angles.

use vstd::prelude::*;

verus! {

use crate::fixed::{Fx, fxs, fx_mul_int, fx_sub_int, fx_div_int, iabs, SCALE};
use vstd::arithmetic::div_mod::{lemma_fundamental_div_mod, lemma_fundamental_div_mod_converse};

/// pi in raw units.
pub const PI_RAW: i64 = 13493037705;

/// 2*pi in raw units.
pub const TWO_PI_RAW: i64 = 26986075409;

/// pi/2 in raw units.
pub const HALF_PI_RAW: i64 = 6746518852;

/// Taylor coefficients 1/2!, 1/4!, ..., 1/12! in raw units.
pub const COS_C2: i64 = 2147483648;

pub const COS_C4: i64 = 178956971;

pub const COS_C6: i64 = 5965232;

pub const COS_C8: i64 = 106522;

pub const COS_C10: i64 = 1184;

pub const COS_C12: i64 = 9;

/// Taylor coefficients 1/3!, 1/5!, ..., 1/13! in raw units.
pub const SIN_C3: i64 = 715827883;

pub const SIN_C5: i64 = 35791394;

pub const SIN_C7: i64 = 852176;

pub const SIN_C9: i64 = 11836;

pub const SIN_C11: i64 = 108;

pub const SIN_C13: i64 = 1;

/// Reduce an angle into `[-pi, pi)` by whole turns.
pub open spec fn reduce_pi(a: int) -> int {
    (a + PI_RAW as int) % (TWO_PI_RAW as int) - PI_RAW as int
}

/// Cosine polynomial on `[0, pi/2]`, over `t = x^2`.
pub open spec fn cos_kernel_int(z: int) -> int {
    let t = fx_mul_int(z, z);
    let a12 = COS_C12 as int;
    let a10 = fx_sub_int(COS_C10 as int, fx_mul_int(a12, t));
    let a8 = fx_sub_int(COS_C8 as int, fx_mul_int(a10, t));
    let a6 = fx_sub_int(COS_C6 as int, fx_mul_int(a8, t));
    let a4 = fx_sub_int(COS_C4 as int, fx_mul_int(a6, t));
    let a2 = fx_sub_int(COS_C2 as int, fx_mul_int(a4, t));
    fx_sub_int(SCALE as int, fx_mul_int(a2, t))
}

/// Sine polynomial on `[0, pi/2]`.
pub open spec fn sin_kernel_int(z: int) -> int {
    let t = fx_mul_int(z, z);
    let a13 = SIN_C13 as int;
    let a11 = fx_sub_int(SIN_C11 as int, fx_mul_int(a13, t));
    let a9 = fx_sub_int(SIN_C9 as int, fx_mul_int(a11, t));
    let a7 = fx_sub_int(SIN_C7 as int, fx_mul_int(a9, t));
    let a5 = fx_sub_int(SIN_C5 as int, fx_mul_int(a7, t));
    let a3 = fx_sub_int(SIN_C3 as int, fx_mul_int(a5, t));
    fx_mul_int(z, fx_sub_int(SCALE as int, fx_mul_int(a3, t)))
}

/// Raw cosine of a raw angle.
pub open spec fn fx_cos_int(a: int) -> int {
    let y = reduce_pi(a);
    let z = iabs(y);
    if z > HALF_PI_RAW as int {
        fx_sub_int(0, cos_kernel_int(PI_RAW as int - z))
    } else {
        cos_kernel_int(z)
    }
}

/// Raw sine of a raw angle.
pub open spec fn fx_sin_int(a: int) -> int {
    let y = reduce_pi(a);
    let z = iabs(y);
    let m = if z > HALF_PI_RAW as int {
        sin_kernel_int(PI_RAW as int - z)
    } else {
        sin_kernel_int(z)
    };
    if y < 0 {
        fx_sub_int(0, m)
    } else {
        m
    }
}

/// Raw tangent of a raw angle.
pub open spec fn fx_tan_int(a: int) -> int {
    fx_div_int(fx_sin_int(a), fx_cos_int(a))
}

pub open spec fn fx_cos(a: Fx) -> Fx {
    fxs(fx_cos_int(a@))
}

pub open spec fn fx_sin(a: Fx) -> Fx {
    fxs(fx_sin_int(a@))
}

pub open spec fn fx_tan(a: Fx) -> Fx {
    fxs(fx_tan_int(a@))
}

/// Reduce a raw angle into `[-pi, pi)` by whole turns.
fn reduce_exec(a: i64) -> (r: i64)
    ensures
        r as int == reduce_pi(a as int),
        -(PI_RAW as int) <= r as int <= PI_RAW as int,
{
    let x: i128 = (a as i128) + (PI_RAW as i128);
    let t: u128 = TWO_PI_RAW as u128;
    let m: u128 = if x >= 0 {
        (x as u128) % t
    } else {
        let mm: u128 = ((-x) as u128) % t;
        proof {
            lemma_fundamental_div_mod(-(x as int), t as int);
            let q = -(x as int) / (t as int);
            if mm == 0 {
                lemma_fundamental_div_mod_converse(x as int, t as int, -q, 0);
            } else {
                lemma_fundamental_div_mod_converse(
                    x as int,
                    t as int,
                    -q - 1,
                    t as int - mm as int,
                );
            }
        }
        if mm == 0 {
            0
        } else {
            t - mm
        }
    };
    (m as i64) - PI_RAW
}

impl Fx {
    /// Cosine of an angle in radians.
    pub fn cos(self) -> (r: Fx)
        ensures
            r == fx_cos(self),
    {
        let y = reduce_exec(self.raw);
        let z = Fx { raw: if y < 0 { -y } else { y } };
        if z.raw > HALF_PI_RAW {
            cos_kernel(Fx { raw: PI_RAW - z.raw }).neg()
        } else {
            cos_kernel(z)
        }
    }

    /// Sine of an angle in radians.
    pub fn sin(self) -> (r: Fx)
        ensures
            r == fx_sin(self),
    {
        let y = reduce_exec(self.raw);
        let z = Fx { raw: if y < 0 { -y } else { y } };
        let m = if z.raw > HALF_PI_RAW {
            sin_kernel(Fx { raw: PI_RAW - z.raw })
        } else {
            sin_kernel(z)
        };
        if y < 0 {
            m.neg()
        } else {
            m
        }
    }

    /// Tangent of an angle in radians.
    pub fn tan(self) -> (r: Fx)
        ensures
            r == fx_tan(self),
    {
        self.sin().div(self.cos())
    }
}

fn cos_kernel(z: Fx) -> (r: Fx)
    ensures
        r@ == cos_kernel_int(z@),
{
    let t = z.mul(z);
    let a12 = Fx { raw: COS_C12 };
    let a10 = Fx { raw: COS_C10 }.sub(a12.mul(t));
    let a8 = Fx { raw: COS_C8 }.sub(a10.mul(t));
    let a6 = Fx { raw: COS_C6 }.sub(a8.mul(t));
    let a4 = Fx { raw: COS_C4 }.sub(a6.mul(t));
    let a2 = Fx { raw: COS_C2 }.sub(a4.mul(t));
    Fx::one().sub(a2.mul(t))
}

fn sin_kernel(z: Fx) -> (r: Fx)
    ensures
        r@ == sin_kernel_int(z@),
{
    let t = z.mul(z);
    let a13 = Fx { raw: SIN_C13 };
    let a11 = Fx { raw: SIN_C11 }.sub(a13.mul(t));
    let a9 = Fx { raw: SIN_C9 }.sub(a11.mul(t));
    let a7 = Fx { raw: SIN_C7 }.sub(a9.mul(t));
    let a5 = Fx { raw: SIN_C5 }.sub(a7.mul(t));
    let a3 = Fx { raw: SIN_C3 }.sub(a5.mul(t));
    z.mul(Fx::one().sub(a3.mul(t)))
}

} // verus!
