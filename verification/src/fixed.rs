//! Fixed-point scalars.
//!
//! A `Fx` holds a signed count of 2^-32 units in an `i64`.  All operations
//! saturate at `MAX_RAW` / `MIN_RAW` and round toward zero, and every
//! operation's result is pinned exactly by a spec function over `int`.

use vstd::prelude::*;

verus! {

use vstd::arithmetic::div_mod::{lemma_fundamental_div_mod, lemma_fundamental_div_mod_converse};

/// Number of raw units per 1.0: 2^32.
pub const SCALE: i64 = 4294967296;

/// Largest raw value a `Fx` operation will produce.
pub const MAX_RAW: i64 = 9223372036854775807;

/// Smallest raw value a `Fx` operation will produce (symmetric to `MAX_RAW`,
/// so negation never overflows).
pub const MIN_RAW: i64 = -9223372036854775807;

/// Comparison tolerance of about 1e-5, in raw units.
pub const EPS_RAW: i64 = 42950;

/// The scalar 2.0 in raw units.
pub const TWO_RAW: i64 = 8589934592;

/// A fixed-point scalar: `raw` counts 2^-32 units.
#[derive(Clone, Copy, Debug, PartialEq, Eq, Structural)]
pub struct Fx {
    pub raw: i64,
}

/// Absolute value on `int`.
pub open spec fn iabs(a: int) -> int {
    if a >= 0 {
        a
    } else {
        -a
    }
}

/// Saturate an `int` into the raw range.
pub open spec fn clamp_raw(v: int) -> int {
    if v > MAX_RAW as int {
        MAX_RAW as int
    } else if v < MIN_RAW as int {
        MIN_RAW as int
    } else {
        v
    }
}

/// Division truncating toward zero (the rounding all `Fx` operations use).
pub open spec fn tdiv(a: int, b: int) -> int {
    let q = iabs(a) / iabs(b);
    if (a >= 0) == (b >= 0) {
        q
    } else {
        -q
    }
}

/// Raw result of fixed-point addition.
pub open spec fn fx_add_int(a: int, b: int) -> int {
    clamp_raw(a + b)
}

/// Raw result of fixed-point subtraction.
pub open spec fn fx_sub_int(a: int, b: int) -> int {
    clamp_raw(a - b)
}

/// Raw result of fixed-point negation.
pub open spec fn fx_neg_int(a: int) -> int {
    clamp_raw(-a)
}

/// Raw result of fixed-point multiplication: truncate `a*b / 2^32`.
pub open spec fn fx_mul_int(a: int, b: int) -> int {
    clamp_raw(tdiv(a * b, SCALE as int))
}

/// Raw result of fixed-point division.  Division by zero saturates by the
/// sign of the dividend, mirroring the infinities the slab method relies on.
pub open spec fn fx_div_int(a: int, b: int) -> int {
    if b == 0 {
        if a > 0 {
            MAX_RAW as int
        } else if a < 0 {
            MIN_RAW as int
        } else {
            0
        }
    } else {
        clamp_raw(tdiv(a * SCALE as int, b))
    }
}

/// Integer square root, rounded down.
pub open spec fn isqrt_spec(n: int) -> int
    decreases n,
    when n >= 0
{
    if n <= 0 {
        0
    } else {
        let r = isqrt_spec(n - 1);
        if (r + 1) * (r + 1) <= n {
            r + 1
        } else {
            r
        }
    }
}

/// Raw result of the fixed-point square root; negative inputs give 0.
pub open spec fn fx_sqrt_int(a: int) -> int {
    if a <= 0 {
        0
    } else {
        isqrt_spec(a * SCALE as int)
    }
}

/// Floor of a scalar as a plain integer count of whole units.
pub open spec fn fx_floor_q(a: int) -> int {
    a / (SCALE as int)
}

impl Fx {
    /// The raw count as a mathematical integer; the value it denotes is
    /// `self@ / 2^32`.
    pub open spec fn view(self) -> int {
        self.raw as int
    }

    pub open spec fn spec_zero() -> Fx {
        Fx { raw: 0 }
    }

    pub open spec fn spec_one() -> Fx {
        Fx { raw: SCALE }
    }

    /// 0.0
    pub fn zero() -> (r: Fx)
        ensures
            r == Fx::spec_zero(),
    {
        Fx { raw: 0 }
    }

    /// 1.0
    pub fn one() -> (r: Fx)
        ensures
            r == Fx::spec_one(),
    {
        Fx { raw: SCALE }
    }

    /// Build a scalar directly from its raw 2^-32 units.
    pub fn from_raw(raw: i64) -> (r: Fx)
        ensures
            r.raw == raw,
    {
        Fx { raw }
    }

    /// Build a scalar from a whole number, saturating at the range ends.
    pub fn from_int(n: i64) -> (r: Fx)
        ensures
            r@ == clamp_raw(n * SCALE as int),
    {
        proof {
            assert((n as int) * (SCALE as int) <= 0x8000000000000000 * (SCALE as int)
                && (n as int) * (SCALE as int) >= -0x8000000000000000 * (SCALE as int))
                by (nonlinear_arith)
                requires
                    -0x8000000000000000 <= n as int <= 0x8000000000000000,
            ;
        }
        clamp_i128((n as i128) * (SCALE as i128))
    }
}

/// Saturate an `i128` into the raw range of an `i64` scalar.
fn clamp_i128(v: i128) -> (r: Fx)
    ensures
        r@ == clamp_raw(v as int),
{
    if v > MAX_RAW as i128 {
        Fx { raw: MAX_RAW }
    } else if v < MIN_RAW as i128 {
        Fx { raw: MIN_RAW }
    } else {
        Fx { raw: v as i64 }
    }
}

/// Magnitude of an `i64` as a `u64` (total, including `i64::MIN`).
fn abs_mag(x: i64) -> (m: u64)
    ensures
        m as int == iabs(x as int),
{
    if x >= 0 {
        x as u64
    } else {
        (-(x as i128)) as u64
    }
}

impl Fx {
    /// Saturating addition.
    pub fn add(self, rhs: Fx) -> (r: Fx)
        ensures
            r@ == fx_add_int(self@, rhs@),
    {
        clamp_i128((self.raw as i128) + (rhs.raw as i128))
    }

    /// Saturating subtraction.
    pub fn sub(self, rhs: Fx) -> (r: Fx)
        ensures
            r@ == fx_sub_int(self@, rhs@),
    {
        clamp_i128((self.raw as i128) - (rhs.raw as i128))
    }

    /// Negation (total, thanks to the symmetric raw range).
    pub fn neg(self) -> (r: Fx)
        ensures
            r@ == fx_neg_int(self@),
    {
        clamp_i128(-(self.raw as i128))
    }

    /// Absolute value.
    pub fn abs(self) -> (r: Fx)
        ensures
            r@ == clamp_raw(iabs(self@)),
    {
        if self.raw < 0 {
            self.neg()
        } else {
            self
        }
    }

    /// Fixed-point multiplication: truncates toward zero, saturates.
    pub fn mul(self, rhs: Fx) -> (r: Fx)
        ensures
            r@ == fx_mul_int(self@, rhs@),
    {
        let a = self.raw;
        let b = rhs.raw;
        let ua = abs_mag(a) as u128;
        let ub = abs_mag(b) as u128;
        proof {
            assert(ua * ub <= 0x8000000000000000u128 * 0x8000000000000000u128) by (nonlinear_arith)
                requires
                    ua <= 0x8000000000000000u128,
                    ub <= 0x8000000000000000u128,
            ;
            assert(ua as int * ub as int == iabs((a as int) * (b as int))) by (nonlinear_arith)
                requires
                    ua as int == iabs(a as int),
                    ub as int == iabs(b as int),
            ;
            assert(((a as int) * (b as int) >= 0) == ((a as int >= 0) == (b as int >= 0))
                || (a as int) * (b as int) == 0) by (nonlinear_arith);
        }
        let p: u128 = ua * ub;
        let q: u128 = p / (SCALE as u128);
        let neg: bool = (a < 0) != (b < 0);
        if neg {
            if q > MAX_RAW as u128 {
                Fx { raw: MIN_RAW }
            } else {
                Fx { raw: -(q as i64) }
            }
        } else {
            if q > MAX_RAW as u128 {
                Fx { raw: MAX_RAW }
            } else {
                Fx { raw: q as i64 }
            }
        }
    }

    /// Fixed-point division: truncates toward zero, saturates; a zero divisor
    /// saturates by the sign of the dividend.
    pub fn div(self, rhs: Fx) -> (r: Fx)
        ensures
            r@ == fx_div_int(self@, rhs@),
    {
        let a = self.raw;
        let b = rhs.raw;
        if b == 0 {
            if a > 0 {
                Fx { raw: MAX_RAW }
            } else if a < 0 {
                Fx { raw: MIN_RAW }
            } else {
                Fx { raw: 0 }
            }
        } else {
            let ma = abs_mag(a);
            proof {
                assert((ma as int) * (SCALE as int) <= 0x8000000000000000 * (SCALE as int))
                    by (nonlinear_arith)
                    requires
                        0 <= ma as int <= 0x8000000000000000,
                ;
            }
            let ua: u128 = (ma as u128) * (SCALE as u128);
            let ub: u128 = abs_mag(b) as u128;
            proof {
                assert(ua as int == iabs((a as int) * (SCALE as int))) by (nonlinear_arith)
                    requires
                        ua as int == iabs(a as int) * (SCALE as int),
                ;
                assert(((a as int) * (SCALE as int) >= 0) == (a as int >= 0)
                    || (a as int) * (SCALE as int) == 0);
            }
            let q: u128 = ua / ub;
            let neg: bool = (a < 0) != (b < 0);
            if neg {
                if q > MAX_RAW as u128 {
                    Fx { raw: MIN_RAW }
                } else {
                    Fx { raw: -(q as i64) }
                }
            } else {
                if q > MAX_RAW as u128 {
                    Fx { raw: MAX_RAW }
                } else {
                    Fx { raw: q as i64 }
                }
            }
        }
    }

    /// Exact comparisons on the raw representation.
    pub fn lt(self, rhs: Fx) -> (r: bool)
        ensures
            r == (self@ < rhs@),
    {
        self.raw < rhs.raw
    }

    pub fn le(self, rhs: Fx) -> (r: bool)
        ensures
            r == (self@ <= rhs@),
    {
        self.raw <= rhs.raw
    }

    pub fn gt(self, rhs: Fx) -> (r: bool)
        ensures
            r == (self@ > rhs@),
    {
        self.raw > rhs.raw
    }

    pub fn ge(self, rhs: Fx) -> (r: bool)
        ensures
            r == (self@ >= rhs@),
    {
        self.raw >= rhs.raw
    }

    /// Tolerance-based equality: within about 1e-5.
    pub fn approx_eq(self, rhs: Fx) -> (r: bool)
        ensures
            r == (iabs(self@ - rhs@) < EPS_RAW as int),
    {
        let d: i128 = (self.raw as i128) - (rhs.raw as i128);
        let m: i128 = if d < 0 {
            -d
        } else {
            d
        };
        m < EPS_RAW as i128
    }

    /// The smaller of two scalars.
    pub fn min(self, rhs: Fx) -> (r: Fx)
        ensures
            r@ == if self@ <= rhs@ {
                self@
            } else {
                rhs@
            },
    {
        if self.raw <= rhs.raw {
            self
        } else {
            rhs
        }
    }

    /// The larger of two scalars.
    pub fn max(self, rhs: Fx) -> (r: Fx)
        ensures
            r@ == if self@ >= rhs@ {
                self@
            } else {
                rhs@
            },
    {
        if self.raw >= rhs.raw {
            self
        } else {
            rhs
        }
    }

    /// Square root, rounded down to the nearest raw unit; 0 for negatives.
    pub fn sqrt(self) -> (r: Fx)
        ensures
            r@ == fx_sqrt_int(self@),
    {
        if self.raw <= 0 {
            return Fx { raw: 0 };
        }
        let n: u128 = (self.raw as u128) * (SCALE as u128);
        let mut lo: u128 = 0;
        let mut hi: u128 = 0x1000000000000u128;
        proof {
            assert(hi * hi > n);
            lemma_isqrt_bounds(n as int);
        }
        while lo + 1 < hi
            invariant
                lo < hi,
                hi <= 0x1000000000000u128,
                lo * lo <= n,
                hi * hi > n,
            decreases hi - lo,
        {
            let mid: u128 = lo + (hi - lo) / 2;
            proof {
                assert(mid * mid <= 0x1000000000000u128 * 0x1000000000000u128) by (nonlinear_arith)
                    requires
                        mid <= 0x1000000000000u128,
                ;
            }
            if mid * mid <= n {
                lo = mid;
            } else {
                hi = mid;
            }
        }
        proof {
            assert(hi == lo + 1);
            lemma_isqrt_unique(n as int, lo as int);
        }
        Fx { raw: lo as i64 }
    }

    /// Floor as a plain count of whole units.
    pub fn floor_q(self) -> (k: i64)
        ensures
            k as int == fx_floor_q(self@),
    {
        let a = self.raw;
        if a >= 0 {
            ((a as u64) / (SCALE as u64)) as i64
        } else {
            let m = abs_mag(a);
            let q = m / (SCALE as u64);
            let rem = m % (SCALE as u64);
            proof {
                lemma_fundamental_div_mod(m as int, SCALE as int);
                assert(m as int == (q as int) * (SCALE as int) + rem as int);
                if rem == 0 {
                    lemma_fundamental_div_mod_converse(
                        a as int,
                        SCALE as int,
                        -(q as int),
                        0,
                    );
                } else {
                    lemma_fundamental_div_mod_converse(
                        a as int,
                        SCALE as int,
                        -(q as int) - 1,
                        SCALE as int - rem as int,
                    );
                }
            }
            if rem == 0 {
                -(q as i64)
            } else {
                -(q as i64) - 1
            }
        }
    }

    /// Floor to a whole number of units, as a scalar.
    pub fn floor(self) -> (r: Fx)
        ensures
            r@ == clamp_raw(fx_floor_q(self@) * SCALE as int),
    {
        let k = self.floor_q();
        Fx::from_int(k)
    }
}

/// Whether a whole-number count is even.
pub fn even_i64(k: i64) -> (r: bool)
    ensures
        r == ((k as int) % 2 == 0),
{
    if k >= 0 {
        (k as u64) % 2 == 0
    } else {
        let m = abs_mag(k);
        let q = m / 2;
        let rem = m % 2;
        proof {
            lemma_fundamental_div_mod(m as int, 2);
            if rem == 0 {
                lemma_fundamental_div_mod_converse(k as int, 2, -(q as int), 0);
            } else {
                lemma_fundamental_div_mod_converse(k as int, 2, -(q as int) - 1, 1);
            }
        }
        rem == 0
    }
}

/// Shorthand for building a scalar from an in-range raw value in specs.
pub open spec fn fxs(v: int) -> Fx {
    Fx { raw: v as i64 }
}

/// Scalar-level spec results of the arithmetic operations.
pub open spec fn fx_add(a: Fx, b: Fx) -> Fx {
    fxs(fx_add_int(a@, b@))
}

pub open spec fn fx_sub(a: Fx, b: Fx) -> Fx {
    fxs(fx_sub_int(a@, b@))
}

pub open spec fn fx_neg(a: Fx) -> Fx {
    fxs(fx_neg_int(a@))
}

pub open spec fn fx_mul(a: Fx, b: Fx) -> Fx {
    fxs(fx_mul_int(a@, b@))
}

pub open spec fn fx_div(a: Fx, b: Fx) -> Fx {
    fxs(fx_div_int(a@, b@))
}

pub open spec fn fx_sqrt(a: Fx) -> Fx {
    fxs(fx_sqrt_int(a@))
}

pub open spec fn fx_min_spec(a: Fx, b: Fx) -> Fx {
    if a@ <= b@ {
        a
    } else {
        b
    }
}

pub open spec fn fx_max_spec(a: Fx, b: Fx) -> Fx {
    if a@ >= b@ {
        a
    } else {
        b
    }
}

/// Raw result of raising a scalar to a whole-number power.
pub open spec fn fx_pow_int(b: int, n: nat) -> int
    decreases n,
{
    if n == 0 {
        SCALE as int
    } else {
        fx_mul_int(fx_pow_int(b, (n - 1) as nat), b)
    }
}

/// The whole-number exponent a scalar exponent denotes: its floor, at least 0.
pub open spec fn fx_exponent(e: Fx) -> nat {
    if fx_floor_q(e@) < 0 {
        0
    } else {
        fx_floor_q(e@) as nat
    }
}

pub open spec fn fx_powf(b: Fx, e: Fx) -> Fx {
    fxs(fx_pow_int(b@, fx_exponent(e)))
}

impl Fx {
    /// Raise to a whole-number power by repeated fixed-point multiplication.
    pub fn powi(self, n: u64) -> (r: Fx)
        ensures
            r@ == fx_pow_int(self@, n as nat),
    {
        let mut acc = Fx::one();
        let mut i: u64 = 0;
        while i < n
            invariant
                i <= n,
                acc@ == fx_pow_int(self@, i as nat),
            decreases n - i,
        {
            acc = acc.mul(self);
            i = i + 1;
        }
        acc
    }

    /// Raise to a scalar power, using the exponent's floor (at least 0).
    pub fn powf(self, e: Fx) -> (r: Fx)
        ensures
            r == fx_powf(self, e),
    {
        let k = e.floor_q();
        if k <= 0 {
            Fx::one()
        } else {
            self.powi(k as u64)
        }
    }
}

/// `isqrt_spec(n)` really is the rounded-down square root.
pub proof fn lemma_isqrt_bounds(n: int)
    requires
        n >= 0,
    ensures
        isqrt_spec(n) >= 0,
        isqrt_spec(n) * isqrt_spec(n) <= n,
        (isqrt_spec(n) + 1) * (isqrt_spec(n) + 1) > n,
    decreases n,
{
    if n == 0 {
    } else {
        lemma_isqrt_bounds(n - 1);
        let r = isqrt_spec(n - 1);
        let s = isqrt_spec(n);
        assert(r * r <= n - 1);
        assert((r + 1) * (r + 1) > n - 1);
        if (r + 1) * (r + 1) <= n {
            assert(s == r + 1);
            assert(s * s <= n) by (nonlinear_arith)
                requires
                    s == r + 1,
                    (r + 1) * (r + 1) <= n,
            ;
            assert((s + 1) * (s + 1) > n) by (nonlinear_arith)
                requires
                    s == r + 1,
                    r >= 0,
                    (r + 1) * (r + 1) > n - 1,
            ;
        } else {
            assert(s == r);
            assert(s * s <= n) by (nonlinear_arith)
                requires
                    s == r,
                    r * r <= n - 1,
            ;
            assert((s + 1) * (s + 1) > n) by (nonlinear_arith)
                requires
                    s == r,
                    !((r + 1) * (r + 1) <= n),
            ;
        }
    }
}

/// Any `r` with `r^2 <= n < (r+1)^2` equals `isqrt_spec(n)`.
pub proof fn lemma_isqrt_unique(n: int, r: int)
    requires
        n >= 0,
        r >= 0,
        r * r <= n,
        (r + 1) * (r + 1) > n,
    ensures
        r == isqrt_spec(n),
{
    lemma_isqrt_bounds(n);
    let s = isqrt_spec(n);
    if r < s {
        assert((r + 1) * (r + 1) <= s * s) by (nonlinear_arith)
            requires
                r >= 0,
                r + 1 <= s,
        ;
    }
    if s < r {
        assert((s + 1) * (s + 1) <= r * r) by (nonlinear_arith)
            requires
                s >= 0,
                s + 1 <= r,
        ;
    }
}

} // verus!
