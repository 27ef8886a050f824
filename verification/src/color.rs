//! RGB colors with componentwise fixed-point arithmetic.

use vstd::prelude::*;

verus! {

use crate::fixed::{Fx, fx_add, fx_sub, fx_mul, iabs, SCALE};

/// Color channels differing by at most about 1e-4 count as equal.
pub const EPS_COLOR_RAW: i64 = 429497;

/// An RGB color; components are nominally in 0..1 but are not clamped.
#[derive(Clone, Copy, Debug, PartialEq, Eq, Structural)]
pub struct Color(pub Fx, pub Fx, pub Fx);

pub open spec fn spec_color_add(a: Color, b: Color) -> Color {
    Color(fx_add(a.0, b.0), fx_add(a.1, b.1), fx_add(a.2, b.2))
}

pub open spec fn spec_color_sub(a: Color, b: Color) -> Color {
    Color(fx_sub(a.0, b.0), fx_sub(a.1, b.1), fx_sub(a.2, b.2))
}

/// Hadamard (componentwise) product.
pub open spec fn spec_color_mul(a: Color, b: Color) -> Color {
    Color(fx_mul(a.0, b.0), fx_mul(a.1, b.1), fx_mul(a.2, b.2))
}

pub open spec fn spec_color_scale(a: Color, s: Fx) -> Color {
    Color(fx_mul(a.0, s), fx_mul(a.1, s), fx_mul(a.2, s))
}

pub open spec fn spec_black() -> Color {
    Color(Fx { raw: 0 }, Fx { raw: 0 }, Fx { raw: 0 })
}

pub open spec fn spec_white() -> Color {
    Color(Fx { raw: SCALE }, Fx { raw: SCALE }, Fx { raw: SCALE })
}

/// Componentwise tolerance equality, within about 1e-4.
pub open spec fn color_approx(a: Color, b: Color) -> bool {
    &&& iabs(a.0@ - b.0@) < EPS_COLOR_RAW as int
    &&& iabs(a.1@ - b.1@) < EPS_COLOR_RAW as int
    &&& iabs(a.2@ - b.2@) < EPS_COLOR_RAW as int
}

impl Color {
    pub fn new(r: Fx, g: Fx, b: Fx) -> (c: Color)
        ensures
            c == Color(r, g, b),
    {
        Color(r, g, b)
    }

    pub fn black() -> (c: Color)
        ensures
            c == spec_black(),
    {
        Color(Fx { raw: 0 }, Fx { raw: 0 }, Fx { raw: 0 })
    }

    pub fn white() -> (c: Color)
        ensures
            c == spec_white(),
    {
        Color(Fx { raw: SCALE }, Fx { raw: SCALE }, Fx { raw: SCALE })
    }

    pub fn add(self, rhs: Color) -> (r: Color)
        ensures
            r == spec_color_add(self, rhs),
    {
        Color(self.0.add(rhs.0), self.1.add(rhs.1), self.2.add(rhs.2))
    }

    pub fn sub(self, rhs: Color) -> (r: Color)
        ensures
            r == spec_color_sub(self, rhs),
    {
        Color(self.0.sub(rhs.0), self.1.sub(rhs.1), self.2.sub(rhs.2))
    }

    /// Hadamard (componentwise) product.
    pub fn mul(self, rhs: Color) -> (r: Color)
        ensures
            r == spec_color_mul(self, rhs),
    {
        Color(self.0.mul(rhs.0), self.1.mul(rhs.1), self.2.mul(rhs.2))
    }

    pub fn scale(self, s: Fx) -> (r: Color)
        ensures
            r == spec_color_scale(self, s),
    {
        Color(self.0.mul(s), self.1.mul(s), self.2.mul(s))
    }

    /// Tolerance-based equality, within about 1e-4 per component.
    pub fn approx_eq(self, rhs: Color) -> (r: bool)
        ensures
            r == color_approx(self, rhs),
    {
        channel_close(self.0, rhs.0) && channel_close(self.1, rhs.1) && channel_close(
            self.2,
            rhs.2,
        )
    }
}

/// Whether two channels differ by less than the color tolerance.
fn channel_close(a: Fx, b: Fx) -> (r: bool)
    ensures
        r == (iabs(a@ - b@) < EPS_COLOR_RAW as int),
{
    let d: i128 = (a.raw as i128) - (b.raw as i128);
    let m: i128 = if d < 0 {
        -d
    } else {
        d
    };
    m < EPS_COLOR_RAW as i128
}

} // verus!
