//! Point light sources.

use vstd::prelude::*;

verus! {

use crate::color::{Color, color_approx};
use crate::tuple::{Tuple, tuple_approx};

/// A point light: a position and an intensity color.
#[derive(Clone, Copy, Debug, PartialEq, Eq, Structural)]
pub struct PointLight {
    pub intensity: Color,
    pub position: Tuple,
}

impl PointLight {
    pub fn new(position: Tuple, intensity: Color) -> (r: PointLight)
        ensures
            r == (PointLight { intensity, position }),
    {
        PointLight { position, intensity }
    }

    /// Tolerance-based equality on position and intensity.
    pub fn approx_eq(self, rhs: PointLight) -> (r: bool)
        ensures
            r == (tuple_approx(self.position, rhs.position) && color_approx(
                self.intensity,
                rhs.intensity,
            )),
    {
        self.position.approx_eq(rhs.position) && self.intensity.approx_eq(rhs.intensity)
    }
}

} // verus!
