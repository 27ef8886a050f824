//! A ray tracer core built on exact fixed-point arithmetic.
//!
//! Scalars are binary fixed-point numbers (an `i64` count of 2^-32 units)
//! with saturating, truncating semantics, so every geometric computation —
//! matrix inversion by cofactor expansion, ray/shape intersection, the
//! refractive-index stack, Phong lighting and the recursive reflect/refract
//! shading — has an exact, fully specified result.

pub mod camera;
pub mod canvas;
pub mod color;
pub mod fixed;
pub mod intersection;
pub mod light;
pub mod material;
pub mod matrix;
pub mod shape;
pub mod pattern;
pub mod ray;
pub mod transform;
pub mod world;
pub mod trig;
pub mod tuple;

use vstd::prelude::*;

verus! {

} // verus!
