//! The camera: maps pixels to world-space rays and drives the render loop.

use vstd::prelude::*;

verus! {

use crate::canvas::{Canvas, lemma_grid_index_injective, lemma_grid_index_in_range};
use crate::color::Color;
use crate::fixed::{Fx, fx_add, fx_sub, fx_mul, fx_div, fx_neg, clamp_raw, SCALE, TWO_RAW};
use crate::matrix::{Matrix, spec_det, spec_inverse_rep, spec_mul_tuple};
use crate::ray::Ray;
use crate::trig::fx_tan;
use crate::tuple::{Tuple, spec_sub, spec_normalize};
use crate::world::{World, spec_color_at};

/// Raw value of one half.
pub const HALF_ONE_RAW: i64 = 2147483648;

/// The recursion budget a render gives each pixel's ray.
pub const RENDER_DEPTH: usize = 5;

/// A camera: pixel counts, field of view, placement, and the derived canvas
/// geometry (the canvas plane sits at local z = -1).
#[derive(Clone, Debug)]
pub struct Camera {
    pub h_size: usize,
    pub v_size: usize,
    pub transform: Matrix,
    pub half_width: Fx,
    pub half_height: Fx,
    pub pixel_size: Fx,
}

/// The derived half-extents of the canvas: the half view (the tangent of
/// half the field of view) split by the aspect ratio.
pub open spec fn spec_half_extents(h_size: int, v_size: int, field_of_view: Fx) -> (Fx, Fx) {
    let half_view = fx_tan(fx_div(field_of_view, Fx { raw: TWO_RAW }));
    let aspect = fx_div(
        Fx { raw: clamp_raw(h_size * SCALE as int) as i64 },
        Fx { raw: clamp_raw(v_size * SCALE as int) as i64 },
    );
    if aspect@ >= SCALE as int {
        (half_view, fx_div(half_view, aspect))
    } else {
        (fx_mul(half_view, aspect), half_view)
    }
}

/// The world-space ray through the center of pixel `(px, py)` (assuming the
/// camera's transform is invertible).
pub open spec fn spec_ray_for_pixel(c: Camera, px: int, py: int) -> Ray {
    let half = Fx { raw: HALF_ONE_RAW };
    let x_offset = fx_mul(fx_add(Fx { raw: clamp_raw(px * SCALE as int) as i64 }, half), c.pixel_size);
    let y_offset = fx_mul(fx_add(Fx { raw: clamp_raw(py * SCALE as int) as i64 }, half), c.pixel_size);
    let world_x = fx_sub(c.half_width, x_offset);
    let world_y = fx_sub(c.half_height, y_offset);
    let inv = spec_inverse_rep(c.transform.rep(), 4);
    let pixel = spec_mul_tuple(
        inv,
        4,
        Tuple { x: world_x, y: world_y, z: Fx { raw: -4294967296i64 }, w: Fx { raw: SCALE } },
    );
    let origin = spec_mul_tuple(
        inv,
        4,
        Tuple { x: Fx { raw: 0 }, y: Fx { raw: 0 }, z: Fx { raw: 0 }, w: Fx { raw: SCALE } },
    );
    let direction = spec_normalize(spec_sub(pixel, origin));
    Ray { origin, direction }
}


/// The color a render writes at one pixel.
#[verifier::opaque]
pub open spec fn spec_pixel_color(w: World, c: Camera, x: int, y: int) -> Color {
    spec_color_at(w, spec_ray_for_pixel(c, x, y), RENDER_DEPTH as nat)
}

/// The pixel color named and spelled out.
pub proof fn lemma_pixel_color(w: World, c: Camera, x: int, y: int)
    ensures
        spec_pixel_color(w, c, x, y) == spec_color_at(
            w,
            spec_ray_for_pixel(c, x, y),
            RENDER_DEPTH as nat,
        ),
{
    reveal(spec_pixel_color);
}

impl Camera {
    pub open spec fn wf(self) -> bool {
        &&& self.transform.wf()
        &&& self.transform.size == 4
    }

    /// Whether the placement transform has a nonzero determinant.
    pub open spec fn invertible(self) -> bool {
        spec_det(self.transform.rep(), 4)@ != 0
    }

    /// Build a camera from pixel counts, a field of view in radians, and a
    /// placement transform.
    pub fn new(h_size: usize, v_size: usize, field_of_view: Fx, transform: Matrix) -> (c: Camera)
        requires
            1 <= h_size <= 0x4000,
            1 <= v_size <= 0x4000,
            transform.wf(),
            transform.size == 4,
        ensures
            c.wf(),
            c.h_size == h_size,
            c.v_size == v_size,
            c.transform == transform,
            (c.half_width, c.half_height) == spec_half_extents(
                h_size as int,
                v_size as int,
                field_of_view,
            ),
            c.pixel_size == fx_div(
                fx_mul(c.half_width, Fx { raw: TWO_RAW }),
                Fx { raw: clamp_raw(h_size as int * SCALE as int) as i64 },
            ),
    {
        let half_view = field_of_view.div(Fx { raw: TWO_RAW }).tan();
        let h_fx = Fx::from_int(h_size as i64);
        let v_fx = Fx::from_int(v_size as i64);
        let aspect = h_fx.div(v_fx);
        let half_width: Fx;
        let half_height: Fx;
        if aspect.raw >= SCALE {
            half_width = half_view;
            half_height = half_view.div(aspect);
        } else {
            half_width = half_view.mul(aspect);
            half_height = half_view;
        }
        let pixel_size = half_width.mul(Fx { raw: TWO_RAW }).div(h_fx);
        Camera { h_size, v_size, transform, half_width, half_height, pixel_size }
    }

    /// The world-space ray through the center of pixel `(px, py)`.  Fails
    /// exactly when the camera's transform is not invertible.
    pub fn ray_for_pixel(&self, px: usize, py: usize) -> (res: Result<Ray, ()>)
        requires
            self.wf(),
            px <= 0x4000,
            py <= 0x4000,
        ensures
            res is Err <==> !self.invertible(),
            res matches Ok(r) ==> r == spec_ray_for_pixel(*self, px as int, py as int),
    {
        let inv = match self.transform.inverse() {
            Ok(m) => m,
            Err(()) => {
                return Err(());
            },
        };
        let half = Fx { raw: HALF_ONE_RAW };
        let x_offset = Fx::from_int(px as i64).add(half).mul(self.pixel_size);
        let y_offset = Fx::from_int(py as i64).add(half).mul(self.pixel_size);
        let world_x = self.half_width.sub(x_offset);
        let world_y = self.half_height.sub(y_offset);
        let pixel = inv.mul_tuple(
            Tuple::point(world_x, world_y, Fx { raw: -4294967296i64 }),
        );
        let origin = inv.mul_tuple(Tuple::point(Fx { raw: 0 }, Fx { raw: 0 }, Fx { raw: 0 }));
        let direction = pixel.sub(origin).normalize();
        Ok(Ray { origin, direction })
    }

    /// Render a world: cast the ray for every pixel (row-major, y outer)
    /// and write the shaded color into the canvas.  Fails exactly when the
    /// camera's or some shape's transform is not invertible.
    #[verifier::rlimit(100)]
    #[verifier::spinoff_prover]
    pub fn render(&self, world: &World) -> (res: Result<Canvas, ()>)
        requires
            self.wf(),
            world.wf(),
            1 <= self.h_size <= 0x4000,
            1 <= self.v_size <= 0x4000,
        ensures
            res is Err <==> !(self.invertible() && world.invertible()),
            res matches Ok(image) ==> image.wf() && image.width == self.h_size && image.height
                == self.v_size && forall|x: int, y: int|
                0 <= x < self.h_size && 0 <= y < self.v_size ==> image.pixel(x, y)
                    == spec_color_at(
                    *world,
                    spec_ray_for_pixel(*self, x, y),
                    RENDER_DEPTH as nat,
                ),
    {
        if !self.transform.is_invertible() {
            return Err(());
        }
        if !world.check_invertible() {
            return Err(());
        }
        proof {
            assert(self.h_size * self.v_size <= 0x4000 * 0x4000) by (nonlinear_arith)
                requires
                    self.h_size <= 0x4000,
                    self.v_size <= 0x4000,
            ;
            assert(self.h_size * self.v_size <= usize::MAX);
        }
        let mut image = Canvas::new(self.h_size, self.v_size);
        let mut y: usize = 0;
        while y < self.v_size
            invariant
                self.wf(),
                world.wf(),
                self.invertible(),
                world.invertible(),
                1 <= self.h_size <= 0x4000,
                1 <= self.v_size <= 0x4000,
                y <= self.v_size,
                image.wf(),
                image.width == self.h_size,
                image.height == self.v_size,
                forall|xx: int, yy: int|
                    0 <= xx < self.h_size && 0 <= yy < y ==> image.pixel(xx, yy)
                        == spec_pixel_color(*world, *self, xx, yy),
            decreases self.v_size - y,
        {
            let mut x: usize = 0;
            while x < self.h_size
                invariant
                    self.wf(),
                    world.wf(),
                    self.invertible(),
                    world.invertible(),
                    1 <= self.h_size <= 0x4000,
                    1 <= self.v_size <= 0x4000,
                    y < self.v_size,
                    x <= self.h_size,
                    image.wf(),
                    image.width == self.h_size,
                    image.height == self.v_size,
                    forall|xx: int, yy: int|
                        0 <= xx < self.h_size && 0 <= yy < y ==> image.pixel(xx, yy)
                            == spec_pixel_color(*world, *self, xx, yy),
                    forall|xx: int|
                        0 <= xx < x ==> image.pixel(xx, y as int) == spec_pixel_color(
                            *world,
                            *self,
                            xx,
                            y as int,
                        ),
                decreases self.h_size - x,
            {
                let r = match self.ray_for_pixel(x, y) {
                    Ok(r) => r,
                    Err(()) => {
                        return Err(());
                    },
                };
                let color = match world.color_at(&r, RENDER_DEPTH) {
                    Ok(c) => c,
                    Err(()) => {
                        return Err(());
                    },
                };
                let ghost old_image = image;
                image.write_pixel(x, y, color);
                proof {
                    assert forall|xx: int, yy: int|
                        0 <= xx < self.h_size && 0 <= yy < y implies image.pixel(xx, yy)
                        == spec_pixel_color(*world, *self, xx, yy) by {
                        assert(image.pixel(xx, yy) == old_image.pixel(xx, yy));
                    }
                    assert forall|xx: int| 0 <= xx < x implies image.pixel(xx, y as int)
                        == spec_pixel_color(*world, *self, xx, y as int) by {
                        assert(image.pixel(xx, y as int) == old_image.pixel(xx, y as int));
                    }
                    lemma_pixel_color(*world, *self, x as int, y as int);
                    assert(image.pixel(x as int, y as int) == spec_pixel_color(*world, *self, x as int, y as int));
                }
                x = x + 1;
            }
            y = y + 1;
        }
        proof {
            assert forall|x: int, y: int|
                0 <= x < self.h_size && 0 <= y < self.v_size implies image.pixel(x, y)
                == spec_color_at(
                *world,
                spec_ray_for_pixel(*self, x, y),
                RENDER_DEPTH as nat,
            ) by {
                lemma_pixel_color(*world, *self, x, y);
            }
        }
        Ok(image)
    }
}

/// Build a camera.
pub fn camera(h_size: usize, v_size: usize, field_of_view: Fx, transform: Matrix) -> (c: Camera)
    requires
        1 <= h_size <= 0x4000,
        1 <= v_size <= 0x4000,
        transform.wf(),
        transform.size == 4,
    ensures
        c.wf(),
        c.h_size == h_size,
        c.v_size == v_size,
        c.transform == transform,
        (c.half_width, c.half_height) == spec_half_extents(
            h_size as int,
            v_size as int,
            field_of_view,
        ),
        c.pixel_size == fx_div(
            fx_mul(c.half_width, Fx { raw: TWO_RAW }),
            Fx { raw: clamp_raw(h_size as int * SCALE as int) as i64 },
        ),
{
    Camera::new(h_size, v_size, field_of_view, transform)
}

} // verus!
