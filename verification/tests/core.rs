//! Scenario tests for the algebra, shapes and intersection engine.

use ray_tracer::color::Color;
use ray_tracer::fixed::Fx;
use ray_tracer::intersection::{hit, intersection, prepare, sort_intersections, Intersection};
use ray_tracer::matrix::Matrix;
use ray_tracer::ray::ray;
use ray_tracer::shape::{glass_sphere, Shape};
use ray_tracer::transform::{rotate_y, rotate_z, scale, shear, translate};
use ray_tracer::tuple::Tuple;

fn fx(v: f64) -> Fx {
    Fx::from_raw((v * 4294967296.0).round() as i64)
}

fn point(x: f64, y: f64, z: f64) -> Tuple {
    Tuple::point(fx(x), fx(y), fx(z))
}

fn vector(x: f64, y: f64, z: f64) -> Tuple {
    Tuple::vector(fx(x), fx(y), fx(z))
}

fn color(r: f64, g: f64, b: f64) -> Color {
    Color::new(fx(r), fx(g), fx(b))
}

fn m4(rows: [[f64; 4]; 4]) -> Matrix {
    let mut out = [[fx(0.0); 4]; 4];
    for r in 0..4 {
        for c in 0..4 {
            out[r][c] = fx(rows[r][c]);
        }
    }
    Matrix::from4(out)
}

fn m3(rows: [[f64; 3]; 3]) -> Matrix {
    let mut out = [[fx(0.0); 3]; 3];
    for r in 0..3 {
        for c in 0..3 {
            out[r][c] = fx(rows[r][c]);
        }
    }
    Matrix::from3(out)
}

fn m2(rows: [[f64; 2]; 2]) -> Matrix {
    let mut out = [[fx(0.0); 2]; 2];
    for r in 0..2 {
        for c in 0..2 {
            out[r][c] = fx(rows[r][c]);
        }
    }
    Matrix::from2(out)
}

fn approx(a: Fx, b: f64) -> bool {
    a.approx_eq(fx(b))
}

#[test]
fn w1_for_point() {
    let t = Tuple::new(fx(1.0), fx(1.0), fx(1.0), fx(1.0));
    assert!(t.is_point());
}

#[test]
fn w0_for_point() {
    let t = Tuple::new(fx(1.0), fx(1.0), fx(1.0), fx(0.0));
    assert!(t.is_vector());
}

#[test]
fn point_creates_tuple_with_w1() {
    assert!(point(1.0, 1.0, 1.0).is_point());
}

#[test]
fn vector_creates_tuple_with_w0() {
    assert!(vector(1.0, 1.0, 1.0).is_vector());
}

#[test]
fn equivalent_tuples_are_equal() {
    assert!(vector(1.0, 1.0, 1.0).approx_eq(vector(1.0, 1.0, 1.0)));
}

#[test]
fn add_tuples() {
    let a = Tuple::new(fx(1.0), fx(1.0), fx(0.0), fx(0.0));
    let b = Tuple::new(fx(1.0), fx(1.0), fx(0.0), fx(1.0));
    assert!(a.add(b).approx_eq(Tuple::new(fx(2.0), fx(2.0), fx(0.0), fx(1.0))));
}

#[test]
fn subtract_two_points() {
    assert!(point(1.0, 1.0, 1.0).sub(point(2.0, 2.0, 2.0)).approx_eq(vector(-1.0, -1.0, -1.0)));
}

#[test]
fn subtract_vector_from_point_is_point() {
    assert!(point(1.0, 1.0, 1.0).sub(vector(1.0, 1.0, 1.0)).is_point());
}

#[test]
fn subtract_vector_from_vector_is_vector() {
    assert!(vector(1.0, 1.0, 1.0).sub(vector(2.0, 2.0, 1.0)).is_vector());
}

#[test]
fn negate_tuple() {
    let t = Tuple::new(fx(1.0), fx(1.0), fx(1.0), fx(1.0));
    assert!(t.neg().approx_eq(Tuple::new(fx(-1.0), fx(-1.0), fx(-1.0), fx(-1.0))));
}

#[test]
fn multiply_tuple_by_scalar() {
    let t = Tuple::new(fx(1.0), fx(1.0), fx(1.0), fx(1.0));
    assert!(t.scale(fx(2.0)).approx_eq(Tuple::new(fx(2.0), fx(2.0), fx(2.0), fx(2.0))));
}

#[test]
fn multiply_tuple_by_fraction() {
    let t = Tuple::new(fx(2.0), fx(2.0), fx(2.0), fx(2.0));
    assert!(t.scale(fx(0.5)).approx_eq(Tuple::new(fx(1.0), fx(1.0), fx(1.0), fx(1.0))));
}

#[test]
fn divide_tuple_by_scalar() {
    let t = Tuple::new(fx(2.0), fx(2.0), fx(2.0), fx(2.0));
    assert!(t.div_scalar(fx(2.0)).approx_eq(Tuple::new(fx(1.0), fx(1.0), fx(1.0), fx(1.0))));
}

#[test]
fn magnitude_of_vectors() {
    assert!(approx(vector(0.0, 1.0, 0.0).magnitude(), 1.0));
    assert!(approx(vector(0.0, 0.0, 1.0).magnitude(), 1.0));
    assert!(approx(vector(1.0, 2.0, 3.0).magnitude(), 14.0f64.sqrt()));
    assert!(approx(vector(-1.0, -2.0, -3.0).magnitude(), 14.0f64.sqrt()));
}

#[test]
fn normalize_vectors() {
    assert!(vector(4.0, 0.0, 0.0).normalize().approx_eq(vector(1.0, 0.0, 0.0)));
    let s = 14.0f64.sqrt();
    assert!(vector(1.0, 2.0, 3.0).normalize().approx_eq(vector(1.0 / s, 2.0 / s, 3.0 / s)));
}

#[test]
fn normalized_vector_has_magnitude_one() {
    assert!(approx(vector(1.0, 2.0, 3.0).normalize().magnitude(), 1.0));
    assert!(approx(vector(-4.4, 0.2, 11.9).normalize().magnitude(), 1.0));
}

#[test]
fn dot_product_of_two_tuples() {
    assert!(approx(vector(1.0, 2.0, 3.0).dot(vector(2.0, 3.0, 4.0)), 20.0));
}

#[test]
fn cross_product_of_two_vectors() {
    let a = vector(1.0, 2.0, 3.0);
    let b = vector(2.0, 3.0, 4.0);
    assert!(a.cross(b).approx_eq(vector(-1.0, 2.0, -1.0)));
    assert!(b.cross(a).approx_eq(vector(1.0, -2.0, 1.0)));
}

#[test]
fn reflect_vector_at_45_degrees() {
    let v = vector(1.0, -1.0, 0.0);
    let n = vector(0.0, 1.0, 0.0);
    assert!(v.reflect(n).approx_eq(vector(1.0, 1.0, 0.0)));
}

#[test]
fn construct_and_inspect_matrix() {
    let m = m4([
        [1.0, 2.0, 3.0, 4.0],
        [5.5, 6.5, 7.5, 8.5],
        [9.0, 10.0, 11.0, 12.0],
        [13.5, 14.5, 15.5, 16.5],
    ]);
    assert!(approx(m.at(0, 0), 1.0));
    assert!(approx(m.at(0, 3), 4.0));
    assert!(approx(m.at(1, 0), 5.5));
    assert!(approx(m.at(1, 2), 7.5));
    assert!(approx(m.at(3, 0), 13.5));
    assert!(approx(m.at(3, 2), 15.5));
}

#[test]
fn multiplying_matrices() {
    let m1 = m4([
        [1.0, 2.0, 3.0, 4.0],
        [5.0, 6.0, 7.0, 8.0],
        [9.0, 8.0, 7.0, 6.0],
        [5.0, 4.0, 3.0, 2.0],
    ]);
    let m2 = m4([
        [-2.0, 1.0, 2.0, 3.0],
        [3.0, 2.0, 1.0, -1.0],
        [4.0, 3.0, 6.0, 5.0],
        [1.0, 2.0, 7.0, 8.0],
    ]);
    let res = m4([
        [20.0, 22.0, 50.0, 48.0],
        [44.0, 54.0, 114.0, 108.0],
        [40.0, 58.0, 110.0, 102.0],
        [16.0, 26.0, 46.0, 42.0],
    ]);
    assert!(m1.mul_mat(&m2).approx_eq(&res));
}

#[test]
fn multiply_matrix_by_tuple() {
    let m = m4([
        [1.0, 2.0, 3.0, 4.0],
        [2.0, 4.0, 4.0, 2.0],
        [8.0, 6.0, 4.0, 1.0],
        [0.0, 0.0, 0.0, 1.0],
    ]);
    let t = Tuple::new(fx(1.0), fx(2.0), fx(3.0), fx(1.0));
    assert!(m.mul_tuple(t).approx_eq(Tuple::new(fx(18.0), fx(24.0), fx(33.0), fx(1.0))));
}

#[test]
fn multiply_matrix_by_identity_matrix() {
    let m = m4([
        [1.0, 2.0, 3.0, 4.0],
        [2.0, 4.0, 4.0, 2.0],
        [8.0, 6.0, 4.0, 1.0],
        [0.0, 0.0, 0.0, 1.0],
    ]);
    assert!(m.mul_mat(&Matrix::identity()).approx_eq(&m));
}

#[test]
fn transpose_matrix() {
    let m = m4([
        [0.0, 9.0, 3.0, 0.0],
        [9.0, 8.0, 0.0, 8.0],
        [1.0, 8.0, 5.0, 3.0],
        [0.0, 0.0, 5.0, 8.0],
    ]);
    let t = m4([
        [0.0, 9.0, 1.0, 0.0],
        [9.0, 8.0, 8.0, 0.0],
        [3.0, 0.0, 5.0, 5.0],
        [0.0, 8.0, 3.0, 8.0],
    ]);
    assert!(m.transpose().approx_eq(&t));
}

#[test]
fn calculate_determinant_of_2x2_matrix() {
    assert!(approx(m2([[1.0, 5.0], [-3.0, 2.0]]).determinant(), 17.0));
}

#[test]
fn submatrix_of_3x3_matrix_is_2x2_matrix() {
    let m = m3([[1.0, 5.0, 0.0], [-3.0, 2.0, 7.0], [0.0, 6.0, -3.0]]);
    assert!(m.submatrix(0, 2).approx_eq(&m2([[-3.0, 2.0], [0.0, 6.0]])));
}

#[test]
fn calculate_minor_of_3x3_matrix() {
    let m = m3([[3.0, 5.0, 0.0], [2.0, -1.0, -7.0], [6.0, -1.0, 5.0]]);
    assert!(approx(m.minor(1, 0), 25.0));
}

#[test]
fn cofactor_of_3x3_matrix() {
    let m = m3([[3.0, 5.0, 0.0], [2.0, -1.0, -7.0], [6.0, -1.0, 5.0]]);
    assert!(approx(m.minor(0, 0), -12.0));
    assert!(approx(m.cofactor(0, 0), -12.0));
    assert!(approx(m.minor(1, 0), 25.0));
    assert!(approx(m.cofactor(1, 0), -25.0));
}

#[test]
fn determinant_of_3x3_matrix() {
    let m = m3([[1.0, 2.0, 6.0], [-5.0, 8.0, -4.0], [2.0, 6.0, 4.0]]);
    assert!(approx(m.cofactor(0, 0), 56.0));
    assert!(approx(m.cofactor(0, 1), 12.0));
    assert!(approx(m.cofactor(0, 2), -46.0));
    assert!(approx(m.determinant(), -196.0));
}

#[test]
fn determinant_of_4x4_matrix() {
    let m = m4([
        [-2.0, -8.0, 3.0, 5.0],
        [-3.0, 1.0, 7.0, 3.0],
        [1.0, 2.0, -9.0, 6.0],
        [-6.0, 7.0, 7.0, -9.0],
    ]);
    assert!(approx(m.cofactor(0, 0), 690.0));
    assert!(approx(m.cofactor(0, 1), 447.0));
    assert!(approx(m.cofactor(0, 2), 210.0));
    assert!(approx(m.cofactor(0, 3), 51.0));
    assert!(approx(m.determinant(), -4071.0));
}

#[test]
fn is_invertible() {
    let yes = m4([
        [6.0, 4.0, 4.0, 4.0],
        [5.0, 5.0, 7.0, 6.0],
        [4.0, -9.0, 3.0, -7.0],
        [9.0, 1.0, 7.0, -6.0],
    ]);
    let no = m4([
        [-4.0, 2.0, -2.0, 3.0],
        [9.0, 6.0, 2.0, 6.0],
        [0.0, -5.0, 1.0, -5.0],
        [0.0, 0.0, 0.0, 0.0],
    ]);
    assert!(yes.is_invertible());
    assert!(!no.is_invertible());
}

#[test]
fn calculate_inverse() {
    let a = m4([
        [-5.0, 2.0, 6.0, -8.0],
        [1.0, -5.0, 1.0, 8.0],
        [7.0, 7.0, -6.0, -7.0],
        [1.0, -3.0, 7.0, 4.0],
    ]);
    let b = a.inverse().unwrap();
    assert!(approx(a.determinant(), 532.0));
    assert!(approx(a.cofactor(2, 3), -160.0));
    assert!(approx(b.at(3, 2), -160.0 / 532.0));
    assert!(approx(a.cofactor(3, 2), 105.0));
    assert!(approx(b.at(2, 3), 105.0 / 532.0));
    let expected = m4([
        [0.21805, 0.45113, 0.24060, -0.04511],
        [-0.80827, -1.45677, -0.44361, 0.52068],
        [-0.07895, -0.22368, -0.05263, 0.19737],
        [-0.52256, -0.81391, -0.30075, 0.30639],
    ]);
    assert!(b.approx_eq(&expected));
}

#[test]
fn multiple_matrix_by_its_inverse() {
    let a = m4([
        [3.0, -9.0, 7.0, 3.0],
        [3.0, -8.0, 2.0, -9.0],
        [-4.0, 4.0, 4.0, 1.0],
        [-6.0, 5.0, -1.0, 1.0],
    ]);
    let b = m4([
        [8.0, 2.0, 2.0, 2.0],
        [3.0, -1.0, 7.0, 0.0],
        [7.0, 0.0, 5.0, 4.0],
        [6.0, -2.0, 0.0, 5.0],
    ]);
    let c = a.mul_mat(&b);
    assert!(c.mul_mat(&b.inverse().unwrap()).approx_eq(&a));
}

#[test]
fn matrix_times_its_inverse_is_identity() {
    let a = m4([
        [3.0, -9.0, 7.0, 3.0],
        [3.0, -8.0, 2.0, -9.0],
        [-4.0, 4.0, 4.0, 1.0],
        [-6.0, 5.0, -1.0, 1.0],
    ]);
    assert!(a.mul_mat(&a.inverse().unwrap()).approx_eq(&Matrix::identity()));
}

#[test]
fn multiply_point_by_translation() {
    let t = translate(fx(5.0), fx(-3.0), fx(2.0));
    assert!(t.mul_tuple(point(-3.0, 4.0, 5.0)).approx_eq(point(2.0, 1.0, 7.0)));
}

#[test]
fn multiply_point_by_inverse_of_translation() {
    let t = translate(fx(5.0), fx(-3.0), fx(2.0));
    assert!(t.inverse().unwrap().mul_tuple(point(-3.0, 4.0, 5.0)).approx_eq(point(-8.0, 7.0, 3.0)));
}

#[test]
fn translation_doesnt_affect_vectors() {
    let t = translate(fx(5.0), fx(-3.0), fx(2.0));
    let v = vector(-3.0, 4.0, 5.0);
    assert!(t.mul_tuple(v).approx_eq(v));
}

#[test]
fn apply_scale_to_point() {
    let s = scale(fx(2.0), fx(3.0), fx(4.0));
    assert!(s.mul_tuple(point(-4.0, 6.0, 8.0)).approx_eq(point(-8.0, 18.0, 32.0)));
}

#[test]
fn rotate_point_around_z_axis() {
    let quarter = rotate_z(fx(std::f64::consts::PI / 2.0));
    assert!(quarter.mul_tuple(point(0.0, 1.0, 0.0)).approx_eq(point(-1.0, 0.0, 0.0)));
}

#[test]
fn shear_moves_x_in_proportion_to_y() {
    let s = shear(fx(1.0), fx(0.0), fx(0.0), fx(0.0), fx(0.0), fx(0.0));
    assert!(s.mul_tuple(point(2.0, 3.0, 4.0)).approx_eq(point(5.0, 3.0, 4.0)));
}

#[test]
fn transform_chain_inverse_round_trip() {
    let m = Matrix::identity()
        .translate(fx(1.0), fx(-2.0), fx(3.0))
        .scale(fx(2.0), fx(2.0), fx(2.0))
        .rotate_y(fx(0.5))
        .shear(fx(0.5), fx(0.0), fx(0.0), fx(0.25), fx(0.0), fx(0.0));
    let p = point(1.5, -0.5, 2.0);
    let q = m.mul_tuple(p);
    let back = m.inverse().unwrap().mul_tuple(q);
    assert!(back.approx_eq(p));
}

#[test]
fn create_and_query_ray() {
    let r = ray(point(1.0, 2.0, 3.0), vector(4.0, 5.0, 6.0));
    assert!(r.origin().approx_eq(point(1.0, 2.0, 3.0)));
    assert!(r.direction().approx_eq(vector(4.0, 5.0, 6.0)));
}

#[test]
fn compute_point_from_distance() {
    let r = ray(point(2.0, 3.0, 4.0), vector(1.0, 0.0, 0.0));
    assert!(r.position(fx(0.0)).approx_eq(point(2.0, 3.0, 4.0)));
    assert!(r.position(fx(-1.0)).approx_eq(point(1.0, 3.0, 4.0)));
    assert!(r.position(fx(2.5)).approx_eq(point(4.5, 3.0, 4.0)));
}

#[test]
fn translate_a_ray() {
    let r = ray(point(1.0, 2.0, 3.0), vector(0.0, 1.0, 0.0));
    let r2 = r.transform(&translate(fx(3.0), fx(4.0), fx(5.0)));
    assert!(r2.origin().approx_eq(point(4.0, 6.0, 8.0)));
    assert!(r2.direction().approx_eq(vector(0.0, 1.0, 0.0)));
}

#[test]
fn scale_a_ray() {
    let r = ray(point(1.0, 2.0, 3.0), vector(0.0, 1.0, 0.0));
    let r2 = r.transform(&scale(fx(2.0), fx(3.0), fx(4.0)));
    assert!(r2.origin().approx_eq(point(2.0, 6.0, 12.0)));
    assert!(r2.direction().approx_eq(vector(0.0, 3.0, 0.0)));
}

#[test]
fn ray_intersects_sphere_at_two_points() {
    let r = ray(point(0.0, 0.0, -5.0), vector(0.0, 0.0, 1.0));
    let s = Shape::sphere();
    let xs = s.intersect(&r).unwrap();
    assert!(xs.len() == 2);
    assert!(approx(xs[0], 4.0));
    assert!(approx(xs[1], 6.0));
}

#[test]
fn ray_intersects_sphere_at_tangent() {
    let r = ray(point(0.0, 1.0, -5.0), vector(0.0, 0.0, 1.0));
    let xs = Shape::sphere().intersect(&r).unwrap();
    assert!(xs.len() == 2);
    assert!(approx(xs[0], 5.0));
    assert!(approx(xs[1], 5.0));
}

#[test]
fn ray_misses_sphere() {
    let r = ray(point(0.0, 2.0, -5.0), vector(0.0, 0.0, 1.0));
    assert!(Shape::sphere().intersect(&r).unwrap().is_empty());
}

#[test]
fn ray_originates_inside_sphere() {
    let r = ray(point(0.0, 0.0, 0.0), vector(0.0, 0.0, 1.0));
    let xs = Shape::sphere().intersect(&r).unwrap();
    assert!(approx(xs[0], -1.0));
    assert!(approx(xs[1], 1.0));
}

#[test]
fn sphere_is_behind_ray() {
    let r = ray(point(0.0, 0.0, 5.0), vector(0.0, 0.0, 1.0));
    let xs = Shape::sphere().intersect(&r).unwrap();
    assert!(approx(xs[0], -6.0));
    assert!(approx(xs[1], -4.0));
}

#[test]
fn intersect_scaled_sphere_with_ray() {
    let r = ray(point(0.0, 0.0, -5.0), vector(0.0, 0.0, 1.0));
    let mut s = Shape::sphere();
    s.set_transform(scale(fx(2.0), fx(2.0), fx(2.0)));
    let xs = s.intersect(&r).unwrap();
    assert!(xs.len() == 2);
    assert!(approx(xs[0], 3.0));
    assert!(approx(xs[1], 7.0));
}

#[test]
fn intersect_translated_sphere_with_ray() {
    let r = ray(point(0.0, 0.0, -5.0), vector(0.0, 0.0, 1.0));
    let mut s = Shape::sphere();
    s.set_transform(translate(fx(5.0), fx(0.0), fx(0.0)));
    assert!(s.intersect(&r).unwrap().is_empty());
}

#[test]
fn normal_on_sphere_at_point_on_x_axis() {
    let n = Shape::sphere().normal_at(point(1.0, 0.0, 0.0)).unwrap();
    assert!(n.approx_eq(vector(1.0, 0.0, 0.0)));
}

#[test]
fn normal_on_sphere_at_a_nonaxial_point() {
    let k = 3.0f64.sqrt() / 3.0;
    let n = Shape::sphere().normal_at(point(k, k, k)).unwrap();
    assert!(n.approx_eq(vector(k, k, k)));
}

#[test]
fn normal_is_normalised_vector() {
    let k = 3.0f64.sqrt() / 3.0;
    let n = Shape::sphere().normal_at(point(k, k, k)).unwrap();
    assert!(n.approx_eq(n.normalize()));
}

#[test]
fn compute_normal_on_translated_sphere() {
    let mut s = Shape::sphere();
    s.set_transform(translate(fx(0.0), fx(1.0), fx(0.0)));
    let n = s.normal_at(point(0.0, 1.70711, -0.70711)).unwrap();
    assert!(n.approx_eq(vector(0.0, 0.70711, -0.70711)));
}

#[test]
fn compute_normal_on_transformed_sphere() {
    let mut s = Shape::sphere();
    let m = scale(fx(1.0), fx(0.5), fx(1.0)).mul_mat(&rotate_z(fx(std::f64::consts::PI / 5.0)));
    s.set_transform(m);
    let k = 2.0f64.sqrt() / 2.0;
    let n = s.normal_at(point(0.0, k, -k)).unwrap();
    assert!(n.approx_eq(vector(0.0, 0.97014, -0.24254)));
}

#[test]
fn helper_for_glass_sphere() {
    let s = glass_sphere();
    assert!(approx(s.material.refractive_index, 1.5));
    assert!(approx(s.material.transparency, 1.0));
}

#[test]
fn normal_of_plane_is_constant() {
    let p = Shape::plane();
    assert!(p.normal_at(point(0.0, 0.0, 0.0)).unwrap().approx_eq(vector(0.0, 1.0, 0.0)));
    assert!(p.normal_at(point(10.0, 0.0, -10.0)).unwrap().approx_eq(vector(0.0, 1.0, 0.0)));
    assert!(p.normal_at(point(-5.0, 0.0, 150.0)).unwrap().approx_eq(vector(0.0, 1.0, 0.0)));
}

#[test]
fn intersect_with_ray_parallel_to_plane() {
    let r = ray(point(0.0, 10.0, 0.0), vector(0.0, 0.0, 1.0));
    assert!(Shape::plane().intersect(&r).unwrap().is_empty());
}

#[test]
fn ray_intersects_plane_from_above() {
    let r = ray(point(0.0, 1.0, 0.0), vector(0.0, -1.0, 0.0));
    let xs = Shape::plane().intersect(&r).unwrap();
    assert!(xs.len() == 1);
    assert!(approx(xs[0], 1.0));
}

#[test]
fn ray_intersects_plane_from_below() {
    let r = ray(point(0.0, -1.0, 0.0), vector(0.0, 1.0, 0.0));
    let xs = Shape::plane().intersect(&r).unwrap();
    assert!(xs.len() == 1);
    assert!(approx(xs[0], 1.0));
}

#[test]
fn ray_intersects_cube() {
    let cases: [(f64, f64, f64, f64, f64, f64, f64, f64); 7] = [
        (5.0, 0.5, 0.0, -1.0, 0.0, 0.0, 4.0, 6.0),
        (-5.0, 0.5, 0.0, 1.0, 0.0, 0.0, 4.0, 6.0),
        (0.5, 5.0, 0.0, 0.0, -1.0, 0.0, 4.0, 6.0),
        (0.5, -5.0, 0.0, 0.0, 1.0, 0.0, 4.0, 6.0),
        (0.5, 0.0, 5.0, 0.0, 0.0, -1.0, 4.0, 6.0),
        (0.5, 0.0, -5.0, 0.0, 0.0, 1.0, 4.0, 6.0),
        (0.0, 0.5, 0.0, 0.0, 0.0, 1.0, -1.0, 1.0),
    ];
    for (px, py, pz, dx, dy, dz, t1, t2) in cases {
        let r = ray(point(px, py, pz), vector(dx, dy, dz));
        let xs = Shape::cube().intersect(&r).unwrap();
        assert!(xs.len() == 2);
        assert!(approx(xs[0], t1));
        assert!(approx(xs[1], t2));
    }
}

#[test]
fn ray_misses_cube() {
    let r = ray(point(-2.0, 0.0, 0.0), vector(0.2673, 0.5345, 0.8018));
    assert!(Shape::cube().intersect(&r).unwrap().is_empty());
}

#[test]
fn an_intersection_encapsulates_t_and_object() {
    let i = intersection(fx(3.5), 0);
    assert!(approx(i.t, 3.5));
    assert!(i.object == 0);
}

#[test]
fn the_hit_when_all_intersections_have_positive_t() {
    let xs = vec![intersection(fx(2.0), 0), intersection(fx(1.0), 0)];
    let i = hit(&xs).unwrap();
    assert!(approx(i.t, 1.0));
}

#[test]
fn the_hit_when_some_intersections_have_negative_t() {
    let xs = vec![intersection(fx(1.0), 0), intersection(fx(-1.0), 0)];
    let i = hit(&xs).unwrap();
    assert!(approx(i.t, 1.0));
}

#[test]
fn the_hit_when_all_intersections_have_negative_t() {
    let xs = vec![intersection(fx(-2.0), 0), intersection(fx(-1.0), 0)];
    assert!(hit(&xs).is_none());
}

#[test]
fn the_hit_is_always_the_lowest_nonnegative_intersection() {
    let xs = vec![
        intersection(fx(5.0), 0),
        intersection(fx(7.0), 0),
        intersection(fx(-3.0), 0),
        intersection(fx(2.0), 0),
    ];
    let i = hit(&xs).unwrap();
    assert!(approx(i.t, 2.0));
}

#[test]
fn sorting_orders_by_t() {
    let xs = vec![intersection(fx(5.0), 0), intersection(fx(-3.0), 1), intersection(fx(2.0), 2)];
    let sorted = sort_intersections(&xs);
    assert!(approx(sorted[0].t, -3.0));
    assert!(approx(sorted[1].t, 2.0));
    assert!(approx(sorted[2].t, 5.0));
}

fn prepare_single(t: f64, objects: &Vec<Shape>, r: ray_tracer::ray::Ray) -> ray_tracer::intersection::ComputedIntersection {
    let xs: Vec<Intersection> = vec![intersection(fx(t), 0)];
    prepare(&xs, 0, &r, objects).unwrap()
}

#[test]
fn precompute_state_of_intersection() {
    let r = ray(point(0.0, 0.0, -5.0), vector(0.0, 0.0, 1.0));
    let objects = vec![Shape::sphere()];
    let comps = prepare_single(4.0, &objects, r);
    assert!(approx(comps.t, 4.0));
    assert!(comps.point.approx_eq(point(0.0, 0.0, -1.0)));
    assert!(comps.eye_v.approx_eq(vector(0.0, 0.0, -1.0)));
    assert!(comps.normal_v.approx_eq(vector(0.0, 0.0, -1.0)));
    assert!(!comps.is_inside);
}

#[test]
fn the_hit_when_intersection_occurs_on_inside() {
    let r = ray(point(0.0, 0.0, 0.0), vector(0.0, 0.0, 1.0));
    let objects = vec![Shape::sphere()];
    let comps = prepare_single(1.0, &objects, r);
    assert!(comps.point.approx_eq(point(0.0, 0.0, 1.0)));
    assert!(comps.eye_v.approx_eq(vector(0.0, 0.0, -1.0)));
    assert!(comps.normal_v.approx_eq(vector(0.0, 0.0, -1.0)));
    assert!(comps.is_inside);
}

#[test]
fn the_hit_should_offset_the_point() {
    let r = ray(point(0.0, 0.0, -5.0), vector(0.0, 0.0, 1.0));
    let mut s = Shape::sphere();
    s.set_transform(translate(fx(0.0), fx(0.0), fx(1.0)));
    let objects = vec![s];
    let comps = prepare_single(5.0, &objects, r);
    assert!(comps.over_point.z.raw < -ray_tracer::fixed::EPS_RAW / 2);
    assert!(comps.point.z.raw > comps.over_point.z.raw);
}

#[test]
fn under_point_is_offset_below_surface() {
    let r = ray(point(0.0, 0.0, -5.0), vector(0.0, 0.0, 1.0));
    let mut s = glass_sphere();
    s.set_transform(translate(fx(0.0), fx(0.0), fx(1.0)));
    let objects = vec![s];
    let comps = prepare_single(5.0, &objects, r);
    assert!(comps.under_point.z.raw > ray_tracer::fixed::EPS_RAW / 2);
    assert!(comps.point.z.raw < comps.under_point.z.raw);
}

#[test]
fn precompute_reflection_vector() {
    let shape = Shape::plane();
    let k = 2.0f64.sqrt();
    let r = ray(point(0.0, 1.0, -1.0), vector(0.0, -k / 2.0, k / 2.0));
    let objects = vec![shape];
    let comps = prepare_single(k, &objects, r);
    assert!(comps.reflect_v.approx_eq(vector(0.0, k / 2.0, k / 2.0)));
}

#[test]
fn find_n1_and_n2_at_various_intersections() {
    let mut a = glass_sphere();
    a.set_transform(scale(fx(2.0), fx(2.0), fx(2.0)));
    let mut b = glass_sphere();
    b.material.refractive_index = fx(2.0);
    b.set_transform(translate(fx(0.0), fx(0.0), fx(-0.25)));
    let mut c = glass_sphere();
    c.material.refractive_index = fx(2.5);
    c.set_transform(translate(fx(0.0), fx(0.0), fx(0.25)));
    let objects = vec![a, b, c];
    let r = ray(point(0.0, 0.0, -4.0), vector(0.0, 0.0, 1.0));
    let xs = vec![
        intersection(fx(2.0), 0),
        intersection(fx(2.75), 1),
        intersection(fx(3.25), 2),
        intersection(fx(4.75), 1),
        intersection(fx(5.25), 2),
        intersection(fx(6.0), 0),
    ];
    let expected = [
        (1.0, 1.5),
        (1.5, 2.0),
        (2.0, 2.5),
        (2.5, 2.5),
        (2.5, 1.5),
        (1.5, 1.0),
    ];
    for (i, (n1, n2)) in expected.iter().enumerate() {
        let comps = prepare(&xs, i, &r, &objects).unwrap();
        assert!(approx(comps.n1, *n1));
        assert!(approx(comps.n2, *n2));
    }
}

#[test]
fn schlick_approximation_with_total_internal_reflection() {
    let k = 2.0f64.sqrt() / 2.0;
    let objects = vec![glass_sphere()];
    let r = ray(point(0.0, 0.0, k), vector(0.0, 1.0, 0.0));
    let xs = vec![intersection(fx(-k), 0), intersection(fx(k), 0)];
    let comps = prepare(&xs, 1, &r, &objects).unwrap();
    let reflectance = comps.schlick();
    assert!(reflectance.raw == ray_tracer::fixed::SCALE);
}

#[test]
fn schlick_approximation_with_perpendicular_viewing_angle() {
    let objects = vec![glass_sphere()];
    let r = ray(point(0.0, 0.0, 0.0), vector(0.0, 1.0, 0.0));
    let xs = vec![intersection(fx(-1.0), 0), intersection(fx(1.0), 0)];
    let comps = prepare(&xs, 0, &r, &objects).unwrap();
    assert!(approx(comps.schlick(), 0.04));
}

#[test]
fn schlick_approximation_with_small_angle_and_n2_gt_n1() {
    let objects = vec![glass_sphere()];
    let r = ray(point(0.0, 0.99, -2.0), vector(0.0, 0.0, 1.0));
    let xs = vec![intersection(fx(1.8589), 0)];
    let comps = prepare(&xs, 0, &r, &objects).unwrap();
    assert!(approx(comps.schlick(), 0.48873));
}
