use render_core::Binary32;
use render_core::Mat3;
use render_core::Vec2;
use render_core::Vec3;

fn scalar(value: f32) -> Binary32 {
    Binary32::from_bits(value.to_bits())
}

fn number(value: Binary32) -> f32 {
    f32::from_bits(value.to_bits())
}

fn vec3(x: f32, y: f32, z: f32) -> Vec3 {
    Vec3::new(scalar(x), scalar(y), scalar(z))
}

fn counting() -> Mat3 {
    Mat3::new(
        scalar(1.0),
        scalar(2.0),
        scalar(3.0),
        scalar(4.0),
        scalar(5.0),
        scalar(6.0),
        scalar(7.0),
        scalar(8.0),
        scalar(9.0),
    )
}

fn entries(m: Mat3) -> [f32; 9] {
    [
        number(m.c0.x),
        number(m.c0.y),
        number(m.c0.z),
        number(m.c1.x),
        number(m.c1.y),
        number(m.c1.z),
        number(m.c2.x),
        number(m.c2.y),
        number(m.c2.z),
    ]
}

fn close(a: Mat3, b: Mat3) -> bool {
    let x = entries(a);
    let y = entries(b);
    (0..9).all(|i| (x[i] - y[i]).abs() <= 1.0e-6)
}

#[test]
fn new_fills_columns_in_argument_order() {
    let m = counting();
    assert_eq!(m.c0, vec3(1.0, 2.0, 3.0));
    assert_eq!(m.c1, vec3(4.0, 5.0, 6.0));
    assert_eq!(m.c2, vec3(7.0, 8.0, 9.0));
}

#[test]
fn from_cols_stores_columns_directly() {
    let m = Mat3::from_cols(vec3(1.0, 2.0, 3.0), vec3(4.0, 5.0, 6.0), vec3(7.0, 8.0, 9.0));
    assert_eq!(m, counting());
    assert_eq!(m.c1.z.to_bits(), 6.0f32.to_bits());
}

#[test]
fn from_array_agrees_with_new() {
    let arr = [1.0f32, 2.0, 3.0, 4.0, 5.0, 6.0, 7.0, 8.0, 9.0].map(scalar);
    let m = Mat3::from_array(arr);
    assert_eq!(m, counting());
    assert_eq!(entries(m), [1.0, 2.0, 3.0, 4.0, 5.0, 6.0, 7.0, 8.0, 9.0]);
}

#[test]
fn zero_is_all_positive_zero() {
    let m = Mat3::zero();
    for value in [m.c0.x, m.c0.y, m.c0.z, m.c1.x, m.c1.y, m.c1.z, m.c2.x, m.c2.y, m.c2.z] {
        assert_eq!(value.to_bits(), 0);
    }
}

#[test]
fn identity_has_ones_on_the_diagonal() {
    let m = Mat3::identity();
    assert_eq!(entries(m), [1.0, 0.0, 0.0, 0.0, 1.0, 0.0, 0.0, 0.0, 1.0]);
    assert_eq!(m.c0.y.to_bits(), 0);
}

#[test]
fn transpose_exchanges_rows_and_columns() {
    let t = counting().transpose();
    assert_eq!(t.c0, vec3(1.0, 4.0, 7.0));
    assert_eq!(t.c1, vec3(2.0, 5.0, 8.0));
    assert_eq!(t.c2, vec3(3.0, 6.0, 9.0));
}

#[test]
fn transpose_twice_is_identity() {
    let m = counting();
    assert_eq!(m.transpose().transpose(), m);
    let odd = Mat3::new(
        scalar(f32::NAN),
        scalar(-0.0),
        scalar(f32::INFINITY),
        scalar(1.0e-45),
        scalar(-3.5),
        scalar(0.0),
        scalar(f32::NEG_INFINITY),
        scalar(2.0),
        scalar(-1.0),
    );
    let back = odd.transpose().transpose();
    assert_eq!(
        [back.c0.x.to_bits(), back.c0.y.to_bits(), back.c0.z.to_bits()],
        [odd.c0.x.to_bits(), odd.c0.y.to_bits(), odd.c0.z.to_bits()]
    );
    assert_eq!(
        [back.c1.x.to_bits(), back.c1.y.to_bits(), back.c1.z.to_bits()],
        [odd.c1.x.to_bits(), odd.c1.y.to_bits(), odd.c1.z.to_bits()]
    );
    assert_eq!(
        [back.c2.x.to_bits(), back.c2.y.to_bits(), back.c2.z.to_bits()],
        [odd.c2.x.to_bits(), odd.c2.y.to_bits(), odd.c2.z.to_bits()]
    );
}

#[test]
fn transpose_of_identity_is_identity() {
    assert_eq!(Mat3::identity().transpose(), Mat3::identity());
}

#[test]
fn cofactor_signs_follow_the_checkerboard() {
    let c = counting().cofactor_signs();
    assert_eq!(entries(c), [1.0, -2.0, 3.0, -4.0, 5.0, -6.0, 7.0, -8.0, 9.0]);
}

#[test]
fn cofactor_signs_twice_is_identity() {
    let m = counting();
    assert_eq!(m.cofactor_signs().cofactor_signs(), m);
}

#[test]
fn adjugate_does_not_depend_on_the_order_of_its_steps() {
    let m = counting();
    assert_eq!(m.cofactor_signs().transpose(), m.transpose().cofactor_signs());
    assert_eq!(
        entries(m.cofactor_signs().transpose()),
        [1.0, -4.0, 7.0, -2.0, 5.0, -8.0, 3.0, -6.0, 9.0]
    );
}

#[test]
fn negation_negates_every_entry() {
    let n = -counting();
    assert_eq!(entries(n), [-1.0, -2.0, -3.0, -4.0, -5.0, -6.0, -7.0, -8.0, -9.0]);
    assert_eq!(-n, counting());
    assert_eq!((-Mat3::zero()).c1.y.to_bits(), (-0.0f32).to_bits());
}

#[test]
fn rotate_by_zero_is_identity() {
    let theta = 0.0f32;
    let m = Mat3::identity().rotate(scalar(theta.cos()), scalar(theta.sin()));
    assert!(close(m, Mat3::identity()));
    assert_eq!(m, Mat3::identity());
}

#[test]
fn rotate_places_cosine_and_sine() {
    let theta = 0.5f32;
    let (c, s) = (theta.cos(), theta.sin());
    let m = Mat3::zero().rotate(scalar(c), scalar(s));
    assert_eq!(entries(m), [c, -s, 0.0, s, c, 0.0, 0.0, 0.0, 1.0]);
}

#[test]
fn rotate_does_not_read_its_receiver() {
    let (c, s) = (scalar(0.6), scalar(0.8));
    let a = Mat3::zero().rotate(c, s);
    let b = counting().rotate(c, s);
    assert_eq!(a, b);
}

#[test]
fn scale_is_diagonal() {
    let m = Mat3::scale(Vec2::new(scalar(2.0), scalar(-3.0)));
    assert_eq!(entries(m), [2.0, 0.0, 0.0, 0.0, -3.0, 0.0, 0.0, 0.0, 1.0]);
}

#[test]
fn translate_fills_the_last_column() {
    let m = Mat3::translate(Vec2::new(scalar(5.0), scalar(-7.0)));
    assert_eq!(entries(m), [1.0, 0.0, 0.0, 0.0, 1.0, 0.0, 5.0, -7.0, 1.0]);
    assert_eq!(m.c2, vec3(5.0, -7.0, 1.0));
}

#[test]
fn equality_is_numeric() {
    let mut a = counting();
    let mut b = counting();
    a.c1.y = scalar(0.0);
    b.c1.y = scalar(-0.0);
    assert_eq!(a, b);
    b.c1.y = scalar(f32::NAN);
    assert_ne!(b, b);
}
