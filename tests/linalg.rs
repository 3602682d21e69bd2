use famine::linalg::{Mat4, Vec4};

fn mat_i64(start: i64) -> Mat4<i64> {
    let mut data = [0i64; 16];
    for (k, v) in data.iter_mut().enumerate() {
        *v = start + k as i64;
    }
    Mat4::new(data)
}

#[test]
fn get_and_set_use_column_major_storage() {
    let mut m: Mat4<f32> = Mat4::zero();
    m.set(1, 2, 7.0);
    assert_eq!(m.data[9], 7.0);
    assert_eq!(m.get(1, 2), 7.0);
    assert_eq!(m.get(2, 1), 0.0);
}

#[test]
fn zero_matrix_is_all_zero() {
    let m: Mat4<f32> = Mat4::zero();
    assert!(m.data.iter().all(|v| *v == 0.0));
}

#[test]
fn identity_has_ones_on_the_diagonal() {
    let m: Mat4<f32> = Mat4::identity();
    for i in 0..4 {
        for j in 0..4 {
            assert_eq!(m.get(i, j), if i == j { 1.0 } else { 0.0 });
        }
    }
}

#[test]
fn identity_is_neutral_for_multiply() {
    let m = mat_i64(3);
    let id: Mat4<i64> = Mat4::identity();
    assert_eq!(id.mul(&m).data, m.data);
    assert_eq!(m.mul(&id).data, m.data);

    let mut f: Mat4<f32> = Mat4::zero();
    for k in 0..16 {
        f.data[k] = k as f32 * 0.25 - 1.5;
    }
    let idf: Mat4<f32> = Mat4::identity();
    assert_eq!(idf.mul(&f).data, f.data);
    assert_eq!(f.mul(&idf).data, f.data);
}

#[test]
fn multiply_is_the_standard_row_by_column_product() {
    let a = mat_i64(1);
    let b = mat_i64(17);
    let c = a.mul(&b);
    for i in 0..4 {
        for j in 0..4 {
            let mut expected = 0i64;
            for k in 0..4 {
                expected += a.get(i, k) * b.get(k, j);
            }
            assert_eq!(c.get(i, j), expected);
        }
    }
    // Row 0 of a is (1, 5, 9, 13); column 0 of b is (17, 18, 19, 20).
    assert_eq!(c.get(0, 0), 1 * 17 + 5 * 18 + 9 * 19 + 13 * 20);
}

#[test]
fn product_applies_the_right_factor_first() {
    // a scales x by 2; b swaps x and y (a quarter turn about z, cos 0, sin 1).
    let a: Mat4<i64> = Mat4::scale(2, 1, 1);
    let b: Mat4<i64> = Mat4::rotate_z(0, 1);
    let ab = a.mul(&b);
    // (a · b) applied to the x axis: b sends x to y, a leaves y alone.
    assert_eq!((ab.get(0, 0), ab.get(1, 0)), (0, 1));
    // (a · b) applied to the y axis: b sends y to -x, a doubles it.
    assert_eq!((ab.get(0, 1), ab.get(1, 1)), (-2, 0));
}

#[test]
fn scale_puts_factors_on_the_diagonal() {
    let m: Mat4<f32> = Mat4::scale(0.75, 2.0, 3.0);
    assert_eq!(m.get(0, 0), 0.75);
    assert_eq!(m.get(1, 1), 2.0);
    assert_eq!(m.get(2, 2), 3.0);
    assert_eq!(m.get(3, 3), 1.0);
    assert_eq!(m.get(0, 1), 0.0);
}

#[test]
fn zero_angle_rotations_are_the_identity() {
    let theta: f32 = 0.0;
    let id: Mat4<f32> = Mat4::identity();
    let rx = Mat4::rotate_x(theta.cos(), theta.sin());
    let ry = Mat4::rotate_y(theta.cos(), theta.sin());
    let rz = Mat4::rotate_z(theta.cos(), theta.sin());
    for k in 0..16 {
        assert!((rx.data[k] - id.data[k]).abs() < 1e-6);
        assert!((ry.data[k] - id.data[k]).abs() < 1e-6);
        assert!((rz.data[k] - id.data[k]).abs() < 1e-6);
    }
}

#[test]
fn rotations_follow_the_right_hand_rule() {
    // Quarter turns: cos 0, sin 1.
    let rx: Mat4<i64> = Mat4::rotate_x(0, 1);
    let ry: Mat4<i64> = Mat4::rotate_y(0, 1);
    let rz: Mat4<i64> = Mat4::rotate_z(0, 1);
    // x turns y into z.
    assert_eq!((rx.get(1, 1), rx.get(2, 1)), (0, 1));
    assert_eq!(rx.get(1, 2), -1);
    // y turns z into x.
    assert_eq!((ry.get(0, 2), ry.get(2, 2)), (1, 0));
    assert_eq!(ry.get(2, 0), -1);
    // z turns x into y.
    assert_eq!((rz.get(0, 0), rz.get(1, 0)), (0, 1));
    assert_eq!(rz.get(0, 1), -1);
}

#[test]
fn rotate_x_places_cos_and_sin() {
    let theta: f32 = 0.5;
    let r = Mat4::rotate_x(theta.cos(), theta.sin());
    assert_eq!(r.get(1, 1), theta.cos());
    assert_eq!(r.get(1, 2), -theta.sin());
    assert_eq!(r.get(2, 1), theta.sin());
    assert_eq!(r.get(2, 2), theta.cos());
    assert_eq!(r.get(0, 0), 1.0);
    assert_eq!(r.get(3, 3), 1.0);
}

#[test]
fn vec4_keeps_its_components() {
    let v = Vec4::new([1.0f32, 2.0, 3.0, 4.0]);
    assert_eq!(v.data, [1.0, 2.0, 3.0, 4.0]);
}

#[test]
fn composed_transform_of_rotations_and_scale() {
    let theta: f32 = 0.02;
    let aspect: f32 = 480.0 / 640.0;
    let rx = Mat4::rotate_x(theta.cos(), theta.sin());
    let ry = Mat4::rotate_y(theta.cos(), theta.sin());
    let s = Mat4::scale(aspect, 1.0, 1.0);
    let m = rx.mul(&ry).mul(&s);
    // Column 0 is rx · ry applied to (aspect, 0, 0).
    let (c, sn) = (theta.cos(), theta.sin());
    assert!((m.get(0, 0) - c * aspect).abs() < 1e-6);
    assert!((m.get(1, 0) - sn * sn * aspect).abs() < 1e-6);
    assert!((m.get(2, 0) + c * sn * aspect).abs() < 1e-6);
    assert_eq!(m.get(3, 3), 1.0);
}
