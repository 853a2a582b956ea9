use linalg::matmul;
use linalg::transform_2x2;
use linalg::transform_3x3;
use linalg::transform_4x4;
use linalg::Matrix;
use linalg::Vector;

const EPS: f64 = 1e-9;

fn close<const N: usize, const M: usize>(a: &Matrix<f64, N, M>, b: &Matrix<f64, N, M>) -> bool {
    (0..N).all(|j| (0..M).all(|i| (a.data[j][i] - b.data[j][i]).abs() < EPS))
}

fn apply(m: &Matrix<f64, 4, 4>, p: [f64; 4]) -> [f64; 4] {
    matmul(m, &Vector::<f64, 4>::from(p)).data[0]
}

#[test]
fn rotate_2x2_quarter_turn() {
    let r = transform_2x2::rotate(std::f64::consts::FRAC_PI_2);
    let v = matmul(&r, &Vector::<f64, 2>::from([1.0, 0.0]));
    assert!(close(&v, &Vector::from([0.0, 1.0])));
    let t = 0.3f64;
    let r = transform_2x2::rotate(t);
    // stored by columns: column 0 is (cos, sin), column 1 is (-sin, cos)
    assert!(close(&r, &Matrix::from([[t.cos(), t.sin()], [-t.sin(), t.cos()]])));
}

#[test]
fn rotate_3x3_axes() {
    let q = std::f64::consts::FRAC_PI_2;
    let x = Vector::<f64, 3>::from([1.0, 0.0, 0.0]);
    let y = Vector::<f64, 3>::from([0.0, 1.0, 0.0]);
    let z = Vector::<f64, 3>::from([0.0, 0.0, 1.0]);
    assert!(close(&matmul(&transform_3x3::rotate_z(q), &x), &y));
    assert!(close(&matmul(&transform_3x3::rotate_x(q), &y), &z));
    assert!(close(&matmul(&transform_3x3::rotate_y(q), &z), &x));
}

#[test]
fn rotate_4x4_embeds_3x3() {
    let t = 0.7f64;
    let pairs = [
        (transform_4x4::rotate_x(t), transform_3x3::rotate_x(t)),
        (transform_4x4::rotate_y(t), transform_3x3::rotate_y(t)),
        (transform_4x4::rotate_z(t), transform_3x3::rotate_z(t)),
    ];
    for (r4, r3) in pairs.iter() {
        for j in 0..4 {
            for i in 0..4 {
                let expected = if i < 3 && j < 3 {
                    r3.data[j][i]
                } else if i == j {
                    1.0
                } else {
                    0.0
                };
                assert_eq!(r4.data[j][i], expected);
            }
        }
    }
}

#[test]
fn rotations_are_orthogonal() {
    for &t in [0.0f64, 0.4, 1.3, -2.2, 3.0].iter() {
        let id3 = Matrix::<f64, 3, 3>::identity();
        for r in [transform_3x3::rotate_x(t), transform_3x3::rotate_y(t), transform_3x3::rotate_z(t)].iter() {
            assert!(close(&(*r * r.as_transpose()), &id3));
        }
        let id4 = Matrix::<f64, 4, 4>::identity();
        for r in [transform_4x4::rotate_x(t), transform_4x4::rotate_y(t), transform_4x4::rotate_z(t)].iter() {
            assert!(close(&(*r * r.as_transpose()), &id4));
        }
    }
}

#[test]
fn translate_moves_points_not_directions() {
    let m = transform_4x4::translate(1.0f64, -2.0, 3.5);
    assert_eq!(m.data[3], [1.0, -2.0, 3.5, 1.0]);
    assert_eq!(apply(&m, [1.0, 1.0, 1.0, 1.0]), [2.0, -1.0, 4.5, 1.0]);
    assert_eq!(apply(&m, [1.0, 1.0, 1.0, 0.0]), [1.0, 1.0, 1.0, 0.0]);
    let mi = transform_4x4::translate(4i32, 5, 6);
    assert_eq!(mi.data, [[1, 0, 0, 0], [0, 1, 0, 0], [0, 0, 1, 0], [4, 5, 6, 1]]);
}

#[test]
fn perspective_entries() {
    let (fov, aspect, near, far) = (1.2f64, 1.5, 0.1, 100.0);
    let m = transform_4x4::perspective(fov, aspect, near, far);
    let inv = 1.0 / (fov / 2.0).tan();
    let expected = Matrix::<f64, 4, 4>::from([
        [inv / aspect, 0.0, 0.0, 0.0],
        [0.0, 0.0, far / (far - near), 1.0],
        [0.0, -inv, 0.0, 0.0],
        [0.0, 0.0, -(far * near) / (far - near), 0.0],
    ]);
    assert!(close(&m, &expected));
    // the near plane goes to depth 0 and the far plane to depth 1, straight ahead on the second axis
    let pn = apply(&m, [0.0, near, 0.0, 1.0]);
    let pf = apply(&m, [0.0, far, 0.0, 1.0]);
    assert!((pn[2] / pn[3]).abs() < EPS);
    assert!((pf[2] / pf[3] - 1.0).abs() < EPS);
}

#[test]
fn orthographic_entries() {
    let m = transform_4x4::orthographic(4.0f64, 2.0, 8.0);
    assert_eq!(m.data, [
        [0.5, 0.0, 0.0, 0.0],
        [0.0, 0.0, 0.25, 0.0],
        [0.0, -1.0, 0.0, 0.0],
        [0.0, 0.0, 0.0, 1.0],
    ]);
}

#[test]
fn perspective_ray_round_trip() {
    let (fov, w, h, near, far) = (1.1f64, 640.0, 480.0, 0.5, 50.0);
    let m = transform_4x4::perspective_ray_gen(fov, w, h, near, far);
    let tan = (fov / 2.0).tan();
    let aspect = w / h;
    for &(px, py) in [(0.0, 0.0), (320.0, 240.0), (17.5, 401.25), (640.0, 480.0)].iter() {
        let a = apply(&m, [px, py, 0.0, 1.0]);
        let b = apply(&m, [px, py, 1.0, 1.0]);
        let origin = [a[0] / a[3], a[1] / a[3], a[2] / a[3]];
        let end = [b[0] / b[3], b[1] / b[3], b[2] / b[3]];
        let dir = [end[0] - origin[0], end[1] - origin[1], end[2] - origin[2]];
        // the camera ray through the pixel, forward on the second axis and up on the third
        let ndc_x = 2.0 * px / w - 1.0;
        let ndc_y = 1.0 - 2.0 * py / h;
        let expected = [ndc_x * aspect * tan, 1.0, ndc_y * tan];
        for k in 0..3 {
            assert!((dir[k] - (far - near) * expected[k]).abs() < 1e-6);
            assert!((origin[k] - near * expected[k]).abs() < 1e-9);
        }
    }
}

#[test]
fn rotation_builders_on_integers() {
    assert_eq!(transform_2x2::rotate_cos_sin(3i32, 4), Matrix::<i32, 2, 2>::from([[3, 4], [-4, 3]]));
    assert_eq!(
        transform_3x3::rotate_x_cos_sin(0i32, 1),
        Matrix::<i32, 3, 3>::from([[1, 0, 0], [0, 0, 1], [0, -1, 0]]),
    );
    assert_eq!(
        transform_3x3::rotate_y_cos_sin(0i32, 1),
        Matrix::<i32, 3, 3>::from([[0, 0, -1], [0, 1, 0], [1, 0, 0]]),
    );
    assert_eq!(
        transform_3x3::rotate_z_cos_sin(0i32, 1),
        Matrix::<i32, 3, 3>::from([[0, 1, 0], [-1, 0, 0], [0, 0, 1]]),
    );
    assert_eq!(
        transform_4x4::rotate_z_cos_sin(0i32, 1),
        Matrix::<i32, 4, 4>::from([[0, 1, 0, 0], [-1, 0, 0, 0], [0, 0, 1, 0], [0, 0, 0, 1]]),
    );
    assert_eq!(
        transform_4x4::rotate_x_cos_sin(2i64, 5),
        Matrix::<i64, 4, 4>::from([[1, 0, 0, 0], [0, 2, 5, 0], [0, -5, 2, 0], [0, 0, 0, 1]]),
    );
    assert_eq!(
        transform_4x4::rotate_y_cos_sin(2i64, 5),
        Matrix::<i64, 4, 4>::from([[2, 0, -5, 0], [0, 1, 0, 0], [5, 0, 2, 0], [0, 0, 0, 1]]),
    );
}

#[test]
fn perspective_from_tangent() {
    let m = transform_4x4::perspective_tan(0.5f64, 2.0, 1.0, 3.0);
    assert_eq!(m.data, [
        [1.0, 0.0, 0.0, 0.0],
        [0.0, 0.0, 1.5, 1.0],
        [0.0, -2.0, 0.0, 0.0],
        [0.0, 0.0, -1.5, 0.0],
    ]);
}

#[test]
fn ray_gen_from_tangent() {
    let m = transform_4x4::perspective_ray_gen_tan(0.5f64, 4.0, 2.0, 1.0, 2.0);
    assert_eq!(m.data, [
        [0.5, 0.0, 0.0, 0.0],
        [0.0, 0.0, -0.5, 0.0],
        [0.0, 0.0, 0.0, -0.5],
        [-1.0, 1.0, 0.5, 1.0],
    ]);
}
