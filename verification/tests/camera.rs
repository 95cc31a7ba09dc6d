use obj_viewer::camera::is_degenerate;
use obj_viewer::camera::view_matrix;
use obj_viewer::camera::ViewFrame;
use obj_viewer::vector::Axis3;
use obj_viewer::vector::Vec3;
use obj_viewer::vector::Wide3;

fn dot(a: [f64; 3], b: [f64; 3]) -> f64 {
    a[0] * b[0] + a[1] * b[1] + a[2] * b[2]
}

fn cross(a: [f64; 3], b: [f64; 3]) -> [f64; 3] {
    [a[1] * b[2] - a[2] * b[1], a[2] * b[0] - a[0] * b[2], a[0] * b[1] - a[1] * b[0]]
}

fn unit(v: &Wide3, norm_squared: i128) -> [f64; 3] {
    let len = (norm_squared as f64).sqrt();
    [v.x as f64 / len, v.y as f64 / len, v.z as f64 / len]
}

/// The matrix that the frame stands for, with the position in tenths.
fn matrix(frame: &ViewFrame) -> [[f64; 4]; 4] {
    let s = unit(&frame.side, frame.side_norm_squared);
    let u = unit(&frame.up, frame.up_norm_squared);
    let f = unit(&frame.forward, frame.forward_norm_squared);
    let p = unit(&frame.translation, 1);
    let lens = [
        (frame.side_norm_squared as f64).sqrt(),
        (frame.up_norm_squared as f64).sqrt(),
        (frame.forward_norm_squared as f64).sqrt(),
    ];
    [
        [s[0], u[0], f[0], 0.0],
        [s[1], u[1], f[1], 0.0],
        [s[2], u[2], f[2], 0.0],
        [p[0] / lens[0] / 10.0, p[1] / lens[1] / 10.0, p[2] / lens[2] / 10.0, 1.0],
    ]
}

/// The same matrix by the textbook, in floating point.
fn by_the_book(position: [f64; 3], direction: [f64; 3], up: [f64; 3]) -> [[f64; 4]; 4] {
    let len = dot(direction, direction).sqrt();
    let f = [direction[0] / len, direction[1] / len, direction[2] / len];
    let s = cross(up, f);
    let len = dot(s, s).sqrt();
    let s = [s[0] / len, s[1] / len, s[2] / len];
    let u = cross(f, s);
    [
        [s[0], u[0], f[0], 0.0],
        [s[1], u[1], f[1], 0.0],
        [s[2], u[2], f[2], 0.0],
        [-dot(position, s), -dot(position, u), -dot(position, f), 1.0],
    ]
}

fn close(a: &[[f64; 4]; 4], b: &[[f64; 4]; 4]) -> bool {
    (0..4).all(|i| (0..4).all(|j| (a[i][j] - b[i][j]).abs() < 1e-5))
}

#[test]
fn frame_of_the_initial_camera() {
    let frame = view_matrix(
        &Vec3 { x: 30, y: 10, z: 10 },
        &Axis3 { x: -3, y: -1, z: 1 },
        &Axis3 { x: 0, y: 1, z: 0 },
    );
    assert_eq!(frame.side, Wide3 { x: 1, y: 0, z: 3 });
    assert_eq!(frame.up, Wide3 { x: -3, y: 10, z: 1 });
    assert_eq!(frame.forward, Wide3 { x: -3, y: -1, z: 1 });
    assert_eq!(frame.translation, Wide3 { x: -60, y: -20, z: 90 });
    assert_eq!(frame.side_norm_squared, 10);
    assert_eq!(frame.up_norm_squared, 110);
    assert_eq!(frame.forward_norm_squared, 11);
}

#[test]
fn frame_agrees_with_the_floating_point_matrix() {
    let cases = [
        (Vec3 { x: 30, y: 10, z: 10 }, Axis3 { x: -3, y: -1, z: 1 }, Axis3 { x: 0, y: 1, z: 0 }),
        (Vec3 { x: -28, y: 17, z: 4 }, Axis3 { x: -3, y: -1, z: 1 }, Axis3 { x: 0, y: 1, z: 0 }),
        (Vec3 { x: 5, y: -6, z: 7 }, Axis3 { x: 2, y: 5, z: -1 }, Axis3 { x: 1, y: 1, z: 1 }),
        (Vec3 { x: 0, y: 0, z: 0 }, Axis3 { x: 0, y: 0, z: 9 }, Axis3 { x: 0, y: 4, z: 4 }),
    ];
    for (p, d, u) in cases {
        let frame = view_matrix(&p, &d, &u);
        let expected = by_the_book(
            [p.x as f64 / 10.0, p.y as f64 / 10.0, p.z as f64 / 10.0],
            [d.x as f64, d.y as f64, d.z as f64],
            [u.x as f64, u.y as f64, u.z as f64],
        );
        assert!(close(&matrix(&frame), &expected));
    }
}

#[test]
fn linear_part_is_orthonormal_and_right_handed() {
    let cases = [
        (Axis3 { x: -3, y: -1, z: 1 }, Axis3 { x: 0, y: 1, z: 0 }),
        (Axis3 { x: 2, y: 5, z: -1 }, Axis3 { x: 1, y: 1, z: 1 }),
        (Axis3 { x: 32767, y: -32768, z: 1 }, Axis3 { x: -32768, y: 32767, z: 32767 }),
        (Axis3 { x: 0, y: 0, z: 1 }, Axis3 { x: 1, y: 0, z: 1 }),
    ];
    for (d, u) in cases {
        let frame = view_matrix(&Vec3 { x: 1, y: 2, z: 3 }, &d, &u);
        assert_eq!(frame.side.dot(&frame.up), 0);
        assert_eq!(frame.side.dot(&frame.forward), 0);
        assert_eq!(frame.up.dot(&frame.forward), 0);
        assert_eq!(frame.up_norm_squared, frame.side_norm_squared * frame.forward_norm_squared);
        assert_eq!(frame.side.cross(&frame.up).dot(&frame.forward), frame.up_norm_squared);
        let rows = [
            unit(&frame.side, frame.side_norm_squared),
            unit(&frame.up, frame.up_norm_squared),
            unit(&frame.forward, frame.forward_norm_squared),
        ];
        for i in 0..3 {
            for j in 0..3 {
                let expected = if i == j { 1.0 } else { 0.0 };
                assert!((dot(rows[i], rows[j]) - expected).abs() < 1e-5);
            }
        }
        assert!(dot(cross(rows[0], rows[1]), rows[2]) > 0.0);
    }
}

#[test]
fn frame_at_the_ends_of_the_ranges() {
    let frame = view_matrix(
        &Vec3 { x: i64::MIN, y: i64::MAX, z: i64::MIN },
        &Axis3 { x: i16::MIN, y: i16::MIN, z: i16::MAX },
        &Axis3 { x: i16::MAX, y: i16::MIN, z: i16::MIN },
    );
    let s = Wide3 {
        x: (-32768i128) * 32767 - (-32768i128) * (-32768),
        y: (-32768i128) * (-32768) - 32767i128 * 32767,
        z: 32767i128 * (-32768) - (-32768i128) * (-32768),
    };
    assert_eq!(frame.side, s);
    assert_eq!(frame.translation.x, -((i64::MIN as i128) * s.x + (i64::MAX as i128) * s.y
        + (i64::MIN as i128) * s.z));
}

#[test]
fn parallel_or_zero_vectors_are_degenerate() {
    let d = Axis3 { x: -3, y: -1, z: 1 };
    assert!(!is_degenerate(&d, &Axis3 { x: 0, y: 1, z: 0 }));
    assert!(is_degenerate(&d, &d));
    assert!(is_degenerate(&d, &Axis3 { x: 6, y: 2, z: -2 }));
    assert!(is_degenerate(&d, &Axis3 { x: 0, y: 0, z: 0 }));
    assert!(is_degenerate(&Axis3 { x: 0, y: 0, z: 0 }, &Axis3 { x: 0, y: 1, z: 0 }));
    assert!(!is_degenerate(&Axis3 { x: 1, y: 0, z: 0 }, &Axis3 { x: 1, y: 0, z: 1 }));
}
