use obj_viewer::vector::Axis3;
use obj_viewer::vector::Vec3;
use obj_viewer::vector::Wide3;

#[test]
fn dot_of_two_vectors() {
    let a = Wide3 { x: 1, y: 2, z: 3 };
    let b = Wide3 { x: 4, y: -5, z: 6 };
    assert_eq!(a.dot(&b), 12);
    assert_eq!(b.dot(&a), 12);
    assert_eq!(a.dot(&Wide3 { x: 0, y: 0, z: 0 }), 0);
}

#[test]
fn cross_of_two_vectors() {
    let a = Wide3 { x: 1, y: 2, z: 3 };
    let b = Wide3 { x: 4, y: -5, z: 6 };
    assert_eq!(a.cross(&b), Wide3 { x: 27, y: 6, z: -13 });
    assert_eq!(b.cross(&a), Wide3 { x: -27, y: -6, z: 13 });
    assert_eq!(a.cross(&a), Wide3 { x: 0, y: 0, z: 0 });
    assert_eq!(a.cross(&b).dot(&a), 0);
    assert_eq!(a.cross(&b).dot(&b), 0);
}

#[test]
fn cross_of_the_axes_is_right_handed() {
    let x = Wide3 { x: 1, y: 0, z: 0 };
    let y = Wide3 { x: 0, y: 1, z: 0 };
    let z = Wide3 { x: 0, y: 0, z: 1 };
    assert_eq!(x.cross(&y), z);
    assert_eq!(y.cross(&z), x);
    assert_eq!(z.cross(&x), y);
}

#[test]
fn norm_squared_of_a_vector() {
    assert_eq!(Wide3 { x: 3, y: -4, z: 12 }.norm_squared(), 169);
    assert_eq!(Wide3 { x: 0, y: 0, z: 0 }.norm_squared(), 0);
}

#[test]
fn products_at_the_limits_fit() {
    let a = Wide3 { x: i64::MIN as i128, y: i64::MIN as i128, z: i64::MIN as i128 };
    let b = Wide3 { x: 1 << 61, y: 1 << 61, z: 1 << 61 };
    assert_eq!(a.dot(&b), -3 * (1i128 << 124));
    let c = Wide3 { x: -(1 << 61), y: 1 << 61, z: 0 };
    assert_eq!(a.cross(&c), Wide3 { x: 1 << 124, y: 1 << 124, z: -(1i128 << 125) });
}

#[test]
fn widening_keeps_the_components() {
    assert_eq!(Vec3 { x: i64::MAX, y: -2, z: i64::MIN }.widen(), Wide3 {
        x: i64::MAX as i128,
        y: -2,
        z: i64::MIN as i128,
    });
    assert_eq!(Axis3 { x: i16::MIN, y: 7, z: i16::MAX }.widen(), Wide3 { x: -32768, y: 7, z: 32767 });
}
