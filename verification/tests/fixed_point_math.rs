//! The fixed-point vector and plane primitives.

use rigid_body_core::math::geometry::{
    plane_finite_line_intersection, plane_line_intersection, pos_in_front_of_plane,
    raw_plane_finite_line_intersection, InfiniteLine3d, Plane,
};
use rigid_body_core::math::vector::{isqrt_u128, Vector3d, UNIT};

#[test]
fn cross_products_are_exact() {
    let x = Vector3d::new(1, 0, 0);
    let y = Vector3d::new(0, 1, 0);
    let r = x.cross(&y);
    assert_eq!((r.x, r.y, r.z), (0, 0, 1));
    let a = Vector3d::new(2, 3, 4);
    let b = Vector3d::new(5, 6, 7);
    let c = a.cross(&b);
    assert_eq!((c.x, c.y, c.z), (-3, 6, -3));
    // Parallel vectors cross to zero.
    let z = a.cross(&a);
    assert!(z.is_zero());
}

#[test]
fn integer_square_roots() {
    assert_eq!(isqrt_u128(0), 0);
    assert_eq!(isqrt_u128(1), 1);
    assert_eq!(isqrt_u128(8), 2);
    assert_eq!(isqrt_u128(9), 3);
    assert_eq!(isqrt_u128(10), 3);
    assert_eq!(isqrt_u128(1 << 64), 1 << 32);
    assert_eq!(isqrt_u128((1 << 64) - 1), (1 << 32) - 1);
}

#[test]
fn unit_directions_scale_to_unit() {
    let d = Vector3d::new(3, 4, 0);
    let u = d.dir().expect("non-zero");
    // |d| = 5; components are 3·65536/5 and 4·65536/5, truncated.
    assert_eq!((u.x, u.y, u.z), (39321, 52428, 0));
    let axis = Vector3d::new(0, 0, 7);
    let u = axis.dir().expect("non-zero");
    assert_eq!((u.x, u.y, u.z), (0, 0, UNIT));
    let neg = Vector3d::new(-9, 0, 0);
    let u = neg.dir().expect("non-zero");
    assert_eq!((u.x, u.y, u.z), (-UNIT, 0, 0));
    assert!(Vector3d::zero().dir().is_none());
}

#[test]
fn plane_side_tests() {
    let plane = Plane {
        pos: Vector3d::new(0, 0, 0),
        dir: Vector3d::new(UNIT, 0, 0),
    };
    assert!(pos_in_front_of_plane(&Vector3d::new(5, 1, 1), &plane));
    assert!(!pos_in_front_of_plane(&Vector3d::new(-5, 1, 1), &plane));
    assert!(!pos_in_front_of_plane(&Vector3d::new(0, 9, 9), &plane));
}

#[test]
fn segment_plane_crossing() {
    let plane = Plane {
        pos: Vector3d::new(0, 0, 0),
        dir: Vector3d::new(UNIT, 0, 0),
    };
    let hit = raw_plane_finite_line_intersection(
        &plane.pos,
        &plane.dir,
        &Vector3d::new(-2, 0, 0),
        &Vector3d::new(2, 0, 0),
    )
    .expect("crosses");
    assert_eq!((hit.x, hit.y, hit.z), (0, 0, 0));
    // A segment entirely on one side misses.
    assert!(
        plane_finite_line_intersection(
            &plane,
            &Vector3d::new(1, 0, 0),
            &Vector3d::new(2, 0, 0),
        )
        .is_none()
    );
    // A segment parallel to the plane misses.
    assert!(
        plane_finite_line_intersection(
            &plane,
            &Vector3d::new(1, -5, 0),
            &Vector3d::new(1, 5, 0),
        )
        .is_none()
    );
}

#[test]
fn infinite_line_plane_crossing() {
    let plane = Plane {
        pos: Vector3d::new(0, 0, 0),
        dir: Vector3d::new(UNIT, 0, 0),
    };
    let line = InfiniteLine3d {
        pos: Vector3d::new(-4, 2, 1),
        dir: Vector3d::new(UNIT, 0, 0),
    };
    let hit = plane_line_intersection(&plane, &line).expect("crosses");
    assert_eq!((hit.x, hit.y, hit.z), (0, 2, 1));
    let parallel = InfiniteLine3d {
        pos: Vector3d::new(-4, 2, 1),
        dir: Vector3d::new(0, UNIT, 0),
    };
    assert!(plane_line_intersection(&plane, &parallel).is_none());
}

#[test]
fn vector_sums_and_dots() {
    let a = Vector3d::new(1, -2, 3);
    let b = Vector3d::new(10, 20, 30);
    let s = a.add(&b);
    assert_eq!((s.x, s.y, s.z), (11, 18, 33));
    let d = b.sub(&a);
    assert_eq!((d.x, d.y, d.z), (9, 22, 27));
    assert_eq!(a.dot(&b), 1 * 10 - 2 * 20 + 3 * 30);
}
