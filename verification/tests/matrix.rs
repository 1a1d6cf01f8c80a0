//! The fixed-point matrix inverse.

use rigid_body_core::math::matrix::Matrix3x3;
use rigid_body_core::math::vector::UNIT;

#[test]
fn inverse_of_identity() {
    let m = Matrix3x3::identity();
    let inv = m.inverse().expect("identity is invertible");
    assert_eq!(inv, Matrix3x3::identity());
}

#[test]
fn inverse_of_scaled_diagonal() {
    // The matrix standing for 2·I inverts to the one standing for I/2.
    let m = Matrix3x3::new(&[[2 * UNIT, 0, 0], [0, 2 * UNIT, 0], [0, 0, 2 * UNIT]]);
    let inv = m.inverse().expect("diagonal is invertible");
    let half = UNIT / 2;
    assert_eq!(inv, Matrix3x3::new(&[[half, 0, 0], [0, half, 0], [0, 0, half]]));
}

#[test]
fn inverse_round_trips_on_diagonals() {
    let m = Matrix3x3::new(&[[2 * UNIT, 0, 0], [0, 4 * UNIT, 0], [0, 0, 8 * UNIT]]);
    let back = m.inverse().expect("invertible").inverse().expect("invertible");
    assert_eq!(back, m);
}

#[test]
fn singular_matrix_has_no_inverse() {
    // Two equal rows: the determinant vanishes.
    let m = Matrix3x3::new(&[[UNIT, 0, 0], [UNIT, 0, 0], [0, 0, UNIT]]);
    assert!(m.inverse().is_none());
}

#[test]
fn general_inverse_matches_adjugate() {
    // The matrix standing for [[2,1,1],[3,2,1],[2,1,2]] has real
    // determinant 1, so its scaled inverse is exact.
    let m = Matrix3x3::new(&[
        [2 * UNIT, UNIT, UNIT],
        [3 * UNIT, 2 * UNIT, UNIT],
        [2 * UNIT, UNIT, 2 * UNIT],
    ]);
    let inv = m.inverse().expect("invertible");
    // The real inverse is [[3,-1,-1],[-4,2,1],[-1,0,1]].
    assert_eq!(
        inv,
        Matrix3x3::new(&[
            [3 * UNIT, -UNIT, -UNIT],
            [-(4 * UNIT), 2 * UNIT, UNIT],
            [-UNIT, 0, UNIT],
        ])
    );
}
