//! The polyhedron model: construction, cached directions, the cuboid,
//! enclosing planes, and the update-twice no-op.

use rigid_body_core::math::polyhedron::{Edge, Polyhedron};
use rigid_body_core::math::vector::{Vector3d, UNIT};

fn unit_cube() -> Polyhedron {
    Polyhedron::cuboid(&Vector3d::new(4, 4, 4)).expect("cuboid")
}

#[test]
fn cuboid_has_standard_shape() {
    let p = unit_cube();
    let vertices = p.vertices();
    assert_eq!(vertices.len(), 8);
    assert_eq!((vertices[0].x, vertices[0].y, vertices[0].z), (-2, -2, -2));
    assert_eq!((vertices[6].x, vertices[6].y, vertices[6].z), (2, 2, 2));
    assert_eq!(p.edges().len(), 12);
    assert_eq!(p.edges()[0].start_index(), 0);
    assert_eq!(p.edges()[0].end_index(), 1);
    assert_eq!(p.faces().len(), 6);
    assert_eq!(p.faces()[4].vertex_indices(), &[0, 1, 2, 3]);
    // Edge 0 runs along +x; its cached direction is the scaled unit.
    let d = p.edges()[0].direction();
    assert_eq!((d.x, d.y, d.z), (UNIT, 0, 0));
}

#[test]
fn cuboid_normals_point_outward() {
    let p = unit_cube();
    // Face 4 is the z = -2 loop [0, 1, 2, 3]; its outward normal is -z.
    let d = p.faces()[4].direction();
    assert_eq!((d.x, d.y, d.z), (0, 0, -UNIT));
    // Face 5 is the z = +2 loop [4, 5, 6, 7]; its outward normal is +z.
    let d = p.faces()[5].direction();
    assert_eq!((d.x, d.y, d.z), (0, 0, UNIT));
}

#[test]
fn update_twice_is_a_no_op() {
    let mut p = unit_cube();
    // Move a vertex, refresh once, snapshot, refresh again.
    p.vertices_mut()[6] = Vector3d::new(3, 3, 3);
    p.update();
    let once = p.clone();
    p.update();
    assert_eq!(p, once);
}

#[test]
fn flat_dimensions_are_rejected() {
    // Dimensions below two units halve to zero extent: a flat box.
    assert!(Polyhedron::cuboid(&Vector3d::new(1, 1, 1)).is_err());
    assert!(Polyhedron::cuboid(&Vector3d::new(4, 4, 1)).is_err());
    // From two units up, construction always succeeds.
    assert!(Polyhedron::cuboid(&Vector3d::new(2, 2, 2)).is_ok());
    assert!(Polyhedron::cuboid(&Vector3d::new(2, 1000, 7)).is_ok());
}

#[test]
fn degenerate_edge_is_rejected() {
    let vertices = vec![
        Vector3d::new(0, 0, 0),
        Vector3d::new(0, 0, 0),
        Vector3d::new(1, 0, 0),
    ];
    let edges = vec![Edge::new(0, 1, &vertices)];
    let r = Polyhedron::new(Vec::new(), edges, vertices);
    assert!(r.is_err());
}

#[test]
fn out_of_range_edge_is_rejected() {
    let vertices = vec![Vector3d::new(0, 0, 0), Vector3d::new(1, 0, 0)];
    let edges = vec![Edge::new(0, 1, &vertices)];
    // An edge pointing past the vertex list fails construction.
    let bad = vec![Edge::new(0, 1, &vertices), {
        let far = vec![
            Vector3d::new(0, 0, 0),
            Vector3d::new(1, 0, 0),
            Vector3d::new(0, 1, 0),
        ];
        Edge::new(1, 2, &far)
    }];
    assert!(Polyhedron::new(Vec::new(), bad, vertices.clone()).is_err());
    // A face loop with too few vertices fails construction.
    let r = Polyhedron::new(vec![vec![0, 1]], edges, vertices);
    assert!(r.is_err());
}

#[test]
fn flat_face_is_rejected() {
    // Three collinear points: every candidate normal vanishes.
    let vertices = vec![
        Vector3d::new(0, 0, 0),
        Vector3d::new(2, 0, 0),
        Vector3d::new(4, 0, 0),
    ];
    let edges = vec![
        Edge::new(0, 1, &vertices),
        Edge::new(1, 2, &vertices),
        Edge::new(2, 0, &vertices),
    ];
    let r = Polyhedron::new(vec![vec![0, 1, 2]], edges, vertices);
    assert!(r.is_err());
}

#[test]
fn bounding_and_connected_edges() {
    let p = unit_cube();
    // Face 4 ([0,1,2,3]) is bounded by the four bottom edges 0..3.
    assert_eq!(p.faces()[4].edge_indices(), &[0, 1, 2, 3]);
    // Its connected edges also include the four verticals 4..7.
    assert_eq!(p.faces()[4].connected_edge_indices(), &[0, 1, 2, 3, 4, 5, 6, 7]);
}

#[test]
fn enclosing_planes_face_away_from_interior() {
    let p = unit_cube();
    let face = &p.faces()[4];
    let planes = face.enclosing_planes(p.vertices(), p.edges());
    assert_eq!(planes.len(), 4);
    for plane in &planes {
        // Each plane is anchored at a bottom-face vertex and points away
        // from the face's own centroid, so the centroid (the origin of
        // the bottom face) has non-positive signed distance.
        let anchor = &p.vertices()[plane.vertex_index()];
        let dir = plane.direction();
        // The face centroid of [0,1,2,3] with the first three vertices
        // is (1/3)·((-2,-2,-2)+(2,-2,-2)+(2,2,-2)) = (0,0,-2) truncated.
        let inside = Vector3d::new(0, 0, -2);
        let dist = (dir.x as i128) * ((inside.x - anchor.x) as i128)
            + (dir.y as i128) * ((inside.y - anchor.y) as i128)
            + (dir.z as i128) * ((inside.z - anchor.z) as i128);
        assert!(dist <= 0);
        // Enclosing-plane directions lie in the face plane: no z part.
        assert_eq!(dir.z, 0);
    }
}

#[test]
fn vertices_mut_then_update_refreshes_directions() {
    let mut p = unit_cube();
    p.vertices_mut()[1] = Vector3d::new(6, -2, -2);
    p.update();
    let d = p.edges()[0].direction();
    // Edge 0 still runs along +x from (-2,-2,-2) to (6,-2,-2).
    assert_eq!((d.x, d.y, d.z), (UNIT, 0, 0));
}
