//! Meshes, colors, the gradient ramp, frame pacing and identifiers.

use rigid_body_core::config::ColorIncrement;
use rigid_body_core::math::vector::{Vector3d, UNIT};
use rigid_body_core::mesh::polyhedron_meshes;
use rigid_body_core::mesh::MeshTriangle;
use rigid_body_core::render::{Color, RenderLine};
use rigid_body_core::simulation::bounding_box::BoundingBox;
use rigid_body_core::utility::FPSManager;
use rigid_body_core::UidCounter;

#[test]
fn cuboid_mesh_layout() {
    let mesh = polyhedron_meshes::cuboid(&Vector3d::new(4, 4, 4));
    assert_eq!(mesh.vertices.len(), 8);
    assert_eq!((mesh.vertices[0].x, mesh.vertices[0].y, mesh.vertices[0].z), (-2, -2, -2));
    assert_eq!((mesh.vertices[4].x, mesh.vertices[4].y, mesh.vertices[4].z), (2, 2, 2));
    assert_eq!(mesh.mesh_triangles.len(), 12);
    assert_eq!(mesh.mesh_triangles[0].vertex_indices, [0, 2, 5]);
    assert_eq!(mesh.mesh_triangles[11].vertex_indices, [6, 0, 7]);
    // Each triangle's normal is the axis of its face, pointing away
    // from the center: two triangles per face, six faces.
    let expected = [
        (0, 0, -UNIT),
        (0, 0, -UNIT),
        (UNIT, 0, 0),
        (UNIT, 0, 0),
        (0, 0, UNIT),
        (0, 0, UNIT),
        (-UNIT, 0, 0),
        (-UNIT, 0, 0),
        (0, UNIT, 0),
        (0, UNIT, 0),
        (0, -UNIT, 0),
        (0, -UNIT, 0),
    ];
    for (triangle, want) in mesh.mesh_triangles.iter().zip(expected.iter()) {
        let n = triangle.normal;
        assert_eq!((n.x, n.y, n.z), *want);
    }
}

#[test]
fn triangle_normal_follows_its_indices() {
    let vertices = [
        Vector3d::new(0, 0, 0),
        Vector3d::new(4, 0, 0),
        Vector3d::new(0, 4, 0),
        Vector3d::new(0, 0, 4),
    ];
    let t = MeshTriangle::norm_from_vertices(&vertices, &[0, 1, 3]);
    // The triangle through x and z axes has the -y normal, not the
    // normal of the first three mesh vertices.
    assert_eq!((t.normal.x, t.normal.y, t.normal.z), (0, -UNIT, 0));
    let u = MeshTriangle::norm_from_vertices(&vertices, &[0, 1, 2]);
    assert_eq!((u.normal.x, u.normal.y, u.normal.z), (0, 0, UNIT));
}

#[test]
fn triangle_normals() {
    let n = MeshTriangle::normal(
        &Vector3d::new(0, 0, 0),
        &Vector3d::new(4, 0, 0),
        &Vector3d::new(0, 4, 0),
    );
    assert_eq!((n.x, n.y, n.z), (0, 0, UNIT));
    // A degenerate triangle has the zero normal.
    let z = MeshTriangle::normal(
        &Vector3d::new(0, 0, 0),
        &Vector3d::new(4, 0, 0),
        &Vector3d::new(8, 0, 0),
    );
    assert!((z.x, z.y, z.z) == (0, 0, 0));
}

#[test]
fn color_ramp_spreads_evenly() {
    let mut ramp = ColorIncrement::new(3);
    // Entries 0·1021/3 = 0, 1·1021/3 = 340, 2·1021/3 = 680.
    assert_eq!(ramp.get(), Color::rgb(255, 0, 0));
    assert_eq!(ramp.get(), Color::rgb(170, 255, 0));
    assert_eq!(ramp.get(), Color::rgb(0, 255, 170));
}

#[test]
fn frame_duration() {
    let fps = FPSManager::new(60);
    assert_eq!(fps.frame_duration_micros, 16666);
    let fps = FPSManager::new(1000000);
    assert_eq!(fps.frame_duration_micros, 1);
}

#[test]
fn uid_counter_is_monotonic() {
    let mut uids = UidCounter::new();
    let a = uids.get_new_uid();
    let b = uids.get_new_uid();
    let c = uids.get_new_uid();
    assert_eq!((a, b, c), (0, 1, 2));
}

#[test]
fn bounding_cage_starts_empty() {
    let cage = BoundingBox::new(17);
    assert_eq!(cage.uid, 17);
    assert!(cage.inner_opt.is_none());
}

#[test]
fn render_line_keeps_endpoints() {
    let line = RenderLine::from_vertices(&Vector3d::new(1, 2, 3), &Vector3d::new(4, 5, 6));
    assert_eq!(line.finite_line_3d.start, Vector3d::new(1, 2, 3));
    assert_eq!(line.finite_line_3d.end, Vector3d::new(4, 5, 6));
}
