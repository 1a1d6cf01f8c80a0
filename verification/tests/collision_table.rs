//! The pairwise collision table: triangular layout, symmetric access,
//! regeneration and the per-tick colliding reset.

use rigid_body_core::simulation::collision_table::{
    CollisionTable, Contact, SeparatingPlane, VertexFaceIndices,
};

#[test]
fn generate_and_len() {
    let mut table = CollisionTable::new();
    assert_eq!(table.len(), 0);
    table.generate(4);
    assert_eq!(table.len(), 4);
    for i in 0..4 {
        for j in 0..4 {
            let status = table.get(i, j);
            assert_eq!(status.bounding_box, [false; 3]);
            assert!(matches!(status.separating_plane, SeparatingPlane::NoWitness));
            assert!(!status.colliding);
            assert!(status.contacts.is_empty());
            assert!(!status.bounding_box_collision());
        }
    }
    table.generate(2);
    assert_eq!(table.len(), 2);
}

#[test]
fn get_mut_is_symmetric() {
    let mut table = CollisionTable::new();
    table.generate(3);
    table.get_mut(0, 2).bounding_box = [true, true, true];
    assert!(table.get(2, 0).bounding_box_collision());
    assert!(table.get(0, 2).bounding_box_collision());
    assert!(!table.get(1, 2).bounding_box_collision());
    table.get_mut(2, 1).colliding = true;
    assert!(table.get(1, 2).colliding);
    assert!(!table.get(0, 2).colliding);
}

#[test]
fn reset_colliding_keeps_everything_else() {
    let mut table = CollisionTable::new();
    table.generate(3);
    {
        let status = table.get_mut(2, 1);
        status.colliding = true;
        status.bounding_box = [true, false, true];
        status.contacts.push(Contact::VertexFace {
            vertex_face_indices: VertexFaceIndices {
                vertex_rigid_body: 1,
                vertex: 0,
                face_rigid_body: 2,
                face: 3,
            },
        });
    }
    table.reset_colliding();
    let status = table.get(1, 2);
    assert!(!status.colliding);
    assert_eq!(status.bounding_box, [true, false, true]);
    assert_eq!(status.contacts.len(), 1);
}

#[test]
fn partial_axis_overlap_is_no_collision() {
    let mut table = CollisionTable::new();
    table.generate(2);
    table.get_mut(0, 1).bounding_box = [true, true, false];
    assert!(!table.get(0, 1).bounding_box_collision());
    table.get_mut(0, 1).bounding_box[2] = true;
    assert!(table.get(0, 1).bounding_box_collision());
}
