use marshmallow_fm::camera::FIXED_ONE;
use marshmallow_fm::mesh::{Mesh, MeshBuilder, Vertex, VertexSemantics};

#[test]
fn triangle_has_its_three_corners() {
    let mesh = MeshBuilder {}.triangle();
    let half = FIXED_ONE / 2;
    let corners: Vec<([i32; 3], [u8; 3])> =
        mesh.vertices().iter().map(|v| (v.position(), v.color())).collect();
    assert_eq!(
        corners,
        vec![
            ([-half, -half, 0], [255, 0, 0]),
            ([half, -half, 0], [0, 255, 0]),
            ([0, half, 0], [0, 0, 255]),
        ]
    );
    assert_eq!(mesh.indices(), &vec![2, 1, 0]);
}

#[test]
fn vertices_alone_are_drawn_last_to_first() {
    let v = |i: i32| Vertex::new([i, 0, 0], [0, 0, 0]);
    let mesh = Mesh::from_vertices(vec![v(0), v(1), v(2), v(3), v(4)]);
    assert_eq!(mesh.indices(), &vec![4, 3, 2, 1, 0]);
    assert_eq!(mesh.vertices().len(), 5);
    assert_eq!(mesh.vertices()[3], v(3));
    let empty = Mesh::from_vertices(Vec::new());
    assert!(empty.indices().is_empty());
    let one = Mesh::from_vertices(vec![v(9)]);
    assert_eq!(one.indices(), &vec![0]);
}

#[test]
fn vertices_and_indices_are_kept_as_given() {
    let a = Vertex::new([1, 2, 3], [4, 5, 6]);
    let b = Vertex::new([-1, -2, -3], [7, 8, 9]);
    let mesh = Mesh::from_vertices_indices(vec![a, b], vec![1, 0, 1, 1]);
    assert_eq!(mesh.vertices(), &vec![a, b]);
    assert_eq!(mesh.indices(), &vec![1, 0, 1, 1]);
    assert_eq!(a.position(), [1, 2, 3]);
    assert_eq!(a.color(), [4, 5, 6]);
}

#[test]
fn semantics_have_their_names_and_places() {
    assert_eq!(VertexSemantics::Position.name(), "pos");
    assert_eq!(VertexSemantics::Color.name(), "color");
    assert_eq!(VertexSemantics::Position.index(), 0);
    assert_eq!(VertexSemantics::Color.index(), 1);
}
