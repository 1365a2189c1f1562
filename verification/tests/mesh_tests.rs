use glam::UVec3;
use voxel_terrain::voxels::voxel_mesh::is_winding_reversed;
use voxel_terrain::voxels::voxel_mesh::vertex_axes;
use voxel_terrain::voxels::chunk_mesh::ChunkMesh;
use voxel_terrain::voxels::chunk_mesh::FacePlacement;
use voxel_terrain::voxels::voxel_mesh::MeshTemplates;
use voxel_terrain::voxels::voxel_mesh::SignedAxis;
use voxel_terrain::voxels::voxel_mesh::SubMesh;
use voxel_terrain::voxels::voxel_mesh::TemplateError;
use voxel_terrain::voxels::voxel_mesh::VertexAxes;
use voxel_terrain::voxels::voxel_mesh::VoxelMesh;
use voxel_terrain::voxels::voxel_mesh::MAX_SUB_MESH_VERTICES;
use voxel_terrain::voxels::voxel_mesh::PIECE_ALWAYS;
use voxel_terrain::voxels::voxel_shapes::voxel_shape;
use voxel_terrain::voxels::voxel_shapes::VoxelOrientation;
use voxel_terrain::voxels::voxel_shapes::VoxelShape;

fn quad() -> SubMesh {
    SubMesh { vertex_count: 4, indices: vec![0, 1, 2, 2, 1, 3] }
}

fn triangle() -> SubMesh {
    SubMesh { vertex_count: 3, indices: vec![0, 2, 1] }
}

fn cube_mesh() -> VoxelMesh {
    VoxelMesh {
        always: SubMesh::new(),
        north: quad(),
        south: quad(),
        east: quad(),
        west: quad(),
        top: quad(),
        bottom: quad(),
    }
}

fn prism_mesh() -> VoxelMesh {
    VoxelMesh {
        always: quad(),
        north: quad(),
        south: SubMesh::new(),
        east: triangle(),
        west: triangle(),
        top: SubMesh::new(),
        bottom: quad(),
    }
}

fn shapes() -> Vec<VoxelMesh> {
    let mut shapes = Vec::new();
    for _ in 0..7 {
        shapes.push(cube_mesh());
    }
    shapes.push(prism_mesh());
    shapes
}

fn axis(source: u8, negate: bool) -> SignedAxis {
    SignedAxis { source, negate }
}

#[test]
fn templates_are_accepted() {
    let templates = MeshTemplates::new(shapes()).ok().unwrap();
    assert_eq!(templates.get_voxel_mesh(voxel_shape::cube()).north.vertex_count, 4);
    assert_eq!(templates.get_voxel_mesh(voxel_shape::prism()).east.vertex_count, 3);
    let turned = voxel_shape::prism().oriented(VoxelOrientation { data: 0b_1101_1000 });
    assert_eq!(templates.get_voxel_mesh(turned).east.indices, vec![0, 2, 1]);
    assert_eq!(templates.get_voxel_mesh(turned).piece(2).vertex_count, 3);
    assert_eq!(templates.get_voxel_mesh(turned).piece(0).vertex_count, 4);
    assert_eq!(templates.get_voxel_mesh(turned).piece(1).vertex_count, 0);
    assert_eq!(templates.get_voxel_mesh(turned).piece(3).vertex_count, 3);
    assert_eq!(templates.get_voxel_mesh(turned).piece(4).vertex_count, 0);
    assert_eq!(templates.get_voxel_mesh(turned).piece(5).vertex_count, 4);
    assert_eq!(templates.get_voxel_mesh(turned).piece(PIECE_ALWAYS).indices.len(), 6);
}

#[test]
fn seven_templates_are_too_few() {
    let mut seven = shapes();
    seven.pop();
    assert_eq!(MeshTemplates::new(seven).err(), Some(TemplateError::VariantCount));
    let mut nine = shapes();
    nine.push(cube_mesh());
    assert_eq!(MeshTemplates::new(nine).err(), Some(TemplateError::VariantCount));
    assert_eq!(MeshTemplates::new(Vec::new()).err(), Some(TemplateError::VariantCount));
}

#[test]
fn an_index_beyond_the_vertices_is_refused() {
    let mut bad = shapes();
    bad[3].west = SubMesh { vertex_count: 4, indices: vec![0, 1, 4] };
    assert_eq!(MeshTemplates::new(bad).err(), Some(TemplateError::IndexOutOfRange));
}

#[test]
fn indices_that_do_not_come_in_threes_are_refused() {
    let mut bad = shapes();
    bad[7].always = SubMesh { vertex_count: 4, indices: vec![0, 1, 2, 3] };
    assert_eq!(MeshTemplates::new(bad).err(), Some(TemplateError::PartialTriangle));
}

#[test]
fn too_many_vertices_are_refused() {
    let mut bad = shapes();
    bad[0].top = SubMesh { vertex_count: MAX_SUB_MESH_VERTICES + 1, indices: vec![0, 1, 2] };
    assert_eq!(MeshTemplates::new(bad).err(), Some(TemplateError::TooManyVertices));
    let mut good = shapes();
    good[0].top = SubMesh { vertex_count: MAX_SUB_MESH_VERTICES, indices: vec![0, 1, 2] };
    assert!(MeshTemplates::new(good).is_ok());
    assert_eq!(MAX_SUB_MESH_VERTICES as u64, u32::MAX as u64 / (4096 * 7));
}

#[test]
fn faults_are_reported_in_order() {
    let mut bad = shapes();
    bad[0].top = SubMesh { vertex_count: MAX_SUB_MESH_VERTICES + 1, indices: vec![0, 1, 2] };
    bad[1].north = SubMesh { vertex_count: 4, indices: vec![0, 1] };
    assert_eq!(MeshTemplates::new(bad).err(), Some(TemplateError::PartialTriangle));
    let mut worse = shapes();
    worse[0].top = SubMesh { vertex_count: MAX_SUB_MESH_VERTICES + 1, indices: vec![0, 1, 2] };
    worse[1].north = SubMesh { vertex_count: 4, indices: vec![0, 1] };
    worse[6].bottom = SubMesh { vertex_count: 0, indices: vec![0, 0, 0] };
    assert_eq!(MeshTemplates::new(worse).err(), Some(TemplateError::IndexOutOfRange));
}

#[test]
fn placed_indices_follow_the_vertices_before_them() {
    let templates = MeshTemplates::new(shapes()).ok().unwrap();
    let mut mesh = ChunkMesh::new();
    assert_eq!(mesh.vertex_count, 0);
    let at = |piece: u8, shape: VoxelShape| FacePlacement {
        position: UVec3::new(1, 2, 3),
        shape,
        id: 2,
        piece,
    };
    mesh.append_mesh(&templates, at(PIECE_ALWAYS, voxel_shape::cube()));
    assert_eq!(mesh.vertex_count, 0);
    assert!(mesh.indices.is_empty());
    mesh.append_mesh(&templates, at(0, voxel_shape::cube()));
    assert_eq!(mesh.vertex_count, 4);
    assert_eq!(mesh.indices, vec![0, 1, 2, 2, 1, 3]);
    mesh.append_mesh(&templates, at(2, voxel_shape::prism()));
    assert_eq!(mesh.vertex_count, 7);
    assert_eq!(mesh.indices, vec![0, 1, 2, 2, 1, 3, 4, 6, 5]);
    // One flip reverses the order of the indices.
    let flipped = voxel_shape::cube().oriented(VoxelOrientation { data: 0b_0000_1000 });
    mesh.append_mesh(&templates, at(4, flipped));
    assert_eq!(mesh.vertex_count, 11);
    assert_eq!(mesh.indices, vec![0, 1, 2, 2, 1, 3, 4, 6, 5, 10, 8, 9, 9, 8, 7]);
    // Two flips do not.
    let twice = voxel_shape::prism().oriented(VoxelOrientation { data: 0b_0010_1000 });
    mesh.append_mesh(&templates, at(3, twice));
    assert_eq!(mesh.vertex_count, 14);
    assert_eq!(&mesh.indices[15..], &[11, 13, 12]);
    assert_eq!(mesh.placements.len(), 5);
    assert_eq!(mesh.placements[3], at(4, flipped));
}

#[test]
fn winding_is_reversed_by_an_odd_number_of_flips() {
    for data in 0..=255u8 {
        let shape = VoxelShape { data };
        let flips = shape.extract_flip_x() as u32 + shape.extract_flip_y() as u32 + shape.extract_flip_z() as u32;
        assert_eq!(is_winding_reversed(shape), flips % 2 == 1);
    }
}

#[test]
fn vertex_axes_by_hand() {
    let axes = |data: u8| vertex_axes(VoxelShape { data });
    assert_eq!(axes(0), VertexAxes { x: axis(0, false), y: axis(1, false), z: axis(2, false) });
    // The variant has no part in it.
    assert_eq!(axes(7), axes(0));
    assert_eq!(axes(0x08), VertexAxes { x: axis(0, true), y: axis(1, false), z: axis(2, false) });
    assert_eq!(axes(0x10), VertexAxes { x: axis(0, false), y: axis(1, true), z: axis(2, false) });
    assert_eq!(axes(0x20), VertexAxes { x: axis(0, false), y: axis(1, false), z: axis(2, true) });
    // About X: y takes z, z takes y negated.
    assert_eq!(axes(0x40), VertexAxes { x: axis(0, false), y: axis(2, false), z: axis(1, true) });
    // About Z: x takes y, y takes x negated.
    assert_eq!(axes(0x80), VertexAxes { x: axis(1, false), y: axis(0, true), z: axis(2, false) });
    // About X, then about Z.
    assert_eq!(axes(0xC0), VertexAxes { x: axis(2, false), y: axis(0, true), z: axis(1, true) });
    // A flip along Y before the turn about X.
    assert_eq!(axes(0x50), VertexAxes { x: axis(0, false), y: axis(2, false), z: axis(1, false) });
}

#[test]
fn vertex_axes_agree_with_the_steps_on_a_vertex() {
    for data in (0..=255u8).step_by(8) {
        let shape = VoxelShape { data };
        let mut p = [1i32, 2, 3];
        if shape.extract_flip_x() {
            p[0] = -p[0];
        }
        if shape.extract_flip_y() {
            p[1] = -p[1];
        }
        if shape.extract_flip_z() {
            p[2] = -p[2];
        }
        if shape.extract_rotate_x() {
            p = [p[0], p[2], -p[1]];
        }
        if shape.extract_rotate_z() {
            p = [p[1], -p[0], p[2]];
        }
        let axes = vertex_axes(shape);
        let template = [1i32, 2, 3];
        let placed = |a: SignedAxis| if a.negate { -template[a.source as usize] } else { template[a.source as usize] };
        assert_eq!([placed(axes.x), placed(axes.y), placed(axes.z)], p);
    }
}
