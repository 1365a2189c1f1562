use glam::IVec3;
use glam::UVec3;
use voxel_terrain::voxels::voxel_chunk::Density;
use voxel_terrain::voxels::voxel_chunk::VoxelChunk;
use voxel_terrain::voxels::voxel_chunk::DEEP_ID;
use voxel_terrain::voxels::voxel_chunk::SURFACE_ID;
use voxel_terrain::voxels::voxel_mesh::MeshTemplates;
use voxel_terrain::voxels::voxel_mesh::SubMesh;
use voxel_terrain::voxels::voxel_mesh::VoxelMesh;
use voxel_terrain::voxels::voxel_mesh::PIECE_ALWAYS;
use voxel_terrain::voxels::voxel_scene::InitializationRequest;
use voxel_terrain::voxels::voxel_scene::VoxelScene;
use voxel_terrain::voxels::voxel_shapes::voxel_directions;
use voxel_terrain::voxels::voxel_shapes::voxel_shape;

/// The density field of a chunk, in the order of the samples, from a
/// density given for each scene-space position.
fn sample(chunk: IVec3, density: &dyn Fn(IVec3) -> f32) -> Vec<Density> {
    let mut samples = Vec::new();
    for z in 0..16 {
        for y in 0..16 {
            for x in 0..16 {
                let value = density(chunk * 16 + IVec3::new(x, y, z));
                samples.push(if value <= 0.0 {
                    Density::Air
                } else if value <= 0.5 {
                    Density::Surface
                } else {
                    Density::Deep
                });
            }
        }
    }
    samples
}

/// Solid below height zero, air from there on.
fn half_space(position: IVec3) -> f32 {
    if position.y < 0 {
        1.0
    } else {
        -1.0
    }
}

fn quad() -> SubMesh {
    SubMesh { vertex_count: 4, indices: vec![0, 1, 2, 2, 1, 3] }
}

fn cube_templates() -> MeshTemplates {
    let mut shapes = Vec::new();
    for _ in 0..8 {
        shapes.push(VoxelMesh {
            always: SubMesh::new(),
            north: quad(),
            south: quad(),
            east: quad(),
            west: quad(),
            top: quad(),
            bottom: quad(),
        });
    }
    MeshTemplates::new(shapes).ok().unwrap()
}

/// Runs the three stages by turns until nothing is left to send, and gives
/// the coordinates that reached the mesher, in order.
fn run(
    scene: &mut VoxelScene,
    mut requests: Vec<InitializationRequest>,
    density: &dyn Fn(IVec3) -> f32,
    initialize_neighbours: bool,
) -> (Vec<IVec3>, Vec<IVec3>) {
    let mut waiting: Vec<IVec3> = Vec::new();
    let mut meshed: Vec<IVec3> = Vec::new();
    for _ in 0..64 {
        let mut announced = Vec::new();
        for request in requests.drain(..) {
            let samples = sample(request.position, density);
            if let Some(position) = scene.initialization_processor(request, &samples) {
                announced.push(position);
            }
        }
        if announced.is_empty() && waiting.is_empty() {
            break;
        }
        let before = waiting.len();
        let output = scene.generation_pre_processor(announced, &mut waiting);
        meshed.extend(output.to_mesh);
        if initialize_neighbours {
            for position in output.to_initialize {
                requests.push(InitializationRequest { position, notify: false });
            }
        } else if waiting.len() == before && output.to_initialize.is_empty() {
            break;
        }
    }
    (meshed, waiting)
}

#[test]
fn chunk_at_is_floor_division() {
    assert_eq!(VoxelScene::chunk_at(&IVec3::new(0, 15, 16)), IVec3::new(0, 0, 1));
    assert_eq!(VoxelScene::chunk_at(&IVec3::new(-1, -16, -17)), IVec3::new(-1, -1, -2));
    assert_eq!(VoxelScene::chunk_at(&IVec3::new(31, 32, -32)), IVec3::new(1, 2, -2));
    assert_eq!(
        VoxelScene::chunk_at(&IVec3::new(i32::MAX, i32::MIN, 0)),
        IVec3::new(134_217_727, -134_217_728, 0)
    );
}

#[test]
fn second_request_for_a_chunk_is_not_sent() {
    let mut scene = VoxelScene::new();
    let position = IVec3::new(2, 0, -5);
    assert!(!scene.is_requested(&position));
    let first = scene.initialize_and_generate_chunk(position);
    assert_eq!(first, Some(InitializationRequest { position, notify: true }));
    assert!(scene.is_requested(&position));
    assert_eq!(scene.initialize_and_generate_chunk(position), None);
    assert_eq!(scene.request_initialize_chunk(InitializationRequest { position, notify: false }), None);
    let other = InitializationRequest { position: IVec3::new(2, 0, -4), notify: false };
    assert_eq!(scene.request_initialize_chunk(other), Some(other));
    assert_eq!(scene.request_initialize_chunk(other), None);
}

#[test]
fn a_chunk_is_stored_once() {
    let mut scene = VoxelScene::new();
    let position = IVec3::new(0, -1, 0);
    let request = scene.initialize_and_generate_chunk(position).unwrap();
    assert!(scene.initialize_and_generate_chunk(position).is_none());
    let solid = sample(position, &half_space);
    assert_eq!(scene.initialization_processor(request, &solid), Some(position));
    assert!(scene.chunks().contains_key(&position));
    assert_eq!(scene.voxel_at(&IVec3::new(3, -1, 3)).map(|v| v.id), Some(DEEP_ID));
    // A second arrival of the request changes nothing and announces nothing.
    let air = sample(IVec3::new(0, 0, 0), &half_space);
    assert_eq!(scene.initialization_processor(request, &air), None);
    assert_eq!(scene.voxel_at(&IVec3::new(3, -1, 3)).map(|v| v.id), Some(DEEP_ID));
    assert!(!scene.chunks().get(&position).unwrap().is_empty());
    // Without the wish to be told, nothing is announced either.
    let silent = InitializationRequest { position: IVec3::new(0, -2, 0), notify: false };
    assert_eq!(scene.initialization_processor(silent, &solid), None);
    assert!(scene.chunks().contains_key(&IVec3::new(0, -2, 0)));
}

#[test]
fn voxel_at_finds_the_chunk() {
    let mut scene = VoxelScene::new();
    let density = |p: IVec3| if p == IVec3::new(-1, -1, -1) { 1.0 } else if p.y == 20 { 0.25 } else { 0.0 };
    for position in [IVec3::new(-1, -1, -1), IVec3::new(0, 1, 0)] {
        let request = InitializationRequest { position, notify: false };
        scene.initialization_processor(request, &sample(position, &density));
    }
    assert_eq!(scene.voxel_at(&IVec3::new(-1, -1, -1)).map(|v| v.id), Some(DEEP_ID));
    assert_eq!(scene.voxel_at(&IVec3::new(-16, -16, -16)).map(|v| v.id), Some(0));
    assert_eq!(scene.voxel_at(&IVec3::new(5, 20, 9)).map(|v| v.id), Some(SURFACE_ID));
    assert_eq!(scene.voxel_at(&IVec3::new(5, 20, 9)).map(|v| v.shape), Some(voxel_shape::cube()));
    assert_eq!(scene.voxel_at(&IVec3::new(5, 21, 9)).map(|v| v.id), Some(0));
    // No chunk is stored there.
    assert!(scene.voxel_at(&IVec3::new(0, 0, 0)).is_none());
    assert!(scene.voxel_at(&IVec3::new(-17, -1, -1)).is_none());
    assert!(scene.voxel_at(&IVec3::new(i32::MIN, i32::MAX, 0)).is_none());
}

#[test]
fn lone_chunk_waits_for_its_neighbours() {
    let mut scene = VoxelScene::new();
    let position = IVec3::new(0, -1, 0);
    let request = scene.initialize_and_generate_chunk(position).unwrap();
    let (meshed, waiting) = run(&mut scene, vec![request], &half_space, false);
    assert!(meshed.is_empty());
    assert_eq!(waiting, vec![position]);
    // The six neighbours were asked for, once each.
    for direction in voxel_directions::all() {
        assert!(scene.is_requested(&(position + direction.as_vec())));
        assert!(!scene.chunks().contains_key(&(position + direction.as_vec())));
    }
    // Another round asks for nothing new and still lets nothing through.
    let output = scene.generation_pre_processor(Vec::new(), &mut vec![position]);
    assert!(output.to_mesh.is_empty());
    assert!(output.to_initialize.is_empty());
}

#[test]
fn gate_asks_for_missing_neighbours_in_the_order_of_the_directions() {
    let mut scene = VoxelScene::new();
    let position = IVec3::new(4, 4, 4);
    let mut waiting = Vec::new();
    let output = scene.generation_pre_processor(vec![position, IVec3::new(4, 4, 6)], &mut waiting);
    assert!(output.to_mesh.is_empty());
    assert_eq!(waiting, vec![position, IVec3::new(4, 4, 6)]);
    assert_eq!(
        output.to_initialize,
        vec![
            IVec3::new(4, 4, 5),
            IVec3::new(4, 4, 3),
            IVec3::new(5, 4, 4),
            IVec3::new(3, 4, 4),
            IVec3::new(4, 5, 4),
            IVec3::new(4, 3, 4),
            // (4, 4, 5) again lies south of the second chunk, and is not asked for twice.
            IVec3::new(4, 4, 7),
            IVec3::new(5, 4, 6),
            IVec3::new(3, 4, 6),
            IVec3::new(4, 5, 6),
            IVec3::new(4, 3, 6),
        ]
    );
}

#[test]
fn chunks_held_back_come_after_those_received() {
    let mut scene = VoxelScene::new();
    let mut waiting = vec![IVec3::new(9, 0, 0), IVec3::new(8, 0, 0)];
    scene.generation_pre_processor(vec![IVec3::new(7, 0, 0)], &mut waiting);
    assert_eq!(waiting, vec![IVec3::new(7, 0, 0), IVec3::new(9, 0, 0), IVec3::new(8, 0, 0)]);
}

#[test]
fn chunk_at_the_edge_of_the_grid_is_held_back() {
    let mut scene = VoxelScene::new();
    let position = IVec3::new(i32::MAX, 0, 0);
    let mut waiting = Vec::new();
    let output = scene.generation_pre_processor(vec![position], &mut waiting);
    assert_eq!(waiting, vec![position]);
    assert_eq!(output.to_initialize.len(), 5);
    assert!(!output.to_initialize.contains(&IVec3::new(i32::MIN, 0, 0)));
}

#[test]
fn flat_world_shows_only_the_top_of_the_ground() {
    let mut scene = VoxelScene::new();
    let ground = IVec3::new(0, -1, 0);
    let sky = IVec3::new(0, 0, 0);
    let mut requests = Vec::new();
    let mut asked = vec![sky, ground];
    for direction in voxel_directions::all() {
        asked.push(sky + direction.as_vec());
        asked.push(ground + direction.as_vec());
    }
    for position in asked {
        if let Some(request) = scene.initialize_and_generate_chunk(position) {
            requests.push(request);
        }
    }
    let (meshed, _waiting) = run(&mut scene, requests, &half_space, true);
    // The chunk above the ground is all air: it never reaches the mesher.
    assert!(!meshed.contains(&sky));
    assert!(scene.chunks().get(&sky).unwrap().is_empty());
    assert!(meshed.contains(&ground));
    assert_eq!(meshed.iter().filter(|p| **p == ground).count(), 1);

    let templates = cube_templates();
    let mesh = scene.generation_processor(ground, &templates).unwrap();
    let faces: Vec<_> = mesh.placements.iter().filter(|p| p.piece != PIECE_ALWAYS).collect();
    assert_eq!(faces.len(), 256);
    for (k, face) in faces.iter().enumerate() {
        assert_eq!(face.piece, voxel_directions::up().data);
        assert_eq!(face.position, UVec3::new(k as u32 / 16, 15, k as u32 % 16));
        assert_eq!(face.id, DEEP_ID);
        assert_eq!(face.shape, voxel_shape::cube());
    }
    assert_eq!(mesh.placements.len(), 4096 + 256);
    assert_eq!(mesh.vertex_count, 256 * 4);
    assert_eq!(mesh.indices.len(), 256 * 6);
    assert_eq!(&mesh.indices[..12], &[0, 1, 2, 2, 1, 3, 4, 5, 6, 6, 5, 7]);
    assert_eq!(mesh.indices[256 * 6 - 1], 1023);

    // The mesh of the air above is empty.
    let nothing = scene.generation_processor(sky, &templates).unwrap();
    assert!(nothing.placements.is_empty());
    assert!(nothing.indices.is_empty());
    assert_eq!(nothing.vertex_count, 0);
}

#[test]
fn chunk_without_neighbours_shows_its_outside() {
    let mut scene = VoxelScene::new();
    let position = IVec3::new(3, 3, 3);
    let request = InitializationRequest { position, notify: false };
    scene.initialization_processor(request, &sample(position, &|_| 1.0));
    let templates = cube_templates();
    let mesh = scene.generation_processor(position, &templates).unwrap();
    let faces = mesh.placements.iter().filter(|p| p.piece != PIECE_ALWAYS).count();
    assert_eq!(faces, 6 * 256);
    // The first voxel, in the corner, shows south, west and bottom.
    let first: Vec<u8> = mesh.placements[..4].iter().map(|p| p.piece).collect();
    assert_eq!(first, vec![PIECE_ALWAYS, 1, 3, 5]);
    assert!(scene.generation_processor(IVec3::new(3, 3, 4), &templates).is_none());
}

#[test]
fn faces_between_chunks_are_hidden_by_the_neighbour() {
    let mut scene = VoxelScene::new();
    let position = IVec3::new(0, 0, 0);
    let east = IVec3::new(1, 0, 0);
    for chunk in [position, east] {
        scene.initialization_processor(
            InitializationRequest { position: chunk, notify: false },
            &sample(chunk, &|_| 1.0),
        );
    }
    let templates = cube_templates();
    let mesh = scene.generation_processor(position, &templates).unwrap();
    let count = |piece: u8| mesh.placements.iter().filter(|p| p.piece == piece).count();
    assert_eq!(count(voxel_directions::east().data), 0);
    assert_eq!(count(voxel_directions::west().data), 256);
    assert_eq!(count(voxel_directions::north().data), 256);
    let other = scene.generation_processor(east, &templates).unwrap();
    let count = |piece: u8| other.placements.iter().filter(|p| p.piece == piece).count();
    assert_eq!(count(voxel_directions::west().data), 0);
    assert_eq!(count(voxel_directions::east().data), 256);
}

#[test]
fn a_slab_does_not_hide_the_cube_below_it() {
    let mut samples = sample(IVec3::ZERO, &|p| if p.y <= 1 && p.x == 0 && p.z == 0 { 1.0 } else { 0.0 });
    let below = VoxelChunk::from_densities(IVec3::ZERO, &samples);
    assert!(!below.is_empty());
    samples.clear();
    let mut scene = VoxelScene::new();
    let mut chunk = below;
    // The upper of the two voxels becomes a slab, standing on its head.
    let standing = voxel_shape::slab();
    chunk.set_voxel_shape(&UVec3::new(0, 1, 0), standing);
    let templates = cube_templates();
    let mesh = chunk.generate_mesh(scene.chunks(), &templates, scene.shape_orientations());
    let pieces_at = |y: u32| -> Vec<u8> {
        mesh.placements.iter().filter(|p| p.position == UVec3::new(0, y, 0)).map(|p| p.piece).collect()
    };
    // The slab fills its bottom, and so hides the top of the cube below.
    assert_eq!(pieces_at(0), vec![PIECE_ALWAYS, 0, 1, 2, 3, 5]);
    // The cube fills its top, and so hides the bottom of the slab.
    assert_eq!(pieces_at(1), vec![PIECE_ALWAYS, 0, 1, 2, 3, 4]);
    // Turned upside down, the slab shows the cube's top through its empty side.
    let mut scene_chunk = chunk.clone();
    scene_chunk.set_voxel_shape(
        &UVec3::new(0, 1, 0),
        standing.oriented(voxel_terrain::voxels::voxel_shapes::VoxelOrientation { data: 0b_0001_0000 }),
    );
    let mesh = scene_chunk.generate_mesh(scene.chunks(), &templates, scene.shape_orientations());
    let lower: Vec<u8> = mesh
        .placements
        .iter()
        .filter(|p| p.position == UVec3::new(0, 0, 0))
        .map(|p| p.piece)
        .collect();
    assert_eq!(lower, vec![PIECE_ALWAYS, 0, 1, 2, 3, 4, 5]);
    let _ = &mut scene;
}
