use voxelizer::grid::{grid_volume, ingest_grid};
use voxelizer::layout::{Allocator, FlatMesh, FlatPointCloud};
use voxelizer::lifecycle::{Action, Call, Stage};
use voxelizer::model::{Colour, Mesh, PointCloud, Vector3, Vertex, VoxelError};

fn vertex(x: f32, y: f32, z: f32) -> Vertex {
    Vertex::new([x.to_bits(), y.to_bits(), z.to_bits()])
}

fn normal(x: f32, y: f32, z: f32) -> Vector3 {
    Vector3::new(x.to_bits(), y.to_bits(), z.to_bits())
}

fn colour(r: f32, g: f32, b: f32) -> Colour {
    Colour::new(r.to_bits(), g.to_bits(), b.to_bits())
}

fn unit_square(colours: Vec<Colour>) -> Mesh {
    Mesh::new(
        vec![
            vertex(-0.5, 0.5, 0.0),
            vertex(0.5, 0.5, 0.0),
            vertex(0.5, -0.5, 0.0),
            vertex(-0.5, -0.5, 0.0),
        ],
        colours,
        vec![normal(0.0, 0.0, 1.0); 4],
        vec![0, 1, 3, 1, 2, 3],
    )
}

fn square_colours() -> Vec<Colour> {
    vec![
        colour(1.0, 0.0, 0.0),
        colour(0.0, 1.0, 0.0),
        colour(0.0, 0.0, 1.0),
        colour(1.0, 1.0, 1.0),
    ]
}

#[test]
fn round_trip_without_colours() {
    let mesh = unit_square(Vec::new());
    let d = mesh.prepare().unwrap();
    let back = Mesh::from_vx(Some(&d.mesh)).unwrap();
    assert_eq!(back.vertices, mesh.vertices);
    assert!(back.colours.is_empty());
    assert_eq!(back.normals, mesh.normals);
    assert_eq!(back.indices, mesh.indices);
}

#[test]
fn round_trip_with_colours() {
    let mesh = unit_square(square_colours());
    let d = mesh.prepare().unwrap();
    let back = Mesh::from_vx(Some(&d.mesh)).unwrap();
    assert_eq!(back.vertices, mesh.vertices);
    assert_eq!(back.colours, mesh.colours);
    assert_eq!(back.normals, mesh.normals);
    assert_eq!(back.indices, mesh.indices);
}

#[test]
fn descriptor_duplicates_indices_and_sets_counts() {
    let mesh = unit_square(Vec::new());
    let d = mesh.allocate();
    assert_eq!(d.mesh.indices, vec![0, 1, 3, 1, 2, 3]);
    assert_eq!(d.mesh.normalindices, vec![0, 1, 3, 1, 2, 3]);
    assert_eq!(d.mesh.nindices, 6);
    assert_eq!(d.mesh.nvertices, 4);
    assert_eq!(d.mesh.nnormals, 4);
    assert_eq!(d.mesh.vertices[2], vertex(0.5, -0.5, 0.0));
    assert_eq!(d.mesh.normals[3], normal(0.0, 0.0, 1.0));
}

#[test]
fn allocator_follows_colour_presence() {
    assert_eq!(unit_square(square_colours()).allocator(), Allocator::Plain);
    assert_eq!(unit_square(Vec::new()).allocator(), Allocator::Coloured);
    assert_eq!(unit_square(square_colours()).allocate().allocator, Allocator::Plain);
    assert_eq!(unit_square(Vec::new()).allocate().allocator, Allocator::Coloured);
}

#[test]
fn partial_triangle_is_invalid_input() {
    let mut mesh = unit_square(Vec::new());
    mesh.indices = vec![0, 1, 3, 1, 2];
    assert_eq!(mesh.validate(), Err(VoxelError::InvalidInput));
    assert!(matches!(mesh.prepare(), Err(VoxelError::InvalidInput)));
    assert!(matches!(mesh.prepare_grid(4, 4, 4), Err(VoxelError::InvalidInput)));
}

#[test]
fn colours_not_parallel_to_vertices_are_invalid_input() {
    let mesh = unit_square(vec![colour(1.0, 0.0, 0.0)]);
    assert_eq!(mesh.validate(), Err(VoxelError::InvalidInput));
    assert!(matches!(mesh.prepare(), Err(VoxelError::InvalidInput)));
}

#[test]
fn empty_mesh_is_valid() {
    let mesh = Mesh::new(Vec::new(), Vec::new(), Vec::new(), Vec::new());
    assert_eq!(mesh.validate(), Ok(()));
    let d = mesh.prepare().unwrap();
    assert_eq!(d.mesh.nvertices, 0);
    assert_eq!(d.mesh.nindices, 0);
}

#[test]
fn grid_of_four_cubed_has_sixty_four_cells() {
    assert_eq!(grid_volume(4, 4, 4), Ok(64));
    let buffer: Vec<u32> = (0..70).collect();
    let grid = ingest_grid(Some(&buffer), 64).unwrap();
    assert_eq!(grid.len(), 64);
    assert_eq!(grid[63], 63);
    let (_, volume) = unit_square(Vec::new()).prepare_grid(4, 4, 4).unwrap();
    assert_eq!(volume, 64);
}

#[test]
fn grid_overflow_is_invalid_input() {
    assert_eq!(grid_volume(65536, 65536, 2), Err(VoxelError::InvalidInput));
    assert_eq!(grid_volume(2, 2, 1 << 30), Err(VoxelError::InvalidInput));
    assert_eq!(grid_volume(65536, 65535, 1), Ok(4294901760));
    assert!(matches!(
        unit_square(Vec::new()).prepare_grid(1 << 16, 1 << 16, 1),
        Err(VoxelError::InvalidInput)
    ));
}

#[test]
fn grid_with_zero_side_is_empty() {
    assert_eq!(grid_volume(65536, 65536, 0), Ok(0));
    assert_eq!(grid_volume(0, 7, 9), Ok(0));
    let grid = ingest_grid(Some(&Vec::new()), 0).unwrap();
    assert!(grid.is_empty());
}

#[test]
fn grid_failures_are_engine_failures() {
    assert_eq!(ingest_grid(None, 8), Err(VoxelError::EngineFailure));
    assert_eq!(ingest_grid(Some(&vec![1, 2, 3]), 8), Err(VoxelError::EngineFailure));
}

#[test]
fn null_results_are_engine_failures() {
    assert!(matches!(Mesh::from_vx(None), Err(VoxelError::EngineFailure)));
    assert!(matches!(PointCloud::from_vx(None), Err(VoxelError::EngineFailure)));
}

#[test]
fn counts_beyond_arrays_are_engine_failures() {
    let mut flat = unit_square(Vec::new()).allocate().mesh;
    flat.nindices = 7;
    assert!(matches!(Mesh::from_vx(Some(&flat)), Err(VoxelError::EngineFailure)));
    let cloud = FlatPointCloud {
        vertices: vec![vertex(0.0, 0.0, 0.0); 2],
        colors: vec![colour(0.0, 0.0, 0.0); 1],
        nvertices: 2,
    };
    assert!(matches!(PointCloud::from_vx(Some(&cloud)), Err(VoxelError::EngineFailure)));
}

#[test]
fn mesh_result_copies_only_counted_entries() {
    let flat = FlatMesh {
        vertices: vec![vertex(1.0, 2.0, 3.0), vertex(4.0, 5.0, 6.0), vertex(7.0, 8.0, 9.0)],
        colors: vec![colour(0.5, 0.5, 0.5), colour(0.25, 0.25, 0.25), colour(0.0, 0.0, 0.0)],
        normals: vec![normal(1.0, 0.0, 0.0), normal(0.0, 1.0, 0.0)],
        indices: vec![0, 1, 1, 2, 2, 0],
        normalindices: vec![0, 1, 1, 2, 2, 0],
        nindices: 3,
        nvertices: 2,
        nnormals: 1,
    };
    let mesh = Mesh::from_vx(Some(&flat)).unwrap();
    assert_eq!(mesh.vertices, vec![vertex(1.0, 2.0, 3.0), vertex(4.0, 5.0, 6.0)]);
    assert_eq!(mesh.colours, vec![colour(0.5, 0.5, 0.5), colour(0.25, 0.25, 0.25)]);
    assert_eq!(mesh.normals, vec![normal(1.0, 0.0, 0.0)]);
    assert_eq!(mesh.indices, vec![0, 1, 1]);
}

#[test]
fn point_cloud_result_is_copied_in_order() {
    let flat = FlatPointCloud {
        vertices: vec![vertex(0.1, 0.2, 0.3), vertex(0.4, 0.5, 0.6)],
        colors: vec![colour(1.0, 0.0, 0.0), colour(0.0, 1.0, 0.0)],
        nvertices: 2,
    };
    let cloud = PointCloud::from_vx(Some(&flat)).unwrap();
    assert_eq!(cloud.vertices, flat.vertices);
    assert_eq!(cloud.colours, flat.colors);
}

fn run_to_end(mut call: Call, present: bool) -> (Call, Vec<Action>) {
    let mut actions = Vec::new();
    loop {
        let a = call.next_action();
        actions.push(a);
        match a {
            Action::Return => return (call, actions),
            Action::CallEngine => call.engine_returned(present),
            _ => call.performed(),
        }
    }
}

#[test]
fn every_call_releases_what_it_allocated() {
    let (done, actions) = run_to_end(Call::begin(true), true);
    assert_eq!(done.stage, Stage::Finished);
    assert_eq!(done.allocations, 2);
    assert_eq!(done.releases, 2);
    assert_eq!(
        actions,
        vec![
            Action::CallEngine,
            Action::CopyResult,
            Action::ReleaseResult,
            Action::ReleaseDescriptor,
            Action::Return
        ]
    );
}

#[test]
fn null_result_still_releases_descriptor() {
    let (done, actions) = run_to_end(Call::begin(true), false);
    assert_eq!(done.allocations, 1);
    assert_eq!(done.releases, 1);
    assert_eq!(actions, vec![Action::CallEngine, Action::ReleaseDescriptor, Action::Return]);
}

#[test]
fn failed_descriptor_allocation_releases_nothing() {
    let (done, actions) = run_to_end(Call::begin(false), true);
    assert_eq!(done.allocations, 0);
    assert_eq!(done.releases, 0);
    assert_eq!(actions, vec![Action::Return]);
}
