use voxel_chunks::chunk::{make_mesh, ChunkBuilder};
use voxel_chunks::grid::{build_grid, get_sides, OccupancyGrid, CHUNK_SIZE, GRID_SIZE};
use voxel_chunks::mesh::{MeshVertex, VoxelMeshBuilder, VoxelPos};
use voxel_chunks::sides::{Sides, BOTTOM, FORWARD, LEFT, RIGHT, TOP};

fn flat_heights(h: usize) -> Vec<Vec<usize>> {
    vec![vec![h; GRID_SIZE]; GRID_SIZE]
}

fn empty_grid() -> OccupancyGrid {
    OccupancyGrid { cells: vec![vec![vec![false; GRID_SIZE]; GRID_SIZE]; GRID_SIZE] }
}

fn vertex(px: i64, py: i64, pz: i64, u: u32, v: u32) -> MeshVertex {
    MeshVertex { px, py, pz, u, v, nx: 0, ny: 1, nz: 0 }
}

#[test]
fn sides_face_bits_follow_table_order() {
    let bits: Vec<u32> = (0..6).map(|f| Sides::face(f).bits).collect();
    assert_eq!(bits, vec![1, 2, 4, 8, 16, 32]);
    assert_eq!(Sides::face(0).bits, TOP);
    assert_eq!(Sides::face(4).bits, FORWARD);
}

#[test]
fn sides_insert_and_contains() {
    let mut s = Sides::none();
    assert!(!s.contains(Sides::face(2)));
    s.insert(Sides::face(2));
    s.insert(Sides::face(3));
    assert_eq!(s.bits, LEFT | RIGHT);
    assert!(s.contains(Sides::face(2)));
    assert!(s.contains(Sides::face(3)));
    assert!(!s.contains(Sides::face(0)));
    assert!(s.contains(Sides::none()));
}

#[test]
fn grid_cells_follow_column_heights() {
    let mut heights = flat_heights(3);
    heights[5][7] = 40;
    heights[6][7] = 0;
    let grid = build_grid(&heights);
    assert!(grid.get(0, 0, 0));
    assert!(grid.get(1, 2, 1));
    assert!(!grid.get(1, 3, 1));
    assert!(!grid.get(6, 0, 7));
    // Column heights beyond the chunk stop at its top layer.
    assert!(grid.get(5, 31, 7));
    assert!(!grid.get(5, 32, 7));
    assert!(!grid.get(5, 33, 7));
}

#[test]
fn grid_build_is_deterministic() {
    let mut heights = flat_heights(10);
    for x in 0..GRID_SIZE {
        for z in 0..GRID_SIZE {
            heights[x][z] = (x * 7 + z * 3) % 40;
        }
    }
    let a = build_grid(&heights);
    let b = build_grid(&heights);
    assert_eq!(a.cells, b.cells);
}

#[test]
fn surrounded_voxel_has_no_sides() {
    let grid = build_grid(&flat_heights(CHUNK_SIZE));
    let s = get_sides(&grid, 10, 10, 10);
    assert_eq!(s.bits, 0);
}

#[test]
fn isolated_voxel_has_all_sides() {
    let mut grid = empty_grid();
    grid.cells[5][5][5] = true;
    let s = get_sides(&grid, 5, 5, 5);
    assert_eq!(s.bits, 0b111111);
}

#[test]
fn bottom_face_needs_empty_cell_below() {
    let mut grid = empty_grid();
    grid.cells[5][1][5] = true;
    grid.cells[5][0][5] = true;
    let s = get_sides(&grid, 5, 1, 5);
    assert_eq!(s.bits & BOTTOM, 0);
    assert_eq!(s.bits, 0b111101);
}

#[test]
fn top_quad_vertices_and_indices() {
    let mut b = VoxelMeshBuilder::new();
    b.set_position(VoxelPos { x: 1, y: 1, z: 1 });
    b.generate_voxel(Sides::face(0));
    let mesh = b.build(7);
    assert_eq!(mesh.idx, 7);
    assert_eq!(
        mesh.vertex_data,
        vec![
            vertex(1, 3, 1, 3, 0),
            vertex(3, 3, 1, 2, 0),
            vertex(3, 3, 3, 2, 1),
            vertex(1, 3, 3, 3, 1),
        ]
    );
    assert_eq!(mesh.index_data, vec![3, 1, 0, 3, 2, 1]);
}

#[test]
fn bottom_quad_corners() {
    let mut b = VoxelMeshBuilder::new();
    b.set_position(VoxelPos { x: 0, y: 0, z: 0 });
    b.generate_voxel(Sides::face(1));
    let mesh = b.build(1);
    let corners: Vec<(i64, i64, i64)> =
        mesh.vertex_data.iter().map(|v| (v.px, v.py, v.pz)).collect();
    assert_eq!(corners, vec![(-1, -1, 1), (1, -1, 1), (1, -1, -1), (-1, -1, -1)]);
}

#[test]
fn quads_get_consecutive_index_offsets() {
    let mut b = VoxelMeshBuilder::new();
    b.set_position(VoxelPos { x: 2, y: 2, z: 2 });
    let mut s = Sides::none();
    s.insert(Sides::face(0));
    s.insert(Sides::face(5));
    b.generate_voxel(s);
    b.move_position(VoxelPos { x: 1, y: 0, z: 0 });
    assert_eq!(b.current_cube_pos, VoxelPos { x: 3, y: 2, z: 2 });
    b.generate_voxel(Sides::face(3));
    let mesh = b.build(1);
    assert_eq!(mesh.vertex_data.len(), 12);
    assert_eq!(
        mesh.index_data,
        vec![3, 1, 0, 3, 2, 1, 7, 5, 4, 7, 6, 5, 11, 9, 8, 11, 10, 9]
    );
}

#[test]
fn flat_terrain_mesh_has_one_quad_per_column() {
    let mesh = make_mesh(3, &flat_heights(2));
    assert_eq!(mesh.idx, 3);
    assert_eq!(mesh.vertex_data.len(), 4 * CHUNK_SIZE * CHUNK_SIZE);
    assert_eq!(mesh.index_data.len(), 6 * CHUNK_SIZE * CHUNK_SIZE);
    assert!(mesh.vertex_data.iter().all(|v| v.py == 3));
}

#[test]
fn empty_terrain_gives_empty_mesh() {
    let mesh = make_mesh(1, &flat_heights(0));
    assert!(mesh.vertex_data.is_empty());
    assert!(mesh.index_data.is_empty());
}

#[test]
fn full_terrain_only_shows_its_shell() {
    // Cells at or above the chunk height are never solid, so only the top
    // of the highest solid layer shows; the padding columns hide the sides.
    let mesh = make_mesh(1, &flat_heights(100));
    assert_eq!(mesh.vertex_data.len(), 4 * CHUNK_SIZE * CHUNK_SIZE);
}

#[test]
fn single_raised_column_counts_its_faces() {
    let mut heights = flat_heights(2);
    heights[4][4] = 3;
    let mesh = make_mesh(1, &heights);
    // The flat top, plus the raised voxel's four sides.
    let faces = CHUNK_SIZE * CHUNK_SIZE + 4;
    assert_eq!(mesh.vertex_data.len(), 4 * faces);
    assert_eq!(mesh.index_data.len(), 6 * faces);
}

#[test]
fn mesh_indices_stay_in_range() {
    let mut heights = flat_heights(0);
    for x in 0..GRID_SIZE {
        for z in 0..GRID_SIZE {
            heights[x][z] = (x * 5 + z * 11) % 33;
        }
    }
    let mesh = make_mesh(9, &heights);
    assert_eq!(mesh.idx, 9);
    assert_eq!(mesh.vertex_data.len() % 4, 0);
    assert_eq!(mesh.index_data.len() % 6, 0);
    assert_eq!(mesh.index_data.len() / 6, mesh.vertex_data.len() / 4);
    assert!(mesh.index_data.iter().all(|&i| (i as usize) < mesh.vertex_data.len()));
}

#[test]
fn chunk_builder_numbers_meshes() {
    let mut cb = ChunkBuilder::new();
    let a = cb.make_mesh(&flat_heights(2));
    let b = cb.make_mesh(&flat_heights(0));
    assert_eq!(a.idx, 1);
    assert_eq!(b.idx, 2);
    assert_eq!(a.vertex_data.len(), 4 * CHUNK_SIZE * CHUNK_SIZE);
    assert!(b.vertex_data.is_empty());
}
