use vstd::prelude::*;

use crate::grid::{
    build_grid, exposed, exposed_faces, get_sides, grid_of, heights_view, heights_wf, interior,
    CHUNK_SIZE,
};
use crate::mesh::{
    count_true, index_pattern, lemma_index_pattern, lemma_voxel_vertices_len, voxel_vertices,
    MeshReference, MeshVertex, VoxelMeshBuilder, VoxelPos,
};

verus! {

/// The quads of the voxel at `(x, y, z)`: one per exposed face if the voxel
/// is solid, none otherwise.
pub open spec fn cell_vertices(g: Seq<Seq<Seq<bool>>>, x: int, y: int, z: int) -> Seq<MeshVertex> {
    if g[x][y][z] {
        voxel_vertices(
            VoxelPos { x: x as u32, y: y as u32, z: z as u32 },
            exposed_faces(g, x, y, z),
            6,
        )
    } else {
        seq![]
    }
}

/// Number of exposed faces of the voxel at `(x, y, z)`, none if it is empty.
pub open spec fn cell_faces(g: Seq<Seq<Seq<bool>>>, x: int, y: int, z: int) -> nat {
    if g[x][y][z] {
        count_true(exposed_faces(g, x, y, z), 6)
    } else {
        0
    }
}

/// The quads of the voxels `(x, y, 1..z)`.
pub open spec fn row_vertices(g: Seq<Seq<Seq<bool>>>, x: int, y: int, z: int) -> Seq<MeshVertex>
    decreases z,
{
    if z <= 1 {
        seq![]
    } else {
        row_vertices(g, x, y, z - 1) + cell_vertices(g, x, y, z - 1)
    }
}

/// The quads of the rows `(x, 1..y)` of the chunk.
pub open spec fn layer_vertices(g: Seq<Seq<Seq<bool>>>, x: int, y: int) -> Seq<MeshVertex>
    decreases y,
{
    if y <= 1 {
        seq![]
    } else {
        layer_vertices(g, x, y - 1) + row_vertices(g, x, y - 1, CHUNK_SIZE + 1)
    }
}

/// The quads of the layers `1..x` of the chunk.
pub open spec fn vertices_upto(g: Seq<Seq<Seq<bool>>>, x: int) -> Seq<MeshVertex>
    decreases x,
{
    if x <= 1 {
        seq![]
    } else {
        vertices_upto(g, x - 1) + layer_vertices(g, x - 1, CHUNK_SIZE + 1)
    }
}

/// The vertex buffer of a chunk's mesh: the quads of its interior voxels,
/// visited by `x`, then `y`, then `z`.
pub open spec fn mesh_vertices(g: Seq<Seq<Seq<bool>>>) -> Seq<MeshVertex> {
    vertices_upto(g, CHUNK_SIZE + 1)
}

pub open spec fn row_faces(g: Seq<Seq<Seq<bool>>>, x: int, y: int, z: int) -> nat
    decreases z,
{
    if z <= 1 {
        0
    } else {
        row_faces(g, x, y, z - 1) + cell_faces(g, x, y, z - 1)
    }
}

pub open spec fn layer_faces(g: Seq<Seq<Seq<bool>>>, x: int, y: int) -> nat
    decreases y,
{
    if y <= 1 {
        0
    } else {
        layer_faces(g, x, y - 1) + row_faces(g, x, y - 1, CHUNK_SIZE + 1)
    }
}

pub open spec fn faces_upto(g: Seq<Seq<Seq<bool>>>, x: int) -> nat
    decreases x,
{
    if x <= 1 {
        0
    } else {
        faces_upto(g, x - 1) + layer_faces(g, x - 1, CHUNK_SIZE + 1)
    }
}

/// Number of exposed faces over all solid interior voxels of the chunk.
pub open spec fn exposed_face_count(g: Seq<Seq<Seq<bool>>>) -> nat {
    faces_upto(g, CHUNK_SIZE + 1)
}

proof fn lemma_cell(g: Seq<Seq<Seq<bool>>>, x: int, y: int, z: int)
    ensures
        cell_vertices(g, x, y, z).len() == 4 * cell_faces(g, x, y, z),
        cell_faces(g, x, y, z) <= 6,
{
    lemma_voxel_vertices_len(
        VoxelPos { x: x as u32, y: y as u32, z: z as u32 },
        exposed_faces(g, x, y, z),
        6,
    );
}

proof fn lemma_row(g: Seq<Seq<Seq<bool>>>, x: int, y: int, z: int)
    requires
        z >= 1,
    ensures
        row_vertices(g, x, y, z).len() == 4 * row_faces(g, x, y, z),
        row_faces(g, x, y, z) <= 6 * (z - 1),
    decreases z,
{
    if z > 1 {
        lemma_row(g, x, y, z - 1);
        lemma_cell(g, x, y, z - 1);
    }
}

proof fn lemma_layer(g: Seq<Seq<Seq<bool>>>, x: int, y: int)
    requires
        y >= 1,
    ensures
        layer_vertices(g, x, y).len() == 4 * layer_faces(g, x, y),
        layer_faces(g, x, y) <= 192 * (y - 1),
    decreases y,
{
    if y > 1 {
        lemma_layer(g, x, y - 1);
        lemma_row(g, x, y - 1, CHUNK_SIZE + 1);
    }
}

proof fn lemma_upto(g: Seq<Seq<Seq<bool>>>, x: int)
    requires
        x >= 1,
    ensures
        vertices_upto(g, x).len() == 4 * faces_upto(g, x),
        faces_upto(g, x) <= 6144 * (x - 1),
    decreases x,
{
    if x > 1 {
        lemma_upto(g, x - 1);
        lemma_layer(g, x - 1, CHUNK_SIZE + 1);
    }
}

/// For any occupancy grid, the mesh has four vertices and six indices per
/// exposed face, and every index names one of its vertices.
pub proof fn lemma_quad_count(g: Seq<Seq<Seq<bool>>>)
    ensures
        mesh_vertices(g).len() == 4 * exposed_face_count(g),
        index_pattern(exposed_face_count(g)).len() == 6 * exposed_face_count(g),
        exposed_face_count(g) <= 196608,
        forall|i: int|
            0 <= i < 6 * exposed_face_count(g) ==> #[trigger] index_pattern(exposed_face_count(g))[i]
                < mesh_vertices(g).len(),
{
    lemma_upto(g, CHUNK_SIZE + 1);
    lemma_index_pattern(exposed_face_count(g));
}

/// A voxel whose six neighbours are all solid exposes no face, so it adds
/// nothing to the mesh.
pub proof fn lemma_surrounded_hidden(g: Seq<Seq<Seq<bool>>>, x: int, y: int, z: int)
    requires
        interior(x, y, z),
        g[x - 1][y][z],
        g[x + 1][y][z],
        g[x][y - 1][z],
        g[x][y + 1][z],
        g[x][y][z - 1],
        g[x][y][z + 1],
    ensures
        forall|f: int| 0 <= f < 6 ==> !#[trigger] exposed(g, x, y, z, f),
        count_true(exposed_faces(g, x, y, z), 6) == 0,
        cell_vertices(g, x, y, z).len() == 0,
{
    reveal_with_fuel(count_true, 7);
    lemma_cell(g, x, y, z);
}

/// A voxel whose neighbours are all empty exposes all six faces, except the
/// bottom face on the lowest layer.
pub proof fn lemma_isolated_exposed(g: Seq<Seq<Seq<bool>>>, x: int, y: int, z: int)
    requires
        1 <= x <= CHUNK_SIZE,
        0 <= y <= CHUNK_SIZE,
        1 <= z <= CHUNK_SIZE,
        !g[x - 1][y][z],
        !g[x + 1][y][z],
        y > 0 ==> !g[x][y - 1][z],
        !g[x][y + 1][z],
        !g[x][y][z - 1],
        !g[x][y][z + 1],
    ensures
        forall|f: int| 0 <= f < 6 ==> #[trigger] exposed(g, x, y, z, f) == (f != 1 || y > 0),
        count_true(exposed_faces(g, x, y, z), 6) == if y > 0 {
            6nat
        } else {
            5nat
        },
{
    reveal_with_fuel(count_true, 7);
}

/// Builds the mesh of one chunk from its column heights and tags it `idx`.
///
/// The heights are sampled into a padded occupancy grid; each solid voxel of
/// the chunk proper then gives one quad per exposed face.
pub fn make_mesh(idx: u32, heights: &Vec<Vec<usize>>) -> (r: MeshReference)
    requires
        heights_wf(heights_view(heights)),
    ensures
        r.idx == idx,
        r.vertex_data@ == mesh_vertices(grid_of(heights_view(heights))),
        r.index_data@ == index_pattern(exposed_face_count(grid_of(heights_view(heights)))),
        r.vertex_data@.len() == 4 * exposed_face_count(grid_of(heights_view(heights))),
        r.index_data@.len() == 6 * exposed_face_count(grid_of(heights_view(heights))),
        forall|i: int| 0 <= i < r.index_data@.len() ==> #[trigger] r.index_data@[i] < r.vertex_data@.len(),
{
    let grid = build_grid(heights);
    let ghost g = grid@;
    let mut builder = VoxelMeshBuilder::new();
    let mut x: usize = 1;
    while x <= CHUNK_SIZE
        invariant
            grid.wf(),
            g == grid@,
            1 <= x <= CHUNK_SIZE + 1,
            builder.wf(),
            builder.vertices@ == vertices_upto(g, x as int),
        decreases CHUNK_SIZE + 1 - x,
    {
        let mut y: usize = 1;
        while y <= CHUNK_SIZE
            invariant
                grid.wf(),
                g == grid@,
                1 <= x <= CHUNK_SIZE,
                1 <= y <= CHUNK_SIZE + 1,
                builder.wf(),
                builder.vertices@ == vertices_upto(g, x as int) + layer_vertices(g, x as int, y as int),
            decreases CHUNK_SIZE + 1 - y,
        {
            let mut z: usize = 1;
            while z <= CHUNK_SIZE
                invariant
                    grid.wf(),
                    g == grid@,
                    1 <= x <= CHUNK_SIZE,
                    1 <= y <= CHUNK_SIZE,
                    1 <= z <= CHUNK_SIZE + 1,
                    builder.wf(),
                    builder.vertices@ == vertices_upto(g, x as int) + layer_vertices(
                        g,
                        x as int,
                        y as int,
                    ) + row_vertices(g, x as int, y as int, z as int),
                decreases CHUNK_SIZE + 1 - z,
            {
                let ghost before = builder.vertices@;
                proof {
                    lemma_upto(g, x as int);
                    lemma_layer(g, x as int, y as int);
                    lemma_row(g, x as int, y as int, z as int);
                }
                assert(before.len() == 4 * (faces_upto(g, x as int) + layer_faces(
                    g,
                    x as int,
                    y as int,
                ) + row_faces(g, x as int, y as int, z as int)));
                assert(before.len() + 24 <= u32::MAX);
                if grid.get(x, y, z) {
                    builder.set_position(VoxelPos { x: x as u32, y: y as u32, z: z as u32 })
                        .generate_voxel(get_sides(&grid, x, y, z));
                }
                assert(builder.vertices@ =~= vertices_upto(g, x as int) + layer_vertices(
                    g,
                    x as int,
                    y as int,
                ) + row_vertices(g, x as int, y as int, z + 1));
                z += 1;
            }
            assert(builder.vertices@ =~= vertices_upto(g, x as int) + layer_vertices(
                g,
                x as int,
                y + 1,
            ));
            y += 1;
        }
        assert(builder.vertices@ =~= vertices_upto(g, x + 1));
        x += 1;
    }
    proof {
        lemma_quad_count(g);
    }
    builder.build(idx)
}

/// Builds chunk meshes one after another, tagging each with the next id.
pub struct ChunkBuilder {
    idx: u32,
}

impl ChunkBuilder {
    /// The id that the next mesh will carry.
    pub closed spec fn next_idx(&self) -> u32 {
        self.idx
    }

    /// A builder whose first mesh carries id 1.
    pub fn new() -> (r: ChunkBuilder)
        ensures
            r.next_idx() == 1,
    {
        ChunkBuilder { idx: 1 }
    }

    /// Builds the mesh of the chunk with these column heights under the next
    /// id, and moves on to the id after it.
    pub fn make_mesh(&mut self, heights: &Vec<Vec<usize>>) -> (r: MeshReference)
        requires
            heights_wf(heights_view(heights)),
            old(self).next_idx() < u32::MAX,
        ensures
            r.idx == old(self).next_idx(),
            final(self).next_idx() == old(self).next_idx() + 1,
            r.vertex_data@ == mesh_vertices(grid_of(heights_view(heights))),
            r.index_data@ == index_pattern(exposed_face_count(grid_of(heights_view(heights)))),
    {
        let res = make_mesh(self.idx, heights);
        self.idx = self.idx + 1;
        res
    }
}

} // verus!
