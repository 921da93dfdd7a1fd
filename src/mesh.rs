use vstd::prelude::*;

use crate::sides::{Sides, FACE_COUNT};

verus! {

/// A voxel position: the cursor of the mesh builder.
#[derive(Clone, Copy, Debug, PartialEq, Eq, Structural)]
pub struct VoxelPos {
    pub x: u32,
    pub y: u32,
    pub z: u32,
}

/// One vertex of a chunk mesh, in exact integer units.
///
/// The position is in half voxel units (a cube centred on voxel `p` spans
/// `2p - 1 ..= 2p + 1`), the texture coordinate in sixteenths of the atlas,
/// and the normal is a unit vector along an axis.
#[derive(Clone, Copy, Debug, PartialEq, Eq, Structural)]
pub struct MeshVertex {
    pub px: i64,
    pub py: i64,
    pub pz: i64,
    pub u: u32,
    pub v: u32,
    pub nx: i32,
    pub ny: i32,
    pub nz: i32,
}

/// The finished mesh of one chunk, tagged with the id of the job that built it.
pub struct MeshReference {
    pub idx: u32,
    pub vertex_data: Vec<MeshVertex>,
    pub index_data: Vec<u32>,
}

/// Offset of cube corner `c` from the cube's centre, in half units, on x.
pub open spec fn corner_x(c: int) -> int {
    if c == 1 || c == 2 || c == 5 || c == 6 {
        1
    } else {
        -1
    }
}

/// Offset of cube corner `c` on y: corners `4..8` form the upper face.
pub open spec fn corner_y(c: int) -> int {
    if c >= 4 {
        1
    } else {
        -1
    }
}

/// Offset of cube corner `c` on z.
pub open spec fn corner_z(c: int) -> int {
    if c == 0 || c == 1 || c == 4 || c == 5 {
        1
    } else {
        -1
    }
}

/// The four cube corners of face `f`, in emission order.
pub open spec fn side_row(f: int) -> Seq<int> {
    if f == 0 {
        seq![7, 6, 5, 4]
    } else if f == 1 {
        seq![0, 1, 2, 3]
    } else if f == 2 {
        seq![7, 4, 0, 3]
    } else if f == 3 {
        seq![5, 6, 2, 1]
    } else if f == 4 {
        seq![4, 5, 1, 0]
    } else {
        seq![6, 7, 3, 2]
    }
}

/// Which texture corner the `k`-th vertex of a quad takes.
pub open spec fn uv_order(k: int) -> int {
    seq![3int, 2, 0, 1][k]
}

/// Texture corner `t`, horizontal, in sixteenths.
pub open spec fn uv_u(t: int) -> int {
    if t == 1 || t == 3 {
        3
    } else {
        2
    }
}

/// Texture corner `t`, vertical, in sixteenths.
pub open spec fn uv_v(t: int) -> int {
    if t <= 1 {
        1
    } else {
        0
    }
}

/// The `k`-th vertex of the quad for face `f` of the cube at `p`.
pub open spec fn quad_vertex(p: VoxelPos, f: int, k: int) -> MeshVertex {
    let c = side_row(f)[k];
    let t = uv_order(k);
    MeshVertex {
        px: (2 * p.x + corner_x(c)) as i64,
        py: (2 * p.y + corner_y(c)) as i64,
        pz: (2 * p.z + corner_z(c)) as i64,
        u: uv_u(t) as u32,
        v: uv_v(t) as u32,
        nx: 0,
        ny: 1,
        nz: 0,
    }
}

/// The four vertices of the quad for face `f` of the cube at `p`.
pub open spec fn quad_vertices(p: VoxelPos, f: int) -> Seq<MeshVertex> {
    seq![quad_vertex(p, f, 0), quad_vertex(p, f, 1), quad_vertex(p, f, 2), quad_vertex(p, f, 3)]
}

/// The two triangles of a quad whose first vertex has index `o`.
pub open spec fn quad_indices(o: int) -> Seq<u32> {
    seq![(o + 3) as u32, (o + 1) as u32, o as u32, (o + 3) as u32, (o + 2) as u32, (o + 1) as u32]
}

/// The index buffer of `q` quads laid out one after another.
pub open spec fn index_pattern(q: nat) -> Seq<u32>
    decreases q,
{
    if q == 0 {
        seq![]
    } else {
        index_pattern((q - 1) as nat) + quad_indices(4 * (q - 1))
    }
}

/// The quads for the faces among `0..n` that `faces` marks, on the cube at `p`.
pub open spec fn voxel_vertices(p: VoxelPos, faces: Seq<bool>, n: int) -> Seq<MeshVertex>
    decreases n,
{
    if n <= 0 {
        seq![]
    } else {
        voxel_vertices(p, faces, n - 1) + (if faces[n - 1] {
            quad_vertices(p, n - 1)
        } else {
            seq![]
        })
    }
}

/// How many of the first `n` flags are set.
pub open spec fn count_true(faces: Seq<bool>, n: int) -> nat
    decreases n,
{
    if n <= 0 {
        0
    } else {
        count_true(faces, n - 1) + (if faces[n - 1] { 1nat } else { 0nat })
    }
}

/// Each marked face gives four vertices.
pub proof fn lemma_voxel_vertices_len(p: VoxelPos, faces: Seq<bool>, n: int)
    requires
        0 <= n,
    ensures
        voxel_vertices(p, faces, n).len() == 4 * count_true(faces, n),
        count_true(faces, n) <= n,
    decreases n,
{
    if n > 0 {
        lemma_voxel_vertices_len(p, faces, n - 1);
    }
}

/// `q` quads take `6q` indices, each naming one of the `4q` vertices.
pub proof fn lemma_index_pattern(q: nat)
    requires
        4 * q <= u32::MAX,
    ensures
        index_pattern(q).len() == 6 * q,
        forall|i: int| 0 <= i < 6 * q ==> #[trigger] index_pattern(q)[i] < 4 * q,
    decreases q,
{
    if q > 0 {
        lemma_index_pattern((q - 1) as nat);
        let prev = index_pattern((q - 1) as nat);
        let o = 4 * (q - 1);
        assert forall|i: int| 0 <= i < 6 * q implies #[trigger] index_pattern(q)[i] < 4 * q by {
            if i < 6 * (q - 1) {
                assert(index_pattern(q)[i] == prev[i]);
            } else {
                assert(index_pattern(q)[i] == quad_indices(o)[i - 6 * (q - 1)]);
            }
        }
    }
}

/// Picks the `k`-th of four values.
fn pick(k: usize, a: usize, b: usize, c: usize, d: usize) -> (r: usize)
    requires
        k < 4,
    ensures
        r == seq![a as int, b as int, c as int, d as int][k as int],
{
    if k == 0 {
        a
    } else if k == 1 {
        b
    } else if k == 2 {
        c
    } else {
        d
    }
}

/// The cube corner that the `k`-th vertex of face `f` sits on.
fn side_corner(f: usize, k: usize) -> (r: usize)
    requires
        f < FACE_COUNT,
        k < 4,
    ensures
        r == side_row(f as int)[k as int],
        r < 8,
{
    if f == 0 {
        pick(k, 7, 6, 5, 4)
    } else if f == 1 {
        pick(k, 0, 1, 2, 3)
    } else if f == 2 {
        pick(k, 7, 4, 0, 3)
    } else if f == 3 {
        pick(k, 5, 6, 2, 1)
    } else if f == 4 {
        pick(k, 4, 5, 1, 0)
    } else {
        pick(k, 6, 7, 3, 2)
    }
}

/// Accumulates the quads of exposed voxel faces into vertex and index buffers.
pub struct VoxelMeshBuilder {
    pub current_cube_pos: VoxelPos,
    pub indices: Vec<u32>,
    pub vertices: Vec<MeshVertex>,
    pub index_offset: u32,
}

impl VoxelMeshBuilder {
    /// The buffers hold whole quads, and the indices are the quad pattern
    /// over the vertices emitted so far.
    pub open spec fn wf(&self) -> bool {
        &&& self.index_offset == self.vertices@.len()
        &&& self.vertices@.len() % 4 == 0
        &&& self.indices@ == index_pattern(self.vertices@.len() / 4)
    }

    /// An empty builder with its cursor at the origin.
    pub fn new() -> (r: VoxelMeshBuilder)
        ensures
            r.wf(),
            r.current_cube_pos == (VoxelPos { x: 0, y: 0, z: 0 }),
            r.vertices@ == Seq::<MeshVertex>::empty(),
            r.indices@ == Seq::<u32>::empty(),
    {
        let r = VoxelMeshBuilder {
            current_cube_pos: VoxelPos { x: 0, y: 0, z: 0 },
            indices: Vec::new(),
            vertices: Vec::new(),
            index_offset: 0,
        };
        assert(r.indices@ =~= index_pattern(0));
        r
    }

    /// Moves the cursor to `position`.
    pub fn set_position(&mut self, position: VoxelPos) -> (r: &mut VoxelMeshBuilder)
        ensures
            r.current_cube_pos == position,
            r.vertices == old(self).vertices,
            r.indices == old(self).indices,
            r.index_offset == old(self).index_offset,
            *final(self) == *final(r),
    {
        self.current_cube_pos = position;
        self
    }

    /// Moves the cursor by `delta`.
    pub fn move_position(&mut self, delta: VoxelPos) -> (r: &mut VoxelMeshBuilder)
        requires
            old(self).current_cube_pos.x + delta.x <= u32::MAX,
            old(self).current_cube_pos.y + delta.y <= u32::MAX,
            old(self).current_cube_pos.z + delta.z <= u32::MAX,
        ensures
            r.current_cube_pos.x == old(self).current_cube_pos.x + delta.x,
            r.current_cube_pos.y == old(self).current_cube_pos.y + delta.y,
            r.current_cube_pos.z == old(self).current_cube_pos.z + delta.z,
            r.vertices == old(self).vertices,
            r.indices == old(self).indices,
            r.index_offset == old(self).index_offset,
            *final(self) == *final(r),
    {
        self.current_cube_pos.x = self.current_cube_pos.x + delta.x;
        self.current_cube_pos.y = self.current_cube_pos.y + delta.y;
        self.current_cube_pos.z = self.current_cube_pos.z + delta.z;
        self
    }

    /// Emits one quad for each face in `sides`, in face order, at the cursor.
    pub fn generate_voxel(&mut self, sides: Sides) -> (r: &mut VoxelMeshBuilder)
        requires
            old(self).wf(),
            old(self).vertices@.len() + 24 <= u32::MAX,
        ensures
            r.wf(),
            r.current_cube_pos == old(self).current_cube_pos,
            r.vertices@ == old(self).vertices@ + voxel_vertices(
                old(self).current_cube_pos,
                sides.faces(),
                6,
            ),
            *final(self) == *final(r),
    {
        let ghost start = self.vertices@;
        let ghost p = self.current_cube_pos;
        let mut f: usize = 0;
        while f < FACE_COUNT
            invariant
                self.wf(),
                f <= FACE_COUNT,
                self.current_cube_pos == p,
                self.vertices@ == start + voxel_vertices(p, sides.faces(), f as int),
                self.vertices@.len() <= start.len() + 4 * f,
                start.len() + 24 <= u32::MAX,
            decreases FACE_COUNT - f,
        {
            proof {
                lemma_voxel_vertices_len(p, sides.faces(), f as int);
            }
            if sides.contains(Sides::face(f)) {
                self.build_quad(f);
            }
            assert(self.vertices@ =~= start + voxel_vertices(p, sides.faces(), f + 1));
            f += 1;
        }
        self
    }

    /// Hands the buffers over as the mesh of job `idx`.
    pub fn build(self, idx: u32) -> (r: MeshReference)
        ensures
            r.idx == idx,
            r.vertex_data@ == self.vertices@,
            r.index_data@ == self.indices@,
    {
        MeshReference { idx, vertex_data: self.vertices, index_data: self.indices }
    }

    /// Emits the quad for face `f` at the cursor.
    fn build_quad(&mut self, f: usize)
        requires
            old(self).wf(),
            f < FACE_COUNT,
            old(self).vertices@.len() + 4 <= u32::MAX,
        ensures
            final(self).wf(),
            final(self).current_cube_pos == old(self).current_cube_pos,
            final(self).vertices@ == old(self).vertices@ + quad_vertices(
                old(self).current_cube_pos,
                f as int,
            ),
    {
        let ghost start = self.vertices@;
        let ghost p = self.current_cube_pos;
        let mut k: usize = 0;
        while k < 4
            invariant
                k <= 4,
                f < FACE_COUNT,
                self.current_cube_pos == p,
                self.indices == old(self).indices,
                self.index_offset == old(self).index_offset,
                self.vertices@.len() == start.len() + k,
                forall|j: int| 0 <= j < start.len() ==> self.vertices@[j] == start[j],
                forall|j: int|
                    0 <= j < k ==> #[trigger] self.vertices@[start.len() + j] == quad_vertex(
                        p,
                        f as int,
                        j,
                    ),
            decreases 4 - k,
        {
            let c = side_corner(f, k);
            let cx: i64 = if c == 1 || c == 2 || c == 5 || c == 6 {
                1
            } else {
                -1
            };
            let cy: i64 = if c >= 4 {
                1
            } else {
                -1
            };
            let cz: i64 = if c == 0 || c == 1 || c == 4 || c == 5 {
                1
            } else {
                -1
            };
            let t = pick(k, 3, 2, 0, 1);
            let u: u32 = if t == 1 || t == 3 {
                3
            } else {
                2
            };
            let v: u32 = if t <= 1 {
                1
            } else {
                0
            };
            let vertex = MeshVertex {
                px: 2 * (self.current_cube_pos.x as i64) + cx,
                py: 2 * (self.current_cube_pos.y as i64) + cy,
                pz: 2 * (self.current_cube_pos.z as i64) + cz,
                u,
                v,
                nx: 0,
                ny: 1,
                nz: 0,
            };
            self.vertices.push(vertex);
            k += 1;
        }
        assert forall|j: int| 0 <= j < 4 implies #[trigger] quad_vertices(p, f as int)[j]
            == self.vertices@[start.len() + j] by {
            assert(self.vertices@[start.len() + j] == quad_vertex(p, f as int, j));
        }
        assert(self.vertices@ =~= start + quad_vertices(p, f as int));
        let o = self.index_offset;
        self.indices.push(o + 3);
        self.indices.push(o + 1);
        self.indices.push(o);
        self.indices.push(o + 3);
        self.indices.push(o + 2);
        self.indices.push(o + 1);
        self.index_offset = o + 4;
        let ghost q = (start.len() / 4) as nat;
        assert(self.vertices@.len() / 4 == q + 1);
        assert(self.indices@ =~= index_pattern(q + 1));
    }
}

} // verus!
