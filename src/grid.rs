use vstd::prelude::*;

use crate::sides::{bits_have, face_bit, lemma_insert_face, lemma_none_empty, Sides};

verus! {

/// Edge length of a chunk, in voxels.
pub const CHUNK_SIZE: usize = 32;

/// Edge length of the padded occupancy grid.
pub const GRID_SIZE: usize = CHUNK_SIZE + 2;

/// A padded cube of occupancy flags, indexed `[x][y][z]`, each index below
/// `GRID_SIZE`.
pub struct OccupancyGrid {
    pub cells: Vec<Vec<Vec<bool>>>,
}

/// The column heights as plain sequences, indexed `[x][z]`.
pub open spec fn heights_view(heights: &Vec<Vec<usize>>) -> Seq<Seq<usize>> {
    heights@.map_values(|row: Vec<usize>| row@)
}

/// A height field covers every column of the padded grid.
pub open spec fn heights_wf(h: Seq<Seq<usize>>) -> bool {
    &&& h.len() == GRID_SIZE
    &&& forall|x: int| 0 <= x < GRID_SIZE ==> #[trigger] h[x].len() == GRID_SIZE
}

/// A cell is solid when it lies in the chunk's height range and strictly
/// below the height of its column.
pub open spec fn solid_cell(h: Seq<Seq<usize>>, x: int, y: int, z: int) -> bool {
    y < CHUNK_SIZE && y < h[x][z]
}

/// The occupancy that a height field gives.
pub open spec fn grid_of(h: Seq<Seq<usize>>) -> Seq<Seq<Seq<bool>>> {
    Seq::new(
        GRID_SIZE as nat,
        |x: int|
            Seq::new(
                GRID_SIZE as nat,
                |y: int| Seq::new(GRID_SIZE as nat, |z: int| solid_cell(h, x, y, z)),
            ),
    )
}

/// A cube of side `GRID_SIZE`.
pub open spec fn cube_wf(g: Seq<Seq<Seq<bool>>>) -> bool {
    &&& g.len() == GRID_SIZE
    &&& forall|x: int| 0 <= x < GRID_SIZE ==> #[trigger] g[x].len() == GRID_SIZE
    &&& forall|x: int, y: int|
        0 <= x < GRID_SIZE && 0 <= y < GRID_SIZE ==> #[trigger] g[x][y].len() == GRID_SIZE
}

/// A voxel of the chunk proper: not in the padding.
pub open spec fn interior(x: int, y: int, z: int) -> bool {
    1 <= x <= CHUNK_SIZE && 1 <= y <= CHUNK_SIZE && 1 <= z <= CHUNK_SIZE
}

/// Whether face `f` of the voxel at `(x, y, z)` is exposed: its neighbour on
/// that side is empty. The bottom face of the lowest layer never is.
pub open spec fn exposed(g: Seq<Seq<Seq<bool>>>, x: int, y: int, z: int, f: int) -> bool {
    if f == 0 {
        !g[x][y + 1][z]
    } else if f == 1 {
        y > 0 && !g[x][y - 1][z]
    } else if f == 2 {
        !g[x - 1][y][z]
    } else if f == 3 {
        !g[x + 1][y][z]
    } else if f == 4 {
        !g[x][y][z + 1]
    } else {
        !g[x][y][z - 1]
    }
}

/// The six exposure flags of the voxel at `(x, y, z)`, in face order.
pub open spec fn exposed_faces(g: Seq<Seq<Seq<bool>>>, x: int, y: int, z: int) -> Seq<bool> {
    Seq::new(6, |f: int| exposed(g, x, y, z, f))
}

impl OccupancyGrid {
    pub open spec fn view(&self) -> Seq<Seq<Seq<bool>>> {
        self.cells@.map_values(|p: Vec<Vec<bool>>| p@.map_values(|r: Vec<bool>| r@))
    }

    pub open spec fn wf(&self) -> bool {
        cube_wf(self@)
    }

    /// Whether the cell at `(x, y, z)` is solid.
    pub fn get(&self, x: usize, y: usize, z: usize) -> (r: bool)
        requires
            self.wf(),
            x < GRID_SIZE,
            y < GRID_SIZE,
            z < GRID_SIZE,
        ensures
            r == self@[x as int][y as int][z as int],
    {
        assert(self.cells@[x as int]@.len() == self@[x as int].len());
        assert(self.cells@[x as int]@[y as int]@.len() == self@[x as int][y as int].len());
        self.cells[x][y][z]
    }
}

/// Samples a height field into a padded occupancy grid: the cell at
/// `(x, y, z)` is solid iff `y < CHUNK_SIZE` and `y` is strictly below the
/// height of column `(x, z)`.
pub fn build_grid(heights: &Vec<Vec<usize>>) -> (r: OccupancyGrid)
    requires
        heights_wf(heights_view(heights)),
    ensures
        r.wf(),
        r@ == grid_of(heights_view(heights)),
{
    let ghost h = heights_view(heights);
    let mut cells: Vec<Vec<Vec<bool>>> = Vec::new();
    let mut x: usize = 0;
    while x < GRID_SIZE
        invariant
            h == heights_view(heights),
            heights_wf(h),
            x <= GRID_SIZE,
            cells@.len() == x,
            forall|i: int| 0 <= i < x ==> #[trigger] cells@[i]@.len() == GRID_SIZE,
            forall|i: int, j: int|
                0 <= i < x && 0 <= j < GRID_SIZE ==> #[trigger] cells@[i]@[j]@.len() == GRID_SIZE,
            forall|i: int, j: int, k: int|
                0 <= i < x && 0 <= j < GRID_SIZE && 0 <= k < GRID_SIZE ==> #[trigger] cells@[i]@[j]@[k]
                    == solid_cell(h, i, j, k),
        decreases GRID_SIZE - x,
    {
        let mut plane: Vec<Vec<bool>> = Vec::new();
        let mut y: usize = 0;
        while y < GRID_SIZE
            invariant
                h == heights_view(heights),
                heights_wf(h),
                x < GRID_SIZE,
                y <= GRID_SIZE,
                plane@.len() == y,
                forall|j: int| 0 <= j < y ==> #[trigger] plane@[j]@.len() == GRID_SIZE,
                forall|j: int, k: int|
                    0 <= j < y && 0 <= k < GRID_SIZE ==> #[trigger] plane@[j]@[k] == solid_cell(
                        h,
                        x as int,
                        j,
                        k,
                    ),
            decreases GRID_SIZE - y,
        {
            let mut row: Vec<bool> = Vec::new();
            let mut z: usize = 0;
            assert(heights@[x as int]@ == h[x as int]);
            while z < GRID_SIZE
                invariant
                    h == heights_view(heights),
                    heights_wf(h),
                    heights@[x as int]@ == h[x as int],
                    x < GRID_SIZE,
                    y < GRID_SIZE,
                    z <= GRID_SIZE,
                    row@.len() == z,
                    forall|k: int| 0 <= k < z ==> #[trigger] row@[k] == solid_cell(h, x as int, y as int, k),
                decreases GRID_SIZE - z,
            {
                let solid = y < CHUNK_SIZE && y < heights[x][z];
                row.push(solid);
                z += 1;
            }
            plane.push(row);
            y += 1;
        }
        cells.push(plane);
        x += 1;
    }
    let r = OccupancyGrid { cells };
    assert(r@ =~~= grid_of(h));
    r
}

/// Two grids sampled from the same height field are identical, cell for cell.
pub proof fn lemma_grid_deterministic(h: Seq<Seq<usize>>, a: OccupancyGrid, b: OccupancyGrid)
    requires
        a@ == grid_of(h),
        b@ == grid_of(h),
    ensures
        a@ == b@,
        forall|x: int, y: int, z: int|
            0 <= x < GRID_SIZE && 0 <= y < GRID_SIZE && 0 <= z < GRID_SIZE ==> #[trigger] a@[x][y][z]
                == b@[x][y][z],
{
}

/// The exposed faces of the interior voxel at `(x, y, z)`.
pub fn get_sides(grid: &OccupancyGrid, x: usize, y: usize, z: usize) -> (r: Sides)
    requires
        grid.wf(),
        interior(x as int, y as int, z as int),
    ensures
        r.wf(),
        forall|f: int| 0 <= f < 6 ==> #[trigger] r.has(f) == exposed(grid@, x as int, y as int, z as int, f),
        r.faces() == exposed_faces(grid@, x as int, y as int, z as int),
{
    let ghost g = grid@;
    let ghost (xi, yi, zi) = (x as int, y as int, z as int);
    let mut sides = Sides::none();
    assert forall|f: int| 0 <= f < 6 implies !#[trigger] sides.has(f) by {
        lemma_none_empty(f);
    }
    if !grid.get(x - 1, y, z) {
        proof {
            assert forall|f: int| 0 <= f < 6 implies #[trigger] bits_have(sides.bits | face_bit(2), f) == (sides.has(f) || f == 2) by {
                lemma_insert_face(sides, 2, f);
            }
            lemma_insert_face(sides, 2, 0);
        }
        sides.insert(Sides::face(2));
    }
    if !grid.get(x + 1, y, z) {
        proof {
            assert forall|f: int| 0 <= f < 6 implies #[trigger] bits_have(sides.bits | face_bit(3), f) == (sides.has(f) || f == 3) by {
                lemma_insert_face(sides, 3, f);
            }
            lemma_insert_face(sides, 3, 0);
        }
        sides.insert(Sides::face(3));
    }
    if y > 0 && !grid.get(x, y - 1, z) {
        proof {
            assert forall|f: int| 0 <= f < 6 implies #[trigger] bits_have(sides.bits | face_bit(1), f) == (sides.has(f) || f == 1) by {
                lemma_insert_face(sides, 1, f);
            }
            lemma_insert_face(sides, 1, 0);
        }
        sides.insert(Sides::face(1));
    }
    if !grid.get(x, y + 1, z) {
        proof {
            assert forall|f: int| 0 <= f < 6 implies #[trigger] bits_have(sides.bits | face_bit(0), f) == (sides.has(f) || f == 0) by {
                lemma_insert_face(sides, 0, f);
            }
            lemma_insert_face(sides, 0, 0);
        }
        sides.insert(Sides::face(0));
    }
    if !grid.get(x, y, z - 1) {
        proof {
            assert forall|f: int| 0 <= f < 6 implies #[trigger] bits_have(sides.bits | face_bit(5), f) == (sides.has(f) || f == 5) by {
                lemma_insert_face(sides, 5, f);
            }
            lemma_insert_face(sides, 5, 0);
        }
        sides.insert(Sides::face(5));
    }
    if !grid.get(x, y, z + 1) {
        proof {
            assert forall|f: int| 0 <= f < 6 implies #[trigger] bits_have(sides.bits | face_bit(4), f) == (sides.has(f) || f == 4) by {
                lemma_insert_face(sides, 4, f);
            }
            lemma_insert_face(sides, 4, 0);
        }
        sides.insert(Sides::face(4));
    }
    assert(sides.faces() =~= exposed_faces(g, xi, yi, zi));
    sides
}

} // verus!
