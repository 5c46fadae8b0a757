//! The grid of a height map: a plane of cells, two triangles to a cell.

use vstd::prelude::*;
use crate::scene::HeightMap;
use crate::vertex::{InputStepMode, VertexAttributeDescriptor, VertexBuffer, VertexFormat};
use crate::words::Vector3;

verus! {

/// Cells of a height map along its width.
pub const WIDTH_SEGMENTS: u16 = 512;

/// Cells of a height map along its height.
pub const HEIGHT_SEGMENTS: u16 = 512;

/// One vertex of the grid.
#[derive(Clone, Copy, Debug, PartialEq, Eq, Structural)]
pub struct HeightMapVertex {
    pub position: Vector3,
}

impl VertexBuffer for HeightMapVertex {
    open spec fn attributes() -> Seq<VertexAttributeDescriptor> {
        seq![VertexAttributeDescriptor { offset: 0, format: VertexFormat::Float3, shader_location: 0 }]
    }

    open spec fn stride() -> nat {
        12
    }

    open spec fn step_mode() -> InputStepMode {
        InputStepMode::Vertex
    }

    proof fn lemma_packed() {
    }

    fn get_attributes() -> (attributes: Vec<VertexAttributeDescriptor>) {
        let mut attributes: Vec<VertexAttributeDescriptor> = Vec::new();
        attributes.push(VertexAttributeDescriptor { offset: 0, format: VertexFormat::Float3, shader_location: 0 });
        assert(attributes@ =~= Self::attributes());
        attributes
    }
}

/// The vertex in row `i` and column `j` of a grid with `grid_x` cells to a
/// row: vertices are numbered row by row.
pub open spec fn vertex_index(grid_x: int, i: int, j: int) -> int {
    j + (grid_x + 1) * i
}

/// Index number `corner` of the cell in row `i` and column `j`. With `a` the
/// vertex of the cell, `b` the one below it, `c` the one below and to the
/// right and `d` the one to the right, a cell is the triangles `a b d` and
/// `b c d`.
pub open spec fn corner_index(grid_x: int, i: int, j: int, corner: int) -> int {
    if corner == 0 {
        vertex_index(grid_x, i, j)
    } else if corner == 1 || corner == 3 {
        vertex_index(grid_x, i + 1, j)
    } else if corner == 4 {
        vertex_index(grid_x, i + 1, j + 1)
    } else {
        vertex_index(grid_x, i, j + 1)
    }
}

/// Where index number `corner` of the cell in row `i` and column `j` stands
/// in the index buffer: cells follow each other row by row, six indices to
/// a cell.
pub open spec fn slot(grid_x: int, i: int, j: int, corner: int) -> int {
    6 * (i * grid_x + j) + corner
}

proof fn lemma_cells_in_order(grid_x: int, i1: int, j1: int, i2: int, j2: int)
    requires
        0 <= i1,
        0 <= j1 < grid_x,
        0 <= j2,
        i1 < i2 || (i1 == i2 && j1 < j2),
    ensures
        i1 * grid_x + j1 < i2 * grid_x + j2,
{
    if i1 < i2 {
        assert((i1 + 1) * grid_x <= i2 * grid_x) by (nonlinear_arith)
            requires
                i1 + 1 <= i2,
                grid_x > 0,
        ;
        assert((i1 + 1) * grid_x == i1 * grid_x + grid_x) by (nonlinear_arith);
    }
}

/// The index buffer of a grid of `grid_x` by `grid_y` cells.
pub fn grid_indices(grid_x: u16, grid_y: u16) -> (indices: Vec<u32>)
    ensures
        indices@.len() == 6 * (grid_x * grid_y),
        forall|i: int, j: int, corner: int|
            0 <= i < grid_y && 0 <= j < grid_x && 0 <= corner < 6 ==> indices@[#[trigger] slot(
                grid_x as int,
                i,
                j,
                corner,
            )] == corner_index(grid_x as int, i, j, corner),
{
    let x1: u64 = grid_x as u64 + 1;
    let mut indices: Vec<u32> = Vec::new();
    let mut i: u64 = 0;
    while i < grid_y as u64
        invariant
            i <= grid_y,
            x1 == grid_x + 1,
            indices@.len() == 6 * (i * grid_x),
            forall|r: int, c: int, corner: int|
                0 <= r < i && 0 <= c < grid_x && 0 <= corner < 6 ==> indices@[#[trigger] slot(
                    grid_x as int,
                    r,
                    c,
                    corner,
                )] == corner_index(grid_x as int, r, c, corner),
        decreases grid_y - i,
    {
        let mut j: u64 = 0;
        while j < grid_x as u64
            invariant
                i < grid_y,
                j <= grid_x,
                x1 == grid_x + 1,
                indices@.len() == 6 * (i * grid_x + j),
                forall|r: int, c: int, corner: int|
                    0 <= r && 0 <= c < grid_x && (r < i || (r == i && c < j)) && 0 <= corner < 6
                        ==> indices@[#[trigger] slot(grid_x as int, r, c, corner)] == corner_index(
                        grid_x as int,
                        r,
                        c,
                        corner,
                    ),
            decreases grid_x - j,
        {
            assert(x1 * (i + 1) <= 65536 * 65535) by (nonlinear_arith)
                requires
                    x1 <= 65536,
                    i + 1 <= 65535,
            ;
            assert(x1 * i <= x1 * (i + 1)) by (nonlinear_arith)
                requires
                    x1 >= 0,
                    i >= 0,
            ;
            assert(x1 * (i + 1) == x1 * i + x1) by (nonlinear_arith);
            let a: u64 = j + x1 * i;
            let b: u64 = j + x1 * (i + 1);
            let c: u64 = (j + 1) + x1 * (i + 1);
            let d: u64 = (j + 1) + x1 * i;
            let ghost before = indices@;
            let ghost cell = i * grid_x + j;
            indices.push(a as u32);
            indices.push(b as u32);
            indices.push(d as u32);
            indices.push(b as u32);
            indices.push(c as u32);
            indices.push(d as u32);
            proof {
                assert forall|r: int, col: int, corner: int|
                    0 <= r && 0 <= col < grid_x && (r < i || (r == i && col < j + 1)) && 0 <= corner < 6
                        implies indices@[#[trigger] slot(grid_x as int, r, col, corner)] == corner_index(
                    grid_x as int,
                    r,
                    col,
                    corner,
                ) by {
                    if r == i && col == j {
                        assert(slot(grid_x as int, r, col, corner) == 6 * cell + corner);
                    } else {
                        lemma_cells_in_order(grid_x as int, r, col, i as int, j as int);
                        assert(slot(grid_x as int, r, col, corner) < 6 * cell);
                        assert(indices@[slot(grid_x as int, r, col, corner)] == before[slot(
                            grid_x as int,
                            r,
                            col,
                            corner,
                        )]);
                    }
                }
            }
            j = j + 1;
        }
        proof {
            assert((i + 1) * grid_x == i * grid_x + grid_x) by (nonlinear_arith);
        }
        i = i + 1;
    }
    assert(i * grid_x == grid_x * grid_y) by (nonlinear_arith)
        requires
            i == grid_y,
    ;
    indices
}

impl HeightMap {
    /// The height map whose grid has `grid_x` by `grid_y` cells, and the
    /// index buffer of the grid. `None` where the grid has more indices
    /// than a draw can count.
    pub fn load(grid_x: u16, grid_y: u16) -> (res: Option<(HeightMap, Vec<u32>)>)
        ensures
            match res {
                Some((height_map, indices)) => {
                    &&& height_map.number_of_indices == 6 * (grid_x * grid_y)
                    &&& indices@.len() == height_map.number_of_indices
                    &&& forall|i: int, j: int, corner: int|
                        0 <= i < grid_y && 0 <= j < grid_x && 0 <= corner < 6 ==> indices@[#[trigger] slot(
                            grid_x as int,
                            i,
                            j,
                            corner,
                        )] == corner_index(grid_x as int, i, j, corner)
                },
                None => 6 * (grid_x * grid_y) > u32::MAX,
            },
    {
        assert(0 <= grid_x * grid_y <= 65535 * 65535) by (nonlinear_arith)
            requires
                0 <= grid_x <= 65535,
                0 <= grid_y <= 65535,
        ;
        let cells: u64 = grid_x as u64 * grid_y as u64;
        if 6 * cells > u32::MAX as u64 {
            return None;
        }
        let indices = grid_indices(grid_x, grid_y);
        Some((HeightMap { number_of_indices: (6 * cells) as u32 }, indices))
    }
}

} // verus!
