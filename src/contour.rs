//! The contour table and the per-cell contour pass.
use vstd::prelude::*;

use crate::classify::{binary_corners, calc_case_index, case_of};
use crate::grid::{
    array_cells, binary_rect, corner_values, get_square, BinaryGrid, GridError,
};

verus! {

/// A point on the boundary of the unit cell: a corner, or the midpoint of
/// an edge. The corners are `A = (0, 1)`, `B = (1, 1)`, `C = (1, 0)` and
/// `D = (0, 0)`; `AB` is the midpoint between `A` and `B`, and so on.
#[derive(Debug, Clone, Copy, PartialEq, Eq, Structural)]
pub enum BoundaryPoint {
    A,
    B,
    C,
    D,
    AB,
    BC,
    CD,
    DA,
}

/// The cell-local coordinates of `p` in half units: each of them is 0, 1 or
/// 2, standing for 0, 0.5 and 1.
pub open spec fn point_half_units(p: BoundaryPoint) -> (int, int) {
    match p {
        BoundaryPoint::A => (0, 2),
        BoundaryPoint::B => (2, 2),
        BoundaryPoint::C => (2, 0),
        BoundaryPoint::D => (0, 0),
        BoundaryPoint::AB => (1, 2),
        BoundaryPoint::BC => (2, 1),
        BoundaryPoint::CD => (1, 0),
        BoundaryPoint::DA => (0, 1),
    }
}

/// A point, in half units, lies on the boundary of the unit square: both
/// coordinates are in `0..=2`, and one of them is 0 or 2.
pub open spec fn on_unit_boundary(q: (int, int)) -> bool {
    &&& 0 <= q.0 <= 2
    &&& 0 <= q.1 <= 2
    &&& (q.0 == 0 || q.0 == 2 || q.1 == 0 || q.1 == 2)
}

impl BoundaryPoint {
    /// The cell-local coordinates in half units, `(x, y)`.
    pub fn half_units(&self) -> (r: (u8, u8))
        ensures
            (r.0 as int, r.1 as int) == point_half_units(*self),
    {
        match self {
            BoundaryPoint::A => (0, 2),
            BoundaryPoint::B => (2, 2),
            BoundaryPoint::C => (2, 0),
            BoundaryPoint::D => (0, 0),
            BoundaryPoint::AB => (1, 2),
            BoundaryPoint::BC => (2, 1),
            BoundaryPoint::CD => (1, 0),
            BoundaryPoint::DA => (0, 1),
        }
    }
}

/// The polyline drawn for case index `k`. The two all-equal cases draw
/// nothing. The saddle cases 5 and 10 always take the same fixed path; no
/// look at the cell's centre decides between the two ways to join them.
pub open spec fn template_of(k: int) -> Seq<BoundaryPoint> {
    if k == 1 {
        seq![BoundaryPoint::D, BoundaryPoint::CD, BoundaryPoint::DA]
    } else if k == 2 {
        seq![BoundaryPoint::C, BoundaryPoint::CD, BoundaryPoint::BC]
    } else if k == 3 {
        seq![BoundaryPoint::D, BoundaryPoint::C, BoundaryPoint::BC, BoundaryPoint::DA]
    } else if k == 4 {
        seq![BoundaryPoint::B, BoundaryPoint::AB, BoundaryPoint::BC]
    } else if k == 5 {
        seq![BoundaryPoint::D, BoundaryPoint::DA, BoundaryPoint::AB, BoundaryPoint::B, BoundaryPoint::BC, BoundaryPoint::CD]
    } else if k == 6 {
        seq![BoundaryPoint::AB, BoundaryPoint::B, BoundaryPoint::C, BoundaryPoint::CD]
    } else if k == 7 {
        seq![BoundaryPoint::DA, BoundaryPoint::D, BoundaryPoint::C, BoundaryPoint::B, BoundaryPoint::AB]
    } else if k == 8 {
        seq![BoundaryPoint::A, BoundaryPoint::AB, BoundaryPoint::DA]
    } else if k == 9 {
        seq![BoundaryPoint::A, BoundaryPoint::AB, BoundaryPoint::CD, BoundaryPoint::D]
    } else if k == 10 {
        seq![BoundaryPoint::A, BoundaryPoint::AB, BoundaryPoint::BC, BoundaryPoint::C, BoundaryPoint::CD, BoundaryPoint::DA]
    } else if k == 11 {
        seq![BoundaryPoint::A, BoundaryPoint::AB, BoundaryPoint::BC, BoundaryPoint::C, BoundaryPoint::D]
    } else if k == 12 {
        seq![BoundaryPoint::A, BoundaryPoint::B, BoundaryPoint::BC, BoundaryPoint::DA]
    } else if k == 13 {
        seq![BoundaryPoint::A, BoundaryPoint::B, BoundaryPoint::BC, BoundaryPoint::CD, BoundaryPoint::D]
    } else if k == 14 {
        seq![BoundaryPoint::A, BoundaryPoint::B, BoundaryPoint::C, BoundaryPoint::CD, BoundaryPoint::DA]
    } else {
        seq![]
    }
}

/// The contour table: a fresh copy of the polyline for `case_index`. Fails
/// with `InvariantViolation` when the index is not in `0..=15`.
pub fn template_for(case_index: u8) -> (r: Result<Vec<BoundaryPoint>, GridError>)
    ensures
        r is Ok <==> case_index <= 15,
        r is Ok ==> r->Ok_0@ == template_of(case_index as int),
        r is Err ==> r == Err::<Vec<BoundaryPoint>, GridError>(GridError::InvariantViolation),
{
    let vertices = match case_index {
        0 => vec![],
        1 => vec![BoundaryPoint::D, BoundaryPoint::CD, BoundaryPoint::DA],
        2 => vec![BoundaryPoint::C, BoundaryPoint::CD, BoundaryPoint::BC],
        3 => vec![BoundaryPoint::D, BoundaryPoint::C, BoundaryPoint::BC, BoundaryPoint::DA],
        4 => vec![BoundaryPoint::B, BoundaryPoint::AB, BoundaryPoint::BC],
        5 => vec![BoundaryPoint::D, BoundaryPoint::DA, BoundaryPoint::AB, BoundaryPoint::B, BoundaryPoint::BC, BoundaryPoint::CD],
        6 => vec![BoundaryPoint::AB, BoundaryPoint::B, BoundaryPoint::C, BoundaryPoint::CD],
        7 => vec![BoundaryPoint::DA, BoundaryPoint::D, BoundaryPoint::C, BoundaryPoint::B, BoundaryPoint::AB],
        8 => vec![BoundaryPoint::A, BoundaryPoint::AB, BoundaryPoint::DA],
        9 => vec![BoundaryPoint::A, BoundaryPoint::AB, BoundaryPoint::CD, BoundaryPoint::D],
        10 => vec![BoundaryPoint::A, BoundaryPoint::AB, BoundaryPoint::BC, BoundaryPoint::C, BoundaryPoint::CD, BoundaryPoint::DA],
        11 => vec![BoundaryPoint::A, BoundaryPoint::AB, BoundaryPoint::BC, BoundaryPoint::C, BoundaryPoint::D],
        12 => vec![BoundaryPoint::A, BoundaryPoint::B, BoundaryPoint::BC, BoundaryPoint::DA],
        13 => vec![BoundaryPoint::A, BoundaryPoint::B, BoundaryPoint::BC, BoundaryPoint::CD, BoundaryPoint::D],
        14 => vec![BoundaryPoint::A, BoundaryPoint::B, BoundaryPoint::C, BoundaryPoint::CD, BoundaryPoint::DA],
        15 => vec![],
        _ => return Err(GridError::InvariantViolation),
    };
    assert(vertices@ =~= template_of(case_index as int));
    Ok(vertices)
}

/// The two cases whose corners are all equal draw nothing.
pub proof fn lemma_uniform_cases_empty()
    ensures
        template_of(0).len() == 0,
        template_of(15).len() == 0,
{
}

/// Every vertex of every case with a contour lies on the boundary of the
/// unit cell, never inside it.
pub proof fn lemma_templates_on_boundary(k: int, i: int)
    requires
        1 <= k <= 14,
        0 <= i < template_of(k).len(),
    ensures
        on_unit_boundary(point_half_units(template_of(k)[i])),
{
}

/// Each case with a contour draws a polyline of three to six vertices.
pub proof fn lemma_template_sizes(k: int)
    requires
        1 <= k <= 14,
    ensures
        3 <= template_of(k).len() <= 6,
{
}

/// The contour of one cell: its lower-left grid position, its case index and
/// its own copy of the case's polyline in cell-local coordinates.
pub struct CellContour {
    pub grid_x: usize,
    pub grid_y: usize,
    pub case_index: u8,
    pub vertices: Vec<BoundaryPoint>,
}

/// `c` is the contour of the cell at `(x, y)` of `cells`.
pub open spec fn contour_of_cell(cells: Seq<Seq<u8>>, x: int, y: int, c: CellContour) -> bool {
    &&& c.grid_x == x
    &&& c.grid_y == y
    &&& c.case_index == case_of(corner_values(cells, x, y))
    &&& c.vertices@ == template_of(c.case_index as int)
}

/// The number of cells of a grid: one fewer than the points along each side.
pub open spec fn cell_count(cells: Seq<Seq<u8>>) -> int {
    (cells.len() - 1) * (cells[0].len() - 1)
}

/// The contours of all cells of `grid`, column by column: the cell at
/// `(x, y)` comes at position `x * (height - 1) + y`.
pub fn build_contours(grid: &BinaryGrid) -> (r: Vec<CellContour>)
    requires
        grid.wf(),
    ensures
        r.len() == cell_count(grid@),
        forall|k: int| 0 <= k < r.len() ==> {
            &&& (#[trigger] r[k]).grid_x < grid@.len() - 1
            &&& r[k].grid_y < grid@[0].len() - 1
            &&& r[k].grid_x * (grid@[0].len() - 1) + r[k].grid_y == k
            &&& contour_of_cell(grid@, r[k].grid_x as int, r[k].grid_y as int, r[k])
        },
        forall|i: int, j: int|
            0 <= i < j < r.len() ==> (#[trigger] r[i].grid_x, r[i].grid_y) != (#[trigger] r[j].grid_x, r[j].grid_y),
{
    let width = grid.width();
    let height = grid.height();
    let ghost cells = grid@;
    let columns = width - 1;
    let rows = height - 1;
    let mut contours: Vec<CellContour> = Vec::new();
    let mut x: usize = 0;
    while x < columns
        invariant
            binary_rect(cells),
            cells == grid@,
            width == cells.len(),
            height == cells[0].len(),
            columns == width - 1,
            rows == height - 1,
            x <= columns,
            contours.len() == x * rows,
            forall|k: int| 0 <= k < contours.len() ==> {
                &&& (#[trigger] contours[k]).grid_x < columns
                &&& contours[k].grid_y < rows
                &&& contours[k].grid_x * rows + contours[k].grid_y == k
                &&& contour_of_cell(cells, contours[k].grid_x as int, contours[k].grid_y as int, contours[k])
            },
        decreases columns - x,
    {
        let mut y: usize = 0;
        while y < rows
            invariant
                binary_rect(cells),
                cells == grid@,
                width == cells.len(),
                height == cells[0].len(),
                columns == width - 1,
                rows == height - 1,
                x < columns,
                y <= rows,
                contours.len() == x * rows + y,
                forall|k: int| 0 <= k < contours.len() ==> {
                    &&& (#[trigger] contours[k]).grid_x < columns
                    &&& contours[k].grid_y < rows
                    &&& contours[k].grid_x * rows + contours[k].grid_y == k
                    &&& contour_of_cell(cells, contours[k].grid_x as int, contours[k].grid_y as int, contours[k])
                },
            decreases rows - y,
        {
            assert(cells[x as int].len() == height && cells[x + 1].len() == height);
            let square = get_square(grid.cells(), x, y).unwrap();
            assert(binary_corners(square@)) by {
                assert(cells[x as int][y as int] <= 1);
                assert(cells[x as int][y + 1] <= 1);
                assert(cells[x + 1][y + 1] <= 1);
                assert(cells[x + 1][y as int] <= 1);
            }
            let case_index = calc_case_index(square);
            let vertices = template_for(case_index).unwrap();
            assert(x * rows + y <= columns * rows) by (nonlinear_arith)
                requires
                    x < columns,
                    y < rows,
            ;
            assert(columns * rows <= 255 * 255) by (nonlinear_arith)
                requires
                    columns <= 255,
                    rows <= 255,
            ;
            contours.push(CellContour { grid_x: x, grid_y: y, case_index, vertices });
            y += 1;
        }
        assert(x * rows + rows == (x + 1) * rows) by (nonlinear_arith);
        x += 1;
    }
    proof {
        assert forall|i: int, j: int|
            0 <= i < j < contours.len() implies (#[trigger] contours[i].grid_x, contours[i].grid_y) != (
            #[trigger] contours[j].grid_x,
            contours[j].grid_y,
        ) by {
            if contours[i].grid_x == contours[j].grid_x && contours[i].grid_y == contours[j].grid_y {
                assert(contours[i].grid_x * rows + contours[i].grid_y == contours[j].grid_x * rows + contours[j].grid_y);
            }
        }
    }
    contours
}

} // verus!
