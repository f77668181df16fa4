//! Binary grids and the sampling of a cell's four corners.
use array2d::Array2D;
use vstd::prelude::*;

verus! {

#[verifier::external_type_specification]
#[verifier::external_body]
#[verifier::reject_recursive_types(T)]
pub struct ExArray2D<T>(Array2D<T>);

/// What an `Array2D<u8>` holds: one sequence per row, each `num_columns` long.
pub uninterp spec fn array_cells(a: Array2D<u8>) -> Seq<Seq<u8>>;

/// Whether `(row, column)` addresses an element of `cells`.
pub open spec fn in_bounds(cells: Seq<Seq<u8>>, row: int, column: int) -> bool {
    0 <= row < cells.len() && 0 <= column < cells[row].len()
}

/// Relies on `Array2D::filled_with`: `num_rows` rows of `num_columns` copies
/// of `element`. It computes `num_rows * num_columns`, which must not overflow.
#[verifier::external_body]
fn array_filled(element: u8, num_rows: usize, num_columns: usize) -> (r: Array2D<u8>)
    requires
        num_rows * num_columns <= usize::MAX,
    ensures
        array_cells(r) == Seq::new(num_rows as nat, |i: int| Seq::new(num_columns as nat, |j: int| element)),
{
    Array2D::filled_with(element, num_rows, num_columns)
}

/// Relies on `Array2D::get`: the element at `(row, column)` when both are in
/// bounds, `None` otherwise.
#[verifier::external_body]
fn array_get(a: &Array2D<u8>, row: usize, column: usize) -> (r: Option<u8>)
    ensures
        in_bounds(array_cells(*a), row as int, column as int) ==> r == Some(array_cells(*a)[row as int][column as int]),
        !in_bounds(array_cells(*a), row as int, column as int) ==> r.is_none(),
{
    a.get(row, column).copied()
}

/// Relies on `Array2D::set`: it replaces the element at `(row, column)` and
/// succeeds when both are in bounds, and changes nothing otherwise.
#[verifier::external_body]
fn array_set(a: &mut Array2D<u8>, row: usize, column: usize, element: u8) -> (r: bool)
    ensures
        r == in_bounds(array_cells(*old(a)), row as int, column as int),
        r ==> array_cells(*final(a)) == array_cells(*old(a)).update(
            row as int,
            array_cells(*old(a))[row as int].update(column as int, element),
        ),
        !r ==> array_cells(*final(a)) == array_cells(*old(a)),
{
    a.set(row, column, element).is_ok()
}

/// Relies on `Array2D::num_rows`.
#[verifier::external_body]
fn array_num_rows(a: &Array2D<u8>) -> (r: usize)
    ensures
        r == array_cells(*a).len(),
{
    a.num_rows()
}

/// Relies on `Array2D::num_columns`: every row is that long.
#[verifier::external_body]
fn array_num_columns(a: &Array2D<u8>) -> (r: usize)
    ensures
        forall|i: int| 0 <= i < array_cells(*a).len() ==> #[trigger] array_cells(*a)[i].len() == r,
{
    a.num_columns()
}

/// The ways a grid operation can fail.
#[derive(Debug, Clone, Copy, PartialEq, Eq, Structural)]
pub enum GridError {
    /// A dimension is zero, exceeds 255, or the rows differ in length.
    InvalidDimensions,
    /// A cell or corner index lies outside the grid's interior.
    OutOfRange,
    /// A case index outside `0..=15` was met.
    InvariantViolation,
}

/// The four corners of the cell whose lower-left corner is `(x, y)` all lie
/// in `cells`.
pub open spec fn cell_in_range(cells: Seq<Seq<u8>>, x: int, y: int) -> bool {
    &&& in_bounds(cells, x, y)
    &&& in_bounds(cells, x, y + 1)
    &&& in_bounds(cells, x + 1, y + 1)
    &&& in_bounds(cells, x + 1, y)
}

/// The corner values of the cell at `(x, y)`: bottom-left, top-left,
/// top-right, bottom-right.
pub open spec fn corner_values(cells: Seq<Seq<u8>>, x: int, y: int) -> Seq<u8> {
    seq![cells[x][y], cells[x][y + 1], cells[x + 1][y + 1], cells[x + 1][y]]
}

/// Whether `(x, y)` lies on or beyond the edge of a `limit` by `limit` square.
pub fn off_boundaries(x: usize, y: usize, limit: usize) -> (r: bool)
    ensures
        r == (x == 0 || y == 0 || x >= limit || y >= limit),
{
    x <= 0 || y <= 0 || x >= limit || y >= limit
}

/// The one bounds check of cell sampling: all four corners of the cell at
/// `(x, y)` are in the array.
pub fn cell_in_grid(binary_grid: &Array2D<u8>, x: usize, y: usize) -> (r: bool)
    ensures
        r == cell_in_range(array_cells(*binary_grid), x as int, y as int),
        r ==> array_cells(*binary_grid).len() <= usize::MAX,
        r ==> array_cells(*binary_grid)[x as int].len() <= usize::MAX,
{
    let rows = array_num_rows(binary_grid);
    let columns = array_num_columns(binary_grid);
    if x < rows && rows - x >= 2 && y < columns && columns - y >= 2 {
        assert(array_cells(*binary_grid)[x as int].len() == columns);
        assert(array_cells(*binary_grid)[x + 1].len() == columns);
        true
    } else {
        proof {
            if x + 1 < rows {
                assert(array_cells(*binary_grid)[x as int].len() == columns);
            }
        }
        false
    }
}

/// The corner values of the cell whose lower-left corner is `(x, y)`, in the
/// order bottom-left, top-left, top-right, bottom-right. Fails with
/// `OutOfRange` when a corner lies outside the grid.
pub fn get_square(binary_grid: &Array2D<u8>, x: usize, y: usize) -> (r: Result<Vec<u8>, GridError>)
    ensures
        r is Ok <==> cell_in_range(array_cells(*binary_grid), x as int, y as int),
        r is Ok ==> r->Ok_0@ == corner_values(array_cells(*binary_grid), x as int, y as int),
        r is Err ==> r == Err::<Vec<u8>, GridError>(GridError::OutOfRange),
        x + 1 == array_cells(*binary_grid).len() ==> r == Err::<Vec<u8>, GridError>(GridError::OutOfRange),
{
    if !cell_in_grid(binary_grid, x, y) {
        return Err(GridError::OutOfRange);
    }
    let bottom_left = array_get(binary_grid, x, y);
    let top_left = array_get(binary_grid, x, y + 1);
    let top_right = array_get(binary_grid, x + 1, y + 1);
    let bottom_right = array_get(binary_grid, x + 1, y);
    match (bottom_left, top_left, top_right, bottom_right) {
        (Some(v0), Some(v1), Some(v2), Some(v3)) => {
            let values = vec![v0, v1, v2, v3];
            assert(values@ =~= corner_values(array_cells(*binary_grid), x as int, y as int));
            Ok(values)
        },
        _ => Err(GridError::OutOfRange),
    }
}

/// The largest width or height of a grid.
pub const MAX_SIDE: usize = 255;

/// The check made before a field is generated: coordinates are divided by
/// the width, so neither side may be zero. Fails with `InvalidDimensions`
/// exactly when one is.
pub fn validate_dimensions(width: u8, height: u8) -> (r: Result<(), GridError>)
    ensures
        r is Ok <==> (width > 0 && height > 0),
        r is Err ==> r == Err::<(), GridError>(GridError::InvalidDimensions),
{
    if width == 0 || height == 0 {
        Err(GridError::InvalidDimensions)
    } else {
        Ok(())
    }
}

/// The grid value of a flag.
pub open spec fn flag_value(b: bool) -> u8 {
    if b { 1 } else { 0 }
}

/// `above` is a non-empty rectangle of flags, at most `MAX_SIDE` on each side.
pub open spec fn flags_shape_ok(above: Seq<Vec<bool>>) -> bool {
    &&& 1 <= above.len() <= MAX_SIDE
    &&& 1 <= above[0]@.len() <= MAX_SIDE
    &&& forall|x: int| 0 <= x < above.len() ==> #[trigger] above[x]@.len() == above[0]@.len()
}

/// The grid values of a rectangle of flags, indexed by column then row.
pub open spec fn flag_values(above: Seq<Vec<bool>>) -> Seq<Seq<u8>> {
    Seq::new(above.len(), |x: int| Seq::new(above[x]@.len(), |y: int| flag_value(above[x]@[y])))
}

/// A non-empty rectangle of 0/1 values, at most `MAX_SIDE` on each side.
pub open spec fn binary_rect(cells: Seq<Seq<u8>>) -> bool {
    &&& 1 <= cells.len() <= MAX_SIDE
    &&& 1 <= cells[0].len() <= MAX_SIDE
    &&& forall|x: int| 0 <= x < cells.len() ==> #[trigger] cells[x].len() == cells[0].len()
    &&& forall|x: int, y: int| 0 <= x < cells.len() && 0 <= y < cells[x].len() ==> #[trigger] cells[x][y] <= 1
}

/// A grid of 0/1 flags, indexed by column `x` then row `y`.
pub struct BinaryGrid {
    cells: Array2D<u8>,
}

impl View for BinaryGrid {
    type V = Seq<Seq<u8>>;

    closed spec fn view(&self) -> Seq<Seq<u8>> {
        array_cells(self.cells)
    }
}

impl BinaryGrid {
    /// Every grid that this type hands out is a rectangle of 0/1 values.
    pub open spec fn wf(&self) -> bool {
        binary_rect(self@)
    }

    /// The grid holding 1 where `above[x][y]` is set (the field value there
    /// exceeds the threshold) and 0 elsewhere. Fails with `InvalidDimensions`
    /// when `above` is empty, its rows differ in length or are empty, or a
    /// side exceeds `MAX_SIDE`.
    pub fn from_flags(above: &Vec<Vec<bool>>) -> (r: Result<BinaryGrid, GridError>)
        ensures
            r is Ok <==> flags_shape_ok(above@),
            r is Ok ==> r->Ok_0.wf() && r->Ok_0@ == flag_values(above@),
            r is Err ==> r == Err::<BinaryGrid, GridError>(GridError::InvalidDimensions),
    {
        let width = above.len();
        if width == 0 || width > MAX_SIDE {
            return Err(GridError::InvalidDimensions);
        }
        let height = above[0].len();
        if height == 0 || height > MAX_SIDE {
            return Err(GridError::InvalidDimensions);
        }
        let mut i: usize = 0;
        while i < width
            invariant
                i <= width,
                width == above@.len(),
                height == above@[0]@.len(),
                forall|k: int| 0 <= k < i ==> #[trigger] above@[k]@.len() == height,
            decreases width - i,
        {
            if above[i].len() != height {
                return Err(GridError::InvalidDimensions);
            }
            i += 1;
        }
        assert(width * height <= MAX_SIDE * MAX_SIDE) by (nonlinear_arith)
            requires
                width <= MAX_SIDE,
                height <= MAX_SIDE,
        ;
        let mut cells = array_filled(0, width, height);
        let mut x: usize = 0;
        while x < width
            invariant
                x <= width,
                flags_shape_ok(above@),
                width == above@.len(),
                height == above@[0]@.len(),
                array_cells(cells).len() == width,
                forall|k: int| 0 <= k < width ==> #[trigger] array_cells(cells)[k].len() == height,
                forall|k: int, j: int|
                    0 <= k < x && 0 <= j < height ==> #[trigger] array_cells(cells)[k][j] == flag_value(above@[k]@[j]),
            decreases width - x,
        {
            let mut y: usize = 0;
            while y < height
                invariant
                    x < width,
                    y <= height,
                    flags_shape_ok(above@),
                    width == above@.len(),
                    height == above@[0]@.len(),
                    array_cells(cells).len() == width,
                    forall|k: int| 0 <= k < width ==> #[trigger] array_cells(cells)[k].len() == height,
                    forall|k: int, j: int|
                        0 <= k < x && 0 <= j < height ==> #[trigger] array_cells(cells)[k][j] == flag_value(above@[k]@[j]),
                    forall|j: int| 0 <= j < y ==> #[trigger] array_cells(cells)[x as int][j] == flag_value(above@[x as int]@[j]),
                decreases height - y,
            {
                assert(above@[x as int]@.len() == height);
                let value: u8 = if above[x][y] { 1 } else { 0 };
                let ghost before = array_cells(cells);
                assert(in_bounds(before, x as int, y as int));
                array_set(&mut cells, x, y, value);
                assert forall|k: int| 0 <= k < width implies #[trigger] array_cells(cells)[k].len() == height by {
                    if k != x {
                        assert(array_cells(cells)[k] == before[k]);
                    }
                }
                y += 1;
            }
            x += 1;
        }
        let grid = BinaryGrid { cells };
        assert forall|k: int| 0 <= k < width implies #[trigger] grid@[k] =~= flag_values(above@)[k] by {
            assert(above@[k]@.len() == height);
        }
        assert(grid@ =~= flag_values(above@));
        Ok(grid)
    }

    /// The number of columns.
    pub fn width(&self) -> (r: usize)
        requires
            self.wf(),
        ensures
            r == self@.len(),
    {
        array_num_rows(&self.cells)
    }

    /// The number of rows.
    pub fn height(&self) -> (r: usize)
        requires
            self.wf(),
        ensures
            r == self@[0].len(),
    {
        array_num_columns(&self.cells)
    }

    /// The underlying array, indexed `(x, y)`.
    pub fn cells(&self) -> (r: &Array2D<u8>)
        ensures
            array_cells(*r) == self@,
    {
        &self.cells
    }
}

} // verus!
