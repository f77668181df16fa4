use marching_squares::classify::calc_case_index;
use marching_squares::contour::{build_contours, template_for, BoundaryPoint};
use marching_squares::grid::{
    get_square, off_boundaries, validate_dimensions, BinaryGrid, GridError,
};

fn grid_of(rows: &[&[u8]]) -> BinaryGrid {
    let above: Vec<Vec<bool>> = rows.iter().map(|r| r.iter().map(|v| *v == 1).collect()).collect();
    BinaryGrid::from_flags(&above).unwrap()
}

#[test]
fn case_index_weights_corners() {
    assert_eq!(calc_case_index(vec![0, 0, 0, 0]), 0);
    assert_eq!(calc_case_index(vec![1, 0, 0, 0]), 8);
    assert_eq!(calc_case_index(vec![0, 1, 0, 0]), 4);
    assert_eq!(calc_case_index(vec![0, 0, 1, 0]), 2);
    assert_eq!(calc_case_index(vec![0, 0, 0, 1]), 1);
    assert_eq!(calc_case_index(vec![1, 1, 1, 1]), 15);
    assert_eq!(calc_case_index(vec![1, 0, 1, 0]), 10);
}

#[test]
fn case_index_is_a_bijection() {
    let mut seen = [false; 16];
    for bits in 0u8..16 {
        let square = vec![(bits >> 3) & 1, (bits >> 2) & 1, (bits >> 1) & 1, bits & 1];
        let k = calc_case_index(square);
        assert!(k <= 15);
        assert!(!seen[k as usize]);
        seen[k as usize] = true;
    }
    assert!(seen.iter().all(|s| *s));
}

#[test]
fn uniform_cases_have_no_vertices() {
    assert_eq!(template_for(0).unwrap(), vec![]);
    assert_eq!(template_for(15).unwrap(), vec![]);
}

#[test]
fn template_vertices_lie_on_cell_boundary() {
    for k in 1u8..=14 {
        let vertices = template_for(k).unwrap();
        assert!(vertices.len() >= 3 && vertices.len() <= 6);
        for p in vertices {
            let (x, y) = p.half_units();
            assert!(x <= 2 && y <= 2);
            assert!(x == 0 || x == 2 || y == 0 || y == 2);
        }
    }
}

#[test]
fn template_for_known_cases() {
    assert_eq!(
        template_for(4).unwrap(),
        vec![BoundaryPoint::B, BoundaryPoint::AB, BoundaryPoint::BC]
    );
    assert_eq!(
        template_for(5).unwrap(),
        vec![
            BoundaryPoint::D,
            BoundaryPoint::DA,
            BoundaryPoint::AB,
            BoundaryPoint::B,
            BoundaryPoint::BC,
            BoundaryPoint::CD
        ]
    );
    assert_eq!(
        template_for(1).unwrap(),
        vec![BoundaryPoint::D, BoundaryPoint::CD, BoundaryPoint::DA]
    );
}

#[test]
fn template_for_rejects_index_above_fifteen() {
    assert_eq!(template_for(16), Err(GridError::InvariantViolation));
    assert_eq!(template_for(255), Err(GridError::InvariantViolation));
}

#[test]
fn half_units_of_points() {
    assert_eq!(BoundaryPoint::A.half_units(), (0, 2));
    assert_eq!(BoundaryPoint::BC.half_units(), (2, 1));
    assert_eq!(BoundaryPoint::CD.half_units(), (1, 0));
    assert_eq!(BoundaryPoint::D.half_units(), (0, 0));
}

#[test]
fn build_yields_one_record_per_cell() {
    let grid = grid_of(&[&[0, 1, 0, 1], &[1, 1, 0, 0], &[0, 0, 1, 1]]);
    assert_eq!(grid.width(), 3);
    assert_eq!(grid.height(), 4);
    let contours = build_contours(&grid);
    assert_eq!(contours.len(), 2 * 3);
    let mut positions: Vec<(usize, usize)> = contours.iter().map(|c| (c.grid_x, c.grid_y)).collect();
    assert_eq!(positions, vec![(0, 0), (0, 1), (0, 2), (1, 0), (1, 1), (1, 2)]);
    positions.dedup();
    assert_eq!(positions.len(), 6);
    // Cell (1, 1): bottom-left 1, top-left 0, top-right 1, bottom-right 0.
    assert_eq!(contours[4].case_index, 10);
    assert_eq!(contours[4].vertices, template_for(10).unwrap());
}

#[test]
fn build_on_a_single_column_is_empty() {
    let grid = grid_of(&[&[0, 1, 1]]);
    assert_eq!(build_contours(&grid).len(), 0);
}

#[test]
fn all_outside_cell_is_empty() {
    let contours = build_contours(&grid_of(&[&[0, 0], &[0, 0]]));
    assert_eq!(contours.len(), 1);
    assert_eq!(contours[0].case_index, 0);
    assert!(contours[0].vertices.is_empty());
}

#[test]
fn all_inside_cell_is_empty() {
    let contours = build_contours(&grid_of(&[&[1, 1], &[1, 1]]));
    assert_eq!(contours.len(), 1);
    assert_eq!(contours[0].case_index, 15);
    assert!(contours[0].vertices.is_empty());
}

#[test]
fn top_left_cell_gives_case_four() {
    let contours = build_contours(&grid_of(&[&[0, 1], &[0, 0]]));
    assert_eq!(contours.len(), 1);
    assert_eq!((contours[0].grid_x, contours[0].grid_y), (0, 0));
    assert_eq!(contours[0].case_index, 4);
    assert_eq!(
        contours[0].vertices,
        vec![BoundaryPoint::B, BoundaryPoint::AB, BoundaryPoint::BC]
    );
}

#[test]
fn square_reads_corners_in_winding_order() {
    let grid = grid_of(&[&[1, 0, 0], &[0, 1, 1]]);
    assert_eq!(get_square(grid.cells(), 0, 0), Ok(vec![1, 0, 1, 0]));
    assert_eq!(get_square(grid.cells(), 0, 1), Ok(vec![0, 0, 1, 1]));
}

#[test]
fn square_at_last_column_is_out_of_range() {
    let grid = grid_of(&[&[0, 1, 0], &[1, 1, 0], &[0, 0, 1]]);
    let width = grid.width();
    assert!(get_square(grid.cells(), width - 2, 0).is_ok());
    assert_eq!(get_square(grid.cells(), width - 1, 0), Err(GridError::OutOfRange));
    assert_eq!(get_square(grid.cells(), 0, grid.height() - 1), Err(GridError::OutOfRange));
    assert_eq!(get_square(grid.cells(), usize::MAX, 0), Err(GridError::OutOfRange));
}

#[test]
fn from_flags_rejects_bad_shapes() {
    assert!(matches!(BinaryGrid::from_flags(&vec![]), Err(GridError::InvalidDimensions)));
    assert!(matches!(BinaryGrid::from_flags(&vec![vec![]]), Err(GridError::InvalidDimensions)));
    assert!(matches!(
        BinaryGrid::from_flags(&vec![vec![true, false], vec![true]]),
        Err(GridError::InvalidDimensions)
    ));
    assert!(matches!(
        BinaryGrid::from_flags(&vec![vec![true]; 256]),
        Err(GridError::InvalidDimensions)
    ));
    assert!(matches!(
        BinaryGrid::from_flags(&vec![vec![false; 256]]),
        Err(GridError::InvalidDimensions)
    ));
}

#[test]
fn from_flags_accepts_largest_size() {
    let grid = BinaryGrid::from_flags(&vec![vec![true; 255]; 255]).unwrap();
    assert_eq!(grid.width(), 255);
    assert_eq!(grid.height(), 255);
    let contours = build_contours(&grid);
    assert_eq!(contours.len(), 254 * 254);
    assert!(contours.iter().all(|c| c.case_index == 15));
}

#[test]
fn from_flags_stores_each_flag() {
    let grid = BinaryGrid::from_flags(&vec![vec![true, false, false], vec![false, false, true]]).unwrap();
    assert_eq!(grid.cells().get(0, 0), Some(&1));
    assert_eq!(grid.cells().get(0, 1), Some(&0));
    assert_eq!(grid.cells().get(1, 2), Some(&1));
    assert_eq!(grid.cells().get(1, 1), Some(&0));
}

#[test]
fn dimensions_must_be_positive() {
    assert_eq!(validate_dimensions(0, 5), Err(GridError::InvalidDimensions));
    assert_eq!(validate_dimensions(5, 0), Err(GridError::InvalidDimensions));
    assert_eq!(validate_dimensions(1, 1), Ok(()));
    assert_eq!(validate_dimensions(255, 2), Ok(()));
}

#[test]
fn off_boundaries_marks_edges() {
    assert!(off_boundaries(0, 3, 10));
    assert!(off_boundaries(3, 0, 10));
    assert!(off_boundaries(10, 3, 10));
    assert!(off_boundaries(3, 12, 10));
    assert!(!off_boundaries(1, 9, 10));
}
