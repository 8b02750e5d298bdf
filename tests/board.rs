use tetrs::{Board, Color, Coordinate, Offset, Rotation, TType, Tetrimino, HEIGHT, WIDTH};

#[test]
fn bounds_check() {
    let coords_out_x = Coordinate::new(10, 9);
    let coords_out_y = Coordinate::new(9, 20);
    let coords_in = Coordinate::new(9, 19);

    assert_eq!(Board::is_inside(coords_out_x), false);
    assert_eq!(Board::is_inside(coords_out_y), false);
    assert_eq!(Board::is_inside(coords_in), true);
}

#[test]
fn is_inside_matches_the_grid_bounds() {
    for x in 0..WIDTH + 3 {
        for y in 0..HEIGHT + 3 {
            let expected = x < 10 && y < 20;
            assert_eq!(Board::is_inside(Coordinate::new(x, y)), expected);
        }
    }
    assert!(Board::is_inside(Coordinate::new(0, 0)));
    assert!(!Board::is_inside(Coordinate::new(usize::MAX, 0)));
    assert!(!Board::is_inside(Coordinate::new(0, usize::MAX)));
}

#[test]
fn valid_coord_checks_the_column_only() {
    assert!(Board::is_valid_coord(Coordinate::new(9, 500)));
    assert!(!Board::is_valid_coord(Coordinate::new(10, 0)));
}

#[test]
fn coord_index_is_row_major() {
    assert_eq!(Board::coord_index(Coordinate::new(0, 0)), 0);
    assert_eq!(Board::coord_index(Coordinate::new(3, 2)), 23);
    assert_eq!(Board::coord_index(Coordinate::new(9, 19)), 199);
}

#[test]
fn empty_board_has_no_occupied_cell() {
    let b = Board::empty();
    for x in 0..WIDTH {
        for y in 0..HEIGHT {
            assert_eq!(b.get(Coordinate::new(x, y)), None);
        }
    }
}

#[test]
fn set_writes_one_cell() {
    let mut b = Board::empty();
    b.set(Coordinate::new(4, 7), Some(Color::Red));
    assert_eq!(b.get(Coordinate::new(4, 7)), Some(Color::Red));
    assert_eq!(b.get(Coordinate::new(5, 7)), None);
    assert_eq!(b.get(Coordinate::new(4, 8)), None);
}

fn piece(ttype: TType, x: isize, y: isize, rotation: Rotation) -> Tetrimino {
    Tetrimino::new(ttype, Offset::new(x, y), rotation)
}

#[test]
fn placement_on_an_empty_board() {
    let b = Board::empty();
    let t = piece(TType::T, 2, 3, Rotation::N);
    assert!(b.can_be_placed(&t));
    assert!(!b.is_clipping(&t));
}

#[test]
fn placement_fails_on_an_occupied_cell() {
    let mut b = Board::empty();
    // The S piece at (2, 3), orientation N, covers (3, 4) among others.
    b.set(Coordinate::new(3, 4), Some(Color::Blue));
    let t = piece(TType::S, 2, 3, Rotation::N);
    assert!(!b.can_be_placed(&t));
    assert!(b.is_clipping(&t));
    // A single occupied cell is enough, even with the other three empty.
    let other = piece(TType::S, 5, 3, Rotation::N);
    assert!(b.can_be_placed(&other));
}

#[test]
fn placement_fails_off_the_grid() {
    let b = Board::empty();
    // Left of the grid: a negative column.
    assert!(!b.can_be_placed(&piece(TType::T, -1, 3, Rotation::N)));
    // Right of the grid.
    assert!(!b.can_be_placed(&piece(TType::T, 8, 3, Rotation::N)));
    // Below the bottom row.
    assert!(!b.can_be_placed(&piece(TType::T, 2, -2, Rotation::N)));
    // Above the top row: representable, but not on the grid.
    let high = piece(TType::T, 2, 18, Rotation::N);
    assert!(high.cells().is_some());
    assert!(!b.can_be_placed(&high));
    assert!(b.is_clipping(&high));
    // Only one cell off the grid.
    assert!(b.is_clipping(&piece(TType::I, 7, 0, Rotation::N)));
    assert!(!b.is_clipping(&piece(TType::I, 6, 0, Rotation::N)));
}
