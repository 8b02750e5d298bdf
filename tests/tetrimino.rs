use tetrs::{Color, Coordinate, MoveDirection, Offset, Rotation, TType, Tetrimino};

const ALL_TYPES: [TType; 7] = [TType::O, TType::I, TType::T, TType::J, TType::L, TType::S, TType::Z];
const ALL_ROTATIONS: [Rotation; 4] = [Rotation::N, Rotation::E, Rotation::S, Rotation::W];

fn coords(cells: [(usize, usize); 4]) -> [Coordinate; 4] {
    cells.map(|(x, y)| Coordinate::new(x, y))
}

#[test]
fn position_s_tetrimino() {
    let s_north = Tetrimino {
        ttype: TType::S,
        position: Offset::new(2, 3),
        rotation: Rotation::N,
    };
    let s_east = Tetrimino {
        ttype: TType::S,
        position: Offset::new(2, 3),
        rotation: Rotation::E,
    };
    let s_south = Tetrimino {
        ttype: TType::S,
        position: Offset::new(2, 3),
        rotation: Rotation::S,
    };
    let s_west = Tetrimino {
        ttype: TType::S,
        position: Offset::new(2, 3),
        rotation: Rotation::W,
    };

    assert_eq!(s_north.cells(), Some(coords([(2, 4), (3, 4), (3, 5), (4, 5)])));
    assert_eq!(s_east.cells(), Some(coords([(3, 5), (3, 4), (4, 4), (4, 3)])));
    assert_eq!(s_south.cells(), Some(coords([(4, 4), (3, 4), (3, 3), (2, 3)])));
    assert_eq!(s_west.cells(), Some(coords([(3, 3), (3, 4), (2, 4), (2, 5)])));
}

#[test]
fn north_at_origin_gives_the_canonical_footprints() {
    let expected: [[(usize, usize); 4]; 7] = [
        [(1, 1), (1, 2), (2, 1), (2, 2)],
        [(0, 2), (1, 2), (2, 2), (3, 2)],
        [(0, 1), (1, 1), (2, 1), (1, 2)],
        [(0, 2), (0, 1), (1, 1), (2, 1)],
        [(0, 1), (1, 1), (2, 1), (2, 2)],
        [(0, 1), (1, 1), (1, 2), (2, 2)],
        [(0, 2), (1, 2), (1, 1), (2, 1)],
    ];
    for (tt, cells) in ALL_TYPES.iter().zip(expected.iter()) {
        let t = Tetrimino::new(*tt, Offset::new(0, 0), Rotation::N);
        assert_eq!(t.cells(), Some(coords(*cells)));
    }
}

#[test]
fn four_turns_return_every_cell() {
    for tt in ALL_TYPES {
        for start in ALL_ROTATIONS {
            let t = Tetrimino::new(tt, Offset::new(3, 5), start);
            let mut r = start;
            for _ in 0..4 {
                r = r.next();
            }
            assert_eq!(r, start);
            assert_eq!(Tetrimino::new(tt, Offset::new(3, 5), r).cells(), t.cells());
            let mut back = start;
            for _ in 0..4 {
                back = back.previous();
            }
            assert_eq!(back, start);
        }
    }
    assert_eq!(Rotation::N.next(), Rotation::E);
    assert_eq!(Rotation::E.next(), Rotation::S);
    assert_eq!(Rotation::S.next(), Rotation::W);
    assert_eq!(Rotation::W.next(), Rotation::N);
    assert_eq!(Rotation::N.previous(), Rotation::W);
}

#[test]
fn turn_maps_vectors() {
    let v = Offset::new(2, 5);
    assert_eq!(Rotation::N.turn(v), Offset::new(2, 5));
    assert_eq!(Rotation::E.turn(v), Offset::new(5, -2));
    assert_eq!(Rotation::S.turn(v), Offset::new(-2, -5));
    assert_eq!(Rotation::W.turn(v), Offset::new(-5, 2));
    let mut w = v;
    for _ in 0..4 {
        w = Rotation::E.turn(w);
    }
    assert_eq!(w, v);
}

#[test]
fn o_piece_is_the_same_in_every_orientation() {
    let north = Tetrimino::new(TType::O, Offset::new(4, 6), Rotation::N).cells();
    assert_eq!(north, Some(coords([(5, 7), (5, 8), (6, 7), (6, 8)])));
    for r in ALL_ROTATIONS {
        assert_eq!(Tetrimino::new(TType::O, Offset::new(4, 6), r).cells(), north);
    }
}

#[test]
fn i_piece_turns_in_its_four_wide_grid() {
    let east = Tetrimino::new(TType::I, Offset::new(0, 0), Rotation::E);
    assert_eq!(east.cells(), Some(coords([(2, 3), (2, 2), (2, 1), (2, 0)])));
}

#[test]
fn cells_reject_unrepresentable_positions() {
    let left = Tetrimino::new(TType::T, Offset::new(-1, 0), Rotation::N);
    assert_eq!(left.cells(), None);
    let right = Tetrimino::new(TType::T, Offset::new(8, 0), Rotation::N);
    assert_eq!(right.cells(), None);
    let below = Tetrimino::new(TType::I, Offset::new(0, -3), Rotation::N);
    assert_eq!(below.cells(), None);
    let far = Tetrimino::new(TType::T, Offset::new(isize::MAX, 0), Rotation::N);
    assert_eq!(far.cells(), None);
    let top = Tetrimino::new(TType::T, Offset::new(0, isize::MAX), Rotation::N);
    assert_eq!(top.cells(), None);
    // Rows above the grid are still representable.
    let high = Tetrimino::new(TType::T, Offset::new(0, 100), Rotation::N);
    assert_eq!(high.cells(), Some(coords([(0, 101), (1, 101), (2, 101), (1, 102)])));
}

#[test]
fn from_direction_moves_without_turning() {
    let t = Tetrimino::new(TType::L, Offset::new(4, 9), Rotation::W);
    let l = Tetrimino::from_direction(&t, &MoveDirection::Left);
    let r = Tetrimino::from_direction(&t, &MoveDirection::Right);
    let b = Tetrimino::from_direction(&t, &MoveDirection::Bottom);
    assert_eq!(l, Tetrimino::new(TType::L, Offset::new(3, 9), Rotation::W));
    assert_eq!(r, Tetrimino::new(TType::L, Offset::new(5, 9), Rotation::W));
    assert_eq!(b, Tetrimino::new(TType::L, Offset::new(4, 8), Rotation::W));
}

#[test]
fn grid_sizes_and_colors() {
    assert_eq!(TType::I.grid_size(), 4);
    for tt in [TType::O, TType::T, TType::J, TType::L, TType::S, TType::Z] {
        assert_eq!(tt.grid_size(), 3);
    }
    assert_eq!(TType::O.color(), Color::Yellow);
    assert_eq!(TType::I.color(), Color::Cyan);
    assert_eq!(TType::T.color(), Color::Purple);
    assert_eq!(TType::J.color(), Color::Blue);
    assert_eq!(TType::L.color(), Color::Orange);
    assert_eq!(TType::S.color(), Color::Green);
    assert_eq!(TType::Z.color(), Color::Red);
}

#[test]
fn all_lists_the_seven_shapes_once() {
    assert_eq!(TType::ALL, ALL_TYPES);
    for (i, a) in TType::ALL.iter().enumerate() {
        for b in TType::ALL.iter().skip(i + 1) {
            assert_ne!(a, b);
        }
    }
}

#[test]
fn j_piece_mirrors_l_piece() {
    let j = Tetrimino::new(TType::J, Offset::new(0, 0), Rotation::N).cells().unwrap();
    let l = Tetrimino::new(TType::L, Offset::new(0, 0), Rotation::N).cells().unwrap();
    let mut mirrored: Vec<(usize, usize)> = l.iter().map(|c| (2 - c.x, c.y)).collect();
    let mut cells: Vec<(usize, usize)> = j.iter().map(|c| (c.x, c.y)).collect();
    mirrored.sort();
    cells.sort();
    assert_eq!(cells, mirrored);
}
