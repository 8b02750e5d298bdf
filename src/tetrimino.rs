use vstd::prelude::*;

use crate::board::{Board, WIDTH};
use crate::engine::MoveDirection;
use crate::geometry::{Coordinate, Offset};

verus! {

/// Number of cells in every piece.
pub const CELL_COUNT: usize = 4;

/// The seven piece shapes.
#[derive(Clone, Copy, Debug, PartialEq, Eq, Structural)]
pub enum TType {
    O,
    I,
    T,
    J,
    L,
    S,
    Z,
}

/// Display color of a locked or falling cell.
#[derive(Clone, Copy, Debug, PartialEq, Eq, Structural)]
pub enum Color {
    Yellow,
    Cyan,
    Purple,
    Orange,
    Blue,
    Green,
    Red,
}

/// The four orientations, in clockwise order.
#[derive(Clone, Copy, Debug, PartialEq, Eq, Structural)]
pub enum Rotation {
    N,
    E,
    S,
    W,
}

/// All seven shapes, in their canonical order.
pub open spec fn all_types() -> Seq<TType> {
    seq![TType::O, TType::I, TType::T, TType::J, TType::L, TType::S, TType::Z]
}

impl TType {
    /// All seven shapes, in their canonical order.
    pub const ALL: [TType; 7] = [
        TType::O,
        TType::I,
        TType::T,
        TType::J,
        TType::L,
        TType::S,
        TType::Z,
    ];

    /// The four cells of the shape inside its local bounding grid.
    pub open spec fn footprint(self) -> Seq<(int, int)> {
        match self {
            TType::O => seq![(1, 1), (1, 2), (2, 1), (2, 2)],
            TType::I => seq![(0, 2), (1, 2), (2, 2), (3, 2)],
            TType::T => seq![(0, 1), (1, 1), (2, 1), (1, 2)],
            TType::L => seq![(0, 1), (1, 1), (2, 1), (2, 2)],
            TType::J => seq![(0, 2), (0, 1), (1, 1), (2, 1)],
            TType::S => seq![(0, 1), (1, 1), (1, 2), (2, 2)],
            TType::Z => seq![(0, 2), (1, 2), (1, 1), (2, 1)],
        }
    }

    pub open spec fn spec_grid_size(self) -> int {
        match self {
            TType::I => 4,
            _ => 3,
        }
    }

    pub open spec fn spec_color(self) -> Color {
        match self {
            TType::O => Color::Yellow,
            TType::I => Color::Cyan,
            TType::T => Color::Purple,
            TType::J => Color::Blue,
            TType::L => Color::Orange,
            TType::S => Color::Green,
            TType::Z => Color::Red,
        }
    }

    /// The shape's local cells as offsets.
    pub fn cells(&self) -> (r: [Offset; CELL_COUNT])
        ensures
            forall|i: int|
                0 <= i < 4 ==> (#[trigger] r@[i]).x == self.footprint()[i].0 && r@[i].y
                    == self.footprint()[i].1,
    {
        let r = match self {
            TType::O => [Offset::new(1, 1), Offset::new(1, 2), Offset::new(2, 1), Offset::new(2, 2)],
            TType::I => [Offset::new(0, 2), Offset::new(1, 2), Offset::new(2, 2), Offset::new(3, 2)],
            TType::T => [Offset::new(0, 1), Offset::new(1, 1), Offset::new(2, 1), Offset::new(1, 2)],
            TType::L => [Offset::new(0, 1), Offset::new(1, 1), Offset::new(2, 1), Offset::new(2, 2)],
            TType::J => [Offset::new(0, 2), Offset::new(0, 1), Offset::new(1, 1), Offset::new(2, 1)],
            TType::S => [Offset::new(0, 1), Offset::new(1, 1), Offset::new(1, 2), Offset::new(2, 2)],
            TType::Z => [Offset::new(0, 2), Offset::new(1, 2), Offset::new(1, 1), Offset::new(2, 1)],
        };
        assert(forall|i: int| 0 <= i < 4 ==> #[trigger] r@[i] == r[i]);
        r
    }

    /// Side of the shape's local bounding grid: 4 for the I piece, 3 otherwise.
    pub fn grid_size(&self) -> (r: isize)
        ensures
            r == self.spec_grid_size(),
    {
        match self {
            TType::I => 4,
            _ => 3,
        }
    }

    pub fn color(&self) -> (r: Color)
        ensures
            r == self.spec_color(),
    {
        match self {
            TType::O => Color::Yellow,
            TType::I => Color::Cyan,
            TType::T => Color::Purple,
            TType::J => Color::Blue,
            TType::L => Color::Orange,
            TType::S => Color::Green,
            TType::Z => Color::Red,
        }
    }
}

impl Rotation {
    /// The orientation one quarter turn clockwise.
    pub open spec fn spec_next(self) -> Rotation {
        match self {
            Rotation::N => Rotation::E,
            Rotation::E => Rotation::S,
            Rotation::S => Rotation::W,
            Rotation::W => Rotation::N,
        }
    }

    /// The orientation one quarter turn counter-clockwise.
    pub open spec fn spec_previous(self) -> Rotation {
        match self {
            Rotation::N => Rotation::W,
            Rotation::E => Rotation::N,
            Rotation::S => Rotation::E,
            Rotation::W => Rotation::S,
        }
    }

    /// The linear map of this orientation applied to a vector.
    pub open spec fn turn_spec(self, v: (int, int)) -> (int, int) {
        match self {
            Rotation::N => v,
            Rotation::E => (v.1, -v.0),
            Rotation::S => (-v.0, -v.1),
            Rotation::W => (-v.1, v.0),
        }
    }

    /// Corner of the bounding grid that the map sends the local origin to, in grid units.
    pub open spec fn spec_intrinsic_offset(self) -> (int, int) {
        match self {
            Rotation::N => (0, 0),
            Rotation::E => (0, 1),
            Rotation::S => (1, 1),
            Rotation::W => (1, 0),
        }
    }

    pub fn next(self) -> (r: Rotation)
        ensures
            r == self.spec_next(),
    {
        match self {
            Rotation::N => Rotation::E,
            Rotation::E => Rotation::S,
            Rotation::S => Rotation::W,
            Rotation::W => Rotation::N,
        }
    }

    pub fn previous(self) -> (r: Rotation)
        ensures
            r == self.spec_previous(),
    {
        match self {
            Rotation::N => Rotation::W,
            Rotation::E => Rotation::N,
            Rotation::S => Rotation::E,
            Rotation::W => Rotation::S,
        }
    }

    fn intrinsic_offset(&self) -> (r: Offset)
        ensures
            (r.x as int, r.y as int) == self.spec_intrinsic_offset(),
    {
        match self {
            Rotation::N => Offset::new(0, 0),
            Rotation::E => Offset::new(0, 1),
            Rotation::S => Offset::new(1, 1),
            Rotation::W => Offset::new(1, 0),
        }
    }

    /// Applies the orientation's linear map to `v`.
    pub fn turn(self, v: Offset) -> (r: Offset)
        requires
            v.x > isize::MIN,
            v.y > isize::MIN,
        ensures
            (r.x as int, r.y as int) == self.turn_spec((v.x as int, v.y as int)),
    {
        match self {
            Rotation::N => v,
            Rotation::E => Offset::new(v.y, -v.x),
            Rotation::S => Offset::new(-v.x, -v.y),
            Rotation::W => Offset::new(-v.y, v.x),
        }
    }
}

/// The local cell `c` of `tt` under orientation `rot`, relative to the piece's
/// position. The O piece is symmetric and is never turned; the others are
/// turned and then shifted back into their bounding grid, which the turn maps
/// onto itself.
pub open spec fn turn_local(tt: TType, rot: Rotation, c: (int, int)) -> (int, int) {
    if tt == TType::O {
        c
    } else {
        let t = rot.turn_spec(c);
        let g = tt.spec_grid_size() - 1;
        let k = rot.spec_intrinsic_offset();
        (t.0 + k.0 * g, t.1 + k.1 * g)
    }
}

/// The `i`-th cell of `tt` under orientation `rot`, relative to the piece's position.
pub open spec fn relative_cell(tt: TType, rot: Rotation, i: int) -> (int, int) {
    turn_local(tt, rot, tt.footprint()[i])
}

/// The `i`-th absolute cell of a piece of shape `tt` and orientation `rot` at (`px`, `py`).
pub open spec fn absolute_cell(tt: TType, rot: Rotation, px: int, py: int, i: int) -> (int, int) {
    let c = relative_cell(tt, rot, i);
    (c.0 + px, c.1 + py)
}

/// A cell that a `Coordinate` can hold, with its column inside the grid and its
/// row no higher than a signed offset can reach.
pub open spec fn representable(c: (int, int)) -> bool {
    0 <= c.0 < WIDTH && 0 <= c.1 <= isize::MAX
}

/// Every cell of the piece is representable.
pub open spec fn shape_fits(tt: TType, rot: Rotation, px: int, py: int) -> bool {
    forall|i: int| 0 <= i < 4 ==> representable(#[trigger] absolute_cell(tt, rot, px, py, i))
}

/// A piece: a shape, a position on the board and an orientation.
#[derive(Clone, Copy, Debug, PartialEq, Eq, Structural)]
pub struct Tetrimino {
    pub ttype: TType,
    pub position: Offset,
    pub rotation: Rotation,
}

impl Tetrimino {
    pub open spec fn cell(self, i: int) -> (int, int) {
        absolute_cell(self.ttype, self.rotation, self.position.x as int, self.position.y as int, i)
    }

    /// The same piece one step away in direction `d`.
    pub open spec fn shifted(self, d: MoveDirection) -> Tetrimino {
        Tetrimino {
            ttype: self.ttype,
            position: Offset {
                x: (self.position.x + d.spec_offset().0) as isize,
                y: (self.position.y + d.spec_offset().1) as isize,
            },
            rotation: self.rotation,
        }
    }

    /// The same piece in place, in orientation `rot`.
    pub open spec fn turned(self, rot: Rotation) -> Tetrimino {
        Tetrimino { ttype: self.ttype, position: self.position, rotation: rot }
    }

    pub open spec fn fits(self) -> bool {
        shape_fits(self.ttype, self.rotation, self.position.x as int, self.position.y as int)
    }

    pub fn new(ttype: TType, position: Offset, rotation: Rotation) -> (r: Tetrimino)
        ensures
            r.ttype == ttype,
            r.position == position,
            r.rotation == rotation,
    {
        Tetrimino { ttype, position, rotation }
    }

    /// The same piece moved one step in `direction`.
    pub fn from_direction(tetrimino: &Tetrimino, direction: &MoveDirection) -> (r: Tetrimino)
        requires
            isize::MIN <= tetrimino.position.x + direction.spec_offset().0 <= isize::MAX,
            isize::MIN <= tetrimino.position.y + direction.spec_offset().1 <= isize::MAX,
        ensures
            r.ttype == tetrimino.ttype,
            r.rotation == tetrimino.rotation,
            r.position.x == tetrimino.position.x + direction.spec_offset().0,
            r.position.y == tetrimino.position.y + direction.spec_offset().1,
    {
        Tetrimino {
            ttype: tetrimino.ttype,
            position: tetrimino.position.plus(direction.offset()),
            rotation: tetrimino.rotation,
        }
    }

    /// The four absolute cells of the piece, or `None` where one of them is
    /// negative, right of the grid's last column or beyond a signed offset's range.
    pub fn cells(&self) -> (r: Option<[Coordinate; CELL_COUNT]>)
        ensures
            r is Some <==> self.fits(),
            r is Some ==> forall|i: int|
                0 <= i < 4 ==> (#[trigger] r->0@[i]).x == self.cell(i).0 && r->0@[i].y
                    == self.cell(i).1,
    {
        let local = self.ttype.cells();
        let c0 = match self.place(local[0]) {
            Some(c) => c,
            None => return None,
        };
        let c1 = match self.place(local[1]) {
            Some(c) => c,
            None => return None,
        };
        let c2 = match self.place(local[2]) {
            Some(c) => c,
            None => return None,
        };
        let c3 = match self.place(local[3]) {
            Some(c) => c,
            None => return None,
        };
        let r = [c0, c1, c2, c3];
        assert(forall|i: int| 0 <= i < 4 ==> #[trigger] r@[i] == r[i]);
        Some(r)
    }

    /// Turns a local cell, shifts it back into the bounding grid and moves it to
    /// the piece's position; `None` where the result is not representable.
    fn place(&self, local: Offset) -> (r: Option<Coordinate>)
        requires
            exists|i: int|
                0 <= i < 4 && (local.x as int, local.y as int) == #[trigger] self.ttype.footprint()[i],
        ensures
            forall|i: int|
                0 <= i < 4 && (local.x as int, local.y as int) == #[trigger] self.ttype.footprint()[i]
                    ==> {
                    &&& (r is Some <==> representable(self.cell(i)))
                    &&& (r is Some ==> r->0.x == self.cell(i).0 && r->0.y == self.cell(i).1)
                },
    {
        let rel = self.rotate(local);
        let x = rel.x.checked_add(self.position.x);
        let y = rel.y.checked_add(self.position.y);
        match (x, y) {
            (Some(x), Some(y)) => {
                if x < 0 || y < 0 {
                    None
                } else {
                    let c = Coordinate::new(x as usize, y as usize);
                    if Board::is_valid_coord(c) {
                        Some(c)
                    } else {
                        None
                    }
                }
            },
            _ => None,
        }
    }

    /// Local cell turned by the piece's orientation and shifted back into its grid.
    fn rotate(&self, cell: Offset) -> (r: Offset)
        requires
            0 <= cell.x <= 3,
            0 <= cell.y <= 3,
        ensures
            (r.x as int, r.y as int) == turn_local(
                self.ttype,
                self.rotation,
                (cell.x as int, cell.y as int),
            ),
    {
        if self.ttype == TType::O {
            cell
        } else {
            let g = self.ttype.grid_size() - 1;
            let k = self.rotation.intrinsic_offset();
            let t = self.rotation.turn(cell);
            assert(0 <= k.x * g <= 3 && 0 <= k.y * g <= 3) by (nonlinear_arith)
                requires
                    0 <= k.x <= 1,
                    0 <= k.y <= 1,
                    2 <= g <= 3,
            ;
            Offset::new(t.x + k.x * g, t.y + k.y * g)
        }
    }
}

/// Every local cell lies in the 4x4 grid.
pub proof fn lemma_footprint_range(tt: TType, i: int)
    requires
        0 <= i < 4,
    ensures
        0 <= tt.footprint()[i].0 <= 3,
        0 <= tt.footprint()[i].1 <= 3,
{
}

/// A turned and shifted cell stays within three cells of its bounding grid.
pub proof fn lemma_relative_cell_range(tt: TType, rot: Rotation, i: int)
    requires
        0 <= i < 4,
    ensures
        -3 <= relative_cell(tt, rot, i).0 <= 6,
        -3 <= relative_cell(tt, rot, i).1 <= 6,
{
    lemma_footprint_range(tt, i);
    let g = tt.spec_grid_size() - 1;
    let k = rot.spec_intrinsic_offset();
    assert(0 <= k.0 * g <= 3 && 0 <= k.1 * g <= 3) by (nonlinear_arith)
        requires
            0 <= k.0 <= 1,
            0 <= k.1 <= 1,
            2 <= g <= 3,
    ;
}

/// The four cells of a piece are pairwise different, in every orientation.
pub proof fn lemma_relative_cells_distinct(tt: TType, rot: Rotation, i: int, j: int)
    requires
        0 <= i < 4,
        0 <= j < 4,
        i != j,
    ensures
        relative_cell(tt, rot, i) != relative_cell(tt, rot, j),
{
    assert(tt.footprint()[i] != tt.footprint()[j]);
}

/// In orientation N at position (0, 0) every shape occupies exactly its
/// canonical local cells.
pub proof fn lemma_north_is_canonical(tt: TType)
    ensures
        forall|i: int| 0 <= i < 4 ==> #[trigger] absolute_cell(tt, Rotation::N, 0, 0, i) == tt.footprint()[i],
{
    assert forall|i: int| 0 <= i < 4 implies #[trigger] absolute_cell(tt, Rotation::N, 0, 0, i) == tt.footprint()[i] by {
        let g = tt.spec_grid_size() - 1;
        assert(0 * g == 0);
    }
}

/// Four quarter turns give the identity: on vectors, on orientations, and so
/// on every absolute cell of a piece.
pub proof fn lemma_four_turns(t: Tetrimino, v: (int, int))
    ensures
        Rotation::E.turn_spec(Rotation::E.turn_spec(Rotation::E.turn_spec(Rotation::E.turn_spec(v)))) == v,
        t.rotation.spec_next().spec_next().spec_next().spec_next() == t.rotation,
        t.rotation.spec_previous().spec_previous().spec_previous().spec_previous() == t.rotation,
        forall|i: int| 0 <= i < 4 ==> #[trigger] t.turned(
            t.rotation.spec_next().spec_next().spec_next().spec_next(),
        ).cell(i) == t.cell(i),
{
}

/// The O piece is symmetric: its cells are the same in every orientation.
pub proof fn lemma_o_piece_symmetric(rot: Rotation, px: int, py: int)
    ensures
        forall|i: int| 0 <= i < 4 ==> #[trigger] absolute_cell(TType::O, rot, px, py, i) == absolute_cell(TType::O, Rotation::N, px, py, i),
{
}

/// Turning and shifting back maps the bounding grid of a shape into itself,
/// and different local cells to different cells; the grid is finite, so the
/// map is a bijection of the grid.
pub proof fn lemma_turn_permutes_grid(tt: TType, rot: Rotation, c: (int, int), d: (int, int))
    requires
        0 <= c.0 < tt.spec_grid_size(),
        0 <= c.1 < tt.spec_grid_size(),
    ensures
        0 <= turn_local(tt, rot, c).0 < tt.spec_grid_size(),
        0 <= turn_local(tt, rot, c).1 < tt.spec_grid_size(),
        turn_local(tt, rot, c) == turn_local(tt, rot, d) ==> c == d,
{
    let g = tt.spec_grid_size() - 1;
    match rot {
        Rotation::N => {
            assert(0 * g == 0);
        },
        Rotation::E => {
            assert(0 * g == 0 && 1 * g == g);
        },
        Rotation::S => {
            assert(1 * g == g);
        },
        Rotation::W => {
            assert(0 * g == 0 && 1 * g == g);
        },
    }
}

} // verus!
