use vstd::prelude::*;

use crate::geometry::Coordinate;
use crate::tetrimino::{
    Color, Rotation, TType, Tetrimino, absolute_cell, lemma_relative_cell_range,
    lemma_relative_cells_distinct, relative_cell, shape_fits,
};

verus! {

/// Number of columns of the grid.
pub const WIDTH: usize = 10;

/// Number of rows of the grid; row 0 is the bottom one.
pub const HEIGHT: usize = 20;

/// Number of cells of the grid.
pub const GRID_CELLS: usize = WIDTH * HEIGHT;

/// Row-major position of a cell in the board's storage.
pub open spec fn index_of(c: (int, int)) -> int {
    c.1 * WIDTH + c.0
}

/// The cell lies on the grid.
pub open spec fn inside(c: (int, int)) -> bool {
    0 <= c.0 < WIDTH && 0 <= c.1 < HEIGHT
}

/// `s` with the first `n` cells of `t` set to `color`, in order.
pub open spec fn with_cells(s: Seq<Option<Color>>, t: Tetrimino, color: Color, n: int) -> Seq<
    Option<Color>,
>
    decreases n,
{
    if n <= 0 {
        s
    } else {
        with_cells(s, t, color, n - 1).update(index_of(t.cell(n - 1)), Some(color))
    }
}

/// `s` with every cell of `t` set to the color of its shape.
pub open spec fn with_piece(s: Seq<Option<Color>>, t: Tetrimino) -> Seq<Option<Color>> {
    with_cells(s, t, t.ttype.spec_color(), 4)
}

/// Number of occupied cells of `s`.
pub open spec fn occupied(s: Seq<Option<Color>>) -> nat
    decreases s.len(),
{
    if s.len() == 0 {
        0
    } else {
        occupied(s.drop_last()) + if s.last() is Some {
            1nat
        } else {
            0nat
        }
    }
}

/// The grid of locked cells: each one empty or holding the color of the piece
/// that was locked there.
pub struct Board {
    cells: Vec<Option<Color>>,
}

impl View for Board {
    type V = Seq<Option<Color>>;

    closed spec fn view(&self) -> Seq<Option<Color>> {
        self.cells@
    }
}

impl Board {
    pub open spec fn wf(&self) -> bool {
        self@.len() == GRID_CELLS
    }

    /// Content of the cell `c`.
    pub open spec fn at(&self, c: (int, int)) -> Option<Color> {
        self@[index_of(c)]
    }

    /// A piece of shape `tt` and orientation `rot` at (`px`, `py`) has all its cells
    /// representable, on the grid and empty.
    pub open spec fn placeable_at(&self, tt: TType, rot: Rotation, px: int, py: int) -> bool {
        &&& shape_fits(tt, rot, px, py)
        &&& forall|i: int|
            0 <= i < 4 ==> inside(#[trigger] absolute_cell(tt, rot, px, py, i)) && self.at(
                absolute_cell(tt, rot, px, py, i),
            ) is None
    }

    pub open spec fn placeable(&self, t: Tetrimino) -> bool {
        self.placeable_at(t.ttype, t.rotation, t.position.x as int, t.position.y as int)
    }

    /// A board with every cell empty.
    pub fn empty() -> (r: Board)
        ensures
            r.wf(),
            forall|k: int| 0 <= k < GRID_CELLS ==> (#[trigger] r@[k]) is None,
    {
        let mut cells: Vec<Option<Color>> = Vec::new();
        let mut k: usize = 0;
        while k < GRID_CELLS
            invariant
                k <= GRID_CELLS,
                cells@.len() == k,
                forall|j: int| 0 <= j < k ==> (#[trigger] cells@[j]) is None,
            decreases GRID_CELLS - k,
        {
            cells.push(None);
            k = k + 1;
        }
        Board { cells }
    }

    pub fn is_inside(coords: Coordinate) -> (r: bool)
        ensures
            r == (coords.x < WIDTH && coords.y < HEIGHT),
    {
        coords.x < WIDTH && coords.y < HEIGHT
    }

    /// Checks the column alone: rows above the grid still count as valid.
    pub fn is_valid_coord(coords: Coordinate) -> (r: bool)
        ensures
            r == (coords.x < WIDTH),
    {
        coords.x < WIDTH
    }

    pub fn coord_index(coord: Coordinate) -> (r: usize)
        requires
            coord.y * WIDTH + coord.x <= usize::MAX,
        ensures
            r == index_of((coord.x as int, coord.y as int)),
    {
        coord.y * WIDTH + coord.x
    }

    /// Content of the cell at `coord`, which must lie on the grid.
    pub fn get(&self, coord: Coordinate) -> (r: Option<Color>)
        requires
            self.wf(),
            inside((coord.x as int, coord.y as int)),
        ensures
            r == self.at((coord.x as int, coord.y as int)),
    {
        self.cells[Self::coord_index(coord)]
    }

    /// Writes the cell at `coord`, which must lie on the grid.
    pub fn set(&mut self, coord: Coordinate, value: Option<Color>)
        requires
            old(self).wf(),
            inside((coord.x as int, coord.y as int)),
        ensures
            final(self)@ == old(self)@.update(index_of((coord.x as int, coord.y as int)), value),
    {
        let k = Self::coord_index(coord);
        self.cells.set(k, value);
    }

    /// Whether every cell of `tetrimino` is representable, on the grid and empty.
    pub fn can_be_placed(&self, tetrimino: &Tetrimino) -> (r: bool)
        requires
            self.wf(),
        ensures
            r == self.placeable(*tetrimino),
    {
        let cells = match tetrimino.cells() {
            Some(cells) => cells,
            None => return false,
        };
        let mut i: usize = 0;
        while i < 4
            invariant
                i <= 4,
                self.wf(),
                tetrimino.fits(),
                forall|j: int|
                    0 <= j < 4 ==> (#[trigger] cells@[j]).x == tetrimino.cell(j).0 && cells@[j].y
                        == tetrimino.cell(j).1,
                forall|j: int|
                    0 <= j < i ==> inside(#[trigger] tetrimino.cell(j)) && self.at(
                        tetrimino.cell(j),
                    ) is None,
            decreases 4 - i,
        {
            let c = cells[i];
            assert(c == cells@[i as int]);
            if !Board::is_inside(c) || self.get(c).is_some() {
                return false;
            }
            i = i + 1;
        }
        assert forall|j: int| 0 <= j < 4 implies inside(
            #[trigger] absolute_cell(
                tetrimino.ttype,
                tetrimino.rotation,
                tetrimino.position.x as int,
                tetrimino.position.y as int,
                j,
            ),
        ) && self.at(tetrimino.cell(j)) is None by {
            assert(inside(tetrimino.cell(j)));
        }
        true
    }

    /// Whether `tetrimino` cannot stand here: a cell is not representable, off
    /// the grid, or occupied.
    pub fn is_clipping(&self, tetrimino: &Tetrimino) -> (r: bool)
        requires
            self.wf(),
        ensures
            r == !self.placeable(*tetrimino),
    {
        !self.can_be_placed(tetrimino)
    }
}

/// Each cell of a placeable piece lies on the grid and is empty.
pub proof fn lemma_placeable_cell(b: &Board, t: Tetrimino, i: int)
    requires
        b.placeable(t),
        0 <= i < 4,
    ensures
        inside(t.cell(i)),
        b.at(t.cell(i)) is None,
{
    assert(inside(absolute_cell(t.ttype, t.rotation, t.position.x as int, t.position.y as int, i)));
}

/// A piece that can be placed lies near the grid, so one step in any direction
/// stays far from the limits of `isize`.
pub proof fn lemma_placeable_position_bounds(b: &Board, t: Tetrimino)
    requires
        b.placeable(t),
    ensures
        -6 <= t.position.x <= 15,
        -6 <= t.position.y <= 25,
{
    lemma_relative_cell_range(t.ttype, t.rotation, 0);
    assert(inside(absolute_cell(t.ttype, t.rotation, t.position.x as int, t.position.y as int, 0)));
}

/// The four cells of a placeable piece sit at four different storage indices.
pub proof fn lemma_placeable_indices_distinct(b: &Board, t: Tetrimino, i: int, j: int)
    requires
        b.placeable(t),
        0 <= i < 4,
        0 <= j < 4,
        i != j,
    ensures
        index_of(t.cell(i)) != index_of(t.cell(j)),
{
    lemma_relative_cells_distinct(t.ttype, t.rotation, i, j);
    assert(inside(absolute_cell(t.ttype, t.rotation, t.position.x as int, t.position.y as int, i)));
    assert(inside(absolute_cell(t.ttype, t.rotation, t.position.x as int, t.position.y as int, j)));
}

/// Writing the first `n` cells of a placeable piece changes exactly their
/// entries and keeps the length.
pub proof fn lemma_with_cells_at(b: &Board, t: Tetrimino, color: Color, n: int, k: int)
    requires
        b.wf(),
        b.placeable(t),
        0 <= n <= 4,
        0 <= k < GRID_CELLS,
    ensures
        with_cells(b@, t, color, n).len() == GRID_CELLS,
        (exists|j: int| 0 <= j < n && index_of(#[trigger] t.cell(j)) == k) ==> with_cells(
            b@,
            t,
            color,
            n,
        )[k] == Some(color),
        (forall|j: int| 0 <= j < n ==> index_of(#[trigger] t.cell(j)) != k) ==> with_cells(
            b@,
            t,
            color,
            n,
        )[k] == b@[k],
    decreases n,
{
    if n > 0 {
        lemma_with_cells_at(b, t, color, n - 1, k);
        assert(inside(absolute_cell(t.ttype, t.rotation, t.position.x as int, t.position.y as int, n - 1)));
        if exists|j: int| 0 <= j < n && index_of(#[trigger] t.cell(j)) == k {
            let j = choose|j: int| 0 <= j < n && index_of(#[trigger] t.cell(j)) == k;
            if j < n - 1 {
                assert(exists|j: int| 0 <= j < n - 1 && index_of(#[trigger] t.cell(j)) == k);
            }
        }
    }
}

/// Setting one empty entry adds one occupied cell.
pub proof fn lemma_occupied_update(s: Seq<Option<Color>>, k: int, c: Color)
    requires
        0 <= k < s.len(),
        s[k] is None,
    ensures
        occupied(s.update(k, Some(c))) == occupied(s) + 1,
    decreases s.len(),
{
    let u = s.update(k, Some(c));
    if k == s.len() - 1 {
        assert(u.drop_last() =~= s.drop_last());
    } else {
        assert(u.drop_last() =~= s.drop_last().update(k, Some(c)));
        lemma_occupied_update(s.drop_last(), k, c);
    }
}

/// Writing the first `n` cells of a placeable piece adds `n` occupied cells.
pub proof fn lemma_with_cells_occupied(b: &Board, t: Tetrimino, color: Color, n: int)
    requires
        b.wf(),
        b.placeable(t),
        0 <= n <= 4,
    ensures
        occupied(with_cells(b@, t, color, n)) == occupied(b@) + n,
    decreases n,
{
    if n > 0 {
        lemma_with_cells_occupied(b, t, color, n - 1);
        let c = t.cell(n - 1);
        assert(inside(absolute_cell(t.ttype, t.rotation, t.position.x as int, t.position.y as int, n - 1)));
        assert forall|j: int| 0 <= j < n - 1 implies index_of(#[trigger] t.cell(j)) != index_of(c) by {
            lemma_placeable_indices_distinct(b, t, j, n - 1);
        }
        lemma_with_cells_at(b, t, color, n - 1, index_of(c));
        lemma_occupied_update(with_cells(b@, t, color, n - 1), index_of(c), color);
    }
}

/// Locking a placeable piece writes its color into its four cells, which were
/// empty, leaves every other cell as it was, and so never overwrites an
/// occupied cell; the board gains exactly four occupied cells.
pub proof fn lemma_lock_fills_only_empty_cells(b: &Board, t: Tetrimino)
    requires
        b.wf(),
        b.placeable(t),
    ensures
        with_piece(b@, t).len() == GRID_CELLS,
        forall|i: int| 0 <= i < 4 ==> b.at(#[trigger] t.cell(i)) is None,
        forall|i: int|
            0 <= i < 4 ==> with_piece(b@, t)[index_of(#[trigger] t.cell(i))] == Some(
                t.ttype.spec_color(),
            ),
        forall|k: int| 0 <= k < GRID_CELLS && (#[trigger] b@[k]) is Some ==> with_piece(b@, t)[k] == b@[k],
        occupied(with_piece(b@, t)) == occupied(b@) + 4,
{
    let color = t.ttype.spec_color();
    assert forall|i: int| 0 <= i < 4 implies b.at(#[trigger] t.cell(i)) is None by {
        assert(inside(absolute_cell(t.ttype, t.rotation, t.position.x as int, t.position.y as int, i)));
    }
    lemma_with_cells_at(b, t, color, 4, 0);
    assert forall|i: int| 0 <= i < 4 implies with_piece(b@, t)[index_of(#[trigger] t.cell(i))] == Some(color) by {
        assert(inside(absolute_cell(t.ttype, t.rotation, t.position.x as int, t.position.y as int, i)));
        lemma_with_cells_at(b, t, color, 4, index_of(t.cell(i)));
    }
    assert forall|k: int| 0 <= k < GRID_CELLS && (#[trigger] b@[k]) is Some implies with_piece(b@, t)[k] == b@[k] by {
        lemma_with_cells_at(b, t, color, 4, k);
    }
    lemma_with_cells_occupied(b, t, color, 4);
}

} // verus!
