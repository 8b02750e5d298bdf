use vstd::multiset::Multiset;
use vstd::prelude::*;

use crate::board::{
    Board, inside, lemma_lock_fills_only_empty_cells, lemma_placeable_cell, lemma_placeable_position_bounds, occupied,
    with_cells, with_piece, GRID_CELLS,
};
use crate::geometry::{Coordinate, Offset};
use crate::tetrimino::{
    Color, Rotation, TType, Tetrimino, absolute_cell, all_types, lemma_footprint_range,
    lemma_relative_cell_range,
};
use rand::rngs::ThreadRng;

verus! {

/// Column offset at which new pieces appear.
pub const SPAWN_X: isize = 3;

/// Row offset at which new pieces appear, near the top of the grid.
pub const SPAWN_Y: isize = 16;

/// rand's per-thread generator, carried through as an opaque value.
#[verifier::external_type_specification]
#[verifier::external_body]
pub struct ExThreadRng(ThreadRng);

/// Relies on rand::thread_rng: a handle to the thread's generator.
#[verifier::external_body]
fn new_rng() -> (r: ThreadRng) {
    rand::thread_rng()
}

/// Relies on rand's SliceRandom::shuffle for slices, which only swaps elements
/// of the slice: the result holds the same shapes, each as often as before.
#[verifier::external_body]
fn shuffle_types(bag: &mut Vec<TType>, rng: &mut ThreadRng)
    ensures
        final(bag)@.to_multiset() == old(bag)@.to_multiset(),
{
    rand::seq::SliceRandom::shuffle(bag.as_mut_slice(), rng)
}

/// A step of the falling piece.
#[derive(Clone, Copy, Debug, PartialEq, Eq, Structural)]
pub enum MoveDirection {
    Left,
    Right,
    Bottom,
}

impl MoveDirection {
    pub open spec fn spec_offset(&self) -> (int, int) {
        match self {
            MoveDirection::Left => (-1, 0),
            MoveDirection::Right => (1, 0),
            MoveDirection::Bottom => (0, -1),
        }
    }

    pub(crate) fn offset(&self) -> (r: Offset)
        ensures
            (r.x as int, r.y as int) == self.spec_offset(),
    {
        match self {
            MoveDirection::Left => Offset::new(-1, 0),
            MoveDirection::Right => Offset::new(1, 0),
            MoveDirection::Bottom => Offset::new(0, -1),
        }
    }
}

/// Why no new piece was put on the board.
#[derive(Clone, Copy, Debug, PartialEq, Eq, Structural)]
pub enum SpawnError {
    /// A piece is still falling.
    PieceActive,
    /// The new piece does not fit at the spawn position: the game is over.
    Blocked,
}

/// The piece of shape `tt` as it appears on the board.
pub open spec fn spawn_piece(tt: TType) -> Tetrimino {
    Tetrimino { ttype: tt, position: Offset { x: SPAWN_X, y: SPAWN_Y }, rotation: Rotation::N }
}

/// The shapes drawn since the bag was last refilled, followed by those still
/// in it, are the seven shapes, each once; before the first refill both are empty.
pub open spec fn bag_cycle(drawn: Seq<TType>, bag: Seq<TType>) -> bool {
    ||| drawn.len() == 0 && bag.len() == 0
    ||| drawn.to_multiset().add(bag.to_multiset()) == all_types().to_multiset()
}

impl Board {
    /// Where `t` comes to rest when moved down for as long as it can be placed.
    /// No placeable piece has its position below row -6, so the bound on the
    /// row only serves to make the descent finite.
    pub open spec fn landing(&self, t: Tetrimino) -> Tetrimino
        decreases t.position.y + 10,
    {
        if t.position.y > -10 && self.placeable(t.shifted(MoveDirection::Bottom)) {
            self.landing(t.shifted(MoveDirection::Bottom))
        } else {
            t
        }
    }
}

/// The game state: the locked cells, the bag of upcoming shapes and the
/// falling piece, if any.
pub struct Engine {
    board: Board,
    bag: Vec<TType>,
    rng: ThreadRng,
    cursor: Option<Tetrimino>,
    drawn: Ghost<Seq<TType>>,
}

impl Engine {
    /// The locked cells.
    pub closed spec fn board_view(&self) -> Board {
        self.board
    }

    /// The upcoming shapes; the last one is drawn next.
    pub closed spec fn bag_view(&self) -> Seq<TType> {
        self.bag@
    }

    /// The shapes drawn since the bag was last refilled, in order.
    pub closed spec fn drawn(&self) -> Seq<TType> {
        self.drawn@
    }

    /// The falling piece.
    pub closed spec fn cursor_view(&self) -> Option<Tetrimino> {
        self.cursor
    }

    /// The falling piece, when there is one, can always be placed where it is,
    /// and the bag is within a cycle of the seven shapes.
    pub open spec fn wf(&self) -> bool {
        &&& self.board_view().wf()
        &&& self.cursor_view() is Some ==> self.board_view().placeable(self.cursor_view()->0)
        &&& bag_cycle(self.drawn(), self.bag_view())
    }

    /// An empty board, an empty bag and no falling piece.
    pub fn new() -> (r: Engine)
        ensures
            r.wf(),
            forall|k: int| 0 <= k < GRID_CELLS ==> (#[trigger] r.board_view()@[k]) is None,
            r.bag_view().len() == 0,
            r.drawn().len() == 0,
            r.cursor_view() is None,
    {
        Engine {
            board: Board::empty(),
            bag: Vec::new(),
            rng: new_rng(),
            cursor: None,
            drawn: Ghost(Seq::empty()),
        }
    }

    /// Fills the empty bag with the seven shapes in a random order.
    fn regen_bag(&mut self)
        requires
            old(self).bag@.len() == 0,
        ensures
            final(self).bag@.to_multiset() == all_types().to_multiset(),
            final(self).bag@.len() == 7,
            forall|t: TType| #[trigger] final(self).bag@.to_multiset().count(t) == 1,
            final(self).board == old(self).board,
            final(self).cursor == old(self).cursor,
            final(self).drawn == old(self).drawn,
    {
        broadcast use vstd::seq_lib::group_to_multiset_ensures;

        self.fill_bag();
        self.shuffle_bag();
        proof {
            lemma_each_type_once(TType::O);
            vstd::seq_lib::to_multiset_len(self.bag@);
            vstd::seq_lib::to_multiset_len(all_types());
            assert forall|t: TType| #[trigger] self.bag@.to_multiset().count(t) == 1 by {
                lemma_each_type_once(t);
            }
        }
    }

    /// Appends the seven shapes, in their canonical order.
    fn fill_bag(&mut self)
        ensures
            final(self).bag@ == old(self).bag@ + all_types(),
            final(self).board == old(self).board,
            final(self).cursor == old(self).cursor,
            final(self).drawn == old(self).drawn,
    {
        self.bag.push(TType::O);
        self.bag.push(TType::I);
        self.bag.push(TType::T);
        self.bag.push(TType::J);
        self.bag.push(TType::L);
        self.bag.push(TType::S);
        self.bag.push(TType::Z);
        assert(self.bag@ =~= old(self).bag@ + all_types());
    }

    fn shuffle_bag(&mut self)
        ensures
            final(self).bag@.to_multiset() == old(self).bag@.to_multiset(),
            final(self).board == old(self).board,
            final(self).cursor == old(self).cursor,
            final(self).drawn == old(self).drawn,
    {
        shuffle_types(&mut self.bag, &mut self.rng);
    }

    /// Moves the falling piece one step in `direction` where the piece can be
    /// placed there; without a falling piece there is nothing to move.
    pub fn move_cursor(&mut self, direction: &MoveDirection) -> (r: Result<(), ()>)
        requires
            old(self).wf(),
        ensures
            final(self).wf(),
            final(self).board_view() == old(self).board_view(),
            final(self).bag_view() == old(self).bag_view(),
            final(self).drawn() == old(self).drawn(),
            old(self).cursor_view() is None ==> r is Ok && final(self).cursor_view() is None,
            old(self).cursor_view() is Some ==> {
                let moved = old(self).cursor_view()->0.shifted(*direction);
                &&& (r is Ok <==> old(self).board_view().placeable(moved))
                &&& (r is Ok ==> final(self).cursor_view() == Some(moved))
                &&& (r is Err ==> final(self).cursor_view() == old(self).cursor_view())
            },
    {
        let cursor = match self.cursor {
            Some(c) => c,
            None => return Ok(()),
        };
        proof {
            lemma_placeable_position_bounds(&self.board, cursor);
        }
        let future_tetrimino = Tetrimino::from_direction(&cursor, direction);
        assert(future_tetrimino == cursor.shifted(*direction));
        if self.board.is_clipping(&future_tetrimino) {
            return Err(());
        }
        self.cursor = Some(future_tetrimino);
        Ok(())
    }

    /// Moves the falling piece one row down, as `move_cursor` does.
    pub fn soft_drop(&mut self) -> (r: Result<(), ()>)
        requires
            old(self).wf(),
        ensures
            final(self).wf(),
            final(self).board_view() == old(self).board_view(),
            final(self).bag_view() == old(self).bag_view(),
            final(self).drawn() == old(self).drawn(),
            old(self).cursor_view() is None ==> r is Ok && final(self).cursor_view() is None,
            old(self).cursor_view() is Some ==> {
                let moved = old(self).cursor_view()->0.shifted(MoveDirection::Bottom);
                &&& (r is Ok <==> old(self).board_view().placeable(moved))
                &&& (r is Ok ==> final(self).cursor_view() == Some(moved))
                &&& (r is Err ==> final(self).cursor_view() == old(self).cursor_view())
            },
    {
        self.move_cursor(&MoveDirection::Bottom)
    }

    /// Whether the falling piece cannot move one row down; false without one.
    fn cursor_bottomed_out(&self) -> (r: bool)
        requires
            self.wf(),
        ensures
            self.cursor_view() is None ==> !r,
            self.cursor_view() is Some ==> (r <==> !self.board_view().placeable(
                self.cursor_view()->0.shifted(MoveDirection::Bottom),
            )),
    {
        let cursor = match &self.cursor {
            Some(c) => c,
            None => return false,
        };
        proof {
            lemma_placeable_position_bounds(&self.board, *cursor);
        }
        let future_tetrimino = Tetrimino::from_direction(cursor, &MoveDirection::Bottom);
        assert(future_tetrimino == cursor.shifted(MoveDirection::Bottom));
        self.board.is_clipping(&future_tetrimino)
    }

    /// Writes the falling piece's color into its cells and removes the piece.
    fn place_cursor(&mut self)
        requires
            old(self).wf(),
            old(self).cursor_view() is Some,
        ensures
            final(self).wf(),
            final(self).cursor_view() is None,
            final(self).board_view()@ == with_piece(
                old(self).board_view()@,
                old(self).cursor_view()->0,
            ),
            forall|i: int|
                0 <= i < 4 ==> old(self).board_view().at(#[trigger] old(self).cursor_view()->0.cell(i)) is None,
            forall|k: int|
                0 <= k < GRID_CELLS && (#[trigger] old(self).board_view()@[k]) is Some
                    ==> final(self).board_view()@[k] == old(self).board_view()@[k],
            occupied(final(self).board_view()@) == occupied(old(self).board_view()@) + 4,
            final(self).bag_view() == old(self).bag_view(),
            final(self).drawn() == old(self).drawn(),
    {
        let cursor = match self.cursor.take() {
            Some(c) => c,
            None => return,
        };
        let ghost b0 = self.board;
        let cells = match cursor.cells() {
            Some(cells) => cells,
            None => return,
        };
        let color = cursor.ttype.color();
        let mut i: usize = 0;
        while i < 4
            invariant
                i <= 4,
                b0.wf(),
                b0.placeable(cursor),
                color == cursor.ttype.spec_color(),
                self.board@ == with_cells(b0@, cursor, color, i as int),
                self.board.wf(),
                self.cursor is None,
                self.bag@ == old(self).bag@,
                self.drawn == old(self).drawn,
                bag_cycle(self.drawn@, self.bag@),
                forall|j: int|
                    0 <= j < 4 ==> (#[trigger] cells@[j]).x == cursor.cell(j).0 && cells@[j].y
                        == cursor.cell(j).1,
            decreases 4 - i,
        {
            let c = cells[i];
            assert(c == cells@[i as int]);
            proof {
                lemma_placeable_cell(&b0, cursor, i as int);
            }
            self.board.set(c, Some(color));
            i = i + 1;
        }
        proof {
            lemma_lock_fills_only_empty_cells(&b0, cursor);
        }
    }

    /// Drops the falling piece as far down as it can be placed and locks it there.
    pub fn hard_drop(&mut self)
        requires
            old(self).wf(),
            old(self).cursor_view() is Some,
        ensures
            final(self).wf(),
            final(self).cursor_view() is None,
            final(self).board_view()@ == with_piece(
                old(self).board_view()@,
                old(self).board_view().landing(old(self).cursor_view()->0),
            ),
            occupied(final(self).board_view()@) == occupied(old(self).board_view()@) + 4,
            final(self).bag_view() == old(self).bag_view(),
            final(self).drawn() == old(self).drawn(),
    {
        let ghost b0 = self.board;
        let ghost landed = b0.landing(self.cursor->0);
        loop
            invariant
                self.wf(),
                self.cursor is Some,
                self.board == b0,
                self.bag@ == old(self).bag@,
                self.drawn == old(self).drawn,
                b0.landing(self.cursor->0) == landed,
            ensures
                self.wf(),
                self.cursor is Some,
                self.board == b0,
                self.bag@ == old(self).bag@,
                self.drawn == old(self).drawn,
                self.cursor->0 == landed,
            decreases self.cursor->0.position.y + 10,
        {
            let ghost c = self.cursor->0;
            proof {
                lemma_placeable_position_bounds(&self.board, c);
            }
            match self.move_cursor(&MoveDirection::Bottom) {
                Ok(()) => {
                    proof {
                        lemma_placeable_position_bounds(&self.board, self.cursor->0);
                    }
                },
                Err(()) => {
                    break ;
                },
            }
        }
        proof {
            lemma_lock_fills_only_empty_cells(&b0, landed);
        }
        self.place_cursor();
    }

    /// Takes the next shape from the bag, refilling the bag with the seven
    /// shapes in a random order when it is empty.
    pub fn draw_next(&mut self) -> (r: TType)
        requires
            old(self).wf(),
        ensures
            final(self).wf(),
            final(self).board_view() == old(self).board_view(),
            final(self).cursor_view() == old(self).cursor_view(),
            final(self).drawn().len() > 0,
            r == final(self).drawn().last(),
            old(self).bag_view().len() > 0 ==> final(self).bag_view().push(r) == old(self).bag_view() && final(self).drawn() == old(self).drawn().push(r),
            old(self).bag_view().len() == 0 ==> final(self).drawn() == seq![r] && final(self).bag_view().push(r).to_multiset() == all_types().to_multiset(),
    {
        broadcast use vstd::seq_lib::group_to_multiset_ensures;

        if self.bag.len() == 0 {
            self.regen_bag();
            self.drawn = Ghost(Seq::empty());
            assert(self.drawn@.to_multiset().add(self.bag@.to_multiset()) =~= all_types().to_multiset());
        }
        assert(self.bag@.len() > 0) by {
            lemma_each_type_once(TType::O);
        }
        let ghost before = self.bag@;
        let tt = self.bag.pop().unwrap();
        assert(before == self.bag@.push(tt));
        let ghost d = self.drawn@;
        self.drawn = Ghost(self.drawn@.push(tt));
        assert(self.drawn@.to_multiset().add(self.bag@.to_multiset()) =~= d.to_multiset().add(
            before.to_multiset(),
        ));
        tt
    }

    /// Puts the next shape of the bag on the board at the spawn position.
    /// Fails while a piece is falling, and when the new piece does not fit,
    /// which ends the game; the shape is drawn either way.
    pub fn spawn_next(&mut self) -> (r: Result<(), SpawnError>)
        requires
            old(self).wf(),
        ensures
            final(self).wf(),
            final(self).board_view() == old(self).board_view(),
            old(self).cursor_view() is Some ==> r == Err::<(), SpawnError>(SpawnError::PieceActive)
                && final(self).cursor_view() == old(self).cursor_view() && final(self).bag_view()
                == old(self).bag_view() && final(self).drawn() == old(self).drawn(),
            old(self).cursor_view() is None ==> {
                let t = final(self).drawn().last();
                &&& final(self).drawn().len() > 0
                &&& old(self).bag_view().len() > 0 ==> final(self).bag_view().push(t) == old(self).bag_view() && final(self).drawn() == old(self).drawn().push(t)
                &&& old(self).bag_view().len() == 0 ==> final(self).drawn() == seq![t] && final(self).bag_view().push(t).to_multiset() == all_types().to_multiset()
                &&& (r is Ok <==> old(self).board_view().placeable(spawn_piece(t)))
                &&& r is Ok ==> final(self).cursor_view() == Some(spawn_piece(t))
                &&& r is Err ==> r == Err::<(), SpawnError>(SpawnError::Blocked) && final(self).cursor_view() is None
            },
    {
        if self.cursor.is_some() {
            return Err(SpawnError::PieceActive);
        }
        let tt = self.draw_next();
        let piece = Tetrimino::new(tt, Offset::new(SPAWN_X, SPAWN_Y), Rotation::N);
        if self.board.can_be_placed(&piece) {
            self.cursor = Some(piece);
            Ok(())
        } else {
            Err(SpawnError::Blocked)
        }
    }

    /// Turns the falling piece a quarter turn, clockwise or not, where the
    /// turned piece can be placed; without a falling piece there is nothing to turn.
    pub fn rotate_cursor(&mut self, clockwise: bool) -> (r: Result<(), ()>)
        requires
            old(self).wf(),
        ensures
            final(self).wf(),
            final(self).board_view() == old(self).board_view(),
            final(self).bag_view() == old(self).bag_view(),
            final(self).drawn() == old(self).drawn(),
            old(self).cursor_view() is None ==> r is Ok && final(self).cursor_view() is None,
            old(self).cursor_view() is Some ==> {
                let c = old(self).cursor_view()->0;
                let turned = c.turned(
                    if clockwise {
                        c.rotation.spec_next()
                    } else {
                        c.rotation.spec_previous()
                    },
                );
                &&& (r is Ok <==> old(self).board_view().placeable(turned))
                &&& (r is Ok ==> final(self).cursor_view() == Some(turned))
                &&& (r is Err ==> final(self).cursor_view() == old(self).cursor_view())
            },
    {
        let cursor = match self.cursor {
            Some(c) => c,
            None => return Ok(()),
        };
        let rotation = if clockwise {
            cursor.rotation.next()
        } else {
            cursor.rotation.previous()
        };
        let candidate = Tetrimino::new(cursor.ttype, cursor.position, rotation);
        if self.board.is_clipping(&candidate) {
            return Err(());
        }
        self.cursor = Some(candidate);
        Ok(())
    }

    /// The locked cells.
    pub fn board(&self) -> (r: &Board)
        ensures
            *r == self.board_view(),
    {
        &self.board
    }

    /// The falling piece, if any.
    pub fn cursor(&self) -> (r: Option<Tetrimino>)
        ensures
            r == self.cursor_view(),
    {
        self.cursor
    }

    /// Content of the locked cell at `coord`, which must lie on the grid.
    pub fn cell(&self, coord: Coordinate) -> (r: Option<Color>)
        requires
            self.wf(),
            inside((coord.x as int, coord.y as int)),
        ensures
            r == self.board_view().at((coord.x as int, coord.y as int)),
    {
        self.board.get(coord)
    }
}

/// Each of the seven shapes occurs once among all shapes.
pub proof fn lemma_each_type_once(t: TType)
    ensures
        all_types().to_multiset().count(t) == 1,
        all_types().len() == 7,
{
    broadcast use vstd::seq_lib::group_to_multiset_ensures;

    let s = Seq::<TType>::empty().push(TType::O).push(TType::I).push(TType::T).push(
        TType::J,
    ).push(TType::L).push(TType::S).push(TType::Z);
    assert(all_types() =~= s);
    assert(Seq::<TType>::empty().to_multiset() =~= Multiset::empty()) by {
        assert(Seq::<TType>::empty().to_multiset().len() == 0);
    }
}

/// On an empty board every shape fits at the spawn position, so a game never
/// ends on its first piece.
pub proof fn lemma_spawn_fits_empty_board(b: &Board, tt: TType)
    requires
        b.wf(),
        forall|k: int| 0 <= k < GRID_CELLS ==> (#[trigger] b@[k]) is None,
    ensures
        b.placeable(spawn_piece(tt)),
{
    let t = spawn_piece(tt);
    assert forall|i: int| 0 <= i < 4 implies inside(#[trigger] t.cell(i)) by {
        lemma_footprint_range(tt, i);
        lemma_relative_cell_range(tt, Rotation::N, i);
        assert(Rotation::N.spec_intrinsic_offset() == (0int, 0int));
        let g = tt.spec_grid_size() - 1;
        assert(0 * g == 0);
    }
    assert forall|i: int| 0 <= i < 4 implies inside(
        #[trigger] absolute_cell(tt, Rotation::N, SPAWN_X as int, SPAWN_Y as int, i),
    ) && b.at(absolute_cell(tt, Rotation::N, SPAWN_X as int, SPAWN_Y as int, i)) is None by {
        assert(inside(t.cell(i)));
    }
}

/// The bag is fair: within one cycle no shape is drawn twice, and once the
/// bag has run empty every shape has been drawn exactly once.
pub proof fn lemma_bag_fairness(e: &Engine)
    requires
        e.wf(),
    ensures
        forall|t: TType| #[trigger] e.drawn().to_multiset().count(t) <= 1,
        e.bag_view().len() == 0 && e.drawn().len() > 0 ==> forall|t: TType|
            #[trigger] e.drawn().to_multiset().count(t) == 1,
{
    broadcast use vstd::seq_lib::group_to_multiset_ensures;

    assert forall|t: TType| #[trigger] e.drawn().to_multiset().count(t) <= 1 by {
        lemma_each_type_once(t);
    }
    if e.bag_view().len() == 0 && e.drawn().len() > 0 {
        assert(e.bag_view().to_multiset() =~= Multiset::empty());
        assert forall|t: TType| #[trigger] e.drawn().to_multiset().count(t) == 1 by {
            lemma_each_type_once(t);
        }
    }
}

} // verus!
