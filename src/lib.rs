//! The rules of a falling-block puzzle game: a fixed grid, seven tetromino
//! shapes with four orientations each, and the engine that moves, drops and
//! locks the falling piece.

mod board;
mod engine;
mod geometry;
mod tetrimino;

pub use board::{
    Board, GRID_CELLS, HEIGHT, WIDTH, index_of, inside, lemma_lock_fills_only_empty_cells, occupied,
    with_cells, with_piece,
};
pub use engine::{
    Engine, MoveDirection, SPAWN_X, SPAWN_Y, SpawnError, bag_cycle, lemma_bag_fairness,
    lemma_spawn_fits_empty_board, spawn_piece,
};
pub use geometry::{Coordinate, Offset};
pub use tetrimino::{
    CELL_COUNT, Color, Rotation, TType, Tetrimino, absolute_cell, all_types,
    lemma_four_turns, lemma_north_is_canonical, lemma_o_piece_symmetric, lemma_turn_permutes_grid,
    relative_cell, representable, shape_fits, turn_local,
};
