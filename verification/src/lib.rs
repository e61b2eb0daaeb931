//! A verified tic-tac-toe game core.
//!
//! The board is a 3x3 grid of optional player marks, addressed by 1-based
//! positions in row-major order. Whose turn it is derives from the parity of
//! the number of open cells, so turn order is a pure function of the grid.
//! `Board::make_move` is the single state transition: it validates a move
//! against the current grid and either applies it, reporting whether the game
//! goes on, is won, or is tied, or rejects it unchanged.

pub mod brains;
pub mod tic_tac_toe;
